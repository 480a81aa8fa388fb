use iced_blocks::browser::{tab_label, App, Command, Message, Tab};

const HOME: &str = "https://www.google.com";

fn ids(app: &App) -> Vec<usize> {
    app.tabs().iter().map(|t| t.id).collect()
}

fn open(id: usize, url: &str) -> Command {
    Command::Open { id, url: url.to_string() }
}


#[test]
fn display_title_fallbacks() {
    assert_eq!(Tab::display_title(Some("Page".into()), Some("https://a/".into())), "Page");
    assert_eq!(Tab::display_title(Some(String::new()), Some("https://a/".into())), "https://a/");
    assert_eq!(Tab::display_title(None, Some("https://a/".into())), "https://a/");
    assert_eq!(Tab::display_title(None, None), "New tab");
    assert_eq!(Tab::display_title(Some(String::new()), None), "New tab");
}

#[test]
fn tab_label_truncates() {
    assert_eq!(tab_label("short"), "short");
    assert_eq!(tab_label("12345678901234567890"), "12345678901234567890");
    assert_eq!(tab_label("123456789012345678901"), "12345678901234567890…");
    assert_eq!(tab_label("ééééééééééééééééééééé"), "éééééééééééééééééééé…");
}

#[test]
fn sync_url_only_on_change() {
    let mut t = Tab::new(3, "typed");
    t.sync_url(None);
    assert_eq!(t.url_input, "typed");
    t.sync_url(Some("https://a/".into()));
    assert_eq!(t.url_input, "https://a/");
    assert_eq!(t.last_seen_url.as_deref(), Some("https://a/"));
    t.url_input = "user typing".into();
    t.sync_url(Some("https://a/".into()));
    assert_eq!(t.url_input, "user typing");
    t.sync_url(None);
    assert_eq!(t.url_input, "user typing");
    assert_eq!(t.last_seen_url, None);
}

#[test]
fn new_app_has_home_tab() {
    let (app, cmds) = App::new();
    assert_eq!(ids(&app), vec![0]);
    assert_eq!(app.active(), 0);
    assert_eq!(app.tabs()[0].url_input, HOME);
    assert_eq!(cmds, vec![open(0, HOME), Command::Activate(0)]);
}

#[test]
fn new_tab_is_appended_and_active() {
    let (mut app, _) = App::new();
    let cmds = app.update(Message::NewTab);
    assert_eq!(ids(&app), vec![0, 1]);
    assert_eq!(app.active(), 1);
    assert_eq!(cmds, vec![open(1, HOME), Command::Deactivate(0), Command::Activate(1)]);
}

#[test]
fn select_tab_switches_activation() {
    let (mut app, _) = App::new();
    app.update(Message::NewTab);
    let cmds = app.update(Message::SelectTab(0));
    assert_eq!(app.active(), 0);
    assert_eq!(cmds, vec![Command::Deactivate(1), Command::Activate(0)]);
    assert_eq!(app.update(Message::SelectTab(0)), vec![]);
    assert_eq!(app.update(Message::SelectTab(42)), vec![]);
    assert_eq!(app.active(), 0);
}

#[test]
fn close_non_active_tab_keeps_active() {
    let (mut app, _) = App::new();
    app.update(Message::NewTab);
    app.update(Message::NewTab);
    // tabs 0 1 2, active 2
    let cmds = app.update(Message::CloseTab(0));
    assert_eq!(cmds, vec![Command::Deactivate(0), Command::Close(0)]);
    assert_eq!(ids(&app), vec![1, 2]);
    assert_eq!(app.tabs()[app.active()].id, 2);
}

#[test]
fn close_active_last_tab_activates_neighbour() {
    let (mut app, _) = App::new();
    app.update(Message::NewTab);
    app.update(Message::NewTab);
    let cmds = app.update(Message::CloseTab(2));
    assert_eq!(ids(&app), vec![0, 1]);
    assert_eq!(app.active(), 1);
    assert_eq!(cmds, vec![Command::Deactivate(2), Command::Close(2), Command::Activate(1)]);
}

#[test]
fn close_active_middle_tab_activates_next() {
    let (mut app, _) = App::new();
    app.update(Message::NewTab);
    app.update(Message::NewTab);
    app.update(Message::SelectTab(1));
    let cmds = app.update(Message::CloseTab(1));
    assert_eq!(ids(&app), vec![0, 2]);
    assert_eq!(app.active(), 1);
    assert_eq!(cmds, vec![Command::Deactivate(1), Command::Close(1), Command::Activate(2)]);
}

#[test]
fn close_only_tab_reopens_home() {
    let (mut app, _) = App::new();
    let cmds = app.update(Message::CloseTab(0));
    assert_eq!(ids(&app), vec![1]);
    assert_eq!(app.active(), 0);
    assert_eq!(
        cmds,
        vec![Command::Deactivate(0), Command::Close(0), open(1, HOME), Command::Activate(1)]
    );
    assert_eq!(app.update(Message::CloseTab(0)), vec![]);
}

#[test]
fn closed_ids_are_not_reused() {
    let (mut app, _) = App::new();
    app.update(Message::NewTab);
    app.update(Message::CloseTab(1));
    app.update(Message::NewTab);
    assert_eq!(ids(&app), vec![0, 2]);
}

#[test]
fn url_changed_and_go() {
    let (mut app, _) = App::new();
    app.update(Message::UrlChanged(0, "example.com".into()));
    assert_eq!(app.tabs()[0].url_input, "example.com");
    let cmds = app.update(Message::Go(0));
    assert_eq!(cmds, vec![Command::Navigate { id: 0, url: "https://example.com/".into() }]);
    app.update(Message::Navigated(0, "https://example.com/".into()));
    assert_eq!(app.tabs()[0].url_input, "https://example.com/");
    app.update(Message::UrlChanged(0, "   ".into()));
    assert_eq!(app.update(Message::Go(0)), vec![]);
    assert_eq!(app.update(Message::Go(9)), vec![]);
}

#[test]
fn history_commands_need_tab() {
    let (mut app, _) = App::new();
    assert_eq!(app.update(Message::Back(0)), vec![Command::GoBack(0)]);
    assert_eq!(app.update(Message::Forward(0)), vec![Command::GoForward(0)]);
    assert_eq!(app.update(Message::Reload(0)), vec![Command::Reload(0)]);
    assert_eq!(app.update(Message::Back(5)), vec![]);
}

#[test]
fn tick_syncs_and_opens_requested_tabs() {
    let (mut app, _) = App::new();
    let cmds = app.update(Message::Tick {
        current_url: Some("https://www.google.com/".into()),
        new_tab_urls: vec!["https://a.org/".into(), "https://b.org/".into()],
    });
    assert_eq!(app.tabs()[0].url_input, "https://www.google.com/");
    assert_eq!(ids(&app), vec![0, 1, 2]);
    assert_eq!(app.active(), 2);
    assert_eq!(app.tabs()[1].url_input, "https://a.org/");
    assert_eq!(
        cmds,
        vec![
            open(1, "https://a.org/"),
            Command::Deactivate(0),
            Command::Activate(1),
            open(2, "https://b.org/"),
            Command::Deactivate(1),
            Command::Activate(2),
        ]
    );
}

#[test]
fn tick_with_same_url_keeps_typing() {
    let (mut app, _) = App::new();
    app.update(Message::Tick { current_url: Some("https://x/".into()), new_tab_urls: vec![] });
    app.update(Message::UrlChanged(0, "half typed".into()));
    let cmds = app.update(Message::Tick { current_url: Some("https://x/".into()), new_tab_urls: vec![] });
    assert_eq!(cmds, vec![]);
    assert_eq!(app.tabs()[0].url_input, "half typed");
}
