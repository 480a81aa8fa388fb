//! Tab management for the tabbed browser: the state of every tab's URL bar
//! and the decisions of the application's `update`, as a state machine that
//! answers each message with the commands the embedder runs on its webview
//! controllers.

use vstd::prelude::*;
use vstd::string::StrSliceExecFns;
use vstd::string::StringExecFns;

use crate::text::trim;
use crate::url_bar::{file_outcome, input_to_url, opt_view, url_resolution};

verus! {

/// The page a new tab opens.
pub open spec fn home_url() -> Seq<char> {
    "https://www.google.com"@
}

/// Mathematical model of a tab.
pub struct TabView {
    pub id: nat,
    pub url_input: Seq<char>,
    pub last_seen_url: Option<Seq<char>>,
}

/// One browser tab: its identifier, the text in its URL bar, and the page
/// URL last seen from its webview.
#[derive(Debug, Clone, PartialEq, Eq)]
pub struct Tab {
    pub id: usize,
    pub url_input: String,
    pub last_seen_url: Option<String>,
}

impl View for Tab {
    type V = TabView;

    open spec fn view(&self) -> TabView {
        TabView { id: self.id as nat, url_input: self.url_input@, last_seen_url: opt_view(self.last_seen_url) }
    }
}

/// A fresh tab whose URL bar holds `url`.
pub open spec fn new_tab_view(id: nat, url: Seq<char>) -> TabView {
    TabView { id, url_input: url, last_seen_url: None }
}

/// The tab after its webview reported `current` as the page URL: the URL
/// bar and the last seen URL follow it only when it differs from the last
/// seen one, and an absent URL leaves the URL bar as it is.
pub open spec fn sync_tab(t: TabView, current: Option<Seq<char>>) -> TabView {
    if current != t.last_seen_url {
        TabView {
            url_input: match current {
                Some(u) => u,
                None => t.url_input,
            },
            last_seen_url: current,
            ..t
        }
    } else {
        t
    }
}

/// The title shown for a tab: a non-empty page title, else the page URL,
/// else `New tab`.
pub open spec fn display_title_spec(title: Option<Seq<char>>, url: Option<Seq<char>>) -> Seq<
    char,
> {
    match title {
        Some(t) if t.len() > 0 => t,
        _ => match url {
            Some(u) => u,
            None => "New tab"@,
        },
    }
}

/// The label of a tab in the tab strip: at most 20 characters of the title,
/// followed by `…` when the title is longer.
pub open spec fn tab_label_spec(title: Seq<char>) -> Seq<char> {
    if title.len() > 20 {
        title.take(20) + "…"@
    } else {
        title
    }
}

/// Whether two optional strings hold the same text.
fn same_opt_string(a: &Option<String>, b: &Option<String>) -> (r: bool)
    ensures
        r == (opt_view(*a) == opt_view(*b)),
{
    match (a, b) {
        (Some(x), Some(y)) => x.eq(y),
        (None, None) => true,
        _ => false,
    }
}

impl Tab {
    /// A tab with the given identifier whose URL bar holds `url`.
    pub fn new(id: usize, url: &str) -> (t: Tab)
        ensures
            t@ == new_tab_view(id as nat, url@),
    {
        Tab { id, url_input: String::from_str(url), last_seen_url: None }
    }

    /// The title to show for the tab, from the page title and page URL its
    /// webview reports.
    pub fn display_title(title: Option<String>, url: Option<String>) -> (r: String)
        ensures
            r@ == display_title_spec(opt_view(title), opt_view(url)),
    {
        match title {
            Some(t) if t.as_str().unicode_len() > 0 => t,
            _ => match url {
                Some(u) => u,
                None => String::from_str("New tab"),
            },
        }
    }

    /// Keeps the URL bar in sync with the page's current URL, but only when
    /// it actually changes.
    pub fn sync_url(&mut self, current: Option<String>)
        ensures
            final(self)@ == sync_tab(old(self)@, opt_view(current)),
    {
        if !same_opt_string(&current, &self.last_seen_url) {
            if let Some(u) = &current {
                self.url_input = u.clone();
            }
            self.last_seen_url = current;
        }
    }
}

/// The label of a tab in the tab strip for the given title.
pub fn tab_label(title: &str) -> (r: String)
    ensures
        r@ == tab_label_spec(title@),
{
    let n = title.unicode_len();
    if n > 20 {
        let head = title.substring_char(0, 20);
        String::from_str(head).concat("…")
    } else {
        String::from_str(title)
    }
}

/// A tab's title is its page title when that is non-empty, else its page
/// URL, else `New tab`; its label is the title when at most 20 characters,
/// else the first 20 followed by `…`.
pub proof fn law_tab_title_and_label(t: Seq<char>, u: Seq<char>, title: Seq<char>)
    ensures
        t.len() > 0 ==> display_title_spec(Some(t), Some(u)) == t,
        display_title_spec(Some(Seq::empty()), Some(u)) == u,
        display_title_spec(None, Some(u)) == u,
        display_title_spec(None, None) == "New tab"@,
        title.len() <= 20 ==> tab_label_spec(title) == title,
        title.len() > 20 ==> tab_label_spec(title).len() == 21 && tab_label_spec(title).take(20)
            == title.take(20) && tab_label_spec(title).last() == '…',
{
    if title.len() > 20 {
        reveal_strlit("…");
        assert((title.take(20) + "…"@).take(20) =~= title.take(20));
    }
}

/// A newly reported page URL replaces what the URL bar holds and becomes
/// the last seen URL; a report of no URL after a page keeps the URL bar.
pub proof fn law_sync_follows_new_url(t: TabView, u: Seq<char>)
    ensures
        Some(u) != t.last_seen_url ==> sync_tab(t, Some(u)).url_input == u && sync_tab(
            t,
            Some(u),
        ).last_seen_url == Some(u),
        sync_tab(t, None).url_input == t.url_input,
        sync_tab(t, Some(u)).id == t.id,
{
}

/// The tab with `typed` in its URL bar.
pub open spec fn with_input(t: TabView, typed: Seq<char>) -> TabView {
    TabView { url_input: typed, ..t }
}

/// The URL bar follows the page only on a change: reporting the same page
/// URL again changes nothing, so text typed since the last change stays.
pub proof fn law_sync_only_on_change(t: TabView, current: Option<Seq<char>>, typed: Seq<char>)
    ensures
        sync_tab(sync_tab(t, current), current) == sync_tab(t, current),
        sync_tab(with_input(sync_tab(t, current), typed), current) == with_input(
            sync_tab(t, current),
            typed,
        ),
{
}

} // verus!

verus! {

/// Mathematical model of the browser's tab state.
pub struct AppView {
    pub tabs: Seq<TabView>,
    pub active: nat,
    pub next_id: nat,
}

/// A command the embedder runs on its webview controllers.
pub enum CommandView {
    Open { id: nat, url: Seq<char> },
    Activate(nat),
    Deactivate(nat),
    Close(nat),
    Navigate { id: nat, url: Seq<char> },
    GoBack(nat),
    GoForward(nat),
    Reload(nat),
}

/// A command for the embedder, addressed to the tab with the given id:
/// `Open` builds a webview (hidden) loading `url`, `Activate`/`Deactivate`
/// show or hide it, `Close` drops it, and the rest drive its navigation.
#[derive(Debug, Clone, PartialEq, Eq)]
pub enum Command {
    Open { id: usize, url: String },
    Activate(usize),
    Deactivate(usize),
    Close(usize),
    Navigate { id: usize, url: String },
    GoBack(usize),
    GoForward(usize),
    Reload(usize),
}

impl View for Command {
    type V = CommandView;

    open spec fn view(&self) -> CommandView {
        match self {
            Command::Open { id, url } => CommandView::Open { id: *id as nat, url: url@ },
            Command::Activate(id) => CommandView::Activate(*id as nat),
            Command::Deactivate(id) => CommandView::Deactivate(*id as nat),
            Command::Close(id) => CommandView::Close(*id as nat),
            Command::Navigate { id, url } => CommandView::Navigate { id: *id as nat, url: url@ },
            Command::GoBack(id) => CommandView::GoBack(*id as nat),
            Command::GoForward(id) => CommandView::GoForward(*id as nat),
            Command::Reload(id) => CommandView::Reload(*id as nat),
        }
    }
}

/// The views of a sequence of commands.
pub open spec fn commands_view(v: Seq<Command>) -> Seq<CommandView> {
    v.map_values(|c: Command| c@)
}

/// A message handled by the browser's `update`.
pub enum MessageView {
    Tick { current_url: Option<Seq<char>>, new_tab_urls: Seq<Seq<char>> },
    SelectTab(nat),
    CloseTab(nat),
    NewTab,
    UrlChanged(nat, Seq<char>),
    Go(nat),
    Navigated(nat, Seq<char>),
    Back(nat),
    Forward(nat),
    Reload(nat),
}

/// A message handled by [`App::update`]. `Tick` carries what the embedder
/// read from the webviews after ticking the active one: the active page's
/// URL and, in tab order, the URLs that pages asked to open in new tabs.
/// `Navigated` reports that the navigation of a tab to a URL was accepted.
#[derive(Debug, Clone, PartialEq, Eq)]
pub enum Message {
    Tick { current_url: Option<String>, new_tab_urls: Vec<String> },
    SelectTab(usize),
    CloseTab(usize),
    NewTab,
    UrlChanged(usize, String),
    Go(usize),
    Navigated(usize, String),
    Back(usize),
    Forward(usize),
    Reload(usize),
}

impl View for Message {
    type V = MessageView;

    open spec fn view(&self) -> MessageView {
        match self {
            Message::Tick { current_url, new_tab_urls } => MessageView::Tick {
                current_url: opt_view(*current_url),
                new_tab_urls: new_tab_urls@.map_values(|s: String| s@),
            },
            Message::SelectTab(id) => MessageView::SelectTab(*id as nat),
            Message::CloseTab(id) => MessageView::CloseTab(*id as nat),
            Message::NewTab => MessageView::NewTab,
            Message::UrlChanged(id, v) => MessageView::UrlChanged(*id as nat, v@),
            Message::Go(id) => MessageView::Go(*id as nat),
            Message::Navigated(id, v) => MessageView::Navigated(*id as nat, v@),
            Message::Back(id) => MessageView::Back(*id as nat),
            Message::Forward(id) => MessageView::Forward(*id as nat),
            Message::Reload(id) => MessageView::Reload(*id as nat),
        }
    }
}

/// The invariant of the tab state: at least one tab, the active index in
/// range, distinct tab ids, and every id below the next id to hand out.
pub open spec fn wf(s: AppView) -> bool {
    &&& s.tabs.len() > 0
    &&& s.active < s.tabs.len()
    &&& forall|i: int, j: int|
        #![trigger s.tabs[i], s.tabs[j]]
        0 <= i < j < s.tabs.len() ==> s.tabs[i].id != s.tabs[j].id
    &&& forall|i: int| #![trigger s.tabs[i]] 0 <= i < s.tabs.len() ==> s.tabs[i].id < s.next_id
}

/// The index of the tab with the given id, if there is one.
pub open spec fn tab_position(tabs: Seq<TabView>, id: nat) -> Option<int> {
    if exists|k: int| 0 <= k < tabs.len() && tabs[k].id == id {
        Some(choose|k: int| 0 <= k < tabs.len() && tabs[k].id == id)
    } else {
        None
    }
}

/// Whether the state has a tab with the given id.
pub open spec fn has_tab(s: AppView, id: nat) -> bool {
    exists|k: int| 0 <= k < s.tabs.len() && s.tabs[k].id == id
}

/// Makes the tab at `i` the active one: the previously active webview is
/// deactivated and the new one activated; nothing happens when `i` is
/// already active or out of range.
pub open spec fn set_active_spec(s: AppView, i: nat) -> (AppView, Seq<CommandView>) {
    if i == s.active || i >= s.tabs.len() {
        (s, seq![])
    } else {
        (
            AppView { active: i, ..s },
            seq![
                CommandView::Deactivate(s.tabs[s.active as int].id),
                CommandView::Activate(s.tabs[i as int].id),
            ],
        )
    }
}

/// Opens a new tab loading `url` with the next free id, appends it and
/// makes it active.
pub open spec fn open_tab_spec(s: AppView, url: Seq<char>) -> (AppView, Seq<CommandView>) {
    let id = s.next_id;
    let s1 = AppView { tabs: s.tabs.push(new_tab_view(id, url)), next_id: id + 1, ..s };
    let r = set_active_spec(s1, (s1.tabs.len() - 1) as nat);
    (r.0, seq![CommandView::Open { id, url }] + r.1)
}

/// Opens one new tab per URL, in order.
pub open spec fn open_tabs_spec(s: AppView, urls: Seq<Seq<char>>) -> (AppView, Seq<CommandView>)
    decreases urls.len(),
{
    if urls.len() == 0 {
        (s, seq![])
    } else {
        let r1 = open_tabs_spec(s, urls.drop_last());
        let r2 = open_tab_spec(r1.0, urls.last());
        (r2.0, r1.1 + r2.1)
    }
}

/// A tick: the active tab's URL bar follows the page URL, then every
/// requested new tab is opened and made active in turn.
pub open spec fn tick_spec(s: AppView, current: Option<Seq<char>>, urls: Seq<Seq<char>>) -> (
    AppView,
    Seq<CommandView>,
) {
    let s1 = AppView {
        tabs: s.tabs.update(s.active as int, sync_tab(s.tabs[s.active as int], current)),
        ..s
    };
    open_tabs_spec(s1, urls)
}

/// The active index after removing the tab at `idx` from `len` tabs.
pub open spec fn active_after_close(active: nat, idx: nat, remaining: nat) -> nat {
    if idx < active || active >= remaining {
        if active > 0 {
            (active - 1) as nat
        } else {
            0
        }
    } else {
        active
    }
}

/// Closing the tab with the given id: its webview is deactivated and
/// dropped; closing the only tab opens a fresh home tab; otherwise the
/// active index moves so that it keeps pointing at the same tab when that
/// tab stays, and a closed active tab hands activation to its neighbour.
pub open spec fn close_spec(s: AppView, id: nat) -> (AppView, Seq<CommandView>) {
    match tab_position(s.tabs, id) {
        None => (s, seq![]),
        Some(idx) => {
            let tabs1 = s.tabs.remove(idx);
            let c0 = seq![CommandView::Deactivate(id), CommandView::Close(id)];
            if tabs1.len() == 0 {
                let nid = s.next_id;
                (
                    AppView {
                        tabs: seq![new_tab_view(nid, home_url())],
                        active: 0,
                        next_id: nid + 1,
                    },
                    c0 + seq![
                        CommandView::Open { id: nid, url: home_url() },
                        CommandView::Activate(nid),
                    ],
                )
            } else {
                let a1 = active_after_close(s.active, idx as nat, tabs1.len());
                let s1 = AppView { tabs: tabs1, active: a1, next_id: s.next_id };
                if idx == s.active {
                    (s1, c0 + seq![CommandView::Activate(tabs1[a1 as int].id)])
                } else {
                    (s1, c0)
                }
            }
        },
    }
}

/// Sets the URL-bar text of the tab with the given id.
pub open spec fn set_input_spec(s: AppView, id: nat, v: Seq<char>) -> (AppView, Seq<CommandView>) {
    match tab_position(s.tabs, id) {
        None => (s, seq![]),
        Some(idx) => (
            AppView {
                tabs: s.tabs.update(idx, TabView { url_input: v, ..s.tabs[idx] }),
                ..s
            },
            seq![],
        ),
    }
}

/// Submitting the URL bar of the tab with the given id, where `file` is the
/// outcome of the file-path conversion of its trimmed input.
pub open spec fn go_spec(s: AppView, id: nat, file: Option<Seq<char>>) -> (
    AppView,
    Seq<CommandView>,
) {
    match tab_position(s.tabs, id) {
        None => (s, seq![]),
        Some(idx) => match url_resolution(trim(s.tabs[idx].url_input), file) {
            Some(target) => (s, seq![CommandView::Navigate { id, url: target }]),
            None => (s, seq![]),
        },
    }
}

/// A command for the tab with the given id, sent only when the tab exists.
pub open spec fn for_tab_spec(s: AppView, id: nat, c: CommandView) -> (AppView, Seq<CommandView>) {
    if has_tab(s, id) {
        (s, seq![c])
    } else {
        (s, seq![])
    }
}

/// The browser's transition for a message; `file` is the outcome of the
/// file-path conversion that a `Go` makes of the trimmed URL-bar input.
pub open spec fn step(s: AppView, m: MessageView, file: Option<Seq<char>>) -> (
    AppView,
    Seq<CommandView>,
) {
    match m {
        MessageView::Tick { current_url, new_tab_urls } => tick_spec(s, current_url, new_tab_urls),
        MessageView::SelectTab(id) => match tab_position(s.tabs, id) {
            Some(idx) => set_active_spec(s, idx as nat),
            None => (s, seq![]),
        },
        MessageView::CloseTab(id) => close_spec(s, id),
        MessageView::NewTab => open_tab_spec(s, home_url()),
        MessageView::UrlChanged(id, v) => set_input_spec(s, id, v),
        MessageView::Go(id) => go_spec(s, id, file),
        MessageView::Navigated(id, v) => set_input_spec(s, id, v),
        MessageView::Back(id) => for_tab_spec(s, id, CommandView::GoBack(id)),
        MessageView::Forward(id) => for_tab_spec(s, id, CommandView::GoForward(id)),
        MessageView::Reload(id) => for_tab_spec(s, id, CommandView::Reload(id)),
    }
}

/// How many new tab ids a message can hand out.
pub open spec fn new_ids(s: AppView, m: MessageView) -> nat {
    match m {
        MessageView::Tick { new_tab_urls, .. } => new_tab_urls.len(),
        MessageView::NewTab => 1,
        MessageView::CloseTab(id) => if s.tabs.len() == 1 && has_tab(s, id) {
            1
        } else {
            0
        },
        _ => 0,
    }
}

/// What a `Go` message may have met as outcome of the file-path conversion.
pub open spec fn go_file_ok(s: AppView, m: MessageView, file: Option<Seq<char>>) -> bool {
    match m {
        MessageView::Go(id) => match tab_position(s.tabs, id) {
            Some(idx) => file_outcome(trim(s.tabs[idx].url_input), file),
            None => file is None,
        },
        _ => file is None,
    }
}

} // verus!

verus! {

/// With distinct ids, the position of an id is the index holding it.
pub proof fn lemma_tab_position_unique(s: AppView, k: int)
    requires
        wf(s),
        0 <= k < s.tabs.len(),
    ensures
        tab_position(s.tabs, s.tabs[k].id) == Some(k),
{
    let id = s.tabs[k].id;
    assert(exists|j: int| 0 <= j < s.tabs.len() && s.tabs[j].id == id);
    let c = choose|j: int| 0 <= j < s.tabs.len() && s.tabs[j].id == id;
    if c != k {
        if c < k {
            assert(s.tabs[c].id != s.tabs[k].id);
        } else {
            assert(s.tabs[k].id != s.tabs[c].id);
        }
    }
}

/// A position found for an id holds that id.
pub proof fn lemma_tab_position_some(tabs: Seq<TabView>, id: nat)
    ensures
        tab_position(tabs, id) matches Some(k) ==> 0 <= k < tabs.len() && tabs[k].id == id,
        tab_position(tabs, id) is None ==> forall|k: int| 0 <= k < tabs.len() ==> tabs[k].id != id,
{
}

proof fn lemma_set_active_wf(s: AppView, i: nat)
    requires
        wf(s),
    ensures
        wf(set_active_spec(s, i).0),
        set_active_spec(s, i).0.tabs == s.tabs,
        set_active_spec(s, i).0.next_id == s.next_id,
{
}

proof fn lemma_open_tab_wf(s: AppView, url: Seq<char>)
    requires
        wf(s),
    ensures
        wf(open_tab_spec(s, url).0),
        open_tab_spec(s, url).0.next_id == s.next_id + 1,
        open_tab_spec(s, url).0.tabs == s.tabs.push(new_tab_view(s.next_id, url)),
        open_tab_spec(s, url).0.active == s.tabs.len(),
{
    let id = s.next_id;
    let s1 = AppView { tabs: s.tabs.push(new_tab_view(id, url)), next_id: id + 1, ..s };
    assert forall|i: int, j: int| 0 <= i < j < s1.tabs.len() implies s1.tabs[i].id
        != s1.tabs[j].id by {
        if j == s.tabs.len() {
            assert(s.tabs[i].id < id);
        } else {
            assert(s1.tabs[i] == s.tabs[i] && s1.tabs[j] == s.tabs[j]);
        }
    }
    assert forall|i: int| 0 <= i < s1.tabs.len() implies s1.tabs[i].id < s1.next_id by {
        if i < s.tabs.len() {
            assert(s1.tabs[i] == s.tabs[i]);
        }
    }
    assert(wf(s1));
    lemma_set_active_wf(s1, (s1.tabs.len() - 1) as nat);
}

proof fn lemma_open_tabs_wf(s: AppView, urls: Seq<Seq<char>>)
    requires
        wf(s),
    ensures
        wf(open_tabs_spec(s, urls).0),
        open_tabs_spec(s, urls).0.next_id == s.next_id + urls.len(),
    decreases urls.len(),
{
    if urls.len() > 0 {
        lemma_open_tabs_wf(s, urls.drop_last());
        lemma_open_tab_wf(open_tabs_spec(s, urls.drop_last()).0, urls.last());
    }
}

proof fn lemma_close_wf(s: AppView, id: nat)
    requires
        wf(s),
    ensures
        wf(close_spec(s, id).0),
        close_spec(s, id).0.next_id >= s.next_id,
{
    lemma_tab_position_some(s.tabs, id);
    match tab_position(s.tabs, id) {
        None => {},
        Some(idx) => {
            let tabs1 = s.tabs.remove(idx);
            if tabs1.len() > 0 {
                let a1 = active_after_close(s.active, idx as nat, tabs1.len());
                let s1 = AppView { tabs: tabs1, active: a1, next_id: s.next_id };
                assert forall|i: int, j: int| 0 <= i < j < tabs1.len() implies tabs1[i].id
                    != tabs1[j].id by {
                    let oi = if i < idx { i } else { i + 1 };
                    let oj = if j < idx { j } else { j + 1 };
                    assert(tabs1[i] == s.tabs[oi] && tabs1[j] == s.tabs[oj]);
                    assert(s.tabs[oi].id != s.tabs[oj].id);
                }
                assert forall|i: int| 0 <= i < tabs1.len() implies tabs1[i].id < s1.next_id by {
                    let oi = if i < idx { i } else { i + 1 };
                    assert(tabs1[i] == s.tabs[oi]);
                }
                assert(wf(s1));
            }
        },
    }
}

proof fn lemma_set_input_wf(s: AppView, id: nat, v: Seq<char>)
    requires
        wf(s),
    ensures
        wf(set_input_spec(s, id, v).0),
        set_input_spec(s, id, v).0.next_id == s.next_id,
{
    lemma_tab_position_some(s.tabs, id);
    match tab_position(s.tabs, id) {
        None => {},
        Some(idx) => {
            let s1 = set_input_spec(s, id, v).0;
            assert forall|i: int| 0 <= i < s1.tabs.len() implies s1.tabs[i].id == s.tabs[i].id by {}
        },
    }
}

proof fn lemma_tick_wf(s: AppView, current: Option<Seq<char>>, urls: Seq<Seq<char>>)
    requires
        wf(s),
    ensures
        wf(tick_spec(s, current, urls).0),
        tick_spec(s, current, urls).0.next_id == s.next_id + urls.len(),
{
    let s1 = AppView {
        tabs: s.tabs.update(s.active as int, sync_tab(s.tabs[s.active as int], current)),
        ..s
    };
    assert forall|i: int| 0 <= i < s1.tabs.len() implies s1.tabs[i].id == s.tabs[i].id by {}
    assert(wf(s1));
    lemma_open_tabs_wf(s1, urls);
}

/// Every transition keeps the invariant of the tab state: there is always
/// a tab, the active index names one of them, and tab ids are distinct and
/// below the next id to hand out.
pub proof fn law_step_keeps_invariant(s: AppView, m: MessageView, file: Option<Seq<char>>)
    requires
        wf(s),
    ensures
        wf(step(s, m, file).0),
        step(s, m, file).0.next_id == s.next_id + new_ids(s, m),
{
    match m {
        MessageView::Tick { current_url, new_tab_urls } => lemma_tick_wf(s, current_url, new_tab_urls),
        MessageView::SelectTab(id) => {
            lemma_tab_position_some(s.tabs, id);
            match tab_position(s.tabs, id) {
                Some(idx) => lemma_set_active_wf(s, idx as nat),
                None => {},
            }
        },
        MessageView::CloseTab(id) => {
            lemma_close_wf(s, id);
            lemma_tab_position_some(s.tabs, id);
            if s.tabs.len() == 1 && has_tab(s, id) {
                let k = choose|k: int| 0 <= k < s.tabs.len() && s.tabs[k].id == id;
                lemma_tab_position_unique(s, k);
            }
        },
        MessageView::NewTab => lemma_open_tab_wf(s, home_url()),
        MessageView::UrlChanged(id, v) => lemma_set_input_wf(s, id, v),
        MessageView::Navigated(id, v) => lemma_set_input_wf(s, id, v),
        _ => {},
    }
}

} // verus!

verus! {

/// The tab state of the browser: the tabs in strip order, the index of the
/// active one, and the next tab id to hand out.
pub struct App {
    tabs: Vec<Tab>,
    active: usize,
    next_id: usize,
}

impl View for App {
    type V = AppView;

    closed spec fn view(&self) -> AppView {
        AppView {
            tabs: self.tabs@.map_values(|t: Tab| t@),
            active: self.active as nat,
            next_id: self.next_id as nat,
        }
    }
}

fn push_command(cmds: &mut Vec<Command>, c: Command)
    ensures
        commands_view(final(cmds)@) == commands_view(old(cmds)@).push(c@),
{
    cmds.push(c);
    assert(commands_view(cmds@) =~= commands_view(old(cmds)@).push(c@));
}

impl App {
    /// The initial state: one tab on the home page, active.
    pub fn new() -> (r: (App, Vec<Command>))
        ensures
            wf(r.0@),
            r.0@ == (AppView { tabs: seq![new_tab_view(0, home_url())], active: 0, next_id: 1 }),
            commands_view(r.1@) == seq![
                CommandView::Open { id: 0, url: home_url() },
                CommandView::Activate(0),
            ],
    {
        let mut tabs = Vec::new();
        tabs.push(Tab::new(0, "https://www.google.com"));
        let app = App { tabs, active: 0, next_id: 1 };
        let mut cmds = Vec::new();
        push_command(&mut cmds, Command::Open { id: 0, url: String::from_str("https://www.google.com") });
        push_command(&mut cmds, Command::Activate(0));
        assert(app@.tabs =~= seq![new_tab_view(0, home_url())]);
        assert(commands_view(cmds@) =~= seq![
            CommandView::Open { id: 0, url: home_url() },
            CommandView::Activate(0),
        ]);
        (app, cmds)
    }

    /// The tabs, in strip order.
    pub fn tabs(&self) -> (r: &[Tab])
        ensures
            r@.map_values(|t: Tab| t@) == self@.tabs,
    {
        self.tabs.as_slice()
    }

    /// The next tab id to hand out.
    pub fn next_id(&self) -> (r: usize)
        ensures
            r == self@.next_id,
    {
        self.next_id
    }

    /// The index of the active tab.
    pub fn active(&self) -> (r: usize)
        ensures
            r == self@.active,
    {
        self.active
    }

    /// The index of the tab with the given id.
    pub fn tab_index(&self, id: usize) -> (r: Option<usize>)
        requires
            wf(self@),
        ensures
            match r {
                Some(k) => tab_position(self@.tabs, id as nat) == Some(k as int),
                None => tab_position(self@.tabs, id as nat) is None,
            },
    {
        let n = self.tabs.len();
        let mut i: usize = 0;
        while i < n
            invariant
                i <= n,
                n == self.tabs@.len(),
                n == self@.tabs.len(),
                wf(self@),
                forall|k: int| 0 <= k < i ==> self@.tabs[k].id != id as nat,
            decreases n - i,
        {
            if self.tabs[i].id == id {
                assert(self@.tabs[i as int] == self.tabs@[i as int]@);
                proof {
                    lemma_tab_position_unique(self@, i as int);
                }
                return Some(i);
            }
            assert(self@.tabs[i as int] == self.tabs@[i as int]@);
            i = i + 1;
        }
        None
    }

    fn set_active(&mut self, new_idx: usize, cmds: &mut Vec<Command>)
        requires
            wf(old(self)@),
        ensures
            final(self)@ == set_active_spec(old(self)@, new_idx as nat).0,
            commands_view(final(cmds)@) == commands_view(old(cmds)@) + set_active_spec(
                old(self)@,
                new_idx as nat,
            ).1,
    {
        if new_idx == self.active || new_idx >= self.tabs.len() {
            assert(commands_view(cmds@) =~= commands_view(cmds@) + seq![]);
            return ;
        }
        let ghost c0 = commands_view(cmds@);
        let old_id = self.tabs[self.active].id;
        let new_id = self.tabs[new_idx].id;
        assert(self@.tabs[self.active as int] == self.tabs@[self.active as int]@);
        assert(self@.tabs[new_idx as int] == self.tabs@[new_idx as int]@);
        push_command(cmds, Command::Deactivate(old_id));
        push_command(cmds, Command::Activate(new_id));
        self.active = new_idx;
        assert(commands_view(cmds@) =~= c0 + set_active_spec(old(self)@, new_idx as nat).1);
    }

    fn open_tab(&mut self, url: &str, cmds: &mut Vec<Command>)
        requires
            wf(old(self)@),
            old(self)@.next_id < usize::MAX,
        ensures
            final(self)@ == open_tab_spec(old(self)@, url@).0,
            commands_view(final(cmds)@) == commands_view(old(cmds)@) + open_tab_spec(
                old(self)@,
                url@,
            ).1,
    {
        let ghost s0 = self@;
        let ghost c0 = commands_view(cmds@);
        let id = self.next_id;
        self.next_id = self.next_id + 1;
        self.tabs.push(Tab::new(id, url));
        push_command(cmds, Command::Open { id, url: String::from_str(url) });
        let ghost s1 = AppView { tabs: s0.tabs.push(new_tab_view(id as nat, url@)), next_id: (id + 1) as nat, ..s0 };
        assert(self@.tabs =~= s1.tabs);
        assert(self@ == s1);
        proof {
            lemma_open_tab_wf(s0, url@);
            assert(wf(s1)) by {
                assert forall|i: int, j: int| 0 <= i < j < s1.tabs.len() implies s1.tabs[i].id
                    != s1.tabs[j].id by {
                    if j == s0.tabs.len() {
                        assert(s0.tabs[i].id < id);
                    } else {
                        assert(s1.tabs[i] == s0.tabs[i] && s1.tabs[j] == s0.tabs[j]);
                    }
                }
                assert forall|i: int| 0 <= i < s1.tabs.len() implies s1.tabs[i].id
                    < s1.next_id by {
                    if i < s0.tabs.len() {
                        assert(s1.tabs[i] == s0.tabs[i]);
                    }
                }
            }
        }
        let last = self.tabs.len() - 1;
        self.set_active(last, cmds);
        assert(commands_view(cmds@) =~= c0 + open_tab_spec(s0, url@).1);
    }

    fn tick(&mut self, current_url: Option<String>, new_tab_urls: &Vec<String>, cmds: &mut Vec<Command>)
        requires
            wf(old(self)@),
            old(self)@.next_id + new_tab_urls@.len() <= usize::MAX,
        ensures
            final(self)@ == tick_spec(
                old(self)@,
                opt_view(current_url),
                new_tab_urls@.map_values(|s: String| s@),
            ).0,
            commands_view(final(cmds)@) == commands_view(old(cmds)@) + tick_spec(
                old(self)@,
                opt_view(current_url),
                new_tab_urls@.map_values(|s: String| s@),
            ).1,
    {
        let ghost s0 = self@;
        let ghost c0 = commands_view(cmds@);
        let ghost urls = new_tab_urls@.map_values(|s: String| s@);
        let a = self.active;
        let mut t = self.tabs.remove(a);
        t.sync_url(current_url);
        self.tabs.insert(a, t);
        let ghost s1 = AppView {
            tabs: s0.tabs.update(a as int, sync_tab(s0.tabs[a as int], opt_view(current_url))),
            ..s0
        };
        assert(self@.tabs =~= s1.tabs);
        assert(self@ == s1);
        proof {
            assert forall|i: int| 0 <= i < s1.tabs.len() implies s1.tabs[i].id == s0.tabs[i].id by {}
            assert(wf(s1));
        }
        assert(commands_view(cmds@) =~= c0 + open_tabs_spec(s1, urls.take(0)).1);
        assert(urls.take(0) =~= Seq::<Seq<char>>::empty());
        let n = new_tab_urls.len();
        let mut i: usize = 0;
        while i < n
            invariant
                i <= n,
                n == new_tab_urls@.len(),
                urls == new_tab_urls@.map_values(|s: String| s@),
                wf(s1),
                s1.next_id + n <= usize::MAX,
                self@ == open_tabs_spec(s1, urls.take(i as int)).0,
                commands_view(cmds@) == c0 + open_tabs_spec(s1, urls.take(i as int)).1,
            decreases n - i,
        {
            proof {
                lemma_open_tabs_wf(s1, urls.take(i as int));
                assert(urls.take(i + 1).drop_last() =~= urls.take(i as int));
                assert(urls.take(i + 1).last() == new_tab_urls@[i as int]@);
            }
            self.open_tab(new_tab_urls[i].as_str(), cmds);
            assert(commands_view(cmds@) =~= c0 + open_tabs_spec(s1, urls.take(i + 1)).1);
            i = i + 1;
        }
        assert(urls.take(n as int) =~= urls);
    }

    fn close_tab(&mut self, id: usize, cmds: &mut Vec<Command>)
        requires
            wf(old(self)@),
            old(self)@.next_id + new_ids(old(self)@, MessageView::CloseTab(id as nat)) <= usize::MAX,
        ensures
            final(self)@ == close_spec(old(self)@, id as nat).0,
            commands_view(final(cmds)@) == commands_view(old(cmds)@) + close_spec(
                old(self)@,
                id as nat,
            ).1,
    {
        let ghost s0 = self@;
        let ghost c0 = commands_view(cmds@);
        proof {
            lemma_tab_position_some(s0.tabs, id as nat);
        }
        let idx = match self.tab_index(id) {
            Some(k) => k,
            None => {
                assert(commands_view(cmds@) =~= c0 + seq![]);
                return ;
            },
        };
        let was_active = idx == self.active;
        push_command(cmds, Command::Deactivate(id));
        self.tabs.remove(idx);
        push_command(cmds, Command::Close(id));
        let ghost tabs1 = s0.tabs.remove(idx as int);
        assert(self.tabs@.map_values(|t: Tab| t@) =~= tabs1);
        if self.tabs.len() == 0 {
            assert(has_tab(s0, id as nat));
            let nid = self.next_id;
            self.next_id = self.next_id + 1;
            self.tabs.push(Tab::new(nid, "https://www.google.com"));
            push_command(cmds, Command::Open { id: nid, url: String::from_str("https://www.google.com") });
            push_command(cmds, Command::Activate(nid));
            self.active = 0;
            assert(self@.tabs =~= seq![new_tab_view(nid as nat, home_url())]);
        } else {
            if idx < self.active || self.active >= self.tabs.len() {
                if self.active > 0 {
                    self.active = self.active - 1;
                } else {
                    self.active = 0;
                }
            }
            if was_active {
                let aid = self.tabs[self.active].id;
                assert(self@.tabs[self.active as int] == self.tabs@[self.active as int]@);
                push_command(cmds, Command::Activate(aid));
            }
        }
        assert(commands_view(cmds@) =~= c0 + close_spec(s0, id as nat).1);
    }

    fn set_input(&mut self, id: usize, v: String)
        requires
            wf(old(self)@),
        ensures
            final(self)@ == set_input_spec(old(self)@, id as nat, v@).0,
    {
        let ghost s0 = self@;
        proof {
            lemma_tab_position_some(s0.tabs, id as nat);
        }
        match self.tab_index(id) {
            Some(idx) => {
                let mut t = self.tabs.remove(idx);
                t.url_input = v;
                self.tabs.insert(idx, t);
                assert(self@.tabs =~= set_input_spec(s0, id as nat, v@).0.tabs);
            },
            None => {},
        }
    }

    fn go(&mut self, id: usize, cmds: &mut Vec<Command>) -> (ghost_file: Ghost<Option<Seq<char>>>)
        requires
            wf(old(self)@),
        ensures
            go_file_ok(old(self)@, MessageView::Go(id as nat), ghost_file@),
            final(self)@ == go_spec(old(self)@, id as nat, ghost_file@).0,
            commands_view(final(cmds)@) == commands_view(old(cmds)@) + go_spec(
                old(self)@,
                id as nat,
                ghost_file@,
            ).1,
    {
        let ghost s0 = self@;
        let ghost c0 = commands_view(cmds@);
        proof {
            lemma_tab_position_some(s0.tabs, id as nat);
        }
        match self.tab_index(id) {
            Some(idx) => {
                assert(s0.tabs[idx as int] == self.tabs@[idx as int]@);
                let target = input_to_url(self.tabs[idx].url_input.as_str());
                let ghost f = choose|f: Option<Seq<char>>|
                    file_outcome(trim(s0.tabs[idx as int].url_input), f) && opt_view(target)
                        == url_resolution(trim(s0.tabs[idx as int].url_input), f);
                match target {
                    Some(u) => push_command(cmds, Command::Navigate { id, url: u }),
                    None => {},
                }
                assert(commands_view(cmds@) =~= c0 + go_spec(s0, id as nat, f).1);
                Ghost(f)
            },
            None => {
                assert(commands_view(cmds@) =~= c0 + seq![]);
                Ghost(None)
            },
        }
    }
}

} // verus!

verus! {

impl App {
    /// Handles one message and returns, in order, the commands the embedder
    /// runs on its webview controllers. The transition is [`step`]; for
    /// `Go` it depends on the outcome of converting the trimmed URL-bar input
    /// into a `file` URL, which is platform-dependent.
    pub fn update(&mut self, message: Message) -> (r: Vec<Command>)
        requires
            wf(old(self)@),
            old(self)@.next_id + new_ids(old(self)@, message@) <= usize::MAX,
        ensures
            wf(final(self)@),
            exists|file: Option<Seq<char>>|
                go_file_ok(old(self)@, message@, file) && (final(self)@, commands_view(r@))
                    == step(old(self)@, message@, file),
            !(message@ is Go) ==> (final(self)@, commands_view(r@)) == step(
                old(self)@,
                message@,
                None,
            ),
    {
        let ghost s0 = self@;
        let mut cmds: Vec<Command> = Vec::new();
        assert(commands_view(cmds@) =~= Seq::<CommandView>::empty());
        let ghost mut file: Option<Seq<char>> = None;
        match message {
            Message::Tick { current_url, new_tab_urls } => {
                self.tick(current_url, &new_tab_urls, &mut cmds);
            },
            Message::SelectTab(id) => {
                proof {
                    lemma_tab_position_some(s0.tabs, id as nat);
                }
                match self.tab_index(id) {
                    Some(idx) => self.set_active(idx, &mut cmds),
                    None => {},
                }
            },
            Message::CloseTab(id) => {
                self.close_tab(id, &mut cmds);
            },
            Message::NewTab => {
                self.open_tab("https://www.google.com", &mut cmds);
            },
            Message::UrlChanged(id, value) => {
                self.set_input(id, value);
            },
            Message::Go(id) => {
                let g = self.go(id, &mut cmds);
                proof {
                    file = g@;
                }
            },
            Message::Navigated(id, target) => {
                self.set_input(id, target);
            },
            Message::Back(id) => {
                if self.tab_index(id).is_some() {
                    push_command(&mut cmds, Command::GoBack(id));
                }
            },
            Message::Forward(id) => {
                if self.tab_index(id).is_some() {
                    push_command(&mut cmds, Command::GoForward(id));
                }
            },
            Message::Reload(id) => {
                if self.tab_index(id).is_some() {
                    push_command(&mut cmds, Command::Reload(id));
                }
            },
        }
        assert(commands_view(cmds@) =~= step(s0, message@, file).1);
        proof {
            law_step_keeps_invariant(s0, message@, file);
        }
        cmds
    }
}

} // verus!


verus! {

/// Whether every tab of `r` either carries an id that a tab of `s` carried
/// or an id handed out between `s` and `r`.
pub open spec fn ids_old_or_fresh(s: AppView, r: AppView) -> bool {
    forall|k: int|
        #![trigger r.tabs[k]]
        0 <= k < r.tabs.len() ==> has_tab(s, r.tabs[k].id) || (s.next_id <= r.tabs[k].id
            < r.next_id)
}

proof fn lemma_same_ids_old(s: AppView, r: AppView)
    requires
        r.tabs.len() == s.tabs.len(),
        forall|k: int| 0 <= k < s.tabs.len() ==> r.tabs[k].id == s.tabs[k].id,
    ensures
        ids_old_or_fresh(s, r),
{
    assert forall|k: int| 0 <= k < r.tabs.len() implies has_tab(s, r.tabs[k].id) by {
        assert(s.tabs[k].id == r.tabs[k].id);
    }
}

proof fn lemma_open_tabs_fresh(s: AppView, urls: Seq<Seq<char>>)
    requires
        wf(s),
    ensures
        ids_old_or_fresh(s, open_tabs_spec(s, urls).0),
        open_tabs_spec(s, urls).0.next_id >= s.next_id,
    decreases urls.len(),
{
    lemma_open_tabs_wf(s, urls);
    if urls.len() == 0 {
        lemma_same_ids_old(s, s);
    } else {
        let r1 = open_tabs_spec(s, urls.drop_last()).0;
        lemma_open_tabs_fresh(s, urls.drop_last());
        lemma_open_tabs_wf(s, urls.drop_last());
        lemma_open_tab_wf(r1, urls.last());
        let r2 = open_tab_spec(r1, urls.last()).0;
        assert forall|k: int| 0 <= k < r2.tabs.len() implies has_tab(s, r2.tabs[k].id) || (
        s.next_id <= r2.tabs[k].id < r2.next_id) by {
            if k < r1.tabs.len() {
                assert(r2.tabs[k] == r1.tabs[k]);
            }
        }
    }
}

/// Tab ids are never reused: after any transition every tab carries
/// either an id some tab carried before, or an id handed out by this very
/// transition; and the next id never decreases.
pub proof fn law_ids_never_reused(s: AppView, m: MessageView, file: Option<Seq<char>>)
    requires
        wf(s),
    ensures
        ids_old_or_fresh(s, step(s, m, file).0),
        step(s, m, file).0.next_id >= s.next_id,
{
    law_step_keeps_invariant(s, m, file);
    let r = step(s, m, file).0;
    match m {
        MessageView::Tick { current_url, new_tab_urls } => {
            let s1 = AppView {
                tabs: s.tabs.update(s.active as int, sync_tab(s.tabs[s.active as int], current_url)),
                ..s
            };
            assert(wf(s1)) by {
                assert forall|i: int| 0 <= i < s1.tabs.len() implies s1.tabs[i].id
                    == s.tabs[i].id by {}
            }
            lemma_open_tabs_fresh(s1, new_tab_urls);
            assert forall|k: int| 0 <= k < r.tabs.len() implies has_tab(s, r.tabs[k].id) || (
            s.next_id <= r.tabs[k].id < r.next_id) by {
                if has_tab(s1, r.tabs[k].id) {
                    let j = choose|j: int| 0 <= j < s1.tabs.len() && s1.tabs[j].id == r.tabs[k].id;
                    assert(s.tabs[j].id == s1.tabs[j].id);
                }
            }
        },
        MessageView::SelectTab(id) => {
            lemma_tab_position_some(s.tabs, id);
            lemma_same_ids_old(s, r);
        },
        MessageView::CloseTab(id) => {
            lemma_tab_position_some(s.tabs, id);
            match tab_position(s.tabs, id) {
                None => lemma_same_ids_old(s, r),
                Some(idx) => {
                    let tabs1 = s.tabs.remove(idx);
                    if tabs1.len() > 0 {
                        assert forall|k: int| 0 <= k < r.tabs.len() implies has_tab(
                            s,
                            r.tabs[k].id,
                        ) by {
                            let j = if k < idx { k } else { k + 1 };
                            assert(s.tabs[j] == r.tabs[k]);
                        }
                    }
                },
            }
        },
        MessageView::NewTab => {
            lemma_open_tab_wf(s, home_url());
            assert forall|k: int| 0 <= k < r.tabs.len() implies has_tab(s, r.tabs[k].id) || (
            s.next_id <= r.tabs[k].id < r.next_id) by {
                if k < s.tabs.len() {
                    assert(s.tabs[k] == r.tabs[k]);
                }
            }
        },
        MessageView::UrlChanged(id, v) => {
            lemma_tab_position_some(s.tabs, id);
            lemma_same_ids_old(s, r);
        },
        MessageView::Navigated(id, v) => {
            lemma_tab_position_some(s.tabs, id);
            lemma_same_ids_old(s, r);
        },
        MessageView::Go(id) => {
            lemma_tab_position_some(s.tabs, id);
            lemma_same_ids_old(s, r);
        },
        _ => lemma_same_ids_old(s, r),
    }
}

/// Closing a tab removes it: no tab with that id remains.
pub proof fn law_close_removes_tab(s: AppView, id: nat)
    requires
        wf(s),
    ensures
        !has_tab(close_spec(s, id).0, id),
{
    lemma_tab_position_some(s.tabs, id);
    let r = close_spec(s, id).0;
    match tab_position(s.tabs, id) {
        None => {},
        Some(idx) => {
            let tabs1 = s.tabs.remove(idx);
            if tabs1.len() == 0 {
                assert(s.tabs[idx].id < s.next_id);
            } else {
                assert forall|k: int| 0 <= k < r.tabs.len() implies r.tabs[k].id != id by {
                    let j = if k < idx { k } else { k + 1 };
                    assert(s.tabs[j] == r.tabs[k]);
                    assert(s.tabs[j].id != s.tabs[idx].id);
                }
            }
        },
    }
}

/// Closing a tab other than the active one keeps the same tab active.
pub proof fn law_close_keeps_active_tab(s: AppView, id: nat)
    requires
        wf(s),
        has_tab(s, id),
        s.tabs[s.active as int].id != id,
    ensures
        close_spec(s, id).0.tabs[close_spec(s, id).0.active as int] == s.tabs[s.active as int],
        close_spec(s, id).1 == seq![CommandView::Deactivate(id), CommandView::Close(id)],
{
    lemma_tab_position_some(s.tabs, id);
    let idx = tab_position(s.tabs, id).unwrap();
    let tabs1 = s.tabs.remove(idx);
    assert(idx != s.active);
    let a1 = active_after_close(s.active, idx as nat, tabs1.len());
    if idx < s.active {
        assert(tabs1[a1 as int] == s.tabs[s.active as int]);
    } else {
        assert(tabs1[a1 as int] == s.tabs[s.active as int]);
    }
}

/// Closing the only tab replaces it with a fresh active tab on the home page.
pub proof fn law_close_last_tab_opens_home(s: AppView, id: nat)
    requires
        wf(s),
        s.tabs.len() == 1,
        s.tabs[0].id == id,
    ensures
        close_spec(s, id).0 == (AppView {
            tabs: seq![new_tab_view(s.next_id, home_url())],
            active: 0,
            next_id: s.next_id + 1,
        }),
        close_spec(s, id).1 == seq![
            CommandView::Deactivate(id),
            CommandView::Close(id),
            CommandView::Open { id: s.next_id, url: home_url() },
            CommandView::Activate(s.next_id),
        ],
{
    lemma_tab_position_unique(s, 0);
}

/// Selecting an existing tab makes it the active one and leaves the tabs
/// as they are.
pub proof fn law_select_activates(s: AppView, id: nat, file: Option<Seq<char>>)
    requires
        wf(s),
        has_tab(s, id),
    ensures
        step(s, MessageView::SelectTab(id), file).0.tabs == s.tabs,
        step(s, MessageView::SelectTab(id), file).0.tabs[step(
            s,
            MessageView::SelectTab(id),
            file,
        ).0.active as int].id == id,
{
    lemma_tab_position_some(s.tabs, id);
}

/// A new tab opens on the home page at the end of the strip, with a fresh
/// id, and becomes the active tab.
pub proof fn law_new_tab_is_active_home(s: AppView, file: Option<Seq<char>>)
    requires
        wf(s),
    ensures
        step(s, MessageView::NewTab, file).0.tabs == s.tabs.push(new_tab_view(s.next_id, home_url())),
        step(s, MessageView::NewTab, file).0.active == s.tabs.len(),
{
    lemma_open_tab_wf(s, home_url());
}

/// Typing into a URL bar changes the text of that tab only.
pub proof fn law_url_changed_only_that_tab(s: AppView, id: nat, v: Seq<char>, file: Option<Seq<char>>)
    requires
        wf(s),
        has_tab(s, id),
    ensures
        ({
            let r = step(s, MessageView::UrlChanged(id, v), file).0;
            &&& r.tabs.len() == s.tabs.len()
            &&& r.active == s.active
            &&& forall|k: int|
                0 <= k < s.tabs.len() ==> if s.tabs[k].id == id {
                    r.tabs[k] == TabView { url_input: v, ..s.tabs[k] }
                } else {
                    r.tabs[k] == s.tabs[k]
                }
        }),
{
    lemma_tab_position_some(s.tabs, id);
    let idx = tab_position(s.tabs, id).unwrap();
    assert forall|k: int| 0 <= k < s.tabs.len() && s.tabs[k].id == id implies k == idx by {
        if k != idx {
            if k < idx {
                assert(s.tabs[k].id != s.tabs[idx].id);
            } else {
                assert(s.tabs[idx].id != s.tabs[k].id);
            }
        }
    }
}

/// A tick whose page URL equals the URL last seen from the active tab, and
/// that opens no tab, changes nothing: what the user typed into the URL bar
/// survives.
pub proof fn law_tick_keeps_typed_input(s: AppView, file: Option<Seq<char>>)
    requires
        wf(s),
    ensures
        step(
            s,
            MessageView::Tick {
                current_url: s.tabs[s.active as int].last_seen_url,
                new_tab_urls: seq![],
            },
            file,
        ) == (s, Seq::<CommandView>::empty()),
{
    assert(s.tabs.update(s.active as int, s.tabs[s.active as int]) =~= s.tabs);
}

} // verus!
