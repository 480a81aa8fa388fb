use iced_blocks::flyout::{
    current_status, ButtonEvent, FlyoutEvent, FlyoutState, Status, DEFAULT_LONG_PRESS_MS,
};

const LP: u64 = DEFAULT_LONG_PRESS_MS;

fn ready(selected: usize) -> FlyoutState {
    let mut s = FlyoutState::default();
    s.resolve_selected(3, selected, None);
    s
}

#[test]
fn status_priority() {
    let mut s = FlyoutState::default();
    assert_eq!(current_status(&s, false), Status::Idle);
    assert_eq!(current_status(&s, true), Status::Hovered);
    s.pressed_at = Some(5);
    assert_eq!(current_status(&s, true), Status::Pressed);
    s.is_open = true;
    assert_eq!(current_status(&s, false), Status::Open);
}

#[test]
fn quick_click_activates_selected() {
    let mut s = ready(1);
    let r = s.on_button_event(ButtonEvent::LeftPressed, true, 1000, 3, LP);
    assert!(r.capture);
    assert_eq!(r.redraw_at, Some(1400));
    assert_eq!(r.activate, None);
    let r = s.on_button_event(ButtonEvent::LeftReleased, true, 1399, 3, LP);
    assert_eq!(r.activate, Some(1));
    assert!(r.capture && r.redraw);
    assert!(!s.is_open);
    assert_eq!(s.pressed_at, None);
}

#[test]
fn release_outside_does_not_activate() {
    let mut s = ready(0);
    s.on_button_event(ButtonEvent::LeftPressed, true, 0, 3, LP);
    let r = s.on_button_event(ButtonEvent::LeftReleased, false, 10, 3, LP);
    assert_eq!(r.activate, None);
}

#[test]
fn press_outside_is_ignored() {
    let mut s = ready(0);
    let r = s.on_button_event(ButtonEvent::LeftPressed, false, 0, 3, LP);
    assert!(!r.capture);
    assert_eq!(s.pressed_at, None);
}

#[test]
fn long_press_opens_flyout() {
    let mut s = ready(2);
    s.on_button_event(ButtonEvent::LeftPressed, true, 100, 3, LP);
    let r = s.on_button_event(ButtonEvent::RedrawRequested, true, 300, 3, LP);
    assert!(!s.is_open);
    assert_eq!(r.redraw_at, Some(500));
    let r = s.on_button_event(ButtonEvent::RedrawRequested, true, 500, 3, LP);
    assert!(s.is_open);
    assert!(r.redraw);
    assert_eq!(s.hovered_item, Some(2));
    assert_eq!(s.last_status, Some(Status::Open));
    let r = s.on_button_event(ButtonEvent::LeftReleased, true, 600, 3, LP);
    assert_eq!(r.activate, None);
    assert!(s.is_open);
}

#[test]
fn right_click_toggles_flyout() {
    let mut s = ready(7);
    let r = s.on_button_event(ButtonEvent::RightPressed, true, 0, 3, LP);
    assert!(s.is_open && r.capture);
    assert_eq!(s.hovered_item, Some(2));
    let r = s.on_button_event(ButtonEvent::RightPressed, false, 0, 3, LP);
    assert!(!s.is_open && r.capture);
}

#[test]
fn right_click_on_empty_does_nothing() {
    let mut s = FlyoutState::default();
    let r = s.on_button_event(ButtonEvent::RightPressed, true, 0, 0, LP);
    assert!(!s.is_open && !r.capture);
}

#[test]
fn left_click_outside_closes_open_flyout() {
    let mut s = ready(0);
    s.on_button_event(ButtonEvent::RightPressed, true, 0, 3, LP);
    let r = s.on_button_event(ButtonEvent::LeftPressed, false, 5, 3, LP);
    assert!(!s.is_open && r.capture && r.redraw);
}

#[test]
fn picking_a_row_swaps_target() {
    let mut s = ready(0);
    s.on_button_event(ButtonEvent::RightPressed, true, 0, 3, LP);
    let r = s.on_flyout_event(FlyoutEvent::CursorMoved { row: Some(2) }, 3);
    assert!(r.redraw);
    assert_eq!(s.hovered_item, Some(2));
    let r = s.on_flyout_event(FlyoutEvent::Pressed { row: Some(2), inside: true }, 3);
    assert_eq!(r.select, Some(2));
    assert!(!s.is_open);
    assert_eq!(s.selected, 2);
    s.on_button_event(ButtonEvent::LeftPressed, true, 50, 3, LP);
    let r = s.on_button_event(ButtonEvent::LeftReleased, true, 60, 3, LP);
    assert_eq!(r.activate, Some(2));
}

#[test]
fn gutter_click_is_swallowed() {
    let mut s = ready(0);
    s.is_open = true;
    let r = s.on_flyout_event(FlyoutEvent::Pressed { row: None, inside: true }, 3);
    assert!(r.capture && s.is_open);
    let r = s.on_flyout_event(FlyoutEvent::Pressed { row: None, inside: false }, 3);
    assert!(!r.capture && s.is_open);
}

#[test]
fn escape_closes_and_keeps_selection() {
    let mut s = ready(1);
    s.is_open = true;
    let r = s.on_flyout_event(FlyoutEvent::EscapePressed, 3);
    assert!(!s.is_open && r.capture);
    assert_eq!(s.selected, 1);
    assert_eq!(s.hovered_item, None);
}

#[test]
fn resolve_selection_rules() {
    let mut s = FlyoutState::default();
    assert_eq!(s.resolve_selected(3, 9, None), 2);
    assert!(s.initialized);
    assert_eq!(s.resolve_selected(3, 0, None), 2);
    assert_eq!(s.resolve_selected(3, 0, Some(1)), 1);
    assert_eq!(s.resolve_selected(0, 0, None), 0);
}

#[test]
fn status_change_requests_redraw() {
    let mut s = ready(0);
    s.on_button_event(ButtonEvent::RedrawRequested, false, 0, 3, LP);
    assert_eq!(s.last_status, Some(Status::Idle));
    let r = s.on_button_event(ButtonEvent::Other, true, 0, 3, LP);
    assert!(r.redraw);
}
