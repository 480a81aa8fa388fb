use iced_blocks::cursor::{
    button_interaction, cursor_to_interaction, page_interaction, skin_interaction, Cursor,
    Interaction,
};
use iced_blocks::input::{
    route_input, ImeAction, ImeKind, InputEvent, InputRoute, KeyState, KeyboardKind, MouseButton,
    ServoWidgetState, TouchPhase,
};
use iced_blocks::resize::{PixelSize, ResizeDebounce, RESIZE_DEBOUNCE_MS};

#[test]
fn mouse_routing() {
    assert_eq!(route_input(InputEvent::CursorMoved, true, false, false), InputRoute::MouseMove);
    assert_eq!(route_input(InputEvent::CursorMoved, false, false, true), InputRoute::Ignore);
    assert_eq!(route_input(InputEvent::CursorLeft, false, false, false), InputRoute::MouseLeftViewport);
    assert_eq!(
        route_input(InputEvent::ButtonPressed(MouseButton::Left), true, false, false),
        InputRoute::MouseDown(MouseButton::Left)
    );
    assert_eq!(route_input(InputEvent::ButtonPressed(MouseButton::Right), false, false, false), InputRoute::Ignore);
    assert_eq!(route_input(InputEvent::ButtonPressed(MouseButton::Back), false, false, false), InputRoute::GoBack);
    assert_eq!(route_input(InputEvent::ButtonPressed(MouseButton::Forward), true, false, false), InputRoute::GoForward);
    assert_eq!(route_input(InputEvent::ButtonReleased(MouseButton::Back), true, false, false), InputRoute::Consume);
    assert_eq!(
        route_input(InputEvent::ButtonReleased(MouseButton::Other(7)), false, false, false),
        InputRoute::MouseUp(MouseButton::Other(7))
    );
    assert_eq!(route_input(InputEvent::WheelScrolled, true, false, false), InputRoute::Wheel);
    assert_eq!(route_input(InputEvent::WheelScrolled, false, false, false), InputRoute::Ignore);
}

#[test]
fn keyboard_and_ime_need_focus() {
    let k = InputEvent::Keyboard(KeyboardKind::KeyPressed);
    assert_eq!(route_input(k, true, true, false), InputRoute::Ignore);
    assert_eq!(route_input(k, false, false, true), InputRoute::Key(KeyState::Down));
    assert_eq!(
        route_input(InputEvent::Keyboard(KeyboardKind::KeyReleased), false, false, true),
        InputRoute::Key(KeyState::Up)
    );
    assert_eq!(route_input(InputEvent::Keyboard(KeyboardKind::ModifiersChanged), false, false, true), InputRoute::Ignore);
    assert_eq!(route_input(InputEvent::InputMethod(ImeKind::Opened), true, true, false), InputRoute::Ignore);
    assert_eq!(
        route_input(InputEvent::InputMethod(ImeKind::Preedit), false, false, true),
        InputRoute::Ime(ImeAction::CompositionUpdate)
    );
    assert_eq!(
        route_input(InputEvent::InputMethod(ImeKind::Commit), false, false, true),
        InputRoute::Ime(ImeAction::CompositionEnd)
    );
    assert_eq!(
        route_input(InputEvent::InputMethod(ImeKind::Closed), false, false, true),
        InputRoute::Ime(ImeAction::Dismissed)
    );
}

#[test]
fn touch_and_window_routing() {
    assert_eq!(route_input(InputEvent::Touch(TouchPhase::Pressed), false, false, false), InputRoute::Ignore);
    assert_eq!(
        route_input(InputEvent::Touch(TouchPhase::Pressed), false, true, false),
        InputRoute::Touch(TouchPhase::Pressed)
    );
    assert_eq!(
        route_input(InputEvent::Touch(TouchPhase::Lifted), false, false, false),
        InputRoute::Touch(TouchPhase::Lifted)
    );
    assert_eq!(route_input(InputEvent::WindowFocused, false, false, false), InputRoute::Focus);
    assert_eq!(route_input(InputEvent::WindowUnfocused, false, false, false), InputRoute::Blur);
    assert_eq!(route_input(InputEvent::Other, true, true, true), InputRoute::Ignore);
}

#[test]
fn click_to_focus() {
    let mut s = ServoWidgetState::default();
    assert!(!s.focused);
    s.update_focus(true, true);
    assert!(s.focused);
    s.update_focus(false, false);
    assert!(s.focused);
    assert!(s.captures(true, true));
    assert!(!s.captures(true, false));
    assert!(!s.captures(false, true));
    s.update_focus(true, false);
    assert!(!s.focused);
    assert!(!s.captures(true, true));
}

#[test]
fn cursor_mapping() {
    assert_eq!(cursor_to_interaction(Cursor::NoCursor), Interaction::Hidden);
    assert_eq!(cursor_to_interaction(Cursor::Default), Interaction::Default);
    assert_eq!(cursor_to_interaction(Cursor::VerticalText), Interaction::Text);
    assert_eq!(cursor_to_interaction(Cursor::AllScroll), Interaction::Move);
    assert_eq!(cursor_to_interaction(Cursor::WResize), Interaction::ResizingHorizontally);
    assert_eq!(cursor_to_interaction(Cursor::NsResize), Interaction::ResizingVertically);
    assert_eq!(cursor_to_interaction(Cursor::SwResize), Interaction::ResizingDiagonallyUp);
    assert_eq!(cursor_to_interaction(Cursor::NwseResize), Interaction::ResizingDiagonallyDown);
    assert_eq!(cursor_to_interaction(Cursor::ColResize), Interaction::ResizingColumn);
    assert_eq!(page_interaction(false, Cursor::Pointer), Interaction::Default);
    assert_eq!(page_interaction(true, Cursor::Pointer), Interaction::Pointer);
    assert_eq!(skin_interaction(true, false), Interaction::Grabbing);
    assert_eq!(skin_interaction(false, true), Interaction::Grab);
    assert_eq!(skin_interaction(false, false), Interaction::Default);
    assert_eq!(button_interaction(true), Interaction::Pointer);
    assert_eq!(button_interaction(false), Interaction::Default);
}

#[test]
fn resize_is_debounced() {
    let a = PixelSize { width: 800, height: 600 };
    let b = PixelSize { width: 1024, height: 768 };
    let cur = PixelSize { width: 640, height: 480 };
    let mut d = ResizeDebounce::new();
    assert_eq!(d.poll(cur, 0), None);
    d.request_size(a, 0);
    d.request_size(b, 10);
    d.request_size(b, 50);
    assert_eq!(d.pending, Some((b, 10)));
    assert_eq!(d.poll(cur, 10 + RESIZE_DEBOUNCE_MS - 1), None);
    assert_eq!(d.pending, Some((b, 10)));
    assert_eq!(d.poll(cur, 10 + RESIZE_DEBOUNCE_MS), Some(b));
    assert_eq!(d.pending, None);
    d.request_size(cur, 500);
    assert_eq!(d.poll(cur, 501), None);
    assert_eq!(d.pending, None);
}

use iced_blocks::input::{page_key, KeyInput, PageKey};

#[test]
fn page_key_prefers_modified() {
    assert_eq!(
        page_key(KeyInput::Character("A".into()), KeyInput::Character("a".into())),
        PageKey::Character("A".into())
    );
    assert_eq!(
        page_key(KeyInput::Unidentified, KeyInput::Named("Enter".into())),
        PageKey::Named("Enter".into())
    );
    assert_eq!(
        page_key(KeyInput::Named("Space".into()), KeyInput::Unidentified),
        PageKey::Character(" ".into())
    );
    assert_eq!(page_key(KeyInput::Unidentified, KeyInput::Unidentified), PageKey::Unidentified);
}
