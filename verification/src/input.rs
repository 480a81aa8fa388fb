//! Decisions of the webview's input translation: which window events are
//! forwarded to the page and as what, the click-to-focus state that gates
//! keyboard and IME input, and the cursor shown over the page.

use vstd::prelude::*;
use vstd::string::StringExecFns;

verus! {

/// A mouse button.
#[derive(Debug, Clone, Copy, PartialEq, Eq, Structural)]
pub enum MouseButton {
    Left,
    Right,
    Middle,
    Back,
    Forward,
    Other(u16),
}

/// The phase of a touch event.
#[derive(Debug, Clone, Copy, PartialEq, Eq, Structural)]
pub enum TouchPhase {
    Pressed,
    Moved,
    Lifted,
    Lost,
}

/// The kind of a keyboard event.
#[derive(Debug, Clone, Copy, PartialEq, Eq, Structural)]
pub enum KeyboardKind {
    KeyPressed,
    KeyReleased,
    ModifiersChanged,
}

/// The kind of an input-method event.
#[derive(Debug, Clone, Copy, PartialEq, Eq, Structural)]
pub enum ImeKind {
    Opened,
    Preedit,
    Commit,
    Closed,
}

/// A window event, reduced to what decides its routing.
#[derive(Debug, Clone, Copy, PartialEq, Eq, Structural)]
pub enum InputEvent {
    CursorMoved,
    CursorLeft,
    ButtonPressed(MouseButton),
    ButtonReleased(MouseButton),
    WheelScrolled,
    Keyboard(KeyboardKind),
    Touch(TouchPhase),
    InputMethod(ImeKind),
    WindowFocused,
    WindowUnfocused,
    Other,
}

/// The state of a key in a forwarded keyboard event.
#[derive(Debug, Clone, Copy, PartialEq, Eq, Structural)]
pub enum KeyState {
    Down,
    Up,
}

/// The composition step of a forwarded input-method event.
#[derive(Debug, Clone, Copy, PartialEq, Eq, Structural)]
pub enum ImeAction {
    CompositionStart,
    CompositionUpdate,
    CompositionEnd,
    Dismissed,
}

/// What to do with an event: forward it to the page as the given input, drive
/// the webview directly, consume it without forwarding, or leave it alone.
#[derive(Debug, Clone, Copy, PartialEq, Eq, Structural)]
pub enum InputRoute {
    /// The event is not for the page.
    Ignore,
    /// Consumed without forwarding anything.
    Consume,
    MouseMove,
    MouseLeftViewport,
    MouseDown(MouseButton),
    MouseUp(MouseButton),
    Wheel,
    GoBack,
    GoForward,
    Key(KeyState),
    Touch(TouchPhase),
    Ime(ImeAction),
    Focus,
    Blur,
}

/// Routing of one event. `cursor_in_bounds` tells whether the cursor is over
/// the webview, `touch_in_bounds` whether the touch point is, and `focused`
/// whether the webview holds click-to-focus.
pub open spec fn route_spec(
    event: InputEvent,
    cursor_in_bounds: bool,
    touch_in_bounds: bool,
    focused: bool,
) -> InputRoute {
    match event {
        InputEvent::CursorMoved => if cursor_in_bounds {
            InputRoute::MouseMove
        } else {
            InputRoute::Ignore
        },
        InputEvent::CursorLeft => InputRoute::MouseLeftViewport,
        InputEvent::ButtonPressed(b) => match b {
            MouseButton::Back => InputRoute::GoBack,
            MouseButton::Forward => InputRoute::GoForward,
            _ => if cursor_in_bounds {
                InputRoute::MouseDown(b)
            } else {
                InputRoute::Ignore
            },
        },
        InputEvent::ButtonReleased(b) => match b {
            MouseButton::Back | MouseButton::Forward => InputRoute::Consume,
            _ => InputRoute::MouseUp(b),
        },
        InputEvent::WheelScrolled => if cursor_in_bounds {
            InputRoute::Wheel
        } else {
            InputRoute::Ignore
        },
        InputEvent::Keyboard(k) => if !focused {
            InputRoute::Ignore
        } else {
            match k {
                KeyboardKind::KeyPressed => InputRoute::Key(KeyState::Down),
                KeyboardKind::KeyReleased => InputRoute::Key(KeyState::Up),
                KeyboardKind::ModifiersChanged => InputRoute::Ignore,
            }
        },
        InputEvent::Touch(p) => if p == TouchPhase::Pressed && !touch_in_bounds {
            InputRoute::Ignore
        } else {
            InputRoute::Touch(p)
        },
        InputEvent::InputMethod(k) => if !focused {
            InputRoute::Ignore
        } else {
            InputRoute::Ime(
                match k {
                    ImeKind::Opened => ImeAction::CompositionStart,
                    ImeKind::Preedit => ImeAction::CompositionUpdate,
                    ImeKind::Commit => ImeAction::CompositionEnd,
                    ImeKind::Closed => ImeAction::Dismissed,
                },
            )
        },
        InputEvent::WindowFocused => InputRoute::Focus,
        InputEvent::WindowUnfocused => InputRoute::Blur,
        InputEvent::Other => InputRoute::Ignore,
    }
}

/// Decides how an event reaches the webview. The event counts as consumed
/// (the widget asks for a redraw) exactly when the route is not `Ignore`.
pub fn route_input(event: InputEvent, cursor_in_bounds: bool, touch_in_bounds: bool, focused: bool) -> (r:
    InputRoute)
    ensures
        r == route_spec(event, cursor_in_bounds, touch_in_bounds, focused),
{
    match event {
        InputEvent::CursorMoved => if cursor_in_bounds {
            InputRoute::MouseMove
        } else {
            InputRoute::Ignore
        },
        InputEvent::CursorLeft => InputRoute::MouseLeftViewport,
        InputEvent::ButtonPressed(b) => match b {
            MouseButton::Back => InputRoute::GoBack,
            MouseButton::Forward => InputRoute::GoForward,
            _ => if cursor_in_bounds {
                InputRoute::MouseDown(b)
            } else {
                InputRoute::Ignore
            },
        },
        InputEvent::ButtonReleased(b) => match b {
            MouseButton::Back | MouseButton::Forward => InputRoute::Consume,
            _ => InputRoute::MouseUp(b),
        },
        InputEvent::WheelScrolled => if cursor_in_bounds {
            InputRoute::Wheel
        } else {
            InputRoute::Ignore
        },
        InputEvent::Keyboard(k) => if !focused {
            InputRoute::Ignore
        } else {
            match k {
                KeyboardKind::KeyPressed => InputRoute::Key(KeyState::Down),
                KeyboardKind::KeyReleased => InputRoute::Key(KeyState::Up),
                KeyboardKind::ModifiersChanged => InputRoute::Ignore,
            }
        },
        InputEvent::Touch(p) => if p == TouchPhase::Pressed && !touch_in_bounds {
            InputRoute::Ignore
        } else {
            InputRoute::Touch(p)
        },
        InputEvent::InputMethod(k) => if !focused {
            InputRoute::Ignore
        } else {
            let a = match k {
                ImeKind::Opened => ImeAction::CompositionStart,
                ImeKind::Preedit => ImeAction::CompositionUpdate,
                ImeKind::Commit => ImeAction::CompositionEnd,
                ImeKind::Closed => ImeAction::Dismissed,
            };
            InputRoute::Ime(a)
        },
        InputEvent::WindowFocused => InputRoute::Focus,
        InputEvent::WindowUnfocused => InputRoute::Blur,
        InputEvent::Other => InputRoute::Ignore,
    }
}

/// Keyboard and IME input reaches the page only while the webview holds
/// click-to-focus, so typing into other widgets never leaks into the page.
pub proof fn law_keyboard_gated_on_focus(
    k: KeyboardKind,
    ime: ImeKind,
    cursor_in_bounds: bool,
    touch_in_bounds: bool,
)
    ensures
        route_spec(InputEvent::Keyboard(k), cursor_in_bounds, touch_in_bounds, false)
            == InputRoute::Ignore,
        route_spec(InputEvent::InputMethod(ime), cursor_in_bounds, touch_in_bounds, false)
            == InputRoute::Ignore,
{
}

/// The extra mouse buttons drive history and are never forwarded as mouse
/// events, wherever the cursor is.
pub proof fn law_history_buttons(cursor_in_bounds: bool, touch_in_bounds: bool, focused: bool)
    ensures
        route_spec(
            InputEvent::ButtonPressed(MouseButton::Back),
            cursor_in_bounds,
            touch_in_bounds,
            focused,
        ) == InputRoute::GoBack,
        route_spec(
            InputEvent::ButtonPressed(MouseButton::Forward),
            cursor_in_bounds,
            touch_in_bounds,
            focused,
        ) == InputRoute::GoForward,
{
}

/// A button release is forwarded even when the cursor has left the
/// webview, so drags that end outside terminate cleanly.
pub proof fn law_release_always_forwarded(
    b: MouseButton,
    cursor_in_bounds: bool,
    touch_in_bounds: bool,
    focused: bool,
)
    requires
        b != MouseButton::Back && b != MouseButton::Forward,
    ensures
        route_spec(InputEvent::ButtonReleased(b), cursor_in_bounds, touch_in_bounds, focused)
            == InputRoute::MouseUp(b),
{
}

/// Touches that start outside the webview are dropped; moves, lifts and
/// cancellations are forwarded wherever they happen.
pub proof fn law_touch_starts_inside(p: TouchPhase, cursor_in_bounds: bool, focused: bool)
    ensures
        route_spec(InputEvent::Touch(TouchPhase::Pressed), cursor_in_bounds, false, focused)
            == InputRoute::Ignore,
        p != TouchPhase::Pressed ==> route_spec(
            InputEvent::Touch(p),
            cursor_in_bounds,
            false,
            focused,
        ) == InputRoute::Touch(p),
{
}

/// A press of any button but the history ones, with the cursor over the
/// page, reaches the page as a mouse-down of that same button; the same
/// press elsewhere is dropped.
pub proof fn law_press_inside_forwarded(b: MouseButton, touch_in_bounds: bool, focused: bool)
    requires
        b != MouseButton::Back,
        b != MouseButton::Forward,
    ensures
        route_spec(InputEvent::ButtonPressed(b), true, touch_in_bounds, focused)
            == InputRoute::MouseDown(b),
        route_spec(InputEvent::ButtonPressed(b), false, touch_in_bounds, focused)
            == InputRoute::Ignore,
{
}

/// How each kind of event reaches the page: cursor moves and wheel
/// scrolls only over the page; the cursor leaving always; key presses and
/// releases, and the input-method phases (opened, pre-edit, commit,
/// closed as composition start, update, end and dismissal), only while
/// focused, while a change of modifiers alone never; window focus and
/// blur always; anything else never.
pub proof fn law_route_by_event(cursor_in_bounds: bool, touch_in_bounds: bool)
    ensures
        route_spec(InputEvent::CursorMoved, true, touch_in_bounds, false) == InputRoute::MouseMove,
        route_spec(InputEvent::CursorMoved, false, touch_in_bounds, true) == InputRoute::Ignore,
        route_spec(InputEvent::WheelScrolled, true, touch_in_bounds, false) == InputRoute::Wheel,
        route_spec(InputEvent::WheelScrolled, false, touch_in_bounds, true) == InputRoute::Ignore,
        route_spec(InputEvent::CursorLeft, cursor_in_bounds, touch_in_bounds, false)
            == InputRoute::MouseLeftViewport,
        route_spec(
            InputEvent::Keyboard(KeyboardKind::KeyPressed),
            cursor_in_bounds,
            touch_in_bounds,
            true,
        ) == InputRoute::Key(KeyState::Down),
        route_spec(
            InputEvent::Keyboard(KeyboardKind::KeyReleased),
            cursor_in_bounds,
            touch_in_bounds,
            true,
        ) == InputRoute::Key(KeyState::Up),
        route_spec(
            InputEvent::Keyboard(KeyboardKind::ModifiersChanged),
            cursor_in_bounds,
            touch_in_bounds,
            true,
        ) == InputRoute::Ignore,
        route_spec(InputEvent::InputMethod(ImeKind::Opened), cursor_in_bounds, touch_in_bounds, true)
            == InputRoute::Ime(ImeAction::CompositionStart),
        route_spec(
            InputEvent::InputMethod(ImeKind::Preedit),
            cursor_in_bounds,
            touch_in_bounds,
            true,
        ) == InputRoute::Ime(ImeAction::CompositionUpdate),
        route_spec(InputEvent::InputMethod(ImeKind::Commit), cursor_in_bounds, touch_in_bounds, true)
            == InputRoute::Ime(ImeAction::CompositionEnd),
        route_spec(InputEvent::InputMethod(ImeKind::Closed), cursor_in_bounds, touch_in_bounds, true)
            == InputRoute::Ime(ImeAction::Dismissed),
        route_spec(InputEvent::WindowFocused, cursor_in_bounds, touch_in_bounds, false)
            == InputRoute::Focus,
        route_spec(InputEvent::WindowUnfocused, cursor_in_bounds, touch_in_bounds, false)
            == InputRoute::Blur,
        route_spec(InputEvent::Other, cursor_in_bounds, touch_in_bounds, true) == InputRoute::Ignore,
        route_spec(
            InputEvent::ButtonReleased(MouseButton::Back),
            cursor_in_bounds,
            touch_in_bounds,
            true,
        ) == InputRoute::Consume,
        route_spec(
            InputEvent::ButtonReleased(MouseButton::Forward),
            cursor_in_bounds,
            touch_in_bounds,
            true,
        ) == InputRoute::Consume,
        route_spec(InputEvent::Touch(TouchPhase::Pressed), cursor_in_bounds, true, false)
            == InputRoute::Touch(TouchPhase::Pressed),
{
}

/// Click-to-focus state of a widget that embeds a page: a left click
/// inside grabs keyboard focus, a left click anywhere else releases it.
#[derive(Debug, Clone, Copy, PartialEq, Eq, Structural)]
pub struct ServoWidgetState {
    pub focused: bool,
}

impl Default for ServoWidgetState {
    fn default() -> (r: ServoWidgetState)
        ensures
            !r.focused,
    {
        ServoWidgetState { focused: false }
    }
}

impl ServoWidgetState {
    /// Updates focus for an event; `left_pressed` tells whether the event is
    /// a left-button press and `over` whether the cursor is over the widget.
    pub fn update_focus(&mut self, left_pressed: bool, over: bool)
        ensures
            final(self).focused == if left_pressed {
                over
            } else {
                old(self).focused
            },
    {
        if left_pressed {
            self.focused = over;
        }
    }

    /// Whether the widget captures an event the page consumed: keyboard and
    /// IME events are captured while focused, so other widgets do not also
    /// process them.
    pub fn captures(&self, consumed: bool, keyboard_or_ime: bool) -> (r: bool)
        ensures
            r == (consumed && keyboard_or_ime && self.focused),
    {
        consumed && keyboard_or_ime && self.focused
    }
}

} // verus!

verus! {

/// A key as the toolkit reports it: a character string, a named key
/// (by its name, such as `Enter`), or an unidentified key.
#[derive(Debug, Clone, PartialEq, Eq)]
pub enum KeyInput {
    Character(String),
    Named(String),
    Unidentified,
}

/// A key as the page receives it: a character string, a named key, or the
/// named key `Unidentified`.
#[derive(Debug, Clone, PartialEq, Eq)]
pub enum PageKey {
    Character(String),
    Named(String),
    Unidentified,
}

/// The page key for a named toolkit key: `Space` is the character `" "`,
/// every other name stays a named key.
pub open spec fn named_key_spec(name: Seq<char>) -> (Seq<char>, bool) {
    if name == "Space"@ {
        (" "@, true)
    } else {
        (name, false)
    }
}

/// The view of a page key: its text, and whether it is a character
/// (`Some(true)`), a named key (`Some(false)`), or unidentified (`None`).
pub open spec fn page_key_view(k: PageKey) -> (Seq<char>, Option<bool>) {
    match k {
        PageKey::Character(s) => (s@, Some(true)),
        PageKey::Named(s) => (s@, Some(false)),
        PageKey::Unidentified => (Seq::empty(), None),
    }
}

/// The page key for one toolkit key, or `None` when it is unidentified.
pub open spec fn key_spec(k: KeyInput) -> Option<(Seq<char>, Option<bool>)> {
    match k {
        KeyInput::Character(s) => Some((s@, Some(true))),
        KeyInput::Named(n) => Some((named_key_spec(n@).0, Some(named_key_spec(n@).1))),
        KeyInput::Unidentified => None,
    }
}

fn named_key(name: String) -> (r: PageKey)
    ensures
        page_key_view(r) == (named_key_spec(name@).0, Some(named_key_spec(name@).1)),
{
    let space = String::from_str("Space");
    if name.eq(&space) {
        PageKey::Character(String::from_str(" "))
    } else {
        PageKey::Named(name)
    }
}

fn key_input_to_page(k: KeyInput) -> (r: Option<PageKey>)
    ensures
        match r {
            Some(p) => key_spec(k) == Some(page_key_view(p)),
            None => key_spec(k) is None,
        },
{
    match k {
        KeyInput::Character(s) => Some(PageKey::Character(s)),
        KeyInput::Named(n) => Some(named_key(n)),
        KeyInput::Unidentified => None,
    }
}

/// The view of the key forwarded for a modified and a base toolkit key.
pub open spec fn page_key_spec(modified: KeyInput, base: KeyInput) -> (Seq<char>, Option<bool>) {
    match key_spec(modified) {
        Some(v) => v,
        None => match key_spec(base) {
            Some(v) => v,
            None => (Seq::<char>::empty(), Option::<bool>::None),
        },
    }
}

/// The key forwarded to the page: the modified key (with shift or alt
/// applied) so typed characters match what the user produced, falling
/// back to the base key when the modified key is unidentified, and to the
/// unidentified key when both are.
pub fn page_key(modified: KeyInput, base: KeyInput) -> (r: PageKey)
    ensures
        page_key_view(r) == page_key_spec(modified, base),
{
    match key_input_to_page(modified) {
        Some(p) => p,
        None => match key_input_to_page(base) {
            Some(p) => p,
            None => PageKey::Unidentified,
        },
    }
}

/// The key the page receives: typed characters pass as they were
/// produced (with shift or alt applied), whatever the base key; `Space`
/// becomes the character `" "`; any other named key keeps its name; an
/// unidentified modified key falls back to the base key, and two
/// unidentified keys give the unidentified key.
pub proof fn law_page_key(modified: KeyInput, base: KeyInput, c: String, n: String)
    requires
        n@ != "Space"@,
    ensures
        page_key_spec(KeyInput::Character(c), base) == (c@, Some(true)),
        page_key_spec(KeyInput::Named(n), base) == (n@, Some(false)),
        modified matches KeyInput::Named(sp) && sp@ == "Space"@ ==> page_key_spec(modified, base)
            == (" "@, Some(true)),
        page_key_spec(KeyInput::Unidentified, KeyInput::Character(c)) == (c@, Some(true)),
        page_key_spec(KeyInput::Unidentified, KeyInput::Named(n)) == (n@, Some(false)),
        page_key_spec(KeyInput::Unidentified, KeyInput::Unidentified) == (
            Seq::<char>::empty(),
            Option::<bool>::None,
        ),
{
}

} // verus!
