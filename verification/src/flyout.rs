//! Interaction state of the tool-flyout button: a left click activates the
//! selected tool, a right click or a long press opens the flyout, and
//! picking a row in the flyout makes that variant the new activation target.
//! Times are milliseconds on a monotonic clock chosen by the embedder.

use vstd::prelude::*;

verus! {

/// How long the button must be held before the flyout opens, by default.
pub const DEFAULT_LONG_PRESS_MS: u64 = 400;

/// The visual states a tool-flyout button can be in.
#[derive(Debug, Clone, Copy, PartialEq, Eq, Structural)]
pub enum Status {
    /// The button is idle.
    Idle,
    /// The button is hovered.
    Hovered,
    /// The button is being pressed.
    Pressed,
    /// The flyout is open.
    Open,
}

/// Widget state persisted across renders.
#[derive(Debug, Clone, Copy)]
pub struct FlyoutState {
    /// Index of the selected variant.
    pub selected: usize,
    /// Whether the flyout is open.
    pub is_open: bool,
    /// When the left button went down over the button, while it is held.
    pub pressed_at: Option<u64>,
    /// The flyout row under the cursor.
    pub hovered_item: Option<usize>,
    /// The status seen at the last redraw.
    pub last_status: Option<Status>,
    /// Whether the initial selection has been applied.
    pub initialized: bool,
}

/// An event reaching the button itself.
#[derive(Debug, Clone, Copy, PartialEq, Eq, Structural)]
pub enum ButtonEvent {
    LeftPressed,
    LeftReleased,
    RightPressed,
    RedrawRequested,
    Other,
}

/// What the button asks of the shell after an event.
#[derive(Debug, Clone, Copy, PartialEq, Eq, Structural)]
pub struct ButtonResponse {
    /// Index of the variant to activate (publish `on_activate` for it).
    pub activate: Option<usize>,
    /// Whether the event is captured.
    pub capture: bool,
    /// Whether a redraw is requested now.
    pub redraw: bool,
    /// A time at which a redraw is requested.
    pub redraw_at: Option<u64>,
}

/// An event reaching the open flyout. `row` is the first flyout row under
/// the cursor; `inside` tells whether the cursor is over the flyout at all.
#[derive(Debug, Clone, Copy, PartialEq, Eq, Structural)]
pub enum FlyoutEvent {
    CursorMoved { row: Option<usize> },
    Pressed { row: Option<usize>, inside: bool },
    EscapePressed,
    Other,
}

/// What the flyout asks of the shell after an event.
#[derive(Debug, Clone, Copy, PartialEq, Eq, Structural)]
pub struct FlyoutResponse {
    /// Index of the picked variant (publish `on_select` for it).
    pub select: Option<usize>,
    /// Whether the event is captured.
    pub capture: bool,
    /// Whether a redraw is requested.
    pub redraw: bool,
}

/// The index shown and activated for a selection among `n` variants.
pub open spec fn visible_index(selected: usize, n: usize) -> usize {
    if n == 0 {
        0
    } else if selected < n {
        selected
    } else {
        (n - 1) as usize
    }
}

/// The status of the button: open beats pressed beats hovered.
pub open spec fn status_of(s: FlyoutState, hovered: bool) -> Status {
    if s.is_open {
        Status::Open
    } else if s.pressed_at is Some {
        Status::Pressed
    } else if hovered {
        Status::Hovered
    } else {
        Status::Idle
    }
}

/// Milliseconds from `p` to `now`, zero when `now` is earlier.
pub open spec fn elapsed(p: u64, now: u64) -> int {
    if now >= p {
        now - p
    } else {
        0
    }
}

/// The empty response.
pub open spec fn no_response() -> ButtonResponse {
    ButtonResponse { activate: None, capture: false, redraw: false, redraw_at: None }
}

/// The button's reaction to an event before the final status check.
pub open spec fn button_core(
    s: FlyoutState,
    ev: ButtonEvent,
    over: bool,
    now: u64,
    n: usize,
    long_press: u64,
) -> (FlyoutState, ButtonResponse) {
    let none = no_response();
    match ev {
        ButtonEvent::LeftPressed => if s.is_open {
            (
                FlyoutState { is_open: false, pressed_at: None, ..s },
                ButtonResponse { capture: true, redraw: true, ..none },
            )
        } else if over {
            (
                FlyoutState { pressed_at: Some(now), ..s },
                ButtonResponse { capture: true, redraw_at: Some((now + long_press) as u64), ..none },
            )
        } else {
            (s, none)
        },
        ButtonEvent::LeftReleased => match s.pressed_at {
            Some(p) => {
                let idx = visible_index(s.selected, n);
                let act = elapsed(p, now) < long_press && over && !s.is_open && idx < n;
                (
                    FlyoutState { pressed_at: None, ..s },
                    ButtonResponse {
                        activate: if act {
                            Some(idx)
                        } else {
                            None
                        },
                        capture: true,
                        redraw: true,
                        ..none
                    },
                )
            },
            None => (s, none),
        },
        ButtonEvent::RightPressed => if s.is_open {
            (FlyoutState { is_open: false, ..s }, ButtonResponse { capture: true, redraw: true, ..none })
        } else if over && n > 0 {
            (
                FlyoutState {
                    pressed_at: None,
                    is_open: true,
                    hovered_item: Some(visible_index(s.selected, n)),
                    ..s
                },
                ButtonResponse { capture: true, redraw: true, ..none },
            )
        } else {
            (s, none)
        },
        ButtonEvent::RedrawRequested => {
            let r: (FlyoutState, ButtonResponse) = match s.pressed_at {
                Some(p) => if elapsed(p, now) >= long_press {
                    (
                        FlyoutState {
                            pressed_at: None,
                            is_open: true,
                            hovered_item: Some(visible_index(s.selected, n)),
                            ..s
                        },
                        ButtonResponse { redraw: true, ..none },
                    )
                } else {
                    (s, ButtonResponse { redraw_at: Some((p + long_press) as u64), ..none })
                },
                None => (s, none),
            };
            (FlyoutState { last_status: Some(status_of(r.0, over)), ..r.0 }, r.1)
        },
        ButtonEvent::Other => (s, none),
    }
}

/// The button's reaction to an event: [`button_core`], plus a redraw when
/// the status differs from the one seen at the last redraw.
pub open spec fn button_step(
    s: FlyoutState,
    ev: ButtonEvent,
    over: bool,
    now: u64,
    n: usize,
    long_press: u64,
) -> (FlyoutState, ButtonResponse) {
    let r = button_core(s, ev, over, now, n, long_press);
    let changed = r.0.last_status matches Some(l) && l != status_of(r.0, over);
    (r.0, ButtonResponse { redraw: r.1.redraw || changed, ..r.1 })
}

/// The flyout's reaction to an event.
pub open spec fn flyout_step(s: FlyoutState, ev: FlyoutEvent, n: usize) -> (
    FlyoutState,
    FlyoutResponse,
) {
    let none = FlyoutResponse { select: None, capture: false, redraw: false };
    match ev {
        FlyoutEvent::CursorMoved { row } => if s.hovered_item != row {
            (FlyoutState { hovered_item: row, ..s }, FlyoutResponse { redraw: true, ..none })
        } else {
            (s, none)
        },
        FlyoutEvent::Pressed { row, inside } => match row {
            Some(i) => (
                FlyoutState { selected: i, is_open: false, hovered_item: None, ..s },
                FlyoutResponse {
                    select: if i < n {
                        Some(i)
                    } else {
                        None
                    },
                    capture: true,
                    redraw: true,
                },
            ),
            None => (s, FlyoutResponse { capture: inside, ..none }),
        },
        FlyoutEvent::EscapePressed => (
            FlyoutState { is_open: false, hovered_item: None, ..s },
            FlyoutResponse { capture: true, redraw: true, ..none },
        ),
        FlyoutEvent::Other => (s, none),
    }
}

/// The selection used for layout: the default (clamped) on first use, a
/// programmatic selection when one is pending, clamped to the variants.
pub open spec fn resolve_step(
    s: FlyoutState,
    n: usize,
    default_index: usize,
    pending: Option<usize>,
) -> (FlyoutState, usize) {
    let s1 = if !s.initialized {
        FlyoutState { selected: visible_index(default_index, n), initialized: true, ..s }
    } else {
        s
    };
    let s2 = match pending {
        Some(i) => FlyoutState { selected: i, ..s1 },
        None => s1,
    };
    (s2, visible_index(s2.selected, n))
}

fn visible_index_exec(selected: usize, n: usize) -> (r: usize)
    ensures
        r == visible_index(selected, n),
{
    let last = if n > 0 {
        n - 1
    } else {
        0
    };
    if selected < last {
        selected
    } else {
        last
    }
}

/// The status of the button for the given state and hover.
pub fn current_status(state: &FlyoutState, hovered: bool) -> (r: Status)
    ensures
        r == status_of(*state, hovered),
{
    if state.is_open {
        Status::Open
    } else if state.pressed_at.is_some() {
        Status::Pressed
    } else if hovered {
        Status::Hovered
    } else {
        Status::Idle
    }
}

impl Default for FlyoutState {
    fn default() -> (r: FlyoutState)
        ensures
            r == (FlyoutState {
                selected: 0,
                is_open: false,
                pressed_at: None,
                hovered_item: None,
                last_status: None,
                initialized: false,
            }),
    {
        FlyoutState {
            selected: 0,
            is_open: false,
            pressed_at: None,
            hovered_item: None,
            last_status: None,
            initialized: false,
        }
    }
}

impl FlyoutState {
    /// Handles an event that reached the button, with `over` telling whether
    /// the cursor is over it, `n` the number of variants and `long_press`
    /// the long-press threshold.
    pub fn on_button_event(
        &mut self,
        event: ButtonEvent,
        over: bool,
        now: u64,
        n: usize,
        long_press: u64,
    ) -> (r: ButtonResponse)
        requires
            now + long_press <= u64::MAX,
            old(self).pressed_at matches Some(p) ==> p + long_press <= u64::MAX,
        ensures
            (*final(self), r) == button_step(*old(self), event, over, now, n, long_press),
    {
        let mut resp = ButtonResponse { activate: None, capture: false, redraw: false, redraw_at: None };
        match event {
            ButtonEvent::LeftPressed => {
                if self.is_open {
                    self.is_open = false;
                    self.pressed_at = None;
                    resp.redraw = true;
                    resp.capture = true;
                } else if over {
                    self.pressed_at = Some(now);
                    resp.redraw_at = Some(now + long_press);
                    resp.capture = true;
                }
            },
            ButtonEvent::LeftReleased => {
                if let Some(pressed_at) = self.pressed_at {
                    self.pressed_at = None;
                    let elapsed = if now >= pressed_at {
                        now - pressed_at
                    } else {
                        0
                    };
                    if elapsed < long_press && over && !self.is_open {
                        let idx = visible_index_exec(self.selected, n);
                        if idx < n {
                            resp.activate = Some(idx);
                        }
                    }
                    resp.redraw = true;
                    resp.capture = true;
                }
            },
            ButtonEvent::RightPressed => {
                if self.is_open {
                    self.is_open = false;
                    resp.redraw = true;
                    resp.capture = true;
                } else if over && n > 0 {
                    self.pressed_at = None;
                    self.is_open = true;
                    self.hovered_item = Some(visible_index_exec(self.selected, n));
                    resp.redraw = true;
                    resp.capture = true;
                }
            },
            ButtonEvent::RedrawRequested => {
                if let Some(pressed_at) = self.pressed_at {
                    let elapsed = if now >= pressed_at {
                        now - pressed_at
                    } else {
                        0
                    };
                    if elapsed >= long_press {
                        self.pressed_at = None;
                        self.is_open = true;
                        self.hovered_item = Some(visible_index_exec(self.selected, n));
                        resp.redraw = true;
                    } else {
                        resp.redraw_at = Some(pressed_at + long_press);
                    }
                }
                self.last_status = Some(current_status(self, over));
            },
            ButtonEvent::Other => {},
        }
        let cur = current_status(self, over);
        match self.last_status {
            Some(last) => {
                if last != cur {
                    resp.redraw = true;
                }
            },
            None => {},
        }
        resp
    }

    /// Handles an event that reached the open flyout listing `n` variants.
    pub fn on_flyout_event(&mut self, event: FlyoutEvent, n: usize) -> (r: FlyoutResponse)
        ensures
            (*final(self), r) == flyout_step(*old(self), event, n),
    {
        let mut resp = FlyoutResponse { select: None, capture: false, redraw: false };
        match event {
            FlyoutEvent::CursorMoved { row } => {
                if self.hovered_item != row {
                    self.hovered_item = row;
                    resp.redraw = true;
                }
            },
            FlyoutEvent::Pressed { row, inside } => {
                match row {
                    Some(i) => {
                        self.selected = i;
                        self.is_open = false;
                        self.hovered_item = None;
                        if i < n {
                            resp.select = Some(i);
                        }
                        resp.capture = true;
                        resp.redraw = true;
                    },
                    None => {
                        if inside {
                            resp.capture = true;
                        }
                    },
                }
            },
            FlyoutEvent::EscapePressed => {
                self.is_open = false;
                self.hovered_item = None;
                resp.capture = true;
                resp.redraw = true;
            },
            FlyoutEvent::Other => {},
        }
        resp
    }

    /// Applies the initial selection (`default_index`, the position of the
    /// default variant) on first use and a pending programmatic selection
    /// (the position of the requested variant), then returns the index to
    /// lay out among `n` variants.
    pub fn resolve_selected(&mut self, n: usize, default_index: usize, pending: Option<usize>) -> (r:
        usize)
        ensures
            (*final(self), r) == resolve_step(*old(self), n, default_index, pending),
    {
        if !self.initialized {
            self.selected = visible_index_exec(default_index, n);
            self.initialized = true;
        }
        if let Some(i) = pending {
            self.selected = i;
        }
        visible_index_exec(self.selected, n)
    }
}

} // verus!

verus! {

/// A button at rest: flyout closed and no press under way.
pub open spec fn at_rest(s: FlyoutState) -> bool {
    !s.is_open && s.pressed_at is None
}

/// The state and response after a press at `t0` and a release at `t1`,
/// both over the button.
pub open spec fn click(s: FlyoutState, t0: u64, t1: u64, n: usize, long_press: u64) -> (
    FlyoutState,
    ButtonResponse,
) {
    let s1 = button_step(s, ButtonEvent::LeftPressed, true, t0, n, long_press).0;
    button_step(s1, ButtonEvent::LeftReleased, true, t1, n, long_press)
}

/// Left-clicking activates the currently-selected tool: a press and a
/// release over the button, shorter than the long-press threshold, from a
/// button at rest, activate the visible selection and leave the button at
/// rest.
pub proof fn law_click_activates_selected(
    s: FlyoutState,
    t0: u64,
    t1: u64,
    n: usize,
    long_press: u64,
)
    requires
        at_rest(s),
        n > 0,
        t0 <= t1,
        t1 - t0 < long_press,
    ensures
        click(s, t0, t1, n, long_press).1.activate == Some(visible_index(s.selected, n)),
        at_rest(click(s, t0, t1, n, long_press).0),
        click(s, t0, t1, n, long_press).0.selected == s.selected,
{
}

/// Long-pressing opens the flyout: once the button has been held for the
/// threshold, the redraw that observes it opens the flyout with the
/// selection highlighted, and the release that follows activates nothing.
pub proof fn law_long_press_opens(
    s: FlyoutState,
    t0: u64,
    t1: u64,
    t2: u64,
    over: bool,
    over2: bool,
    n: usize,
    long_press: u64,
)
    requires
        at_rest(s),
        n > 0,
        t0 <= t1,
        t1 - t0 >= long_press,
    ensures
        ({
            let s1 = button_step(s, ButtonEvent::LeftPressed, true, t0, n, long_press).0;
            let s2 = button_step(s1, ButtonEvent::RedrawRequested, over, t1, n, long_press).0;
            let r3 = button_step(s2, ButtonEvent::LeftReleased, over2, t2, n, long_press);
            &&& s2.is_open
            &&& s2.hovered_item == Some(visible_index(s.selected, n))
            &&& r3.1.activate is None
            &&& r3.0.is_open
        }),
{
}

/// A redraw before the threshold keeps waiting: the press stays under way
/// and a redraw is scheduled for the moment the threshold is reached.
pub proof fn law_short_hold_schedules_redraw(
    s: FlyoutState,
    t0: u64,
    t1: u64,
    over: bool,
    n: usize,
    long_press: u64,
)
    requires
        at_rest(s),
        t0 <= t1,
        t1 - t0 < long_press,
        t0 + long_press <= u64::MAX,
    ensures
        ({
            let s1 = button_step(s, ButtonEvent::LeftPressed, true, t0, n, long_press).0;
            let r2 = button_step(s1, ButtonEvent::RedrawRequested, over, t1, n, long_press);
            &&& !r2.0.is_open
            &&& r2.0.pressed_at == Some(t0)
            &&& r2.1.redraw_at == Some((t0 + long_press) as u64)
        }),
{
}

/// Right-clicking toggles the flyout: over a non-empty button at rest it
/// opens with the selection highlighted; on an open flyout it closes,
/// wherever the cursor is.
pub proof fn law_right_click_toggles(s: FlyoutState, over: bool, now: u64, n: usize, long_press: u64)
    ensures
        at_rest(s) && over && n > 0 ==> {
            let r = button_step(s, ButtonEvent::RightPressed, over, now, n, long_press);
            r.0.is_open && r.0.hovered_item == Some(visible_index(s.selected, n)) && r.1.capture
        },
        s.is_open ==> !button_step(s, ButtonEvent::RightPressed, over, now, n, long_press).0.is_open,
{
}

/// Picking a variant swaps the activation target: a press on row `i` of
/// the open flyout selects `i`, closes the flyout and reports `i`; a click
/// on the button afterwards activates `i`.
pub proof fn law_pick_becomes_activation_target(
    s: FlyoutState,
    i: usize,
    inside: bool,
    t0: u64,
    t1: u64,
    n: usize,
    long_press: u64,
)
    requires
        s.is_open,
        s.pressed_at is None,
        i < n,
        t0 <= t1,
        t1 - t0 < long_press,
    ensures
        ({
            let r = flyout_step(s, FlyoutEvent::Pressed { row: Some(i), inside }, n);
            &&& r.0.selected == i
            &&& at_rest(r.0)
            &&& r.1.select == Some(i)
            &&& click(r.0, t0, t1, n, long_press).1.activate == Some(i)
        }),
{
}

/// Escape closes the flyout and keeps the selection.
pub proof fn law_escape_keeps_selection(s: FlyoutState, n: usize)
    ensures
        !flyout_step(s, FlyoutEvent::EscapePressed, n).0.is_open,
        flyout_step(s, FlyoutEvent::EscapePressed, n).0.selected == s.selected,
{
}

/// The index laid out is always one of the variants when there are any.
pub proof fn law_resolved_index_in_range(
    s: FlyoutState,
    n: usize,
    default_index: usize,
    pending: Option<usize>,
)
    requires
        n > 0,
    ensures
        resolve_step(s, n, default_index, pending).1 < n,
        !s.initialized && pending is None && default_index < n ==> resolve_step(
            s,
            n,
            default_index,
            pending,
        ).1 == default_index,
{
}

/// A press of either button elsewhere in the window leaves a closed
/// flyout closed: nothing opens, no press starts, nothing is activated and
/// the event is not captured.
pub proof fn law_press_elsewhere_ignored(s: FlyoutState, now: u64, n: usize, long_press: u64)
    requires
        !s.is_open,
    ensures
        ({
            let r = button_step(s, ButtonEvent::RightPressed, false, now, n, long_press);
            &&& !r.0.is_open
            &&& r.0.pressed_at == s.pressed_at
            &&& r.0.selected == s.selected
            &&& !r.1.capture
            &&& r.1.activate is None
        }),
        ({
            let r = button_step(s, ButtonEvent::LeftPressed, false, now, n, long_press);
            &&& !r.0.is_open
            &&& r.0.pressed_at == s.pressed_at
            &&& r.0.selected == s.selected
            &&& !r.1.capture
            &&& r.1.activate is None
        }),
{
}

/// The variant shown and activated is the selected one while it exists,
/// and the last variant when the selection lies beyond the list.
pub proof fn law_visible_selection(selected: usize, n: usize)
    ensures
        selected < n ==> visible_index(selected, n) == selected,
        0 < n <= selected ==> visible_index(selected, n) == n - 1,
{
}

} // verus!
