//! Debouncing of webview resize requests. A window drag requests a new size
//! every frame; the webview is resized only once the same size has been
//! requested and left unchanged for [`RESIZE_DEBOUNCE_MS`].

use vstd::prelude::*;

verus! {

/// How long a requested size must stay unchanged before it is applied.
pub const RESIZE_DEBOUNCE_MS: u64 = 100;

/// A size in physical pixels.
#[derive(Debug, Clone, Copy, PartialEq, Eq, Structural)]
pub struct PixelSize {
    pub width: u32,
    pub height: u32,
}

/// The pending resize: the most recently requested size and when it was
/// first requested (milliseconds on the embedder's monotonic clock).
#[derive(Debug, Clone, Copy)]
pub struct ResizeDebounce {
    pub pending: Option<(PixelSize, u64)>,
}

/// A request for `size` at `now`: the timer restarts only when the size
/// differs from the pending one.
pub open spec fn request_spec(d: ResizeDebounce, size: PixelSize, now: u64) -> ResizeDebounce {
    match d.pending {
        Some((existing, _)) if existing == size => d,
        _ => ResizeDebounce { pending: Some((size, now)) },
    }
}

/// A tick with the webview at size `current`: a pending size that differs
/// from `current` and has waited at least the debounce time is applied and
/// cleared; a pending size equal to `current` is cleared; otherwise nothing
/// changes.
pub open spec fn poll_spec(d: ResizeDebounce, current: PixelSize, now: u64) -> (
    ResizeDebounce,
    Option<PixelSize>,
) {
    match d.pending {
        Some((size, at)) => if size != current && now >= at && now - at >= RESIZE_DEBOUNCE_MS {
            (ResizeDebounce { pending: None }, Some(size))
        } else if size == current {
            (ResizeDebounce { pending: None }, None)
        } else {
            (d, None)
        },
        None => (d, None),
    }
}

impl ResizeDebounce {
    /// No pending resize.
    pub fn new() -> (r: ResizeDebounce)
        ensures
            r.pending is None,
    {
        ResizeDebounce { pending: None }
    }

    /// Requests a resize to `size` at time `now`. Requesting the size that
    /// is already pending keeps its timestamp, so a size requested every
    /// frame is still applied promptly.
    pub fn request_size(&mut self, size: PixelSize, now: u64)
        ensures
            *final(self) == request_spec(*old(self), size, now),
    {
        match self.pending {
            Some((existing, _)) if existing == size => {},
            _ => {
                self.pending = Some((size, now));
            },
        }
    }

    /// At a tick, with the webview currently at `current`: returns the size
    /// to resize the webview to, if the pending request is due.
    pub fn poll(&mut self, current: PixelSize, now: u64) -> (r: Option<PixelSize>)
        ensures
            (*final(self), r) == poll_spec(*old(self), current, now),
    {
        match self.pending {
            Some((size, at)) => {
                let waited = if now >= at {
                    now - at
                } else {
                    0
                };
                if size != current && waited >= RESIZE_DEBOUNCE_MS {
                    self.pending = None;
                    Some(size)
                } else if size == current {
                    self.pending = None;
                    None
                } else {
                    None
                }
            },
            None => None,
        }
    }
}

/// A resize is applied only for a size that was pending, differs from the
/// current size, and has been pending for at least the debounce time.
pub proof fn law_resize_only_after_debounce(d: ResizeDebounce, current: PixelSize, now: u64)
    ensures
        poll_spec(d, current, now).1 matches Some(size) ==> (d.pending matches Some((s, at)) && s
            == size && size != current && now >= at + RESIZE_DEBOUNCE_MS),
{
}

/// Requesting the pending size again does not restart the timer; a
/// different size restarts it.
pub proof fn law_same_size_keeps_timer(d: ResizeDebounce, size: PixelSize, now: u64)
    ensures
        d.pending matches Some((s, at)) && s == size ==> request_spec(d, size, now) == d,
        !(d.pending matches Some((s, _)) && s == size) ==> request_spec(d, size, now).pending
            == Some((size, now)),
{
}

/// A burst of requests leaves exactly the last size pending, and it is
/// applied at the first tick at least the debounce time after the burst
/// switched to that size.
pub proof fn law_burst_applies_last(
    d: ResizeDebounce,
    a: PixelSize,
    b: PixelSize,
    t0: u64,
    t1: u64,
    t2: u64,
    current: PixelSize,
)
    requires
        a != b,
        b != current,
        t1 <= t2,
        t2 - t1 >= RESIZE_DEBOUNCE_MS,
    ensures
        ({
            let d2 = request_spec(request_spec(d, a, t0), b, t1);
            &&& d2.pending == Some((b, t1))
            &&& poll_spec(d2, current, t2) == (ResizeDebounce { pending: None }, Some(b))
        }),
{
}

/// While the debounce time has not passed, a tick applies nothing and
/// keeps the request pending.
pub proof fn law_no_resize_before_debounce(d: ResizeDebounce, current: PixelSize, now: u64)
    requires
        d.pending matches Some((s, at)) && s != current && now < at + RESIZE_DEBOUNCE_MS,
    ensures
        poll_spec(d, current, now) == (d, Option::<PixelSize>::None),
{
}

} // verus!
