use vstd::prelude::*;
use crate::geometry::in_i32;
use crate::win32::setup::Win32Rect;

verus! {

/// `WS_POPUP | WS_VISIBLE`: the style of a full-screen window, without
/// any frame.
pub const WS_FULLSCREEN_POPUP: u32 = 0x9000_0000;

/// The display modes a Win32 window is in.
#[derive(Debug, Clone, Copy, PartialEq, Eq, Structural)]
pub struct Win32Modes {
    pub fullscreen: bool,
    pub mouse_grabbed: bool,
}

impl Win32Modes {
    pub fn new() -> (res: Self)
        ensures
            !res.fullscreen,
            !res.mouse_grabbed,
    {
        Win32Modes { fullscreen: false, mouse_grabbed: false }
    }

    /// Records the wanted full-screen state; says whether the window must
    /// change (it does not when it is already in that state).
    pub fn switch_fullscreen(&mut self, want: bool) -> (change: bool)
        ensures
            change == (want != old(self).fullscreen),
            final(self).fullscreen == want,
            final(self).mouse_grabbed == old(self).mouse_grabbed,
    {
        if self.fullscreen == want {
            return false;
        }
        self.fullscreen = want;
        true
    }

    /// Records the wanted mouse-grab state; says whether the capture must
    /// change.
    pub fn switch_mouse_grab(&mut self, want: bool) -> (change: bool)
        ensures
            change == (want != old(self).mouse_grabbed),
            final(self).mouse_grabbed == want,
            final(self).fullscreen == old(self).fullscreen,
    {
        if self.mouse_grabbed == want {
            return false;
        }
        self.mouse_grabbed = want;
        true
    }
}

/// The position and size `(x, y, width, height)` that make a window cover
/// a monitor rectangle; `None` when the size does not fit in an `i32`.
pub open spec fn covering(monitor: Win32Rect) -> Option<(i32, i32, i32, i32)> {
    let w: int = monitor.right - monitor.left;
    let h: int = monitor.bottom - monitor.top;
    if in_i32(w) && in_i32(h) {
        Some((monitor.left, monitor.top, w as i32, h as i32))
    } else {
        None
    }
}

/// A covering placement starts at the monitor's top-left corner and ends
/// at its bottom-right corner.
pub proof fn lemma_covering_fills_monitor(monitor: Win32Rect)
    ensures
        covering(monitor) matches Some((x, y, w, h)) ==> x == monitor.left && y == monitor.top && x
            + w == monitor.right && y + h == monitor.bottom,
{
}

/// Computes the window placement that covers a monitor.
pub fn fullscreen_placement(monitor: Win32Rect) -> (res: Option<(i32, i32, i32, i32)>)
    ensures
        res == covering(monitor),
{
    let w: i32 = monitor.right.checked_sub(monitor.left)?;
    let h: i32 = monitor.bottom.checked_sub(monitor.top)?;
    Some((monitor.left, monitor.top, w, h))
}

} // verus!
