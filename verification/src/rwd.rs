//! Raw window descriptors: the native handles of a window, for renderers.
use vstd::prelude::*;
use core::marker::PhantomData;

verus! {

/// Why a handle could not be given.
#[derive(Debug, Clone, PartialEq, Eq, Structural)]
pub enum HandleError {
    Unavailable,
}

impl HandleError {
    /// Describes the error, as its `Display` form does.
    pub fn message(&self) -> (res: &'static str)
        ensures
            res@ == "handle unavailable"@,
    {
        match self {
            HandleError::Unavailable => "handle unavailable",
        }
    }
}

/// An X11 window.
#[derive(Debug, Clone, Copy, PartialEq, Eq, Structural)]
pub struct XlibWindowHandle {
    pub window: u64,
    pub visual_id: u64,
}

impl XlibWindowHandle {
    pub fn new(window: u64) -> (res: Self)
        ensures
            res == (XlibWindowHandle { window, visual_id: 0 }),
    {
        XlibWindowHandle { window, visual_id: 0 }
    }
}

/// A Win32 window: its `HWND` and, if known, its module's `HINSTANCE`,
/// neither of which is ever zero.
#[derive(Debug, Clone, Copy, PartialEq, Eq, Structural)]
pub struct Win32WindowHandle {
    pub hwnd: isize,
    pub hinstance: Option<isize>,
}

impl Win32WindowHandle {
    /// Handles are never zero.
    pub open spec fn wf(self) -> bool {
        self.hwnd != 0 && self.hinstance != Some(0isize)
    }

    pub fn new(hwnd: isize) -> (res: Self)
        requires
            hwnd != 0,
        ensures
            res == (Win32WindowHandle { hwnd, hinstance: None }),
            res.wf(),
    {
        Win32WindowHandle { hwnd, hinstance: None }
    }
}

/// The handle of a Win32 window from its `HWND` and its module's
/// `HINSTANCE`: unavailable when the window is gone (a zero `HWND`), and
/// without module when the `HINSTANCE` is zero.
pub fn win32_raw_handle(hwnd: isize, hinstance: isize) -> (res: Result<RawWindowHandle, HandleError>)
    ensures
        hwnd == 0 ==> res == Err::<RawWindowHandle, HandleError>(HandleError::Unavailable),
        hwnd != 0 ==> res == Ok::<RawWindowHandle, HandleError>(
            RawWindowHandle::Win32(
                Win32WindowHandle {
                    hwnd,
                    hinstance: if hinstance != 0 { Some(hinstance) } else { None },
                },
            ),
        ),
        res matches Ok(RawWindowHandle::Win32(h)) ==> h.wf(),
{
    if hwnd == 0 {
        return Err(HandleError::Unavailable);
    }
    let mut h = Win32WindowHandle::new(hwnd);
    h.hinstance = if hinstance != 0 {
        Some(hinstance)
    } else {
        None
    };
    Ok(RawWindowHandle::Win32(h))
}

/// The Windows display, which has nothing to identify.
#[derive(Debug, Clone, Copy, Default, PartialEq, Eq, Structural)]
pub struct WindowsDisplayHandle;

impl WindowsDisplayHandle {
    pub fn new() -> (res: Self)
        ensures
            res == WindowsDisplayHandle,
    {
        WindowsDisplayHandle
    }
}

/// The native handle of a window, by platform.
#[derive(Debug, Clone, Copy, PartialEq, Eq, Structural)]
pub enum RawWindowHandle {
    Xlib(XlibWindowHandle),
    Win32(Win32WindowHandle),
}

/// A window handle valid for the lifetime `'a` of the window it came from.
pub struct WindowHandle<'a> {
    raw: RawWindowHandle,
    _marker: PhantomData<&'a ()>,
}

impl<'a> View for WindowHandle<'a> {
    type V = RawWindowHandle;

    closed spec fn view(&self) -> RawWindowHandle {
        self.raw
    }
}

impl<'a> WindowHandle<'a> {
    /// Wraps a raw handle; the caller vouches that it stays valid for `'a`.
    pub fn borrow_raw(raw: RawWindowHandle) -> (res: Self)
        ensures
            res@ == raw,
    {
        WindowHandle { raw, _marker: PhantomData }
    }

    /// The raw handle.
    pub fn as_raw(&self) -> (res: RawWindowHandle)
        ensures
            res == self@,
    {
        self.raw
    }
}

/// A window that can give its native handle.
pub trait HasWindowHandle {
    fn window_handle(&self) -> Result<WindowHandle<'_>, HandleError>;
}

} // verus!
