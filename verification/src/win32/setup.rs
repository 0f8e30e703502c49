use vstd::prelude::*;
use vstd::string::*;
use crate::config::WindowConfig;
use crate::text::{to_wide, utf16_of};
use crate::geometry::{in_i32, half_toward_zero};

verus! {

pub const WS_OVERLAPPED: u32 = 0x0000_0000;
pub const WS_CAPTION: u32 = 0x00C0_0000;
pub const WS_SYSMENU: u32 = 0x0008_0000;
pub const WS_THICKFRAME: u32 = 0x0004_0000;
pub const WS_MINIMIZEBOX: u32 = 0x0002_0000;
pub const WS_MAXIMIZEBOX: u32 = 0x0001_0000;

/// `WS_OVERLAPPEDWINDOW`: a frame that can be resized and maximised.
pub const WS_OVERLAPPEDWINDOW: u32 = 0x00CF_0000;

/// `WS_OVERLAPPED | WS_CAPTION | WS_SYSMENU | WS_MINIMIZEBOX`: a frame
/// without a sizing border or a maximise box.
pub const WS_FIXED_FRAME: u32 = 0x00CA_0000;

/// `CW_USEDEFAULT`: let the system place the window.
pub const CW_USEDEFAULT: i32 = -2147483648;

/// The window style for a configuration.
pub fn window_style(resizable: bool) -> (res: u32)
    ensures
        res == (if resizable { WS_OVERLAPPEDWINDOW } else { WS_FIXED_FRAME }),
{
    let full: u32 = WS_OVERLAPPED | WS_CAPTION | WS_SYSMENU | WS_THICKFRAME | WS_MINIMIZEBOX
        | WS_MAXIMIZEBOX;
    let fixed: u32 = WS_OVERLAPPED | WS_CAPTION | WS_SYSMENU | WS_MINIMIZEBOX;
    assert(full == WS_OVERLAPPEDWINDOW && fixed == WS_FIXED_FRAME) by (bit_vector)
        requires
            full == 0u32 | 0x00C0_0000u32 | 0x0008_0000u32 | 0x0004_0000u32 | 0x0002_0000u32
                | 0x0001_0000u32,
            fixed == 0u32 | 0x00C0_0000u32 | 0x0008_0000u32 | 0x0002_0000u32,
    ;
    if resizable {
        full
    } else {
        fixed
    }
}

/// What the Win32 back-end creates a window with.
#[derive(Debug)]
pub struct Win32WindowPlan {
    pub style: u32,
    /// Top-left corner, or `CW_USEDEFAULT` twice.
    pub x: i32,
    pub y: i32,
    /// The client rectangle `(0, 0, right, bottom)` that `AdjustWindowRect`
    /// grows to the window rectangle.
    pub client_right: i32,
    pub client_bottom: i32,
    /// The title as a NUL-terminated UTF-16 string.
    pub title: Vec<u16>,
}

/// Plans the creation of a window for a configuration.
pub fn win32_window_plan(config: &WindowConfig) -> (res: Win32WindowPlan)
    ensures
        res.style == (if config.resizable { WS_OVERLAPPEDWINDOW } else { WS_FIXED_FRAME }),
        (res.x, res.y) == (match config.position {
            Some(p) => p,
            None => (CW_USEDEFAULT, CW_USEDEFAULT),
        }),
        res.client_right == config.width as i32,
        res.client_bottom == config.height as i32,
        res.title@ == utf16_of(config.title@.push('\0')),
{
    let (x, y): (i32, i32) = match config.position {
        Some(p) => p,
        None => (CW_USEDEFAULT, CW_USEDEFAULT),
    };
    let title = String::from_str(config.title.as_str()).concat("\0");
    proof {
        reveal_strlit("\0");
        assert(title@ =~= config.title@.push('\0'));
    }
    Win32WindowPlan {
        style: window_style(config.resizable),
        x,
        y,
        client_right: config.width as i32,
        client_bottom: config.height as i32,
        title: to_wide(title.as_str()),
    }
}

/// A Win32 `RECT`.
#[derive(Debug, Clone, Copy, PartialEq, Eq, Structural)]
pub struct Win32Rect {
    pub left: i32,
    pub top: i32,
    pub right: i32,
    pub bottom: i32,
}

/// The screen position of the window point `(x, y)` of the client area,
/// from the window rectangle and the client rectangle: the side borders
/// are taken as equally wide and the rest of the height as the top inset.
/// `None` when a step of the computation leaves the `i32` range.
pub open spec fn client_to_screen(window: Win32Rect, client: Win32Rect, x: i32, y: i32) -> Option<
    (i32, i32),
> {
    let width: int = window.right - window.left;
    let frame_x: int = width - client.right;
    let border_x: int = half_toward_zero(frame_x);
    let height: int = window.bottom - window.top;
    let frame_y: int = height - client.bottom;
    let top_inset: int = frame_y - border_x;
    let left: int = window.left + border_x;
    let sx: int = left + x;
    let top: int = window.top + top_inset;
    let sy: int = top + y;
    if in_i32(width) && in_i32(frame_x) && in_i32(height) && in_i32(frame_y) && in_i32(top_inset)
        && in_i32(left) && in_i32(sx) && in_i32(top) && in_i32(sy) {
        Some((sx as i32, sy as i32))
    } else {
        None
    }
}

/// Computes where the cursor goes on the screen to be at `(x, y)` in the
/// client area; `None` where the arithmetic would overflow.
pub fn warp_target(window: Win32Rect, client: Win32Rect, x: i32, y: i32) -> (res: Option<(i32, i32)>)
    ensures
        res == client_to_screen(window, client, x, y),
{
    let width: i32 = window.right.checked_sub(window.left)?;
    let frame_x: i32 = width.checked_sub(client.right)?;
    let border_x: i32 = frame_x.checked_div(2)?;
    let height: i32 = window.bottom.checked_sub(window.top)?;
    let frame_y: i32 = height.checked_sub(client.bottom)?;
    let top_inset: i32 = frame_y.checked_sub(border_x)?;
    let left: i32 = window.left.checked_add(border_x)?;
    let sx: i32 = left.checked_add(x)?;
    let top: i32 = window.top.checked_add(top_inset)?;
    let sy: i32 = top.checked_add(y)?;
    Some((sx, sy))
}

/// Where the client area sits on the screen does not depend on the point:
/// moving the point moves its screen position by as much.  For a window
/// with side and bottom borders `b` and a top inset `t` around a client
/// area of `cw` by `ch`, the point `(x, y)` lands at `(left + b + x,
/// top + t + y)`.
pub proof fn lemma_warp_target_geometry(
    window: Win32Rect,
    client: Win32Rect,
    x1: i32,
    y1: i32,
    x2: i32,
    y2: i32,
    b: int,
    t: int,
)
    ensures
        client_to_screen(window, client, x1, y1) matches Some((a1, c1)) ==> (client_to_screen(
            window,
            client,
            x2,
            y2,
        ) matches Some((a2, c2)) ==> a2 - a1 == x2 - x1 && c2 - c1 == y2 - y1),
        b >= 0 && window.right == window.left + b + client.right + b && window.bottom == window.top
            + t + client.bottom + b ==> (client_to_screen(window, client, x1, y1) matches Some((
            a,
            c,
        )) ==> a == window.left + b + x1 && c == window.top + t + y1),
{
}

/// Whether a pointer that `wglGetProcAddress` returned names a function:
/// it signals failure with 0, 1, 2, 3 and -1.
pub fn is_usable_wgl_proc(p: isize) -> (res: bool)
    ensures
        res == !(p == 0 || p == 1 || p == 2 || p == 3 || p == -1),
{
    p != 0 && p != 1 && p != 2 && p != 3 && p != -1
}

pub const PFD_DRAW_TO_WINDOW: u32 = 0x0000_0004;
pub const PFD_SUPPORT_OPENGL: u32 = 0x0000_0020;
pub const PFD_DOUBLEBUFFER: u32 = 0x0000_0001;
pub const PFD_TYPE_RGBA: u8 = 0;
pub const PFD_MAIN_PLANE: u8 = 0;

/// `sizeof(PIXELFORMATDESCRIPTOR)` in the Win32 ABI.
pub const PIXELFORMATDESCRIPTOR_SIZE: u16 = 40;

/// The fields of a Win32 `PIXELFORMATDESCRIPTOR`.
#[derive(Debug, Clone, Copy, PartialEq, Eq, Structural)]
pub struct PIXELFORMATDESCRIPTOR {
    pub n_size: u16,
    pub n_version: u16,
    pub dw_flags: u32,
    pub i_pixel_type: u8,
    pub c_color_bits: u8,
    pub c_red_bits: u8,
    pub c_red_shift: u8,
    pub c_green_bits: u8,
    pub c_green_shift: u8,
    pub c_blue_bits: u8,
    pub c_blue_shift: u8,
    pub c_alpha_bits: u8,
    pub c_alpha_shift: u8,
    pub c_accum_bits: u8,
    pub c_accum_red_bits: u8,
    pub c_accum_green_bits: u8,
    pub c_accum_blue_bits: u8,
    pub c_accum_alpha_bits: u8,
    pub c_depth_bits: u8,
    pub c_stencil_bits: u8,
    pub c_aux_buffers: u8,
    pub i_layer_type: u8,
    pub b_reserved: u8,
    pub dw_layer_mask: u32,
    pub dw_visible_mask: u32,
    pub dw_damage_mask: u32,
}

/// The pixel format asked for with a legacy OpenGL context: double-buffered
/// RGBA drawing to a window, 32-bit colour with 8-bit alpha, a 24-bit depth
/// and an 8-bit stencil buffer in the main plane.
pub open spec fn opengl_format() -> PIXELFORMATDESCRIPTOR {
    PIXELFORMATDESCRIPTOR {
        n_size: PIXELFORMATDESCRIPTOR_SIZE,
        n_version: 1,
        dw_flags: 0x25,
        i_pixel_type: PFD_TYPE_RGBA,
        c_color_bits: 32,
        c_red_bits: 0,
        c_red_shift: 0,
        c_green_bits: 0,
        c_green_shift: 0,
        c_blue_bits: 0,
        c_blue_shift: 0,
        c_alpha_bits: 8,
        c_alpha_shift: 0,
        c_accum_bits: 0,
        c_accum_red_bits: 0,
        c_accum_green_bits: 0,
        c_accum_blue_bits: 0,
        c_accum_alpha_bits: 0,
        c_depth_bits: 24,
        c_stencil_bits: 8,
        c_aux_buffers: 0,
        i_layer_type: PFD_MAIN_PLANE,
        b_reserved: 0,
        dw_layer_mask: 0,
        dw_visible_mask: 0,
        dw_damage_mask: 0,
    }
}

/// Builds the pixel format descriptor for a legacy OpenGL context.
pub fn opengl_pixel_format() -> (res: PIXELFORMATDESCRIPTOR)
    ensures
        res == opengl_format(),
{
    let flags: u32 = PFD_DRAW_TO_WINDOW | PFD_SUPPORT_OPENGL | PFD_DOUBLEBUFFER;
    assert(flags == 0x25) by (bit_vector)
        requires
            flags == 4u32 | 0x20u32 | 1u32,
    ;
    PIXELFORMATDESCRIPTOR {
        n_size: PIXELFORMATDESCRIPTOR_SIZE,
        n_version: 1,
        dw_flags: flags,
        i_pixel_type: PFD_TYPE_RGBA,
        c_color_bits: 32,
        c_red_bits: 0,
        c_red_shift: 0,
        c_green_bits: 0,
        c_green_shift: 0,
        c_blue_bits: 0,
        c_blue_shift: 0,
        c_alpha_bits: 8,
        c_alpha_shift: 0,
        c_accum_bits: 0,
        c_accum_red_bits: 0,
        c_accum_green_bits: 0,
        c_accum_blue_bits: 0,
        c_accum_alpha_bits: 0,
        c_depth_bits: 24,
        c_stencil_bits: 8,
        c_aux_buffers: 0,
        i_layer_type: PFD_MAIN_PLANE,
        b_reserved: 0,
        dw_layer_mask: 0,
        dw_visible_mask: 0,
        dw_damage_mask: 0,
    }
}

} // verus!
