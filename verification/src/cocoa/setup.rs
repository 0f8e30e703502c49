use vstd::prelude::*;

verus! {

pub const NS_WINDOW_STYLE_MASK_TITLED: usize = 1;
pub const NS_WINDOW_STYLE_MASK_CLOSABLE: usize = 2;
pub const NS_WINDOW_STYLE_MASK_MINIATURIZABLE: usize = 4;
pub const NS_WINDOW_STYLE_MASK_RESIZABLE: usize = 8;
pub const NS_WINDOW_STYLE_MASK_FULL_SCREEN: usize = 0x4000;

/// The style mask of a new window: titled, closable, miniaturizable, and
/// resizable when the configuration allows it.
pub fn window_style_mask(resizable: bool) -> (res: usize)
    ensures
        res == (if resizable { 15usize } else { 7usize }),
{
    let base: usize = NS_WINDOW_STYLE_MASK_TITLED | NS_WINDOW_STYLE_MASK_CLOSABLE
        | NS_WINDOW_STYLE_MASK_MINIATURIZABLE;
    let extra: usize = if resizable {
        NS_WINDOW_STYLE_MASK_RESIZABLE
    } else {
        0
    };
    let mask: usize = base | extra;
    assert(mask == (if extra == 8 { 15usize } else { 7usize })) by (bit_vector)
        requires
            base == 1usize | 2usize | 4usize,
            extra == 8 || extra == 0,
            mask == base | extra,
    ;
    mask
}

/// Whether a window with style mask `style_mask` is in full-screen mode.
pub open spec fn is_full_screen(style_mask: usize) -> bool {
    (style_mask / 0x4000) % 2 == 1
}

/// Whether full-screen mode must be toggled to reach the wanted state.
pub fn needs_full_screen_toggle(style_mask: usize, want_full_screen: bool) -> (res: bool)
    ensures
        res == (want_full_screen != is_full_screen(style_mask)),
{
    let current: bool = (style_mask & NS_WINDOW_STYLE_MASK_FULL_SCREEN) != 0;
    assert(current == ((style_mask / 0x4000) % 2 == 1)) by (bit_vector)
        requires
            current == ((style_mask & 0x4000usize) != 0),
    ;
    want_full_screen != current
}

/// `NSOpenGLPixelFormatAttribute` names and values.
pub const NS_OPENGL_PFA_DOUBLE_BUFFER: u32 = 5;
pub const NS_OPENGL_PFA_DEPTH_SIZE: u32 = 12;
pub const NS_OPENGL_PFA_ACCELERATED: u32 = 73;
pub const NS_OPENGL_PFA_OPENGL_PROFILE: u32 = 99;
pub const NS_OPENGL_PROFILE_VERSION_3_2_CORE: u32 = 0x3200;

/// The pixel format asked of `NSOpenGLPixelFormat` for an OpenGL context:
/// accelerated, double-buffered, a 24-bit depth buffer, the 3.2 core
/// profile; the list ends with 0.
pub fn opengl_pixel_format_attributes() -> (res: Vec<u32>)
    ensures
        res@ == seq![
            NS_OPENGL_PFA_ACCELERATED,
            NS_OPENGL_PFA_DOUBLE_BUFFER,
            NS_OPENGL_PFA_DEPTH_SIZE,
            24u32,
            NS_OPENGL_PFA_OPENGL_PROFILE,
            NS_OPENGL_PROFILE_VERSION_3_2_CORE,
            0u32,
        ],
{
    vec![
        NS_OPENGL_PFA_ACCELERATED,
        NS_OPENGL_PFA_DOUBLE_BUFFER,
        NS_OPENGL_PFA_DEPTH_SIZE,
        24,
        NS_OPENGL_PFA_OPENGL_PROFILE,
        NS_OPENGL_PROFILE_VERSION_3_2_CORE,
        0,
    ]
}

} // verus!
