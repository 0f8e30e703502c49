use vstd::prelude::*;
use vstd::string::*;
use crate::config::WindowConfig;
use crate::text::is_nul_free;

verus! {

/// `XSizeHints.flags` bits.
pub const P_MIN_SIZE: i64 = 16;
pub const P_MAX_SIZE: i64 = 32;

/// The `WM_NORMAL_HINTS` a window gets: which limits are set, and their
/// values (zero when unset).
#[derive(Debug, Clone, Copy, PartialEq, Eq, Structural)]
pub struct X11SizeHints {
    pub flags: i64,
    pub min_width: i32,
    pub min_height: i32,
    pub max_width: i32,
    pub max_height: i32,
}

/// What the X11 back-end creates a window with.
#[derive(Debug)]
pub struct X11WindowPlan {
    /// Top-left corner in the root window.
    pub x: i32,
    pub y: i32,
    pub width: u32,
    pub height: u32,
    /// The name stored with `XStoreName`: the title, or `"windowed"` when the
    /// title cannot be a C string.
    pub store_name: String,
    /// The size hints to set, if any.
    pub size_hints: Option<X11SizeHints>,
}

/// The size hints for a configuration: a window that cannot be resized is
/// held at its size; a resizable one gets whichever limits it has.
pub open spec fn x11_hints_for(config: WindowConfig) -> Option<X11SizeHints> {
    if !config.resizable {
        Some(
            X11SizeHints {
                flags: (P_MIN_SIZE + P_MAX_SIZE) as i64,
                min_width: config.width as i32,
                min_height: config.height as i32,
                max_width: config.width as i32,
                max_height: config.height as i32,
            },
        )
    } else if config.min_size is Some || config.max_size is Some {
        Some(
            X11SizeHints {
                flags: ((if config.min_size is Some { P_MIN_SIZE } else { 0 }) + (
                if config.max_size is Some {
                    P_MAX_SIZE
                } else {
                    0
                })) as i64,
                min_width: match config.min_size { Some((w, _)) => w as i32, None => 0 },
                min_height: match config.min_size { Some((_, h)) => h as i32, None => 0 },
                max_width: match config.max_size { Some((w, _)) => w as i32, None => 0 },
                max_height: match config.max_size { Some((_, h)) => h as i32, None => 0 },
            },
        )
    } else {
        None
    }
}

/// A window that cannot be resized is held at its size by equal minimum
/// and maximum; a resizable one gets exactly the limits it has, and no
/// hints at all when it has none.
pub proof fn lemma_x11_hints(config: WindowConfig)
    ensures
        !config.resizable ==> x11_hints_for(config) == Some(
            X11SizeHints {
                flags: 48,
                min_width: config.width as i32,
                min_height: config.height as i32,
                max_width: config.width as i32,
                max_height: config.height as i32,
            },
        ),
        config.resizable && config.min_size is None && config.max_size is None ==> x11_hints_for(
            config,
        ) is None,
        config.resizable && config.min_size is Some ==> ({
            let (w, h): (u32, u32) = config.min_size->0;
            &&& x11_hints_for(config) is Some
            &&& x11_hints_for(config)->0.min_width == w as i32
            &&& x11_hints_for(config)->0.min_height == h as i32
            &&& (x11_hints_for(config)->0.flags == 16 || x11_hints_for(config)->0.flags == 48)
        }),
        config.resizable && config.max_size is Some ==> ({
            let (w, h): (u32, u32) = config.max_size->0;
            &&& x11_hints_for(config) is Some
            &&& x11_hints_for(config)->0.max_width == w as i32
            &&& x11_hints_for(config)->0.max_height == h as i32
            &&& (x11_hints_for(config)->0.flags == 32 || x11_hints_for(config)->0.flags == 48)
        }),
        config.resizable && config.min_size is None && config.max_size is Some ==> x11_hints_for(config)
            is Some && x11_hints_for(config)->0.flags == 32 && x11_hints_for(config)->0.min_width == 0
            && x11_hints_for(config)->0.min_height == 0,
        config.resizable && config.max_size is None && config.min_size is Some ==> x11_hints_for(config)
            is Some && x11_hints_for(config)->0.flags == 16 && x11_hints_for(config)->0.max_width == 0
            && x11_hints_for(config)->0.max_height == 0,
{
}

/// Computes the size hints of a configuration.
pub fn x11_size_hints(config: &WindowConfig) -> (res: Option<X11SizeHints>)
    ensures
        res == x11_hints_for(*config),
{
    if !config.resizable {
        let flags: i64 = P_MIN_SIZE | P_MAX_SIZE;
        assert(flags == P_MIN_SIZE + P_MAX_SIZE) by (bit_vector)
            requires
                flags == 16i64 | 32i64,
        ;
        Some(
            X11SizeHints {
                flags,
                min_width: config.width as i32,
                min_height: config.height as i32,
                max_width: config.width as i32,
                max_height: config.height as i32,
            },
        )
    } else if config.min_size.is_some() || config.max_size.is_some() {
        let mut hints = X11SizeHints {
            flags: 0,
            min_width: 0,
            min_height: 0,
            max_width: 0,
            max_height: 0,
        };
        if let Some((w, h)) = config.min_size {
            hints.flags = hints.flags | P_MIN_SIZE;
            assert(0i64 | 16i64 == 16i64) by (bit_vector);
            hints.min_width = w as i32;
            hints.min_height = h as i32;
        }
        if let Some((w, h)) = config.max_size {
            let before: i64 = hints.flags;
            hints.flags = hints.flags | P_MAX_SIZE;
            assert((before == 0 || before == 16) ==> (before | 32i64) == before + 32) by (bit_vector);
            hints.max_width = w as i32;
            hints.max_height = h as i32;
        }
        Some(hints)
    } else {
        None
    }
}

/// Plans the creation of a window for a configuration.
pub fn x11_window_plan(config: &WindowConfig) -> (res: X11WindowPlan)
    ensures
        (res.x, res.y) == (match config.position { Some(p) => p, None => (0i32, 0i32) }),
        res.width == config.width,
        res.height == config.height,
        res.store_name@ == (if config.title@.contains('\0') { "windowed"@ } else { config.title@ }),
        res.size_hints == x11_hints_for(*config),
{
    let (x, y): (i32, i32) = match config.position {
        Some(p) => p,
        None => (0, 0),
    };
    let store_name = if is_nul_free(config.title.as_str()) {
        String::from_str(config.title.as_str())
    } else {
        String::from_str("windowed")
    };
    X11WindowPlan {
        x,
        y,
        width: config.width,
        height: config.height,
        store_name,
        size_hints: x11_size_hints(config),
    }
}

/// `GLX_RGBA`, `GLX_DOUBLEBUFFER`, `GLX_DEPTH_SIZE` attribute names.
pub const GLX_RGBA: i32 = 4;
pub const GLX_DOUBLEBUFFER: i32 = 5;
pub const GLX_DEPTH_SIZE: i32 = 12;

/// The visual asked of `glXChooseVisual` for a legacy OpenGL context: RGBA,
/// double-buffered, with a 24-bit depth buffer; the list ends with 0.
pub fn glx_visual_attributes() -> (res: Vec<i32>)
    ensures
        res@ == seq![GLX_RGBA, GLX_DOUBLEBUFFER, GLX_DEPTH_SIZE, 24i32, 0i32],
{
    vec![GLX_RGBA, GLX_DOUBLEBUFFER, GLX_DEPTH_SIZE, 24, 0]
}

} // verus!
