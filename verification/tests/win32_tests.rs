use windowed::config::WindowConfig;
use windowed::event::{Event, Key, MouseButton, WheelDelta};
use windowed::rwd::{win32_raw_handle, HandleError, RawWindowHandle, Win32WindowHandle};
use windowed::text::{is_nul_free, to_wide};
use windowed::win32::messages::{
    high_word_of, low_word_of, signed_word_of, Win32MessageState, Win32Reply, WM_CHAR, WM_CLOSE,
    WM_DESTROY, WM_KEYDOWN, WM_KEYUP, WM_KILLFOCUS, WM_LBUTTONDOWN, WM_MBUTTONUP, WM_MOUSELEAVE,
    WM_MOUSEMOVE, WM_MOUSEWHEEL, WM_PAINT, WM_RBUTTONUP, WM_SETFOCUS, WM_SIZE, WM_SYSKEYDOWN, WM_SYSKEYUP,
};
use windowed::win32::setup::{
    is_usable_wgl_proc, opengl_pixel_format, warp_target, win32_window_plan, window_style,
    Win32Rect, CW_USEDEFAULT, WS_FIXED_FRAME, WS_OVERLAPPEDWINDOW,
};

fn lparam(x: i32, y: i32) -> isize {
    (((y as u32 & 0xFFFF) << 16) | (x as u32 & 0xFFFF)) as isize
}

#[test]
fn size_message() {
    let mut st = Win32MessageState::new();
    let (evs, reply) = st.handle_message(WM_SIZE, 0, lparam(800, 600));
    assert_eq!(evs, vec![Event::Resized { width: 800, height: 600 }]);
    assert_eq!(reply, Win32Reply::Handled);
    let (evs, _) = st.handle_message(WM_SIZE, 0, lparam(0, 0));
    assert!(evs.is_empty());
    let (evs, _) = st.handle_message(WM_SIZE, 0, lparam(800, 0));
    assert!(evs.is_empty());
}

#[test]
fn close_destroy_paint_focus() {
    let mut st = Win32MessageState::new();
    assert_eq!(st.handle_message(WM_CLOSE, 0, 0), (vec![Event::CloseRequested], Win32Reply::Handled));
    assert_eq!(st.handle_message(WM_DESTROY, 0, 0), (vec![], Win32Reply::PostQuit));
    assert_eq!(st.handle_message(WM_PAINT, 0, 0), (vec![Event::RedrawRequested], Win32Reply::Paint));
    assert_eq!(st.handle_message(WM_SETFOCUS, 0, 0), (vec![Event::FocusGained], Win32Reply::Handled));
    assert_eq!(st.handle_message(WM_KILLFOCUS, 0, 0), (vec![Event::FocusLost], Win32Reply::Handled));
    assert_eq!(st.handle_message(0x0001, 0, 0), (vec![], Win32Reply::Default));
}

#[test]
fn keys_and_chars() {
    let mut st = Win32MessageState::new();
    assert_eq!(st.handle_message(WM_KEYDOWN, 0x1B, 0).0, vec![Event::KeyDown(Key::Escape)]);
    assert_eq!(st.handle_message(WM_SYSKEYDOWN, 0xA4, 0).0, vec![Event::KeyDown(Key::LeftAlt)]);
    assert_eq!(st.handle_message(WM_KEYUP, 0x10000 + 0x41, 0).0, vec![Event::KeyUp(Key::A)]);
    assert_eq!(st.handle_message(WM_CHAR, 'a' as usize, 0).0, vec![Event::CharInput('a')]);
    assert_eq!(st.handle_message(WM_CHAR, 0xE9, 0).0, vec![Event::CharInput('é')]);
    assert!(st.handle_message(WM_CHAR, 0x08, 0).0.is_empty());
    assert!(st.handle_message(WM_CHAR, 0xD800, 0).0.is_empty());
}

#[test]
fn alt_f4_goes_on_to_the_system() {
    let mut st = Win32MessageState::new();
    let alt_held: isize = 1 << 29;
    assert_eq!(
        st.handle_message(WM_SYSKEYDOWN, 0x73, alt_held),
        (vec![Event::KeyDown(Key::F4)], Win32Reply::QueueThenDefault)
    );
    assert_eq!(
        st.handle_message(WM_SYSKEYUP, 0x73, alt_held),
        (vec![Event::KeyUp(Key::F4)], Win32Reply::QueueThenDefault)
    );
    assert_eq!(st.handle_message(WM_KEYDOWN, 0x73, 0).1, Win32Reply::Handled);
    // what the system then sends for Alt+F4
    assert_eq!(st.handle_message(WM_CLOSE, 0, 0).0, vec![Event::CloseRequested]);
}

#[test]
fn mouse_tracking() {
    let mut st = Win32MessageState::new();
    let (evs, reply) = st.handle_message(WM_MOUSEMOVE, 0, lparam(10, 20));
    assert_eq!(evs, vec![Event::CursorEntered, Event::MouseMove { x: 10, y: 20 }]);
    assert_eq!(reply, Win32Reply::TrackMouseLeave);
    assert!(st.tracking_mouse);
    let (evs, reply) = st.handle_message(WM_MOUSEMOVE, 0, lparam(-3, -4));
    assert_eq!(evs, vec![Event::MouseMove { x: -3, y: -4 }]);
    assert_eq!(reply, Win32Reply::Handled);
    assert_eq!(st.handle_message(WM_MOUSELEAVE, 0, 0).0, vec![Event::CursorLeft]);
    assert!(!st.tracking_mouse);
    let (evs, _) = st.handle_message(WM_MOUSEMOVE, 0, lparam(1, 1));
    assert_eq!(evs[0], Event::CursorEntered);
}

#[test]
fn buttons_and_wheel() {
    let mut st = Win32MessageState::new();
    assert_eq!(
        st.handle_message(WM_LBUTTONDOWN, 0, lparam(-1, 300)).0,
        vec![Event::MouseDown { button: MouseButton::Left, x: -1, y: 300 }]
    );
    assert_eq!(
        st.handle_message(WM_RBUTTONUP, 0, lparam(2, 3)).0,
        vec![Event::MouseUp { button: MouseButton::Right, x: 2, y: 3 }]
    );
    assert_eq!(
        st.handle_message(WM_MBUTTONUP, 0, lparam(2, 3)).0,
        vec![Event::MouseUp { button: MouseButton::Middle, x: 2, y: 3 }]
    );
    assert_eq!(
        st.handle_message(WM_MOUSEWHEEL, 120 << 16, 0).0,
        vec![Event::MouseWheel { delta: WheelDelta { raw: 120, per_notch: 120 } }]
    );
    assert_eq!(
        st.handle_message(WM_MOUSEWHEEL, 0xFF88 << 16, 0).0,
        vec![Event::MouseWheel { delta: WheelDelta { raw: -120, per_notch: 120 } }]
    );
}

#[test]
fn words() {
    assert_eq!(low_word_of(0x1234_5678), 0x5678);
    assert_eq!(high_word_of(0x1234_5678), 0x1234);
    assert_eq!(signed_word_of(0xFFFF), -1);
    assert_eq!(signed_word_of(0x8000), -32768);
    assert_eq!(signed_word_of(0x7FFF), 32767);
}

#[test]
fn wide_strings() {
    assert_eq!(to_wide("A"), vec![0x41]);
    assert_eq!(to_wide("é\0"), vec![0xE9, 0]);
    assert_eq!(to_wide("😀"), vec![0xD83D, 0xDE00]);
    assert_eq!(to_wide(""), Vec::<u16>::new());
    let s = "mixed ünïcode 😀 text";
    assert_eq!(to_wide(s), s.encode_utf16().collect::<Vec<u16>>());
    for s in ["", "abc", "é\0z", "😀x😀", "mixed ünïcode 😀 text", "\u{FFFF}\u{10000}\u{10FFFF}"] {
        let w = to_wide(s);
        assert_eq!(String::from_utf16(&w).unwrap(), s);
        assert_eq!(w.len(), s.chars().map(|c| c.len_utf16()).sum::<usize>());
    }
    assert!(is_nul_free("abc"));
    assert!(!is_nul_free("a\0c"));
}

#[test]
fn creation_plan() {
    let p = win32_window_plan(&WindowConfig::new("Hi").size(640, 480));
    assert_eq!(p.style, WS_OVERLAPPEDWINDOW);
    assert_eq!((p.x, p.y), (CW_USEDEFAULT, CW_USEDEFAULT));
    assert_eq!((p.client_right, p.client_bottom), (640, 480));
    assert_eq!(p.title, vec![0x48, 0x69, 0]);
    let p = win32_window_plan(&WindowConfig::new("").resizable(false).position(5, 6));
    assert_eq!(p.style, WS_FIXED_FRAME);
    assert_eq!((p.x, p.y), (5, 6));
    assert_eq!(p.title, vec![0]);
    assert_eq!(window_style(true), 0x00CF_0000);
    assert_eq!(window_style(false), 0x00CA_0000);
}

#[test]
fn cursor_warp_target() {
    let window = Win32Rect { left: 100, top: 50, right: 916, bottom: 689 };
    let client = Win32Rect { left: 0, top: 0, right: 800, bottom: 600 };
    // borders of 8 on each side, title bar of 31 on top
    assert_eq!(warp_target(window, client, 10, 20), Some((118, 101)));
    let far = Win32Rect { left: i32::MAX - 10, top: 0, right: i32::MAX, bottom: 10 };
    let none = Win32Rect { left: 0, top: 0, right: 0, bottom: 0 };
    assert_eq!(warp_target(far, none, 0, 0), Some((i32::MAX - 5, 5)));
    assert_eq!(warp_target(far, none, 100, 0), None);
    let wide = Win32Rect { left: i32::MIN, top: 0, right: 1, bottom: 0 };
    assert_eq!(warp_target(wide, none, 0, 0), None);
}

#[test]
fn wgl_proc_results() {
    for bad in [0isize, 1, 2, 3, -1] {
        assert!(!is_usable_wgl_proc(bad));
    }
    assert!(is_usable_wgl_proc(0x7ff0_1234));
    assert!(is_usable_wgl_proc(4));
}

#[test]
fn pixel_format() {
    let pfd = opengl_pixel_format();
    assert_eq!(pfd.n_size, 40);
    assert_eq!(pfd.n_version, 1);
    assert_eq!(pfd.dw_flags, 0x25);
    assert_eq!((pfd.c_color_bits, pfd.c_alpha_bits, pfd.c_depth_bits, pfd.c_stencil_bits), (32, 8, 24, 8));
}

#[test]
fn window_handles() {
    assert_eq!(win32_raw_handle(0, 5).err(), Some(HandleError::Unavailable));
    match win32_raw_handle(0x1234, 0) {
        Ok(RawWindowHandle::Win32(h)) => assert_eq!(h, Win32WindowHandle { hwnd: 0x1234, hinstance: None }),
        _ => panic!("expected a Win32 handle"),
    }
    match win32_raw_handle(7, 9) {
        Ok(RawWindowHandle::Win32(h)) => assert_eq!(h.hinstance, Some(9)),
        _ => panic!("expected a Win32 handle"),
    }
    assert_eq!(Win32WindowHandle::new(3).hinstance, None);
    assert_eq!(HandleError::Unavailable.message(), "handle unavailable");
}
