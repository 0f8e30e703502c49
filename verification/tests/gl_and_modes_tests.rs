use windowed::cocoa::events::{translate_ns_event, NS_EVENT_TYPE_KEY_DOWN, NS_EVENT_TYPE_MOUSE_MOVED};
use windowed::cocoa::setup::opengl_pixel_format_attributes;
use windowed::win32::modes::{fullscreen_placement, Win32Modes};
use windowed::win32::setup::Win32Rect;
use windowed::x11::setup::glx_visual_attributes;

#[test]
fn gl_attribute_lists() {
    assert_eq!(glx_visual_attributes(), vec![4, 5, 12, 24, 0]);
    assert_eq!(opengl_pixel_format_attributes(), vec![73, 5, 12, 24, 99, 0x3200, 0]);
}

#[test]
fn mode_switches_act_once() {
    let mut m = Win32Modes::new();
    assert!(!m.switch_fullscreen(false));
    assert!(m.switch_fullscreen(true));
    assert!(!m.switch_fullscreen(true));
    assert!(m.fullscreen && !m.mouse_grabbed);
    assert!(m.switch_mouse_grab(true));
    assert!(!m.switch_mouse_grab(true));
    assert!(m.switch_fullscreen(false));
    assert!(!m.fullscreen && m.mouse_grabbed);
}

#[test]
fn monitor_cover() {
    let r = Win32Rect { left: -1920, top: 0, right: 0, bottom: 1080 };
    assert_eq!(fullscreen_placement(r), Some((-1920, 0, 1920, 1080)));
    let huge = Win32Rect { left: i32::MIN, top: 0, right: i32::MAX, bottom: 1 };
    assert_eq!(fullscreen_placement(huge), None);
}

#[test]
fn unread_properties_do_not_matter() {
    assert_eq!(
        translate_ns_event(NS_EVENT_TYPE_KEY_DOWN, 0x24, 0, (0, 0)),
        translate_ns_event(NS_EVENT_TYPE_KEY_DOWN, 0x24, 7, (55, -3))
    );
    assert_eq!(
        translate_ns_event(NS_EVENT_TYPE_MOUSE_MOVED, 0, 0, (1, 2)),
        translate_ns_event(NS_EVENT_TYPE_MOUSE_MOVED, 99, 4, (1, 2))
    );
}
