use windowed::config::WindowConfig;
use windowed::event::{Event, Key, MouseButton, WheelDelta};
use windowed::x11::events::{
    x11_button, X11EventState, X11RawEvent, BUTTON_PRESS, BUTTON_RELEASE, CLIENT_MESSAGE,
    CONFIGURE_NOTIFY, ENTER_NOTIFY, EXPOSE, FOCUS_IN, FOCUS_OUT, KEY_PRESS, KEY_RELEASE, LEAVE_NOTIFY,
    MOTION_NOTIFY,
};
use windowed::x11::setup::{x11_size_hints, x11_window_plan, X11SizeHints, P_MAX_SIZE, P_MIN_SIZE};

fn raw(kind: i32) -> X11RawEvent {
    X11RawEvent {
        kind,
        message_data0: 0,
        configure_width: 0,
        configure_height: 0,
        keycode: 0,
        button: 0,
        button_x: 0,
        button_y: 0,
        motion_x: 0,
        motion_y: 0,
    }
}

#[test]
fn close_message_only_for_delete_atom() {
    let mut st = X11EventState::new(800, 600, 301);
    let mut ev = raw(CLIENT_MESSAGE);
    ev.message_data0 = 301;
    assert_eq!(st.translate(&ev), Some(Event::CloseRequested));
    ev.message_data0 = 302;
    assert_eq!(st.translate(&ev), None);
}

#[test]
fn configure_reports_resize_once() {
    let mut st = X11EventState::new(800, 600, 1);
    let mut ev = raw(CONFIGURE_NOTIFY);
    ev.configure_width = 800;
    ev.configure_height = 600;
    assert_eq!(st.translate(&ev), None);
    ev.configure_width = 1024;
    ev.configure_height = 768;
    assert_eq!(st.translate(&ev), Some(Event::Resized { width: 1024, height: 768 }));
    assert_eq!(st.inner_size(), (1024, 768));
    assert_eq!(st.translate(&ev), None);
    assert_eq!(st.inner_size(), (1024, 768));
}

#[test]
fn keys_buttons_and_motion() {
    let mut st = X11EventState::new(10, 10, 1);
    let mut ev = raw(KEY_PRESS);
    ev.keycode = 9;
    assert_eq!(st.translate(&ev), Some(Event::KeyDown(Key::Escape)));
    ev.kind = KEY_RELEASE;
    ev.keycode = 256 + 24;
    assert_eq!(st.translate(&ev), Some(Event::KeyUp(Key::Q)));

    let mut b = raw(BUTTON_PRESS);
    b.button = 1;
    b.button_x = 5;
    b.button_y = -7;
    assert_eq!(st.translate(&b), Some(Event::MouseDown { button: MouseButton::Left, x: 5, y: -7 }));
    b.kind = BUTTON_RELEASE;
    b.button = 3;
    assert_eq!(st.translate(&b), Some(Event::MouseUp { button: MouseButton::Right, x: 5, y: -7 }));
    b.button = 8;
    assert_eq!(st.translate(&b), None);

    let mut m = raw(MOTION_NOTIFY);
    m.motion_x = 42;
    m.motion_y = 24;
    assert_eq!(st.translate(&m), Some(Event::MouseMove { x: 42, y: 24 }));
    assert_eq!(st.translate(&raw(ENTER_NOTIFY)), Some(Event::CursorEntered));
    assert_eq!(st.translate(&raw(LEAVE_NOTIFY)), Some(Event::CursorLeft));
    assert_eq!(st.translate(&raw(FOCUS_IN)), Some(Event::FocusGained));
    assert_eq!(st.translate(&raw(FOCUS_OUT)), Some(Event::FocusLost));
    assert_eq!(st.translate(&raw(EXPOSE)), Some(Event::RedrawRequested));
    assert_eq!(st.translate(&raw(28)), None);
}

#[test]
fn wheel_buttons_are_notches() {
    let mut st = X11EventState::new(10, 10, 1);
    let mut b = raw(BUTTON_PRESS);
    b.button = 4;
    assert_eq!(st.translate(&b), Some(Event::MouseWheel { delta: WheelDelta { raw: 1, per_notch: 1 } }));
    b.button = 5;
    assert_eq!(st.translate(&b), Some(Event::MouseWheel { delta: WheelDelta { raw: -1, per_notch: 1 } }));
    b.kind = BUTTON_RELEASE;
    assert_eq!(st.translate(&b), None);
}

#[test]
fn buttons_numbers() {
    assert_eq!(x11_button(1), Some(MouseButton::Left));
    assert_eq!(x11_button(2), Some(MouseButton::Middle));
    assert_eq!(x11_button(3), Some(MouseButton::Right));
    assert_eq!(x11_button(4), None);
}

#[test]
fn fixed_window_hints() {
    let c = WindowConfig::new("t").size(640, 480).resizable(false).min_size(1, 1);
    assert_eq!(
        x11_size_hints(&c),
        Some(X11SizeHints { flags: P_MIN_SIZE | P_MAX_SIZE, min_width: 640, min_height: 480, max_width: 640, max_height: 480 })
    );
}

#[test]
fn resizable_window_hints() {
    let c = WindowConfig::new("t");
    assert_eq!(x11_size_hints(&c), None);
    let c = c.min_size(100, 50);
    assert_eq!(
        x11_size_hints(&c),
        Some(X11SizeHints { flags: P_MIN_SIZE, min_width: 100, min_height: 50, max_width: 0, max_height: 0 })
    );
    let c = c.max_size(900, 700);
    assert_eq!(
        x11_size_hints(&c),
        Some(X11SizeHints { flags: 48, min_width: 100, min_height: 50, max_width: 900, max_height: 700 })
    );
    let c = WindowConfig::new("t").max_size(900, 700);
    assert_eq!(
        x11_size_hints(&c),
        Some(X11SizeHints { flags: P_MAX_SIZE, min_width: 0, min_height: 0, max_width: 900, max_height: 700 })
    );
}

#[test]
fn window_plan() {
    let p = x11_window_plan(&WindowConfig::new("Hello").position(3, 4));
    assert_eq!((p.x, p.y, p.width, p.height), (3, 4, 800, 600));
    assert_eq!(p.store_name, "Hello");
    assert_eq!(p.size_hints, None);
    let p = x11_window_plan(&WindowConfig::new("bad\0title"));
    assert_eq!((p.x, p.y), (0, 0));
    assert_eq!(p.store_name, "windowed");
}

#[test]
fn size_over_a_run_is_last_resize() {
    let mut st = X11EventState::new(800, 600, 1);
    let mut delivered = Vec::new();
    for (w, h, kind) in [(800, 600, CONFIGURE_NOTIFY), (640, 480, CONFIGURE_NOTIFY), (0, 0, MOTION_NOTIFY), (1024, 768, CONFIGURE_NOTIFY), (1024, 768, CONFIGURE_NOTIFY)] {
        let mut ev = raw(kind);
        ev.configure_width = w;
        ev.configure_height = h;
        if let Some(e) = st.translate(&ev) {
            delivered.push(e);
        }
    }
    assert_eq!(
        delivered,
        vec![
            Event::Resized { width: 640, height: 480 },
            Event::MouseMove { x: 0, y: 0 },
            Event::Resized { width: 1024, height: 768 },
        ]
    );
    assert_eq!(st.inner_size(), (1024, 768));
}
