use windowed::cocoa::events::{
    event_position, ns_event_reads, translate_ns_event, NsEventReads, NsTranslation,
    NS_EVENT_TYPE_KEY_DOWN, NS_EVENT_TYPE_KEY_UP, NS_EVENT_TYPE_LEFT_MOUSE_DOWN,
    NS_EVENT_TYPE_LEFT_MOUSE_DRAGGED, NS_EVENT_TYPE_OTHER_MOUSE_DOWN, NS_EVENT_TYPE_OTHER_MOUSE_UP,
    NS_EVENT_TYPE_RIGHT_MOUSE_UP, NS_EVENT_TYPE_SCROLL_WHEEL,
};
use windowed::cocoa::setup::{needs_full_screen_toggle, window_style_mask};
use windowed::event::{Event, Key, MouseButton};

#[test]
fn reads_per_type() {
    assert_eq!(ns_event_reads(NS_EVENT_TYPE_KEY_DOWN), NsEventReads { key_code: true, button_number: false, location: false });
    assert_eq!(ns_event_reads(NS_EVENT_TYPE_OTHER_MOUSE_UP), NsEventReads { key_code: false, button_number: true, location: true });
    assert_eq!(ns_event_reads(NS_EVENT_TYPE_LEFT_MOUSE_DRAGGED), NsEventReads { key_code: false, button_number: false, location: true });
    assert_eq!(ns_event_reads(NS_EVENT_TYPE_SCROLL_WHEEL), NsEventReads { key_code: false, button_number: false, location: false });
}

#[test]
fn translations() {
    assert_eq!(translate_ns_event(NS_EVENT_TYPE_KEY_DOWN, 0x35, 0, (0, 0)), NsTranslation::Deliver(Event::KeyDown(Key::Escape)));
    assert_eq!(translate_ns_event(NS_EVENT_TYPE_KEY_UP, 0x10000, 0, (0, 0)), NsTranslation::Deliver(Event::KeyUp(Key::A)));
    assert_eq!(
        translate_ns_event(NS_EVENT_TYPE_LEFT_MOUSE_DOWN, 0, 0, (4, 5)),
        NsTranslation::Deliver(Event::MouseDown { button: MouseButton::Left, x: 4, y: 5 })
    );
    assert_eq!(
        translate_ns_event(NS_EVENT_TYPE_RIGHT_MOUSE_UP, 0, 0, (4, 5)),
        NsTranslation::Deliver(Event::MouseUp { button: MouseButton::Right, x: 4, y: 5 })
    );
    assert_eq!(
        translate_ns_event(NS_EVENT_TYPE_OTHER_MOUSE_DOWN, 0, 2, (1, 1)),
        NsTranslation::Deliver(Event::MouseDown { button: MouseButton::Middle, x: 1, y: 1 })
    );
    assert_eq!(translate_ns_event(NS_EVENT_TYPE_OTHER_MOUSE_DOWN, 0, 3, (1, 1)), NsTranslation::Ignore);
    assert_eq!(
        translate_ns_event(NS_EVENT_TYPE_LEFT_MOUSE_DRAGGED, 0, 0, (7, 8)),
        NsTranslation::Deliver(Event::MouseMove { x: 7, y: 8 })
    );
    assert_eq!(translate_ns_event(NS_EVENT_TYPE_SCROLL_WHEEL, 0, 0, (0, 0)), NsTranslation::ScrollWheel);
    assert_eq!(translate_ns_event(99, 0, 0, (0, 0)), NsTranslation::Ignore);
}

#[test]
fn flipped_positions() {
    assert_eq!(event_position(10, 0, 600), Some((10, 600)));
    assert_eq!(event_position(10, 600, 600), Some((10, 0)));
    assert_eq!(event_position(0, i32::MIN, 1), None);
}

#[test]
fn style_and_full_screen() {
    assert_eq!(window_style_mask(true), 15);
    assert_eq!(window_style_mask(false), 7);
    assert!(needs_full_screen_toggle(15, true));
    assert!(!needs_full_screen_toggle(15 | 0x4000, true));
    assert!(needs_full_screen_toggle(15 | 0x4000, false));
    assert!(!needs_full_screen_toggle(15, false));
}
