use vstd::prelude::*;
use crate::event::{Event, MouseButton, key_event, button_event};
use crate::cocoa::keys::{keycode_to_key, mac_key_of};
use crate::geometry::in_i32;

verus! {

pub const NS_EVENT_TYPE_LEFT_MOUSE_DOWN: usize = 1;
pub const NS_EVENT_TYPE_LEFT_MOUSE_UP: usize = 2;
pub const NS_EVENT_TYPE_RIGHT_MOUSE_DOWN: usize = 3;
pub const NS_EVENT_TYPE_RIGHT_MOUSE_UP: usize = 4;
pub const NS_EVENT_TYPE_MOUSE_MOVED: usize = 5;
pub const NS_EVENT_TYPE_LEFT_MOUSE_DRAGGED: usize = 6;
pub const NS_EVENT_TYPE_RIGHT_MOUSE_DRAGGED: usize = 7;
pub const NS_EVENT_TYPE_KEY_DOWN: usize = 10;
pub const NS_EVENT_TYPE_KEY_UP: usize = 11;
pub const NS_EVENT_TYPE_SCROLL_WHEEL: usize = 22;
pub const NS_EVENT_TYPE_OTHER_MOUSE_DOWN: usize = 25;
pub const NS_EVENT_TYPE_OTHER_MOUSE_UP: usize = 26;
pub const NS_EVENT_TYPE_OTHER_MOUSE_DRAGGED: usize = 27;

/// The `buttonNumber` of the middle button in an "other mouse" event.
pub const MIDDLE_BUTTON_NUMBER: usize = 2;

/// Which properties of an `NSEvent` its translation needs: an event may only
/// be asked for those that its type has.
#[derive(Debug, Clone, Copy, PartialEq, Eq, Structural)]
pub struct NsEventReads {
    pub key_code: bool,
    pub button_number: bool,
    pub location: bool,
}

pub open spec fn is_key_type(kind: usize) -> bool {
    kind == NS_EVENT_TYPE_KEY_DOWN || kind == NS_EVENT_TYPE_KEY_UP
}

pub open spec fn is_other_button_type(kind: usize) -> bool {
    kind == NS_EVENT_TYPE_OTHER_MOUSE_DOWN || kind == NS_EVENT_TYPE_OTHER_MOUSE_UP
}

pub open spec fn is_pointer_type(kind: usize) -> bool {
    ||| (NS_EVENT_TYPE_LEFT_MOUSE_DOWN <= kind <= NS_EVENT_TYPE_RIGHT_MOUSE_DRAGGED)
    ||| is_other_button_type(kind)
    ||| kind == NS_EVENT_TYPE_OTHER_MOUSE_DRAGGED
}

/// Says which properties to read from an event of type `kind`.
pub fn ns_event_reads(kind: usize) -> (res: NsEventReads)
    ensures
        res.key_code == is_key_type(kind),
        res.button_number == is_other_button_type(kind),
        res.location == is_pointer_type(kind),
{
    NsEventReads {
        key_code: kind == NS_EVENT_TYPE_KEY_DOWN || kind == NS_EVENT_TYPE_KEY_UP,
        button_number: kind == NS_EVENT_TYPE_OTHER_MOUSE_DOWN || kind
            == NS_EVENT_TYPE_OTHER_MOUSE_UP,
        location: (NS_EVENT_TYPE_LEFT_MOUSE_DOWN <= kind && kind
            <= NS_EVENT_TYPE_RIGHT_MOUSE_DRAGGED) || kind == NS_EVENT_TYPE_OTHER_MOUSE_DOWN
            || kind == NS_EVENT_TYPE_OTHER_MOUSE_UP || kind == NS_EVENT_TYPE_OTHER_MOUSE_DRAGGED,
    }
}

/// The position, with the origin at the top left of the view, of a point
/// given (truncated to integers) with the origin at the bottom left.
pub open spec fn top_left_position(x: i32, y: i32, view_height: u32) -> Option<(i32, i32)> {
    let flipped: int = (view_height as i32) - y;
    if in_i32(flipped) {
        Some((x, flipped as i32))
    } else {
        None
    }
}

/// Flipping keeps `x`, and measures `y` down from the top instead of up from
/// the bottom: the two heights add up to the view's height.
pub proof fn lemma_top_left_position(x: i32, y: i32, view_height: u32)
    ensures
        top_left_position(x, y, view_height) matches Some((tx, ty)) ==> tx == x && ty + y
            == view_height as i32,
        0 <= y <= view_height <= i32::MAX ==> top_left_position(x, y, view_height) is Some,
{
}

/// Flips a Cocoa window location to top-left coordinates; `None` where the
/// subtraction would overflow.
pub fn event_position(x: i32, y: i32, view_height: u32) -> (res: Option<(i32, i32)>)
    ensures
        res == top_left_position(x, y, view_height),
{
    match (view_height as i32).checked_sub(y) {
        Some(fy) => Some((x, fy)),
        None => None,
    }
}

/// What becomes of an `NSEvent`.
#[derive(Debug, Clone, PartialEq, Eq, Structural)]
pub enum NsTranslation {
    /// Deliver this event.
    Deliver(Event),
    /// A scroll: deliver `MouseWheel` with the event's vertical scrolling
    /// delta when that is not zero.
    ScrollWheel,
    /// Nothing to deliver.
    Ignore,
}

/// Whether an event type reports the pointer moving (with or without a
/// button held).
pub open spec fn is_motion_type(kind: usize) -> bool {
    ||| kind == NS_EVENT_TYPE_MOUSE_MOVED
    ||| kind == NS_EVENT_TYPE_LEFT_MOUSE_DRAGGED
    ||| kind == NS_EVENT_TYPE_RIGHT_MOUSE_DRAGGED
    ||| kind == NS_EVENT_TYPE_OTHER_MOUSE_DRAGGED
}

/// The button, and whether it went down, of a button event type; of the
/// "other" buttons only the middle one (`buttonNumber` 2) is reported.
pub open spec fn ns_button(kind: usize, button_number: usize) -> Option<(MouseButton, bool)> {
    if kind == NS_EVENT_TYPE_LEFT_MOUSE_DOWN || kind == NS_EVENT_TYPE_LEFT_MOUSE_UP {
        Some((MouseButton::Left, kind == NS_EVENT_TYPE_LEFT_MOUSE_DOWN))
    } else if kind == NS_EVENT_TYPE_RIGHT_MOUSE_DOWN || kind == NS_EVENT_TYPE_RIGHT_MOUSE_UP {
        Some((MouseButton::Right, kind == NS_EVENT_TYPE_RIGHT_MOUSE_DOWN))
    } else if is_other_button_type(kind) && button_number == MIDDLE_BUTTON_NUMBER {
        Some((MouseButton::Middle, kind == NS_EVENT_TYPE_OTHER_MOUSE_DOWN))
    } else {
        None
    }
}

/// The translation of an event of type `kind`, given the properties that
/// `ns_event_reads` asks for (`key_code`, `button_number`, and the top-left
/// position `pos`): key events name the key of their keycode, motion
/// events the position, button events their button and position, and a
/// scroll is decided on its delta.
pub open spec fn ns_translation(kind: usize, key_code: usize, button_number: usize, pos: (i32, i32)) -> NsTranslation {
    if is_key_type(kind) {
        NsTranslation::Deliver(
            key_event(kind == NS_EVENT_TYPE_KEY_DOWN, mac_key_of((key_code as u16) as int)),
        )
    } else if is_motion_type(kind) {
        NsTranslation::Deliver(Event::MouseMove { x: pos.0, y: pos.1 })
    } else if kind == NS_EVENT_TYPE_SCROLL_WHEEL {
        NsTranslation::ScrollWheel
    } else {
        match ns_button(kind, button_number) {
            Some((button, down)) => NsTranslation::Deliver(button_event(button, down, pos.0, pos.1)),
            None => NsTranslation::Ignore,
        }
    }
}

/// Translates an `NSEvent` from its type and the properties it was asked for.
pub fn translate_ns_event(kind: usize, key_code: usize, button_number: usize, pos: (i32, i32)) -> (res: NsTranslation)
    ensures
        res == ns_translation(kind, key_code, button_number, pos),
{
    let (x, y): (i32, i32) = pos;
    if kind == NS_EVENT_TYPE_KEY_DOWN {
        NsTranslation::Deliver(Event::KeyDown(keycode_to_key(key_code as u16)))
    } else if kind == NS_EVENT_TYPE_KEY_UP {
        NsTranslation::Deliver(Event::KeyUp(keycode_to_key(key_code as u16)))
    } else if kind == NS_EVENT_TYPE_LEFT_MOUSE_DOWN {
        NsTranslation::Deliver(Event::MouseDown { button: MouseButton::Left, x, y })
    } else if kind == NS_EVENT_TYPE_LEFT_MOUSE_UP {
        NsTranslation::Deliver(Event::MouseUp { button: MouseButton::Left, x, y })
    } else if kind == NS_EVENT_TYPE_RIGHT_MOUSE_DOWN {
        NsTranslation::Deliver(Event::MouseDown { button: MouseButton::Right, x, y })
    } else if kind == NS_EVENT_TYPE_RIGHT_MOUSE_UP {
        NsTranslation::Deliver(Event::MouseUp { button: MouseButton::Right, x, y })
    } else if kind == NS_EVENT_TYPE_OTHER_MOUSE_DOWN {
        if button_number == MIDDLE_BUTTON_NUMBER {
            NsTranslation::Deliver(Event::MouseDown { button: MouseButton::Middle, x, y })
        } else {
            NsTranslation::Ignore
        }
    } else if kind == NS_EVENT_TYPE_OTHER_MOUSE_UP {
        if button_number == MIDDLE_BUTTON_NUMBER {
            NsTranslation::Deliver(Event::MouseUp { button: MouseButton::Middle, x, y })
        } else {
            NsTranslation::Ignore
        }
    } else if kind == NS_EVENT_TYPE_MOUSE_MOVED || kind == NS_EVENT_TYPE_LEFT_MOUSE_DRAGGED
        || kind == NS_EVENT_TYPE_RIGHT_MOUSE_DRAGGED || kind == NS_EVENT_TYPE_OTHER_MOUSE_DRAGGED {
        NsTranslation::Deliver(Event::MouseMove { x, y })
    } else if kind == NS_EVENT_TYPE_SCROLL_WHEEL {
        NsTranslation::ScrollWheel
    } else {
        NsTranslation::Ignore
    }
}

/// Button events name their own button and direction at the position:
/// the left and right button types directly, the "other" types only for
/// the middle button (`buttonNumber` 2).
pub proof fn lemma_ns_buttons(key_code: usize, button_number: usize, pos: (i32, i32))
    ensures
        ns_translation(NS_EVENT_TYPE_LEFT_MOUSE_DOWN, key_code, button_number, pos)
            == NsTranslation::Deliver(Event::MouseDown { button: MouseButton::Left, x: pos.0, y: pos.1 }),
        ns_translation(NS_EVENT_TYPE_LEFT_MOUSE_UP, key_code, button_number, pos)
            == NsTranslation::Deliver(Event::MouseUp { button: MouseButton::Left, x: pos.0, y: pos.1 }),
        ns_translation(NS_EVENT_TYPE_RIGHT_MOUSE_DOWN, key_code, button_number, pos)
            == NsTranslation::Deliver(Event::MouseDown { button: MouseButton::Right, x: pos.0, y: pos.1 }),
        ns_translation(NS_EVENT_TYPE_RIGHT_MOUSE_UP, key_code, button_number, pos)
            == NsTranslation::Deliver(Event::MouseUp { button: MouseButton::Right, x: pos.0, y: pos.1 }),
        button_number == 2 ==> ns_translation(NS_EVENT_TYPE_OTHER_MOUSE_DOWN, key_code, button_number, pos)
            == NsTranslation::Deliver(Event::MouseDown { button: MouseButton::Middle, x: pos.0, y: pos.1 }),
        button_number == 2 ==> ns_translation(NS_EVENT_TYPE_OTHER_MOUSE_UP, key_code, button_number, pos)
            == NsTranslation::Deliver(Event::MouseUp { button: MouseButton::Middle, x: pos.0, y: pos.1 }),
        button_number != 2 ==> ns_translation(NS_EVENT_TYPE_OTHER_MOUSE_DOWN, key_code, button_number, pos)
            == NsTranslation::Ignore,
        button_number != 2 ==> ns_translation(NS_EVENT_TYPE_OTHER_MOUSE_UP, key_code, button_number, pos)
            == NsTranslation::Ignore,
{
}

/// The other event types: keys name the key of their keycode (low 16
/// bits), moves and drags give the position, a scroll is decided on its
/// delta, and any other type is ignored.
pub proof fn lemma_ns_other_events(kind: usize, key_code: usize, button_number: usize, pos: (i32, i32))
    ensures
        ns_translation(NS_EVENT_TYPE_KEY_DOWN, key_code, button_number, pos)
            == NsTranslation::Deliver(Event::KeyDown(mac_key_of(key_code as int % 0x10000))),
        ns_translation(NS_EVENT_TYPE_KEY_UP, key_code, button_number, pos)
            == NsTranslation::Deliver(Event::KeyUp(mac_key_of(key_code as int % 0x10000))),
        kind == NS_EVENT_TYPE_MOUSE_MOVED || kind == NS_EVENT_TYPE_LEFT_MOUSE_DRAGGED
            || kind == NS_EVENT_TYPE_RIGHT_MOUSE_DRAGGED || kind == NS_EVENT_TYPE_OTHER_MOUSE_DRAGGED
            ==> ns_translation(kind, key_code, button_number, pos)
            == NsTranslation::Deliver(Event::MouseMove { x: pos.0, y: pos.1 }),
        ns_translation(NS_EVENT_TYPE_SCROLL_WHEEL, key_code, button_number, pos)
            == NsTranslation::ScrollWheel,
        kind == 0 || kind == 8 || kind == 9 || (12 <= kind <= 21) || (23 <= kind <= 24) || kind > 27
            ==> ns_translation(kind, key_code, button_number, pos) == NsTranslation::Ignore,
{
    let kc: usize = key_code;
    assert((kc as u16) as int == kc as int % 0x10000) by (bit_vector);
}

/// A translation only depends on the properties that its event type has:
/// whatever is passed for the others gives the same result.
pub proof fn lemma_ns_translation_reads_enough(
    kind: usize,
    key_code: usize,
    button_number: usize,
    pos: (i32, i32),
    key_code2: usize,
    button_number2: usize,
    pos2: (i32, i32),
)
    requires
        is_key_type(kind) ==> key_code == key_code2,
        is_other_button_type(kind) ==> button_number == button_number2,
        is_pointer_type(kind) ==> pos == pos2,
    ensures
        ns_translation(kind, key_code, button_number, pos) == ns_translation(
            kind,
            key_code2,
            button_number2,
            pos2,
        ),
{
}

} // verus!
