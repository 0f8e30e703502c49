use vstd::prelude::*;
use crate::event::{Event, MouseButton, WheelDelta, key_event, button_event};
use crate::event_loop::{InnerSize, last_resize};
use crate::x11::keys::{x11_keycode_to_key, x11_key_of};

verus! {

pub const KEY_PRESS: i32 = 2;
pub const KEY_RELEASE: i32 = 3;
pub const BUTTON_PRESS: i32 = 4;
pub const BUTTON_RELEASE: i32 = 5;
pub const MOTION_NOTIFY: i32 = 6;
pub const ENTER_NOTIFY: i32 = 7;
pub const LEAVE_NOTIFY: i32 = 8;
pub const FOCUS_IN: i32 = 9;
pub const FOCUS_OUT: i32 = 10;
pub const EXPOSE: i32 = 12;
pub const CONFIGURE_NOTIFY: i32 = 22;
pub const CLIENT_MESSAGE: i32 = 33;

/// The wheel buttons of the X11 core protocol.
pub const WHEEL_UP_BUTTON: u32 = 4;
pub const WHEEL_DOWN_BUTTON: u32 = 5;

/// The fields of an `XEvent` that event translation reads, taken from the
/// union member that `kind` selects (the others are zero).
#[derive(Debug, Clone, Copy, PartialEq, Eq, Structural)]
pub struct X11RawEvent {
    /// `type`
    pub kind: i32,
    /// `xclient.data.l[0]`
    pub message_data0: i64,
    /// `xconfigure.width`, `xconfigure.height`
    pub configure_width: i32,
    pub configure_height: i32,
    /// `xkey.keycode`
    pub keycode: u32,
    /// `xbutton.button`, `xbutton.x`, `xbutton.y`
    pub button: u32,
    pub button_x: i32,
    pub button_y: i32,
    /// `xmotion.x`, `xmotion.y`
    pub motion_x: i32,
    pub motion_y: i32,
}

/// The pointer button that an X11 button number stands for.
pub open spec fn x11_button_of(button: u32) -> Option<MouseButton> {
    if button == 1 {
        Some(MouseButton::Left)
    } else if button == 2 {
        Some(MouseButton::Middle)
    } else if button == 3 {
        Some(MouseButton::Right)
    } else {
        None
    }
}

/// Maps an X11 pointer button number to a mouse button; the wheel and extra
/// buttons have none.
pub fn x11_button(button: u32) -> (res: Option<MouseButton>)
    ensures
        res == x11_button_of(button),
{
    match button {
        1 => Some(MouseButton::Left),
        2 => Some(MouseButton::Middle),
        3 => Some(MouseButton::Right),
        _ => None,
    }
}

/// One notch of the wheel, forward (`up`) or back.
pub open spec fn wheel_notch(up: bool) -> WheelDelta {
    WheelDelta { raw: if up { 1i32 } else { -1i32 }, per_notch: 1i32 }
}

/// What the X11 back-end knows while it translates events: the client-area
/// size last reported and the `WM_DELETE_WINDOW` atom of its window.
#[derive(Debug, Clone, Copy, PartialEq, Eq, Structural)]
pub struct X11EventState {
    pub size: InnerSize,
    pub wm_delete_window: u64,
}

/// The event that an X11 event other than `ConfigureNotify` becomes, if any:
/// the window manager's `WM_DELETE_WINDOW` message asks to close, key
/// events name the key of their keycode (its low byte), the wheel buttons
/// give one notch, the other buttons their press or release, and pointer
/// motion, crossing and focus events their counterparts, and an exposed
/// window is to be redrawn.
pub open spec fn x11_event(wm_delete_window: u64, ev: X11RawEvent) -> Option<Event> {
    let k = ev.kind;
    if k == CLIENT_MESSAGE {
        if ev.message_data0 as u64 == wm_delete_window {
            Some(Event::CloseRequested)
        } else {
            None
        }
    } else if k == KEY_PRESS || k == KEY_RELEASE {
        Some(key_event(k == KEY_PRESS, x11_key_of((ev.keycode as u8) as int)))
    } else if k == BUTTON_PRESS && (ev.button == WHEEL_UP_BUTTON || ev.button == WHEEL_DOWN_BUTTON) {
        Some(Event::MouseWheel { delta: wheel_notch(ev.button == WHEEL_UP_BUTTON) })
    } else if k == BUTTON_PRESS || k == BUTTON_RELEASE {
        match x11_button_of(ev.button) {
            Some(button) => Some(button_event(button, k == BUTTON_PRESS, ev.button_x, ev.button_y)),
            None => None,
        }
    } else if k == MOTION_NOTIFY {
        Some(Event::MouseMove { x: ev.motion_x, y: ev.motion_y })
    } else if k == ENTER_NOTIFY {
        Some(Event::CursorEntered)
    } else if k == LEAVE_NOTIFY {
        Some(Event::CursorLeft)
    } else if k == FOCUS_IN {
        Some(Event::FocusGained)
    } else if k == FOCUS_OUT {
        Some(Event::FocusLost)
    } else if k == EXPOSE {
        Some(Event::RedrawRequested)
    } else {
        None
    }
}

/// The event (if any) that an X11 event becomes, and the state after it: a
/// `ConfigureNotify` is a size report, every other event leaves the state
/// alone.
pub open spec fn x11_translation(st: X11EventState, ev: X11RawEvent) -> (
    X11EventState,
    Option<Event>,
) {
    if ev.kind == CONFIGURE_NOTIFY {
        let (size, e) = st.size.after_report(
            ev.configure_width as u32,
            ev.configure_height as u32,
            false,
        );
        (X11EventState { size, ..st }, e)
    } else {
        (st, x11_event(st.wm_delete_window, ev))
    }
}

impl X11EventState {
    pub fn new(width: u32, height: u32, wm_delete_window: u64) -> (res: Self)
        ensures
            res == (X11EventState { size: InnerSize { width, height }, wm_delete_window }),
    {
        X11EventState { size: InnerSize::new(width, height), wm_delete_window }
    }

    /// Translates one X11 event into the event to deliver, if any; a
    /// `ConfigureNotify` updates the known size.
    pub fn translate(&mut self, ev: &X11RawEvent) -> (res: Option<Event>)
        ensures
            (*final(self), res) == x11_translation(*old(self), *ev),
    {
        let k: i32 = ev.kind;
        if k == CLIENT_MESSAGE {
            if ev.message_data0 as u64 == self.wm_delete_window {
                Some(Event::CloseRequested)
            } else {
                None
            }
        } else if k == CONFIGURE_NOTIFY {
            self.size.report(ev.configure_width as u32, ev.configure_height as u32, false)
        } else if k == KEY_PRESS {
            Some(Event::KeyDown(x11_keycode_to_key(ev.keycode as u8)))
        } else if k == KEY_RELEASE {
            Some(Event::KeyUp(x11_keycode_to_key(ev.keycode as u8)))
        } else if k == BUTTON_PRESS {
            if ev.button == WHEEL_UP_BUTTON {
                Some(Event::MouseWheel { delta: WheelDelta { raw: 1, per_notch: 1 } })
            } else if ev.button == WHEEL_DOWN_BUTTON {
                Some(Event::MouseWheel { delta: WheelDelta { raw: -1, per_notch: 1 } })
            } else {
                match x11_button(ev.button) {
                    Some(button) => Some(
                        Event::MouseDown { button, x: ev.button_x, y: ev.button_y },
                    ),
                    None => None,
                }
            }
        } else if k == BUTTON_RELEASE {
            match x11_button(ev.button) {
                Some(button) => Some(Event::MouseUp { button, x: ev.button_x, y: ev.button_y }),
                None => None,
            }
        } else if k == MOTION_NOTIFY {
            Some(Event::MouseMove { x: ev.motion_x, y: ev.motion_y })
        } else if k == ENTER_NOTIFY {
            Some(Event::CursorEntered)
        } else if k == LEAVE_NOTIFY {
            Some(Event::CursorLeft)
        } else if k == FOCUS_IN {
            Some(Event::FocusGained)
        } else if k == FOCUS_OUT {
            Some(Event::FocusLost)
        } else if k == EXPOSE {
            Some(Event::RedrawRequested)
        } else {
            None
        }
    }

    /// The client-area size, `(width, height)`.
    pub fn inner_size(&self) -> (res: (u32, u32))
        ensures
            res == (self.size.width, self.size.height),
    {
        self.size.inner_size()
    }
}

/// The client-area size the X11 back-end reports is the one of the latest
/// `Resized` event it produced, and it produces one only when the size that
/// the X server reports differs from the known one.
pub proof fn lemma_x11_resized_tracks_size(st: X11EventState, ev: X11RawEvent)
    ensures
        ({
            let (st1, e) = x11_translation(st, ev);
            &&& (e matches Some(Event::Resized { width, height }) ==> st1.size == (InnerSize {
                width,
                height,
            }))
            &&& (e is Some && !(e matches Some(Event::Resized { .. })) ==> st1 == st)
            &&& (ev.kind == CONFIGURE_NOTIFY ==> (e is Some <==> (ev.configure_width as u32
                != st.size.width || ev.configure_height as u32 != st.size.height)))
        }),
{
}

/// The state after a sequence of X11 events.
pub open spec fn x11_after_events(st: X11EventState, evs: Seq<X11RawEvent>) -> X11EventState
    decreases evs.len(),
{
    if evs.len() == 0 {
        st
    } else {
        x11_translation(x11_after_events(st, evs.drop_last()), evs.last()).0
    }
}

/// The events delivered, in order, for a sequence of X11 events.
pub open spec fn x11_delivered(st: X11EventState, evs: Seq<X11RawEvent>) -> Seq<Event>
    decreases evs.len(),
{
    if evs.len() == 0 {
        seq![]
    } else {
        let prev = x11_delivered(st, evs.drop_last());
        match x11_translation(x11_after_events(st, evs.drop_last()), evs.last()).1 {
            Some(e) => prev.push(e),
            None => prev,
        }
    }
}

/// Over a whole run of X11 events, the inner size is the size of the latest
/// `Resized` event delivered, or the initial size when none was; the
/// `WM_DELETE_WINDOW` atom never changes.
pub proof fn lemma_x11_inner_size_is_last_resize(st: X11EventState, evs: Seq<X11RawEvent>)
    ensures
        x11_after_events(st, evs).size == (match last_resize(x11_delivered(st, evs)) {
            Some((width, height)) => InnerSize { width, height },
            None => st.size,
        }),
        x11_after_events(st, evs).wm_delete_window == st.wm_delete_window,
    decreases evs.len(),
{
    if evs.len() > 0 {
        lemma_x11_inner_size_is_last_resize(st, evs.drop_last());
        let prev = x11_delivered(st, evs.drop_last());
        let (_, e) = x11_translation(x11_after_events(st, evs.drop_last()), evs.last());
        if let Some(ev) = e {
            assert(prev.push(ev).drop_last() =~= prev);
        }
    }
}

/// Pointer buttons 1, 2 and 3 are the left, middle and right buttons: a
/// press gives `MouseDown` and a release `MouseUp` of that button at the
/// event's position; other buttons (the wheel aside) give nothing, and
/// releasing a wheel button gives nothing either.
pub proof fn lemma_x11_buttons(st: X11EventState, ev: X11RawEvent)
    requires
        ev.kind == BUTTON_PRESS || ev.kind == BUTTON_RELEASE,
    ensures
        x11_translation(st, ev).0 == st,
        ev.kind == BUTTON_PRESS && ev.button == 1 ==> x11_translation(st, ev).1 == Some(
            Event::MouseDown { button: MouseButton::Left, x: ev.button_x, y: ev.button_y },
        ),
        ev.kind == BUTTON_PRESS && ev.button == 2 ==> x11_translation(st, ev).1 == Some(
            Event::MouseDown { button: MouseButton::Middle, x: ev.button_x, y: ev.button_y },
        ),
        ev.kind == BUTTON_PRESS && ev.button == 3 ==> x11_translation(st, ev).1 == Some(
            Event::MouseDown { button: MouseButton::Right, x: ev.button_x, y: ev.button_y },
        ),
        ev.kind == BUTTON_RELEASE && ev.button == 1 ==> x11_translation(st, ev).1 == Some(
            Event::MouseUp { button: MouseButton::Left, x: ev.button_x, y: ev.button_y },
        ),
        ev.kind == BUTTON_RELEASE && ev.button == 2 ==> x11_translation(st, ev).1 == Some(
            Event::MouseUp { button: MouseButton::Middle, x: ev.button_x, y: ev.button_y },
        ),
        ev.kind == BUTTON_RELEASE && ev.button == 3 ==> x11_translation(st, ev).1 == Some(
            Event::MouseUp { button: MouseButton::Right, x: ev.button_x, y: ev.button_y },
        ),
        ev.button > 5 || ev.button == 0 || (ev.kind == BUTTON_RELEASE && ev.button >= 4)
            ==> x11_translation(st, ev).1 is None,
{
}

/// The other X11 events: the window manager's close message for this
/// window asks to close, keys name the key of their keycode's low byte,
/// pointer motion gives the position, crossing and focus events their
/// counterparts, and exposure a redraw; none of them changes the state.
pub proof fn lemma_x11_events(st: X11EventState, ev: X11RawEvent)
    requires
        ev.kind != CONFIGURE_NOTIFY,
    ensures
        x11_translation(st, ev).0 == st,
        ev.kind == CLIENT_MESSAGE ==> x11_translation(st, ev).1 == (if ev.message_data0 as u64
            == st.wm_delete_window {
            Some(Event::CloseRequested)
        } else {
            None
        }),
        ev.kind == KEY_PRESS ==> x11_translation(st, ev).1 == Some(
            Event::KeyDown(x11_key_of(ev.keycode as int % 256)),
        ),
        ev.kind == KEY_RELEASE ==> x11_translation(st, ev).1 == Some(
            Event::KeyUp(x11_key_of(ev.keycode as int % 256)),
        ),
        ev.kind == MOTION_NOTIFY ==> x11_translation(st, ev).1 == Some(
            Event::MouseMove { x: ev.motion_x, y: ev.motion_y },
        ),
        ev.kind == ENTER_NOTIFY ==> x11_translation(st, ev).1 == Some(Event::CursorEntered),
        ev.kind == LEAVE_NOTIFY ==> x11_translation(st, ev).1 == Some(Event::CursorLeft),
        ev.kind == FOCUS_IN ==> x11_translation(st, ev).1 == Some(Event::FocusGained),
        ev.kind == FOCUS_OUT ==> x11_translation(st, ev).1 == Some(Event::FocusLost),
        ev.kind == EXPOSE ==> x11_translation(st, ev).1 == Some(Event::RedrawRequested),
{
    let kc: u32 = ev.keycode;
    assert((kc as u8) as int == kc as int % 256) by (bit_vector);
}

/// The wheel buttons give one notch forward or back, never a button press.
pub proof fn lemma_x11_wheel(st: X11EventState, ev: X11RawEvent)
    requires
        ev.kind == BUTTON_PRESS,
        ev.button == WHEEL_UP_BUTTON || ev.button == WHEEL_DOWN_BUTTON,
    ensures
        x11_translation(st, ev).1 == Some(
            Event::MouseWheel { delta: wheel_notch(ev.button == WHEEL_UP_BUTTON) },
        ),
        ev.button == 4 ==> x11_translation(st, ev).1 == Some(
            Event::MouseWheel { delta: WheelDelta { raw: 1i32, per_notch: 1i32 } },
        ),
        ev.button == 5 ==> x11_translation(st, ev).1 == Some(
            Event::MouseWheel { delta: WheelDelta { raw: -1i32, per_notch: 1i32 } },
        ),
{
}

} // verus!
