use vstd::prelude::*;
use vstd::utf8::is_scalar;
use crate::event::{Event, MouseButton, WheelDelta};
use crate::win32::keys::{vk_key_of, vk_to_key};

verus! {

pub const WM_DESTROY: u32 = 0x0002;
pub const WM_SIZE: u32 = 0x0005;
pub const WM_SETFOCUS: u32 = 0x0007;
pub const WM_KILLFOCUS: u32 = 0x0008;
pub const WM_CLOSE: u32 = 0x0010;
pub const WM_QUIT: u32 = 0x0012;
pub const WM_PAINT: u32 = 0x000F;
pub const WM_KEYDOWN: u32 = 0x0100;
pub const WM_KEYUP: u32 = 0x0101;
pub const WM_CHAR: u32 = 0x0102;
pub const WM_SYSKEYDOWN: u32 = 0x0104;
pub const WM_SYSKEYUP: u32 = 0x0105;
pub const WM_MOUSEMOVE: u32 = 0x0200;
pub const WM_LBUTTONDOWN: u32 = 0x0201;
pub const WM_LBUTTONUP: u32 = 0x0202;
pub const WM_RBUTTONDOWN: u32 = 0x0204;
pub const WM_RBUTTONUP: u32 = 0x0205;
pub const WM_MBUTTONDOWN: u32 = 0x0207;
pub const WM_MBUTTONUP: u32 = 0x0208;
pub const WM_MOUSEWHEEL: u32 = 0x020A;
pub const WM_MOUSELEAVE: u32 = 0x02A3;

/// Wheel units in one notch.
pub const WHEEL_DELTA: i32 = 120;

/// The low 16 bits of a message parameter.
pub open spec fn low_word(v: usize) -> int {
    (v % 0x10000) as int
}

/// Bits 16 to 31 of a message parameter.
pub open spec fn high_word(v: usize) -> int {
    ((v / 0x10000) % 0x10000) as int
}

/// A 16-bit word read as a two's-complement signed number.
pub open spec fn signed_word(w: int) -> int {
    if w >= 0x8000 {
        w - 0x10000
    } else {
        w
    }
}

/// The low word of a message parameter.
pub fn low_word_of(v: usize) -> (res: u32)
    ensures
        res == low_word(v),
{
    let r: u32 = (v & 0xFFFF) as u32;
    assert(r == v % 0x10000) by (bit_vector)
        requires
            r == (v & 0xFFFF) as u32,
    ;
    r
}

/// The high word of the low 32 bits of a message parameter.
pub fn high_word_of(v: usize) -> (res: u32)
    ensures
        res == high_word(v),
{
    let r: u32 = ((v >> 16) & 0xFFFF) as u32;
    assert(r == (v / 0x10000) % 0x10000) by (bit_vector)
        requires
            r == ((v >> 16) & 0xFFFF) as u32,
    ;
    r
}

/// A 16-bit word as a signed number (a window coordinate or a wheel amount).
pub fn signed_word_of(w: u32) -> (res: i32)
    requires
        w < 0x10000,
    ensures
        res == signed_word(w as int),
{
    let r: i32 = (w as u16) as i16 as i32;
    assert(r == (if w >= 0x8000 { w - 0x10000 } else { w as int })) by (bit_vector)
        requires
            w < 0x10000,
            r == (w as u16) as i16 as i32,
    ;
    r
}

/// `char::from_u32`: the character whose scalar value is `cp`; `None` when
/// `cp` is not a Unicode scalar value (a surrogate, or above `0x10FFFF`).
#[verifier::external_body]
fn char_from_u32(cp: u32) -> (res: Option<char>)
    ensures
        res is Some <==> is_scalar(cp),
        res matches Some(c) ==> c as u32 == cp,
{
    char::from_u32(cp)
}

/// How the window procedure answers a message, besides queueing events.
#[derive(Debug, Clone, Copy, PartialEq, Eq, Structural)]
pub enum Win32Reply {
    /// Return 0.
    Handled,
    /// Post `WM_QUIT`, then return 0.
    PostQuit,
    /// Validate the window with `BeginPaint` / `EndPaint`, then return 0.
    Paint,
    /// Ask for `WM_MOUSELEAVE` with `TrackMouseEvent`, then return 0.
    TrackMouseLeave,
    /// Hand the message to `DefWindowProcW` and return what it returns.
    Default,
    /// Queue the events, then hand the message to `DefWindowProcW` (system
    /// keys: the system still acts on them, so Alt+F4 closes the window).
    QueueThenDefault,
}

/// The window coordinates packed in the `lParam` of a mouse message.
pub open spec fn mouse_x(lparam: isize) -> i32 {
    signed_word(low_word(lparam as usize)) as i32
}

pub open spec fn mouse_y(lparam: isize) -> i32 {
    signed_word(high_word(lparam as usize)) as i32
}

/// The button event of a mouse-button message, if it is one.
pub open spec fn button_message_event(msg: u32, lparam: isize) -> Option<Event> {
    let (x, y): (i32, i32) = (mouse_x(lparam), mouse_y(lparam));
    if msg == WM_LBUTTONDOWN {
        Some(Event::MouseDown { button: MouseButton::Left, x, y })
    } else if msg == WM_LBUTTONUP {
        Some(Event::MouseUp { button: MouseButton::Left, x, y })
    } else if msg == WM_RBUTTONDOWN {
        Some(Event::MouseDown { button: MouseButton::Right, x, y })
    } else if msg == WM_RBUTTONUP {
        Some(Event::MouseUp { button: MouseButton::Right, x, y })
    } else if msg == WM_MBUTTONDOWN {
        Some(Event::MouseDown { button: MouseButton::Middle, x, y })
    } else if msg == WM_MBUTTONUP {
        Some(Event::MouseUp { button: MouseButton::Middle, x, y })
    } else {
        None
    }
}

/// What the window procedure does with a message, given whether it already
/// tracks the cursor: whether it tracks it afterwards, the events it queues
/// in order, and its reply.
pub open spec fn win32_message(tracking: bool, msg: u32, wparam: usize, lparam: isize) -> (
    bool,
    Seq<Event>,
    Win32Reply,
) {
    let lp: usize = lparam as usize;
    if msg == WM_CLOSE {
        (tracking, seq![Event::CloseRequested], Win32Reply::Handled)
    } else if msg == WM_DESTROY {
        (tracking, seq![], Win32Reply::PostQuit)
    } else if msg == WM_SIZE {
        let (w, h): (int, int) = (low_word(lp), high_word(lp));
        (tracking, if w > 0 && h > 0 {
            seq![Event::Resized { width: w as u32, height: h as u32 }]
        } else {
            seq![]
        }, Win32Reply::Handled)
    } else if msg == WM_PAINT {
        (tracking, seq![Event::RedrawRequested], Win32Reply::Paint)
    } else if msg == WM_KEYDOWN || msg == WM_SYSKEYDOWN {
        (
            tracking,
            seq![Event::KeyDown(vk_key_of((wparam as u16) as int))],
            if msg == WM_SYSKEYDOWN { Win32Reply::QueueThenDefault } else { Win32Reply::Handled },
        )
    } else if msg == WM_KEYUP || msg == WM_SYSKEYUP {
        (
            tracking,
            seq![Event::KeyUp(vk_key_of((wparam as u16) as int))],
            if msg == WM_SYSKEYUP { Win32Reply::QueueThenDefault } else { Win32Reply::Handled },
        )
    } else if msg == WM_CHAR {
        let cp: u32 = wparam as u32;
        (tracking, if cp >= 0x20 && is_scalar(cp) {
            seq![Event::CharInput(cp as char)]
        } else {
            seq![]
        }, Win32Reply::Handled)
    } else if msg == WM_MOUSEMOVE {
        let mv = Event::MouseMove { x: mouse_x(lparam), y: mouse_y(lparam) };
        if tracking {
            (true, seq![mv], Win32Reply::Handled)
        } else {
            (true, seq![Event::CursorEntered, mv], Win32Reply::TrackMouseLeave)
        }
    } else if msg == WM_MOUSELEAVE {
        (false, seq![Event::CursorLeft], Win32Reply::Handled)
    } else if button_message_event(msg, lparam) is Some {
        (tracking, seq![button_message_event(msg, lparam)->0], Win32Reply::Handled)
    } else if msg == WM_MOUSEWHEEL {
        let raw: i32 = signed_word(high_word(wparam)) as i32;
        (
            tracking,
            seq![Event::MouseWheel { delta: WheelDelta { raw, per_notch: WHEEL_DELTA } }],
            Win32Reply::Handled,
        )
    } else if msg == WM_SETFOCUS {
        (tracking, seq![Event::FocusGained], Win32Reply::Handled)
    } else if msg == WM_KILLFOCUS {
        (tracking, seq![Event::FocusLost], Win32Reply::Handled)
    } else {
        (tracking, seq![], Win32Reply::Default)
    }
}

/// The state the window procedure keeps between messages.
#[derive(Debug, Clone, Copy, PartialEq, Eq, Structural)]
pub struct Win32MessageState {
    /// `WM_MOUSELEAVE` has been asked for and has not come yet.
    pub tracking_mouse: bool,
}

impl Win32MessageState {
    pub fn new() -> (res: Self)
        ensures
            !res.tracking_mouse,
    {
        Win32MessageState { tracking_mouse: false }
    }

    /// Decides what the window procedure does with a message: the events to
    /// queue, in order, and how to reply.
    pub fn handle_message(&mut self, msg: u32, wparam: usize, lparam: isize) -> (res: (
        Vec<Event>,
        Win32Reply,
    ))
        ensures
            ({
                let (t, evs, reply) = win32_message(old(self).tracking_mouse, msg, wparam, lparam);
                &&& final(self).tracking_mouse == t
                &&& res.0@ == evs
                &&& res.1 == reply
            }),
    {
        let mut events: Vec<Event> = Vec::new();
        let lp: usize = lparam as usize;
        let x: i32 = signed_word_of(low_word_of(lp));
        let y: i32 = signed_word_of(high_word_of(lp));
        let reply = if msg == WM_CLOSE {
            events.push(Event::CloseRequested);
            Win32Reply::Handled
        } else if msg == WM_DESTROY {
            Win32Reply::PostQuit
        } else if msg == WM_SIZE {
            let w: u32 = low_word_of(lp);
            let h: u32 = high_word_of(lp);
            if w > 0 && h > 0 {
                events.push(Event::Resized { width: w, height: h });
            }
            Win32Reply::Handled
        } else if msg == WM_PAINT {
            events.push(Event::RedrawRequested);
            Win32Reply::Paint
        } else if msg == WM_KEYDOWN || msg == WM_SYSKEYDOWN {
            events.push(Event::KeyDown(vk_to_key(wparam as u16)));
            if msg == WM_SYSKEYDOWN {
                Win32Reply::QueueThenDefault
            } else {
                Win32Reply::Handled
            }
        } else if msg == WM_KEYUP || msg == WM_SYSKEYUP {
            events.push(Event::KeyUp(vk_to_key(wparam as u16)));
            if msg == WM_SYSKEYUP {
                Win32Reply::QueueThenDefault
            } else {
                Win32Reply::Handled
            }
        } else if msg == WM_CHAR {
            let cp: u32 = wparam as u32;
            if cp >= 0x20 {
                if let Some(ch) = char_from_u32(cp) {
                    proof {
                        vstd::utf8::char_u32_cast(ch, cp);
                    }
                    events.push(Event::CharInput(ch));
                }
            }
            Win32Reply::Handled
        } else if msg == WM_MOUSEMOVE {
            let reply = if !self.tracking_mouse {
                self.tracking_mouse = true;
                events.push(Event::CursorEntered);
                Win32Reply::TrackMouseLeave
            } else {
                Win32Reply::Handled
            };
            events.push(Event::MouseMove { x, y });
            reply
        } else if msg == WM_MOUSELEAVE {
            self.tracking_mouse = false;
            events.push(Event::CursorLeft);
            Win32Reply::Handled
        } else if msg == WM_LBUTTONDOWN {
            events.push(Event::MouseDown { button: MouseButton::Left, x, y });
            Win32Reply::Handled
        } else if msg == WM_LBUTTONUP {
            events.push(Event::MouseUp { button: MouseButton::Left, x, y });
            Win32Reply::Handled
        } else if msg == WM_RBUTTONDOWN {
            events.push(Event::MouseDown { button: MouseButton::Right, x, y });
            Win32Reply::Handled
        } else if msg == WM_RBUTTONUP {
            events.push(Event::MouseUp { button: MouseButton::Right, x, y });
            Win32Reply::Handled
        } else if msg == WM_MBUTTONDOWN {
            events.push(Event::MouseDown { button: MouseButton::Middle, x, y });
            Win32Reply::Handled
        } else if msg == WM_MBUTTONUP {
            events.push(Event::MouseUp { button: MouseButton::Middle, x, y });
            Win32Reply::Handled
        } else if msg == WM_MOUSEWHEEL {
            let raw: i32 = signed_word_of(high_word_of(wparam));
            events.push(Event::MouseWheel { delta: WheelDelta { raw, per_notch: WHEEL_DELTA } });
            Win32Reply::Handled
        } else if msg == WM_SETFOCUS {
            events.push(Event::FocusGained);
            Win32Reply::Handled
        } else if msg == WM_KILLFOCUS {
            events.push(Event::FocusLost);
            Win32Reply::Handled
        } else {
            Win32Reply::Default
        };
        (events, reply)
    }
}

/// The cursor is tracked from the first `WM_MOUSEMOVE` until `WM_MOUSELEAVE`:
/// `CursorEntered` comes exactly with the first move after entering, and
/// each move queues its `MouseMove` last.
pub proof fn lemma_win32_cursor_tracking(tracking: bool, wparam: usize, lparam: isize)
    ensures
        ({
            let (t, evs, reply) = win32_message(tracking, WM_MOUSEMOVE, wparam, lparam);
            &&& t
            &&& evs.last() == Event::MouseMove { x: mouse_x(lparam), y: mouse_y(lparam) }
            &&& (evs.contains(Event::CursorEntered) <==> !tracking)
            &&& (reply == Win32Reply::TrackMouseLeave <==> !tracking)
        }),
        !win32_message(tracking, WM_MOUSELEAVE, wparam, lparam).0,
{
    let (t, evs, reply) = win32_message(tracking, WM_MOUSEMOVE, wparam, lparam);
    if tracking {
        assert(evs =~= seq![Event::MouseMove { x: mouse_x(lparam), y: mouse_y(lparam) }]);
        assert(!evs.contains(Event::CursorEntered)) by {
            if evs.contains(Event::CursorEntered) {
                let i: int = choose|i: int| 0 <= i < evs.len() && evs[i] == Event::CursorEntered;
                assert(evs[i] == Event::MouseMove { x: mouse_x(lparam), y: mouse_y(lparam) });
            }
        }
    } else {
        assert(evs[0] == Event::CursorEntered);
    }
}

/// System keys (F10, and any key with Alt held, such as Alt+F4) are both
/// reported and handed on to the system, which turns Alt+F4 into the
/// `WM_CLOSE` that gives `CloseRequested`; ordinary keys are only reported.
pub proof fn lemma_win32_system_keys_reach_system(tracking: bool, wparam: usize, lparam: isize)
    ensures
        win32_message(tracking, WM_SYSKEYDOWN, wparam, lparam).1 == seq![
            Event::KeyDown(vk_key_of((wparam as u16) as int)),
        ],
        win32_message(tracking, WM_SYSKEYDOWN, wparam, lparam).2 == Win32Reply::QueueThenDefault,
        win32_message(tracking, WM_SYSKEYUP, wparam, lparam).2 == Win32Reply::QueueThenDefault,
        win32_message(tracking, WM_KEYDOWN, wparam, lparam).2 == Win32Reply::Handled,
        win32_message(tracking, WM_CLOSE, wparam, lparam).1 == seq![Event::CloseRequested],
{
}

/// Each mouse-button message queues exactly one event, naming its own
/// button and direction, at the client coordinates packed in `lParam`, and
/// is handled without changing the cursor tracking.
pub proof fn lemma_win32_buttons(tracking: bool, wparam: usize, lparam: isize)
    ensures
        win32_message(tracking, WM_LBUTTONDOWN, wparam, lparam) == (
            tracking,
            seq![Event::MouseDown { button: MouseButton::Left, x: mouse_x(lparam), y: mouse_y(lparam) }],
            Win32Reply::Handled,
        ),
        win32_message(tracking, WM_LBUTTONUP, wparam, lparam) == (
            tracking,
            seq![Event::MouseUp { button: MouseButton::Left, x: mouse_x(lparam), y: mouse_y(lparam) }],
            Win32Reply::Handled,
        ),
        win32_message(tracking, WM_RBUTTONDOWN, wparam, lparam) == (
            tracking,
            seq![Event::MouseDown { button: MouseButton::Right, x: mouse_x(lparam), y: mouse_y(lparam) }],
            Win32Reply::Handled,
        ),
        win32_message(tracking, WM_RBUTTONUP, wparam, lparam) == (
            tracking,
            seq![Event::MouseUp { button: MouseButton::Right, x: mouse_x(lparam), y: mouse_y(lparam) }],
            Win32Reply::Handled,
        ),
        win32_message(tracking, WM_MBUTTONDOWN, wparam, lparam) == (
            tracking,
            seq![Event::MouseDown { button: MouseButton::Middle, x: mouse_x(lparam), y: mouse_y(lparam) }],
            Win32Reply::Handled,
        ),
        win32_message(tracking, WM_MBUTTONUP, wparam, lparam) == (
            tracking,
            seq![Event::MouseUp { button: MouseButton::Middle, x: mouse_x(lparam), y: mouse_y(lparam) }],
            Win32Reply::Handled,
        ),
{
}

/// The other messages the window procedure answers itself: closing asks to
/// close, destroying quits, painting asks for a redraw, keys name the key
/// of their virtual-key code, focus changes are reported, the wheel gives
/// its signed amount in units of 120 per notch, and a non-empty size is
/// reported as a resize; anything else goes to `DefWindowProcW` untouched.
pub proof fn lemma_win32_messages(tracking: bool, wparam: usize, lparam: isize)
    ensures
        win32_message(tracking, WM_CLOSE, wparam, lparam) == (tracking, seq![Event::CloseRequested], Win32Reply::Handled),
        win32_message(tracking, WM_DESTROY, wparam, lparam) == (tracking, Seq::<Event>::empty(), Win32Reply::PostQuit),
        win32_message(tracking, WM_PAINT, wparam, lparam) == (tracking, seq![Event::RedrawRequested], Win32Reply::Paint),
        win32_message(tracking, WM_SETFOCUS, wparam, lparam) == (tracking, seq![Event::FocusGained], Win32Reply::Handled),
        win32_message(tracking, WM_KILLFOCUS, wparam, lparam) == (tracking, seq![Event::FocusLost], Win32Reply::Handled),
        win32_message(tracking, WM_KEYDOWN, wparam, lparam) == (
            tracking,
            seq![Event::KeyDown(vk_key_of((wparam as u16) as int))],
            Win32Reply::Handled,
        ),
        win32_message(tracking, WM_KEYUP, wparam, lparam) == (
            tracking,
            seq![Event::KeyUp(vk_key_of((wparam as u16) as int))],
            Win32Reply::Handled,
        ),
        win32_message(tracking, WM_MOUSEWHEEL, wparam, lparam).1 == seq![
            Event::MouseWheel {
                delta: WheelDelta { raw: signed_word(high_word(wparam)) as i32, per_notch: 120 },
            },
        ],
        low_word(lparam as usize) > 0 && high_word(lparam as usize) > 0 ==> win32_message(
            tracking,
            WM_SIZE,
            wparam,
            lparam,
        ).1 == seq![
            Event::Resized {
                width: low_word(lparam as usize) as u32,
                height: high_word(lparam as usize) as u32,
            },
        ],
        win32_message(tracking, 0x0001, wparam, lparam) == (tracking, Seq::<Event>::empty(), Win32Reply::Default),
        win32_message(tracking, WM_MOUSELEAVE, wparam, lparam) == (false, seq![Event::CursorLeft], Win32Reply::Handled),
        (wparam as u32) >= 0x20 && is_scalar(wparam as u32) ==> win32_message(tracking, WM_CHAR, wparam, lparam)
            == (tracking, seq![Event::CharInput((wparam as u32) as char)], Win32Reply::Handled),
        !is_scalar(wparam as u32) ==> win32_message(tracking, WM_CHAR, wparam, lparam).1.len() == 0,
{
}

/// The coordinates of a mouse message are the two 16-bit halves of the low
/// 32 bits of `lParam`, each read as a signed number: `x` from bits 0-15,
/// `y` from bits 16-31.
pub proof fn lemma_mouse_coordinates(lparam: isize)
    ensures
        -0x8000 <= mouse_x(lparam) < 0x8000,
        -0x8000 <= mouse_y(lparam) < 0x8000,
        (mouse_x(lparam) + 0x10000) % 0x10000 == (lparam as usize) % 0x10000,
        (mouse_y(lparam) + 0x10000) % 0x10000 == ((lparam as usize) / 0x10000) % 0x10000,
{
}

/// A `WM_SIZE` with a zero dimension (a minimised window) queues nothing.
pub proof fn lemma_win32_minimised_size_ignored(tracking: bool, wparam: usize, lparam: isize)
    requires
        low_word(lparam as usize) == 0 || high_word(lparam as usize) == 0,
    ensures
        win32_message(tracking, WM_SIZE, wparam, lparam).1.len() == 0,
{
}

/// Only printable characters are delivered: control characters below
/// `0x20` never give `CharInput`.
pub proof fn lemma_win32_no_control_chars(tracking: bool, wparam: usize, lparam: isize)
    requires
        (wparam as u32) < 0x20,
    ensures
        win32_message(tracking, WM_CHAR, wparam, lparam).1.len() == 0,
{
}

} // verus!
