use vstd::prelude::*;

verus! {

/// A scroll-wheel movement: `raw / per_notch` notches, positive meaning
/// up / forward.  Back-ends report whole notches (`per_notch == 1`) or raw
/// device units together with the (positive) number of units in one notch.
#[derive(Debug, Clone, Copy, PartialEq, Eq, Structural)]
pub struct WheelDelta {
    pub raw: i32,
    pub per_notch: i32,
}

/// Something that happened to a window.
#[derive(Debug, Clone, PartialEq, Eq, Structural)]
pub enum Event {
    CloseRequested,
    Resized { width: u32, height: u32 },
    FocusGained,
    FocusLost,
    KeyDown(Key),
    KeyUp(Key),
    CharInput(char),
    MouseMove { x: i32, y: i32 },
    MouseDown { button: MouseButton, x: i32, y: i32 },
    MouseUp { button: MouseButton, x: i32, y: i32 },
    MouseWheel { delta: WheelDelta },
    CursorEntered,
    CursorLeft,
    RedrawRequested,
}

/// The key event for a key going down or up.
pub open spec fn key_event(down: bool, key: Key) -> Event {
    if down {
        Event::KeyDown(key)
    } else {
        Event::KeyUp(key)
    }
}

/// The button event for a button going down or up at `(x, y)`.
pub open spec fn button_event(button: MouseButton, down: bool, x: i32, y: i32) -> Event {
    if down {
        Event::MouseDown { button, x, y }
    } else {
        Event::MouseUp { button, x, y }
    }
}

/// What the event callback asks the event loop to do next.
#[derive(Debug, Clone, Copy, PartialEq, Eq, Structural)]
pub enum ControlFlow {
    Continue,
    Poll,
    WarpAndPoll(i32, i32),
    Exit,
}

#[derive(Debug, Clone, Copy, PartialEq, Eq, Hash, Structural)]
pub enum MouseButton {
    Left,
    Right,
    Middle,
}

/// A physical key, independent of the keyboard layout.
#[derive(Debug, Clone, Copy, PartialEq, Eq, Hash, Structural)]
pub enum Key {
    A,
    B,
    C,
    D,
    E,
    F,
    G,
    H,
    I,
    J,
    K,
    L,
    M,
    N,
    O,
    P,
    Q,
    R,
    S,
    T,
    U,
    V,
    W,
    X,
    Y,
    Z,
    Num0,
    Num1,
    Num2,
    Num3,
    Num4,
    Num5,
    Num6,
    Num7,
    Num8,
    Num9,
    F1,
    F2,
    F3,
    F4,
    F5,
    F6,
    F7,
    F8,
    F9,
    F10,
    F11,
    F12,
    Enter,
    Escape,
    Space,
    Backspace,
    Tab,
    Delete,
    Insert,
    ArrowLeft,
    ArrowRight,
    ArrowUp,
    ArrowDown,
    Home,
    End,
    PageUp,
    PageDown,
    LeftShift,
    RightShift,
    LeftCtrl,
    RightCtrl,
    LeftAlt,
    RightAlt,
    LeftSuper,
    RightSuper,
    Unknown,
}

/// The letter key `A` + `i`, for `0 <= i < 26`.
pub open spec fn letter(i: int) -> Key {
    if i == 0 { Key::A }
    else if i == 1 { Key::B }
    else if i == 2 { Key::C }
    else if i == 3 { Key::D }
    else if i == 4 { Key::E }
    else if i == 5 { Key::F }
    else if i == 6 { Key::G }
    else if i == 7 { Key::H }
    else if i == 8 { Key::I }
    else if i == 9 { Key::J }
    else if i == 10 { Key::K }
    else if i == 11 { Key::L }
    else if i == 12 { Key::M }
    else if i == 13 { Key::N }
    else if i == 14 { Key::O }
    else if i == 15 { Key::P }
    else if i == 16 { Key::Q }
    else if i == 17 { Key::R }
    else if i == 18 { Key::S }
    else if i == 19 { Key::T }
    else if i == 20 { Key::U }
    else if i == 21 { Key::V }
    else if i == 22 { Key::W }
    else if i == 23 { Key::X }
    else if i == 24 { Key::Y }
    else { Key::Z }
}

/// The digit key for `d`, for `0 <= d < 10`.
pub open spec fn digit(d: int) -> Key {
    if d == 0 { Key::Num0 }
    else if d == 1 { Key::Num1 }
    else if d == 2 { Key::Num2 }
    else if d == 3 { Key::Num3 }
    else if d == 4 { Key::Num4 }
    else if d == 5 { Key::Num5 }
    else if d == 6 { Key::Num6 }
    else if d == 7 { Key::Num7 }
    else if d == 8 { Key::Num8 }
    else { Key::Num9 }
}

/// The function key `F(n)`, for `1 <= n <= 12`.
pub open spec fn function_key(n: int) -> Key {
    if n == 1 { Key::F1 }
    else if n == 2 { Key::F2 }
    else if n == 3 { Key::F3 }
    else if n == 4 { Key::F4 }
    else if n == 5 { Key::F5 }
    else if n == 6 { Key::F6 }
    else if n == 7 { Key::F7 }
    else if n == 8 { Key::F8 }
    else if n == 9 { Key::F9 }
    else if n == 10 { Key::F10 }
    else if n == 11 { Key::F11 }
    else { Key::F12 }
}

} // verus!
