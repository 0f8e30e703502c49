use vstd::prelude::*;
use crate::event::Key;

verus! {

/// The X11 keycode (evdev scancode + 8) of each physical key, as the X server
/// of a PC keyboard reports it; `None` for `Key::Unknown`.
pub open spec fn x11_code(k: Key) -> Option<int> {
    match k {
        Key::Q => Some(24),
        Key::W => Some(25),
        Key::E => Some(26),
        Key::R => Some(27),
        Key::T => Some(28),
        Key::Y => Some(29),
        Key::U => Some(30),
        Key::I => Some(31),
        Key::O => Some(32),
        Key::P => Some(33),
        Key::A => Some(38),
        Key::S => Some(39),
        Key::D => Some(40),
        Key::F => Some(41),
        Key::G => Some(42),
        Key::H => Some(43),
        Key::J => Some(44),
        Key::K => Some(45),
        Key::L => Some(46),
        Key::Z => Some(52),
        Key::X => Some(53),
        Key::C => Some(54),
        Key::V => Some(55),
        Key::B => Some(56),
        Key::N => Some(57),
        Key::M => Some(58),
        Key::Num1 => Some(10),
        Key::Num2 => Some(11),
        Key::Num3 => Some(12),
        Key::Num4 => Some(13),
        Key::Num5 => Some(14),
        Key::Num6 => Some(15),
        Key::Num7 => Some(16),
        Key::Num8 => Some(17),
        Key::Num9 => Some(18),
        Key::Num0 => Some(19),
        Key::F1 => Some(67),
        Key::F2 => Some(68),
        Key::F3 => Some(69),
        Key::F4 => Some(70),
        Key::F5 => Some(71),
        Key::F6 => Some(72),
        Key::F7 => Some(73),
        Key::F8 => Some(74),
        Key::F9 => Some(75),
        Key::F10 => Some(76),
        Key::F11 => Some(95),
        Key::F12 => Some(96),
        Key::Enter => Some(36),
        Key::Escape => Some(9),
        Key::Space => Some(65),
        Key::Backspace => Some(22),
        Key::Tab => Some(23),
        Key::Delete => Some(119),
        Key::Insert => Some(118),
        Key::ArrowLeft => Some(113),
        Key::ArrowRight => Some(114),
        Key::ArrowUp => Some(111),
        Key::ArrowDown => Some(116),
        Key::Home => Some(110),
        Key::End => Some(115),
        Key::PageUp => Some(112),
        Key::PageDown => Some(117),
        Key::LeftShift => Some(50),
        Key::RightShift => Some(62),
        Key::LeftCtrl => Some(37),
        Key::RightCtrl => Some(105),
        Key::LeftAlt => Some(64),
        Key::RightAlt => Some(108),
        Key::LeftSuper => Some(133),
        Key::RightSuper => Some(134),
        Key::Unknown => None,
    }
}

/// The key whose X11 keycode is `code`, or `Key::Unknown` when no key has it.
pub open spec fn x11_key_of(code: int) -> Key {
    if exists|k: Key| x11_code(k) == Some(code) {
        choose|k: Key| x11_code(k) == Some(code)
    } else {
        Key::Unknown
    }
}

/// No two keys share an X11 keycode.
pub proof fn lemma_x11_code_injective(k1: Key, k2: Key)
    requires
        x11_code(k1) is Some,
        x11_code(k1) == x11_code(k2),
    ensures
        k1 == k2,
{
}

/// Decoding a key's own X11 keycode gives the key back.
pub proof fn lemma_x11_key_of_code(k: Key)
    requires
        k != Key::Unknown,
    ensures
        x11_key_of(x11_code(k)->0) == k,
{
    let c: int = x11_code(k)->0;
    assert(x11_code(k) == Some(c));
    let k2 = choose|k2: Key| x11_code(k2) == Some(c);
    lemma_x11_code_injective(k, k2);
}

/// The three letter rows of a PC keyboard, left to right.
pub open spec fn qwerty_top_row() -> Seq<Key> {
    seq![Key::Q, Key::W, Key::E, Key::R, Key::T, Key::Y, Key::U, Key::I, Key::O, Key::P]
}

pub open spec fn qwerty_home_row() -> Seq<Key> {
    seq![Key::A, Key::S, Key::D, Key::F, Key::G, Key::H, Key::J, Key::K, Key::L]
}

pub open spec fn qwerty_bottom_row() -> Seq<Key> {
    seq![Key::Z, Key::X, Key::C, Key::V, Key::B, Key::N, Key::M]
}

/// The X11 layout of a PC keyboard's letters (evdev scancodes + 8): the
/// three letter rows run from keycodes 24, 38 and 52.
pub proof fn lemma_x11_letter_rows()
    ensures
        forall|i: int| 0 <= i < 10 ==> #[trigger] x11_key_of(24 + i) == qwerty_top_row()[i],
        forall|i: int| 0 <= i < 9 ==> #[trigger] x11_key_of(38 + i) == qwerty_home_row()[i],
        forall|i: int| 0 <= i < 7 ==> #[trigger] x11_key_of(52 + i) == qwerty_bottom_row()[i],
{
    assert forall|i: int| 0 <= i < 10 implies #[trigger] x11_key_of(24 + i) == qwerty_top_row()[i] by {
        lemma_x11_key_of_code(qwerty_top_row()[i]);
    }
    assert forall|i: int| 0 <= i < 9 implies #[trigger] x11_key_of(38 + i) == qwerty_home_row()[i] by {
        lemma_x11_key_of_code(qwerty_home_row()[i]);
    }
    assert forall|i: int| 0 <= i < 7 implies #[trigger] x11_key_of(52 + i) == qwerty_bottom_row()[i] by {
        lemma_x11_key_of_code(qwerty_bottom_row()[i]);
    }
}

/// The X11 keycodes (evdev scancode + 8) of the top-row digit keys.
pub proof fn lemma_x11_digit_codes()
    ensures
        x11_key_of(10) == Key::Num1,
        x11_key_of(11) == Key::Num2,
        x11_key_of(12) == Key::Num3,
        x11_key_of(13) == Key::Num4,
        x11_key_of(14) == Key::Num5,
        x11_key_of(15) == Key::Num6,
        x11_key_of(16) == Key::Num7,
        x11_key_of(17) == Key::Num8,
        x11_key_of(18) == Key::Num9,
        x11_key_of(19) == Key::Num0,
{
    assert(x11_key_of(10) == Key::Num1) by {
        lemma_x11_key_of_code(Key::Num1);
    }
    assert(x11_key_of(11) == Key::Num2) by {
        lemma_x11_key_of_code(Key::Num2);
    }
    assert(x11_key_of(12) == Key::Num3) by {
        lemma_x11_key_of_code(Key::Num3);
    }
    assert(x11_key_of(13) == Key::Num4) by {
        lemma_x11_key_of_code(Key::Num4);
    }
    assert(x11_key_of(14) == Key::Num5) by {
        lemma_x11_key_of_code(Key::Num5);
    }
    assert(x11_key_of(15) == Key::Num6) by {
        lemma_x11_key_of_code(Key::Num6);
    }
    assert(x11_key_of(16) == Key::Num7) by {
        lemma_x11_key_of_code(Key::Num7);
    }
    assert(x11_key_of(17) == Key::Num8) by {
        lemma_x11_key_of_code(Key::Num8);
    }
    assert(x11_key_of(18) == Key::Num9) by {
        lemma_x11_key_of_code(Key::Num9);
    }
    assert(x11_key_of(19) == Key::Num0) by {
        lemma_x11_key_of_code(Key::Num0);
    }
}

/// The X11 keycodes (evdev scancode + 8) of the function keys.
pub proof fn lemma_x11_function_key_codes()
    ensures
        x11_key_of(67) == Key::F1,
        x11_key_of(68) == Key::F2,
        x11_key_of(69) == Key::F3,
        x11_key_of(70) == Key::F4,
        x11_key_of(71) == Key::F5,
        x11_key_of(72) == Key::F6,
        x11_key_of(73) == Key::F7,
        x11_key_of(74) == Key::F8,
        x11_key_of(75) == Key::F9,
        x11_key_of(76) == Key::F10,
        x11_key_of(95) == Key::F11,
        x11_key_of(96) == Key::F12,
{
    assert(x11_key_of(67) == Key::F1) by {
        lemma_x11_key_of_code(Key::F1);
    }
    assert(x11_key_of(68) == Key::F2) by {
        lemma_x11_key_of_code(Key::F2);
    }
    assert(x11_key_of(69) == Key::F3) by {
        lemma_x11_key_of_code(Key::F3);
    }
    assert(x11_key_of(70) == Key::F4) by {
        lemma_x11_key_of_code(Key::F4);
    }
    assert(x11_key_of(71) == Key::F5) by {
        lemma_x11_key_of_code(Key::F5);
    }
    assert(x11_key_of(72) == Key::F6) by {
        lemma_x11_key_of_code(Key::F6);
    }
    assert(x11_key_of(73) == Key::F7) by {
        lemma_x11_key_of_code(Key::F7);
    }
    assert(x11_key_of(74) == Key::F8) by {
        lemma_x11_key_of_code(Key::F8);
    }
    assert(x11_key_of(75) == Key::F9) by {
        lemma_x11_key_of_code(Key::F9);
    }
    assert(x11_key_of(76) == Key::F10) by {
        lemma_x11_key_of_code(Key::F10);
    }
    assert(x11_key_of(95) == Key::F11) by {
        lemma_x11_key_of_code(Key::F11);
    }
    assert(x11_key_of(96) == Key::F12) by {
        lemma_x11_key_of_code(Key::F12);
    }
}

/// The X11 keycodes (evdev scancode + 8) of Enter, Escape, Space, Backspace, Tab, Delete and Insert.
pub proof fn lemma_x11_editing_codes()
    ensures
        x11_key_of(36) == Key::Enter,
        x11_key_of(9) == Key::Escape,
        x11_key_of(65) == Key::Space,
        x11_key_of(22) == Key::Backspace,
        x11_key_of(23) == Key::Tab,
        x11_key_of(119) == Key::Delete,
        x11_key_of(118) == Key::Insert,
{
    assert(x11_key_of(36) == Key::Enter) by {
        lemma_x11_key_of_code(Key::Enter);
    }
    assert(x11_key_of(9) == Key::Escape) by {
        lemma_x11_key_of_code(Key::Escape);
    }
    assert(x11_key_of(65) == Key::Space) by {
        lemma_x11_key_of_code(Key::Space);
    }
    assert(x11_key_of(22) == Key::Backspace) by {
        lemma_x11_key_of_code(Key::Backspace);
    }
    assert(x11_key_of(23) == Key::Tab) by {
        lemma_x11_key_of_code(Key::Tab);
    }
    assert(x11_key_of(119) == Key::Delete) by {
        lemma_x11_key_of_code(Key::Delete);
    }
    assert(x11_key_of(118) == Key::Insert) by {
        lemma_x11_key_of_code(Key::Insert);
    }
}

/// The X11 keycodes (evdev scancode + 8) of the arrow and page-navigation keys.
pub proof fn lemma_x11_navigation_codes()
    ensures
        x11_key_of(113) == Key::ArrowLeft,
        x11_key_of(114) == Key::ArrowRight,
        x11_key_of(111) == Key::ArrowUp,
        x11_key_of(116) == Key::ArrowDown,
        x11_key_of(110) == Key::Home,
        x11_key_of(115) == Key::End,
        x11_key_of(112) == Key::PageUp,
        x11_key_of(117) == Key::PageDown,
{
    assert(x11_key_of(113) == Key::ArrowLeft) by {
        lemma_x11_key_of_code(Key::ArrowLeft);
    }
    assert(x11_key_of(114) == Key::ArrowRight) by {
        lemma_x11_key_of_code(Key::ArrowRight);
    }
    assert(x11_key_of(111) == Key::ArrowUp) by {
        lemma_x11_key_of_code(Key::ArrowUp);
    }
    assert(x11_key_of(116) == Key::ArrowDown) by {
        lemma_x11_key_of_code(Key::ArrowDown);
    }
    assert(x11_key_of(110) == Key::Home) by {
        lemma_x11_key_of_code(Key::Home);
    }
    assert(x11_key_of(115) == Key::End) by {
        lemma_x11_key_of_code(Key::End);
    }
    assert(x11_key_of(112) == Key::PageUp) by {
        lemma_x11_key_of_code(Key::PageUp);
    }
    assert(x11_key_of(117) == Key::PageDown) by {
        lemma_x11_key_of_code(Key::PageDown);
    }
}

/// The X11 keycodes (evdev scancode + 8) of the modifier keys.
pub proof fn lemma_x11_modifier_codes()
    ensures
        x11_key_of(50) == Key::LeftShift,
        x11_key_of(62) == Key::RightShift,
        x11_key_of(37) == Key::LeftCtrl,
        x11_key_of(105) == Key::RightCtrl,
        x11_key_of(64) == Key::LeftAlt,
        x11_key_of(108) == Key::RightAlt,
        x11_key_of(133) == Key::LeftSuper,
        x11_key_of(134) == Key::RightSuper,
{
    assert(x11_key_of(50) == Key::LeftShift) by {
        lemma_x11_key_of_code(Key::LeftShift);
    }
    assert(x11_key_of(62) == Key::RightShift) by {
        lemma_x11_key_of_code(Key::RightShift);
    }
    assert(x11_key_of(37) == Key::LeftCtrl) by {
        lemma_x11_key_of_code(Key::LeftCtrl);
    }
    assert(x11_key_of(105) == Key::RightCtrl) by {
        lemma_x11_key_of_code(Key::RightCtrl);
    }
    assert(x11_key_of(64) == Key::LeftAlt) by {
        lemma_x11_key_of_code(Key::LeftAlt);
    }
    assert(x11_key_of(108) == Key::RightAlt) by {
        lemma_x11_key_of_code(Key::RightAlt);
    }
    assert(x11_key_of(133) == Key::LeftSuper) by {
        lemma_x11_key_of_code(Key::LeftSuper);
    }
    assert(x11_key_of(134) == Key::RightSuper) by {
        lemma_x11_key_of_code(Key::RightSuper);
    }
}

/// Maps an X11 keycode to the physical key it stands for.
pub fn x11_keycode_to_key(code: u8) -> (res: Key)
    ensures
        res == x11_key_of(code as int),
{
    let res = match code {
        24 => Key::Q,
        25 => Key::W,
        26 => Key::E,
        27 => Key::R,
        28 => Key::T,
        29 => Key::Y,
        30 => Key::U,
        31 => Key::I,
        32 => Key::O,
        33 => Key::P,
        38 => Key::A,
        39 => Key::S,
        40 => Key::D,
        41 => Key::F,
        42 => Key::G,
        43 => Key::H,
        44 => Key::J,
        45 => Key::K,
        46 => Key::L,
        52 => Key::Z,
        53 => Key::X,
        54 => Key::C,
        55 => Key::V,
        56 => Key::B,
        57 => Key::N,
        58 => Key::M,
        10 => Key::Num1,
        11 => Key::Num2,
        12 => Key::Num3,
        13 => Key::Num4,
        14 => Key::Num5,
        15 => Key::Num6,
        16 => Key::Num7,
        17 => Key::Num8,
        18 => Key::Num9,
        19 => Key::Num0,
        67 => Key::F1,
        68 => Key::F2,
        69 => Key::F3,
        70 => Key::F4,
        71 => Key::F5,
        72 => Key::F6,
        73 => Key::F7,
        74 => Key::F8,
        75 => Key::F9,
        76 => Key::F10,
        95 => Key::F11,
        96 => Key::F12,
        36 => Key::Enter,
        9 => Key::Escape,
        65 => Key::Space,
        22 => Key::Backspace,
        23 => Key::Tab,
        119 => Key::Delete,
        118 => Key::Insert,
        113 => Key::ArrowLeft,
        114 => Key::ArrowRight,
        111 => Key::ArrowUp,
        116 => Key::ArrowDown,
        110 => Key::Home,
        115 => Key::End,
        112 => Key::PageUp,
        117 => Key::PageDown,
        50 => Key::LeftShift,
        62 => Key::RightShift,
        37 => Key::LeftCtrl,
        105 => Key::RightCtrl,
        64 => Key::LeftAlt,
        108 => Key::RightAlt,
        133 => Key::LeftSuper,
        134 => Key::RightSuper,
        _ => Key::Unknown,
    };
    proof {
        if res != Key::Unknown {
            lemma_x11_key_of_code(res);
        } else {
            assert(!exists|k: Key| x11_code(k) == Some(code as int));
        }
    }
    res
}

} // verus!
