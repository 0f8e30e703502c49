use vstd::prelude::*;
use crate::event::{Key, letter, digit, function_key};

verus! {

/// The Win32 virtual-key code (`VK_*`) of each physical key; `None` for
/// `Key::Unknown`.  The digit keys of the top row carry the ASCII digits.
pub open spec fn vk_code(k: Key) -> Option<int> {
    match k {
        Key::A => Some(0x41),
        Key::B => Some(0x42),
        Key::C => Some(0x43),
        Key::D => Some(0x44),
        Key::E => Some(0x45),
        Key::F => Some(0x46),
        Key::G => Some(0x47),
        Key::H => Some(0x48),
        Key::I => Some(0x49),
        Key::J => Some(0x4A),
        Key::K => Some(0x4B),
        Key::L => Some(0x4C),
        Key::M => Some(0x4D),
        Key::N => Some(0x4E),
        Key::O => Some(0x4F),
        Key::P => Some(0x50),
        Key::Q => Some(0x51),
        Key::R => Some(0x52),
        Key::S => Some(0x53),
        Key::T => Some(0x54),
        Key::U => Some(0x55),
        Key::V => Some(0x56),
        Key::W => Some(0x57),
        Key::X => Some(0x58),
        Key::Y => Some(0x59),
        Key::Z => Some(0x5A),
        Key::Num0 => Some(0x30),
        Key::Num1 => Some(0x31),
        Key::Num2 => Some(0x32),
        Key::Num3 => Some(0x33),
        Key::Num4 => Some(0x34),
        Key::Num5 => Some(0x35),
        Key::Num6 => Some(0x36),
        Key::Num7 => Some(0x37),
        Key::Num8 => Some(0x38),
        Key::Num9 => Some(0x39),
        Key::F1 => Some(0x70),
        Key::F2 => Some(0x71),
        Key::F3 => Some(0x72),
        Key::F4 => Some(0x73),
        Key::F5 => Some(0x74),
        Key::F6 => Some(0x75),
        Key::F7 => Some(0x76),
        Key::F8 => Some(0x77),
        Key::F9 => Some(0x78),
        Key::F10 => Some(0x79),
        Key::F11 => Some(0x7A),
        Key::F12 => Some(0x7B),
        Key::Enter => Some(0x0D),
        Key::Escape => Some(0x1B),
        Key::Space => Some(0x20),
        Key::Backspace => Some(0x08),
        Key::Tab => Some(0x09),
        Key::Delete => Some(0x2E),
        Key::Insert => Some(0x2D),
        Key::ArrowLeft => Some(0x25),
        Key::ArrowRight => Some(0x27),
        Key::ArrowUp => Some(0x26),
        Key::ArrowDown => Some(0x28),
        Key::Home => Some(0x24),
        Key::End => Some(0x23),
        Key::PageUp => Some(0x21),
        Key::PageDown => Some(0x22),
        Key::LeftShift => Some(0xA0),
        Key::RightShift => Some(0xA1),
        Key::LeftCtrl => Some(0xA2),
        Key::RightCtrl => Some(0xA3),
        Key::LeftAlt => Some(0xA4),
        Key::RightAlt => Some(0xA5),
        Key::LeftSuper => Some(0x5B),
        Key::RightSuper => Some(0x5C),
        _ => None,
    }
}

/// The second virtual-key code a digit key has: its key on the numeric
/// keypad (`VK_NUMPAD0` ..= `VK_NUMPAD9`).
pub open spec fn vk_numpad_code(k: Key) -> Option<int> {
    match k {
        Key::Num0 => Some(0x60),
        Key::Num1 => Some(0x61),
        Key::Num2 => Some(0x62),
        Key::Num3 => Some(0x63),
        Key::Num4 => Some(0x64),
        Key::Num5 => Some(0x65),
        Key::Num6 => Some(0x66),
        Key::Num7 => Some(0x67),
        Key::Num8 => Some(0x68),
        Key::Num9 => Some(0x69),
        _ => None,
    }
}

/// Whether `vk` is one of the virtual-key codes of `k`.
pub open spec fn vk_names(k: Key, vk: int) -> bool {
    vk_code(k) == Some(vk) || vk_numpad_code(k) == Some(vk)
}

/// The key that the virtual-key code `vk` stands for, or `Key::Unknown`.
pub open spec fn vk_key_of(vk: int) -> Key {
    if exists|k: Key| vk_names(k, vk) {
        choose|k: Key| vk_names(k, vk)
    } else {
        Key::Unknown
    }
}

/// No virtual-key code names two keys.
pub proof fn lemma_vk_names_unique(k1: Key, k2: Key, vk: int)
    requires
        vk_names(k1, vk),
        vk_names(k2, vk),
    ensures
        k1 == k2,
{
}

/// A key's virtual-key codes decode to the key.
pub proof fn lemma_vk_key_of_names(k: Key, vk: int)
    requires
        vk_names(k, vk),
    ensures
        vk_key_of(vk) == k,
{
    let k2 = choose|k2: Key| vk_names(k2, vk);
    lemma_vk_names_unique(k, k2, vk);
}

/// Letters are their upper-case ASCII code, top-row digits their ASCII digit,
/// keypad digits `0x60 + d`, and `F1` ..= `F12` are `0x70` ..= `0x7B`.
pub proof fn lemma_vk_ranges()
    ensures
        forall|i: int| 0 <= i < 26 ==> #[trigger] vk_key_of(0x41 + i) == letter(i),
        forall|d: int| 0 <= d < 10 ==> #[trigger] vk_key_of(0x30 + d) == digit(d),
        forall|d: int| 0 <= d < 10 ==> #[trigger] vk_key_of(0x60 + d) == digit(d),
        forall|n: int| 1 <= n <= 12 ==> #[trigger] vk_key_of(0x6F + n) == function_key(n),
{
    assert forall|i: int| 0 <= i < 26 implies #[trigger] vk_key_of(0x41 + i) == letter(i) by {
        lemma_vk_key_of_names(letter(i), 0x41 + i);
    }
    assert forall|d: int| 0 <= d < 10 implies #[trigger] vk_key_of(0x30 + d) == digit(d) by {
        lemma_vk_key_of_names(digit(d), 0x30 + d);
    }
    assert forall|d: int| 0 <= d < 10 implies #[trigger] vk_key_of(0x60 + d) == digit(d) by {
        lemma_vk_key_of_names(digit(d), 0x60 + d);
    }
    assert forall|n: int| 1 <= n <= 12 implies #[trigger] vk_key_of(0x6F + n) == function_key(n) by {
        lemma_vk_key_of_names(function_key(n), 0x6F + n);
    }
}

/// The virtual-key codes of the keys outside the letter, digit and function
/// ranges, as `winuser.h` names them (`VK_RETURN`, `VK_ESCAPE`, ...).
pub proof fn lemma_vk_named_keys()
    ensures
        vk_key_of(0x0D) == Key::Enter,
        vk_key_of(0x1B) == Key::Escape,
        vk_key_of(0x20) == Key::Space,
        vk_key_of(0x08) == Key::Backspace,
        vk_key_of(0x09) == Key::Tab,
        vk_key_of(0x2E) == Key::Delete,
        vk_key_of(0x2D) == Key::Insert,
        vk_key_of(0x25) == Key::ArrowLeft,
        vk_key_of(0x27) == Key::ArrowRight,
        vk_key_of(0x26) == Key::ArrowUp,
        vk_key_of(0x28) == Key::ArrowDown,
        vk_key_of(0x24) == Key::Home,
        vk_key_of(0x23) == Key::End,
        vk_key_of(0x21) == Key::PageUp,
        vk_key_of(0x22) == Key::PageDown,
        vk_key_of(0xA0) == Key::LeftShift,
        vk_key_of(0xA1) == Key::RightShift,
        vk_key_of(0xA2) == Key::LeftCtrl,
        vk_key_of(0xA3) == Key::RightCtrl,
        vk_key_of(0xA4) == Key::LeftAlt,
        vk_key_of(0xA5) == Key::RightAlt,
        vk_key_of(0x5B) == Key::LeftSuper,
        vk_key_of(0x5C) == Key::RightSuper,
{
    assert(vk_key_of(0x0D) == Key::Enter) by {
        lemma_vk_key_of_names(Key::Enter, 0x0D);
    }
    assert(vk_key_of(0x1B) == Key::Escape) by {
        lemma_vk_key_of_names(Key::Escape, 0x1B);
    }
    assert(vk_key_of(0x20) == Key::Space) by {
        lemma_vk_key_of_names(Key::Space, 0x20);
    }
    assert(vk_key_of(0x08) == Key::Backspace) by {
        lemma_vk_key_of_names(Key::Backspace, 0x08);
    }
    assert(vk_key_of(0x09) == Key::Tab) by {
        lemma_vk_key_of_names(Key::Tab, 0x09);
    }
    assert(vk_key_of(0x2E) == Key::Delete) by {
        lemma_vk_key_of_names(Key::Delete, 0x2E);
    }
    assert(vk_key_of(0x2D) == Key::Insert) by {
        lemma_vk_key_of_names(Key::Insert, 0x2D);
    }
    assert(vk_key_of(0x25) == Key::ArrowLeft) by {
        lemma_vk_key_of_names(Key::ArrowLeft, 0x25);
    }
    assert(vk_key_of(0x27) == Key::ArrowRight) by {
        lemma_vk_key_of_names(Key::ArrowRight, 0x27);
    }
    assert(vk_key_of(0x26) == Key::ArrowUp) by {
        lemma_vk_key_of_names(Key::ArrowUp, 0x26);
    }
    assert(vk_key_of(0x28) == Key::ArrowDown) by {
        lemma_vk_key_of_names(Key::ArrowDown, 0x28);
    }
    assert(vk_key_of(0x24) == Key::Home) by {
        lemma_vk_key_of_names(Key::Home, 0x24);
    }
    assert(vk_key_of(0x23) == Key::End) by {
        lemma_vk_key_of_names(Key::End, 0x23);
    }
    assert(vk_key_of(0x21) == Key::PageUp) by {
        lemma_vk_key_of_names(Key::PageUp, 0x21);
    }
    assert(vk_key_of(0x22) == Key::PageDown) by {
        lemma_vk_key_of_names(Key::PageDown, 0x22);
    }
    assert(vk_key_of(0xA0) == Key::LeftShift) by {
        lemma_vk_key_of_names(Key::LeftShift, 0xA0);
    }
    assert(vk_key_of(0xA1) == Key::RightShift) by {
        lemma_vk_key_of_names(Key::RightShift, 0xA1);
    }
    assert(vk_key_of(0xA2) == Key::LeftCtrl) by {
        lemma_vk_key_of_names(Key::LeftCtrl, 0xA2);
    }
    assert(vk_key_of(0xA3) == Key::RightCtrl) by {
        lemma_vk_key_of_names(Key::RightCtrl, 0xA3);
    }
    assert(vk_key_of(0xA4) == Key::LeftAlt) by {
        lemma_vk_key_of_names(Key::LeftAlt, 0xA4);
    }
    assert(vk_key_of(0xA5) == Key::RightAlt) by {
        lemma_vk_key_of_names(Key::RightAlt, 0xA5);
    }
    assert(vk_key_of(0x5B) == Key::LeftSuper) by {
        lemma_vk_key_of_names(Key::LeftSuper, 0x5B);
    }
    assert(vk_key_of(0x5C) == Key::RightSuper) by {
        lemma_vk_key_of_names(Key::RightSuper, 0x5C);
    }
}

/// Maps a Win32 virtual-key code to the physical key it stands for.
pub fn vk_to_key(vk: u16) -> (res: Key)
    ensures
        res == vk_key_of(vk as int),
{
    let res = match vk {
        0x41 => Key::A,
        0x42 => Key::B,
        0x43 => Key::C,
        0x44 => Key::D,
        0x45 => Key::E,
        0x46 => Key::F,
        0x47 => Key::G,
        0x48 => Key::H,
        0x49 => Key::I,
        0x4A => Key::J,
        0x4B => Key::K,
        0x4C => Key::L,
        0x4D => Key::M,
        0x4E => Key::N,
        0x4F => Key::O,
        0x50 => Key::P,
        0x51 => Key::Q,
        0x52 => Key::R,
        0x53 => Key::S,
        0x54 => Key::T,
        0x55 => Key::U,
        0x56 => Key::V,
        0x57 => Key::W,
        0x58 => Key::X,
        0x59 => Key::Y,
        0x5A => Key::Z,
        0x30 => Key::Num0,
        0x31 => Key::Num1,
        0x32 => Key::Num2,
        0x33 => Key::Num3,
        0x34 => Key::Num4,
        0x35 => Key::Num5,
        0x36 => Key::Num6,
        0x37 => Key::Num7,
        0x38 => Key::Num8,
        0x39 => Key::Num9,
        0x60 => Key::Num0,
        0x61 => Key::Num1,
        0x62 => Key::Num2,
        0x63 => Key::Num3,
        0x64 => Key::Num4,
        0x65 => Key::Num5,
        0x66 => Key::Num6,
        0x67 => Key::Num7,
        0x68 => Key::Num8,
        0x69 => Key::Num9,
        0x70 => Key::F1,
        0x71 => Key::F2,
        0x72 => Key::F3,
        0x73 => Key::F4,
        0x74 => Key::F5,
        0x75 => Key::F6,
        0x76 => Key::F7,
        0x77 => Key::F8,
        0x78 => Key::F9,
        0x79 => Key::F10,
        0x7A => Key::F11,
        0x7B => Key::F12,
        0x0D => Key::Enter,
        0x1B => Key::Escape,
        0x20 => Key::Space,
        0x08 => Key::Backspace,
        0x09 => Key::Tab,
        0x2E => Key::Delete,
        0x2D => Key::Insert,
        0x25 => Key::ArrowLeft,
        0x27 => Key::ArrowRight,
        0x26 => Key::ArrowUp,
        0x28 => Key::ArrowDown,
        0x24 => Key::Home,
        0x23 => Key::End,
        0x21 => Key::PageUp,
        0x22 => Key::PageDown,
        0xA0 => Key::LeftShift,
        0xA1 => Key::RightShift,
        0xA2 => Key::LeftCtrl,
        0xA3 => Key::RightCtrl,
        0xA4 => Key::LeftAlt,
        0xA5 => Key::RightAlt,
        0x5B => Key::LeftSuper,
        0x5C => Key::RightSuper,
        _ => Key::Unknown,
    };
    proof {
        if res != Key::Unknown {
            lemma_vk_key_of_names(res, vk as int);
        } else {
            assert(!exists|k: Key| vk_names(k, vk as int));
        }
    }
    res
}

} // verus!
