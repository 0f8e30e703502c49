use vstd::prelude::*;
use crate::event::Key;

verus! {

/// The macOS virtual keycode (`kVK_*`, ANSI layout) of each physical key;
/// `None` for the keys that have none here (`Insert`, `Unknown`).
pub open spec fn mac_code(k: Key) -> Option<int> {
    match k {
        Key::A => Some(0x00),
        Key::B => Some(0x0B),
        Key::C => Some(0x08),
        Key::D => Some(0x02),
        Key::E => Some(0x0E),
        Key::F => Some(0x03),
        Key::G => Some(0x05),
        Key::H => Some(0x04),
        Key::I => Some(0x22),
        Key::J => Some(0x26),
        Key::K => Some(0x28),
        Key::L => Some(0x25),
        Key::M => Some(0x2E),
        Key::N => Some(0x2D),
        Key::O => Some(0x1F),
        Key::P => Some(0x23),
        Key::Q => Some(0x0C),
        Key::R => Some(0x0F),
        Key::S => Some(0x01),
        Key::T => Some(0x11),
        Key::U => Some(0x20),
        Key::V => Some(0x09),
        Key::W => Some(0x0D),
        Key::X => Some(0x07),
        Key::Y => Some(0x10),
        Key::Z => Some(0x06),
        Key::Num0 => Some(0x1D),
        Key::Num1 => Some(0x12),
        Key::Num2 => Some(0x13),
        Key::Num3 => Some(0x14),
        Key::Num4 => Some(0x15),
        Key::Num5 => Some(0x17),
        Key::Num6 => Some(0x16),
        Key::Num7 => Some(0x1A),
        Key::Num8 => Some(0x1C),
        Key::Num9 => Some(0x19),
        Key::F1 => Some(0x7A),
        Key::F2 => Some(0x78),
        Key::F3 => Some(0x63),
        Key::F4 => Some(0x76),
        Key::F5 => Some(0x60),
        Key::F6 => Some(0x61),
        Key::F7 => Some(0x62),
        Key::F8 => Some(0x64),
        Key::F9 => Some(0x65),
        Key::F10 => Some(0x6D),
        Key::F11 => Some(0x67),
        Key::F12 => Some(0x6F),
        Key::Enter => Some(0x24),
        Key::Escape => Some(0x35),
        Key::Space => Some(0x31),
        Key::Backspace => Some(0x33),
        Key::Tab => Some(0x30),
        Key::Delete => Some(0x75),
        Key::ArrowLeft => Some(0x7B),
        Key::ArrowRight => Some(0x7C),
        Key::ArrowUp => Some(0x7E),
        Key::ArrowDown => Some(0x7D),
        Key::Home => Some(0x73),
        Key::End => Some(0x77),
        Key::PageUp => Some(0x74),
        Key::PageDown => Some(0x79),
        Key::LeftShift => Some(0x38),
        Key::RightShift => Some(0x3C),
        Key::LeftCtrl => Some(0x3B),
        Key::RightCtrl => Some(0x3E),
        Key::LeftAlt => Some(0x3A),
        Key::RightAlt => Some(0x3D),
        Key::LeftSuper => Some(0x37),
        Key::RightSuper => Some(0x36),
        _ => None,
    }
}

/// The key whose macOS keycode is `code`, or `Key::Unknown`.
pub open spec fn mac_key_of(code: int) -> Key {
    if exists|k: Key| mac_code(k) == Some(code) {
        choose|k: Key| mac_code(k) == Some(code)
    } else {
        Key::Unknown
    }
}

/// No two keys share a macOS keycode.
pub proof fn lemma_mac_code_injective(k1: Key, k2: Key)
    requires
        mac_code(k1) is Some,
        mac_code(k1) == mac_code(k2),
    ensures
        k1 == k2,
{
}

/// Decoding a key's own macOS keycode gives the key back.
pub proof fn lemma_mac_key_of_code(k: Key)
    requires
        mac_code(k) is Some,
    ensures
        mac_key_of(mac_code(k)->0) == k,
{
    let c: int = mac_code(k)->0;
    let k2 = choose|k2: Key| mac_code(k2) == Some(c);
    lemma_mac_code_injective(k, k2);
}

/// The macOS virtual keycodes (`kVK_*`) of the letter keys.
pub proof fn lemma_mac_letter_codes()
    ensures
        mac_key_of(0x00) == Key::A,
        mac_key_of(0x0B) == Key::B,
        mac_key_of(0x08) == Key::C,
        mac_key_of(0x02) == Key::D,
        mac_key_of(0x0E) == Key::E,
        mac_key_of(0x03) == Key::F,
        mac_key_of(0x05) == Key::G,
        mac_key_of(0x04) == Key::H,
        mac_key_of(0x22) == Key::I,
        mac_key_of(0x26) == Key::J,
        mac_key_of(0x28) == Key::K,
        mac_key_of(0x25) == Key::L,
        mac_key_of(0x2E) == Key::M,
        mac_key_of(0x2D) == Key::N,
        mac_key_of(0x1F) == Key::O,
        mac_key_of(0x23) == Key::P,
        mac_key_of(0x0C) == Key::Q,
        mac_key_of(0x0F) == Key::R,
        mac_key_of(0x01) == Key::S,
        mac_key_of(0x11) == Key::T,
        mac_key_of(0x20) == Key::U,
        mac_key_of(0x09) == Key::V,
        mac_key_of(0x0D) == Key::W,
        mac_key_of(0x07) == Key::X,
        mac_key_of(0x10) == Key::Y,
        mac_key_of(0x06) == Key::Z,
{
    assert(mac_key_of(0x00) == Key::A) by {
        lemma_mac_key_of_code(Key::A);
    }
    assert(mac_key_of(0x0B) == Key::B) by {
        lemma_mac_key_of_code(Key::B);
    }
    assert(mac_key_of(0x08) == Key::C) by {
        lemma_mac_key_of_code(Key::C);
    }
    assert(mac_key_of(0x02) == Key::D) by {
        lemma_mac_key_of_code(Key::D);
    }
    assert(mac_key_of(0x0E) == Key::E) by {
        lemma_mac_key_of_code(Key::E);
    }
    assert(mac_key_of(0x03) == Key::F) by {
        lemma_mac_key_of_code(Key::F);
    }
    assert(mac_key_of(0x05) == Key::G) by {
        lemma_mac_key_of_code(Key::G);
    }
    assert(mac_key_of(0x04) == Key::H) by {
        lemma_mac_key_of_code(Key::H);
    }
    assert(mac_key_of(0x22) == Key::I) by {
        lemma_mac_key_of_code(Key::I);
    }
    assert(mac_key_of(0x26) == Key::J) by {
        lemma_mac_key_of_code(Key::J);
    }
    assert(mac_key_of(0x28) == Key::K) by {
        lemma_mac_key_of_code(Key::K);
    }
    assert(mac_key_of(0x25) == Key::L) by {
        lemma_mac_key_of_code(Key::L);
    }
    assert(mac_key_of(0x2E) == Key::M) by {
        lemma_mac_key_of_code(Key::M);
    }
    assert(mac_key_of(0x2D) == Key::N) by {
        lemma_mac_key_of_code(Key::N);
    }
    assert(mac_key_of(0x1F) == Key::O) by {
        lemma_mac_key_of_code(Key::O);
    }
    assert(mac_key_of(0x23) == Key::P) by {
        lemma_mac_key_of_code(Key::P);
    }
    assert(mac_key_of(0x0C) == Key::Q) by {
        lemma_mac_key_of_code(Key::Q);
    }
    assert(mac_key_of(0x0F) == Key::R) by {
        lemma_mac_key_of_code(Key::R);
    }
    assert(mac_key_of(0x01) == Key::S) by {
        lemma_mac_key_of_code(Key::S);
    }
    assert(mac_key_of(0x11) == Key::T) by {
        lemma_mac_key_of_code(Key::T);
    }
    assert(mac_key_of(0x20) == Key::U) by {
        lemma_mac_key_of_code(Key::U);
    }
    assert(mac_key_of(0x09) == Key::V) by {
        lemma_mac_key_of_code(Key::V);
    }
    assert(mac_key_of(0x0D) == Key::W) by {
        lemma_mac_key_of_code(Key::W);
    }
    assert(mac_key_of(0x07) == Key::X) by {
        lemma_mac_key_of_code(Key::X);
    }
    assert(mac_key_of(0x10) == Key::Y) by {
        lemma_mac_key_of_code(Key::Y);
    }
    assert(mac_key_of(0x06) == Key::Z) by {
        lemma_mac_key_of_code(Key::Z);
    }
}

/// The macOS virtual keycodes (`kVK_*`) of the top-row digit keys.
pub proof fn lemma_mac_digit_codes()
    ensures
        mac_key_of(0x1D) == Key::Num0,
        mac_key_of(0x12) == Key::Num1,
        mac_key_of(0x13) == Key::Num2,
        mac_key_of(0x14) == Key::Num3,
        mac_key_of(0x15) == Key::Num4,
        mac_key_of(0x17) == Key::Num5,
        mac_key_of(0x16) == Key::Num6,
        mac_key_of(0x1A) == Key::Num7,
        mac_key_of(0x1C) == Key::Num8,
        mac_key_of(0x19) == Key::Num9,
{
    assert(mac_key_of(0x1D) == Key::Num0) by {
        lemma_mac_key_of_code(Key::Num0);
    }
    assert(mac_key_of(0x12) == Key::Num1) by {
        lemma_mac_key_of_code(Key::Num1);
    }
    assert(mac_key_of(0x13) == Key::Num2) by {
        lemma_mac_key_of_code(Key::Num2);
    }
    assert(mac_key_of(0x14) == Key::Num3) by {
        lemma_mac_key_of_code(Key::Num3);
    }
    assert(mac_key_of(0x15) == Key::Num4) by {
        lemma_mac_key_of_code(Key::Num4);
    }
    assert(mac_key_of(0x17) == Key::Num5) by {
        lemma_mac_key_of_code(Key::Num5);
    }
    assert(mac_key_of(0x16) == Key::Num6) by {
        lemma_mac_key_of_code(Key::Num6);
    }
    assert(mac_key_of(0x1A) == Key::Num7) by {
        lemma_mac_key_of_code(Key::Num7);
    }
    assert(mac_key_of(0x1C) == Key::Num8) by {
        lemma_mac_key_of_code(Key::Num8);
    }
    assert(mac_key_of(0x19) == Key::Num9) by {
        lemma_mac_key_of_code(Key::Num9);
    }
}

/// The macOS virtual keycodes (`kVK_*`) of the function keys.
pub proof fn lemma_mac_function_key_codes()
    ensures
        mac_key_of(0x7A) == Key::F1,
        mac_key_of(0x78) == Key::F2,
        mac_key_of(0x63) == Key::F3,
        mac_key_of(0x76) == Key::F4,
        mac_key_of(0x60) == Key::F5,
        mac_key_of(0x61) == Key::F6,
        mac_key_of(0x62) == Key::F7,
        mac_key_of(0x64) == Key::F8,
        mac_key_of(0x65) == Key::F9,
        mac_key_of(0x6D) == Key::F10,
        mac_key_of(0x67) == Key::F11,
        mac_key_of(0x6F) == Key::F12,
{
    assert(mac_key_of(0x7A) == Key::F1) by {
        lemma_mac_key_of_code(Key::F1);
    }
    assert(mac_key_of(0x78) == Key::F2) by {
        lemma_mac_key_of_code(Key::F2);
    }
    assert(mac_key_of(0x63) == Key::F3) by {
        lemma_mac_key_of_code(Key::F3);
    }
    assert(mac_key_of(0x76) == Key::F4) by {
        lemma_mac_key_of_code(Key::F4);
    }
    assert(mac_key_of(0x60) == Key::F5) by {
        lemma_mac_key_of_code(Key::F5);
    }
    assert(mac_key_of(0x61) == Key::F6) by {
        lemma_mac_key_of_code(Key::F6);
    }
    assert(mac_key_of(0x62) == Key::F7) by {
        lemma_mac_key_of_code(Key::F7);
    }
    assert(mac_key_of(0x64) == Key::F8) by {
        lemma_mac_key_of_code(Key::F8);
    }
    assert(mac_key_of(0x65) == Key::F9) by {
        lemma_mac_key_of_code(Key::F9);
    }
    assert(mac_key_of(0x6D) == Key::F10) by {
        lemma_mac_key_of_code(Key::F10);
    }
    assert(mac_key_of(0x67) == Key::F11) by {
        lemma_mac_key_of_code(Key::F11);
    }
    assert(mac_key_of(0x6F) == Key::F12) by {
        lemma_mac_key_of_code(Key::F12);
    }
}

/// The macOS virtual keycodes (`kVK_*`) of Enter, Escape, Space, Backspace, Tab, Delete and Insert.
pub proof fn lemma_mac_editing_codes()
    ensures
        mac_key_of(0x24) == Key::Enter,
        mac_key_of(0x35) == Key::Escape,
        mac_key_of(0x31) == Key::Space,
        mac_key_of(0x33) == Key::Backspace,
        mac_key_of(0x30) == Key::Tab,
        mac_key_of(0x75) == Key::Delete,
{
    assert(mac_key_of(0x24) == Key::Enter) by {
        lemma_mac_key_of_code(Key::Enter);
    }
    assert(mac_key_of(0x35) == Key::Escape) by {
        lemma_mac_key_of_code(Key::Escape);
    }
    assert(mac_key_of(0x31) == Key::Space) by {
        lemma_mac_key_of_code(Key::Space);
    }
    assert(mac_key_of(0x33) == Key::Backspace) by {
        lemma_mac_key_of_code(Key::Backspace);
    }
    assert(mac_key_of(0x30) == Key::Tab) by {
        lemma_mac_key_of_code(Key::Tab);
    }
    assert(mac_key_of(0x75) == Key::Delete) by {
        lemma_mac_key_of_code(Key::Delete);
    }
}

/// The macOS virtual keycodes (`kVK_*`) of the arrow and page-navigation keys.
pub proof fn lemma_mac_navigation_codes()
    ensures
        mac_key_of(0x7B) == Key::ArrowLeft,
        mac_key_of(0x7C) == Key::ArrowRight,
        mac_key_of(0x7E) == Key::ArrowUp,
        mac_key_of(0x7D) == Key::ArrowDown,
        mac_key_of(0x73) == Key::Home,
        mac_key_of(0x77) == Key::End,
        mac_key_of(0x74) == Key::PageUp,
        mac_key_of(0x79) == Key::PageDown,
{
    assert(mac_key_of(0x7B) == Key::ArrowLeft) by {
        lemma_mac_key_of_code(Key::ArrowLeft);
    }
    assert(mac_key_of(0x7C) == Key::ArrowRight) by {
        lemma_mac_key_of_code(Key::ArrowRight);
    }
    assert(mac_key_of(0x7E) == Key::ArrowUp) by {
        lemma_mac_key_of_code(Key::ArrowUp);
    }
    assert(mac_key_of(0x7D) == Key::ArrowDown) by {
        lemma_mac_key_of_code(Key::ArrowDown);
    }
    assert(mac_key_of(0x73) == Key::Home) by {
        lemma_mac_key_of_code(Key::Home);
    }
    assert(mac_key_of(0x77) == Key::End) by {
        lemma_mac_key_of_code(Key::End);
    }
    assert(mac_key_of(0x74) == Key::PageUp) by {
        lemma_mac_key_of_code(Key::PageUp);
    }
    assert(mac_key_of(0x79) == Key::PageDown) by {
        lemma_mac_key_of_code(Key::PageDown);
    }
}

/// The macOS virtual keycodes (`kVK_*`) of the modifier keys.
pub proof fn lemma_mac_modifier_codes()
    ensures
        mac_key_of(0x38) == Key::LeftShift,
        mac_key_of(0x3C) == Key::RightShift,
        mac_key_of(0x3B) == Key::LeftCtrl,
        mac_key_of(0x3E) == Key::RightCtrl,
        mac_key_of(0x3A) == Key::LeftAlt,
        mac_key_of(0x3D) == Key::RightAlt,
        mac_key_of(0x37) == Key::LeftSuper,
        mac_key_of(0x36) == Key::RightSuper,
{
    assert(mac_key_of(0x38) == Key::LeftShift) by {
        lemma_mac_key_of_code(Key::LeftShift);
    }
    assert(mac_key_of(0x3C) == Key::RightShift) by {
        lemma_mac_key_of_code(Key::RightShift);
    }
    assert(mac_key_of(0x3B) == Key::LeftCtrl) by {
        lemma_mac_key_of_code(Key::LeftCtrl);
    }
    assert(mac_key_of(0x3E) == Key::RightCtrl) by {
        lemma_mac_key_of_code(Key::RightCtrl);
    }
    assert(mac_key_of(0x3A) == Key::LeftAlt) by {
        lemma_mac_key_of_code(Key::LeftAlt);
    }
    assert(mac_key_of(0x3D) == Key::RightAlt) by {
        lemma_mac_key_of_code(Key::RightAlt);
    }
    assert(mac_key_of(0x37) == Key::LeftSuper) by {
        lemma_mac_key_of_code(Key::LeftSuper);
    }
    assert(mac_key_of(0x36) == Key::RightSuper) by {
        lemma_mac_key_of_code(Key::RightSuper);
    }
}

/// Maps a macOS virtual keycode to the physical key it stands for.
pub fn keycode_to_key(code: u16) -> (res: Key)
    ensures
        res == mac_key_of(code as int),
{
    let res = match code {
        0x00 => Key::A,
        0x0B => Key::B,
        0x08 => Key::C,
        0x02 => Key::D,
        0x0E => Key::E,
        0x03 => Key::F,
        0x05 => Key::G,
        0x04 => Key::H,
        0x22 => Key::I,
        0x26 => Key::J,
        0x28 => Key::K,
        0x25 => Key::L,
        0x2E => Key::M,
        0x2D => Key::N,
        0x1F => Key::O,
        0x23 => Key::P,
        0x0C => Key::Q,
        0x0F => Key::R,
        0x01 => Key::S,
        0x11 => Key::T,
        0x20 => Key::U,
        0x09 => Key::V,
        0x0D => Key::W,
        0x07 => Key::X,
        0x10 => Key::Y,
        0x06 => Key::Z,
        0x1D => Key::Num0,
        0x12 => Key::Num1,
        0x13 => Key::Num2,
        0x14 => Key::Num3,
        0x15 => Key::Num4,
        0x17 => Key::Num5,
        0x16 => Key::Num6,
        0x1A => Key::Num7,
        0x1C => Key::Num8,
        0x19 => Key::Num9,
        0x7A => Key::F1,
        0x78 => Key::F2,
        0x63 => Key::F3,
        0x76 => Key::F4,
        0x60 => Key::F5,
        0x61 => Key::F6,
        0x62 => Key::F7,
        0x64 => Key::F8,
        0x65 => Key::F9,
        0x6D => Key::F10,
        0x67 => Key::F11,
        0x6F => Key::F12,
        0x24 => Key::Enter,
        0x35 => Key::Escape,
        0x31 => Key::Space,
        0x33 => Key::Backspace,
        0x30 => Key::Tab,
        0x75 => Key::Delete,
        0x7B => Key::ArrowLeft,
        0x7C => Key::ArrowRight,
        0x7E => Key::ArrowUp,
        0x7D => Key::ArrowDown,
        0x73 => Key::Home,
        0x77 => Key::End,
        0x74 => Key::PageUp,
        0x79 => Key::PageDown,
        0x38 => Key::LeftShift,
        0x3C => Key::RightShift,
        0x3B => Key::LeftCtrl,
        0x3E => Key::RightCtrl,
        0x3A => Key::LeftAlt,
        0x3D => Key::RightAlt,
        0x37 => Key::LeftSuper,
        0x36 => Key::RightSuper,
        _ => Key::Unknown,
    };
    proof {
        if res != Key::Unknown {
            lemma_mac_key_of_code(res);
        } else {
            assert(!exists|k: Key| mac_code(k) == Some(code as int));
        }
    }
    res
}

} // verus!
