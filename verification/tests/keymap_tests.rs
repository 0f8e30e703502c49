use windowed::cocoa::keys::keycode_to_key;
use windowed::event::Key;
use windowed::win32::keys::vk_to_key;
use windowed::x11::keys::x11_keycode_to_key;

#[test]
fn x11_keycodes() {
    assert_eq!(x11_keycode_to_key(24), Key::Q);
    assert_eq!(x11_keycode_to_key(38), Key::A);
    assert_eq!(x11_keycode_to_key(52), Key::Z);
    assert_eq!(x11_keycode_to_key(10), Key::Num1);
    assert_eq!(x11_keycode_to_key(19), Key::Num0);
    assert_eq!(x11_keycode_to_key(9), Key::Escape);
    assert_eq!(x11_keycode_to_key(96), Key::F12);
    assert_eq!(x11_keycode_to_key(133), Key::LeftSuper);
    assert_eq!(x11_keycode_to_key(0), Key::Unknown);
    assert_eq!(x11_keycode_to_key(255), Key::Unknown);
}

#[test]
fn x11_every_key_has_one_code() {
    let mut seen = Vec::new();
    for code in 0u16..=255 {
        let k = x11_keycode_to_key(code as u8);
        if k != Key::Unknown {
            assert!(!seen.contains(&k), "{k:?} decoded from two codes");
            seen.push(k);
        }
    }
    assert_eq!(seen.len(), 71);
}

#[test]
fn win32_virtual_keys() {
    for i in 0..26u16 {
        let k = vk_to_key(0x41 + i);
        assert_ne!(k, Key::Unknown);
    }
    assert_eq!(vk_to_key(0x41), Key::A);
    assert_eq!(vk_to_key(0x5A), Key::Z);
    assert_eq!(vk_to_key(0x30), Key::Num0);
    assert_eq!(vk_to_key(0x60), Key::Num0);
    assert_eq!(vk_to_key(0x69), Key::Num9);
    assert_eq!(vk_to_key(0x70), Key::F1);
    assert_eq!(vk_to_key(0x7B), Key::F12);
    assert_eq!(vk_to_key(0x1B), Key::Escape);
    assert_eq!(vk_to_key(0x5B), Key::LeftSuper);
    assert_eq!(vk_to_key(0xA5), Key::RightAlt);
    assert_eq!(vk_to_key(0xFF), Key::Unknown);
}

#[test]
fn mac_keycodes() {
    assert_eq!(keycode_to_key(0x00), Key::A);
    assert_eq!(keycode_to_key(0x0B), Key::B);
    assert_eq!(keycode_to_key(0x1D), Key::Num0);
    assert_eq!(keycode_to_key(0x35), Key::Escape);
    assert_eq!(keycode_to_key(0x6F), Key::F12);
    assert_eq!(keycode_to_key(0x36), Key::RightSuper);
    assert_eq!(keycode_to_key(0x72), Key::Unknown);
    assert_eq!(keycode_to_key(0xFFFF), Key::Unknown);
}
