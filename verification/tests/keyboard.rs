use chip8::keyboard::{HostKey, Keyboard};

const KEYS: [(HostKey, u8); 16] = [
    (HostKey::Num1, 0x1),
    (HostKey::Num2, 0x2),
    (HostKey::Num3, 0x3),
    (HostKey::Num4, 0xC),
    (HostKey::Q, 0x4),
    (HostKey::W, 0x5),
    (HostKey::E, 0x6),
    (HostKey::R, 0xD),
    (HostKey::A, 0x7),
    (HostKey::S, 0x8),
    (HostKey::D, 0x9),
    (HostKey::F, 0xE),
    (HostKey::Z, 0xA),
    (HostKey::X, 0x0),
    (HostKey::C, 0xB),
    (HostKey::V, 0xF),
];

#[test]
fn maps_the_sixteen_host_keys() {
    for (key, hex) in KEYS {
        assert_eq!(Keyboard::scancode_to_hex(key), Some(hex));
        assert_eq!(Keyboard::hex_to_scancode(hex), Some(key));
    }
    assert_eq!(Keyboard::scancode_to_hex(HostKey::Other), None);
    assert_eq!(Keyboard::hex_to_scancode(16), None);
    assert_eq!(Keyboard::hex_to_scancode(255), None);
}

#[test]
fn new_keyboard_has_no_key_down() {
    let keyboard = Keyboard::new();
    for hex in 0..=255u8 {
        assert!(!keyboard.is_pressed(hex));
    }
}

#[test]
fn press_marks_the_key_down() {
    let mut keyboard = Keyboard::new();
    keyboard.press_key(HostKey::Q);
    assert!(keyboard.is_pressed(0x4));
    assert!(!keyboard.is_pressed(0x5));
}

#[test]
fn press_lets_go_of_the_previous_key() {
    let mut keyboard = Keyboard::new();
    keyboard.press_key(HostKey::Q);
    keyboard.press_key(HostKey::W);
    assert!(!keyboard.is_pressed(0x4));
    assert!(keyboard.is_pressed(0x5));
    let down = (0..16u8).filter(|hex| keyboard.is_pressed(*hex)).count();
    assert_eq!(down, 1);
}

#[test]
fn a_key_without_keypad_code_only_lets_go() {
    let mut keyboard = Keyboard::new();
    keyboard.press_key(HostKey::V);
    keyboard.press_key(HostKey::Other);
    assert!(!keyboard.is_pressed(0xF));
    keyboard.press_key(HostKey::Other);
    assert!((0..16u8).all(|hex| !keyboard.is_pressed(hex)));
}

#[test]
fn pressing_the_same_key_again_keeps_it_down() {
    let mut keyboard = Keyboard::new();
    keyboard.press_key(HostKey::X);
    keyboard.press_key(HostKey::X);
    assert!(keyboard.is_pressed(0x0));
}

#[test]
fn release_removes_the_key() {
    let mut keyboard = Keyboard::new();
    keyboard.press_key(HostKey::A);
    keyboard.release_key(Some(0x8));
    assert!(keyboard.is_pressed(0x7));
    keyboard.release_key(None);
    assert!(keyboard.is_pressed(0x7));
    keyboard.release_key(Some(0x7));
    assert!(!keyboard.is_pressed(0x7));
}

#[test]
fn release_scancode_lets_go_of_the_key_it_stands_for() {
    let mut keyboard = Keyboard::new();
    keyboard.press_key(HostKey::C);
    keyboard.release_scancode(HostKey::V);
    assert!(keyboard.is_pressed(0xB));
    keyboard.release_scancode(HostKey::Other);
    assert!(keyboard.is_pressed(0xB));
    keyboard.release_scancode(HostKey::C);
    assert!(!keyboard.is_pressed(0xB));
}
