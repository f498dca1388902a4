use game_logic::buttons::{
    parse_gamepad_button, parse_gamepad_stick, parse_mouse_button, GamepadButton, GamepadStick,
    MouseButton,
};
use game_logic::keys::{parse_key_code, KeyCode};

#[test]
fn letter_keys_parse() {
    assert_eq!(parse_key_code("KeyA"), Some(KeyCode::KeyA));
    assert_eq!(parse_key_code("KeyC"), Some(KeyCode::KeyC));
    assert_eq!(parse_key_code("KeyZ"), Some(KeyCode::KeyZ));
    assert_eq!(parse_key_code("Keya"), None);
    assert_eq!(parse_key_code("KeyAB"), None);
    assert_eq!(parse_key_code("Key"), None);
}

#[test]
fn digit_keys_parse() {
    assert_eq!(parse_key_code("Digit0"), Some(KeyCode::Digit0));
    assert_eq!(parse_key_code("Digit9"), Some(KeyCode::Digit9));
    assert_eq!(parse_key_code("DigitX"), None);
    assert_eq!(parse_key_code("Digit10"), None);
}

#[test]
fn function_keys_parse_like_u8_numerals() {
    assert_eq!(parse_key_code("F1"), Some(KeyCode::F1));
    assert_eq!(parse_key_code("F12"), Some(KeyCode::F12));
    assert_eq!(parse_key_code("F01"), Some(KeyCode::F1));
    assert_eq!(parse_key_code("F+7"), Some(KeyCode::F7));
    assert_eq!(parse_key_code("F0"), None);
    assert_eq!(parse_key_code("F13"), None);
    assert_eq!(parse_key_code("F"), None);
    assert_eq!(parse_key_code("F123"), None);
    assert_eq!(parse_key_code("F-1"), None);
}

#[test]
fn named_keys_parse() {
    assert_eq!(parse_key_code("Space"), Some(KeyCode::Space));
    assert_eq!(parse_key_code("Escape"), Some(KeyCode::Escape));
    assert_eq!(parse_key_code("ShiftLeft"), Some(KeyCode::ShiftLeft));
    assert_eq!(parse_key_code("AltRight"), Some(KeyCode::AltRight));
    assert_eq!(parse_key_code("space"), None);
    assert_eq!(parse_key_code(""), None);
}

#[test]
fn caps_lock_has_no_parsable_name() {
    assert_eq!(parse_key_code("CapsLock"), None);
}

#[test]
fn non_ascii_names_are_rejected() {
    assert_eq!(parse_key_code("Keyé"), None);
    assert_eq!(parse_key_code("Fé"), None);
    assert_eq!(parse_key_code("Digité"), None);
}

#[test]
fn gamepad_buttons_parse() {
    assert_eq!(parse_gamepad_button("South"), Some(GamepadButton::South));
    assert_eq!(parse_gamepad_button("RightTrigger2"), Some(GamepadButton::RightTrigger2));
    assert_eq!(parse_gamepad_button("DPadLeft"), Some(GamepadButton::DPadLeft));
    assert_eq!(parse_gamepad_button("south"), None);
}

#[test]
fn gamepad_sticks_parse() {
    assert_eq!(parse_gamepad_stick("LeftStick"), Some(GamepadStick::Left));
    assert_eq!(parse_gamepad_stick("RightStick"), Some(GamepadStick::Right));
    assert_eq!(parse_gamepad_stick("Left"), None);
}

#[test]
fn mouse_buttons_parse() {
    assert_eq!(parse_mouse_button("Left"), Some(MouseButton::Left));
    assert_eq!(parse_mouse_button("Right"), Some(MouseButton::Right));
    assert_eq!(parse_mouse_button("Middle"), Some(MouseButton::Middle));
    assert_eq!(parse_mouse_button("Back"), None);
}
