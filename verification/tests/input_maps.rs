use game_logic::actions::{CharacterAction, InputControlKind};
use game_logic::buttons::{GamepadButton, GamepadStick, MouseButton};
use game_logic::input::{
    build_gamepad_input_map, build_keyboard_input_map, detect_input_device, input_device_step,
    input_map_for_device, input_map_needs_rebuild, ActiveInputDevice, AxisBinding,
    GamepadBindings, InputBinding, InputConfig, InputDevice, KeyboardBindings, ResolvedDevice,
};
use game_logic::keys::KeyCode;

fn binding_of(buttons: &[(CharacterAction, InputBinding)], action: CharacterAction) -> Vec<InputBinding> {
    buttons.iter().filter(|(a, _)| *a == action).map(|(_, b)| *b).collect()
}

#[test]
fn default_keyboard_map_uses_default_keys() {
    let map = build_keyboard_input_map(&KeyboardBindings::default());
    assert_eq!(map.buttons.len(), 34);
    assert_eq!(binding_of(&map.buttons, CharacterAction::Jump), vec![InputBinding::Key(KeyCode::Space)]);
    assert_eq!(binding_of(&map.buttons, CharacterAction::Sprint), vec![InputBinding::Key(KeyCode::ShiftLeft)]);
    assert_eq!(binding_of(&map.buttons, CharacterAction::PushToTalk), vec![InputBinding::Key(KeyCode::CapsLock)]);
    assert_eq!(binding_of(&map.buttons, CharacterAction::Gesture3), vec![InputBinding::Key(KeyCode::F3)]);
    assert_eq!(binding_of(&map.buttons, CharacterAction::Fire), vec![InputBinding::Mouse(MouseButton::Left)]);
    assert_eq!(
        binding_of(&map.buttons, CharacterAction::AimDownSights),
        vec![InputBinding::Mouse(MouseButton::Right)]
    );
    assert_eq!(
        binding_of(&map.buttons, CharacterAction::TacticalEquipment),
        vec![InputBinding::Mouse(MouseButton::Middle)]
    );
    assert_eq!(
        map.move_axis,
        AxisBinding::KeyPad { up: KeyCode::KeyW, down: KeyCode::KeyS, left: KeyCode::KeyA, right: KeyCode::KeyD }
    );
    assert_eq!(map.look_axis, AxisBinding::MouseMotion);
}

#[test]
fn keyboard_map_takes_configured_keys_and_falls_back() {
    let mut kb = KeyboardBindings::default();
    kb.jump = "KeyJ".to_string();
    kb.reload = "NotAKey".to_string();
    kb.move_up = "F5".to_string();
    let map = build_keyboard_input_map(&kb);
    assert_eq!(binding_of(&map.buttons, CharacterAction::Jump), vec![InputBinding::Key(KeyCode::KeyJ)]);
    assert_eq!(binding_of(&map.buttons, CharacterAction::MountLedge), vec![InputBinding::Key(KeyCode::Space)]);
    assert_eq!(binding_of(&map.buttons, CharacterAction::Reload), vec![InputBinding::Key(KeyCode::KeyR)]);
    match map.move_axis {
        AxisBinding::KeyPad { up, .. } => assert_eq!(up, KeyCode::F5),
        other => panic!("unexpected move axis {:?}", other),
    }
}

#[test]
fn keyboard_pointer_actions_are_configurable() {
    let mut kb = KeyboardBindings::default();
    kb.fire = "KeyK".to_string();
    kb.aim_down_sights = "Middle".to_string();
    kb.tactical_equipment = "Nonsense".to_string();
    kb.mount_ledge = "NotAKey".to_string();
    kb.jump = "KeyJ".to_string();
    let map = build_keyboard_input_map(&kb);
    assert_eq!(binding_of(&map.buttons, CharacterAction::Fire), vec![InputBinding::Key(KeyCode::KeyK)]);
    assert_eq!(
        binding_of(&map.buttons, CharacterAction::AimDownSights),
        vec![InputBinding::Mouse(MouseButton::Middle)]
    );
    assert_eq!(
        binding_of(&map.buttons, CharacterAction::TacticalEquipment),
        vec![InputBinding::Mouse(MouseButton::Middle)]
    );
    assert_eq!(binding_of(&map.buttons, CharacterAction::MountLedge), vec![InputBinding::Key(KeyCode::KeyJ)]);
    kb.mount_ledge = "KeyL".to_string();
    let map = build_keyboard_input_map(&kb);
    assert_eq!(binding_of(&map.buttons, CharacterAction::MountLedge), vec![InputBinding::Key(KeyCode::KeyL)]);
}

#[test]
fn keyboard_map_binds_every_button_action_once() {
    let map = build_keyboard_input_map(&KeyboardBindings::default());
    let actions = [
        CharacterAction::Jump, CharacterAction::Sprint, CharacterAction::Crouch, CharacterAction::Prone,
        CharacterAction::MountLedge, CharacterAction::Fire, CharacterAction::AimDownSights,
        CharacterAction::Reload, CharacterAction::PrimaryWeapon, CharacterAction::SecondaryWeapon,
        CharacterAction::Interact, CharacterAction::LethalEquipment, CharacterAction::TacticalEquipment,
        CharacterAction::Melee, CharacterAction::WeaponInspect, CharacterAction::ArmorPlate,
        CharacterAction::AlternateFire, CharacterAction::Killstreak1, CharacterAction::Killstreak2,
        CharacterAction::Killstreak3, CharacterAction::FieldUpgrade, CharacterAction::TextChat,
        CharacterAction::TeamChat, CharacterAction::Ping, CharacterAction::PushToTalk,
        CharacterAction::Gesture1, CharacterAction::Gesture2, CharacterAction::Gesture3,
        CharacterAction::Gesture4, CharacterAction::Scoreboard, CharacterAction::WorldMap,
        CharacterAction::Inventory, CharacterAction::Pause, CharacterAction::NightVision,
    ];
    for a in actions {
        assert_eq!(binding_of(&map.buttons, a).len(), 1, "{:?}", a);
    }
}

#[test]
fn default_gamepad_map() {
    let map = build_gamepad_input_map(&GamepadBindings::default());
    assert_eq!(map.buttons.len(), 19);
    assert_eq!(binding_of(&map.buttons, CharacterAction::Jump), vec![InputBinding::Gamepad(GamepadButton::South)]);
    assert_eq!(
        binding_of(&map.buttons, CharacterAction::Fire),
        vec![InputBinding::Gamepad(GamepadButton::RightTrigger)]
    );
    assert_eq!(
        binding_of(&map.buttons, CharacterAction::Pause),
        vec![InputBinding::Gamepad(GamepadButton::Start)]
    );
    assert!(binding_of(&map.buttons, CharacterAction::Prone).is_empty());
    assert_eq!(map.move_axis, AxisBinding::Stick(GamepadStick::Left));
    assert_eq!(map.look_axis, AxisBinding::Stick(GamepadStick::Right));
}

#[test]
fn gamepad_map_takes_configured_sticks() {
    let mut gp = GamepadBindings::default();
    gp.move_stick = "RightStick".to_string();
    gp.look_stick = "LeftStick".to_string();
    gp.jump = "North".to_string();
    gp.fire = "Trigger".to_string();
    let map = build_gamepad_input_map(&gp);
    assert_eq!(map.move_axis, AxisBinding::Stick(GamepadStick::Right));
    assert_eq!(map.look_axis, AxisBinding::Stick(GamepadStick::Left));
    gp.move_stick = "Stick".to_string();
    let map = build_gamepad_input_map(&gp);
    assert_eq!(map.move_axis, AxisBinding::Stick(GamepadStick::Left));
    assert_eq!(binding_of(&map.buttons, CharacterAction::Jump), vec![InputBinding::Gamepad(GamepadButton::North)]);
    assert_eq!(
        binding_of(&map.buttons, CharacterAction::Fire),
        vec![InputBinding::Gamepad(GamepadButton::RightTrigger)]
    );
}

#[test]
fn device_resolution() {
    assert_eq!(
        detect_input_device(InputDevice::KeyboardMouse, Some(7)),
        ActiveInputDevice { device: ResolvedDevice::KeyboardMouse, gamepad: Some(7) }
    );
    assert_eq!(detect_input_device(InputDevice::Auto, Some(7)).device, ResolvedDevice::Gamepad);
    assert_eq!(detect_input_device(InputDevice::Auto, None).device, ResolvedDevice::KeyboardMouse);
    assert_eq!(detect_input_device(InputDevice::Gamepad, None).device, ResolvedDevice::KeyboardMouse);
    assert_eq!(detect_input_device(InputDevice::Gamepad, Some(1)).device, ResolvedDevice::Gamepad);
    assert_eq!(ActiveInputDevice::default().device, ResolvedDevice::KeyboardMouse);
}

#[test]
fn device_step_waits_for_connection_events() {
    let active = ActiveInputDevice { device: ResolvedDevice::KeyboardMouse, gamepad: None };
    assert_eq!(input_device_step(active, false, InputDevice::Auto, Some(3)), active);
    assert_eq!(
        input_device_step(active, true, InputDevice::Auto, Some(3)),
        ActiveInputDevice { device: ResolvedDevice::Gamepad, gamepad: Some(3) }
    );
    let pad = ActiveInputDevice { device: ResolvedDevice::Gamepad, gamepad: Some(3) };
    assert_eq!(
        input_device_step(pad, true, InputDevice::Gamepad, None),
        ActiveInputDevice { device: ResolvedDevice::KeyboardMouse, gamepad: None }
    );
    assert_eq!(input_device_step(pad, false, InputDevice::KeyboardMouse, None), pad);
}

#[test]
fn rebuild_only_on_transitions() {
    assert!(input_map_needs_rebuild(None, ResolvedDevice::KeyboardMouse, false));
    assert!(!input_map_needs_rebuild(Some(ResolvedDevice::Gamepad), ResolvedDevice::Gamepad, false));
    assert!(input_map_needs_rebuild(Some(ResolvedDevice::Gamepad), ResolvedDevice::KeyboardMouse, false));
    assert!(input_map_needs_rebuild(Some(ResolvedDevice::Gamepad), ResolvedDevice::Gamepad, true));
}

#[test]
fn map_for_device_follows_device() {
    let config = InputConfig::default();
    assert_eq!(input_map_for_device(ResolvedDevice::Gamepad, &config).buttons.len(), 19);
    assert_eq!(input_map_for_device(ResolvedDevice::KeyboardMouse, &config).buttons.len(), 34);
    assert_eq!(config.active_device, InputDevice::Auto);
    assert_eq!(config.cursor_grab_button, "Left");
    assert_eq!(config.cursor_release_key, "Escape");
}

#[test]
fn control_kinds() {
    assert_eq!(CharacterAction::Move.input_control_kind(), InputControlKind::DualAxis);
    assert_eq!(CharacterAction::Look.input_control_kind(), InputControlKind::DualAxis);
    assert_eq!(CharacterAction::Jump.input_control_kind(), InputControlKind::Button);
}
