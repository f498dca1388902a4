use vstd::prelude::*;

use crate::actions::CharacterAction;
use crate::buttons::{
    GamepadButton, GamepadStick, MouseButton, parse_gamepad_button, parse_gamepad_stick,
    parse_mouse_button, spec_parse_gamepad_button, spec_parse_gamepad_stick, spec_parse_mouse_button,
};
use crate::keys::{KeyCode, parse_key_code, spec_parse_key_code};

verus! {

/// The input device the player prefers.
#[derive(Clone, Copy, Debug, PartialEq, Eq, Structural)]
pub enum InputDevice {
    /// Use a gamepad whenever one is connected, else keyboard and mouse.
    Auto,
    KeyboardMouse,
    Gamepad,
}

/// The actual device currently in use — never `Auto`.
#[derive(Clone, Copy, Debug, PartialEq, Eq, Structural)]
pub enum ResolvedDevice {
    KeyboardMouse,
    Gamepad,
}

/// Runtime state tracking which input device is actually active.
#[derive(Clone, Copy, Debug, PartialEq, Eq, Structural)]
pub struct ActiveInputDevice {
    /// The resolved device in use right now.
    pub device: ResolvedDevice,
    /// The first connected gamepad (its entity id), if any.
    pub gamepad: Option<u64>,
}

impl Default for InputDevice {
    fn default() -> (d: Self)
        ensures
            d == InputDevice::Auto,
    {
        InputDevice::Auto
    }
}

impl Default for ResolvedDevice {
    fn default() -> (d: Self)
        ensures
            d == ResolvedDevice::KeyboardMouse,
    {
        ResolvedDevice::KeyboardMouse
    }
}

impl Default for ActiveInputDevice {
    fn default() -> (a: Self)
        ensures
            a.device == ResolvedDevice::KeyboardMouse,
            a.gamepad is None,
    {
        ActiveInputDevice { device: ResolvedDevice::KeyboardMouse, gamepad: None }
    }
}

/// Keyboard bindings: the name of the key bound to each action.
#[derive(Debug)]
pub struct KeyboardBindings {
    // Movement
    pub move_up: String,
    pub move_down: String,
    pub move_left: String,
    pub move_right: String,
    pub sprint: String,
    pub crouch: String,
    pub prone: String,
    pub jump: String,
    pub mount_ledge: String,
    // Combat
    pub fire: String,
    pub aim_down_sights: String,
    pub reload: String,
    pub primary_weapon: String,
    pub secondary_weapon: String,
    pub interact: String,
    pub lethal_equipment: String,
    pub tactical_equipment: String,
    pub melee: String,
    pub weapon_inspect: String,
    pub armor_plate: String,
    pub alternate_fire: String,
    // Killstreaks
    pub killstreak1: String,
    pub killstreak2: String,
    pub killstreak3: String,
    pub field_upgrade: String,
    // Communication
    pub text_chat: String,
    pub team_chat: String,
    pub ping: String,
    pub push_to_talk: String,
    pub gesture1: String,
    pub gesture2: String,
    pub gesture3: String,
    pub gesture4: String,
    // Misc
    pub scoreboard: String,
    pub map: String,
    pub inventory: String,
    pub pause: String,
    pub night_vision: String,
}

/// Gamepad bindings: the name of the button or stick bound to each action.
#[derive(Debug)]
pub struct GamepadBindings {
    // Movement
    pub move_stick: String,
    pub look_stick: String,
    pub sprint: String,
    pub crouch: String,
    pub jump: String,
    // Combat
    pub fire: String,
    pub aim_down_sights: String,
    pub reload: String,
    pub switch_weapon: String,
    pub lethal_equipment: String,
    pub tactical_equipment: String,
    pub melee: String,
    pub killstreak1: String,
    pub killstreak2: String,
    pub killstreak3: String,
    pub field_upgrade: String,
    // Other
    pub ping: String,
    pub armor_plate: String,
    pub night_vision: String,
    pub scoreboard: String,
    pub pause: String,
}

/// Input settings: the preferred device, the bindings, and the cursor keys.
#[derive(Debug)]
pub struct InputConfig {
    pub active_device: InputDevice,
    pub keyboard: KeyboardBindings,
    pub gamepad: GamepadBindings,
    pub cursor_grab_button: String,
    pub cursor_release_key: String,
}

impl Default for KeyboardBindings {
    fn default() -> (b: Self)
        ensures
            b.move_up@ == "KeyW"@,
            b.move_down@ == "KeyS"@,
            b.move_left@ == "KeyA"@,
            b.move_right@ == "KeyD"@,
            b.sprint@ == "ShiftLeft"@,
            b.crouch@ == "ControlLeft"@,
            b.prone@ == "KeyC"@,
            b.jump@ == "Space"@,
            b.mount_ledge@ == "Space"@,
            b.fire@ == ""@,
            b.aim_down_sights@ == ""@,
            b.reload@ == "KeyR"@,
            b.primary_weapon@ == "Digit1"@,
            b.secondary_weapon@ == "Digit2"@,
            b.interact@ == "KeyE"@,
            b.lethal_equipment@ == "KeyQ"@,
            b.tactical_equipment@ == ""@,
            b.melee@ == "KeyV"@,
            b.weapon_inspect@ == "KeyG"@,
            b.armor_plate@ == "KeyF"@,
            b.alternate_fire@ == "KeyB"@,
            b.killstreak1@ == "Digit3"@,
            b.killstreak2@ == "Digit4"@,
            b.killstreak3@ == "Digit5"@,
            b.field_upgrade@ == "KeyX"@,
            b.text_chat@ == "KeyT"@,
            b.team_chat@ == "KeyY"@,
            b.ping@ == "KeyZ"@,
            b.push_to_talk@ == "CapsLock"@,
            b.gesture1@ == "F1"@,
            b.gesture2@ == "F2"@,
            b.gesture3@ == "F3"@,
            b.gesture4@ == "F4"@,
            b.scoreboard@ == "Tab"@,
            b.map@ == "KeyM"@,
            b.inventory@ == "KeyI"@,
            b.pause@ == "Escape"@,
            b.night_vision@ == "KeyN"@,
    {
        KeyboardBindings {
            move_up: String::from_str("KeyW"),
            move_down: String::from_str("KeyS"),
            move_left: String::from_str("KeyA"),
            move_right: String::from_str("KeyD"),
            sprint: String::from_str("ShiftLeft"),
            crouch: String::from_str("ControlLeft"),
            prone: String::from_str("KeyC"),
            jump: String::from_str("Space"),
            mount_ledge: String::from_str("Space"),
            fire: String::from_str(""),
            aim_down_sights: String::from_str(""),
            reload: String::from_str("KeyR"),
            primary_weapon: String::from_str("Digit1"),
            secondary_weapon: String::from_str("Digit2"),
            interact: String::from_str("KeyE"),
            lethal_equipment: String::from_str("KeyQ"),
            tactical_equipment: String::from_str(""),
            melee: String::from_str("KeyV"),
            weapon_inspect: String::from_str("KeyG"),
            armor_plate: String::from_str("KeyF"),
            alternate_fire: String::from_str("KeyB"),
            killstreak1: String::from_str("Digit3"),
            killstreak2: String::from_str("Digit4"),
            killstreak3: String::from_str("Digit5"),
            field_upgrade: String::from_str("KeyX"),
            text_chat: String::from_str("KeyT"),
            team_chat: String::from_str("KeyY"),
            ping: String::from_str("KeyZ"),
            push_to_talk: String::from_str("CapsLock"),
            gesture1: String::from_str("F1"),
            gesture2: String::from_str("F2"),
            gesture3: String::from_str("F3"),
            gesture4: String::from_str("F4"),
            scoreboard: String::from_str("Tab"),
            map: String::from_str("KeyM"),
            inventory: String::from_str("KeyI"),
            pause: String::from_str("Escape"),
            night_vision: String::from_str("KeyN"),
        }
    }
}

impl Default for GamepadBindings {
    fn default() -> (b: Self)
        ensures
            b.move_stick@ == "LeftStick"@,
            b.look_stick@ == "RightStick"@,
            b.sprint@ == "LeftThumb"@,
            b.crouch@ == "RightThumb"@,
            b.jump@ == "South"@,
            b.fire@ == "RightTrigger"@,
            b.aim_down_sights@ == "LeftTrigger"@,
            b.reload@ == "West"@,
            b.switch_weapon@ == "North"@,
            b.lethal_equipment@ == "LeftTrigger2"@,
            b.tactical_equipment@ == "RightTrigger2"@,
            b.melee@ == "East"@,
            b.killstreak1@ == "DPadRight"@,
            b.killstreak2@ == "DPadRight"@,
            b.killstreak3@ == "DPadRight"@,
            b.field_upgrade@ == "DPadLeft"@,
            b.ping@ == "DPadLeft"@,
            b.armor_plate@ == "DPadUp"@,
            b.night_vision@ == "DPadDown"@,
            b.scoreboard@ == "Select"@,
            b.pause@ == "Start"@,
    {
        GamepadBindings {
            move_stick: String::from_str("LeftStick"),
            look_stick: String::from_str("RightStick"),
            sprint: String::from_str("LeftThumb"),
            crouch: String::from_str("RightThumb"),
            jump: String::from_str("South"),
            fire: String::from_str("RightTrigger"),
            aim_down_sights: String::from_str("LeftTrigger"),
            reload: String::from_str("West"),
            switch_weapon: String::from_str("North"),
            lethal_equipment: String::from_str("LeftTrigger2"),
            tactical_equipment: String::from_str("RightTrigger2"),
            melee: String::from_str("East"),
            killstreak1: String::from_str("DPadRight"),
            killstreak2: String::from_str("DPadRight"),
            killstreak3: String::from_str("DPadRight"),
            field_upgrade: String::from_str("DPadLeft"),
            ping: String::from_str("DPadLeft"),
            armor_plate: String::from_str("DPadUp"),
            night_vision: String::from_str("DPadDown"),
            scoreboard: String::from_str("Select"),
            pause: String::from_str("Start"),
        }
    }
}

/// The default input settings: automatic device choice, the default keyboard
/// and gamepad bindings, cursor grabbed with the left mouse button and
/// released with Escape.
pub open spec fn default_input_config_spec(c: InputConfig) -> bool {
    &&& c.active_device == InputDevice::Auto
    &&& c.cursor_grab_button@ == "Left"@
    &&& c.cursor_release_key@ == "Escape"@
    &&& c.keyboard.move_up@ == "KeyW"@
    &&& c.keyboard.move_down@ == "KeyS"@
    &&& c.keyboard.move_left@ == "KeyA"@
    &&& c.keyboard.move_right@ == "KeyD"@
    &&& c.keyboard.sprint@ == "ShiftLeft"@
    &&& c.keyboard.crouch@ == "ControlLeft"@
    &&& c.keyboard.prone@ == "KeyC"@
    &&& c.keyboard.jump@ == "Space"@
    &&& c.keyboard.mount_ledge@ == "Space"@
    &&& c.keyboard.fire@ == ""@
    &&& c.keyboard.aim_down_sights@ == ""@
    &&& c.keyboard.reload@ == "KeyR"@
    &&& c.keyboard.primary_weapon@ == "Digit1"@
    &&& c.keyboard.secondary_weapon@ == "Digit2"@
    &&& c.keyboard.interact@ == "KeyE"@
    &&& c.keyboard.lethal_equipment@ == "KeyQ"@
    &&& c.keyboard.tactical_equipment@ == ""@
    &&& c.keyboard.melee@ == "KeyV"@
    &&& c.keyboard.weapon_inspect@ == "KeyG"@
    &&& c.keyboard.armor_plate@ == "KeyF"@
    &&& c.keyboard.alternate_fire@ == "KeyB"@
    &&& c.keyboard.killstreak1@ == "Digit3"@
    &&& c.keyboard.killstreak2@ == "Digit4"@
    &&& c.keyboard.killstreak3@ == "Digit5"@
    &&& c.keyboard.field_upgrade@ == "KeyX"@
    &&& c.keyboard.text_chat@ == "KeyT"@
    &&& c.keyboard.team_chat@ == "KeyY"@
    &&& c.keyboard.ping@ == "KeyZ"@
    &&& c.keyboard.push_to_talk@ == "CapsLock"@
    &&& c.keyboard.gesture1@ == "F1"@
    &&& c.keyboard.gesture2@ == "F2"@
    &&& c.keyboard.gesture3@ == "F3"@
    &&& c.keyboard.gesture4@ == "F4"@
    &&& c.keyboard.scoreboard@ == "Tab"@
    &&& c.keyboard.map@ == "KeyM"@
    &&& c.keyboard.inventory@ == "KeyI"@
    &&& c.keyboard.pause@ == "Escape"@
    &&& c.keyboard.night_vision@ == "KeyN"@
    &&& c.gamepad.move_stick@ == "LeftStick"@
    &&& c.gamepad.look_stick@ == "RightStick"@
    &&& c.gamepad.sprint@ == "LeftThumb"@
    &&& c.gamepad.crouch@ == "RightThumb"@
    &&& c.gamepad.jump@ == "South"@
    &&& c.gamepad.fire@ == "RightTrigger"@
    &&& c.gamepad.aim_down_sights@ == "LeftTrigger"@
    &&& c.gamepad.reload@ == "West"@
    &&& c.gamepad.switch_weapon@ == "North"@
    &&& c.gamepad.lethal_equipment@ == "LeftTrigger2"@
    &&& c.gamepad.tactical_equipment@ == "RightTrigger2"@
    &&& c.gamepad.melee@ == "East"@
    &&& c.gamepad.killstreak1@ == "DPadRight"@
    &&& c.gamepad.killstreak2@ == "DPadRight"@
    &&& c.gamepad.killstreak3@ == "DPadRight"@
    &&& c.gamepad.field_upgrade@ == "DPadLeft"@
    &&& c.gamepad.ping@ == "DPadLeft"@
    &&& c.gamepad.armor_plate@ == "DPadUp"@
    &&& c.gamepad.night_vision@ == "DPadDown"@
    &&& c.gamepad.scoreboard@ == "Select"@
    &&& c.gamepad.pause@ == "Start"@
}

impl Default for InputConfig {
    fn default() -> (c: Self)
        ensures
            default_input_config_spec(c),
    {
        InputConfig {
            active_device: InputDevice::Auto,
            keyboard: KeyboardBindings::default(),
            gamepad: GamepadBindings::default(),
            cursor_grab_button: String::from_str("Left"),
            cursor_release_key: String::from_str("Escape"),
        }
    }
}

/// A single physical input an action can be bound to.
#[derive(Clone, Copy, Debug, PartialEq, Eq, Structural)]
pub enum InputBinding {
    Key(KeyCode),
    Mouse(MouseButton),
    Gamepad(GamepadButton),
}

/// A two-axis input.
#[derive(Clone, Copy, Debug, PartialEq, Eq, Structural)]
pub enum AxisBinding {
    /// Four keys forming a virtual directional pad.
    KeyPad { up: KeyCode, down: KeyCode, left: KeyCode, right: KeyCode },
    /// Relative mouse movement.
    MouseMotion,
    /// A gamepad analog stick.
    Stick(GamepadStick),
}

/// The bindings of an input map: one entry per button action, in the order
/// they are registered, plus the two dual-axis actions `Move` and `Look`.
#[derive(Debug)]
pub struct InputMapPlan {
    pub buttons: Vec<(CharacterAction, InputBinding)>,
    pub move_axis: AxisBinding,
    pub look_axis: AxisBinding,
}

/// The key a configured name denotes, or `fallback` when it names none.
pub open spec fn resolve_key_spec(name: Seq<char>, fallback: KeyCode) -> KeyCode {
    match spec_parse_key_code(name) {
        Some(k) => k,
        None => fallback,
    }
}

/// The gamepad button a configured name denotes, or `fallback`.
pub open spec fn resolve_button_spec(name: Seq<char>, fallback: GamepadButton) -> GamepadButton {
    match spec_parse_gamepad_button(name) {
        Some(b) => b,
        None => fallback,
    }
}

fn resolve_key(name: &String, fallback: KeyCode) -> (k: KeyCode)
    ensures
        k == resolve_key_spec(name@, fallback),
{
    match parse_key_code(name.as_str()) {
        Some(k) => k,
        None => fallback,
    }
}

fn resolve_button(name: &String, fallback: GamepadButton) -> (b: GamepadButton)
    ensures
        b == resolve_button_spec(name@, fallback),
{
    match parse_gamepad_button(name.as_str()) {
        Some(b) => b,
        None => fallback,
    }
}

/// The binding of a pointer action (fire, aim, tactical): the configured
/// key when the name is a key, else the configured mouse button when it
/// names one, else the `fallback` mouse button.
pub open spec fn resolve_pointer_spec(name: Seq<char>, fallback: MouseButton) -> InputBinding {
    match spec_parse_key_code(name) {
        Some(k) => InputBinding::Key(k),
        None => match spec_parse_mouse_button(name) {
            Some(b) => InputBinding::Mouse(b),
            None => InputBinding::Mouse(fallback),
        },
    }
}

/// The gamepad stick a configured name denotes, or `fallback`.
pub open spec fn resolve_stick_spec(name: Seq<char>, fallback: GamepadStick) -> GamepadStick {
    match spec_parse_gamepad_stick(name) {
        Some(st) => st,
        None => fallback,
    }
}

fn resolve_pointer(name: &String, fallback: MouseButton) -> (b: InputBinding)
    ensures
        b == resolve_pointer_spec(name@, fallback),
{
    match parse_key_code(name.as_str()) {
        Some(k) => InputBinding::Key(k),
        None => match parse_mouse_button(name.as_str()) {
            Some(m) => InputBinding::Mouse(m),
            None => InputBinding::Mouse(fallback),
        },
    }
}

fn resolve_stick(name: &String, fallback: GamepadStick) -> (st: GamepadStick)
    ensures
        st == resolve_stick_spec(name@, fallback),
{
    match parse_gamepad_stick(name.as_str()) {
        Some(st) => st,
        None => fallback,
    }
}

/// The button actions of the keyboard-and-mouse map, in registration order.
/// Every action takes its configured binding. Fire, aim-down-sights and
/// tactical equipment take a key or a mouse button, falling back to the
/// left, right and middle mouse buttons; mount-ledge falls back to the jump
/// key; every other action falls back to its default key when the
/// configured name is not a key.
pub open spec fn keyboard_buttons_spec(kb: KeyboardBindings) -> Seq<(CharacterAction, InputBinding)> {
    seq![
        (CharacterAction::Jump, InputBinding::Key(resolve_key_spec(kb.jump@, KeyCode::Space))),
        (CharacterAction::Sprint, InputBinding::Key(resolve_key_spec(kb.sprint@, KeyCode::ShiftLeft))),
        (CharacterAction::Crouch, InputBinding::Key(resolve_key_spec(kb.crouch@, KeyCode::ControlLeft))),
        (CharacterAction::Prone, InputBinding::Key(resolve_key_spec(kb.prone@, KeyCode::KeyC))),
        (CharacterAction::MountLedge, InputBinding::Key(resolve_key_spec(kb.mount_ledge@, resolve_key_spec(kb.jump@, KeyCode::Space)))),
        (CharacterAction::Fire, resolve_pointer_spec(kb.fire@, MouseButton::Left)),
        (CharacterAction::AimDownSights, resolve_pointer_spec(kb.aim_down_sights@, MouseButton::Right)),
        (CharacterAction::TacticalEquipment, resolve_pointer_spec(kb.tactical_equipment@, MouseButton::Middle)),
        (CharacterAction::Reload, InputBinding::Key(resolve_key_spec(kb.reload@, KeyCode::KeyR))),
        (CharacterAction::PrimaryWeapon, InputBinding::Key(resolve_key_spec(kb.primary_weapon@, KeyCode::Digit1))),
        (CharacterAction::SecondaryWeapon, InputBinding::Key(resolve_key_spec(kb.secondary_weapon@, KeyCode::Digit2))),
        (CharacterAction::Interact, InputBinding::Key(resolve_key_spec(kb.interact@, KeyCode::KeyE))),
        (CharacterAction::LethalEquipment, InputBinding::Key(resolve_key_spec(kb.lethal_equipment@, KeyCode::KeyQ))),
        (CharacterAction::Melee, InputBinding::Key(resolve_key_spec(kb.melee@, KeyCode::KeyV))),
        (CharacterAction::WeaponInspect, InputBinding::Key(resolve_key_spec(kb.weapon_inspect@, KeyCode::KeyG))),
        (CharacterAction::ArmorPlate, InputBinding::Key(resolve_key_spec(kb.armor_plate@, KeyCode::KeyF))),
        (CharacterAction::AlternateFire, InputBinding::Key(resolve_key_spec(kb.alternate_fire@, KeyCode::KeyB))),
        (CharacterAction::Killstreak1, InputBinding::Key(resolve_key_spec(kb.killstreak1@, KeyCode::Digit3))),
        (CharacterAction::Killstreak2, InputBinding::Key(resolve_key_spec(kb.killstreak2@, KeyCode::Digit4))),
        (CharacterAction::Killstreak3, InputBinding::Key(resolve_key_spec(kb.killstreak3@, KeyCode::Digit5))),
        (CharacterAction::FieldUpgrade, InputBinding::Key(resolve_key_spec(kb.field_upgrade@, KeyCode::KeyX))),
        (CharacterAction::Ping, InputBinding::Key(resolve_key_spec(kb.ping@, KeyCode::KeyZ))),
        (CharacterAction::PushToTalk, InputBinding::Key(resolve_key_spec(kb.push_to_talk@, KeyCode::CapsLock))),
        (CharacterAction::TextChat, InputBinding::Key(resolve_key_spec(kb.text_chat@, KeyCode::KeyT))),
        (CharacterAction::TeamChat, InputBinding::Key(resolve_key_spec(kb.team_chat@, KeyCode::KeyY))),
        (CharacterAction::Gesture1, InputBinding::Key(resolve_key_spec(kb.gesture1@, KeyCode::F1))),
        (CharacterAction::Gesture2, InputBinding::Key(resolve_key_spec(kb.gesture2@, KeyCode::F2))),
        (CharacterAction::Gesture3, InputBinding::Key(resolve_key_spec(kb.gesture3@, KeyCode::F3))),
        (CharacterAction::Gesture4, InputBinding::Key(resolve_key_spec(kb.gesture4@, KeyCode::F4))),
        (CharacterAction::Scoreboard, InputBinding::Key(resolve_key_spec(kb.scoreboard@, KeyCode::Tab))),
        (CharacterAction::WorldMap, InputBinding::Key(resolve_key_spec(kb.map@, KeyCode::KeyM))),
        (CharacterAction::Inventory, InputBinding::Key(resolve_key_spec(kb.inventory@, KeyCode::KeyI))),
        (CharacterAction::Pause, InputBinding::Key(resolve_key_spec(kb.pause@, KeyCode::Escape))),
        (CharacterAction::NightVision, InputBinding::Key(resolve_key_spec(kb.night_vision@, KeyCode::KeyN))),
    ]
}

/// The virtual directional pad for `Move` from the configured movement keys.
pub open spec fn keyboard_move_spec(kb: KeyboardBindings) -> AxisBinding {
    AxisBinding::KeyPad {
        up: resolve_key_spec(kb.move_up@, KeyCode::KeyW),
        down: resolve_key_spec(kb.move_down@, KeyCode::KeyS),
        left: resolve_key_spec(kb.move_left@, KeyCode::KeyA),
        right: resolve_key_spec(kb.move_right@, KeyCode::KeyD),
    }
}

/// The button actions of the gamepad map, in registration order; each takes
/// the configured button, or its default button when the name is not one.
pub open spec fn gamepad_buttons_spec(gp: GamepadBindings) -> Seq<(CharacterAction, InputBinding)> {
    seq![
        (CharacterAction::Jump, InputBinding::Gamepad(resolve_button_spec(gp.jump@, GamepadButton::South))),
        (CharacterAction::Sprint, InputBinding::Gamepad(resolve_button_spec(gp.sprint@, GamepadButton::LeftThumb))),
        (CharacterAction::Crouch, InputBinding::Gamepad(resolve_button_spec(gp.crouch@, GamepadButton::RightThumb))),
        (CharacterAction::MountLedge, InputBinding::Gamepad(resolve_button_spec(gp.jump@, GamepadButton::South))),
        (CharacterAction::Fire, InputBinding::Gamepad(resolve_button_spec(gp.fire@, GamepadButton::RightTrigger))),
        (CharacterAction::AimDownSights, InputBinding::Gamepad(resolve_button_spec(gp.aim_down_sights@, GamepadButton::LeftTrigger))),
        (CharacterAction::Reload, InputBinding::Gamepad(resolve_button_spec(gp.reload@, GamepadButton::West))),
        (CharacterAction::Melee, InputBinding::Gamepad(resolve_button_spec(gp.melee@, GamepadButton::East))),
        (CharacterAction::LethalEquipment, InputBinding::Gamepad(resolve_button_spec(gp.lethal_equipment@, GamepadButton::LeftTrigger2))),
        (CharacterAction::TacticalEquipment, InputBinding::Gamepad(resolve_button_spec(gp.tactical_equipment@, GamepadButton::RightTrigger2))),
        (CharacterAction::Killstreak1, InputBinding::Gamepad(resolve_button_spec(gp.killstreak1@, GamepadButton::DPadRight))),
        (CharacterAction::Killstreak2, InputBinding::Gamepad(resolve_button_spec(gp.killstreak2@, GamepadButton::DPadRight))),
        (CharacterAction::Killstreak3, InputBinding::Gamepad(resolve_button_spec(gp.killstreak3@, GamepadButton::DPadRight))),
        (CharacterAction::FieldUpgrade, InputBinding::Gamepad(resolve_button_spec(gp.field_upgrade@, GamepadButton::DPadLeft))),
        (CharacterAction::Ping, InputBinding::Gamepad(resolve_button_spec(gp.ping@, GamepadButton::DPadLeft))),
        (CharacterAction::ArmorPlate, InputBinding::Gamepad(resolve_button_spec(gp.armor_plate@, GamepadButton::DPadUp))),
        (CharacterAction::NightVision, InputBinding::Gamepad(resolve_button_spec(gp.night_vision@, GamepadButton::DPadDown))),
        (CharacterAction::Scoreboard, InputBinding::Gamepad(resolve_button_spec(gp.scoreboard@, GamepadButton::Select))),
        (CharacterAction::Pause, InputBinding::Gamepad(resolve_button_spec(gp.pause@, GamepadButton::Start))),
    ]
}

/// Build the keyboard-and-mouse input map from the configured bindings.
pub fn build_keyboard_input_map(kb: &KeyboardBindings) -> (m: InputMapPlan)
    ensures
        m.buttons@ == keyboard_buttons_spec(*kb),
        m.move_axis == keyboard_move_spec(*kb),
        m.look_axis == AxisBinding::MouseMotion,
{
    let jump = resolve_key(&kb.jump, KeyCode::Space);
    let sprint = resolve_key(&kb.sprint, KeyCode::ShiftLeft);
    let crouch = resolve_key(&kb.crouch, KeyCode::ControlLeft);
    let prone = resolve_key(&kb.prone, KeyCode::KeyC);
    let mount_ledge = resolve_key(&kb.mount_ledge, jump);
    let fire = resolve_pointer(&kb.fire, MouseButton::Left);
    let aim_down_sights = resolve_pointer(&kb.aim_down_sights, MouseButton::Right);
    let tactical_equipment = resolve_pointer(&kb.tactical_equipment, MouseButton::Middle);
    let reload = resolve_key(&kb.reload, KeyCode::KeyR);
    let primary_weapon = resolve_key(&kb.primary_weapon, KeyCode::Digit1);
    let secondary_weapon = resolve_key(&kb.secondary_weapon, KeyCode::Digit2);
    let interact = resolve_key(&kb.interact, KeyCode::KeyE);
    let lethal_equipment = resolve_key(&kb.lethal_equipment, KeyCode::KeyQ);
    let melee = resolve_key(&kb.melee, KeyCode::KeyV);
    let weapon_inspect = resolve_key(&kb.weapon_inspect, KeyCode::KeyG);
    let armor_plate = resolve_key(&kb.armor_plate, KeyCode::KeyF);
    let alternate_fire = resolve_key(&kb.alternate_fire, KeyCode::KeyB);
    let killstreak1 = resolve_key(&kb.killstreak1, KeyCode::Digit3);
    let killstreak2 = resolve_key(&kb.killstreak2, KeyCode::Digit4);
    let killstreak3 = resolve_key(&kb.killstreak3, KeyCode::Digit5);
    let field_upgrade = resolve_key(&kb.field_upgrade, KeyCode::KeyX);
    let ping = resolve_key(&kb.ping, KeyCode::KeyZ);
    let push_to_talk = resolve_key(&kb.push_to_talk, KeyCode::CapsLock);
    let text_chat = resolve_key(&kb.text_chat, KeyCode::KeyT);
    let team_chat = resolve_key(&kb.team_chat, KeyCode::KeyY);
    let gesture1 = resolve_key(&kb.gesture1, KeyCode::F1);
    let gesture2 = resolve_key(&kb.gesture2, KeyCode::F2);
    let gesture3 = resolve_key(&kb.gesture3, KeyCode::F3);
    let gesture4 = resolve_key(&kb.gesture4, KeyCode::F4);
    let scoreboard = resolve_key(&kb.scoreboard, KeyCode::Tab);
    let map = resolve_key(&kb.map, KeyCode::KeyM);
    let inventory = resolve_key(&kb.inventory, KeyCode::KeyI);
    let pause = resolve_key(&kb.pause, KeyCode::Escape);
    let night_vision = resolve_key(&kb.night_vision, KeyCode::KeyN);
    let move_up = resolve_key(&kb.move_up, KeyCode::KeyW);
    let move_down = resolve_key(&kb.move_down, KeyCode::KeyS);
    let move_left = resolve_key(&kb.move_left, KeyCode::KeyA);
    let move_right = resolve_key(&kb.move_right, KeyCode::KeyD);
    let mut buttons: Vec<(CharacterAction, InputBinding)> = Vec::new();
    buttons.push((CharacterAction::Jump, InputBinding::Key(jump)));
    buttons.push((CharacterAction::Sprint, InputBinding::Key(sprint)));
    buttons.push((CharacterAction::Crouch, InputBinding::Key(crouch)));
    buttons.push((CharacterAction::Prone, InputBinding::Key(prone)));
    buttons.push((CharacterAction::MountLedge, InputBinding::Key(mount_ledge)));
    buttons.push((CharacterAction::Fire, fire));
    buttons.push((CharacterAction::AimDownSights, aim_down_sights));
    buttons.push((CharacterAction::TacticalEquipment, tactical_equipment));
    buttons.push((CharacterAction::Reload, InputBinding::Key(reload)));
    buttons.push((CharacterAction::PrimaryWeapon, InputBinding::Key(primary_weapon)));
    buttons.push((CharacterAction::SecondaryWeapon, InputBinding::Key(secondary_weapon)));
    buttons.push((CharacterAction::Interact, InputBinding::Key(interact)));
    buttons.push((CharacterAction::LethalEquipment, InputBinding::Key(lethal_equipment)));
    buttons.push((CharacterAction::Melee, InputBinding::Key(melee)));
    buttons.push((CharacterAction::WeaponInspect, InputBinding::Key(weapon_inspect)));
    buttons.push((CharacterAction::ArmorPlate, InputBinding::Key(armor_plate)));
    buttons.push((CharacterAction::AlternateFire, InputBinding::Key(alternate_fire)));
    buttons.push((CharacterAction::Killstreak1, InputBinding::Key(killstreak1)));
    buttons.push((CharacterAction::Killstreak2, InputBinding::Key(killstreak2)));
    buttons.push((CharacterAction::Killstreak3, InputBinding::Key(killstreak3)));
    buttons.push((CharacterAction::FieldUpgrade, InputBinding::Key(field_upgrade)));
    buttons.push((CharacterAction::Ping, InputBinding::Key(ping)));
    buttons.push((CharacterAction::PushToTalk, InputBinding::Key(push_to_talk)));
    buttons.push((CharacterAction::TextChat, InputBinding::Key(text_chat)));
    buttons.push((CharacterAction::TeamChat, InputBinding::Key(team_chat)));
    buttons.push((CharacterAction::Gesture1, InputBinding::Key(gesture1)));
    buttons.push((CharacterAction::Gesture2, InputBinding::Key(gesture2)));
    buttons.push((CharacterAction::Gesture3, InputBinding::Key(gesture3)));
    buttons.push((CharacterAction::Gesture4, InputBinding::Key(gesture4)));
    buttons.push((CharacterAction::Scoreboard, InputBinding::Key(scoreboard)));
    buttons.push((CharacterAction::WorldMap, InputBinding::Key(map)));
    buttons.push((CharacterAction::Inventory, InputBinding::Key(inventory)));
    buttons.push((CharacterAction::Pause, InputBinding::Key(pause)));
    buttons.push((CharacterAction::NightVision, InputBinding::Key(night_vision)));
    assert(buttons@ =~= keyboard_buttons_spec(*kb));
    InputMapPlan {
        buttons,
        move_axis: AxisBinding::KeyPad { up: move_up, down: move_down, left: move_left, right: move_right },
        look_axis: AxisBinding::MouseMotion,
    }
}

/// Build the gamepad input map from the configured bindings: `Move` and
/// `Look` take the configured sticks (left and right when a name is not a
/// stick). `switch_weapon` names no action of the character, so it binds
/// nothing.
pub fn build_gamepad_input_map(gp: &GamepadBindings) -> (m: InputMapPlan)
    ensures
        m.buttons@ == gamepad_buttons_spec(*gp),
        m.move_axis == AxisBinding::Stick(resolve_stick_spec(gp.move_stick@, GamepadStick::Left)),
        m.look_axis == AxisBinding::Stick(resolve_stick_spec(gp.look_stick@, GamepadStick::Right)),
{
    let jump = resolve_button(&gp.jump, GamepadButton::South);
    let sprint = resolve_button(&gp.sprint, GamepadButton::LeftThumb);
    let crouch = resolve_button(&gp.crouch, GamepadButton::RightThumb);
    let fire = resolve_button(&gp.fire, GamepadButton::RightTrigger);
    let aim_down_sights = resolve_button(&gp.aim_down_sights, GamepadButton::LeftTrigger);
    let reload = resolve_button(&gp.reload, GamepadButton::West);
    let melee = resolve_button(&gp.melee, GamepadButton::East);
    let lethal_equipment = resolve_button(&gp.lethal_equipment, GamepadButton::LeftTrigger2);
    let tactical_equipment = resolve_button(&gp.tactical_equipment, GamepadButton::RightTrigger2);
    let killstreak1 = resolve_button(&gp.killstreak1, GamepadButton::DPadRight);
    let killstreak2 = resolve_button(&gp.killstreak2, GamepadButton::DPadRight);
    let killstreak3 = resolve_button(&gp.killstreak3, GamepadButton::DPadRight);
    let field_upgrade = resolve_button(&gp.field_upgrade, GamepadButton::DPadLeft);
    let ping = resolve_button(&gp.ping, GamepadButton::DPadLeft);
    let armor_plate = resolve_button(&gp.armor_plate, GamepadButton::DPadUp);
    let night_vision = resolve_button(&gp.night_vision, GamepadButton::DPadDown);
    let scoreboard = resolve_button(&gp.scoreboard, GamepadButton::Select);
    let pause = resolve_button(&gp.pause, GamepadButton::Start);
    let move_stick = resolve_stick(&gp.move_stick, GamepadStick::Left);
    let look_stick = resolve_stick(&gp.look_stick, GamepadStick::Right);
    let mut buttons: Vec<(CharacterAction, InputBinding)> = Vec::new();
    buttons.push((CharacterAction::Jump, InputBinding::Gamepad(jump)));
    buttons.push((CharacterAction::Sprint, InputBinding::Gamepad(sprint)));
    buttons.push((CharacterAction::Crouch, InputBinding::Gamepad(crouch)));
    buttons.push((CharacterAction::MountLedge, InputBinding::Gamepad(jump)));
    buttons.push((CharacterAction::Fire, InputBinding::Gamepad(fire)));
    buttons.push((CharacterAction::AimDownSights, InputBinding::Gamepad(aim_down_sights)));
    buttons.push((CharacterAction::Reload, InputBinding::Gamepad(reload)));
    buttons.push((CharacterAction::Melee, InputBinding::Gamepad(melee)));
    buttons.push((CharacterAction::LethalEquipment, InputBinding::Gamepad(lethal_equipment)));
    buttons.push((CharacterAction::TacticalEquipment, InputBinding::Gamepad(tactical_equipment)));
    buttons.push((CharacterAction::Killstreak1, InputBinding::Gamepad(killstreak1)));
    buttons.push((CharacterAction::Killstreak2, InputBinding::Gamepad(killstreak2)));
    buttons.push((CharacterAction::Killstreak3, InputBinding::Gamepad(killstreak3)));
    buttons.push((CharacterAction::FieldUpgrade, InputBinding::Gamepad(field_upgrade)));
    buttons.push((CharacterAction::Ping, InputBinding::Gamepad(ping)));
    buttons.push((CharacterAction::ArmorPlate, InputBinding::Gamepad(armor_plate)));
    buttons.push((CharacterAction::NightVision, InputBinding::Gamepad(night_vision)));
    buttons.push((CharacterAction::Scoreboard, InputBinding::Gamepad(scoreboard)));
    buttons.push((CharacterAction::Pause, InputBinding::Gamepad(pause)));
    assert(buttons@ =~= gamepad_buttons_spec(*gp));
    InputMapPlan { buttons, move_axis: AxisBinding::Stick(move_stick), look_axis: AxisBinding::Stick(look_stick) }
}

/// The device a preference resolves to, given whether a gamepad is connected.
pub open spec fn resolve_device_spec(preference: InputDevice, gamepad_connected: bool) -> ResolvedDevice {
    match preference {
        InputDevice::KeyboardMouse => ResolvedDevice::KeyboardMouse,
        _ => if gamepad_connected {
            ResolvedDevice::Gamepad
        } else {
            ResolvedDevice::KeyboardMouse
        },
    }
}

/// Re-evaluate the active device after a gamepad connected or disconnected,
/// from the preference and the first connected gamepad.
pub fn detect_input_device(preference: InputDevice, first_gamepad: Option<u64>) -> (a: ActiveInputDevice)
    ensures
        a.device == resolve_device_spec(preference, first_gamepad is Some),
        a.gamepad == first_gamepad,
{
    let device = match preference {
        InputDevice::KeyboardMouse => ResolvedDevice::KeyboardMouse,
        InputDevice::Gamepad | InputDevice::Auto => {
            if first_gamepad.is_some() {
                ResolvedDevice::Gamepad
            } else {
                ResolvedDevice::KeyboardMouse
            }
        },
    };
    ActiveInputDevice { device, gamepad: first_gamepad }
}

/// One frame of device detection: when gamepad connection events are
/// pending they are consumed and the active device is re-evaluated from the
/// preference and the first connected gamepad; with no event pending the
/// active device stays as it is.
pub fn input_device_step(
    active: ActiveInputDevice,
    events_pending: bool,
    preference: InputDevice,
    first_gamepad: Option<u64>,
) -> (a: ActiveInputDevice)
    ensures
        !events_pending ==> a == active,
        events_pending ==> a == (ActiveInputDevice {
            device: resolve_device_spec(preference, first_gamepad is Some),
            gamepad: first_gamepad,
        }),
{
    if !events_pending {
        return active;
    }
    detect_input_device(preference, first_gamepad)
}

/// The input maps are rebuilt on the first run, when the active device
/// changed since the last rebuild, or when the client configuration changed.
pub open spec fn needs_rebuild_spec(last: Option<ResolvedDevice>, current: ResolvedDevice, config_changed: bool) -> bool {
    last != Some(current) || config_changed
}

/// Whether the character input maps must be rebuilt.
pub fn input_map_needs_rebuild(
    last: Option<ResolvedDevice>,
    current: ResolvedDevice,
    config_changed: bool,
) -> (r: bool)
    ensures
        r == needs_rebuild_spec(last, current, config_changed),
{
    let changed = match last {
        None => true,
        Some(prev) => prev != current,
    };
    changed || config_changed
}

/// The input map for the active device: the keyboard map for keyboard and
/// mouse, the gamepad map for a gamepad.
pub fn input_map_for_device(device: ResolvedDevice, config: &InputConfig) -> (m: InputMapPlan)
    ensures
        device == ResolvedDevice::KeyboardMouse ==> {
            &&& m.buttons@ == keyboard_buttons_spec(config.keyboard)
            &&& m.move_axis == keyboard_move_spec(config.keyboard)
            &&& m.look_axis == AxisBinding::MouseMotion
        },
        device == ResolvedDevice::Gamepad ==> {
            &&& m.buttons@ == gamepad_buttons_spec(config.gamepad)
            &&& m.move_axis == AxisBinding::Stick(resolve_stick_spec(config.gamepad.move_stick@, GamepadStick::Left))
            &&& m.look_axis == AxisBinding::Stick(resolve_stick_spec(config.gamepad.look_stick@, GamepadStick::Right))
        },
{
    match device {
        ResolvedDevice::KeyboardMouse => build_keyboard_input_map(&config.keyboard),
        ResolvedDevice::Gamepad => build_gamepad_input_map(&config.gamepad),
    }
}

/// Device resolution: a keyboard-and-mouse preference always resolves to
/// keyboard and mouse; any other preference resolves to the gamepad exactly
/// when one is connected. Once rebuilt for a device, the input map is not
/// rebuilt again until the device or the configuration changes.
pub proof fn lemma_device_resolution(preference: InputDevice, gamepad_connected: bool, device: ResolvedDevice)
    ensures
        preference == InputDevice::KeyboardMouse ==> resolve_device_spec(preference, gamepad_connected)
            == ResolvedDevice::KeyboardMouse,
        preference != InputDevice::KeyboardMouse ==> (resolve_device_spec(preference, gamepad_connected)
            == ResolvedDevice::Gamepad <==> gamepad_connected),
        !gamepad_connected ==> resolve_device_spec(preference, gamepad_connected)
            == ResolvedDevice::KeyboardMouse,
        !needs_rebuild_spec(Some(device), device, false),
        needs_rebuild_spec(None, device, false),
{
}

/// The position of an action in the keyboard-and-mouse button list; the
/// dual-axis actions have none.
pub open spec fn keyboard_slot(a: CharacterAction) -> int {
    match a {
        CharacterAction::Move => -1,
        CharacterAction::Look => -1,
        CharacterAction::Jump => 0,
        CharacterAction::Sprint => 1,
        CharacterAction::Crouch => 2,
        CharacterAction::Prone => 3,
        CharacterAction::MountLedge => 4,
        CharacterAction::Fire => 5,
        CharacterAction::AimDownSights => 6,
        CharacterAction::TacticalEquipment => 7,
        CharacterAction::Reload => 8,
        CharacterAction::PrimaryWeapon => 9,
        CharacterAction::SecondaryWeapon => 10,
        CharacterAction::Interact => 11,
        CharacterAction::LethalEquipment => 12,
        CharacterAction::Melee => 13,
        CharacterAction::WeaponInspect => 14,
        CharacterAction::ArmorPlate => 15,
        CharacterAction::AlternateFire => 16,
        CharacterAction::Killstreak1 => 17,
        CharacterAction::Killstreak2 => 18,
        CharacterAction::Killstreak3 => 19,
        CharacterAction::FieldUpgrade => 20,
        CharacterAction::Ping => 21,
        CharacterAction::PushToTalk => 22,
        CharacterAction::TextChat => 23,
        CharacterAction::TeamChat => 24,
        CharacterAction::Gesture1 => 25,
        CharacterAction::Gesture2 => 26,
        CharacterAction::Gesture3 => 27,
        CharacterAction::Gesture4 => 28,
        CharacterAction::Scoreboard => 29,
        CharacterAction::WorldMap => 30,
        CharacterAction::Inventory => 31,
        CharacterAction::Pause => 32,
        CharacterAction::NightVision => 33,
    }
}

/// With keyboard and mouse every button action is bound, and bound once:
/// the button list holds each action other than `Move` and `Look` exactly
/// at one position.
pub proof fn lemma_keyboard_map_complete(kb: KeyboardBindings)
    ensures
        keyboard_buttons_spec(kb).len() == 34,
        forall|a: CharacterAction|
            a != CharacterAction::Move && a != CharacterAction::Look ==> 0 <= #[trigger] keyboard_slot(a)
                < 34 && keyboard_buttons_spec(kb)[keyboard_slot(a)].0 == a,
        forall|i: int, j: int|
            0 <= i < j < 34 ==> #[trigger] keyboard_buttons_spec(kb)[i].0
                != #[trigger] keyboard_buttons_spec(kb)[j].0,
{
    let b = keyboard_buttons_spec(kb);
    assert forall|i: int| 0 <= i < 34 implies keyboard_slot(#[trigger] b[i].0) == i by {}
    assert forall|a: CharacterAction|
        a != CharacterAction::Move && a != CharacterAction::Look implies 0 <= #[trigger] keyboard_slot(a)
        < 34 && b[keyboard_slot(a)].0 == a by {
        match a {
            CharacterAction::Jump => assert(b[0].0 == a),
            CharacterAction::Sprint => assert(b[1].0 == a),
            CharacterAction::Crouch => assert(b[2].0 == a),
            CharacterAction::Prone => assert(b[3].0 == a),
            CharacterAction::MountLedge => assert(b[4].0 == a),
            CharacterAction::Fire => assert(b[5].0 == a),
            CharacterAction::AimDownSights => assert(b[6].0 == a),
            CharacterAction::TacticalEquipment => assert(b[7].0 == a),
            CharacterAction::Reload => assert(b[8].0 == a),
            CharacterAction::PrimaryWeapon => assert(b[9].0 == a),
            CharacterAction::SecondaryWeapon => assert(b[10].0 == a),
            CharacterAction::Interact => assert(b[11].0 == a),
            CharacterAction::LethalEquipment => assert(b[12].0 == a),
            CharacterAction::Melee => assert(b[13].0 == a),
            CharacterAction::WeaponInspect => assert(b[14].0 == a),
            CharacterAction::ArmorPlate => assert(b[15].0 == a),
            CharacterAction::AlternateFire => assert(b[16].0 == a),
            CharacterAction::Killstreak1 => assert(b[17].0 == a),
            CharacterAction::Killstreak2 => assert(b[18].0 == a),
            CharacterAction::Killstreak3 => assert(b[19].0 == a),
            CharacterAction::FieldUpgrade => assert(b[20].0 == a),
            CharacterAction::Ping => assert(b[21].0 == a),
            CharacterAction::PushToTalk => assert(b[22].0 == a),
            CharacterAction::TextChat => assert(b[23].0 == a),
            CharacterAction::TeamChat => assert(b[24].0 == a),
            CharacterAction::Gesture1 => assert(b[25].0 == a),
            CharacterAction::Gesture2 => assert(b[26].0 == a),
            CharacterAction::Gesture3 => assert(b[27].0 == a),
            CharacterAction::Gesture4 => assert(b[28].0 == a),
            CharacterAction::Scoreboard => assert(b[29].0 == a),
            CharacterAction::WorldMap => assert(b[30].0 == a),
            CharacterAction::Inventory => assert(b[31].0 == a),
            CharacterAction::Pause => assert(b[32].0 == a),
            CharacterAction::NightVision => assert(b[33].0 == a),
            _ => {},
        }
    }
    assert forall|i: int, j: int| 0 <= i < j < 34 implies #[trigger] b[i].0 != #[trigger] b[j].0 by {
        assert(keyboard_slot(b[i].0) == i);
        assert(keyboard_slot(b[j].0) == j);
    }
}

/// Action `a` occurs in the button list and every entry for it carries
/// binding `b`.
pub open spec fn bound_to(s: Seq<(CharacterAction, InputBinding)>, a: CharacterAction, b: InputBinding) -> bool {
    &&& exists|i: int| 0 <= i < s.len() && (#[trigger] s[i]).0 == a
    &&& forall|i: int| 0 <= i < s.len() && (#[trigger] s[i]).0 == a ==> s[i].1 == b
}

proof fn lemma_bound_at(s: Seq<(CharacterAction, InputBinding)>, k: int, a: CharacterAction, b: InputBinding)
    requires
        0 <= k < s.len(),
        s[k] == (a, b),
        forall|i: int, j: int| 0 <= i < j < s.len() ==> #[trigger] s[i].0 != #[trigger] s[j].0,
    ensures
        bound_to(s, a, b),
{
    assert forall|i: int| 0 <= i < s.len() && (#[trigger] s[i]).0 == a implies s[i].1 == b by {
        if i < k {
            assert(s[i].0 != s[k].0);
        } else if k < i {
            assert(s[k].0 != s[i].0);
        }
    }
}

/// A configured key name binds its key, and a name that is no key binds
/// the fallback.
pub proof fn lemma_resolve_key(name: Seq<char>, fallback: KeyCode)
    ensures
        spec_parse_key_code(name) is Some ==> resolve_key_spec(name, fallback) == spec_parse_key_code(
            name,
        )->0,
        spec_parse_key_code(name) is None ==> resolve_key_spec(name, fallback) == fallback,
{
}

/// A configured button name binds its button, and a name that is no button
/// binds the fallback.
pub proof fn lemma_resolve_button(name: Seq<char>, fallback: GamepadButton)
    ensures
        spec_parse_gamepad_button(name) is Some ==> resolve_button_spec(name, fallback)
            == spec_parse_gamepad_button(name)->0,
        spec_parse_gamepad_button(name) is None ==> resolve_button_spec(name, fallback) == fallback,
{
}

/// A configured stick name binds its stick, and a name that is no stick
/// binds the fallback.
pub proof fn lemma_resolve_stick(name: Seq<char>, fallback: GamepadStick)
    ensures
        spec_parse_gamepad_stick(name) is Some ==> resolve_stick_spec(name, fallback)
            == spec_parse_gamepad_stick(name)->0,
        spec_parse_gamepad_stick(name) is None ==> resolve_stick_spec(name, fallback) == fallback,
{
}

/// A pointer action binds the configured key when the name is a key, else
/// the configured mouse button when it names one, else the fallback button.
pub proof fn lemma_resolve_pointer(name: Seq<char>, fallback: MouseButton)
    ensures
        spec_parse_key_code(name) is Some ==> resolve_pointer_spec(name, fallback) == InputBinding::Key(
            spec_parse_key_code(name)->0,
        ),
        spec_parse_key_code(name) is None && spec_parse_mouse_button(name) is Some
            ==> resolve_pointer_spec(name, fallback) == InputBinding::Mouse(
            spec_parse_mouse_button(name)->0,
        ),
        spec_parse_key_code(name) is None && spec_parse_mouse_button(name) is None
            ==> resolve_pointer_spec(name, fallback) == InputBinding::Mouse(fallback),
{
}

/// Each keyboard-and-mouse action is bound by its own configuration entry:
/// its binding depends on that entry alone (mount-ledge falls back to the
/// jump entry), with the default key or mouse button when the entry names
/// nothing; movement takes the four movement keys.
pub proof fn lemma_keyboard_bindings_follow_config(kb: KeyboardBindings)
    ensures
        bound_to(keyboard_buttons_spec(kb), CharacterAction::Jump, InputBinding::Key(resolve_key_spec(kb.jump@, KeyCode::Space))),
        bound_to(keyboard_buttons_spec(kb), CharacterAction::Sprint, InputBinding::Key(resolve_key_spec(kb.sprint@, KeyCode::ShiftLeft))),
        bound_to(keyboard_buttons_spec(kb), CharacterAction::Crouch, InputBinding::Key(resolve_key_spec(kb.crouch@, KeyCode::ControlLeft))),
        bound_to(keyboard_buttons_spec(kb), CharacterAction::Prone, InputBinding::Key(resolve_key_spec(kb.prone@, KeyCode::KeyC))),
        bound_to(keyboard_buttons_spec(kb), CharacterAction::MountLedge, InputBinding::Key(resolve_key_spec(kb.mount_ledge@, resolve_key_spec(kb.jump@, KeyCode::Space)))),
        bound_to(keyboard_buttons_spec(kb), CharacterAction::Fire, resolve_pointer_spec(kb.fire@, MouseButton::Left)),
        bound_to(keyboard_buttons_spec(kb), CharacterAction::AimDownSights, resolve_pointer_spec(kb.aim_down_sights@, MouseButton::Right)),
        bound_to(keyboard_buttons_spec(kb), CharacterAction::TacticalEquipment, resolve_pointer_spec(kb.tactical_equipment@, MouseButton::Middle)),
        bound_to(keyboard_buttons_spec(kb), CharacterAction::Reload, InputBinding::Key(resolve_key_spec(kb.reload@, KeyCode::KeyR))),
        bound_to(keyboard_buttons_spec(kb), CharacterAction::PrimaryWeapon, InputBinding::Key(resolve_key_spec(kb.primary_weapon@, KeyCode::Digit1))),
        bound_to(keyboard_buttons_spec(kb), CharacterAction::SecondaryWeapon, InputBinding::Key(resolve_key_spec(kb.secondary_weapon@, KeyCode::Digit2))),
        bound_to(keyboard_buttons_spec(kb), CharacterAction::Interact, InputBinding::Key(resolve_key_spec(kb.interact@, KeyCode::KeyE))),
        bound_to(keyboard_buttons_spec(kb), CharacterAction::LethalEquipment, InputBinding::Key(resolve_key_spec(kb.lethal_equipment@, KeyCode::KeyQ))),
        bound_to(keyboard_buttons_spec(kb), CharacterAction::Melee, InputBinding::Key(resolve_key_spec(kb.melee@, KeyCode::KeyV))),
        bound_to(keyboard_buttons_spec(kb), CharacterAction::WeaponInspect, InputBinding::Key(resolve_key_spec(kb.weapon_inspect@, KeyCode::KeyG))),
        bound_to(keyboard_buttons_spec(kb), CharacterAction::ArmorPlate, InputBinding::Key(resolve_key_spec(kb.armor_plate@, KeyCode::KeyF))),
        bound_to(keyboard_buttons_spec(kb), CharacterAction::AlternateFire, InputBinding::Key(resolve_key_spec(kb.alternate_fire@, KeyCode::KeyB))),
        bound_to(keyboard_buttons_spec(kb), CharacterAction::Killstreak1, InputBinding::Key(resolve_key_spec(kb.killstreak1@, KeyCode::Digit3))),
        bound_to(keyboard_buttons_spec(kb), CharacterAction::Killstreak2, InputBinding::Key(resolve_key_spec(kb.killstreak2@, KeyCode::Digit4))),
        bound_to(keyboard_buttons_spec(kb), CharacterAction::Killstreak3, InputBinding::Key(resolve_key_spec(kb.killstreak3@, KeyCode::Digit5))),
        bound_to(keyboard_buttons_spec(kb), CharacterAction::FieldUpgrade, InputBinding::Key(resolve_key_spec(kb.field_upgrade@, KeyCode::KeyX))),
        bound_to(keyboard_buttons_spec(kb), CharacterAction::Ping, InputBinding::Key(resolve_key_spec(kb.ping@, KeyCode::KeyZ))),
        bound_to(keyboard_buttons_spec(kb), CharacterAction::PushToTalk, InputBinding::Key(resolve_key_spec(kb.push_to_talk@, KeyCode::CapsLock))),
        bound_to(keyboard_buttons_spec(kb), CharacterAction::TextChat, InputBinding::Key(resolve_key_spec(kb.text_chat@, KeyCode::KeyT))),
        bound_to(keyboard_buttons_spec(kb), CharacterAction::TeamChat, InputBinding::Key(resolve_key_spec(kb.team_chat@, KeyCode::KeyY))),
        bound_to(keyboard_buttons_spec(kb), CharacterAction::Gesture1, InputBinding::Key(resolve_key_spec(kb.gesture1@, KeyCode::F1))),
        bound_to(keyboard_buttons_spec(kb), CharacterAction::Gesture2, InputBinding::Key(resolve_key_spec(kb.gesture2@, KeyCode::F2))),
        bound_to(keyboard_buttons_spec(kb), CharacterAction::Gesture3, InputBinding::Key(resolve_key_spec(kb.gesture3@, KeyCode::F3))),
        bound_to(keyboard_buttons_spec(kb), CharacterAction::Gesture4, InputBinding::Key(resolve_key_spec(kb.gesture4@, KeyCode::F4))),
        bound_to(keyboard_buttons_spec(kb), CharacterAction::Scoreboard, InputBinding::Key(resolve_key_spec(kb.scoreboard@, KeyCode::Tab))),
        bound_to(keyboard_buttons_spec(kb), CharacterAction::WorldMap, InputBinding::Key(resolve_key_spec(kb.map@, KeyCode::KeyM))),
        bound_to(keyboard_buttons_spec(kb), CharacterAction::Inventory, InputBinding::Key(resolve_key_spec(kb.inventory@, KeyCode::KeyI))),
        bound_to(keyboard_buttons_spec(kb), CharacterAction::Pause, InputBinding::Key(resolve_key_spec(kb.pause@, KeyCode::Escape))),
        bound_to(keyboard_buttons_spec(kb), CharacterAction::NightVision, InputBinding::Key(resolve_key_spec(kb.night_vision@, KeyCode::KeyN))),
        keyboard_move_spec(kb) == (AxisBinding::KeyPad {
            up: resolve_key_spec(kb.move_up@, KeyCode::KeyW),
            down: resolve_key_spec(kb.move_down@, KeyCode::KeyS),
            left: resolve_key_spec(kb.move_left@, KeyCode::KeyA),
            right: resolve_key_spec(kb.move_right@, KeyCode::KeyD),
        }),
{
    let s = keyboard_buttons_spec(kb);
    lemma_keyboard_map_complete(kb);
    lemma_bound_at(s, 0, CharacterAction::Jump, InputBinding::Key(resolve_key_spec(kb.jump@, KeyCode::Space)));
    lemma_bound_at(s, 1, CharacterAction::Sprint, InputBinding::Key(resolve_key_spec(kb.sprint@, KeyCode::ShiftLeft)));
    lemma_bound_at(s, 2, CharacterAction::Crouch, InputBinding::Key(resolve_key_spec(kb.crouch@, KeyCode::ControlLeft)));
    lemma_bound_at(s, 3, CharacterAction::Prone, InputBinding::Key(resolve_key_spec(kb.prone@, KeyCode::KeyC)));
    lemma_bound_at(s, 4, CharacterAction::MountLedge, InputBinding::Key(resolve_key_spec(kb.mount_ledge@, resolve_key_spec(kb.jump@, KeyCode::Space))));
    lemma_bound_at(s, 5, CharacterAction::Fire, resolve_pointer_spec(kb.fire@, MouseButton::Left));
    lemma_bound_at(s, 6, CharacterAction::AimDownSights, resolve_pointer_spec(kb.aim_down_sights@, MouseButton::Right));
    lemma_bound_at(s, 7, CharacterAction::TacticalEquipment, resolve_pointer_spec(kb.tactical_equipment@, MouseButton::Middle));
    lemma_bound_at(s, 8, CharacterAction::Reload, InputBinding::Key(resolve_key_spec(kb.reload@, KeyCode::KeyR)));
    lemma_bound_at(s, 9, CharacterAction::PrimaryWeapon, InputBinding::Key(resolve_key_spec(kb.primary_weapon@, KeyCode::Digit1)));
    lemma_bound_at(s, 10, CharacterAction::SecondaryWeapon, InputBinding::Key(resolve_key_spec(kb.secondary_weapon@, KeyCode::Digit2)));
    lemma_bound_at(s, 11, CharacterAction::Interact, InputBinding::Key(resolve_key_spec(kb.interact@, KeyCode::KeyE)));
    lemma_bound_at(s, 12, CharacterAction::LethalEquipment, InputBinding::Key(resolve_key_spec(kb.lethal_equipment@, KeyCode::KeyQ)));
    lemma_bound_at(s, 13, CharacterAction::Melee, InputBinding::Key(resolve_key_spec(kb.melee@, KeyCode::KeyV)));
    lemma_bound_at(s, 14, CharacterAction::WeaponInspect, InputBinding::Key(resolve_key_spec(kb.weapon_inspect@, KeyCode::KeyG)));
    lemma_bound_at(s, 15, CharacterAction::ArmorPlate, InputBinding::Key(resolve_key_spec(kb.armor_plate@, KeyCode::KeyF)));
    lemma_bound_at(s, 16, CharacterAction::AlternateFire, InputBinding::Key(resolve_key_spec(kb.alternate_fire@, KeyCode::KeyB)));
    lemma_bound_at(s, 17, CharacterAction::Killstreak1, InputBinding::Key(resolve_key_spec(kb.killstreak1@, KeyCode::Digit3)));
    lemma_bound_at(s, 18, CharacterAction::Killstreak2, InputBinding::Key(resolve_key_spec(kb.killstreak2@, KeyCode::Digit4)));
    lemma_bound_at(s, 19, CharacterAction::Killstreak3, InputBinding::Key(resolve_key_spec(kb.killstreak3@, KeyCode::Digit5)));
    lemma_bound_at(s, 20, CharacterAction::FieldUpgrade, InputBinding::Key(resolve_key_spec(kb.field_upgrade@, KeyCode::KeyX)));
    lemma_bound_at(s, 21, CharacterAction::Ping, InputBinding::Key(resolve_key_spec(kb.ping@, KeyCode::KeyZ)));
    lemma_bound_at(s, 22, CharacterAction::PushToTalk, InputBinding::Key(resolve_key_spec(kb.push_to_talk@, KeyCode::CapsLock)));
    lemma_bound_at(s, 23, CharacterAction::TextChat, InputBinding::Key(resolve_key_spec(kb.text_chat@, KeyCode::KeyT)));
    lemma_bound_at(s, 24, CharacterAction::TeamChat, InputBinding::Key(resolve_key_spec(kb.team_chat@, KeyCode::KeyY)));
    lemma_bound_at(s, 25, CharacterAction::Gesture1, InputBinding::Key(resolve_key_spec(kb.gesture1@, KeyCode::F1)));
    lemma_bound_at(s, 26, CharacterAction::Gesture2, InputBinding::Key(resolve_key_spec(kb.gesture2@, KeyCode::F2)));
    lemma_bound_at(s, 27, CharacterAction::Gesture3, InputBinding::Key(resolve_key_spec(kb.gesture3@, KeyCode::F3)));
    lemma_bound_at(s, 28, CharacterAction::Gesture4, InputBinding::Key(resolve_key_spec(kb.gesture4@, KeyCode::F4)));
    lemma_bound_at(s, 29, CharacterAction::Scoreboard, InputBinding::Key(resolve_key_spec(kb.scoreboard@, KeyCode::Tab)));
    lemma_bound_at(s, 30, CharacterAction::WorldMap, InputBinding::Key(resolve_key_spec(kb.map@, KeyCode::KeyM)));
    lemma_bound_at(s, 31, CharacterAction::Inventory, InputBinding::Key(resolve_key_spec(kb.inventory@, KeyCode::KeyI)));
    lemma_bound_at(s, 32, CharacterAction::Pause, InputBinding::Key(resolve_key_spec(kb.pause@, KeyCode::Escape)));
    lemma_bound_at(s, 33, CharacterAction::NightVision, InputBinding::Key(resolve_key_spec(kb.night_vision@, KeyCode::KeyN)));
}

/// The position of an action in the gamepad button list; actions the
/// gamepad map does not bind have none.
pub open spec fn gamepad_slot(a: CharacterAction) -> int {
    match a {
        CharacterAction::Jump => 0,
        CharacterAction::Sprint => 1,
        CharacterAction::Crouch => 2,
        CharacterAction::MountLedge => 3,
        CharacterAction::Fire => 4,
        CharacterAction::AimDownSights => 5,
        CharacterAction::Reload => 6,
        CharacterAction::Melee => 7,
        CharacterAction::LethalEquipment => 8,
        CharacterAction::TacticalEquipment => 9,
        CharacterAction::Killstreak1 => 10,
        CharacterAction::Killstreak2 => 11,
        CharacterAction::Killstreak3 => 12,
        CharacterAction::FieldUpgrade => 13,
        CharacterAction::Ping => 14,
        CharacterAction::ArmorPlate => 15,
        CharacterAction::NightVision => 16,
        CharacterAction::Scoreboard => 17,
        CharacterAction::Pause => 18,
        _ => -1,
    }
}

/// The gamepad map binds each of its actions exactly once.
pub proof fn lemma_gamepad_map_distinct(gp: GamepadBindings)
    ensures
        gamepad_buttons_spec(gp).len() == 19,
        forall|i: int, j: int|
            0 <= i < j < 19 ==> #[trigger] gamepad_buttons_spec(gp)[i].0
                != #[trigger] gamepad_buttons_spec(gp)[j].0,
{
    let b = gamepad_buttons_spec(gp);
    assert forall|i: int| 0 <= i < 19 implies gamepad_slot(#[trigger] b[i].0) == i by {}
    assert forall|i: int, j: int| 0 <= i < j < 19 implies #[trigger] b[i].0 != #[trigger] b[j].0 by {
        assert(gamepad_slot(b[i].0) == i);
        assert(gamepad_slot(b[j].0) == j);
    }
}

/// Each gamepad action is bound by its own configuration entry, with its
/// default button when the entry names none (mount-ledge shares the jump
/// button).
pub proof fn lemma_gamepad_bindings_follow_config(gp: GamepadBindings)
    ensures
        bound_to(gamepad_buttons_spec(gp), CharacterAction::Jump, InputBinding::Gamepad(resolve_button_spec(gp.jump@, GamepadButton::South))),
        bound_to(gamepad_buttons_spec(gp), CharacterAction::Sprint, InputBinding::Gamepad(resolve_button_spec(gp.sprint@, GamepadButton::LeftThumb))),
        bound_to(gamepad_buttons_spec(gp), CharacterAction::Crouch, InputBinding::Gamepad(resolve_button_spec(gp.crouch@, GamepadButton::RightThumb))),
        bound_to(gamepad_buttons_spec(gp), CharacterAction::MountLedge, InputBinding::Gamepad(resolve_button_spec(gp.jump@, GamepadButton::South))),
        bound_to(gamepad_buttons_spec(gp), CharacterAction::Fire, InputBinding::Gamepad(resolve_button_spec(gp.fire@, GamepadButton::RightTrigger))),
        bound_to(gamepad_buttons_spec(gp), CharacterAction::AimDownSights, InputBinding::Gamepad(resolve_button_spec(gp.aim_down_sights@, GamepadButton::LeftTrigger))),
        bound_to(gamepad_buttons_spec(gp), CharacterAction::Reload, InputBinding::Gamepad(resolve_button_spec(gp.reload@, GamepadButton::West))),
        bound_to(gamepad_buttons_spec(gp), CharacterAction::Melee, InputBinding::Gamepad(resolve_button_spec(gp.melee@, GamepadButton::East))),
        bound_to(gamepad_buttons_spec(gp), CharacterAction::LethalEquipment, InputBinding::Gamepad(resolve_button_spec(gp.lethal_equipment@, GamepadButton::LeftTrigger2))),
        bound_to(gamepad_buttons_spec(gp), CharacterAction::TacticalEquipment, InputBinding::Gamepad(resolve_button_spec(gp.tactical_equipment@, GamepadButton::RightTrigger2))),
        bound_to(gamepad_buttons_spec(gp), CharacterAction::Killstreak1, InputBinding::Gamepad(resolve_button_spec(gp.killstreak1@, GamepadButton::DPadRight))),
        bound_to(gamepad_buttons_spec(gp), CharacterAction::Killstreak2, InputBinding::Gamepad(resolve_button_spec(gp.killstreak2@, GamepadButton::DPadRight))),
        bound_to(gamepad_buttons_spec(gp), CharacterAction::Killstreak3, InputBinding::Gamepad(resolve_button_spec(gp.killstreak3@, GamepadButton::DPadRight))),
        bound_to(gamepad_buttons_spec(gp), CharacterAction::FieldUpgrade, InputBinding::Gamepad(resolve_button_spec(gp.field_upgrade@, GamepadButton::DPadLeft))),
        bound_to(gamepad_buttons_spec(gp), CharacterAction::Ping, InputBinding::Gamepad(resolve_button_spec(gp.ping@, GamepadButton::DPadLeft))),
        bound_to(gamepad_buttons_spec(gp), CharacterAction::ArmorPlate, InputBinding::Gamepad(resolve_button_spec(gp.armor_plate@, GamepadButton::DPadUp))),
        bound_to(gamepad_buttons_spec(gp), CharacterAction::NightVision, InputBinding::Gamepad(resolve_button_spec(gp.night_vision@, GamepadButton::DPadDown))),
        bound_to(gamepad_buttons_spec(gp), CharacterAction::Scoreboard, InputBinding::Gamepad(resolve_button_spec(gp.scoreboard@, GamepadButton::Select))),
        bound_to(gamepad_buttons_spec(gp), CharacterAction::Pause, InputBinding::Gamepad(resolve_button_spec(gp.pause@, GamepadButton::Start))),
{
    let s = gamepad_buttons_spec(gp);
    lemma_gamepad_map_distinct(gp);
    lemma_bound_at(s, 0, CharacterAction::Jump, InputBinding::Gamepad(resolve_button_spec(gp.jump@, GamepadButton::South)));
    lemma_bound_at(s, 1, CharacterAction::Sprint, InputBinding::Gamepad(resolve_button_spec(gp.sprint@, GamepadButton::LeftThumb)));
    lemma_bound_at(s, 2, CharacterAction::Crouch, InputBinding::Gamepad(resolve_button_spec(gp.crouch@, GamepadButton::RightThumb)));
    lemma_bound_at(s, 3, CharacterAction::MountLedge, InputBinding::Gamepad(resolve_button_spec(gp.jump@, GamepadButton::South)));
    lemma_bound_at(s, 4, CharacterAction::Fire, InputBinding::Gamepad(resolve_button_spec(gp.fire@, GamepadButton::RightTrigger)));
    lemma_bound_at(s, 5, CharacterAction::AimDownSights, InputBinding::Gamepad(resolve_button_spec(gp.aim_down_sights@, GamepadButton::LeftTrigger)));
    lemma_bound_at(s, 6, CharacterAction::Reload, InputBinding::Gamepad(resolve_button_spec(gp.reload@, GamepadButton::West)));
    lemma_bound_at(s, 7, CharacterAction::Melee, InputBinding::Gamepad(resolve_button_spec(gp.melee@, GamepadButton::East)));
    lemma_bound_at(s, 8, CharacterAction::LethalEquipment, InputBinding::Gamepad(resolve_button_spec(gp.lethal_equipment@, GamepadButton::LeftTrigger2)));
    lemma_bound_at(s, 9, CharacterAction::TacticalEquipment, InputBinding::Gamepad(resolve_button_spec(gp.tactical_equipment@, GamepadButton::RightTrigger2)));
    lemma_bound_at(s, 10, CharacterAction::Killstreak1, InputBinding::Gamepad(resolve_button_spec(gp.killstreak1@, GamepadButton::DPadRight)));
    lemma_bound_at(s, 11, CharacterAction::Killstreak2, InputBinding::Gamepad(resolve_button_spec(gp.killstreak2@, GamepadButton::DPadRight)));
    lemma_bound_at(s, 12, CharacterAction::Killstreak3, InputBinding::Gamepad(resolve_button_spec(gp.killstreak3@, GamepadButton::DPadRight)));
    lemma_bound_at(s, 13, CharacterAction::FieldUpgrade, InputBinding::Gamepad(resolve_button_spec(gp.field_upgrade@, GamepadButton::DPadLeft)));
    lemma_bound_at(s, 14, CharacterAction::Ping, InputBinding::Gamepad(resolve_button_spec(gp.ping@, GamepadButton::DPadLeft)));
    lemma_bound_at(s, 15, CharacterAction::ArmorPlate, InputBinding::Gamepad(resolve_button_spec(gp.armor_plate@, GamepadButton::DPadUp)));
    lemma_bound_at(s, 16, CharacterAction::NightVision, InputBinding::Gamepad(resolve_button_spec(gp.night_vision@, GamepadButton::DPadDown)));
    lemma_bound_at(s, 17, CharacterAction::Scoreboard, InputBinding::Gamepad(resolve_button_spec(gp.scoreboard@, GamepadButton::Select)));
    lemma_bound_at(s, 18, CharacterAction::Pause, InputBinding::Gamepad(resolve_button_spec(gp.pause@, GamepadButton::Start)));
}

} // verus!
