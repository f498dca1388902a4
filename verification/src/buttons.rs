use vstd::prelude::*;

use crate::text::str_equals;

verus! {

/// A mouse button.
#[derive(Clone, Copy, Debug, PartialEq, Eq, Structural)]
pub enum MouseButton {
    Left,
    Right,
    Middle,
}

/// A gamepad button.
#[derive(Clone, Copy, Debug, PartialEq, Eq, Structural)]
pub enum GamepadButton {
    South,
    East,
    West,
    North,
    LeftTrigger,
    RightTrigger,
    LeftThumb,
    RightThumb,
    Start,
    Select,
    LeftTrigger2,
    RightTrigger2,
    DPadUp,
    DPadDown,
    DPadLeft,
    DPadRight,
}

/// One of the two analog sticks of a gamepad.
#[derive(Clone, Copy, Debug, PartialEq, Eq, Structural)]
pub enum GamepadStick {
    Left,
    Right,
}

/// The gamepad button a name denotes: the name of the button itself.
pub open spec fn spec_parse_gamepad_button(s: Seq<char>) -> Option<GamepadButton> {
    if s == "South"@ {
        Some(GamepadButton::South)
    } else if s == "East"@ {
        Some(GamepadButton::East)
    } else if s == "West"@ {
        Some(GamepadButton::West)
    } else if s == "North"@ {
        Some(GamepadButton::North)
    } else if s == "LeftTrigger"@ {
        Some(GamepadButton::LeftTrigger)
    } else if s == "RightTrigger"@ {
        Some(GamepadButton::RightTrigger)
    } else if s == "LeftThumb"@ {
        Some(GamepadButton::LeftThumb)
    } else if s == "RightThumb"@ {
        Some(GamepadButton::RightThumb)
    } else if s == "Start"@ {
        Some(GamepadButton::Start)
    } else if s == "Select"@ {
        Some(GamepadButton::Select)
    } else if s == "LeftTrigger2"@ {
        Some(GamepadButton::LeftTrigger2)
    } else if s == "RightTrigger2"@ {
        Some(GamepadButton::RightTrigger2)
    } else if s == "DPadUp"@ {
        Some(GamepadButton::DPadUp)
    } else if s == "DPadDown"@ {
        Some(GamepadButton::DPadDown)
    } else if s == "DPadLeft"@ {
        Some(GamepadButton::DPadLeft)
    } else if s == "DPadRight"@ {
        Some(GamepadButton::DPadRight)
    } else {
        None
    }
}

/// The mouse button a name denotes: `Left`, `Right` or `Middle`.
pub open spec fn spec_parse_mouse_button(s: Seq<char>) -> Option<MouseButton> {
    if s == "Left"@ {
        Some(MouseButton::Left)
    } else if s == "Right"@ {
        Some(MouseButton::Right)
    } else if s == "Middle"@ {
        Some(MouseButton::Middle)
    } else {
        None
    }
}

/// The stick a name denotes: `LeftStick` or `RightStick`.
pub open spec fn spec_parse_gamepad_stick(s: Seq<char>) -> Option<GamepadStick> {
    if s == "LeftStick"@ {
        Some(GamepadStick::Left)
    } else if s == "RightStick"@ {
        Some(GamepadStick::Right)
    } else {
        None
    }
}

/// The canonical name of a gamepad button.
pub open spec fn gamepad_button_name(b: GamepadButton) -> Seq<char> {
    match b {
        GamepadButton::South => "South"@,
        GamepadButton::East => "East"@,
        GamepadButton::West => "West"@,
        GamepadButton::North => "North"@,
        GamepadButton::LeftTrigger => "LeftTrigger"@,
        GamepadButton::RightTrigger => "RightTrigger"@,
        GamepadButton::LeftThumb => "LeftThumb"@,
        GamepadButton::RightThumb => "RightThumb"@,
        GamepadButton::Start => "Start"@,
        GamepadButton::Select => "Select"@,
        GamepadButton::LeftTrigger2 => "LeftTrigger2"@,
        GamepadButton::RightTrigger2 => "RightTrigger2"@,
        GamepadButton::DPadUp => "DPadUp"@,
        GamepadButton::DPadDown => "DPadDown"@,
        GamepadButton::DPadLeft => "DPadLeft"@,
        GamepadButton::DPadRight => "DPadRight"@,
    }
}

/// The canonical name of a mouse button.
pub open spec fn mouse_button_name(b: MouseButton) -> Seq<char> {
    match b {
        MouseButton::Left => "Left"@,
        MouseButton::Right => "Right"@,
        MouseButton::Middle => "Middle"@,
    }
}

/// The canonical name of a gamepad stick.
pub open spec fn gamepad_stick_name(st: GamepadStick) -> Seq<char> {
    match st {
        GamepadStick::Left => "LeftStick"@,
        GamepadStick::Right => "RightStick"@,
    }
}

/// Every gamepad button, mouse button and stick is recognised by its own
/// name, and by no other button's or stick's name.
pub proof fn lemma_button_names_parse(b: GamepadButton, m: MouseButton, st: GamepadStick)
    ensures
        spec_parse_gamepad_button(gamepad_button_name(b)) == Some(b),
        spec_parse_mouse_button(mouse_button_name(m)) == Some(m),
        spec_parse_gamepad_stick(gamepad_stick_name(st)) == Some(st),
{
    reveal_strlit("DPadDown");
    assert("DPadDown"@ =~= seq!['D', 'P', 'a', 'd', 'D', 'o', 'w', 'n']);
    reveal_strlit("DPadLeft");
    assert("DPadLeft"@ =~= seq!['D', 'P', 'a', 'd', 'L', 'e', 'f', 't']);
    reveal_strlit("DPadRight");
    assert("DPadRight"@ =~= seq!['D', 'P', 'a', 'd', 'R', 'i', 'g', 'h', 't']);
    reveal_strlit("DPadUp");
    assert("DPadUp"@ =~= seq!['D', 'P', 'a', 'd', 'U', 'p']);
    reveal_strlit("East");
    assert("East"@ =~= seq!['E', 'a', 's', 't']);
    reveal_strlit("Left");
    assert("Left"@ =~= seq!['L', 'e', 'f', 't']);
    reveal_strlit("LeftStick");
    assert("LeftStick"@ =~= seq!['L', 'e', 'f', 't', 'S', 't', 'i', 'c', 'k']);
    reveal_strlit("LeftThumb");
    assert("LeftThumb"@ =~= seq!['L', 'e', 'f', 't', 'T', 'h', 'u', 'm', 'b']);
    reveal_strlit("LeftTrigger");
    assert("LeftTrigger"@ =~= seq!['L', 'e', 'f', 't', 'T', 'r', 'i', 'g', 'g', 'e', 'r']);
    reveal_strlit("LeftTrigger2");
    assert("LeftTrigger2"@ =~= seq!['L', 'e', 'f', 't', 'T', 'r', 'i', 'g', 'g', 'e', 'r', '2']);
    reveal_strlit("Middle");
    assert("Middle"@ =~= seq!['M', 'i', 'd', 'd', 'l', 'e']);
    reveal_strlit("North");
    assert("North"@ =~= seq!['N', 'o', 'r', 't', 'h']);
    reveal_strlit("Right");
    assert("Right"@ =~= seq!['R', 'i', 'g', 'h', 't']);
    reveal_strlit("RightStick");
    assert("RightStick"@ =~= seq!['R', 'i', 'g', 'h', 't', 'S', 't', 'i', 'c', 'k']);
    reveal_strlit("RightThumb");
    assert("RightThumb"@ =~= seq!['R', 'i', 'g', 'h', 't', 'T', 'h', 'u', 'm', 'b']);
    reveal_strlit("RightTrigger");
    assert("RightTrigger"@ =~= seq!['R', 'i', 'g', 'h', 't', 'T', 'r', 'i', 'g', 'g', 'e', 'r']);
    reveal_strlit("RightTrigger2");
    assert("RightTrigger2"@ =~= seq!['R', 'i', 'g', 'h', 't', 'T', 'r', 'i', 'g', 'g', 'e', 'r', '2']);
    reveal_strlit("Select");
    assert("Select"@ =~= seq!['S', 'e', 'l', 'e', 'c', 't']);
    reveal_strlit("South");
    assert("South"@ =~= seq!['S', 'o', 'u', 't', 'h']);
    reveal_strlit("Start");
    assert("Start"@ =~= seq!['S', 't', 'a', 'r', 't']);
    reveal_strlit("West");
    assert("West"@ =~= seq!['W', 'e', 's', 't']);
}

/// Parse a gamepad button name such as `"South"` or `"DPadUp"`.
pub fn parse_gamepad_button(s: &str) -> (r: Option<GamepadButton>)
    ensures
        r == spec_parse_gamepad_button(s@),
{
    if str_equals(s, "South") {
        Some(GamepadButton::South)
    } else if str_equals(s, "East") {
        Some(GamepadButton::East)
    } else if str_equals(s, "West") {
        Some(GamepadButton::West)
    } else if str_equals(s, "North") {
        Some(GamepadButton::North)
    } else if str_equals(s, "LeftTrigger") {
        Some(GamepadButton::LeftTrigger)
    } else if str_equals(s, "RightTrigger") {
        Some(GamepadButton::RightTrigger)
    } else if str_equals(s, "LeftThumb") {
        Some(GamepadButton::LeftThumb)
    } else if str_equals(s, "RightThumb") {
        Some(GamepadButton::RightThumb)
    } else if str_equals(s, "Start") {
        Some(GamepadButton::Start)
    } else if str_equals(s, "Select") {
        Some(GamepadButton::Select)
    } else if str_equals(s, "LeftTrigger2") {
        Some(GamepadButton::LeftTrigger2)
    } else if str_equals(s, "RightTrigger2") {
        Some(GamepadButton::RightTrigger2)
    } else if str_equals(s, "DPadUp") {
        Some(GamepadButton::DPadUp)
    } else if str_equals(s, "DPadDown") {
        Some(GamepadButton::DPadDown)
    } else if str_equals(s, "DPadLeft") {
        Some(GamepadButton::DPadLeft)
    } else if str_equals(s, "DPadRight") {
        Some(GamepadButton::DPadRight)
    } else {
        None
    }
}

/// Parse a gamepad stick name (`"LeftStick"` or `"RightStick"`).
pub fn parse_gamepad_stick(s: &str) -> (r: Option<GamepadStick>)
    ensures
        r == spec_parse_gamepad_stick(s@),
{
    if str_equals(s, "LeftStick") {
        Some(GamepadStick::Left)
    } else if str_equals(s, "RightStick") {
        Some(GamepadStick::Right)
    } else {
        None
    }
}

/// Parse a mouse button name (`"Left"`, `"Right"` or `"Middle"`).
pub fn parse_mouse_button(s: &str) -> (r: Option<MouseButton>)
    ensures
        r == spec_parse_mouse_button(s@),
{
    if str_equals(s, "Left") {
        Some(MouseButton::Left)
    } else if str_equals(s, "Right") {
        Some(MouseButton::Right)
    } else if str_equals(s, "Middle") {
        Some(MouseButton::Middle)
    } else {
        None
    }
}

} // verus!
