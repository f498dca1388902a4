use vstd::prelude::*;

verus! {

/// Every action a player character can perform.
#[derive(Clone, Copy, Debug, PartialEq, Eq, Hash, Structural)]
pub enum CharacterAction {
    // Movement
    Move,
    Look,
    Jump,
    Sprint,
    Crouch,
    Prone,
    MountLedge,

    // Combat
    Fire,
    AimDownSights,
    Reload,
    PrimaryWeapon,
    SecondaryWeapon,
    Interact,
    LethalEquipment,
    TacticalEquipment,
    Melee,
    WeaponInspect,
    ArmorPlate,
    AlternateFire,

    // Killstreaks & field upgrades
    Killstreak1,
    Killstreak2,
    Killstreak3,
    FieldUpgrade,

    // Communication
    TextChat,
    TeamChat,
    Ping,
    PushToTalk,
    Gesture1,
    Gesture2,
    Gesture3,
    Gesture4,

    // Misc
    Scoreboard,
    WorldMap,
    Inventory,
    Pause,
    NightVision,
}

/// How an action is driven: by a two-axis input or by a button.
#[derive(Clone, Copy, Debug, PartialEq, Eq, Structural)]
pub enum InputControlKind {
    Button,
    DualAxis,
}

impl CharacterAction {
    /// `Move` and `Look` are two-axis inputs; every other action is a button.
    pub fn input_control_kind(&self) -> (k: InputControlKind)
        ensures
            k == (if *self == CharacterAction::Move || *self == CharacterAction::Look {
                InputControlKind::DualAxis
            } else {
                InputControlKind::Button
            }),
    {
        match self {
            CharacterAction::Move | CharacterAction::Look => InputControlKind::DualAxis,
            _ => InputControlKind::Button,
        }
    }
}

} // verus!
