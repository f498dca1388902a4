use vstd::prelude::*;

verus! {

/// Which speed limit applies to the character this tick.
#[derive(Clone, Copy, Debug, PartialEq, Eq, Structural)]
pub enum SpeedMode {
    /// `max_speed × sprint_multiplier`
    Sprint,
    /// `max_speed × crouch_multiplier`
    Crouch,
    /// `max_speed`
    Walk,
}

/// The movement decisions of one tick.
#[derive(Clone, Copy, Debug, PartialEq, Eq, Structural)]
pub struct MovementIntent {
    pub sprinting: bool,
    /// The new crouch state of the character.
    pub crouching: bool,
    /// Whether a jump impulse is applied.
    pub jump: bool,
    pub speed: SpeedMode,
}

/// The movement decisions for the held inputs and the ground check:
/// sprinting needs the ground and overrides crouching; jumping needs the
/// ground and is blocked while crouching.
pub open spec fn movement_intent_spec(wants_jump: bool, wants_sprint: bool, wants_crouch: bool, on_ground: bool) -> MovementIntent {
    let sprinting = wants_sprint && on_ground;
    let crouching = wants_crouch && !sprinting;
    MovementIntent {
        sprinting,
        crouching,
        jump: !crouching && wants_jump && on_ground,
        speed: if sprinting {
            SpeedMode::Sprint
        } else if crouching {
            SpeedMode::Crouch
        } else {
            SpeedMode::Walk
        },
    }
}

/// Decide sprinting, crouching, jumping and the speed limit from the held
/// inputs and the ground check.
pub fn movement_intent(wants_jump: bool, wants_sprint: bool, wants_crouch: bool, on_ground: bool) -> (i: MovementIntent)
    ensures
        i == movement_intent_spec(wants_jump, wants_sprint, wants_crouch, on_ground),
{
    let sprinting = wants_sprint && on_ground;
    let crouching = wants_crouch && !sprinting;
    let jump = !crouching && wants_jump && on_ground;
    let speed = if sprinting {
        SpeedMode::Sprint
    } else if crouching {
        SpeedMode::Crouch
    } else {
        SpeedMode::Walk
    };
    MovementIntent { sprinting, crouching, jump, speed }
}

/// The character never sprints and crouches at once, only jumps from the
/// ground while standing, and in the air neither sprints nor jumps; each
/// held input takes effect unless one of those rules stops it, and nothing
/// happens that was not asked for.
pub proof fn lemma_intent_consistent(wants_jump: bool, wants_sprint: bool, wants_crouch: bool, on_ground: bool)
    ensures
        ({
            let i = movement_intent_spec(wants_jump, wants_sprint, wants_crouch, on_ground);
            &&& !(i.sprinting && i.crouching)
            &&& i.jump ==> on_ground && !i.crouching
            &&& !on_ground ==> !i.sprinting && !i.jump
            &&& i.speed == SpeedMode::Sprint <==> i.sprinting
            &&& i.speed == SpeedMode::Crouch <==> i.crouching
            &&& wants_sprint && on_ground ==> i.sprinting
            &&& i.sprinting ==> wants_sprint
            &&& wants_crouch && !i.sprinting ==> i.crouching
            &&& i.crouching ==> wants_crouch
            &&& wants_jump && on_ground && !i.crouching ==> i.jump
            &&& i.jump ==> wants_jump
        }),
{
}

} // verus!
