use vstd::prelude::*;

verus! {

/// Camera view mode determines how the camera behaves and what it follows
#[derive(Clone, Copy, Debug, PartialEq, Eq, Structural)]
pub enum CameraViewMode {
    /// Free-flying camera for spectating/debugging (noclip)
    FreeView,
    /// First-person camera attached to player entity
    FirstPerson,
    /// Third-person camera following player entity
    ThirdPerson,
}

/// The mode after `m` in the viewer's toggle cycle
/// FreeView → FirstPerson → ThirdPerson → FreeView.
pub open spec fn next_view_mode_spec(m: CameraViewMode) -> CameraViewMode {
    match m {
        CameraViewMode::FreeView => CameraViewMode::FirstPerson,
        CameraViewMode::FirstPerson => CameraViewMode::ThirdPerson,
        CameraViewMode::ThirdPerson => CameraViewMode::FreeView,
    }
}

/// The view mode the toggle key switches to.
pub fn next_view_mode(mode: CameraViewMode) -> (m: CameraViewMode)
    ensures
        m == next_view_mode_spec(mode),
{
    match mode {
        CameraViewMode::FreeView => CameraViewMode::FirstPerson,
        CameraViewMode::FirstPerson => CameraViewMode::ThirdPerson,
        CameraViewMode::ThirdPerson => CameraViewMode::FreeView,
    }
}

/// Pressing the toggle key three times returns to the starting mode, and
/// every press changes the mode.
pub proof fn lemma_view_mode_cycle(m: CameraViewMode)
    ensures
        next_view_mode_spec(next_view_mode_spec(next_view_mode_spec(m))) == m,
        next_view_mode_spec(m) != m,
{
}

} // verus!
