use vstd::prelude::*;

use crate::buttons::{MouseButton, parse_mouse_button, spec_parse_mouse_button};
use crate::input::{InputConfig, resolve_key_spec};
use crate::keys::{KeyCode, parse_key_code};

verus! {

/// Connection settings for the client (server address, ports).
#[derive(Debug)]
pub struct ClientConnectionConfig {
    pub server_host: String,
    pub server_port: u16,
    pub client_port: u16,
}

impl Default for ClientConnectionConfig {
    fn default() -> (c: Self)
        ensures
            c.server_host@ == "127.0.0.1"@,
            c.server_port == 5888,
            c.client_port == 0,
    {
        ClientConnectionConfig {
            server_host: String::from_str("127.0.0.1"),
            server_port: 5888,
            client_port: 0,
        }
    }
}

/// Window settings of the client.
#[derive(Debug)]
pub struct WindowConfig {
    pub title: String,
    pub width: u32,
    pub height: u32,
}

impl Default for WindowConfig {
    fn default() -> (c: Self)
        ensures
            c.title@ == "Lightyear Example"@,
            c.width == 1024,
            c.height == 768,
    {
        WindowConfig { title: String::from_str("Lightyear Example"), width: 1024, height: 768 }
    }
}

/// Transport settings of the client.
#[derive(Clone, Copy, Debug, PartialEq, Eq, Structural)]
pub struct ClientTransportConfig {
    /// Lifetime of connect tokens in seconds (negative: never expire).
    pub token_expiration: i32,
    /// Simulate network latency (~100ms jitter) using a link conditioner.
    pub simulate_latency: bool,
}

impl Default for ClientTransportConfig {
    fn default() -> (c: Self)
        ensures
            c.token_expiration == -1,
            !c.simulate_latency,
    {
        ClientTransportConfig { token_expiration: -1, simulate_latency: false }
    }
}

/// How the primary window presents frames.
#[derive(Clone, Copy, Debug, PartialEq, Eq, Structural)]
pub enum PresentMode {
    AutoVsync,
    AutoNoVsync,
}

/// The settings of the primary window.
#[derive(Debug)]
pub struct WindowSettings {
    pub title: String,
    pub width: u32,
    pub height: u32,
    pub present_mode: PresentMode,
}

/// The primary window: titled "<configured title>: <package name>", of the
/// configured size, synchronised to the display when vsync is on.
pub fn window_plugin_from_config(window: &WindowConfig, vsync: bool, package_name: &str) -> (w: WindowSettings)
    ensures
        w.title@ == window.title@ + ": "@ + package_name@,
        w.width == window.width,
        w.height == window.height,
        w.present_mode == (if vsync {
            PresentMode::AutoVsync
        } else {
            PresentMode::AutoNoVsync
        }),
{
    let mut title = window.title.clone();
    title.append(": ");
    title.append(package_name);
    WindowSettings {
        title,
        width: window.width,
        height: window.height,
        present_mode: if vsync {
            PresentMode::AutoVsync
        } else {
            PresentMode::AutoNoVsync
        },
    }
}

/// The key that releases the cursor: the configured one, Escape by default.
pub fn cursor_release_key(input: &InputConfig) -> (k: KeyCode)
    ensures
        k == resolve_key_spec(input.cursor_release_key@, KeyCode::Escape),
{
    match parse_key_code(input.cursor_release_key.as_str()) {
        Some(k) => k,
        None => KeyCode::Escape,
    }
}

/// The mouse button that grabs the cursor: the configured one, left by
/// default.
pub fn cursor_grab_button(input: &InputConfig) -> (b: MouseButton)
    ensures
        b == match spec_parse_mouse_button(input.cursor_grab_button@) {
            Some(m) => m,
            None => MouseButton::Left,
        },
{
    match parse_mouse_button(input.cursor_grab_button.as_str()) {
        Some(b) => b,
        None => MouseButton::Left,
    }
}

/// Visibility and grab of the cursor.
#[derive(Clone, Copy, Debug, PartialEq, Eq, Structural)]
pub struct CursorState {
    pub visible: bool,
    /// Locked to the window (else free).
    pub locked: bool,
}

/// The cursor state to set this frame, if any: the release key frees and
/// shows the cursor, the grab button locks and hides it, and the grab
/// button wins when both are pressed.
pub fn update_cursor(release_pressed: bool, grab_pressed: bool) -> (s: Option<CursorState>)
    ensures
        s == (if grab_pressed {
            Some(CursorState { visible: false, locked: true })
        } else if release_pressed {
            Some(CursorState { visible: true, locked: false })
        } else {
            None
        }),
{
    if grab_pressed {
        Some(CursorState { visible: false, locked: true })
    } else if release_pressed {
        Some(CursorState { visible: true, locked: false })
    } else {
        None
    }
}

/// The catalog key of a character's model: its model id, "default" when it
/// has none.
pub fn model_key(model_id: Option<&String>) -> (k: String)
    ensures
        k@ == match model_id {
            Some(id) => id@,
            None => "default"@,
        },
{
    match model_id {
        Some(id) => id.clone(),
        None => String::from_str("default"),
    }
}

/// What to attach to a newly seen character.
#[derive(Clone, Copy, Debug, PartialEq, Eq, Structural)]
pub enum CosmeticAction {
    /// Local player whose first-person model is already attached: nothing.
    KeepPov,
    /// Local player: attach the first-person model to the camera.
    AttachPov,
    /// Local player whose first-person model is not in the catalog.
    MissingPov,
    /// Remote player: attach the third-person model.
    AttachThirdPerson,
    /// Remote player whose model is not in the catalog: a plain capsule.
    CapsuleFallback,
}

/// Decide the cosmetics of a character: the local player gets the
/// first-person model (once), remote players the third-person model or a
/// capsule when it is missing.
pub fn character_cosmetics(
    is_local: bool,
    pov_attached: bool,
    pov_model_found: bool,
    third_person_found: bool,
) -> (a: CosmeticAction)
    ensures
        a == (if is_local {
            if pov_attached {
                CosmeticAction::KeepPov
            } else if pov_model_found {
                CosmeticAction::AttachPov
            } else {
                CosmeticAction::MissingPov
            }
        } else if third_person_found {
            CosmeticAction::AttachThirdPerson
        } else {
            CosmeticAction::CapsuleFallback
        }),
{
    if is_local {
        if pov_attached {
            CosmeticAction::KeepPov
        } else if pov_model_found {
            CosmeticAction::AttachPov
        } else {
            CosmeticAction::MissingPov
        }
    } else if third_person_found {
        CosmeticAction::AttachThirdPerson
    } else {
        CosmeticAction::CapsuleFallback
    }
}

/// Whether the client's assets have all just finished loading: not
/// reported before, the world visual (when there is one to wait for) and the
/// skybox loaded.
pub fn client_assets_ready(already_ready: bool, world_visual_loaded: Option<bool>, skybox_loaded: bool) -> (r: bool)
    ensures
        r == (!already_ready && world_visual_loaded != Some(false) && skybox_loaded),
{
    if already_ready {
        return false;
    }
    if let Some(false) = world_visual_loaded {
        return false;
    }
    skybox_loaded
}

/// Keys that toggle the debug visualisations, by key name.
#[derive(Debug)]
pub struct DebugToggleKeysConfig {
    pub collision: String,
    pub zone: String,
    pub dynamic: String,
}

impl Default for DebugToggleKeysConfig {
    fn default() -> (c: Self)
        ensures
            c.collision@ == "KeyC"@,
            c.zone@ == "KeyZ"@,
            c.dynamic@ == "KeyD"@,
    {
        DebugToggleKeysConfig {
            collision: String::from_str("KeyC"),
            zone: String::from_str("KeyZ"),
            dynamic: String::from_str("KeyD"),
        }
    }
}

/// Identifies which visual model a player uses: a key into the client's
/// model catalog (e.g. "default", "soldier").
#[derive(Debug)]
pub struct PlayerModelId(pub String);

impl Default for PlayerModelId {
    fn default() -> (m: Self)
        ensures
            m.0@ == "default"@,
    {
        PlayerModelId(String::from_str("default"))
    }
}

} // verus!
