use game_logic::cli::{log_plugin, log_plugin_from_config, parse_log_level, Cli, LogLevel, Mode};
use game_logic::client::{
    character_cosmetics, client_assets_ready, cursor_grab_button, cursor_release_key, model_key,
    update_cursor, window_plugin_from_config, ClientConnectionConfig, ClientTransportConfig,
    CosmeticAction, CursorState, DebugToggleKeysConfig, PlayerModelId, PresentMode, WindowConfig,
};
use game_logic::buttons::MouseButton;
use game_logic::hot_reload::{ConfigWatcher, FileStamp};
use game_logic::input::InputConfig;
use game_logic::keys::KeyCode;
use game_logic::movement::{movement_intent, SpeedMode};
use game_logic::paths::{config_file_path, resolve_asset_path, resolve_asset_path_for_bevy};
use game_logic::settings::{
    client_port_from_config, shared_settings_from_config, steam_app_id_from_config,
    GameCoreConfig, LoggingConfig, NetworkingConfig,
};

fn core_config(level: &str) -> GameCoreConfig {
    GameCoreConfig {
        networking: NetworkingConfig { client_port: 5000, protocol_id: 42, steam_app_id: 480 },
        logging: LoggingConfig { default_level: level.to_string(), filter: "wgpu=error".to_string() },
    }
}

#[test]
fn networking_settings_from_config() {
    let c = core_config("info");
    assert_eq!(client_port_from_config(&c), 5000);
    assert_eq!(steam_app_id_from_config(&c), 480);
    let s = shared_settings_from_config(&c);
    assert_eq!(s.protocol_id, 42);
    assert_eq!(s.private_key, [0u8; 32]);
}

#[test]
fn client_ids_from_modes() {
    assert_eq!(Cli { mode: Some(Mode::Client { client_id: Some(3) }) }.client_id(), Some(3));
    assert_eq!(Cli { mode: Some(Mode::Separate { client_id: Some(4) }) }.client_id(), Some(4));
    assert_eq!(Cli { mode: Some(Mode::HostClient { client_id: None }) }.client_id(), None);
    assert_eq!(Cli { mode: Some(Mode::Server) }.client_id(), None);
    assert_eq!(Cli { mode: None }.client_id(), None);
    assert_eq!(Mode::default(), Mode::Client { client_id: None });
}

#[test]
fn log_levels() {
    assert_eq!(parse_log_level("trace"), Some(LogLevel::Trace));
    assert_eq!(parse_log_level("warn"), Some(LogLevel::Warn));
    assert_eq!(parse_log_level("WARN"), None);
    let s = log_plugin_from_config(&core_config("debug"));
    assert_eq!(s.level, LogLevel::Debug);
    assert_eq!(s.filter, "wgpu=error");
    assert_eq!(log_plugin_from_config(&core_config("loud")).level, LogLevel::Info);
    let d = log_plugin();
    assert_eq!(d.level, LogLevel::Info);
    assert!(d.filter.starts_with("wgpu=error,"));
}

#[test]
fn client_config_defaults() {
    let c = ClientConnectionConfig::default();
    assert_eq!((c.server_host.as_str(), c.server_port, c.client_port), ("127.0.0.1", 5888, 0));
    let w = WindowConfig::default();
    assert_eq!((w.title.as_str(), w.width, w.height), ("Lightyear Example", 1024, 768));
    let t = ClientTransportConfig::default();
    assert_eq!(t.token_expiration, -1);
    assert!(!t.simulate_latency);
    let k = DebugToggleKeysConfig::default();
    assert_eq!((k.collision.as_str(), k.zone.as_str(), k.dynamic.as_str()), ("KeyC", "KeyZ", "KeyD"));
    assert_eq!(PlayerModelId::default().0, "default");
}

#[test]
fn window_settings() {
    let w = window_plugin_from_config(&WindowConfig::default(), false, "native");
    assert_eq!(w.title, "Lightyear Example: native");
    assert_eq!(w.present_mode, PresentMode::AutoNoVsync);
    assert_eq!((w.width, w.height), (1024, 768));
    let w = window_plugin_from_config(&WindowConfig::default(), true, "web");
    assert_eq!(w.present_mode, PresentMode::AutoVsync);
}

#[test]
fn cursor_bindings_and_updates() {
    let mut input = InputConfig::default();
    assert_eq!(cursor_release_key(&input), KeyCode::Escape);
    assert_eq!(cursor_grab_button(&input), MouseButton::Left);
    input.cursor_release_key = "KeyQ".to_string();
    input.cursor_grab_button = "Thumb".to_string();
    assert_eq!(cursor_release_key(&input), KeyCode::KeyQ);
    assert_eq!(cursor_grab_button(&input), MouseButton::Left);
    assert_eq!(update_cursor(true, true), Some(CursorState { visible: false, locked: true }));
    assert_eq!(update_cursor(true, false), Some(CursorState { visible: true, locked: false }));
    assert_eq!(update_cursor(false, false), None);
}

#[test]
fn cosmetics_decisions() {
    assert_eq!(character_cosmetics(true, true, true, true), CosmeticAction::KeepPov);
    assert_eq!(character_cosmetics(true, false, true, false), CosmeticAction::AttachPov);
    assert_eq!(character_cosmetics(true, false, false, true), CosmeticAction::MissingPov);
    assert_eq!(character_cosmetics(false, true, true, true), CosmeticAction::AttachThirdPerson);
    assert_eq!(character_cosmetics(false, false, false, false), CosmeticAction::CapsuleFallback);
    assert_eq!(model_key(None), "default");
    assert_eq!(model_key(Some(&"soldier".to_string())), "soldier");
}

#[test]
fn asset_readiness() {
    assert!(client_assets_ready(false, None, true));
    assert!(client_assets_ready(false, Some(true), true));
    assert!(!client_assets_ready(false, Some(false), true));
    assert!(!client_assets_ready(false, Some(true), false));
    assert!(!client_assets_ready(true, Some(true), true));
}

#[test]
fn movement_decisions() {
    let i = movement_intent(true, true, true, true);
    assert!(i.sprinting && !i.crouching && i.jump);
    assert_eq!(i.speed, SpeedMode::Sprint);
    let i = movement_intent(true, true, true, false);
    assert!(!i.sprinting && i.crouching && !i.jump);
    assert_eq!(i.speed, SpeedMode::Crouch);
    let i = movement_intent(true, false, false, true);
    assert!(i.jump);
    assert_eq!(i.speed, SpeedMode::Walk);
    let i = movement_intent(true, false, false, false);
    assert!(!i.jump);
}

#[test]
fn config_polling() {
    let stamp = |s| Some(FileStamp { before_epoch: false, secs: s, nanos: 0 });
    let mut w = ConfigWatcher::new(1_000_000_000);
    assert_eq!(w.watch(100, stamp(10)), 0);
    assert_eq!(w.watch(200, None), 1);
    assert_eq!(w.watch(300, stamp(20)), 2);
    assert_eq!(w.keys, vec![100, 200, 300]);
    assert!(!w.poll_due(500_000_000));
    assert!(w.poll_due(1_000_000_000));
    let changed = w.record_poll(1_000_000_000, &vec![stamp(11), stamp(5), None]);
    assert_eq!(changed, vec![0, 1]);
    assert_eq!(w.last_modified, vec![stamp(11), stamp(5), stamp(20)]);
    assert_eq!(w.last_poll, 1_000_000_000);
    assert!(!w.poll_due(1_500_000_000));
    let again = w.record_poll(2_000_000_000, &vec![stamp(11), stamp(5), None]);
    assert!(again.is_empty());
    assert_eq!(w.keys, vec![100, 200, 300]);
}

#[test]
fn watching_a_config_again_replaces_its_entry() {
    let stamp = |s| Some(FileStamp { before_epoch: false, secs: s, nanos: 0 });
    let mut w = ConfigWatcher::new(10);
    assert_eq!(w.watch(7, stamp(1)), 0);
    assert_eq!(w.watch(8, stamp(2)), 1);
    assert_eq!(w.watch(7, stamp(3)), 0);
    assert_eq!(w.keys, vec![7, 8]);
    assert_eq!(w.last_modified, vec![stamp(3), stamp(2)]);
}

#[test]
fn asset_paths() {
    assert_eq!(resolve_asset_path(None), "assets");
    assert_eq!(resolve_asset_path(Some("/data".to_string())), "/data");
    assert_eq!(resolve_asset_path_for_bevy(None, false), "../../assets");
    assert_eq!(resolve_asset_path_for_bevy(None, true), "assets");
    assert_eq!(resolve_asset_path_for_bevy(Some("/srv".to_string()), false), "/srv");
    assert_eq!(config_file_path("assets", "game_client_config.json"), "assets/config/game_client_config.json");
}
