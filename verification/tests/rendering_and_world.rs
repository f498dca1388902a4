use game_logic::camera::{next_view_mode, CameraViewMode};
use game_logic::color::{parse_hex_color, Rgb8};
use game_logic::lighting::{
    FullBaked, LightingConfig, LightingPlugin, LightmapMemory, ShadowQuality,
};
use game_logic::skybox::{cubemap_face_size, skybox_layout, SkyboxLayout};
use game_logic::world::{extract_mesh_indices, should_skip_collision_node, MeshIndices};

#[test]
fn test_shadow_quality_cascade_counts() {
    assert_eq!(ShadowQuality::Low.cascade_count(), 1);
    assert_eq!(ShadowQuality::Medium.cascade_count(), 2);
    assert_eq!(ShadowQuality::High.cascade_count(), 4);
    assert_eq!(ShadowQuality::Ultra.cascade_count(), 4);
}

#[test]
fn test_memory_calculation() {
    let usage_1k = LightmapMemory::calculate_usage(1024, 1, 3);
    let usage_2k = LightmapMemory::calculate_usage(2048, 1, 3);

    assert_eq!(usage_2k, usage_1k * 4); // 2x resolution = 4x memory
}

#[test]
fn memory_exact_values() {
    assert_eq!(LightmapMemory::calculate_usage(1024, 1, 3), 3_145_728);
    assert_eq!(LightmapMemory::calculate_usage(4096, 2, 4), 134_217_728);
    assert_eq!(LightmapMemory::calculate_usage(8192, 0, 3), 0);
}

#[test]
fn quality_cycle() {
    assert_eq!(ShadowQuality::Disabled.next(), ShadowQuality::Low);
    assert_eq!(ShadowQuality::Ultra.next(), ShadowQuality::Disabled);
    let mut q = ShadowQuality::Medium;
    for _ in 0..5 {
        q = q.next();
    }
    assert_eq!(q, ShadowQuality::Medium);
    assert_eq!(ShadowQuality::Disabled.cascade_count(), 1);
}

#[test]
fn debug_keys_change_lighting() {
    let mut c = LightingConfig::default();
    assert!(c.directional_shadows_enabled());
    c.apply_debug_keys(true, false);
    assert!(!c.shadows_enabled);
    assert!(!c.directional_shadows_enabled());
    c.apply_debug_keys(true, true);
    assert!(c.shadows_enabled);
    assert_eq!(c.shadow_quality, ShadowQuality::High);
    c.apply_debug_keys(false, false);
    assert_eq!(c, LightingConfig { shadow_quality: ShadowQuality::High, ..LightingConfig::default() });
    c.shadow_quality = ShadowQuality::Disabled;
    assert!(!c.directional_shadows_enabled());
}

#[test]
fn plugin_installs_configuration() {
    let p = LightingPlugin::default();
    assert_eq!(p.initial_config(), LightingConfig::default());
    let debug = LightingPlugin { shadow_quality: ShadowQuality::Low, debug_shadows: true };
    let c = debug.initial_config();
    assert_eq!(c.shadow_quality, ShadowQuality::Low);
    assert!(c.debug_mode && c.shadows_enabled && c.ambient_enabled);
    let f = FullBaked::default();
    assert!(f.disable_realtime_shadows && f.minimal_realtime);
}

#[test]
fn view_mode_cycle() {
    assert_eq!(next_view_mode(CameraViewMode::FreeView), CameraViewMode::FirstPerson);
    assert_eq!(next_view_mode(CameraViewMode::FirstPerson), CameraViewMode::ThirdPerson);
    assert_eq!(next_view_mode(CameraViewMode::ThirdPerson), CameraViewMode::FreeView);
}

#[test]
fn skybox_layouts() {
    assert_eq!(skybox_layout(0, 100), SkyboxLayout::Empty);
    assert_eq!(skybox_layout(512, 3072), SkyboxLayout::StackedCube);
    assert_eq!(skybox_layout(4096, 2048), SkyboxLayout::Equirectangular);
    assert_eq!(skybox_layout(256, 512), SkyboxLayout::Stacked(2));
    assert_eq!(skybox_layout(256, 256), SkyboxLayout::Stacked(1));
    assert_eq!(skybox_layout(300, 200), SkyboxLayout::Unrecognized);
    assert_eq!(skybox_layout(200, 300), SkyboxLayout::Unrecognized);
    assert_eq!(cubemap_face_size(2048), 1024);
    assert_eq!(cubemap_face_size(8192), 2048);
    assert_eq!(cubemap_face_size(5), 2);
}

#[test]
fn floor_nodes_are_skipped() {
    assert!(should_skip_collision_node("floor"));
    assert!(should_skip_collision_node("FLOOR"));
    assert!(should_skip_collision_node("Floor"));
    assert!(!should_skip_collision_node("floor_1"));
    assert!(!should_skip_collision_node("wall"));
}

#[test]
fn triangles_from_indices() {
    let u32s = MeshIndices::U32(vec![0, 1, 2, 2, 3, 0, 9]);
    assert_eq!(extract_mesh_indices(Some(&u32s)), Some(vec![[0, 1, 2], [2, 3, 0]]));
    let u16s = MeshIndices::U16(vec![5, 6, 7]);
    assert_eq!(extract_mesh_indices(Some(&u16s)), Some(vec![[5, 6, 7]]));
    assert_eq!(extract_mesh_indices(None), None);
    assert_eq!(extract_mesh_indices(Some(&MeshIndices::U16(vec![1, 2]))), Some(vec![]));
}

#[test]
fn hex_colors() {
    assert_eq!(parse_hex_color("#ff0000"), Rgb8 { r: 255, g: 0, b: 0 });
    assert_eq!(parse_hex_color("##00Aa10"), Rgb8 { r: 0, g: 170, b: 16 });
    assert_eq!(parse_hex_color("+f0102"), Rgb8 { r: 15, g: 1, b: 2 });
    assert_eq!(parse_hex_color("#zz0102"), Rgb8 { r: 255, g: 1, b: 2 });
    assert_eq!(parse_hex_color("#fff"), Rgb8 { r: 255, g: 255, b: 255 });
    assert_eq!(parse_hex_color("#123456789"), Rgb8 { r: 0x12, g: 0x34, b: 0x56 });
}
