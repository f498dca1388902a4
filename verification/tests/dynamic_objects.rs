use game_logic::dynamic::{
    action_target, initial_dynamic_state, interaction_radius_trigger, needs_sensor,
    state_action_effect, toggled_state, visual_action_effect, ActionDef, ActionType,
    DynamicPluginConfig, DynamicState, ParamValue, StateConfig, StateEffect, TriggerDef,
    TriggerType, VisualEffect,
};

fn trigger(trigger_type: TriggerType, params: Vec<(&str, ParamValue)>) -> TriggerDef {
    TriggerDef {
        trigger_type,
        params: params.into_iter().map(|(k, v)| (k.to_string(), v)).collect(),
    }
}

fn action(action_type: ActionType, params: Vec<(&str, ParamValue)>) -> ActionDef {
    ActionDef {
        action_type,
        params: params.into_iter().map(|(k, v)| (k.to_string(), v)).collect(),
    }
}

fn state(current: &str, togglable: bool) -> DynamicState {
    DynamicState { current: current.to_string(), togglable }
}

#[test]
fn toggle_pairs() {
    assert_eq!(toggled_state("open"), "closed");
    assert_eq!(toggled_state("closed"), "open");
    assert_eq!(toggled_state("on"), "off");
    assert_eq!(toggled_state("off"), "on");
    assert_eq!(toggled_state("active"), "idle");
    assert_eq!(toggled_state("idle"), "active");
    assert_eq!(toggled_state("broken"), "active");
}

#[test]
fn toggle_twice_returns_for_two_way_states() {
    for s in ["open", "closed", "on", "off", "active", "idle"] {
        assert_eq!(toggled_state(&toggled_state(s)), s);
    }
    assert_eq!(toggled_state(&toggled_state("ajar")), "idle");
}

#[test]
fn toggle_action_needs_togglable_state() {
    let toggle = action(ActionType::ToggleState, vec![]);
    match state_action_effect(&toggle, Some(&state("open", true))) {
        StateEffect::SetState(s) => assert_eq!(s, "closed"),
        other => panic!("unexpected {:?}", other),
    }
    assert!(matches!(state_action_effect(&toggle, Some(&state("open", false))), StateEffect::Unchanged));
    assert!(matches!(state_action_effect(&toggle, None), StateEffect::Unchanged));
}

#[test]
fn collect_despawns_objects_with_state() {
    let collect = action(ActionType::Collect, vec![]);
    assert!(matches!(state_action_effect(&collect, Some(&state("idle", false))), StateEffect::Despawn));
    assert!(matches!(state_action_effect(&collect, None), StateEffect::Unchanged));
}

#[test]
fn enable_and_disable_name_their_target() {
    let enable = action(ActionType::Enable, vec![("target", ParamValue::Str("lamp".to_string()))]);
    match state_action_effect(&enable, None) {
        StateEffect::SetEnabled { target, enabled } => {
            assert_eq!(target.as_deref(), Some("lamp"));
            assert!(enabled);
        }
        other => panic!("unexpected {:?}", other),
    }
    let disable = action(ActionType::Disable, vec![("target", ParamValue::Bool(true))]);
    match state_action_effect(&disable, None) {
        StateEffect::SetEnabled { target, enabled } => {
            assert_eq!(target, None);
            assert!(!enabled);
        }
        other => panic!("unexpected {:?}", other),
    }
}

#[test]
fn set_state_needs_a_string_value_and_a_state() {
    let set = action(ActionType::SetState, vec![("value", ParamValue::Str("broken".to_string()))]);
    match state_action_effect(&set, Some(&state("idle", false))) {
        StateEffect::SetState(s) => assert_eq!(s, "broken"),
        other => panic!("unexpected {:?}", other),
    }
    assert!(matches!(state_action_effect(&set, None), StateEffect::Unchanged));
    let bad = action(ActionType::SetState, vec![("value", ParamValue::Other)]);
    assert!(matches!(state_action_effect(&bad, Some(&state("idle", false))), StateEffect::Unchanged));
}

#[test]
fn set_visibility_defaults_to_visible() {
    let hide = action(ActionType::SetVisibility, vec![("visible", ParamValue::Bool(false))]);
    assert!(matches!(state_action_effect(&hide, None), StateEffect::SetVisible(false)));
    let show = action(ActionType::SetVisibility, vec![("visible", ParamValue::Str("no".to_string()))]);
    assert!(matches!(state_action_effect(&show, None), StateEffect::SetVisible(true)));
}

#[test]
fn first_parameter_of_a_name_wins() {
    let set = action(
        ActionType::SetState,
        vec![
            ("value", ParamValue::Str("first".to_string())),
            ("value", ParamValue::Str("second".to_string())),
        ],
    );
    match state_action_effect(&set, Some(&state("idle", false))) {
        StateEffect::SetState(s) => assert_eq!(s, "first"),
        other => panic!("unexpected {:?}", other),
    }
}

#[test]
fn visual_actions_leave_server_state() {
    let play = action(ActionType::PlayAnimation, vec![]);
    assert!(matches!(state_action_effect(&play, Some(&state("idle", true))), StateEffect::Unchanged));
}

#[test]
fn visual_effects_read_and_default_parameters() {
    match visual_action_effect(&action(ActionType::PlayAnimation, vec![])) {
        VisualEffect::PlayAnimation { animation } => assert_eq!(animation, "default"),
        other => panic!("unexpected {:?}", other),
    }
    match visual_action_effect(&action(
        ActionType::SetLightColor,
        vec![("target", ParamValue::Str("red".to_string()))],
    )) {
        VisualEffect::LightColor { target, color } => {
            assert_eq!(target.as_deref(), Some("red"));
            assert_eq!(color, "#ffffff");
        }
        other => panic!("unexpected {:?}", other),
    }
    match visual_action_effect(&action(
        ActionType::DisplayText,
        vec![("text", ParamValue::Str("Hello".to_string()))],
    )) {
        VisualEffect::DisplayText { text } => assert_eq!(text, "Hello"),
        other => panic!("unexpected {:?}", other),
    }
    assert!(matches!(visual_action_effect(&action(ActionType::RotateTo, vec![])), VisualEffect::Tween));
    assert!(matches!(visual_action_effect(&action(ActionType::Collect, vec![])), VisualEffect::ServerSide));
}

#[test]
fn initial_state_from_config() {
    let configured = StateConfig { initial: "closed".to_string(), toggle: true };
    let st = initial_dynamic_state(Some(&configured));
    assert_eq!(st.current, "closed");
    assert!(st.togglable);
    let st = initial_dynamic_state(None);
    assert_eq!(st.current, "idle");
    assert!(!st.togglable);
}

#[test]
fn sensors_for_enter_and_exit_triggers() {
    assert!(needs_sensor(&vec![
        trigger(TriggerType::PlayerOnInteract, vec![]),
        trigger(TriggerType::PlayerOnExit, vec![]),
    ]));
    assert!(needs_sensor(&vec![trigger(TriggerType::PlayerOnEnter, vec![])]));
    assert!(!needs_sensor(&vec![trigger(TriggerType::PlayerOnInteract, vec![])]));
    assert!(!needs_sensor(&vec![]));
}

#[test]
fn interaction_radius_from_first_numeric_interact_trigger() {
    let triggers = vec![
        trigger(TriggerType::PlayerOnEnter, vec![("radius", ParamValue::Number)]),
        trigger(TriggerType::PlayerOnInteract, vec![("radius", ParamValue::Str("2".to_string()))]),
        trigger(TriggerType::PlayerOnInteract, vec![("other", ParamValue::Number)]),
        trigger(TriggerType::PlayerOnInteract, vec![("radius", ParamValue::Number)]),
        trigger(TriggerType::PlayerOnInteract, vec![("radius", ParamValue::Number)]),
    ];
    assert_eq!(interaction_radius_trigger(&triggers), Some(3));
    let without = vec![
        trigger(TriggerType::PlayerOnEnter, vec![("radius", ParamValue::Number)]),
        trigger(TriggerType::PlayerOnInteract, vec![("radius", ParamValue::Str("2".to_string()))]),
        trigger(TriggerType::PlayerOnInteract, vec![("other", ParamValue::Number)]),
    ];
    assert_eq!(interaction_radius_trigger(&without), None);
    assert_eq!(interaction_radius_trigger(&vec![]), None);
}

#[test]
fn enable_target_resolution() {
    let registry = vec![("door".to_string(), 11u64), ("lamp".to_string(), 12u64)];
    let with_target = action(ActionType::Enable, vec![("target", ParamValue::Str("lamp".to_string()))]);
    assert_eq!(action_target(&with_target, Some(&registry), 5), 12);
    assert_eq!(action_target(&with_target, None, 5), 5);
    let unknown = action(ActionType::Disable, vec![("target", ParamValue::Str("gate".to_string()))]);
    assert_eq!(action_target(&unknown, Some(&registry), 5), 5);
    let none = action(ActionType::Disable, vec![("target", ParamValue::Number)]);
    assert_eq!(action_target(&none, Some(&registry), 5), 5);
}

#[test]
fn plugin_modes_and_systems() {
    let server = DynamicPluginConfig::server();
    let s = server.systems();
    assert!(s.triggers && !s.light_effects && !s.debug);
    let client = DynamicPluginConfig::client();
    let s = client.systems();
    assert!(!s.triggers && s.light_effects && !s.debug);
    let viewer = DynamicPluginConfig::viewer();
    let s = viewer.systems();
    assert!(!s.triggers && s.light_effects && s.debug);
    let p = server.mesh_plan(false);
    assert!(!p.read_mesh && !p.sensor_collider && !p.visual_child && !p.debug_child);
    let p = server.mesh_plan(true);
    assert!(p.read_mesh && p.sensor_collider);
    let p = client.mesh_plan(false);
    assert!(p.read_mesh && p.visual_child && !p.sensor_collider);
}
