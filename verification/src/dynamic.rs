use vstd::prelude::*;

use crate::text::str_equals;

verus! {

/// Which parts of dynamic-object handling an app runs.
#[derive(Clone, Copy, Debug, PartialEq, Eq, Structural)]
pub struct DynamicPluginConfig {
    /// Whether to run trigger detection systems (server-only).
    pub enable_triggers: bool,
    /// Whether to enable visual action execution (client-only).
    pub enable_visuals: bool,
    /// Whether to enable debug visualization (viewer-only).
    pub enable_debug: bool,
}

/// The system groups the dynamic-object plugin registers beyond loading and
/// processing, which every mode runs.
#[derive(Clone, Copy, Debug, PartialEq, Eq, Structural)]
pub struct DynamicSystems {
    /// Trigger detection, trigger dispatch and state actions (fixed update).
    pub triggers: bool,
    /// Ticking of light effects.
    pub light_effects: bool,
    /// Debug settings, their startup configuration and visibility toggles.
    pub debug: bool,
}

impl DynamicPluginConfig {
    /// Server: load dynamic objects and run trigger detection.
    pub fn server() -> (c: Self)
        ensures
            c.enable_triggers && !c.enable_visuals && !c.enable_debug,
    {
        DynamicPluginConfig { enable_triggers: true, enable_visuals: false, enable_debug: false }
    }

    /// Client: load dynamic objects for visual rendering.
    pub fn client() -> (c: Self)
        ensures
            !c.enable_triggers && c.enable_visuals && !c.enable_debug,
    {
        DynamicPluginConfig { enable_triggers: false, enable_visuals: true, enable_debug: false }
    }

    /// World viewer: load with debug visualization.
    pub fn viewer() -> (c: Self)
        ensures
            !c.enable_triggers && !c.enable_visuals && c.enable_debug,
    {
        DynamicPluginConfig { enable_triggers: false, enable_visuals: false, enable_debug: true }
    }

    /// The system groups to register: triggers only with trigger detection,
    /// light effects with visuals or debug, debug tooling with debug.
    pub fn systems(&self) -> (s: DynamicSystems)
        ensures
            s.triggers == self.enable_triggers,
            s.light_effects == (self.enable_visuals || self.enable_debug),
            s.debug == self.enable_debug,
    {
        DynamicSystems {
            triggers: self.enable_triggers,
            light_effects: self.enable_visuals || self.enable_debug,
            debug: self.enable_debug,
        }
    }
}

/// What makes a trigger fire.
#[derive(Clone, Copy, Debug, PartialEq, Eq, Structural)]
pub enum TriggerType {
    PlayerOnEnter,
    PlayerOnExit,
    PlayerOnInteract,
}

/// What an action does when its trigger fires.
#[derive(Clone, Copy, Debug, PartialEq, Eq, Structural)]
pub enum ActionType {
    ToggleState,
    Collect,
    Enable,
    Disable,
    SetState,
    SetVisibility,
    MoveTo,
    RotateTo,
    ScaleTo,
    SetLightIntensity,
    SetLightColor,
    PlayAnimation,
    StopAnimation,
    DisplayText,
    HideText,
    PlaySound,
    StartLightEffect,
    StopLightEffect,
}

/// A parameter value of an action, as far as the state actions read it.
#[derive(Debug)]
pub enum ParamValue {
    Str(String),
    Bool(bool),
    /// A number; its value is read where it is applied.
    Number,
    /// An array, object or null.
    Other,
}

/// A trigger of a dynamic object with its named parameters.
#[derive(Debug)]
pub struct TriggerDef {
    pub trigger_type: TriggerType,
    pub params: Vec<(String, ParamValue)>,
}

/// An action with its named parameters.
#[derive(Debug)]
pub struct ActionDef {
    pub action_type: ActionType,
    pub params: Vec<(String, ParamValue)>,
}

/// The replicated state of a dynamic object.
#[derive(Debug)]
pub struct DynamicState {
    /// The name of the current state (e.g. "open", "closed", "idle").
    pub current: String,
    /// Whether `toggle_state` actions may change it.
    pub togglable: bool,
}

/// The parameter a name refers to: the first entry with that name.
pub open spec fn param_spec(params: Seq<(String, ParamValue)>, key: Seq<char>) -> Option<ParamValue>
    decreases params.len(),
{
    if params.len() == 0 {
        None
    } else if params[0].0@ == key {
        Some(params[0].1)
    } else {
        param_spec(params.skip(1), key)
    }
}

/// The string held by a parameter, if it is present and a string.
pub open spec fn param_str_spec(params: Seq<(String, ParamValue)>, key: Seq<char>) -> Option<Seq<char>> {
    match param_spec(params, key) {
        Some(ParamValue::Str(s)) => Some(s@),
        _ => None,
    }
}

/// The boolean held by a parameter, if it is present and a boolean.
pub open spec fn param_bool_spec(params: Seq<(String, ParamValue)>, key: Seq<char>) -> Option<bool> {
    match param_spec(params, key) {
        Some(ParamValue::Bool(b)) => Some(b),
        _ => None,
    }
}

/// Find the index of the first parameter called `key`.
fn find_param(params: &Vec<(String, ParamValue)>, key: &str) -> (r: Option<usize>)
    ensures
        match r {
            Some(i) => i < params@.len() && param_spec(params@, key@) == Some(params@[i as int].1)
                && params@[i as int].0@ == key@,
            None => param_spec(params@, key@) is None,
        },
{
    let mut i: usize = 0;
    assert(params@.skip(0) =~= params@);
    while i < params.len()
        invariant
            i <= params@.len(),
            param_spec(params@, key@) == param_spec(params@.skip(i as int), key@),
        decreases params.len() - i,
    {
        let ghost rest = params@.skip(i as int);
        assert(rest[0] == params@[i as int]);
        if str_equals(params[i].0.as_str(), key) {
            return Some(i);
        }
        assert(rest.skip(1) =~= params@.skip(i + 1));
        i = i + 1;
    }
    assert(params@.skip(i as int).len() == 0);
    None
}

/// The string parameter called `key`, if present and a string.
pub fn param_str(params: &Vec<(String, ParamValue)>, key: &str) -> (r: Option<String>)
    ensures
        match r {
            Some(s) => param_str_spec(params@, key@) == Some(s@),
            None => param_str_spec(params@, key@) is None,
        },
{
    match find_param(params, key) {
        Some(i) => match &params[i].1 {
            ParamValue::Str(s) => Some(s.clone()),
            _ => None,
        },
        None => None,
    }
}

/// The boolean parameter called `key`, if present and a boolean.
pub fn param_bool(params: &Vec<(String, ParamValue)>, key: &str) -> (r: Option<bool>)
    ensures
        r == param_bool_spec(params@, key@),
{
    match find_param(params, key) {
        Some(i) => match &params[i].1 {
            ParamValue::Bool(b) => Some(*b),
            _ => None,
        },
        None => None,
    }
}

/// The state a toggle leads to: open and closed swap, on and off swap,
/// active becomes idle, and every other state becomes active.
pub open spec fn toggled_state_spec(current: Seq<char>) -> Seq<char> {
    if current == "open"@ {
        "closed"@
    } else if current == "closed"@ {
        "open"@
    } else if current == "on"@ {
        "off"@
    } else if current == "off"@ {
        "on"@
    } else if current == "active"@ {
        "idle"@
    } else {
        "active"@
    }
}

/// The state a `toggle_state` action moves an object to.
pub fn toggled_state(current: &str) -> (r: String)
    ensures
        r@ == toggled_state_spec(current@),
{
    if str_equals(current, "open") {
        String::from_str("closed")
    } else if str_equals(current, "closed") {
        String::from_str("open")
    } else if str_equals(current, "on") {
        String::from_str("off")
    } else if str_equals(current, "off") {
        String::from_str("on")
    } else if str_equals(current, "active") {
        String::from_str("idle")
    } else {
        String::from_str("active")
    }
}

/// The change a state-mutating action makes on the server.
#[derive(Debug)]
pub enum StateEffect {
    /// Nothing changes (client-side action, or its preconditions fail).
    Unchanged,
    /// The object's state becomes the given name.
    SetState(String),
    /// The object is collected and despawned.
    Despawn,
    /// The enabled flag of an object changes: of the object named by the
    /// action's `target` parameter when one is given (and registered), else
    /// of the object the action belongs to.
    SetEnabled { target: Option<String>, enabled: bool },
    /// The object's visibility changes.
    SetVisible(bool),
}

/// Decide what a state action does to the object it belongs to, given the
/// object's state (`None` when the object has no dynamic state).
///
/// Handles `toggle_state` (only on togglable objects), `collect`, `enable`,
/// `disable`, `set_state` (with a string `value`) and `set_visibility`
/// (with a boolean `visible`, visible by default); all other actions are
/// visual and leave the server state unchanged.
pub fn state_action_effect(action: &ActionDef, state: Option<&DynamicState>) -> (e: StateEffect)
    ensures
        action.action_type == ActionType::ToggleState ==> match state {
            Some(st) => if st.togglable {
                e matches StateEffect::SetState(s) && s@ == toggled_state_spec(st.current@)
            } else {
                e is Unchanged
            },
            None => e is Unchanged,
        },
        action.action_type == ActionType::Collect ==> (if state is Some {
            e is Despawn
        } else {
            e is Unchanged
        }),
        action.action_type == ActionType::Enable || action.action_type == ActionType::Disable
            ==> match e {
            StateEffect::SetEnabled { target, enabled } => {
                &&& enabled == (action.action_type == ActionType::Enable)
                &&& target_matches(action.params@, target)
            },
            _ => false,
        },
        action.action_type == ActionType::SetState ==> match (
            param_str_spec(action.params@, "value"@),
            state,
        ) {
            (Some(v), Some(_)) => e matches StateEffect::SetState(s) && s@ == v,
            _ => e is Unchanged,
        },
        action.action_type == ActionType::SetVisibility ==> e == StateEffect::SetVisible(
            match param_bool_spec(action.params@, "visible"@) {
                Some(b) => b,
                None => true,
            },
        ),
        !(action.action_type == ActionType::ToggleState || action.action_type
            == ActionType::Collect || action.action_type == ActionType::Enable
            || action.action_type == ActionType::Disable || action.action_type
            == ActionType::SetState || action.action_type == ActionType::SetVisibility) ==> e is Unchanged,
{
    match action.action_type {
        ActionType::ToggleState => match state {
            Some(st) => {
                if st.togglable {
                    StateEffect::SetState(toggled_state(st.current.as_str()))
                } else {
                    StateEffect::Unchanged
                }
            },
            None => StateEffect::Unchanged,
        },
        ActionType::Collect => match state {
            Some(_) => StateEffect::Despawn,
            None => StateEffect::Unchanged,
        },
        ActionType::Enable => StateEffect::SetEnabled {
            target: param_str(&action.params, "target"),
            enabled: true,
        },
        ActionType::Disable => StateEffect::SetEnabled {
            target: param_str(&action.params, "target"),
            enabled: false,
        },
        ActionType::SetState => match param_str(&action.params, "value") {
            Some(v) => match state {
                Some(_) => StateEffect::SetState(v),
                None => StateEffect::Unchanged,
            },
            None => StateEffect::Unchanged,
        },
        ActionType::SetVisibility => {
            let visible = match param_bool(&action.params, "visible") {
                Some(b) => b,
                None => true,
            };
            StateEffect::SetVisible(visible)
        },
        _ => StateEffect::Unchanged,
    }
}

/// The entity registered under a name: the first registry entry with that
/// name (names are unique in the registry the loader builds).
pub open spec fn registry_lookup_spec(registry: Seq<(String, u64)>, name: Seq<char>) -> Option<u64>
    decreases registry.len(),
{
    if registry.len() == 0 {
        None
    } else if registry[0].0@ == name {
        Some(registry[0].1)
    } else {
        registry_lookup_spec(registry.skip(1), name)
    }
}

/// The entity an enable or disable action acts on: the entity registered
/// under the action's `target` string parameter, when there is one and the
/// registry exists and holds that name; otherwise the acting object.
pub open spec fn action_target_spec(
    params: Seq<(String, ParamValue)>,
    registry: Option<Seq<(String, u64)>>,
    acting: u64,
) -> u64 {
    match (param_str_spec(params, "target"@), registry) {
        (Some(name), Some(reg)) => match registry_lookup_spec(reg, name) {
            Some(e) => e,
            None => acting,
        },
        _ => acting,
    }
}

fn registry_lookup(registry: &Vec<(String, u64)>, name: &str) -> (r: Option<u64>)
    ensures
        r == registry_lookup_spec(registry@, name@),
{
    let mut i: usize = 0;
    assert(registry@.skip(0) =~= registry@);
    while i < registry.len()
        invariant
            i <= registry@.len(),
            registry_lookup_spec(registry@, name@) == registry_lookup_spec(registry@.skip(i as int), name@),
        decreases registry.len() - i,
    {
        let ghost rest = registry@.skip(i as int);
        assert(rest[0] == registry@[i as int]);
        if str_equals(registry[i].0.as_str(), name) {
            return Some(registry[i].1);
        }
        assert(rest.skip(1) =~= registry@.skip(i + 1));
        i = i + 1;
    }
    assert(registry@.skip(i as int).len() == 0);
    None
}

/// Resolve the entity an enable or disable action acts on, from the
/// registry of dynamic objects (name to entity id, absent before the
/// objects are loaded) and the acting object's entity id.
pub fn action_target(action: &ActionDef, registry: Option<&Vec<(String, u64)>>, acting: u64) -> (e: u64)
    ensures
        e == action_target_spec(
            action.params@,
            match registry {
                Some(r) => Some(r@),
                None => None,
            },
            acting,
        ),
{
    match param_str(&action.params, "target") {
        Some(name) => match registry {
            Some(reg) => match registry_lookup(reg, name.as_str()) {
                Some(e) => e,
                None => acting,
            },
            None => acting,
        },
        None => acting,
    }
}

/// The state section of a dynamic object's configuration.
#[derive(Debug)]
pub struct StateConfig {
    /// The state the object starts in.
    pub initial: String,
    /// Whether `toggle_state` actions may change it.
    pub toggle: bool,
}

/// The starting state of a dynamic object: the configured initial state and
/// toggle flag, or a non-togglable "idle" state when none is configured.
pub fn initial_dynamic_state(config: Option<&StateConfig>) -> (st: DynamicState)
    ensures
        match config {
            Some(sc) => st.current@ == sc.initial@ && st.togglable == sc.toggle,
            None => st.current@ == "idle"@ && !st.togglable,
        },
{
    match config {
        Some(sc) => DynamicState { current: sc.initial.clone(), togglable: sc.toggle },
        None => DynamicState { current: String::from_str("idle"), togglable: false },
    }
}

/// Whether some trigger fires on entering or leaving the object's volume.
pub open spec fn needs_sensor_spec(triggers: Seq<TriggerDef>) -> bool {
    exists|i: int|
        0 <= i < triggers.len() && (#[trigger] triggers[i].trigger_type == TriggerType::PlayerOnEnter
            || triggers[i].trigger_type == TriggerType::PlayerOnExit)
}

/// Whether the object needs a sensor collider: some trigger of it fires on
/// enter or exit.
pub fn needs_sensor(triggers: &Vec<TriggerDef>) -> (r: bool)
    ensures
        r == needs_sensor_spec(triggers@),
{
    let mut i: usize = 0;
    while i < triggers.len()
        invariant
            i <= triggers@.len(),
            forall|j: int|
                0 <= j < i ==> #[trigger] triggers@[j].trigger_type != TriggerType::PlayerOnEnter
                    && triggers@[j].trigger_type != TriggerType::PlayerOnExit,
        decreases triggers.len() - i,
    {
        if triggers[i].trigger_type == TriggerType::PlayerOnEnter || triggers[i].trigger_type
            == TriggerType::PlayerOnExit {
            return true;
        }
        i = i + 1;
    }
    false
}

/// A trigger that supplies the interaction radius: an interact trigger
/// whose `radius` parameter is a number.
pub open spec fn supplies_radius(t: TriggerDef) -> bool {
    t.trigger_type == TriggerType::PlayerOnInteract && param_spec(t.params@, "radius"@) matches Some(
        ParamValue::Number,
    )
}

/// The trigger whose `radius` becomes the object's interaction radius: the
/// first interact trigger with a numeric `radius` parameter; `None` when
/// there is none (the object then gets no interaction radius).
pub fn interaction_radius_trigger(triggers: &Vec<TriggerDef>) -> (r: Option<usize>)
    ensures
        match r {
            Some(i) => i < triggers@.len() && supplies_radius(triggers@[i as int]) && forall|j: int|
                0 <= j < i ==> !#[trigger] supplies_radius(triggers@[j]),
            None => forall|j: int| 0 <= j < triggers@.len() ==> !#[trigger] supplies_radius(triggers@[j]),
        },
{
    let mut i: usize = 0;
    while i < triggers.len()
        invariant
            i <= triggers@.len(),
            forall|j: int| 0 <= j < i ==> !#[trigger] supplies_radius(triggers@[j]),
        decreases triggers.len() - i,
    {
        if triggers[i].trigger_type == TriggerType::PlayerOnInteract {
            match find_param(&triggers[i].params, "radius") {
                Some(k) => match &triggers[i].params[k].1 {
                    ParamValue::Number => {
                        return Some(i);
                    },
                    _ => {},
                },
                None => {},
            }
        }
        i = i + 1;
    }
    None
}

/// What to build from a dynamic object's mesh.
#[derive(Clone, Copy, Debug, PartialEq, Eq, Structural)]
pub struct MeshPlan {
    /// Whether the mesh data is read at all.
    pub read_mesh: bool,
    /// Whether a trimesh sensor collider is attached.
    pub sensor_collider: bool,
    /// Whether a visual child with the original material is spawned.
    pub visual_child: bool,
    /// Whether a hidden debug child is spawned (when debug settings exist).
    pub debug_child: bool,
}

impl DynamicPluginConfig {
    /// What to build from an object's mesh: the mesh is read when a sensor,
    /// visuals or debug visualisation need it; each of those is built when
    /// needed.
    pub fn mesh_plan(&self, needs_sensor: bool) -> (p: MeshPlan)
        ensures
            p.read_mesh == (needs_sensor || self.enable_visuals || self.enable_debug),
            p.sensor_collider == needs_sensor,
            p.visual_child == self.enable_visuals,
            p.debug_child == self.enable_debug,
    {
        MeshPlan {
            read_mesh: needs_sensor || self.enable_visuals || self.enable_debug,
            sensor_collider: needs_sensor,
            visual_child: self.enable_visuals,
            debug_child: self.enable_debug,
        }
    }
}

/// The two-way states: toggling swaps them in pairs.
pub open spec fn is_two_way_state(s: Seq<char>) -> bool {
    s == "open"@ || s == "closed"@ || s == "on"@ || s == "off"@ || s == "active"@ || s == "idle"@
}

/// Toggling a two-way state twice gives the state back; toggling any other
/// state once gives "active", and twice gives "idle". A toggle always
/// changes the state and always lands on a two-way state.
pub proof fn lemma_toggle_twice(s: Seq<char>)
    ensures
        is_two_way_state(s) ==> toggled_state_spec(toggled_state_spec(s)) == s,
        !is_two_way_state(s) ==> toggled_state_spec(s) == "active"@ && toggled_state_spec(
            toggled_state_spec(s),
        ) == "idle"@,
        toggled_state_spec(s) != s,
        is_two_way_state(toggled_state_spec(s)),
{
    reveal_strlit("open");
    reveal_strlit("closed");
    reveal_strlit("on");
    reveal_strlit("off");
    reveal_strlit("active");
    reveal_strlit("idle");
    assert("open"@ =~= seq!['o', 'p', 'e', 'n']);
    assert("closed"@ =~= seq!['c', 'l', 'o', 's', 'e', 'd']);
    assert("on"@ =~= seq!['o', 'n']);
    assert("off"@ =~= seq!['o', 'f', 'f']);
    assert("active"@ =~= seq!['a', 'c', 't', 'i', 'v', 'e']);
    assert("idle"@ =~= seq!['i', 'd', 'l', 'e']);
    assert("open"@ != "closed"@ && "open"@ != "on"@ && "open"@ != "off"@ && "open"@ != "active"@);
    assert("closed"@ != "on"@ && "closed"@ != "off"@ && "closed"@ != "active"@);
    assert("on"@ != "off"@ && "on"@ != "active"@ && "off"@ != "active"@);
    assert("idle"@ != "open"@ && "idle"@ != "closed"@ && "idle"@ != "on"@ && "idle"@ != "off"@
        && "idle"@ != "active"@);
}

/// The client-side effect of a visual action, with its text parameters
/// read and defaulted; numeric parameters are read where they are applied.
#[derive(Debug)]
pub enum VisualEffect {
    /// State actions, handled by the server.
    ServerSide,
    /// Set the intensity of the lights named `target` (if given).
    LightIntensity { target: Option<String> },
    /// Set the color of the lights named `target` (if given) to the hex
    /// color `color` ("#ffffff" by default).
    LightColor { target: Option<String>, color: String },
    /// Play the named animation ("default" by default) on the object.
    PlayAnimation { animation: String },
    StopAnimation,
    /// Show a text ("" by default) to the triggering player.
    DisplayText { text: String },
    HideText,
    /// Play the named sound ("" by default).
    PlaySound { sound: String },
    StartLightEffect,
    StopLightEffect,
    /// Start a translation, rotation or scale tween on the object.
    Tween,
}

/// A string parameter, or `default` when it is absent or not a string.
pub open spec fn param_str_or(params: Seq<(String, ParamValue)>, key: Seq<char>, default: Seq<char>) -> Seq<char> {
    match param_str_spec(params, key) {
        Some(s) => s,
        None => default,
    }
}

fn param_str_or_default(params: &Vec<(String, ParamValue)>, key: &str, default: &str) -> (r: String)
    ensures
        r@ == param_str_or(params@, key@, default@),
{
    match param_str(params, key) {
        Some(s) => s,
        None => String::from_str(default),
    }
}

/// Whether a target parameter matches: `target` agrees with the `"target"`
/// string parameter.
pub open spec fn target_matches(params: Seq<(String, ParamValue)>, target: Option<String>) -> bool {
    match target {
        Some(t) => param_str_spec(params, "target"@) == Some(t@),
        None => param_str_spec(params, "target"@) is None,
    }
}

/// Decide the client-side effect of an action.
pub fn visual_action_effect(action: &ActionDef) -> (e: VisualEffect)
    ensures
        match action.action_type {
            ActionType::SetLightIntensity => e matches VisualEffect::LightIntensity { target }
                && target_matches(action.params@, target),
            ActionType::SetLightColor => e matches VisualEffect::LightColor { target, color }
                && target_matches(action.params@, target) && color@ == param_str_or(
                action.params@,
                "color"@,
                "#ffffff"@,
            ),
            ActionType::PlayAnimation => e matches VisualEffect::PlayAnimation { animation }
                && animation@ == param_str_or(action.params@, "animation"@, "default"@),
            ActionType::StopAnimation => e is StopAnimation,
            ActionType::DisplayText => e matches VisualEffect::DisplayText { text } && text@
                == param_str_or(action.params@, "text"@, ""@),
            ActionType::HideText => e is HideText,
            ActionType::PlaySound => e matches VisualEffect::PlaySound { sound } && sound@
                == param_str_or(action.params@, "sound"@, ""@),
            ActionType::StartLightEffect => e is StartLightEffect,
            ActionType::StopLightEffect => e is StopLightEffect,
            ActionType::MoveTo | ActionType::RotateTo | ActionType::ScaleTo => e is Tween,
            _ => e is ServerSide,
        },
{
    match action.action_type {
        ActionType::SetLightIntensity => VisualEffect::LightIntensity {
            target: param_str(&action.params, "target"),
        },
        ActionType::SetLightColor => VisualEffect::LightColor {
            target: param_str(&action.params, "target"),
            color: param_str_or_default(&action.params, "color", "#ffffff"),
        },
        ActionType::PlayAnimation => VisualEffect::PlayAnimation {
            animation: param_str_or_default(&action.params, "animation", "default"),
        },
        ActionType::StopAnimation => VisualEffect::StopAnimation,
        ActionType::DisplayText => VisualEffect::DisplayText {
            text: param_str_or_default(&action.params, "text", ""),
        },
        ActionType::HideText => VisualEffect::HideText,
        ActionType::PlaySound => VisualEffect::PlaySound {
            sound: param_str_or_default(&action.params, "sound", ""),
        },
        ActionType::StartLightEffect => VisualEffect::StartLightEffect,
        ActionType::StopLightEffect => VisualEffect::StopLightEffect,
        ActionType::MoveTo | ActionType::RotateTo | ActionType::ScaleTo => VisualEffect::Tween,
        _ => VisualEffect::ServerSide,
    }
}

} // verus!
