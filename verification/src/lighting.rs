use vstd::prelude::*;

verus! {

/// Shadow quality presets.
#[derive(Clone, Copy, Debug, PartialEq, Eq, Structural)]
pub enum ShadowQuality {
    /// Minimal shadows - 1 cascade, 50m distance
    Low,
    /// Balanced shadows - 2 cascades, 100m distance
    Medium,
    /// High quality shadows - 4 cascades, 200m distance
    High,
    /// Ultra quality shadows - 4 cascades, 300m distance
    Ultra,
    /// Shadows disabled
    Disabled,
}

/// The preset after `q` in the debug cycle
/// Disabled → Low → Medium → High → Ultra → Disabled.
pub open spec fn next_quality_spec(q: ShadowQuality) -> ShadowQuality {
    match q {
        ShadowQuality::Disabled => ShadowQuality::Low,
        ShadowQuality::Low => ShadowQuality::Medium,
        ShadowQuality::Medium => ShadowQuality::High,
        ShadowQuality::High => ShadowQuality::Ultra,
        ShadowQuality::Ultra => ShadowQuality::Disabled,
    }
}

impl ShadowQuality {
    /// The number of shadow cascades of the preset's cascade configuration.
    pub fn cascade_count(&self) -> (n: usize)
        ensures
            n == match *self {
                ShadowQuality::Low => 1usize,
                ShadowQuality::Medium => 2usize,
                ShadowQuality::High => 4usize,
                ShadowQuality::Ultra => 4usize,
                ShadowQuality::Disabled => 1usize,
            },
    {
        match self {
            ShadowQuality::Low => 1,
            ShadowQuality::Medium => 2,
            ShadowQuality::High => 4,
            ShadowQuality::Ultra => 4,
            ShadowQuality::Disabled => 1,
        }
    }

    /// The next preset in the debug cycle.
    pub fn next(&self) -> (q: ShadowQuality)
        ensures
            q == next_quality_spec(*self),
    {
        match self {
            ShadowQuality::Disabled => ShadowQuality::Low,
            ShadowQuality::Low => ShadowQuality::Medium,
            ShadowQuality::Medium => ShadowQuality::High,
            ShadowQuality::High => ShadowQuality::Ultra,
            ShadowQuality::Ultra => ShadowQuality::Disabled,
        }
    }
}

/// Cycling through the presets five times returns to the start.
pub proof fn lemma_quality_cycle(q: ShadowQuality)
    ensures
        next_quality_spec(next_quality_spec(next_quality_spec(next_quality_spec(next_quality_spec(q)))))
            == q,
        next_quality_spec(q) != q,
{
}

/// Global lighting configuration.
#[derive(Clone, Copy, Debug, PartialEq, Eq, Structural)]
pub struct LightingConfig {
    pub shadow_quality: ShadowQuality,
    pub shadows_enabled: bool,
    pub ambient_enabled: bool,
    pub debug_mode: bool,
}

impl Default for LightingConfig {
    fn default() -> (c: Self)
        ensures
            c.shadow_quality == ShadowQuality::Medium,
            c.shadows_enabled,
            c.ambient_enabled,
            !c.debug_mode,
    {
        LightingConfig {
            shadow_quality: ShadowQuality::Medium,
            shadows_enabled: true,
            ambient_enabled: true,
            debug_mode: false,
        }
    }
}

/// The configuration after one frame of the debug keys: F3 flips shadows on
/// or off, F4 advances the quality preset.
pub open spec fn debug_keys_spec(c: LightingConfig, toggle_shadows: bool, cycle_quality: bool) -> LightingConfig {
    LightingConfig {
        shadows_enabled: if toggle_shadows {
            !c.shadows_enabled
        } else {
            c.shadows_enabled
        },
        shadow_quality: if cycle_quality {
            next_quality_spec(c.shadow_quality)
        } else {
            c.shadow_quality
        },
        ..c
    }
}

impl LightingConfig {
    /// Whether the main directional light casts shadows: shadows are on and
    /// the preset is not `Disabled`.
    pub fn directional_shadows_enabled(&self) -> (b: bool)
        ensures
            b == (self.shadows_enabled && self.shadow_quality != ShadowQuality::Disabled),
    {
        self.shadows_enabled && self.shadow_quality != ShadowQuality::Disabled
    }

    /// Apply the debug keys pressed this frame (F3 toggles shadows, F4
    /// cycles the quality preset).
    pub fn apply_debug_keys(&mut self, toggle_shadows: bool, cycle_quality: bool)
        ensures
            *final(self) == debug_keys_spec(*old(self), toggle_shadows, cycle_quality),
    {
        if toggle_shadows {
            self.shadows_enabled = !self.shadows_enabled;
        }
        if cycle_quality {
            self.shadow_quality = self.shadow_quality.next();
        }
    }
}

/// Pressing the shadow toggle twice restores the configuration, and a frame
/// without debug keys changes nothing.
pub proof fn lemma_debug_keys(c: LightingConfig)
    ensures
        debug_keys_spec(debug_keys_spec(c, true, false), true, false) == c,
        debug_keys_spec(c, false, false) == c,
{
}

/// The debug keys change nothing but the shadow switch and the quality
/// preset: F3 flips shadows on or off, F4 moves the preset one step along
/// Disabled, Low, Medium, High, Ultra and back to Disabled; ambient light
/// and debug mode are left as they were.
pub proof fn lemma_debug_keys_effect(c: LightingConfig, toggle_shadows: bool, cycle_quality: bool)
    ensures
        ({
            let r = debug_keys_spec(c, toggle_shadows, cycle_quality);
            &&& r.ambient_enabled == c.ambient_enabled
            &&& r.debug_mode == c.debug_mode
            &&& r.shadows_enabled == (c.shadows_enabled != toggle_shadows)
            &&& !cycle_quality ==> r.shadow_quality == c.shadow_quality
            &&& cycle_quality ==> r.shadow_quality == match c.shadow_quality {
                ShadowQuality::Disabled => ShadowQuality::Low,
                ShadowQuality::Low => ShadowQuality::Medium,
                ShadowQuality::Medium => ShadowQuality::High,
                ShadowQuality::High => ShadowQuality::Ultra,
                ShadowQuality::Ultra => ShadowQuality::Disabled,
            }
        }),
{
}

/// Plugin settings for world lighting and shadows.
#[derive(Clone, Copy, Debug, PartialEq, Eq, Structural)]
pub struct LightingPlugin {
    /// Initial shadow quality setting
    pub shadow_quality: ShadowQuality,
    /// Enable shadow debugging visualizations
    pub debug_shadows: bool,
}

impl Default for LightingPlugin {
    fn default() -> (p: Self)
        ensures
            p.shadow_quality == ShadowQuality::Medium,
            !p.debug_shadows,
    {
        LightingPlugin { shadow_quality: ShadowQuality::Medium, debug_shadows: false }
    }
}

impl LightingPlugin {
    /// The lighting configuration the plugin installs: its quality preset,
    /// shadows and ambient light on, debug mode as configured.
    pub fn initial_config(&self) -> (c: LightingConfig)
        ensures
            c.shadow_quality == self.shadow_quality,
            c.shadows_enabled,
            c.ambient_enabled,
            c.debug_mode == self.debug_shadows,
    {
        LightingConfig {
            shadow_quality: self.shadow_quality,
            shadows_enabled: true,
            ambient_enabled: true,
            debug_mode: self.debug_shadows,
        }
    }
}

/// Full baked lighting (best performance).
#[derive(Clone, Copy, Debug, PartialEq, Eq, Structural)]
pub struct FullBaked {
    /// Disable real-time directional light shadows
    pub disable_realtime_shadows: bool,
    /// Keep minimal real-time lighting for dynamic objects
    pub minimal_realtime: bool,
}

impl Default for FullBaked {
    fn default() -> (f: Self)
        ensures
            f.disable_realtime_shadows,
            f.minimal_realtime,
    {
        FullBaked { disable_realtime_shadows: true, minimal_realtime: true }
    }
}

/// Memory usage calculator for lightmaps.
pub struct LightmapMemory;

/// Bytes taken by `num_maps` square lightmaps of side `resolution`.
pub open spec fn lightmap_usage_spec(resolution: int, num_maps: int, bytes_per_pixel: int) -> int {
    resolution * resolution * bytes_per_pixel * num_maps
}

impl LightmapMemory {
    /// Calculate memory usage for lightmaps, in bytes.
    pub fn calculate_usage(resolution: u32, num_maps: usize, bytes_per_pixel: usize) -> (bytes: usize)
        requires
            resolution * resolution <= u32::MAX,
            lightmap_usage_spec(resolution as int, num_maps as int, bytes_per_pixel as int)
                <= usize::MAX,
        ensures
            bytes == lightmap_usage_spec(resolution as int, num_maps as int, bytes_per_pixel as int),
    {
        let pixels_per_map = (resolution * resolution) as usize;
        assert(pixels_per_map * bytes_per_pixel <= pixels_per_map * bytes_per_pixel * num_maps
            || num_maps == 0) by (nonlinear_arith);
        assert(pixels_per_map * bytes_per_pixel * num_maps == lightmap_usage_spec(
            resolution as int,
            num_maps as int,
            bytes_per_pixel as int,
        )) by (nonlinear_arith)
            requires
                pixels_per_map == resolution * resolution,
        ;
        if num_maps == 0 {
            assert(lightmap_usage_spec(resolution as int, 0, bytes_per_pixel as int) == 0)
                by (nonlinear_arith);
            return 0;
        }
        let per_map = pixels_per_map * bytes_per_pixel;
        per_map * num_maps
    }
}

/// Lightmap memory adds up map by map: no maps take no memory, one more
/// map adds one map's worth, and one map of one byte per texel takes one
/// byte per texel of the square.
pub proof fn lemma_usage_per_map(resolution: int, num_maps: int, bytes_per_pixel: int)
    ensures
        lightmap_usage_spec(resolution, 0, bytes_per_pixel) == 0,
        lightmap_usage_spec(resolution, num_maps + 1, bytes_per_pixel) == lightmap_usage_spec(
            resolution,
            num_maps,
            bytes_per_pixel,
        ) + lightmap_usage_spec(resolution, 1, bytes_per_pixel),
        lightmap_usage_spec(resolution, 1, 1) == resolution * resolution,
        lightmap_usage_spec(resolution, 1, bytes_per_pixel + 1) == lightmap_usage_spec(
            resolution,
            1,
            bytes_per_pixel,
        ) + resolution * resolution,
{
    assert(lightmap_usage_spec(resolution, 0, bytes_per_pixel) == 0) by (nonlinear_arith);
    assert(lightmap_usage_spec(resolution, num_maps + 1, bytes_per_pixel) == lightmap_usage_spec(
        resolution,
        num_maps,
        bytes_per_pixel,
    ) + lightmap_usage_spec(resolution, 1, bytes_per_pixel)) by (nonlinear_arith);
    assert(lightmap_usage_spec(resolution, 1, bytes_per_pixel + 1) == lightmap_usage_spec(
        resolution,
        1,
        bytes_per_pixel,
    ) + resolution * resolution) by (nonlinear_arith);
}

/// Doubling the resolution quadruples the memory a set of lightmaps takes.
pub proof fn lemma_usage_quadruples(resolution: int, num_maps: int, bytes_per_pixel: int)
    ensures
        lightmap_usage_spec(2 * resolution, num_maps, bytes_per_pixel) == 4 * lightmap_usage_spec(
            resolution,
            num_maps,
            bytes_per_pixel,
        ),
{
    assert(lightmap_usage_spec(2 * resolution, num_maps, bytes_per_pixel) == 4 * lightmap_usage_spec(
        resolution,
        num_maps,
        bytes_per_pixel,
    )) by (nonlinear_arith);
}

} // verus!
