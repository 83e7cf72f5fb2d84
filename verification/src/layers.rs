//! The terrain layers: continent, mountain, hill, plain and badland, and the
//! control fields that decide where each terrain type shows.
//!
//! A layer is a fractal of one noise family, sampled at coordinates that a
//! second family has displaced (the twist), then scaled and lifted into the
//! height range the terrain type occupies.

use vstd::prelude::*;
use crate::config::Config;
use crate::fixed::{
    clamp, clamp_spec, minus, minus_spec, plus, plus_spec, times, times_spec, ONE,
};
use crate::noise::{
    derive_seed, derive_seed_spec, fractal, fractal_spec, lemma_seeds_distinct, scaled_spec,
    value_noise, value_noise_spec, Fractal, NoiseKind, MAX_OCTAVES,
};

verus! {

/// Noise family of the continent shape.
pub const CONTINENT_FAMILY: u32 = 0;

/// Noise family of the terrain-type control field.
pub const TERRAIN_CONTROL_FAMILY: u32 = 1;

/// Noise family of the mountain ridges.
pub const MOUNTAIN_FAMILY: u32 = 2;

/// Noise family that twists the mountains.
pub const MOUNTAIN_TWIST_FAMILY: u32 = 3;

/// Noise family of the hills.
pub const HILL_FAMILY: u32 = 4;

/// Noise family that twists the hills.
pub const HILL_TWIST_FAMILY: u32 = 5;

/// Noise family of the plains.
pub const PLAIN_FAMILY: u32 = 6;

/// Noise family of the badlands.
pub const BADLAND_FAMILY: u32 = 7;

/// Noise family that twists the badlands.
pub const BADLAND_TWIST_FAMILY: u32 = 8;

/// Noise family of the badland control field.
pub const BADLAND_CONTROL_FAMILY: u32 = 9;

/// Octaves of the continent shape.
pub const CONTINENT_OCTAVES: u32 = 5;

/// Octaves of the two control fields.
pub const CONTROL_OCTAVES: u32 = 3;

/// Octaves of the mountain ridges.
pub const MOUNTAIN_OCTAVES: u32 = 4;

/// Octaves of the hills.
pub const HILL_OCTAVES: u32 = 3;

/// Octaves of the plains.
pub const PLAIN_OCTAVES: u32 = 2;

/// Octaves of the badlands.
pub const BADLAND_OCTAVES: u32 = 3;

/// Factor from one octave's amplitude to the next, in every layer: 1/2.
pub const PERSISTENCE: i64 = 32768;

/// Frequency of the terrain-type and badland control fields: 2.
pub const CONTROL_FREQUENCY: i64 = 131072;

/// Frequency of the mountain ridges: 8.
pub const MOUNTAIN_FREQUENCY: i64 = 524288;

/// Frequency of the hills: 16.
pub const HILL_FREQUENCY: i64 = 1048576;

/// Frequency of the plains: 12.
pub const PLAIN_FREQUENCY: i64 = 786432;

/// Frequency of the badlands: 10.
pub const BADLAND_FREQUENCY: i64 = 655360;

/// Frequency of every twist field: 4.
pub const TWIST_FREQUENCY: i64 = 262144;

/// Gain of the continent and of the control fields. A fractal seldom
/// leaves the inner half of its range; doubling it uses the whole range.
pub const FIELD_GAIN: i64 = 131072;

/// Half the height of the tallest mountain.
pub const MOUNTAIN_HEIGHT: i64 = 24576;

/// Half the height of the tallest hill.
pub const HILL_HEIGHT: i64 = 8192;

/// Half the height of the tallest rise in the plains.
pub const PLAIN_HEIGHT: i64 = 2048;

/// Half the height of the tallest badland ridge.
pub const BADLAND_HEIGHT: i64 = 16384;

/// How far a twist of `ONE` displaces a coordinate at most.
pub const TWIST_REACH: i64 = 4096;

/// Mountain elevation above which glaciation acts.
pub const GLACIATION_LEVEL: i64 = 32768;

/// One terrain layer: a fractal, the twist applied to its coordinates, and
/// the height range it is mapped to.
#[derive(Clone, Copy, Debug, PartialEq, Eq)]
pub struct Layer {
    pub base: Fractal,
    /// Seed of the twist field along x; the field along y uses the next seed.
    pub twist_seed: u32,
    /// Strength of the twist; 0 leaves the coordinates alone.
    pub twist: i64,
    pub twist_frequency: i64,
    /// Displacement at a twist of `ONE` and a twist noise of `ONE`.
    pub twist_reach: i64,
    /// Factor applied to the fractal.
    pub gain: i64,
    /// Offset added after the gain.
    pub bias: i64,
}

impl Layer {
    /// The coordinates at which the fractal is sampled for the point
    /// `(x, y)`: each axis moved by its own twist field.
    pub open spec fn displaced_spec(self, x: int, y: int) -> (int, int) {
        let sx = scaled_spec(x, self.twist_frequency as int);
        let sy = scaled_spec(y, self.twist_frequency as int);
        let strength = times_spec(self.twist as int, self.twist_reach as int);
        let dx = times_spec(strength, value_noise_spec(self.twist_seed, sx, sy));
        let dy = times_spec(strength, value_noise_spec(self.twist_seed.wrapping_add(1u32), sx, sy));
        (plus_spec(x, dx), plus_spec(y, dy))
    }

    /// The layer's elevation at `(x, y)`, limited to `[-ONE, ONE]`.
    pub open spec fn sample_spec(self, x: int, y: int) -> int {
        let at = self.displaced_spec(x, y);
        let raw = fractal_spec(self.base, at.0, at.1);
        clamp_spec(
            plus_spec(times_spec(raw, self.gain as int), self.bias as int),
            -(ONE as int),
            ONE as int,
        )
    }

    /// A layer without twist samples its fractal where it is asked.
    pub proof fn lemma_untwisted(self, x: int, y: int)
        requires
            self.twist == 0,
            i64::MIN <= x <= i64::MAX,
            i64::MIN <= y <= i64::MAX,
        ensures
            self.displaced_spec(x, y) == (x, y),
    {
        let sx = scaled_spec(x, self.twist_frequency as int);
        let sy = scaled_spec(y, self.twist_frequency as int);
        let dx = value_noise_spec(self.twist_seed, sx, sy);
        let dy = value_noise_spec(self.twist_seed.wrapping_add(1u32), sx, sy);
        assert(0 * (self.twist_reach as int) == 0);
        assert(times_spec(0, self.twist_reach as int) == 0);
        assert(0 * dx == 0);
        assert(0 * dy == 0);
    }

    /// The coordinates at which the fractal is sampled.
    pub fn displaced(&self, x: i64, y: i64) -> (at: (i64, i64))
        ensures
            (at.0 as int, at.1 as int) == self.displaced_spec(x as int, y as int),
    {
        if self.twist == 0 {
            proof {
                self.lemma_untwisted(x as int, y as int);
            }
            (x, y)
        } else {
            let strength: i64 = times(self.twist, self.twist_reach);
            let nx: i64 = value_noise(self.twist_seed, x, y, self.twist_frequency);
            let ny: i64 = value_noise(self.twist_seed.wrapping_add(1u32), x, y, self.twist_frequency);
            (plus(x, times(strength, nx)), plus(y, times(strength, ny)))
        }
    }

    /// Evaluates the layer at `(x, y)`.
    pub fn sample(&self, x: i64, y: i64) -> (v: i64)
        ensures
            v == self.sample_spec(x as int, y as int),
            -ONE <= v <= ONE,
    {
        let at: (i64, i64) = self.displaced(x, y);
        let raw: i64 = fractal(&self.base, at.0, at.1);
        clamp(plus(times(raw, self.gain), self.bias), -ONE, ONE)
    }
}

/// A mountain elevation after glaciation: what lies above
/// `GLACIATION_LEVEL` is stretched by `amount`, and the result is limited to
/// `[-ONE, ONE]`.
pub open spec fn glaciate_spec(v: int, amount: int) -> int {
    if v > GLACIATION_LEVEL {
        clamp_spec(
            plus_spec(v, times_spec(minus_spec(v, GLACIATION_LEVEL as int), amount)),
            -(ONE as int),
            ONE as int,
        )
    } else {
        v
    }
}

/// Glaciation keeps an elevation in range, leaves it alone up to
/// `GLACIATION_LEVEL`, and never lowers it where the amount is not negative.
pub proof fn lemma_glaciate(v: int, amount: int)
    requires
        -ONE <= v <= ONE,
    ensures
        -ONE <= glaciate_spec(v, amount) <= ONE,
        v <= GLACIATION_LEVEL ==> glaciate_spec(v, amount) == v,
        amount >= 0 ==> glaciate_spec(v, amount) >= v,
{
    if v > GLACIATION_LEVEL && amount >= 0 {
        let d = v - GLACIATION_LEVEL;
        assert(d * amount >= 0) by (nonlinear_arith)
            requires
                d >= 0,
                amount >= 0,
        ;
    }
}

/// Applies glaciation to a mountain elevation.
pub fn glaciate(v: i64, amount: i64) -> (r: i64)
    ensures
        r == glaciate_spec(v as int, amount as int),
{
    if v > GLACIATION_LEVEL {
        clamp(plus(v, times(minus(v, GLACIATION_LEVEL), amount)), -ONE, ONE)
    } else {
        v
    }
}

/// The continent layer: the large-scale shape whose sign tells ocean from
/// land.
pub open spec fn continent_layer_spec(cfg: Config) -> Layer {
    Layer {
        base: Fractal {
            seed: derive_seed_spec(cfg.seed, CONTINENT_FAMILY),
            kind: NoiseKind::Smooth,
            octaves: CONTINENT_OCTAVES,
            frequency: cfg.continent_frequency,
            lacunarity: cfg.continent_lacunarity,
            persistence: PERSISTENCE,
        },
        twist_seed: 0,
        twist: 0,
        twist_frequency: 0,
        twist_reach: 0,
        gain: FIELD_GAIN,
        bias: 0,
    }
}

/// The terrain-type control field, in `[-ONE, ONE]`.
pub open spec fn terrain_control_layer_spec(cfg: Config) -> Layer {
    Layer {
        base: Fractal {
            seed: derive_seed_spec(cfg.seed, TERRAIN_CONTROL_FAMILY),
            kind: NoiseKind::Smooth,
            octaves: CONTROL_OCTAVES,
            frequency: CONTROL_FREQUENCY,
            lacunarity: cfg.continent_lacunarity,
            persistence: PERSISTENCE,
        },
        twist_seed: 0,
        twist: 0,
        twist_frequency: 0,
        twist_reach: 0,
        gain: FIELD_GAIN,
        bias: 0,
    }
}

/// The mountain layer: twisted ridges between 0 and three quarters of `ONE`.
pub open spec fn mountain_layer_spec(cfg: Config) -> Layer {
    Layer {
        base: Fractal {
            seed: derive_seed_spec(cfg.seed, MOUNTAIN_FAMILY),
            kind: NoiseKind::Ridged,
            octaves: MOUNTAIN_OCTAVES,
            frequency: MOUNTAIN_FREQUENCY,
            lacunarity: cfg.mountain_lacunarity,
            persistence: PERSISTENCE,
        },
        twist_seed: derive_seed_spec(cfg.seed, MOUNTAIN_TWIST_FAMILY),
        twist: cfg.mountains_twist,
        twist_frequency: TWIST_FREQUENCY,
        twist_reach: TWIST_REACH,
        gain: MOUNTAIN_HEIGHT,
        bias: MOUNTAIN_HEIGHT,
    }
}

/// The hill layer: twisted bumps between 0 and a quarter of `ONE`.
pub open spec fn hill_layer_spec(cfg: Config) -> Layer {
    Layer {
        base: Fractal {
            seed: derive_seed_spec(cfg.seed, HILL_FAMILY),
            kind: NoiseKind::Billow,
            octaves: HILL_OCTAVES,
            frequency: HILL_FREQUENCY,
            lacunarity: cfg.hills_lacunarity,
            persistence: PERSISTENCE,
        },
        twist_seed: derive_seed_spec(cfg.seed, HILL_TWIST_FAMILY),
        twist: cfg.hills_twist,
        twist_frequency: TWIST_FREQUENCY,
        twist_reach: TWIST_REACH,
        gain: HILL_HEIGHT,
        bias: HILL_HEIGHT,
    }
}

/// The plain layer: gentle bumps between 0 and a sixteenth of `ONE`.
pub open spec fn plain_layer_spec(cfg: Config) -> Layer {
    Layer {
        base: Fractal {
            seed: derive_seed_spec(cfg.seed, PLAIN_FAMILY),
            kind: NoiseKind::Billow,
            octaves: PLAIN_OCTAVES,
            frequency: PLAIN_FREQUENCY,
            lacunarity: cfg.plains_lacunarity,
            persistence: PERSISTENCE,
        },
        twist_seed: 0,
        twist: 0,
        twist_frequency: 0,
        twist_reach: 0,
        gain: PLAIN_HEIGHT,
        bias: PLAIN_HEIGHT,
    }
}

/// The badland layer: twisted ridges between 0 and half of `ONE`.
pub open spec fn badland_layer_spec(cfg: Config) -> Layer {
    Layer {
        base: Fractal {
            seed: derive_seed_spec(cfg.seed, BADLAND_FAMILY),
            kind: NoiseKind::Ridged,
            octaves: BADLAND_OCTAVES,
            frequency: BADLAND_FREQUENCY,
            lacunarity: cfg.badlands_lacunarity,
            persistence: PERSISTENCE,
        },
        twist_seed: derive_seed_spec(cfg.seed, BADLAND_TWIST_FAMILY),
        twist: cfg.badlands_twist,
        twist_frequency: TWIST_FREQUENCY,
        twist_reach: TWIST_REACH,
        gain: BADLAND_HEIGHT,
        bias: BADLAND_HEIGHT,
    }
}

/// The badland control field, in `[-ONE, ONE]`.
pub open spec fn badland_control_layer_spec(cfg: Config) -> Layer {
    Layer {
        base: Fractal {
            seed: derive_seed_spec(cfg.seed, BADLAND_CONTROL_FAMILY),
            kind: NoiseKind::Smooth,
            octaves: CONTROL_OCTAVES,
            frequency: CONTROL_FREQUENCY,
            lacunarity: cfg.badlands_lacunarity,
            persistence: PERSISTENCE,
        },
        twist_seed: 0,
        twist: 0,
        twist_frequency: 0,
        twist_reach: 0,
        gain: FIELD_GAIN,
        bias: 0,
    }
}

/// The fields of a configuration never share noise: the twist fields of
/// the mountains run on other seeds than any octave of the mountain
/// ridges, and no octave of the mountains meets one of the hills.
pub proof fn lemma_layers_apart(cfg: Config, a: u32, b: u32)
    requires
        a < MAX_OCTAVES,
        b < MAX_OCTAVES,
    ensures
        mountain_layer_spec(cfg).twist_seed != mountain_layer_spec(cfg).base.seed.wrapping_add(a),
        mountain_layer_spec(cfg).twist_seed.wrapping_add(1u32) != mountain_layer_spec(
            cfg,
        ).base.seed.wrapping_add(a),
        hill_layer_spec(cfg).twist_seed != hill_layer_spec(cfg).base.seed.wrapping_add(a),
        hill_layer_spec(cfg).twist_seed.wrapping_add(1u32) != hill_layer_spec(
            cfg,
        ).base.seed.wrapping_add(a),
        badland_layer_spec(cfg).twist_seed != badland_layer_spec(cfg).base.seed.wrapping_add(a),
        badland_layer_spec(cfg).twist_seed.wrapping_add(1u32) != badland_layer_spec(
            cfg,
        ).base.seed.wrapping_add(a),
        mountain_layer_spec(cfg).base.seed.wrapping_add(a) != hill_layer_spec(
            cfg,
        ).base.seed.wrapping_add(b),
        continent_layer_spec(cfg).base.seed.wrapping_add(a) != terrain_control_layer_spec(
            cfg,
        ).base.seed.wrapping_add(b),
{
    lemma_seeds_distinct(cfg.seed, MOUNTAIN_TWIST_FAMILY, 0, MOUNTAIN_FAMILY, a);
    lemma_seeds_distinct(cfg.seed, MOUNTAIN_TWIST_FAMILY, 1, MOUNTAIN_FAMILY, a);
    lemma_seeds_distinct(cfg.seed, HILL_TWIST_FAMILY, 0, HILL_FAMILY, a);
    lemma_seeds_distinct(cfg.seed, HILL_TWIST_FAMILY, 1, HILL_FAMILY, a);
    lemma_seeds_distinct(cfg.seed, BADLAND_TWIST_FAMILY, 0, BADLAND_FAMILY, a);
    lemma_seeds_distinct(cfg.seed, BADLAND_TWIST_FAMILY, 1, BADLAND_FAMILY, a);
    lemma_seeds_distinct(cfg.seed, MOUNTAIN_FAMILY, a, HILL_FAMILY, b);
    lemma_seeds_distinct(cfg.seed, CONTINENT_FAMILY, a, TERRAIN_CONTROL_FAMILY, b);
}

/// Builds the continent layer of a configuration.
pub fn continent_layer(cfg: &Config) -> (l: Layer)
    ensures
        l == continent_layer_spec(*cfg),
{
    Layer {
        base: Fractal {
            seed: derive_seed(cfg.seed, CONTINENT_FAMILY),
            kind: NoiseKind::Smooth,
            octaves: CONTINENT_OCTAVES,
            frequency: cfg.continent_frequency,
            lacunarity: cfg.continent_lacunarity,
            persistence: PERSISTENCE,
        },
        twist_seed: 0,
        twist: 0,
        twist_frequency: 0,
        twist_reach: 0,
        gain: FIELD_GAIN,
        bias: 0,
    }
}

/// Builds the terrain-type control field of a configuration.
pub fn terrain_control_layer(cfg: &Config) -> (l: Layer)
    ensures
        l == terrain_control_layer_spec(*cfg),
{
    Layer {
        base: Fractal {
            seed: derive_seed(cfg.seed, TERRAIN_CONTROL_FAMILY),
            kind: NoiseKind::Smooth,
            octaves: CONTROL_OCTAVES,
            frequency: CONTROL_FREQUENCY,
            lacunarity: cfg.continent_lacunarity,
            persistence: PERSISTENCE,
        },
        twist_seed: 0,
        twist: 0,
        twist_frequency: 0,
        twist_reach: 0,
        gain: FIELD_GAIN,
        bias: 0,
    }
}

/// Builds the mountain layer of a configuration.
pub fn mountain_layer(cfg: &Config) -> (l: Layer)
    ensures
        l == mountain_layer_spec(*cfg),
{
    Layer {
        base: Fractal {
            seed: derive_seed(cfg.seed, MOUNTAIN_FAMILY),
            kind: NoiseKind::Ridged,
            octaves: MOUNTAIN_OCTAVES,
            frequency: MOUNTAIN_FREQUENCY,
            lacunarity: cfg.mountain_lacunarity,
            persistence: PERSISTENCE,
        },
        twist_seed: derive_seed(cfg.seed, MOUNTAIN_TWIST_FAMILY),
        twist: cfg.mountains_twist,
        twist_frequency: TWIST_FREQUENCY,
        twist_reach: TWIST_REACH,
        gain: MOUNTAIN_HEIGHT,
        bias: MOUNTAIN_HEIGHT,
    }
}

/// Builds the hill layer of a configuration.
pub fn hill_layer(cfg: &Config) -> (l: Layer)
    ensures
        l == hill_layer_spec(*cfg),
{
    Layer {
        base: Fractal {
            seed: derive_seed(cfg.seed, HILL_FAMILY),
            kind: NoiseKind::Billow,
            octaves: HILL_OCTAVES,
            frequency: HILL_FREQUENCY,
            lacunarity: cfg.hills_lacunarity,
            persistence: PERSISTENCE,
        },
        twist_seed: derive_seed(cfg.seed, HILL_TWIST_FAMILY),
        twist: cfg.hills_twist,
        twist_frequency: TWIST_FREQUENCY,
        twist_reach: TWIST_REACH,
        gain: HILL_HEIGHT,
        bias: HILL_HEIGHT,
    }
}

/// Builds the plain layer of a configuration.
pub fn plain_layer(cfg: &Config) -> (l: Layer)
    ensures
        l == plain_layer_spec(*cfg),
{
    Layer {
        base: Fractal {
            seed: derive_seed(cfg.seed, PLAIN_FAMILY),
            kind: NoiseKind::Billow,
            octaves: PLAIN_OCTAVES,
            frequency: PLAIN_FREQUENCY,
            lacunarity: cfg.plains_lacunarity,
            persistence: PERSISTENCE,
        },
        twist_seed: 0,
        twist: 0,
        twist_frequency: 0,
        twist_reach: 0,
        gain: PLAIN_HEIGHT,
        bias: PLAIN_HEIGHT,
    }
}

/// Builds the badland layer of a configuration.
pub fn badland_layer(cfg: &Config) -> (l: Layer)
    ensures
        l == badland_layer_spec(*cfg),
{
    Layer {
        base: Fractal {
            seed: derive_seed(cfg.seed, BADLAND_FAMILY),
            kind: NoiseKind::Ridged,
            octaves: BADLAND_OCTAVES,
            frequency: BADLAND_FREQUENCY,
            lacunarity: cfg.badlands_lacunarity,
            persistence: PERSISTENCE,
        },
        twist_seed: derive_seed(cfg.seed, BADLAND_TWIST_FAMILY),
        twist: cfg.badlands_twist,
        twist_frequency: TWIST_FREQUENCY,
        twist_reach: TWIST_REACH,
        gain: BADLAND_HEIGHT,
        bias: BADLAND_HEIGHT,
    }
}

/// Builds the badland control field of a configuration.
pub fn badland_control_layer(cfg: &Config) -> (l: Layer)
    ensures
        l == badland_control_layer_spec(*cfg),
{
    Layer {
        base: Fractal {
            seed: derive_seed(cfg.seed, BADLAND_CONTROL_FAMILY),
            kind: NoiseKind::Smooth,
            octaves: CONTROL_OCTAVES,
            frequency: CONTROL_FREQUENCY,
            lacunarity: cfg.badlands_lacunarity,
            persistence: PERSISTENCE,
        },
        twist_seed: 0,
        twist: 0,
        twist_frequency: 0,
        twist_reach: 0,
        gain: FIELD_GAIN,
        bias: 0,
    }
}

} // verus!
