//! The tunable parameters of a world and the invariants a world is built on.

use vstd::prelude::*;
use crate::fixed::ONE;

verus! {

/// Seed used when none is chosen.
pub const CURRENT_SEED: u32 = 0;

/// Frequency of the planet's continents. Higher frequency produces smaller,
/// more numerous continents.
pub const CONTINENT_FREQUENCY: i64 = 65536;

/// Lacunarity of the planet's continents. Best kept random but close to 2.0.
pub const CONTINENT_LACUNARITY: i64 = 144768;

/// Lacunarity of the planet's mountains. Best kept random but close to 2.0.
pub const MOUNTAIN_LACUNARITY: i64 = 140416;

/// Lacunarity of the planet's hills. Best kept random but close to 2.0.
pub const HILLS_LACUNARITY: i64 = 141696;

/// Lacunarity of the planet's plains. Best kept random but close to 2.0.
pub const PLAINS_LACUNARITY: i64 = 151680;

/// Lacunarity of the planet's badlands. Best kept random but close to 2.0.
pub const BADLANDS_LACUNARITY: i64 = 145024;

/// How twisted the mountains are.
pub const MOUNTAINS_TWIST: i64 = 65536;

/// How twisted the hills are.
pub const HILLS_TWIST: i64 = 65536;

/// How twisted the badlands are.
pub const BADLANDS_TWIST: i64 = 65536;

/// Sea level, between `-ONE` (lowest elevation) and `ONE` (highest).
pub const SEA_LEVEL: i64 = 0;

/// Level at which continental shelves appear; below `SEA_LEVEL`.
pub const SHELF_LEVEL: i64 = -24576;

/// Share of the terrain that mountains take, from 0 (none) to `ONE` (all).
/// Badlands may still overlay part of it.
pub const MOUNTAINS_AMOUNT: i64 = 31457;

/// Share of the terrain that hills take, from 0 (none) to `ONE` (all).
/// Mountains and badlands may overlay part of it. The default lies half-way
/// between `MOUNTAINS_AMOUNT` and `ONE`.
pub const HILLS_AMOUNT: i64 = 48496;

/// Share of the terrain that badlands take, from 0 (none) to `ONE` (all).
/// Badlands overlay every other terrain type.
pub const BADLANDS_AMOUNT: i64 = 20480;

/// Offset applied to the terrain-type control. Low values (below `ONE`) keep
/// rough terrain to high elevations; high values (above `2 * ONE`) let it
/// appear at any elevation.
pub const TERRAIN_OFFSET: i64 = 65536;

/// Amount of glaciation on the mountains.
pub const MOUNTAIN_GLACIATION: i64 = 24576;

/// Scaling applied to the base continent elevations: a quarter of the span
/// from `SEA_LEVEL` to `ONE`.
pub const CONTINENT_HEIGHT_SCALE: i64 = 16384;

/// Maximum depth of the rivers.
pub const RIVER_DEPTH: i64 = 1536;

/// Why a configuration cannot carry a world.
#[derive(Clone, Copy, Debug, PartialEq, Eq)]
pub enum ConfigError {
    /// The named invariant does not hold.
    InvalidInvariant(&'static str),
}

impl ConfigError {
    /// The invariant that was found violated.
    pub fn which(&self) -> (name: &'static str)
        ensures
            *self == ConfigError::InvalidInvariant(name),
    {
        match self {
            ConfigError::InvalidInvariant(name) => name,
        }
    }
}

/// Every scalar parameter of the elevation field, and the seed.
///
/// All scalars are fixed-point numbers in units of `1 / ONE`.
#[derive(Clone, Copy, Debug, PartialEq, Eq)]
pub struct Config {
    pub seed: u32,
    pub continent_frequency: i64,
    pub continent_lacunarity: i64,
    pub mountain_lacunarity: i64,
    pub hills_lacunarity: i64,
    pub plains_lacunarity: i64,
    pub badlands_lacunarity: i64,
    pub mountains_twist: i64,
    pub hills_twist: i64,
    pub badlands_twist: i64,
    pub sea_level: i64,
    pub shelf_level: i64,
    pub mountains_amount: i64,
    pub hills_amount: i64,
    pub badlands_amount: i64,
    pub terrain_offset: i64,
    pub mountain_glaciation: i64,
    pub continent_height_scale: i64,
    pub river_depth: i64,
}

/// A level lies between the lowest and the highest elevation.
pub open spec fn is_level(v: int) -> bool {
    -(ONE as int) <= v <= ONE as int
}

/// An amount is a share between nothing and everything.
pub open spec fn is_amount(v: int) -> bool {
    0 <= v <= ONE as int
}

impl Config {
    /// The configuration made of the default constants.
    pub open spec fn defaults() -> Config {
        Config {
            seed: CURRENT_SEED,
            continent_frequency: CONTINENT_FREQUENCY,
            continent_lacunarity: CONTINENT_LACUNARITY,
            mountain_lacunarity: MOUNTAIN_LACUNARITY,
            hills_lacunarity: HILLS_LACUNARITY,
            plains_lacunarity: PLAINS_LACUNARITY,
            badlands_lacunarity: BADLANDS_LACUNARITY,
            mountains_twist: MOUNTAINS_TWIST,
            hills_twist: HILLS_TWIST,
            badlands_twist: BADLANDS_TWIST,
            sea_level: SEA_LEVEL,
            shelf_level: SHELF_LEVEL,
            mountains_amount: MOUNTAINS_AMOUNT,
            hills_amount: HILLS_AMOUNT,
            badlands_amount: BADLANDS_AMOUNT,
            terrain_offset: TERRAIN_OFFSET,
            mountain_glaciation: MOUNTAIN_GLACIATION,
            continent_height_scale: CONTINENT_HEIGHT_SCALE,
            river_depth: RIVER_DEPTH,
        }
    }

    /// `self` with its seed replaced.
    pub open spec fn seeded(self, seed: u32) -> Config {
        Config { seed, ..self }
    }

    /// The invariants a world relies on.
    pub open spec fn valid(self) -> bool {
        &&& is_level(self.sea_level as int)
        &&& is_level(self.shelf_level as int)
        &&& self.shelf_level < self.sea_level
        &&& is_amount(self.mountains_amount as int)
        &&& is_amount(self.hills_amount as int)
        &&& is_amount(self.badlands_amount as int)
        &&& self.hills_amount < self.mountains_amount
    }

    /// The first invariant that fails, in the order in which `valid` lists
    /// them, or `None` where all hold.
    pub open spec fn violation(self) -> Option<&'static str> {
        if !is_level(self.sea_level as int) {
            Some("SEA_LEVEL in [-1, 1]")
        } else if !is_level(self.shelf_level as int) {
            Some("SHELF_LEVEL in [-1, 1]")
        } else if self.shelf_level >= self.sea_level {
            Some("SHELF_LEVEL < SEA_LEVEL")
        } else if !is_amount(self.mountains_amount as int) {
            Some("MOUNTAINS_AMOUNT in [0, 1]")
        } else if !is_amount(self.hills_amount as int) {
            Some("HILLS_AMOUNT in [0, 1]")
        } else if !is_amount(self.badlands_amount as int) {
            Some("BADLANDS_AMOUNT in [0, 1]")
        } else if self.hills_amount >= self.mountains_amount {
            Some("HILLS_AMOUNT < MOUNTAINS_AMOUNT")
        } else {
            None
        }
    }

    /// A configuration is valid exactly where no invariant fails.
    pub proof fn lemma_valid_iff_no_violation(self)
        ensures
            self.valid() <==> self.violation() is None,
    {
    }

    /// The default constants break one invariant: the default hills amount
    /// lies above the default mountains amount. Lowering the hills amount
    /// under the mountains amount mends them.
    pub proof fn lemma_defaults_need_mending(hills_amount: i64)
        requires
            0 <= hills_amount < MOUNTAINS_AMOUNT,
        ensures
            !Config::defaults().valid(),
            Config::defaults().violation() == Some("HILLS_AMOUNT < MOUNTAINS_AMOUNT"),
            (Config { hills_amount, ..Config::defaults() }).valid(),
    {
    }

    /// Replaces the seed and keeps every scalar.
    pub fn with_seed(self, seed: u32) -> (r: Config)
        ensures
            r == self.seeded(seed),
    {
        Config { seed, ..self }
    }

    /// Checks the invariants and names the first that fails.
    pub fn validate(&self) -> (r: Result<(), ConfigError>)
        ensures
            r is Ok <==> self.valid(),
            match self.violation() {
                Some(name) => r == Err::<(), ConfigError>(ConfigError::InvalidInvariant(name)),
                None => r is Ok,
            },
    {
        if self.sea_level < -ONE || self.sea_level > ONE {
            Err(ConfigError::InvalidInvariant("SEA_LEVEL in [-1, 1]"))
        } else if self.shelf_level < -ONE || self.shelf_level > ONE {
            Err(ConfigError::InvalidInvariant("SHELF_LEVEL in [-1, 1]"))
        } else if self.shelf_level >= self.sea_level {
            Err(ConfigError::InvalidInvariant("SHELF_LEVEL < SEA_LEVEL"))
        } else if self.mountains_amount < 0 || self.mountains_amount > ONE {
            Err(ConfigError::InvalidInvariant("MOUNTAINS_AMOUNT in [0, 1]"))
        } else if self.hills_amount < 0 || self.hills_amount > ONE {
            Err(ConfigError::InvalidInvariant("HILLS_AMOUNT in [0, 1]"))
        } else if self.badlands_amount < 0 || self.badlands_amount > ONE {
            Err(ConfigError::InvalidInvariant("BADLANDS_AMOUNT in [0, 1]"))
        } else if self.hills_amount >= self.mountains_amount {
            Err(ConfigError::InvalidInvariant("HILLS_AMOUNT < MOUNTAINS_AMOUNT"))
        } else {
            Ok(())
        }
    }
}

impl Default for Config {
    /// The default constants, with `CURRENT_SEED` as the seed.
    fn default() -> (r: Config)
        ensures
            r == Config::defaults(),
    {
        Config {
            seed: CURRENT_SEED,
            continent_frequency: CONTINENT_FREQUENCY,
            continent_lacunarity: CONTINENT_LACUNARITY,
            mountain_lacunarity: MOUNTAIN_LACUNARITY,
            hills_lacunarity: HILLS_LACUNARITY,
            plains_lacunarity: PLAINS_LACUNARITY,
            badlands_lacunarity: BADLANDS_LACUNARITY,
            mountains_twist: MOUNTAINS_TWIST,
            hills_twist: HILLS_TWIST,
            badlands_twist: BADLANDS_TWIST,
            sea_level: SEA_LEVEL,
            shelf_level: SHELF_LEVEL,
            mountains_amount: MOUNTAINS_AMOUNT,
            hills_amount: HILLS_AMOUNT,
            badlands_amount: BADLANDS_AMOUNT,
            terrain_offset: TERRAIN_OFFSET,
            mountain_glaciation: MOUNTAIN_GLACIATION,
            continent_height_scale: CONTINENT_HEIGHT_SCALE,
            river_depth: RIVER_DEPTH,
        }
    }
}

} // verus!
