//! The builder that fixes a seed and a configuration, and the world it
//! yields.

use vstd::prelude::*;
use rand::Rng;
use crate::config::{Config, ConfigError};
use crate::field::{
    blended_spec, elevation_spec, lemma_blended_range, lemma_elevation_range,
    lemma_same_config_same_field, lemma_samples_range, samples_spec,
};
use crate::fixed::{plus, ONE};
use crate::layers::{
    badland_control_layer, badland_control_layer_spec, badland_layer, badland_layer_spec,
    continent_layer, continent_layer_spec, glaciate, hill_layer, hill_layer_spec,
    mountain_layer, mountain_layer_spec, plain_layer, plain_layer_spec, terrain_control_layer,
    terrain_control_layer_spec, Layer,
};
use crate::river::{carve, drainage, RIVER_STEP};
use crate::selector::{blend, Samples};

verus! {

/// Collects the seed and the parameters of a world before it is built.
#[derive(Clone, Copy, Debug)]
pub struct WorldBuilder {
    current_seed: u32,
    config: Config,
}

impl View for WorldBuilder {
    type V = Config;

    /// The configuration a world built now would carry: the parameters last
    /// set, under the builder's seed.
    closed spec fn view(&self) -> Config {
        self.config.seeded(self.current_seed)
    }
}

/// An elevation field ready to be evaluated: a valid configuration and the
/// layers derived from it. A world never changes once it is built.
#[derive(Clone, Copy, Debug)]
pub struct World {
    config: Config,
    continent: Layer,
    terrain_control: Layer,
    mountain: Layer,
    hill: Layer,
    plain: Layer,
    badland: Layer,
    badland_control: Layer,
}

impl View for World {
    type V = Config;

    /// The configuration the world was built from.
    closed spec fn view(&self) -> Config {
        self.config
    }
}

/// Draws a `u32` from `rand::thread_rng()` through `Rng::gen`. Any value may
/// come back and two calls need not agree, so nothing is claimed of it.
#[verifier::external_body]
fn random_seed() -> (seed: u32) {
    rand::thread_rng().gen::<u32>()
}

impl WorldBuilder {
    /// A builder with the default parameters and a randomly drawn seed.
    ///
    /// The default parameters do not carry a world as they stand (see
    /// `Config::lemma_defaults_need_mending`): `set_config` has to supply a
    /// valid configuration before `build`.
    pub fn new() -> (r: Self)
        ensures
            r@ == Config::defaults().seeded(r@.seed),
    {
        Self::from_seed(random_seed())
    }

    /// A builder with the default parameters and the given seed.
    pub fn from_seed(seed: u32) -> (r: Self)
        ensures
            r@ == Config::defaults().seeded(seed),
    {
        WorldBuilder { current_seed: seed, config: Config::default() }
    }

    /// Chooses the seed; the parameters stay.
    pub fn set_seed(self, seed: u32) -> (r: Self)
        ensures
            r@ == self@.seeded(seed),
    {
        WorldBuilder { current_seed: seed, config: self.config }
    }

    /// Chooses the parameters; the builder's seed stays.
    pub fn set_config(self, config: Config) -> (r: Self)
        ensures
            r@ == config.seeded(self@.seed),
    {
        WorldBuilder { current_seed: self.current_seed, config }
    }

    /// The seed chosen so far.
    pub fn seed(&self) -> (seed: u32)
        ensures
            seed == self@.seed,
    {
        self.current_seed
    }

    /// The configuration a world built now would carry.
    pub fn config(&self) -> (config: Config)
        ensures
            config == self@,
    {
        self.config.with_seed(self.current_seed)
    }

    /// Builds the world. Succeeds exactly where the configuration is valid;
    /// otherwise the error names the first invariant that fails.
    pub fn build(self) -> (r: Result<World, ConfigError>)
        ensures
            r is Ok <==> self@.valid(),
            match self@.violation() {
                None => r matches Ok(w) && w@ == self@,
                Some(name) => r matches Err(e) && e == ConfigError::InvalidInvariant(name),
            },
    {
        let config: Config = self.config();
        match config.validate() {
            Err(e) => Err(e),
            Ok(()) => Ok(
                World {
                    config,
                    continent: continent_layer(&config),
                    terrain_control: terrain_control_layer(&config),
                    mountain: mountain_layer(&config),
                    hill: hill_layer(&config),
                    plain: plain_layer(&config),
                    badland: badland_layer(&config),
                    badland_control: badland_control_layer(&config),
                },
            ),
        }
    }
}

impl World {
    /// A world carries a valid configuration, and its layers are those of
    /// that configuration.
    #[verifier::type_invariant]
    spec fn well_formed(self) -> bool {
        &&& self.config.valid()
        &&& self.continent == continent_layer_spec(self.config)
        &&& self.terrain_control == terrain_control_layer_spec(self.config)
        &&& self.mountain == mountain_layer_spec(self.config)
        &&& self.hill == hill_layer_spec(self.config)
        &&& self.plain == plain_layer_spec(self.config)
        &&& self.badland == badland_layer_spec(self.config)
        &&& self.badland_control == badland_control_layer_spec(self.config)
    }

    /// Determinism: two worlds built from the same seed and the same
    /// parameters have the same elevation at every point.
    pub proof fn lemma_same_seed_same_field(a: World, b: World, x: int, y: int)
        requires
            a@.seed == b@.seed,
            a@.seeded(0) == b@.seeded(0),
        ensures
            elevation_spec(a@, x, y) == elevation_spec(b@, x, y),
    {
        lemma_same_config_same_field(a@, b@, x, y);
    }

    /// The configuration the world was built from.
    pub fn config(&self) -> (config: Config)
        ensures
            config == self@,
            config.valid(),
    {
        proof {
            use_type_invariant(self);
        }
        self.config
    }

    /// The seed the world was built from.
    pub fn seed(&self) -> (seed: u32)
        ensures
            seed == self@.seed,
    {
        self.config.seed
    }

    /// What the layers give at `(x, y)`.
    pub fn samples(&self, x: i64, y: i64) -> (s: Samples)
        ensures
            s == samples_spec(self@, x as int, y as int),
    {
        proof {
            use_type_invariant(self);
            lemma_samples_range(self@, x as int, y as int);
        }
        Samples {
            continent: self.continent.sample(x, y),
            mountain: glaciate(self.mountain.sample(x, y), self.config.mountain_glaciation),
            hill: self.hill.sample(x, y),
            plain: self.plain.sample(x, y),
            badland: self.badland.sample(x, y),
            terrain_control: self.terrain_control.sample(x, y),
            badland_control: self.badland_control.sample(x, y),
        }
    }

    /// The elevation at `(x, y)` before the rivers.
    pub fn blended_at(&self, x: i64, y: i64) -> (r: i64)
        ensures
            r == blended_spec(self@, x as int, y as int),
            -ONE <= r <= ONE,
    {
        proof {
            lemma_blended_range(self@, x as int, y as int);
        }
        let s: Samples = self.samples(x, y);
        blend(&self.config, &s)
    }

    /// The elevation at the point `(x, y)`. Coordinates and elevation are
    /// fixed-point scalars; the elevation lies in `[-ONE, ONE]`. Every
    /// coordinate pair is accepted, and the same world gives the same
    /// elevation at the same point, always.
    pub fn elevation_at(&self, x: i64, y: i64) -> (r: i64)
        ensures
            r == elevation_spec(self@, x as int, y as int),
            -ONE <= r <= ONE,
    {
        proof {
            lemma_elevation_range(self@, x as int, y as int);
        }
        let here: i64 = self.blended_at(x, y);
        let east: i64 = self.blended_at(plus(x, RIVER_STEP), y);
        let north: i64 = self.blended_at(x, plus(y, RIVER_STEP));
        carve(&self.config, here, drainage(here, east, north))
    }
}

} // verus!
