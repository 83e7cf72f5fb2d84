//! The elevation field as a function of a configuration and a coordinate
//! pair, and the laws that hold of it.
//!
//! The field is what the layers give at a point, blended by the selector
//! and carved by the rivers. Nothing else enters: the same configuration
//! gives the same field.

use vstd::prelude::*;
use crate::config::Config;
use crate::fixed::{plus_spec, ONE};
use crate::layers::{
    badland_control_layer_spec, badland_layer_spec, continent_layer_spec, glaciate_spec,
    hill_layer_spec, lemma_glaciate, mountain_layer_spec, plain_layer_spec,
    terrain_control_layer_spec,
};
use crate::river::{
    carve_spec, depth_above_spec, depth_below_spec, drainage_spec, lemma_carve_bound,
    lemma_carve_nothing, lemma_carve_range, RIVER_STEP,
};
use crate::selector::{blend_spec, lemma_badland_override, lemma_blend_range, Samples};

verus! {

/// What the layers of a configuration give at the point `(x, y)`. The
/// mountain elevation is taken after glaciation.
pub open spec fn samples_spec(cfg: Config, x: int, y: int) -> Samples {
    Samples {
        continent: continent_layer_spec(cfg).sample_spec(x, y) as i64,
        mountain: glaciate_spec(
            mountain_layer_spec(cfg).sample_spec(x, y),
            cfg.mountain_glaciation as int,
        ) as i64,
        hill: hill_layer_spec(cfg).sample_spec(x, y) as i64,
        plain: plain_layer_spec(cfg).sample_spec(x, y) as i64,
        badland: badland_layer_spec(cfg).sample_spec(x, y) as i64,
        terrain_control: terrain_control_layer_spec(cfg).sample_spec(x, y) as i64,
        badland_control: badland_control_layer_spec(cfg).sample_spec(x, y) as i64,
    }
}

/// The elevation at `(x, y)` after blending and before the rivers.
pub open spec fn blended_spec(cfg: Config, x: int, y: int) -> int {
    blend_spec(cfg, samples_spec(cfg, x, y))
}

/// The elevation at `(x, y)`: the blended elevation, carved by the drainage
/// that the blended field shows between the point and its neighbours one
/// `RIVER_STEP` to the east and to the north.
pub open spec fn elevation_spec(cfg: Config, x: int, y: int) -> int {
    let here = blended_spec(cfg, x, y);
    let east = blended_spec(cfg, plus_spec(x, RIVER_STEP as int), y);
    let north = blended_spec(cfg, x, plus_spec(y, RIVER_STEP as int));
    carve_spec(cfg, here, drainage_spec(here, east, north))
}

/// Every layer gives an elevation in `[-ONE, ONE]`, and the sampled values
/// are what the layers give.
pub proof fn lemma_samples_range(cfg: Config, x: int, y: int)
    ensures
        -ONE <= samples_spec(cfg, x, y).continent <= ONE,
        -ONE <= samples_spec(cfg, x, y).mountain <= ONE,
        -ONE <= samples_spec(cfg, x, y).hill <= ONE,
        -ONE <= samples_spec(cfg, x, y).plain <= ONE,
        -ONE <= samples_spec(cfg, x, y).badland <= ONE,
        -ONE <= samples_spec(cfg, x, y).terrain_control <= ONE,
        -ONE <= samples_spec(cfg, x, y).badland_control <= ONE,
        samples_spec(cfg, x, y).badland == badland_layer_spec(cfg).sample_spec(x, y),
{
    lemma_glaciate(mountain_layer_spec(cfg).sample_spec(x, y), cfg.mountain_glaciation as int);
}

/// The blended elevation lies in `[-ONE, ONE]`.
pub proof fn lemma_blended_range(cfg: Config, x: int, y: int)
    ensures
        -ONE <= blended_spec(cfg, x, y) <= ONE,
{
    lemma_samples_range(cfg, x, y);
    lemma_blend_range(cfg, samples_spec(cfg, x, y));
}

/// Range bound: the elevation lies in `[-ONE, ONE]` at every point, under
/// every configuration.
pub proof fn lemma_elevation_range(cfg: Config, x: int, y: int)
    ensures
        -ONE <= elevation_spec(cfg, x, y) <= ONE,
{
    let here = blended_spec(cfg, x, y);
    let east = blended_spec(cfg, plus_spec(x, RIVER_STEP as int), y);
    let north = blended_spec(cfg, x, plus_spec(y, RIVER_STEP as int));
    lemma_blended_range(cfg, x, y);
    lemma_carve_range(cfg, here, drainage_spec(here, east, north));
}

/// Determinism: two configurations that agree in the seed and in every
/// scalar give the same elevation at every point.
pub proof fn lemma_same_config_same_field(a: Config, b: Config, x: int, y: int)
    requires
        a.seed == b.seed,
        a.seeded(0) == b.seeded(0),
    ensures
        elevation_spec(a, x, y) == elevation_spec(b, x, y),
{
    assert(a == b);
}

/// Badland override: under a badland amount of at least `ONE` the other
/// layers have no say. The blended elevation at every point is what the
/// badland layer gives there, and the elevation is that, carved; where the
/// rivers have no depth, or the point lies at or under the shelf level, the
/// elevation is what the badland layer gives.
pub proof fn lemma_badlands_everywhere(cfg: Config, x: int, y: int)
    requires
        cfg.badlands_amount >= ONE,
    ensures
        blended_spec(cfg, x, y) == badland_layer_spec(cfg).sample_spec(x, y),
        elevation_spec(cfg, x, y) == carve_spec(
            cfg,
            badland_layer_spec(cfg).sample_spec(x, y),
            drainage_spec(
                badland_layer_spec(cfg).sample_spec(x, y),
                badland_layer_spec(cfg).sample_spec(plus_spec(x, RIVER_STEP as int), y),
                badland_layer_spec(cfg).sample_spec(x, plus_spec(y, RIVER_STEP as int)),
            ),
        ),
        cfg.river_depth == 0 || badland_layer_spec(cfg).sample_spec(x, y) <= cfg.shelf_level
            ==> elevation_spec(cfg, x, y) == badland_layer_spec(cfg).sample_spec(x, y),
{
    let east = plus_spec(x, RIVER_STEP as int);
    let north = plus_spec(y, RIVER_STEP as int);
    lemma_samples_range(cfg, x, y);
    lemma_samples_range(cfg, east, y);
    lemma_samples_range(cfg, x, north);
    lemma_badland_override(cfg, samples_spec(cfg, x, y));
    lemma_badland_override(cfg, samples_spec(cfg, east, y));
    lemma_badland_override(cfg, samples_spec(cfg, x, north));
    let here = blended_spec(cfg, x, y);
    if cfg.river_depth == 0 {
        lemma_carve_nothing(
            cfg,
            here,
            drainage_spec(here, blended_spec(cfg, east, y), blended_spec(cfg, x, north)),
        );
    }
}

/// River bound: carving lowers the blended elevation by no more than the
/// river depth, and raises it by no more than a negative river depth.
/// Where the river depth is not negative, the elevation lies between the
/// blended elevation less the river depth and the blended elevation.
pub proof fn lemma_river_bound(cfg: Config, x: int, y: int)
    ensures
        elevation_spec(cfg, x, y) >= blended_spec(cfg, x, y) - depth_below_spec(cfg),
        elevation_spec(cfg, x, y) <= blended_spec(cfg, x, y) + depth_above_spec(cfg),
        cfg.river_depth >= 0 ==> blended_spec(cfg, x, y) - cfg.river_depth <= elevation_spec(
            cfg,
            x,
            y,
        ) <= blended_spec(cfg, x, y),
{
    let here = blended_spec(cfg, x, y);
    let east = blended_spec(cfg, plus_spec(x, RIVER_STEP as int), y);
    let north = blended_spec(cfg, x, plus_spec(y, RIVER_STEP as int));
    lemma_blended_range(cfg, x, y);
    lemma_carve_bound(cfg, here, drainage_spec(here, east, north));
}

/// Rivers do not carve under water: where the blended elevation is at or
/// under the shelf level, it is the elevation.
pub proof fn lemma_no_river_under_water(cfg: Config, x: int, y: int)
    requires
        blended_spec(cfg, x, y) <= cfg.shelf_level,
    ensures
        elevation_spec(cfg, x, y) == blended_spec(cfg, x, y),
{
}

} // verus!
