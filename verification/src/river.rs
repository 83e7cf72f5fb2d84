//! The river carver: cuts a bounded depression into the blended elevation
//! where the terrain drains.
//!
//! Drainage is read off the slope of the blended field, taken by finite
//! differences towards the east and the north. Carving never reaches below
//! the sea floor and leaves everything at or under the shelf level alone.

use vstd::prelude::*;
use crate::config::Config;
use crate::fixed::{clamp, clamp_spec, minus, plus, plus_spec, times, times_spec, ONE};

verus! {

/// Distance between the points whose elevations give the slope.
pub const RIVER_STEP: i64 = 64;

/// Factor from slope to drainage intensity: 64.
pub const DRAINAGE_GAIN: i64 = 4194304;

/// The distance between two elevations, saturated to the `i64` range.
pub open spec fn distance_spec(a: int, b: int) -> int {
    clamp_spec(
        if a < b {
            b - a
        } else {
            a - b
        },
        0,
        i64::MAX as int,
    )
}

/// The drainage intensity at a point whose elevation is `center`, given the
/// elevations one step east and one step north of it. It is never negative
/// and grows with the slope.
pub open spec fn drainage_spec(center: int, east: int, north: int) -> int {
    times_spec(
        plus_spec(distance_spec(east, center), distance_spec(north, center)),
        DRAINAGE_GAIN as int,
    )
}

/// How deep the river cuts at a drainage intensity: the intensity, limited
/// to `[0, ONE]`, times the river depth.
pub open spec fn cut_spec(cfg: Config, drainage: int) -> int {
    times_spec(clamp_spec(drainage, 0, ONE as int), cfg.river_depth as int)
}

/// The elevation after carving. Above the shelf level the cut is taken off
/// and the result is limited to `[-ONE, ONE]`; at or under the shelf level
/// the elevation stays.
pub open spec fn carve_spec(cfg: Config, elevation: int, drainage: int) -> int {
    if elevation > cfg.shelf_level {
        clamp_spec(elevation - cut_spec(cfg, drainage), -(ONE as int), ONE as int)
    } else {
        elevation
    }
}

/// Drainage is never negative, and level ground does not drain.
pub proof fn lemma_drainage_range(center: int, east: int, north: int)
    ensures
        0 <= drainage_spec(center, east, north),
        east == center && north == center ==> drainage_spec(center, east, north) == 0,
{
    let slope = plus_spec(distance_spec(east, center), distance_spec(north, center));
    assert(0 <= slope * (DRAINAGE_GAIN as int)) by (nonlinear_arith)
        requires
            0 <= slope,
    ;
    if east == center && north == center {
        assert(slope == 0);
        assert(slope * (DRAINAGE_GAIN as int) == 0);
    }
}

/// The positive part of a river depth: what a river can take off.
pub open spec fn depth_below_spec(cfg: Config) -> int {
    if cfg.river_depth > 0 {
        cfg.river_depth as int
    } else {
        0
    }
}

/// The negative part of a river depth, as a height: what a river of
/// negative depth can add.
pub open spec fn depth_above_spec(cfg: Config) -> int {
    if cfg.river_depth < 0 {
        -(cfg.river_depth as int)
    } else {
        0
    }
}

/// A river cuts between nothing and its depth; without drainage it cuts
/// nothing.
pub proof fn lemma_cut_range(cfg: Config, drainage: int)
    ensures
        -depth_above_spec(cfg) <= cut_spec(cfg, drainage) <= depth_below_spec(cfg),
        drainage <= 0 ==> cut_spec(cfg, drainage) == 0,
        cfg.river_depth == 0 ==> cut_spec(cfg, drainage) == 0,
{
    let c = clamp_spec(drainage, 0, ONE as int);
    let d = cfg.river_depth as int;
    assert(d >= 0 ==> 0 <= c * d <= 65536 * d) by (nonlinear_arith)
        requires
            0 <= c <= 65536,
    ;
    assert(d <= 0 ==> 65536 * d <= c * d <= 0) by (nonlinear_arith)
        requires
            0 <= c <= 65536,
    ;
    if drainage <= 0 {
        assert(c == 0);
        assert(0 * d == 0);
    }
}

/// River bound: carving lowers an elevation in range by no more than the
/// river depth, and raises it by no more than a negative river depth. With
/// a river depth that is not negative it never raises an elevation.
pub proof fn lemma_carve_bound(cfg: Config, elevation: int, drainage: int)
    requires
        -ONE <= elevation <= ONE,
    ensures
        carve_spec(cfg, elevation, drainage) >= elevation - depth_below_spec(cfg),
        carve_spec(cfg, elevation, drainage) <= elevation + depth_above_spec(cfg),
        cfg.river_depth >= 0 ==> elevation - cfg.river_depth <= carve_spec(
            cfg,
            elevation,
            drainage,
        ) <= elevation,
{
    lemma_cut_range(cfg, drainage);
}

/// Carving keeps an elevation in range and leaves what lies at or under
/// the shelf level alone.
pub proof fn lemma_carve_range(cfg: Config, elevation: int, drainage: int)
    ensures
        -ONE <= elevation <= ONE ==> -ONE <= carve_spec(cfg, elevation, drainage) <= ONE,
        elevation <= cfg.shelf_level ==> carve_spec(cfg, elevation, drainage) == elevation,
{
}

/// A river without depth, and ground that does not drain, leave every
/// elevation in range as it is.
pub proof fn lemma_carve_nothing(cfg: Config, elevation: int, drainage: int)
    requires
        cfg.river_depth == 0 || drainage <= 0,
        -ONE <= elevation <= ONE,
    ensures
        carve_spec(cfg, elevation, drainage) == elevation,
{
    lemma_cut_range(cfg, drainage);
}

/// The distance between two elevations.
pub fn distance(a: i64, b: i64) -> (r: i64)
    ensures
        r == distance_spec(a as int, b as int),
        0 <= r,
{
    if a < b {
        minus(b, a)
    } else {
        minus(a, b)
    }
}

/// The drainage intensity at a point, from its elevation and those one
/// step east and one step north.
pub fn drainage(center: i64, east: i64, north: i64) -> (r: i64)
    ensures
        r == drainage_spec(center as int, east as int, north as int),
        0 <= r,
{
    proof {
        lemma_drainage_range(center as int, east as int, north as int);
    }
    times(plus(distance(east, center), distance(north, center)), DRAINAGE_GAIN)
}

/// Carves the river into a blended elevation.
pub fn carve(cfg: &Config, elevation: i64, drainage: i64) -> (r: i64)
    ensures
        r == carve_spec(*cfg, elevation as int, drainage as int),
        -ONE <= elevation <= ONE ==> -ONE <= r <= ONE,
        cfg.river_depth >= 0 && -ONE <= elevation <= ONE ==> elevation - cfg.river_depth <= r
            <= elevation,
{
    proof {
        if -ONE <= elevation <= ONE {
            lemma_carve_bound(*cfg, elevation as int, drainage as int);
        }
    }
    if elevation > cfg.shelf_level {
        let cut: i64 = times(clamp(drainage, 0, ONE), cfg.river_depth);
        clamp(minus(elevation, cut), -ONE, ONE)
    } else {
        elevation
    }
}

} // verus!
