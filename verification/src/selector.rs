//! The selector: blends the layer elevations at a point into one elevation.
//!
//! The order is fixed. The continent gives the base; mountains, hills and
//! plains share the land between them, mountains before hills before
//! plains; badlands are laid over the result last and can replace any of it.
//! Every transition is a smooth-step, so no seam shows between two types.

use vstd::prelude::*;
use crate::config::Config;
use crate::fixed::{
    clamp, clamp_spec, floor_units, lemma_clamp_sway, lemma_fade_monotone, lemma_fade_slope,
    lemma_lerp_between, lemma_lerp_ends, lemma_lerp_fraction, lemma_ramp_monotone,
    lemma_ramp_range, lemma_smoothstep_monotone, lemma_smoothstep_range, lemma_smoothstep_slope,
    lemma_times_sway, lemma_weighted_between, lerp, lerp_spec, minus, minus_spec, plus, plus_spec,
    ramp_spec, smoothstep, smoothstep_spec, times, times_spec, times_sway_spec, within, ONE,
};

verus! {

/// Width of the transition between two terrain types, as a share of the
/// control range.
pub const SEAM: i64 = 8192;

/// What the layers and the control fields give at one point.
#[derive(Clone, Copy, Debug, PartialEq, Eq)]
pub struct Samples {
    pub continent: i64,
    pub mountain: i64,
    pub hill: i64,
    pub plain: i64,
    pub badland: i64,
    pub terrain_control: i64,
    pub badland_control: i64,
}

/// The shares of the land that the three stacked terrain types hold at one
/// point.
#[derive(Clone, Copy, Debug, PartialEq, Eq)]
pub struct Weights {
    pub mountain: i64,
    pub hill: i64,
    pub plain: i64,
}

/// How much of a point is land: a smooth-step of the continent value that
/// is centred on the sea level and begins at the shelf level.
pub open spec fn land_fraction_spec(cfg: Config, continent: int) -> int {
    smoothstep_spec(
        cfg.shelf_level as int,
        plus_spec(cfg.sea_level as int, minus_spec(cfg.sea_level as int, cfg.shelf_level as int)),
        continent,
    )
}

/// A control value in `[-ONE, ONE]` mapped to a share in `[0, ONE]`.
pub open spec fn share_spec(control: int) -> int {
    clamp_spec((control + ONE) / 2, 0, ONE as int)
}

/// How rough the terrain is at a point: the terrain-type control, scaled by
/// the terrain offset, as a share.
pub open spec fn ruggedness_spec(cfg: Config, control: int) -> int {
    share_spec(times_spec(control, cfg.terrain_offset as int))
}

/// The weight of a terrain type that covers the share `amount` of the
/// control range, at the control value `control` in `[0, ONE]`. The type
/// holds the upper end of the range. An amount of `ONE` covers every
/// point, an amount of 0 none.
pub open spec fn coverage_spec(amount: int, control: int) -> int {
    smoothstep_spec(edge_spec(amount), edge_spec(amount) + SEAM, control)
}

/// The control value at which a terrain type of the given amount begins to
/// show. It falls from `ONE` at an amount of 0 to `-SEAM` at an amount of
/// `ONE`, so that the transition that follows it ends at 0 there.
pub open spec fn edge_spec(amount: int) -> int {
    ONE - (clamp_spec(amount, 0, ONE as int) * (ONE + SEAM)) / (ONE as int)
}

/// The amount of land that is rough at all: mountains and hills together.
pub open spec fn rough_amount_spec(cfg: Config) -> int {
    clamp_spec(cfg.mountains_amount as int, 0, ONE as int) + clamp_spec(
        cfg.hills_amount as int,
        0,
        ONE as int,
    )
}

/// The weight of the mountains where the ruggedness is `r`.
pub open spec fn mountain_weight_spec(cfg: Config, r: int) -> int {
    coverage_spec(cfg.mountains_amount as int, r)
}

/// The weight of the hills: what the mountains leave of the rough land.
pub open spec fn hill_weight_spec(cfg: Config, r: int) -> int {
    let rough = coverage_spec(rough_amount_spec(cfg), r);
    (rough * (ONE - mountain_weight_spec(cfg, r))) / (ONE as int)
}

/// The weight of the plains: what mountains and hills leave.
pub open spec fn plain_weight_spec(cfg: Config, r: int) -> int {
    ONE - mountain_weight_spec(cfg, r) - hill_weight_spec(cfg, r)
}

/// The average of the three stacked layers under their weights.
pub open spec fn terrain_spec(cfg: Config, s: Samples) -> int {
    let r = ruggedness_spec(cfg, s.terrain_control as int);
    (mountain_weight_spec(cfg, r) * s.mountain + hill_weight_spec(cfg, r) * s.hill
        + plain_weight_spec(cfg, r) * s.plain) / (ONE as int)
}

/// The elevation before badlands: the scaled continent plus the terrain on
/// the land, limited to `[-ONE, ONE]`.
pub open spec fn base_spec(cfg: Config, s: Samples) -> int {
    clamp_spec(
        plus_spec(
            times_spec(s.continent as int, cfg.continent_height_scale as int),
            times_spec(land_fraction_spec(cfg, s.continent as int), terrain_spec(cfg, s)),
        ),
        -(ONE as int),
        ONE as int,
    )
}

/// The weight of the badlands at a point.
pub open spec fn badland_weight_spec(cfg: Config, s: Samples) -> int {
    coverage_spec(cfg.badlands_amount as int, share_spec(s.badland_control as int))
}

/// The blended elevation: the base, replaced by the badland elevation to
/// the extent of the badland weight.
pub open spec fn blend_spec(cfg: Config, s: Samples) -> int {
    lerp_spec(base_spec(cfg, s), s.badland as int, badland_weight_spec(cfg, s))
}

/// A share lies in `[0, ONE]`.
pub proof fn lemma_share_range(control: int)
    ensures
        0 <= share_spec(control) <= ONE,
{
}

/// The edge of a terrain type lies in `[-SEAM, ONE]` and reaches both ends.
pub proof fn lemma_edge_range(amount: int)
    ensures
        -SEAM <= edge_spec(amount) <= ONE,
        amount >= ONE ==> edge_spec(amount) == -SEAM,
        amount <= 0 ==> edge_spec(amount) == ONE,
{
    let a = clamp_spec(amount, 0, ONE as int);
    assert(a * (ONE + SEAM) == a * 73728);
}

/// A coverage weight is a share. It is `ONE` everywhere where the amount is
/// at least `ONE`, and 0 everywhere where the amount is at most 0.
pub proof fn lemma_coverage_range(amount: int, control: int)
    ensures
        0 <= coverage_spec(amount, control) <= ONE,
        amount >= ONE && control >= 0 ==> coverage_spec(amount, control) == ONE,
        amount <= 0 && control <= ONE ==> coverage_spec(amount, control) == 0,
{
    lemma_edge_range(amount);
    lemma_smoothstep_range(edge_spec(amount), edge_spec(amount) + SEAM, control);
}

/// A coverage weight never decreases as the control value grows.
pub proof fn lemma_coverage_monotone(amount: int, c1: int, c2: int)
    requires
        c1 <= c2,
    ensures
        coverage_spec(amount, c1) <= coverage_spec(amount, c2),
{
    lemma_smoothstep_monotone(edge_spec(amount), edge_spec(amount) + SEAM, c1, c2);
}

/// A larger amount never covers less: at every control value the coverage
/// weight grows, or stays, as the amount grows.
pub proof fn lemma_coverage_grows_with_amount(a1: int, a2: int, control: int)
    requires
        a1 <= a2,
    ensures
        coverage_spec(a1, control) <= coverage_spec(a2, control),
{
    let e1 = edge_spec(a1);
    let e2 = edge_spec(a2);
    lemma_edge_range(a1);
    lemma_edge_range(a2);
    assert(clamp_spec(a1, 0, ONE as int) * (ONE + SEAM) == clamp_spec(a1, 0, ONE as int) * 73728);
    assert(clamp_spec(a2, 0, ONE as int) * (ONE + SEAM) == clamp_spec(a2, 0, ONE as int) * 73728);
    assert(e2 <= e1);
    lemma_ramp_range(e1, e1 + SEAM, control);
    lemma_ramp_range(e2, e2 + SEAM, control);
    assert(ramp_spec(e1, e1 + SEAM, control) <= ramp_spec(e2, e2 + SEAM, control)) by {
        if e1 < control < e1 + SEAM && control < e2 + SEAM {
            assert((e1 + SEAM) - e1 == 8192);
            assert((e2 + SEAM) - e2 == 8192);
            assert(((control - e1) * 65536) / 8192 <= ((control - e2) * 65536) / 8192);
        }
    }
    lemma_fade_monotone(ramp_spec(e1, e1 + SEAM, control), ramp_spec(e2, e2 + SEAM, control));
}

/// No seam: between two control values a coverage weight rises by no more
/// than twelve times their distance, and one unit for the rounding.
pub proof fn lemma_coverage_slope(amount: int, c1: int, c2: int)
    requires
        c1 <= c2,
    ensures
        0 <= coverage_spec(amount, c2) - coverage_spec(amount, c1) <= 12 * (c2 - c1) + 1,
{
    let e = edge_spec(amount);
    let r1 = ramp_spec(e, e + SEAM, c1);
    let r2 = ramp_spec(e, e + SEAM, c2);
    lemma_ramp_range(e, e + SEAM, c1);
    lemma_ramp_range(e, e + SEAM, c2);
    lemma_ramp_monotone(e, e + SEAM, c1, c2);
    assert((e + SEAM) - e == 8192);
    assert(r2 - r1 <= 8 * (c2 - c1)) by {
        if e < c1 < e + SEAM {
            assert(r1 == ((c1 - e) * 65536) / 8192);
        }
        if e < c2 < e + SEAM {
            assert(r2 == ((c2 - e) * 65536) / 8192);
        }
    }
    lemma_fade_slope(r1, r2);
}

/// Mountains, hills and plains share each point between them: no weight is
/// negative and the three add up to `ONE`. Where the mountains hold a point
/// whole, the hills hold none of it.
pub proof fn lemma_weights_partition(cfg: Config, r: int)
    ensures
        0 <= mountain_weight_spec(cfg, r) <= ONE,
        0 <= hill_weight_spec(cfg, r) <= ONE - mountain_weight_spec(cfg, r),
        0 <= plain_weight_spec(cfg, r) <= ONE,
        mountain_weight_spec(cfg, r) + hill_weight_spec(cfg, r) + plain_weight_spec(cfg, r)
            == ONE,
        mountain_weight_spec(cfg, r) == ONE ==> hill_weight_spec(cfg, r) == 0,
{
    lemma_coverage_range(cfg.mountains_amount as int, r);
    lemma_coverage_range(rough_amount_spec(cfg), r);
    let m = mountain_weight_spec(cfg, r);
    let both = coverage_spec(rough_amount_spec(cfg), r);
    let rest = ONE - m;
    assert(0 <= both * rest <= 65536 * rest) by (nonlinear_arith)
        requires
            0 <= both <= 65536,
            0 <= rest,
    ;
}

/// A weighted sum under weights that add up to `ONE` lies between `ONE`
/// times the least and `ONE` times the greatest of its values.
pub proof fn lemma_average_between(
    w1: int,
    w2: int,
    w3: int,
    v1: int,
    v2: int,
    v3: int,
    lo: int,
    hi: int,
)
    requires
        0 <= w1,
        0 <= w2,
        0 <= w3,
        w1 + w2 + w3 == ONE,
        lo <= v1 <= hi,
        lo <= v2 <= hi,
        lo <= v3 <= hi,
    ensures
        lo * ONE <= w1 * v1 + w2 * v2 + w3 * v3 <= hi * ONE,
        lo <= (w1 * v1 + w2 * v2 + w3 * v3) / (ONE as int) <= hi,
{
    assert(w1 * lo <= w1 * v1 <= w1 * hi) by (nonlinear_arith)
        requires
            0 <= w1,
            lo <= v1 <= hi,
    ;
    assert(w2 * lo <= w2 * v2 <= w2 * hi) by (nonlinear_arith)
        requires
            0 <= w2,
            lo <= v2 <= hi,
    ;
    assert(w3 * lo <= w3 * v3 <= w3 * hi) by (nonlinear_arith)
        requires
            0 <= w3,
            lo <= v3 <= hi,
    ;
    assert(w1 * lo + w2 * lo + w3 * lo == lo * 65536) by (nonlinear_arith)
        requires
            w1 + w2 + w3 == 65536,
    ;
    assert(w1 * hi + w2 * hi + w3 * hi == hi * 65536) by (nonlinear_arith)
        requires
            w1 + w2 + w3 == 65536,
    ;
}

/// The terrain at a point is an average: it lies between the least and the
/// greatest of the three layer elevations.
pub proof fn lemma_terrain_between(cfg: Config, s: Samples, lo: int, hi: int)
    requires
        lo <= s.mountain <= hi,
        lo <= s.hill <= hi,
        lo <= s.plain <= hi,
    ensures
        lo <= terrain_spec(cfg, s) <= hi,
{
    let r = ruggedness_spec(cfg, s.terrain_control as int);
    lemma_weights_partition(cfg, r);
    lemma_average_between(
        mountain_weight_spec(cfg, r),
        hill_weight_spec(cfg, r),
        plain_weight_spec(cfg, r),
        s.mountain as int,
        s.hill as int,
        s.plain as int,
        lo,
        hi,
    );
}

/// The blended elevation is in range wherever the badland elevation is.
pub proof fn lemma_blend_range(cfg: Config, s: Samples)
    requires
        -ONE <= s.badland <= ONE,
    ensures
        -ONE <= blend_spec(cfg, s) <= ONE,
{
    lemma_lerp_between(base_spec(cfg, s), s.badland as int, badland_weight_spec(cfg, s));
}

/// Badlands override: where the badland amount is at least `ONE`, the
/// blended elevation is the badland elevation, whatever the other layers
/// give.
pub proof fn lemma_badland_override(cfg: Config, s: Samples)
    requires
        cfg.badlands_amount >= ONE,
    ensures
        blend_spec(cfg, s) == s.badland,
{
    lemma_share_range(s.badland_control as int);
    lemma_coverage_range(cfg.badlands_amount as int, share_spec(s.badland_control as int));
    lemma_lerp_between(base_spec(cfg, s), s.badland as int, badland_weight_spec(cfg, s));
}

/// Without badlands the blended elevation is the base.
pub proof fn lemma_no_badlands(cfg: Config, s: Samples)
    requires
        cfg.badlands_amount <= 0,
    ensures
        blend_spec(cfg, s) == base_spec(cfg, s),
{
    lemma_share_range(s.badland_control as int);
    lemma_coverage_range(cfg.badlands_amount as int, share_spec(s.badland_control as int));
    lemma_lerp_between(base_spec(cfg, s), s.badland as int, badland_weight_spec(cfg, s));
}

/// The land fraction is a share. Up to the shelf level nothing is land; on
/// a valid configuration a point at sea level is half land, and a point as
/// far above the sea level as the shelf lies below it is all land.
pub proof fn lemma_land_fraction(cfg: Config, continent: int)
    ensures
        0 <= land_fraction_spec(cfg, continent) <= ONE,
        continent <= cfg.shelf_level ==> land_fraction_spec(cfg, continent) == 0,
        cfg.valid() && continent == cfg.sea_level ==> land_fraction_spec(cfg, continent)
            == ONE / 2,
        cfg.valid() && continent >= 2 * cfg.sea_level - cfg.shelf_level
            ==> land_fraction_spec(cfg, continent) == ONE,
{
    let upper = plus_spec(
        cfg.sea_level as int,
        minus_spec(cfg.sea_level as int, cfg.shelf_level as int),
    );
    lemma_smoothstep_range(cfg.shelf_level as int, upper, continent);
    if cfg.valid() && continent == cfg.sea_level {
        let d = cfg.sea_level - cfg.shelf_level;
        assert(upper - cfg.shelf_level == 2 * d);
        assert((d * 65536) / (2 * d) == 32768) by (nonlinear_arith)
            requires
                d > 0,
        ;
        assert(32768 * 32768 * (3 * 65536 - 2 * 32768) == 32768 * 0x1_0000_0000) by (nonlinear_arith);
    }
}

/// The land fraction never decreases as the continent value grows.
pub proof fn lemma_land_fraction_monotone(cfg: Config, c1: int, c2: int)
    requires
        c1 <= c2,
    ensures
        land_fraction_spec(cfg, c1) <= land_fraction_spec(cfg, c2),
{
    lemma_smoothstep_monotone(
        cfg.shelf_level as int,
        plus_spec(cfg.sea_level as int, minus_spec(cfg.sea_level as int, cfg.shelf_level as int)),
        c1,
        c2,
    );
}

/// The shore has no hard edge: on a valid configuration the land fraction
/// rises between two continent values by no more than one and a half times
/// their distance over twice the depth of the shelf, and three units for
/// the rounding.
pub proof fn lemma_land_fraction_slope(cfg: Config, c1: int, c2: int)
    requires
        cfg.valid(),
        c1 <= c2,
    ensures
        0 <= land_fraction_spec(cfg, c2) - land_fraction_spec(cfg, c1),
        4 * (land_fraction_spec(cfg, c2) - land_fraction_spec(cfg, c1)) * (cfg.sea_level
            - cfg.shelf_level) <= 3 * (c2 - c1) * ONE + 10 * (cfg.sea_level - cfg.shelf_level),
{
    let depth = cfg.sea_level - cfg.shelf_level;
    let upper = cfg.sea_level + depth;
    let rise = land_fraction_spec(cfg, c2) - land_fraction_spec(cfg, c1);
    lemma_smoothstep_slope(cfg.shelf_level as int, upper, c1, c2);
    assert(upper - cfg.shelf_level == 2 * depth);
    assert(2 * rise * (2 * depth) == 4 * rise * depth) by (nonlinear_arith);
}

/// Every sample is an elevation or a control value in `[-ONE, ONE]`.
pub open spec fn samples_in_range(s: Samples) -> bool {
    &&& -ONE <= s.continent <= ONE
    &&& -ONE <= s.mountain <= ONE
    &&& -ONE <= s.hill <= ONE
    &&& -ONE <= s.plain <= ONE
    &&& -ONE <= s.badland <= ONE
    &&& -ONE <= s.terrain_control <= ONE
    &&& -ONE <= s.badland_control <= ONE
}

/// No sample of `a` lies more than `d` from the same sample of `b`.
pub open spec fn samples_within(a: Samples, b: Samples, d: int) -> bool {
    &&& within(a.continent as int, b.continent as int, d)
    &&& within(a.mountain as int, b.mountain as int, d)
    &&& within(a.hill as int, b.hill as int, d)
    &&& within(a.plain as int, b.plain as int, d)
    &&& within(a.badland as int, b.badland as int, d)
    &&& within(a.terrain_control as int, b.terrain_control as int, d)
    &&& within(a.badland_control as int, b.badland_control as int, d)
}

/// How far a share moves at most when its control value moves by `d`.
pub open spec fn share_sway_spec(d: int) -> int {
    d / 2 + 1
}

/// How far a coverage weight moves at most when its control value moves by
/// `d`.
pub open spec fn coverage_sway_spec(d: int) -> int {
    12 * d + 1
}

/// How far the weight of the mountains, and the weight of the rough land,
/// move at most when the terrain-type control moves by `d`.
pub open spec fn weight_sway_spec(cfg: Config, d: int) -> int {
    coverage_sway_spec(share_sway_spec(times_sway_spec(cfg.terrain_offset as int, d)))
}

/// How far the terrain moves at most when every sample moves by `d`.
pub open spec fn terrain_sway_spec(cfg: Config, d: int) -> int {
    3 * d + 6 * weight_sway_spec(cfg, d)
}

/// How far the land fraction moves at most when the continent value moves
/// by `d`.
pub open spec fn land_sway_spec(cfg: Config, d: int) -> int {
    (3 * d * ONE + 10 * (cfg.sea_level - cfg.shelf_level)) / (4 * (cfg.sea_level
        - cfg.shelf_level))
}

/// How far the elevation before badlands moves at most when every sample
/// moves by `d`.
pub open spec fn base_sway_spec(cfg: Config, d: int) -> int {
    times_sway_spec(cfg.continent_height_scale as int, d) + land_sway_spec(cfg, d)
        + terrain_sway_spec(cfg, d)
}

/// How far the blended elevation moves at most when every sample moves by
/// `d`.
pub open spec fn blend_sway_spec(cfg: Config, d: int) -> int {
    base_sway_spec(cfg, d) + 2 * coverage_sway_spec(share_sway_spec(d))
}

/// A share follows its control value.
pub proof fn lemma_share_sway(c1: int, c2: int, d: int)
    requires
        within(c1, c2, d),
    ensures
        within(share_spec(c1), share_spec(c2), share_sway_spec(d)),
{
    lemma_clamp_sway((c1 + ONE) / 2, (c2 + ONE) / 2, 0, ONE as int, d / 2 + 1);
}

/// A coverage weight follows its control value.
pub proof fn lemma_coverage_sway(amount: int, c1: int, c2: int, d: int)
    requires
        within(c1, c2, d),
    ensures
        within(coverage_spec(amount, c1), coverage_spec(amount, c2), coverage_sway_spec(d)),
{
    if c1 <= c2 {
        lemma_coverage_slope(amount, c1, c2);
    } else {
        lemma_coverage_slope(amount, c2, c1);
    }
}

/// The product of a share and a value in range follows both factors.
proof fn lemma_weighted_sway(u1: int, u2: int, v1: int, v2: int, du: int, dv: int)
    requires
        0 <= u1 <= ONE,
        0 <= u2 <= ONE,
        -ONE <= v1 <= ONE,
        -ONE <= v2 <= ONE,
        within(u1, u2, du),
        within(v1, v2, dv),
    ensures
        -(du + dv) * ONE <= u1 * v1 - u2 * v2 <= (du + dv) * ONE,
{
    assert(-(du + dv) * 65536 <= u1 * v1 - u2 * v2 <= (du + dv) * 65536) by (nonlinear_arith)
        requires
            0 <= u1 <= 65536,
            -65536 <= v2 <= 65536,
            -du <= u1 - u2 <= du,
            -dv <= v1 - v2 <= dv,
    {
        assert(u1 * v1 - u2 * v2 == u1 * (v1 - v2) + v2 * (u1 - u2));
        assert(-65536 * dv <= u1 * (v1 - v2) <= 65536 * dv);
        assert(-65536 * du <= v2 * (u1 - u2) <= 65536 * du);
    }
}

/// The three terrain weights follow the ruggedness.
pub proof fn lemma_weights_sway(cfg: Config, r1: int, r2: int, d: int)
    requires
        within(r1, r2, d),
    ensures
        within(mountain_weight_spec(cfg, r1), mountain_weight_spec(cfg, r2), coverage_sway_spec(d)),
        within(hill_weight_spec(cfg, r1), hill_weight_spec(cfg, r2), 2 * coverage_sway_spec(d)),
        within(plain_weight_spec(cfg, r1), plain_weight_spec(cfg, r2), 3 * coverage_sway_spec(d)),
{
    let w = coverage_sway_spec(d);
    let m1 = mountain_weight_spec(cfg, r1);
    let m2 = mountain_weight_spec(cfg, r2);
    let b1 = coverage_spec(rough_amount_spec(cfg), r1);
    let b2 = coverage_spec(rough_amount_spec(cfg), r2);
    lemma_coverage_sway(cfg.mountains_amount as int, r1, r2, d);
    lemma_coverage_sway(rough_amount_spec(cfg), r1, r2, d);
    lemma_coverage_range(cfg.mountains_amount as int, r1);
    lemma_coverage_range(cfg.mountains_amount as int, r2);
    lemma_coverage_range(rough_amount_spec(cfg), r1);
    lemma_coverage_range(rough_amount_spec(cfg), r2);
    lemma_weighted_sway(b1, b2, ONE - m1, ONE - m2, w, w);
}

/// The terrain follows the samples: no seam between mountains, hills and
/// plains.
pub proof fn lemma_terrain_sway(cfg: Config, s1: Samples, s2: Samples, d: int)
    requires
        samples_in_range(s1),
        samples_in_range(s2),
        samples_within(s1, s2, d),
    ensures
        within(terrain_spec(cfg, s1), terrain_spec(cfg, s2), terrain_sway_spec(cfg, d)),
{
    let r1 = ruggedness_spec(cfg, s1.terrain_control as int);
    let r2 = ruggedness_spec(cfg, s2.terrain_control as int);
    let rd = share_sway_spec(times_sway_spec(cfg.terrain_offset as int, d));
    let w = coverage_sway_spec(rd);
    lemma_times_sway(s1.terrain_control as int, s2.terrain_control as int, cfg.terrain_offset as int, d);
    lemma_share_sway(
        times_spec(s1.terrain_control as int, cfg.terrain_offset as int),
        times_spec(s2.terrain_control as int, cfg.terrain_offset as int),
        times_sway_spec(cfg.terrain_offset as int, d),
    );
    lemma_weights_sway(cfg, r1, r2, rd);
    lemma_weights_partition(cfg, r1);
    lemma_weights_partition(cfg, r2);
    lemma_weighted_sway(
        mountain_weight_spec(cfg, r1),
        mountain_weight_spec(cfg, r2),
        s1.mountain as int,
        s2.mountain as int,
        w,
        d,
    );
    lemma_weighted_sway(
        hill_weight_spec(cfg, r1),
        hill_weight_spec(cfg, r2),
        s1.hill as int,
        s2.hill as int,
        2 * w,
        d,
    );
    lemma_weighted_sway(
        plain_weight_spec(cfg, r1),
        plain_weight_spec(cfg, r2),
        s1.plain as int,
        s2.plain as int,
        3 * w,
        d,
    );
}

/// On a valid configuration the land fraction follows the continent value.
pub proof fn lemma_land_sway(cfg: Config, c1: int, c2: int, d: int)
    requires
        cfg.valid(),
        within(c1, c2, d),
    ensures
        within(land_fraction_spec(cfg, c1), land_fraction_spec(cfg, c2), land_sway_spec(cfg, d)),
{
    let depth = cfg.sea_level - cfg.shelf_level;
    let lo = if c1 <= c2 {
        c1
    } else {
        c2
    };
    let hi = if c1 <= c2 {
        c2
    } else {
        c1
    };
    let rise = land_fraction_spec(cfg, hi) - land_fraction_spec(cfg, lo);
    lemma_land_fraction_slope(cfg, lo, hi);
    let budget = 3 * d * ONE + 10 * depth;
    assert(rise <= budget / (4 * depth)) by (nonlinear_arith)
        requires
            4 * rise * depth <= budget,
            depth > 0,
    {
        assert(rise * (4 * depth) <= budget);
    }
}

/// The elevation before badlands follows the samples on a valid
/// configuration.
pub proof fn lemma_base_sway(cfg: Config, s1: Samples, s2: Samples, d: int)
    requires
        cfg.valid(),
        samples_in_range(s1),
        samples_in_range(s2),
        samples_within(s1, s2, d),
    ensures
        within(base_spec(cfg, s1), base_spec(cfg, s2), base_sway_spec(cfg, d)),
        base_sway_spec(cfg, d) >= d,
{
    let scale = cfg.continent_height_scale as int;
    let l1 = land_fraction_spec(cfg, s1.continent as int);
    let l2 = land_fraction_spec(cfg, s2.continent as int);
    let t1 = terrain_spec(cfg, s1);
    let t2 = terrain_spec(cfg, s2);
    lemma_times_sway(s1.continent as int, s2.continent as int, scale, d);
    lemma_land_sway(cfg, s1.continent as int, s2.continent as int, d);
    lemma_land_fraction(cfg, s1.continent as int);
    lemma_land_fraction(cfg, s2.continent as int);
    lemma_terrain_sway(cfg, s1, s2, d);
    lemma_terrain_between(cfg, s1, -(ONE as int), ONE as int);
    lemma_terrain_between(cfg, s2, -(ONE as int), ONE as int);
    lemma_weighted_sway(l1, l2, t1, t2, land_sway_spec(cfg, d), terrain_sway_spec(cfg, d));
    lemma_weighted_between(t1, l1, ONE as int);
    lemma_weighted_between(t2, l2, ONE as int);
    let sum1 = plus_spec(times_spec(s1.continent as int, scale), times_spec(l1, t1));
    let sum2 = plus_spec(times_spec(s2.continent as int, scale), times_spec(l2, t2));
    assert(within(times_spec(l1, t1), times_spec(l2, t2), land_sway_spec(cfg, d)
        + terrain_sway_spec(cfg, d))) by {
        assert(t1 * l1 == l1 * t1) by (nonlinear_arith);
        assert(t2 * l2 == l2 * t2) by (nonlinear_arith);
    }
    lemma_clamp_sway(
        times_spec(s1.continent as int, scale) + times_spec(l1, t1),
        times_spec(s2.continent as int, scale) + times_spec(l2, t2),
        i64::MIN as int,
        i64::MAX as int,
        base_sway_spec(cfg, d),
    );
    lemma_clamp_sway(sum1, sum2, -(ONE as int), ONE as int, base_sway_spec(cfg, d));
}

/// No hard cutoff in the selector: on a valid configuration, where no
/// sample moves by more than `d`, the blended elevation moves by no more
/// than `blend_sway_spec(cfg, d)`.
pub proof fn lemma_blend_sway(cfg: Config, s1: Samples, s2: Samples, d: int)
    requires
        cfg.valid(),
        samples_in_range(s1),
        samples_in_range(s2),
        samples_within(s1, s2, d),
    ensures
        within(blend_spec(cfg, s1), blend_spec(cfg, s2), blend_sway_spec(cfg, d)),
{
    let b1 = base_spec(cfg, s1);
    let b2 = base_spec(cfg, s2);
    let w1 = badland_weight_spec(cfg, s1);
    let w2 = badland_weight_spec(cfg, s2);
    let ws = coverage_sway_spec(share_sway_spec(d));
    lemma_base_sway(cfg, s1, s2, d);
    lemma_share_sway(s1.badland_control as int, s2.badland_control as int, d);
    lemma_coverage_sway(
        cfg.badlands_amount as int,
        share_spec(s1.badland_control as int),
        share_spec(s2.badland_control as int),
        share_sway_spec(d),
    );
    lemma_coverage_range(cfg.badlands_amount as int, share_spec(s1.badland_control as int));
    lemma_coverage_range(cfg.badlands_amount as int, share_spec(s2.badland_control as int));
    // First the ends move under the first weight, then the weight moves
    // between the second pair of ends.
    lemma_lerp_ends(b1, s1.badland as int, b2, s2.badland as int, w1, base_sway_spec(cfg, d));
    let span = s2.badland - b2;
    let lo = if w1 <= w2 {
        w1
    } else {
        w2
    };
    let hi = if w1 <= w2 {
        w2
    } else {
        w1
    };
    assert(-(2 * ws) * ONE <= span * (hi - lo) <= (2 * ws) * ONE) by (nonlinear_arith)
        requires
            -131072 <= span <= 131072,
            0 <= hi - lo <= ws,
    ;
    lemma_lerp_fraction(b2, s2.badland as int, lo, hi, 2 * ws);
}

/// What the bound comes to: with a terrain offset of no more than 2, a
/// continent height scale of no more than 1 and a shelf at least an eighth
/// below the sea, samples that move by one unit move the blended elevation
/// by no more than 189 units, less than a third of a percent of `ONE`.
pub proof fn lemma_blend_sway_is_small(cfg: Config)
    requires
        cfg.valid(),
        -2 * ONE <= cfg.terrain_offset <= 2 * ONE,
        -ONE <= cfg.continent_height_scale <= ONE,
        cfg.sea_level - cfg.shelf_level >= ONE / 8,
    ensures
        blend_sway_spec(cfg, 1) <= 189,
{
    let depth = cfg.sea_level - cfg.shelf_level;
    assert(times_sway_spec(cfg.terrain_offset as int, 1) <= 3);
    assert(times_sway_spec(cfg.continent_height_scale as int, 1) <= 2);
    assert(weight_sway_spec(cfg, 1) <= 25);
    assert(land_sway_spec(cfg, 1) <= 8) by (nonlinear_arith)
        requires
            depth >= 8192,
            land_sway_spec(cfg, 1) == (3 * 65536 + 10 * depth) / (4 * depth),
    {
        assert(3 * 65536 + 10 * depth < 9 * (4 * depth));
    }
}

/// Maps a control value to a share.
pub fn share(control: i64) -> (r: i64)
    ensures
        r == share_spec(control as int),
        0 <= r <= ONE,
{
    if control <= -ONE {
        0
    } else if control >= ONE {
        ONE
    } else {
        (control + ONE) / 2
    }
}

/// How much of a point is land.
pub fn land_fraction(cfg: &Config, continent: i64) -> (r: i64)
    ensures
        r == land_fraction_spec(*cfg, continent as int),
        0 <= r <= ONE,
{
    let upper: i64 = plus(cfg.sea_level, minus(cfg.sea_level, cfg.shelf_level));
    smoothstep(cfg.shelf_level, upper, continent)
}

/// How rough the terrain is at a point.
pub fn ruggedness(cfg: &Config, control: i64) -> (r: i64)
    ensures
        r == ruggedness_spec(*cfg, control as int),
        0 <= r <= ONE,
{
    share(times(control, cfg.terrain_offset))
}

/// The weight of a terrain type of the given amount at a control value.
pub fn coverage(amount: i64, control: i64) -> (r: i64)
    ensures
        r == coverage_spec(amount as int, control as int),
        0 <= r <= ONE,
{
    let a: i64 = clamp(amount, 0, ONE);
    proof {
        lemma_edge_range(amount as int);
        assert(a * (ONE + SEAM) == a * 73728);
    }
    let edge: i64 = ONE - (a * (ONE + SEAM)) / ONE;
    smoothstep(edge, edge + SEAM, control)
}

/// The shares of mountains, hills and plains where the ruggedness is `r`.
pub fn terrain_weights(cfg: &Config, r: i64) -> (w: Weights)
    ensures
        w.mountain == mountain_weight_spec(*cfg, r as int),
        w.hill == hill_weight_spec(*cfg, r as int),
        w.plain == plain_weight_spec(*cfg, r as int),
        0 <= w.mountain,
        0 <= w.hill,
        0 <= w.plain,
        w.mountain + w.hill + w.plain == ONE,
{
    proof {
        lemma_weights_partition(*cfg, r as int);
    }
    let mountain: i64 = coverage(cfg.mountains_amount, r);
    let rough: i64 = clamp(cfg.mountains_amount, 0, ONE) + clamp(cfg.hills_amount, 0, ONE);
    let both: i64 = coverage(rough, r);
    assert(0 <= both * (ONE - mountain) <= 0x1_0000_0000) by (nonlinear_arith)
        requires
            0 <= both <= 65536,
            0 <= mountain <= 65536,
    ;
    let hill: i64 = (both * (ONE - mountain)) / ONE;
    Weights { mountain, hill, plain: ONE - mountain - hill }
}

/// The average of the three stacked layers under their weights.
pub fn terrain(cfg: &Config, s: &Samples) -> (r: i64)
    ensures
        r == terrain_spec(*cfg, *s),
{
    let w: Weights = terrain_weights(cfg, ruggedness(cfg, s.terrain_control));
    proof {
        lemma_average_between(
            w.mountain as int,
            w.hill as int,
            w.plain as int,
            s.mountain as int,
            s.hill as int,
            s.plain as int,
            i64::MIN as int,
            i64::MAX as int,
        );
        let m = w.mountain as int;
        let h = w.hill as int;
        let p = w.plain as int;
        let a = s.mountain as int;
        let b = s.hill as int;
        let c = s.plain as int;
        assert(-0x8000_0000_0000_0000 * 65536 <= m * a <= 0x8000_0000_0000_0000 * 65536)
            by (nonlinear_arith)
            requires
                0 <= m <= 65536,
                -0x8000_0000_0000_0000 <= a <= 0x8000_0000_0000_0000,
        ;
        assert(-0x8000_0000_0000_0000 * 65536 <= h * b <= 0x8000_0000_0000_0000 * 65536)
            by (nonlinear_arith)
            requires
                0 <= h <= 65536,
                -0x8000_0000_0000_0000 <= b <= 0x8000_0000_0000_0000,
        ;
        assert(-0x8000_0000_0000_0000 * 65536 <= p * c <= 0x8000_0000_0000_0000 * 65536)
            by (nonlinear_arith)
            requires
                0 <= p <= 65536,
                -0x8000_0000_0000_0000 <= c <= 0x8000_0000_0000_0000,
        ;
    }
    let by_mountain: i128 = (w.mountain as i128) * (s.mountain as i128);
    let by_hill: i128 = (w.hill as i128) * (s.hill as i128);
    let by_plain: i128 = (w.plain as i128) * (s.plain as i128);
    floor_units(by_mountain + by_hill + by_plain) as i64
}

/// The elevation before badlands.
pub fn base(cfg: &Config, s: &Samples) -> (r: i64)
    ensures
        r == base_spec(*cfg, *s),
        -ONE <= r <= ONE,
{
    let land: i64 = land_fraction(cfg, s.continent);
    clamp(
        plus(times(s.continent, cfg.continent_height_scale), times(land, terrain(cfg, s))),
        -ONE,
        ONE,
    )
}

/// Blends the layer elevations at one point into one elevation.
pub fn blend(cfg: &Config, s: &Samples) -> (r: i64)
    ensures
        r == blend_spec(*cfg, *s),
        -ONE <= s.badland <= ONE ==> -ONE <= r <= ONE,
        cfg.badlands_amount >= ONE ==> r == s.badland,
{
    proof {
        if -ONE <= s.badland <= ONE {
            lemma_blend_range(*cfg, *s);
        }
        if cfg.badlands_amount >= ONE {
            lemma_badland_override(*cfg, *s);
        }
    }
    let weight: i64 = coverage(cfg.badlands_amount, share(s.badland_control));
    lerp(base(cfg, s), s.badland, weight)
}

} // verus!
