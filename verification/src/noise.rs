//! Seeded lattice noise: the coherent pseudo-random fields every terrain
//! layer is made of.
//!
//! A field is a function of a 32-bit seed and a coordinate pair alone. Its
//! values lie in `[-ONE, ONE]`, and it repeats every 2^32 lattice cells.

use vstd::prelude::*;
use crate::fixed::{
    clamp, clamp_spec, fade, fade_spec, floor_units, lemma_fade_range, lemma_fade_slope,
    lemma_lerp_between, lemma_lerp_ends, lemma_lerp_fraction, lemma_product_fits, lerp, lerp_spec,
    magnitude_spec, times, times_spec, ONE,
};

verus! {

/// Distance between the seeds of two neighbouring noise families.
pub const SEED_STRIDE: u32 = 1_000_003;

/// Octaves beyond this count add nothing: their amplitude has rounded to 0.
pub const MAX_OCTAVES: u32 = 16;

/// Families that seeds are told apart for.
pub const MAX_FAMILIES: u32 = 256;

/// The seed of family `index` under the root seed `root`.
pub open spec fn derive_seed_spec(root: u32, index: u32) -> u32 {
    root.wrapping_add(index.wrapping_mul(SEED_STRIDE))
}

/// Derives the seed of a noise family from the root seed.
pub fn derive_seed(root: u32, index: u32) -> (seed: u32)
    ensures
        seed == derive_seed_spec(root, index),
{
    root.wrapping_add(index.wrapping_mul(SEED_STRIDE))
}

/// No two noise fields share a seed: the octaves of one family and those of
/// another never meet, whatever the root seed.
pub proof fn lemma_seeds_distinct(root: u32, i: u32, a: u32, j: u32, b: u32)
    requires
        i < MAX_FAMILIES,
        j < MAX_FAMILIES,
        a < MAX_OCTAVES,
        b < MAX_OCTAVES,
        i != j || a != b,
    ensures
        derive_seed_spec(root, i).wrapping_add(a) != derive_seed_spec(root, j).wrapping_add(b),
{
    let si = i as int * SEED_STRIDE as int;
    let sj = j as int * SEED_STRIDE as int;
    assert(si < 0x1_0000_0000 && sj < 0x1_0000_0000);
    assert(i.wrapping_mul(SEED_STRIDE) == si);
    assert(j.wrapping_mul(SEED_STRIDE) == sj);
}

/// One round of bit mixing.
pub open spec fn mix_spec(h: u32) -> u32 {
    let a = (h ^ 0x9E37_79B9u32).wrapping_mul(0x85EB_CA6Bu32);
    let b = a ^ (a >> 13u32);
    let c = b.wrapping_mul(0xC2B2_AE35u32);
    c ^ (c >> 16u32)
}

/// The hash of a lattice point under a seed.
pub open spec fn hash_spec(seed: u32, ix: u32, iy: u32) -> u32 {
    mix_spec(mix_spec(mix_spec(seed).wrapping_add(ix)) ^ iy)
}

/// The value a seed gives a lattice point, in `[-ONE, ONE]`.
pub open spec fn lattice_spec(seed: u32, ix: u32, iy: u32) -> int {
    (hash_spec(seed, ix, iy) % 131073u32) as int - ONE as int
}

/// A world coordinate brought to the scale of a frequency.
pub open spec fn scaled_spec(x: int, frequency: int) -> int {
    (x * frequency) / (ONE as int)
}

/// The lattice cell a scaled coordinate falls in; cells wrap at 2^32.
pub open spec fn cell_spec(s: int) -> u32 {
    ((s / (ONE as int)) % 0x1_0000_0000) as u32
}

/// How far into its cell a scaled coordinate lies, in `[0, ONE)`.
pub open spec fn frac_spec(s: int) -> int {
    s % (ONE as int)
}

/// The cell after `cell`, wrapping at 2^32.
pub open spec fn next_cell_spec(cell: u32) -> u32 {
    cell.wrapping_add(1u32)
}

/// Value noise at a pair of scaled coordinates: the four lattice values
/// around the point, eased along both axes.
pub open spec fn value_noise_spec(seed: u32, sx: int, sy: int) -> int {
    let ix = cell_spec(sx);
    let iy = cell_spec(sy);
    let jx = next_cell_spec(ix);
    let jy = next_cell_spec(iy);
    let tx = fade_spec(frac_spec(sx));
    let ty = fade_spec(frac_spec(sy));
    let low = lerp_spec(lattice_spec(seed, ix, iy), lattice_spec(seed, jx, iy), tx);
    let high = lerp_spec(lattice_spec(seed, ix, jy), lattice_spec(seed, jx, jy), tx);
    lerp_spec(low, high, ty)
}

/// Lattice values are elevations in range.
pub proof fn lemma_lattice_range(seed: u32, ix: u32, iy: u32)
    ensures
        -ONE <= lattice_spec(seed, ix, iy) <= ONE,
{
}

/// Value noise stays within `[-ONE, ONE]`.
pub proof fn lemma_value_noise_range(seed: u32, sx: int, sy: int)
    ensures
        -ONE <= value_noise_spec(seed, sx, sy) <= ONE,
{
    let ix = cell_spec(sx);
    let iy = cell_spec(sy);
    let jx = next_cell_spec(ix);
    let jy = next_cell_spec(iy);
    let tx = fade_spec(frac_spec(sx));
    let ty = fade_spec(frac_spec(sy));
    let low = lerp_spec(lattice_spec(seed, ix, iy), lattice_spec(seed, jx, iy), tx);
    let high = lerp_spec(lattice_spec(seed, ix, jy), lattice_spec(seed, jx, jy), tx);
    lemma_lerp_between(lattice_spec(seed, ix, iy), lattice_spec(seed, jx, iy), tx);
    lemma_lerp_between(lattice_spec(seed, ix, jy), lattice_spec(seed, jx, jy), tx);
    lemma_lerp_between(low, high, ty);
}

/// Value noise has no break where a coordinate crosses into the next cell:
/// on a cell's edge the field is the blend of the two lattice values on
/// that edge, and on a lattice point it is the lattice value.
pub proof fn lemma_noise_meets_lattice(seed: u32, sx: int, sy: int)
    requires
        frac_spec(sx) == 0,
    ensures
        value_noise_spec(seed, sx, sy) == lerp_spec(
            lattice_spec(seed, cell_spec(sx), cell_spec(sy)),
            lattice_spec(seed, cell_spec(sx), next_cell_spec(cell_spec(sy))),
            fade_spec(frac_spec(sy)),
        ),
        frac_spec(sy) == 0 ==> value_noise_spec(seed, sx, sy) == lattice_spec(
            seed,
            cell_spec(sx),
            cell_spec(sy),
        ),
{
    let ix = cell_spec(sx);
    let iy = cell_spec(sy);
    let jx = next_cell_spec(ix);
    let jy = next_cell_spec(iy);
    lemma_fade_range(0);
    lemma_lerp_between(lattice_spec(seed, ix, iy), lattice_spec(seed, jx, iy), 0);
    lemma_lerp_between(lattice_spec(seed, ix, jy), lattice_spec(seed, jx, jy), 0);
    lemma_lerp_between(lattice_spec(seed, ix, iy), lattice_spec(seed, ix, jy), 0);
}

/// One step of a scaled coordinate stays in the cell or enters the next.
proof fn lemma_cell_step(s: int)
    ensures
        frac_spec(s) < ONE - 1 ==> cell_spec(s + 1) == cell_spec(s) && frac_spec(s + 1)
            == frac_spec(s) + 1,
        frac_spec(s) == ONE - 1 ==> cell_spec(s + 1) == next_cell_spec(cell_spec(s)) && frac_spec(
            s + 1,
        ) == 0,
        0 <= frac_spec(s) < ONE,
{
}

/// Along one lattice edge, one step of the fraction moves the blend of the
/// two lattice values by no more than 4; so does the step from the last
/// fraction of the edge to its end.
proof fn lemma_edge_step(a: int, b: int, f: int)
    requires
        -ONE <= a <= ONE,
        -ONE <= b <= ONE,
        0 <= f < ONE,
    ensures
        -4 <= lerp_spec(a, b, fade_spec(f + 1)) - lerp_spec(a, b, fade_spec(f)) <= 4,
        f == ONE - 1 ==> -4 <= b - lerp_spec(a, b, fade_spec(f)) <= 4,
{
    lemma_fade_slope(f, f + 1);
    lemma_fade_range(f);
    lemma_fade_range(f + 1);
    let c1 = fade_spec(f);
    let c2 = fade_spec(f + 1);
    let d = b - a;
    let step = c2 - c1;
    assert(-4 * 65536 <= d * step <= 4 * 65536) by (nonlinear_arith)
        requires
            -131072 <= d <= 131072,
            0 <= step <= 2,
    ;
    lemma_lerp_fraction(a, b, c1, c2, 4);
    if f == ONE - 1 {
        lemma_lerp_between(a, b, c2);
    }
}

/// Value noise is continuous: one step along either axis moves it by no
/// more than 4, within a cell and across the edge between two cells.
pub proof fn lemma_noise_step(seed: u32, sx: int, sy: int)
    ensures
        -4 <= value_noise_spec(seed, sx + 1, sy) - value_noise_spec(seed, sx, sy) <= 4,
        -4 <= value_noise_spec(seed, sx, sy + 1) - value_noise_spec(seed, sx, sy) <= 4,
{
    let ix = cell_spec(sx);
    let iy = cell_spec(sy);
    let jx = next_cell_spec(ix);
    let jy = next_cell_spec(iy);
    let fx = frac_spec(sx);
    let fy = frac_spec(sy);
    let tx = fade_spec(fx);
    let ty = fade_spec(fy);
    let l00 = lattice_spec(seed, ix, iy);
    let l10 = lattice_spec(seed, jx, iy);
    let l01 = lattice_spec(seed, ix, jy);
    let l11 = lattice_spec(seed, jx, jy);
    let low = lerp_spec(l00, l10, tx);
    let high = lerp_spec(l01, l11, tx);
    lemma_cell_step(sx);
    lemma_cell_step(sy);
    lemma_lerp_between(l00, l10, tx);
    lemma_lerp_between(l01, l11, tx);
    lemma_fade_range(0);
    // Along x.
    lemma_edge_step(l00, l10, fx);
    lemma_edge_step(l01, l11, fx);
    if fx < ONE - 1 {
        let low2 = lerp_spec(l00, l10, fade_spec(fx + 1));
        let high2 = lerp_spec(l01, l11, fade_spec(fx + 1));
        lemma_lerp_ends(low, high, low2, high2, ty, 4);
    } else {
        let kx = next_cell_spec(jx);
        lemma_lerp_between(l10, lattice_spec(seed, kx, iy), 0);
        lemma_lerp_between(l11, lattice_spec(seed, kx, jy), 0);
        lemma_lerp_ends(low, high, l10, l11, ty, 4);
    }
    // Along y.
    lemma_edge_step(low, high, fy);
    if fy == ONE - 1 {
        let ky = next_cell_spec(jy);
        let above = lerp_spec(lattice_spec(seed, ix, ky), lattice_spec(seed, jx, ky), tx);
        lemma_lerp_between(high, above, 0);
    }
}

/// At a frequency of no more than `ONE`, one step of a world coordinate is
/// at most one step of the scaled coordinate.
pub proof fn lemma_scaled_step(x: int, frequency: int)
    requires
        0 <= frequency <= ONE,
    ensures
        scaled_spec(x + 1, frequency) == scaled_spec(x, frequency) || scaled_spec(x + 1, frequency)
            == scaled_spec(x, frequency) + 1,
{
    assert((x + 1) * frequency == x * frequency + frequency) by (nonlinear_arith);
}

/// At a frequency of no more than `ONE`, neighbouring world coordinates lie
/// no more than 4 apart in the field.
pub proof fn lemma_noise_step_in_world(seed: u32, x: int, y: int, frequency: int)
    requires
        0 <= frequency <= ONE,
    ensures
        -4 <= value_noise_spec(seed, scaled_spec(x + 1, frequency), scaled_spec(y, frequency))
            - value_noise_spec(seed, scaled_spec(x, frequency), scaled_spec(y, frequency)) <= 4,
        -4 <= value_noise_spec(seed, scaled_spec(x, frequency), scaled_spec(y + 1, frequency))
            - value_noise_spec(seed, scaled_spec(x, frequency), scaled_spec(y, frequency)) <= 4,
{
    let sx = scaled_spec(x, frequency);
    let sy = scaled_spec(y, frequency);
    lemma_scaled_step(x, frequency);
    lemma_scaled_step(y, frequency);
    lemma_noise_step(seed, sx, sy);
}

/// Mixes the bits of `h`.
fn mix(h: u32) -> (r: u32)
    ensures
        r == mix_spec(h),
{
    let a: u32 = (h ^ 0x9E37_79B9u32).wrapping_mul(0x85EB_CA6Bu32);
    let b: u32 = a ^ (a >> 13u32);
    let c: u32 = b.wrapping_mul(0xC2B2_AE35u32);
    c ^ (c >> 16u32)
}

/// The value a seed gives a lattice point.
pub fn lattice(seed: u32, ix: u32, iy: u32) -> (v: i64)
    ensures
        v == lattice_spec(seed, ix, iy),
        -ONE <= v <= ONE,
{
    let h: u32 = mix(mix(mix(seed).wrapping_add(ix)) ^ iy);
    (h % 131073u32) as i64 - ONE
}

/// Splits the product of a coordinate and a frequency into its lattice cell
/// and the offset within the cell.
fn locate(x: i64, frequency: i64) -> (r: (u32, i64))
    ensures
        r.0 == cell_spec(scaled_spec(x as int, frequency as int)),
        r.1 == frac_spec(scaled_spec(x as int, frequency as int)),
        0 <= r.1 < ONE,
{
    proof {
        lemma_product_fits(x as int, frequency as int);
    }
    let s: i128 = floor_units((x as i128) * (frequency as i128));
    // Lifting by a multiple of 2^48 keeps the cell and the offset and makes
    // the dividend non-negative.
    let lifted: i128 = s + 0x1_0000_0000_0000_0000_0000_0000_0000;
    let cell: i128 = (lifted / 65536) % 0x1_0000_0000;
    let frac: i128 = lifted % 65536;
    proof {
        assert(lifted / 65536 == s / 65536 + 0x1_0000_0000_0000_0000_0000_0000);
        assert(lifted % 65536 == s % 65536);
    }
    (cell as u32, frac as i64)
}

/// Samples the value-noise field of `seed` at a world coordinate under a
/// frequency.
pub fn value_noise(seed: u32, x: i64, y: i64, frequency: i64) -> (v: i64)
    ensures
        v == value_noise_spec(
            seed,
            scaled_spec(x as int, frequency as int),
            scaled_spec(y as int, frequency as int),
        ),
        -ONE <= v <= ONE,
{
    proof {
        lemma_value_noise_range(
            seed,
            scaled_spec(x as int, frequency as int),
            scaled_spec(y as int, frequency as int),
        );
    }
    let (ix, fx) = locate(x, frequency);
    let (iy, fy) = locate(y, frequency);
    let jx: u32 = ix.wrapping_add(1u32);
    let jy: u32 = iy.wrapping_add(1u32);
    let tx: i64 = fade(fx);
    let ty: i64 = fade(fy);
    let low: i64 = lerp(lattice(seed, ix, iy), lattice(seed, jx, iy), tx);
    let high: i64 = lerp(lattice(seed, ix, jy), lattice(seed, jx, jy), tx);
    lerp(low, high, ty)
}

/// How one octave's noise is shaped before it is summed.
#[derive(Clone, Copy, Debug, PartialEq, Eq)]
pub enum NoiseKind {
    /// The noise as it is.
    Smooth,
    /// Sharp crests where the noise crosses zero.
    Ridged,
    /// Rounded bumps with creases where the noise crosses zero.
    Billow,
}

/// A sum of octaves of one noise family.
#[derive(Clone, Copy, Debug, PartialEq, Eq)]
pub struct Fractal {
    /// Seed of the first octave; octave `k` uses `seed + k`.
    pub seed: u32,
    pub kind: NoiseKind,
    /// Number of octaves, counted up to `MAX_OCTAVES`.
    pub octaves: u32,
    /// Frequency of the first octave.
    pub frequency: i64,
    /// Factor from one octave's frequency to the next.
    pub lacunarity: i64,
    /// Factor from one octave's amplitude to the next, counted within
    /// `[0, ONE / 2]`.
    pub persistence: i64,
}

/// The shape `kind` gives a noise value; the value is limited to
/// `[-ONE, ONE]` first.
pub open spec fn shape_spec(kind: NoiseKind, v: int) -> int {
    let c = clamp_spec(v, -(ONE as int), ONE as int);
    match kind {
        NoiseKind::Smooth => c,
        NoiseKind::Ridged => ONE - 2 * magnitude_spec(c),
        NoiseKind::Billow => 2 * magnitude_spec(c) - ONE,
    }
}

/// One octave: shaped noise at the octave's frequency, weighted by its
/// amplitude.
pub open spec fn octave_spec(
    kind: NoiseKind,
    seed: u32,
    x: int,
    y: int,
    frequency: int,
    amplitude: int,
) -> int {
    (shape_spec(
        kind,
        value_noise_spec(seed, scaled_spec(x, frequency), scaled_spec(y, frequency)),
    ) * amplitude) / (ONE as int)
}

/// The amplitude of the octave after one of amplitude `amplitude`.
pub open spec fn next_amplitude_spec(amplitude: int, persistence: int) -> int {
    (amplitude * clamp_spec(persistence, 0, ONE as int / 2)) / (ONE as int)
}

/// The sum of `left` octaves that starts at the given seed, frequency and
/// amplitude. Each octave takes the next seed, `lacunarity` times the
/// frequency and `persistence` times the amplitude of the one before.
pub open spec fn octaves_spec(
    kind: NoiseKind,
    seed: u32,
    x: int,
    y: int,
    frequency: int,
    lacunarity: int,
    persistence: int,
    amplitude: int,
    left: nat,
) -> int
    decreases left,
{
    if left == 0 {
        0
    } else {
        octave_spec(kind, seed, x, y, frequency, amplitude) + octaves_spec(
            kind,
            seed.wrapping_add(1u32),
            x,
            y,
            times_spec(frequency, lacunarity),
            lacunarity,
            persistence,
            next_amplitude_spec(amplitude, persistence),
            (left - 1) as nat,
        )
    }
}

/// The number of octaves a fractal sums.
pub open spec fn octave_count_spec(f: Fractal) -> nat {
    if f.octaves < MAX_OCTAVES {
        f.octaves as nat
    } else {
        MAX_OCTAVES as nat
    }
}

/// The value of a fractal at a world coordinate. The first octave has
/// amplitude `ONE / 2` and no octave more than half the amplitude of the
/// one before, so the sum stays within `[-ONE, ONE]`.
pub open spec fn fractal_spec(f: Fractal, x: int, y: int) -> int {
    octaves_spec(
        f.kind,
        f.seed,
        x,
        y,
        f.frequency as int,
        f.lacunarity as int,
        f.persistence as int,
        ONE as int / 2,
        octave_count_spec(f),
    )
}

/// An amplitude shrinks to half or less from one octave to the next.
pub proof fn lemma_next_amplitude(amplitude: int, persistence: int)
    requires
        0 <= amplitude,
    ensures
        0 <= next_amplitude_spec(amplitude, persistence),
        2 * next_amplitude_spec(amplitude, persistence) <= amplitude,
{
    let p = clamp_spec(persistence, 0, ONE as int / 2);
    assert(0 <= amplitude * p <= amplitude * 32768) by (nonlinear_arith)
        requires
            0 <= amplitude,
            0 <= p <= 32768,
    ;
}

/// A shaped value is in range; ridges peak and billows bottom out where the
/// noise is zero.
pub proof fn lemma_shape_range(kind: NoiseKind, v: int)
    ensures
        -ONE <= shape_spec(kind, v) <= ONE,
        shape_spec(NoiseKind::Ridged, 0) == ONE,
        shape_spec(NoiseKind::Billow, 0) == -ONE,
{
}

/// One octave is no larger than its amplitude.
pub proof fn lemma_octave_range(
    kind: NoiseKind,
    seed: u32,
    x: int,
    y: int,
    frequency: int,
    amplitude: int,
)
    requires
        0 <= amplitude,
    ensures
        -amplitude <= octave_spec(kind, seed, x, y, frequency, amplitude) <= amplitude,
{
    let n = value_noise_spec(seed, scaled_spec(x, frequency), scaled_spec(y, frequency));
    lemma_value_noise_range(seed, scaled_spec(x, frequency), scaled_spec(y, frequency));
    lemma_shape_range(kind, n);
    let v = shape_spec(kind, n);
    assert(-amplitude * 65536 <= v * amplitude <= amplitude * 65536) by (nonlinear_arith)
        requires
            -65536 <= v <= 65536,
            0 <= amplitude,
    ;
}

/// A sum of octaves is no larger than twice its first amplitude.
pub proof fn lemma_octaves_range(
    kind: NoiseKind,
    seed: u32,
    x: int,
    y: int,
    frequency: int,
    lacunarity: int,
    persistence: int,
    amplitude: int,
    left: nat,
)
    requires
        0 <= amplitude,
    ensures
        -2 * amplitude <= octaves_spec(
            kind,
            seed,
            x,
            y,
            frequency,
            lacunarity,
            persistence,
            amplitude,
            left,
        ) <= 2 * amplitude,
    decreases left,
{
    if left > 0 {
        lemma_octave_range(kind, seed, x, y, frequency, amplitude);
        lemma_next_amplitude(amplitude, persistence);
        lemma_octaves_range(
            kind,
            seed.wrapping_add(1u32),
            x,
            y,
            times_spec(frequency, lacunarity),
            lacunarity,
            persistence,
            next_amplitude_spec(amplitude, persistence),
            (left - 1) as nat,
        );
    }
}

/// A fractal stays within `[-ONE, ONE]`.
pub proof fn lemma_fractal_range(f: Fractal, x: int, y: int)
    ensures
        -ONE <= fractal_spec(f, x, y) <= ONE,
{
    lemma_octaves_range(
        f.kind,
        f.seed,
        x,
        y,
        f.frequency as int,
        f.lacunarity as int,
        f.persistence as int,
        ONE as int / 2,
        octave_count_spec(f),
    );
}

/// Shapes a noise value.
pub fn shape(kind: NoiseKind, v: i64) -> (r: i64)
    ensures
        r == shape_spec(kind, v as int),
        -ONE <= r <= ONE,
{
    let c: i64 = clamp(v, -ONE, ONE);
    let m: i64 = if c < 0 {
        -c
    } else {
        c
    };
    match kind {
        NoiseKind::Smooth => c,
        NoiseKind::Ridged => ONE - 2 * m,
        NoiseKind::Billow => 2 * m - ONE,
    }
}

/// Evaluates a fractal at a world coordinate.
pub fn fractal(f: &Fractal, x: i64, y: i64) -> (r: i64)
    ensures
        r == fractal_spec(*f, x as int, y as int),
        -ONE <= r <= ONE,
{
    let count: u32 = if f.octaves < MAX_OCTAVES {
        f.octaves
    } else {
        MAX_OCTAVES
    };
    let mut total: i64 = 0;
    let mut seed: u32 = f.seed;
    let mut frequency: i64 = f.frequency;
    let mut amplitude: i64 = ONE / 2;
    let persistence: i64 = clamp(f.persistence, 0, ONE / 2);
    let mut done: u32 = 0;
    while done < count
        invariant
            done <= count <= MAX_OCTAVES,
            count == octave_count_spec(*f),
            persistence == clamp_spec(f.persistence as int, 0, ONE as int / 2),
            0 <= amplitude <= ONE / 2,
            -(ONE - 2 * amplitude) <= total <= ONE - 2 * amplitude,
            total + octaves_spec(
                f.kind,
                seed,
                x as int,
                y as int,
                frequency as int,
                f.lacunarity as int,
                f.persistence as int,
                amplitude as int,
                (count - done) as nat,
            ) == fractal_spec(*f, x as int, y as int),
        decreases count - done,
    {
        proof {
            lemma_octave_range(f.kind, seed, x as int, y as int, frequency as int, amplitude as int);
            lemma_next_amplitude(amplitude as int, f.persistence as int);
            assert(0 <= amplitude * persistence <= 0x4000_0000) by (nonlinear_arith)
                requires
                    0 <= amplitude <= 32768,
                    0 <= persistence <= 32768,
            ;
        }
        let n: i64 = shape(f.kind, value_noise(seed, x, y, frequency));
        assert(-amplitude * 65536 <= n * amplitude <= amplitude * 65536) by (nonlinear_arith)
            requires
                -65536 <= n <= 65536,
                0 <= amplitude <= 32768,
        ;
        let term: i128 = floor_units((n * amplitude) as i128);
        total = total + term as i64;
        seed = seed.wrapping_add(1u32);
        frequency = times(frequency, f.lacunarity);
        amplitude = (amplitude * persistence) / ONE;
        done = done + 1;
    }
    total
}

} // verus!
