//! Deterministic terrain generation.
//!
//! From generation parameters (grid size, seed, elevation scale) the
//! generator produces a tile layout as a pure function of its inputs: the
//! same parameters always yield the same tiles, which is what makes
//! regeneration-on-change sound. Heights come from a coherent noise field:
//! the grid is sampled at coordinates normalized to the unit square, and the
//! sample is the exact bilinear blend of four seeded corner values, scaled
//! by the elevation parameter. Two layout policies are supported: a ring
//! around the grid centre with raised snow caps inside the inner radius, and
//! a full grid that stacks a snow-cap tile wherever the sample exceeds half
//! the elevation scale.
//!
//! All heights and scales are integers in thousandths, so every formula
//! below is exact.

use vstd::prelude::*;
use vstd::arithmetic::div_mod::{
    lemma_div_pos_is_pos,
    lemma_div_is_ordered, lemma_div_multiples_vanish, lemma_fundamental_div_mod_converse,
    lemma_mod_bound, lemma_multiply_divide_lt,
};
use vstd::arithmetic::mul::{lemma_mul_nonnegative, lemma_mul_upper_bound};

verus! {

/// One hex tile of the layout: its grid cell, its height, the texture
/// layers of its top ("hat") and sides ("butt"), and the vertical stretch
/// applied to the sides.
#[derive(Clone, Copy, Debug, PartialEq, Eq, Structural)]
pub struct Tile {
    /// Grid column, in [0, size).
    pub x: u32,
    /// Grid row, in [0, size).
    pub y: u32,
    /// Height offset of the tile, thousandths.
    pub elevation_milli: i64,
    /// Texture layer sampled by the top face.
    pub hat: u32,
    /// Texture layer sampled by the sides.
    pub butt: u32,
    /// Vertical scale factor of the sides, thousandths.
    pub butt_size_milli: i64,
}

/// Which of the two supported layouts the generator produces.
#[derive(Clone, Copy, Debug, PartialEq, Eq, Structural)]
pub enum TilePolicy {
    /// Tiles only inside the outer radius around the grid centre; raised
    /// snow caps inside the inner radius; nothing outside.
    Ring,
    /// A base tile in every cell, plus a snow-cap tile stacked on cells
    /// whose noise sample exceeds half the elevation scale.
    Layered,
}

/// One diffusion round of the corner hash: three shift-xor steps.
pub open spec fn spec_mix(h: u32) -> u32 {
    let a = h ^ (h << 13);
    let b = a ^ (a >> 17);
    b ^ (b << 5)
}

fn mix(h: u32) -> (r: u32)
    ensures
        r == spec_mix(h),
{
    let a = h ^ (h << 13u32);
    let b = a ^ (a >> 17u32);
    b ^ (b << 5u32)
}

/// Seeded sample at a corner of the noise cell, in [0, 2000] thousandths
/// (an offset encoding of [-1, 1]).
pub open spec fn spec_corner(seed: u32, cx: u32, cy: u32) -> u32 {
    spec_mix(spec_mix(spec_mix(seed) ^ cx) ^ cy) % 2001
}

fn corner(seed: u32, cx: u32, cy: u32) -> (r: u32)
    ensures
        r == spec_corner(seed, cx, cy),
        r <= 2000,
{
    mix(mix(mix(seed) ^ cx) ^ cy) % 2001
}

/// The coherent noise sample for grid cell (x, y) of an n-wide grid, in
/// [-1000, 1000] thousandths: the exact bilinear blend, at the normalized
/// point (x/n, y/n) of the unit cell, of the four seeded corner samples.
pub open spec fn spec_noise(seed: u32, x: u32, y: u32, n: u32) -> int
    recommends
        0 < n,
        x < n,
        y < n,
{
    let c00 = spec_corner(seed, 0, 0) as int;
    let c10 = spec_corner(seed, 1, 0) as int;
    let c01 = spec_corner(seed, 0, 1) as int;
    let c11 = spec_corner(seed, 1, 1) as int;
    let wx = x as int;
    let wy = y as int;
    let m = n as int;
    let blended = ((m - wx) * (m - wy) * c00 + wx * (m - wy) * c10 + (m - wx) * wy * c01
        + wx * wy * c11) / (m * m);
    blended - 1000
}

/// Evaluate the noise field at one grid cell.
pub fn noise_milli(seed: u32, x: u32, y: u32, n: u32) -> (r: i32)
    requires
        0 < n,
        x < n,
        y < n,
    ensures
        r as int == spec_noise(seed, x, y, n),
        -1000 <= r <= 1000,
{
    let c00 = corner(seed, 0, 0) as u128;
    let c10 = corner(seed, 1, 0) as u128;
    let c01 = corner(seed, 0, 1) as u128;
    let c11 = corner(seed, 1, 1) as u128;
    let wx = x as u128;
    let wy = y as u128;
    let m = n as u128;
    proof {
        let mi = m as int;
        let wxi = wx as int;
        let wyi = wy as int;
        lemma_mul_upper_bound(mi - wxi, 0x1_0000_0000, mi - wyi, 0x1_0000_0000);
        lemma_mul_upper_bound(wxi, 0x1_0000_0000, mi - wyi, 0x1_0000_0000);
        lemma_mul_upper_bound(mi - wxi, 0x1_0000_0000, wyi, 0x1_0000_0000);
        lemma_mul_upper_bound(wxi, 0x1_0000_0000, wyi, 0x1_0000_0000);
        lemma_mul_upper_bound((mi - wxi) * (mi - wyi), 0x1_0000_0000_0000_0000, c00 as int, 2000);
        lemma_mul_upper_bound(wxi * (mi - wyi), 0x1_0000_0000_0000_0000, c10 as int, 2000);
        lemma_mul_upper_bound((mi - wxi) * wyi, 0x1_0000_0000_0000_0000, c01 as int, 2000);
        lemma_mul_upper_bound(wxi * wyi, 0x1_0000_0000_0000_0000, c11 as int, 2000);
        lemma_mul_upper_bound(mi, 0x1_0000_0000, mi, 0x1_0000_0000);
    }
    let num = (m - wx) * (m - wy) * c00 + wx * (m - wy) * c10 + (m - wx) * wy * c01
        + wx * wy * c11;
    let den = m * m;
    proof {
        let mi = m as int;
        let wxi = wx as int;
        let wyi = wy as int;
        let ni = num as int;
        assert(mi * mi >= 1) by (nonlinear_arith)
            requires
                mi >= 1,
        ;
        // The four bilinear weights partition the cell area, so a blend of
        // corner values at most 2000 is at most 2000 times the area.
        assert(ni <= 2000 * (mi * mi)) by (nonlinear_arith)
            requires
                ni == (mi - wxi) * (mi - wyi) * (c00 as int) + wxi * (mi - wyi) * (c10 as int) + (
                mi - wxi) * wyi * (c01 as int) + wxi * wyi * (c11 as int),
                0 <= wxi < mi,
                0 <= wyi < mi,
                c00 as int <= 2000,
                c10 as int <= 2000,
                c01 as int <= 2000,
                c11 as int <= 2000,
        ;
    }
    let q = num / den;
    proof {
        let mi = m as int;
        lemma_div_is_ordered(num as int, 2000 * (mi * mi), mi * mi);
        lemma_div_multiples_vanish(2000, mi * mi);
        assert(q <= 2000);
    }
    (q as i32) - 1000
}

/// The noise sample scaled by the elevation parameter: the tile height the
/// sample stands for, in thousandths, rounded toward zero.
pub open spec fn spec_sample(seed: u32, x: u32, y: u32, n: u32, elevation_milli: u32) -> int
    recommends
        0 < n,
        x < n,
        y < n,
{
    let nm = spec_noise(seed, x, y, n);
    if nm >= 0 {
        (nm * elevation_milli) / 1000
    } else {
        -(((-nm) * elevation_milli) / 1000)
    }
}

/// Evaluate the scaled noise sample at one grid cell.
pub fn sample_milli(seed: u32, x: u32, y: u32, n: u32, elevation_milli: u32) -> (r: i64)
    requires
        0 < n,
        x < n,
        y < n,
    ensures
        r as int == spec_sample(seed, x, y, n, elevation_milli),
        -(elevation_milli as i64) <= r <= elevation_milli as i64,
{
    let nm = noise_milli(seed, x, y, n);
    let e = elevation_milli as i64;
    let mag: i64 = if nm >= 0 {
        nm as i64
    } else {
        (-nm) as i64
    };
    proof {
        lemma_mul_nonnegative(mag as int, e as int);
        lemma_mul_upper_bound(mag as int, 1000, e as int, e as int);
        lemma_div_pos_is_pos(mag as int * e as int, 1000);
        lemma_div_is_ordered(mag as int * e as int, 1000 * e as int, 1000);
        lemma_div_multiples_vanish(e as int, 1000);
    }
    let scaled = mag * e / 1000;
    if nm >= 0 {
        scaled
    } else {
        -scaled
    }
}

/// The tiles one grid cell contributes to the layout: none, one, or a base
/// tile with a snow cap stacked on it, depending on the policy.
///
/// Under `Ring`, cells strictly inside the outer radius (half the grid
/// width, around the grid centre) carry a base tile at the sampled height
/// with texture layers 0/1; cells strictly inside the inner radius (a
/// quarter of the grid width) instead carry a raised cap 0.9 above the
/// sample, with texture layers 2/3 and sides stretched to 1.7; cells outside
/// carry nothing. The radius tests compare squared distances scaled by four,
/// so they are exact.
///
/// Under `Layered`, every cell carries a base tile at height zero with
/// texture layers 2/3 and sides stretched by the sample plus 0.3; when the
/// sample exceeds half the elevation scale a cap tile with layers 0/1 is
/// stacked on it, its sides scaled by 0.4 times the square of the sample
/// over 1.5.
pub open spec fn spec_cell_tiles(
    size: u32,
    seed: u32,
    elevation_milli: u32,
    policy: TilePolicy,
    x: u32,
    y: u32,
) -> Seq<Tile>
    recommends
        0 < size,
        x < size,
        y < size,
{
    let s = spec_sample(seed, x, y, size, elevation_milli);
    match policy {
        TilePolicy::Ring => {
            let dx = 2 * (x as int) - (size as int);
            let dy = 2 * (y as int) - (size as int);
            let d2 = dx * dx + dy * dy;
            let sq = (size as int) * (size as int);
            if 4 * d2 < sq {
                seq![
                    Tile {
                        x,
                        y,
                        elevation_milli: (s + 900) as i64,
                        hat: 2,
                        butt: 3,
                        butt_size_milli: 1700,
                    },
                ]
            } else if d2 < sq {
                seq![
                    Tile {
                        x,
                        y,
                        elevation_milli: s as i64,
                        hat: 0,
                        butt: 1,
                        butt_size_milli: 1000,
                    },
                ]
            } else {
                Seq::empty()
            }
        },
        TilePolicy::Layered => {
            let base = Tile {
                x,
                y,
                elevation_milli: 0,
                hat: 2,
                butt: 3,
                butt_size_milli: (s + 300) as i64,
            };
            if 2 * s > elevation_milli {
                seq![
                    base,
                    Tile {
                        x,
                        y,
                        elevation_milli: 0,
                        hat: 0,
                        butt: 1,
                        butt_size_milli: ((s * s * 4) / 15000) as i64,
                    },
                ]
            } else {
                seq![base]
            }
        },
    }
}

/// Produce the tiles of one grid cell.
pub fn cell_tiles(
    size: u32,
    seed: u32,
    elevation_milli: u32,
    policy: TilePolicy,
    x: u32,
    y: u32,
) -> (r: Vec<Tile>)
    requires
        0 < size,
        x < size,
        y < size,
    ensures
        r@ == spec_cell_tiles(size, seed, elevation_milli, policy, x, y),
{
    let s = sample_milli(seed, x, y, size, elevation_milli);
    let mut out: Vec<Tile> = Vec::new();
    match policy {
        TilePolicy::Ring => {
            let dx = 2 * (x as i64) - (size as i64);
            let dy = 2 * (y as i64) - (size as i64);
            proof {
                assert((dx as int) * (dx as int) <= 0x40_0000_0000_0000_0000
                    && (dx as int) * (dx as int) >= 0) by (nonlinear_arith)
                    requires
                        -0x2_0000_0000 <= dx as int <= 0x2_0000_0000,
                ;
                assert((dy as int) * (dy as int) <= 0x40_0000_0000_0000_0000
                    && (dy as int) * (dy as int) >= 0) by (nonlinear_arith)
                    requires
                        -0x2_0000_0000 <= dy as int <= 0x2_0000_0000,
                ;
                lemma_mul_nonnegative(size as int, size as int);
                lemma_mul_upper_bound(size as int, 0x1_0000_0000, size as int, 0x1_0000_0000);
            }
            let d2 = (dx as i128) * (dx as i128) + (dy as i128) * (dy as i128);
            let sq = (size as i128) * (size as i128);
            if 4 * d2 < sq {
                out.push(
                    Tile {
                        x,
                        y,
                        elevation_milli: s + 900,
                        hat: 2,
                        butt: 3,
                        butt_size_milli: 1700,
                    },
                );
            } else if d2 < sq {
                out.push(
                    Tile {
                        x,
                        y,
                        elevation_milli: s,
                        hat: 0,
                        butt: 1,
                        butt_size_milli: 1000,
                    },
                );
            }
        },
        TilePolicy::Layered => {
            out.push(
                Tile {
                    x,
                    y,
                    elevation_milli: 0,
                    hat: 2,
                    butt: 3,
                    butt_size_milli: s + 300,
                },
            );
            if 2 * s > elevation_milli as i64 {
                proof {
                    assert((s as int) * (s as int) <= 0x1_0000_0000_0000_0000
                        && (s as int) * (s as int) >= 0) by (nonlinear_arith)
                        requires
                            -0x1_0000_0000 <= s as int <= 0x1_0000_0000,
                    ;
                    lemma_div_pos_is_pos((s as int) * (s as int) * 4, 15000);
                    lemma_div_is_ordered(
                        (s as int) * (s as int) * 4,
                        0x4_0000_0000_0000_0000,
                        15000,
                    );
                }
                let cap = (s as i128) * (s as i128) * 4 / 15000;
                out.push(
                    Tile {
                        x,
                        y,
                        elevation_milli: 0,
                        hat: 0,
                        butt: 1,
                        butt_size_milli: cap as i64,
                    },
                );
            }
        },
    }
    proof {
        assert(out@ =~= spec_cell_tiles(size, seed, elevation_milli, policy, x, y));
    }
    out
}

/// The tiles contributed by the first `k` grid cells, in column-major order:
/// cell `k` covers column `k / size`, row `k % size`.
pub open spec fn spec_tiles_prefix(
    size: u32,
    seed: u32,
    elevation_milli: u32,
    policy: TilePolicy,
    k: nat,
) -> Seq<Tile>
    decreases k,
{
    if k == 0 || size == 0 {
        Seq::empty()
    } else {
        let j = (k - 1) as nat;
        spec_tiles_prefix(size, seed, elevation_milli, policy, j) + spec_cell_tiles(
            size,
            seed,
            elevation_milli,
            policy,
            (j / (size as nat)) as u32,
            (j % (size as nat)) as u32,
        )
    }
}

/// The whole layout for the given parameters: what one regeneration yields.
pub open spec fn spec_tiles(
    size: u32,
    seed: u32,
    elevation_milli: u32,
    policy: TilePolicy,
) -> Seq<Tile> {
    spec_tiles_prefix(size, seed, elevation_milli, policy, (size as nat) * (size as nat))
}

/// Regenerate the layout in full. The result is exactly `spec_tiles` of the
/// parameters — a pure function of (size, seed, elevation scale, policy), so
/// repeated runs on unchanged parameters give identical tile sets.
pub fn generate_tiles(size: u32, seed: u32, elevation_milli: u32, policy: TilePolicy) -> (r: Vec<
    Tile,
>)
    ensures
        r@ == spec_tiles(size, seed, elevation_milli, policy),
{
    let mut out: Vec<Tile> = Vec::new();
    if size == 0 {
        return out;
    }
    let mut x: u32 = 0;
    while x < size
        invariant
            0 < size,
            x <= size,
            out@ == spec_tiles_prefix(
                size,
                seed,
                elevation_milli,
                policy,
                (x as nat) * (size as nat),
            ),
        decreases size - x,
    {
        let mut y: u32 = 0;
        while y < size
            invariant
                0 < size,
                x < size,
                y <= size,
                out@ == spec_tiles_prefix(
                    size,
                    seed,
                    elevation_milli,
                    policy,
                    (x as nat) * (size as nat) + (y as nat),
                ),
            decreases size - y,
        {
            let mut cell = cell_tiles(size, seed, elevation_milli, policy, x, y);
            let ghost k: nat = (x as nat) * (size as nat) + (y as nat);
            out.append(&mut cell);
            proof {
                lemma_fundamental_div_mod_converse(k as int, size as int, x as int, y as int);
                assert(out@ =~= spec_tiles_prefix(size, seed, elevation_milli, policy, k + 1));
            }
            y = y + 1;
        }
        proof {
            assert((x as nat) * (size as nat) + (size as nat) == ((x as nat) + 1) * (
            size as nat)) by (nonlinear_arith);
        }
        x = x + 1;
    }
    out
}

/// Determinism: the layout is a function of the generation parameters alone,
/// so any two generated tile sets for the same parameters are identical.
pub proof fn lemma_terrain_deterministic(
    a: Seq<Tile>,
    b: Seq<Tile>,
    size: u32,
    seed: u32,
    elevation_milli: u32,
    policy: TilePolicy,
)
    requires
        a == spec_tiles(size, seed, elevation_milli, policy),
        b == spec_tiles(size, seed, elevation_milli, policy),
    ensures
        a == b,
{
}

proof fn lemma_layered_prefix_covers(
    size: u32,
    seed: u32,
    elevation_milli: u32,
    k: nat,
)
    requires
        0 < size,
    ensures
        spec_tiles_prefix(size, seed, elevation_milli, TilePolicy::Layered, k).len() >= k,
    decreases k,
{
    if k == 0 {
    } else {
        lemma_layered_prefix_covers(size, seed, elevation_milli, (k - 1) as nat);
    }
}

/// The layered policy covers the grid: every cell carries at least a base
/// tile, so a grid of any non-zero size yields at least one tile per cell,
/// whatever the seed and elevation scale.
pub proof fn lemma_layered_covers_grid(size: u32, seed: u32, elevation_milli: u32)
    requires
        0 < size,
    ensures
        spec_tiles(size, seed, elevation_milli, TilePolicy::Layered).len() >= (size as nat) * (
        size as nat),
        spec_tiles(size, seed, elevation_milli, TilePolicy::Layered).len() > 0,
{
    lemma_layered_prefix_covers(size, seed, elevation_milli, (size as nat) * (size as nat));
    assert((size as nat) * (size as nat) >= 1) by (nonlinear_arith)
        requires
            size as nat >= 1,
    ;
}

proof fn lemma_tiles_prefix_in_grid(
    size: u32,
    seed: u32,
    elevation_milli: u32,
    policy: TilePolicy,
    k: nat,
)
    requires
        k <= (size as nat) * (size as nat),
    ensures
        forall|i: int|
            0 <= i < spec_tiles_prefix(size, seed, elevation_milli, policy, k).len()
                ==> (#[trigger] spec_tiles_prefix(size, seed, elevation_milli, policy, k)[i]).x
                < size && spec_tiles_prefix(size, seed, elevation_milli, policy, k)[i].y < size,
    decreases k,
{
    if k == 0 || size == 0 {
    } else {
        let j = (k - 1) as nat;
        lemma_tiles_prefix_in_grid(size, seed, elevation_milli, policy, j);
        lemma_multiply_divide_lt(j as int, size as int, size as int);
        lemma_mod_bound(j as int, size as int);
        let cx = (j / (size as nat)) as u32;
        let cy = (j % (size as nat)) as u32;
        assert(cx < size);
        assert(cy < size);
        let cell = spec_cell_tiles(size, seed, elevation_milli, policy, cx, cy);
        assert(forall|i: int| 0 <= i < cell.len() ==> (#[trigger] cell[i]).x == cx
            && cell[i].y == cy);
        assert(spec_tiles_prefix(size, seed, elevation_milli, policy, k) == spec_tiles_prefix(
            size,
            seed,
            elevation_milli,
            policy,
            j,
        ) + cell);
    }
}

/// Every tile of the layout has its grid coordinate inside [0, size) on both
/// axes, whatever the seed, elevation scale and policy.
pub proof fn lemma_tiles_in_grid(size: u32, seed: u32, elevation_milli: u32, policy: TilePolicy)
    ensures
        forall|i: int|
            0 <= i < spec_tiles(size, seed, elevation_milli, policy).len() ==> (
            #[trigger] spec_tiles(size, seed, elevation_milli, policy)[i]).x < size && spec_tiles(
                size,
                seed,
                elevation_milli,
                policy,
            )[i].y < size,
{
    lemma_tiles_prefix_in_grid(
        size,
        seed,
        elevation_milli,
        policy,
        (size as nat) * (size as nat),
    );
}

} // verus!
