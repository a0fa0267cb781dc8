//! Deterministic, seeded, integer-valued coherent noise.
//!
//! Every sample is a pure function of the seed and the coordinates, so
//! terrain built on it is reproducible bit for bit on any machine. Values
//! are fixed-point: a sample lies in `[0, 65535]`, standing for the unit
//! interval in steps of 1/65536.

use vstd::prelude::*;

use vstd::arithmetic::div_mod::{
    lemma_div_is_ordered, lemma_div_multiples_vanish, lemma_fundamental_div_mod,
    lemma_fundamental_div_mod_converse,
};
use vstd::arithmetic::mul::lemma_mul_upper_bound;

verus! {

/// One full avalanche round over 64 bits.
#[verifier::opaque]
pub open spec fn spec_mix64(v: u64) -> u64 {
    let a = v ^ (v >> 33);
    let b = (((a as int) * 0xff51afd7ed558ccd) % 0x10000000000000000) as u64;
    let c = b ^ (b >> 33);
    let d = (((c as int) * 0xc4ceb9fe1a85ec53) % 0x10000000000000000) as u64;
    d ^ (d >> 33)
}

fn mix64(v: u64) -> (r: u64)
    ensures
        r == spec_mix64(v),
{
    proof {
        reveal(spec_mix64);
    }
    let a = v ^ (v >> 33);
    let b = (((a as u128) * 0xff51afd7ed558ccdu128) % 0x10000000000000000u128) as u64;
    let c = b ^ (b >> 33);
    let d = (((c as u128) * 0xc4ceb9fe1a85ec53u128) % 0x10000000000000000u128) as u64;
    d ^ (d >> 33)
}

/// A signed lattice coordinate shifted into unsigned range, so it can feed
/// the mixer.
pub open spec fn spec_enc(i: int) -> u64 {
    (i + 0x8000000000000000) as u64
}

fn enc(i: i64) -> (r: u64)
    ensures
        r == spec_enc(i as int),
{
    ((i as i128) + 0x8000000000000000i128) as u64
}

/// Pseudo-random lattice value in `[0, 65535]` at a 2D lattice point.
#[verifier::opaque]
pub open spec fn spec_corner2(seed: u32, tag: u64, xi: int, zi: int) -> int {
    (spec_mix64(
        spec_mix64(spec_mix64((seed as u64) ^ (tag << 32u64)) ^ spec_enc(xi)) ^ spec_enc(zi),
    ) % 65536) as int
}

fn corner2(seed: u32, tag: u64, xi: i64, zi: i64) -> (r: u64)
    requires
        tag < 4294967296,
    ensures
        r == spec_corner2(seed, tag, xi as int, zi as int),
        r <= 65535,
{
    proof {
        reveal(spec_corner2);
    }
    mix64(mix64(mix64((seed as u64) ^ (tag << 32u64)) ^ enc(xi)) ^ enc(zi)) % 65536
}

/// Pseudo-random lattice value in `[0, 65535]` at a 3D lattice point.
#[verifier::opaque]
pub open spec fn spec_corner3(seed: u32, tag: u64, xi: int, yi: int, zi: int) -> int {
    (spec_mix64(
        spec_mix64(
            spec_mix64(spec_mix64((seed as u64) ^ (tag << 32u64)) ^ spec_enc(xi)) ^ spec_enc(yi),
        ) ^ spec_enc(zi),
    ) % 65536) as int
}

fn corner3(seed: u32, tag: u64, xi: i64, yi: i64, zi: i64) -> (r: u64)
    requires
        tag < 4294967296,
    ensures
        r == spec_corner3(seed, tag, xi as int, yi as int, zi as int),
        r <= 65535,
{
    proof {
        reveal(spec_corner3);
    }
    mix64(mix64(mix64(mix64((seed as u64) ^ (tag << 32u64)) ^ enc(xi)) ^ enc(yi)) ^ enc(zi)) % 65536
}

/// Floor division with Euclidean (always non-negative) remainder.
fn floor_div_rem(a: i64, d: i64) -> (qr: (i64, i64))
    requires
        1 <= d <= 1024,
        -0x100000000000000 <= a <= 0x100000000000000,
    ensures
        qr.0 == a as int / d as int,
        qr.1 == a as int % d as int,
        0 <= qr.1 < d,
        -0x200000000000000 <= qr.0 <= 0x200000000000000,
{
    let du = d as u64;
    if a >= 0 {
        let au = a as u64;
        let q = (au / du) as i64;
        let r = (au % du) as i64;
        proof {
            lemma_fundamental_div_mod(au as int, du as int);
            assert(a as int == (q as int) * (d as int) + (r as int)) by (nonlinear_arith)
                requires
                    au as int == (du as int) * (au as int / du as int) + (au as int % du as int),
                    a as int == au as int,
                    d as int == du as int,
                    q as int == au as int / du as int,
                    r as int == au as int % du as int,
            {
            }
            lemma_fundamental_div_mod_converse(a as int, d as int, q as int, r as int);
        }
        (q, r)
    } else {
        let p = (-a) as u64;
        let qp = (p / du) as i64;
        let rp = (p % du) as i64;
        let (q, r): (i64, i64) = if rp == 0 {
            (-qp, 0)
        } else {
            (-qp - 1, d - rp)
        };
        proof {
            lemma_fundamental_div_mod(p as int, du as int);
            assert(a as int == (q as int) * (d as int) + (r as int)) by (nonlinear_arith)
                requires
                    p as int == (du as int) * (p as int / du as int) + (p as int % du as int),
                    a as int == -(p as int),
                    d as int == du as int,
                    qp as int == p as int / du as int,
                    rp as int == p as int % du as int,
                    (rp == 0 && q as int == -(qp as int) && r == 0) || (rp != 0 && q as int == -(
                    qp as int) - 1 && r as int == d as int - rp as int),
            {
            }
            lemma_fundamental_div_mod_converse(a as int, d as int, q as int, r as int);
        }
        (q, r)
    }
}

/// Bilinearly interpolated 2D value noise with lattice spacing `cell`.
#[verifier::opaque]
pub open spec fn spec_value_noise2(seed: u32, tag: u64, wx: int, wz: int, cell: int) -> int {
    let xi = wx / cell;
    let fx = wx % cell;
    let zi = wz / cell;
    let fz = wz % cell;
    let h00 = spec_corner2(seed, tag, xi, zi);
    let h10 = spec_corner2(seed, tag, xi + 1, zi);
    let h01 = spec_corner2(seed, tag, xi, zi + 1);
    let h11 = spec_corner2(seed, tag, xi + 1, zi + 1);
    let v0 = h00 * (cell - fx) + h10 * fx;
    let v1 = h01 * (cell - fx) + h11 * fx;
    (v0 * (cell - fz) + v1 * fz) / (cell * cell)
}

#[verifier::rlimit(50)]
fn value_noise2(seed: u32, tag: u64, wx: i64, wz: i64, cell: u64) -> (r: u64)
    requires
        tag < 4294967296,
        1 <= cell <= 1024,
        -0x100000000000000 <= wx <= 0x100000000000000,
        -0x100000000000000 <= wz <= 0x100000000000000,
    ensures
        r == spec_value_noise2(seed, tag, wx as int, wz as int, cell as int),
        r <= 65535,
{
    proof {
        reveal(spec_value_noise2);
    }
    let c = cell as i64;
    let (xi, fx) = floor_div_rem(wx, c);
    let (zi, fz) = floor_div_rem(wz, c);
    let h00 = corner2(seed, tag, xi, zi);
    let h10 = corner2(seed, tag, xi + 1, zi);
    let h01 = corner2(seed, tag, xi, zi + 1);
    let h11 = corner2(seed, tag, xi + 1, zi + 1);
    let fxu = fx as u64;
    let fzu = fz as u64;
    let gx = cell - fxu;
    let gz = cell - fzu;
    proof {
        lemma_mul_upper_bound(h00 as int, 65535, gx as int, 1024);
        lemma_mul_upper_bound(h10 as int, 65535, fxu as int, 1024);
        lemma_mul_upper_bound(h01 as int, 65535, gx as int, 1024);
        lemma_mul_upper_bound(h11 as int, 65535, fxu as int, 1024);
    }
    let v0 = h00 * gx + h10 * fxu;
    let v1 = h01 * gx + h11 * fxu;
    proof {
        lemma_mul_upper_bound(v0 as int, 134215680, gz as int, 1024);
        lemma_mul_upper_bound(v1 as int, 134215680, fzu as int, 1024);
    }
    let num = v0 * gz + v1 * fzu;
    proof {
        assert(1 <= (cell as int) * (cell as int) <= 1048576) by (nonlinear_arith)
            requires
                1 <= cell <= 1024,
        {
        }
    }
    let den = cell * cell;
    let r = num / den;
    proof {
        assert(v0 <= 65535 * cell && v1 <= 65535 * cell) by (nonlinear_arith)
            requires
                h00 <= 65535 && h10 <= 65535 && h01 <= 65535 && h11 <= 65535,
                0 <= fxu,
                gx == cell - fxu,
                0 <= gx,
                1 <= cell,
                v0 == h00 * gx + h10 * fxu,
                v1 == h01 * gx + h11 * fxu,
        {
        }
        assert(num <= 65535 * den) by (nonlinear_arith)
            requires
                v0 <= 65535 * cell && v1 <= 65535 * cell,
                0 <= v0 && 0 <= v1,
                0 <= fzu,
                gz == cell - fzu,
                0 <= gz,
                1 <= cell,
                num == v0 * gz + v1 * fzu,
                den == cell * cell,
        {
        }
        lemma_div_is_ordered(num as int, 65535 * den, den as int);
        lemma_div_multiples_vanish(65535, den as int);
    }
    r
}

/// Trilinearly interpolated 3D value noise with lattice spacing `cell`.
#[verifier::opaque]
pub open spec fn spec_value_noise3(
    seed: u32,
    tag: u64,
    wx: int,
    wy: int,
    wz: int,
    cell: int,
) -> int {
    let xi = wx / cell;
    let fx = wx % cell;
    let yi = wy / cell;
    let fy = wy % cell;
    let zi = wz / cell;
    let fz = wz % cell;
    let a0 = spec_corner3(seed, tag, xi, yi, zi) * (cell - fx) + spec_corner3(
        seed,
        tag,
        xi + 1,
        yi,
        zi,
    ) * fx;
    let a1 = spec_corner3(seed, tag, xi, yi + 1, zi) * (cell - fx) + spec_corner3(
        seed,
        tag,
        xi + 1,
        yi + 1,
        zi,
    ) * fx;
    let a2 = spec_corner3(seed, tag, xi, yi, zi + 1) * (cell - fx) + spec_corner3(
        seed,
        tag,
        xi + 1,
        yi,
        zi + 1,
    ) * fx;
    let a3 = spec_corner3(seed, tag, xi, yi + 1, zi + 1) * (cell - fx) + spec_corner3(
        seed,
        tag,
        xi + 1,
        yi + 1,
        zi + 1,
    ) * fx;
    let b0 = a0 * (cell - fy) + a1 * fy;
    let b1 = a2 * (cell - fy) + a3 * fy;
    (b0 * (cell - fz) + b1 * fz) / (cell * cell * cell)
}

/// One sample of 3D value noise, for per-voxel decisions such as ore bands.
#[verifier::rlimit(100)]
pub fn noise3(seed: u32, tag: u64, wx: i64, wy: i64, wz: i64, cell: u64) -> (r: u64)
    requires
        tag < 4294967296,
        1 <= cell <= 1024,
        -0x100000000000000 <= wx <= 0x100000000000000,
        -0x100000000000000 <= wy <= 0x100000000000000,
        -0x100000000000000 <= wz <= 0x100000000000000,
    ensures
        r == spec_value_noise3(seed, tag, wx as int, wy as int, wz as int, cell as int),
        r <= 65535,
{
    proof {
        reveal(spec_value_noise3);
    }
    let c = cell as i64;
    let (xi, fx) = floor_div_rem(wx, c);
    let (yi, fy) = floor_div_rem(wy, c);
    let (zi, fz) = floor_div_rem(wz, c);
    let h000 = corner3(seed, tag, xi, yi, zi);
    let h100 = corner3(seed, tag, xi + 1, yi, zi);
    let h010 = corner3(seed, tag, xi, yi + 1, zi);
    let h110 = corner3(seed, tag, xi + 1, yi + 1, zi);
    let h001 = corner3(seed, tag, xi, yi, zi + 1);
    let h101 = corner3(seed, tag, xi + 1, yi, zi + 1);
    let h011 = corner3(seed, tag, xi, yi + 1, zi + 1);
    let h111 = corner3(seed, tag, xi + 1, yi + 1, zi + 1);
    let fxu = fx as u64;
    let fyu = fy as u64;
    let fzu = fz as u64;
    let gx = cell - fxu;
    let gy = cell - fyu;
    let gz = cell - fzu;
    proof {
        lemma_mul_upper_bound(h000 as int, 65535, gx as int, 1024);
        lemma_mul_upper_bound(h100 as int, 65535, fxu as int, 1024);
        lemma_mul_upper_bound(h010 as int, 65535, gx as int, 1024);
        lemma_mul_upper_bound(h110 as int, 65535, fxu as int, 1024);
        lemma_mul_upper_bound(h001 as int, 65535, gx as int, 1024);
        lemma_mul_upper_bound(h101 as int, 65535, fxu as int, 1024);
        lemma_mul_upper_bound(h011 as int, 65535, gx as int, 1024);
        lemma_mul_upper_bound(h111 as int, 65535, fxu as int, 1024);
    }
    let a0 = h000 * gx + h100 * fxu;
    let a1 = h010 * gx + h110 * fxu;
    let a2 = h001 * gx + h101 * fxu;
    let a3 = h011 * gx + h111 * fxu;
    proof {
        lemma_mul_upper_bound(a0 as int, 134215680, gy as int, 1024);
        lemma_mul_upper_bound(a1 as int, 134215680, fyu as int, 1024);
        lemma_mul_upper_bound(a2 as int, 134215680, gy as int, 1024);
        lemma_mul_upper_bound(a3 as int, 134215680, fyu as int, 1024);
    }
    let b0 = a0 * gy + a1 * fyu;
    let b1 = a2 * gy + a3 * fyu;
    proof {
        lemma_mul_upper_bound(b0 as int, 274873712640, gz as int, 1024);
        lemma_mul_upper_bound(b1 as int, 274873712640, fzu as int, 1024);
    }
    let num = b0 * gz + b1 * fzu;
    proof {
        assert(1 <= (cell as int) * (cell as int) * (cell as int) <= 1073741824
            && (cell as int) * (cell as int) <= 1048576) by (nonlinear_arith)
            requires
                1 <= cell <= 1024,
        {
        }
    }
    let den = cell * cell * cell;
    let r = num / den;
    proof {
        assert(a0 <= 65535 * cell && a1 <= 65535 * cell && a2 <= 65535 * cell && a3 <= 65535
            * cell) by (nonlinear_arith)
            requires
                h000 <= 65535 && h100 <= 65535 && h010 <= 65535 && h110 <= 65535,
                h001 <= 65535 && h101 <= 65535 && h011 <= 65535 && h111 <= 65535,
                0 <= fxu,
                gx == cell - fxu,
                0 <= gx,
                1 <= cell,
                a0 == h000 * gx + h100 * fxu,
                a1 == h010 * gx + h110 * fxu,
                a2 == h001 * gx + h101 * fxu,
                a3 == h011 * gx + h111 * fxu,
        {
        }
        assert(b0 <= 65535 * (cell * cell) && b1 <= 65535 * (cell * cell)) by (nonlinear_arith)
            requires
                a0 <= 65535 * cell && a1 <= 65535 * cell && a2 <= 65535 * cell && a3 <= 65535
                    * cell,
                0 <= a0 && 0 <= a1 && 0 <= a2 && 0 <= a3,
                0 <= fyu,
                gy == cell - fyu,
                0 <= gy,
                1 <= cell,
                b0 == a0 * gy + a1 * fyu,
                b1 == a2 * gy + a3 * fyu,
        {
        }
        assert(num <= 65535 * den && den == cell * cell * cell) by (nonlinear_arith)
            requires
                b0 <= 65535 * (cell * cell) && b1 <= 65535 * (cell * cell),
                0 <= b0 && 0 <= b1,
                0 <= fzu,
                gz == cell - fzu,
                0 <= gz,
                1 <= cell <= 1024,
                num == b0 * gz + b1 * fzu,
                den == cell * cell * cell,
        {
        }
        lemma_div_is_ordered(num as int, 65535 * den, den as int);
        lemma_div_multiples_vanish(65535, den as int);
    }
    r
}

/// Next octave: lattice spacing halves, never below one voxel.
pub open spec fn spec_next_cell(cell: int) -> int {
    if cell >= 2 {
        cell / 2
    } else {
        1
    }
}

/// Amplitude-weighted sum of `k` octaves of 2D value noise, starting at
/// spacing `cell` with amplitude `amp`; each octave's amplitude decays by the
/// factor `pnum / pden`.
pub open spec fn spec_octave_sum(
    seed: u32,
    tag: u64,
    wx: int,
    wz: int,
    cell: int,
    amp: int,
    pnum: int,
    pden: int,
    k: nat,
) -> int
    decreases k,
{
    if k == 0 {
        0
    } else {
        amp * spec_value_noise2(seed, tag, wx, wz, cell) + spec_octave_sum(
            seed,
            (tag + 1) as u64,
            wx,
            wz,
            spec_next_cell(cell),
            amp * pnum / pden,
            pnum,
            pden,
            (k - 1) as nat,
        )
    }
}

/// Sum of the amplitudes the octave sum weighs with.
pub open spec fn spec_amp_sum(amp: int, pnum: int, pden: int, k: nat) -> int
    decreases k,
{
    if k == 0 {
        0
    } else {
        amp + spec_amp_sum(amp * pnum / pden, pnum, pden, (k - 1) as nat)
    }
}

/// `base^exp`.
pub open spec fn spec_pow(base: int, exp: nat) -> int
    decreases exp,
{
    if exp == 0 {
        1
    } else {
        base * spec_pow(base, (exp - 1) as nat)
    }
}

/// Multi-octave fractal noise normalized back into `[0, 65535]`: the
/// amplitude-weighted octave sum divided by the total amplitude. The first
/// octave's amplitude is `pden^(k-1)`, so every octave's weight is integral.
pub open spec fn spec_octave_noise(
    seed: u32,
    tag: u64,
    wx: int,
    wz: int,
    cell: int,
    pnum: int,
    pden: int,
    k: nat,
) -> int {
    let amp0 = spec_pow(pden, (k - 1) as nat);
    spec_octave_sum(seed, tag, wx, wz, cell, amp0, pnum, pden, k) / spec_amp_sum(
        amp0,
        pnum,
        pden,
        k,
    )
}

proof fn lemma_pow10_values()
    ensures
        spec_pow(10, 6) == 1000000,
        spec_pow(10, 7) == 10000000,
{
    assert(spec_pow(10, 0) == 1);
    assert(spec_pow(10, 1) == 10);
    assert(spec_pow(10, 2) == 100);
    assert(spec_pow(10, 3) == 1000);
    assert(spec_pow(10, 4) == 10000);
    assert(spec_pow(10, 5) == 100000);
    assert(spec_pow(10, 6) == 1000000);
    assert(spec_pow(10, 7) == 10000000);
}

proof fn lemma_pow_le(a: int, b: int, e: nat)
    requires
        0 <= a <= b,
    ensures
        0 <= spec_pow(a, e) <= spec_pow(b, e),
    decreases e,
{
    if e > 0 {
        lemma_pow_le(a, b, (e - 1) as nat);
        assert(0 <= a * spec_pow(a, (e - 1) as nat) && a * spec_pow(a, (e - 1) as nat) <= b
            * spec_pow(b, (e - 1) as nat)) by (nonlinear_arith)
            requires
                0 <= a <= b,
                0 <= spec_pow(a, (e - 1) as nat) <= spec_pow(b, (e - 1) as nat),
        {
        }
    }
}

proof fn lemma_pow_pos(b: int, e: nat)
    requires
        1 <= b,
    ensures
        0 < spec_pow(b, e),
    decreases e,
{
    if e > 0 {
        lemma_pow_pos(b, (e - 1) as nat);
        assert(0 < b * spec_pow(b, (e - 1) as nat)) by (nonlinear_arith)
            requires
                1 <= b,
                0 < spec_pow(b, (e - 1) as nat),
        {
        }
    }
}

proof fn lemma_pow_le_exp(b: int, e1: nat, e2: nat)
    requires
        1 <= b,
        e1 <= e2,
    ensures
        0 < spec_pow(b, e1) <= spec_pow(b, e2),
    decreases e2 - e1,
{
    if e1 == e2 {
        lemma_pow_pos(b, e1);
    } else {
        lemma_pow_le_exp(b, e1, (e2 - 1) as nat);
        lemma_pow_pos(b, (e2 - 1) as nat);
        assert(spec_pow(b, (e2 - 1) as nat) <= b * spec_pow(b, (e2 - 1) as nat))
            by (nonlinear_arith)
            requires
                1 <= b,
                0 < spec_pow(b, (e2 - 1) as nat),
        {
        }
    }
}

proof fn lemma_amp_sum_zero(pnum: int, pden: int, k: nat)
    requires
        1 <= pnum < pden,
    ensures
        spec_amp_sum(0, pnum, pden, k) == 0,
    decreases k,
{
    if k > 0 {
        lemma_amp_sum_zero(pnum, pden, (k - 1) as nat);
    }
}

proof fn lemma_amp_sum_bounds(amp: int, pnum: int, pden: int, k: nat)
    requires
        1 <= amp,
        1 <= pnum < pden,
        k >= 1,
    ensures
        1 <= spec_amp_sum(amp, pnum, pden, k),
        spec_amp_sum(amp, pnum, pden, k) <= amp * k,
    decreases k,
{
    let next = amp * pnum / pden;
    assert(0 <= next && next <= amp) by (nonlinear_arith)
        requires
            1 <= amp,
            1 <= pnum < pden,
            next == amp * pnum / pden,
    {
    }
    if k == 1 {
        assert(spec_amp_sum(next, pnum, pden, 0) == 0);
        assert(amp * (k as int) == amp) by (nonlinear_arith)
            requires
                k == 1,
        {
        }
    } else {
        if next >= 1 {
            lemma_amp_sum_bounds(next, pnum, pden, (k - 1) as nat);
            assert(amp + next * ((k - 1) as int) <= amp * (k as int)) by (nonlinear_arith)
                requires
                    0 <= next <= amp,
                    k >= 2,
            {
            }
        } else {
            lemma_amp_sum_zero(pnum, pden, (k - 1) as nat);
            assert(amp <= amp * (k as int)) by (nonlinear_arith)
                requires
                    1 <= amp,
                    k >= 1,
            {
            }
        }
    }
}

/// Multi-octave fractal 2D noise, normalized into `[0, 65535]`.
#[verifier::rlimit(100)]
pub fn octave_noise(
    seed: u32,
    tag: u64,
    wx: i64,
    wz: i64,
    cell: u64,
    pnum: u64,
    pden: u64,
    k: u32,
) -> (r: u64)
    requires
        tag + k < 4294967296,
        1 <= cell <= 1024,
        1 <= pnum < pden <= 10,
        1 <= k <= 8,
        -0x100000000000000 <= wx <= 0x100000000000000,
        -0x100000000000000 <= wz <= 0x100000000000000,
    ensures
        r == spec_octave_noise(
            seed,
            tag,
            wx as int,
            wz as int,
            cell as int,
            pnum as int,
            pden as int,
            k as nat,
        ),
        r <= 65535,
{
    let ghost tag0 = tag;
    let ghost cell0 = cell;
    proof {
        lemma_pow10_values();
    }
    let mut amp: u64 = 1;
    let mut e: u32 = 1;
    while e < k
        invariant
            1 <= e <= k <= 8,
            1 <= pnum < pden <= 10,
            amp == spec_pow(pden as int, (e - 1) as nat),
            amp <= 10000000,
        decreases k - e,
    {
        proof {
            lemma_pow_le(pden as int, 10, (e - 1) as nat);
            lemma_pow_le_exp(10, (e - 1) as nat, 6);
            lemma_pow10_values();
            assert((pden as int) * spec_pow(pden as int, (e - 1) as nat) == spec_pow(
                pden as int,
                e as nat,
            ));
            assert((amp as int) * (pden as int) == (pden as int) * (amp as int))
                by (nonlinear_arith)
            {
            }
            assert((amp as int) * (pden as int) <= 10000000) by (nonlinear_arith)
                requires
                    0 <= amp,
                    0 <= pden <= 10,
                    (amp as int) <= 1000000,
            {
            }
        }
        amp = amp * pden;
        e = e + 1;
    }
    proof {
        lemma_pow_le(pden as int, 10, (k - 1) as nat);
        lemma_pow_le_exp(10, (k - 1) as nat, 7);
        lemma_pow10_values();
        lemma_pow_pos(pden as int, (k - 1) as nat);
        lemma_amp_sum_bounds(amp as int, pnum as int, pden as int, k as nat);
    }
    let ghost amp0 = amp as int;
    let mut sum: u64 = 0;
    let mut total: u64 = 0;
    let mut cur_cell: u64 = cell;
    let mut cur_tag: u64 = tag;
    let mut i: u32 = 0;
    while i < k
        invariant
            i <= k <= 8,
            1 <= pnum < pden <= 10,
            1 <= cur_cell <= 1024,
            cur_tag == tag0 + i,
            tag0 + k < 4294967296,
            -0x100000000000000 <= wx <= 0x100000000000000,
            -0x100000000000000 <= wz <= 0x100000000000000,
            0 <= amp <= amp0,
            1 <= amp0 <= 10000000,
            sum <= total * 65535,
            total + amp * ((k - i) as int) <= amp0 * (k as int),
            spec_octave_sum(
                seed,
                tag0,
                wx as int,
                wz as int,
                cell0 as int,
                amp0,
                pnum as int,
                pden as int,
                k as nat,
            ) == sum + spec_octave_sum(
                seed,
                cur_tag,
                wx as int,
                wz as int,
                cur_cell as int,
                amp as int,
                pnum as int,
                pden as int,
                (k - i) as nat,
            ),
            spec_amp_sum(amp0, pnum as int, pden as int, k as nat) == total + spec_amp_sum(
                amp as int,
                pnum as int,
                pden as int,
                (k - i) as nat,
            ),
        decreases k - i,
    {
        proof {
            assert(amp0 * (k as int) <= 80000000) by (nonlinear_arith)
                requires
                    0 <= amp0 <= 10000000,
                    0 <= k <= 8,
            {
            }
            assert(amp * ((k - i) as int) >= amp) by (nonlinear_arith)
                requires
                    0 <= amp,
                    i < k,
            {
            }
        }
        let v = value_noise2(seed, cur_tag, wx, wz, cur_cell);
        proof {
            assert((amp as int) * (v as int) <= (amp as int) * 65535) by (nonlinear_arith)
                requires
                    0 <= v <= 65535,
                    0 <= amp,
            {
            }
            assert((amp as int) * 65535 <= 10000000 * 65535) by (nonlinear_arith)
                requires
                    0 <= amp <= 10000000,
            {
            }
            assert((sum as int) + (amp as int) * (v as int) <= ((total as int) + (amp as int))
                * 65535) by (nonlinear_arith)
                requires
                    sum <= total * 65535,
                    (amp as int) * (v as int) <= (amp as int) * 65535,
                    0 <= total,
                    0 <= amp,
            {
            }
            let next = (amp as int) * (pnum as int) / (pden as int);
            assert(0 <= next && next <= amp) by (nonlinear_arith)
                requires
                    0 <= amp,
                    1 <= pnum < pden,
                    next == (amp as int) * (pnum as int) / (pden as int),
            {
            }
            assert((total as int) + (amp as int) + next * ((k - i - 1) as int) <= (total as int)
                + (amp as int) * ((k - i) as int)) by (nonlinear_arith)
                requires
                    0 <= next <= amp,
                    0 <= amp,
                    i < k,
            {
            }
        }
        sum = sum + amp * v;
        total = total + amp;
        proof {
            assert((amp as int) * (pnum as int) <= 100000000) by (nonlinear_arith)
                requires
                    0 <= amp <= 10000000,
                    0 <= pnum <= 10,
            {
            }
        }
        amp = amp * pnum / pden;
        cur_cell = if cur_cell >= 2 {
            cur_cell / 2
        } else {
            1
        };
        cur_tag = cur_tag + 1;
        i = i + 1;
    }
    proof {
        lemma_div_is_ordered(sum as int, total as int * 65535, total as int);
        lemma_div_multiples_vanish(65535, total as int);
    }
    sum / total
}

} // verus!
