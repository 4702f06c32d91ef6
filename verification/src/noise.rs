//! A deterministic, seeded coherent-noise field over fixed-point
//! coordinates: hashed lattice values blended bilinearly (2D) or
//! trilinearly (3D). The result is a pure function of the seed and
//! the coordinates, always within `[-1, 1]` in fixed point.

use vstd::prelude::*;
use crate::fixed::{fp_ok, lerp_spec, fp_lerp, floor_mod_i64, tdiv_i64, FP_ONE};

verus! {

/// A 64-bit avalanche mix.
pub open spec fn mix64_spec(z: u64) -> u64 {
    let a = (z ^ (z >> 30)) as u128;
    let b = (a * 0xBF58476D1CE4E5B9) as u64;
    let c = (b ^ (b >> 27)) as u128;
    let d = (c * 0x94D049BB133111EB) as u64;
    d ^ (d >> 31)
}

fn mix64(z: u64) -> (r: u64)
    ensures
        r == mix64_spec(z),
{
    let a: u128 = (z ^ (z >> 30)) as u128;
    let b: u64 = #[verifier::truncate] ((a * 0xBF58476D1CE4E5B9) as u64);
    let c: u128 = (b ^ (b >> 27)) as u128;
    let d: u64 = #[verifier::truncate] ((c * 0x94D049BB133111EB) as u64);
    d ^ (d >> 31)
}

/// The lattice hash of a 2D cell.
pub open spec fn hash2_spec(seed: u64, cx: int, cy: int) -> u64 {
    mix64_spec(mix64_spec(seed ^ (cx as u64)) ^ (cy as u64))
}

/// The lattice hash of a 3D cell.
pub open spec fn hash3_spec(seed: u64, cx: int, cy: int, cz: int) -> u64 {
    mix64_spec(mix64_spec(mix64_spec(seed ^ (cx as u64)) ^ (cy as u64)) ^ (cz as u64))
}

/// The fixed-point corner value a hash yields, in `[-1, 1]`.
pub open spec fn corner_spec(h: u64) -> int {
    (h % 131073) - 65536
}

fn corner(h: u64) -> (r: i64)
    ensures
        r == corner_spec(h),
        -FP_ONE <= r <= FP_ONE,
{
    let m: u64 = h % 131073;
    (m as i64) - 65536
}

/// The fractional position inside the lattice cell and the cell
/// coordinate: `x == cell * FP_ONE + frac` with `frac` in
/// `[0, FP_ONE)`.
pub open spec fn cell_of(x: int) -> int {
    (x - (x % FP_ONE as int)) / FP_ONE as int
}

pub open spec fn frac_of(x: int) -> int {
    x % FP_ONE as int
}

fn split_cell(x: i64) -> (r: (i64, i64))
    requires
        fp_ok(x as int),
    ensures
        r.0 == cell_of(x as int),
        r.1 == frac_of(x as int),
        0 <= r.1 < FP_ONE,
        -0x2000000 <= r.0 <= 0x2000000,
    {
    let m: i64 = floor_mod_i64(x, FP_ONE);
    let q: i64 = tdiv_i64(x - m, FP_ONE);
    proof {
        vstd::arithmetic::div_mod::lemma_fundamental_div_mod(x as int, FP_ONE as int);
        let k = x as int / FP_ONE as int;
        assert(x - m == FP_ONE as int * k);
        if k >= 0 {
            assert(crate::fixed::tdiv(FP_ONE as int * k, FP_ONE as int) == k) by {
                vstd::arithmetic::mul::lemma_mul_is_commutative(FP_ONE as int, k);
                vstd::arithmetic::div_mod::lemma_div_by_multiple(k, FP_ONE as int);
            }
        } else {
            assert(crate::fixed::tdiv(FP_ONE as int * k, FP_ONE as int) == k) by {
                assert(crate::fixed::iabs(FP_ONE as int * k) == (-k) * FP_ONE as int)
                    by (nonlinear_arith)
                    requires
                        k < 0,
                ;
                vstd::arithmetic::div_mod::lemma_div_by_multiple(-k, FP_ONE as int);
            }
        }
        assert(cell_of(x as int) == k) by {
            vstd::arithmetic::div_mod::lemma_fundamental_div_mod(x as int, FP_ONE as int);
            vstd::arithmetic::div_mod::lemma_div_multiples_vanish(k, FP_ONE as int);
        }
        assert(-0x2000000 <= k <= 0x2000000) by {
            vstd::arithmetic::div_mod::lemma_div_is_ordered(
                -(crate::fixed::FP_LIM as int),
                x as int,
                FP_ONE as int,
            );
            vstd::arithmetic::div_mod::lemma_div_is_ordered(
                x as int,
                crate::fixed::FP_LIM as int,
                FP_ONE as int,
            );
        }
    }
    (q, m)
}

/// The 2D noise value: corner hashes of the cell blended bilinearly
/// by the fractional position.
pub open spec fn noise2_spec(seed: u64, x: int, y: int) -> int {
    let cx = cell_of(x);
    let cy = cell_of(y);
    let fx = frac_of(x);
    let fy = frac_of(y);
    let c00 = corner_spec(hash2_spec(seed, cx, cy));
    let c10 = corner_spec(hash2_spec(seed, cx + 1, cy));
    let c01 = corner_spec(hash2_spec(seed, cx, cy + 1));
    let c11 = corner_spec(hash2_spec(seed, cx + 1, cy + 1));
    lerp_spec(lerp_spec(c00, c10, fx), lerp_spec(c01, c11, fx), fy)
}

/// The 3D noise value: corner hashes of the cell blended trilinearly.
pub open spec fn noise3_spec(seed: u64, x: int, y: int, z: int) -> int {
    let cx = cell_of(x);
    let cy = cell_of(y);
    let cz = cell_of(z);
    let fx = frac_of(x);
    let fy = frac_of(y);
    let fz = frac_of(z);
    let c000 = corner_spec(hash3_spec(seed, cx, cy, cz));
    let c100 = corner_spec(hash3_spec(seed, cx + 1, cy, cz));
    let c010 = corner_spec(hash3_spec(seed, cx, cy + 1, cz));
    let c110 = corner_spec(hash3_spec(seed, cx + 1, cy + 1, cz));
    let c001 = corner_spec(hash3_spec(seed, cx, cy, cz + 1));
    let c101 = corner_spec(hash3_spec(seed, cx + 1, cy, cz + 1));
    let c011 = corner_spec(hash3_spec(seed, cx, cy + 1, cz + 1));
    let c111 = corner_spec(hash3_spec(seed, cx + 1, cy + 1, cz + 1));
    let n0 = lerp_spec(lerp_spec(c000, c100, fx), lerp_spec(c010, c110, fx), fy);
    let n1 = lerp_spec(lerp_spec(c001, c101, fx), lerp_spec(c011, c111, fx), fy);
    lerp_spec(n0, n1, fz)
}

/// The deterministic noise field: one seed, no other state.
#[derive(Clone, Copy, PartialEq, Eq, Structural, Debug)]
pub struct NoiseField {
    pub seed: u64,
}

impl NoiseField {
    pub fn with_seed(seed: u64) -> (n: NoiseField)
        ensures
            n.seed == seed,
    {
        NoiseField { seed }
    }

    fn hash2(&self, cx: i64, cy: i64) -> (r: u64)
        ensures
            r == hash2_spec(self.seed, cx as int, cy as int),
    {
        let hx: u64 = mix64(self.seed ^ (#[verifier::truncate] (cx as u64)));
        mix64(hx ^ (#[verifier::truncate] (cy as u64)))
    }

    fn hash3(&self, cx: i64, cy: i64, cz: i64) -> (r: u64)
        ensures
            r == hash3_spec(self.seed, cx as int, cy as int, cz as int),
    {
        let hx: u64 = mix64(self.seed ^ (#[verifier::truncate] (cx as u64)));
        let hy: u64 = mix64(hx ^ (#[verifier::truncate] (cy as u64)));
        mix64(hy ^ (#[verifier::truncate] (cz as u64)))
    }

    /// Sample the field at a fixed-point 2D coordinate.
    pub fn get_noise_2d(&self, x: i64, y: i64) -> (r: i64)
        requires
            fp_ok(x as int),
            fp_ok(y as int),
        ensures
            r == noise2_spec(self.seed, x as int, y as int),
            -FP_ONE <= r <= FP_ONE,
    {
        let (cx, fx) = split_cell(x);
        let (cy, fy) = split_cell(y);
        let c00: i64 = corner(self.hash2(cx, cy));
        let c10: i64 = corner(self.hash2(cx + 1, cy));
        let c01: i64 = corner(self.hash2(cx, cy + 1));
        let c11: i64 = corner(self.hash2(cx + 1, cy + 1));
        let n0: i64 = fp_lerp(c00, c10, fx);
        let n1: i64 = fp_lerp(c01, c11, fx);
        fp_lerp(n0, n1, fy)
    }

    /// Sample the field at a fixed-point 3D coordinate.
    pub fn get_noise_3d(&self, x: i64, y: i64, z: i64) -> (r: i64)
        requires
            fp_ok(x as int),
            fp_ok(y as int),
            fp_ok(z as int),
        ensures
            r == noise3_spec(self.seed, x as int, y as int, z as int),
            -FP_ONE <= r <= FP_ONE,
    {
        let (cx, fx) = split_cell(x);
        let (cy, fy) = split_cell(y);
        let (cz, fz) = split_cell(z);
        let c000: i64 = corner(self.hash3(cx, cy, cz));
        let c100: i64 = corner(self.hash3(cx + 1, cy, cz));
        let c010: i64 = corner(self.hash3(cx, cy + 1, cz));
        let c110: i64 = corner(self.hash3(cx + 1, cy + 1, cz));
        let c001: i64 = corner(self.hash3(cx, cy, cz + 1));
        let c101: i64 = corner(self.hash3(cx + 1, cy, cz + 1));
        let c011: i64 = corner(self.hash3(cx, cy + 1, cz + 1));
        let c111: i64 = corner(self.hash3(cx + 1, cy + 1, cz + 1));
        let n00: i64 = fp_lerp(c000, c100, fx);
        let n10: i64 = fp_lerp(c010, c110, fx);
        let n01: i64 = fp_lerp(c001, c101, fx);
        let n11: i64 = fp_lerp(c011, c111, fx);
        let n0: i64 = fp_lerp(n00, n10, fy);
        let n1: i64 = fp_lerp(n01, n11, fy);
        fp_lerp(n0, n1, fz)
    }
}

} // verus!
