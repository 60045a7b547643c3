//! Seedable randomness for the simulation.
//!
//! The generator itself comes from the `rand` crate and is reached only
//! through the trusted items below. Everything derived from the raw uniform
//! draws — Bernoulli decisions in parts per million and the approximately
//! normal noise used for lap-time scatter and pit standstill duration — is
//! verified integer code.

use vstd::prelude::*;
use rand::Rng;
use rand::SeedableRng;

verus! {

/// One million; the denominator of all probability values ("ppm").
pub const PPM: u32 = 1_000_000;

#[verifier::external_type_specification]
#[verifier::external_body]
pub struct ExStdRng(rand::rngs::StdRng);

/// Relies on rand::rngs::StdRng::seed_from_u64: builds the deterministic
/// generator for the given seed.
#[verifier::external_body]
pub fn rng_from_seed(seed: u64) -> rand::rngs::StdRng {
    rand::rngs::StdRng::seed_from_u64(seed)
}

/// Relies on rand::Rng::gen_range over `0..PPM`: returns a uniform draw in
/// `[0, PPM)`. Nothing more can be promised of a random value.
#[verifier::external_body]
pub fn rng_draw_ppm(rng: &mut rand::rngs::StdRng) -> (r: u32)
    ensures
        r < PPM,
{
    rng.gen_range(0..PPM)
}

/// Draws an approximately standard-normal value in millionths: the centred sum
/// of twelve uniform draws, which has mean 0 and unit variance. This stands in
/// for an exact normal draw — the outside crates only offer one through
/// floating point — so the noise distribution is a bounded approximation of
/// the normal, never beyond six standard deviations.
pub fn draw_std_normal_micro(rng: &mut rand::rngs::StdRng) -> (z: i64)
    ensures
        -6_000_000 <= z <= 6_000_000,
{
    let mut sum: u64 = 0;
    let mut k: usize = 0;
    while k < 12
        invariant
            k <= 12,
            sum <= k * 1_000_000,
        decreases 12 - k,
    {
        let d: u32 = rng_draw_ppm(rng);
        sum = sum + d as u64;
        k = k + 1;
    }
    sum as i64 - 6_000_000
}

/// Draws noise with standard deviation `sd_ms` milliseconds, approximately
/// normal and always within six standard deviations; exactly zero when
/// `sd_ms` is zero.
pub fn draw_normal_noise_ms(rng: &mut rand::rngs::StdRng, sd_ms: i64) -> (r: i64)
    requires
        0 <= sd_ms <= 1_000_000_000,
    ensures
        -6 * sd_ms <= r <= 6 * sd_ms,
        sd_ms == 0 ==> r == 0,
{
    if sd_ms == 0 {
        return 0;
    }
    let z: i64 = draw_std_normal_micro(rng);
    assert(-6_000_000_000_000_000 <= sd_ms * z <= 6_000_000_000_000_000) by (nonlinear_arith)
        requires
            0 <= sd_ms <= 1_000_000_000,
            -6_000_000 <= z <= 6_000_000,
    ;
    let noise: i64 = sd_ms * z / 1_000_000;
    assert(-6 * sd_ms <= sd_ms * z / 1_000_000 <= 6 * sd_ms) by (nonlinear_arith)
        requires
            0 <= sd_ms,
            -6_000_000 <= z <= 6_000_000,
    ;
    noise
}

/// True with probability `p_ppm` (clamped to one) for a uniform draw.
pub fn bernoulli(rng: &mut rand::rngs::StdRng, p_ppm: u64) -> (r: bool)
    ensures
        p_ppm == 0 ==> !r,
        p_ppm >= PPM ==> r,
{
    let draw: u32 = rng_draw_ppm(rng);
    (draw as u64) < p_ppm
}

} // verus!
