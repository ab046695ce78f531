//! Fractional-N synthesizer planning.

use crate::errors::{Error, Result};
use crate::math;
use vstd::prelude::*;

verus! {

/// Highest frequency that the synthesizer's output divider is chosen for.
pub const MAX_LO_HZ: u64 = 1_770_000_000;

/// Register values of one synthesizer setting, and the frequency that they produce.
#[derive(Clone, Copy, Debug, PartialEq, Eq, Structural)]
pub struct Pll {
    /// Output divider code.
    pub divider: u8,
    /// Integer part of the feedback divider, in the tuner's split encoding.
    pub integer: u8,
    /// Fraction of the feedback divider in steps of one 65536th.
    pub sdm: u16,
    /// Synthesized frequency after quantization.
    pub actual_hz: u64,
}

/// How often `hz` can be doubled without passing [`MAX_LO_HZ`], counting at most `limit` times.
pub open spec fn doublings(hz: nat, limit: nat) -> nat
    decreases limit,
{
    if limit == 0 || 2 * hz > MAX_LO_HZ {
        0
    } else {
        1 + doublings(2 * hz, (limit - 1) as nat)
    }
}

/// Ratio of oscillator to output frequency: twice the largest power of two, up to 64, by which
/// `hz` can be multiplied within [`MAX_LO_HZ`].
pub open spec fn mix(hz: nat) -> nat {
    2 * math::power_of_two(doublings(hz, 6))
}

/// Correction of the output divider code by the tuner's fine tuning readback.
pub open spec fn divider_trim(fine: u8, power_ref: u8) -> int {
    if fine < power_ref {
        1
    } else if fine == power_ref {
        0
    } else {
        -1
    }
}

/// Whole multiples of twice the crystal frequency in the oscillator frequency.
pub open spec fn feedback(hz: nat, crystal: nat) -> nat {
    hz * mix(hz) / (2 * crystal)
}

/// Remaining fraction of the oscillator frequency, in 65536ths of twice the crystal frequency.
pub open spec fn fraction(hz: nat, crystal: nat) -> nat {
    (hz * mix(hz) % (2 * crystal)) * 32768 / crystal
}

/// Whether the synthesizer has a setting for `hz`.
pub open spec fn pll_reaches(hz: nat, crystal: nat, fine: u8, power_ref: u8) -> bool {
    &&& 0 < hz <= MAX_LO_HZ
    &&& crystal > 0
    &&& 0 <= doublings(hz, 6) + divider_trim(fine, power_ref) <= 7
    &&& 13 <= feedback(hz, crystal) <= 63
}

/// The frequency that a reachable setting for `hz` produces.
pub open spec fn quantized(hz: nat, crystal: nat) -> nat {
    2 * crystal * (feedback(hz, crystal) * 65536 + fraction(hz, crystal)) / (65536 * mix(hz))
}

/// The synthesizer setting for a reachable `hz`.
pub open spec fn pll_plan(hz: nat, crystal: nat, fine: u8, power_ref: u8) -> Pll {
    let n = feedback(hz, crystal) - 13;
    Pll {
        divider: (doublings(hz, 6) + divider_trim(fine, power_ref)) as u8,
        integer: (n / 4 + 64 * (n % 4)) as u8,
        sdm: fraction(hz, crystal) as u16,
        actual_hz: quantized(hz, crystal) as u64,
    }
}

proof fn lemma_doublings(hz: nat, limit: nat)
    ensures
        doublings(hz, limit) <= limit,
        hz <= MAX_LO_HZ ==> hz * math::power_of_two(doublings(hz, limit)) <= MAX_LO_HZ,
        doublings(hz, limit) < limit ==> 2 * hz * math::power_of_two(doublings(hz, limit))
            > MAX_LO_HZ,
        math::power_of_two(doublings(hz, limit)) > 0,
    decreases limit,
{
    if limit == 0 || 2 * hz > MAX_LO_HZ {
        let p = math::power_of_two(doublings(hz, limit));
        assert(p == 1);
        assert(hz * p == hz && 2 * hz * p == 2 * hz) by (nonlinear_arith)
            requires
                p == 1,
        ;
    } else {
        let rest = doublings(2 * hz, (limit - 1) as nat);
        lemma_doublings(2 * hz, (limit - 1) as nat);
        assert(math::power_of_two(rest + 1) == 2 * math::power_of_two(rest));
        let p = math::power_of_two(rest);
        assert(hz * (2 * p) == 2 * hz * p) by (nonlinear_arith);
        assert(2 * hz * (2 * p) == 2 * (2 * hz) * p) by (nonlinear_arith);
    }
}

proof fn lemma_power_of_two_bounds(n: nat)
    requires
        n <= 6,
    ensures
        1 <= math::power_of_two(n) <= 64,
{
    reveal_with_fuel(math::power_of_two, 8);
}

/// The remainder of a division by twice the crystal frequency is less than 65536 fractional steps.
proof fn lemma_fraction_fits(hz: nat, crystal: nat)
    requires
        crystal > 0,
    ensures
        fraction(hz, crystal) < 65536,
        fraction(hz, crystal) * crystal <= (hz * mix(hz) % (2 * crystal)) * 32768,
        (hz * mix(hz) % (2 * crystal)) * 32768 < (fraction(hz, crystal) + 1) * crystal,
{
    let r = hz * mix(hz) % (2 * crystal);
    let x = r * 32768;
    let q = x / crystal;
    vstd::arithmetic::div_mod::lemma_fundamental_div_mod(x as int, crystal as int);
    assert(r < 2 * crystal);
    assert(x < 65536 * crystal);
    let m = x % crystal;
    assert(x == crystal * q + m && 0 <= m < crystal);
    assert(q < 65536) by (nonlinear_arith)
        requires
            x == crystal * q + m,
            x < 65536 * crystal,
            m >= 0,
            crystal > 0,
    ;
    assert(q * crystal <= x) by (nonlinear_arith)
        requires
            x == crystal * q + m,
            m >= 0,
    ;
    assert(x < (q + 1) * crystal) by (nonlinear_arith)
        requires
            x == crystal * q + m,
            m < crystal,
    ;
}

/// A synthesized frequency never exceeds the requested one, and falls short of it by at most one
/// step of the fractional divider, rounded up to whole Hz.
pub proof fn quantization_is_within_one_step(hz: nat, crystal: nat, fine: u8, power_ref: u8)
    requires
        pll_reaches(hz, crystal, fine, power_ref),
    ensures
        quantized(hz, crystal) <= hz,
        (hz - quantized(hz, crystal) - 1) * 65536 * mix(hz) < 2 * crystal,
{
    lemma_doublings(hz, 6);
    lemma_fraction_fits(hz, crystal);
    let m = mix(hz);
    let vco = hz * m;
    let c2 = 2 * crystal;
    let n = feedback(hz, crystal);
    let r = vco % c2;
    let s = fraction(hz, crystal);
    vstd::arithmetic::div_mod::lemma_fundamental_div_mod(vco as int, c2 as int);
    assert(vco == c2 * n + r);
    let total = c2 * (n * 65536 + s);
    assert(total == c2 * n * 65536 + c2 * s) by (nonlinear_arith)
        requires
            total == c2 * (n * 65536 + s),
    ;
    // One fractional step bounds what the fraction leaves over.
    assert(c2 * s <= r * 65536) by (nonlinear_arith)
        requires
            s * crystal <= r * 32768,
            c2 == 2 * crystal,
    ;
    assert(r * 65536 < c2 * s + c2) by (nonlinear_arith)
        requires
            r * 32768 < (s + 1) * crystal,
            c2 == 2 * crystal,
    ;
    assert(total <= vco * 65536 < total + c2) by (nonlinear_arith)
        requires
            vco == c2 * n + r,
            total == c2 * n * 65536 + c2 * s,
            c2 * s <= r * 65536,
            r * 65536 < c2 * s + c2,
    ;
    let d = 65536 * m;
    let a = quantized(hz, crystal);
    assert(a == total / d);
    assert(d > 0);
    vstd::arithmetic::div_mod::lemma_fundamental_div_mod(total as int, d as int);
    let rest = total % d;
    assert(vco * 65536 == hz * d) by (nonlinear_arith)
        requires
            vco == hz * m,
            d == 65536 * m,
    ;
    assert(a <= hz) by (nonlinear_arith)
        requires
            total == d * a + rest,
            rest >= 0,
            total <= hz * d,
            d > 0,
    ;
    assert((hz - a - 1) * 65536 * m < c2) by (nonlinear_arith)
        requires
            total == d * a + rest,
            rest < d,
            hz * d < total + c2,
            d == 65536 * m,
    ;
}

/// With the crystal anywhere in the correctable range, every frequency from 13.83 MHz up to the
/// limit has a setting at the nominal output divider, its divider code is at most 6, and the
/// synthesized frequency is less than 500 Hz low.
pub proof fn pll_covers_the_tuning_range(hz: nat, crystal: nat, power_ref: u8)
    requires
        13_828_126 <= hz <= MAX_LO_HZ,
        28_785_945 <= crystal <= 28_814_054,
    ensures
        pll_reaches(hz, crystal, power_ref, power_ref),
        pll_plan(hz, crystal, power_ref, power_ref).divider <= 6,
        quantized(hz, crystal) <= hz,
        hz - quantized(hz, crystal) < 500,
{
    lemma_doublings(hz, 6);
    let k = doublings(hz, 6);
    let p = math::power_of_two(k);
    lemma_power_of_two_bounds(k);
    let m = mix(hz);
    let vco = hz * m;
    assert(vco == 2 * hz * p) by (nonlinear_arith)
        requires
            vco == hz * m,
            m == 2 * p,
    ;
    assert(vco <= 2 * MAX_LO_HZ) by (nonlinear_arith)
        requires
            vco == 2 * hz * p,
            hz * p <= MAX_LO_HZ,
    ;
    assert(vco > MAX_LO_HZ) by {
        if k == 6 {
            assert(p == 64) by {
                reveal_with_fuel(math::power_of_two, 8);
            }
        }
    }
    let n = feedback(hz, crystal);
    let c2 = 2 * crystal;
    vstd::arithmetic::div_mod::lemma_fundamental_div_mod(vco as int, c2 as int);
    assert(13 <= n <= 63) by (nonlinear_arith)
        requires
            vco == c2 * n + vco % c2,
            0 <= vco % c2 < c2,
            57_571_890 <= c2 <= 57_628_108,
            1_770_000_000 < vco <= 3_540_000_000,
    ;
    quantization_is_within_one_step(hz, crystal, power_ref, power_ref);
    let gap = hz - quantized(hz, crystal) - 1;
    assert(gap < 441) by (nonlinear_arith)
        requires
            gap * 65536 * m < c2,
            c2 <= 57_628_108,
            m >= 2,
    ;
}

/// Whether `d` is how often the tuner halves the oscillator frequency for `hz`, beyond the first
/// time: as often as 1.77 GHz allow, but at most six times.
pub open spec fn halvings(hz: nat, d: nat) -> bool {
    &&& d <= 6
    &&& math::power_of_two(d) * hz <= 1_770_000_000
    &&& d < 6 ==> math::power_of_two(d + 1) * hz > 1_770_000_000
}

/// The feedback divider that the tuner takes the integer register for: the low six bits count
/// fours, the high two bits ones, beyond 13.
pub open spec fn decoded_integer(integer: u8) -> int {
    4 * (integer % 64) + integer / 64 + 13
}

/// Whether the tuner, with its oscillator halved `d` more times than once, makes a frequency
/// of at least `hz` and less than `hz + 1` out of twice the crystal frequency, times the feedback
/// divider that its registers hold.
#[verifier::opaque]
pub open spec fn produces(integer: u8, sdm: u16, crystal: nat, d: nat, hz: nat) -> bool {
    let feedback = 65536 * decoded_integer(integer) + sdm;
    let ratio = 2 * math::power_of_two(d);
    65536 * ratio * hz <= 2 * crystal * feedback < 65536 * ratio * (hz + 1)
}

/// Whether no finer setting of the feedback divider comes closer to `hz` from below.
#[verifier::opaque]
pub open spec fn closest(integer: u8, sdm: u16, crystal: nat, d: nat, hz: nat) -> bool {
    let feedback = 65536 * decoded_integer(integer) + sdm;
    let ratio = 2 * math::power_of_two(d);
    2 * crystal * feedback <= 65536 * ratio * hz < 2 * crystal * (feedback + 1)
}

proof fn lemma_halvings(hz: nat, limit: nat, d: nat)
    requires
        0 < hz <= MAX_LO_HZ,
        d <= limit,
        math::power_of_two(d) * hz <= MAX_LO_HZ,
        d < limit ==> math::power_of_two(d + 1) * hz > MAX_LO_HZ,
    ensures
        doublings(hz, limit) == d,
    decreases limit,
{
    let p = math::power_of_two(d);
    assert(math::power_of_two(d + 1) == 2 * p);
    math::power_of_two_grows(d, d);
    if limit > 0 {
        if d == 0 {
            assert(p == 1);
            assert(2 * p * hz == 2 * hz) by (nonlinear_arith)
                requires
                    p == 1,
            ;
        } else {
            let q = math::power_of_two((d - 1) as nat);
            math::power_of_two_grows((d - 1) as nat, (d - 1) as nat);
            assert(p == 2 * q);
            assert(p * hz == q * (2 * hz)) by (nonlinear_arith)
                requires
                    p == 2 * q,
            ;
            assert(q * (2 * hz) >= 2 * hz) by (nonlinear_arith)
                requires
                    q >= 1,
            ;
            assert(2 * p * hz == p * (2 * hz)) by (nonlinear_arith);
            lemma_halvings(2 * hz, (limit - 1) as nat, (d - 1) as nat);
        }
    }
}

/// Every frequency up to 1.77 GHz has its number of halvings.
pub proof fn halvings_exist(hz: nat)
    requires
        0 < hz <= 1_770_000_000,
    ensures
        exists|d: nat| halvings(hz, d),
{
    lemma_doublings(hz, 6);
    let d = doublings(hz, 6);
    let p = math::power_of_two(d);
    assert(math::power_of_two(d + 1) == 2 * p);
    assert(p * hz == hz * p) by (nonlinear_arith);
    assert(2 * p * hz == 2 * hz * p) by (nonlinear_arith);
    assert(halvings(hz, d));
}

/// What the tuner reads from the planned registers is the frequency that is reported: the feedback
/// divider decoded from them, with the output divider that belongs to the frequency, gives the
/// reported frequency, and no other setting comes closer to the requested one from below. The
/// output divider code is corrected by one where the tuner's readback is off its reference.
pub proof fn planned_registers_decode_to_the_frequency(
    hz: nat,
    crystal: nat,
    fine: u8,
    power_ref: u8,
    d: nat,
)
    requires
        pll_reaches(hz, crystal, fine, power_ref),
        halvings(hz, d),
    ensures
        ({
            let plan = pll_plan(hz, crystal, fine, power_ref);
            &&& decoded_integer(plan.integer) <= 63
            &&& produces(plan.integer, plan.sdm, crystal, d, plan.actual_hz as nat)
            &&& closest(plan.integer, plan.sdm, crystal, d, hz)
            &&& plan.divider == d + (if fine < power_ref {
                1int
            } else if fine > power_ref {
                -1
            } else {
                0
            })
            &&& plan.divider <= 7
            &&& plan.actual_hz <= hz
        }),
{
    reveal(produces);
    reveal(closest);
    assert(math::power_of_two(d) * hz == hz * math::power_of_two(d)) by (nonlinear_arith);
    lemma_halvings(hz, 6, d);
    lemma_doublings(hz, 6);
    lemma_fraction_fits(hz, crystal);
    quantization_is_within_one_step(hz, crystal, fine, power_ref);
    let plan = pll_plan(hz, crystal, fine, power_ref);
    let n = feedback(hz, crystal);
    let sdm = fraction(hz, crystal);
    let m = mix(hz);
    let c2 = 2 * crystal;
    assert(0 <= n - 13 <= 50);
    assert(decoded_integer(plan.integer) == n);
    assert(plan.sdm == sdm);
    let total = c2 * (n * 65536 + sdm);
    let unit = 65536 * m;
    vstd::arithmetic::div_mod::lemma_fundamental_div_mod(total as int, unit as int);
    let a = total / unit;
    let rest = total % unit;
    assert(a == quantized(hz, crystal));
    assert(plan.actual_hz == a);
    assert(65536 * n + sdm == n * 65536 + sdm);
    assert(unit * a <= total < unit * (a + 1)) by (nonlinear_arith)
        requires
            total == unit * a + rest,
            0 <= rest < unit,
    ;
    let vco = hz * m;
    let r = vco % c2;
    vstd::arithmetic::div_mod::lemma_fundamental_div_mod(vco as int, c2 as int);
    assert(total <= vco * 65536 < total + c2) by (nonlinear_arith)
        requires
            total == c2 * (n * 65536 + sdm),
            vco == c2 * n + r,
            sdm * crystal <= r * 32768,
            r * 32768 < (sdm + 1) * crystal,
            c2 == 2 * crystal,
    ;
    assert(unit * hz == vco * 65536) by (nonlinear_arith)
        requires
            unit == 65536 * m,
            vco == hz * m,
    ;
    assert(total + c2 == c2 * (65536 * n + sdm + 1)) by (nonlinear_arith)
        requires
            total == c2 * (n * 65536 + sdm),
    ;
}

/// A frequency has a setting exactly if it is not above 1.77 GHz, the corrected output divider code
/// fits its three bits, and the oscillator frequency is at least 13 and less than 64 times twice
/// the crystal frequency.
pub proof fn reachable_frequencies(hz: nat, crystal: nat, fine: u8, power_ref: u8, d: nat)
    requires
        0 < hz,
        0 < crystal,
        hz <= 1_770_000_000 ==> halvings(hz, d),
    ensures
        ({
            let oscillator = 2 * math::power_of_two(d) * hz;
            pll_reaches(hz, crystal, fine, power_ref) <==> {
                &&& hz <= 1_770_000_000
                &&& fine > power_ref ==> d > 0
                &&& 13 * (2 * crystal) <= oscillator < 64 * (2 * crystal)
            }
        }),
{
    if hz <= 1_770_000_000 {
        lemma_halvings(hz, 6, d);
        let m = mix(hz);
        let c2 = 2 * crystal;
        let n = feedback(hz, crystal);
        let oscillator = 2 * math::power_of_two(d) * hz;
        assert(oscillator == hz * m) by (nonlinear_arith)
            requires
                oscillator == 2 * math::power_of_two(d) * hz,
                m == 2 * math::power_of_two(d),
        ;
        vstd::arithmetic::div_mod::lemma_fundamental_div_mod(oscillator as int, c2 as int);
        let r = oscillator % c2;
        assert(13 <= n <==> 13 * c2 <= oscillator) by (nonlinear_arith)
            requires
                oscillator == c2 * n + r,
                0 <= r < c2,
        ;
        assert(n <= 63 <==> oscillator < 64 * c2) by (nonlinear_arith)
            requires
                oscillator == c2 * n + r,
                0 <= r < c2,
        ;
    }
}

/// Plan the synthesizer for `hz` from the crystal frequency and the tuner's readback.
pub fn pll(hz: u64, crystal: u64, fine: u8, power_ref: u8) -> (plan: Result<Pll>)
    requires
        crystal <= u64::MAX / 2,
    ensures
        plan == if pll_reaches(hz as nat, crystal as nat, fine, power_ref) {
            Ok::<Pll, Error>(pll_plan(hz as nat, crystal as nat, fine, power_ref))
        } else {
            Err::<Pll, Error>(Error::PllUnlocked)
        },
{
    if hz == 0 || hz > MAX_LO_HZ || crystal == 0 {
        return Err(Error::PllUnlocked);
    }
    let mut div: u8 = 0;
    let mut scaled: u64 = hz;
    let mut mix_ratio: u64 = 2;
    while div < 6 && 2 * scaled <= MAX_LO_HZ
        invariant
            0 < hz <= MAX_LO_HZ,
            div <= 6,
            scaled <= MAX_LO_HZ,
            2 * scaled == hz * mix_ratio,
            mix_ratio == 2 * math::power_of_two(div as nat),
            2 <= mix_ratio <= 128,
            div + doublings(scaled as nat, (6 - div) as nat) == doublings(hz as nat, 6),
        decreases 6 - div,
    {
        proof {
            lemma_power_of_two_bounds((div + 1) as nat);
            assert(math::power_of_two((div + 1) as nat) == 2 * math::power_of_two(div as nat));
            assert(2 * (2 * scaled) == hz * (2 * mix_ratio)) by (nonlinear_arith)
                requires
                    2 * scaled == hz * mix_ratio,
            ;
        }
        div = div + 1;
        scaled = 2 * scaled;
        mix_ratio = 2 * mix_ratio;
    }
    proof {
        assert(doublings(scaled as nat, (6 - div) as nat) == 0);
        lemma_fraction_fits(hz as nat, crystal as nat);
    }
    if fine > power_ref && div == 0 {
        return Err(Error::PllUnlocked);
    }
    let divider: u8 = if fine < power_ref {
        div + 1
    } else if fine == power_ref {
        div
    } else {
        div - 1
    };
    let vco: u64 = 2 * scaled;
    assert(vco == hz * mix(hz as nat));
    let integer: u64 = vco / (2 * crystal);
    if integer < 13 || integer > 63 {
        return Err(Error::PllUnlocked);
    }
    let rest: u64 = vco % (2 * crystal);
    proof {
        vstd::arithmetic::div_mod::lemma_mod_decreases(vco as nat, (2 * crystal) as nat);
    }
    let sdm: u64 = rest * 32768 / crystal;
    let code: u64 = integer - 13;
    proof {
        quantization_is_within_one_step(hz as nat, crystal as nat, fine, power_ref);
        vstd::arithmetic::div_mod::lemma_fundamental_div_mod(vco as int, 2 * crystal);
        let c2 = 2 * crystal;
        assert(c2 * (integer * 65536 + sdm) <= vco * 65536 + c2 * 65536) by (nonlinear_arith)
            requires
                vco == c2 * integer + rest,
                rest >= 0,
                0 <= sdm < 65536,
                c2 >= 0,
        ;
        assert(c2 * integer <= vco) by (nonlinear_arith)
            requires
                vco == c2 * integer + rest,
                rest >= 0,
        ;
        assert(c2 <= vco) by (nonlinear_arith)
            requires
                c2 * integer <= vco,
                integer >= 13,
                c2 >= 0,
        ;
    }
    let steps: u64 = integer * 65536 + sdm;
    let actual_hz: u64 = (2 * crystal * steps) / (65536 * mix_ratio);
    Ok(Pll { divider, integer: (code / 4 + 64 * (code % 4)) as u8, sdm: sdm as u16, actual_hz })
}

} // verus!
