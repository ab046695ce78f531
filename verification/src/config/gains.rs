//! What gains stand for, and which settings are accepted.

use crate::config;
use crate::config::{Decibels, GainConfig, Settings};
use crate::errors::Error;
use crate::math;
use vstd::prelude::*;

verus! {

/// The distance of a value from zero, in units of 2^-149 dB, of which every finite single precision
/// value is a multiple. `magnitude` is the representation without its sign.
pub open spec fn distance(magnitude: u32) -> nat {
    let exponent = (magnitude / 0x80_0000) as nat;
    let fraction = (magnitude % 0x80_0000) as nat;
    if exponent == 0 {
        fraction
    } else {
        (fraction + 0x80_0000) * math::power_of_two((exponent - 1) as nat)
    }
}

/// The value of a gain that is a number, in units of 2^-149 dB. An infinity counts as what its
/// representation would stand for if it were finite.
pub open spec fn value(gain: Decibels) -> int {
    if gain.bits < 0x8000_0000 {
        distance(gain.bits) as int
    } else {
        -(distance((gain.bits - 0x8000_0000) as u32) as int)
    }
}

/// Whether a representation is that of a number: without its sign it is not above the infinity's.
pub open spec fn is_number(bits: u32) -> bool {
    bits % 0x8000_0000 <= 0x7f80_0000
}

proof fn lemma_distance_grows(a: u32, b: u32)
    requires
        a < b < 0x8000_0000,
    ensures
        distance(a) < distance(b),
{
    let e = (a / 0x80_0000) as nat;
    let g = (b / 0x80_0000) as nat;
    let f = (a % 0x80_0000) as nat;
    let h = (b % 0x80_0000) as nat;
    assert(e <= g);
    if e == g {
        assert(f < h);
        if e > 0 {
            let p = math::power_of_two((e - 1) as nat);
            math::power_of_two_grows((e - 1) as nat, (e - 1) as nat);
            assert((f + 0x80_0000) * p < (h + 0x80_0000) * p) by (nonlinear_arith)
                requires
                    f < h,
                    p >= 1,
            ;
        }
    } else {
        let q = math::power_of_two((g - 1) as nat);
        math::power_of_two_grows((g - 1) as nat, (g - 1) as nat);
        assert((h + 0x80_0000) * q >= 0x80_0000 * q) by (nonlinear_arith)
            requires
                q >= 1,
        ;
        if e > 0 {
            let p = math::power_of_two((e - 1) as nat);
            math::power_of_two_grows((e - 1) as nat, (e - 1) as nat);
            math::power_of_two_grows(e, (g - 1) as nat);
            assert(math::power_of_two(e) == 2 * p);
            assert((f + 0x80_0000) * p < 0x100_0000 * p) by (nonlinear_arith)
                requires
                    f < 0x80_0000,
                    p >= 1,
            ;
            assert(0x100_0000 * p == 0x80_0000 * (2 * p));
            assert(0x80_0000 * (2 * p) <= 0x80_0000 * q);
        }
    }
}

/// Two gains are equal if and only if both are numbers and have the same value.
pub proof fn equal_gains_have_the_same_value(a: Decibels, b: Decibels)
    ensures
        a.equals(b) <==> is_number(a.bits) && is_number(b.bits) && value(a) == value(b),
{
    let m = a.bits % 0x8000_0000;
    let n = b.bits % 0x8000_0000;
    assert(distance(0) == 0);
    if m > 0 {
        lemma_distance_grows(0, m);
    }
    if n > 0 {
        lemma_distance_grows(0, n);
    }
    if m < n {
        lemma_distance_grows(m, n);
    } else if n < m {
        lemma_distance_grows(n, m);
    }
}

proof fn lemma_scaled(significand: int, exponent: nat, steps: int)
    requires
        1 <= exponent <= 254,
        exponent >= 128 ==> steps == significand * math::power_of_two((exponent - 128) as nat),
        exponent < 128 ==> steps == significand / math::power_of_two(
            (128 - exponent) as nat,
        ) as int,
    ensures
        ({
            let unit = math::power_of_two(127);
            let units = significand * math::power_of_two((exponent - 1) as nat);
            steps * unit <= units < (steps + 1) * unit
        }),
{
    let unit = math::power_of_two(127) as int;
    math::power_of_two_grows(127, 127);
    let low = math::power_of_two((exponent - 1) as nat) as int;
    math::power_of_two_grows((exponent - 1) as nat, (exponent - 1) as nat);
    if exponent >= 128 {
        let p = math::power_of_two((exponent - 128) as nat) as int;
        math::power_of_two_adds(127, (exponent - 128) as nat);
        assert(low == unit * p);
        assert(significand * low == steps * unit) by (nonlinear_arith)
            requires
                steps == significand * p,
                low == unit * p,
        ;
        assert(steps * unit < (steps + 1) * unit) by (nonlinear_arith)
            requires
                unit >= 1,
        ;
    } else {
        let p = math::power_of_two((128 - exponent) as nat) as int;
        math::power_of_two_grows((128 - exponent) as nat, (128 - exponent) as nat);
        math::power_of_two_adds((exponent - 1) as nat, (128 - exponent) as nat);
        assert(unit == low * p);
        vstd::arithmetic::div_mod::lemma_fundamental_div_mod(significand, p);
        let rest = significand % p;
        assert(steps * (low * p) <= significand * low < (steps + 1) * (low * p))
            by (nonlinear_arith)
            requires
                significand == p * steps + rest,
                0 <= rest < p,
                low >= 1,
        ;
    }
}

/// A gain in steps is the value rounded down to a multiple of 2^-22 dB, unless that does not fit.
pub proof fn steps_are_the_value_rounded_down(gain: Decibels)
    requires
        gain.bits % 0x8000_0000 < 0x7f80_0000,
    ensures
        gain.steps() is Steps,
        ({
            let steps = gain.steps()->Steps_0;
            let unit = math::power_of_two(127);
            i64::MIN < steps < i64::MAX ==> steps * unit <= value(gain) < (steps + 1) * unit
        }),
{
    let negative = gain.bits / 0x8000_0000 == 1;
    let m = gain.bits % 0x8000_0000;
    assert(gain.exponent() == m / 0x80_0000);
    assert(gain.fraction() == m % 0x80_0000);
    assert(m == if negative {
        gain.bits - 0x8000_0000
    } else {
        gain.bits as int
    });
    let exponent = if gain.exponent() == 0 {
        1
    } else {
        gain.exponent()
    };
    let size = if gain.exponent() == 0 {
        gain.fraction()
    } else {
        gain.fraction() + 0x80_0000
    };
    let significand = if negative {
        -(size as int)
    } else {
        size as int
    };
    let steps = config::floor_to_steps(negative, size, exponent);
    lemma_scaled(significand, exponent, steps);
    let p = math::power_of_two((exponent - 1) as nat);
    assert(-(size as int) * p == -(size * p)) by (nonlinear_arith);
    assert(math::power_of_two(0) == 1);
    assert(size * 1 == size);
    assert(distance(m) == size * p);
}

proof fn lemma_in_range(gain: Decibels)
    ensures
        gain.in_range() <==> gain.bits <= 0x4252_0000 || gain.bits == 0x8000_0000,
{
    let negative = gain.bits / 0x8000_0000 == 1;
    let e = gain.exponent();
    let f = gain.fraction();
    let size = if e == 0 {
        f
    } else {
        f + 0x80_0000
    };
    let exponent = if e == 0 {
        1
    } else {
        e
    };
    let value: int = if negative {
        -(size as int)
    } else {
        size as int
    };
    assert(gain.bits == 0x8000_0000 * (gain.bits / 0x8000_0000) + 0x80_0000 * e + f);
    if e < 255 {
        if exponent >= 128 {
            let p = math::power_of_two((exponent - 128) as nat) as int;
            math::power_of_two_grows((exponent - 128) as nat, (exponent - 128) as nat);
            assert(value * p == -(size * p) || value * p == size * p) by (nonlinear_arith)
                requires
                    value == -(size as int) || value == size,
            ;
            assert(size * p >= 0x80_0000) by (nonlinear_arith)
                requires
                    size >= 0x80_0000,
                    p >= 1,
            ;
            assert(negative ==> value * p < 0) by (nonlinear_arith)
                requires
                    negative ==> value < 0,
                    p >= 1,
            ;
            assert(!negative ==> value * p == size * p);
            assert(math::power_of_two(3) == 8 && math::power_of_two(4) == 16
                && math::power_of_two(5) == 32) by {
                reveal_with_fuel(math::power_of_two, 6);
            }
            if exponent <= 131 {
                math::power_of_two_grows((exponent - 128) as nat, 3);
                assert(size * p < 0x100_0000 * 8) by (nonlinear_arith)
                    requires
                        0 <= size < 0x100_0000,
                        1 <= p <= 8,
                ;
            } else if exponent >= 133 {
                math::power_of_two_grows(5, (exponent - 128) as nat);
                assert(size * p >= 0x80_0000 * 32) by (nonlinear_arith)
                    requires
                        size >= 0x80_0000,
                        p >= 32,
                ;
            } else {
                assert(p == 16);
            }
        } else {
            let p = math::power_of_two((128 - exponent) as nat) as int;
            math::power_of_two_grows((128 - exponent) as nat, (128 - exponent) as nat);
            vstd::arithmetic::div_mod::lemma_fundamental_div_mod(value, p);
            let q = value / p;
            assert(value < 0 ==> q < 0) by (nonlinear_arith)
                requires
                    value == p * q + value % p,
                    0 <= value % p,
                    p >= 1,
            ;
            assert(value >= 0 ==> 0 <= q <= value) by (nonlinear_arith)
                requires
                    value == p * q + value % p,
                    0 <= value % p < p,
                    p >= 1,
            ;
        }
    }
}

/// Settings are accepted if and only if every one of them is in its range: a frequency of 1 Hz to
/// 1.766 GHz, 900001 to 3200000 samples/s, a manual gain from zero to 52.5 dB, and a correction of at
/// most 488 ppm. The representations of positive values are in the order of the values, and that of
/// 52.5 is 0x42520000; the negative zero is a zero.
pub proof fn settings_are_accepted_in_their_ranges(settings: Settings)
    ensures
        settings.valid() <==> {
            &&& 1 <= settings.frequency_hz <= 1_766_000_000
            &&& 900_001 <= settings.sample_rate_hz <= 3_200_000
            &&& settings.gain matches GainConfig::Manual(gain) ==> gain.bits <= 0x4252_0000
                || gain.bits == 0x8000_0000
            &&& -488 <= settings.correction_ppm <= 488
        },
        settings.verdict() is Ok <==> settings.valid(),
{
    if let GainConfig::Manual(gain) = settings.gain {
        lemma_in_range(gain);
    }
}

/// Settings that are not accepted are answered with the name of the first one that is out of its
/// range.
pub proof fn verdicts_name_the_first_setting_out_of_range(settings: Settings)
    ensures
        settings.verdict() matches Err(error) ==> {
            &&& error matches Error::InvalidConfig { field, reason }
            &&& field == if !(1 <= settings.frequency_hz <= 1_766_000_000) {
                "frequency_hz"
            } else if !(900_001 <= settings.sample_rate_hz <= 3_200_000) {
                "sample_rate_hz"
            } else if settings.gain is Manual && 0x4252_0000 < settings.gain->Manual_0.bits
                && settings.gain->Manual_0.bits != 0x8000_0000 {
                "gain"
            } else {
                "correction_ppm"
            }
        },
{
    if let GainConfig::Manual(gain) = settings.gain {
        lemma_in_range(gain);
    }
}

} // verus!
