//! Validated configuration, independent of USB access.

pub mod gains;
pub mod laws;
mod private;

use crate::errors::{Error, Result};
use crate::math;
use crate::rx::processing::{IqProcessor, RawProcessor};
use core::marker::PhantomData;
use private::Sealed;
use vstd::prelude::*;
use vstd::std_specs::cmp::PartialEqSpecImpl;

verus! {

/// Representation delivered to the application.
#[derive(Clone, Copy, Debug, Eq, PartialEq, Structural)]
pub enum SampleFormat {
    /// Interleaved unsigned eight-bit I/Q pairs, as delivered by USB.
    RawIq,
    /// Complex floats, with each component mapped from `0..=255` to `-1..=1`.
    F32Iq,
}

/// Sealed compile-time sample format used by devices and streams.
pub trait SampleMode: Sealed + Copy + core::fmt::Debug + Eq + 'static {
    /// Runtime equivalent of this mode.
    const FORMAT: SampleFormat;
}

/// Raw unsigned eight-bit complex samples.
#[derive(Clone, Copy, Debug, Default, Eq, PartialEq, Structural)]
pub struct RawIq;

/// Converted complex `f32` samples (the default).
#[derive(Clone, Copy, Debug, Default, Eq, PartialEq, Structural)]
pub struct F32Iq;

impl Sealed for RawIq {
    type Processor = RawProcessor;
}

impl Sealed for F32Iq {
    type Processor = IqProcessor;
}

impl SampleMode for RawIq {
    const FORMAT: SampleFormat = SampleFormat::RawIq;
}

impl SampleMode for F32Iq {
    const FORMAT: SampleFormat = SampleFormat::F32Iq;
}

/// A gain in dB: an IEEE 754 single precision value.
#[derive(Clone, Copy, Debug)]
pub struct Decibels {
    /// The representation of the value.
    pub bits: u32,
}

/// A gain as a multiple of 2^-22 dB, which is the spacing of single precision values between 2 and
/// 4.
#[derive(Clone, Copy, Debug, Eq, PartialEq, Structural)]
pub enum GainSteps {
    /// Not a number.
    NotANumber,
    /// So many times 2^-22 dB, rounded down; infinities and other values out of range are the
    /// extreme values.
    Steps(i64),
}

/// Largest manual gain, 52.5 dB.
pub const MAX_GAIN_STEPS: i64 = 220_200_960;

/// Exact rounding of a binary fraction to a multiple of 2^-22: the floor of
/// `significand * 2^(exponent - 150)`, or of its negation, in steps of 2^-22.
pub open spec fn floor_to_steps(negative: bool, significand: nat, exponent: nat) -> int {
    let value: int = if negative {
        -(significand as int)
    } else {
        significand as int
    };
    if exponent >= 128 {
        value * math::power_of_two((exponent - 128) as nat)
    } else {
        value / math::power_of_two((128 - exponent) as nat) as int
    }
}

/// `value` limited to what an `i64` holds.
pub open spec fn saturated(value: int) -> i64 {
    if value > i64::MAX {
        i64::MAX
    } else if value < i64::MIN {
        i64::MIN
    } else {
        value as i64
    }
}

impl Decibels {
    /// The exponent field of the representation.
    pub open spec fn exponent(self) -> nat {
        ((self.bits / 0x80_0000) % 256) as nat
    }

    /// The fraction field of the representation.
    pub open spec fn fraction(self) -> nat {
        (self.bits % 0x80_0000) as nat
    }

    /// Whether the value is not a number.
    pub open spec fn is_nan(self) -> bool {
        self.exponent() == 255 && self.fraction() != 0
    }

    /// Whether the value is zero, of either sign.
    pub open spec fn is_zero(self) -> bool {
        self.exponent() == 0 && self.fraction() == 0
    }

    /// Whether two values are equal: zeros are, whatever their sign, and what is not a number
    /// equals nothing.
    pub open spec fn equals(self, other: Decibels) -> bool {
        !self.is_nan() && !other.is_nan() && (self.bits == other.bits || self.is_zero()
            && other.is_zero())
    }

    /// The value in steps of 2^-22 dB.
    pub open spec fn steps(self) -> GainSteps {
        let negative = self.bits / 0x8000_0000 == 1;
        if self.exponent() == 255 {
            if self.fraction() != 0 {
                GainSteps::NotANumber
            } else if negative {
                GainSteps::Steps(i64::MIN)
            } else {
                GainSteps::Steps(i64::MAX)
            }
        } else if self.exponent() == 0 {
            GainSteps::Steps(saturated(floor_to_steps(negative, self.fraction(), 1)))
        } else {
            GainSteps::Steps(
                saturated(
                    floor_to_steps(negative, self.fraction() + 0x80_0000, self.exponent()),
                ),
            )
        }
    }

    /// The gain whose representation is `bits`.
    pub fn from_bits(bits: u32) -> (gain: Decibels)
        ensures
            gain.bits == bits,
    {
        Decibels { bits }
    }

    /// The value in steps of 2^-22 dB.
    pub fn to_steps(&self) -> (steps: GainSteps)
        ensures
            steps == self.steps(),
    {
        let negative: bool = self.bits / 0x8000_0000 == 1;
        let exponent: u32 = (self.bits / 0x80_0000) % 256;
        let fraction: u32 = self.bits % 0x80_0000;
        if exponent == 255 {
            return if fraction != 0 {
                GainSteps::NotANumber
            } else if negative {
                GainSteps::Steps(i64::MIN)
            } else {
                GainSteps::Steps(i64::MAX)
            };
        }
        let significand: i64 = if exponent == 0 {
            fraction as i64
        } else {
            fraction as i64 + 0x80_0000
        };
        let scale: u32 = if exponent == 0 {
            1
        } else {
            exponent
        };
        let steps: i64 = if scale >= 128 {
            scale_up(negative, significand, scale - 128)
        } else {
            scale_down(negative, significand, 128 - scale)
        };
        GainSteps::Steps(steps)
    }

    /// Whether a manual gain may be programmed: it is between 0 and 52.5 dB.
    pub open spec fn in_range(self) -> bool {
        match self.steps() {
            GainSteps::NotANumber => false,
            GainSteps::Steps(steps) => 0 <= steps <= MAX_GAIN_STEPS,
        }
    }
}

impl PartialEq for Decibels {
    fn eq(&self, other: &Self) -> (equal: bool) {
        let magnitude: u32 = self.bits % 0x8000_0000;
        let other_magnitude: u32 = other.bits % 0x8000_0000;
        magnitude <= 0x7f80_0000 && other_magnitude <= 0x7f80_0000 && (self.bits == other.bits
            || magnitude == 0 && other_magnitude == 0)
    }
}

impl PartialEqSpecImpl for Decibels {
    open spec fn obeys_eq_spec() -> bool {
        true
    }

    open spec fn eq_spec(&self, other: &Self) -> bool {
        self.equals(*other)
    }
}

/// A normal significand times a power of two, or the negation of that.
fn scale_up(negative: bool, significand: i64, shift: u32) -> (steps: i64)
    requires
        0x80_0000 <= significand < 0x100_0000,
        shift <= 126,
    ensures
        steps == saturated(
            (if negative {
                -significand
            } else {
                significand as int
            }) * math::power_of_two(shift as nat),
        ),
{
    let ghost p = math::power_of_two(shift as nat);
    proof {
        math::power_of_two_grows(shift as nat, shift as nat);
        math::power_of_two_adds(24, 15);
        math::power_of_two_adds(24, 16);
        assert(math::power_of_two(16) == 65536 && math::power_of_two(24) == 0x100_0000
            && math::power_of_two(15) == 32768) by {
            reveal_with_fuel(math::power_of_two, 25);
        }
        assert(-significand * p == -(significand * p)) by (nonlinear_arith);
    }
    if shift <= 39 {
        proof {
            math::power_of_two_grows(shift as nat, 39);
            assert(significand * p < 0x100_0000 * 0x80_0000_0000) by (nonlinear_arith)
                requires
                    0 <= significand < 0x100_0000,
                    1 <= p <= 0x80_0000_0000,
            ;
            assert(0 <= significand * p) by (nonlinear_arith)
                requires
                    0 <= significand,
                    1 <= p,
            ;
        }
        let magnitude: i64 = significand * (math::two_to(shift) as i64);
        if negative {
            -magnitude
        } else {
            magnitude
        }
    } else {
        proof {
            math::power_of_two_grows(40, shift as nat);
            assert(significand * p >= 0x80_0000 * 0x100_0000_0000) by (nonlinear_arith)
                requires
                    0x80_0000 <= significand,
                    p >= 0x100_0000_0000,
            ;
        }
        if negative {
            i64::MIN
        } else {
            i64::MAX
        }
    }
}

/// A significand, or its negation, divided by a power of two and rounded down.
fn scale_down(negative: bool, significand: i64, shift: u32) -> (steps: i64)
    requires
        0 <= significand < 0x100_0000,
        1 <= shift <= 127,
    ensures
        steps == saturated(
            (if negative {
                -significand
            } else {
                significand as int
            }) / math::power_of_two(shift as nat) as int,
        ),
{
    let ghost p = math::power_of_two(shift as nat);
    proof {
        math::power_of_two_grows(shift as nat, shift as nat);
    }
    if shift >= 24 {
        proof {
            math::power_of_two_grows(24, shift as nat);
            assert(math::power_of_two(24) == 0x100_0000) by {
                reveal_with_fuel(math::power_of_two, 25);
            }
            let s = significand as int;
            let q = p as int;
            vstd::arithmetic::div_mod::lemma_fundamental_div_mod_converse(s, q, 0, s);
            if s > 0 {
                vstd::arithmetic::div_mod::lemma_fundamental_div_mod_converse(-s, q, -1, q - s);
            } else {
                vstd::arithmetic::div_mod::lemma_fundamental_div_mod_converse(0, q, 0, 0);
            }
        }
        if negative && significand > 0 {
            -1
        } else {
            0
        }
    } else {
        proof {
            math::power_of_two_grows(shift as nat, 24);
            assert(math::power_of_two(24) == 0x100_0000) by {
                reveal_with_fuel(math::power_of_two, 25);
            }
        }
        let divisor: i64 = math::two_to(shift) as i64;
        let whole: i64 = significand / divisor;
        let rest: i64 = significand % divisor;
        proof {
            let s = significand as int;
            let q = p as int;
            vstd::arithmetic::div_mod::lemma_fundamental_div_mod(s, q);
            assert(0 <= whole <= significand) by (nonlinear_arith)
                requires
                    significand == divisor * whole + rest,
                    0 <= rest < divisor,
                    significand >= 0,
                    divisor >= 1,
            ;
            if rest == 0 {
                assert(-s == -whole * q) by (nonlinear_arith)
                    requires
                        s == q * whole,
                ;
                vstd::arithmetic::div_mod::lemma_fundamental_div_mod_converse(-s, q, -whole as int, 0);
            } else {
                assert(-s == (-whole - 1) * q + (q - rest)) by (nonlinear_arith)
                    requires
                        s == q * whole + rest,
                ;
                vstd::arithmetic::div_mod::lemma_fundamental_div_mod_converse(
                    -s,
                    q,
                    -whole - 1,
                    q - rest,
                );
            }
        }
        if !negative {
            whole
        } else if rest == 0 {
            -whole
        } else {
            -whole - 1
        }
    }
}

/// Tuner gain policy. Manual gain is approximate, in steps of 2.3 dB of the LNA and 1.2 dB of the
/// mixer with a fixed VGA setting.
#[derive(Clone, Copy, Debug)]
pub enum GainConfig {
    /// Let the tuner control LNA and mixer gain automatically.
    Auto,
    /// Requested LNA + mixer gain, in `0.0..=52.5` dB.
    Manual(Decibels),
}

impl GainConfig {
    /// Whether two policies are equal: both are automatic, or their gains are equal.
    pub open spec fn equals(self, other: GainConfig) -> bool {
        match (self, other) {
            (GainConfig::Auto, GainConfig::Auto) => true,
            (GainConfig::Manual(gain), GainConfig::Manual(other)) => gain.equals(other),
            _ => false,
        }
    }
}

impl PartialEq for GainConfig {
    fn eq(&self, other: &Self) -> (equal: bool) {
        match (self, other) {
            (GainConfig::Auto, GainConfig::Auto) => true,
            (GainConfig::Manual(gain), GainConfig::Manual(other)) => *gain == *other,
            _ => false,
        }
    }
}

impl PartialEqSpecImpl for GainConfig {
    open spec fn obeys_eq_spec() -> bool {
        true
    }

    open spec fn eq_spec(&self, other: &Self) -> bool {
        self.equals(*other)
    }
}

impl Default for GainConfig {
    fn default() -> (gain: GainConfig)
        ensures
            gain == GainConfig::Auto,
    {
        GainConfig::Auto
    }
}

/// Direct ADC input for frequencies below 28.8 MHz on non-V4 dongles.
/// Requires appropriate board wiring. Blog V4 uses its own upconverter instead.
#[derive(Clone, Copy, Debug, Eq, PartialEq, Structural)]
pub enum DirectSampling {
    /// Use the RF tuner; reject frequencies below its supported range.
    Off,
    /// Use ADC I below 28.8 MHz, automatically returning to the tuner above it.
    I,
    /// Use ADC Q below 28.8 MHz, automatically returning to the tuner above it.
    Q,
}

impl Default for DirectSampling {
    fn default() -> (direct: DirectSampling)
        ensures
            direct == DirectSampling::Off,
    {
        DirectSampling::Off
    }
}

/// Requested receiver settings, not yet validated.
#[derive(Clone, Copy, Debug)]
pub struct Settings {
    /// Center frequency in Hz.
    pub frequency_hz: u64,
    /// Complex samples per second.
    pub sample_rate_hz: u32,
    /// Gain policy.
    pub gain: GainConfig,
    /// Crystal correction in parts per million.
    pub correction_ppm: i32,
    /// Whether RF bias power is requested.
    pub bias_tee: bool,
    /// Low-frequency direct sampling policy.
    pub direct_sampling: DirectSampling,
}

impl Settings {
    /// The settings of a receiver that is not configured otherwise.
    pub open spec fn initial() -> Settings {
        Settings {
            frequency_hz: 100_000_000,
            sample_rate_hz: 2_048_000,
            gain: GainConfig::Auto,
            correction_ppm: 0,
            bias_tee: false,
            direct_sampling: DirectSampling::Off,
        }
    }

    /// Whether two settings are equal in every field.
    pub open spec fn equals(self, other: Settings) -> bool {
        &&& self.frequency_hz == other.frequency_hz
        &&& self.sample_rate_hz == other.sample_rate_hz
        &&& self.gain.equals(other.gain)
        &&& self.correction_ppm == other.correction_ppm
        &&& self.bias_tee == other.bias_tee
        &&& self.direct_sampling == other.direct_sampling
    }

    /// Whether every setting is in its range.
    pub open spec fn valid(self) -> bool {
        &&& 1 <= self.frequency_hz <= 1_766_000_000
        &&& 900_001 <= self.sample_rate_hz <= 3_200_000
        &&& self.gain is Manual ==> self.gain->Manual_0.in_range()
        &&& -488 <= self.correction_ppm <= 488
    }

    /// The verdict on the settings: the first one that is out of range is reported.
    pub open spec fn verdict(self) -> Result<()> {
        if !(1 <= self.frequency_hz <= 1_766_000_000) {
            Err(
                Error::InvalidConfig {
                    field: "frequency_hz",
                    reason:
                        "must be in 1..=1766000000; the actual minimum depends on the tuner and direct sampling",
                },
            )
        } else if !(900_001 <= self.sample_rate_hz <= 3_200_000) {
            Err(
                Error::InvalidConfig {
                    field: "sample_rate_hz",
                    reason: "must be in 900001..=3200000 samples/s",
                },
            )
        } else if self.gain is Manual && !self.gain->Manual_0.in_range() {
            Err(
                Error::InvalidConfig {
                    field: "gain",
                    reason: "manual gain must be finite and in 0..=52.5 dB",
                },
            )
        } else if !(-488 <= self.correction_ppm <= 488) {
            Err(
                Error::InvalidConfig {
                    field: "correction_ppm",
                    reason: "must be in -488..=488 for the signed 14-bit correction register",
                },
            )
        } else {
            Ok(())
        }
    }

    /// Check that every setting is in its range.
    pub fn validate(&self) -> (verdict: Result<()>)
        ensures
            verdict == self.verdict(),
            verdict is Ok <==> self.valid(),
    {
        if self.frequency_hz < 1 || self.frequency_hz > 1_766_000_000 {
            return Err(
                Error::invalid_config(
                    "frequency_hz",
                    "must be in 1..=1766000000; the actual minimum depends on the tuner and direct sampling",
                ),
            );
        }
        if self.sample_rate_hz < 900_001 || self.sample_rate_hz > 3_200_000 {
            return Err(
                Error::invalid_config("sample_rate_hz", "must be in 900001..=3200000 samples/s"),
            );
        }
        if let GainConfig::Manual(gain) = self.gain {
            let in_range: bool = match gain.to_steps() {
                GainSteps::NotANumber => false,
                GainSteps::Steps(steps) => 0 <= steps && steps <= MAX_GAIN_STEPS,
            };
            if !in_range {
                return Err(
                    Error::invalid_config("gain", "manual gain must be finite and in 0..=52.5 dB"),
                );
            }
        }
        if self.correction_ppm < -488 || self.correction_ppm > 488 {
            return Err(
                Error::invalid_config(
                    "correction_ppm",
                    "must be in -488..=488 for the signed 14-bit correction register",
                ),
            );
        }
        Ok(())
    }
}

impl PartialEq for Settings {
    fn eq(&self, other: &Self) -> (equal: bool) {
        self.frequency_hz == other.frequency_hz && self.sample_rate_hz == other.sample_rate_hz
            && self.gain == other.gain && self.correction_ppm == other.correction_ppm
            && self.bias_tee == other.bias_tee && self.direct_sampling == other.direct_sampling
    }
}

impl PartialEqSpecImpl for Settings {
    open spec fn obeys_eq_spec() -> bool {
        true
    }

    open spec fn eq_spec(&self, other: &Self) -> bool {
        self.equals(*other)
    }
}

impl Default for Settings {
    fn default() -> (settings: Settings)
        ensures
            settings == Settings::initial(),
            settings.valid(),
    {
        Settings {
            frequency_hz: 100_000_000,
            sample_rate_hz: 2_048_000,
            gain: GainConfig::Auto,
            correction_ppm: 0,
            bias_tee: false,
            direct_sampling: DirectSampling::Off,
        }
    }
}

/// Complete, statically validated receiver configuration.
///
/// Device-dependent frequency validation happens during open/configuration.
/// The first release supports sample rates in `900001..=3200000` samples/s;
/// rates above 2.4 MS/s may lose samples depending on the host and receiver.
#[derive(Debug)]
pub struct Config<M: SampleMode = F32Iq> {
    settings: Settings,
    mode: PhantomData<M>,
}

impl<M: SampleMode> Copy for Config<M> {

}

impl<M: SampleMode> Clone for Config<M> {
    fn clone(&self) -> (config: Self)
        ensures
            config == *self,
    {
        *self
    }
}

impl<M: SampleMode> View for Config<M> {
    type V = Settings;

    closed spec fn view(&self) -> Settings {
        self.settings
    }
}

impl<M: SampleMode> Default for Config<M> {
    fn default() -> (config: Self)
        ensures
            config@ == Settings::initial(),
    {
        Config { settings: Settings::default(), mode: PhantomData }
    }
}

impl<M: SampleMode> PartialEq for Config<M> {
    fn eq(&self, other: &Self) -> (equal: bool) {
        self.settings == other.settings
    }
}

impl<M: SampleMode> PartialEqSpecImpl for Config<M> {
    open spec fn obeys_eq_spec() -> bool {
        true
    }

    open spec fn eq_spec(&self, other: &Self) -> bool {
        self@.equals(other@)
    }
}

impl Config<F32Iq> {
    /// Start building a configuration without touching hardware.
    pub fn builder() -> (builder: ConfigBuilder<F32Iq>)
        ensures
            builder@ == Settings::initial(),
    {
        ConfigBuilder::default()
    }
}

impl<M: SampleMode> Config<M> {
    #[verifier::type_invariant]
    spec fn validated(self) -> bool {
        self.settings.valid()
    }

    /// Every configuration is valid.
    pub fn settings(&self) -> (settings: Settings)
        ensures
            settings == self@,
            settings.valid(),
    {
        proof {
            use_type_invariant(*self);
        }
        self.settings
    }

    /// A configuration with the given settings, if they are valid.
    pub fn from_settings(settings: Settings) -> (config: Result<Self>)
        ensures
            match config {
                Ok(config) => settings.valid() && config@ == settings,
                Err(error) => settings.verdict() == Err::<(), Error>(error),
            },
    {
        settings.validate()?;
        Ok(Config { settings, mode: PhantomData })
    }

    /// Requested center frequency in Hz.
    pub fn frequency_hz(&self) -> (hz: u64)
        ensures
            hz == self@.frequency_hz,
    {
        self.settings.frequency_hz
    }

    /// Requested complex sample rate in samples/s.
    pub fn sample_rate_hz(&self) -> (rate: u32)
        ensures
            rate == self@.sample_rate_hz,
    {
        self.settings.sample_rate_hz
    }

    /// Selected sample representation.
    pub fn sample_format(&self) -> (format: SampleFormat)
        ensures
            format == M::FORMAT,
    {
        M::FORMAT
    }

    /// Gain policy.
    pub fn gain(&self) -> (gain: GainConfig)
        ensures
            gain == self@.gain,
    {
        self.settings.gain
    }

    /// Crystal correction in parts per million.
    pub fn correction_ppm(&self) -> (ppm: i32)
        ensures
            ppm == self@.correction_ppm,
    {
        self.settings.correction_ppm
    }

    /// Whether RF bias power is requested.
    pub fn bias_tee(&self) -> (enabled: bool)
        ensures
            enabled == self@.bias_tee,
    {
        self.settings.bias_tee
    }

    /// Low-frequency direct sampling policy.
    pub fn direct_sampling(&self) -> (direct: DirectSampling)
        ensures
            direct == self@.direct_sampling,
    {
        self.settings.direct_sampling
    }
}

/// Builder for reusable receiver configurations.
#[derive(Debug)]
pub struct ConfigBuilder<M: SampleMode = F32Iq> {
    settings: Settings,
    mode: PhantomData<M>,
}

impl<M: SampleMode> Copy for ConfigBuilder<M> {

}

impl<M: SampleMode> Clone for ConfigBuilder<M> {
    fn clone(&self) -> (builder: Self)
        ensures
            builder == *self,
    {
        *self
    }
}

impl<M: SampleMode> View for ConfigBuilder<M> {
    type V = Settings;

    closed spec fn view(&self) -> Settings {
        self.settings
    }
}

impl Default for ConfigBuilder<F32Iq> {
    fn default() -> (builder: Self)
        ensures
            builder@ == Settings::initial(),
    {
        ConfigBuilder { settings: Settings::default(), mode: PhantomData }
    }
}

impl<M: SampleMode> ConfigBuilder<M> {
    /// Set center frequency in Hz (hardware-specific limits are checked on open).
    pub fn frequency_hz(self, value: u64) -> (builder: Self)
        ensures
            builder@ == (Settings { frequency_hz: value, ..self@ }),
    {
        ConfigBuilder {
            settings: Settings { frequency_hz: value, ..self.settings },
            mode: PhantomData,
        }
    }

    /// Set the sample rate in `900001..=3200000` complex samples/s.
    pub fn sample_rate_hz(self, value: u32) -> (builder: Self)
        ensures
            builder@ == (Settings { sample_rate_hz: value, ..self@ }),
    {
        ConfigBuilder {
            settings: Settings { sample_rate_hz: value, ..self.settings },
            mode: PhantomData,
        }
    }

    /// Set tuner gain policy.
    pub fn gain(self, value: GainConfig) -> (builder: Self)
        ensures
            builder@ == (Settings { gain: value, ..self@ }),
    {
        ConfigBuilder { settings: Settings { gain: value, ..self.settings }, mode: PhantomData }
    }

    /// Set crystal correction in parts per million.
    pub fn correction_ppm(self, value: i32) -> (builder: Self)
        ensures
            builder@ == (Settings { correction_ppm: value, ..self@ }),
    {
        ConfigBuilder {
            settings: Settings { correction_ppm: value, ..self.settings },
            mode: PhantomData,
        }
    }

    /// Enable or disable GPIO 0 RF bias power (off by default).
    pub fn bias_tee(self, value: bool) -> (builder: Self)
        ensures
            builder@ == (Settings { bias_tee: value, ..self@ }),
    {
        ConfigBuilder { settings: Settings { bias_tee: value, ..self.settings }, mode: PhantomData }
    }

    /// Select automatic low-frequency direct sampling behavior.
    pub fn direct_sampling(self, value: DirectSampling) -> (builder: Self)
        ensures
            builder@ == (Settings { direct_sampling: value, ..self@ }),
    {
        ConfigBuilder {
            settings: Settings { direct_sampling: value, ..self.settings },
            mode: PhantomData,
        }
    }

    /// Validate and build the configuration.
    pub fn build(self) -> (config: Result<Config<M>>)
        ensures
            match config {
                Ok(config) => self@.valid() && config@ == self@,
                Err(error) => self@.verdict() == Err::<(), Error>(error),
            },
    {
        Config::from_settings(self.settings)
    }
}

impl ConfigBuilder<F32Iq> {
    /// Deliver raw unsigned eight-bit I/Q blocks instead of complex floats.
    pub fn raw_iq(self) -> (builder: ConfigBuilder<RawIq>)
        ensures
            builder@ == self@,
    {
        ConfigBuilder { settings: self.settings, mode: PhantomData }
    }
}

/// Settings are accepted exactly if each is in its range, and whether the sample rate is in range
/// does not depend on the crystal correction.
pub proof fn ranges_are_independent(settings: Settings, ppm: i32)
    requires
        -488 <= ppm <= 488,
        -488 <= settings.correction_ppm <= 488,
    ensures
        settings.verdict() is Ok <==> settings.valid(),
        (Settings { correction_ppm: ppm, ..settings }).verdict() is Ok
            <==> settings.verdict() is Ok,
{
}

/// Each sample mode has the format of its name.
pub proof fn formats_are_named_after_their_modes()
    ensures
        RawIq::FORMAT == SampleFormat::RawIq,
        F32Iq::FORMAT == SampleFormat::F32Iq,
{
}

} // verus!
