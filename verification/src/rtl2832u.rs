//! Demodulator initialization and complete hardware configuration.

pub mod bring_up;
pub mod causality;
pub mod laws;
pub mod programming;

use crate::config::{DirectSampling, GainConfig, Settings};
use crate::discovery::DeviceDescriptor;
use crate::errors::{Error, Result};
use crate::protocol::{Com, Halt, Line, Outcome, Run};
use crate::tuners;
use crate::tuners::registers::{RegisterTables, Tables};
use crate::tuners::{Tuner, TunerKind, TunerState, IF_HZ, XTAL_HZ};
use vstd::prelude::*;

verus! {

/// Demodulator registers to write: page, register, value and width.
pub type DemodRows = Seq<(u8, u8, u16, usize)>;

/// Writes that initialize the demodulator.
pub open spec fn demod_init_rows() -> DemodRows {
    seq![
        (1, 1, 20, 1),
        (1, 1, 16, 1),
        (1, 21, 0, 1),
        (1, 22, 0, 1),
        (1, 23, 0, 1),
        (1, 24, 0, 1),
        (1, 25, 0, 1),
        (1, 26, 0, 1),
        (1, 27, 0, 1),
        (1, 28, 202, 1),
        (1, 29, 220, 1),
        (1, 30, 215, 1),
        (1, 31, 216, 1),
        (1, 32, 224, 1),
        (1, 33, 242, 1),
        (1, 34, 14, 1),
        (1, 35, 53, 1),
        (1, 36, 6, 1),
        (1, 37, 80, 1),
        (1, 38, 156, 1),
        (1, 39, 13, 1),
        (1, 40, 113, 1),
        (1, 41, 17, 1),
        (1, 42, 20, 1),
        (1, 43, 113, 1),
        (1, 44, 116, 1),
        (1, 45, 25, 1),
        (1, 46, 65, 1),
        (1, 47, 165, 1),
        (0, 25, 5, 1),
        (1, 147, 240, 1),
        (1, 148, 15, 1),
        (1, 17, 0, 1),
        (1, 4, 0, 1),
        (0, 97, 96, 1),
        (0, 6, 128, 1),
        (1, 177, 27, 1),
        (0, 13, 131, 1),
    ]
}

/// Values quantized to the receiver's integer dividers.
#[derive(Clone, Copy, Debug, Default, Eq, PartialEq, Structural)]
pub struct Applied {
    /// Center frequency in Hz.
    pub frequency_hz: u64,
    /// Complex samples per second.
    pub sample_rate_hz: u32,
}

/// What is known of the hardware.
#[derive(Clone, Copy, Debug)]
pub struct Hardware {
    /// The detected tuner.
    pub tuner: Option<Tuner>,
    /// Whether the last configuration was applied completely.
    pub valid: bool,
    /// Whether the receive endpoint was switched on.
    pub receiving: bool,
    /// Whether the tuner is bypassed.
    pub direct: bool,
}

/// The content of [`Hardware`].
#[verifier::ext_equal]
pub struct HardwareState {
    /// The detected tuner.
    pub tuner: Option<TunerState>,
    /// Whether the last configuration was applied completely.
    pub valid: bool,
    /// Whether the receive endpoint was switched on.
    pub receiving: bool,
    /// Whether the tuner is bypassed.
    pub direct: bool,
}

impl View for Hardware {
    type V = HardwareState;

    open spec fn view(&self) -> HardwareState {
        HardwareState {
            tuner: match self.tuner {
                Some(tuner) => Some(tuner@),
                None => None,
            },
            valid: self.valid,
            receiving: self.receiving,
            direct: self.direct,
        }
    }
}

/// Crystal frequency after a correction in parts per million, rounded toward zero. A correction
/// below -1000000 ppm gives a negative frequency, which wraps around.
pub open spec fn corrected(ppm: i32) -> u64 {
    let parts = 1_000_000 + ppm;
    if parts >= 0 {
        (XTAL_HZ * parts / 1_000_000) as u64
    } else {
        ((0x1_0000_0000_0000_0000 - XTAL_HZ * -parts / 1_000_000) % 0x1_0000_0000_0000_0000) as u64
    }
}

/// Sampling correction register value: the negated correction in steps of 2^-24, rounded up, in
/// 14-bit two's complement.
pub open spec fn correction(ppm: i32) -> u16 {
    (-(ppm * 0x100_0000 / 1_000_000) % 0x4000) as u16
}

/// The crystal frequency in the resampler's 22-bit fixed point.
pub open spec fn scaled_crystal() -> nat {
    28_800_000 * 0x40_0000
}

/// Resampler ratio for a sample rate: 28 bits, of which the lowest two are zero.
pub open spec fn resampler_ratio(rate: u32) -> u32 {
    (scaled_crystal() / rate as nat % 0x1000_0000 / 4 * 4) as u32
}

/// The sample rate that a resampler ratio gives, in 32 bits.
pub open spec fn resampled_rate(ratio: u32) -> u32 {
    (scaled_crystal() / ratio as nat % 0x1_0000_0000) as u32
}

/// A frequency in 22-bit fixed point, in 64 bits.
pub open spec fn scaled(hz: u64) -> nat {
    (hz % 0x400_0000_0000) as nat * 0x40_0000
}

/// Intermediate frequency register value: the negated fraction of the crystal frequency in steps
/// of 2^-22, rounded down, in 22-bit two's complement.
pub open spec fn if_register(hz: u64, crystal: u64) -> u32 {
    (-((scaled(hz) / crystal as nat) as int) % 0x40_0000) as u32
}

/// The frequency that the intermediate frequency register stands for.
pub open spec fn if_quantized(hz: u64, crystal: u64) -> u64 {
    (scaled(hz) / crystal as nat * crystal as nat / 0x40_0000) as u64
}

/// Writes that route the ADC inputs past the tuner.
pub open spec fn direct_rows(settings: Settings) -> DemodRows {
    seq![
        (1, 0xb1, 0x1a, 1),
        (0, 0x08, 0xcd, 1),
        (1, 0x15, 0, 1),
        (
            0,
            0x06,
            if settings.direct_sampling == DirectSampling::I {
                0x80
            } else {
                0x90
            },
            1,
        ),
        (
            0,
            0x19,
            if settings.gain is Auto {
                0x25
            } else {
                5
            },
            1,
        ),
    ]
}

/// Writes that route the tuner's intermediate frequency.
pub open spec fn tuner_rows() -> DemodRows {
    seq![
        (1, 0xb1, 0x1a, 1),
        (0, 0x08, 0x4d, 1),
        (1, 0x15, 1, 1),
        (0, 0x06, 0x80, 1),
        (0, 0x19, 5, 1),
    ]
}

/// Writes that set sampling correction and sample rate.
pub open spec fn rate_rows(settings: Settings) -> DemodRows {
    let word = correction(settings.correction_ppm);
    let ratio = resampler_ratio(settings.sample_rate_hz);
    seq![
        (1, 0x3e, word / 256, 1),
        (1, 0x3f, word % 256, 1),
        (1, 0x9f, (ratio / 0x1_0000) as u16, 2),
        (1, 0xa1, (ratio % 0x1_0000) as u16, 2),
    ]
}

/// Writes that set the intermediate frequency and reset the demodulator.
pub open spec fn if_rows(word: u32) -> DemodRows {
    seq![
        (1, 0x19, (word / 0x1_0000) as u16, 1),
        (1, 0x1a, (word / 256 % 256) as u16, 1),
        (1, 0x1b, (word % 256) as u16, 1),
        (1, 1, 0x14, 1),
        (1, 1, 0x10, 1),
    ]
}

/// Whether settings bypass the tuner.
pub open spec fn bypasses(settings: Settings) -> bool {
    settings.frequency_hz < XTAL_HZ && settings.direct_sampling != DirectSampling::Off
}

/// The verdict on settings for a board.
pub open spec fn board_verdict(settings: Settings, blog_v4: bool) -> Result<()> {
    if settings.verdict() is Err {
        settings.verdict()
    } else if settings.frequency_hz < XTAL_HZ && settings.direct_sampling == DirectSampling::Off
        && !blog_v4 {
        Err(
            Error::InvalidConfig {
                field: "frequency_hz",
                reason: "below 28.8 MHz requires Blog V4 or direct sampling",
            },
        )
    } else if blog_v4 && settings.direct_sampling != DirectSampling::Off {
        Err(
            Error::InvalidConfig {
                field: "direct_sampling",
                reason: "Blog V4 uses its upconverter; select Off",
            },
        )
    } else {
        Ok(())
    }
}

impl Line {
    /// Set up the USB block and power the demodulator.
    #[verifier::opaque]
    pub open spec fn power_up(self) -> Run<(), ()> {
        let control = self.usb_u8(0x2000, 0x09);
        match control.outcome {
            Ok(_) => {
                let packet = control.line.usb_u16(0x2158, 0x0200);
                match packet.outcome {
                    Ok(_) => {
                        let off = packet.line.receiver(false);
                        match off.outcome {
                            Ok(_) => {
                                let power = off.line.sys_write(0x300b, 0x22);
                                match power.outcome {
                                    Ok(_) => power.line.sys_write(0x3000, 0xe8),
                                    Err(_) => power,
                                }
                            },
                            Err(_) => off,
                        }
                    },
                    Err(_) => packet,
                }
            },
            Err(_) => control,
        }
    }

    /// Initialize the demodulator and find the tuner behind it.
    #[verifier::opaque]
    pub open spec fn bring_up(self, blog_v4: bool) -> Run<(), TunerKind> {
        let powered = self.power_up();
        match powered.outcome {
            Ok(_) => powered.line.find_tuner(blog_v4),
            Err(_) => powered.halted(),
        }
    }

    /// Initialize the powered demodulator and find the tuner behind it. A Blog V4 has an R828D.
    #[verifier::opaque]
    pub open spec fn find_tuner(self, blog_v4: bool) -> Run<(), TunerKind> {
        let set = self.demod_all(demod_init_rows());
        match set.outcome {
            Ok(_) => {
                let gate = set.line.i2c_gate(true);
                match gate.outcome {
                    Ok(_) => {
                        let detected = gate.line.detect();
                        match detected.outcome {
                            Ok(kind) => if blog_v4 && kind != TunerKind::R828D {
                                Run::failed((), detected.line, Error::UnsupportedTuner)
                            } else {
                                detected
                            },
                            Err(_) => detected,
                        }
                    },
                    Err(_) => gate.halted(),
                }
            },
            Err(_) => set.halted(),
        }
    }

    /// Set the intermediate frequency and the bias power, and let a running receiver go on.
    #[verifier::opaque]
    pub open spec fn settle(self, word: u32, bias_tee: bool, resume: bool) -> Run<(), ()> {
        let tuned = self.demod_all(if_rows(word));
        match tuned.outcome {
            Ok(_) => {
                let bias = tuned.line.gpio(0, bias_tee);
                match bias.outcome {
                    Ok(_) => if resume {
                        bias.line.receiver(true)
                    } else {
                        bias
                    },
                    Err(_) => bias,
                }
            },
            Err(_) => tuned,
        }
    }
}

impl TunerState {
    /// Bypass the tuner, powering it down unless it was bypassed before.
    #[verifier::opaque]
    pub open spec fn bypass(
        self,
        line: Line,
        bypassed: bool,
        settings: Settings,
        tables: Tables,
    ) -> Run<TunerState, ()> {
        let parked = if bypassed {
            Run::done(self, line, ())
        } else {
            self.standby(line, tables.standby)
        };
        match parked.outcome {
            Ok(_) => parked.line.demod_all(direct_rows(settings)).with(parked.state),
            Err(_) => parked,
        }
    }

    /// Receive through the tuner.
    #[verifier::opaque]
    pub open spec fn engage(self, line: Line, settings: Settings) -> Run<TunerState, ()> {
        let routed = line.demod_all(tuner_rows());
        match routed.outcome {
            Ok(_) => self.set_gain(routed.line, settings.gain),
            Err(_) => routed.with(self),
        }
    }

    /// Open the I2C repeater and initialize the tuner if asked to.
    #[verifier::opaque]
    pub open spec fn awaken(self, line: Line, open: bool, tables: Tables) -> Run<TunerState, ()> {
        let gate = line.i2c_gate(true);
        match gate.outcome {
            Ok(_) => if open {
                self.open(gate.line, tables)
            } else {
                gate.with(self)
            },
            Err(_) => gate.with(self),
        }
    }

    /// Select the signal path.
    #[verifier::opaque]
    pub open spec fn route(
        self,
        line: Line,
        bypassed: bool,
        reinitialize: bool,
        settings: Settings,
        tables: Tables,
    ) -> Run<TunerState, ()> {
        let direct = bypasses(settings);
        let awake = self.awaken(line, reinitialize || (bypassed && !direct), tables);
        match awake.outcome {
            Ok(_) => if direct {
                awake.state.bypass(awake.line, bypassed, settings, tables)
            } else {
                awake.state.engage(awake.line, settings)
            },
            Err(_) => awake,
        }
    }

    /// Tune to the requested frequency, unless the tuner is bypassed.
    pub open spec fn center(self, line: Line, settings: Settings, tables: Tables) -> Run<
        TunerState,
        u64,
    > {
        if bypasses(settings) {
            Run::done(self, line, settings.frequency_hz)
        } else {
            self.tune(line, settings.frequency_hz, tables)
        }
    }
}

impl HardwareState {
    /// Hardware of which nothing is known.
    pub open spec fn unknown() -> HardwareState {
        HardwareState { tuner: None, valid: false, receiving: false, direct: false }
    }

    /// The same hardware with another state of its tuner.
    pub open spec fn with_tuner(self, tuner: TunerState) -> HardwareState {
        HardwareState { tuner: Some(tuner), ..self }
    }

    /// Bring the hardware up and find its tuner.
    #[verifier::opaque]
    pub open spec fn reinitialize(self, line: Line, blog_v4: bool, tables: Tables) -> Run<
        HardwareState,
        (),
    > {
        let up = line.bring_up(blog_v4);
        match up.outcome {
            Ok(kind) => Run::done(
                HardwareState {
                    tuner: Some(TunerState::initial(kind, blog_v4, tables)),
                    direct: false,
                    ..self
                },
                up.line,
                (),
            ),
            Err(halt) => Run { state: self, line: up.line, outcome: Err(halt) },
        }
    }

    /// Apply settings to the tuner and the demodulator.
    #[verifier::opaque]
    pub open spec fn apply(
        self,
        line: Line,
        tuner: TunerState,
        reinitialize: bool,
        settings: Settings,
        tables: Tables,
    ) -> Run<HardwareState, Applied> {
        let crystal = corrected(settings.correction_ppm);
        let routed = TunerState { crystal_hz: crystal, ..tuner }.route(
            line,
            self.direct,
            reinitialize,
            settings,
            tables,
        );
        match routed.outcome {
            Ok(_) => HardwareState {
                tuner: Some(routed.state),
                direct: bypasses(settings),
                ..self
            }.program(
                routed.line,
                routed.state,
                reinitialize,
                settings,
                tables,
            ),
            Err(halt) => Run {
                state: self.with_tuner(routed.state),
                line: routed.line,
                outcome: Err(halt),
            },
        }
    }

    /// Program rates and frequencies on the selected signal path.
    #[verifier::opaque]
    pub open spec fn program(
        self,
        line: Line,
        tuner: TunerState,
        reinitialize: bool,
        settings: Settings,
        tables: Tables,
    ) -> Run<HardwareState, Applied> {
        let crystal = corrected(settings.correction_ppm);
        let rates = line.demod_all(rate_rows(settings));
        match rates.outcome {
            Ok(_) => {
                let centered = tuner.center(rates.line, settings, tables);
                match centered.outcome {
                    Ok(frequency_hz) => {
                        let settled = centered.line.settle(
                            if_register(
                                if bypasses(settings) {
                                    settings.frequency_hz
                                } else {
                                    IF_HZ
                                },
                                crystal,
                            ),
                            settings.bias_tee,
                            reinitialize && self.receiving,
                        );
                        Run {
                            state: self.with_tuner(centered.state),
                            line: settled.line,
                            outcome: match settled.outcome {
                                Ok(_) => Ok(
                                    Applied {
                                        frequency_hz: if bypasses(settings) {
                                            if_quantized(settings.frequency_hz, crystal)
                                        } else {
                                            frequency_hz
                                        },
                                        sample_rate_hz: resampled_rate(
                                            resampler_ratio(settings.sample_rate_hz),
                                        ),
                                    },
                                ),
                                Err(halt) => Err(halt),
                            },
                        }
                    },
                    Err(halt) => Run {
                        state: self.with_tuner(centered.state),
                        line: centered.line,
                        outcome: Err(halt),
                    },
                }
            },
            Err(halt) => Run {
                state: self.with_tuner(tuner),
                line: rates.line,
                outcome: Err(halt),
            },
        }
    }

    /// Configure the hardware with the I2C repeater left open. `reinitialize` brings it up first.
    #[verifier::opaque]
    pub open spec fn configure_inner(
        self,
        line: Line,
        settings: Settings,
        blog_v4: bool,
        reinitialize: bool,
        tables: Tables,
    ) -> Run<HardwareState, Applied> {
        let ready = if reinitialize {
            self.reinitialize(line, blog_v4, tables)
        } else {
            Run::done(self, line, ())
        };
        match ready.outcome {
            Ok(_) => match ready.state.tuner {
                Some(tuner) => ready.state.apply(
                    ready.line,
                    tuner,
                    reinitialize,
                    settings,
                    tables,
                ),
                None => Run::failed(ready.state, ready.line, Error::UnsupportedTuner),
            },
            Err(_) => ready.halted(),
        }
    }

    /// Apply settings completely. The I2C repeater is closed also if they cannot be applied, and
    /// only a complete configuration leaves the hardware valid.
    pub open spec fn configure(
        self,
        line: Line,
        settings: Settings,
        blog_v4: bool,
        tables: Tables,
    ) -> Run<HardwareState, Applied> {
        if board_verdict(settings, blog_v4) is Err {
            Run::failed(self, line, board_verdict(settings, blog_v4)->Err_0)
        } else {
            let inner = HardwareState { valid: false, ..self }.configure_inner(
                line,
                settings,
                blog_v4,
                !self.valid,
                tables,
            );
            if inner.waits() {
                inner
            } else {
                let close = inner.line.i2c_gate(false);
                if close.waits() || inner.outcome is Ok && close.outcome is Err {
                    Run { state: inner.state, line: close.line, outcome: Err(close.outcome->Err_0) }
                } else {
                    Run {
                        state: HardwareState { valid: inner.outcome is Ok, ..inner.state },
                        line: close.line,
                        outcome: inner.outcome,
                    }
                }
            }
        }
    }

    /// Power the tuner down, if there is one that can be reached.
    #[verifier::opaque]
    pub open spec fn park(self, line: Line, tables: Tables) -> Run<HardwareState, ()> {
        match self.tuner {
            Some(tuner) => {
                let gate = line.i2c_gate(true);
                match gate.outcome {
                    Ok(_) => {
                        let run = tuner.standby(gate.line, tables.standby);
                        run.with(self.with_tuner(run.state))
                    },
                    Err(_) => gate.with(self),
                }
            },
            None => Run::done(self, line, ()),
        }
    }

    /// Switch everything off. Every step is tried, and the first failure is reported after all of
    /// them.
    pub open spec fn shutdown(self, line: Line, tables: Tables) -> Run<HardwareState, ()> {
        let off = line.receiver(false);
        if off.waits() {
            off.with(self)
        } else {
            let quiet = HardwareState { receiving: false, ..self };
            let bias = off.line.gpio(0, false);
            if bias.waits() {
                bias.with(quiet)
            } else {
                let parked = quiet.park(bias.line, tables);
                if parked.waits() {
                    parked
                } else {
                    let cut = parked.line.cut_power();
                    let result = first_failure(
                        first_failure(off.outcome, bias.outcome),
                        first_failure(parked.outcome, cut.outcome),
                    );
                    if cut.waits() {
                        cut.with(parked.state)
                    } else {
                        Run {
                            state: HardwareState { valid: false, ..parked.state },
                            line: cut.line,
                            outcome: result,
                        }
                    }
                }
            }
        }
    }
}

/// The first of two failures, if there is one.
pub open spec fn first_failure(first: Outcome<()>, second: Outcome<()>) -> Outcome<()> {
    if first is Err {
        first
    } else {
        second
    }
}

impl Line {
    /// Close the I2C repeater, then switch ADCs and PLL off with the demodulator's reset released.
    #[verifier::opaque]
    pub open spec fn cut_power(self) -> Run<(), ()> {
        let gate = self.i2c_gate(false);
        if gate.waits() {
            gate
        } else {
            let power = gate.line.sys_write(0x3000, 0x20);
            if power.waits() {
                power
            } else {
                Run {
                    state: (),
                    line: power.line,
                    outcome: first_failure(gate.outcome, power.outcome),
                }
            }
        }
    }
}

/// Crystal frequency after a correction in parts per million.
pub fn corrected_crystal(ppm: i32) -> (hz: u64)
    ensures
        hz == corrected(ppm),
{
    let parts: i64 = 1_000_000 + ppm as i64;
    if parts >= 0 {
        XTAL_HZ * (parts as u64) / 1_000_000
    } else {
        let below: u64 = XTAL_HZ * ((-parts) as u64) / 1_000_000;
        0u64.wrapping_sub(below)
    }
}

/// Sampling correction register value.
pub fn correction_word(ppm: i32) -> (word: u16)
    ensures
        word == correction(ppm),
        word < 0x4000,
{
    let product: i64 = ppm as i64 * 0x100_0000;
    if product >= 0 {
        let steps: i64 = product / 1_000_000;
        let rest: i64 = steps % 0x4000;
        if rest == 0 {
            0
        } else {
            (0x4000 - rest) as u16
        }
    } else {
        let steps: i64 = (-product + 999_999) / 1_000_000;
        (steps % 0x4000) as u16
    }
}

/// Resampler ratio for a sample rate, and the sample rate that it gives.
pub fn sample_rate(rate: u32) -> (result: (u32, u32))
    requires
        rate != 0,
        resampler_ratio(rate) != 0,
    ensures
        result == (resampler_ratio(rate), resampled_rate(resampler_ratio(rate))),
{
    let scaled: u64 = 120_795_955_200_000;
    let ratio: u32 = (scaled / (rate as u64) % 0x1000_0000 / 4 * 4) as u32;
    (ratio, (scaled / (ratio as u64) % 0x1_0000_0000) as u32)
}

/// A frequency in 22-bit fixed point, in 64 bits.
fn scale(hz: u64) -> (result: u64)
    ensures
        result == scaled(hz),
{
    hz % 0x400_0000_0000 * 0x40_0000
}

/// Intermediate frequency register value.
pub fn if_word(hz: u64, crystal: u64) -> (word: u32)
    requires
        crystal != 0,
    ensures
        word == if_register(hz, crystal),
        word < 0x40_0000,
{
    let steps: u64 = scale(hz) / crystal;
    let rest: u64 = steps % 0x40_0000;
    if rest == 0 {
        0
    } else {
        (0x40_0000 - rest) as u32
    }
}

impl Default for Hardware {
    fn default() -> (hardware: Hardware)
        ensures
            hardware@ == HardwareState::unknown(),
    {
        Hardware { tuner: None, valid: false, receiving: false, direct: false }
    }
}

impl Hardware {
    /// Check that settings are in range and possible on the board.
    pub fn validate_device(&self, config: &Settings, descriptor: &DeviceDescriptor) -> (verdict:
        Result<()>)
        ensures
            verdict == board_verdict(*config, descriptor@.blog_v4()),
    {
        config.validate()?;
        let blog_v4: bool = descriptor.blog_v4();
        if config.frequency_hz < XTAL_HZ && config.direct_sampling == DirectSampling::Off
            && !blog_v4 {
            return Err(
                Error::invalid_config(
                    "frequency_hz",
                    "below 28.8 MHz requires Blog V4 or direct sampling",
                ),
            );
        }
        if blog_v4 && config.direct_sampling != DirectSampling::Off {
            return Err(
                Error::invalid_config(
                    "direct_sampling",
                    "Blog V4 uses its upconverter; select Off",
                ),
            );
        }
        Ok(())
    }

    /// Apply settings completely.
    ///
    /// A run that waits leaves the hardware invalid, so that dropping it makes the next
    /// configuration a complete one.
    pub fn configure(
        &mut self,
        com: &mut Com<'_>,
        config: &Settings,
        descriptor: &DeviceDescriptor,
        tables: &RegisterTables,
    ) -> (outcome: Outcome<Applied>)
        ensures
            old(self)@.configure(old(com)@, *config, descriptor@.blog_v4(), tables@) == (Run {
                state: final(self)@,
                line: final(com)@,
                outcome,
            }),
    {
        match self.validate_device(config, descriptor) {
            Ok(_) => {},
            Err(error) => return Err(Halt::Failed(error)),
        }
        let was_valid: bool = self.valid;
        self.valid = false;
        let result: Outcome<Applied> = self.configure_inner(
            com,
            config,
            descriptor.blog_v4(),
            !was_valid,
            tables,
        );
        if let Err(Halt::Waiting) = &result {
            return result;
        }
        // Always close the repeater on returned errors.
        let close: Outcome<()> = com.i2c_gate(false);
        match close {
            Ok(_) => {},
            Err(Halt::Waiting) => return Err(Halt::Waiting),
            Err(halt) => if result.is_ok() {
                return Err(halt);
            },
        }
        self.valid = result.is_ok();
        result
    }

    /// Configure the hardware with the I2C repeater left open. `reinitialize` brings it up first.
    fn configure_inner(
        &mut self,
        com: &mut Com<'_>,
        config: &Settings,
        blog_v4: bool,
        reinitialize: bool,
        tables: &RegisterTables,
    ) -> (outcome: Outcome<Applied>)
        requires
            config.valid(),
        ensures
            old(self)@.configure_inner(old(com)@, *config, blog_v4, reinitialize, tables@) == (
            Run { state: final(self)@, line: final(com)@, outcome }),
    {
        proof {
            reveal(HardwareState::configure_inner);
            reveal(HardwareState::reinitialize);
        }
        if reinitialize {
            let kind: TunerKind = bring_up(com, blog_v4)?;
            self.tuner = Some(Tuner::new(kind, blog_v4, tables));
            self.direct = false;
        }
        match self.tuner {
            Some(tuner) => self.apply(com, tuner, reinitialize, config, tables),
            None => Err(Halt::Failed(Error::UnsupportedTuner)),
        }
    }

    /// Apply settings to the tuner and the demodulator.
    fn apply(
        &mut self,
        com: &mut Com<'_>,
        tuner: Tuner,
        reinitialize: bool,
        config: &Settings,
        tables: &RegisterTables,
    ) -> (outcome: Outcome<Applied>)
        requires
            config.valid(),
        ensures
            old(self)@.apply(old(com)@, tuner@, reinitialize, *config, tables@) == (Run {
                state: final(self)@,
                line: final(com)@,
                outcome,
            }),
    {
        proof {
            reveal(HardwareState::apply);
        }
        let mut tuner: Tuner = tuner;
        tuner.crystal_hz = corrected_crystal(config.correction_ppm);
        let ghost start = tuner@;
        let ghost line = com@;
        let routed = route(&mut tuner, com, self.direct, reinitialize, config, tables);
        self.tuner = Some(tuner);
        routed?;
        proof {
            lemma_route_keeps(start, line, self.direct, reinitialize, *config, tables@);
        }
        self.direct = config.frequency_hz < XTAL_HZ && config.direct_sampling
            != DirectSampling::Off;
        self.program(com, tuner, reinitialize, config, tables)
    }

    /// Program rates and frequencies on the selected signal path.
    fn program(
        &mut self,
        com: &mut Com<'_>,
        tuner: Tuner,
        reinitialize: bool,
        config: &Settings,
        tables: &RegisterTables,
    ) -> (outcome: Outcome<Applied>)
        requires
            config.valid(),
            old(self)@.tuner == Some(tuner@),
            tuner@.crystal_hz == corrected(config.correction_ppm),
        ensures
            old(self)@.program(old(com)@, tuner@, reinitialize, *config, tables@) == (Run {
                state: final(self)@,
                line: final(com)@,
                outcome,
            }),
    {
        proof {
            reveal(HardwareState::program);
        }
        let crystal: u64 = corrected_crystal(config.correction_ppm);
        let mut tuner: Tuner = tuner;
        let sample_rate_hz: u32 = set_rates(com, config)?;
        // Tuner accesses precede closing and resetting the repeater.
        if config.frequency_hz < XTAL_HZ && config.direct_sampling != DirectSampling::Off {
            let word: u32 = if_word(config.frequency_hz, crystal);
            settle(com, word, config.bias_tee, reinitialize && self.receiving)?;
            Ok(
                Applied {
                    frequency_hz: quantize_if(config.frequency_hz, crystal),
                    sample_rate_hz,
                },
            )
        } else {
            let centered = tuner.tune(com, config.frequency_hz, tables);
            self.tuner = Some(tuner);
            let frequency_hz: u64 = centered?;
            let word: u32 = if_word(IF_HZ, crystal);
            settle(com, word, config.bias_tee, reinitialize && self.receiving)?;
            Ok(Applied { frequency_hz, sample_rate_hz })
        }
    }

    /// Switch everything off. Every step is tried, and the first failure is reported after all of
    /// them.
    pub fn shutdown(&mut self, com: &mut Com<'_>, tables: &RegisterTables) -> (outcome: Outcome<()>)
        ensures
            old(self)@.shutdown(old(com)@, tables@) == (Run {
                state: final(self)@,
                line: final(com)@,
                outcome,
            }),
    {
        let off: Outcome<()> = com.receiver(false);
        if let Err(Halt::Waiting) = &off {
            return off;
        }
        self.receiving = false;
        // Bias cleanup is independent of tuner health.
        let bias: Outcome<()> = com.gpio(0, false);
        if let Err(Halt::Waiting) = &bias {
            return bias;
        }
        let parked: Outcome<()> = self.park(com, tables);
        if let Err(Halt::Waiting) = &parked {
            return parked;
        }
        let cut: Outcome<()> = cut_power(com);
        if let Err(Halt::Waiting) = &cut {
            return cut;
        }
        self.valid = false;
        if off.is_err() {
            off
        } else if bias.is_err() {
            bias
        } else if parked.is_err() {
            parked
        } else {
            cut
        }
    }

    /// Power the tuner down, if there is one that can be reached.
    fn park(&mut self, com: &mut Com<'_>, tables: &RegisterTables) -> (outcome: Outcome<()>)
        ensures
            old(self)@.park(old(com)@, tables@) == (Run {
                state: final(self)@,
                line: final(com)@,
                outcome,
            }),
    {
        proof {
            reveal(HardwareState::park);
        }
        match self.tuner {
            Some(tuner) => {
                com.i2c_gate(true)?;
                let mut tuner: Tuner = tuner;
                let outcome = tuner.standby(com, tables);
                self.tuner = Some(tuner);
                outcome
            },
            None => Ok(()),
        }
    }
}

/// The frequency that the intermediate frequency register stands for.
fn quantize_if(hz: u64, crystal: u64) -> (result: u64)
    requires
        crystal != 0,
    ensures
        result == if_quantized(hz, crystal),
{
    let scaled_hz: u64 = scale(hz);
    let steps: u64 = scaled_hz / crystal;
    assert(0 <= steps * crystal <= scaled_hz) by (nonlinear_arith)
        requires
            steps == scaled_hz / crystal,
            crystal > 0,
    ;
    steps * crystal / 0x40_0000
}

/// Close the I2C repeater, then switch ADCs and PLL off.
fn cut_power(com: &mut Com<'_>) -> (outcome: Outcome<()>)
    ensures
        old(com)@.cut_power() == (Run { state: (), line: final(com)@, outcome }),
{
    proof {
        reveal(Line::cut_power);
    }
    let gate: Outcome<()> = com.i2c_gate(false);
    if let Err(Halt::Waiting) = &gate {
        return gate;
    }
    let power: Outcome<()> = com.sys_write(0x3000, 0x20);
    if let Err(Halt::Waiting) = &power {
        return power;
    }
    if gate.is_err() {
        gate
    } else {
        power
    }
}

/// Select the signal path.
fn route(
    tuner: &mut Tuner,
    com: &mut Com<'_>,
    bypassed: bool,
    reinitialize: bool,
    config: &Settings,
    tables: &RegisterTables,
) -> (outcome: Outcome<()>)
    requires
        old(tuner)@.crystal_hz <= u64::MAX / 2,
    ensures
        old(tuner)@.route(old(com)@, bypassed, reinitialize, *config, tables@) == (Run {
            state: final(tuner)@,
            line: final(com)@,
            outcome,
        }),
{
    proof {
        reveal(TunerState::route);
    }
    let direct: bool = config.frequency_hz < XTAL_HZ && config.direct_sampling
        != DirectSampling::Off;
    awaken(tuner, com, reinitialize || (bypassed && !direct), tables)?;
    if direct {
        bypass(tuner, com, bypassed, config, tables)
    } else {
        engage(tuner, com, config)
    }
}

/// Open the I2C repeater and initialize the tuner if asked to.
fn awaken(tuner: &mut Tuner, com: &mut Com<'_>, open: bool, tables: &RegisterTables) -> (outcome:
    Outcome<()>)
    requires
        old(tuner)@.crystal_hz <= u64::MAX / 2,
    ensures
        old(tuner)@.awaken(old(com)@, open, tables@) == (Run {
            state: final(tuner)@,
            line: final(com)@,
            outcome,
        }),
{
    proof {
        reveal(TunerState::awaken);
    }
    com.i2c_gate(true)?;
    if open {
        tuner.open(com, tables)?;
    }
    Ok(())
}

/// Bypass the tuner, powering it down unless it was bypassed before.
fn bypass(
    tuner: &mut Tuner,
    com: &mut Com<'_>,
    bypassed: bool,
    config: &Settings,
    tables: &RegisterTables,
) -> (outcome: Outcome<()>)
    ensures
        old(tuner)@.bypass(old(com)@, bypassed, *config, tables@) == (Run {
            state: final(tuner)@,
            line: final(com)@,
            outcome,
        }),
{
    proof {
        reveal(TunerState::bypass);
    }
    if !bypassed {
        tuner.standby(com, tables)?;
    }
    // Enable both ADC inputs so the selected I/Q physical path is usable.
    let rows: [(u8, u8, u16, usize); 5] = [
        (1, 0xb1, 0x1a, 1),
        (0, 0x08, 0xcd, 1),
        (1, 0x15, 0, 1),
        (
            0,
            0x06,
            if config.direct_sampling == DirectSampling::I {
                0x80
            } else {
                0x90
            },
            1,
        ),
        (
            0,
            0x19,
            match config.gain {
                GainConfig::Auto => 0x25,
                GainConfig::Manual(_) => 5,
            },
            1,
        ),
    ];
    assert(rows@ =~= direct_rows(*config));
    com.demod_all(&rows)
}

/// Receive through the tuner.
fn engage(tuner: &mut Tuner, com: &mut Com<'_>, config: &Settings) -> (outcome: Outcome<()>)
    ensures
        old(tuner)@.engage(old(com)@, *config) == (Run {
            state: final(tuner)@,
            line: final(com)@,
            outcome,
        }),
{
    proof {
        reveal(TunerState::engage);
    }
    let rows: [(u8, u8, u16, usize); 5] = [
        (1, 0xb1, 0x1a, 1),
        (0, 0x08, 0x4d, 1),
        (1, 0x15, 1, 1),
        (0, 0x06, 0x80, 1),
        (0, 0x19, 5, 1),
    ];
    assert(rows@ =~= tuner_rows());
    com.demod_all(&rows)?;
    tuner.set_gain(com, config.gain)
}

/// Selecting the signal path leaves the tuner at its crystal frequency.
pub proof fn lemma_route_keeps(
    tuner: TunerState,
    line: Line,
    bypassed: bool,
    reinitialize: bool,
    settings: Settings,
    tables: Tables,
)
    ensures
        tuner.route(line, bypassed, reinitialize, settings, tables).state.same_chip(tuner),
{
    reveal(TunerState::route);
    reveal(TunerState::awaken);
    reveal(TunerState::bypass);
    reveal(TunerState::engage);
    let gate = line.i2c_gate(true);
    tuners::tuner_stays_the_same(tuner, gate.line, tables, settings.gain, 0);
    let awake = tuner.awaken(line, reinitialize || (bypassed && !bypasses(settings)), tables);
    tuners::tuner_stays_the_same(awake.state, awake.line, tables, settings.gain, 0);
    tuners::tuner_stays_the_same(
        awake.state,
        awake.line.demod_all(tuner_rows()).line,
        tables,
        settings.gain,
        0,
    );
}

/// Initialize the demodulator.
fn initialize_demod(com: &mut Com<'_>) -> (outcome: Outcome<()>)
    ensures
        old(com)@.demod_all(demod_init_rows()) == (Run { state: (), line: final(com)@, outcome }),
{
    let rows: [(u8, u8, u16, usize); 38] = [
        (1, 1, 20, 1),
        (1, 1, 16, 1),
        (1, 21, 0, 1),
        (1, 22, 0, 1),
        (1, 23, 0, 1),
        (1, 24, 0, 1),
        (1, 25, 0, 1),
        (1, 26, 0, 1),
        (1, 27, 0, 1),
        (1, 28, 202, 1),
        (1, 29, 220, 1),
        (1, 30, 215, 1),
        (1, 31, 216, 1),
        (1, 32, 224, 1),
        (1, 33, 242, 1),
        (1, 34, 14, 1),
        (1, 35, 53, 1),
        (1, 36, 6, 1),
        (1, 37, 80, 1),
        (1, 38, 156, 1),
        (1, 39, 13, 1),
        (1, 40, 113, 1),
        (1, 41, 17, 1),
        (1, 42, 20, 1),
        (1, 43, 113, 1),
        (1, 44, 116, 1),
        (1, 45, 25, 1),
        (1, 46, 65, 1),
        (1, 47, 165, 1),
        (0, 25, 5, 1),
        (1, 147, 240, 1),
        (1, 148, 15, 1),
        (1, 17, 0, 1),
        (1, 4, 0, 1),
        (0, 97, 96, 1),
        (0, 6, 128, 1),
        (1, 177, 27, 1),
        (0, 13, 131, 1),
    ];
    assert(rows@ =~= demod_init_rows());
    com.demod_all(&rows)
}

/// Set up the USB block and power the demodulator.
fn power_up(com: &mut Com<'_>) -> (outcome: Outcome<()>)
    ensures
        old(com)@.power_up() == (Run { state: (), line: final(com)@, outcome }),
{
    proof {
        reveal(Line::power_up);
    }
    com.usb_u8(0x2000, 0x09)?;
    com.usb_u16(0x2158, 0x0200)?;
    com.receiver(false)?;
    com.sys_write(0x300b, 0x22)?;
    com.sys_write(0x3000, 0xe8)
}

/// Initialize the demodulator and find the tuner behind it.
fn bring_up(com: &mut Com<'_>, blog_v4: bool) -> (outcome: Outcome<TunerKind>)
    ensures
        old(com)@.bring_up(blog_v4) == (Run { state: (), line: final(com)@, outcome }),
{
    proof {
        reveal(Line::bring_up);
        reveal(Line::find_tuner);
    }
    power_up(com)?;
    initialize_demod(com)?;
    com.i2c_gate(true)?;
    let kind: TunerKind = Tuner::detect(com)?;
    if blog_v4 && kind != TunerKind::R828D {
        return Err(Halt::Failed(Error::UnsupportedTuner));
    }
    Ok(kind)
}

/// Set the intermediate frequency and the bias power, and let a running receiver go on.
fn settle(com: &mut Com<'_>, word: u32, bias_tee: bool, resume: bool) -> (outcome: Outcome<()>)
    requires
        word < 0x40_0000,
    ensures
        old(com)@.settle(word, bias_tee, resume) == (Run { state: (), line: final(com)@, outcome }),
{
    proof {
        reveal(Line::settle);
    }
    let rows: [(u8, u8, u16, usize); 5] = [
        (1, 0x19, (word / 0x1_0000) as u16, 1),
        (1, 0x1a, (word / 256 % 256) as u16, 1),
        (1, 0x1b, (word % 256) as u16, 1),
        (1, 1, 0x14, 1),
        (1, 1, 0x10, 1),
    ];
    assert(rows@ =~= if_rows(word));
    com.demod_all(&rows)?;
    com.gpio(0, bias_tee)?;
    if resume {
        com.receiver(true)?;
    }
    Ok(())
}

/// Set sampling correction and sample rate. Sampling correction is applied by registers of its
/// own, so the resampler ratio goes by the nominal crystal frequency.
fn set_rates(com: &mut Com<'_>, settings: &Settings) -> (outcome: Outcome<u32>)
    requires
        settings.valid(),
    ensures
        ({
            let run = old(com)@.demod_all(rate_rows(*settings));
            &&& final(com)@ == run.line
            &&& outcome == match run.outcome {
                Ok(_) => Ok(resampled_rate(resampler_ratio(settings.sample_rate_hz))),
                Err(halt) => Err(halt),
            }
        }),
{
    let word: u16 = correction_word(settings.correction_ppm);
    proof {
        sample_rate_is_exact(settings.sample_rate_hz);
    }
    let (ratio, actual) = sample_rate(settings.sample_rate_hz);
    let rows: [(u8, u8, u16, usize); 4] = [
        (1, 0x3e, word / 256, 1),
        (1, 0x3f, word % 256, 1),
        (1, 0x9f, (ratio / 0x1_0000) as u16, 2),
        (1, 0xa1, (ratio % 0x1_0000) as u16, 2),
    ];
    assert(rows@ =~= rate_rows(*settings));
    com.demod_all(&rows)?;
    Ok(actual)
}

/// The resampler reproduces every valid sample rate exactly, with a ratio whose lowest two bits
/// are zero.
pub proof fn sample_rate_is_exact(rate: u32)
    requires
        900_001 <= rate <= 3_200_000,
    ensures
        resampler_ratio(rate) % 4 == 0,
        resampler_ratio(rate) != 0,
        resampled_rate(resampler_ratio(rate)) == rate,
{
    let k = scaled_crystal();
    let r = rate as nat;
    let q = k / r;
    vstd::arithmetic::div_mod::lemma_fundamental_div_mod(k as int, r as int);
    assert(k == r * q + k % r);
    let rest = k % r;
    assert(37_748_735 <= q <= 134_217_599) by (nonlinear_arith)
        requires
            k == r * q + rest,
            rest < r,
            k == 120_795_955_200_000,
            900_001 <= r <= 3_200_000,
            q >= 0,
    ;
    let ratio = q / 4 * 4;
    assert(resampler_ratio(rate) == ratio);
    // The ratio is not above the exact quotient, and within four of it.
    assert(ratio <= q < ratio + 4);
    assert(r * ratio <= k) by (nonlinear_arith)
        requires
            k == r * q + rest,
            rest >= 0,
            ratio <= q,
            r > 0,
    ;
    assert(k < (r + 1) * ratio) by (nonlinear_arith)
        requires
            k == r * q + rest,
            rest < r,
            q < ratio + 4,
            ratio >= 4 * r,
            r > 0,
    ;
    let actual = k / ratio;
    vstd::arithmetic::div_mod::lemma_fundamental_div_mod(k as int, ratio as int);
    let left = k % ratio;
    assert(actual == r) by (nonlinear_arith)
        requires
            k == ratio * actual + left,
            0 <= left < ratio,
            r * ratio <= k < (r + 1) * ratio,
            ratio > 0,
    ;
}

} // verus!
