//! Rafael Micro tuner control. The caller serializes the entire I2C operation.

pub mod causality;
pub mod initialization;
pub mod laws;
pub mod pll;
pub mod programming;
pub mod registers;
pub mod shadow;

use crate::config::{Decibels, GainConfig, GainSteps};
use crate::errors::Error;
use crate::protocol::{Com, Halt, Line, Outcome, Run};
use nusb::transfer::TransferError;
use pll::{pll, Pll};
use registers::{RegisterTables, Rows, Tables};
use vstd::prelude::*;

verus! {

/// Intermediate frequency between tuner and demodulator.
pub const IF_HZ: u64 = 3_570_000;

/// Nominal crystal frequency.
pub const XTAL_HZ: u64 = 28_800_000;

/// Detected tuner family. R820T-compatible revisions share the same chip ID.
#[derive(Clone, Copy, Debug, Eq, PartialEq, Structural)]
#[non_exhaustive]
pub enum TunerKind {
    /// R820T/R820T2/R860-compatible tuner at I2C address 0x34.
    R820T,
    /// R828D tuner at I2C address 0x74.
    R828D,
}

/// A tuner, and what its registers are known to hold.
#[derive(Clone, Copy, Debug)]
pub struct Tuner {
    /// Tuner family.
    pub kind: TunerKind,
    /// Whether the tuner sits on a Blog V4 board.
    pub blog_v4: bool,
    /// Crystal frequency after correction.
    pub crystal_hz: u64,
    /// Values of registers 5 to 31 as last acknowledged.
    pub shadow: [u8; 27],
    /// Selected antenna input, if known.
    pub input: Option<u8>,
}

/// The content of a [`Tuner`].
#[verifier::ext_equal]
pub struct TunerState {
    /// Tuner family.
    pub kind: TunerKind,
    /// Whether the tuner sits on a Blog V4 board.
    pub blog_v4: bool,
    /// Crystal frequency after correction.
    pub crystal_hz: u64,
    /// Values of registers 5 to 31 as last acknowledged.
    pub shadow: Seq<u8>,
    /// Selected antenna input, if known.
    pub input: Option<u8>,
}

impl View for Tuner {
    type V = TunerState;

    open spec fn view(&self) -> TunerState {
        TunerState {
            kind: self.kind,
            blog_v4: self.blog_v4,
            crystal_hz: self.crystal_hz,
            shadow: self.shadow@,
            input: self.input,
        }
    }
}

/// A byte with its bits in reverse order.
pub open spec fn reversed(byte: u8) -> u8 {
    (byte % 2 * 128 + byte / 2 % 2 * 64 + byte / 4 % 2 * 32 + byte / 8 % 2 * 16 + byte / 16 % 2 * 8
        + byte / 32 % 2 * 4 + byte / 64 % 2 * 2 + byte / 128) as u8
}

/// The bits of `old` outside `mask` and those of `value` inside it.
pub open spec fn merged(old: u8, value: u8, mask: u8) -> u8 {
    (old & !mask) | (value & mask)
}

/// Antenna input of a Blog V4 board: the upconverter below the crystal frequency, then VHF, then
/// UHF from 250 MHz on.
pub open spec fn v4_band(hz: u64) -> u8 {
    if hz < XTAL_HZ {
        2
    } else if hz < 250_000_000 {
        1
    } else {
        0
    }
}

/// Gain of one LNA and one mixer step together, 3.5 dB, in [`GainSteps`].
pub const FULL_STEP: i64 = 14_680_064;

/// Gain of one LNA step, 2.3 dB, in [`GainSteps`].
pub const LNA_STEP: i64 = 9_646_899;

/// How many steps of LNA and mixer gain a requested gain takes: as many of both as fit, at most
/// 15, and one more of the LNA if that fits too.
pub open spec fn gain_split(gain: Decibels) -> (u8, u8) {
    match gain.steps() {
        GainSteps::NotANumber => (0, 0),
        GainSteps::Steps(steps) => {
            let fitting: int = steps / FULL_STEP;
            let full: int = if fitting < 0 {
                0
            } else if fitting > 15 {
                15
            } else {
                fitting
            };
            if full < 15 && steps - FULL_STEP * full >= LNA_STEP {
                ((full + 1) as u8, full as u8)
            } else {
                (full as u8, full as u8)
            }
        },
    }
}

/// Writes that hand LNA and mixer gain to the tuner.
pub open spec fn automatic_gain_rows() -> Rows {
    seq![(0x05, 0, 0x10), (0x07, 0x10, 0x10), (0x0c, 0x0b, 0x9f)]
}

/// Writes that set LNA and mixer gain.
pub open spec fn manual_gain_rows(lna: u8, mixer: u8) -> Rows {
    seq![
        (0x05, 0x10, 0x10),
        (0x07, 0, 0x10),
        (0x0c, 8, 0x9f),
        (0x05, lna, 0x0f),
        (0x07, mixer, 0x0f),
    ]
}

/// Writes that prepare the synthesizer for a new frequency.
pub open spec fn pll_prepare_rows() -> Rows {
    seq![(0x10, 0, 0x10), (0x1a, 0, 0x0c), (0x12, 0x80, 0xe0)]
}

/// Writes that program the synthesizer.
pub open spec fn pll_rows(plan: Pll) -> Rows {
    seq![
        (0x10, (plan.divider * 32) as u8, 0xe0),
        (0x14, plan.integer, 0xff),
        (0x12, if plan.sdm == 0 { 8 } else { 0 }, 8),
        (0x16, (plan.sdm / 256) as u8, 0xff),
        (0x15, (plan.sdm % 256) as u8, 0xff),
    ]
}

/// Writes that start a filter calibration.
pub open spec fn calibration_start_rows() -> Rows {
    seq![(0x0b, 0x60, 0x60), (0x0f, 4, 4), (0x10, 0, 3)]
}

/// Writes that trigger and end a filter calibration.
pub open spec fn calibration_trigger_rows() -> Rows {
    seq![(0x0b, 0x10, 0x10), (0x0b, 0, 0x10), (0x0f, 0, 4)]
}

/// Writes that set the tracking filter.
pub open spec fn mux_rows(row: (u64, u8, u8, u8)) -> Rows {
    seq![
        (0x17, row.1, 8),
        (0x1a, row.2, 0xc3),
        (0x1b, row.3, 0xff),
        (0x10, 0, 0x0b),
        (0x08, 0, 0x3f),
        (0x09, 0, 0x3f),
    ]
}

impl Line {
    /// Look for the chip ID at an I2C address. A device that stalls is not there.
    pub open spec fn probe(self, address: u8) -> Run<(), bool> {
        let read = self.i2c_read(address, 0, 1);
        match read.outcome {
            Ok(bytes) => Run::done((), read.line, bytes[0] == 0x69),
            Err(Halt::Failed(Error::Transfer(TransferError::Stall))) => Run::done(
                (),
                read.line,
                false,
            ),
            Err(_) => read.halted(),
        }
    }

    /// Find the tuner.
    pub open spec fn detect(self) -> Run<(), TunerKind> {
        let first = self.probe(0x34);
        match first.outcome {
            Ok(true) => Run::done((), first.line, TunerKind::R820T),
            Ok(false) => {
                let second = first.line.probe(0x74);
                match second.outcome {
                    Ok(true) => Run::done((), second.line, TunerKind::R828D),
                    Ok(false) => Run::failed((), second.line, Error::UnsupportedTuner),
                    Err(_) => second.halted(),
                }
            },
            Err(_) => first.halted(),
        }
    }
}

impl TunerState {
    /// A tuner after power-on.
    pub open spec fn initial(kind: TunerKind, blog_v4: bool, tables: Tables) -> TunerState {
        TunerState {
            kind,
            blog_v4,
            crystal_hz: XTAL_HZ,
            shadow: tables.initial,
            input: None,
        }
    }

    /// Whether the tuner is still the same one, at the same crystal frequency.
    pub open spec fn same_chip(self, other: TunerState) -> bool {
        &&& self.kind == other.kind
        &&& self.blog_v4 == other.blog_v4
        &&& self.crystal_hz == other.crystal_hz
    }

    /// I2C address.
    pub open spec fn address(self) -> u8 {
        if self.kind == TunerKind::R820T {
            0x34
        } else {
            0x74
        }
    }

    /// Change the bits in `mask` of a register. The shadow value changes only if the tuner
    /// acknowledges the write.
    pub open spec fn write(self, line: Line, reg: u8, value: u8, mask: u8) -> Run<TunerState, ()> {
        let byte = merged(self.shadow[reg - 5], value, mask);
        let run = line.i2c_write(self.address(), reg, byte);
        run.with(
            if run.outcome is Ok {
                TunerState { shadow: self.shadow.update(reg - 5, byte), ..self }
            } else {
                self
            },
        )
    }

    /// Change registers in order, up to the first failure.
    pub open spec fn write_many(self, line: Line, rows: Rows) -> Run<TunerState, ()>
        decreases rows.len(),
    {
        if rows.len() == 0 {
            Run::done(self, line, ())
        } else {
            let run = self.write_many(line, rows.drop_last());
            match run.outcome {
                Ok(_) => {
                    let row = rows.last();
                    run.state.write(run.line, row.0, row.1, row.2)
                },
                Err(_) => run,
            }
        }
    }

    /// Load registers from register 5 on, up to the first failure.
    pub open spec fn load(self, line: Line, values: Seq<u8>) -> Run<TunerState, ()>
        decreases values.len(),
    {
        if values.len() == 0 {
            Run::done(self, line, ())
        } else {
            let run = self.load(line, values.drop_last());
            let i = values.len() - 1;
            match run.outcome {
                Ok(_) => {
                    let next = run.line.i2c_write(self.address(), (i + 5) as u8, values[i]);
                    next.with(
                        if next.outcome is Ok {
                            TunerState {
                                shadow: run.state.shadow.update(i, values[i]),
                                ..run.state
                            }
                        } else {
                            run.state
                        },
                    )
                },
                Err(_) => run,
            }
        }
    }

    /// Try every power-down write. The first failure is reported after all of them.
    pub open spec fn standby(self, line: Line, rows: Rows) -> Run<TunerState, ()>
        decreases rows.len(),
    {
        if rows.len() == 0 {
            Run::done(self, line, ())
        } else {
            let run = self.standby(line, rows.drop_last());
            if run.waits() {
                run
            } else {
                let row = rows.last();
                let next = run.state.write(run.line, row.0, row.1, row.2);
                if next.waits() || run.outcome is Ok {
                    next
                } else {
                    Run { state: next.state, line: next.line, outcome: run.outcome }
                }
            }
        }
    }

    /// Read registers from register 0 on; the tuner sends their bits in reverse order.
    pub open spec fn read(self, line: Line, count: u16) -> Run<TunerState, Seq<u8>> {
        let run = line.i2c_read(self.address(), 0, count);
        Run {
            state: self,
            line: run.line,
            outcome: match run.outcome {
                Ok(bytes) => Ok(bytes.map_values(|byte: u8| reversed(byte))),
                Err(halt) => Err(halt),
            },
        }
    }

    /// Wait for the synthesizer to lock, raising its current between attempts.
    pub open spec fn await_lock(self, line: Line, actual_hz: u64, attempts: nat) -> Run<
        TunerState,
        u64,
    >
        decreases attempts,
    {
        if attempts == 0 {
            Run::failed(self, line, Error::PllUnlocked)
        } else {
            let status = self.read(line, 3);
            match status.outcome {
                Ok(bytes) => if bytes[2] / 64 % 2 == 1 {
                    let run = self.write(status.line, 0x1a, 8, 8);
                    match run.outcome {
                        Ok(_) => Run::done(run.state, run.line, actual_hz),
                        Err(_) => run.halted(),
                    }
                } else if attempts == 1 {
                    Run::failed(self, status.line, Error::PllUnlocked)
                } else {
                    let run = self.write(status.line, 0x12, 0x60, 0xe0);
                    match run.outcome {
                        Ok(_) => run.state.await_lock(run.line, actual_hz, (attempts - 1) as nat),
                        Err(_) => run.halted(),
                    }
                },
                Err(_) => status.halted(),
            }
        }
    }

    /// Program a planned synthesizer setting and wait for the lock.
    #[verifier::opaque]
    pub open spec fn apply_pll(self, line: Line, plan: Pll) -> Run<TunerState, u64> {
        let programmed = self.write_many(line, pll_rows(plan));
        match programmed.outcome {
            Ok(_) => programmed.state.await_lock(programmed.line, plan.actual_hz, 2),
            Err(_) => programmed.halted(),
        }
    }

    /// Divider reference of the tuner family.
    pub open spec fn power_ref(self) -> u8 {
        if self.kind == TunerKind::R820T {
            2
        } else {
            1
        }
    }

    /// Synthesize a frequency.
    #[verifier::opaque]
    pub open spec fn set_pll(self, line: Line, hz: u64) -> Run<TunerState, u64> {
        let prepared = self.write_many(line, pll_prepare_rows());
        match prepared.outcome {
            Ok(_) => {
                let status = prepared.state.read(prepared.line, 5);
                match status.outcome {
                    Ok(bytes) => {
                        let fine = bytes[4] / 16 % 4;
                        if pll::pll_reaches(
                            hz as nat,
                            self.crystal_hz as nat,
                            fine,
                            self.power_ref(),
                        ) {
                            status.state.apply_pll(
                                status.line,
                                pll::pll_plan(
                                    hz as nat,
                                    self.crystal_hz as nat,
                                    fine,
                                    self.power_ref(),
                                ),
                            )
                        } else {
                            Run::failed(status.state, status.line, Error::PllUnlocked)
                        }
                    },
                    Err(_) => status.halted(),
                }
            },
            Err(_) => prepared.halted(),
        }
    }

    /// One filter calibration. The code is 0 if the tuner reports an invalid one, 0 or 15.
    #[verifier::opaque]
    pub open spec fn calibration_attempt(self, line: Line) -> Run<TunerState, u8> {
        let started = self.write_many(line, calibration_start_rows());
        match started.outcome {
            Ok(_) => {
                let tuned = started.state.set_pll(started.line, 56_000_000);
                match tuned.outcome {
                    Ok(_) => {
                        let triggered = tuned.state.write_many(
                            tuned.line,
                            calibration_trigger_rows(),
                        );
                        match triggered.outcome {
                            Ok(_) => {
                                let status = triggered.state.read(triggered.line, 5);
                                match status.outcome {
                                    Ok(bytes) => Run::done(
                                        status.state,
                                        status.line,
                                        if bytes[4] % 16 == 15 {
                                            0
                                        } else {
                                            (bytes[4] % 16) as u8
                                        },
                                    ),
                                    Err(_) => status.halted(),
                                }
                            },
                            Err(_) => triggered.halted(),
                        }
                    },
                    Err(_) => tuned.halted(),
                }
            },
            Err(_) => started.halted(),
        }
    }

    /// Calibrate the filter: the first valid code counts, and a second attempt is final.
    #[verifier::opaque]
    pub open spec fn calibrate(self, line: Line) -> Run<TunerState, u8> {
        let first = self.calibration_attempt(line);
        match first.outcome {
            Ok(code) => if code != 0 {
                first
            } else {
                first.state.calibration_attempt(first.line)
            },
            Err(_) => first,
        }
    }

    /// Load the power-on values and prepare the filter calibration.
    #[verifier::opaque]
    pub open spec fn reset(self, line: Line, tables: Tables) -> Run<TunerState, ()> {
        let loaded = TunerState { input: None, ..self }.load(line, tables.initial);
        match loaded.outcome {
            Ok(_) => loaded.state.write_many(loaded.line, tables.before_calibration),
            Err(_) => loaded,
        }
    }

    /// Set the calibrated filter and finish the initialization.
    #[verifier::opaque]
    pub open spec fn finish(self, line: Line, code: u8, tables: Tables) -> Run<TunerState, ()> {
        let filter = self.write(line, 0x0a, 0x10 | code, 0x1f);
        match filter.outcome {
            Ok(_) => filter.state.write_many(filter.line, tables.after_calibration),
            Err(_) => filter,
        }
    }

    /// Initialize the tuner.
    #[verifier::opaque]
    pub open spec fn open(self, line: Line, tables: Tables) -> Run<TunerState, ()> {
        let reset = self.reset(line, tables);
        match reset.outcome {
            Ok(_) => {
                let calibrated = reset.state.calibrate(reset.line);
                match calibrated.outcome {
                    Ok(code) => calibrated.state.finish(calibrated.line, code, tables),
                    Err(_) => calibrated.halted(),
                }
            },
            Err(_) => reset,
        }
    }

    /// Set the gain.
    pub open spec fn set_gain(self, line: Line, gain: GainConfig) -> Run<TunerState, ()> {
        match gain {
            GainConfig::Auto => self.write_many(line, automatic_gain_rows()),
            GainConfig::Manual(gain) => self.write_many(
                line,
                manual_gain_rows(gain_split(gain).0, gain_split(gain).1),
            ),
        }
    }

    /// Frequency that the board's upconverter adds.
    pub open spec fn upconvert(self, hz: u64) -> u64 {
        if self.blog_v4 && hz < XTAL_HZ {
            XTAL_HZ
        } else {
            0
        }
    }

    /// Antenna input for a frequency, on a tuner that has several.
    pub open spec fn input_for(self, hz: u64) -> u8 {
        if self.blog_v4 {
            v4_band(hz)
        } else if hz <= 345_000_000 {
            1
        } else {
            0
        }
    }

    /// Switch the antenna input, unless it is selected already.
    #[verifier::opaque]
    pub open spec fn select_input(self, line: Line, input: u8) -> Run<TunerState, ()> {
        if self.input == Some(input) {
            Run::done(self, line, ())
        } else if self.blog_v4 {
            let cable = self.write(line, 0x06, if input == 2 { 8 } else { 0 }, 8);
            match cable.outcome {
                Ok(_) => {
                    let air = cable.state.write(
                        cable.line,
                        0x05,
                        if input == 0 {
                            0
                        } else if input == 1 {
                            0x60
                        } else {
                            0x20
                        },
                        0x60,
                    );
                    match air.outcome {
                        Ok(_) => {
                            let relay = air.line.gpio(5, input != 2);
                            relay.with(
                                if relay.outcome is Ok {
                                    TunerState { input: Some(input), ..air.state }
                                } else {
                                    air.state
                                },
                            )
                        },
                        Err(_) => air,
                    }
                },
                Err(_) => cable,
            }
        } else {
            let air = self.write(line, 0x05, if input == 0 { 0 } else { 0x60 }, 0x60);
            match air.outcome {
                Ok(_) => Run::done(
                    TunerState { input: Some(input), ..air.state },
                    air.line,
                    (),
                ),
                Err(_) => air,
            }
        }
    }

    /// Tune to a frequency: set the tracking filter, synthesize the LO and select the input. The
    /// result is the frequency that the synthesized LO receives.
    #[verifier::opaque]
    pub open spec fn tune(self, line: Line, hz: u64, tables: Tables) -> Run<TunerState, u64> {
        let offset = (self.upconvert(hz) + IF_HZ) as u64;
        let lo = (hz + offset) as u64;
        let row = registers::mux_row(
            if self.blog_v4 {
                tables.v4_mux
            } else {
                tables.standard_mux
            },
            lo,
        );
        let filtered = self.write_many(line, mux_rows(row));
        match filtered.outcome {
            Ok(_) => {
                let synthesized = filtered.state.set_pll(filtered.line, lo);
                match synthesized.outcome {
                    Ok(actual_lo) => {
                        let actual = if actual_lo < offset {
                            0
                        } else {
                            (actual_lo - offset) as u64
                        };
                        if self.kind == TunerKind::R828D {
                            let switched = synthesized.state.select_input(
                                synthesized.line,
                                self.input_for(hz),
                            );
                            match switched.outcome {
                                Ok(_) => Run::done(switched.state, switched.line, actual),
                                Err(_) => switched.halted(),
                            }
                        } else {
                            Run::done(synthesized.state, synthesized.line, actual)
                        }
                    },
                    Err(_) => synthesized.halted(),
                }
            },
            Err(_) => filtered.halted(),
        }
    }
}

impl Tuner {
    /// A tuner after power-on.
    pub fn new(kind: TunerKind, blog_v4: bool, tables: &RegisterTables) -> (tuner: Tuner)
        ensures
            tuner@ == TunerState::initial(kind, blog_v4, tables@),
    {
        Tuner { kind, blog_v4, crystal_hz: XTAL_HZ, shadow: tables.initial(), input: None }
    }

    /// I2C address.
    pub fn address(&self) -> (address: u8)
        ensures
            address == self@.address(),
    {
        if self.kind == TunerKind::R820T {
            0x34
        } else {
            0x74
        }
    }

    /// Look for the chip ID at an I2C address. A device that stalls is not there.
    fn probe(com: &mut Com<'_>, address: u8) -> (outcome: Outcome<bool>)
        ensures
            old(com)@.probe(address) == (Run { state: (), line: final(com)@, outcome }),
    {
        match com.i2c_read(address, 0, 1) {
            Ok(data) => Ok(data[0] == 0x69),
            Err(Halt::Failed(Error::Transfer(TransferError::Stall))) => Ok(false),
            Err(halt) => Err(halt),
        }
    }

    /// Find the tuner.
    pub fn detect(com: &mut Com<'_>) -> (outcome: Outcome<TunerKind>)
        ensures
            old(com)@.detect() == (Run { state: (), line: final(com)@, outcome }),
    {
        if Self::probe(com, 0x34)? {
            return Ok(TunerKind::R820T);
        }
        if Self::probe(com, 0x74)? {
            return Ok(TunerKind::R828D);
        }
        Err(Halt::Failed(Error::UnsupportedTuner))
    }

    /// Change the bits in `mask` of a register.
    pub fn write(&mut self, com: &mut Com<'_>, reg: u8, value: u8, mask: u8) -> (outcome: Outcome<
        (),
    >)
        requires
            5 <= reg <= 31,
        ensures
            old(self)@.write(old(com)@, reg, value, mask) == (Run {
                state: final(self)@,
                line: final(com)@,
                outcome,
            }),
    {
        let offset: usize = reg as usize - 5;
        let byte: u8 = (self.shadow[offset] & !mask) | (value & mask);
        com.i2c_write(self.address(), reg, byte)?;
        self.shadow[offset] = byte;
        Ok(())
    }

    /// Change registers in order, up to the first failure.
    pub fn write_many(&mut self, com: &mut Com<'_>, rows: &[(u8, u8, u8)]) -> (outcome: Outcome<()>)
        requires
            registers::writable(rows@),
        ensures
            old(self)@.write_many(old(com)@, rows@) == (Run {
                state: final(self)@,
                line: final(com)@,
                outcome,
            }),
    {
        let ghost start = self@;
        let ghost line = com@;
        assert(rows@.take(0) =~= Seq::empty());
        let mut i: usize = 0;
        while i < rows.len()
            invariant
                start == old(self)@,
                line == old(com)@,
                i <= rows@.len(),
                registers::writable(rows@),
                start.write_many(line, rows@.take(i as int)) == (Run {
                    state: self@,
                    line: com@,
                    outcome: Ok::<(), Halt>(()),
                }),
            decreases rows@.len() - i,
        {
            proof {
                lemma_write_many_step(start, line, rows@, i as int);
            }
            let (reg, value, mask) = rows[i];
            let step = self.write(com, reg, value, mask);
            if step.is_err() {
                proof {
                    lemma_write_many_stuck(start, line, rows@, i + 1);
                }
                return step;
            }
            i = i + 1;
        }
        assert(rows@.take(rows@.len() as int) =~= rows@);
        Ok(())
    }

    /// Load registers from register 5 on, up to the first failure.
    fn load(&mut self, com: &mut Com<'_>, values: &[u8; 27]) -> (outcome: Outcome<()>)
        ensures
            old(self)@.load(old(com)@, values@) == (Run {
                state: final(self)@,
                line: final(com)@,
                outcome,
            }),
    {
        let ghost start = self@;
        let ghost line = com@;
        assert(values@.take(0) =~= Seq::empty());
        let mut i: usize = 0;
        while i < 27
            invariant
                start == old(self)@,
                line == old(com)@,
                i <= 27,
                start.load(line, values@.take(i as int)) == (Run {
                    state: self@,
                    line: com@,
                    outcome: Ok::<(), Halt>(()),
                }),
                self@.address() == start.address(),
            decreases 27 - i,
        {
            proof {
                lemma_load_step(start, line, values@, i as int);
            }
            let step = com.i2c_write(self.address(), i as u8 + 5, values[i]);
            if step.is_err() {
                proof {
                    lemma_load_stuck(start, line, values@, i + 1);
                }
                return step;
            }
            self.shadow[i] = values[i];
            i = i + 1;
        }
        assert(values@.take(27) =~= values@);
        Ok(())
    }

    /// Initialize the tuner.
    pub fn open(&mut self, com: &mut Com<'_>, tables: &RegisterTables) -> (outcome: Outcome<()>)
        requires
            old(self)@.crystal_hz <= u64::MAX / 2,
        ensures
            old(self)@.open(old(com)@, tables@) == (Run {
                state: final(self)@,
                line: final(com)@,
                outcome,
            }),
    {
        proof {
            reveal(TunerState::open);
            reveal(TunerState::reset);
            reveal(TunerState::finish);
        }
        let ghost tuner = self@;
        let ghost line = com@;
        self.input = None;
        assert(self@ == TunerState { input: None, ..tuner });
        self.load(com, &tables.initial())?;
        self.write_many(com, tables.before_calibration())?;
        proof {
            lemma_reset_keeps(tuner, line, tables@);
        }
        let code: u8 = self.calibrate(com)?;
        self.write(com, 0x0a, 0x10 | code, 0x1f)?;
        self.write_many(com, tables.after_calibration())
    }

    /// Power the tuner down. Every independent write is tried even if one transfer fails.
    pub fn standby(&mut self, com: &mut Com<'_>, tables: &RegisterTables) -> (outcome: Outcome<()>)
        ensures
            old(self)@.standby(old(com)@, tables@.standby) == (Run {
                state: final(self)@,
                line: final(com)@,
                outcome,
            }),
    {
        let rows: &[(u8, u8, u8)] = tables.standby();
        let ghost start = self@;
        let ghost line = com@;
        assert(rows@.take(0) =~= Seq::empty());
        let mut result: Outcome<()> = Ok(());
        let mut i: usize = 0;
        while i < rows.len()
            invariant
                start == old(self)@,
                line == old(com)@,
                i <= rows@.len(),
                rows@ == tables@.standby,
                registers::writable(rows@),
                start.standby(line, rows@.take(i as int)) == (Run {
                    state: self@,
                    line: com@,
                    outcome: result,
                }),
                result != Err::<(), Halt>(Halt::Waiting),
            decreases rows@.len() - i,
        {
            proof {
                lemma_standby_step(start, line, rows@, i as int);
            }
            let (reg, value, mask) = rows[i];
            let next = self.write(com, reg, value, mask);
            if let Err(Halt::Waiting) = &next {
                proof {
                    lemma_standby_stuck(start, line, rows@, i + 1);
                }
                return next;
            }
            if result.is_ok() {
                result = next;
            }
            i = i + 1;
        }
        assert(rows@.take(rows@.len() as int) =~= rows@);
        result
    }

    /// Set the gain.
    pub fn set_gain(&mut self, com: &mut Com<'_>, gain: GainConfig) -> (outcome: Outcome<()>)
        ensures
            old(self)@.set_gain(old(com)@, gain) == (Run {
                state: final(self)@,
                line: final(com)@,
                outcome,
            }),
    {
        match gain {
            GainConfig::Auto => {
                let rows: [(u8, u8, u8); 3] = [
                    (0x05, 0, 0x10),
                    (0x07, 0x10, 0x10),
                    (0x0c, 0x0b, 0x9f),
                ];
                assert(rows@ =~= automatic_gain_rows());
                self.write_many(com, &rows)
            },
            GainConfig::Manual(db) => {
                let (lna, mixer) = gain_steps(db);
                let rows: [(u8, u8, u8); 5] = [
                    (0x05, 0x10, 0x10),
                    (0x07, 0, 0x10),
                    (0x0c, 8, 0x9f),
                    (0x05, lna, 0x0f),
                    (0x07, mixer, 0x0f),
                ];
                assert(rows@ =~= manual_gain_rows(lna, mixer));
                self.write_many(com, &rows)
            },
        }
    }

    /// Tune to a frequency. The result is the frequency that is received.
    pub fn tune(&mut self, com: &mut Com<'_>, hz: u64, tables: &RegisterTables) -> (outcome:
        Outcome<u64>)
        requires
            hz <= u64::MAX - IF_HZ,
            old(self)@.crystal_hz <= u64::MAX / 2,
        ensures
            old(self)@.tune(old(com)@, hz, tables@) == (Run {
                state: final(self)@,
                line: final(com)@,
                outcome,
            }),
    {
        proof {
            reveal(TunerState::tune);
        }
        let upconvert: u64 = if self.blog_v4 && hz < XTAL_HZ {
            XTAL_HZ
        } else {
            0
        };
        let offset: u64 = upconvert + IF_HZ;
        let lo: u64 = hz + offset;
        let row = tables.mux(self.blog_v4, lo);
        let (_, drain, filter, corner) = row;
        let rows: [(u8, u8, u8); 6] = [
            (0x17, drain, 8),
            (0x1a, filter, 0xc3),
            (0x1b, corner, 0xff),
            (0x10, 0, 0x0b),
            (0x08, 0, 0x3f),
            (0x09, 0, 0x3f),
        ];
        assert(rows@ =~= mux_rows(row));
        proof {
            lemma_write_many_keeps(self@, com@, rows@);
        }
        self.write_many(com, &rows)?;
        proof {
            lemma_set_pll_keeps(self@, com@, lo);
        }
        let actual_lo: u64 = self.set_pll(com, lo)?;
        if self.kind == TunerKind::R828D {
            let input: u8 = if self.blog_v4 {
                v4_input(hz)
            } else if hz <= 345_000_000 {
                1
            } else {
                0
            };
            self.select_input(com, input)?;
        }
        Ok(actual_lo.saturating_sub(offset))
    }

    /// Switch the antenna input, unless it is selected already.
    fn select_input(&mut self, com: &mut Com<'_>, input: u8) -> (outcome: Outcome<()>)
        ensures
            old(self)@.select_input(old(com)@, input) == (Run {
                state: final(self)@,
                line: final(com)@,
                outcome,
            }),
    {
        proof {
            reveal(TunerState::select_input);
        }
        if self.input == Some(input) {
            return Ok(());
        }
        if self.blog_v4 {
            self.write(com, 0x06, if input == 2 { 8 } else { 0 }, 8)?;
            let air: u8 = if input == 0 {
                0
            } else if input == 1 {
                0x60
            } else {
                0x20
            };
            self.write(com, 0x05, air, 0x60)?;
            com.gpio(5, input != 2)?;
        } else {
            self.write(com, 0x05, if input == 0 { 0 } else { 0x60 }, 0x60)?;
        }
        self.input = Some(input);
        Ok(())
    }

    /// One filter calibration.
    fn calibration_attempt(&mut self, com: &mut Com<'_>) -> (outcome: Outcome<u8>)
        requires
            old(self)@.crystal_hz <= u64::MAX / 2,
        ensures
            old(self)@.calibration_attempt(old(com)@) == (Run {
                state: final(self)@,
                line: final(com)@,
                outcome,
            }),
    {
        proof {
            reveal(TunerState::calibration_attempt);
        }
        let start: [(u8, u8, u8); 3] = [(0x0b, 0x60, 0x60), (0x0f, 4, 4), (0x10, 0, 3)];
        assert(start@ =~= calibration_start_rows());
        proof {
            lemma_write_many_keeps(self@, com@, start@);
        }
        self.write_many(com, &start)?;
        self.set_pll(com, 56_000_000)?;
        let trigger: [(u8, u8, u8); 3] = [(0x0b, 0x10, 0x10), (0x0b, 0, 0x10), (0x0f, 0, 4)];
        assert(trigger@ =~= calibration_trigger_rows());
        self.write_many(com, &trigger)?;
        let status: Vec<u8> = self.read(com, 5)?;
        let code: u8 = status[4] % 16;
        Ok(if code == 15 { 0 } else { code })
    }

    /// Calibrate the filter. Codes 0 and 15 are invalid; the first valid one is kept, and a second
    /// attempt is final.
    pub fn calibrate(&mut self, com: &mut Com<'_>) -> (outcome: Outcome<u8>)
        requires
            old(self)@.crystal_hz <= u64::MAX / 2,
        ensures
            old(self)@.calibrate(old(com)@) == (Run {
                state: final(self)@,
                line: final(com)@,
                outcome,
            }),
    {
        proof {
            reveal(TunerState::calibrate);
            lemma_calibration_keeps(self@, com@);
        }
        let code: u8 = self.calibration_attempt(com)?;
        if code != 0 {
            return Ok(code);
        }
        self.calibration_attempt(com)
    }

    /// Synthesize a frequency. The result is the frequency that the synthesizer reaches.
    pub fn set_pll(&mut self, com: &mut Com<'_>, hz: u64) -> (outcome: Outcome<u64>)
        requires
            old(self)@.crystal_hz <= u64::MAX / 2,
        ensures
            old(self)@.set_pll(old(com)@, hz) == (Run {
                state: final(self)@,
                line: final(com)@,
                outcome,
            }),
    {
        proof {
            reveal(TunerState::set_pll);
        }
        let prepare: [(u8, u8, u8); 3] = [(0x10, 0, 0x10), (0x1a, 0, 0x0c), (0x12, 0x80, 0xe0)];
        assert(prepare@ =~= pll_prepare_rows());
        proof {
            lemma_write_many_keeps(self@, com@, prepare@);
        }
        self.write_many(com, &prepare)?;
        let status: Vec<u8> = self.read(com, 5)?;
        let fine: u8 = status[4] / 16 % 4;
        let power_ref: u8 = if self.kind == TunerKind::R820T {
            2
        } else {
            1
        };
        match pll(hz, self.crystal_hz, fine, power_ref) {
            Ok(plan) => self.apply_pll(com, plan),
            Err(error) => Err(Halt::Failed(error)),
        }
    }

    /// Program a planned synthesizer setting and wait for the lock.
    fn apply_pll(&mut self, com: &mut Com<'_>, plan: Pll) -> (outcome: Outcome<u64>)
        requires
            plan.divider <= 7,
        ensures
            old(self)@.apply_pll(old(com)@, plan) == (Run {
                state: final(self)@,
                line: final(com)@,
                outcome,
            }),
    {
        proof {
            reveal(TunerState::apply_pll);
        }
        let rows: [(u8, u8, u8); 5] = [
            (0x10, plan.divider * 32, 0xe0),
            (0x14, plan.integer, 0xff),
            (0x12, if plan.sdm == 0 { 8 } else { 0 }, 8),
            (0x16, (plan.sdm / 256) as u8, 0xff),
            (0x15, (plan.sdm % 256) as u8, 0xff),
        ];
        assert(rows@ =~= pll_rows(plan));
        self.write_many(com, &rows)?;
        self.await_lock(com, plan.actual_hz, 2)
    }

    /// Wait for the synthesizer to lock, raising its current between attempts.
    fn await_lock(&mut self, com: &mut Com<'_>, actual_hz: u64, attempts: u8) -> (outcome: Outcome<
        u64,
    >)
        ensures
            old(self)@.await_lock(old(com)@, actual_hz, attempts as nat) == (Run {
                state: final(self)@,
                line: final(com)@,
                outcome,
            }),
        decreases attempts,
    {
        if attempts == 0 {
            return Err(Halt::Failed(Error::PllUnlocked));
        }
        let status: Vec<u8> = self.read(com, 3)?;
        if status[2] / 64 % 2 == 1 {
            self.write(com, 0x1a, 8, 8)?;
            return Ok(actual_hz);
        }
        if attempts == 1 {
            return Err(Halt::Failed(Error::PllUnlocked));
        }
        self.write(com, 0x12, 0x60, 0xe0)?;
        self.await_lock(com, actual_hz, attempts - 1)
    }

    /// Read registers from register 0 on.
    pub fn read(&self, com: &mut Com<'_>, count: u16) -> (outcome: Outcome<Vec<u8>>)
        ensures
            self@.read(old(com)@, count) == (Run {
                state: self@,
                line: final(com)@,
                outcome: crate::protocol::read_outcome(outcome),
            }),
            outcome matches Ok(bytes) ==> bytes@.len() == count,
    {
        let mut bytes: Vec<u8> = com.i2c_read(self.address(), 0, count)?;
        let ghost raw = bytes@;
        let mut i: usize = 0;
        while i < bytes.len()
            invariant
                i <= bytes@.len() == raw.len(),
                forall|k: int| 0 <= k < i ==> bytes@[k] == reversed(#[trigger] raw[k]),
                forall|k: int| i <= k < raw.len() ==> bytes@[k] == #[trigger] raw[k],
            decreases bytes@.len() - i,
        {
            let byte: u8 = bytes[i];
            bytes.set(i, reverse_bits(byte));
            i = i + 1;
        }
        assert(bytes@ =~= raw.map_values(|byte: u8| reversed(byte)));
        Ok(bytes)
    }
}

/// A byte with its bits in reverse order.
pub fn reverse_bits(byte: u8) -> (result: u8)
    ensures
        result == reversed(byte),
{
    byte % 2 * 128 + byte / 2 % 2 * 64 + byte / 4 % 2 * 32 + byte / 8 % 2 * 16 + byte / 16 % 2 * 8
        + byte / 32 % 2 * 4 + byte / 64 % 2 * 2 + byte / 128
}

/// Antenna input of a Blog V4 board for a frequency.
pub fn v4_input(hz: u64) -> (input: u8)
    ensures
        input == v4_band(hz),
{
    if hz < XTAL_HZ {
        2
    } else if hz < 250_000_000 {
        1
    } else {
        0
    }
}

/// How many steps of LNA and mixer gain a requested gain takes.
pub fn gain_steps(gain: Decibels) -> (steps: (u8, u8))
    ensures
        steps == gain_split(gain),
{
    match gain.to_steps() {
        GainSteps::NotANumber => (0, 0),
        GainSteps::Steps(steps) => {
            let full: u8 = if steps < 0 {
                0
            } else if steps >= 16 * FULL_STEP {
                15
            } else {
                (steps / FULL_STEP) as u8
            };
            if full < 15 && steps >= FULL_STEP * (full as i64) + LNA_STEP {
                (full + 1, full)
            } else {
                (full, full)
            }
        },
    }
}

/// Changing registers leaves the tuner at its crystal frequency and antenna input.
pub proof fn lemma_write_many_keeps(tuner: TunerState, line: Line, rows: Rows)
    ensures
        tuner.write_many(line, rows).state.same_chip(tuner),
        tuner.write_many(line, rows).state.input == tuner.input,
    decreases rows.len(),
{
    if rows.len() > 0 {
        lemma_write_many_keeps(tuner, line, rows.drop_last());
    }
}

proof fn lemma_load_keeps(tuner: TunerState, line: Line, values: Seq<u8>)
    ensures
        tuner.load(line, values).state.same_chip(tuner),
        tuner.load(line, values).state.input == tuner.input,
    decreases values.len(),
{
    if values.len() > 0 {
        lemma_load_keeps(tuner, line, values.drop_last());
    }
}

proof fn lemma_reset_keeps(tuner: TunerState, line: Line, tables: Tables)
    ensures
        tuner.reset(line, tables).state.same_chip(tuner),
        tuner.reset(line, tables).state.input is None,
{
    reveal(TunerState::reset);
    let cleared = TunerState { input: None, ..tuner };
    let loaded = cleared.load(line, tables.initial);
    lemma_load_keeps(cleared, line, tables.initial);
    lemma_write_many_keeps(loaded.state, loaded.line, tables.before_calibration);
}

proof fn lemma_await_lock_keeps(tuner: TunerState, line: Line, actual_hz: u64, attempts: nat)
    ensures
        tuner.await_lock(line, actual_hz, attempts).state.same_chip(tuner),
        tuner.await_lock(line, actual_hz, attempts).state.input == tuner.input,
    decreases attempts,
{
    if attempts > 0 {
        let status = tuner.read(line, 3);
        let raised = tuner.write(status.line, 0x12, 0x60, 0xe0);
        lemma_await_lock_keeps(raised.state, raised.line, actual_hz, (attempts - 1) as nat);
    }
}

/// Setting the synthesizer leaves the tuner at its crystal frequency and antenna input.
pub proof fn lemma_set_pll_keeps(tuner: TunerState, line: Line, hz: u64)
    ensures
        tuner.set_pll(line, hz).state.same_chip(tuner),
        tuner.set_pll(line, hz).state.input == tuner.input,
{
    reveal(TunerState::set_pll);
    reveal(TunerState::apply_pll);
    let prepared = tuner.write_many(line, pll_prepare_rows());
    lemma_write_many_keeps(tuner, line, pll_prepare_rows());
    let status = prepared.state.read(prepared.line, 5);
    if status.outcome is Ok {
        let plan = pll::pll_plan(
            hz as nat,
            tuner.crystal_hz as nat,
            status.outcome->Ok_0[4] / 16 % 4,
            tuner.power_ref(),
        );
        let programmed = status.state.write_many(status.line, pll_rows(plan));
        lemma_write_many_keeps(status.state, status.line, pll_rows(plan));
        lemma_await_lock_keeps(programmed.state, programmed.line, plan.actual_hz, 2);
    }
}

proof fn lemma_calibration_keeps(tuner: TunerState, line: Line)
    ensures
        tuner.calibration_attempt(line).state.same_chip(tuner),
        tuner.calibration_attempt(line).state.input == tuner.input,
{
    reveal(TunerState::calibration_attempt);
    let started = tuner.write_many(line, calibration_start_rows());
    lemma_write_many_keeps(tuner, line, calibration_start_rows());
    let tuned = started.state.set_pll(started.line, 56_000_000);
    lemma_set_pll_keeps(started.state, started.line, 56_000_000);
    lemma_write_many_keeps(tuned.state, tuned.line, calibration_trigger_rows());
}

/// Powering the tuner down leaves it at its crystal frequency.
pub proof fn lemma_standby_keeps(tuner: TunerState, line: Line, rows: Rows)
    ensures
        tuner.standby(line, rows).state.same_chip(tuner),
    decreases rows.len(),
{
    if rows.len() > 0 {
        lemma_standby_keeps(tuner, line, rows.drop_last());
    }
}

/// Initializing, powering down, setting the gain and tuning leave the tuner at its crystal
/// frequency.
pub proof fn tuner_stays_the_same(
    tuner: TunerState,
    line: Line,
    tables: Tables,
    gain: GainConfig,
    hz: u64,
)
    ensures
        tuner.open(line, tables).state.same_chip(tuner),
        tuner.standby(line, tables.standby).state.same_chip(tuner),
        tuner.set_gain(line, gain).state.same_chip(tuner),
        tuner.tune(line, hz, tables).state.same_chip(tuner),
{
    reveal(TunerState::open);
    reveal(TunerState::calibrate);
    reveal(TunerState::finish);
    reveal(TunerState::tune);
    reveal(TunerState::select_input);
    lemma_standby_keeps(tuner, line, tables.standby);
    lemma_write_many_keeps(tuner, line, automatic_gain_rows());
    if gain is Manual {
        let (lna, mixer) = gain_split(gain->Manual_0);
        lemma_write_many_keeps(tuner, line, manual_gain_rows(lna, mixer));
    }
    let reset = tuner.reset(line, tables);
    lemma_reset_keeps(tuner, line, tables);
    lemma_calibration_keeps(reset.state, reset.line);
    let first = reset.state.calibration_attempt(reset.line);
    lemma_calibration_keeps(first.state, first.line);
    let calibrated = reset.state.calibrate(reset.line);
    if calibrated.outcome is Ok {
        let filter = calibrated.state.write(
            calibrated.line,
            0x0a,
            0x10 | calibrated.outcome->Ok_0,
            0x1f,
        );
        lemma_write_many_keeps(filter.state, filter.line, tables.after_calibration);
    }
    let lo = (hz + (tuner.upconvert(hz) + IF_HZ) as u64) as u64;
    let rows = mux_rows(
        registers::mux_row(
            if tuner.blog_v4 {
                tables.v4_mux
            } else {
                tables.standard_mux
            },
            lo,
        ),
    );
    let filtered = tuner.write_many(line, rows);
    lemma_write_many_keeps(tuner, line, rows);
    lemma_set_pll_keeps(filtered.state, filtered.line, lo);
}

proof fn lemma_write_many_step(tuner: TunerState, line: Line, rows: Rows, i: int)
    requires
        0 <= i < rows.len(),
        tuner.write_many(line, rows.take(i)).outcome is Ok,
    ensures
        ({
            let run = tuner.write_many(line, rows.take(i));
            tuner.write_many(line, rows.take(i + 1)) == run.state.write(
                run.line,
                rows[i].0,
                rows[i].1,
                rows[i].2,
            )
        }),
{
    assert(rows.take(i + 1).drop_last() =~= rows.take(i));
}

proof fn lemma_write_many_stuck(tuner: TunerState, line: Line, rows: Rows, i: int)
    requires
        0 <= i <= rows.len(),
        tuner.write_many(line, rows.take(i)).outcome is Err,
    ensures
        tuner.write_many(line, rows) == tuner.write_many(line, rows.take(i)),
    decreases rows.len() - i,
{
    if i < rows.len() {
        assert(rows.take(i + 1).drop_last() =~= rows.take(i));
        lemma_write_many_stuck(tuner, line, rows, i + 1);
    } else {
        assert(rows.take(i) =~= rows);
    }
}

proof fn lemma_load_step(tuner: TunerState, line: Line, values: Seq<u8>, i: int)
    requires
        0 <= i < values.len(),
        tuner.load(line, values.take(i)).outcome is Ok,
    ensures
        ({
            let run = tuner.load(line, values.take(i));
            let next = run.line.i2c_write(tuner.address(), (i + 5) as u8, values[i]);
            tuner.load(line, values.take(i + 1)) == next.with(
                if next.outcome is Ok {
                    TunerState { shadow: run.state.shadow.update(i, values[i]), ..run.state }
                } else {
                    run.state
                },
            )
        }),
{
    assert(values.take(i + 1).drop_last() =~= values.take(i));
}

proof fn lemma_load_stuck(tuner: TunerState, line: Line, values: Seq<u8>, i: int)
    requires
        0 <= i <= values.len(),
        tuner.load(line, values.take(i)).outcome is Err,
    ensures
        tuner.load(line, values) == tuner.load(line, values.take(i)),
    decreases values.len() - i,
{
    if i < values.len() {
        assert(values.take(i + 1).drop_last() =~= values.take(i));
        lemma_load_stuck(tuner, line, values, i + 1);
    } else {
        assert(values.take(i) =~= values);
    }
}

proof fn lemma_standby_step(tuner: TunerState, line: Line, rows: Rows, i: int)
    requires
        0 <= i < rows.len(),
        !tuner.standby(line, rows.take(i)).waits(),
    ensures
        ({
            let run = tuner.standby(line, rows.take(i));
            let next = run.state.write(run.line, rows[i].0, rows[i].1, rows[i].2);
            tuner.standby(line, rows.take(i + 1)) == if next.waits() || run.outcome is Ok {
                next
            } else {
                Run { state: next.state, line: next.line, outcome: run.outcome }
            }
        }),
{
    assert(rows.take(i + 1).drop_last() =~= rows.take(i));
}

proof fn lemma_standby_stuck(tuner: TunerState, line: Line, rows: Rows, i: int)
    requires
        0 <= i <= rows.len(),
        tuner.standby(line, rows.take(i)).waits(),
    ensures
        tuner.standby(line, rows) == tuner.standby(line, rows.take(i)),
    decreases rows.len() - i,
{
    if i < rows.len() {
        assert(rows.take(i + 1).drop_last() =~= rows.take(i));
        lemma_standby_stuck(tuner, line, rows, i + 1);
    } else {
        assert(rows.take(i) =~= rows);
    }
}

/// The steps that a valid gain takes do not exceed it, and no further step of the LNA fits below
/// it: with mixer steps of 1.2 dB and LNA steps of 2.3 dB, the programmed gain is the requested
/// one rounded down.
pub proof fn gain_is_rounded_down(gain: Decibels)
    requires
        gain.in_range(),
    ensures
        ({
            let (lna, mixer) = gain_split(gain);
            let programmed = LNA_STEP * lna + (FULL_STEP - LNA_STEP) * mixer;
            &&& mixer <= lna <= mixer + 1
            &&& lna <= 15
            &&& programmed <= gain.steps()->Steps_0
            &&& gain.steps()->Steps_0 < programmed + LNA_STEP
        }),
{
}

/// What the tuner reports as received is not above the requested frequency, and less than 500 Hz
/// below it.
pub proof fn tuning_is_within_500_hz(tuner: TunerState, line: Line, hz: u64, tables: Tables)
    requires
        28_785_945 <= tuner.crystal_hz <= 28_814_054,
        tuner.blog_v4 || hz >= XTAL_HZ,
        hz + tuner.upconvert(hz) + IF_HZ <= pll::MAX_LO_HZ,
    ensures
        tuner.tune(line, hz, tables).outcome matches Ok(actual) ==> actual <= hz < actual + 500,
{
    reveal(TunerState::tune);
    let offset = (tuner.upconvert(hz) + IF_HZ) as u64;
    let lo = (hz + offset) as u64;
    let rows = mux_rows(
        registers::mux_row(
            if tuner.blog_v4 {
                tables.v4_mux
            } else {
                tables.standard_mux
            },
            lo,
        ),
    );
    let filtered = tuner.write_many(line, rows);
    lemma_write_many_keeps(tuner, line, rows);
    lemma_set_pll_reports(filtered.state, filtered.line, lo);
    pll::pll_covers_the_tuning_range(lo as nat, tuner.crystal_hz as nat, tuner.power_ref());
}

proof fn lemma_set_pll_reports(tuner: TunerState, line: Line, hz: u64)
    ensures
        tuner.set_pll(line, hz).outcome matches Ok(actual) ==> actual == pll::quantized(
            hz as nat,
            tuner.crystal_hz as nat,
        ) as u64,
{
    reveal(TunerState::set_pll);
    reveal(TunerState::apply_pll);
    let prepared = tuner.write_many(line, pll_prepare_rows());
    let status = prepared.state.read(prepared.line, 5);
    if status.outcome is Ok {
        let plan = pll::pll_plan(
            hz as nat,
            tuner.crystal_hz as nat,
            status.outcome->Ok_0[4] / 16 % 4,
            tuner.power_ref(),
        );
        let programmed = status.state.write_many(status.line, pll_rows(plan));
        lemma_await_lock_reports(programmed.state, programmed.line, plan.actual_hz, 2);
    }
}

proof fn lemma_await_lock_reports(tuner: TunerState, line: Line, actual_hz: u64, attempts: nat)
    ensures
        tuner.await_lock(line, actual_hz, attempts).outcome matches Ok(actual) ==> actual
            == actual_hz,
    decreases attempts,
{
    if attempts > 0 {
        let status = tuner.read(line, 3);
        let raised = tuner.write(status.line, 0x12, 0x60, 0xe0);
        lemma_await_lock_reports(raised.state, raised.line, actual_hz, (attempts - 1) as nat);
    }
}

} // verus!
