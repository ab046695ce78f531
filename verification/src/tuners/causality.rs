//! Tuner control is causal, so that it can be run again with one more reply.

use crate::config::GainConfig;
use crate::protocol::{causality, Line};
use crate::tuners::pll::Pll;
use crate::tuners::registers::{Rows, Tables};
use crate::tuners::{pll, registers, TunerState};
use vstd::prelude::*;

verus! {

/// Looking for a chip ID is causal.
pub proof fn probe_is_causal(less: Line, more: Line, address: u8)
    ensures
        causality::causal(less, more, less.probe(address), more.probe(address)),
{
    causality::i2c_read_is_causal(less, more, address, 0, 1);
}

/// Finding the tuner is causal.
pub proof fn detect_is_causal(less: Line, more: Line)
    ensures
        causality::causal(less, more, less.detect(), more.detect()),
{
    probe_is_causal(less, more, 0x34);
    probe_is_causal(less.probe(0x34).line, more.probe(0x34).line, 0x74);
}

/// Changing a register is causal.
pub proof fn write_is_causal(
    tuner: TunerState,
    less: Line,
    more: Line,
    reg: u8,
    value: u8,
    mask: u8,
)
    ensures
        causality::causal(
            less,
            more,
            tuner.write(less, reg, value, mask),
            tuner.write(more, reg, value, mask),
        ),
{
    causality::i2c_write_is_causal(
        less,
        more,
        tuner.address(),
        reg,
        crate::tuners::merged(tuner.shadow[reg - 5], value, mask),
    );
}

/// Changing registers in order is causal.
pub proof fn write_many_is_causal(tuner: TunerState, less: Line, more: Line, rows: Rows)
    ensures
        causality::causal(
            less,
            more,
            tuner.write_many(less, rows),
            tuner.write_many(more, rows),
        ),
    decreases rows.len(),
{
    if rows.len() > 0 {
        let row = rows.last();
        let a = tuner.write_many(less, rows.drop_last());
        let b = tuner.write_many(more, rows.drop_last());
        write_many_is_causal(tuner, less, more, rows.drop_last());
        write_is_causal(a.state, a.line, b.line, row.0, row.1, row.2);
        write_is_causal(b.state, a.line, b.line, row.0, row.1, row.2);
    }
}

/// Loading registers is causal.
pub proof fn load_is_causal(tuner: TunerState, less: Line, more: Line, values: Seq<u8>)
    ensures
        causality::causal(
            less,
            more,
            tuner.load(less, values),
            tuner.load(more, values),
        ),
    decreases values.len(),
{
    if values.len() > 0 {
        let i = values.len() - 1;
        load_is_causal(tuner, less, more, values.drop_last());
        causality::i2c_write_is_causal(
            tuner.load(less, values.drop_last()).line,
            tuner.load(more, values.drop_last()).line,
            tuner.address(),
            (i + 5) as u8,
            values[i],
        );
    }
}

/// Powering down is causal.
pub proof fn standby_is_causal(tuner: TunerState, less: Line, more: Line, rows: Rows)
    ensures
        causality::causal(
            less,
            more,
            tuner.standby(less, rows),
            tuner.standby(more, rows),
        ),
    decreases rows.len(),
{
    if rows.len() > 0 {
        let row = rows.last();
        let a = tuner.standby(less, rows.drop_last());
        let b = tuner.standby(more, rows.drop_last());
        standby_is_causal(tuner, less, more, rows.drop_last());
        write_is_causal(a.state, a.line, b.line, row.0, row.1, row.2);
        write_is_causal(b.state, a.line, b.line, row.0, row.1, row.2);
    }
}

/// Reading registers is causal.
pub proof fn read_is_causal(tuner: TunerState, less: Line, more: Line, count: u16)
    ensures
        causality::causal(
            less,
            more,
            tuner.read(less, count),
            tuner.read(more, count),
        ),
{
    causality::i2c_read_is_causal(less, more, tuner.address(), 0, count);
}

/// Waiting for the lock is causal.
pub proof fn await_lock_is_causal(
    tuner: TunerState,
    less: Line,
    more: Line,
    actual_hz: u64,
    attempts: nat,
)
    ensures
        causality::causal(
            less,
            more,
            tuner.await_lock(less, actual_hz, attempts),
            tuner.await_lock(more, actual_hz, attempts),
        ),
    decreases attempts,
{
    if attempts > 0 {
        let a = tuner.read(less, 3);
        let b = tuner.read(more, 3);
        read_is_causal(tuner, less, more, 3);
        write_is_causal(tuner, a.line, b.line, 0x1a, 8, 8);
        write_is_causal(tuner, a.line, b.line, 0x12, 0x60, 0xe0);
        let c = tuner.write(a.line, 0x12, 0x60, 0xe0);
        let d = tuner.write(b.line, 0x12, 0x60, 0xe0);
        await_lock_is_causal(c.state, c.line, d.line, actual_hz, (attempts - 1) as nat);
        await_lock_is_causal(d.state, c.line, d.line, actual_hz, (attempts - 1) as nat);
    }
}

/// Programming the synthesizer is causal.
pub proof fn apply_pll_is_causal(tuner: TunerState, less: Line, more: Line, plan: Pll)
    ensures
        causality::causal(
            less,
            more,
            tuner.apply_pll(less, plan),
            tuner.apply_pll(more, plan),
        ),
{
    reveal(TunerState::apply_pll);
    let rows = crate::tuners::pll_rows(plan);
    let a = tuner.write_many(less, rows);
    let b = tuner.write_many(more, rows);
    write_many_is_causal(tuner, less, more, rows);
    await_lock_is_causal(a.state, a.line, b.line, plan.actual_hz, 2);
    await_lock_is_causal(b.state, a.line, b.line, plan.actual_hz, 2);
}

/// Synthesizing a frequency is causal.
pub proof fn set_pll_is_causal(tuner: TunerState, less: Line, more: Line, hz: u64)
    ensures
        causality::causal(
            less,
            more,
            tuner.set_pll(less, hz),
            tuner.set_pll(more, hz),
        ),
{
    reveal(TunerState::set_pll);
    let rows = crate::tuners::pll_prepare_rows();
    let a = tuner.write_many(less, rows);
    let b = tuner.write_many(more, rows);
    write_many_is_causal(tuner, less, more, rows);
    read_is_causal(a.state, a.line, b.line, 5);
    read_is_causal(b.state, a.line, b.line, 5);
    let c = a.state.read(a.line, 5);
    let d = b.state.read(b.line, 5);
    if c.outcome is Ok {
        let plan = pll::pll_plan(
            hz as nat,
            tuner.crystal_hz as nat,
            c.outcome->Ok_0[4] / 16 % 4,
            tuner.power_ref(),
        );
        apply_pll_is_causal(c.state, c.line, d.line, plan);
    }
    if d.outcome is Ok {
        let plan = pll::pll_plan(
            hz as nat,
            tuner.crystal_hz as nat,
            d.outcome->Ok_0[4] / 16 % 4,
            tuner.power_ref(),
        );
        apply_pll_is_causal(d.state, c.line, d.line, plan);
    }
}

/// A filter calibration is causal.
pub proof fn calibration_attempt_is_causal(tuner: TunerState, less: Line, more: Line)
    ensures
        causality::causal(
            less,
            more,
            tuner.calibration_attempt(less),
            tuner.calibration_attempt(more),
        ),
{
    reveal(TunerState::calibration_attempt);
    let start = crate::tuners::calibration_start_rows();
    let a = tuner.write_many(less, start);
    let b = tuner.write_many(more, start);
    write_many_is_causal(tuner, less, more, start);
    let c = a.state.set_pll(a.line, 56_000_000);
    let d = b.state.set_pll(b.line, 56_000_000);
    set_pll_is_causal(a.state, a.line, b.line, 56_000_000);
    set_pll_is_causal(b.state, a.line, b.line, 56_000_000);
    let trigger = crate::tuners::calibration_trigger_rows();
    let e = c.state.write_many(c.line, trigger);
    let f = d.state.write_many(d.line, trigger);
    write_many_is_causal(c.state, c.line, d.line, trigger);
    write_many_is_causal(d.state, c.line, d.line, trigger);
    read_is_causal(e.state, e.line, f.line, 5);
    read_is_causal(f.state, e.line, f.line, 5);
}

/// Calibrating the filter is causal.
pub proof fn calibrate_is_causal(tuner: TunerState, less: Line, more: Line)
    ensures
        causality::causal(
            less,
            more,
            tuner.calibrate(less),
            tuner.calibrate(more),
        ),
{
    reveal(TunerState::calibrate);
    let a = tuner.calibration_attempt(less);
    let b = tuner.calibration_attempt(more);
    calibration_attempt_is_causal(tuner, less, more);
    calibration_attempt_is_causal(a.state, a.line, b.line);
    calibration_attempt_is_causal(b.state, a.line, b.line);
}

/// Loading the power-on values is causal.
pub proof fn reset_is_causal(tuner: TunerState, less: Line, more: Line, tables: Tables)
    ensures
        causality::causal(
            less,
            more,
            tuner.reset(less, tables),
            tuner.reset(more, tables),
        ),
{
    reveal(TunerState::reset);
    let cleared = TunerState { input: None, ..tuner };
    let a = cleared.load(less, tables.initial);
    let b = cleared.load(more, tables.initial);
    load_is_causal(cleared, less, more, tables.initial);
    write_many_is_causal(a.state, a.line, b.line, tables.before_calibration);
    write_many_is_causal(b.state, a.line, b.line, tables.before_calibration);
}

/// Finishing the initialization is causal.
pub proof fn finish_is_causal(tuner: TunerState, less: Line, more: Line, code: u8, tables: Tables)
    ensures
        causality::causal(
            less,
            more,
            tuner.finish(less, code, tables),
            tuner.finish(more, code, tables),
        ),
{
    reveal(TunerState::finish);
    let a = tuner.write(less, 0x0a, 0x10 | code, 0x1f);
    let b = tuner.write(more, 0x0a, 0x10 | code, 0x1f);
    write_is_causal(tuner, less, more, 0x0a, 0x10 | code, 0x1f);
    write_many_is_causal(a.state, a.line, b.line, tables.after_calibration);
    write_many_is_causal(b.state, a.line, b.line, tables.after_calibration);
}

/// Initializing the tuner is causal.
pub proof fn open_is_causal(tuner: TunerState, less: Line, more: Line, tables: Tables)
    ensures
        causality::causal(
            less,
            more,
            tuner.open(less, tables),
            tuner.open(more, tables),
        ),
{
    reveal(TunerState::open);
    let a = tuner.reset(less, tables);
    let b = tuner.reset(more, tables);
    reset_is_causal(tuner, less, more, tables);
    let c = a.state.calibrate(a.line);
    let d = b.state.calibrate(b.line);
    calibrate_is_causal(a.state, a.line, b.line);
    calibrate_is_causal(b.state, a.line, b.line);
    finish_is_causal(c.state, c.line, d.line, c.outcome->Ok_0, tables);
    finish_is_causal(d.state, c.line, d.line, d.outcome->Ok_0, tables);
}

/// Setting the gain is causal.
pub proof fn set_gain_is_causal(tuner: TunerState, less: Line, more: Line, gain: GainConfig)
    ensures
        causality::causal(
            less,
            more,
            tuner.set_gain(less, gain),
            tuner.set_gain(more, gain),
        ),
{
    let rows = match gain {
        GainConfig::Auto => crate::tuners::automatic_gain_rows(),
        GainConfig::Manual(gain) => crate::tuners::manual_gain_rows(
            crate::tuners::gain_split(gain).0,
            crate::tuners::gain_split(gain).1,
        ),
    };
    write_many_is_causal(tuner, less, more, rows);
}

/// Switching the antenna input is causal.
pub proof fn select_input_is_causal(tuner: TunerState, less: Line, more: Line, input: u8)
    ensures
        causality::causal(
            less,
            more,
            tuner.select_input(less, input),
            tuner.select_input(more, input),
        ),
{
    reveal(TunerState::select_input);
    if tuner.blog_v4 {
        let cable: u8 = if input == 2 {
            8
        } else {
            0
        };
        let air: u8 = if input == 0 {
            0
        } else if input == 1 {
            0x60
        } else {
            0x20
        };
        let a = tuner.write(less, 0x06, cable, 8);
        let b = tuner.write(more, 0x06, cable, 8);
        write_is_causal(tuner, less, more, 0x06, cable, 8);
        let c = a.state.write(a.line, 0x05, air, 0x60);
        let d = b.state.write(b.line, 0x05, air, 0x60);
        write_is_causal(a.state, a.line, b.line, 0x05, air, 0x60);
        write_is_causal(b.state, a.line, b.line, 0x05, air, 0x60);
        causality::gpio_is_causal(c.line, d.line, 5, input != 2);
    } else {
        write_is_causal(
            tuner,
            less,
            more,
            0x05,
            if input == 0 {
                0
            } else {
                0x60
            },
            0x60,
        );
    }
}

/// Tuning is causal.
pub proof fn tune_is_causal(tuner: TunerState, less: Line, more: Line, hz: u64, tables: Tables)
    ensures
        causality::causal(
            less,
            more,
            tuner.tune(less, hz, tables),
            tuner.tune(more, hz, tables),
        ),
{
    reveal(TunerState::tune);
    let offset = (tuner.upconvert(hz) + crate::tuners::IF_HZ) as u64;
    let lo = (hz + offset) as u64;
    let rows = crate::tuners::mux_rows(
        registers::mux_row(
            if tuner.blog_v4 {
                tables.v4_mux
            } else {
                tables.standard_mux
            },
            lo,
        ),
    );
    let a = tuner.write_many(less, rows);
    let b = tuner.write_many(more, rows);
    write_many_is_causal(tuner, less, more, rows);
    let c = a.state.set_pll(a.line, lo);
    let d = b.state.set_pll(b.line, lo);
    set_pll_is_causal(a.state, a.line, b.line, lo);
    set_pll_is_causal(b.state, a.line, b.line, lo);
    select_input_is_causal(c.state, c.line, d.line, tuner.input_for(hz));
    select_input_is_causal(d.state, c.line, d.line, tuner.input_for(hz));
}

} // verus!
