//! The shadow registers hold what the tuner acknowledged. A register change keeps the bits outside
//! its mask, so this is what makes it keep the bits that the tuner really has.

use crate::config::GainConfig;
use crate::protocol;
use crate::protocol::{Line, Run, Wire};
use crate::tuners::pll::Pll;
use crate::tuners::registers::{Rows, Tables};
use crate::tuners::{causality, pll, registers, TunerState};
use vstd::prelude::*;

verus! {

/// The register and value that request `i` writes to the tuner, if it does and the tuner
/// acknowledged it.
pub open spec fn acknowledged(line: Line, i: int, address: u8) -> Option<(u8, u8)> {
    match line.issued[i] {
        Wire::Out { value, index, data } => if value == address && index == 0x610 && data.len() == 2
            && i < line.replies.len() && line.replies[i] is Bytes {
            Some((data[0], data[1]))
        } else {
            None
        },
        Wire::In { .. } => None,
    }
}

/// What registers 5 to 31 hold after the requests `from..to`, if they held `shadow` before.
pub open spec fn registers_after(
    line: Line,
    from: nat,
    to: nat,
    address: u8,
    shadow: Seq<u8>,
) -> Seq<u8>
    decreases to,
{
    if to <= from {
        shadow
    } else {
        let before = registers_after(line, from, (to - 1) as nat, address, shadow);
        match acknowledged(line, to - 1, address) {
            Some((reg, value)) => before.update(reg - 5, value),
            None => before,
        }
    }
}

/// Whether a run leaves the shadow registers with what the tuner acknowledged.
pub open spec fn tracks<T>(tuner: TunerState, line: Line, run: Run<TunerState, T>) -> bool {
    &&& run.state.address() == tuner.address()
    &&& run.state.shadow == registers_after(
        run.line,
        line.issued.len(),
        run.line.issued.len(),
        tuner.address(),
        tuner.shadow,
    )
}

/// Whether no register write was acknowledged between two states of a line.
spec fn quiet(before: Line, after: Line, address: u8) -> bool {
    forall|i: int|
        before.issued.len() <= i < after.issued.len() ==> (#[trigger] acknowledged(
            after,
            i,
            address,
        )) is None
}

proof fn lemma_quiet(before: Line, after: Line, to: nat, address: u8, shadow: Seq<u8>)
    requires
        quiet(before, after, address),
        to <= after.issued.len(),
    ensures
        registers_after(after, before.issued.len(), to, address, shadow) == shadow,
    decreases to,
{
    if to > before.issued.len() {
        lemma_quiet(before, after, (to - 1) as nat, address, shadow);
        assert(acknowledged(after, to - 1, address) is None);
    }
}

proof fn lemma_same_prefix(
    less: Line,
    more: Line,
    from: nat,
    to: nat,
    address: u8,
    shadow: Seq<u8>,
)
    requires
        less.replies == more.replies,
        less.issued.is_prefix_of(more.issued),
        to <= less.issued.len(),
    ensures
        registers_after(less, from, to, address, shadow) == registers_after(
            more,
            from,
            to,
            address,
            shadow,
        ),
    decreases to,
{
    if to > from {
        lemma_same_prefix(less, more, from, (to - 1) as nat, address, shadow);
        assert(less.issued[to - 1] == more.issued[to - 1]);
    }
}

proof fn lemma_splits(line: Line, from: nat, mid: nat, to: nat, address: u8, shadow: Seq<u8>)
    requires
        from <= mid <= to,
    ensures
        registers_after(line, from, to, address, shadow) == registers_after(
            line,
            mid,
            to,
            address,
            registers_after(line, from, mid, address, shadow),
        ),
    decreases to,
{
    if to > mid {
        lemma_splits(line, from, mid, (to - 1) as nat, address, shadow);
    }
}

/// A run that goes on from a run.
proof fn lemma_chain<T, U>(
    tuner: TunerState,
    line: Line,
    first: Run<TunerState, T>,
    second: Run<TunerState, U>,
)
    requires
        tracks(tuner, line, first),
        tracks(first.state, first.line, second),
        first.follows(line),
        second.follows(first.line),
    ensures
        tracks(tuner, line, second),
{
    let from = line.issued.len();
    let mid = first.line.issued.len();
    let to = second.line.issued.len();
    lemma_same_prefix(first.line, second.line, from, mid, tuner.address(), tuner.shadow);
    lemma_splits(second.line, from, mid, to, tuner.address(), tuner.shadow);
}

proof fn lemma_i2c_read_is_quiet(line: Line, address: u8, reg: u8, length: u16)
    ensures
        quiet(line, line.i2c_read(address, reg, length).line, address),
{
}

proof fn lemma_sys_write_is_quiet(line: Line, reg: u16, value: u8, address: u8)
    ensures
        quiet(line, line.sys_write(reg, value).line, address),
{
    assert(0x200u16 | 0x10 == 0x210) by (bit_vector);
}

proof fn lemma_sys_update_is_quiet(line: Line, reg: u16, mask: u8, address: u8)
    ensures
        quiet(line, line.sys_set(reg, mask).line, address),
        quiet(line, line.sys_clear(reg, mask).line, address),
{
    let old = line.sys_read(reg);
    if old.outcome is Ok {
        lemma_sys_write_is_quiet(old.line, reg, old.outcome->Ok_0 | mask, address);
        lemma_sys_write_is_quiet(old.line, reg, old.outcome->Ok_0 & !mask, address);
    }
}

proof fn lemma_quiet_chain(line: Line, mid: Line, end: Line, address: u8)
    requires
        quiet(line, mid, address),
        quiet(mid, end, address),
        mid.replies == end.replies,
        mid.issued.is_prefix_of(end.issued),
    ensures
        quiet(line, end, address),
{
    assert forall|i: int| line.issued.len() <= i < end.issued.len() implies (
    #[trigger] acknowledged(end, i, address)) is None by {
        if i < mid.issued.len() {
            assert(acknowledged(mid, i, address) is None);
            assert(mid.issued[i] == end.issued[i]);
        }
    }
}

proof fn lemma_gpio_is_quiet(line: Line, pin: u8, high: bool, address: u8)
    requires
        !line.awaits(),
    ensures
        quiet(line, line.gpio(pin, high).line, address),
{
    let mask = 1u8 << pin;
    let latch = if high {
        line.sys_set(0x3001, mask)
    } else {
        line.sys_clear(0x3001, mask)
    };
    lemma_sys_update_is_quiet(line, 0x3001, mask, address);
    protocol::causality::sys_set_is_causal(line, line, 0x3001, mask);
    protocol::causality::sys_clear_is_causal(line, line, 0x3001, mask);
    if latch.outcome is Ok {
        let direction = latch.line.sys_clear(0x3004, mask);
        lemma_sys_update_is_quiet(latch.line, 0x3004, mask, address);
        protocol::causality::sys_clear_is_causal(latch.line, latch.line, 0x3004, mask);
        lemma_quiet_chain(line, latch.line, direction.line, address);
        if direction.outcome is Ok {
            let output = direction.line.sys_set(0x3003, mask);
            lemma_sys_update_is_quiet(direction.line, 0x3003, mask, address);
            protocol::causality::sys_set_is_causal(
                direction.line,
                direction.line,
                0x3003,
                mask,
            );
            lemma_quiet_chain(line, direction.line, output.line, address);
        }
    }
}

/// Changing a register keeps the shadow registers true.
pub proof fn write_tracks(tuner: TunerState, line: Line, reg: u8, value: u8, mask: u8)
    requires
        !line.awaits(),
    ensures
        tracks(tuner, line, tuner.write(line, reg, value, mask)),
{
    assert(0x600u16 | 0x10 == 0x610) by (bit_vector);
    let run = tuner.write(line, reg, value, mask);
    let n = line.issued.len();
    assert(run.line.issued.len() == n + 1);
    assert(registers_after(run.line, n, n, tuner.address(), tuner.shadow) == tuner.shadow);
}

/// Changing registers keeps the shadow registers true.
pub proof fn write_many_tracks(tuner: TunerState, line: Line, rows: Rows)
    requires
        !line.awaits(),
    ensures
        tracks(tuner, line, tuner.write_many(line, rows)),
    decreases rows.len(),
{
    if rows.len() > 0 {
        let row = rows.last();
        let front = tuner.write_many(line, rows.drop_last());
        write_many_tracks(tuner, line, rows.drop_last());
        causality::write_many_is_causal(tuner, line, line, rows.drop_last());
        if front.outcome is Ok {
            write_tracks(front.state, front.line, row.0, row.1, row.2);
            causality::write_is_causal(front.state, front.line, front.line, row.0, row.1, row.2);
            lemma_chain(
                tuner,
                line,
                front,
                front.state.write(front.line, row.0, row.1, row.2),
            );
        }
    }
}

/// Loading registers keeps the shadow registers true.
pub proof fn load_tracks(tuner: TunerState, line: Line, values: Seq<u8>)
    requires
        !line.awaits(),
        values.len() <= 27,
    ensures
        tracks(tuner, line, tuner.load(line, values)),
    decreases values.len(),
{
    if values.len() > 0 {
        let i = values.len() - 1;
        let front = tuner.load(line, values.drop_last());
        load_tracks(tuner, line, values.drop_last());
        causality::load_is_causal(tuner, line, line, values.drop_last());
        if front.outcome is Ok {
            assert(0x600u16 | 0x10 == 0x610) by (bit_vector);
            let all = tuner.load(line, values);
            let n = front.line.issued.len();
            assert(registers_after(all.line, n, n, tuner.address(), front.state.shadow)
                == front.state.shadow);
            causality::load_is_causal(tuner, line, line, values);
            assert(all.follows(front.line));
            lemma_chain(tuner, line, front, all);
        }
    }
}

/// Powering down keeps the shadow registers true.
pub proof fn standby_tracks(tuner: TunerState, line: Line, rows: Rows)
    requires
        !line.awaits(),
    ensures
        tracks(tuner, line, tuner.standby(line, rows)),
    decreases rows.len(),
{
    if rows.len() > 0 {
        let row = rows.last();
        let front = tuner.standby(line, rows.drop_last());
        standby_tracks(tuner, line, rows.drop_last());
        causality::standby_is_causal(tuner, line, line, rows.drop_last());
        if !front.waits() {
            write_tracks(front.state, front.line, row.0, row.1, row.2);
            causality::write_is_causal(front.state, front.line, front.line, row.0, row.1, row.2);
            lemma_chain(
                tuner,
                line,
                front,
                front.state.write(front.line, row.0, row.1, row.2),
            );
        }
    }
}

/// Reading keeps the shadow registers true.
pub proof fn read_tracks(tuner: TunerState, line: Line, count: u16)
    ensures
        tracks(tuner, line, tuner.read(line, count)),
{
    let run = tuner.read(line, count);
    lemma_i2c_read_is_quiet(line, tuner.address(), 0, count);
    lemma_quiet(line, run.line, run.line.issued.len(), tuner.address(), tuner.shadow);
}

/// Waiting for the lock keeps the shadow registers true.
pub proof fn await_lock_tracks(tuner: TunerState, line: Line, actual_hz: u64, attempts: nat)
    requires
        !line.awaits(),
    ensures
        tracks(tuner, line, tuner.await_lock(line, actual_hz, attempts)),
    decreases attempts,
{
    if attempts > 0 {
        let status = tuner.read(line, 3);
        read_tracks(tuner, line, 3);
        causality::read_is_causal(tuner, line, line, 3);
        if status.outcome is Ok {
            let locked = tuner.write(status.line, 0x1a, 8, 8);
            write_tracks(tuner, status.line, 0x1a, 8, 8);
            causality::write_is_causal(tuner, status.line, status.line, 0x1a, 8, 8);
            lemma_chain(tuner, line, status, locked);
            let raised = tuner.write(status.line, 0x12, 0x60, 0xe0);
            write_tracks(tuner, status.line, 0x12, 0x60, 0xe0);
            causality::write_is_causal(tuner, status.line, status.line, 0x12, 0x60, 0xe0);
            lemma_chain(tuner, line, status, raised);
            if raised.outcome is Ok {
                let left = (attempts - 1) as nat;
                let rest = raised.state.await_lock(raised.line, actual_hz, left);
                await_lock_tracks(raised.state, raised.line, actual_hz, left);
                causality::await_lock_is_causal(
                    raised.state,
                    raised.line,
                    raised.line,
                    actual_hz,
                    left,
                );
                assert(raised.follows(line));
                lemma_chain(tuner, line, raised, rest);
            }
        }
    }
}

/// Programming the synthesizer keeps the shadow registers true.
pub proof fn apply_pll_tracks(tuner: TunerState, line: Line, plan: Pll)
    requires
        !line.awaits(),
    ensures
        tracks(tuner, line, tuner.apply_pll(line, plan)),
{
    reveal(TunerState::apply_pll);
    let rows = crate::tuners::pll_rows(plan);
    let programmed = tuner.write_many(line, rows);
    write_many_tracks(tuner, line, rows);
    causality::write_many_is_causal(tuner, line, line, rows);
    if programmed.outcome is Ok {
        let locked = programmed.state.await_lock(programmed.line, plan.actual_hz, 2);
        await_lock_tracks(programmed.state, programmed.line, plan.actual_hz, 2);
        causality::await_lock_is_causal(
            programmed.state,
            programmed.line,
            programmed.line,
            plan.actual_hz,
            2,
        );
        lemma_chain(tuner, line, programmed, locked);
    }
}

/// Synthesizing a frequency keeps the shadow registers true.
pub proof fn set_pll_tracks(tuner: TunerState, line: Line, hz: u64)
    requires
        !line.awaits(),
    ensures
        tracks(tuner, line, tuner.set_pll(line, hz)),
{
    reveal(TunerState::set_pll);
    let rows = crate::tuners::pll_prepare_rows();
    let prepared = tuner.write_many(line, rows);
    write_many_tracks(tuner, line, rows);
    causality::write_many_is_causal(tuner, line, line, rows);
    if prepared.outcome is Ok {
        let status = prepared.state.read(prepared.line, 5);
        read_tracks(prepared.state, prepared.line, 5);
        causality::read_is_causal(prepared.state, prepared.line, prepared.line, 5);
        lemma_chain(tuner, line, prepared, status);
        if status.outcome is Ok {
            let plan = pll::pll_plan(
                hz as nat,
                tuner.crystal_hz as nat,
                status.outcome->Ok_0[4] / 16 % 4,
                tuner.power_ref(),
            );
            apply_pll_tracks(status.state, status.line, plan);
            causality::apply_pll_is_causal(status.state, status.line, status.line, plan);
            assert(status.follows(line));
            lemma_chain(tuner, line, status, status.state.apply_pll(status.line, plan));
        }
    }
}

/// A filter calibration keeps the shadow registers true.
pub proof fn calibration_attempt_tracks(tuner: TunerState, line: Line)
    requires
        !line.awaits(),
    ensures
        tracks(tuner, line, tuner.calibration_attempt(line)),
{
    reveal(TunerState::calibration_attempt);
    let rows = crate::tuners::calibration_start_rows();
    let started = tuner.write_many(line, rows);
    write_many_tracks(tuner, line, rows);
    causality::write_many_is_causal(tuner, line, line, rows);
    if started.outcome is Ok {
        let tuned = started.state.set_pll(started.line, 56_000_000);
        set_pll_tracks(started.state, started.line, 56_000_000);
        causality::set_pll_is_causal(started.state, started.line, started.line, 56_000_000);
        lemma_chain(tuner, line, started, tuned);
        assert(tuned.follows(line));
        if tuned.outcome is Ok {
            let trigger = crate::tuners::calibration_trigger_rows();
            let triggered = tuned.state.write_many(tuned.line, trigger);
            write_many_tracks(tuned.state, tuned.line, trigger);
            causality::write_many_is_causal(tuned.state, tuned.line, tuned.line, trigger);
            lemma_chain(tuner, line, tuned, triggered);
            assert(triggered.follows(line));
            if triggered.outcome is Ok {
                read_tracks(triggered.state, triggered.line, 5);
                causality::read_is_causal(triggered.state, triggered.line, triggered.line, 5);
                lemma_chain(tuner, line, triggered, triggered.state.read(triggered.line, 5));
            }
        }
    }
}

/// Calibrating the filter keeps the shadow registers true.
pub proof fn calibrate_tracks(tuner: TunerState, line: Line)
    requires
        !line.awaits(),
    ensures
        tracks(tuner, line, tuner.calibrate(line)),
{
    reveal(TunerState::calibrate);
    let first = tuner.calibration_attempt(line);
    calibration_attempt_tracks(tuner, line);
    causality::calibration_attempt_is_causal(tuner, line, line);
    if first.outcome is Ok {
        calibration_attempt_tracks(first.state, first.line);
        causality::calibration_attempt_is_causal(first.state, first.line, first.line);
        lemma_chain(tuner, line, first, first.state.calibration_attempt(first.line));
    }
}

/// Initializing the tuner keeps the shadow registers true.
pub proof fn open_tracks(tuner: TunerState, line: Line, tables: Tables)
    requires
        !line.awaits(),
        tables.initial.len() <= 27,
    ensures
        tracks(tuner, line, tuner.open(line, tables)),
{
    reveal(TunerState::open);
    reveal(TunerState::reset);
    let cleared = TunerState { input: None, ..tuner };
    let loaded = cleared.load(line, tables.initial);
    load_tracks(cleared, line, tables.initial);
    causality::load_is_causal(cleared, line, line, tables.initial);
    let reset = tuner.reset(line, tables);
    if loaded.outcome is Ok {
        write_many_tracks(loaded.state, loaded.line, tables.before_calibration);
        causality::write_many_is_causal(
            loaded.state,
            loaded.line,
            loaded.line,
            tables.before_calibration,
        );
        lemma_chain(tuner, line, loaded, reset);
    }
    causality::reset_is_causal(tuner, line, line, tables);
    if reset.outcome is Ok {
        let calibrated = reset.state.calibrate(reset.line);
        calibrate_tracks(reset.state, reset.line);
        causality::calibrate_is_causal(reset.state, reset.line, reset.line);
        lemma_chain(tuner, line, reset, calibrated);
        assert(calibrated.follows(line));
        if calibrated.outcome is Ok {
            let code = calibrated.outcome->Ok_0;
            lemma_finish_tracks(calibrated.state, calibrated.line, code, tables);
            causality::finish_is_causal(
                calibrated.state,
                calibrated.line,
                calibrated.line,
                code,
                tables,
            );
            lemma_chain(
                tuner,
                line,
                calibrated,
                calibrated.state.finish(calibrated.line, code, tables),
            );
        }
    }
}

proof fn lemma_finish_tracks(tuner: TunerState, line: Line, code: u8, tables: Tables)
    requires
        !line.awaits(),
    ensures
        tracks(tuner, line, tuner.finish(line, code, tables)),
{
    reveal(TunerState::finish);
    let filter = tuner.write(line, 0x0a, 0x10 | code, 0x1f);
    write_tracks(tuner, line, 0x0a, 0x10 | code, 0x1f);
    causality::write_is_causal(tuner, line, line, 0x0a, 0x10 | code, 0x1f);
    if filter.outcome is Ok {
        write_many_tracks(filter.state, filter.line, tables.after_calibration);
        causality::write_many_is_causal(
            filter.state,
            filter.line,
            filter.line,
            tables.after_calibration,
        );
        lemma_chain(
            tuner,
            line,
            filter,
            filter.state.write_many(filter.line, tables.after_calibration),
        );
    }
}

/// Setting the gain keeps the shadow registers true.
pub proof fn set_gain_tracks(tuner: TunerState, line: Line, gain: GainConfig)
    requires
        !line.awaits(),
    ensures
        tracks(tuner, line, tuner.set_gain(line, gain)),
{
    match gain {
        GainConfig::Auto => write_many_tracks(tuner, line, crate::tuners::automatic_gain_rows()),
        GainConfig::Manual(gain) => write_many_tracks(
            tuner,
            line,
            crate::tuners::manual_gain_rows(
                crate::tuners::gain_split(gain).0,
                crate::tuners::gain_split(gain).1,
            ),
        ),
    }
}

/// Switching the antenna input keeps the shadow registers true.
pub proof fn select_input_tracks(tuner: TunerState, line: Line, input: u8)
    requires
        !line.awaits(),
    ensures
        tracks(tuner, line, tuner.select_input(line, input)),
{
    reveal(TunerState::select_input);
    if tuner.input != Some(input) {
        if tuner.blog_v4 {
            let value: u8 = if input == 2 {
                8
            } else {
                0
            };
            let cable = tuner.write(line, 0x06, value, 8);
            write_tracks(tuner, line, 0x06, value, 8);
            causality::write_is_causal(tuner, line, line, 0x06, value, 8);
            if cable.outcome is Ok {
                let value: u8 = if input == 0 {
                    0
                } else if input == 1 {
                    0x60
                } else {
                    0x20
                };
                let air = cable.state.write(cable.line, 0x05, value, 0x60);
                write_tracks(cable.state, cable.line, 0x05, value, 0x60);
                causality::write_is_causal(cable.state, cable.line, cable.line, 0x05, value, 0x60);
                lemma_chain(tuner, line, cable, air);
                assert(air.follows(line));
                if air.outcome is Ok {
                    let relay = air.line.gpio(5, input != 2);
                    lemma_gpio_is_quiet(air.line, 5, input != 2, tuner.address());
                    protocol::causality::gpio_is_causal(
                        air.line,
                        air.line,
                        5,
                        input != 2,
                    );
                    lemma_quiet(
                        air.line,
                        relay.line,
                        relay.line.issued.len(),
                        tuner.address(),
                        air.state.shadow,
                    );
                    lemma_chain(tuner, line, air, relay.with(air.state));
                }
            }
        } else {
            write_tracks(
                tuner,
                line,
                0x05,
                if input == 0 {
                    0
                } else {
                    0x60
                },
                0x60,
            );
        }
    }
}

/// Tuning keeps the shadow registers true.
pub proof fn tune_tracks(tuner: TunerState, line: Line, hz: u64, tables: Tables)
    requires
        !line.awaits(),
    ensures
        tracks(tuner, line, tuner.tune(line, hz, tables)),
{
    reveal(TunerState::tune);
    let offset = (tuner.upconvert(hz) + crate::tuners::IF_HZ) as u64;
    let lo = (hz + offset) as u64;
    let rows = crate::tuners::mux_rows(
        registers::mux_row(
            if tuner.blog_v4 {
                tables.v4_mux
            } else {
                tables.standard_mux
            },
            lo,
        ),
    );
    let filtered = tuner.write_many(line, rows);
    write_many_tracks(tuner, line, rows);
    causality::write_many_is_causal(tuner, line, line, rows);
    if filtered.outcome is Ok {
        let synthesized = filtered.state.set_pll(filtered.line, lo);
        set_pll_tracks(filtered.state, filtered.line, lo);
        causality::set_pll_is_causal(filtered.state, filtered.line, filtered.line, lo);
        lemma_chain(tuner, line, filtered, synthesized);
        assert(synthesized.follows(line));
        if synthesized.outcome is Ok {
            let input = tuner.input_for(hz);
            select_input_tracks(synthesized.state, synthesized.line, input);
            causality::select_input_is_causal(
                synthesized.state,
                synthesized.line,
                synthesized.line,
                input,
            );
            lemma_chain(
                tuner,
                line,
                synthesized,
                synthesized.state.select_input(synthesized.line, input),
            );
        }
    }
}

} // verus!
