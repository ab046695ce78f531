//! What finding and initializing the tuner does to its registers.

use crate::errors::Error;
use crate::math;
use crate::protocol::{Halt, Line, Wire};
use crate::tuners;
use crate::tuners::programming;
use crate::tuners::registers;
use crate::tuners::registers::{Rows, Tables};
use crate::tuners::{causality, pll, TunerKind, TunerState};
use nusb::transfer::TransferError;
use vstd::prelude::*;

verus! {

/// The request that writes a tuner register.
pub open spec fn register_write(tuner: TunerState, reg: u8, value: u8) -> Wire {
    Wire::Out {
        value: if tuner.kind == TunerKind::R820T {
            0x34
        } else {
            0x74
        },
        index: 0x610,
        data: seq![reg, value],
    }
}

proof fn lemma_space()
    ensures
        0x600u16 | 0x10 == 0x610,
{
    assert(0x600u16 | 0x10 == 0x610) by (bit_vector);
}

/// Loading values writes them one by one to the registers from 5 on, and keeps those behind them.
pub proof fn loading_sets_the_registers(tuner: TunerState, line: Line, values: Seq<u8>)
    requires
        !line.awaits(),
        tuner.shadow.len() == 27,
        values.len() <= 27,
        tuner.load(line, values).outcome is Ok,
    ensures
        ({
            let run = tuner.load(line, values);
            let start = line.issued.len() as int;
            &&& run.state.shadow.len() == 27
            &&& run.state.same_chip(tuner)
            &&& run.state.input == tuner.input
            &&& !run.line.awaits()
            &&& run.line.issued.len() == start + values.len()
            &&& forall|i: int|
                0 <= i < values.len() ==> #[trigger] run.line.issued[start + i] == register_write(
                    tuner,
                    (i + 5) as u8,
                    values[i],
                )
            &&& forall|i: int|
                0 <= i < 27 ==> #[trigger] run.state.shadow[i] == (if i < values.len() {
                    values[i]
                } else {
                    tuner.shadow[i]
                })
        }),
    decreases values.len(),
{
    lemma_space();
    if values.len() > 0 {
        let front = values.drop_last();
        loading_sets_the_registers(tuner, line, front);
        let before = tuner.load(line, front);
        let run = tuner.load(line, values);
        let start = line.issued.len() as int;
        assert forall|i: int| 0 <= i < values.len() implies #[trigger] run.line.issued[start + i]
            == register_write(tuner, (i + 5) as u8, values[i]) by {
            if i < front.len() {
                assert(run.line.issued[start + i] == before.line.issued[start + i]);
            }
        }
    }
}

/// Powering down without a failure leaves the registers with all changes made in order.
pub proof fn standby_changes_the_registers(tuner: TunerState, line: Line, rows: Rows)
    requires
        tuner.standby(line, rows).outcome is Ok,
    ensures
        tuner.standby(line, rows).state.shadow == programming::rewritten(tuner.shadow, rows),
        tuner.standby(line, rows).state.input == tuner.input,
    decreases rows.len(),
{
    if rows.len() > 0 {
        standby_changes_the_registers(tuner, line, rows.drop_last());
    }
}

proof fn lemma_rewritten_length(shadow: Seq<u8>, rows: Rows)
    requires
        shadow.len() == 27,
        registers::writable(rows),
    ensures
        programming::rewritten(shadow, rows).len() == 27,
    decreases rows.len(),
{
    if rows.len() > 0 {
        assert(registers::writable(rows.drop_last())) by {
            assert forall|i: int| 0 <= i < rows.drop_last().len() implies 5 <= (
            #[trigger] rows.drop_last()[i]).0 <= 31 by {
                assert(rows.drop_last()[i] == rows[i]);
            }
        }
        lemma_rewritten_length(shadow, rows.drop_last());
        assert(rows.last() == rows[rows.len() - 1]);
    }
}

proof fn lemma_calibration_bits(r0b: u8, r0f: u8, r10: u8, r0a: u8, code: u8)
    requires
        code < 16,
    ensures
        ({
            let started = tuners::merged(r0b, 0x60, 0x60);
            let on = tuners::merged(started, 0x10, 0x10);
            let off = tuners::merged(on, 0, 0x10);
            let clock = tuners::merged(tuners::merged(r0f, 4, 4), 0, 4);
            let filter = tuners::merged(r0a, 0x10 | code, 0x1f);
            &&& on / 16 % 2 == 1
            &&& on / 32 == off / 32
            &&& on % 16 == off % 16
            &&& off / 16 % 2 == 0
            &&& off / 32 % 4 == 3
            &&& off / 128 == r0b / 128
            &&& off % 16 == r0b % 16
            &&& tuners::merged(r0f, 4, 4) / 4 % 2 == 1
            &&& clock / 4 % 2 == 0
            &&& clock % 4 == r0f % 4
            &&& clock / 8 == r0f / 8
            &&& tuners::merged(r10, 0, 3) % 4 == 0
            &&& tuners::merged(r10, 0, 3) / 4 == r10 / 4
            &&& filter % 16 == code
            &&& filter / 16 % 2 == 1
            &&& filter / 32 == r0a / 32
        }),
{
    assert({
        let on = tuners::merged(tuners::merged(r0b, 0x60, 0x60), 0x10, 0x10);
        let off = tuners::merged(on, 0, 0x10);
        on / 16 % 2 == 1 && on / 32 == off / 32 && on % 16 == off % 16 && off / 16 % 2 == 0 && off
            / 32 % 4 == 3 && off / 128 == r0b / 128 && off % 16 == r0b % 16
    }) by (bit_vector);
    assert({
        let clock = tuners::merged(tuners::merged(r0f, 4, 4), 0, 4);
        tuners::merged(r0f, 4, 4) / 4 % 2 == 1 && clock / 4 % 2 == 0 && clock % 4 == r0f % 4
            && clock / 8 == r0f / 8 && tuners::merged(r10, 0, 3) % 4 == 0 && tuners::merged(
            r10,
            0,
            3,
        ) / 4 == r10 / 4
    }) by (bit_vector);
    assert({
        let filter = tuners::merged(r0a, 0x10 | code, 0x1f);
        filter % 16 == code && filter / 16 % 2 == 1 && filter / 32 == r0a / 32
    }) by (bit_vector)
        requires
            code < 16,
    ;
}

proof fn lemma_code_bits(byte: u8)
    ensures
        tuners::reversed(byte) % 16 == 8 * (byte / 16 % 2) + 4 * (byte / 32 % 2) + 2 * (byte / 64
            % 2) + byte / 128,
{
    assert(tuners::reversed(byte) % 16 == 8 * (byte / 16 % 2) + 4 * (byte / 32 % 2) + 2 * (byte / 64
        % 2) + byte / 128) by (bit_vector);
}

/// The filter code that the tuner reported in answer to request `at`: the high four bits of the
/// fifth byte, which is sent with its lowest bit first. A code of 15 counts as 0.
pub open spec fn reported_code(line: Line, at: int) -> int {
    let byte = line.replies[at]->Bytes_0[4];
    let code = 8 * (byte / 16 % 2) + 4 * (byte / 32 % 2) + 2 * (byte / 64 % 2) + byte / 128;
    if code == 15 {
        0
    } else {
        code as int
    }
}

/// Which registers a filter calibration leaves alone, as numbered in the shadow.
pub open spec fn uncalibrated(i: int) -> bool {
    0 <= i < 27 && i != 6 && i != 10 && i != 11 && i != 13 && i != 15 && i != 16 && i != 17 && i
        != 21
}

/// What a filter calibration leaves in the registers that it uses: the trigger and the clock are
/// off, the rest of their registers is as it was but for the capacitor bits, and the synthesizer is
/// at 56 MHz.
pub open spec fn calibrated(before: Seq<u8>, s: Seq<u8>, crystal: u64) -> bool {
    let sdm = (256 * s[17] + s[16]) as u16;
    &&& s.len() == 27
    &&& s[6] / 16 % 2 == 0
    &&& s[6] / 32 % 4 == 3
    &&& s[6] / 128 == before[6] / 128
    &&& s[6] % 16 == before[6] % 16
    &&& s[10] / 4 % 2 == 0
    &&& s[10] % 4 == before[10] % 4
    &&& s[10] / 8 == before[10] / 8
    &&& s[11] % 4 == 0
    &&& pll::closest(s[15], sdm, crystal as nat, 4, 56_000_000)
    &&& forall|i: int| #[trigger] uncalibrated(i) ==> s[i] == before[i]
}

/// A filter calibration takes the code from the tuner's last reply, which answers a read of five
/// registers after the trigger was switched on and off and the calibration clock off.
#[verifier::spinoff_prover]
#[verifier::rlimit(30)]
pub proof fn calibration_reads_the_filter_code(tuner: TunerState, line: Line)
    requires
        !line.awaits(),
        tuner.shadow.len() == 27,
        tuner.calibration_attempt(line).outcome is Ok,
    ensures
        ({
            let run = tuner.calibration_attempt(line);
            let n = run.line.issued.len() as int;
            let s = run.state.shadow;
            &&& !run.line.awaits()
            &&& run.outcome->Ok_0 == reported_code(run.line, n - 1)
            &&& n >= line.issued.len() + 5
            &&& run.line.issued[n - 1] == Wire::In {
                value: if tuner.kind == TunerKind::R820T {
                    0x34
                } else {
                    0x74
                },
                index: 0x600,
                length: 5,
            }
            &&& exists|on: u8| #[trigger]
                register_write(tuner, 0x0b, on) == run.line.issued[n - 5] && on / 16 % 2 == 1 && on
                    / 32 == s[6] / 32 && on % 16 == s[6] % 16
            &&& run.line.issued[n - 4] == register_write(tuner, 0x0b, s[6])
            &&& run.line.issued[n - 3] == register_write(tuner, 0x0f, s[10])
            &&& calibrated(tuner.shadow, s, tuner.crystal_hz)
            &&& run.state.same_chip(tuner)
            &&& run.state.input == tuner.input
        }),
{
    reveal(TunerState::calibration_attempt);
    lemma_space();
    let start = tuners::calibration_start_rows();
    let started = tuner.write_many(line, start);
    programming::lemma_rewritten(tuner, line, start);
    programming::lemma_write_many_length(tuner, line, start);
    lemma_started(tuner.shadow);
    assert(pll::halvings(56_000_000, 4)) by {
        reveal_with_fuel(math::power_of_two, 8);
    }
    let tuned = started.state.set_pll(started.line, 56_000_000);
    causality::set_pll_is_causal(started.state, started.line, started.line, 56_000_000);
    programming::synthesizer_registers_produce_the_frequency(
        started.state,
        started.line,
        56_000_000,
        4,
    );
    tuners::lemma_set_pll_keeps(started.state, started.line, 56_000_000);
    let trigger = tuners::calibration_trigger_rows();
    let triggered = tuned.state.write_many(tuned.line, trigger);
    programming::lemma_rewritten(tuned.state, tuned.line, trigger);
    lemma_three_requests(tuned.state, tuned.line, trigger);
    lemma_triggered(
        tuner,
        started.state.shadow,
        started.line,
        tuned.state,
        tuned.outcome->Ok_0,
    );
    lemma_code_reply(triggered.state, triggered.line);
    let run = tuner.calibration_attempt(line);
    let t = tuned.line.issued.len() as int;
    assert(run.line.issued[t] == triggered.line.issued[t]);
    assert(run.line.issued[t + 1] == triggered.line.issued[t + 1]);
    assert(run.line.issued[t + 2] == triggered.line.issued[t + 2]);
    let on = tuners::merged(tuned.state.shadow[6], 0x10, 0x10);
    assert(register_write(tuner, 0x0b, on) == run.line.issued[t]);
}

/// The registers after the writes that start a calibration.
spec fn started(b: Seq<u8>, p: Seq<u8>) -> bool {
    &&& p.len() == 27
    &&& p[6] == tuners::merged(b[6], 0x60, 0x60)
    &&& p[10] == tuners::merged(b[10], 4, 4)
    &&& p[11] == tuners::merged(b[11], 0, 3)
    &&& forall|i: int| 0 <= i < 27 && i != 6 && i != 10 && i != 11 ==> #[trigger] p[i] == b[i]
}

proof fn lemma_started(b: Seq<u8>)
    requires
        b.len() == 27,
    ensures
        started(b, programming::rewritten(b, tuners::calibration_start_rows())),
{
    programming::lemma_three_rows(b, tuners::calibration_start_rows());
}

proof fn lemma_triggered(
    tuner: TunerState,
    p: Seq<u8>,
    line: Line,
    synthesized: TunerState,
    actual_hz: u64,
)
    requires
        started(tuner.shadow, p),
        programming::synthesizes(
            TunerState { shadow: p, ..tuner },
            line,
            synthesized,
            56_000_000,
            actual_hz,
            4,
        ),
    ensures
        ({
            let q = synthesized.shadow;
            let s = programming::rewritten(q, tuners::calibration_trigger_rows());
            let on = tuners::merged(q[6], 0x10, 0x10);
            &&& calibrated(tuner.shadow, s, tuner.crystal_hz)
            &&& s[6] == tuners::merged(on, 0, 0x10)
            &&& s[10] == tuners::merged(q[10], 0, 4)
            &&& on / 16 % 2 == 1
            &&& on / 32 == s[6] / 32
            &&& on % 16 == s[6] % 16
        }),
{
    let b = tuner.shadow;
    let q = synthesized.shadow;
    let trigger = tuners::calibration_trigger_rows();
    let s = programming::rewritten(q, trigger);
    programming::lemma_three_rows(q, trigger);
    lemma_calibration_bits(b[6], b[10], b[11], 0, 0);
    assert(q[6] == p[6] && q[10] == p[10]);
    assert(q[11] % 16 == p[11] % 16);
    assert(s[11] == q[11] && s[15] == q[15] && s[16] == q[16] && s[17] == q[17]);
    assert forall|i: int| #[trigger] uncalibrated(i) implies s[i] == b[i] by {
        assert(q[i] == p[i]);
    }
}

proof fn lemma_code_reply(tuner: TunerState, line: Line)
    requires
        !line.awaits(),
        tuner.read(line, 5).outcome is Ok,
    ensures
        ({
            let run = tuner.read(line, 5);
            let t = line.issued.len() as int;
            let code = run.outcome->Ok_0[4] % 16;
            &&& run.line.replies == line.replies
            &&& !run.line.awaits()
            &&& run.line.issued.len() == t + 2
            &&& line.issued.is_prefix_of(run.line.issued)
            &&& run.line.issued[t + 1] == Wire::In {
                value: tuner.address() as u16,
                index: 0x600,
                length: 5,
            }
            &&& reported_code(run.line, t + 1) == (if code == 15 {
                0int
            } else {
                code as int
            })
        }),
{
    let at = line.issued.len() as int + 1;
    lemma_code_bits(line.replies[at]->Bytes_0[4]);
}

/// Three register changes are three requests, each with the register's new value.
proof fn lemma_three_requests(tuner: TunerState, line: Line, rows: Rows)
    requires
        !line.awaits(),
        rows.len() == 3,
        tuner.write_many(line, rows).outcome is Ok,
    ensures
        ({
            let run = tuner.write_many(line, rows);
            let t = line.issued.len() as int;
            let a = tuner.shadow;
            let first = tuners::merged(a[rows[0].0 - 5], rows[0].1, rows[0].2);
            let b = a.update(rows[0].0 - 5, first);
            let second = tuners::merged(b[rows[1].0 - 5], rows[1].1, rows[1].2);
            let c = b.update(rows[1].0 - 5, second);
            let third = tuners::merged(c[rows[2].0 - 5], rows[2].1, rows[2].2);
            &&& run.line.replies == line.replies
            &&& run.line.issued.len() == t + 3
            &&& run.line.issued[t] == register_write(tuner, rows[0].0, first)
            &&& run.line.issued[t + 1] == register_write(tuner, rows[1].0, second)
            &&& run.line.issued[t + 2] == register_write(tuner, rows[2].0, third)
        }),
{
    lemma_space();
    reveal_with_fuel(TunerState::write_many, 4);
    assert(rows.drop_last().drop_last().drop_last() =~= Seq::empty());
}

/// A calibration is repeated once if its code is 0, and the code is the last reported one.
pub proof fn calibration_is_repeated_once(tuner: TunerState, line: Line)
    requires
        !line.awaits(),
        tuner.shadow.len() == 27,
        tuner.calibrate(line).outcome is Ok,
    ensures
        ({
            let run = tuner.calibrate(line);
            let first = tuner.calibration_attempt(line);
            let second = first.state.calibration_attempt(first.line);
            &&& first.outcome is Ok
            &&& first.outcome->Ok_0 != 0 ==> run == first
            &&& first.outcome->Ok_0 == 0 ==> run == second
            &&& !run.line.awaits()
            &&& run.outcome->Ok_0 == reported_code(run.line, run.line.issued.len() - 1)
            &&& run.outcome->Ok_0 < 15
            &&& calibrated(tuner.shadow, run.state.shadow, tuner.crystal_hz)
            &&& run.state.same_chip(tuner)
            &&& run.state.input == tuner.input
        }),
{
    reveal(TunerState::calibrate);
    tuners::laws::calibration_codes_are_valid(tuner, line);
    calibration_reads_the_filter_code(tuner, line);
    let first = tuner.calibration_attempt(line);
    if first.outcome->Ok_0 == 0 {
        calibration_reads_the_filter_code(first.state, first.line);
        let second = first.state.calibration_attempt(first.line);
        assert forall|i: int| #[trigger] uncalibrated(i) implies second.state.shadow[i]
            == tuner.shadow[i] by {
            assert(second.state.shadow[i] == first.state.shadow[i]);
        }
    }
}

/// What initializing the tuner leaves in its registers, where `c` is what the calibration left.
pub open spec fn initialized(
    tables: Tables,
    crystal: u64,
    c: Seq<u8>,
    code: int,
    s: Seq<u8>,
) -> bool {
    let filter = c.update(5, (32 * (c[5] / 32) + 16 + code) as u8);
    &&& calibrated(
        programming::rewritten(tables.initial, tables.before_calibration),
        c,
        crystal,
    )
    &&& 0 <= code < 15
    &&& s == programming::rewritten(filter, tables.after_calibration)
    &&& s.len() == 27
}

/// Initializing loads the power-on values and makes the changes that prepare the calibration,
/// whatever the registers held; puts the calibrated code into register 10 with the filter switched
/// on; and makes the final changes. No antenna input is selected afterwards.
pub proof fn initialization_programs_the_tuner(tuner: TunerState, line: Line, tables: Tables)
    requires
        !line.awaits(),
        tuner.shadow.len() == 27,
        tables.valid(),
        tuner.open(line, tables).outcome is Ok,
    ensures
        ({
            let run = tuner.open(line, tables);
            &&& exists|c: Seq<u8>, code: int| #[trigger]
                initialized(tables, tuner.crystal_hz, c, code, run.state.shadow)
            &&& run.state.shadow.len() == 27
            &&& run.state.input is None
            &&& run.state.same_chip(tuner)
            &&& !run.line.awaits()
        }),
{
    reveal(TunerState::open);
    reveal(TunerState::reset);
    reveal(TunerState::finish);
    causality::open_is_causal(tuner, line, line, tables);
    tuners::tuner_stays_the_same(tuner, line, tables, crate::config::GainConfig::Auto, 0);
    let cleared = TunerState { input: None, ..tuner };
    let loaded = cleared.load(line, tables.initial);
    loading_sets_the_registers(cleared, line, tables.initial);
    assert(loaded.state.shadow =~= tables.initial);
    let reset = tuner.reset(line, tables);
    programming::lemma_rewritten(loaded.state, loaded.line, tables.before_calibration);
    programming::lemma_write_many_length(loaded.state, loaded.line, tables.before_calibration);
    lemma_rewritten_length(tables.initial, tables.before_calibration);
    let measured = reset.state.calibrate(reset.line);
    calibration_is_repeated_once(reset.state, reset.line);
    let c = measured.state.shadow;
    let code = measured.outcome->Ok_0;
    lemma_calibration_bits(0, 0, 0, c[5], code);
    let filter = measured.state.write(measured.line, 0x0a, 0x10 | code, 0x1f);
    let f = tuners::merged(c[5], 0x10 | code, 0x1f);
    assert(f == 32 * (c[5] / 32) + 16 + code);
    assert(filter.state.shadow == c.update(5, f));
    programming::lemma_rewritten(filter.state, filter.line, tables.after_calibration);
    lemma_rewritten_length(filter.state.shadow, tables.after_calibration);
    assert(initialized(
        tables,
        tuner.crystal_hz,
        c,
        code as int,
        tuner.open(line, tables).state.shadow,
    ));
}

/// Whether request `at` read the chip ID at an I2C address, and a tuner answered.
pub open spec fn answered_as_tuner(line: Line, at: int, address: u16) -> bool {
    &&& line.issued[at] == (Wire::In { value: address, index: 0x600, length: 1 })
    &&& line.replies[at] is Bytes
    &&& line.replies[at]->Bytes_0.len() >= 1
    &&& line.replies[at]->Bytes_0[0] == 0x69
}

/// A tuner is found where its chip ID 0x69 is read: an R820T at 0x34, or else an R828D at 0x74. If
/// it is at neither, the tuner is not supported. A stall is no failure.
pub proof fn tuners_are_found_by_their_chip_id(line: Line)
    requires
        !line.awaits(),
    ensures
        ({
            let run = line.detect();
            let start = line.issued.len() as int;
            let n = run.line.issued.len() as int;
            &&& run.outcome == Ok::<TunerKind, Halt>(TunerKind::R820T) ==> {
                &&& n == start + 2
                &&& answered_as_tuner(run.line, n - 1, 0x34)
            }
            &&& run.outcome == Ok::<TunerKind, Halt>(TunerKind::R828D) ==> {
                &&& n == start + 3 || n == start + 4
                &&& !(line.replies[start] is Bytes && answered_as_tuner(run.line, start + 1, 0x34))
                &&& answered_as_tuner(run.line, n - 1, 0x74)
            }
            &&& run.outcome == Err::<TunerKind, Halt>(Halt::Failed(Error::UnsupportedTuner)) ==> {
                &&& !answered_as_tuner(run.line, n - 1, 0x74)
                &&& n >= start + 2
            }
            &&& run.outcome != Err::<TunerKind, Halt>(
                Halt::Failed(Error::Transfer(TransferError::Stall)),
            )
        }),
{
    lemma_space();
}

/// Whether the synthesizer reported a lock in answer to request `at`: the seventh bit of the third
/// byte, which is sent with its lowest bit first.
pub open spec fn reported_lock(line: Line, at: int) -> bool {
    line.replies[at]->Bytes_0[2] / 2 % 2 == 1
}

proof fn lemma_lock_bits(byte: u8, r12: u8)
    ensures
        tuners::reversed(byte) / 64 % 2 == byte / 2 % 2,
        tuners::merged(r12, 0x60, 0xe0) / 32 == 3,
        tuners::merged(r12, 0x60, 0xe0) % 32 == r12 % 32,
{
    assert(tuners::reversed(byte) / 64 % 2 == byte / 2 % 2 && tuners::merged(r12, 0x60, 0xe0) / 32
        == 3 && tuners::merged(r12, 0x60, 0xe0) % 32 == r12 % 32) by (bit_vector);
}

/// If the synthesizer does not lock at once its current is raised, and it gets a second chance; if
/// it does not lock then either, it is unlocked. If it locks at once its current stays as it is.
pub proof fn the_current_is_raised_for_a_second_chance(
    tuner: TunerState,
    line: Line,
    actual_hz: u64,
)
    requires
        !line.awaits(),
        tuner.shadow.len() == 27,
        line.replies.len() >= line.issued.len() + 5,
        forall|i: int|
            line.issued.len() <= i < line.issued.len() + 5 ==> (#[trigger] line.replies[i]) is Bytes
                && line.replies[i]->Bytes_0.len() >= 3,
    ensures
        ({
            let run = tuner.await_lock(line, actual_hz, 2);
            let start = line.issued.len() as int;
            let s = run.state.shadow;
            &&& run.line.issued[start + 1] == Wire::In {
                value: tuner.address() as u16,
                index: 0x600,
                length: 3,
            }
            &&& reported_lock(line, start + 1) ==> {
                &&& run.outcome == Ok::<u64, Halt>(actual_hz)
                &&& run.line.issued.len() == start + 3
                &&& s[13] == tuner.shadow[13]
            }
            &&& !reported_lock(line, start + 1) ==> {
                &&& run.line.issued[start + 2] == register_write(tuner, 0x12, s[13])
                &&& s[13] / 32 == 3
                &&& s[13] % 32 == tuner.shadow[13] % 32
                &&& run.line.issued[start + 4] == Wire::In {
                    value: tuner.address() as u16,
                    index: 0x600,
                    length: 3,
                }
                &&& !reported_lock(line, start + 4) ==> run.outcome == Err::<u64, Halt>(
                    Halt::Failed(Error::PllUnlocked),
                )
                &&& reported_lock(line, start + 4) && line.replies.len() > start + 5
                    && line.replies[start + 5] is Bytes ==> run.outcome == Ok::<u64, Halt>(actual_hz)
            }
        }),
{
    lemma_space();
    reveal_with_fuel(TunerState::await_lock, 3);
    let start = line.issued.len() as int;
    assert(line.replies[start] is Bytes && line.replies[start + 1] is Bytes);
    assert(line.replies[start + 2] is Bytes && line.replies[start + 3] is Bytes);
    assert(line.replies[start + 4] is Bytes);
    lemma_lock_bits(line.replies[start + 1]->Bytes_0[2], tuner.shadow[13]);
    lemma_lock_bits(line.replies[start + 4]->Bytes_0[2], tuner.shadow[13]);
    let status = tuner.read(line, 3);
    assert(status.outcome is Ok);
    assert(status.outcome->Ok_0[2] == tuners::reversed(line.replies[start + 1]->Bytes_0[2]));
    if !reported_lock(line, start + 1) {
        let raised = tuner.write(status.line, 0x12, 0x60, 0xe0);
        let again = raised.state.read(raised.line, 3);
        assert(again.outcome is Ok);
        assert(again.outcome->Ok_0[2] == tuners::reversed(line.replies[start + 4]->Bytes_0[2]));
    }
}

} // verus!
