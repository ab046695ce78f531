//! What holds of every use of the tuner.

use crate::protocol::{Line, Wire};
use crate::tuners;
use crate::tuners::registers::Rows;
use crate::tuners::{causality, pll, TunerState, XTAL_HZ};
use vstd::prelude::*;

verus! {

/// A Blog V4 board uses its upconverter input exactly for the frequencies that it upconverts.
pub proof fn low_band_is_upconverted(tuner: TunerState, hz: u64)
    requires
        tuner.blog_v4,
    ensures
        tuner.upconvert(hz) == XTAL_HZ <==> tuner.input_for(hz) == 2,
        tuner.upconvert(hz) == 0 <==> tuner.input_for(hz) != 2,
{
}

/// Whether request `at` read the synthesizer's status and found it locked.
pub open spec fn found_locked(line: Line, at: int, address: u8) -> bool {
    &&& 0 <= at < line.issued.len()
    &&& at < line.replies.len()
    &&& line.issued[at] == (Wire::In { value: address as u16, index: 0x600, length: 3 })
    &&& line.replies[at] is Bytes
    &&& tuners::reversed(line.replies[at]->Bytes_0[2]) / 64 % 2 == 1
}

/// A frequency is reported only if the synthesizer was found locked.
pub proof fn frequencies_are_reported_when_locked(tuner: TunerState, line: Line, hz: u64)
    requires
        !line.awaits(),
        tuner.set_pll(line, hz).outcome is Ok,
    ensures
        exists|at: int|
            line.issued.len() <= at && #[trigger] found_locked(
                tuner.set_pll(line, hz).line,
                at,
                tuner.address(),
            ),
{
    reveal(TunerState::set_pll);
    reveal(TunerState::apply_pll);
    let prepare = tuners::pll_prepare_rows();
    let prepared = tuner.write_many(line, prepare);
    causality::write_many_is_causal(tuner, line, line, prepare);
    tuners::lemma_write_many_keeps(tuner, line, prepare);
    let status = prepared.state.read(prepared.line, 5);
    causality::read_is_causal(prepared.state, prepared.line, prepared.line, 5);
    let plan = pll::pll_plan(
        hz as nat,
        tuner.crystal_hz as nat,
        status.outcome->Ok_0[4] / 16 % 4,
        tuner.power_ref(),
    );
    let rows = tuners::pll_rows(plan);
    let programmed = status.state.write_many(status.line, rows);
    causality::write_many_is_causal(status.state, status.line, status.line, rows);
    tuners::lemma_write_many_keeps(status.state, status.line, rows);
    let locked = programmed.state.await_lock(programmed.line, plan.actual_hz, 2);
    lemma_locked(programmed.state, programmed.line, plan.actual_hz, 2);
    assert(programmed.state.address() == tuner.address());
    let at = choose|at: int|
        programmed.line.issued.len() <= at && #[trigger] found_locked(
            locked.line,
            at,
            tuner.address(),
        );
    assert(tuner.set_pll(line, hz).line == locked.line);
    assert(line.issued.len() <= prepared.line.issued.len() <= status.line.issued.len()
        <= programmed.line.issued.len());
    assert(found_locked(tuner.set_pll(line, hz).line, at, tuner.address()));
}

proof fn lemma_locked(tuner: TunerState, line: Line, actual_hz: u64, attempts: nat)
    requires
        !line.awaits(),
        tuner.await_lock(line, actual_hz, attempts).outcome is Ok,
    ensures
        exists|at: int|
            line.issued.len() <= at && #[trigger] found_locked(
                tuner.await_lock(line, actual_hz, attempts).line,
                at,
                tuner.address(),
            ),
    decreases attempts,
{
    let status = tuner.read(line, 3);
    causality::read_is_causal(tuner, line, line, 3);
    let run = tuner.await_lock(line, actual_hz, attempts);
    let at = line.issued.len() as int + 1;
    if status.outcome->Ok_0[2] / 64 % 2 == 1 {
        causality::write_is_causal(tuner, status.line, status.line, 0x1a, 8, 8);
        assert(run.line.issued[at] == status.line.issued[at]);
        assert(found_locked(run.line, at, tuner.address()));
    } else {
        let raised = tuner.write(status.line, 0x12, 0x60, 0xe0);
        causality::write_is_causal(tuner, status.line, status.line, 0x12, 0x60, 0xe0);
        lemma_locked(raised.state, raised.line, actual_hz, (attempts - 1) as nat);
    }
}

/// Whether a request writes a tuner register.
pub open spec fn writes_register(wire: Wire, address: u8, reg: u8) -> bool {
    match wire {
        Wire::Out { value, index, data } => value == address && index == 0x610 && data.len() == 2
            && data[0] == reg,
        Wire::In { .. } => false,
    }
}

/// Powering down issues one write for every row, whichever of them fail.
pub proof fn standby_tries_every_write(tuner: TunerState, line: Line, rows: Rows)
    requires
        !line.awaits(),
        !tuner.standby(line, rows).waits(),
    ensures
        ({
            let issued = tuner.standby(line, rows).line.issued;
            &&& issued.len() == line.issued.len() + rows.len()
            &&& forall|i: int|
                0 <= i < rows.len() ==> writes_register(
                    issued[line.issued.len() + i],
                    tuner.address(),
                    (#[trigger] rows[i]).0,
                )
        }),
    decreases rows.len(),
{
    if rows.len() > 0 {
        let front = tuner.standby(line, rows.drop_last());
        let row = rows.last();
        let start = line.issued.len() as int;
        standby_tries_every_write(tuner, line, rows.drop_last());
        causality::standby_is_causal(tuner, line, line, rows.drop_last());
        tuners::lemma_standby_keeps(tuner, line, rows.drop_last());
        causality::write_is_causal(front.state, front.line, front.line, row.0, row.1, row.2);
        assert(0x600u16 | 0x10 == 0x610) by (bit_vector);
        let issued = tuner.standby(line, rows).line.issued;
        assert forall|i: int| 0 <= i < rows.len() implies writes_register(
            issued[start + i],
            tuner.address(),
            (#[trigger] rows[i]).0,
        ) by {
            if i < rows.len() - 1 {
                assert(rows.drop_last()[i] == rows[i]);
                assert(issued[start + i] == front.line.issued[start + i]);
            }
        }
    }
}

/// A calibration ends with a valid code, or with 0.
pub proof fn calibration_codes_are_valid(tuner: TunerState, line: Line)
    ensures
        tuner.calibrate(line).outcome matches Ok(code) ==> code < 15,
{
    reveal(TunerState::calibrate);
    reveal(TunerState::calibration_attempt);
}

} // verus!
