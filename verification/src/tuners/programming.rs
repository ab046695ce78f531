//! What the tuner's registers hold after an operation that succeeded. Registers 5 to 31 are numbered
//! from 0 in the shadow, which holds what the tuner acknowledged.

use crate::config::{Decibels, GainConfig, GainSteps};
use crate::protocol::{Line, Run, Wire};
use crate::tuners;
use crate::tuners::registers::{Rows, Tables};
use crate::tuners::{causality, pll, registers, TunerKind, TunerState};
use vstd::prelude::*;

verus! {

/// Register values after changes, in order.
pub open spec fn rewritten(shadow: Seq<u8>, rows: Rows) -> Seq<u8>
    decreases rows.len(),
{
    if rows.len() == 0 {
        shadow
    } else {
        let before = rewritten(shadow, rows.drop_last());
        let row = rows.last();
        before.update(row.0 - 5, tuners::merged(before[row.0 - 5], row.1, row.2))
    }
}

pub(crate) proof fn lemma_rewritten(tuner: TunerState, line: Line, rows: Rows)
    requires
        tuner.write_many(line, rows).outcome is Ok,
    ensures
        tuner.write_many(line, rows).state.shadow == rewritten(tuner.shadow, rows),
        tuner.write_many(line, rows).state.same_chip(tuner),
        tuner.write_many(line, rows).state.input == tuner.input,
    decreases rows.len(),
{
    if rows.len() > 0 {
        lemma_rewritten(tuner, line, rows.drop_last());
    }
}

/// A register change takes the bits in its mask from the value and keeps the others, and it changes
/// no other register. What is sent is the whole new value.
pub proof fn changes_stay_inside_the_mask(
    tuner: TunerState,
    line: Line,
    reg: u8,
    value: u8,
    mask: u8,
    bit: u8,
)
    requires
        !line.awaits(),
        tuner.shadow.len() == 27,
        5 <= reg <= 31,
        bit < 8,
        tuner.write(line, reg, value, mask).outcome is Ok,
    ensures
        ({
            let run = tuner.write(line, reg, value, mask);
            let old = tuner.shadow[reg - 5];
            let new = run.state.shadow[reg - 5];
            &&& new >> bit & 1 == (if mask >> bit & 1 == 1 {
                value
            } else {
                old
            }) >> bit & 1
            &&& forall|i: int|
                0 <= i < 27 && i != reg - 5 ==> #[trigger] run.state.shadow[i] == tuner.shadow[i]
            &&& run.line.issued == line.issued.push(
                Wire::Out {
                    value: if tuner.kind == TunerKind::R820T {
                        0x34
                    } else {
                        0x74
                    },
                    index: 0x610,
                    data: seq![reg, new],
                },
            )
        }),
{
    let old = tuner.shadow[reg - 5];
    assert(tuners::merged(old, value, mask) >> bit & 1 == (if mask >> bit & 1 == 1 {
        value
    } else {
        old
    }) >> bit & 1) by (bit_vector)
        requires
            bit < 8,
    ;
    assert(0x600u16 | 0x10 == 0x610) by (bit_vector);
}

/// The tuner sends bytes with their bits in reverse order.
pub proof fn bits_are_reversed(byte: u8, bit: u8)
    requires
        bit < 8,
    ensures
        tuners::reversed(byte) >> bit & 1 == byte >> (7 - bit) as u8 & 1,
{
    assert(tuners::reversed(byte) >> bit & 1 == byte >> (7 - bit) as u8 & 1) by (bit_vector)
        requires
            bit < 8,
    ;
}

/// Of the combinations of LNA and mixer steps that the tuner is used with, as many of both or one
/// LNA step more, and at most 15, the largest is chosen that is not above the requested gain. An
/// LNA step is 2.3 dB and a mixer step 1.2 dB, in steps of 2^-22 dB.
pub proof fn the_largest_fitting_gain_is_chosen(gain: Decibels, lna: int, mixer: int)
    requires
        gain.steps() is Steps,
        0 <= gain.steps()->Steps_0,
        0 <= mixer <= lna <= mixer + 1,
        lna <= 15,
        9_646_899 * lna + 5_033_165 * mixer <= gain.steps()->Steps_0,
    ensures
        ({
            let (chosen_lna, chosen_mixer) = tuners::gain_split(gain);
            &&& chosen_mixer <= chosen_lna <= chosen_mixer + 1
            &&& chosen_lna <= 15
            &&& 9_646_899 * chosen_lna + 5_033_165 * chosen_mixer <= gain.steps()->Steps_0
            &&& 9_646_899 * lna + 5_033_165 * mixer <= 9_646_899 * chosen_lna + 5_033_165
                * chosen_mixer
        }),
{
}

/// A gain that is negative or not a number takes no steps at all.
pub proof fn no_gain_takes_no_steps(gain: Decibels)
    requires
        gain.steps() == GainSteps::NotANumber || gain.steps()->Steps_0 < 0,
    ensures
        tuners::gain_split(gain) == (0u8, 0u8),
{
}

/// Setting a manual gain puts the LNA steps into the low four bits of register 5 and the mixer
/// steps into those of register 7, switches both automatics off, and fixes the VGA gain. The other
/// bits of these registers, and the other registers, keep what they held.
pub proof fn manual_gain_is_programmed(tuner: TunerState, line: Line, gain: Decibels)
    requires
        tuner.shadow.len() == 27,
        tuner.set_gain(line, GainConfig::Manual(gain)).outcome is Ok,
    ensures
        ({
            let s = tuner.set_gain(line, GainConfig::Manual(gain)).state.shadow;
            let (lna, mixer) = tuners::gain_split(gain);
            &&& s.len() == 27
            &&& s[0] % 16 == lna
            &&& s[0] / 16 % 2 == 1
            &&& s[0] / 32 == tuner.shadow[0] / 32
            &&& s[2] % 16 == mixer
            &&& s[2] / 16 % 2 == 0
            &&& s[2] / 32 == tuner.shadow[2] / 32
            &&& s[7] % 32 == 8
            &&& s[7] / 32 % 4 == tuner.shadow[7] / 32 % 4
            &&& s[7] / 128 == 0
            &&& forall|i: int|
                0 <= i < 27 && i != 0 && i != 2 && i != 7 ==> #[trigger] s[i] == tuner.shadow[i]
        }),
{
    let (lna, mixer) = tuners::gain_split(gain);
    let rows = tuners::manual_gain_rows(lna, mixer);
    lemma_rewritten(tuner, line, rows);
    lemma_five_rows(tuner.shadow, rows);
    let s = tuner.set_gain(line, GainConfig::Manual(gain)).state.shadow;
    let a = tuner.shadow[0];
    let b = tuner.shadow[2];
    let c = tuner.shadow[7];
    assert(lna <= 15 && mixer <= 15);
    assert(s[0] == tuners::merged(tuners::merged(a, 0x10, 0x10), lna, 0x0f));
    assert(s[2] == tuners::merged(tuners::merged(b, 0, 0x10), mixer, 0x0f));
    assert(s[7] == tuners::merged(c, 8, 0x9f));
    lemma_gain_bits(a, lna, 1);
    lemma_gain_bits(b, mixer, 0);
    lemma_vga_bits(c, 8);
}

/// Handing the gain to the tuner switches both automatics on, leaving the steps as they are.
pub proof fn automatic_gain_is_programmed(tuner: TunerState, line: Line)
    requires
        tuner.shadow.len() == 27,
        tuner.set_gain(line, GainConfig::Auto).outcome is Ok,
    ensures
        ({
            let s = tuner.set_gain(line, GainConfig::Auto).state.shadow;
            &&& s.len() == 27
            &&& s[0] % 16 == tuner.shadow[0] % 16
            &&& s[0] / 16 % 2 == 0
            &&& s[0] / 32 == tuner.shadow[0] / 32
            &&& s[2] % 16 == tuner.shadow[2] % 16
            &&& s[2] / 16 % 2 == 1
            &&& s[2] / 32 == tuner.shadow[2] / 32
            &&& s[7] % 32 == 0x0b
            &&& s[7] / 32 % 4 == tuner.shadow[7] / 32 % 4
            &&& s[7] / 128 == 0
            &&& forall|i: int|
                0 <= i < 27 && i != 0 && i != 2 && i != 7 ==> #[trigger] s[i] == tuner.shadow[i]
        }),
{
    let rows = tuners::automatic_gain_rows();
    lemma_rewritten(tuner, line, rows);
    lemma_three_rows(tuner.shadow, rows);
    let s = tuner.set_gain(line, GainConfig::Auto).state.shadow;
    assert(s[0] == tuners::merged(tuner.shadow[0], 0, 0x10));
    assert(s[2] == tuners::merged(tuner.shadow[2], 0x10, 0x10));
    assert(s[7] == tuners::merged(tuner.shadow[7], 0x0b, 0x9f));
    lemma_automatic_bits(tuner.shadow[0], 0);
    lemma_automatic_bits(tuner.shadow[2], 1);
    lemma_vga_bits(tuner.shadow[7], 0x0b);
}

proof fn lemma_gain_bits(old: u8, steps: u8, automatic: u8)
    requires
        steps <= 15,
        automatic <= 1,
    ensures
        ({
            let new = tuners::merged(
                tuners::merged(old, (16 * automatic) as u8, 0x10),
                steps,
                0x0f,
            );
            new % 16 == steps && new / 16 % 2 == automatic && new / 32 == old / 32
        }),
{
    assert({
        let new = tuners::merged(tuners::merged(old, (16 * automatic) as u8, 0x10), steps, 0x0f);
        new % 16 == steps && new / 16 % 2 == automatic && new / 32 == old / 32
    }) by (bit_vector)
        requires
            steps <= 15,
            automatic <= 1,
    ;
}

proof fn lemma_automatic_bits(old: u8, automatic: u8)
    requires
        automatic <= 1,
    ensures
        ({
            let new = tuners::merged(old, (16 * automatic) as u8, 0x10);
            new % 16 == old % 16 && new / 16 % 2 == automatic && new / 32 == old / 32
        }),
{
    assert({
        let new = tuners::merged(old, (16 * automatic) as u8, 0x10);
        new % 16 == old % 16 && new / 16 % 2 == automatic && new / 32 == old / 32
    }) by (bit_vector)
        requires
            automatic <= 1,
    ;
}

proof fn lemma_vga_bits(old: u8, value: u8)
    requires
        value < 32,
    ensures
        ({
            let new = tuners::merged(old, value, 0x9f);
            new % 32 == value && new / 32 % 4 == old / 32 % 4 && new / 128 == 0
        }),
{
    assert({
        let new = tuners::merged(old, value, 0x9f);
        new % 32 == value && new / 32 % 4 == old / 32 % 4 && new / 128 == 0
    }) by (bit_vector)
        requires
            value < 32,
    ;
}

/// One change after others.
pub(crate) open spec fn then_changed(shadow: Seq<u8>, row: (u8, u8, u8)) -> Seq<u8> {
    shadow.update(row.0 - 5, tuners::merged(shadow[row.0 - 5], row.1, row.2))
}

proof fn lemma_last_row(shadow: Seq<u8>, rows: Rows, n: int)
    requires
        0 <= n < rows.len(),
    ensures
        rewritten(shadow, rows.take(n + 1)) == then_changed(
            rewritten(shadow, rows.take(n)),
            rows[n],
        ),
        rewritten(shadow, rows.take(0)) == shadow,
        rows.take(rows.len() as int) == rows,
{
    assert(rows.take(n + 1).drop_last() =~= rows.take(n));
    assert(rows.take(rows.len() as int) =~= rows);
}

pub(crate) proof fn lemma_three_rows(shadow: Seq<u8>, rows: Rows)
    requires
        rows.len() == 3,
    ensures
        rewritten(shadow, rows) == then_changed(
            then_changed(then_changed(shadow, rows[0]), rows[1]),
            rows[2],
        ),
{
    lemma_last_row(shadow, rows, 0);
    lemma_last_row(shadow, rows, 1);
    lemma_last_row(shadow, rows, 2);
}

proof fn lemma_five_rows(shadow: Seq<u8>, rows: Rows)
    requires
        rows.len() == 5,
    ensures
        rewritten(shadow, rows) == then_changed(
            then_changed(
                then_changed(then_changed(then_changed(shadow, rows[0]), rows[1]), rows[2]),
                rows[3],
            ),
            rows[4],
        ),
{
    lemma_last_row(shadow, rows, 0);
    lemma_last_row(shadow, rows, 1);
    lemma_last_row(shadow, rows, 2);
    lemma_last_row(shadow, rows, 3);
    lemma_last_row(shadow, rows, 4);
}

proof fn lemma_six_rows(shadow: Seq<u8>, rows: Rows)
    requires
        rows.len() == 6,
    ensures
        rewritten(shadow, rows) == then_changed(
            then_changed(
                then_changed(
                    then_changed(then_changed(then_changed(shadow, rows[0]), rows[1]), rows[2]),
                    rows[3],
                ),
                rows[4],
            ),
            rows[5],
        ),
{
    lemma_last_row(shadow, rows, 0);
    lemma_last_row(shadow, rows, 1);
    lemma_last_row(shadow, rows, 2);
    lemma_last_row(shadow, rows, 3);
    lemma_last_row(shadow, rows, 4);
    lemma_last_row(shadow, rows, 5);
}

/// What waiting for the lock does to the registers: the lock switches the filter's clock, and the
/// synthesizer's current was raised or not.
spec fn after_lock(before: Seq<u8>, after: Seq<u8>) -> bool {
    &&& after.len() == 27
    &&& after[21] == tuners::merged(before[21], 8, 8)
    &&& after[13] == before[13] || after[13] == tuners::merged(before[13], 0x60, 0xe0)
    &&& forall|i: int| 0 <= i < 27 && i != 13 && i != 21 ==> #[trigger] after[i] == before[i]
}

proof fn lemma_await_lock_registers(tuner: TunerState, line: Line, actual_hz: u64)
    requires
        tuner.shadow.len() == 27,
        tuner.await_lock(line, actual_hz, 2).outcome is Ok,
    ensures
        after_lock(tuner.shadow, tuner.await_lock(line, actual_hz, 2).state.shadow),
        tuner.await_lock(line, actual_hz, 2).outcome == Ok::<u64, crate::protocol::Halt>(actual_hz),
        tuner.await_lock(line, actual_hz, 2).state.input == tuner.input,
{
    reveal_with_fuel(TunerState::await_lock, 3);
}

proof fn lemma_pll_bits(r10: u8, divider: u8, r12: u8, whole: u8, r1a: u8)
    requires
        divider <= 7,
        whole <= 1,
    ensures
        ({
            let ten = tuners::merged(tuners::merged(r10, 0, 0x10), (32 * divider) as u8, 0xe0);
            let twelve = tuners::merged(tuners::merged(r12, 0x80, 0xe0), (8 * whole) as u8, 8);
            let raised = tuners::merged(twelve, 0x60, 0xe0);
            let filter = tuners::merged(tuners::merged(r1a, 0, 0x0c), 8, 8);
            &&& ten / 32 == divider
            &&& ten / 16 % 2 == 0
            &&& ten % 16 == r10 % 16
            &&& twelve / 8 % 2 == whole
            &&& twelve / 32 == 4
            &&& twelve % 8 == r12 % 8
            &&& twelve / 16 % 2 == r12 / 16 % 2
            &&& raised / 8 % 2 == whole
            &&& raised / 32 == 3
            &&& raised % 8 == r12 % 8
            &&& raised / 16 % 2 == r12 / 16 % 2
            &&& filter / 8 % 2 == 1
            &&& filter / 4 % 2 == 0
            &&& filter / 16 == r1a / 16
            &&& filter % 4 == r1a % 4
        }),
{
    assert({
        let ten = tuners::merged(tuners::merged(r10, 0, 0x10), (32 * divider) as u8, 0xe0);
        ten / 32 == divider && ten / 16 % 2 == 0 && ten % 16 == r10 % 16
    }) by (bit_vector)
        requires
            divider <= 7,
    ;
    assert({
        let twelve = tuners::merged(tuners::merged(r12, 0x80, 0xe0), (8 * whole) as u8, 8);
        let raised = tuners::merged(twelve, 0x60, 0xe0);
        twelve / 8 % 2 == whole && twelve / 32 == 4 && twelve % 8 == r12 % 8 && twelve / 16 % 2
            == r12 / 16 % 2 && raised / 8 % 2 == whole && raised / 32 == 3 && raised % 8 == r12 % 8
            && raised / 16 % 2 == r12 / 16 % 2
    }) by (bit_vector)
        requires
            whole <= 1,
    ;
    assert({
        let filter = tuners::merged(tuners::merged(r1a, 0, 0x0c), 8, 8);
        filter / 8 % 2 == 1 && filter / 4 % 2 == 0 && filter / 16 == r1a / 16 && filter % 4 == r1a
            % 4
    }) by (bit_vector);
}

proof fn lemma_full_mask(old: u8, value: u8)
    ensures
        tuners::merged(old, value, 0xff) == value,
{
    assert(tuners::merged(old, value, 0xff) == value) by (bit_vector);
}

/// The fine tuning that the tuner reported in answer to request `at`: two bits of the fifth byte,
/// which is sent with its lowest bit first.
pub open spec fn reported_fine(line: Line, at: int) -> u8 {
    let byte = line.replies[at]->Bytes_0[4];
    (2 * (byte / 4 % 2) + byte / 8 % 2) as u8
}

/// What setting the synthesizer does to the registers, if it succeeds.
pub open spec fn synthesizes(
    tuner: TunerState,
    before: Line,
    after: TunerState,
    hz: u64,
    actual_hz: u64,
    d: nat,
) -> bool {
    let s = after.shadow;
    let sdm = (256 * s[17] + s[16]) as u16;
    let fine = reported_fine(before, before.issued.len() as int + 4);
    let reference: u8 = if tuner.kind == TunerKind::R820T {
        2
    } else {
        1
    };
    &&& s.len() == 27
    &&& pll::decoded_integer(s[15]) <= 63
    &&& pll::produces(s[15], sdm, tuner.crystal_hz as nat, d, actual_hz as nat)
    &&& pll::closest(s[15], sdm, tuner.crystal_hz as nat, d, hz as nat)
    &&& s[11] / 32 == d + (if fine < reference {
        1int
    } else if fine > reference {
        -1
    } else {
        0
    })
    &&& s[13] / 8 % 2 == (if sdm == 0 {
        1int
    } else {
        0
    })
    &&& s[11] / 16 % 2 == 0
    &&& s[11] % 16 == tuner.shadow[11] % 16
    &&& s[13] / 32 == 4 || s[13] / 32 == 3
    &&& s[21] / 4 % 4 == 2
    &&& s[21] / 16 == tuner.shadow[21] / 16
    &&& s[21] % 4 == tuner.shadow[21] % 4
    &&& forall|i: int|
        0 <= i < 27 && i != 11 && i != 13 && i != 15 && i != 16 && i != 17 && i != 21
            ==> #[trigger] s[i] == tuner.shadow[i]
}

/// A synthesizer that was set has registers that produce the reported frequency: the feedback
/// divider decoded from registers 20 to 22, with the output divider that belongs to the frequency,
/// gives what is reported, and no setting comes closer to the request from below. The output
/// divider code in register 16 goes by the readback, and the fraction is off exactly if it is zero.
pub proof fn synthesizer_registers_produce_the_frequency(
    tuner: TunerState,
    line: Line,
    hz: u64,
    d: nat,
)
    requires
        !line.awaits(),
        tuner.shadow.len() == 27,
        pll::halvings(hz as nat, d),
        tuner.set_pll(line, hz).outcome is Ok,
    ensures
        ({
            let run = tuner.set_pll(line, hz);
            synthesizes(tuner, line, run.state, hz, run.outcome->Ok_0, d) && run.state.input
                == tuner.input
        }),
{
    reveal(TunerState::set_pll);
    reveal(TunerState::apply_pll);
    let prepare = tuners::pll_prepare_rows();
    let prepared = tuner.write_many(line, prepare);
    lemma_rewritten(tuner, line, prepare);
    lemma_write_many_length(tuner, line, prepare);
    causality::write_many_is_causal(tuner, line, line, prepare);
    let status = prepared.state.read(prepared.line, 5);
    let bytes = status.outcome->Ok_0;
    let at = line.issued.len() as int + 4;
    assert(prepared.line.issued.len() == line.issued.len() + 3);
    assert(bytes[4] == tuners::reversed(line.replies[at]->Bytes_0[4]));
    let fine = bytes[4] / 16 % 4;
    lemma_fine_bits(line.replies[at]->Bytes_0[4]);
    assert(fine == reported_fine(line, at));
    let plan = pll::pll_plan(hz as nat, tuner.crystal_hz as nat, fine, tuner.power_ref());
    pll::planned_registers_decode_to_the_frequency(
        hz as nat,
        tuner.crystal_hz as nat,
        fine,
        tuner.power_ref(),
        d,
    );
    let rows = tuners::pll_rows(plan);
    let programmed = status.state.write_many(status.line, rows);
    lemma_rewritten(status.state, status.line, rows);
    let locked = programmed.state.await_lock(programmed.line, plan.actual_hz, 2);
    lemma_plan_registers(tuner.shadow, plan);
    lemma_await_lock_registers(programmed.state, programmed.line, plan.actual_hz);
    lemma_locked_registers(tuner.shadow, programmed.state.shadow, locked.state.shadow, plan);
}

/// What the registers hold of a synthesizer setting before the lock.
spec fn planned(before: Seq<u8>, after: Seq<u8>, plan: pll::Pll) -> bool {
    let whole: int = if plan.sdm == 0 {
        8
    } else {
        0
    };
    &&& after.len() == 27
    &&& after[11] == tuners::merged(
        tuners::merged(before[11], 0, 0x10),
        (32 * plan.divider) as u8,
        0xe0,
    )
    &&& after[13] == tuners::merged(tuners::merged(before[13], 0x80, 0xe0), whole as u8, 8)
    &&& after[15] == plan.integer
    &&& after[16] == plan.sdm % 256
    &&& after[17] == plan.sdm / 256
    &&& after[21] == tuners::merged(before[21], 0, 0x0c)
    &&& forall|i: int|
        0 <= i < 27 && i != 11 && i != 13 && i != 15 && i != 16 && i != 17 && i != 21
            ==> #[trigger] after[i] == before[i]
}

proof fn lemma_plan_registers(shadow: Seq<u8>, plan: pll::Pll)
    requires
        shadow.len() == 27,
    ensures
        planned(
            shadow,
            rewritten(rewritten(shadow, tuners::pll_prepare_rows()), tuners::pll_rows(plan)),
            plan,
        ),
{
    let prepare = tuners::pll_prepare_rows();
    let base = rewritten(shadow, prepare);
    lemma_three_rows(shadow, prepare);
    let rows = tuners::pll_rows(plan);
    lemma_five_rows(base, rows);
    lemma_full_mask(base[15], plan.integer);
    lemma_full_mask(base[17], (plan.sdm / 256) as u8);
    lemma_full_mask(base[16], (plan.sdm % 256) as u8);
}

proof fn lemma_locked_registers(before: Seq<u8>, p: Seq<u8>, s: Seq<u8>, plan: pll::Pll)
    requires
        before.len() == 27,
        plan.divider <= 7,
        planned(before, p, plan),
        after_lock(p, s),
    ensures
        s[15] == plan.integer,
        (256 * s[17] + s[16]) as u16 == plan.sdm,
        s[11] / 32 == plan.divider,
        s[11] / 16 % 2 == 0,
        s[11] % 16 == before[11] % 16,
        s[13] / 8 % 2 == (if plan.sdm == 0 {
            1int
        } else {
            0
        }),
        s[13] / 32 == 4 || s[13] / 32 == 3,
        s[21] / 4 % 4 == 2,
        s[21] / 16 == before[21] / 16,
        s[21] % 4 == before[21] % 4,
        forall|i: int|
            0 <= i < 27 && i != 11 && i != 13 && i != 15 && i != 16 && i != 17 && i != 21
                ==> #[trigger] s[i] == before[i],
{
    let whole: u8 = if plan.sdm == 0 {
        1
    } else {
        0
    };
    lemma_pll_bits(before[11], plan.divider, before[13], whole, before[21]);
    assert forall|i: int|
        0 <= i < 27 && i != 11 && i != 13 && i != 15 && i != 16 && i != 17 && i
            != 21 implies #[trigger] s[i] == before[i] by {
        assert(s[i] == p[i]);
    }
}

proof fn lemma_fine_bits(byte: u8)
    ensures
        tuners::reversed(byte) / 16 % 4 == 2 * (byte / 4 % 2) + byte / 8 % 2,
{
    assert(tuners::reversed(byte) / 16 % 4 == 2 * (byte / 4 % 2) + byte / 8 % 2) by (bit_vector);
}

pub(crate) proof fn lemma_write_many_length(tuner: TunerState, line: Line, rows: Rows)
    requires
        !line.awaits(),
        tuner.write_many(line, rows).outcome is Ok,
    ensures
        tuner.write_many(line, rows).line.issued.len() == line.issued.len() + rows.len(),
        !tuner.write_many(line, rows).line.awaits(),
    decreases rows.len(),
{
    if rows.len() > 0 {
        lemma_write_many_length(tuner, line, rows.drop_last());
    }
}

/// The frequency that a board's tuner is set to for a received one: 3.57 MHz above it, and above
/// that of the 28.8 MHz upconverter of a Blog V4 for what is below it.
pub open spec fn offset_of(tuner: TunerState, hz: u64) -> int {
    3_570_000 + (if tuner.blog_v4 && hz < 28_800_000 {
        28_800_000int
    } else {
        0
    })
}

/// Whether the antenna switches of registers 5 and 6 stand for a frequency: on a Blog V4 below
/// 28.8 MHz, below 250 MHz, or above; on another board up to 345 MHz, or above.
pub open spec fn antenna_selected(tuner: TunerState, hz: u64, s: Seq<u8>) -> bool {
    if tuner.blog_v4 {
        &&& s[1] / 8 % 2 == (if hz < 28_800_000 {
            1int
        } else {
            0
        })
        &&& s[0] / 32 % 4 == (if hz < 28_800_000 {
            1int
        } else if hz < 250_000_000 {
            3
        } else {
            0
        })
    } else {
        &&& s[1] == tuner.shadow[1]
        &&& s[0] / 32 % 4 == (if hz <= 345_000_000 {
            3int
        } else {
            0
        })
    }
}

/// Whether the tracking filter's registers hold a row of its settings.
pub open spec fn filter_selected(row: (u64, u8, u8, u8), before: Seq<u8>, s: Seq<u8>) -> bool {
    &&& s[18] / 8 % 2 == row.1 / 8 % 2
    &&& s[18] % 8 == before[18] % 8
    &&& s[18] / 16 == before[18] / 16
    &&& s[21] / 64 == row.2 / 64
    &&& s[21] % 4 == row.2 % 4
    &&& s[21] / 16 % 4 == before[21] / 16 % 4
    &&& s[22] == row.3
    &&& s[3] % 64 == 0
    &&& s[3] / 64 == before[3] / 64
    &&& s[4] % 64 == 0
    &&& s[4] / 64 == before[4] / 64
    &&& s[11] % 4 == 0
    &&& s[11] / 8 % 2 == 0
}

/// What tuning to a frequency does to the registers, if it succeeds and reports another frequency as
/// received: `row` is the tracking filter's setting, and `d` how often the oscillator is halved.
pub open spec fn tuned(
    tuner: TunerState,
    after: TunerState,
    hz: u64,
    received: u64,
    row: (u64, u8, u8, u8),
    d: nat,
) -> bool {
    let s = after.shadow;
    let sdm = (256 * s[17] + s[16]) as u16;
    let offset = offset_of(tuner, hz);
    let crystal = tuner.crystal_hz as nat;
    &&& s.len() == 27
    &&& exists|lo: nat|
        #[trigger] pll::produces(s[15], sdm, crystal, d, lo) && received == (if lo < offset {
            0
        } else {
            lo - offset
        })
    &&& pll::closest(s[15], sdm, crystal, d, (hz + offset) as nat)
    &&& d - 1 <= s[11] / 32 <= d + 1
    &&& s[13] / 8 % 2 == (if sdm == 0 {
        1int
    } else {
        0
    })
    &&& filter_selected(row, tuner.shadow, s)
    &&& if tuner.kind == TunerKind::R828D {
        &&& after.input == Some(tuner.input_for(hz))
        &&& tuner.input != Some(tuner.input_for(hz)) ==> antenna_selected(tuner, hz, s)
        &&& tuner.input == Some(tuner.input_for(hz)) ==> s[0] == tuner.shadow[0] && s[1]
            == tuner.shadow[1]
    } else {
        &&& after.input == tuner.input
        &&& s[0] == tuner.shadow[0]
        &&& s[1] == tuner.shadow[1]
    }
    &&& s[0] % 32 == tuner.shadow[0] % 32
    &&& s[0] / 128 == tuner.shadow[0] / 128
    &&& s[2] == tuner.shadow[2]
    &&& forall|i: int|
        5 <= i < 27 && i != 11 && i != 13 && i != 15 && i != 16 && i != 17 && i != 18 && i != 21
            && i != 22 ==> #[trigger] s[i] == tuner.shadow[i]
}

/// Tuning sets the synthesizer to the received frequency plus the intermediate frequency of
/// 3.57 MHz, and plus the upconverter's 28.8 MHz where it is used: its registers produce a
/// frequency that is by this much above the reported one, and none comes closer to what the request
/// asks for from below. The tracking filter gets the row for that frequency, and a tuner with
/// several antenna inputs gets the one for the received frequency unless it has it already. The
/// gain and all other registers are left alone.
pub proof fn tuning_programs_the_local_oscillator(
    tuner: TunerState,
    line: Line,
    hz: u64,
    tables: Tables,
    d: nat,
)
    requires
        !line.awaits(),
        tuner.shadow.len() == 27,
        hz <= 1_766_430_000,
        pll::halvings((hz + offset_of(tuner, hz)) as nat, d),
        tuner.tune(line, hz, tables).outcome is Ok,
    ensures
        ({
            let run = tuner.tune(line, hz, tables);
            let row = registers::mux_row(
                if tuner.blog_v4 {
                    tables.v4_mux
                } else {
                    tables.standard_mux
                },
                (hz + offset_of(tuner, hz)) as u64,
            );
            tuned(tuner, run.state, hz, run.outcome->Ok_0, row, d)
        }),
{
    reveal(TunerState::tune);
    let offset = (tuner.upconvert(hz) + tuners::IF_HZ) as u64;
    let lo = (hz + offset) as u64;
    let row = registers::mux_row(
        if tuner.blog_v4 {
            tables.v4_mux
        } else {
            tables.standard_mux
        },
        lo,
    );
    let rows = tuners::mux_rows(row);
    let filtered = tuner.write_many(line, rows);
    lemma_rewritten(tuner, line, rows);
    lemma_write_many_length(tuner, line, rows);
    lemma_mux_registers(tuner.shadow, row);
    let f = filtered.state.shadow;
    synthesizer_registers_produce_the_frequency(filtered.state, filtered.line, lo, d);
    let synthesized = filtered.state.set_pll(filtered.line, lo);
    tuners::lemma_set_pll_keeps(filtered.state, filtered.line, lo);
    let run = tuner.tune(line, hz, tables);
    if tuner.kind == TunerKind::R828D {
        lemma_select_input_registers(synthesized.state, synthesized.line, hz);
    }
    lemma_tuned_registers(
        tuner,
        filtered,
        synthesized,
        run.state,
        hz,
        lo,
        run.outcome->Ok_0,
        row,
        d,
    );
}

proof fn lemma_narrower_bits(a: u8, b: u8, c: u8, e: u8)
    requires
        a / 16 == b / 16,
        c % 16 == e % 16,
    ensures
        a / 64 == b / 64,
        a / 16 % 4 == b / 16 % 4,
        c % 4 == e % 4,
        c / 8 % 2 == e / 8 % 2,
{
    assert(a / 64 == b / 64 && a / 16 % 4 == b / 16 % 4 && c % 4 == e % 4 && c / 8 % 2 == e / 8 % 2)
        by (bit_vector)
        requires
            a / 16 == b / 16,
            c % 16 == e % 16,
    ;
}

/// What selecting the antenna input does to the registers.
spec fn input_selected(before: TunerState, after: TunerState, hz: u64) -> bool {
    let s = after.shadow;
    &&& s.len() == 27
    &&& after.input == Some(before.input_for(hz))
    &&& before.input != Some(before.input_for(hz)) ==> antenna_selected(before, hz, s)
    &&& before.input == Some(before.input_for(hz)) ==> s == before.shadow
    &&& s[0] % 32 == before.shadow[0] % 32
    &&& s[0] / 128 == before.shadow[0] / 128
    &&& forall|i: int| 2 <= i < 27 ==> #[trigger] s[i] == before.shadow[i]
}

proof fn lemma_tuned_registers(
    tuner: TunerState,
    filtered: Run<TunerState, ()>,
    synthesized: Run<TunerState, u64>,
    after: TunerState,
    hz: u64,
    lo: u64,
    received: u64,
    row: (u64, u8, u8, u8),
    d: nat,
)
    requires
        tuner.shadow.len() == 27,
        muxed(tuner.shadow, filtered.state.shadow, row),
        filtered.state.same_chip(tuner),
        filtered.state.input == tuner.input,
        synthesized.outcome is Ok,
        synthesizes(
            filtered.state,
            filtered.line,
            synthesized.state,
            lo,
            synthesized.outcome->Ok_0,
            d,
        ),
        synthesized.state.same_chip(tuner),
        synthesized.state.input == tuner.input,
        lo == hz + offset_of(tuner, hz),
        received == (if synthesized.outcome->Ok_0 < offset_of(tuner, hz) {
            0
        } else {
            synthesized.outcome->Ok_0 - offset_of(tuner, hz)
        }),
        if tuner.kind == TunerKind::R828D {
            input_selected(synthesized.state, after, hz)
        } else {
            after == synthesized.state
        },
    ensures
        tuned(tuner, after, hz, received, row, d),
{
    let b = tuner.shadow;
    let f = filtered.state.shadow;
    let p = synthesized.state.shadow;
    let s = after.shadow;
    lemma_narrower_bits(p[21], f[21], p[11], f[11]);
    assert(p[0] == f[0] && f[0] == b[0]);
    assert(p[1] == f[1] && f[1] == b[1]);
    assert(p[2] == f[2] && f[2] == b[2]);
    assert(p[3] == f[3] && p[4] == f[4] && p[18] == f[18] && p[22] == f[22]);
    assert(s[15] == p[15] && s[16] == p[16] && s[17] == p[17] && s[11] == p[11] && s[13] == p[13]);
    assert(s[2] == p[2] && s[3] == p[3] && s[4] == p[4] && s[18] == p[18] && s[21] == p[21]
        && s[22] == p[22]);
    assert(pll::produces(
        s[15],
        (256 * s[17] + s[16]) as u16,
        tuner.crystal_hz as nat,
        d,
        synthesized.outcome->Ok_0 as nat,
    ));
    assert forall|i: int|
        5 <= i < 27 && i != 11 && i != 13 && i != 15 && i != 16 && i != 17 && i != 18 && i != 21
            && i != 22 implies #[trigger] s[i] == tuner.shadow[i] by {
        assert(s[i] == p[i]);
        assert(p[i] == f[i]);
    }
}

/// What the registers hold of a tracking filter setting, before the synthesizer is set.
spec fn muxed(before: Seq<u8>, after: Seq<u8>, row: (u64, u8, u8, u8)) -> bool {
    &&& after.len() == 27
    &&& filter_selected(row, before, after)
    &&& forall|i: int|
        0 <= i < 27 && i != 3 && i != 4 && i != 11 && i != 18 && i != 21 && i != 22
            ==> #[trigger] after[i] == before[i]
}

proof fn lemma_mux_registers(b: Seq<u8>, row: (u64, u8, u8, u8))
    requires
        b.len() == 27,
    ensures
        muxed(b, rewritten(b, tuners::mux_rows(row)), row),
{
    lemma_six_rows(b, tuners::mux_rows(row));
    lemma_filter_bits(b[18], row.1, b[21], row.2, b[3], b[11]);
    lemma_filter_bits(b[18], row.1, b[21], row.2, b[4], b[11]);
    lemma_full_mask(b[22], row.3);
    let f = rewritten(b, tuners::mux_rows(row));
    assert(f[18] == tuners::merged(b[18], row.1, 8));
    assert(f[21] == tuners::merged(b[21], row.2, 0xc3));
    assert(f[22] == tuners::merged(b[22], row.3, 0xff));
    assert(f[11] == tuners::merged(b[11], 0, 0x0b));
    assert(f[3] == tuners::merged(b[3], 0, 0x3f));
    assert(f[4] == tuners::merged(b[4], 0, 0x3f));
}

proof fn lemma_filter_bits(r17: u8, drain: u8, r1a: u8, filter: u8, r8: u8, r10: u8)
    ensures
        ({
            let a = tuners::merged(r17, drain, 8);
            let b = tuners::merged(r1a, filter, 0xc3);
            let c = tuners::merged(r8, 0, 0x3f);
            let e = tuners::merged(r10, 0, 0x0b);
            &&& a / 8 % 2 == drain / 8 % 2
            &&& a % 8 == r17 % 8
            &&& a / 16 == r17 / 16
            &&& b / 64 == filter / 64
            &&& b % 4 == filter % 4
            &&& b / 16 % 4 == r1a / 16 % 4
            &&& c % 64 == 0
            &&& c / 64 == r8 / 64
            &&& e % 4 == 0
            &&& e / 8 % 2 == 0
        }),
{
    assert({
        let a = tuners::merged(r17, drain, 8);
        let b = tuners::merged(r1a, filter, 0xc3);
        let c = tuners::merged(r8, 0, 0x3f);
        let e = tuners::merged(r10, 0, 0x0b);
        a / 8 % 2 == drain / 8 % 2 && a % 8 == r17 % 8 && a / 16 == r17 / 16 && b / 64 == filter
            / 64 && b % 4 == filter % 4 && b / 16 % 4 == r1a / 16 % 4 && c % 64 == 0 && c / 64 == r8
            / 64 && e % 4 == 0 && e / 8 % 2 == 0
    }) by (bit_vector);
}

proof fn lemma_antenna_bits(r5: u8, air: u8, r6: u8, cable: u8)
    requires
        air <= 3,
        cable <= 1,
    ensures
        ({
            let a = tuners::merged(r5, (32 * air) as u8, 0x60);
            let b = tuners::merged(r6, (8 * cable) as u8, 8);
            &&& a / 32 % 4 == air
            &&& a % 32 == r5 % 32
            &&& a / 128 == r5 / 128
            &&& b / 8 % 2 == cable
            &&& b % 8 == r6 % 8
            &&& b / 16 == r6 / 16
        }),
{
    assert({
        let a = tuners::merged(r5, (32 * air) as u8, 0x60);
        let b = tuners::merged(r6, (8 * cable) as u8, 8);
        a / 32 % 4 == air && a % 32 == r5 % 32 && a / 128 == r5 / 128 && b / 8 % 2 == cable && b % 8
            == r6 % 8 && b / 16 == r6 / 16
    }) by (bit_vector)
        requires
            air <= 3,
            cable <= 1,
    ;
}

proof fn lemma_select_input_registers(tuner: TunerState, line: Line, hz: u64)
    requires
        tuner.shadow.len() == 27,
        tuner.select_input(line, tuner.input_for(hz)).outcome is Ok,
    ensures
        input_selected(tuner, tuner.select_input(line, tuner.input_for(hz)).state, hz),
{
    reveal(TunerState::select_input);
    let input = tuner.input_for(hz);
    let air: u8 = if input == 0 {
        0
    } else if input == 1 {
        3
    } else {
        1
    };
    let cable: u8 = if input == 2 {
        1
    } else {
        0
    };
    lemma_antenna_bits(tuner.shadow[0], air, tuner.shadow[1], cable);
}

} // verus!
