//! What the receiver's registers hold after a configuration that succeeded.

use crate::config::{DirectSampling, GainConfig, Settings};
use crate::errors::Error;
use crate::protocol;
use crate::protocol::{Answer, Halt, Line, Run, Wire};
use crate::rtl2832u;
use crate::rtl2832u::{causality, DemodRows, HardwareState};
use crate::tuners;
use crate::tuners::registers;
use crate::tuners::registers::{Rows, Tables};
use crate::tuners::TunerState;
use vstd::prelude::*;

verus! {

/// The bytes that were last written to a demodulator register.
pub open spec fn demod_holds(issued: Seq<Wire>, page: u8, reg: u8) -> Option<Seq<u8>>
    decreases issued.len(),
{
    if issued.len() == 0 {
        None
    } else {
        match issued.last() {
            Wire::Out { value, index, data } => if value == 256 * reg + 0x20 && index == page + 16 {
                Some(data)
            } else {
                demod_holds(issued.drop_last(), page, reg)
            },
            Wire::In { .. } => demod_holds(issued.drop_last(), page, reg),
        }
    }
}

/// The byte that was last written to a demodulator register, or -1 if it was not one byte.
pub open spec fn demod_byte(issued: Seq<Wire>, page: u8, reg: u8) -> int {
    match demod_holds(issued, page, reg) {
        Some(data) => if data.len() == 1 {
            data[0] as int
        } else {
            -1
        },
        None => -1,
    }
}

/// The word that was last written to a demodulator register, or -1 if it was not two bytes.
pub open spec fn demod_word(issued: Seq<Wire>, page: u8, reg: u8) -> int {
    match demod_holds(issued, page, reg) {
        Some(data) => if data.len() == 2 {
            256 * data[0] + data[1]
        } else {
            -1
        },
        None => -1,
    }
}

/// The byte that was last written to a system register.
pub open spec fn system_holds(issued: Seq<Wire>, reg: u16) -> Option<u8>
    decreases issued.len(),
{
    if issued.len() == 0 {
        None
    } else {
        match issued.last() {
            Wire::Out { value, index, data } => if value == reg && index == 0x210 && data.len()
                == 1 {
                Some(data[0])
            } else {
                system_holds(issued.drop_last(), reg)
            },
            Wire::In { .. } => system_holds(issued.drop_last(), reg),
        }
    }
}

/// Whether no demodulator register was written between two states of a line.
spec fn demod_kept(before: Line, after: Line) -> bool {
    forall|page: u8, reg: u8| #[trigger]
        demod_holds(after.issued, page, reg) == demod_holds(before.issued, page, reg)
}

/// Whether no system register was written between two states of a line.
spec fn system_kept(before: Line, after: Line) -> bool {
    forall|reg: u16| #[trigger]
        system_holds(after.issued, reg) == system_holds(before.issued, reg)
}

proof fn lemma_pushed(issued: Seq<Wire>, wire: Wire)
    ensures
        issued.push(wire).drop_last() == issued,
{
    assert(issued.push(wire).drop_last() =~= issued);
}

proof fn lemma_write_elsewhere(line: Line, value: u16, index: u16, data: Seq<u8>)
    requires
        index >= 0x110,
    ensures
        demod_kept(line, line.put(value, index, data).line),
        index != 0x210 ==> system_kept(line, line.put(value, index, data).line),
{
    lemma_pushed(line.issued, Wire::Out { value, index, data });
}

proof fn lemma_read_elsewhere(line: Line, value: u16, index: u16, length: u16)
    ensures
        demod_kept(line, line.read(value, index, length).line),
        system_kept(line, line.read(value, index, length).line),
{
    lemma_pushed(line.issued, Wire::In { value, index, length });
}

proof fn lemma_spaces()
    ensures
        0x100u16 | 0x10 == 0x110,
        0x200u16 | 0x10 == 0x210,
        0x600u16 | 0x10 == 0x610,
{
    assert(0x100u16 | 0x10 == 0x110 && 0x200u16 | 0x10 == 0x210 && 0x600u16 | 0x10 == 0x610)
        by (bit_vector);
}

/// The bytes that a row writes.
spec fn row_data(row: (u8, u8, u16, usize)) -> Seq<u8> {
    if row.3 == 1 {
        seq![(row.2 % 256) as u8]
    } else {
        seq![(row.2 / 256) as u8, (row.2 % 256) as u8]
    }
}

/// Whether rows write one or two bytes to a page below 16.
spec fn plain(rows: DemodRows) -> bool {
    forall|i: int|
        0 <= i < rows.len() ==> (#[trigger] rows[i]).0 < 16 && 1 <= rows[i].3 <= 2
}

/// What a register holds after a row, if it held `before`.
spec fn row_over(
    row: (u8, u8, u16, usize),
    page: u8,
    reg: u8,
    before: Option<Seq<u8>>,
) -> Option<Seq<u8>> {
    if row.0 == page && row.1 == reg {
        Some(row_data(row))
    } else {
        before
    }
}

/// What a register holds after rows, if it held `before`.
spec fn rows_over(rows: DemodRows, page: u8, reg: u8, before: Option<Seq<u8>>) -> Option<Seq<u8>>
    decreases rows.len(),
{
    if rows.len() == 0 {
        before
    } else {
        row_over(rows.last(), page, reg, rows_over(rows.drop_last(), page, reg, before))
    }
}

proof fn lemma_demod(line: Line, row: (u8, u8, u16, usize))
    requires
        row.0 < 16,
        1 <= row.3 <= 2,
        line.demod(row.0, row.1, row.2, row.3 as nat).outcome is Ok,
    ensures
        ({
            let after = line.demod(row.0, row.1, row.2, row.3 as nat).line;
            &&& forall|page: u8, reg: u8| #[trigger]
                demod_holds(after.issued, page, reg) == row_over(
                    row,
                    page,
                    reg,
                    demod_holds(line.issued, page, reg),
                )
            &&& system_kept(line, after)
        }),
{
    protocol::laws::demodulator_writes_are_encoded(line, row.0, row.1, row.2, row.3 as nat);
    let after = line.demod(row.0, row.1, row.2, row.3 as nat).line;
    let start = line.issued.len() as int;
    let wire = after.issued[start];
    let last = after.issued[start + 1];
    assert(after.issued.drop_last() =~= line.issued.push(wire));
    lemma_pushed(line.issued, wire);
    assert(wire->Out_data =~= row_data(row));
    assert forall|reg: u16| #[trigger]
        system_holds(after.issued, reg) == system_holds(line.issued, reg) by {
        assert(system_holds(line.issued.push(wire), reg) == system_holds(line.issued, reg));
    }
    assert forall|page: u8, reg: u8| #[trigger]
        demod_holds(after.issued, page, reg) == row_over(
            row,
            page,
            reg,
            demod_holds(line.issued, page, reg),
        ) by {
        assert(demod_holds(after.issued, page, reg) == demod_holds(
            line.issued.push(wire),
            page,
            reg,
        ));
    }
}

proof fn lemma_demod_all(line: Line, rows: DemodRows)
    requires
        plain(rows),
        line.demod_all(rows).outcome is Ok,
    ensures
        ({
            let after = line.demod_all(rows).line;
            &&& forall|page: u8, reg: u8| #[trigger]
                demod_holds(after.issued, page, reg) == rows_over(
                    rows,
                    page,
                    reg,
                    demod_holds(line.issued, page, reg),
                )
            &&& system_kept(line, after)
        }),
    decreases rows.len(),
{
    if rows.len() > 0 {
        let front = line.demod_all(rows.drop_last());
        assert forall|i: int| 0 <= i < rows.drop_last().len() implies (
        #[trigger] rows.drop_last()[i]).0 < 16 && 1 <= rows.drop_last()[i].3 <= 2 by {
            assert(rows.drop_last()[i] == rows[i]);
        }
        assert(plain(rows.drop_last()));
        lemma_demod_all(line, rows.drop_last());
        assert(rows.last() == rows[rows.len() - 1]);
        lemma_demod(front.line, rows.last());
    }
}

proof fn lemma_rows_step(rows: DemodRows, n: int, page: u8, reg: u8, before: Option<Seq<u8>>)
    requires
        0 <= n < rows.len(),
    ensures
        rows_over(rows.take(n + 1), page, reg, before) == row_over(
            rows[n],
            page,
            reg,
            rows_over(rows.take(n), page, reg, before),
        ),
        rows_over(rows.take(0), page, reg, before) == before,
        rows.take(rows.len() as int) == rows,
{
    assert(rows.take(n + 1).drop_last() =~= rows.take(n));
    assert(rows.take(rows.len() as int) =~= rows);
}

proof fn lemma_four_rows(rows: DemodRows, page: u8, reg: u8, before: Option<Seq<u8>>)
    requires
        rows.len() == 4,
    ensures
        rows_over(rows, page, reg, before) == row_over(
            rows[3],
            page,
            reg,
            row_over(
                rows[2],
                page,
                reg,
                row_over(rows[1], page, reg, row_over(rows[0], page, reg, before)),
            ),
        ),
{
    lemma_rows_step(rows, 0, page, reg, before);
    lemma_rows_step(rows, 1, page, reg, before);
    lemma_rows_step(rows, 2, page, reg, before);
    lemma_rows_step(rows, 3, page, reg, before);
}

proof fn lemma_five_rows(rows: DemodRows, page: u8, reg: u8, before: Option<Seq<u8>>)
    requires
        rows.len() == 5,
    ensures
        rows_over(rows, page, reg, before) == row_over(
            rows[4],
            page,
            reg,
            row_over(
                rows[3],
                page,
                reg,
                row_over(
                    rows[2],
                    page,
                    reg,
                    row_over(rows[1], page, reg, row_over(rows[0], page, reg, before)),
                ),
            ),
        ),
{
    lemma_rows_step(rows, 0, page, reg, before);
    lemma_rows_step(rows, 1, page, reg, before);
    lemma_rows_step(rows, 2, page, reg, before);
    lemma_rows_step(rows, 3, page, reg, before);
    lemma_rows_step(rows, 4, page, reg, before);
}

proof fn lemma_tuner_write(tuner: TunerState, line: Line, reg: u8, value: u8, mask: u8)
    ensures
        demod_kept(line, tuner.write(line, reg, value, mask).line),
{
    lemma_spaces();
    let byte = tuners::merged(tuner.shadow[reg - 5], value, mask);
    lemma_write_elsewhere(line, tuner.address() as u16, 0x610, seq![reg, byte]);
}

proof fn lemma_write_many(tuner: TunerState, line: Line, rows: Rows)
    ensures
        demod_kept(line, tuner.write_many(line, rows).line),
    decreases rows.len(),
{
    if rows.len() > 0 {
        let row = rows.last();
        lemma_write_many(tuner, line, rows.drop_last());
        let front = tuner.write_many(line, rows.drop_last());
        lemma_tuner_write(front.state, front.line, row.0, row.1, row.2);
    }
}

proof fn lemma_tuner_read(tuner: TunerState, line: Line, count: u16)
    ensures
        demod_kept(line, tuner.read(line, count).line),
{
    lemma_spaces();
    let address = tuner.address() as u16;
    lemma_write_elsewhere(line, address, 0x610, seq![0u8]);
    let written = line.write(address, 0x600, seq![0u8]);
    lemma_read_elsewhere(written.line, address, 0x600, count);
}

proof fn lemma_await_lock(tuner: TunerState, line: Line, actual_hz: u64, attempts: nat)
    ensures
        demod_kept(line, tuner.await_lock(line, actual_hz, attempts).line),
    decreases attempts,
{
    if attempts > 0 {
        lemma_tuner_read(tuner, line, 3);
        let status = tuner.read(line, 3);
        lemma_tuner_write(tuner, status.line, 0x1a, 8, 8);
        lemma_tuner_write(tuner, status.line, 0x12, 0x60, 0xe0);
        let raised = tuner.write(status.line, 0x12, 0x60, 0xe0);
        lemma_await_lock(raised.state, raised.line, actual_hz, (attempts - 1) as nat);
    }
}

proof fn lemma_set_pll(tuner: TunerState, line: Line, hz: u64)
    ensures
        demod_kept(line, tuner.set_pll(line, hz).line),
{
    reveal(TunerState::set_pll);
    reveal(TunerState::apply_pll);
    let rows = tuners::pll_prepare_rows();
    lemma_write_many(tuner, line, rows);
    let prepared = tuner.write_many(line, rows);
    lemma_tuner_read(prepared.state, prepared.line, 5);
    let status = prepared.state.read(prepared.line, 5);
    if status.outcome is Ok {
        let plan = tuners::pll::pll_plan(
            hz as nat,
            tuner.crystal_hz as nat,
            status.outcome->Ok_0[4] / 16 % 4,
            tuner.power_ref(),
        );
        let rows = tuners::pll_rows(plan);
        lemma_write_many(status.state, status.line, rows);
        let programmed = status.state.write_many(status.line, rows);
        lemma_await_lock(programmed.state, programmed.line, plan.actual_hz, 2);
    }
}

proof fn lemma_sys_update(line: Line, reg: u16, mask: u8)
    ensures
        demod_kept(line, line.sys_set(reg, mask).line),
        demod_kept(line, line.sys_clear(reg, mask).line),
        line.sys_set(reg, mask).outcome is Ok ==> {
            let after = line.sys_set(reg, mask).line;
            &&& exists|old: u8| system_holds(after.issued, reg) == Some(#[trigger] (old | mask))
            &&& forall|other: u16|
                other != reg ==> #[trigger] system_holds(after.issued, other) == system_holds(
                    line.issued,
                    other,
                )
        },
        line.sys_clear(reg, mask).outcome is Ok ==> {
            let after = line.sys_clear(reg, mask).line;
            &&& exists|old: u8| system_holds(after.issued, reg) == Some(#[trigger] (old & !mask))
            &&& forall|other: u16|
                other != reg ==> #[trigger] system_holds(after.issued, other) == system_holds(
                    line.issued,
                    other,
                )
        },
{
    lemma_spaces();
    lemma_read_elsewhere(line, reg, 0x200, 1);
    let old = line.sys_read(reg);
    if old.outcome is Ok {
        let value = old.outcome->Ok_0;
        let set = Wire::Out { value: reg, index: 0x210, data: seq![value | mask] };
        let clear = Wire::Out { value: reg, index: 0x210, data: seq![value & !mask] };
        lemma_write_elsewhere(old.line, reg, 0x210, seq![value | mask]);
        lemma_write_elsewhere(old.line, reg, 0x210, seq![value & !mask]);
        lemma_pushed(old.line.issued, set);
        lemma_pushed(old.line.issued, clear);
        assert(line.sys_set(reg, mask).line.issued == old.line.issued.push(set));
        assert(line.sys_clear(reg, mask).line.issued == old.line.issued.push(clear));
        assert(system_holds(old.line.issued.push(set), reg) == Some(value | mask));
        assert(system_holds(old.line.issued.push(clear), reg) == Some(value & !mask));
        assert forall|other: u16| other != reg implies system_holds(
            old.line.issued.push(set),
            other,
        ) == system_holds(line.issued, other) && system_holds(old.line.issued.push(clear), other)
            == system_holds(line.issued, other) by {
            assert(system_holds(old.line.issued, other) == system_holds(line.issued, other));
        }
    }
}

/// The bit of a pin in the byte that was last written to a system register.
pub open spec fn pin_level(issued: Seq<Wire>, reg: u16, pin: u8) -> Option<u8> {
    match system_holds(issued, reg) {
        Some(byte) => Some(byte >> pin & 1),
        None => None,
    }
}

proof fn lemma_pin_bits(old: u8, pin: u8)
    requires
        pin < 8,
    ensures
        (old | (1u8 << pin)) >> pin & 1 == 1,
        (old & !(1u8 << pin)) >> pin & 1 == 0,
{
    assert((old | (1u8 << pin)) >> pin & 1 == 1 && (old & !(1u8 << pin)) >> pin & 1 == 0)
        by (bit_vector)
        requires
            pin < 8,
    ;
}

/// Driving a pin leaves its bit in the output latch at the level, makes the pin an output and
/// enables it.
pub proof fn pins_are_driven(line: Line, pin: u8, high: bool)
    requires
        pin < 8,
        line.gpio(pin, high).outcome is Ok,
    ensures
        ({
            let issued = line.gpio(pin, high).line.issued;
            &&& pin_level(issued, 0x3001, pin) == Some(
                if high {
                    1u8
                } else {
                    0
                },
            )
            &&& pin_level(issued, 0x3004, pin) == Some(0u8)
            &&& pin_level(issued, 0x3003, pin) == Some(1u8)
        }),
{
    let mask = 1u8 << pin;
    let latch = if high {
        line.sys_set(0x3001, mask)
    } else {
        line.sys_clear(0x3001, mask)
    };
    lemma_sys_update(line, 0x3001, mask);
    let direction = latch.line.sys_clear(0x3004, mask);
    lemma_sys_update(latch.line, 0x3004, mask);
    let output = direction.line.sys_set(0x3003, mask);
    lemma_sys_update(direction.line, 0x3003, mask);
    if high {
        let old = choose|old: u8|
            system_holds(latch.line.issued, 0x3001) == Some(#[trigger] (old | mask));
        lemma_pin_bits(old, pin);
    } else {
        let old = choose|old: u8|
            system_holds(latch.line.issued, 0x3001) == Some(#[trigger] (old & !mask));
        lemma_pin_bits(old, pin);
    }
    let old = choose|old: u8|
        system_holds(direction.line.issued, 0x3004) == Some(#[trigger] (old & !mask));
    lemma_pin_bits(old, pin);
    let old = choose|old: u8|
        system_holds(output.line.issued, 0x3003) == Some(#[trigger] (old | mask));
    lemma_pin_bits(old, pin);
}

proof fn lemma_gpio(line: Line, pin: u8, high: bool)
    ensures
        demod_kept(line, line.gpio(pin, high).line),
{
    let mask = 1u8 << pin;
    let latch = if high {
        line.sys_set(0x3001, mask)
    } else {
        line.sys_clear(0x3001, mask)
    };
    lemma_sys_update(line, 0x3001, mask);
    lemma_sys_update(latch.line, 0x3004, mask);
    lemma_sys_update(latch.line.sys_clear(0x3004, mask).line, 0x3003, mask);
}

proof fn lemma_receiver(line: Line, enabled: bool)
    ensures
        demod_kept(line, line.receiver(enabled).line),
        system_kept(line, line.receiver(enabled).line),
{
    let reset = line.usb_u16(0x2148, 0x0210);
    lemma_write_elsewhere(line, 0x2148, 0x110, protocol::low_byte_first(0x0210));
    lemma_write_elsewhere(reset.line, 0x2148, 0x110, protocol::low_byte_first(0));
}

/// Selecting the antenna input of a Blog V4 drives pin 5 low for the upconverter and high for the
/// other inputs.
pub proof fn antenna_relays_follow_the_input(tuner: TunerState, line: Line, hz: u64)
    requires
        tuner.blog_v4,
        tuner.input != Some(tuner.input_for(hz)),
        tuner.select_input(line, tuner.input_for(hz)).outcome is Ok,
    ensures
        ({
            let issued = tuner.select_input(line, tuner.input_for(hz)).line.issued;
            &&& pin_level(issued, 0x3001, 5) == Some(
                if hz < 28_800_000 {
                    0u8
                } else {
                    1
                },
            )
            &&& pin_level(issued, 0x3004, 5) == Some(0u8)
            &&& pin_level(issued, 0x3003, 5) == Some(1u8)
        }),
{
    reveal(TunerState::select_input);
    let input = tuner.input_for(hz);
    let cable = tuner.write(
        line,
        0x06,
        if input == 2 {
            8
        } else {
            0
        },
        8,
    );
    let air = cable.state.write(
        cable.line,
        0x05,
        if input == 0 {
            0
        } else if input == 1 {
            0x60
        } else {
            0x20
        },
        0x60,
    );
    pins_are_driven(air.line, 5, input != 2);
}

proof fn lemma_select_input(tuner: TunerState, line: Line, input: u8)
    ensures
        demod_kept(line, tuner.select_input(line, input).line),
{
    reveal(TunerState::select_input);
    let cable: u8 = if input == 2 {
        8
    } else {
        0
    };
    let air: u8 = if input == 0 {
        0
    } else if input == 1 {
        0x60
    } else {
        0x20
    };
    lemma_tuner_write(tuner, line, 0x06, cable, 8);
    let first = tuner.write(line, 0x06, cable, 8);
    lemma_tuner_write(first.state, first.line, 0x05, air, 0x60);
    let second = first.state.write(first.line, 0x05, air, 0x60);
    lemma_gpio(second.line, 5, input != 2);
    let plain_air: u8 = if input == 0 {
        0
    } else {
        0x60
    };
    lemma_tuner_write(tuner, line, 0x05, plain_air, 0x60);
}

proof fn lemma_tune(tuner: TunerState, line: Line, hz: u64, tables: Tables)
    ensures
        demod_kept(line, tuner.tune(line, hz, tables).line),
{
    reveal(TunerState::tune);
    let offset = (tuner.upconvert(hz) + tuners::IF_HZ) as u64;
    let lo = (hz + offset) as u64;
    let rows = tuners::mux_rows(
        registers::mux_row(
            if tuner.blog_v4 {
                tables.v4_mux
            } else {
                tables.standard_mux
            },
            lo,
        ),
    );
    lemma_write_many(tuner, line, rows);
    let filtered = tuner.write_many(line, rows);
    lemma_set_pll(filtered.state, filtered.line, lo);
    let synthesized = filtered.state.set_pll(filtered.line, lo);
    lemma_select_input(synthesized.state, synthesized.line, tuner.input_for(hz));
}

proof fn lemma_center(tuner: TunerState, line: Line, settings: Settings, tables: Tables)
    ensures
        demod_kept(line, tuner.center(line, settings, tables).line),
{
    lemma_tune(tuner, line, settings.frequency_hz, tables);
}

/// Whether settings receive below 28.8 MHz past the tuner.
pub open spec fn receives_directly(settings: Settings) -> bool {
    settings.frequency_hz < 28_800_000 && settings.direct_sampling != DirectSampling::Off
}

/// Whether the demodulator takes its input from where the settings say: from the tuner at an
/// intermediate frequency, or from one of the ADC inputs directly, with its own gain control only
/// then, and only if the gain is automatic.
pub open spec fn path_selected(issued: Seq<Wire>, settings: Settings) -> bool {
    let direct = receives_directly(settings);
    &&& demod_byte(issued, 1, 0xb1) == 0x1a
    &&& demod_byte(issued, 0, 0x08) == (if direct {
        0xcdint
    } else {
        0x4d
    })
    &&& demod_byte(issued, 1, 0x15) == (if direct {
        0int
    } else {
        1
    })
    &&& demod_byte(issued, 0, 0x06) == (if direct && settings.direct_sampling == DirectSampling::Q {
        0x90int
    } else {
        0x80
    })
    &&& demod_byte(issued, 0, 0x19) == (if direct && settings.gain is Auto {
        0x25int
    } else {
        5
    })
}

/// Whether the correction registers hold the negated correction in steps of 2^-24, rounded up, in
/// 14-bit two's complement.
pub open spec fn correction_set(issued: Seq<Wire>, ppm: i32) -> bool {
    let word = 256 * demod_byte(issued, 1, 0x3e) + demod_byte(issued, 1, 0x3f);
    let signed = if word >= 0x2000 {
        word - 0x4000
    } else {
        word
    };
    &&& 0 <= demod_byte(issued, 1, 0x3e) < 0x40
    &&& 0 <= demod_byte(issued, 1, 0x3f) < 0x100
    &&& 0 <= signed * 1_000_000 + ppm * 0x100_0000 < 1_000_000
}

/// Whether the two words of the resampler ratio make up the largest multiple of four, by which the
/// sample rate can be multiplied without passing 28.8 MHz in 22-bit fixed point.
pub open spec fn rate_set(issued: Seq<Wire>, rate: u32) -> bool {
    let ratio = 0x1_0000 * demod_word(issued, 1, 0x9f) + demod_word(issued, 1, 0xa1);
    &&& 0 <= demod_word(issued, 1, 0x9f)
    &&& 0 <= demod_word(issued, 1, 0xa1)
    &&& ratio % 4 == 0
    &&& 0 < ratio < 0x1000_0000
    &&& ratio * rate <= 28_800_000 * 0x40_0000 < (ratio + 4) * rate
}

/// The 22 bits of the intermediate frequency registers.
pub open spec fn if_word_held(issued: Seq<Wire>) -> int {
    0x1_0000 * demod_byte(issued, 1, 0x19) + 0x100 * demod_byte(issued, 1, 0x1a) + demod_byte(
        issued,
        1,
        0x1b,
    )
}

/// Whether a crystal frequency is the nominal 28.8 MHz with a correction, rounded down.
pub open spec fn is_corrected(crystal: u64, ppm: i32) -> bool {
    crystal * 1_000_000 <= 28_800_000 * (1_000_000 + ppm) < (crystal + 1) * 1_000_000
}

/// Whether `shift` is a frequency as a fraction of the crystal frequency in steps of 2^-22, rounded
/// down.
pub open spec fn is_shift(shift: int, hz: int, crystal: u64) -> bool {
    shift * crystal <= hz * 0x40_0000 < (shift + 1) * crystal
}

/// Whether the demodulator shifts the signal down by a frequency: its registers hold the negated
/// shift in 22-bit two's complement.
pub open spec fn shifts_down_by(issued: Seq<Wire>, hz: int, crystal: u64) -> bool {
    &&& 0 <= demod_byte(issued, 1, 0x19) < 0x40
    &&& 0 <= demod_byte(issued, 1, 0x1a)
    &&& 0 <= demod_byte(issued, 1, 0x1b)
    &&& exists|shift: int|
        0 <= shift && #[trigger] is_shift(shift, hz, crystal) && (if_word_held(issued) + shift)
            % 0x40_0000 == 0
}

/// Whether the bias power is switched as the settings say.
pub open spec fn bias_set(issued: Seq<Wire>, bias_tee: bool) -> bool {
    &&& pin_level(issued, 0x3001, 0) == Some(
        if bias_tee {
            1u8
        } else {
            0
        },
    )
    &&& pin_level(issued, 0x3004, 0) == Some(0u8)
    &&& pin_level(issued, 0x3003, 0) == Some(1u8)
}

proof fn lemma_engaged(tuner: TunerState, line: Line, settings: Settings)
    requires
        !receives_directly(settings),
        tuner.engage(line, settings).outcome is Ok,
    ensures
        path_selected(tuner.engage(line, settings).line.issued, settings),
{
    reveal(TunerState::engage);
    let rows = rtl2832u::tuner_rows();
    lemma_demod_all(line, rows);
    let routed = line.demod_all(rows);
    lemma_five_rows(rows, 1, 0xb1, demod_holds(line.issued, 1, 0xb1));
    lemma_five_rows(rows, 0, 0x08, demod_holds(line.issued, 0, 0x08));
    lemma_five_rows(rows, 1, 0x15, demod_holds(line.issued, 1, 0x15));
    lemma_five_rows(rows, 0, 0x06, demod_holds(line.issued, 0, 0x06));
    lemma_five_rows(rows, 0, 0x19, demod_holds(line.issued, 0, 0x19));
    let gains = match settings.gain {
        GainConfig::Auto => tuners::automatic_gain_rows(),
        GainConfig::Manual(gain) => tuners::manual_gain_rows(
            tuners::gain_split(gain).0,
            tuners::gain_split(gain).1,
        ),
    };
    lemma_write_many(tuner, routed.line, gains);
}

proof fn lemma_bypassed(
    tuner: TunerState,
    line: Line,
    bypassed: bool,
    settings: Settings,
    tables: Tables,
)
    requires
        receives_directly(settings),
        tuner.bypass(line, bypassed, settings, tables).outcome is Ok,
    ensures
        path_selected(tuner.bypass(line, bypassed, settings, tables).line.issued, settings),
{
    reveal(TunerState::bypass);
    let parked = if bypassed {
        Run::done(tuner, line, ())
    } else {
        tuner.standby(line, tables.standby)
    };
    let rows = rtl2832u::direct_rows(settings);
    lemma_demod_all(parked.line, rows);
    let before = parked.line.issued;
    lemma_five_rows(rows, 1, 0xb1, demod_holds(before, 1, 0xb1));
    lemma_five_rows(rows, 0, 0x08, demod_holds(before, 0, 0x08));
    lemma_five_rows(rows, 1, 0x15, demod_holds(before, 1, 0x15));
    lemma_five_rows(rows, 0, 0x06, demod_holds(before, 0, 0x06));
    lemma_five_rows(rows, 0, 0x19, demod_holds(before, 0, 0x19));
}

proof fn lemma_rates_arithmetic(ppm: i32, rate: u32)
    requires
        -488 <= ppm <= 488,
        900_001 <= rate <= 3_200_000,
    ensures
        ({
            let word = rtl2832u::correction(ppm);
            let signed = if word >= 0x2000 {
                word - 0x4000
            } else {
                word as int
            };
            let ratio = rtl2832u::resampler_ratio(rate);
            &&& word < 0x4000
            &&& 0 <= signed * 1_000_000 + ppm * 0x100_0000 < 1_000_000
            &&& ratio % 4 == 0
            &&& 0 < ratio < 0x1000_0000
            &&& ratio * rate <= 28_800_000 * 0x40_0000 < (ratio + 4) * rate
        }),
{
    let steps = ppm * 0x100_0000 / 1_000_000;
    assert(-8192 < steps < 8192);
    assert(steps * 1_000_000 <= ppm * 0x100_0000 < steps * 1_000_000 + 1_000_000);
    if steps > 0 {
        assert(-steps % 0x4000 == 0x4000 - steps);
    }
    rtl2832u::sample_rate_is_exact(rate);
    let k = rtl2832u::scaled_crystal() as int;
    assert(k == 120_795_955_200_000);
    let r = rate as int;
    let q = k / r;
    let rest = k % r;
    vstd::arithmetic::div_mod::lemma_fundamental_div_mod(k, r);
    assert(37_748_735 <= q <= 134_217_599) by (nonlinear_arith)
        requires
            k == r * q + rest,
            0 <= rest < r,
            k == 120_795_955_200_000,
            900_001 <= r <= 3_200_000,
    ;
    let ratio = rtl2832u::resampler_ratio(rate) as int;
    assert(ratio == q / 4 * 4);
    assert(ratio * r <= k < (ratio + 4) * r) by (nonlinear_arith)
        requires
            k == r * q + rest,
            0 <= rest < r,
            ratio <= q < ratio + 4,
    ;
}

proof fn lemma_rated(line: Line, settings: Settings)
    requires
        settings.valid(),
        line.demod_all(rtl2832u::rate_rows(settings)).outcome is Ok,
    ensures
        ({
            let after = line.demod_all(rtl2832u::rate_rows(settings)).line.issued;
            &&& correction_set(after, settings.correction_ppm)
            &&& rate_set(after, settings.sample_rate_hz)
            &&& path_selected(line.issued, settings) ==> path_selected(after, settings)
        }),
{
    let rows = rtl2832u::rate_rows(settings);
    lemma_rates_arithmetic(settings.correction_ppm, settings.sample_rate_hz);
    assert(plain(rows));
    lemma_demod_all(line, rows);
    let b = line.issued;
    lemma_four_rows(rows, 1, 0x3e, demod_holds(b, 1, 0x3e));
    lemma_four_rows(rows, 1, 0x3f, demod_holds(b, 1, 0x3f));
    lemma_four_rows(rows, 1, 0x9f, demod_holds(b, 1, 0x9f));
    lemma_four_rows(rows, 1, 0xa1, demod_holds(b, 1, 0xa1));
    lemma_four_rows(rows, 1, 0xb1, demod_holds(b, 1, 0xb1));
    lemma_four_rows(rows, 0, 0x08, demod_holds(b, 0, 0x08));
    lemma_four_rows(rows, 1, 0x15, demod_holds(b, 1, 0x15));
    lemma_four_rows(rows, 0, 0x06, demod_holds(b, 0, 0x06));
    lemma_four_rows(rows, 0, 0x19, demod_holds(b, 0, 0x19));
}

proof fn lemma_settled(line: Line, word: u32, settings: Settings, resume: bool)
    requires
        word < 0x40_0000,
        line.settle(word, settings.bias_tee, resume).outcome is Ok,
    ensures
        ({
            let b = line.issued;
            let after = line.settle(word, settings.bias_tee, resume).line.issued;
            &&& demod_byte(after, 1, 0x19) == word / 0x1_0000
            &&& demod_byte(after, 1, 0x1a) == word / 0x100 % 0x100
            &&& demod_byte(after, 1, 0x1b) == word % 0x100
            &&& if_word_held(after) == word
            &&& bias_set(after, settings.bias_tee)
            &&& path_selected(b, settings) ==> path_selected(after, settings)
            &&& correction_set(b, settings.correction_ppm) ==> correction_set(
                after,
                settings.correction_ppm,
            )
            &&& rate_set(b, settings.sample_rate_hz) ==> rate_set(after, settings.sample_rate_hz)
        }),
{
    reveal(Line::settle);
    let rows = rtl2832u::if_rows(word);
    assert(plain(rows));
    lemma_demod_all(line, rows);
    let tuned = line.demod_all(rows);
    let b = line.issued;
    lemma_five_rows(rows, 1, 0x19, demod_holds(b, 1, 0x19));
    lemma_five_rows(rows, 1, 0x1a, demod_holds(b, 1, 0x1a));
    lemma_five_rows(rows, 1, 0x1b, demod_holds(b, 1, 0x1b));
    lemma_five_rows(rows, 1, 0x3e, demod_holds(b, 1, 0x3e));
    lemma_five_rows(rows, 1, 0x3f, demod_holds(b, 1, 0x3f));
    lemma_five_rows(rows, 1, 0x9f, demod_holds(b, 1, 0x9f));
    lemma_five_rows(rows, 1, 0xa1, demod_holds(b, 1, 0xa1));
    lemma_five_rows(rows, 1, 0xb1, demod_holds(b, 1, 0xb1));
    lemma_five_rows(rows, 0, 0x08, demod_holds(b, 0, 0x08));
    lemma_five_rows(rows, 1, 0x15, demod_holds(b, 1, 0x15));
    lemma_five_rows(rows, 0, 0x06, demod_holds(b, 0, 0x06));
    lemma_five_rows(rows, 0, 0x19, demod_holds(b, 0, 0x19));
    lemma_gpio(tuned.line, 0, settings.bias_tee);
    pins_are_driven(tuned.line, 0, settings.bias_tee);
    let bias = tuned.line.gpio(0, settings.bias_tee);
    lemma_receiver(bias.line, true);
}

/// Whether the demodulator and the bias power are set up for settings, at a crystal frequency.
pub open spec fn receiver_programmed(issued: Seq<Wire>, settings: Settings, crystal: u64) -> bool {
    &&& path_selected(issued, settings)
    &&& correction_set(issued, settings.correction_ppm)
    &&& rate_set(issued, settings.sample_rate_hz)
    &&& shifts_down_by(
        issued,
        if receives_directly(settings) {
            settings.frequency_hz as int
        } else {
            3_570_000
        },
        crystal,
    )
    &&& bias_set(issued, settings.bias_tee)
}

proof fn lemma_shift(hz: u64, crystal: u64)
    requires
        hz < 28_800_000,
        28_785_945 <= crystal <= 28_814_054,
    ensures
        ({
            let word = rtl2832u::if_register(hz, crystal);
            let shift = (rtl2832u::scaled(hz) / crystal as nat) as int;
            &&& word < 0x40_0000
            &&& 0 <= shift
            &&& is_shift(shift, hz as int, crystal)
            &&& (word + shift) % 0x40_0000 == 0
        }),
{
    let s = rtl2832u::scaled(hz) as int;
    let c = crystal as int;
    assert(s == hz * 0x40_0000);
    let shift = s / c;
    vstd::arithmetic::div_mod::lemma_fundamental_div_mod(s, c);
    assert(0 <= shift && shift * c <= s < (shift + 1) * c) by (nonlinear_arith)
        requires
            s == c * shift + s % c,
            0 <= s % c < c,
            0 <= s,
    ;
    assert(shift == rtl2832u::scaled(hz) / crystal as nat);
    let word = rtl2832u::if_register(hz, crystal);
    assert(word == -shift % 0x40_0000);
    vstd::arithmetic::div_mod::lemma_fundamental_div_mod(-shift, 0x40_0000);
    let k = -shift / 0x40_0000;
    assert(word + shift == -k * 0x40_0000) by (nonlinear_arith)
        requires
            -shift == 0x40_0000 * k + word,
    ;
    vstd::arithmetic::div_mod::lemma_mod_multiples_basic(-k, 0x40_0000);
}

proof fn lemma_corrected(ppm: i32)
    requires
        -488 <= ppm <= 488,
    ensures
        is_corrected(rtl2832u::corrected(ppm), ppm),
        28_785_945 <= rtl2832u::corrected(ppm) <= 28_814_054,
{
}

#[verifier::spinoff_prover]
proof fn lemma_programmed(
    hardware: HardwareState,
    line: Line,
    tuner: TunerState,
    reinitialize: bool,
    settings: Settings,
    tables: Tables,
)
    requires
        settings.valid(),
        path_selected(line.issued, settings),
        hardware.program(line, tuner, reinitialize, settings, tables).outcome is Ok,
    ensures
        receiver_programmed(
            hardware.program(line, tuner, reinitialize, settings, tables).line.issued,
            settings,
            rtl2832u::corrected(settings.correction_ppm),
        ),
{
    reveal(HardwareState::program);
    let crystal = rtl2832u::corrected(settings.correction_ppm);
    lemma_corrected(settings.correction_ppm);
    let rates = line.demod_all(rtl2832u::rate_rows(settings));
    lemma_rated(line, settings);
    let centered = tuner.center(rates.line, settings, tables);
    lemma_center(tuner, rates.line, settings, tables);
    let hz = if rtl2832u::bypasses(settings) {
        settings.frequency_hz
    } else {
        tuners::IF_HZ
    };
    let word = rtl2832u::if_register(hz, crystal);
    lemma_shift(hz, crystal);
    lemma_settled(centered.line, word, settings, reinitialize && hardware.receiving);
    let after = centered.line.settle(
        word,
        settings.bias_tee,
        reinitialize && hardware.receiving,
    ).line.issued;
    assert(is_shift((rtl2832u::scaled(hz) / crystal as nat) as int, hz as int, crystal));
    assert(shifts_down_by(after, hz as int, crystal));
}

proof fn lemma_routed(
    tuner: TunerState,
    line: Line,
    bypassed: bool,
    reinitialize: bool,
    settings: Settings,
    tables: Tables,
)
    requires
        tuner.route(line, bypassed, reinitialize, settings, tables).outcome is Ok,
    ensures
        path_selected(
            tuner.route(line, bypassed, reinitialize, settings, tables).line.issued,
            settings,
        ),
{
    reveal(TunerState::route);
    let direct = rtl2832u::bypasses(settings);
    let awake = tuner.awaken(line, reinitialize || (bypassed && !direct), tables);
    if direct {
        lemma_bypassed(awake.state, awake.line, bypassed, settings, tables);
    } else {
        lemma_engaged(awake.state, awake.line, settings);
    }
}

/// A configuration that succeeds leaves the demodulator's input, correction, resampler ratio and
/// frequency shift at what the settings ask for, and the bias power switched. Through the tuner the
/// signal is shifted down by the 3.57 MHz that the tuner puts it at; past the tuner, by the
/// frequency itself, and the frequency that the shift stands for is the reported one. The shift is
/// a fraction of the crystal frequency that the tuner is left at. The I2C repeater is closed.
pub proof fn configuration_programs_the_receiver(
    hardware: HardwareState,
    line: Line,
    settings: Settings,
    blog_v4: bool,
    tables: Tables,
)
    requires
        hardware.tuner matches Some(tuner) ==> tuner.blog_v4 == blog_v4,
        hardware.configure(line, settings, blog_v4, tables).outcome is Ok,
    ensures
        ({
            let run = hardware.configure(line, settings, blog_v4, tables);
            let crystal = run.state.tuner->Some_0.crystal_hz;
            &&& run.state.tuner is Some
            &&& is_corrected(crystal, settings.correction_ppm)
            &&& receiver_programmed(run.line.issued, settings, crystal)
            &&& demod_byte(run.line.issued, 1, 1) == 0x10
            &&& receives_directly(settings) ==> {
                let hz = run.outcome->Ok_0.frequency_hz;
                exists|shift: int| #[trigger]
                    is_shift(shift, settings.frequency_hz as int, crystal) && hz * 0x40_0000
                        <= shift * crystal < (hz + 1) * 0x40_0000
            }
        }),
{
    reveal(HardwareState::configure_inner);
    reveal(HardwareState::apply);
    rtl2832u::laws::configuration_reports_what_it_applied(hardware, line, settings, blog_v4, tables);
    lemma_corrected(settings.correction_ppm);
    let crystal = rtl2832u::corrected(settings.correction_ppm);
    let invalid = HardwareState { valid: false, ..hardware };
    let ready = if !hardware.valid {
        invalid.reinitialize(line, blog_v4, tables)
    } else {
        Run::done(invalid, line, ())
    };
    let tuner = TunerState { crystal_hz: crystal, ..ready.state.tuner->Some_0 };
    let routed = tuner.route(ready.line, ready.state.direct, !hardware.valid, settings, tables);
    lemma_routed(tuner, ready.line, ready.state.direct, !hardware.valid, settings, tables);
    let selected = HardwareState {
        tuner: Some(routed.state),
        direct: rtl2832u::bypasses(settings),
        ..ready.state
    };
    lemma_programmed(selected, routed.line, routed.state, !hardware.valid, settings, tables);
    let inner = invalid.configure_inner(line, settings, blog_v4, !hardware.valid, tables);
    lemma_demod(inner.line, (1, 1, 0x10, 1));
    if receives_directly(settings) {
        lemma_direct_frequency(selected, routed.line, routed.state, !hardware.valid, settings, tables);
    }
}

proof fn lemma_direct_frequency(
    hardware: HardwareState,
    line: Line,
    tuner: TunerState,
    reinitialize: bool,
    settings: Settings,
    tables: Tables,
)
    requires
        settings.valid(),
        receives_directly(settings),
        hardware.program(line, tuner, reinitialize, settings, tables).outcome is Ok,
    ensures
        ({
            let run = hardware.program(line, tuner, reinitialize, settings, tables);
            let crystal = rtl2832u::corrected(settings.correction_ppm);
            let hz = run.outcome->Ok_0.frequency_hz;
            exists|shift: int| #[trigger]
                is_shift(shift, settings.frequency_hz as int, crystal) && hz * 0x40_0000 <= shift
                    * crystal < (hz + 1) * 0x40_0000
        }),
{
    reveal(HardwareState::program);
    let crystal = rtl2832u::corrected(settings.correction_ppm);
    lemma_corrected(settings.correction_ppm);
    lemma_shift(settings.frequency_hz, crystal);
    let shift = (rtl2832u::scaled(settings.frequency_hz) / crystal as nat) as int;
    assert(is_shift(shift, settings.frequency_hz as int, crystal));
    let product = shift * crystal;
    assert(0 <= product) by (nonlinear_arith)
        requires
            0 <= shift,
            0 <= crystal,
            product == shift * crystal,
    ;
    assert(rtl2832u::if_quantized(settings.frequency_hz, crystal) == product / 0x40_0000);
}

/// Whether the gain is set in the tuner's registers: the steps in the low four bits of registers 5
/// and 7 with both automatics off, or both automatics on.
pub open spec fn gain_set(s: Seq<u8>, gain: GainConfig) -> bool {
    match gain {
        GainConfig::Auto => s[0] / 16 % 2 == 0 && s[2] / 16 % 2 == 1 && s[7] % 32 == 0x0b,
        GainConfig::Manual(gain) => {
            let (lna, mixer) = tuners::gain_split(gain);
            s[0] % 16 == lna && s[0] / 16 % 2 == 1 && s[2] % 16 == mixer && s[2] / 16 % 2 == 0
                && s[7] % 32 == 8
        },
    }
}

/// Whether the tuner's synthesizer is set for a received frequency: 3.57 MHz above it, or above what
/// the upconverter of a Blog V4 makes of it, and what it produces is by that much above the reported
/// frequency.
pub open spec fn synthesizer_set(
    s: Seq<u8>,
    crystal: u64,
    hz: u64,
    blog_v4: bool,
    d: nat,
    reported: u64,
) -> bool {
    let sdm = (256 * s[17] + s[16]) as u16;
    let offset: int = if blog_v4 && hz < 28_800_000 {
        32_370_000
    } else {
        3_570_000
    };
    &&& tuners::pll::closest(s[15], sdm, crystal as nat, d, (hz + offset) as nat)
    &&& exists|lo: nat| #[trigger]
        tuners::pll::produces(s[15], sdm, crystal as nat, d, lo) && reported == (if lo < offset {
            0
        } else {
            lo - offset
        })
}

proof fn lemma_routed_registers(
    tuner: TunerState,
    line: Line,
    bypassed: bool,
    reinitialize: bool,
    settings: Settings,
    tables: Tables,
)
    requires
        !line.awaits(),
        tuner.shadow.len() == 27,
        tables.valid(),
        !receives_directly(settings),
        tuner.route(line, bypassed, reinitialize, settings, tables).outcome is Ok,
    ensures
        ({
            let run = tuner.route(line, bypassed, reinitialize, settings, tables);
            &&& run.state.shadow.len() == 27
            &&& gain_set(run.state.shadow, settings.gain)
            &&& run.state.same_chip(tuner)
            &&& !run.line.awaits()
        }),
{
    reveal(TunerState::route);
    reveal(TunerState::awaken);
    reveal(TunerState::engage);
    rtl2832u::lemma_route_keeps(tuner, line, bypassed, reinitialize, settings, tables);
    causality::route_is_causal(tuner, line, line, bypassed, reinitialize, settings, tables);
    let open = reinitialize || bypassed;
    let gate = line.i2c_gate(true);
    protocol::causality::i2c_gate_is_causal(line, line, true);
    let awake = tuner.awaken(line, open, tables);
    if open {
        tuners::initialization::initialization_programs_the_tuner(tuner, gate.line, tables);
    }
    let routed = awake.line.demod_all(rtl2832u::tuner_rows());
    match settings.gain {
        GainConfig::Auto => {
            tuners::programming::automatic_gain_is_programmed(awake.state, routed.line);
        },
        GainConfig::Manual(gain) => {
            tuners::programming::manual_gain_is_programmed(awake.state, routed.line, gain);
        },
    }
}

/// A configuration that succeeds through the tuner leaves the tuner's gain and synthesizer at what
/// the settings ask for: the synthesizer is set above the received frequency by what the
/// demodulator shifts the signal down, and the frequency that its registers produce is reported.
pub proof fn configuration_programs_the_tuner(
    hardware: HardwareState,
    line: Line,
    settings: Settings,
    blog_v4: bool,
    tables: Tables,
    d: nat,
)
    requires
        !line.awaits(),
        tables.valid(),
        hardware.tuner matches Some(tuner) ==> tuner.blog_v4 == blog_v4 && tuner.shadow.len() == 27,
        hardware.configure(line, settings, blog_v4, tables).outcome is Ok,
        !receives_directly(settings),
        tuners::pll::halvings(
            (settings.frequency_hz + if blog_v4 && settings.frequency_hz < 28_800_000 {
                32_370_000int
            } else {
                3_570_000
            }) as nat,
            d,
        ),
    ensures
        ({
            let run = hardware.configure(line, settings, blog_v4, tables);
            let tuner = run.state.tuner->Some_0;
            &&& run.state.tuner is Some
            &&& tuner.shadow.len() == 27
            &&& gain_set(tuner.shadow, settings.gain)
            &&& synthesizer_set(
                tuner.shadow,
                tuner.crystal_hz,
                settings.frequency_hz,
                blog_v4,
                d,
                run.outcome->Ok_0.frequency_hz,
            )
        }),
{
    reveal(HardwareState::configure_inner);
    reveal(HardwareState::reinitialize);
    reveal(HardwareState::apply);
    reveal(HardwareState::program);
    rtl2832u::laws::configuration_reports_what_it_applied(hardware, line, settings, blog_v4, tables);
    let crystal = rtl2832u::corrected(settings.correction_ppm);
    let invalid = HardwareState { valid: false, ..hardware };
    let ready = if !hardware.valid {
        invalid.reinitialize(line, blog_v4, tables)
    } else {
        Run::done(invalid, line, ())
    };
    causality::bring_up_is_causal(line, line, blog_v4);
    let tuner = TunerState { crystal_hz: crystal, ..ready.state.tuner->Some_0 };
    let routed = tuner.route(ready.line, ready.state.direct, !hardware.valid, settings, tables);
    lemma_routed_registers(
        tuner,
        ready.line,
        ready.state.direct,
        !hardware.valid,
        settings,
        tables,
    );
    let rates = routed.line.demod_all(rtl2832u::rate_rows(settings));
    protocol::causality::demod_all_is_causal(
        routed.line,
        routed.line,
        rtl2832u::rate_rows(settings),
    );
    tuners::programming::tuning_programs_the_local_oscillator(
        routed.state,
        rates.line,
        settings.frequency_hz,
        tables,
        d,
    );
    let g = routed.state.shadow;
    let s = routed.state.tune(rates.line, settings.frequency_hz, tables).state.shadow;
    lemma_low_bits(s[0], g[0]);
    assert(s[7] == g[7]);
}

proof fn lemma_low_bits(a: u8, b: u8)
    requires
        a % 32 == b % 32,
    ensures
        a % 16 == b % 16,
        a / 16 % 2 == b / 16 % 2,
{
    assert(a % 16 == b % 16 && a / 16 % 2 == b / 16 % 2) by (bit_vector)
        requires
            a % 32 == b % 32,
    ;
}

proof fn lemma_last_write(rows: DemodRows, k: int, page: u8, reg: u8, before: Option<Seq<u8>>)
    requires
        0 <= k < rows.len(),
        rows[k].0 == page,
        rows[k].1 == reg,
        forall|j: int|
            k < j < rows.len() ==> (#[trigger] rows[j]).0 != page || rows[j].1 != reg,
    ensures
        rows_over(rows, page, reg, before) == Some(row_data(rows[k])),
    decreases rows.len(),
{
    let front = rows.drop_last();
    let last = rows.len() - 1;
    assert(rows.last() == rows[last]);
    if k < last {
        assert forall|j: int| k < j < front.len() implies (#[trigger] front[j]).0 != page
            || front[j].1 != reg by {
            assert(front[j] == rows[j]);
        }
        lemma_last_write(front, k, page, reg, before);
    }
}

/// A byte as a number in two's complement.
pub open spec fn signed_byte(byte: int) -> int {
    if byte >= 128 {
        byte - 256
    } else {
        byte
    }
}

/// Whether the eight short coefficients of the demodulator's filter are loaded, one byte each.
pub open spec fn short_coefficients_loaded(issued: Seq<Wire>) -> bool {
    &&& signed_byte(demod_byte(issued, 1, 0x1c)) == -54
    &&& signed_byte(demod_byte(issued, 1, 0x1d)) == -36
    &&& signed_byte(demod_byte(issued, 1, 0x1e)) == -41
    &&& signed_byte(demod_byte(issued, 1, 0x1f)) == -40
    &&& signed_byte(demod_byte(issued, 1, 0x20)) == -32
    &&& signed_byte(demod_byte(issued, 1, 0x21)) == -14
    &&& signed_byte(demod_byte(issued, 1, 0x22)) == 14
    &&& signed_byte(demod_byte(issued, 1, 0x23)) == 53
}

/// Whether two coefficients of twelve bits are loaded into three bytes.
pub open spec fn pair_loaded(issued: Seq<Wire>, reg: u8, first: int, second: int) -> bool {
    let high = demod_byte(issued, 1, reg);
    let middle = demod_byte(issued, 1, (reg + 1) as u8);
    let low = demod_byte(issued, 1, (reg + 2) as u8);
    &&& 0 <= high < 256 && 0 <= middle < 256 && 0 <= low < 256
    &&& first == 16 * high + middle / 16
    &&& second == 256 * (middle % 16) + low
}

/// Whether the demodulator is initialized: the coefficients of its filter are loaded, and its gain
/// control, ADC and output are set up.
pub open spec fn demodulator_initialized(issued: Seq<Wire>) -> bool {
    &&& forall|reg: u8| 0x15 <= reg <= 0x1b ==> #[trigger] demod_byte(issued, 1, reg) == 0
    &&& short_coefficients_loaded(issued)
    &&& pair_loaded(issued, 0x24, 101, 156)
    &&& pair_loaded(issued, 0x27, 215, 273)
    &&& pair_loaded(issued, 0x2a, 327, 372)
    &&& pair_loaded(issued, 0x2d, 404, 421)
    &&& demod_byte(issued, 0, 0x19) == 5
    &&& demod_byte(issued, 1, 0x93) == 0xf0
    &&& demod_byte(issued, 1, 0x94) == 0x0f
    &&& demod_byte(issued, 1, 0x11) == 0
    &&& demod_byte(issued, 1, 0x04) == 0
    &&& demod_byte(issued, 0, 0x61) == 0x60
    &&& demod_byte(issued, 0, 0x06) == 0x80
    &&& demod_byte(issued, 1, 0xb1) == 0x1b
    &&& demod_byte(issued, 0, 0x0d) == 0x83
}

#[verifier::spinoff_prover]
#[verifier::rlimit(50)]
proof fn lemma_initial_rows(rows: DemodRows)
    requires
        rows == rtl2832u::demod_init_rows(),
    ensures
        rows.len() == 38,
        plain(rows),
        forall|j: int| 2 <= j < 29 ==> (#[trigger] rows[j]).0 == 1 && rows[j].1 == j + 19,
        forall|j: int| 2 <= j < 9 ==> (#[trigger] rows[j]).2 == 0,
        rows[0] == (1u8, 1u8, 20u16, 1usize),
        rows[1] == (1u8, 1u8, 16u16, 1usize),
        rows[9].2 == 202,
        rows[10].2 == 220,
        rows[11].2 == 215,
        rows[12].2 == 216,
        rows[13].2 == 224,
        rows[14].2 == 242,
        rows[15].2 == 14,
        rows[16].2 == 53,
        rows[17].2 == 6,
        rows[18].2 == 80,
        rows[19].2 == 156,
        rows[20].2 == 13,
        rows[21].2 == 113,
        rows[22].2 == 17,
        rows[23].2 == 20,
        rows[24].2 == 113,
        rows[25].2 == 116,
        rows[26].2 == 25,
        rows[27].2 == 65,
        rows[28].2 == 165,
        rows[29] == (0u8, 25u8, 5u16, 1usize),
        rows[30] == (1u8, 147u8, 240u16, 1usize),
        rows[31] == (1u8, 148u8, 15u16, 1usize),
        rows[32] == (1u8, 17u8, 0u16, 1usize),
        rows[33] == (1u8, 4u8, 0u16, 1usize),
        rows[34] == (0u8, 97u8, 96u16, 1usize),
        rows[35] == (0u8, 6u8, 128u16, 1usize),
        rows[36] == (1u8, 177u8, 27u16, 1usize),
        rows[37] == (0u8, 13u8, 131u16, 1usize),
        forall|j: int| 0 <= j < 38 ==> (#[trigger] rows[j]).3 == 1,
{
    assert(rows[9] == (1u8, 28u8, 202u16, 1usize));
    assert(rows[10] == (1u8, 29u8, 220u16, 1usize));
    assert(rows[11] == (1u8, 30u8, 215u16, 1usize));
    assert(rows[12] == (1u8, 31u8, 216u16, 1usize));
    assert(rows[13] == (1u8, 32u8, 224u16, 1usize));
    assert(rows[14] == (1u8, 33u8, 242u16, 1usize));
    assert(rows[15] == (1u8, 34u8, 14u16, 1usize));
    assert(rows[16] == (1u8, 35u8, 53u16, 1usize));
    assert(rows[17] == (1u8, 36u8, 6u16, 1usize));
    assert(rows[18] == (1u8, 37u8, 80u16, 1usize));
    assert(rows[19] == (1u8, 38u8, 156u16, 1usize));
    assert(rows[20] == (1u8, 39u8, 13u16, 1usize));
    assert(rows[21] == (1u8, 40u8, 113u16, 1usize));
    assert(rows[22] == (1u8, 41u8, 17u16, 1usize));
    assert(rows[23] == (1u8, 42u8, 20u16, 1usize));
    assert(rows[24] == (1u8, 43u8, 113u16, 1usize));
    assert(rows[25] == (1u8, 44u8, 116u16, 1usize));
    assert(rows[26] == (1u8, 45u8, 25u16, 1usize));
    assert(rows[27] == (1u8, 46u8, 65u16, 1usize));
    assert(rows[28] == (1u8, 47u8, 165u16, 1usize));
}

#[verifier::spinoff_prover]
#[verifier::rlimit(50)]
proof fn lemma_initialized(line: Line)
    requires
        line.demod_all(rtl2832u::demod_init_rows()).outcome is Ok,
    ensures
        demodulator_initialized(line.demod_all(rtl2832u::demod_init_rows()).line.issued),
{
    let rows = rtl2832u::demod_init_rows();
    lemma_initial_rows(rows);
    lemma_demod_all(line, rows);
    let b = line.issued;
    assert forall|reg: u8| 0x15 <= reg <= 0x1b implies #[trigger] demod_byte(
        line.demod_all(rows).line.issued,
        1,
        reg,
    ) == 0 by {
        lemma_last_write(rows, reg - 19, 1, reg, demod_holds(b, 1, reg));
    }
    lemma_last_write(rows, 9, 1, 28, demod_holds(b, 1, 28));
    lemma_last_write(rows, 10, 1, 29, demod_holds(b, 1, 29));
    lemma_last_write(rows, 11, 1, 30, demod_holds(b, 1, 30));
    lemma_last_write(rows, 12, 1, 31, demod_holds(b, 1, 31));
    lemma_last_write(rows, 13, 1, 32, demod_holds(b, 1, 32));
    lemma_last_write(rows, 14, 1, 33, demod_holds(b, 1, 33));
    lemma_last_write(rows, 15, 1, 34, demod_holds(b, 1, 34));
    lemma_last_write(rows, 16, 1, 35, demod_holds(b, 1, 35));
    lemma_last_write(rows, 17, 1, 36, demod_holds(b, 1, 36));
    lemma_last_write(rows, 18, 1, 37, demod_holds(b, 1, 37));
    lemma_last_write(rows, 19, 1, 38, demod_holds(b, 1, 38));
    lemma_last_write(rows, 20, 1, 39, demod_holds(b, 1, 39));
    lemma_last_write(rows, 21, 1, 40, demod_holds(b, 1, 40));
    lemma_last_write(rows, 22, 1, 41, demod_holds(b, 1, 41));
    lemma_last_write(rows, 23, 1, 42, demod_holds(b, 1, 42));
    lemma_last_write(rows, 24, 1, 43, demod_holds(b, 1, 43));
    lemma_last_write(rows, 25, 1, 44, demod_holds(b, 1, 44));
    lemma_last_write(rows, 26, 1, 45, demod_holds(b, 1, 45));
    lemma_last_write(rows, 27, 1, 46, demod_holds(b, 1, 46));
    lemma_last_write(rows, 28, 1, 47, demod_holds(b, 1, 47));
    lemma_last_write(rows, 29, 0, 25, demod_holds(b, 0, 25));
    lemma_last_write(rows, 30, 1, 147, demod_holds(b, 1, 147));
    lemma_last_write(rows, 31, 1, 148, demod_holds(b, 1, 148));
    lemma_last_write(rows, 32, 1, 17, demod_holds(b, 1, 17));
    lemma_last_write(rows, 33, 1, 4, demod_holds(b, 1, 4));
    lemma_last_write(rows, 34, 0, 97, demod_holds(b, 0, 97));
    lemma_last_write(rows, 35, 0, 6, demod_holds(b, 0, 6));
    lemma_last_write(rows, 36, 1, 177, demod_holds(b, 1, 177));
    lemma_last_write(rows, 37, 0, 13, demod_holds(b, 0, 13));
}

proof fn lemma_detect(line: Line)
    ensures
        demod_kept(line, line.detect().line),
{
    lemma_spaces();
    lemma_probe(line, 0x34);
    lemma_probe(line.probe(0x34).line, 0x74);
}

proof fn lemma_probe(line: Line, address: u8)
    ensures
        demod_kept(line, line.probe(address).line),
{
    lemma_spaces();
    lemma_write_elsewhere(line, address as u16, 0x610, seq![0u8]);
    let written = line.write(address as u16, 0x600, seq![0u8]);
    lemma_read_elsewhere(written.line, address as u16, 0x600, 1);
}

proof fn lemma_powered(line: Line)
    requires
        line.power_up().outcome is Ok,
    ensures
        ({
            let issued = line.power_up().line.issued;
            let start = line.issued.len() as int;
            &&& issued.len() == start + 5
            &&& issued[start] == (Wire::Out { value: 0x2000, index: 0x110, data: seq![0x09u8] })
            &&& issued[start + 1] == (Wire::Out {
                value: 0x2158,
                index: 0x110,
                data: seq![0x00u8, 0x02],
            })
            &&& issued[start + 2] == (Wire::Out {
                value: 0x2148,
                index: 0x110,
                data: seq![0x10u8, 0x02],
            })
            &&& issued[start + 3] == (Wire::Out { value: 0x300b, index: 0x210, data: seq![0x22u8] })
            &&& issued[start + 4] == (Wire::Out { value: 0x3000, index: 0x210, data: seq![0xe8u8] })
        }),
{
    reveal(Line::power_up);
    lemma_spaces();
    assert(protocol::low_byte_first(0x0200) =~= seq![0x00u8, 0x02]);
    assert(protocol::low_byte_first(0x0210) =~= seq![0x10u8, 0x02]);
}

/// Bringing the hardware up sets up the USB block with the receive endpoint held in reset, powers
/// the demodulator, and initializes it. The I2C repeater is open afterwards, and a Blog V4 has an
/// R828D.
pub proof fn bringing_up_initializes_the_receiver(line: Line, blog_v4: bool)
    requires
        !line.awaits(),
        line.bring_up(blog_v4).outcome is Ok,
    ensures
        ({
            let run = line.bring_up(blog_v4);
            let issued = run.line.issued;
            let start = line.issued.len() as int;
            &&& issued.len() > start + 5
            &&& issued[start] == (Wire::Out { value: 0x2000, index: 0x110, data: seq![0x09u8] })
            &&& issued[start + 1] == (Wire::Out {
                value: 0x2158,
                index: 0x110,
                data: seq![0x00u8, 0x02],
            })
            &&& issued[start + 2] == (Wire::Out {
                value: 0x2148,
                index: 0x110,
                data: seq![0x10u8, 0x02],
            })
            &&& issued[start + 3] == (Wire::Out { value: 0x300b, index: 0x210, data: seq![0x22u8] })
            &&& issued[start + 4] == (Wire::Out { value: 0x3000, index: 0x210, data: seq![0xe8u8] })
            &&& demodulator_initialized(issued)
            &&& demod_byte(issued, 1, 1) == 0x18
            &&& blog_v4 ==> run.outcome->Ok_0 == tuners::TunerKind::R828D
        }),
{
    reveal(Line::bring_up);
    reveal(Line::find_tuner);
    let powered = line.power_up();
    lemma_powered(line);
    causality::power_up_is_causal(line, line);
    causality::find_tuner_is_causal(powered.line, powered.line, blog_v4);
    let rows = rtl2832u::demod_init_rows();
    let set = powered.line.demod_all(rows);
    protocol::causality::demod_all_is_causal(powered.line, powered.line, rows);
    lemma_initialized(powered.line);
    let gate = set.line.i2c_gate(true);
    lemma_demod(set.line, (1, 1, 0x18, 1));
    protocol::laws::demodulator_writes_are_encoded(set.line, 1, 1, 0x18, 1);
    lemma_detect(gate.line);
    let run = line.bring_up(blog_v4);
    tuners::causality::detect_is_causal(gate.line, gate.line);
    protocol::causality::i2c_gate_is_causal(set.line, set.line, true);
    assert forall|reg: u8| 0x15 <= reg <= 0x1b implies #[trigger] demod_byte(
        run.line.issued,
        1,
        reg,
    ) == 0 by {
        assert(demod_byte(set.line.issued, 1, reg) == 0);
        assert(demod_holds(gate.line.issued, 1, reg) == demod_holds(set.line.issued, 1, reg));
        assert(demod_holds(run.line.issued, 1, reg) == demod_holds(gate.line.issued, 1, reg));
    }
    assert(powered.line.issued.is_prefix_of(run.line.issued));
    let start = line.issued.len() as int;
    assert(forall|i: int|
        start <= i < start + 5 ==> #[trigger] run.line.issued[i] == powered.line.issued[i]);
}

proof fn lemma_standby(tuner: TunerState, line: Line, rows: Rows)
    ensures
        system_kept(line, tuner.standby(line, rows).line),
    decreases rows.len(),
{
    if rows.len() > 0 {
        let front = tuner.standby(line, rows.drop_last());
        let row = rows.last();
        lemma_standby(tuner, line, rows.drop_last());
        lemma_spaces();
        let byte = tuners::merged(front.state.shadow[row.0 - 5], row.1, row.2);
        lemma_write_elsewhere(front.line, front.state.address() as u16, 0x610, seq![row.0, byte]);
    }
}

/// A shutdown holds the receive endpoint in reset first, and if that fails this is what it fails
/// with. If it succeeds, the bias power is off, the I2C repeater is closed, the power was switched
/// off last, and a tuner has all changes made that power it down.
pub proof fn shutdown_switches_everything_off(hardware: HardwareState, line: Line, tables: Tables)
    requires
        !line.awaits(),
        !hardware.shutdown(line, tables).waits(),
    ensures
        ({
            let run = hardware.shutdown(line, tables);
            let start = line.issued.len() as int;
            &&& run.line.issued[start] == (Wire::Out {
                value: 0x2148,
                index: 0x110,
                data: seq![0x10u8, 0x02],
            })
            &&& line.replies[start] matches Answer::Failed(error) ==> run.outcome == Err::<(), Halt>(
                Halt::Failed(Error::Transfer(error)),
            )
            &&& run.outcome is Ok ==> {
                &&& bias_set(run.line.issued, false)
                &&& demod_byte(run.line.issued.drop_last(), 1, 1) == 0x10
                &&& system_holds(run.line.issued, 0x3000) == Some(0x20u8)
                &&& run.line.issued.last() is Out
                &&& (hardware.tuner is Some <==> run.state.tuner is Some)
                &&& hardware.tuner matches Some(tuner) ==> run.state.tuner->Some_0.shadow
                    == tuners::programming::rewritten(tuner.shadow, tables.standby)
            }
        }),
{
    reveal(Line::cut_power);
    reveal(HardwareState::park);
    lemma_spaces();
    assert(protocol::low_byte_first(0x0210) =~= seq![0x10u8, 0x02]);
    let run = hardware.shutdown(line, tables);
    let off = line.receiver(false);
    protocol::causality::receiver_is_causal(line, line, false);
    let bias = off.line.gpio(0, false);
    protocol::causality::gpio_is_causal(off.line, off.line, 0, false);
    let quiet = HardwareState { receiving: false, ..hardware };
    let parked = quiet.park(bias.line, tables);
    causality::park_is_causal(quiet, bias.line, bias.line, tables);
    let gate = parked.line.i2c_gate(false);
    protocol::causality::i2c_gate_is_causal(parked.line, parked.line, false);
    causality::cut_power_is_causal(parked.line, parked.line);
    let start = line.issued.len() as int;
    assert(off.line.issued.is_prefix_of(run.line.issued));
    assert(run.line.issued[start] == off.line.issued[start]);
    if run.outcome is Ok {
        pins_are_driven(off.line, 0, false);
        if let Some(tuner) = hardware.tuner {
            let open = bias.line.i2c_gate(true);
            lemma_demod(bias.line, (1, 1, 0x18, 1));
            lemma_standby(tuner, open.line, tables.standby);
            tuners::initialization::standby_changes_the_registers(tuner, open.line, tables.standby);
        }
        lemma_demod(parked.line, (1, 1, 0x10, 1));
        let power = Wire::Out { value: 0x3000, index: 0x210, data: seq![0x20u8] };
        lemma_pushed(gate.line.issued, power);
        assert(run.line.issued == gate.line.issued.push(power));
        assert forall|reg: u16| reg != 0x3000 implies #[trigger] system_holds(run.line.issued, reg)
            == system_holds(bias.line.issued, reg) by {
            assert(system_holds(gate.line.issued, reg) == system_holds(parked.line.issued, reg));
        }
    }
}

/// The verdict on settings for a board: they are accepted if every one is in its range, a Blog V4
/// does not sample directly, and another board does so below 28.8 MHz.
pub proof fn boards_accept_what_they_can_receive(settings: Settings, blog_v4: bool)
    ensures
        ({
            let direct = settings.direct_sampling != DirectSampling::Off;
            let verdict = rtl2832u::board_verdict(settings, blog_v4);
            &&& verdict is Ok <==> settings.valid() && (blog_v4 ==> !direct) && (!blog_v4
                && settings.frequency_hz < 28_800_000 ==> direct)
            &&& !settings.valid() ==> verdict == settings.verdict()
            &&& settings.valid() && verdict is Err ==> {
                &&& verdict->Err_0 matches Error::InvalidConfig { field, reason }
                &&& field == if blog_v4 {
                    "direct_sampling"
                } else {
                    "frequency_hz"
                }
            }
        }),
{
}

proof fn lemma_bypass_registers(
    tuner: TunerState,
    line: Line,
    bypassed: bool,
    settings: Settings,
    tables: Tables,
)
    requires
        tuner.bypass(line, bypassed, settings, tables).outcome is Ok,
    ensures
        ({
            let run = tuner.bypass(line, bypassed, settings, tables);
            run.state.shadow == (if bypassed {
                tuner.shadow
            } else {
                tuners::programming::rewritten(tuner.shadow, tables.standby)
            })
        }),
{
    reveal(TunerState::bypass);
    if !bypassed {
        tuners::initialization::standby_changes_the_registers(tuner, line, tables.standby);
    }
}

/// A configuration records whether it bypasses the tuner, and leaves alone whether the receive
/// endpoint is on. Where hardware in use goes past the tuner, the tuner gets all changes that power
/// it down, and they are not made again while it stays bypassed.
pub proof fn bypassed_tuners_are_powered_down(
    hardware: HardwareState,
    line: Line,
    settings: Settings,
    blog_v4: bool,
    tables: Tables,
)
    requires
        hardware.configure(line, settings, blog_v4, tables).outcome is Ok,
    ensures
        ({
            let run = hardware.configure(line, settings, blog_v4, tables);
            &&& run.state.direct == receives_directly(settings)
            &&& run.state.valid
            &&& run.state.receiving == hardware.receiving
            &&& hardware.valid && receives_directly(settings) ==> {
                &&& hardware.tuner is Some
                &&& run.state.tuner is Some
                &&& run.state.tuner->Some_0.shadow == (if hardware.direct {
                    hardware.tuner->Some_0.shadow
                } else {
                    tuners::programming::rewritten(
                        hardware.tuner->Some_0.shadow,
                        tables.standby,
                    )
                })
            }
        }),
{
    reveal(HardwareState::configure_inner);
    reveal(HardwareState::reinitialize);
    reveal(HardwareState::apply);
    reveal(HardwareState::program);
    reveal(TunerState::route);
    reveal(TunerState::awaken);
    if hardware.valid && receives_directly(settings) {
        let crystal = rtl2832u::corrected(settings.correction_ppm);
        let tuner = TunerState { crystal_hz: crystal, ..hardware.tuner->Some_0 };
        let gate = line.i2c_gate(true);
        lemma_bypass_registers(tuner, gate.line, hardware.direct, settings, tables);
    }
}

proof fn lemma_resumed(line: Line, word: u32, bias_tee: bool, resume: bool)
    requires
        line.settle(word, bias_tee, resume).outcome is Ok,
    ensures
        ({
            let issued = line.settle(word, bias_tee, resume).line.issued;
            let n = issued.len() as int;
            &&& n >= 2
            &&& if resume {
                &&& issued[n - 2] == (Wire::Out {
                    value: 0x2148,
                    index: 0x110,
                    data: seq![0x10u8, 0x02],
                })
                &&& issued[n - 1] == (Wire::Out {
                    value: 0x2148,
                    index: 0x110,
                    data: seq![0u8, 0],
                })
            } else {
                issued[n - 1] matches Wire::Out { value, index, .. } && value == 0x3003 && index
                    == 0x210
            }
        }),
{
    reveal(Line::settle);
    lemma_spaces();
    assert(protocol::low_byte_first(0x0210) =~= seq![0x10u8, 0x02]);
    assert(protocol::low_byte_first(0) =~= seq![0u8, 0]);
}

/// Hardware that had to be brought up again while it was receiving has its receive endpoint reset
/// and switched on again, as the last thing before the I2C repeater is closed. Otherwise the last
/// thing is the bias power, and the endpoint is left alone.
pub proof fn running_receivers_go_on(
    hardware: HardwareState,
    line: Line,
    settings: Settings,
    blog_v4: bool,
    tables: Tables,
)
    requires
        hardware.configure(line, settings, blog_v4, tables).outcome is Ok,
    ensures
        ({
            let issued = hardware.configure(line, settings, blog_v4, tables).line.issued;
            let n = issued.len() as int;
            &&& n >= 4
            &&& if !hardware.valid && hardware.receiving {
                &&& issued[n - 4] == (Wire::Out {
                    value: 0x2148,
                    index: 0x110,
                    data: seq![0x10u8, 0x02],
                })
                &&& issued[n - 3] == (Wire::Out {
                    value: 0x2148,
                    index: 0x110,
                    data: seq![0u8, 0],
                })
            } else {
                issued[n - 3] matches Wire::Out { value, index, .. } && value == 0x3003 && index
                    == 0x210
            }
        }),
{
    reveal(HardwareState::configure_inner);
    reveal(HardwareState::reinitialize);
    reveal(HardwareState::apply);
    reveal(HardwareState::program);
    let crystal = rtl2832u::corrected(settings.correction_ppm);
    let invalid = HardwareState { valid: false, ..hardware };
    let ready = if !hardware.valid {
        invalid.reinitialize(line, blog_v4, tables)
    } else {
        Run::done(invalid, line, ())
    };
    let tuner = TunerState { crystal_hz: crystal, ..ready.state.tuner->Some_0 };
    let routed = tuner.route(ready.line, ready.state.direct, !hardware.valid, settings, tables);
    let rates = routed.line.demod_all(rtl2832u::rate_rows(settings));
    let centered = routed.state.center(rates.line, settings, tables);
    let word = rtl2832u::if_register(
        if rtl2832u::bypasses(settings) {
            settings.frequency_hz
        } else {
            tuners::IF_HZ
        },
        crystal,
    );
    let resume = !hardware.valid && hardware.receiving;
    lemma_resumed(centered.line, word, settings.bias_tee, resume);
    let inner = invalid.configure_inner(line, settings, blog_v4, !hardware.valid, tables);
    assert(inner.line == centered.line.settle(word, settings.bias_tee, resume).line);
    protocol::laws::demodulator_writes_are_encoded(inner.line, 1, 1, 0x10, 1);
}

/// The request that writes one byte to a register of demodulator page 1.
pub open spec fn page_1_write(reg: u8, byte: u8) -> Wire {
    Wire::Out { value: (256 * reg + 0x20) as u16, index: 0x11, data: seq![byte] }
}

proof fn lemma_row_requests(line: Line, rows: DemodRows)
    requires
        plain(rows),
        line.demod_all(rows).outcome is Ok,
    ensures
        ({
            let issued = line.demod_all(rows).line.issued;
            let start = line.issued.len() as int;
            &&& issued.len() == start + 2 * rows.len()
            &&& line.issued.is_prefix_of(issued)
            &&& forall|i: int|
                0 <= i < rows.len() && rows[i].0 == 1 && rows[i].3 == 1 && rows[i].2 < 256
                    ==> issued[start + 2 * i] == page_1_write(
                    (#[trigger] rows[i]).1,
                    rows[i].2 as u8,
                )
        }),
    decreases rows.len(),
{
    if rows.len() > 0 {
        let front = rows.drop_last();
        let before = line.demod_all(front);
        assert forall|i: int| 0 <= i < front.len() implies (#[trigger] front[i]).0 < 16 && 1
            <= front[i].3 <= 2 by {
            assert(front[i] == rows[i]);
        }
        assert(plain(front));
        lemma_row_requests(line, front);
        let row = rows[rows.len() - 1];
        assert(rows.last() == row);
        protocol::laws::demodulator_writes_are_encoded(
            before.line,
            row.0,
            row.1,
            row.2,
            row.3 as nat,
        );
        let issued = line.demod_all(rows).line.issued;
        let start = line.issued.len() as int;
        assert forall|i: int|
            0 <= i < rows.len() && rows[i].0 == 1 && rows[i].3 == 1 && rows[i].2
                < 256 implies issued[start + 2 * i] == page_1_write(
            (#[trigger] rows[i]).1,
            rows[i].2 as u8,
        ) by {
            if i < front.len() {
                assert(front[i] == rows[i]);
                assert(issued[start + 2 * i] == before.line.issued[start + 2 * i]);
            } else {
                assert(issued[start + 2 * i]->Out_data =~= seq![row.2 as u8]);
            }
        }
    }
}

/// After the frequency shift is set the demodulator is reset, by a pulse in its control register.
pub proof fn shifts_take_effect_by_a_reset(line: Line, word: u32, bias_tee: bool, resume: bool)
    requires
        !line.awaits(),
        word < 0x40_0000,
        line.settle(word, bias_tee, resume).outcome is Ok,
    ensures
        ({
            let issued = line.settle(word, bias_tee, resume).line.issued;
            let start = line.issued.len() as int;
            &&& issued.len() >= start + 10
            &&& issued[start] == page_1_write(0x19, (word / 0x1_0000) as u8)
            &&& issued[start + 2] == page_1_write(0x1a, (word / 0x100 % 0x100) as u8)
            &&& issued[start + 4] == page_1_write(0x1b, (word % 0x100) as u8)
            &&& issued[start + 6] == page_1_write(1, 0x14)
            &&& issued[start + 8] == page_1_write(1, 0x10)
        }),
{
    reveal(Line::settle);
    let rows = rtl2832u::if_rows(word);
    let tuned = line.demod_all(rows);
    lemma_row_requests(line, rows);
    protocol::causality::demod_all_is_causal(line, line, rows);
    let bias = tuned.line.gpio(0, bias_tee);
    protocol::causality::gpio_is_causal(tuned.line, tuned.line, 0, bias_tee);
    protocol::causality::receiver_is_causal(bias.line, bias.line, true);
    let issued = line.settle(word, bias_tee, resume).line.issued;
    assert(tuned.line.issued.is_prefix_of(issued));
    let start = line.issued.len() as int;
    assert(rows[0].1 == 0x19 && rows[1].1 == 0x1a && rows[2].1 == 0x1b && rows[3].1 == 1
        && rows[4].1 == 1);
    assert(issued[start] == tuned.line.issued[start + 2 * 0]);
    assert(issued[start + 2] == tuned.line.issued[start + 2 * 1]);
    assert(issued[start + 4] == tuned.line.issued[start + 2 * 2]);
    assert(issued[start + 6] == tuned.line.issued[start + 2 * 3]);
    assert(issued[start + 8] == tuned.line.issued[start + 2 * 4]);
}

/// The demodulator is reset by the same pulse before it is initialized.
pub proof fn demodulators_are_reset_first(line: Line, blog_v4: bool)
    requires
        !line.awaits(),
        line.bring_up(blog_v4).outcome is Ok,
    ensures
        ({
            let issued = line.bring_up(blog_v4).line.issued;
            let start = line.issued.len() as int;
            &&& issued.len() > start + 7
            &&& issued[start + 5] == page_1_write(1, 0x14)
            &&& issued[start + 7] == page_1_write(1, 0x10)
        }),
{
    reveal(Line::bring_up);
    reveal(Line::find_tuner);
    let powered = line.power_up();
    lemma_powered(line);
    causality::power_up_is_causal(line, line);
    let rows = rtl2832u::demod_init_rows();
    lemma_initial_rows(rows);
    let set = powered.line.demod_all(rows);
    lemma_row_requests(powered.line, rows);
    protocol::causality::demod_all_is_causal(powered.line, powered.line, rows);
    let gate = set.line.i2c_gate(true);
    protocol::causality::i2c_gate_is_causal(set.line, set.line, true);
    tuners::causality::detect_is_causal(gate.line, gate.line);
    let issued = line.bring_up(blog_v4).line.issued;
    assert(set.line.issued.is_prefix_of(issued));
    let p = powered.line.issued.len() as int;
    assert(rows[0].1 == 1 && rows[1].1 == 1);
    assert(issued[p] == set.line.issued[p + 2 * 0]);
    assert(issued[p + 2] == set.line.issued[p + 2 * 1]);
}

/// The tuner is behind the I2C repeater: a configuration of hardware in use opens it before anything
/// else.
pub proof fn the_repeater_is_opened_first(
    hardware: HardwareState,
    line: Line,
    settings: Settings,
    blog_v4: bool,
    tables: Tables,
)
    requires
        !line.awaits(),
        hardware.valid,
        hardware.configure(line, settings, blog_v4, tables).outcome is Ok,
    ensures
        ({
            let issued = hardware.configure(line, settings, blog_v4, tables).line.issued;
            let start = line.issued.len() as int;
            &&& issued.len() > start
            &&& issued[start] == page_1_write(1, 0x18)
        }),
{
    reveal(HardwareState::configure_inner);
    reveal(HardwareState::apply);
    let invalid = HardwareState { valid: false, ..hardware };
    let tuner = TunerState {
        crystal_hz: rtl2832u::corrected(settings.correction_ppm),
        ..hardware.tuner->Some_0
    };
    let routed = tuner.route(line, hardware.direct, false, settings, tables);
    lemma_route_opens(tuner, line, hardware.direct, settings, tables);
    causality::route_is_causal(tuner, line, line, hardware.direct, false, settings, tables);
    let selected = HardwareState {
        tuner: Some(routed.state),
        direct: rtl2832u::bypasses(settings),
        ..invalid
    };
    causality::program_is_causal(
        selected,
        routed.line,
        routed.line,
        routed.state,
        false,
        settings,
        tables,
    );
    let inner = invalid.configure_inner(line, settings, blog_v4, false, tables);
    protocol::causality::i2c_gate_is_causal(inner.line, inner.line, false);
    let issued = hardware.configure(line, settings, blog_v4, tables).line.issued;
    let start = line.issued.len() as int;
    assert(routed.line.issued.is_prefix_of(inner.line.issued));
    assert(inner.line.issued.is_prefix_of(issued));
    assert(issued[start] == routed.line.issued[start]);
}

proof fn lemma_route_opens(
    tuner: TunerState,
    line: Line,
    bypassed: bool,
    settings: Settings,
    tables: Tables,
)
    requires
        !line.awaits(),
        tuner.route(line, bypassed, false, settings, tables).outcome is Ok,
    ensures
        ({
            let issued = tuner.route(line, bypassed, false, settings, tables).line.issued;
            let start = line.issued.len() as int;
            issued.len() > start && issued[start] == page_1_write(1, 0x18)
        }),
{
    reveal(TunerState::route);
    reveal(TunerState::awaken);
    let gate = line.i2c_gate(true);
    protocol::laws::demodulator_writes_are_encoded(line, 1, 1, 0x18, 1);
    protocol::causality::i2c_gate_is_causal(line, line, true);
    let start = line.issued.len() as int;
    assert(gate.line.issued[start]->Out_data =~= seq![0x18u8]);
    tuners::causality::open_is_causal(tuner, gate.line, gate.line, tables);
    let open = bypassed && !rtl2832u::bypasses(settings);
    let awake = tuner.awaken(line, open, tables);
    if rtl2832u::bypasses(settings) {
        causality::bypass_is_causal(
            awake.state,
            awake.line,
            awake.line,
            bypassed,
            settings,
            tables,
        );
    } else {
        causality::engage_is_causal(awake.state, awake.line, awake.line, settings);
    }
    let issued = tuner.route(line, bypassed, false, settings, tables).line.issued;
    assert(gate.line.issued.is_prefix_of(awake.line.issued));
    assert(awake.line.issued.is_prefix_of(issued));
    assert(issued[start] == gate.line.issued[start]);
}

} // verus!
