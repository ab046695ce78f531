//! When the hardware is brought up: a configuration brings hardware up that is not valid, and
//! builds upon hardware that is.

use crate::config::{GainConfig, Settings};
use crate::protocol;
use crate::protocol::{causality, Answer, Line, Wire};
use crate::rtl2832u;
use crate::rtl2832u::{laws, HardwareState};
use crate::tuners;
use crate::tuners::registers;
use crate::tuners::registers::{Rows, Tables};
use crate::tuners::TunerState;
use vstd::prelude::*;

verus! {

/// The write that sets up the USB block, the first one of bringing the hardware up.
pub open spec fn usb_setup() -> Wire {
    Wire::Out { value: 0x2000, index: 0x110, data: seq![0x09] }
}

/// Whether a request belongs to bringing the hardware up: it writes the control register of the
/// USB block, or reads the chip ID of a tuner.
pub open spec fn brings_up(wire: Wire) -> bool {
    match wire {
        Wire::Out { value, index, .. } => value == 0x2000 && index == 0x110,
        Wire::In { index, length, .. } => index == 0x600 && length == 1,
    }
}

/// Whether the requests from `from` on bring nothing up.
pub open spec fn builds_upon(line: Line, from: nat) -> bool {
    forall|i: int| from <= i < line.issued.len() ==> !brings_up(#[trigger] line.issued[i])
}

/// Whether request `i` was answered, and in full if it is a read.
pub open spec fn served(line: Line, i: int) -> bool {
    &&& i < line.replies.len()
    &&& match (line.issued[i], line.replies[i]) {
        (Wire::In { length, .. }, Answer::Bytes(bytes)) => bytes.len() >= length,
        (Wire::Out { .. }, Answer::Bytes(_)) => true,
        (_, Answer::Failed(_)) => false,
    }
}

/// Whether the requests from `from` on were answered, and every read in full.
pub open spec fn answered(line: Line, from: nat) -> bool {
    forall|i: int| from <= i < line.issued.len() ==> #[trigger] served(line, i)
}

/// Whether the requests at `at` look for the chip ID at the first tuner address.
pub open spec fn probes(line: Line, at: int) -> bool {
    &&& 0 <= at < line.issued.len() - 1
    &&& line.issued[at] == (Wire::Out { value: 0x34, index: 0x610, data: seq![0] })
    &&& line.issued[at + 1] == (Wire::In { value: 0x34, index: 0x600, length: 1 })
}

/// Whether the requests from `from` on begin with the setup of the USB block and look for a tuner.
pub open spec fn starts_over(line: Line, from: nat) -> bool {
    &&& from < line.issued.len()
    &&& line.issued[from as int] == usb_setup()
    &&& exists|at: int| from <= at && #[trigger] probes(line, at)
}

/// Configuring hardware that is not valid, as before the first configuration, starts over: if
/// every transfer succeeds, the USB block is set up first and the tuner is probed.
pub proof fn invalid_hardware_starts_over(
    hardware: HardwareState,
    line: Line,
    settings: Settings,
    blog_v4: bool,
    tables: Tables,
)
    requires
        !line.awaits(),
        !hardware.valid,
        rtl2832u::board_verdict(settings, blog_v4) is Ok,
        answered(
            hardware.configure(line, settings, blog_v4, tables).line,
            line.issued.len(),
        ),
    ensures
        starts_over(
            hardware.configure(line, settings, blog_v4, tables).line,
            line.issued.len(),
        ),
{
    reveal(Line::bring_up);
    reveal(HardwareState::configure_inner);
    reveal(HardwareState::reinitialize);
    laws::invalid_hardware_is_reinitialized(hardware, line, settings, blog_v4, tables);
    assert(HardwareState { valid: false, ..hardware } == hardware);
    let start = line.issued.len();
    let run = hardware.configure(line, settings, blog_v4, tables);
    let inner = hardware.configure_inner(line, settings, blog_v4, true, tables);
    let ready = hardware.reinitialize(line, blog_v4, tables);
    let powered = line.power_up();
    let found = powered.line.find_tuner(blog_v4);
    rtl2832u::causality::configure_is_causal(hardware, line, line, settings, blog_v4, tables);
    rtl2832u::causality::configure_inner_is_causal(
        hardware,
        line,
        line,
        settings,
        blog_v4,
        true,
        tables,
    );
    rtl2832u::causality::bring_up_is_causal(line, line, blog_v4);
    rtl2832u::causality::power_up_is_causal(line, line);
    rtl2832u::causality::find_tuner_is_causal(powered.line, powered.line, blog_v4);
    if ready.outcome is Ok {
        rtl2832u::causality::apply_is_causal(
            ready.state,
            ready.line,
            ready.line,
            ready.state.tuner->Some_0,
            true,
            settings,
            tables,
        );
    }
    causality::i2c_gate_is_causal(inner.line, inner.line, false);
    assert(ready.line.issued.is_prefix_of(inner.line.issued));
    assert(inner.line.issued.is_prefix_of(run.line.issued));
    assert(powered.line.issued.is_prefix_of(ready.line.issued));
    lemma_answered_before(powered.line, run.line, start);
    lemma_power_up_succeeds(line);
    assert(ready.line == found.line);
    lemma_answered_before(found.line, run.line, start);
    lemma_find_tuner_probes(powered.line, blog_v4, start);
    let at = choose|at: int| start <= at && #[trigger] probes(found.line, at);
    assert(run.line.issued[at] == found.line.issued[at]);
    assert(run.line.issued[at + 1] == found.line.issued[at + 1]);
    assert(probes(run.line, at));
}

/// After a configuration that failed or was dropped part way, the next one starts over.
pub proof fn unfinished_configurations_are_started_over(
    hardware: HardwareState,
    line: Line,
    settings: Settings,
    next: Line,
    next_settings: Settings,
    blog_v4: bool,
    tables: Tables,
)
    requires
        rtl2832u::board_verdict(settings, blog_v4) is Ok,
        hardware.configure(line, settings, blog_v4, tables).outcome is Err,
        !next.awaits(),
        rtl2832u::board_verdict(next_settings, blog_v4) is Ok,
        answered(
            hardware.configure(line, settings, blog_v4, tables).state.configure(
                next,
                next_settings,
                blog_v4,
                tables,
            ).line,
            next.issued.len(),
        ),
    ensures
        starts_over(
            hardware.configure(line, settings, blog_v4, tables).state.configure(
                next,
                next_settings,
                blog_v4,
                tables,
            ).line,
            next.issued.len(),
        ),
{
    let first = hardware.configure(line, settings, blog_v4, tables);
    laws::validity_means_success(hardware, line, settings, blog_v4, tables);
    invalid_hardware_starts_over(first.state, next, next_settings, blog_v4, tables);
}

/// Configuring valid hardware neither sets up the USB block nor probes the tuner, whatever comes
/// of it.
pub proof fn valid_hardware_is_built_upon(
    hardware: HardwareState,
    line: Line,
    settings: Settings,
    blog_v4: bool,
    tables: Tables,
)
    requires
        hardware.valid,
    ensures
        builds_upon(
            hardware.configure(line, settings, blog_v4, tables).line,
            line.issued.len(),
        ),
{
    reveal(HardwareState::configure_inner);
    let from = line.issued.len();
    let invalid = HardwareState { valid: false, ..hardware };
    if hardware.tuner is Some {
        apply_builds(invalid, line, hardware.tuner->Some_0, settings, tables, from);
    }
    let inner = invalid.configure_inner(line, settings, blog_v4, false, tables);
    demod_builds(inner.line, 1, 1, 0x10, 1, from);
}

/// After a configuration that succeeded, the next one neither sets up the USB block nor probes the
/// tuner, whatever comes of it.
pub proof fn successful_configurations_are_built_upon(
    hardware: HardwareState,
    line: Line,
    settings: Settings,
    next: Line,
    next_settings: Settings,
    blog_v4: bool,
    tables: Tables,
)
    requires
        hardware.configure(line, settings, blog_v4, tables).outcome is Ok,
    ensures
        builds_upon(
            hardware.configure(line, settings, blog_v4, tables).state.configure(
                next,
                next_settings,
                blog_v4,
                tables,
            ).line,
            next.issued.len(),
        ),
{
    let first = hardware.configure(line, settings, blog_v4, tables);
    laws::validity_means_success(hardware, line, settings, blog_v4, tables);
    valid_hardware_is_built_upon(first.state, next, next_settings, blog_v4, tables);
}

proof fn lemma_answered_before(before: Line, after: Line, from: nat)
    requires
        before.replies == after.replies,
        before.issued.is_prefix_of(after.issued),
        answered(after, from),
    ensures
        answered(before, from),
{
    assert forall|i: int| from <= i < before.issued.len() implies #[trigger] served(before, i) by {
        assert(served(after, i));
        assert(before.issued[i] == after.issued[i]);
    }
}

proof fn lemma_power_up_succeeds(line: Line)
    requires
        !line.awaits(),
        answered(line.power_up().line, line.issued.len()),
    ensures
        line.power_up().outcome is Ok,
{
    reveal(Line::power_up);
    let start = line.issued.len() as int;
    let end = line.power_up().line;
    assert(start < end.issued.len() ==> served(end, start));
    assert(start + 1 < end.issued.len() ==> served(end, start + 1));
    assert(start + 2 < end.issued.len() ==> served(end, start + 2));
    assert(start + 3 < end.issued.len() ==> served(end, start + 3));
    assert(start + 4 < end.issued.len() ==> served(end, start + 4));
}

proof fn lemma_demod_succeeds(line: Line, page: u8, reg: u8, value: u16, width: nat, from: nat)
    requires
        !line.awaits(),
        from <= line.issued.len(),
        answered(line.demod(page, reg, value, width).line, from),
    ensures
        line.demod(page, reg, value, width).outcome is Ok,
{
    let start = line.issued.len() as int;
    let end = line.demod(page, reg, value, width).line;
    assert(start < end.issued.len() ==> served(end, start));
    assert(start + 1 < end.issued.len() ==> served(end, start + 1));
}

proof fn lemma_demod_all_succeeds(line: Line, rows: Seq<(u8, u8, u16, usize)>, from: nat)
    requires
        !line.awaits(),
        from <= line.issued.len(),
        answered(line.demod_all(rows).line, from),
    ensures
        line.demod_all(rows).outcome is Ok,
    decreases rows.len(),
{
    if rows.len() > 0 {
        let front = line.demod_all(rows.drop_last());
        causality::demod_all_is_causal(line, line, rows.drop_last());
        if front.outcome is Ok {
            let row = rows.last();
            lemma_demod_succeeds(front.line, row.0, row.1, row.2, row.3 as nat, from);
        } else {
            lemma_demod_all_succeeds(line, rows.drop_last(), from);
        }
    }
}

proof fn lemma_find_tuner_probes(line: Line, blog_v4: bool, from: nat)
    requires
        !line.awaits(),
        from <= line.issued.len(),
        answered(line.find_tuner(blog_v4).line, from),
    ensures
        exists|at: int| from <= at && #[trigger] probes(line.find_tuner(blog_v4).line, at),
{
    reveal(Line::find_tuner);
    assert(0x600u16 | 0x10 == 0x610) by (bit_vector);
    let end = line.find_tuner(blog_v4).line;
    let rows = rtl2832u::demod_init_rows();
    let set = line.demod_all(rows);
    causality::demod_all_is_causal(line, line, rows);
    let gate = set.line.i2c_gate(true);
    causality::i2c_gate_is_causal(set.line, set.line, true);
    let detected = gate.line.detect();
    tuners::causality::detect_is_causal(gate.line, gate.line);
    lemma_answered_before(set.line, end, from);
    lemma_demod_all_succeeds(line, rows, from);
    lemma_answered_before(gate.line, end, from);
    lemma_demod_succeeds(set.line, 1, 1, 0x18, 1, from);
    assert(end == detected.line);
    let at = gate.line.issued.len() as int;
    let first = gate.line.probe(0x34);
    tuners::causality::probe_is_causal(gate.line, gate.line, 0x34);
    tuners::causality::probe_is_causal(first.line, first.line, 0x74);
    assert(first.line.issued.is_prefix_of(end.issued));
    assert(end.issued[at] == first.line.issued[at]);
    assert(served(end, at));
    assert(end.issued[at + 1] == first.line.issued[at + 1]);
    assert(first.line.issued[at] == (Wire::Out { value: 0x34, index: 0x610, data: seq![0u8] }));
    assert(probes(end, at));
}

proof fn write_builds(line: Line, value: u16, index: u16, data: Seq<u8>, from: nat)
    requires
        builds_upon(line, from),
        value != 0x2000,
    ensures
        builds_upon(line.write(value, index, data).line, from),
{
}

proof fn read_builds(line: Line, value: u16, index: u16, length: u16, from: nat)
    requires
        builds_upon(line, from),
        index != 0x600 || length != 1,
    ensures
        builds_upon(line.read(value, index, length).line, from),
{
}

proof fn demod_builds(line: Line, page: u8, reg: u8, value: u16, width: nat, from: nat)
    requires
        builds_upon(line, from),
    ensures
        builds_upon(line.demod(page, reg, value, width).line, from),
{
    let data = protocol::high_byte_first(value).skip(2 - width);
    write_builds(line, protocol::demod_register(reg), page as u16, data, from);
    let written = line.write(protocol::demod_register(reg), page as u16, data);
    read_builds(written.line, 0x0120, 0x0a, 1, from);
}

proof fn demod_all_builds(line: Line, rows: Seq<(u8, u8, u16, usize)>, from: nat)
    requires
        builds_upon(line, from),
    ensures
        builds_upon(line.demod_all(rows).line, from),
    decreases rows.len(),
{
    if rows.len() > 0 {
        let row = rows.last();
        demod_all_builds(line, rows.drop_last(), from);
        let front = line.demod_all(rows.drop_last());
        demod_builds(front.line, row.0, row.1, row.2, row.3 as nat, from);
    }
}

proof fn sys_update_builds(line: Line, reg: u16, mask: u8, from: nat)
    requires
        builds_upon(line, from),
        reg != 0x2000,
    ensures
        builds_upon(line.sys_set(reg, mask).line, from),
        builds_upon(line.sys_clear(reg, mask).line, from),
{
    read_builds(line, reg, 0x200, 1, from);
    let old = line.sys_read(reg);
    if old.outcome is Ok {
        let value = old.outcome->Ok_0;
        write_builds(old.line, reg, 0x200, seq![value | mask], from);
        write_builds(old.line, reg, 0x200, seq![value & !mask], from);
    }
}

proof fn gpio_builds(line: Line, pin: u8, high: bool, from: nat)
    requires
        builds_upon(line, from),
    ensures
        builds_upon(line.gpio(pin, high).line, from),
{
    let mask = 1u8 << pin;
    let latch = if high {
        line.sys_set(0x3001, mask)
    } else {
        line.sys_clear(0x3001, mask)
    };
    sys_update_builds(line, 0x3001, mask, from);
    sys_update_builds(latch.line, 0x3004, mask, from);
    sys_update_builds(latch.line.sys_clear(0x3004, mask).line, 0x3003, mask, from);
}

proof fn tuner_write_builds(
    tuner: TunerState,
    line: Line,
    reg: u8,
    value: u8,
    mask: u8,
    from: nat,
)
    requires
        builds_upon(line, from),
    ensures
        builds_upon(tuner.write(line, reg, value, mask).line, from),
{
    let byte = tuners::merged(tuner.shadow[reg - 5], value, mask);
    write_builds(line, tuner.address() as u16, 0x600, seq![reg, byte], from);
}

proof fn write_many_builds(tuner: TunerState, line: Line, rows: Rows, from: nat)
    requires
        builds_upon(line, from),
    ensures
        builds_upon(tuner.write_many(line, rows).line, from),
    decreases rows.len(),
{
    if rows.len() > 0 {
        let row = rows.last();
        write_many_builds(tuner, line, rows.drop_last(), from);
        let front = tuner.write_many(line, rows.drop_last());
        tuner_write_builds(front.state, front.line, row.0, row.1, row.2, from);
    }
}

proof fn load_builds(tuner: TunerState, line: Line, values: Seq<u8>, from: nat)
    requires
        builds_upon(line, from),
    ensures
        builds_upon(tuner.load(line, values).line, from),
    decreases values.len(),
{
    if values.len() > 0 {
        let i = values.len() - 1;
        load_builds(tuner, line, values.drop_last(), from);
        let front = tuner.load(line, values.drop_last());
        write_builds(
            front.line,
            tuner.address() as u16,
            0x600,
            seq![(i + 5) as u8, values[i]],
            from,
        );
    }
}

proof fn standby_builds(tuner: TunerState, line: Line, rows: Rows, from: nat)
    requires
        builds_upon(line, from),
    ensures
        builds_upon(tuner.standby(line, rows).line, from),
    decreases rows.len(),
{
    if rows.len() > 0 {
        let row = rows.last();
        standby_builds(tuner, line, rows.drop_last(), from);
        let front = tuner.standby(line, rows.drop_last());
        tuner_write_builds(front.state, front.line, row.0, row.1, row.2, from);
    }
}

proof fn tuner_read_builds(tuner: TunerState, line: Line, count: u16, from: nat)
    requires
        builds_upon(line, from),
        count != 1,
    ensures
        builds_upon(tuner.read(line, count).line, from),
{
    let address = tuner.address() as u16;
    write_builds(line, address, 0x600, seq![0u8], from);
    let written = line.write(address, 0x600, seq![0u8]);
    read_builds(written.line, address, 0x600, count, from);
}

proof fn await_lock_builds(
    tuner: TunerState,
    line: Line,
    actual_hz: u64,
    attempts: nat,
    from: nat,
)
    requires
        builds_upon(line, from),
    ensures
        builds_upon(tuner.await_lock(line, actual_hz, attempts).line, from),
    decreases attempts,
{
    if attempts > 0 {
        tuner_read_builds(tuner, line, 3, from);
        let status = tuner.read(line, 3);
        tuner_write_builds(tuner, status.line, 0x1a, 8, 8, from);
        tuner_write_builds(tuner, status.line, 0x12, 0x60, 0xe0, from);
        let raised = tuner.write(status.line, 0x12, 0x60, 0xe0);
        await_lock_builds(raised.state, raised.line, actual_hz, (attempts - 1) as nat, from);
    }
}

proof fn set_pll_builds(tuner: TunerState, line: Line, hz: u64, from: nat)
    requires
        builds_upon(line, from),
    ensures
        builds_upon(tuner.set_pll(line, hz).line, from),
{
    reveal(TunerState::set_pll);
    reveal(TunerState::apply_pll);
    let rows = tuners::pll_prepare_rows();
    write_many_builds(tuner, line, rows, from);
    let prepared = tuner.write_many(line, rows);
    tuner_read_builds(prepared.state, prepared.line, 5, from);
    let status = prepared.state.read(prepared.line, 5);
    if status.outcome is Ok {
        let plan = tuners::pll::pll_plan(
            hz as nat,
            tuner.crystal_hz as nat,
            status.outcome->Ok_0[4] / 16 % 4,
            tuner.power_ref(),
        );
        let rows = tuners::pll_rows(plan);
        write_many_builds(status.state, status.line, rows, from);
        let programmed = status.state.write_many(status.line, rows);
        await_lock_builds(programmed.state, programmed.line, plan.actual_hz, 2, from);
    }
}

proof fn calibration_builds(tuner: TunerState, line: Line, from: nat)
    requires
        builds_upon(line, from),
    ensures
        builds_upon(tuner.calibration_attempt(line).line, from),
{
    reveal(TunerState::calibration_attempt);
    write_many_builds(tuner, line, tuners::calibration_start_rows(), from);
    let started = tuner.write_many(line, tuners::calibration_start_rows());
    set_pll_builds(started.state, started.line, 56_000_000, from);
    let tuned = started.state.set_pll(started.line, 56_000_000);
    write_many_builds(tuned.state, tuned.line, tuners::calibration_trigger_rows(), from);
    let triggered = tuned.state.write_many(tuned.line, tuners::calibration_trigger_rows());
    tuner_read_builds(triggered.state, triggered.line, 5, from);
}

proof fn open_builds(tuner: TunerState, line: Line, tables: Tables, from: nat)
    requires
        builds_upon(line, from),
    ensures
        builds_upon(tuner.open(line, tables).line, from),
{
    reveal(TunerState::open);
    reveal(TunerState::reset);
    reveal(TunerState::calibrate);
    reveal(TunerState::finish);
    let cleared = TunerState { input: None, ..tuner };
    load_builds(cleared, line, tables.initial, from);
    let loaded = cleared.load(line, tables.initial);
    write_many_builds(loaded.state, loaded.line, tables.before_calibration, from);
    let reset = tuner.reset(line, tables);
    calibration_builds(reset.state, reset.line, from);
    let first = reset.state.calibration_attempt(reset.line);
    calibration_builds(first.state, first.line, from);
    let calibrated = reset.state.calibrate(reset.line);
    if calibrated.outcome is Ok {
        let code = calibrated.outcome->Ok_0;
        tuner_write_builds(calibrated.state, calibrated.line, 0x0a, 0x10 | code, 0x1f, from);
        let filter = calibrated.state.write(calibrated.line, 0x0a, 0x10 | code, 0x1f);
        write_many_builds(filter.state, filter.line, tables.after_calibration, from);
    }
}

proof fn select_input_builds(tuner: TunerState, line: Line, input: u8, from: nat)
    requires
        builds_upon(line, from),
    ensures
        builds_upon(tuner.select_input(line, input).line, from),
{
    reveal(TunerState::select_input);
    let cable: u8 = if input == 2 {
        8
    } else {
        0
    };
    let air: u8 = if input == 0 {
        0
    } else if input == 1 {
        0x60
    } else {
        0x20
    };
    tuner_write_builds(tuner, line, 0x06, cable, 8, from);
    let first = tuner.write(line, 0x06, cable, 8);
    tuner_write_builds(first.state, first.line, 0x05, air, 0x60, from);
    let second = first.state.write(first.line, 0x05, air, 0x60);
    gpio_builds(second.line, 5, input != 2, from);
    let plain: u8 = if input == 0 {
        0
    } else {
        0x60
    };
    tuner_write_builds(tuner, line, 0x05, plain, 0x60, from);
}

proof fn tune_builds(tuner: TunerState, line: Line, hz: u64, tables: Tables, from: nat)
    requires
        builds_upon(line, from),
    ensures
        builds_upon(tuner.tune(line, hz, tables).line, from),
{
    reveal(TunerState::tune);
    let offset = (tuner.upconvert(hz) + tuners::IF_HZ) as u64;
    let lo = (hz + offset) as u64;
    let rows = tuners::mux_rows(
        registers::mux_row(
            if tuner.blog_v4 {
                tables.v4_mux
            } else {
                tables.standard_mux
            },
            lo,
        ),
    );
    write_many_builds(tuner, line, rows, from);
    let filtered = tuner.write_many(line, rows);
    set_pll_builds(filtered.state, filtered.line, lo, from);
    let synthesized = filtered.state.set_pll(filtered.line, lo);
    select_input_builds(synthesized.state, synthesized.line, tuner.input_for(hz), from);
}

proof fn route_builds(
    tuner: TunerState,
    line: Line,
    bypassed: bool,
    settings: Settings,
    tables: Tables,
    from: nat,
)
    requires
        builds_upon(line, from),
    ensures
        builds_upon(tuner.route(line, bypassed, false, settings, tables).line, from),
{
    reveal(TunerState::route);
    reveal(TunerState::awaken);
    reveal(TunerState::bypass);
    reveal(TunerState::engage);
    demod_builds(line, 1, 1, 0x18, 1, from);
    let gate = line.i2c_gate(true);
    open_builds(tuner, gate.line, tables, from);
    let awake = tuner.awaken(line, bypassed && !rtl2832u::bypasses(settings), tables);
    standby_builds(awake.state, awake.line, tables.standby, from);
    let parked = awake.state.standby(awake.line, tables.standby);
    demod_all_builds(awake.line, rtl2832u::direct_rows(settings), from);
    demod_all_builds(parked.line, rtl2832u::direct_rows(settings), from);
    demod_all_builds(awake.line, rtl2832u::tuner_rows(), from);
    let routed = awake.line.demod_all(rtl2832u::tuner_rows());
    let rows = match settings.gain {
        GainConfig::Auto => tuners::automatic_gain_rows(),
        GainConfig::Manual(gain) => tuners::manual_gain_rows(
            tuners::gain_split(gain).0,
            tuners::gain_split(gain).1,
        ),
    };
    write_many_builds(awake.state, routed.line, rows, from);
}

proof fn program_builds(
    hardware: HardwareState,
    line: Line,
    tuner: TunerState,
    settings: Settings,
    tables: Tables,
    from: nat,
)
    requires
        builds_upon(line, from),
    ensures
        builds_upon(hardware.program(line, tuner, false, settings, tables).line, from),
{
    reveal(HardwareState::program);
    reveal(Line::settle);
    demod_all_builds(line, rtl2832u::rate_rows(settings), from);
    let rates = line.demod_all(rtl2832u::rate_rows(settings));
    tune_builds(tuner, rates.line, settings.frequency_hz, tables, from);
    let centered = tuner.center(rates.line, settings, tables);
    let word = rtl2832u::if_register(
        if rtl2832u::bypasses(settings) {
            settings.frequency_hz
        } else {
            tuners::IF_HZ
        },
        rtl2832u::corrected(settings.correction_ppm),
    );
    demod_all_builds(centered.line, rtl2832u::if_rows(word), from);
    let tuned = centered.line.demod_all(rtl2832u::if_rows(word));
    gpio_builds(tuned.line, 0, settings.bias_tee, from);
}

proof fn apply_builds(
    hardware: HardwareState,
    line: Line,
    tuner: TunerState,
    settings: Settings,
    tables: Tables,
    from: nat,
)
    requires
        builds_upon(line, from),
    ensures
        builds_upon(hardware.apply(line, tuner, false, settings, tables).line, from),
{
    reveal(HardwareState::apply);
    let corrected = TunerState {
        crystal_hz: rtl2832u::corrected(settings.correction_ppm),
        ..tuner
    };
    route_builds(corrected, line, hardware.direct, settings, tables, from);
    let routed = corrected.route(line, hardware.direct, false, settings, tables);
    let base = HardwareState {
        tuner: Some(routed.state),
        direct: rtl2832u::bypasses(settings),
        ..hardware
    };
    program_builds(base, routed.line, routed.state, settings, tables, from);
}

} // verus!
