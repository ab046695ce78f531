//! What holds of every configuration and every shutdown.

use crate::config::Settings;
use crate::protocol;
use crate::protocol::{Answer, Line, Run, Wire};
use crate::rtl2832u;
use crate::rtl2832u::{Applied, HardwareState};
use crate::tuners;
use crate::tuners::registers::Tables;
use crate::tuners::TunerState;
use vstd::prelude::*;

verus! {

/// The last write among requests.
pub open spec fn last_write(issued: Seq<Wire>) -> Option<Wire>
    decreases issued.len(),
{
    if issued.len() == 0 {
        None
    } else {
        match issued.last() {
            Wire::Out { .. } => Some(issued.last()),
            Wire::In { .. } => last_write(issued.drop_last()),
        }
    }
}

/// Whether a request accesses the demodulator.
pub open spec fn accesses_demod(wire: Wire) -> bool {
    match wire {
        Wire::Out { index, .. } => index < 0x20,
        Wire::In { index, .. } => index < 0x20,
    }
}

/// The write that powers the demodulator's clock.
pub open spec fn clock_on() -> Wire {
    Wire::Out { value: 0x3000, index: 0x210, data: seq![0xe8] }
}

/// The write that closes the I2C repeater.
pub open spec fn repeater_off() -> Wire {
    Wire::Out { value: 0x0120, index: 0x11, data: seq![0x10] }
}

/// The write that switches ADCs and PLL off.
pub open spec fn power_off() -> Wire {
    Wire::Out { value: 0x3000, index: 0x210, data: seq![0x20] }
}

/// Settings that are out of range, or not possible on the board, change nothing.
pub proof fn rejected_settings_change_nothing(
    hardware: HardwareState,
    line: Line,
    settings: Settings,
    blog_v4: bool,
    tables: Tables,
)
    requires
        rtl2832u::board_verdict(settings, blog_v4) is Err,
    ensures
        hardware.configure(line, settings, blog_v4, tables).state == hardware,
        hardware.configure(line, settings, blog_v4, tables).line == line,
{
}

proof fn lemma_gate_writes_last(line: Line)
    requires
        !line.awaits(),
    ensures
        last_write(line.i2c_gate(false).line.issued) == Some(repeater_off()),
{
    assert(1u16 | 0x10 == 0x11) by (bit_vector);
    let data = protocol::high_byte_first(0x10).skip(1);
    assert(data =~= seq![0x10u8]);
    assert(protocol::demod_register(1) == 0x0120);
    let written = line.write(0x0120, 1, data);
    assert(written.line.issued.last() == repeater_off());
    assert(last_write(written.line.issued) == Some(repeater_off()));
    let all = line.i2c_gate(false);
    if written.outcome is Ok {
        assert(all.line.issued.drop_last() =~= written.line.issued);
    }
}

/// A configuration that came to an end closed the I2C repeater last, whether it succeeded or
/// failed.
pub proof fn configuration_closes_the_repeater(
    hardware: HardwareState,
    line: Line,
    settings: Settings,
    blog_v4: bool,
    tables: Tables,
)
    requires
        !line.awaits(),
        rtl2832u::board_verdict(settings, blog_v4) is Ok,
        !hardware.configure(line, settings, blog_v4, tables).waits(),
    ensures
        last_write(hardware.configure(line, settings, blog_v4, tables).line.issued) == Some(
            repeater_off(),
        ),
{
    let invalid = HardwareState { valid: false, ..hardware };
    let inner = invalid.configure_inner(line, settings, blog_v4, !hardware.valid, tables);
    rtl2832u::causality::configure_inner_is_causal(
        invalid,
        line,
        line,
        settings,
        blog_v4,
        !hardware.valid,
        tables,
    );
    lemma_gate_writes_last(inner.line);
}

/// Only a configuration that succeeded leaves the hardware valid: failing or waiting leaves it
/// invalid.
pub proof fn validity_means_success(
    hardware: HardwareState,
    line: Line,
    settings: Settings,
    blog_v4: bool,
    tables: Tables,
)
    requires
        rtl2832u::board_verdict(settings, blog_v4) is Ok,
    ensures
        ({
            let run = hardware.configure(line, settings, blog_v4, tables);
            run.state.valid <==> run.outcome is Ok
        }),
{
    let invalid = HardwareState { valid: false, ..hardware };
    lemma_inner_keeps(invalid, line, settings, blog_v4, !hardware.valid, tables);
}

proof fn lemma_program_keeps(
    hardware: HardwareState,
    line: Line,
    tuner: TunerState,
    reinitialize: bool,
    settings: Settings,
    tables: Tables,
)
    ensures
        hardware.program(line, tuner, reinitialize, settings, tables).state.valid
            == hardware.valid,
{
    reveal(HardwareState::program);
}

proof fn lemma_inner_keeps(
    hardware: HardwareState,
    line: Line,
    settings: Settings,
    blog_v4: bool,
    reinitialize: bool,
    tables: Tables,
)
    ensures
        hardware.configure_inner(line, settings, blog_v4, reinitialize, tables).state.valid
            == hardware.valid,
{
    reveal(HardwareState::configure_inner);
    reveal(HardwareState::apply);
    reveal(HardwareState::reinitialize);
    let ready = if reinitialize {
        hardware.reinitialize(line, blog_v4, tables)
    } else {
        Run::done(hardware, line, ())
    };
    if ready.outcome is Ok && ready.state.tuner is Some {
        let tuner = ready.state.tuner->Some_0;
        let corrected = TunerState {
            crystal_hz: rtl2832u::corrected(settings.correction_ppm),
            ..tuner
        };
        let routed = corrected.route(
            ready.line,
            ready.state.direct,
            reinitialize,
            settings,
            tables,
        );
        let base = HardwareState {
            tuner: Some(routed.state),
            direct: rtl2832u::bypasses(settings),
            ..ready.state
        };
        lemma_program_keeps(base, routed.line, routed.state, reinitialize, settings, tables);
    }
}

/// Hardware that is not valid, as after a failed or dropped configuration, is brought up from the
/// start.
pub proof fn invalid_hardware_is_reinitialized(
    hardware: HardwareState,
    line: Line,
    settings: Settings,
    blog_v4: bool,
    tables: Tables,
)
    requires
        !line.awaits(),
        !hardware.valid,
        rtl2832u::board_verdict(settings, blog_v4) is Ok,
    ensures
        ({
            let issued = hardware.configure(line, settings, blog_v4, tables).line.issued;
            let start = line.issued.len() as int;
            &&& issued.len() > start
            &&& issued[start] == (Wire::Out { value: 0x2000, index: 0x110, data: seq![0x09] })
        }),
{
    reveal(Line::bring_up);
    reveal(HardwareState::configure_inner);
    reveal(HardwareState::reinitialize);
    assert(0x100u16 | 0x10 == 0x110) by (bit_vector);
    let start = line.issued.len() as int;
    let control = line.usb_u8(0x2000, 0x09);
    assert(control.line.issued[start] == (Wire::Out {
        value: 0x2000,
        index: 0x110,
        data: seq![0x09u8],
    }));
    let powered = line.power_up();
    rtl2832u::causality::power_up_is_causal(line, line);
    lemma_power_up_follows_control(line);
    rtl2832u::causality::find_tuner_is_causal(powered.line, powered.line, blog_v4);
    rtl2832u::causality::bring_up_is_causal(line, line, blog_v4);
    let invalid = HardwareState { valid: false, ..hardware };
    assert(invalid == hardware);
    let ready = hardware.reinitialize(line, blog_v4, tables);
    assert(powered.line.issued.is_prefix_of(ready.line.issued));
    let inner = hardware.configure_inner(line, settings, blog_v4, true, tables);
    rtl2832u::causality::configure_inner_is_causal(
        hardware,
        line,
        line,
        settings,
        blog_v4,
        true,
        tables,
    );
    if ready.outcome is Ok {
        let tuner = ready.state.tuner->Some_0;
        rtl2832u::causality::apply_is_causal(
            ready.state,
            ready.line,
            ready.line,
            tuner,
            true,
            settings,
            tables,
        );
    }
    assert(ready.line.issued.is_prefix_of(inner.line.issued));
    protocol::causality::i2c_gate_is_causal(inner.line, inner.line, false);
    let run = hardware.configure(line, settings, blog_v4, tables);
    assert(inner.line.issued.is_prefix_of(run.line.issued));
    assert(run.line.issued[start] == control.line.issued[start]);
}

proof fn lemma_power_up_follows_control(line: Line)
    requires
        !line.awaits(),
    ensures
        line.usb_u8(0x2000, 0x09).line.issued.is_prefix_of(line.power_up().line.issued),
{
    reveal(Line::power_up);
    let control = line.usb_u8(0x2000, 0x09);
    protocol::causality::write_is_causal(line, line, 0x2000, 0x100, seq![0x09u8]);
    let packet = control.line.usb_u16(0x2158, 0x0200);
    protocol::causality::put_is_causal(
        control.line,
        control.line,
        0x2158,
        0x110,
        protocol::low_byte_first(0x0200),
    );
    let off = packet.line.receiver(false);
    protocol::causality::receiver_is_causal(packet.line, packet.line, false);
    let power = off.line.sys_write(0x300b, 0x22);
    protocol::causality::write_is_causal(off.line, off.line, 0x300b, 0x200, seq![0x22u8]);
    protocol::causality::write_is_causal(power.line, power.line, 0x3000, 0x200, seq![0xe8u8]);
}

/// A configuration that starts the hardware powers the demodulator's clock before it accesses the
/// demodulator.
pub proof fn clock_precedes_demodulator(
    hardware: HardwareState,
    line: Line,
    settings: Settings,
    blog_v4: bool,
    tables: Tables,
)
    requires
        !line.awaits(),
        !hardware.valid,
        hardware.configure(line, settings, blog_v4, tables).outcome is Ok,
    ensures
        ({
            let issued = hardware.configure(line, settings, blog_v4, tables).line.issued;
            let start = line.issued.len() as int;
            &&& issued.len() > start + 5
            &&& issued[start + 4] == clock_on()
            &&& forall|i: int|
                start <= i <= start + 4 ==> !accesses_demod(#[trigger] issued[i])
        }),
{
    reveal(Line::bring_up);
    reveal(HardwareState::configure_inner);
    reveal(HardwareState::reinitialize);
    let powered = line.power_up();
    rtl2832u::causality::power_up_is_causal(line, line);
    rtl2832u::causality::bring_up_is_causal(line, line, blog_v4);
    lemma_power_up_requests(line);
    rtl2832u::causality::find_tuner_is_causal(powered.line, powered.line, blog_v4);
    let ready = hardware.reinitialize(line, blog_v4, tables);
    let tuner = ready.state.tuner->Some_0;
    rtl2832u::causality::apply_is_causal(
        ready.state,
        ready.line,
        ready.line,
        tuner,
        true,
        settings,
        tables,
    );
    let applied = ready.state.apply(ready.line, tuner, true, settings, tables);
    protocol::causality::i2c_gate_is_causal(applied.line, applied.line, false);
    let run = hardware.configure(line, settings, blog_v4, tables);
    assert(HardwareState { valid: false, ..hardware } == hardware);
    assert(run.line == applied.line.i2c_gate(false).line);
    lemma_gate_writes_last(applied.line);
    assert(powered.line.issued.is_prefix_of(ready.line.issued));
    assert(ready.line.issued.is_prefix_of(applied.line.issued));
    assert(applied.line.issued.is_prefix_of(run.line.issued));
    assert forall|i: int| line.issued.len() <= i <= line.issued.len() + 4 implies !accesses_demod(
        #[trigger] run.line.issued[i],
    ) by {
        assert(run.line.issued[i] == powered.line.issued[i]);
    }
}

proof fn lemma_power_up_requests(line: Line)
    requires
        line.power_up().outcome is Ok,
    ensures
        ({
            let issued = line.power_up().line.issued;
            let start = line.issued.len() as int;
            &&& issued.len() == start + 5
            &&& issued[start + 4] == clock_on()
            &&& forall|i: int|
                start <= i <= start + 4 ==> !accesses_demod(#[trigger] issued[i])
        }),
{
    reveal(Line::power_up);
    assert(0x200u16 | 0x10 == 0x210) by (bit_vector);
    assert(0x100u16 | 0x10 == 0x110) by (bit_vector);
}

/// A configuration that succeeded reports the requested sample rate, and a center frequency that
/// is not above the requested one and less than 500 Hz below it. It leaves the tuner at the
/// corrected crystal frequency.
pub proof fn configuration_reports_what_it_applied(
    hardware: HardwareState,
    line: Line,
    settings: Settings,
    blog_v4: bool,
    tables: Tables,
)
    requires
        hardware.tuner matches Some(tuner) ==> tuner.blog_v4 == blog_v4,
        hardware.configure(line, settings, blog_v4, tables).outcome is Ok,
    ensures
        ({
            let run = hardware.configure(line, settings, blog_v4, tables);
            let applied = run.outcome->Ok_0;
            &&& applied.sample_rate_hz == settings.sample_rate_hz
            &&& applied.frequency_hz <= settings.frequency_hz < applied.frequency_hz + 500
            &&& run.state.tuner is Some
            &&& run.state.tuner->Some_0.blog_v4 == blog_v4
            &&& run.state.tuner->Some_0.crystal_hz == rtl2832u::corrected(settings.correction_ppm)
        }),
{
    reveal(HardwareState::configure_inner);
    reveal(HardwareState::reinitialize);
    reveal(HardwareState::apply);
    reveal(HardwareState::program);
    rtl2832u::sample_rate_is_exact(settings.sample_rate_hz);
    let crystal = rtl2832u::corrected(settings.correction_ppm);
    assert(28_785_945 <= crystal <= 28_814_054);
    let invalid = HardwareState { valid: false, ..hardware };
    let ready = if !hardware.valid {
        invalid.reinitialize(line, blog_v4, tables)
    } else {
        Run::done(invalid, line, ())
    };
    let tuner = ready.state.tuner->Some_0;
    assert(tuner.blog_v4 == blog_v4);
    let corrected = TunerState { crystal_hz: crystal, ..tuner };
    let routed = corrected.route(
        ready.line,
        ready.state.direct,
        !hardware.valid,
        settings,
        tables,
    );
    rtl2832u::lemma_route_keeps(
        corrected,
        ready.line,
        ready.state.direct,
        !hardware.valid,
        settings,
        tables,
    );
    let rates = routed.line.demod_all(rtl2832u::rate_rows(settings));
    if rtl2832u::bypasses(settings) {
        lemma_if_quantized(settings.frequency_hz, crystal);
    } else {
        tuners::tuning_is_within_500_hz(
            routed.state,
            rates.line,
            settings.frequency_hz,
            tables,
        );
        tuners::tuner_stays_the_same(
            routed.state,
            rates.line,
            tables,
            settings.gain,
            settings.frequency_hz,
        );
    }
}

proof fn lemma_if_quantized(hz: u64, crystal: u64)
    requires
        hz < 28_800_000,
        28_785_945 <= crystal <= 28_814_054,
    ensures
        rtl2832u::if_quantized(hz, crystal) <= hz < rtl2832u::if_quantized(hz, crystal) + 500,
{
    let s = rtl2832u::scaled(hz);
    let c = crystal as nat;
    assert(s == hz * 0x40_0000);
    let q = s / c;
    vstd::arithmetic::div_mod::lemma_fundamental_div_mod(s as int, c as int);
    assert(q * c <= s < q * c + c) by (nonlinear_arith)
        requires
            s == c * q + s % c,
            0 <= s % c < c,
    ;
}

/// The sampling correction register holds the negated correction to within one step of 2^-24.
pub proof fn correction_is_within_one_step(ppm: i32)
    requires
        -488 <= ppm <= 488,
    ensures
        ({
            let word = rtl2832u::correction(ppm);
            let signed = if word >= 0x2000 {
                word - 0x4000
            } else {
                word as int
            };
            &&& word < 0x4000
            &&& -1_000_000 < signed * 1_000_000 + ppm * 0x100_0000 < 1_000_000
        }),
{
    let steps = ppm * 0x100_0000 / 1_000_000;
    assert(-8192 < steps < 8192);
    assert(steps * 1_000_000 <= ppm * 0x100_0000 < steps * 1_000_000 + 1_000_000);
    if steps > 0 {
        assert(-steps % 0x4000 == 0x4000 - steps);
    }
}

/// The correction does not change the resampler ratio.
pub proof fn correction_leaves_the_resampler_alone(settings: Settings, other: Settings)
    requires
        settings.sample_rate_hz == other.sample_rate_hz,
    ensures
        rtl2832u::rate_rows(settings)[2] == rtl2832u::rate_rows(other)[2],
        rtl2832u::rate_rows(settings)[3] == rtl2832u::rate_rows(other)[3],
{
}

/// Whether the requests from `at` on switch the bias power off, as far as the replies allow: the
/// output latch is read, and if that succeeds it is written back with pin 0 low.
pub open spec fn cuts_bias(line: Line, at: int) -> bool {
    &&& 0 <= at < line.issued.len()
    &&& line.issued[at] == (Wire::In { value: 0x3001, index: 0x200, length: 1 })
    &&& match line.replies[at] {
        Answer::Bytes(bytes) => bytes.len() >= 1 ==> {
            &&& at + 1 < line.issued.len()
            &&& line.issued[at + 1] == (Wire::Out {
                value: 0x3001,
                index: 0x210,
                data: seq![bytes[0] & !1u8],
            })
        },
        Answer::Failed(_) => true,
    }
}

/// A shutdown that came to an end tried to cut the bias power, to close the I2C repeater, and last
/// to switch the power off, whether or not a step before failed. It leaves the hardware neither
/// valid nor receiving.
pub proof fn shutdown_tries_everything(hardware: HardwareState, line: Line, tables: Tables)
    requires
        !line.awaits(),
        !hardware.shutdown(line, tables).waits(),
    ensures
        ({
            let run = hardware.shutdown(line, tables);
            &&& !run.state.valid
            &&& !run.state.receiving
            &&& run.line.issued.len() > line.issued.len()
            &&& run.line.issued.last() == power_off()
            &&& last_write(run.line.issued.drop_last()) == Some(repeater_off())
            &&& exists|at: int| line.issued.len() <= at && #[trigger] cuts_bias(run.line, at)
        }),
{
    reveal(Line::cut_power);
    reveal(HardwareState::park);
    let off = line.receiver(false);
    protocol::causality::receiver_is_causal(line, line, false);
    let bias = off.line.gpio(0, false);
    protocol::causality::gpio_is_causal(off.line, off.line, 0, false);
    lemma_gpio_cuts_bias(off.line);
    let quiet = HardwareState { receiving: false, ..hardware };
    let parked = quiet.park(bias.line, tables);
    rtl2832u::causality::park_is_causal(quiet, bias.line, bias.line, tables);
    let cut = parked.line.cut_power();
    rtl2832u::causality::cut_power_is_causal(parked.line, parked.line);
    protocol::causality::i2c_gate_is_causal(parked.line, parked.line, false);
    assert(0x200u16 | 0x10 == 0x210) by (bit_vector);
    let at = off.line.issued.len() as int;
    let run = hardware.shutdown(line, tables);
    assert(run.line.issued.last() == power_off());
    lemma_gate_writes_last(parked.line);
    assert(run.line.issued.drop_last() =~= parked.line.i2c_gate(false).line.issued);
    assert(bias.line.issued.is_prefix_of(run.line.issued));
    assert(run.line.issued[at] == bias.line.issued[at]);
    if at + 1 < bias.line.issued.len() {
        assert(run.line.issued[at + 1] == bias.line.issued[at + 1]);
    }
    assert(cuts_bias(run.line, at));
}

proof fn lemma_gpio_cuts_bias(line: Line)
    requires
        !line.awaits(),
        !line.gpio(0, false).waits(),
    ensures
        cuts_bias(line.gpio(0, false).line, line.issued.len() as int),
{
    assert(0x200u16 | 0x10 == 0x210) by (bit_vector);
    assert(1u8 << 0u8 == 1) by (bit_vector);
    let run = line.gpio(0, false);
    let at = line.issued.len() as int;
    let read = line.sys_read(0x3001);
    protocol::causality::sys_read_is_causal(line, line, 0x3001);
    let latch = line.sys_clear(0x3001, 1);
    protocol::causality::sys_clear_is_causal(line, line, 0x3001, 1);
    let direction = latch.line.sys_clear(0x3004, 1);
    protocol::causality::sys_clear_is_causal(latch.line, latch.line, 0x3004, 1);
    protocol::causality::sys_set_is_causal(direction.line, direction.line, 0x3003, 1);
    assert(latch.line.issued.is_prefix_of(run.line.issued));
    assert(run.line.issued[at] == latch.line.issued[at]);
    if read.outcome is Ok {
        assert(latch.line.issued.len() == at + 2);
        assert(run.line.issued[at + 1] == latch.line.issued[at + 1]);
    }
}

} // verus!
