//! Configuring and shutting down are causal, so that they can be run again with one more reply.

use crate::config::Settings;
use crate::protocol;
use crate::protocol::{causality, Line};
use crate::rtl2832u;
use crate::rtl2832u::HardwareState;
use crate::tuners;
use crate::tuners::registers::Tables;
use crate::tuners::TunerState;
use vstd::prelude::*;

verus! {

/// Powering the demodulator is causal.
pub proof fn power_up_is_causal(less: Line, more: Line)
    ensures
        causality::causal(less, more, less.power_up(), more.power_up()),
{
    reveal(Line::power_up);
    causality::write_is_causal(less, more, 0x2000, 0x100, seq![0x09u8]);
    let a = less.usb_u8(0x2000, 0x09);
    let b = more.usb_u8(0x2000, 0x09);
    let packet = protocol::low_byte_first(0x0200);
    causality::put_is_causal(a.line, b.line, 0x2158, 0x110, packet);
    let c = a.line.usb_u16(0x2158, 0x0200);
    let d = b.line.usb_u16(0x2158, 0x0200);
    causality::receiver_is_causal(c.line, d.line, false);
    let e = c.line.receiver(false);
    let f = d.line.receiver(false);
    causality::write_is_causal(e.line, f.line, 0x300b, 0x200, seq![0x22u8]);
    let g = e.line.sys_write(0x300b, 0x22);
    let h = f.line.sys_write(0x300b, 0x22);
    causality::write_is_causal(g.line, h.line, 0x3000, 0x200, seq![0xe8u8]);
}

/// Finding the tuner behind the demodulator is causal.
pub proof fn find_tuner_is_causal(less: Line, more: Line, blog_v4: bool)
    ensures
        causality::causal(
            less,
            more,
            less.find_tuner(blog_v4),
            more.find_tuner(blog_v4),
        ),
{
    reveal(Line::find_tuner);
    let rows = rtl2832u::demod_init_rows();
    causality::demod_all_is_causal(less, more, rows);
    let a = less.demod_all(rows);
    let b = more.demod_all(rows);
    causality::i2c_gate_is_causal(a.line, b.line, true);
    let c = a.line.i2c_gate(true);
    let d = b.line.i2c_gate(true);
    tuners::causality::detect_is_causal(c.line, d.line);
}

/// Bringing the hardware up is causal.
pub proof fn bring_up_is_causal(less: Line, more: Line, blog_v4: bool)
    ensures
        causality::causal(less, more, less.bring_up(blog_v4), more.bring_up(blog_v4)),
{
    reveal(Line::bring_up);
    power_up_is_causal(less, more);
    find_tuner_is_causal(less.power_up().line, more.power_up().line, blog_v4);
}

/// Setting the intermediate frequency and the bias power is causal.
pub proof fn settle_is_causal(less: Line, more: Line, word: u32, bias_tee: bool, resume: bool)
    ensures
        causality::causal(
            less,
            more,
            less.settle(word, bias_tee, resume),
            more.settle(word, bias_tee, resume),
        ),
{
    reveal(Line::settle);
    let rows = rtl2832u::if_rows(word);
    causality::demod_all_is_causal(less, more, rows);
    let a = less.demod_all(rows);
    let b = more.demod_all(rows);
    causality::gpio_is_causal(a.line, b.line, 0, bias_tee);
    let c = a.line.gpio(0, bias_tee);
    let d = b.line.gpio(0, bias_tee);
    causality::receiver_is_causal(c.line, d.line, true);
}

/// Bypassing the tuner is causal.
pub proof fn bypass_is_causal(
    tuner: TunerState,
    less: Line,
    more: Line,
    bypassed: bool,
    settings: Settings,
    tables: Tables,
)
    ensures
        causality::causal(
            less,
            more,
            tuner.bypass(less, bypassed, settings, tables),
            tuner.bypass(more, bypassed, settings, tables),
        ),
{
    reveal(TunerState::bypass);
    tuners::causality::standby_is_causal(tuner, less, more, tables.standby);
    let rows = rtl2832u::direct_rows(settings);
    if bypassed {
        causality::demod_all_is_causal(less, more, rows);
    } else {
        causality::demod_all_is_causal(
            tuner.standby(less, tables.standby).line,
            tuner.standby(more, tables.standby).line,
            rows,
        );
    }
}

/// Receiving through the tuner is causal.
pub proof fn engage_is_causal(tuner: TunerState, less: Line, more: Line, settings: Settings)
    ensures
        causality::causal(
            less,
            more,
            tuner.engage(less, settings),
            tuner.engage(more, settings),
        ),
{
    reveal(TunerState::engage);
    let rows = rtl2832u::tuner_rows();
    causality::demod_all_is_causal(less, more, rows);
    tuners::causality::set_gain_is_causal(
        tuner,
        less.demod_all(rows).line,
        more.demod_all(rows).line,
        settings.gain,
    );
}

/// Opening the I2C repeater is causal.
pub proof fn awaken_is_causal(
    tuner: TunerState,
    less: Line,
    more: Line,
    open: bool,
    tables: Tables,
)
    ensures
        causality::causal(
            less,
            more,
            tuner.awaken(less, open, tables),
            tuner.awaken(more, open, tables),
        ),
{
    reveal(TunerState::awaken);
    causality::i2c_gate_is_causal(less, more, true);
    tuners::causality::open_is_causal(
        tuner,
        less.i2c_gate(true).line,
        more.i2c_gate(true).line,
        tables,
    );
}

/// Selecting the signal path is causal.
pub proof fn route_is_causal(
    tuner: TunerState,
    less: Line,
    more: Line,
    bypassed: bool,
    reinitialize: bool,
    settings: Settings,
    tables: Tables,
)
    ensures
        causality::causal(
            less,
            more,
            tuner.route(less, bypassed, reinitialize, settings, tables),
            tuner.route(more, bypassed, reinitialize, settings, tables),
        ),
{
    reveal(TunerState::route);
    let open = reinitialize || (bypassed && !rtl2832u::bypasses(settings));
    awaken_is_causal(tuner, less, more, open, tables);
    let a = tuner.awaken(less, open, tables);
    let b = tuner.awaken(more, open, tables);
    if rtl2832u::bypasses(settings) {
        bypass_is_causal(a.state, a.line, b.line, bypassed, settings, tables);
        bypass_is_causal(b.state, a.line, b.line, bypassed, settings, tables);
    } else {
        engage_is_causal(a.state, a.line, b.line, settings);
        engage_is_causal(b.state, a.line, b.line, settings);
    }
}

/// Tuning to the requested frequency is causal.
pub proof fn center_is_causal(
    tuner: TunerState,
    less: Line,
    more: Line,
    settings: Settings,
    tables: Tables,
)
    ensures
        causality::causal(
            less,
            more,
            tuner.center(less, settings, tables),
            tuner.center(more, settings, tables),
        ),
{
    tuners::causality::tune_is_causal(tuner, less, more, settings.frequency_hz, tables);
}

/// Programming rates and frequencies is causal.
pub proof fn program_is_causal(
    hardware: HardwareState,
    less: Line,
    more: Line,
    tuner: TunerState,
    reinitialize: bool,
    settings: Settings,
    tables: Tables,
)
    ensures
        causality::causal(
            less,
            more,
            hardware.program(less, tuner, reinitialize, settings, tables),
            hardware.program(more, tuner, reinitialize, settings, tables),
        ),
{
    reveal(HardwareState::program);
    let rows = rtl2832u::rate_rows(settings);
    causality::demod_all_is_causal(less, more, rows);
    let a = less.demod_all(rows);
    let b = more.demod_all(rows);
    center_is_causal(tuner, a.line, b.line, settings, tables);
    let c = tuner.center(a.line, settings, tables);
    let d = tuner.center(b.line, settings, tables);
    settle_is_causal(
        c.line,
        d.line,
        rtl2832u::if_register(
            if rtl2832u::bypasses(settings) {
                settings.frequency_hz
            } else {
                tuners::IF_HZ
            },
            rtl2832u::corrected(settings.correction_ppm),
        ),
        settings.bias_tee,
        reinitialize && hardware.receiving,
    );
}

/// Applying settings is causal.
pub proof fn apply_is_causal(
    hardware: HardwareState,
    less: Line,
    more: Line,
    tuner: TunerState,
    reinitialize: bool,
    settings: Settings,
    tables: Tables,
)
    ensures
        causality::causal(
            less,
            more,
            hardware.apply(less, tuner, reinitialize, settings, tables),
            hardware.apply(more, tuner, reinitialize, settings, tables),
        ),
{
    reveal(HardwareState::apply);
    let corrected = TunerState {
        crystal_hz: rtl2832u::corrected(settings.correction_ppm),
        ..tuner
    };
    route_is_causal(corrected, less, more, hardware.direct, reinitialize, settings, tables);
    let a = corrected.route(less, hardware.direct, reinitialize, settings, tables);
    let b = corrected.route(more, hardware.direct, reinitialize, settings, tables);
    let c = HardwareState {
        tuner: Some(a.state),
        direct: rtl2832u::bypasses(settings),
        ..hardware
    };
    let d = HardwareState {
        tuner: Some(b.state),
        direct: rtl2832u::bypasses(settings),
        ..hardware
    };
    program_is_causal(c, a.line, b.line, a.state, reinitialize, settings, tables);
    program_is_causal(d, a.line, b.line, b.state, reinitialize, settings, tables);
}

/// Configuring with the I2C repeater left open is causal.
pub proof fn configure_inner_is_causal(
    hardware: HardwareState,
    less: Line,
    more: Line,
    settings: Settings,
    blog_v4: bool,
    reinitialize: bool,
    tables: Tables,
)
    ensures
        causality::causal(
            less,
            more,
            hardware.configure_inner(less, settings, blog_v4, reinitialize, tables),
            hardware.configure_inner(more, settings, blog_v4, reinitialize, tables),
        ),
{
    reveal(HardwareState::configure_inner);
    reveal(HardwareState::reinitialize);
    if reinitialize {
        bring_up_is_causal(less, more, blog_v4);
        let a = hardware.reinitialize(less, blog_v4, tables);
        let b = hardware.reinitialize(more, blog_v4, tables);
        assert(causality::causal(less, more, a, b));
        if a.outcome is Ok {
            let tuner = a.state.tuner->Some_0;
            apply_is_causal(a.state, a.line, b.line, tuner, true, settings, tables);
        }
        if b.outcome is Ok {
            let tuner = b.state.tuner->Some_0;
            apply_is_causal(b.state, a.line, b.line, tuner, true, settings, tables);
        }
    } else if hardware.tuner is Some {
        let tuner = hardware.tuner->Some_0;
        apply_is_causal(hardware, less, more, tuner, false, settings, tables);
    }
}

/// Configuring the hardware is causal: running it again with one more reply is the same as going
/// on where it waited.
pub proof fn configure_is_causal(
    hardware: HardwareState,
    less: Line,
    more: Line,
    settings: Settings,
    blog_v4: bool,
    tables: Tables,
)
    ensures
        causality::causal(
            less,
            more,
            hardware.configure(less, settings, blog_v4, tables),
            hardware.configure(more, settings, blog_v4, tables),
        ),
{
    let invalid = HardwareState { valid: false, ..hardware };
    configure_inner_is_causal(invalid, less, more, settings, blog_v4, !hardware.valid, tables);
    let a = invalid.configure_inner(less, settings, blog_v4, !hardware.valid, tables);
    let b = invalid.configure_inner(more, settings, blog_v4, !hardware.valid, tables);
    causality::i2c_gate_is_causal(a.line, b.line, false);
}

/// Powering the tuner down is causal.
pub proof fn park_is_causal(hardware: HardwareState, less: Line, more: Line, tables: Tables)
    ensures
        causality::causal(
            less,
            more,
            hardware.park(less, tables),
            hardware.park(more, tables),
        ),
{
    reveal(HardwareState::park);
    if hardware.tuner is Some {
        causality::i2c_gate_is_causal(less, more, true);
        tuners::causality::standby_is_causal(
            hardware.tuner->Some_0,
            less.i2c_gate(true).line,
            more.i2c_gate(true).line,
            tables.standby,
        );
    }
}

/// Switching the power off is causal.
pub proof fn cut_power_is_causal(less: Line, more: Line)
    ensures
        causality::causal(less, more, less.cut_power(), more.cut_power()),
{
    reveal(Line::cut_power);
    causality::i2c_gate_is_causal(less, more, false);
    causality::write_is_causal(
        less.i2c_gate(false).line,
        more.i2c_gate(false).line,
        0x3000,
        0x200,
        seq![0x20u8],
    );
}

/// Shutting down is causal: running it again with one more reply is the same as going on where it
/// waited.
pub proof fn shutdown_is_causal(hardware: HardwareState, less: Line, more: Line, tables: Tables)
    ensures
        causality::causal(
            less,
            more,
            hardware.shutdown(less, tables),
            hardware.shutdown(more, tables),
        ),
{
    causality::receiver_is_causal(less, more, false);
    let a = less.receiver(false);
    let b = more.receiver(false);
    causality::gpio_is_causal(a.line, b.line, 0, false);
    let c = a.line.gpio(0, false);
    let d = b.line.gpio(0, false);
    let quiet = HardwareState { receiving: false, ..hardware };
    park_is_causal(quiet, c.line, d.line, tables);
    let e = quiet.park(c.line, tables);
    let f = quiet.park(d.line, tables);
    cut_power_is_causal(e.line, f.line);
}

} // verus!
