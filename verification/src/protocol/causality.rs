//! Control sequences are causal: what they do up to some point does not depend on replies that
//! come after it. This is what makes running a sequence again with one more reply the same as
//! resuming it.

use crate::protocol::{Line, Run, Wire};
use vstd::prelude::*;

verus! {

/// Two runs of one sequence, started from lines that await no reply, of which `more` may be `less`
/// with further replies: each follows from its line, and if it is, the second run continues the
/// first.
pub open spec fn causal<S, T>(less: Line, more: Line, first: Run<S, T>, second: Run<S, T>) -> bool {
    &&& !less.awaits() ==> first.follows(less)
    &&& !more.awaits() ==> second.follows(more)
    &&& !less.awaits() && less.extended_by(more) ==> first.continued_by(second)
}

/// Issuing a request is causal.
pub proof fn send_is_causal(less: Line, more: Line, wire: Wire)
    ensures
        causal(less, more, less.send(wire), more.send(wire)),
{
}

/// Reading is causal.
pub proof fn read_is_causal(less: Line, more: Line, value: u16, index: u16, length: u16)
    ensures
        causal(less, more, less.read(value, index, length), more.read(value, index, length)),
{
    send_is_causal(less, more, Wire::In { value, index, length });
}

/// Writing is causal.
pub proof fn put_is_causal(less: Line, more: Line, value: u16, index: u16, data: Seq<u8>)
    ensures
        causal(less, more, less.put(value, index, data), more.put(value, index, data)),
{
    send_is_causal(less, more, Wire::Out { value, index, data });
}

/// Writing a register space is causal.
pub proof fn write_is_causal(less: Line, more: Line, value: u16, index: u16, data: Seq<u8>)
    ensures
        causal(less, more, less.write(value, index, data), more.write(value, index, data)),
{
    put_is_causal(less, more, value, index | 0x10, data);
}

/// Reading a system register is causal.
pub proof fn sys_read_is_causal(less: Line, more: Line, reg: u16)
    ensures
        causal(less, more, less.sys_read(reg), more.sys_read(reg)),
{
    read_is_causal(less, more, reg, 0x200, 1);
}

/// Writing a demodulator register is causal.
pub proof fn demod_is_causal(less: Line, more: Line, page: u8, reg: u8, value: u16, width: nat)
    ensures
        causal(
            less,
            more,
            less.demod(page, reg, value, width),
            more.demod(page, reg, value, width),
        ),
{
    let address = crate::protocol::demod_register(reg);
    let data = crate::protocol::high_byte_first(value).skip(2 - width);
    write_is_causal(less, more, address, page as u16, data);
    read_is_causal(
        less.write(address, page as u16, data).line,
        more.write(address, page as u16, data).line,
        0x0120,
        0x0a,
        1,
    );
}

/// Writing demodulator registers in order is causal.
pub proof fn demod_all_is_causal(less: Line, more: Line, rows: Seq<(u8, u8, u16, usize)>)
    ensures
        causal(less, more, less.demod_all(rows), more.demod_all(rows)),
    decreases rows.len(),
{
    if rows.len() > 0 {
        let row = rows.last();
        demod_all_is_causal(less, more, rows.drop_last());
        demod_is_causal(
            less.demod_all(rows.drop_last()).line,
            more.demod_all(rows.drop_last()).line,
            row.0,
            row.1,
            row.2,
            row.3 as nat,
        );
    }
}

/// Switching the I2C repeater is causal.
pub proof fn i2c_gate_is_causal(less: Line, more: Line, open: bool)
    ensures
        causal(less, more, less.i2c_gate(open), more.i2c_gate(open)),
{
    demod_is_causal(less, more, 1, 1, if open { 0x18 } else { 0x10 }, 1);
}

/// Writing an I2C register is causal.
pub proof fn i2c_write_is_causal(less: Line, more: Line, address: u8, reg: u8, value: u8)
    ensures
        causal(
            less,
            more,
            less.i2c_write(address, reg, value),
            more.i2c_write(address, reg, value),
        ),
{
    write_is_causal(less, more, address as u16, 0x600, seq![reg, value]);
}

/// Reading I2C registers is causal.
pub proof fn i2c_read_is_causal(less: Line, more: Line, address: u8, reg: u8, length: u16)
    ensures
        causal(
            less,
            more,
            less.i2c_read(address, reg, length),
            more.i2c_read(address, reg, length),
        ),
{
    write_is_causal(less, more, address as u16, 0x600, seq![reg]);
    read_is_causal(
        less.write(address as u16, 0x600, seq![reg]).line,
        more.write(address as u16, 0x600, seq![reg]).line,
        address as u16,
        0x600,
        length,
    );
}

/// Setting bits of a system register is causal.
pub proof fn sys_set_is_causal(less: Line, more: Line, reg: u16, mask: u8)
    ensures
        causal(less, more, less.sys_set(reg, mask), more.sys_set(reg, mask)),
{
    sys_read_is_causal(less, more, reg);
    let a = less.sys_read(reg);
    let b = more.sys_read(reg);
    if b.outcome is Ok {
        write_is_causal(a.line, b.line, reg, 0x200, seq![b.outcome->Ok_0 | mask]);
    }
    if a.outcome is Ok {
        write_is_causal(a.line, b.line, reg, 0x200, seq![a.outcome->Ok_0 | mask]);
    }
}

/// Clearing bits of a system register is causal.
pub proof fn sys_clear_is_causal(less: Line, more: Line, reg: u16, mask: u8)
    ensures
        causal(less, more, less.sys_clear(reg, mask), more.sys_clear(reg, mask)),
{
    sys_read_is_causal(less, more, reg);
    let a = less.sys_read(reg);
    let b = more.sys_read(reg);
    if b.outcome is Ok {
        write_is_causal(a.line, b.line, reg, 0x200, seq![b.outcome->Ok_0 & !mask]);
    }
    if a.outcome is Ok {
        write_is_causal(a.line, b.line, reg, 0x200, seq![a.outcome->Ok_0 & !mask]);
    }
}

/// Driving a GPIO pin is causal.
pub proof fn gpio_is_causal(less: Line, more: Line, pin: u8, high: bool)
    ensures
        causal(less, more, less.gpio(pin, high), more.gpio(pin, high)),
{
    let mask = 1u8 << pin;
    let (a, b) = if high {
        (less.sys_set(0x3001, mask), more.sys_set(0x3001, mask))
    } else {
        (less.sys_clear(0x3001, mask), more.sys_clear(0x3001, mask))
    };
    sys_set_is_causal(less, more, 0x3001, mask);
    sys_clear_is_causal(less, more, 0x3001, mask);
    sys_clear_is_causal(a.line, b.line, 0x3004, mask);
    sys_set_is_causal(
        a.line.sys_clear(0x3004, mask).line,
        b.line.sys_clear(0x3004, mask).line,
        0x3003,
        mask,
    );
}

/// Switching the receive endpoint is causal.
pub proof fn receiver_is_causal(less: Line, more: Line, enabled: bool)
    ensures
        causal(less, more, less.receiver(enabled), more.receiver(enabled)),
{
    let reset = crate::protocol::low_byte_first(0x0210);
    put_is_causal(less, more, 0x2148, 0x110, reset);
    put_is_causal(
        less.put(0x2148, 0x110, reset).line,
        more.put(0x2148, 0x110, reset).line,
        0x2148,
        0x110,
        crate::protocol::low_byte_first(0),
    );
}

} // verus!
