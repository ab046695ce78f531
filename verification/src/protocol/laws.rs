//! What holds of every register access, and of every switch of the receive endpoint.

use crate::errors::Error;
use crate::protocol::{Answer, Halt, Line, Wire};
use vstd::prelude::*;

verus! {

/// Driving a pin keeps the other bits of a register: setting and clearing the bit of one pin leave
/// those of the others as they were.
pub proof fn other_pins_are_kept(value: u8, pin: u8, other: u8)
    requires
        pin < 8,
        other < 8,
        pin != other,
    ensures
        (value | (1u8 << pin)) & (1u8 << other) == value & (1u8 << other),
        (value & !(1u8 << pin)) & (1u8 << other) == value & (1u8 << other),
        (value | (1u8 << pin)) & (1u8 << pin) == 1u8 << pin,
        (value & !(1u8 << pin)) & (1u8 << pin) == 0,
{
    assert((value | (1u8 << pin)) & (1u8 << other) == value & (1u8 << other)) by (bit_vector)
        requires
            pin < 8,
            other < 8,
            pin != other,
    ;
    assert((value & !(1u8 << pin)) & (1u8 << other) == value & (1u8 << other)) by (bit_vector)
        requires
            pin < 8,
            other < 8,
            pin != other,
    ;
    assert((value | (1u8 << pin)) & (1u8 << pin) == 1u8 << pin) by (bit_vector)
        requires
            pin < 8,
    ;
    assert((value & !(1u8 << pin)) & (1u8 << pin) == 0) by (bit_vector)
        requires
            pin < 8,
    ;
}

/// A write of one byte to a system register.
pub open spec fn system_write(reg: u16, value: u8) -> Wire {
    Wire::Out { value: reg, index: 0x210, data: seq![value] }
}

/// Driving a pin programs the output latch first and enables the output last, each by what the
/// register held.
pub proof fn latch_precedes_output_enable(line: Line, pin: u8, high: bool)
    requires
        line.gpio(pin, high).outcome is Ok,
    ensures
        ({
            let issued = line.gpio(pin, high).line.issued;
            let start = line.issued.len() as int;
            let mask = 1u8 << pin;
            let latch = line.replies[start]->Bytes_0[0];
            let direction = line.replies[start + 2]->Bytes_0[0];
            let output = line.replies[start + 4]->Bytes_0[0];
            &&& issued.len() == start + 6
            &&& issued[start + 1] == system_write(
                0x3001,
                if high {
                    latch | mask
                } else {
                    latch & !mask
                },
            )
            &&& issued[start + 3] == system_write(0x3004, direction & !mask)
            &&& issued[start + 5] == system_write(0x3003, output | mask)
        }),
{
    assert(0x200u16 | 0x10 == 0x210) by (bit_vector);
    let mask = 1u8 << pin;
    let latch = if high {
        line.sys_set(0x3001, mask)
    } else {
        line.sys_clear(0x3001, mask)
    };
    lemma_update_requests(line, 0x3001, mask);
    let direction = latch.line.sys_clear(0x3004, mask);
    lemma_update_requests(latch.line, 0x3004, mask);
    lemma_update_requests(direction.line, 0x3003, mask);
    let end = direction.line.sys_set(0x3003, mask);
    let start = line.issued.len() as int;
    assert(end.line.issued[start + 1] == latch.line.issued[start + 1]);
    assert(end.line.issued[start + 3] == direction.line.issued[start + 3]);
}

proof fn lemma_update_requests(line: Line, reg: u16, mask: u8)
    ensures
        ({
            let set = line.sys_set(reg, mask);
            let clear = line.sys_clear(reg, mask);
            let start = line.issued.len() as int;
            let old = line.replies[start]->Bytes_0[0];
            &&& set.outcome is Ok ==> {
                &&& set.line.replies == line.replies
                &&& set.line.issued.len() == start + 2
                &&& line.issued.is_prefix_of(set.line.issued)
                &&& set.line.issued[start + 1] == system_write(reg, old | mask)
            }
            &&& clear.outcome is Ok ==> {
                &&& clear.line.replies == line.replies
                &&& clear.line.issued.len() == start + 2
                &&& line.issued.is_prefix_of(clear.line.issued)
                &&& clear.line.issued[start + 1] == system_write(reg, old & !mask)
            }
        }),
{
    assert(0x200u16 | 0x10 == 0x210) by (bit_vector);
}

/// Whether a request writes the control register of the receive endpoint.
pub open spec fn switches_receiver(wire: Wire) -> bool {
    wire matches Wire::Out { value, index, .. } && value == 0x2148 && index == 0x110
}

/// Switching the receive endpoint accesses nothing but its own register, so that RF bias power and
/// the tuner stay as they are.
pub proof fn receiver_access_is_local(line: Line, enabled: bool)
    ensures
        ({
            let issued = line.receiver(enabled).line.issued;
            &&& line.issued.is_prefix_of(issued)
            &&& forall|i: int|
                line.issued.len() <= i < issued.len() ==> switches_receiver(#[trigger] issued[i])
        }),
{
}

/// A demodulator write goes to the register's address on its page, high byte first, and is followed
/// by a read that synchronizes with the demodulator.
pub proof fn demodulator_writes_are_encoded(
    line: Line,
    page: u8,
    reg: u8,
    value: u16,
    width: nat,
)
    requires
        page < 16,
        1 <= width <= 2,
        line.demod(page, reg, value, width).outcome is Ok,
    ensures
        ({
            let run = line.demod(page, reg, value, width);
            let start = line.issued.len() as int;
            &&& run.line.replies == line.replies
            &&& run.line.issued.len() == start + 2
            &&& line.issued.is_prefix_of(run.line.issued)
            &&& run.line.issued[start] matches Wire::Out { value: address, index, data }
            &&& address == 256 * reg + 0x20
            &&& index == page + 16
            &&& data.len() == width
            &&& width == 2 ==> 256 * data[0] + data[1] == value
            &&& width == 1 ==> data[0] == value % 256
            &&& run.line.issued[start + 1] == (Wire::In { value: 0x0120, index: 0x0a, length: 1 })
        }),
{
    lemma_page(page);
}

proof fn lemma_page(page: u8)
    requires
        page < 16,
    ensures
        page as u16 | 0x10 == page + 16,
{
    assert(page as u16 | 0x10 == page + 16) by (bit_vector)
        requires
            page < 16,
    ;
}

proof fn lemma_spaces()
    ensures
        0x100u16 | 0x10 == 0x110,
        0x200u16 | 0x10 == 0x210,
        0x600u16 | 0x10 == 0x610,
{
    assert(0x100u16 | 0x10 == 0x110 && 0x200u16 | 0x10 == 0x210 && 0x600u16 | 0x10 == 0x610)
        by (bit_vector);
}

/// System registers are written and read one byte at a time, in a space of their own.
pub proof fn system_accesses_are_encoded(line: Line, reg: u16, value: u8)
    requires
        !line.awaits(),
    ensures
        line.sys_write(reg, value).line.issued == line.issued.push(
            Wire::Out { value: reg, index: 0x210, data: seq![value] },
        ),
        line.sys_read(reg).line.issued == line.issued.push(
            Wire::In { value: reg, index: 0x200, length: 1 },
        ),
        line.sys_read(reg).outcome matches Ok(byte) ==> {
            &&& line.issued.len() < line.replies.len()
            &&& line.replies[line.issued.len() as int] matches Answer::Bytes(bytes)
            &&& bytes.len() >= 1
            &&& byte == bytes[0]
        },
{
    lemma_spaces();
}

/// USB registers are written low byte first, in a space of their own.
pub proof fn usb_accesses_are_encoded(line: Line, reg: u16, value: u16, byte: u8)
    requires
        !line.awaits(),
    ensures
        line.usb_u8(reg, byte).line.issued == line.issued.push(
            Wire::Out { value: reg, index: 0x110, data: seq![byte] },
        ),
        ({
            let issued = line.usb_u16(reg, value).line.issued;
            &&& issued.len() == line.issued.len() + 1
            &&& line.issued.is_prefix_of(issued)
            &&& issued.last() matches Wire::Out { value: address, index, data }
            &&& address == reg
            &&& index == 0x110
            &&& data.len() == 2
            &&& 256 * data[1] + data[0] == value
        }),
{
    lemma_spaces();
}

/// I2C registers are written together with their number, and read after writing the number of the
/// first. A read brings the first bytes of the reply, as many as were asked for.
pub proof fn i2c_accesses_are_encoded(line: Line, address: u8, reg: u8, value: u8, length: u16)
    requires
        !line.awaits(),
    ensures
        line.i2c_write(address, reg, value).line.issued == line.issued.push(
            Wire::Out { value: address as u16, index: 0x610, data: seq![reg, value] },
        ),
        ({
            let run = line.i2c_read(address, reg, length);
            let start = line.issued.len() as int;
            run.outcome matches Ok(bytes) ==> {
                &&& run.line.issued == line.issued.push(
                    Wire::Out { value: address as u16, index: 0x610, data: seq![reg] },
                ).push(Wire::In { value: address as u16, index: 0x600, length })
                &&& start + 1 < line.replies.len()
                &&& line.replies[start] is Bytes
                &&& line.replies[start + 1] matches Answer::Bytes(reply)
                &&& reply.len() >= length
                &&& bytes.len() == length
                &&& forall|i: int| 0 <= i < length ==> #[trigger] bytes[i] == reply[i]
            }
        }),
{
    lemma_spaces();
}

/// A reply that is too short is a protocol error, a failed transfer is reported as it is, and any
/// other reply is taken.
pub proof fn replies_are_judged_by_their_length(line: Line, value: u16, index: u16, length: u16)
    requires
        line.issued.len() < line.replies.len(),
    ensures
        match line.replies[line.issued.len() as int] {
            Answer::Failed(error) => line.read(value, index, length).outcome == Err::<
                Seq<u8>,
                Halt,
            >(Halt::Failed(Error::Transfer(error))),
            Answer::Bytes(bytes) => if bytes.len() < length {
                line.read(value, index, length).outcome == Err::<Seq<u8>, Halt>(
                    Halt::Failed(
                        Error::Protocol {
                            operation: "control read",
                            reason: "short USB response",
                        },
                    ),
                )
            } else {
                line.read(value, index, length).outcome is Ok
            },
        },
{
}

/// The receive endpoint is reset by one write, and let run by a second one.
pub proof fn receiver_switches_are_encoded(line: Line, enabled: bool)
    requires
        line.receiver(enabled).outcome is Ok,
    ensures
        ({
            let reset = Wire::Out { value: 0x2148, index: 0x110, data: seq![0x10, 0x02] };
            let run = Wire::Out { value: 0x2148, index: 0x110, data: seq![0x00, 0x00] };
            line.receiver(enabled).line.issued == if enabled {
                line.issued.push(reset).push(run)
            } else {
                line.issued.push(reset)
            }
        }),
{
    assert(crate::protocol::low_byte_first(0x0210) =~= seq![0x10u8, 0x02u8]);
    assert(crate::protocol::low_byte_first(0) =~= seq![0x00u8, 0x00u8]);
}

} // verus!
