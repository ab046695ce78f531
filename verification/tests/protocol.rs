use nusb::transfer::{ControlType, Recipient, TransferError};
use rtlsdr_nusb::protocol::{timeout, Com, Halt, InRequest, OutRequest, Outcome, Reply, Request};
use rtlsdr_nusb::Error;
use std::collections::HashMap;

/// Answers requests like a receiver whose system registers can be read back.
#[derive(Default)]
struct Fake {
    registers: HashMap<u16, u8>,
    reads: Vec<InRequest>,
    writes: Vec<OutRequest>,
}

impl Fake {
    fn perform(&mut self, request: Request) -> Reply {
        match request {
            Request::In(read) => {
                self.reads.push(read);
                if read.index == 0x200 {
                    return Ok(vec![*self.registers.get(&read.value).unwrap_or(&0)]);
                }
                Ok(vec![0; usize::from(read.length)])
            }
            Request::Out(write) => {
                if write.index == 0x210 {
                    self.registers.insert(write.value, write.data[0]);
                }
                self.writes.push(write);
                Ok(vec![])
            }
        }
    }

    fn run<T>(&mut self, mut sequence: impl FnMut(&mut Com<'_>) -> Outcome<T>) -> Outcome<T> {
        let mut replies: Vec<Reply> = Vec::new();
        loop {
            let mut com = Com::new(&replies);
            let outcome = sequence(&mut com);
            let Some(request) = com.pending() else {
                return outcome;
            };
            assert!(matches!(outcome, Err(Halt::Waiting)));
            let reply = self.perform(request.clone());
            replies.push(reply);
        }
    }
}

#[test]
fn control_encoding_has_correct_spaces_endianness_and_demod_sync() {
    let mut control = Fake::default();
    control
        .run(|com| {
            com.usb_u16(0x2158, 0x0200)?;
            com.demod(1, 0x9f, 0x1234, 2)?;
            com.i2c_read(0x34, 0, 3)
        })
        .unwrap();
    let writes = &control.writes;
    assert_eq!(
        writes[0],
        OutRequest {
            value: 0x2158,
            index: 0x110,
            data: vec![0, 2]
        }
    );
    assert_eq!(
        writes[1],
        OutRequest {
            value: 0x9f20,
            index: 0x11,
            data: vec![0x12, 0x34]
        }
    );
    assert_eq!(
        writes[2],
        OutRequest {
            value: 0x34,
            index: 0x610,
            data: vec![0]
        }
    );
    let reads = &control.reads;
    assert_eq!(
        reads[0],
        InRequest {
            value: 0x0120,
            index: 0x0a,
            length: 1
        }
    );
    assert_eq!(
        reads[1],
        InRequest {
            value: 0x34,
            index: 0x600,
            length: 3
        }
    );
    let encoded = writes[1].encode();
    assert_eq!(encoded.request, 0);
    assert_eq!(encoded.control_type, ControlType::Vendor);
    assert_eq!(encoded.recipient, Recipient::Device);
}

#[test]
fn short_control_responses_are_errors() {
    let replies = vec![Ok(vec![])];
    let mut com = Com::new(&replies);
    assert!(matches!(
        com.sys_read(0x3001),
        Err(Halt::Failed(Error::Protocol { .. }))
    ));
}

#[test]
fn gpio_preserves_unrelated_pins_and_sets_latch_before_output_enable() {
    let mut control = Fake::default();
    control
        .registers
        .extend([(0x3001, 0xa0), (0x3004, 0xff), (0x3003, 0x20)]);
    control.run(|com| com.gpio(0, true)).unwrap();
    assert_eq!(
        control
            .writes
            .iter()
            .map(|r| (r.value, r.data[0]))
            .collect::<Vec<_>>(),
        [(0x3001, 0xa1), (0x3004, 0xfe), (0x3003, 0x21)]
    );
}

#[test]
fn gpio_can_drive_a_pin_low() {
    let mut control = Fake::default();
    control
        .registers
        .extend([(0x3001, 0xff), (0x3004, 0x00), (0x3003, 0x01)]);
    control.run(|com| com.gpio(5, false)).unwrap();
    assert_eq!(
        control
            .writes
            .iter()
            .map(|r| (r.value, r.data[0]))
            .collect::<Vec<_>>(),
        [(0x3001, 0xdf), (0x3004, 0x00), (0x3003, 0x21)]
    );
}

#[test]
fn long_control_responses_are_cut_off() {
    let replies = vec![Ok(vec![]), Ok(vec![1, 2, 3, 4])];
    let mut com = Com::new(&replies);
    assert_eq!(com.i2c_read(0x34, 0, 2).unwrap(), [1, 2]);
    assert!(com.pending().is_none());
}

#[test]
fn failed_transfers_stop_a_sequence() {
    let replies = vec![Ok(vec![]), Err(TransferError::Fault)];
    let mut com = Com::new(&replies);
    assert!(matches!(
        com.i2c_gate(true),
        Err(Halt::Failed(Error::Transfer(TransferError::Fault)))
    ));
    assert!(com.pending().is_none());
}

#[test]
fn a_sequence_waits_for_each_reply_and_resumes() {
    let mut replies: Vec<Reply> = Vec::new();
    let mut asked = Vec::new();
    loop {
        let mut com = Com::new(&replies);
        let outcome = com.receiver(true);
        let Some(request) = com.pending() else {
            assert!(outcome.is_ok());
            break;
        };
        assert!(matches!(outcome, Err(Halt::Waiting)));
        asked.push(request.clone());
        replies.push(Ok(vec![]));
    }
    assert_eq!(
        asked,
        [
            Request::Out(OutRequest {
                value: 0x2148,
                index: 0x110,
                data: vec![0x10, 0x02]
            }),
            Request::Out(OutRequest {
                value: 0x2148,
                index: 0x110,
                data: vec![0, 0]
            }),
        ]
    );
}

#[test]
fn register_spaces_and_widths() {
    let mut control = Fake::default();
    control
        .run(|com| {
            com.usb_u8(0x2000, 0x09)?;
            com.sys_write(0x3000, 0xe8)?;
            com.demod(0, 0x19, 0x1205, 1)?;
            com.i2c_write(0x74, 0x1a, 0x30)
        })
        .unwrap();
    let writes: Vec<_> = control
        .writes
        .iter()
        .map(|r| (r.value, r.index, r.data.clone()))
        .collect();
    assert_eq!(
        writes,
        [
            (0x2000, 0x110, vec![0x09]),
            (0x3000, 0x210, vec![0xe8]),
            (0x1920, 0x10, vec![0x05]),
            (0x74, 0x610, vec![0x1a, 0x30]),
        ]
    );
}

#[test]
fn short_reads_can_be_raised_to_a_minimum() {
    let request = InRequest {
        value: 0x3001,
        index: 0x200,
        length: 1,
    };
    assert_eq!(request.encode(0).length, 1);
    assert_eq!(request.encode(8).length, 8);
    assert_eq!(request.encode(8).value, 0x3001);
    assert_eq!(request.encode(8).index, 0x200);
    assert_eq!(request.encode(8).control_type, ControlType::Vendor);
    assert_eq!(timeout(), 500);
}
