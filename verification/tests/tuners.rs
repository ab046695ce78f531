use nusb::transfer::TransferError;
use rtlsdr_nusb::config::Decibels;
use rtlsdr_nusb::protocol::{Com, Halt, InRequest, OutRequest, Outcome, Reply, Request};
use rtlsdr_nusb::tuners::pll::pll;
use rtlsdr_nusb::tuners::registers::RegisterTables;
use rtlsdr_nusb::tuners::{gain_steps, reverse_bits, v4_input, Tuner, TunerKind};
use rtlsdr_nusb::{Error, GainConfig};
use std::collections::{HashMap, VecDeque};

fn tables() -> RegisterTables {
    let mut initial = [0u8; 27];
    for (i, value) in initial.iter_mut().enumerate() {
        *value = 0x80 + i as u8;
    }
    RegisterTables::new(
        initial,
        vec![(0x0c, 0x00, 0x0f), (0x13, 0x31, 0x3f)],
        vec![(0x0b, 0x6b, 0xef), (0x06, 0x10, 0x10)],
        vec![(0x06, 0xb1, 0xff), (0x05, 0xa0, 0xff), (0x1b, 0x00, 0xff)],
        vec![(0, 8, 0x02, 0xdf), (50_000_000, 8, 0x02, 0xbe), (100_000_000, 0, 0x40, 0x45)],
        vec![(0, 8, 0x02, 0xdf), (60_000_000, 0, 0x02, 0x7b)],
    )
    .unwrap()
}

/// Answers requests like a receiver with a tuner behind it.
struct Fake {
    tuner_address: u8,
    pll_locked: bool,
    sys_registers: HashMap<u16, u8>,
    responses: VecDeque<Reply>,
    fail_out_at: Option<usize>,
    reads: Vec<InRequest>,
    writes: Vec<OutRequest>,
}

impl Fake {
    fn new() -> Fake {
        Fake {
            tuner_address: 0x34,
            pll_locked: true,
            sys_registers: HashMap::new(),
            responses: VecDeque::new(),
            fail_out_at: None,
            reads: Vec::new(),
            writes: Vec::new(),
        }
    }

    fn perform(&mut self, request: Request) -> Reply {
        match request {
            Request::In(read) => {
                self.reads.push(read);
                self.respond(read)
            }
            Request::Out(write) => {
                if write.index == 0x210 {
                    self.sys_registers.insert(write.value, write.data[0]);
                }
                self.writes.push(write);
                if self.fail_out_at == Some(self.writes.len()) {
                    return Err(TransferError::Fault);
                }
                Ok(vec![])
            }
        }
    }

    fn respond(&mut self, read: InRequest) -> Reply {
        if let Some(response) = self.responses.pop_front() {
            return response;
        }
        let mut data = vec![0; usize::from(read.length)];
        if read.index == 0x600 && read.value == u16::from(self.tuner_address) {
            data[0] = 0x69;
            if data.len() >= 3 && self.pll_locked {
                data[2] = 0x40u8.reverse_bits();
            }
            if data.len() >= 5 {
                data[4] = (if read.value == 0x34 { 0x20u8 } else { 0x10 }).reverse_bits();
            }
        }
        if read.index == 0x200 {
            data[0] = *self.sys_registers.get(&read.value).unwrap_or(&0);
        }
        Ok(data)
    }

    fn run<T>(&mut self, mut sequence: impl FnMut(&mut Com<'_>) -> Outcome<T>) -> Outcome<T> {
        let mut replies: Vec<Reply> = Vec::new();
        loop {
            let mut com = Com::new(&replies);
            let outcome = sequence(&mut com);
            let Some(request) = com.pending() else {
                return outcome;
            };
            assert!(matches!(outcome, Err(Halt::Waiting)));
            let reply = self.perform(request.clone());
            replies.push(reply);
        }
    }

    fn with<T>(
        &mut self,
        tuner: &mut Tuner,
        mut sequence: impl FnMut(&mut Tuner, &mut Com<'_>) -> Outcome<T>,
    ) -> Outcome<T> {
        let start = *tuner;
        self.run(|com| {
            *tuner = start;
            sequence(tuner, com)
        })
    }
}

fn calibration_responses(codes: &[u8]) -> Fake {
    let mut control = Fake::new();
    for code in codes {
        control.responses.extend([
            Ok(vec![0, 0, 0, 0, 0x20u8.reverse_bits()]),
            Ok(vec![0, 0, 0x40u8.reverse_bits()]),
            Ok(vec![0, 0, 0, 0, code.reverse_bits()]),
        ]);
    }
    control
}

fn steps(db: f32) -> Decibels {
    Decibels::from_bits(db.to_bits())
}

#[test]
fn calibration_keeps_first_valid_result() {
    for code in 1..15 {
        let mut control = calibration_responses(&[code, 0]);
        let mut tuner = Tuner::new(TunerKind::R820T, false, &tables());
        assert_eq!(
            control.with(&mut tuner, |tuner, com| tuner.calibrate(com)).unwrap(),
            code
        );
        assert_eq!(control.responses.len(), 3);
    }
}

#[test]
fn calibration_retries_invalid_codes_once() {
    for invalid in [0, 15] {
        for second in [0, 7, 15] {
            let mut control = calibration_responses(&[invalid, second]);
            let mut tuner = Tuner::new(TunerKind::R820T, false, &tables());
            assert_eq!(
                control.with(&mut tuner, |tuner, com| tuner.calibrate(com)).unwrap(),
                if second == 15 { 0 } else { second }
            );
            assert!(control.responses.is_empty());
        }
    }
}

#[test]
fn r828d_probe_is_awaited_and_missing_tuners_are_rejected() {
    let mut control = Fake::new();
    control.tuner_address = 0x74;
    assert_eq!(control.run(|com| Tuner::detect(com)).unwrap(), TunerKind::R828D);
    control.tuner_address = 0;
    assert!(matches!(
        control.run(|com| Tuner::detect(com)),
        Err(Halt::Failed(Error::UnsupportedTuner))
    ));
}

#[test]
fn pll_reports_unlock_after_retry_instead_of_returning_a_frequency() {
    let mut control = Fake::new();
    control.pll_locked = false;
    let mut tuner = Tuner::new(TunerKind::R820T, false, &tables());
    assert!(matches!(
        control.with(&mut tuner, |tuner, com| tuner.set_pll(com, 103_570_000)),
        Err(Halt::Failed(Error::PllUnlocked))
    ));
    assert_eq!(
        control
            .reads
            .iter()
            .filter(|r| r.index == 0x600 && r.length == 3)
            .count(),
        2
    );
}

#[test]
fn frequencies_out_of_reach_are_reported_as_unlocked() {
    let tables = tables();
    for hz in [1_766_430_001, u64::MAX - 32_370_000, u64::MAX - 3_570_000] {
        for blog_v4 in [false, true] {
            let mut control = Fake::new();
            let mut tuner = Tuner::new(TunerKind::R820T, blog_v4, &tables);
            assert!(matches!(
                control.with(&mut tuner, |tuner, com| tuner.tune(com, hz, &tables)),
                Err(Halt::Failed(Error::PllUnlocked))
            ));
        }
    }
}

#[test]
fn pll_quantization_stays_within_one_fractional_step_across_rf_range() {
    for crystal in [28_785_946, 28_800_000, 28_814_054] {
        for hz in (32_370_000..=1_769_570_000).step_by(1_000_000) {
            let plan = pll(hz, crystal, 2, 2).unwrap();
            assert!(plan.actual_hz <= hz);
            assert!(hz - plan.actual_hz < 500);
            assert!(plan.divider <= 6);
        }
    }
}

#[test]
fn gain_and_v4_band_edges() {
    assert_eq!(gain_steps(steps(0.0)), (0, 0));
    assert_eq!(gain_steps(steps(2.3)), (1, 0));
    assert_eq!(gain_steps(steps(3.5)), (1, 1));
    assert_eq!(gain_steps(steps(52.5)), (15, 15));
    assert_eq!(v4_input(28_799_999), 2);
    assert_eq!(v4_input(28_800_000), 1);
    assert_eq!(v4_input(249_999_999), 1);
    assert_eq!(v4_input(250_000_000), 0);
}

#[test]
fn gain_steps_follow_single_precision_arithmetic() {
    let expected = |db: f32| {
        let full = (db / 3.5).floor().clamp(0.0, 15.0) as u8;
        let half = u8::from(full < 15 && db - 3.5 * f32::from(full) >= 2.3);
        (full + half, full)
    };
    for db in [f32::NAN, f32::INFINITY, f32::NEG_INFINITY, f32::MIN_POSITIVE, -3.0, 1.0e10] {
        assert_eq!(gain_steps(steps(db)), expected(db), "{db}");
    }
    // Around every edge, and across the range, every representable value in reach.
    for edge in 0..16 {
        for at in [3.5 * edge as f32, 3.5 * edge as f32 + 2.3] {
            let bits = at.to_bits();
            for near in bits.saturating_sub(2000)..bits + 2000 {
                let db = f32::from_bits(near);
                assert_eq!(gain_steps(steps(db)), expected(db), "{db}");
            }
        }
    }
    for bits in (0..52.5f32.to_bits()).step_by(4_099) {
        let db = f32::from_bits(bits);
        assert_eq!(gain_steps(steps(db)), expected(db), "{db}");
    }
}

#[test]
fn pll_plans_have_exact_register_values() {
    let plan = pll(103_570_000, 28_800_000, 2, 2).unwrap();
    assert_eq!((plan.divider, plan.integer, plan.sdm), (4, 11, 35_316));
    assert_eq!(plan.actual_hz, 103_569_982);
    // The fine tuning readback trims the divider.
    assert_eq!(pll(103_570_000, 28_800_000, 1, 2).unwrap().divider, 5);
    assert_eq!(pll(103_570_000, 28_800_000, 3, 2).unwrap().divider, 3);
    // Multiples of the crystal frequency need no fraction.
    assert_eq!(pll(57_600_000, 28_800_000, 2, 2).unwrap().sdm, 0);
    for (hz, crystal, fine) in [
        (0, 28_800_000, 2),
        (1_770_000_001, 28_800_000, 2),
        (100_000_000, 0, 2),
        (1_770_000_000, 28_800_000, 3),
        (5_000_000, 28_800_000, 2),
        (100_000_000, 1_000_000, 2),
    ] {
        assert!(matches!(pll(hz, crystal, fine, 2), Err(Error::PllUnlocked)));
    }
}

#[test]
fn bits_are_reversed() {
    for byte in 0..=255u8 {
        assert_eq!(reverse_bits(byte), byte.reverse_bits());
    }
}

#[test]
fn a_stalling_address_is_not_a_tuner_but_other_failures_count() {
    let stalls = vec![Err(TransferError::Stall), Ok(vec![]), Ok(vec![0x69])];
    let mut com = Com::new(&stalls);
    assert_eq!(Tuner::detect(&mut com).unwrap(), TunerKind::R828D);
    let fails = vec![Err(TransferError::Fault)];
    let mut com = Com::new(&fails);
    assert!(matches!(
        Tuner::detect(&mut com),
        Err(Halt::Failed(Error::Transfer(TransferError::Fault)))
    ));
}

#[test]
fn shadow_registers_change_only_with_an_acknowledged_write() {
    let mut tuner = Tuner::new(TunerKind::R820T, false, &tables());
    let before = tuner.shadow;
    assert_eq!(tuner.address(), 0x34);
    let refused = vec![Err(TransferError::Fault)];
    let mut com = Com::new(&refused);
    assert!(tuner.write(&mut com, 0x0a, 0xff, 0x0f).is_err());
    assert_eq!(tuner.shadow, before);
    let none = vec![];
    let mut com = Com::new(&none);
    assert!(matches!(tuner.write(&mut com, 0x0a, 0xff, 0x0f), Err(Halt::Waiting)));
    assert_eq!(tuner.shadow, before);
    let taken = vec![Ok(vec![])];
    let mut com = Com::new(&taken);
    tuner.write(&mut com, 0x0a, 0xf9, 0x0f).unwrap();
    assert_eq!(tuner.shadow[5], (before[5] & 0xf0) | 9);
}

#[test]
fn standby_tries_every_write_and_reports_the_first_failure() {
    let tables = tables();
    let mut control = Fake::new();
    control.fail_out_at = Some(1);
    let mut tuner = Tuner::new(TunerKind::R820T, false, &tables);
    assert!(matches!(
        control.with(&mut tuner, |tuner, com| tuner.standby(com, &tables)),
        Err(Halt::Failed(Error::Transfer(TransferError::Fault)))
    ));
    let written: Vec<_> = control.writes.iter().map(|r| r.data.clone()).collect();
    assert_eq!(written, [vec![0x06, 0xb1], vec![0x05, 0xa0], vec![0x1b, 0x00]]);
    // The refused write is not in the shadow registers.
    assert_eq!(tuner.shadow[1], 0x81);
    assert_eq!(tuner.shadow[0], 0xa0);
}

#[test]
fn opening_loads_calibrates_and_finishes() {
    let tables = tables();
    let mut control = Fake::new();
    control.responses = calibration_responses(&[9]).responses;
    let mut tuner = Tuner::new(TunerKind::R820T, false, &tables);
    tuner.input = Some(1);
    control
        .with(&mut tuner, |tuner, com| tuner.open(com, &tables))
        .unwrap();
    assert_eq!(tuner.input, None);
    let written: Vec<_> = control
        .writes
        .iter()
        .filter(|r| r.index == 0x610 && r.data.len() == 2)
        .map(|r| (r.data[0], r.data[1]))
        .collect();
    assert_eq!(written[0], (5, 0x80));
    assert_eq!(written[26], (31, 0x9a));
    // The filter takes the calibration code.
    assert!(written.contains(&(0x0a, 0x80 | 0x10 | 9)));
    assert_eq!(written.last(), Some(&(0x06, 0x91)));
    // What was written last to each register is in the shadow registers.
    for reg in 5..32u8 {
        let last = written.iter().rev().find(|w| w.0 == reg).unwrap();
        assert_eq!(tuner.shadow[usize::from(reg - 5)], last.1);
    }
}

#[test]
fn manual_and_automatic_gain_write_their_registers() {
    let mut tuner = Tuner::new(TunerKind::R820T, false, &tables());
    let mut control = Fake::new();
    control
        .with(&mut tuner, |tuner, com| tuner.set_gain(com, GainConfig::Manual(steps(10.0))))
        .unwrap();
    // 10 dB take two full steps and one more of the LNA.
    assert_eq!(tuner.shadow[0] & 0x1f, 0x10 | 3);
    assert_eq!(tuner.shadow[2] & 0x1f, 2);
    assert_eq!(tuner.shadow[7] & 0x9f, 8);
    control
        .with(&mut tuner, |tuner, com| tuner.set_gain(com, GainConfig::Auto))
        .unwrap();
    assert_eq!(tuner.shadow[0] & 0x10, 0);
    assert_eq!(tuner.shadow[2] & 0x10, 0x10);
    assert_eq!(tuner.shadow[7] & 0x9f, 0x0b);
}

#[test]
fn tuning_selects_filter_and_input() {
    let tables = tables();
    let mut control = Fake::new();
    control.tuner_address = 0x74;
    let mut tuner = Tuner::new(TunerKind::R828D, true, &tables);
    let actual = control
        .with(&mut tuner, |tuner, com| tuner.tune(com, 7_000_000, &tables))
        .unwrap();
    assert!(actual <= 7_000_000 && 7_000_000 - actual < 500);
    assert_eq!(tuner.input, Some(2));
    // The LO is at 39.37 MHz, so the first row counts.
    assert_eq!(tuner.shadow[0x1b - 5], 0xdf);
    assert_eq!(tuner.shadow[0x06 - 5] & 8, 8);
    assert_eq!(tuner.shadow[0] & 0x60, 0x20);
    assert_eq!(control.sys_registers[&0x3001] & 0x20, 0);
    let actual = control
        .with(&mut tuner, |tuner, com| tuner.tune(com, 100_000_000, &tables))
        .unwrap();
    assert!(actual <= 100_000_000 && 100_000_000 - actual < 500);
    assert_eq!(tuner.input, Some(1));
    assert_eq!(tuner.shadow[0x1b - 5], 0x7b);
    assert_eq!(control.sys_registers[&0x3001] & 0x20, 0x20);
    // Staying in the band leaves the input alone.
    let count = control.writes.iter().filter(|r| r.index == 0x210).count();
    control
        .with(&mut tuner, |tuner, com| tuner.tune(com, 101_000_000, &tables))
        .unwrap();
    assert_eq!(control.writes.iter().filter(|r| r.index == 0x210).count(), count);
    // A standard board with this tuner switches at 345 MHz.
    let mut standard = Tuner::new(TunerKind::R828D, false, &tables);
    for (hz, input) in [(345_000_000, 1), (345_000_001, 0)] {
        control
            .with(&mut standard, |tuner, com| tuner.tune(com, hz, &tables))
            .unwrap();
        assert_eq!(standard.input, Some(input));
    }
    // The other tuner has one input.
    control.tuner_address = 0x34;
    let mut single = Tuner::new(TunerKind::R820T, false, &tables);
    control
        .with(&mut single, |tuner, com| tuner.tune(com, 100_000_000, &tables))
        .unwrap();
    assert_eq!(single.input, None);
    assert_eq!(single.shadow[0x1b - 5], 0x45);
}

#[test]
fn unusable_tables_are_refused() {
    let rows = |reg| vec![(reg, 0, 0xff)];
    let mux = |first| vec![(first, 0, 0, 0)];
    let make = |reg, first| {
        RegisterTables::new([0; 27], rows(5), rows(31), rows(reg), mux(first), mux(0))
    };
    assert!(make(31, 0).is_some());
    assert!(make(4, 0).is_none());
    assert!(make(32, 0).is_none());
    assert!(make(31, 1).is_none());
    assert!(RegisterTables::new([0; 27], vec![], vec![], vec![], vec![], mux(0)).is_none());
}
