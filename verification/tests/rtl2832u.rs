use nusb::transfer::TransferError;
use rtlsdr_nusb::config::{Decibels, Settings};
use rtlsdr_nusb::protocol::{Com, Halt, InRequest, OutRequest, Outcome, Reply, Request};
use rtlsdr_nusb::rtl2832u::{
    corrected_crystal, correction_word, if_word, sample_rate, Applied, Hardware,
};
use rtlsdr_nusb::tuners::registers::RegisterTables;
use rtlsdr_nusb::{DeviceDescriptor, DirectSampling, Error, GainConfig, TunerKind};
use std::collections::{HashMap, VecDeque};

fn tables() -> RegisterTables {
    RegisterTables::new(
        [0x80; 27],
        vec![(0x0c, 0x00, 0x0f), (0x13, 0x31, 0x3f)],
        vec![(0x0b, 0x6b, 0xef), (0x06, 0x10, 0x10)],
        vec![(0x06, 0xb1, 0xff), (0x05, 0xa0, 0xff)],
        vec![(0, 8, 0x02, 0xdf), (50_000_000, 8, 0x02, 0xbe)],
        vec![(0, 8, 0x02, 0xdf), (60_000_000, 0, 0x02, 0x7b)],
    )
    .unwrap()
}

fn descriptor() -> DeviceDescriptor {
    DeviceDescriptor {
        index: 0,
        vid: 0x0bda,
        pid: 0x2838,
        serial: None,
        manufacturer: None,
        product: None,
    }
}

fn blog_v4() -> DeviceDescriptor {
    DeviceDescriptor {
        manufacturer: Some("RTLSDRBlog".to_owned()),
        product: Some("Blog V4".to_owned()),
        ..descriptor()
    }
}

/// Answers requests like a receiver with a tuner behind it.
struct Fake {
    tuner_address: u8,
    sys_registers: HashMap<u16, u8>,
    fail_out_at: Option<usize>,
    responses: VecDeque<Reply>,
    reads: Vec<InRequest>,
    writes: Vec<OutRequest>,
}

impl Fake {
    fn new() -> Fake {
        Fake {
            tuner_address: 0x34,
            sys_registers: HashMap::new(),
            fail_out_at: None,
            responses: VecDeque::new(),
            reads: Vec::new(),
            writes: Vec::new(),
        }
    }

    fn perform(&mut self, request: Request) -> Reply {
        match request {
            Request::In(read) => {
                self.reads.push(read);
                if let Some(response) = self.responses.pop_front() {
                    return response;
                }
                let mut data = vec![0; usize::from(read.length)];
                if read.index == 0x600 && read.value == u16::from(self.tuner_address) {
                    data[0] = 0x69;
                    if data.len() >= 3 {
                        data[2] = 0x40u8.reverse_bits();
                    }
                    if data.len() >= 5 {
                        data[4] = (if read.value == 0x34 { 0x20u8 } else { 0x10 }).reverse_bits();
                    }
                }
                if read.index == 0x200 {
                    data[0] = *self.sys_registers.get(&read.value).unwrap_or(&0);
                }
                Ok(data)
            }
            Request::Out(write) => {
                let register = write.value;
                let first = write.data.first().copied();
                let system = write.index == 0x210;
                self.writes.push(write);
                if self.fail_out_at == Some(self.writes.len()) {
                    return Err(TransferError::Fault);
                }
                if system {
                    self.sys_registers.insert(register, first.unwrap());
                }
                Ok(vec![])
            }
        }
    }

    fn run<T>(
        &mut self,
        hardware: &mut Hardware,
        mut sequence: impl FnMut(&mut Hardware, &mut Com<'_>) -> Outcome<T>,
    ) -> Outcome<T> {
        let start = *hardware;
        let mut replies: Vec<Reply> = Vec::new();
        loop {
            *hardware = start;
            let mut com = Com::new(&replies);
            let outcome = sequence(hardware, &mut com);
            let Some(request) = com.pending() else {
                return outcome;
            };
            assert!(matches!(outcome, Err(Halt::Waiting)));
            let reply = self.perform(request.clone());
            replies.push(reply);
        }
    }

    fn configure(
        &mut self,
        hardware: &mut Hardware,
        config: &Settings,
        descriptor: &DeviceDescriptor,
    ) -> Outcome<Applied> {
        let tables = tables();
        self.run(hardware, |hardware, com| {
            hardware.configure(com, config, descriptor, &tables)
        })
    }

    fn register(&self, page: u16, reg: u8) -> Vec<u8> {
        self.writes
            .iter()
            .rev()
            .find(|r| r.index == (page | 0x10) && r.value == (u16::from(reg) << 8 | 0x20))
            .unwrap()
            .data
            .clone()
    }
}

#[test]
fn ppm_changes_correction_registers_without_changing_resampler_divider() {
    let mut control = Fake::new();
    let descriptor = descriptor();
    let mut hardware = Hardware::default();
    for ppm in [-488, -100, 0, 100, 488] {
        control.writes.clear();
        let config = Settings {
            correction_ppm: ppm,
            ..Settings::default()
        };
        let applied = control.configure(&mut hardware, &config, &descriptor).unwrap();
        assert_eq!(applied.sample_rate_hz, 2_048_000);
        assert_eq!(
            hardware.tuner.as_ref().unwrap().crystal_hz,
            corrected_crystal(ppm)
        );
        // Osmocom's nominal 28.8 MHz / 2.048 MS/s divider is 0x03840000.
        assert_eq!(control.register(1, 0x9f), [0x03, 0x84]);
        assert_eq!(control.register(1, 0xa1), [0x00, 0x00]);
        let correction = (u16::from(control.register(1, 0x3e)[0]) << 8)
            | u16::from(control.register(1, 0x3f)[0]);
        assert_eq!(correction, correction_word(ppm));
    }
}

#[test]
fn power_clock_precedes_demod_access_and_configuration_closes_i2c_gate() {
    let mut control = Fake::new();
    let mut hardware = Hardware::default();
    let applied = control
        .configure(&mut hardware, &Settings::default(), &descriptor())
        .unwrap();
    assert_eq!(applied.sample_rate_hz, 2_048_000);
    assert!(applied.frequency_hz.abs_diff(100_000_000) < 100);
    let writes = &control.writes;
    let clock = writes
        .iter()
        .position(|r| r.value == 0x3000 && r.data == [0xe8])
        .unwrap();
    let demod = writes.iter().position(|r| r.index < 0x20).unwrap();
    assert!(clock < demod);
    let last = writes.last().unwrap();
    assert_eq!(
        (last.value, last.index, last.data.as_slice()),
        (0x0120, 0x11, &[0x10][..])
    );
    assert!(hardware.valid);
}

#[test]
fn divider_and_signed_correction_boundaries() {
    for ppm in [-488, -1, 0, 1, 488] {
        let word = correction_word(ppm);
        let signed = ((word << 2) as i16) >> 2;
        assert!((i64::from(signed) * 1_000_000 + i64::from(ppm) * (1 << 24)).abs() < 1_000_000);
        for rate in [900_001, 1_024_000, 2_048_000, 2_400_000, 3_200_000] {
            let (ratio, actual) = sample_rate(rate);
            assert_eq!(ratio & 3, 0);
            assert!(actual >= rate && actual - rate < 2);
        }
    }
}

#[test]
fn formulas_have_exact_values() {
    assert_eq!(corrected_crystal(0), 28_800_000);
    assert_eq!(corrected_crystal(488), 28_814_054);
    assert_eq!(corrected_crystal(-488), 28_785_945);
    assert_eq!(corrected_crystal(-1_000_000), 0);
    assert_eq!(corrected_crystal(-1_000_001), (-28i64) as u64);
    assert_eq!(correction_word(0), 0);
    assert_eq!(correction_word(1), 0x3ff0);
    assert_eq!(correction_word(-1), 17);
    assert_eq!(correction_word(488), 0x4000 - 8187);
    assert_eq!(sample_rate(2_048_000), (0x0384_0000, 2_048_000));
    assert_eq!(if_word(3_570_000, 28_800_000), 0x40_0000 - 519_918);
    assert_eq!(if_word(0, 28_800_000), 0);
    assert_eq!(if_word(28_800_000, 28_800_000), 0);
    for ppm in [-2_000_000, -1_234_567, -488, 0, 99, 1_000_000] {
        let exact = (28_800_000i64 * (1_000_000 + i64::from(ppm)) / 1_000_000) as u64;
        assert_eq!(corrected_crystal(ppm), exact);
        let word = (-((i64::from(ppm) * (1 << 24)).div_euclid(1_000_000)) & 0x3fff) as u16;
        assert_eq!(correction_word(ppm), word);
    }
    for rate in (900_001..=3_200_000).step_by(997) {
        let (ratio, actual) = sample_rate(rate);
        assert_eq!(ratio, ((28_800_000u64 << 22) / u64::from(rate)) as u32 & 0x0ffffffc);
        assert_eq!(actual, rate);
    }
}

#[test]
fn impossible_settings_touch_nothing() {
    let mut control = Fake::new();
    let mut hardware = Hardware::default();
    let low = Settings {
        frequency_hz: 28_799_999,
        ..Settings::default()
    };
    assert!(matches!(
        control.configure(&mut hardware, &low, &descriptor()),
        Err(Halt::Failed(Error::InvalidConfig {
            field: "frequency_hz",
            reason: "below 28.8 MHz requires Blog V4 or direct sampling",
        }))
    ));
    let direct = Settings {
        direct_sampling: DirectSampling::I,
        ..low
    };
    assert!(matches!(
        control.configure(&mut hardware, &direct, &blog_v4()),
        Err(Halt::Failed(Error::InvalidConfig {
            field: "direct_sampling",
            reason: "Blog V4 uses its upconverter; select Off",
        }))
    ));
    assert!(control.writes.is_empty());
    assert!(hardware.validate_device(&direct, &descriptor()).is_ok());
    assert!(hardware.validate_device(&low, &blog_v4()).is_ok());
}

#[test]
fn blog_v4_needs_its_tuner() {
    let mut control = Fake::new();
    let mut hardware = Hardware::default();
    assert!(matches!(
        control.configure(&mut hardware, &Settings::default(), &blog_v4()),
        Err(Halt::Failed(Error::UnsupportedTuner))
    ));
    assert!(!hardware.valid);
    control.tuner_address = 0x74;
    control
        .configure(&mut hardware, &Settings::default(), &blog_v4())
        .unwrap();
    assert_eq!(hardware.tuner.unwrap().kind, TunerKind::R828D);
    assert!(hardware.tuner.unwrap().blog_v4);
}

#[test]
fn direct_sampling_bypasses_and_returns_to_the_tuner() {
    let mut control = Fake::new();
    let mut hardware = Hardware::default();
    let direct = Settings {
        frequency_hz: 7_100_000,
        direct_sampling: DirectSampling::Q,
        ..Settings::default()
    };
    let applied = control.configure(&mut hardware, &direct, &descriptor()).unwrap();
    let expected = (((7_100_000u64 << 22) / 28_800_000) * 28_800_000) >> 22;
    assert_eq!(applied.frequency_hz, expected);
    assert!(hardware.direct);
    assert_eq!(control.register(0, 0x06), [0x90]);
    assert_eq!(control.register(0, 0x08), [0xcd]);
    assert_eq!(control.register(0, 0x19), [0x25]);
    let word = if_word(7_100_000, 28_800_000);
    assert_eq!(control.register(1, 0x19), [(word >> 16) as u8]);
    assert_eq!(control.register(1, 0x1a), [(word >> 8) as u8]);
    assert_eq!(control.register(1, 0x1b), [word as u8]);
    // The tuner was powered down once.
    let standby = |control: &Fake| {
        control
            .writes
            .iter()
            .filter(|r| r.index == 0x610 && r.data == [0x06, 0xb1])
            .count()
    };
    assert_eq!(standby(&control), 1);
    let manual = Settings {
        direct_sampling: DirectSampling::I,
        gain: GainConfig::Manual(Decibels::from_bits(0)),
        ..direct
    };
    control.configure(&mut hardware, &manual, &descriptor()).unwrap();
    assert_eq!(standby(&control), 1);
    assert_eq!(control.register(0, 0x06), [0x80]);
    assert_eq!(control.register(0, 0x19), [0x05]);
    // Above 28.8 MHz the tuner is used again.
    let above = Settings {
        frequency_hz: 30_000_000,
        ..direct
    };
    let applied = control.configure(&mut hardware, &above, &descriptor()).unwrap();
    assert!(applied.frequency_hz.abs_diff(30_000_000) < 500);
    assert!(!hardware.direct);
    assert_eq!(control.register(0, 0x08), [0x4d]);
}

#[test]
fn bias_power_follows_the_settings() {
    let mut control = Fake::new();
    let mut hardware = Hardware::default();
    for bias_tee in [true, false] {
        let config = Settings {
            bias_tee,
            ..Settings::default()
        };
        control.configure(&mut hardware, &config, &descriptor()).unwrap();
        assert_eq!(control.sys_registers[&0x3001] & 1, u8::from(bias_tee));
    }
}

#[test]
fn failed_configuration_still_closes_the_repeater_and_starts_over() {
    // Whichever write fails, the repeater is closed after it, and the next configuration succeeds.
    let mut control = Fake::new();
    control
        .configure(&mut Hardware::default(), &Settings::default(), &descriptor())
        .unwrap();
    let count = control.writes.len();
    for at in (1..count).step_by(7) {
        let mut control = Fake::new();
        control.fail_out_at = Some(at);
        let mut hardware = Hardware::default();
        let outcome = control.configure(&mut hardware, &Settings::default(), &descriptor());
        assert!(matches!(
            outcome,
            Err(Halt::Failed(Error::Transfer(TransferError::Fault)))
        ));
        assert!(!hardware.valid);
        let last = control.writes.last().unwrap();
        assert_eq!((last.value, last.index, last.data[0]), (0x0120, 0x11, 0x10));
        control.fail_out_at = None;
        control.writes.clear();
        control.reads.clear();
        control
            .configure(&mut hardware, &Settings::default(), &descriptor())
            .unwrap();
        let probe = InRequest { value: 0x34, index: 0x600, length: 1 };
        assert!(control.reads.contains(&probe));
        let first = &control.writes[0];
        assert_eq!((first.value, first.index, first.data[0]), (0x2000, 0x110, 0x09));
        assert!(hardware.valid);
    }
}

#[test]
fn a_valid_receiver_is_not_brought_up_again() {
    let mut control = Fake::new();
    let mut hardware = Hardware::default();
    control
        .configure(&mut hardware, &Settings::default(), &descriptor())
        .unwrap();
    control.writes.clear();
    control.reads.clear();
    let config = Settings {
        frequency_hz: 200_000_000,
        ..Settings::default()
    };
    let applied = control.configure(&mut hardware, &config, &descriptor()).unwrap();
    assert!(applied.frequency_hz.abs_diff(200_000_000) < 500);
    assert!(control.writes.iter().all(|r| r.value != 0x2000));
    assert!(control.reads.iter().all(|r| r.index != 0x600 || r.length != 1));
}

#[test]
fn shutdown_tries_every_step() {
    let tables = tables();
    let mut control = Fake::new();
    let mut hardware = Hardware::default();
    let config = Settings {
        bias_tee: true,
        ..Settings::default()
    };
    control.configure(&mut hardware, &config, &descriptor()).unwrap();
    hardware.receiving = true;
    let mut clean = Fake::new();
    clean.sys_registers = control.sys_registers.clone();
    let configured = hardware;
    clean
        .run(&mut hardware, |hardware, com| hardware.shutdown(com, &tables))
        .unwrap();
    let count = clean.writes.len();
    for at in 1..=count {
        let mut control = Fake::new();
        control.sys_registers.insert(0x3001, 1);
        control.fail_out_at = Some(at);
        let mut hardware = configured;
        assert!(control
            .run(&mut hardware, |hardware, com| hardware.shutdown(com, &tables))
            .is_err());
        assert!(!hardware.valid);
        assert!(!hardware.receiving);
        let last = control.writes.last().unwrap();
        assert_eq!((last.value, last.index, last.data[0]), (0x3000, 0x210, 0x20));
        assert!(control.writes.iter().any(|r| r.value == 0x3001 && r.data == [0]));
    }
}
