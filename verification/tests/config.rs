use rtlsdr_nusb::config::{Decibels, GainSteps, Settings, MAX_GAIN_STEPS};
use rtlsdr_nusb::{
    Config, DirectSampling, Error, F32Iq, GainConfig, RawIq, SampleFormat, SampleMode,
};

fn manual(db: f32) -> GainConfig {
    GainConfig::Manual(Decibels::from_bits(db.to_bits()))
}

#[test]
fn invalid_settings_are_rejected_before_open() {
    for hz in [0, 1_766_000_001, u64::MAX] {
        assert!(Config::builder().frequency_hz(hz).build().is_err());
    }
    for rate in [0, 900_000, 3_200_001, u32::MAX] {
        assert!(Config::builder().sample_rate_hz(rate).build().is_err());
    }
    for gain in [f32::NAN, f32::INFINITY, -0.1, 52.6] {
        assert!(Config::builder().gain(manual(gain)).build().is_err());
    }
    for ppm in [-489, 489, i32::MIN, i32::MAX] {
        assert!(Config::builder().correction_ppm(ppm).build().is_err());
    }
}

#[test]
fn sample_rate_limits_are_independent_of_ppm() {
    for ppm in [-488, -100, 0, 100, 488] {
        for (rate, accepted) in [
            (900_000, false),
            (900_001, true),
            (3_200_000, true),
            (3_200_001, false),
        ] {
            assert_eq!(
                Config::builder()
                    .sample_rate_hz(rate)
                    .correction_ppm(ppm)
                    .build()
                    .is_ok(),
                accepted
            );
        }
    }
}

#[test]
fn first_invalid_field_is_reported() {
    let config = Config::builder()
        .frequency_hz(0)
        .sample_rate_hz(0)
        .gain(manual(f32::NAN))
        .correction_ppm(1000);
    assert!(matches!(
        config.build(),
        Err(Error::InvalidConfig {
            field: "frequency_hz",
            reason: "must be in 1..=1766000000; the actual minimum depends on the tuner and direct sampling",
        })
    ));
    assert!(matches!(
        config.frequency_hz(1).build(),
        Err(Error::InvalidConfig { field: "sample_rate_hz", reason: "must be in 900001..=3200000 samples/s" })
    ));
    assert!(matches!(
        config.frequency_hz(1).sample_rate_hz(1_000_000).build(),
        Err(Error::InvalidConfig { field: "gain", reason: "manual gain must be finite and in 0..=52.5 dB" })
    ));
    assert!(matches!(
        config
            .frequency_hz(1)
            .sample_rate_hz(1_000_000)
            .gain(GainConfig::Auto)
            .build(),
        Err(Error::InvalidConfig {
            field: "correction_ppm",
            reason: "must be in -488..=488 for the signed 14-bit correction register",
        })
    ));
}

#[test]
fn builder_sets_every_field() {
    let config = Config::builder()
        .frequency_hz(1_000_000)
        .sample_rate_hz(1_024_000)
        .gain(manual(12.5))
        .correction_ppm(-7)
        .bias_tee(true)
        .direct_sampling(DirectSampling::Q)
        .build()
        .unwrap();
    assert_eq!(config.frequency_hz(), 1_000_000);
    assert_eq!(config.sample_rate_hz(), 1_024_000);
    assert_eq!(config.gain(), manual(12.5));
    assert_eq!(config.correction_ppm(), -7);
    assert!(config.bias_tee());
    assert_eq!(config.direct_sampling(), DirectSampling::Q);
    assert_eq!(config.sample_format(), SampleFormat::F32Iq);
    let raw = Config::builder().raw_iq().build().unwrap();
    assert_eq!(raw.sample_format(), SampleFormat::RawIq);
    assert_eq!(raw.settings(), Settings::default());
    assert_eq!(Settings::default().frequency_hz, 100_000_000);
    assert_eq!(Settings::default().sample_rate_hz, 2_048_000);
}

#[test]
fn the_last_value_counts_in_any_order() {
    let config = Config::builder()
        .gain(manual(3.0))
        .frequency_hz(1)
        .bias_tee(true)
        .raw_iq()
        .frequency_hz(2)
        .bias_tee(false)
        .correction_ppm(5)
        .build()
        .unwrap();
    assert_eq!(config.frequency_hz(), 2);
    assert_eq!(config.gain(), manual(3.0));
    assert_eq!(config.correction_ppm(), 5);
    assert!(!config.bias_tee());
    assert_eq!(config.sample_rate_hz(), 2_048_000);
    assert_eq!(config.direct_sampling(), DirectSampling::Off);
    assert_eq!(config.sample_format(), SampleFormat::RawIq);
}

#[test]
fn modes_have_formats_and_configurations_are_compared() {
    assert_eq!(RawIq::FORMAT, SampleFormat::RawIq);
    assert_eq!(F32Iq::FORMAT, SampleFormat::F32Iq);
    assert_eq!(RawIq::default(), RawIq);
    assert_eq!(F32Iq::default(), F32Iq);
    let config: Config = Config::default();
    assert_eq!(config, Config::builder().build().unwrap());
    assert_ne!(config, Config::builder().bias_tee(true).build().unwrap());
}

#[test]
fn gains_are_compared_as_single_precision_values() {
    let build = |db: f32| Config::builder().gain(manual(db)).build().unwrap();
    let values = [0.0, -0.0, 1.0e-10, 1.0e-30, 2.3, 52.5];
    for a in values {
        for b in values {
            assert_eq!(build(a) == build(b), a == b, "{a} {b}");
        }
        assert_ne!(build(a), Config::default());
        // The value is kept to its last bit.
        assert!(matches!(
            build(a).gain(),
            GainConfig::Manual(gain) if gain.bits == a.to_bits()
        ));
    }
    for (a, b) in [(f32::NAN, f32::NAN), (f32::NAN, 1.0), (f32::INFINITY, f32::INFINITY)] {
        assert_eq!(manual(a) == manual(b), a == b, "{a} {b}");
    }
    assert_ne!(manual(f32::INFINITY), manual(f32::NEG_INFINITY));
    assert_eq!(GainConfig::Auto, GainConfig::default());
}

#[test]
fn gains_are_taken_from_single_precision_values() {
    let steps = |db: f32| Decibels::from_bits(db.to_bits()).to_steps();
    assert_eq!(steps(0.0), GainSteps::Steps(0));
    assert_eq!(steps(-0.0), GainSteps::Steps(0));
    assert_eq!(steps(1.0), GainSteps::Steps(1 << 22));
    assert_eq!(steps(3.5), GainSteps::Steps(14_680_064));
    assert_eq!(steps(2.3), GainSteps::Steps(9_646_899));
    assert_eq!(steps(52.5), GainSteps::Steps(MAX_GAIN_STEPS));
    assert_eq!(steps(-1.0e-30), GainSteps::Steps(-1));
    assert_eq!(steps(1.0e-30), GainSteps::Steps(0));
    assert_eq!(steps(f32::MIN_POSITIVE), GainSteps::Steps(0));
    assert_eq!(steps(f32::NAN), GainSteps::NotANumber);
    assert_eq!(steps(f32::INFINITY), GainSteps::Steps(i64::MAX));
    assert_eq!(steps(f32::NEG_INFINITY), GainSteps::Steps(i64::MIN));
    assert_eq!(steps(f32::MAX), GainSteps::Steps(i64::MAX));
    // Every step count below 2^24 is an exact single precision value.
    for count in (0..1i64 << 24).step_by(65_521) {
        let db = count as f32 / 4_194_304.0;
        assert_eq!(steps(db), GainSteps::Steps(count));
    }
}
