use rtlsdr_nusb::config::Settings;
use rtlsdr_nusb::device::ConfigureOperation;
use rtlsdr_nusb::discovery::UsbIdentity;
use rtlsdr_nusb::protocol::{Halt, Reply, Request};
use rtlsdr_nusb::session::{ClaimAvailability, DeviceLifecycle, Session};
use rtlsdr_nusb::tuners::registers::RegisterTables;
use rtlsdr_nusb::{
    Config, Device, DeviceDescriptor, DirectSampling, Error, F32Iq, GainConfig, Result,
    SampleFormat, TunerKind,
};

fn tables() -> RegisterTables {
    RegisterTables::new(
        [0x80; 27],
        vec![],
        vec![],
        vec![(0x06, 0xb1, 0xff)],
        vec![(0, 8, 0x02, 0xdf)],
        vec![(0, 8, 0x02, 0xdf)],
    )
    .unwrap()
}

fn perform(request: Request) -> Reply {
    let Request::In(read) = request else {
        return Ok(vec![]);
    };
    let mut data = vec![0; usize::from(read.length)];
    if read.index == 0x600 && read.value == 0x34 {
        data[0] = 0x69;
        if data.len() >= 3 {
            data[2] = 0x40u8.reverse_bits();
        }
        if data.len() >= 5 {
            data[4] = 0x20u8.reverse_bits();
        }
    }
    Ok(data)
}

fn open() -> (Session, Device<F32Iq>) {
    let tables = tables();
    let mut session = Session::new(DeviceDescriptor {
        index: 0,
        vid: 0x0bda,
        pid: 0x2838,
        serial: Some("7".to_owned()),
        manufacturer: None,
        product: None,
    });
    let config = Config::builder().build().unwrap();
    let mut operation = session.configure(config.settings()).unwrap();
    while let Some(request) = session.pending(&operation, &tables) {
        operation.reply(perform(request));
    }
    let applied = session.finish(operation, &tables).unwrap().unwrap();
    let applied = session.conclude_initialization(Ok(applied)).unwrap();
    let device = Device::opened(&session, config, applied).unwrap();
    (session, device)
}

fn apply(
    session: &mut Session,
    device: &mut Device<F32Iq>,
    operation: Result<ConfigureOperation<F32Iq>>,
) -> Result<()> {
    let tables = tables();
    let mut operation = operation?;
    while let Some(request) = session.pending(operation.control(), &tables) {
        operation.reply(perform(request));
    }
    match device.conclude_configure(session, operation, &tables) {
        Ok(()) => Ok(()),
        Err(Halt::Failed(error)) => Err(error),
        Err(Halt::Waiting) => panic!("an operation without a pending request waits"),
    }
}

#[test]
fn setters_keep_the_other_settings() {
    let (mut session, mut device) = open();
    let mut expected = Settings::default();
    let operation = device.set_frequency_hz(&mut session, 150_000_000);
    apply(&mut session, &mut device, operation).unwrap();
    expected.frequency_hz = 150_000_000;
    assert_eq!(device.config().settings(), expected);
    let operation = device.set_sample_rate_hz(&mut session, 1_024_000);
    apply(&mut session, &mut device, operation).unwrap();
    expected.sample_rate_hz = 1_024_000;
    assert_eq!(device.config().settings(), expected);
    let operation = device.set_gain(&mut session, GainConfig::Auto);
    apply(&mut session, &mut device, operation).unwrap();
    let operation = device.set_correction_ppm(&mut session, 20);
    apply(&mut session, &mut device, operation).unwrap();
    expected.correction_ppm = 20;
    let operation = device.set_bias_tee(&mut session, true);
    apply(&mut session, &mut device, operation).unwrap();
    expected.bias_tee = true;
    let operation = device.set_direct_sampling(&mut session, DirectSampling::I);
    apply(&mut session, &mut device, operation).unwrap();
    expected.direct_sampling = DirectSampling::I;
    assert_eq!(device.config().settings(), expected);
    assert_eq!(device.actual_sample_rate_hz(), 1_024_000);
    assert!(device.actual_frequency_hz().abs_diff(150_000_000) < 500);
    assert_eq!(device.info().tuner, TunerKind::R820T);
    assert_eq!(device.info().descriptor.serial.as_deref(), Some("7"));
    assert_eq!(device.info().clone(), *device.info());
}

#[test]
fn failed_updates_leave_the_snapshot_alone() {
    let (mut session, mut device) = open();
    let rejected = device.set_frequency_hz(&mut session, 0);
    assert!(matches!(
        apply(&mut session, &mut device, rejected),
        Err(Error::InvalidConfig { field: "frequency_hz", .. })
    ));
    // Below 28.8 MHz the board refuses, and stays configured.
    let rejected = device.set_frequency_hz(&mut session, 1_000_000);
    assert!(matches!(
        apply(&mut session, &mut device, rejected),
        Err(Error::InvalidConfig { field: "frequency_hz", .. })
    ));
    assert_eq!(device.config().settings(), Settings::default());
    assert!(session.ensure_configured().is_ok());
    // A dropped update leaves the configuration unknown until a complete one.
    let dropped = device.set_frequency_hz(&mut session, 200_000_000).unwrap();
    assert!(matches!(
        device.set_gain(&mut session, GainConfig::Auto),
        Err(Error::Busy)
    ));
    assert!(matches!(
        device.conclude_configure(&mut session, dropped, &tables()),
        Err(Halt::Waiting)
    ));
    assert_eq!(device.config().settings(), Settings::default());
    assert!(matches!(device.rx_stream(&mut session), Err(Error::ConfigurationUnknown)));
    let config = *device.config();
    let operation = device.configure(&mut session, &config);
    apply(&mut session, &mut device, operation).unwrap();
    assert!(device.rx_stream(&mut session).is_ok());
}

#[test]
fn streams_and_shutdown_exclude_each_other() {
    let (mut session, mut device) = open();
    let stream = device.rx_stream(&mut session).unwrap();
    assert!(matches!(device.rx_stream(&mut session), Err(Error::Busy)));
    assert!(matches!(device.shutdown(&mut session), Err(Error::Busy)));
    assert_eq!(session.state().device, DeviceLifecycle::Open);
    assert_eq!(session.state().claim, ClaimAvailability::Held);
    let (mut claim, _) = stream.close();
    assert!(!claim.begin_stop());
    claim.conclude_close(&mut session, Ok(())).unwrap();
    let tables = tables();
    let mut operation = device.shutdown(&mut session).unwrap().unwrap();
    while let Some(request) = session.pending(&operation, &tables) {
        operation.reply(perform(request));
    }
    assert!(session.finish(operation, &tables).is_ok());
    assert!(device.shutdown(&mut session).unwrap().is_none());
    assert!(matches!(device.rx_stream(&mut session), Err(Error::DeviceClosed)));
    assert!(matches!(
        device.set_bias_tee(&mut session, true),
        Err(Error::DeviceClosed)
    ));
}

#[test]
fn builders_select_and_configure() {
    let request = Device::builder()
        .serial("1".to_owned())
        .index(3)
        .frequency_hz(90_000_000)
        .sample_rate_hz(1_000_000)
        .gain(GainConfig::Auto)
        .correction_ppm(1)
        .bias_tee(true)
        .direct_sampling(DirectSampling::Q)
        .open()
        .unwrap();
    // The index replaces the serial string, and the other way round.
    assert_eq!(request.selector.index, Some(3));
    assert_eq!(request.selector.serial, None);
    assert_eq!(
        request.config.settings(),
        Settings {
            frequency_hz: 90_000_000,
            sample_rate_hz: 1_000_000,
            gain: GainConfig::Auto,
            correction_ppm: 1,
            bias_tee: true,
            direct_sampling: DirectSampling::Q,
        }
    );
    let builder = Device::builder().index(3).usb_id(1, 2).serial("1".to_owned());
    assert_eq!(builder.selector().permission_ids(), [(1, 2)]);
    let request = builder.clone().raw_iq().open().unwrap();
    assert_eq!(request.selector.index, None);
    assert_eq!(request.selector.serial.as_deref(), Some("1"));
    assert_eq!(request.selector.usb_id, Some((1, 2)));
    assert_eq!(request.config.sample_format(), SampleFormat::RawIq);
    // Which device is selected does not depend on a valid configuration.
    assert_eq!(builder.clone().frequency_hz(0).selector().usb_id, Some((1, 2)));
    assert!(builder.frequency_hz(0).config().is_err());
    assert!(Device::builder().sample_rate_hz(1).open().is_err());
    assert!(Device::open().unwrap().selector.serial.is_none());
    let by_serial = Device::open_serial("9".to_owned()).unwrap();
    assert_eq!(by_serial.selector.serial.as_deref(), Some("9"));
}

#[test]
fn visible_receivers_are_listed() {
    let found = vec![UsbIdentity {
        vid: 0x0bda,
        pid: 0x2838,
        serial: None,
        manufacturer: None,
        product: None,
    }];
    assert_eq!(Device::list(&found).len(), 1);
}
