use nusb::MaybeFuture;
use rtlsdr_nusb::discovery::{Selector, UsbIdentity};
use rtlsdr_nusb::usb::{OpenOperation, OpenStage, DEFAULT_LANGUAGE};
use rtlsdr_nusb::Error;

fn found(manufacturer: Option<&str>, product: Option<&str>) -> Vec<UsbIdentity> {
    vec![UsbIdentity {
        vid: 0x0bda,
        pid: 0x2838,
        serial: None,
        manufacturer: manufacturer.map(str::to_owned),
        product: product.map(str::to_owned),
    }]
}

fn selected(manufacturer: Option<&str>, product: Option<&str>) -> OpenOperation {
    let (operation, at) =
        OpenOperation::select(&Selector::default(), &found(manufacturer, product)).unwrap();
    assert_eq!(at, 0);
    assert_eq!(operation.stage, OpenStage::Device);
    operation
}

#[test]
fn a_device_in_its_configuration_is_claimed_directly() {
    let open = selected(Some("a"), Some("b")).opened(Ok(Some(1))).unwrap();
    assert_eq!(open.stage, OpenStage::Interface);
    let open = open.claimed(Ok((Some(1), Some(2)))).unwrap();
    assert_eq!(open.stage, OpenStage::Opened);
    assert_eq!(open.descriptor.manufacturer.as_deref(), Some("a"));
    assert_eq!(open.descriptor.product.as_deref(), Some("b"));
}

#[test]
fn another_configuration_is_replaced() {
    for active in [None, Some(0), Some(2)] {
        let open = selected(None, None).opened(Ok(active)).unwrap();
        assert_eq!(open.stage, OpenStage::Configuration);
        assert_eq!(open.configured(Ok(())).unwrap().stage, OpenStage::Interface);
    }
}

#[test]
fn missing_branding_is_read_in_the_first_language() {
    let open = selected(None, None).opened(Ok(Some(1))).unwrap();
    let open = open.claimed(Ok((Some(1), Some(2)))).unwrap();
    assert_eq!(
        open.stage,
        OpenStage::Languages {
            manufacturer: Some(1),
            product: Some(2)
        }
    );
    let open = open.languages(Some(0x0407));
    assert_eq!(
        open.stage,
        OpenStage::Manufacturer {
            index: 1,
            language: 0x0407,
            product: Some(2)
        }
    );
    let open = open.string(Some("RTLSDRBlog".to_owned()));
    assert_eq!(
        open.stage,
        OpenStage::Product {
            index: 2,
            language: 0x0407
        }
    );
    let open = open.string(Some("Blog V4".to_owned()));
    assert_eq!(open.stage, OpenStage::Opened);
    assert!(open.descriptor.blog_v4());
}

#[test]
fn only_what_is_missing_is_read() {
    let open = selected(Some("RTLSDRBlog"), None).opened(Ok(Some(1))).unwrap();
    let open = open.claimed(Ok((Some(1), Some(2)))).unwrap().languages(None);
    assert_eq!(
        open.stage,
        OpenStage::Product {
            index: 2,
            language: DEFAULT_LANGUAGE
        }
    );
    // A string that cannot be read stays unknown.
    let open = open.string(None);
    assert_eq!(open.stage, OpenStage::Opened);
    assert_eq!(open.descriptor.product, None);
    assert_eq!(open.descriptor.manufacturer.as_deref(), Some("RTLSDRBlog"));
    // A device that has no such strings is not asked.
    let open = selected(None, None).opened(Ok(Some(1))).unwrap();
    assert_eq!(open.claimed(Ok((None, None))).unwrap().stage, OpenStage::Opened);
    assert_eq!(DEFAULT_LANGUAGE, nusb::descriptors::language_id::US_ENGLISH);
}

#[test]
fn no_matching_device_is_an_error() {
    let none: Vec<UsbIdentity> = Vec::new();
    assert!(matches!(
        OpenOperation::select(&Selector::default(), &none),
        Err(Error::DeviceNotFound)
    ));
}

#[test]
fn failed_steps_name_what_failed() {
    // A pipe is no USB device.
    let (reader, writer) = std::io::pipe().unwrap();
    drop(writer);
    let usb = nusb::Device::from_fd(reader.into()).wait().unwrap_err();
    let opening = selected(None, None).opened(Err(usb.clone())).unwrap_err();
    let selecting = selected(None, None).configured(Err(usb.clone())).unwrap_err();
    let claiming = selected(None, None).claimed(Err(usb.clone())).unwrap_err();
    for (error, text) in [
        (opening, "opening USB device"),
        (selecting, "selecting USB configuration 1"),
        (claiming, "claiming RTL-SDR USB interface 0"),
    ] {
        assert!(matches!(&error, Error::Operation { operation, .. } if *operation == text));
        assert_eq!(error.message(), format!("{text}: USB error: {usb}"));
    }
}
