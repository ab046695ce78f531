use nusb::transfer::TransferError;
use nusb::MaybeFuture;
use rtlsdr_nusb::{Error, ErrorKind, ErrorSource};

#[test]
fn transfer_errors_preserve_their_source_and_are_not_configuration_errors() {
    let err = Error::from(TransferError::InvalidArgument);

    assert!(matches!(&err, Error::Transfer(TransferError::InvalidArgument)));
    assert_eq!(err.kind(), ErrorKind::Usb);
    assert!(err.source().is_some());
}

#[test]
fn transfer_disconnects_have_their_own_error_category() {
    let err = Error::from(TransferError::Disconnected);

    assert_eq!(err.kind(), ErrorKind::DeviceDisconnected);
    assert!(err.source().is_some());
}

#[test]
fn configuration_errors_expose_the_field_and_reason() {
    let err = Error::invalid_config("frequency_hz", "must be nonzero");

    assert!(matches!(
        &err,
        Error::InvalidConfig {
            field: "frequency_hz",
            reason: "must be nonzero"
        }
    ));
    assert_eq!(err.kind(), ErrorKind::InvalidConfig);
}

#[test]
fn operation_context_preserves_source_category() {
    let err = Error::from(TransferError::Fault).at("applying receiver configuration");

    assert_eq!(err.kind(), ErrorKind::Usb);
    assert!(err
        .message()
        .starts_with("applying receiver configuration: USB transfer error:"));
    assert!(err.source().is_some());
}

#[test]
fn operation_context_preserves_disconnect_category() {
    let err = Error::from(TransferError::Disconnected).at("reading receiver samples");

    assert_eq!(err.kind(), ErrorKind::DeviceDisconnected);
    assert!(err.source().is_some());
}

#[test]
fn closed_device_has_its_own_error_category() {
    assert_eq!(Error::DeviceClosed.kind(), ErrorKind::DeviceClosed);
    assert_eq!(Error::DeviceClosed.message(), "RTL-SDR device is closed");
}

#[test]
fn every_error_has_its_category_and_text() {
    let cases = [
        (
            Error::invalid_config("gain", "too high"),
            ErrorKind::InvalidConfig,
            "invalid configuration for gain: too high",
        ),
        (Error::DeviceNotFound, ErrorKind::NotFound, "no matching RTL-SDR device found"),
        (
            Error::UnsupportedTuner,
            ErrorKind::Unsupported,
            "unsupported tuner (R820T/R828D required)",
        ),
        (Error::PllUnlocked, ErrorKind::Other, "tuner PLL did not lock"),
        (
            Error::ConfigurationUnknown,
            ErrorKind::Other,
            "configuration is unknown; reapply a complete configuration or reopen",
        ),
        (Error::Busy, ErrorKind::Busy, "RTL-SDR device or USB resource is busy"),
        (Error::Unsupported, ErrorKind::Unsupported, "operation is unsupported"),
        (Error::stream_closed("stopped"), ErrorKind::StreamClosed, "stream closed: stopped"),
        (
            Error::protocol("control read", "short USB response"),
            ErrorKind::Other,
            "control read: short USB response",
        ),
        (
            Error::Transfer(TransferError::Stall),
            ErrorKind::Usb,
            "USB transfer error: endpoint stalled",
        ),
        (
            Error::Transfer(TransferError::Cancelled),
            ErrorKind::Usb,
            "USB transfer error: transfer was cancelled",
        ),
        (
            Error::Transfer(TransferError::InvalidArgument),
            ErrorKind::Usb,
            "USB transfer error: invalid or unsupported argument",
        ),
        (
            Error::Transfer(TransferError::Disconnected).at("reading").at("receiving"),
            ErrorKind::DeviceDisconnected,
            "receiving: reading: USB transfer error: device disconnected",
        ),
    ];
    for (error, kind, text) in cases {
        assert_eq!(error.kind(), kind);
        assert_eq!(error.message(), text);
    }
}

#[test]
fn unknown_transfer_errors_show_their_code() {
    let text = Error::Transfer(TransferError::Unknown(19)).message();
    assert!(text.starts_with("USB transfer error: unknown ("));
    assert!(text.ends_with(')'));
}

#[test]
fn sources_are_the_wrapped_errors() {
    let context = Error::Busy.at("opening");
    assert!(matches!(
        context.source(),
        Some(ErrorSource::Operation(Error::Busy))
    ));
    assert!(matches!(
        Error::Transfer(TransferError::Fault).source(),
        Some(ErrorSource::Transfer(TransferError::Fault))
    ));
    assert!(Error::Busy.source().is_none());
}

#[test]
fn usb_errors_keep_their_category_and_text() {
    // A pipe is no USB device.
    let (reader, writer) = std::io::pipe().unwrap();
    drop(writer);
    let usb = nusb::Device::from_fd(reader.into()).wait().unwrap_err();
    let expected = match usb.kind() {
        nusb::ErrorKind::Disconnected => ErrorKind::DeviceDisconnected,
        nusb::ErrorKind::Busy => ErrorKind::Busy,
        nusb::ErrorKind::NotFound => ErrorKind::NotFound,
        nusb::ErrorKind::Unsupported => ErrorKind::Unsupported,
        _ => ErrorKind::Usb,
    };
    let text = usb.to_string();
    let code = usb.os_error();
    let error = Error::from(usb);
    assert_eq!(error.os_error(), code);
    assert_eq!(error.kind(), expected);
    assert_eq!(error.message(), format!("USB error: {text}"));
    assert!(matches!(error.source(), Some(ErrorSource::Usb(_))));
    let context = error.at("opening USB device");
    assert_eq!(context.kind(), expected);
    assert_eq!(context.os_error(), code);
    assert_eq!(Error::Busy.os_error(), None);
    // A code stands in parentheses behind the message.
    assert!(code.is_none() || text.contains(" (") && text.ends_with(')'));
    assert_eq!(context.message(), format!("opening USB device: USB error: {text}"));
}
