//! Errors returned by the RTL-SDR driver.

use nusb::transfer::TransferError;
use nusb::{Error as UsbError, ErrorKind as UsbErrorKind};
use vstd::prelude::*;
use vstd::std_specs::convert::FromSpecImpl;
use vstd::string::StringExecFns;

verus! {

/// `nusb::transfer::TransferError`, the failure of one USB transfer. Its variants are visible.
#[verifier::external_type_specification]
pub struct ExTransferError(nusb::transfer::TransferError);

/// `nusb::ErrorKind`, the category of a `nusb::Error`. Its variants are visible.
#[verifier::external_type_specification]
pub struct ExUsbErrorKind(UsbErrorKind);

/// `nusb::Error`, a USB failure outside an individual transfer. Its fields are private, so a
/// value of it is opaque here.
#[verifier::external_type_specification]
#[verifier::external_body]
pub struct ExUsbError(UsbError);

/// The category that `nusb::Error::kind` reports for an error: the value of a field that is set
/// when the error is made and never changes.
pub uninterp spec fn usb_error_kind(error: UsbError) -> UsbErrorKind;

/// `nusb::Error::kind` reads the stored category, so equal errors have equal categories.
pub assume_specification[ UsbError::kind ](error: &UsbError) -> (kind: UsbErrorKind)
    ensures
        kind == usb_error_kind(*error),
;

/// The operating system's code that `nusb::Error::os_error` reports for an error, if it has one: the
/// value of a field that is set when the error is made and never changes.
pub uninterp spec fn usb_error_code(error: UsbError) -> Option<u32>;

/// `nusb::Error::os_error` reads the stored code, so equal errors have equal codes.
pub assume_specification[ UsbError::os_error ](error: &UsbError) -> (code: Option<u32>)
    ensures
        code == usb_error_code(*error),
;

/// The `Display` text of `nusb::transfer::TransferError`. Five variants have fixed texts. The
/// text of `Unknown` holds a code in the operating system's notation, which is left open; what
/// surrounds the code is stated.
#[verifier::external_body]
fn transfer_error_text(error: &TransferError) -> (text: String)
    ensures
        *error == TransferError::Cancelled ==> text@ == "transfer was cancelled"@,
        *error == TransferError::Stall ==> text@ == "endpoint stalled"@,
        *error == TransferError::Disconnected ==> text@ == "device disconnected"@,
        *error == TransferError::Fault ==> text@ == "hardware fault or protocol violation"@,
        *error == TransferError::InvalidArgument ==> text@ == "invalid or unsupported argument"@,
        *error is Unknown ==> exists|code: Seq<char>|
            text@ == #[trigger] ("unknown ("@ + code) + ")"@,
{
    error.to_string()
}

/// The message that the `Display` text of a `nusb::Error` begins with: the value of a private field
/// that is set when the error is made and never changes.
pub uninterp spec fn usb_error_message(error: UsbError) -> Seq<char>;

/// Whether `text` is a message, followed by a code in parentheses, in some notation, where there is
/// a code.
pub open spec fn message_and_code(message: Seq<char>, code: Option<u32>, text: Seq<char>) -> bool {
    match code {
        Some(_) => exists|notation: Seq<char>|
            text == #[trigger] (message + " ("@ + notation) + ")"@,
        None => text == message,
    }
}

/// The `Display` text of `nusb::Error`: its message, followed in parentheses by the operating
/// system's code if `nusb::Error::os_error` reports one, and alone if not. Which message that is,
/// and in what notation the code is written, is left open.
#[verifier::external_body]
fn usb_error_text(error: &UsbError) -> (text: String)
    ensures
        message_and_code(usb_error_message(*error), usb_error_code(*error), text@),
{
    error.to_string()
}

/// Error returned by a RTL-SDR operation.
///
/// The variants preserve structured driver errors and the `nusb` error values. Use
/// [`Error::kind`] when only a broad, backend-independent category is needed.
#[derive(Debug)]
#[non_exhaustive]
pub enum Error {
    /// A receiver configuration value failed validation.
    InvalidConfig {
        /// Name of the invalid configuration field.
        field: &'static str,
        /// Reason the value is invalid.
        reason: &'static str,
    },
    /// No matching RTL-SDR device was found.
    DeviceNotFound,
    /// The connected tuner is not an R820T/R828D-family device.
    UnsupportedTuner,
    /// The tuner PLL failed to lock after a retry.
    PllUnlocked,
    /// Configuration failed or was canceled; reapply a complete configuration.
    ConfigurationUnknown,
    /// The logical device session has been shut down.
    DeviceClosed,
    /// The device or USB resource is already in use.
    Busy,
    /// The requested operation is not supported by the backend or device.
    Unsupported,
    /// The stream is not running or is otherwise closed.
    StreamClosed {
        /// Reason the stream is no longer usable.
        reason: &'static str,
    },
    /// The USB backend returned an error outside an individual transfer.
    Usb(UsbError),
    /// An individual USB transfer failed.
    Transfer(TransferError),
    /// A RTL-SDR operation failed with a more specific source error.
    Operation {
        /// Operation being performed when the error occurred.
        operation: &'static str,
        /// More specific driver or USB error.
        source: Box<Error>,
    },
    /// The device or driver violated the expected RTL-SDR protocol.
    Protocol {
        /// Operation that failed.
        operation: &'static str,
        /// Protocol violation or unexpected response.
        reason: &'static str,
    },
}

/// Stable error category.
#[derive(Clone, Copy, Debug, Eq, PartialEq, Structural)]
#[non_exhaustive]
pub enum ErrorKind {
    /// A provided configuration value failed validation.
    InvalidConfig,
    /// No matching RTL-SDR device was found.
    NotFound,
    /// The logical device session has been shut down.
    DeviceClosed,
    /// The physical device was disconnected from USB.
    DeviceDisconnected,
    /// The device or USB resource is already in use.
    Busy,
    /// The requested operation is not supported by the backend or device.
    Unsupported,
    /// The USB backend returned an error.
    Usb,
    /// The stream is not running or is otherwise closed.
    StreamClosed,
    /// Any other driver or backend error.
    Other,
}

/// The error underneath another one.
#[derive(Debug)]
pub enum ErrorSource<'a> {
    /// A USB backend error.
    Usb(&'a UsbError),
    /// A failed USB transfer.
    Transfer(&'a TransferError),
    /// The error that an operation failed with.
    Operation(&'a Error),
}

/// Crate result alias using [`Error`].
pub type Result<T> = core::result::Result<T, Error>;

/// The category of a USB backend error.
pub open spec fn usb_category(kind: UsbErrorKind) -> ErrorKind {
    match kind {
        UsbErrorKind::Disconnected => ErrorKind::DeviceDisconnected,
        UsbErrorKind::Busy => ErrorKind::Busy,
        UsbErrorKind::NotFound => ErrorKind::NotFound,
        UsbErrorKind::Unsupported => ErrorKind::Unsupported,
        _ => ErrorKind::Usb,
    }
}

impl Error {
    /// The error below all operation context.
    pub open spec fn innermost(self) -> Error
        decreases self,
    {
        match self {
            Error::Operation { source, .. } => source.innermost(),
            _ => self,
        }
    }

    /// The category of an error that is no operation context.
    pub open spec fn leaf_category(self) -> ErrorKind {
        match self {
            Error::InvalidConfig { .. } => ErrorKind::InvalidConfig,
            Error::DeviceNotFound => ErrorKind::NotFound,
            Error::UnsupportedTuner => ErrorKind::Unsupported,
            Error::DeviceClosed => ErrorKind::DeviceClosed,
            Error::Busy => ErrorKind::Busy,
            Error::Unsupported => ErrorKind::Unsupported,
            Error::StreamClosed { .. } => ErrorKind::StreamClosed,
            Error::Usb(error) => usb_category(usb_error_kind(error)),
            Error::Transfer(TransferError::Disconnected) => ErrorKind::DeviceDisconnected,
            Error::Transfer(_) => ErrorKind::Usb,
            _ => ErrorKind::Other,
        }
    }

    /// The category of an error: that of the error below all operation context.
    pub open spec fn category(self) -> ErrorKind {
        self.innermost().leaf_category()
    }

    /// The text of an error whose innermost USB error, if it has one, reads `detail`.
    pub open spec fn described(self, detail: Seq<char>) -> Seq<char>
        decreases self,
    {
        match self {
            Error::InvalidConfig { field, reason } => "invalid configuration for "@ + field@ + ": "@
                + reason@,
            Error::DeviceNotFound => "no matching RTL-SDR device found"@,
            Error::UnsupportedTuner => "unsupported tuner (R820T/R828D required)"@,
            Error::PllUnlocked => "tuner PLL did not lock"@,
            Error::ConfigurationUnknown =>
                "configuration is unknown; reapply a complete configuration or reopen"@,
            Error::DeviceClosed => "RTL-SDR device is closed"@,
            Error::Busy => "RTL-SDR device or USB resource is busy"@,
            Error::Unsupported => "operation is unsupported"@,
            Error::StreamClosed { reason } => "stream closed: "@ + reason@,
            Error::Usb(_) => "USB error: "@ + detail,
            Error::Transfer(_) => "USB transfer error: "@ + detail,
            Error::Operation { operation, source } => operation@ + ": "@ + source.described(detail),
            Error::Protocol { operation, reason } => operation@ + ": "@ + reason@,
        }
    }

    /// Whether `detail` is what the innermost USB error may read: exactly the fixed text of a
    /// transfer error that has one, anything in parentheses for an unknown one, the message of a
    /// backend error with its code or, if it has none, alone, and nothing where there is no USB
    /// error.
    pub open spec fn detailed_by(self, detail: Seq<char>) -> bool {
        match self.innermost() {
            Error::Transfer(TransferError::Cancelled) => detail == "transfer was cancelled"@,
            Error::Transfer(TransferError::Stall) => detail == "endpoint stalled"@,
            Error::Transfer(TransferError::Disconnected) => detail == "device disconnected"@,
            Error::Transfer(TransferError::Fault) => detail
                == "hardware fault or protocol violation"@,
            Error::Transfer(TransferError::InvalidArgument) => detail
                == "invalid or unsupported argument"@,
            Error::Transfer(TransferError::Unknown(_)) => exists|code: Seq<char>|
                detail == #[trigger] ("unknown ("@ + code) + ")"@,
            Error::Usb(error) => message_and_code(
                usb_error_message(error),
                usb_error_code(error),
                detail,
            ),
            _ => detail == Seq::<char>::empty(),
        }
    }

    /// The operating system's code of the innermost backend error, if it has one.
    pub open spec fn code(self) -> Option<u32> {
        match self.innermost() {
            Error::Usb(error) => usb_error_code(error),
            _ => None,
        }
    }

    /// Build a receiver configuration validation error.
    pub fn invalid_config(field: &'static str, reason: &'static str) -> (error: Error)
        ensures
            error == (Error::InvalidConfig { field, reason }),
    {
        Error::InvalidConfig { field, reason }
    }

    /// Build a stream lifecycle error.
    pub fn stream_closed(reason: &'static str) -> (error: Error)
        ensures
            error == (Error::StreamClosed { reason }),
    {
        Error::StreamClosed { reason }
    }

    /// Build a RTL-SDR protocol error.
    pub fn protocol(operation: &'static str, reason: &'static str) -> (error: Error)
        ensures
            error == (Error::Protocol { operation, reason }),
    {
        Error::Protocol { operation, reason }
    }

    /// Attach driver-operation context while preserving the source error.
    pub fn at(self, operation: &'static str) -> (error: Error)
        ensures
            error == (Error::Operation { operation, source: Box::new(self) }),
    {
        Error::Operation { operation, source: Box::new(self) }
    }

    /// Return a broad, backend-independent error category.
    pub fn kind(&self) -> (kind: ErrorKind)
        ensures
            kind == self.category(),
        decreases self,
    {
        match self {
            Error::InvalidConfig { .. } => ErrorKind::InvalidConfig,
            Error::DeviceNotFound => ErrorKind::NotFound,
            Error::UnsupportedTuner => ErrorKind::Unsupported,
            Error::PllUnlocked | Error::ConfigurationUnknown => ErrorKind::Other,
            Error::DeviceClosed => ErrorKind::DeviceClosed,
            Error::Busy => ErrorKind::Busy,
            Error::Unsupported => ErrorKind::Unsupported,
            Error::StreamClosed { .. } => ErrorKind::StreamClosed,
            Error::Usb(error) => match error.kind() {
                UsbErrorKind::Disconnected => ErrorKind::DeviceDisconnected,
                UsbErrorKind::Busy => ErrorKind::Busy,
                UsbErrorKind::NotFound => ErrorKind::NotFound,
                UsbErrorKind::Unsupported => ErrorKind::Unsupported,
                _ => ErrorKind::Usb,
            },
            Error::Transfer(TransferError::Disconnected) => ErrorKind::DeviceDisconnected,
            Error::Transfer(_) => ErrorKind::Usb,
            Error::Operation { source, .. } => source.kind(),
            Error::Protocol { .. } => ErrorKind::Other,
        }
    }

    /// The operating system's code of the innermost backend error, if it has one. The text of the
    /// error ends with the message of the backend if there is none, and with the code if there is.
    pub fn os_error(&self) -> (code: Option<u32>)
        ensures
            code == self.code(),
        decreases self,
    {
        match self {
            Error::Usb(error) => error.os_error(),
            Error::Operation { source, .. } => source.os_error(),
            _ => None,
        }
    }

    /// The error that this one wraps, if any.
    pub fn source(&self) -> (source: Option<ErrorSource<'_>>)
        ensures
            source == match *self {
                Error::Usb(error) => Some(ErrorSource::Usb(&error)),
                Error::Transfer(error) => Some(ErrorSource::Transfer(&error)),
                Error::Operation { source, .. } => Some(ErrorSource::Operation(&*source)),
                _ => None,
            },
    {
        match self {
            Error::Usb(error) => Some(ErrorSource::Usb(error)),
            Error::Transfer(error) => Some(ErrorSource::Transfer(error)),
            Error::Operation { source, .. } => Some(ErrorSource::Operation(source)),
            _ => None,
        }
    }

    /// The text of the error, given what its innermost USB error reads.
    pub fn describe(&self, detail: &str) -> (text: String)
        ensures
            text@ == self.described(detail@),
        decreases self,
    {
        match self {
            Error::InvalidConfig { field, reason } => "invalid configuration for ".to_owned()
                .concat(field).concat(": ").concat(reason),
            Error::DeviceNotFound => "no matching RTL-SDR device found".to_owned(),
            Error::UnsupportedTuner => "unsupported tuner (R820T/R828D required)".to_owned(),
            Error::PllUnlocked => "tuner PLL did not lock".to_owned(),
            Error::ConfigurationUnknown =>
                "configuration is unknown; reapply a complete configuration or reopen".to_owned(),
            Error::DeviceClosed => "RTL-SDR device is closed".to_owned(),
            Error::Busy => "RTL-SDR device or USB resource is busy".to_owned(),
            Error::Unsupported => "operation is unsupported".to_owned(),
            Error::StreamClosed { reason } => "stream closed: ".to_owned().concat(reason),
            Error::Usb(_) => "USB error: ".to_owned().concat(detail),
            Error::Transfer(_) => "USB transfer error: ".to_owned().concat(detail),
            Error::Operation { operation, source } => {
                let inner = source.describe(detail);
                (*operation).to_owned().concat(": ").concat(inner.as_str())
            },
            Error::Protocol { operation, reason } => (*operation).to_owned().concat(": ").concat(
                reason,
            ),
        }
    }

    /// What the innermost USB error reads; empty if there is none.
    pub fn detail(&self) -> (detail: String)
        ensures
            self.detailed_by(detail@),
        decreases self,
    {
        match self {
            Error::Usb(error) => usb_error_text(error),
            Error::Transfer(error) => transfer_error_text(error),
            Error::Operation { source, .. } => source.detail(),
            _ => String::new(),
        }
    }

    /// The text of the error.
    pub fn message(&self) -> (text: String)
        ensures
            exists|detail: Seq<char>|
                self.detailed_by(detail) && text@ == #[trigger] self.described(detail),
    {
        let detail = self.detail();
        self.describe(detail.as_str())
    }
}

impl From<UsbError> for Error {
    fn from(value: UsbError) -> (error: Self) {
        Error::Usb(value)
    }
}

impl FromSpecImpl<UsbError> for Error {
    open spec fn obeys_from_spec() -> bool {
        true
    }

    open spec fn from_spec(value: UsbError) -> Self {
        Error::Usb(value)
    }
}

impl From<TransferError> for Error {
    fn from(value: TransferError) -> (error: Self) {
        Error::Transfer(value)
    }
}

impl FromSpecImpl<TransferError> for Error {
    open spec fn obeys_from_spec() -> bool {
        true
    }

    open spec fn from_spec(value: TransferError) -> Self {
        Error::Transfer(value)
    }
}

/// What a backend error reads is its message alone exactly if it has no code.
pub proof fn only_a_code_follows_the_message(error: UsbError, detail: Seq<char>)
    requires
        Error::Usb(error).detailed_by(detail),
    ensures
        detail == usb_error_message(error) <==> Error::Usb(error).code() is None,
        usb_error_message(error).is_prefix_of(detail),
{
    let message = usb_error_message(error);
    if usb_error_code(error) is Some {
        let notation = choose|notation: Seq<char>|
            detail == #[trigger] (message + " ("@ + notation) + ")"@;
        reveal_strlit(")");
        assert(detail.len() > message.len());
        assert(detail.take(message.len() as int) =~= message);
    }
}

/// Operation context changes neither the category of an error nor what its USB detail reads.
pub proof fn context_preserves_category(error: Error, operation: &'static str)
    ensures
        (Error::Operation { operation, source: Box::new(error) }).category() == error.category(),
        forall|detail: Seq<char>|
            (Error::Operation { operation, source: Box::new(error) }).detailed_by(detail)
                == error.detailed_by(detail),
{
    assert((Error::Operation { operation, source: Box::new(error) }).innermost()
        == error.innermost());
}

/// Operation context changes neither the category nor the code of an error, and stands before its
/// text.
pub proof fn context_keeps_the_cause(error: Error, operation: &'static str, detail: Seq<char>)
    ensures
        ({
            let context = Error::Operation { operation, source: Box::new(error) };
            &&& context.category() == error.category()
            &&& context.code() == error.code()
            &&& context.innermost() == error.innermost()
            &&& context.detailed_by(detail) == error.detailed_by(detail)
            &&& context.described(detail) == operation@ + ": "@ + error.described(detail)
        }),
{
}

/// A lost device is told apart from every other USB failure, whether a transfer or the backend
/// reports it, and so are a busy and a missing one from the backend. No other error counts as a lost
/// device.
pub proof fn lost_devices_are_told_apart(error: Error)
    requires
        !(error is Operation),
    ensures
        error.category() == ErrorKind::DeviceDisconnected <==> (error == Error::Transfer(
            TransferError::Disconnected,
        ) || error is Usb && usb_error_kind(error->Usb_0) == UsbErrorKind::Disconnected),
        error.category() == ErrorKind::Busy <==> (error == Error::Busy || error is Usb
            && usb_error_kind(error->Usb_0) == UsbErrorKind::Busy),
        error.category() == ErrorKind::NotFound <==> (error == Error::DeviceNotFound || error is Usb
            && usb_error_kind(error->Usb_0) == UsbErrorKind::NotFound),
        error.category() == ErrorKind::Unsupported <==> (error == Error::Unsupported || error
            == Error::UnsupportedTuner || error is Usb && usb_error_kind(error->Usb_0)
            == UsbErrorKind::Unsupported),
        error.category() == ErrorKind::InvalidConfig <==> error is InvalidConfig,
        error.category() == ErrorKind::DeviceClosed <==> error is DeviceClosed,
        error.category() == ErrorKind::StreamClosed <==> error is StreamClosed,
        error.category() == ErrorKind::Other <==> error is PllUnlocked
            || error is ConfigurationUnknown || error is Protocol,
{
}

} // verus!
