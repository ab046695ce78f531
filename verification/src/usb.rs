//! What opening a USB device takes. The caller performs each step, and hands the result back.

use crate::discovery;
use crate::discovery::{Description, DeviceDescriptor, Identity, Selector, UsbIdentity};
use crate::errors::{Error, Result};
use nusb::Error as UsbError;
use vstd::prelude::*;

verus! {

/// The configuration that receivers are used in.
pub const CONFIGURATION: u8 = 1;

/// The interface that receivers are controlled through.
pub const INTERFACE: u8 = 0;

/// Language of strings where the device names none: US English.
pub const DEFAULT_LANGUAGE: u16 = 0x0409;

/// What to do next to open a device.
#[derive(Clone, Copy, Debug, Eq, PartialEq, Structural)]
pub enum OpenStage {
    /// Open the selected device.
    Device,
    /// Select [`CONFIGURATION`].
    Configuration,
    /// Claim [`INTERFACE`].
    Interface,
    /// Read the languages of its strings.
    Languages {
        /// The string that holds the manufacturer, if it is to be read.
        manufacturer: Option<u8>,
        /// The string that holds the product, if it is to be read.
        product: Option<u8>,
    },
    /// Read the manufacturer string.
    Manufacturer {
        /// The string to read.
        index: u8,
        /// The language to read it in.
        language: u16,
        /// The string that holds the product, if it is to be read.
        product: Option<u8>,
    },
    /// Read the product string.
    Product {
        /// The string to read.
        index: u8,
        /// The language to read it in.
        language: u16,
    },
    /// Nothing: the device is open.
    Opened,
}

/// A device that is being opened.
#[derive(Debug)]
pub struct OpenOperation {
    /// What is known of the device.
    pub descriptor: DeviceDescriptor,
    /// What to do next.
    pub stage: OpenStage,
}

/// The error of a step.
pub open spec fn failed(error: UsbError, operation: &'static str) -> Error {
    Error::Operation { operation, source: Box::new(Error::Usb(error)) }
}

/// The string to read for a text that an enumeration did not supply.
pub open spec fn missing(known: Option<Seq<char>>, index: Option<u8>) -> Option<u8> {
    if known is None {
        index
    } else {
        None
    }
}

/// Whether only strings are read for what is not known of a device.
pub open spec fn asks_for_missing(stage: OpenStage, known: Identity) -> bool {
    match stage {
        OpenStage::Languages { manufacturer, product } => {
            &&& manufacturer is Some ==> known.manufacturer is None
            &&& product is Some ==> known.product is None
        },
        OpenStage::Manufacturer { product, .. } => {
            &&& known.manufacturer is None
            &&& product is Some ==> known.product is None
        },
        OpenStage::Product { .. } => known.product is None,
        _ => true,
    }
}

/// Whether what was known of a device still is.
pub open spec fn keeps(before: Identity, after: Identity) -> bool {
    &&& after.vid == before.vid
    &&& after.pid == before.pid
    &&& after.serial == before.serial
    &&& before.manufacturer is Some ==> after.manufacturer == before.manufacturer
    &&& before.product is Some ==> after.product == before.product
}

/// What follows when the strings to read and their language are known.
pub open spec fn strings_stage(
    manufacturer: Option<u8>,
    product: Option<u8>,
    language: u16,
) -> OpenStage {
    match manufacturer {
        Some(index) => OpenStage::Manufacturer { index, language, product },
        None => match product {
            Some(index) => OpenStage::Product { index, language },
            None => OpenStage::Opened,
        },
    }
}

impl OpenOperation {
    /// Select the device to open from an enumeration. The result includes its position there.
    pub fn select(selector: &Selector, found: &Vec<UsbIdentity>) -> (result: Result<
        (OpenOperation, usize),
    >)
        ensures
            match result {
                Ok((operation, at)) => operation.stage == OpenStage::Device && at < found@.len()
                    && selector@.selects(
                    discovery::identities(found@),
                    at as int,
                    operation.descriptor@.index as int,
                ) && operation.descriptor@.identity == found@[at as int]@,
                Err(error) => error == Error::DeviceNotFound && selector@.selects_none(
                    discovery::identities(found@),
                ),
            },
    {
        let (descriptor, at) = discovery::select(selector, found)?;
        Ok((OpenOperation { descriptor, stage: OpenStage::Device }, at))
    }

    /// Go on after opening the device. Success brings the active configuration, if it is known.
    pub fn opened(self, result: core::result::Result<Option<u8>, UsbError>) -> (next: Result<
        OpenOperation,
    >)
        ensures
            match (result, next) {
                (Ok(active), Ok(next)) => next.descriptor == self.descriptor && next.stage
                    == if active == Some(CONFIGURATION) {
                    OpenStage::Interface
                } else {
                    OpenStage::Configuration
                },
                (Err(error), Err(shown)) => shown == failed(error, "opening USB device"),
                _ => false,
            },
    {
        match result {
            Ok(active) => {
                let stage: OpenStage = if active == Some(CONFIGURATION) {
                    OpenStage::Interface
                } else {
                    OpenStage::Configuration
                };
                Ok(OpenOperation { descriptor: self.descriptor, stage })
            },
            Err(error) => Err(Error::from(error).at("opening USB device")),
        }
    }

    /// Go on after selecting the configuration.
    pub fn configured(self, result: core::result::Result<(), UsbError>) -> (next: Result<
        OpenOperation,
    >)
        ensures
            match (result, next) {
                (Ok(_), Ok(next)) => next.descriptor == self.descriptor && next.stage
                    == OpenStage::Interface,
                (Err(error), Err(shown)) => shown == failed(
                    error,
                    "selecting USB configuration 1",
                ),
                _ => false,
            },
    {
        match result {
            Ok(_) => Ok(
                OpenOperation { descriptor: self.descriptor, stage: OpenStage::Interface },
            ),
            Err(error) => Err(Error::from(error).at("selecting USB configuration 1")),
        }
    }

    /// Go on after claiming the interface. Success brings the strings that hold manufacturer and
    /// product. Some enumerations do not supply the branding, so what is missing is read before any
    /// hardware behavior is selected by it.
    pub fn claimed(
        self,
        result: core::result::Result<(Option<u8>, Option<u8>), UsbError>,
    ) -> (next: Result<OpenOperation>)
        ensures
            match (result, next) {
                (Ok((manufacturer, product)), Ok(next)) => {
                    let known = self.descriptor@.identity;
                    let manufacturer = missing(known.manufacturer, manufacturer);
                    let product = missing(known.product, product);
                    &&& next.descriptor == self.descriptor
                    &&& next.stage == if manufacturer is Some || product is Some {
                        OpenStage::Languages { manufacturer, product }
                    } else {
                        OpenStage::Opened
                    }
                    &&& asks_for_missing(next.stage, known)
                },
                (Err(error), Err(shown)) => shown == failed(
                    error,
                    "claiming RTL-SDR USB interface 0",
                ),
                _ => false,
            },
    {
        match result {
            Ok((manufacturer_index, product_index)) => {
                let manufacturer: Option<u8> = if self.descriptor.manufacturer.is_none() {
                    manufacturer_index
                } else {
                    None
                };
                let product: Option<u8> = if self.descriptor.product.is_none() {
                    product_index
                } else {
                    None
                };
                let stage: OpenStage = if manufacturer.is_some() || product.is_some() {
                    OpenStage::Languages { manufacturer, product }
                } else {
                    OpenStage::Opened
                };
                Ok(OpenOperation { descriptor: self.descriptor, stage })
            },
            Err(error) => Err(Error::from(error).at("claiming RTL-SDR USB interface 0")),
        }
    }

    /// Go on after reading the languages of the strings, of which the first counts, if there is
    /// one. Before any other step, nothing changes.
    pub fn languages(self, first: Option<u16>) -> (next: OpenOperation)
        ensures
            next.descriptor == self.descriptor,
            next.stage == match self.stage {
                OpenStage::Languages { manufacturer, product } => strings_stage(
                    manufacturer,
                    product,
                    match first {
                        Some(language) => language,
                        None => DEFAULT_LANGUAGE,
                    },
                ),
                stage => stage,
            },
            asks_for_missing(self.stage, self.descriptor@.identity) ==> asks_for_missing(
                next.stage,
                next.descriptor@.identity,
            ),
    {
        let language: u16 = match first {
            Some(language) => language,
            None => DEFAULT_LANGUAGE,
        };
        let stage: OpenStage = match self.stage {
            OpenStage::Languages { manufacturer, product } => next_string(
                manufacturer,
                product,
                language,
            ),
            stage => stage,
        };
        OpenOperation { descriptor: self.descriptor, stage }
    }

    /// Go on after reading a string, which may have failed. Before any other step, nothing changes.
    pub fn string(self, text: Option<String>) -> (next: OpenOperation)
        ensures
            match self.stage {
                OpenStage::Manufacturer { language, product, .. } => {
                    &&& next.stage == strings_stage(None, product, language)
                    &&& next.descriptor@ == (Description {
                        identity: Identity {
                            manufacturer: discovery::text(text),
                            ..self.descriptor@.identity
                        },
                        ..self.descriptor@
                    })
                },
                OpenStage::Product { .. } => {
                    &&& next.stage == OpenStage::Opened
                    &&& next.descriptor@ == (Description {
                        identity: Identity {
                            product: discovery::text(text),
                            ..self.descriptor@.identity
                        },
                        ..self.descriptor@
                    })
                },
                _ => next == self,
            },
            asks_for_missing(self.stage, self.descriptor@.identity) ==> asks_for_missing(
                next.stage,
                next.descriptor@.identity,
            ) && keeps(self.descriptor@.identity, next.descriptor@.identity),
    {
        match self.stage {
            OpenStage::Manufacturer { index: _, language, product } => OpenOperation {
                descriptor: DeviceDescriptor { manufacturer: text, ..self.descriptor },
                stage: next_string(None, product, language),
            },
            OpenStage::Product { .. } => OpenOperation {
                descriptor: DeviceDescriptor { product: text, ..self.descriptor },
                stage: OpenStage::Opened,
            },
            _ => self,
        }
    }
}

/// The stage that reads the next missing string.
fn next_string(manufacturer: Option<u8>, product: Option<u8>, language: u16) -> (stage: OpenStage)
    ensures
        stage == strings_stage(manufacturer, product, language),
{
    match manufacturer {
        Some(index) => OpenStage::Manufacturer { index, language, product },
        None => match product {
            Some(index) => OpenStage::Product { index, language },
            None => OpenStage::Opened,
        },
    }
}

/// The strings that a device is asked for are those that were not known and that it has, the
/// manufacturer before the product, both in one language.
pub proof fn missing_strings_are_read_in_order(
    known: Identity,
    manufacturer: Option<u8>,
    product: Option<u8>,
    language: u16,
)
    ensures
        ({
            let wanted = missing(known.manufacturer, manufacturer);
            let next = missing(known.product, product);
            let stage = strings_stage(wanted, next, language);
            &&& wanted is Some <==> known.manufacturer is None && manufacturer is Some
            &&& wanted is Some ==> wanted == manufacturer
            &&& next is Some <==> known.product is None && product is Some
            &&& next is Some ==> next == product
            &&& wanted matches Some(index) ==> stage == (OpenStage::Manufacturer {
                index,
                language,
                product: next,
            })
            &&& wanted is None && next is Some ==> stage == (OpenStage::Product {
                index: next->Some_0,
                language,
            })
            &&& wanted is None && next is None ==> stage == OpenStage::Opened
            &&& asks_for_missing(stage, known)
        }),
{
}

/// The configuration that a receiver is used in is number 1, and without a list of languages the
/// strings are read in American English.
pub proof fn defaults_are_configuration_1_and_english()
    ensures
        CONFIGURATION == 1,
        DEFAULT_LANGUAGE == 0x0409,
{
}

} // verus!
