//! Native RTL2832U / R820T / R828D driver core.

pub mod config;
pub mod device;
pub mod discovery;
mod errors;
pub mod math;
pub mod protocol;
pub mod rtl2832u;
pub mod rx;
pub mod session;
pub mod tuners;
pub mod usb;

pub use config::{
    Config, ConfigBuilder, DirectSampling, F32Iq, GainConfig, RawIq, SampleFormat, SampleMode,
};
pub use device::{Device, DeviceBuilder, DeviceInfo};
pub use discovery::DeviceDescriptor;
pub use errors::{Error, ErrorKind, ErrorSource, Result};
pub use rx::{RxStream, SampleBlock, StreamingStats, MAX_F32_IQ_SAMPLES_PER_TRANSFER};
pub use tuners::TunerKind;
