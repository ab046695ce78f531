//! Device discovery, configuration and shared hardware ownership.

use crate::config::{
    Config, ConfigBuilder, DirectSampling, F32Iq, GainConfig, RawIq, SampleMode, Settings,
};
use crate::discovery;
use crate::discovery::{Description, DeviceDescriptor, Selection, Selector, UsbIdentity};
use crate::errors::{Error, Result};
use crate::protocol;
use crate::protocol::{Halt, Outcome, Reply, Request};
use crate::rtl2832u::Applied;
use crate::rx::receiver;
use crate::rx::receiver::StreamState;
use crate::rx::RxStream;
use crate::session::{
    Claim, ClaimAvailability, ControlOperation, ControlTask, Operation, RxStreamClaim, Session,
};
use crate::tuners::registers::RegisterTables;
use crate::tuners::TunerKind;
use vstd::prelude::*;

verus! {

/// Immutable identity captured during device initialization.
#[derive(Debug, Eq, PartialEq)]
pub struct DeviceInfo {
    /// USB identity.
    pub descriptor: DeviceDescriptor,
    /// Detected tuner family.
    pub tuner: TunerKind,
    /// Whether USB branding identifies an RTL-SDR Blog V4.
    pub rtl_sdr_blog_v4: bool,
}

/// The content of a [`DeviceInfo`].
#[verifier::ext_equal]
pub struct Info {
    /// USB identity.
    pub descriptor: Description,
    /// Detected tuner family.
    pub tuner: TunerKind,
    /// Whether USB branding identifies an RTL-SDR Blog V4.
    pub rtl_sdr_blog_v4: bool,
}

impl View for DeviceInfo {
    type V = Info;

    open spec fn view(&self) -> Info {
        Info {
            descriptor: self.descriptor@,
            tuner: self.tuner,
            rtl_sdr_blog_v4: self.rtl_sdr_blog_v4,
        }
    }
}

impl Clone for DeviceInfo {
    fn clone(&self) -> (copy: Self)
        ensures
            copy@ == self@,
    {
        DeviceInfo {
            descriptor: self.descriptor.clone(),
            tuner: self.tuner,
            rtl_sdr_blog_v4: self.rtl_sdr_blog_v4,
        }
    }
}

/// Device handle with a separately owned receive stream. Dropping the handle does not interrupt an
/// outstanding stream, even if stopped.
#[derive(Debug)]
pub struct Device<M: SampleMode = F32Iq> {
    info: DeviceInfo,
    config: Config<M>,
    applied: Applied,
}

/// The content of a [`Device`].
#[verifier::ext_equal]
pub struct Handle {
    /// Identity captured at initialization.
    pub info: Info,
    /// Last successfully applied configuration.
    pub config: Settings,
    /// Values that it was quantized to.
    pub applied: Applied,
}

impl<M: SampleMode> View for Device<M> {
    type V = Handle;

    closed spec fn view(&self) -> Handle {
        Handle { info: self.info@, config: self.config@, applied: self.applied }
    }
}

/// A configuration of a device in progress.
pub struct ConfigureOperation<M: SampleMode> {
    proposed: Config<M>,
    control: ControlOperation,
}

/// The content of a [`ConfigureOperation`].
#[verifier::ext_equal]
pub struct Proposal {
    /// The proposed configuration.
    pub proposed: Settings,
    /// The control operation that applies it.
    pub control: Operation,
}

impl<M: SampleMode> View for ConfigureOperation<M> {
    type V = Proposal;

    closed spec fn view(&self) -> Proposal {
        Proposal { proposed: self.proposed@, control: self.control@ }
    }
}

impl Proposal {
    /// Whether the control operation applies the proposed configuration.
    pub open spec fn wf(self) -> bool {
        self.control.task == ControlTask::Configure(self.proposed)
    }
}

impl<M: SampleMode> ConfigureOperation<M> {
    /// The control operation, whose requests are to be performed.
    pub fn control(&self) -> (control: &ControlOperation)
        ensures
            control@ == self@.control,
    {
        &self.control
    }

    /// Answer the request that the operation waits for.
    pub fn reply(&mut self, reply: Reply)
        ensures
            final(self)@ == (Proposal {
                control: Operation {
                    replies: old(self)@.control.replies.push(protocol::answer(reply)),
                    ..old(self)@.control
                },
                ..old(self)@
            }),
    {
        self.control.reply(reply);
    }
}

/// A validated request to open a device.
pub struct OpenRequest<M: SampleMode> {
    /// Which device to open.
    pub selector: Selector,
    /// The configuration to apply to it.
    pub config: Config<M>,
}

impl Device<F32Iq> {
    /// List the receivers of an enumeration with the standard Realtek USB IDs.
    pub fn list(found: &Vec<UsbIdentity>) -> (descriptors: Vec<DeviceDescriptor>)
        ensures
            ({
                let positions = Selection::any().positions(
                    discovery::identities(found@),
                    found@.len(),
                );
                &&& descriptors@.len() == positions.len()
                &&& forall|i: int|
                    0 <= i < positions.len() ==> (#[trigger] descriptors@[i])@ == (Description {
                        index: i as usize,
                        identity: found@[positions[i]]@,
                    })
            }),
    {
        discovery::list(found)
    }

    /// Start a device builder with default configuration.
    pub fn builder() -> (builder: DeviceBuilder<F32Iq>)
        ensures
            builder@ == (Build { selector: Selection::any(), config: Settings::initial() }),
    {
        DeviceBuilder::default()
    }

    /// Ask for the first visible receiver with default configuration.
    pub fn open() -> (request: Result<OpenRequest<F32Iq>>)
        ensures
            request matches Ok(request) && request.selector@ == Selection::any()
                && request.config@ == Settings::initial(),
    {
        Self::builder().open()
    }

    /// Ask for a device by its exact USB serial string, with default configuration.
    pub fn open_serial(serial: String) -> (request: Result<OpenRequest<F32Iq>>)
        ensures
            request matches Ok(request) && request.selector@ == (Selection {
                serial: Some(serial@),
                ..Selection::any()
            }) && request.config@ == Settings::initial(),
    {
        Self::builder().serial(serial).open()
    }
}

impl<M: SampleMode> Device<M> {
    /// The handle of a device whose session was initialized.
    pub fn opened(session: &Session, config: Config<M>, applied: Applied) -> (device: Option<
        Device<M>,
    >)
        ensures
            match device {
                Some(device) => session@.info == Some(device@.info) && device@.config == config@
                    && device@.applied == applied,
                None => session@.info is None,
            },
    {
        match session.info() {
            Some(info) => Some(Device { info: info.clone(), config, applied }),
            None => None,
        }
    }

    /// Immutable device metadata.
    pub fn info(&self) -> (info: &DeviceInfo)
        ensures
            info@ == self@.info,
    {
        &self.info
    }

    /// Last successfully applied configuration. A failed/canceled configuration
    /// leaves this snapshot unchanged and requires a complete `configure` retry.
    pub fn config(&self) -> (config: &Config<M>)
        ensures
            config@ == self@.config,
    {
        &self.config
    }

    /// Last successfully programmed center frequency after divider quantization.
    pub fn actual_frequency_hz(&self) -> (hz: u64)
        ensures
            hz == self@.applied.frequency_hz,
    {
        self.applied.frequency_hz
    }

    /// Last successfully programmed complex sample rate after divider quantization.
    pub fn actual_sample_rate_hz(&self) -> (hz: u32)
        ensures
            hz == self@.applied.sample_rate_hz,
    {
        self.applied.sample_rate_hz
    }

    /// Begin to apply a complete configuration. This also recovers from a failed or canceled
    /// control operation. Controls are serialized; overlapping operations from a
    /// stream return [`Error::Busy`] and can be retried.
    ///
    /// Queued samples may predate a live configuration change. Stop and restart
    /// the stream when the caller needs previously queued samples discarded.
    pub fn configure(&self, session: &mut Session, config: &Config<M>) -> (result: Result<
        ConfigureOperation<M>,
    >)
        ensures
            updates(*old(session), *final(session), config@, result),
    {
        self.update(session, config.settings())
    }

    /// Begin to apply settings, if they are valid.
    fn update(&self, session: &mut Session, proposed: Settings) -> (result: Result<
        ConfigureOperation<M>,
    >)
        ensures
            updates(*old(session), *final(session), proposed, result),
    {
        let config: Config<M> = Config::from_settings(proposed)?;
        let control = session.configure(proposed)?;
        Ok(ConfigureOperation { proposed: config, control })
    }

    /// Conclude a configuration, finished or dropped. Only success changes the handle.
    pub fn conclude_configure(
        &mut self,
        session: &mut Session,
        operation: ConfigureOperation<M>,
        tables: &RegisterTables,
    ) -> (outcome: Outcome<()>)
        requires
            operation@.wf(),
        ensures
            ({
                let run = operation@.control.run(old(session)@.descriptor.blog_v4(), tables@);
                &&& final(session)@ == old(session)@.settled(operation@.control.task, run)
                &&& match (run.outcome, outcome) {
                    (Ok(applied), Ok(_)) => final(self)@ == (Handle {
                        config: operation@.proposed,
                        applied: applied->Some_0,
                        ..old(self)@
                    }),
                    (Err(halt), Err(same)) => same == halt && final(self)@ == old(self)@,
                    _ => false,
                }
            }),
    {
        match session.finish(operation.control, tables) {
            Ok(Some(applied)) => {
                self.applied = applied;
                self.config = operation.proposed;
                Ok(())
            },
            Ok(None) => Ok(()),
            Err(halt) => Err(halt),
        }
    }

    /// Begin to tune the center frequency in Hz, preserving other settings.
    pub fn set_frequency_hz(&self, session: &mut Session, hz: u64) -> (result: Result<
        ConfigureOperation<M>,
    >)
        ensures
            updates(
                *old(session),
                *final(session),
                Settings { frequency_hz: hz, ..self@.config },
                result,
            ),
    {
        self.update(session, Settings { frequency_hz: hz, ..self.config.settings() })
    }

    /// Begin to set the complex sample rate, preserving other settings.
    pub fn set_sample_rate_hz(&self, session: &mut Session, hz: u32) -> (result: Result<
        ConfigureOperation<M>,
    >)
        ensures
            updates(
                *old(session),
                *final(session),
                Settings { sample_rate_hz: hz, ..self@.config },
                result,
            ),
    {
        self.update(session, Settings { sample_rate_hz: hz, ..self.config.settings() })
    }

    /// Begin to change the tuner gain policy, preserving other settings.
    pub fn set_gain(&self, session: &mut Session, gain: GainConfig) -> (result: Result<
        ConfigureOperation<M>,
    >)
        ensures
            updates(*old(session), *final(session), Settings { gain, ..self@.config }, result),
    {
        self.update(session, Settings { gain, ..self.config.settings() })
    }

    /// Begin to reapply sample-rate and tuning dividers with a corrected crystal frequency.
    pub fn set_correction_ppm(&self, session: &mut Session, ppm: i32) -> (result: Result<
        ConfigureOperation<M>,
    >)
        ensures
            updates(
                *old(session),
                *final(session),
                Settings { correction_ppm: ppm, ..self@.config },
                result,
            ),
    {
        self.update(session, Settings { correction_ppm: ppm, ..self.config.settings() })
    }

    /// Begin to enable or disable GPIO 0 bias power, preserving other settings.
    pub fn set_bias_tee(&self, session: &mut Session, enabled: bool) -> (result: Result<
        ConfigureOperation<M>,
    >)
        ensures
            updates(
                *old(session),
                *final(session),
                Settings { bias_tee: enabled, ..self@.config },
                result,
            ),
    {
        self.update(session, Settings { bias_tee: enabled, ..self.config.settings() })
    }

    /// Begin to set the low-frequency direct sampling policy, preserving other settings.
    pub fn set_direct_sampling(&self, session: &mut Session, mode: DirectSampling) -> (result:
        Result<ConfigureOperation<M>>)
        ensures
            updates(
                *old(session),
                *final(session),
                Settings { direct_sampling: mode, ..self@.config },
                result,
            ),
    {
        self.update(session, Settings { direct_sampling: mode, ..self.config.settings() })
    }

    /// Claim the single receive stream. Dormant and stopped streams retain the claim until they are
    /// closed.
    pub fn rx_stream(&self, session: &mut Session) -> (result: Result<RxStream<M>>)
        ensures
            match result {
                Ok(stream) => old(session)@.configured_verdict() is Ok && old(
                    session)@.claim_verdict() is Ok && stream@ == StreamState::dormant(
                    Claim::fresh(),
                    receiver::delivers_whole::<M>(),
                ) && stream@.wf() && final(session)@ == old(session)@.with_claim(
                    ClaimAvailability::Held,
                ),
                Err(error) => final(session)@ == old(session)@ && if old(
                    session)@.configured_verdict() is Err {
                    old(session)@.configured_verdict() == Err::<(), Error>(error)
                } else {
                    old(session)@.claim_verdict() == Err::<(), Error>(error)
                },
            },
    {
        session.ensure_configured()?;
        let claim = RxStreamClaim::acquire(session)?;
        Ok(RxStream::new(claim))
    }

    /// Begin to stop the hardware and disable RF bias power.
    ///
    /// Returns [`Error::Busy`] without changing lifecycle while a stream claim is held.
    /// Close the stream first. Once begun, shutdown is terminal, idempotent after success, and
    /// retryable on failure or cancellation. All independent cleanup steps are attempted on error.
    pub fn shutdown(&mut self, session: &mut Session) -> (result: Result<Option<ControlOperation>>)
        ensures
            final(self)@ == old(self)@,
            match result {
                Ok(Some(operation)) => old(session)@.shutdown_verdict() == Ok::<bool, Error>(true)
                    && old(session)@.hardware is Some && operation@ == Operation::begun(
                    ControlTask::Shutdown,
                    old(session)@.hardware->Some_0,
                ) && final(session)@ == old(session)@.closing().leased(),
                Ok(None) => old(session)@.shutdown_verdict() == Ok::<bool, Error>(false) && final(
                    session)@ == old(session)@,
                Err(error) => error == Error::Busy && final(session)@ == old(session)@.closing()
                    && (old(session)@.shutdown_verdict() is Err || old(session)@.shutdown_verdict()
                    == Ok::<bool, Error>(true) && old(session)@.hardware is None),
            },
    {
        session.shutdown()
    }
}

/// How beginning to apply settings takes a session from `before` to `after`.
pub open spec fn updates<M: SampleMode>(
    before: Session,
    after: Session,
    proposed: Settings,
    result: Result<ConfigureOperation<M>>,
) -> bool {
    match result {
        Ok(operation) => {
            &&& before@.configure_verdict(proposed) is Ok
            &&& operation@ == (Proposal {
                proposed,
                control: Operation::begun(
                    ControlTask::Configure(proposed),
                    before@.hardware->Some_0,
                ),
            })
            &&& operation@.wf()
            &&& after@ == before@.leased()
        },
        Err(error) => {
            &&& after@ == before@
            &&& if proposed.verdict() is Err {
                proposed.verdict() == Err::<(), Error>(error)
            } else {
                before@.configure_verdict(proposed) == Err::<(), Error>(error)
            }
        },
    }
}

/// Select and configure a receiver. Standard IDs are `0bda:2832` and `0bda:2838`.
#[derive(Debug)]
pub struct DeviceBuilder<M: SampleMode = F32Iq> {
    selector: Selector,
    config: ConfigBuilder<M>,
}

/// The content of a [`DeviceBuilder`].
#[verifier::ext_equal]
pub struct Build {
    /// Which device to open.
    pub selector: Selection,
    /// The settings to apply to it.
    pub config: Settings,
}

impl<M: SampleMode> View for DeviceBuilder<M> {
    type V = Build;

    closed spec fn view(&self) -> Build {
        Build { selector: self.selector@, config: self.config@ }
    }
}

impl Default for DeviceBuilder<F32Iq> {
    fn default() -> (builder: Self)
        ensures
            builder@ == (Build { selector: Selection::any(), config: Settings::initial() }),
    {
        DeviceBuilder { selector: Selector::default(), config: ConfigBuilder::default() }
    }
}

impl<M: SampleMode> Clone for DeviceBuilder<M> {
    fn clone(&self) -> (builder: Self)
        ensures
            builder@ == self@,
    {
        DeviceBuilder { selector: self.selector.clone(), config: self.config }
    }
}

impl<M: SampleMode> DeviceBuilder<M> {
    /// Select by exact serial; this replaces a previously chosen index.
    pub fn serial(self, serial: String) -> (builder: Self)
        ensures
            builder@ == (Build {
                selector: Selection { serial: Some(serial@), index: None, ..self@.selector },
                ..self@
            }),
    {
        DeviceBuilder {
            selector: Selector { serial: Some(serial), index: None, usb_id: self.selector.usb_id },
            config: self.config,
        }
    }

    /// Select by enumeration index; this replaces a previously chosen serial.
    pub fn index(self, index: usize) -> (builder: Self)
        ensures
            builder@ == (Build {
                selector: Selection { index: Some(index), serial: None, ..self@.selector },
                ..self@
            }),
    {
        DeviceBuilder {
            selector: Selector { index: Some(index), serial: None, usb_id: self.selector.usb_id },
            config: self.config,
        }
    }

    /// Match a custom USB VID/PID instead of the standard Realtek IDs.
    pub fn usb_id(self, vid: u16, pid: u16) -> (builder: Self)
        ensures
            builder@ == (Build {
                selector: Selection { usb_id: Some((vid, pid)), ..self@.selector },
                ..self@
            }),
    {
        DeviceBuilder {
            selector: Selector { usb_id: Some((vid, pid)), ..self.selector },
            config: self.config,
        }
    }

    /// Set center frequency in Hz.
    pub fn frequency_hz(self, value: u64) -> (builder: Self)
        ensures
            builder@ == (Build {
                config: Settings { frequency_hz: value, ..self@.config },
                ..self@
            }),
    {
        DeviceBuilder { selector: self.selector, config: self.config.frequency_hz(value) }
    }

    /// Set complex sample rate in samples/s.
    pub fn sample_rate_hz(self, value: u32) -> (builder: Self)
        ensures
            builder@ == (Build {
                config: Settings { sample_rate_hz: value, ..self@.config },
                ..self@
            }),
    {
        DeviceBuilder { selector: self.selector, config: self.config.sample_rate_hz(value) }
    }

    /// Set gain policy.
    pub fn gain(self, value: GainConfig) -> (builder: Self)
        ensures
            builder@ == (Build { config: Settings { gain: value, ..self@.config }, ..self@ }),
    {
        DeviceBuilder { selector: self.selector, config: self.config.gain(value) }
    }

    /// Set crystal correction in ppm.
    pub fn correction_ppm(self, value: i32) -> (builder: Self)
        ensures
            builder@ == (Build {
                config: Settings { correction_ppm: value, ..self@.config },
                ..self@
            }),
    {
        DeviceBuilder { selector: self.selector, config: self.config.correction_ppm(value) }
    }

    /// Enable or disable RF bias power.
    pub fn bias_tee(self, value: bool) -> (builder: Self)
        ensures
            builder@ == (Build { config: Settings { bias_tee: value, ..self@.config }, ..self@ }),
    {
        DeviceBuilder { selector: self.selector, config: self.config.bias_tee(value) }
    }

    /// Select low-frequency direct sampling behavior.
    pub fn direct_sampling(self, value: DirectSampling) -> (builder: Self)
        ensures
            builder@ == (Build {
                config: Settings { direct_sampling: value, ..self@.config },
                ..self@
            }),
    {
        DeviceBuilder { selector: self.selector, config: self.config.direct_sampling(value) }
    }

    /// Which device to open, or to ask permission for.
    pub fn selector(&self) -> (selector: &Selector)
        ensures
            selector@ == self@.selector,
    {
        &self.selector
    }

    /// Validate the configuration without opening hardware.
    pub fn config(self) -> (config: Result<Config<M>>)
        ensures
            match config {
                Ok(config) => self@.config.valid() && config@ == self@.config,
                Err(error) => self@.config.verdict() == Err::<(), Error>(error),
            },
    {
        self.config.build()
    }

    /// Validate the configuration. What is left is to open, probe, and configure the selected
    /// receiver.
    pub fn open(self) -> (request: Result<OpenRequest<M>>)
        ensures
            match request {
                Ok(request) => self@.config.valid() && request.config@ == self@.config
                    && request.selector@ == self@.selector,
                Err(error) => self@.config.verdict() == Err::<(), Error>(error),
            },
    {
        let config: Config<M> = self.config.build()?;
        Ok(OpenRequest { selector: self.selector, config })
    }
}

impl DeviceBuilder<F32Iq> {
    /// Select raw unsigned eight-bit I/Q blocks instead of converted floats.
    pub fn raw_iq(self) -> (builder: DeviceBuilder<RawIq>)
        ensures
            builder@ == self@,
    {
        DeviceBuilder { selector: self.selector, config: self.config.raw_iq() }
    }
}

} // verus!
