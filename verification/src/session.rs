//! Shared device ownership and cancellation-safe cleanup.
//!
//! A [`Session`] is the state that a device handle and its receive stream share. A control
//! operation takes the hardware out of it, so that another one is refused instead of interleaving
//! with it, and puts it back when it is finished or dropped.

pub mod laws;

use crate::config::Settings;
use crate::device::{DeviceInfo, Info};
use crate::discovery::{Description, DeviceDescriptor};
use crate::errors::{Error, Result};
use crate::protocol::{Answer, Com, Halt, Line, Outcome, Reply, Request, Run};
use crate::protocol;
use crate::rtl2832u::{Applied, Hardware, HardwareState};
use crate::tuners::registers::{RegisterTables, Tables};
use vstd::prelude::*;

verus! {

/// Whether the device can be used.
#[derive(Clone, Copy, Debug, Eq, PartialEq, Structural)]
pub enum DeviceLifecycle {
    /// It can.
    Open,
    /// A shutdown was begun and did not succeed yet.
    Closing,
    /// It was shut down.
    Closed,
}

/// What a stream knows of the receive endpoint.
#[derive(Clone, Copy, Debug, Eq, PartialEq, Structural)]
pub enum ReceiverState {
    /// It is off.
    Stopped,
    /// It must be switched off before it can be switched on again.
    CleanupRequired,
    /// It is on.
    Running,
}

/// Whether a stream can claim the device.
#[derive(Clone, Copy, Debug, Eq, PartialEq, Structural)]
pub enum ClaimAvailability {
    /// It can.
    Available,
    /// A stream holds the claim.
    Held,
    /// The stream that held the claim could not switch the endpoint off.
    CleanupRequired,
}

/// The state that decides which operations a device takes.
#[derive(Clone, Copy, Debug, Eq, PartialEq, Structural)]
pub struct SharedDeviceState {
    /// Lifecycle of the device.
    pub device: DeviceLifecycle,
    /// Availability of the stream claim.
    pub claim: ClaimAvailability,
}

/// The state that a device handle and its receive stream share.
#[derive(Debug)]
pub struct Session {
    state: SharedDeviceState,
    info: Option<DeviceInfo>,
    descriptor: DeviceDescriptor,
    hardware: Option<Hardware>,
    configuration_valid: bool,
}

/// The content of a [`Session`].
#[verifier::ext_equal]
pub struct SessionState {
    /// Lifecycle of the device.
    pub device: DeviceLifecycle,
    /// Availability of the stream claim.
    pub claim: ClaimAvailability,
    /// Identity captured at initialization.
    pub info: Option<Info>,
    /// USB identity.
    pub descriptor: Description,
    /// The hardware, unless a control operation has it.
    pub hardware: Option<HardwareState>,
    /// Whether the hardware was valid when it was last put back.
    pub configuration_valid: bool,
}

impl View for Session {
    type V = SessionState;

    closed spec fn view(&self) -> SessionState {
        SessionState {
            device: self.state.device,
            claim: self.state.claim,
            info: match self.info {
                Some(info) => Some(info@),
                None => None,
            },
            descriptor: self.descriptor@,
            hardware: match self.hardware {
                Some(hardware) => Some(hardware@),
                None => None,
            },
            configuration_valid: self.configuration_valid,
        }
    }
}

/// What a control operation does.
#[derive(Clone, Copy, Debug)]
pub enum ControlTask {
    /// Apply settings.
    Configure(Settings),
    /// Switch the receive endpoint.
    ReceiverMode(bool),
    /// Switch everything off.
    Shutdown,
}

/// A control operation in progress: the hardware as it was taken, and the replies given so far.
#[derive(Debug)]
pub struct ControlOperation {
    task: ControlTask,
    hardware: Hardware,
    replies: Vec<Reply>,
}

/// The content of a [`ControlOperation`].
#[verifier::ext_equal]
pub struct Operation {
    /// What the operation does.
    pub task: ControlTask,
    /// The hardware as it was taken.
    pub hardware: HardwareState,
    /// The replies given so far.
    pub replies: Seq<Answer>,
}

impl View for ControlOperation {
    type V = Operation;

    closed spec fn view(&self) -> Operation {
        Operation {
            task: self.task,
            hardware: self.hardware@,
            replies: protocol::answers(self.replies@),
        }
    }
}

impl Operation {
    /// An operation that was not answered yet.
    pub open spec fn begun(task: ControlTask, hardware: HardwareState) -> Operation {
        Operation { task, hardware, replies: Seq::empty() }
    }

    /// How far the operation comes with the replies given so far. Only configuring has a value.
    pub open spec fn run(self, blog_v4: bool, tables: Tables) -> Run<
        HardwareState,
        Option<Applied>,
    > {
        let line = Line::fresh(self.replies);
        match self.task {
            ControlTask::Configure(settings) => {
                let run = self.hardware.configure(line, settings, blog_v4, tables);
                Run {
                    state: run.state,
                    line: run.line,
                    outcome: match run.outcome {
                        Ok(applied) => Ok(Some(applied)),
                        Err(halt) => Err(halt),
                    },
                }
            },
            ControlTask::ReceiverMode(enabled) => {
                let run = line.receiver(enabled);
                Run {
                    state: HardwareState { receiving: enabled, ..self.hardware },
                    line: run.line,
                    outcome: match run.outcome {
                        Ok(_) => Ok(None),
                        Err(halt) => Err(halt),
                    },
                }
            },
            ControlTask::Shutdown => {
                let run = self.hardware.shutdown(line, tables);
                Run {
                    state: run.state,
                    line: run.line,
                    outcome: match run.outcome {
                        Ok(_) => Ok(None),
                        Err(halt) => Err(halt),
                    },
                }
            },
        }
    }
}

impl SessionState {
    /// The session of a device that was just opened.
    pub open spec fn opened(descriptor: Description) -> SessionState {
        SessionState {
            device: DeviceLifecycle::Open,
            claim: ClaimAvailability::Available,
            info: None,
            descriptor,
            hardware: Some(HardwareState::unknown()),
            configuration_valid: false,
        }
    }

    /// Whether the device can be used.
    pub open spec fn open_verdict(self) -> Result<()> {
        if self.device == DeviceLifecycle::Open {
            Ok(())
        } else {
            Err(Error::DeviceClosed)
        }
    }

    /// Whether the device can be used and is configured.
    pub open spec fn configured_verdict(self) -> Result<()> {
        if self.device != DeviceLifecycle::Open {
            Err(Error::DeviceClosed)
        } else if self.configuration_valid {
            Ok(())
        } else {
            Err(Error::ConfigurationUnknown)
        }
    }

    /// Whether the hardware can be taken.
    pub open spec fn lease_verdict(self) -> Result<()> {
        if self.hardware is Some {
            Ok(())
        } else {
            Err(Error::Busy)
        }
    }

    /// The session while a control operation has the hardware.
    pub open spec fn leased(self) -> SessionState {
        SessionState { hardware: None, ..self }
    }

    /// Whether settings can be applied now.
    pub open spec fn configure_verdict(self, settings: Settings) -> Result<()> {
        if self.open_verdict() is Err {
            self.open_verdict()
        } else if settings.verdict() is Err {
            settings.verdict()
        } else {
            self.lease_verdict()
        }
    }

    /// Whether the receive endpoint can be switched now. It can be switched off in every state.
    pub open spec fn receiver_verdict(self, enabled: bool) -> Result<()> {
        if enabled && self.configured_verdict() is Err {
            self.configured_verdict()
        } else {
            self.lease_verdict()
        }
    }

    /// Whether there is something to shut down. A stream that holds its claim is in the way of
    /// beginning, not of going on.
    pub open spec fn shutdown_verdict(self) -> Result<bool> {
        if self.device == DeviceLifecycle::Closed {
            Ok(false)
        } else if self.device == DeviceLifecycle::Open && self.claim == ClaimAvailability::Held {
            Err(Error::Busy)
        } else {
            Ok(true)
        }
    }

    /// The session when a shutdown is begun.
    pub open spec fn closing(self) -> SessionState {
        if self.shutdown_verdict() == Ok::<bool, Error>(true) {
            SessionState { device: DeviceLifecycle::Closing, ..self }
        } else {
            self
        }
    }

    /// The session when a control operation puts the hardware back, finished or not.
    pub open spec fn settled(
        self,
        task: ControlTask,
        run: Run<HardwareState, Option<Applied>>,
    ) -> SessionState {
        let back = SessionState {
            hardware: Some(run.state),
            configuration_valid: run.state.valid,
            ..self
        };
        if task is Shutdown && run.outcome is Ok {
            SessionState {
                device: DeviceLifecycle::Closed,
                claim: ClaimAvailability::Available,
                ..back
            }
        } else {
            back
        }
    }

    /// Whether a stream can claim the device.
    pub open spec fn claim_verdict(self) -> Result<()> {
        if self.device != DeviceLifecycle::Open {
            Err(Error::DeviceClosed)
        } else if self.claim != ClaimAvailability::Available {
            Err(Error::Busy)
        } else {
            Ok(())
        }
    }

    /// The session with another availability of the claim.
    pub open spec fn with_claim(self, claim: ClaimAvailability) -> SessionState {
        SessionState { claim, ..self }
    }
}

impl ControlOperation {
    /// Answer the request that the operation waits for.
    pub fn reply(&mut self, reply: Reply)
        ensures
            final(self)@ == (Operation {
                replies: old(self)@.replies.push(protocol::answer(reply)),
                ..old(self)@
            }),
    {
        let ghost given = protocol::answer(reply);
        self.replies.push(reply);
        assert(self@.replies =~= old(self)@.replies.push(given));
    }

    /// Run the operation with the replies given so far. The result is the hardware as it is then,
    /// what the operation came to, and the request that it waits for.
    fn run(&self, descriptor: &DeviceDescriptor, tables: &RegisterTables) -> (result: (
        Hardware,
        Outcome<Option<Applied>>,
        Option<Request>,
    ))
        ensures
            ({
                let run = self@.run(descriptor@.blog_v4(), tables@);
                &&& result.0@ == run.state
                &&& result.1 == run.outcome
                &&& match result.2 {
                    Some(request) => run.line.awaits() && request@
                        == run.line.issued[run.line.replies.len() as int],
                    None => !run.line.awaits(),
                }
            }),
    {
        let mut hardware: Hardware = self.hardware;
        let mut com = Com::new(&self.replies);
        let outcome: Outcome<Option<Applied>> = match self.task {
            ControlTask::Configure(settings) => match hardware.configure(
                &mut com,
                &settings,
                descriptor,
                tables,
            ) {
                Ok(applied) => Ok(Some(applied)),
                Err(halt) => Err(halt),
            },
            ControlTask::ReceiverMode(enabled) => {
                hardware.receiving = enabled;
                match com.receiver(enabled) {
                    Ok(_) => Ok(None),
                    Err(halt) => Err(halt),
                }
            },
            ControlTask::Shutdown => match hardware.shutdown(&mut com, tables) {
                Ok(_) => Ok(None),
                Err(halt) => Err(halt),
            },
        };
        let pending: Option<Request> = match com.pending() {
            Some(request) => Some(request.clone()),
            None => None,
        };
        (hardware, outcome, pending)
    }
}

impl Session {
    /// The session of a device that was just opened.
    pub fn new(descriptor: DeviceDescriptor) -> (session: Session)
        ensures
            session@ == SessionState::opened(descriptor@),
    {
        Session {
            state: SharedDeviceState {
                device: DeviceLifecycle::Open,
                claim: ClaimAvailability::Available,
            },
            info: None,
            descriptor,
            hardware: Some(Hardware::default()),
            configuration_valid: false,
        }
    }

    /// USB identity.
    pub fn descriptor(&self) -> (descriptor: &DeviceDescriptor)
        ensures
            descriptor@ == self@.descriptor,
    {
        &self.descriptor
    }

    /// Identity captured at initialization.
    pub fn info(&self) -> (info: Option<&DeviceInfo>)
        ensures
            match info {
                Some(info) => self@.info == Some(info@),
                None => self@.info is None,
            },
    {
        match &self.info {
            Some(info) => Some(info),
            None => None,
        }
    }

    /// Lifecycle and claim.
    pub fn state(&self) -> (state: SharedDeviceState)
        ensures
            state.device == self@.device,
            state.claim == self@.claim,
    {
        self.state
    }

    /// Check that the device can be used.
    pub fn ensure_open(&self) -> (verdict: Result<()>)
        ensures
            verdict == self@.open_verdict(),
    {
        if self.state.device == DeviceLifecycle::Open {
            Ok(())
        } else {
            Err(Error::DeviceClosed)
        }
    }

    /// Check that the device can be used and is configured.
    pub fn ensure_configured(&self) -> (verdict: Result<()>)
        ensures
            verdict == self@.configured_verdict(),
    {
        self.ensure_open()?;
        if self.configuration_valid {
            Ok(())
        } else {
            Err(Error::ConfigurationUnknown)
        }
    }

    /// Take the hardware. While it is taken, another control operation is refused rather than
    /// interleaved.
    fn lease(&mut self) -> (result: Result<Hardware>)
        ensures
            match result {
                Ok(hardware) => old(self)@.hardware == Some(hardware@) && final(self)@
                    == old(self)@.leased(),
                Err(error) => old(self)@.lease_verdict() == Err::<(), Error>(error)
                    && final(self)@ == old(self)@,
            },
    {
        match self.hardware.take() {
            Some(hardware) => Ok(hardware),
            None => Err(Error::Busy),
        }
    }

    /// Begin to apply settings.
    pub fn configure(&mut self, settings: Settings) -> (result: Result<ControlOperation>)
        ensures
            match result {
                Ok(operation) => old(self)@.configure_verdict(settings) is Ok && operation@
                    == Operation::begun(
                    ControlTask::Configure(settings),
                    old(self)@.hardware->Some_0,
                ) && final(self)@ == old(self)@.leased(),
                Err(error) => old(self)@.configure_verdict(settings) == Err::<(), Error>(error)
                    && final(self)@ == old(self)@,
            },
    {
        self.ensure_open()?;
        settings.validate()?;
        let hardware: Hardware = self.lease()?;
        Ok(Self::operation(ControlTask::Configure(settings), hardware))
    }

    /// Begin to switch the receive endpoint.
    pub fn receiver_mode(&mut self, enabled: bool) -> (result: Result<ControlOperation>)
        ensures
            match result {
                Ok(operation) => old(self)@.receiver_verdict(enabled) is Ok && operation@
                    == Operation::begun(
                    ControlTask::ReceiverMode(enabled),
                    old(self)@.hardware->Some_0,
                ) && final(self)@ == old(self)@.leased(),
                Err(error) => old(self)@.receiver_verdict(enabled) == Err::<(), Error>(error)
                    && final(self)@ == old(self)@,
            },
    {
        if enabled {
            self.ensure_configured()?;
        }
        let hardware: Hardware = self.lease()?;
        Ok(Self::operation(ControlTask::ReceiverMode(enabled), hardware))
    }

    /// Begin a shutdown, unless it succeeded already.
    pub fn begin_shutdown(&mut self) -> (result: Result<bool>)
        ensures
            result == old(self)@.shutdown_verdict(),
            final(self)@ == old(self)@.closing(),
    {
        match self.state.device {
            DeviceLifecycle::Closed => Ok(false),
            DeviceLifecycle::Closing => Ok(true),
            DeviceLifecycle::Open => {
                if self.state.claim == ClaimAvailability::Held {
                    return Err(Error::Busy);
                }
                self.state.device = DeviceLifecycle::Closing;
                Ok(true)
            },
        }
    }

    /// Begin to shut the device down. There is nothing to do if that succeeded already.
    pub fn shutdown(&mut self) -> (result: Result<Option<ControlOperation>>)
        ensures
            match result {
                Ok(Some(operation)) => old(self)@.shutdown_verdict() == Ok::<bool, Error>(true)
                    && operation@ == Operation::begun(
                    ControlTask::Shutdown,
                    old(self)@.hardware->Some_0,
                ) && old(self)@.hardware is Some && final(self)@ == old(self)@.closing().leased(),
                Ok(None) => old(self)@.shutdown_verdict() == Ok::<bool, Error>(false)
                    && final(self)@ == old(self)@,
                Err(error) => error == Error::Busy && final(self)@ == old(self)@.closing() && (
                old(self)@.shutdown_verdict() is Err || old(self)@.shutdown_verdict() == Ok::<
                    bool,
                    Error,
                >(true) && old(self)@.hardware is None),
            },
    {
        if !self.begin_shutdown()? {
            return Ok(None);
        }
        let hardware: Hardware = self.lease()?;
        Ok(Some(Self::operation(ControlTask::Shutdown, hardware)))
    }

    /// Begin the cleanup of the last owner, which goes on whatever the state of the claim.
    pub fn final_cleanup(&mut self) -> (result: Option<ControlOperation>)
        requires
            old(self)@.device != DeviceLifecycle::Closed ==> old(self)@.hardware is Some,
        ensures
            match result {
                Some(operation) => old(self)@.device != DeviceLifecycle::Closed && operation@
                    == Operation::begun(
                    ControlTask::Shutdown,
                    old(self)@.hardware->Some_0,
                ) && final(self)@ == old(self)@.leased(),
                None => old(self)@.device == DeviceLifecycle::Closed && final(self)@ == old(self)@,
            },
    {
        if self.state.device == DeviceLifecycle::Closed {
            return None;
        }
        match self.hardware.take() {
            Some(hardware) => Some(Self::operation(ControlTask::Shutdown, hardware)),
            None => None,
        }
    }

    /// An operation that has received no reply yet.
    fn operation(task: ControlTask, hardware: Hardware) -> (operation: ControlOperation)
        ensures
            operation@ == Operation::begun(task, hardware@),
    {
        let operation = ControlOperation { task, hardware, replies: Vec::new() };
        assert(operation@.replies =~= Seq::<Answer>::empty());
        operation
    }

    /// The request that an operation waits for, if it does.
    pub fn pending(&self, operation: &ControlOperation, tables: &RegisterTables) -> (request:
        Option<Request>)
        ensures
            ({
                let run = operation@.run(self@.descriptor.blog_v4(), tables@);
                match request {
                    Some(request) => run.line.awaits() && request@
                        == run.line.issued[run.line.replies.len() as int],
                    None => !run.line.awaits(),
                }
            }),
    {
        let (_, _, request) = operation.run(&self.descriptor, tables);
        request
    }

    /// Put the hardware back that an operation had taken. An operation that was dropped while it
    /// waited comes to [`Halt::Waiting`].
    pub fn finish(&mut self, operation: ControlOperation, tables: &RegisterTables) -> (outcome:
        Outcome<Option<Applied>>)
        ensures
            ({
                let run = operation@.run(old(self)@.descriptor.blog_v4(), tables@);
                &&& outcome == run.outcome
                &&& final(self)@ == old(self)@.settled(operation@.task, run)
            }),
    {
        let (hardware, outcome, _) = operation.run(&self.descriptor, tables);
        self.configuration_valid = hardware.valid;
        self.hardware = Some(hardware);
        if let ControlTask::Shutdown = operation.task {
            if outcome.is_ok() {
                self.state.device = DeviceLifecycle::Closed;
                self.state.claim = ClaimAvailability::Available;
            }
        }
        outcome
    }

    /// Conclude the initialization by what the first configuration came to. Success captures the
    /// identity of the device; failure begins a shutdown whose own result does not matter.
    pub fn conclude_initialization(&mut self, result: Result<Applied>) -> (conclusion:
        core::result::Result<Applied, (Error, Option<ControlOperation>)>)
        requires
            result is Ok ==> old(self)@.info is None && old(self)@.hardware is Some
                && old(self)@.hardware->Some_0.tuner is Some,
        ensures
            match (result, conclusion) {
                (Ok(applied), Ok(same)) => same == applied && final(self)@ == (SessionState {
                    info: Some(
                        Info {
                            descriptor: old(self)@.descriptor,
                            tuner: old(self)@.hardware->Some_0.tuner->Some_0.kind,
                            rtl_sdr_blog_v4: old(self)@.descriptor.blog_v4(),
                        },
                    ),
                    ..old(self)@
                }),
                (Err(error), Err((same, cleanup))) => same == error && match cleanup {
                    Some(operation) => old(self)@.shutdown_verdict() == Ok::<bool, Error>(true)
                        && old(self)@.hardware is Some && operation@ == Operation::begun(
                        ControlTask::Shutdown,
                        old(self)@.hardware->Some_0,
                    ) && final(self)@ == old(self)@.closing().leased(),
                    None => final(self)@ == old(self)@.closing() && (
                    old(self)@.shutdown_verdict() != Ok::<bool, Error>(true)
                        || old(self)@.hardware is None),
                },
                _ => false,
            },
    {
        match result {
            Ok(applied) => {
                if let Some(hardware) = &self.hardware {
                    if let Some(tuner) = &hardware.tuner {
                        let info = DeviceInfo {
                            descriptor: self.descriptor.clone(),
                            tuner: tuner.kind,
                            rtl_sdr_blog_v4: self.descriptor.blog_v4(),
                        };
                        self.info = Some(info);
                    }
                }
                Ok(applied)
            },
            Err(error) => match self.shutdown() {
                Ok(cleanup) => Err((error, cleanup)),
                Err(_) => Err((error, None)),
            },
        }
    }
}

/// The exclusive claim of a receive stream, which lasts through its cleanup.
#[derive(Debug)]
pub struct RxStreamClaim {
    receiver: ReceiverState,
    cleanup_armed: bool,
}

/// The content of an [`RxStreamClaim`].
pub struct Claim {
    /// What the stream knows of the receive endpoint.
    pub receiver: ReceiverState,
    /// Whether dropping the claim has to clean up.
    pub cleanup_armed: bool,
}

impl View for RxStreamClaim {
    type V = Claim;

    closed spec fn view(&self) -> Claim {
        Claim { receiver: self.receiver, cleanup_armed: self.cleanup_armed }
    }
}

impl Claim {
    /// The claim of a stream that was not started.
    pub open spec fn fresh() -> Claim {
        Claim { receiver: ReceiverState::Stopped, cleanup_armed: true }
    }

    /// Whether the endpoint has to be switched on for a start.
    pub open spec fn start_verdict(self) -> Result<bool> {
        match self.receiver {
            ReceiverState::Running => Ok(false),
            ReceiverState::CleanupRequired => Err(Error::Busy),
            ReceiverState::Stopped => Ok(true),
        }
    }

    /// The claim when a start is begun.
    pub open spec fn starting(self) -> Claim {
        if self.receiver == ReceiverState::Stopped {
            Claim { receiver: ReceiverState::CleanupRequired, ..self }
        } else {
            self
        }
    }

    /// The claim when a stop is begun.
    pub open spec fn stopping(self) -> Claim {
        if self.receiver == ReceiverState::Stopped {
            self
        } else {
            Claim { receiver: ReceiverState::CleanupRequired, ..self }
        }
    }
}

impl RxStreamClaim {
    /// Claim the device for a stream.
    pub fn acquire(session: &mut Session) -> (result: Result<RxStreamClaim>)
        ensures
            match result {
                Ok(claim) => old(session)@.claim_verdict() is Ok && claim@ == Claim::fresh()
                    && final(session)@ == old(session)@.with_claim(ClaimAvailability::Held),
                Err(error) => old(session)@.claim_verdict() == Err::<(), Error>(error) && final(
                    session)@ == old(session)@,
            },
    {
        if session.state.device != DeviceLifecycle::Open {
            return Err(Error::DeviceClosed);
        }
        if session.state.claim != ClaimAvailability::Available {
            return Err(Error::Busy);
        }
        session.state.claim = ClaimAvailability::Held;
        Ok(RxStreamClaim { receiver: ReceiverState::Stopped, cleanup_armed: true })
    }

    /// What the stream knows of the receive endpoint.
    pub fn receiver_state(&self) -> (state: ReceiverState)
        ensures
            state == self@.receiver,
    {
        self.receiver
    }

    /// Whether dropping the claim has to clean up.
    pub fn cleanup_armed(&self) -> (armed: bool)
        ensures
            armed == self@.cleanup_armed,
    {
        self.cleanup_armed
    }

    /// Record the state of the receive endpoint.
    pub fn set_receiver_state(&mut self, receiver: ReceiverState)
        ensures
            final(self)@ == (Claim { receiver, ..old(self)@ }),
    {
        self.receiver = receiver;
    }

    /// Begin to start. The result is whether there is something to do; until that succeeds, the
    /// stream requires cleanup.
    pub fn begin_start(&mut self) -> (result: Result<bool>)
        ensures
            result == old(self)@.start_verdict(),
            final(self)@ == old(self)@.starting(),
    {
        match self.receiver {
            ReceiverState::Running => Ok(false),
            ReceiverState::CleanupRequired => Err(Error::Busy),
            ReceiverState::Stopped => {
                self.receiver = ReceiverState::CleanupRequired;
                Ok(true)
            },
        }
    }

    /// Begin to stop. The result is whether there is something to do. Cancellation or failure must
    /// not leave a stream apparently running.
    pub fn begin_stop(&mut self) -> (started: bool)
        ensures
            started == (old(self)@.receiver != ReceiverState::Stopped),
            final(self)@ == old(self)@.stopping(),
    {
        if self.receiver == ReceiverState::Stopped {
            return false;
        }
        self.receiver = ReceiverState::CleanupRequired;
        true
    }

    /// Conclude closing by what switching the endpoint off came to; a stream that was stopped
    /// succeeds. Success gives the claim up, failure leaves it armed.
    pub fn conclude_close(&mut self, session: &mut Session, result: Result<()>) -> (same: Result<
        (),
    >)
        ensures
            same == result,
            result is Ok ==> final(self)@ == (Claim {
                receiver: ReceiverState::Stopped,
                cleanup_armed: false,
            }) && final(session)@ == old(session)@.with_claim(ClaimAvailability::Available),
            result is Err ==> final(self)@ == old(self)@ && final(session)@ == old(session)@,
    {
        if result.is_ok() {
            self.receiver = ReceiverState::Stopped;
            session.state.claim = ClaimAvailability::Available;
            self.cleanup_armed = false;
        }
        result
    }

    /// Begin the cleanup of a claim that is dropped. The result is whether the endpoint has to be
    /// switched off. The claim stays reserved until [`Session::conclude_cleanup`].
    pub fn cleanup(&mut self) -> (started: bool)
        ensures
            started == (old(self)@.receiver != ReceiverState::Stopped),
            final(self)@ == (Claim { cleanup_armed: false, ..old(self)@.stopping() }),
    {
        self.cleanup_armed = false;
        self.begin_stop()
    }
}

impl Session {
    /// Conclude the cleanup of a dropped claim by whether the endpoint is off.
    pub fn conclude_cleanup(&mut self, stopped: bool)
        ensures
            final(self)@ == old(self)@.with_claim(
                if stopped {
                    ClaimAvailability::Available
                } else {
                    ClaimAvailability::CleanupRequired
                },
            ),
    {
        self.state.claim = if stopped {
            ClaimAvailability::Available
        } else {
            ClaimAvailability::CleanupRequired
        };
    }
}

} // verus!
