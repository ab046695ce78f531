//! What holds of every session.

use crate::config::Settings;
use crate::errors::Error;
use crate::protocol;
use crate::protocol::{Answer, Line};
use crate::rtl2832u;
use crate::rtl2832u::HardwareState;
use crate::session::{
    Claim, ClaimAvailability, ControlTask, DeviceLifecycle, Operation, ReceiverState, SessionState,
};
use crate::tuners::registers::Tables;
use vstd::prelude::*;

verus! {

/// Answering one more request continues an operation: if it was finished, it stays as it was, and
/// if it waited, it issues the same requests first. In particular the request that it waited for
/// does not change, and it waits exactly if a request is not answered.
pub proof fn operations_resume(
    operation: Operation,
    more: Seq<Answer>,
    blog_v4: bool,
    tables: Tables,
)
    ensures
        ({
            let first = operation.run(blog_v4, tables);
            let second = Operation {
                replies: operation.replies + more,
                ..operation
            }.run(blog_v4, tables);
            &&& first.waits() == first.line.awaits()
            &&& first.line.replies == operation.replies
            &&& first.line.issued.len() <= operation.replies.len() + 1
            &&& first.continued_by(second)
        }),
{
    let less = Line::fresh(operation.replies);
    let all = Line::fresh(operation.replies + more);
    assert(less.extended_by(all));
    match operation.task {
        ControlTask::Configure(settings) => {
            rtl2832u::causality::configure_is_causal(
                operation.hardware,
                less,
                all,
                settings,
                blog_v4,
                tables,
            );
        },
        ControlTask::ReceiverMode(enabled) => {
            protocol::causality::receiver_is_causal(less, all, enabled);
        },
        ControlTask::Shutdown => {
            rtl2832u::causality::shutdown_is_causal(operation.hardware, less, all, tables);
        },
    }
}

/// While a control operation has the hardware, every other one is refused as busy, on a device
/// that is open and configured.
pub proof fn operations_do_not_interleave(session: SessionState, settings: Settings)
    requires
        session.hardware is None,
        session.configured_verdict() is Ok,
        settings.valid(),
    ensures
        session.configure_verdict(settings) == Err::<(), Error>(Error::Busy),
        session.receiver_verdict(true) == Err::<(), Error>(Error::Busy),
        session.receiver_verdict(false) == Err::<(), Error>(Error::Busy),
        session.lease_verdict() == Err::<(), Error>(Error::Busy),
{
}

/// Only one stream has the claim: once it is taken, and until it is given back, it is refused.
pub proof fn claims_are_exclusive(session: SessionState)
    requires
        session.device == DeviceLifecycle::Open,
    ensures
        session.with_claim(ClaimAvailability::Held).claim_verdict() == Err::<(), Error>(
            Error::Busy,
        ),
        session.with_claim(ClaimAvailability::CleanupRequired).claim_verdict() == Err::<(), Error>(
            Error::Busy,
        ),
        session.with_claim(ClaimAvailability::Available).claim_verdict() is Ok,
{
}

/// A shutdown is refused as busy, without a change, exactly while a stream has the claim of an
/// open device.
pub proof fn shutdown_waits_for_the_stream(session: SessionState)
    ensures
        session.shutdown_verdict() is Err <==> session.device == DeviceLifecycle::Open
            && session.claim == ClaimAvailability::Held,
        session.shutdown_verdict() is Err ==> session.shutdown_verdict() == Err::<bool, Error>(
            Error::Busy,
        ) && session.closing() == session,
{
}

/// Once begun, a shutdown is terminal: the device is not open, and no operation opens it again.
pub proof fn shutdown_is_terminal(
    session: SessionState,
    operation: Operation,
    claim: ClaimAvailability,
    blog_v4: bool,
    tables: Tables,
)
    ensures
        session.shutdown_verdict() is Ok ==> session.closing().device != DeviceLifecycle::Open,
        session.device != DeviceLifecycle::Open ==> {
            &&& session.closing().device != DeviceLifecycle::Open
            &&& session.leased().device != DeviceLifecycle::Open
            &&& session.with_claim(claim).device != DeviceLifecycle::Open
            &&& session.settled(operation.task, operation.run(blog_v4, tables)).device
                != DeviceLifecycle::Open
            &&& session.open_verdict() == Err::<(), Error>(Error::DeviceClosed)
            &&& session.configured_verdict() == Err::<(), Error>(Error::DeviceClosed)
            &&& session.claim_verdict() == Err::<(), Error>(Error::DeviceClosed)
        },
{
}

/// A shutdown that did not succeed can be begun again, and one that succeeded has nothing left to
/// do.
pub proof fn shutdown_is_retryable_and_idempotent(
    session: SessionState,
    operation: Operation,
    blog_v4: bool,
    tables: Tables,
)
    requires
        operation.task == ControlTask::Shutdown,
        session.device == DeviceLifecycle::Closing,
    ensures
        ({
            let run = operation.run(blog_v4, tables);
            let settled = session.settled(operation.task, run);
            if run.outcome is Ok {
                &&& settled.shutdown_verdict() == Ok::<bool, Error>(false)
                &&& settled.closing() == settled
                &&& settled.claim == ClaimAvailability::Available
            } else {
                &&& settled.shutdown_verdict() == Ok::<bool, Error>(true)
                &&& settled.closing() == settled
                &&& settled.lease_verdict() is Ok
            }
        }),
{
}

/// A configuration that failed or was dropped leaves the configuration unknown, and one that
/// succeeded leaves the device configured with a tuner.
pub proof fn configuration_is_all_or_nothing(
    session: SessionState,
    operation: Operation,
    settings: Settings,
    tables: Tables,
)
    requires
        session.device == DeviceLifecycle::Open,
        operation.task == ControlTask::Configure(settings),
        rtl2832u::board_verdict(settings, session.descriptor.blog_v4()) is Ok,
    ensures
        ({
            let run = operation.run(session.descriptor.blog_v4(), tables);
            let settled = session.settled(operation.task, run);
            &&& run.outcome is Ok ==> settled.configured_verdict() is Ok
                && settled.hardware->Some_0.tuner is Some
            &&& run.outcome is Err ==> settled.configured_verdict() == Err::<(), Error>(
                Error::ConfigurationUnknown,
            )
        }),
{
    let line = Line::fresh(operation.replies);
    rtl2832u::laws::validity_means_success(
        operation.hardware,
        line,
        settings,
        session.descriptor.blog_v4(),
        tables,
    );
    lemma_configured_has_a_tuner(
        operation.hardware,
        line,
        settings,
        session.descriptor.blog_v4(),
        tables,
    );
}

proof fn lemma_configured_has_a_tuner(
    hardware: HardwareState,
    line: Line,
    settings: Settings,
    blog_v4: bool,
    tables: Tables,
)
    ensures
        ({
            let run = hardware.configure(line, settings, blog_v4, tables);
            run.outcome is Ok ==> run.state.tuner is Some
        }),
{
    reveal(HardwareState::configure_inner);
    reveal(HardwareState::apply);
    reveal(HardwareState::program);
    reveal(HardwareState::reinitialize);
}

/// A stream that was begun to start or to stop is not taken to be running until that succeeded,
/// and then it must be stopped before it can be started.
pub proof fn interrupted_streams_require_cleanup(claim: Claim)
    ensures
        claim.start_verdict() == Ok::<bool, Error>(true) ==> claim.starting().receiver
            == ReceiverState::CleanupRequired,
        claim.stopping().receiver != ReceiverState::Running,
        claim.receiver == ReceiverState::CleanupRequired ==> claim.start_verdict() == Err::<
            bool,
            Error,
        >(Error::Busy),
{
}

/// A device that was just opened is open, unclaimed and not configured, and nothing is known of its
/// hardware.
pub proof fn opened_devices_are_not_configured(descriptor: crate::discovery::Description)
    ensures
        ({
            let session = SessionState::opened(descriptor);
            &&& session.open_verdict() is Ok
            &&& session.configured_verdict() == Err::<(), Error>(Error::ConfigurationUnknown)
            &&& session.claim_verdict() is Ok
            &&& session.lease_verdict() is Ok
            &&& session.shutdown_verdict() == Ok::<bool, Error>(true)
            &&& session.info is None
            &&& session.descriptor == descriptor
            &&& session.hardware matches Some(hardware) && hardware.tuner is None
                && !hardware.valid && !hardware.receiving && !hardware.direct
        }),
{
}

/// Settings can be applied exactly on an open device whose hardware is not taken, if they are in
/// their ranges. A device that is not open is named first, and settings out of range before a device
/// that is busy. Nothing has to be configured before.
pub proof fn configurations_are_refused_in_order(session: SessionState, settings: Settings)
    ensures
        session.configure_verdict(settings) is Ok <==> session.device == DeviceLifecycle::Open
            && settings.valid() && session.hardware is Some,
        session.device != DeviceLifecycle::Open ==> session.configure_verdict(settings) == Err::<
            (),
            Error,
        >(Error::DeviceClosed),
        session.device == DeviceLifecycle::Open && !settings.valid()
            ==> session.configure_verdict(settings) == settings.verdict()
            && session.configure_verdict(settings) is Err,
        session.device == DeviceLifecycle::Open && settings.valid() && session.hardware is None
            ==> session.configure_verdict(settings) == Err::<(), Error>(Error::Busy),
{
}

/// The receive endpoint can be switched on only on an open device that is configured, and off in
/// every state of the device, as long as its hardware is not taken.
pub proof fn receivers_are_switched_off_in_every_state(session: SessionState)
    ensures
        session.receiver_verdict(false) is Ok <==> session.hardware is Some,
        session.receiver_verdict(true) is Ok <==> session.device == DeviceLifecycle::Open
            && session.configuration_valid && session.hardware is Some,
        session.device != DeviceLifecycle::Open ==> session.receiver_verdict(true) == Err::<
            (),
            Error,
        >(Error::DeviceClosed),
        session.device == DeviceLifecycle::Open && !session.configuration_valid
            ==> session.receiver_verdict(true) == Err::<(), Error>(Error::ConfigurationUnknown),
{
}

/// Switching the receive endpoint records what was asked for, even if it fails, and nothing else of
/// the hardware changes, nor does what is known of its configuration.
pub proof fn switching_the_receiver_is_recorded(
    session: SessionState,
    operation: Operation,
    enabled: bool,
    blog_v4: bool,
    tables: Tables,
)
    requires
        operation.task == ControlTask::ReceiverMode(enabled),
    ensures
        ({
            let run = operation.run(blog_v4, tables);
            let settled = session.settled(operation.task, run);
            &&& run.state.receiving == enabled
            &&& run.state.tuner == operation.hardware.tuner
            &&& run.state.valid == operation.hardware.valid
            &&& run.state.direct == operation.hardware.direct
            &&& settled.hardware == Some(run.state)
            &&& settled.configuration_valid == operation.hardware.valid
            &&& settled.device == session.device
            &&& settled.claim == session.claim
            &&& settled.info == session.info
            &&& settled.descriptor == session.descriptor
        }),
{
}

/// The stream claim changes only as it is taken, given back or left for cleanup, and a start or a
/// stop changes nothing of a stream but what it knows of its endpoint.
pub proof fn claims_follow_the_endpoint(session: SessionState, claim: Claim)
    ensures
        Claim::fresh().receiver == ReceiverState::Stopped && Claim::fresh().cleanup_armed,
        claim.receiver == ReceiverState::Running ==> claim.start_verdict() == Ok::<bool, Error>(
            false,
        ) && claim.starting() == claim,
        claim.receiver == ReceiverState::Stopped ==> claim.start_verdict() == Ok::<bool, Error>(true)
            && claim.stopping() == claim,
        claim.receiver != ReceiverState::Stopped ==> claim.stopping().receiver
            == ReceiverState::CleanupRequired,
        claim.starting().cleanup_armed == claim.cleanup_armed,
        claim.stopping().cleanup_armed == claim.cleanup_armed,
        session.claim_verdict() is Ok <==> session.device == DeviceLifecycle::Open && session.claim
            == ClaimAvailability::Available,
        session.with_claim(session.claim) == session,
        session.leased() == (SessionState { hardware: None, ..session }),
{
}

} // verus!
