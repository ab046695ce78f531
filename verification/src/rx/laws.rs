//! What holds of every receive stream.

use crate::errors::{Error, Result};
use crate::rx::receiver;
use crate::rx::receiver::{StartOperation, StartStage, StartStep, StreamState};
use crate::rx::processing;
use crate::rx::queue;
use crate::rx::queue::QueueState;
use crate::session::{Claim, ReceiverState, SessionState};
use vstd::prelude::*;

verus! {

/// Giving the queue up keeps the counters.
pub proof fn counters_survive_the_queue(stream: StreamState)
    ensures
        stream.retired().totals() == stream.totals(),
        stream.broken().totals() == stream.totals(),
{
}

/// After a failed read, a stream must be stopped before it can be started, and a start then builds
/// a new queue.
pub proof fn failed_reads_require_a_stop(
    stream: StreamState,
    after: StreamState,
    pending: usize,
    stopped: Result<Option<Vec<u8>>>,
)
    requires
        receiver::stop_concludes(stream.broken(), after, Ok(()), pending, stopped),
    ensures
        stream.broken().claim.start_verdict() == Err::<bool, Error>(Error::Busy),
        after.claim.start_verdict() == Ok::<bool, Error>(true),
        after.needs_queue(),
{
}

/// A stop that succeeds keeps the claim, keeps a queue that is in use for the next start, and
/// counts as many submissions to discard as are then in flight.
pub proof fn stopping_keeps_the_queue(
    stream: StreamState,
    after: StreamState,
    pending: usize,
    stopped: Result<Option<Vec<u8>>>,
)
    requires
        stream.wf(),
        pending < usize::MAX,
        stream.queue is Some,
        !stream.needs_queue(),
        receiver::stop_concludes(stream, after, Ok(()), pending, stopped),
    ensures
        after.claim == (Claim { receiver: ReceiverState::Stopped, ..stream.claim }),
        !after.needs_queue(),
        after.queue->Some_0.current is None,
        after.queue->Some_0.discard_remaining == pending + (if stopped->Ok_0 is Some {
            1int
        } else {
            0
        }),
{
}

/// A stop counts nothing as dropped if blocks are delivered whole: the current block was delivered.
pub proof fn delivered_blocks_are_not_dropped(
    stream: StreamState,
    after: StreamState,
    pending: usize,
    stopped: Result<Option<Vec<u8>>>,
)
    requires
        stream.whole,
        receiver::stop_concludes(stream, after, Ok(()), pending, stopped),
    ensures
        after.totals() == stream.totals(),
        stream.queue matches Some(queue) ==> after.queue is Some
            && after.queue->Some_0.dropped_samples == queue.dropped_samples,
{
}

/// If blocks are delivered whole, every completion was either processed or dropped, and none both.
pub proof fn completions_are_processed_or_dropped(stream: StreamState)
    requires
        stream.wf(),
        stream.fits(),
        stream.whole,
    ensures
        stream.totals().balanced(),
{
}

/// A start that fails at any step switches the receive endpoint off and then reports the failure of
/// that step; until a stop, the stream requires cleanup.
pub proof fn failed_starts_report_the_first_failure(
    before: StreamState,
    after: StreamState,
    last: StreamState,
    start: StartOperation,
    error: Error,
    fallback: Result<usize>,
    step: StartStep,
    end: StartStep,
)
    requires
        !(start.stage is Fallback),
        before.claim.receiver == ReceiverState::CleanupRequired,
        receiver::start_advances(before, after, start, Err(error), step),
        step is Continue,
        receiver::start_advances(after, last, step->Continue_0, fallback, end),
    ensures
        step->Continue_0.stage == StartStage::Fallback(error),
        end == StartStep::Failed(error),
        last.claim.receiver == ReceiverState::CleanupRequired,
{
}

/// A stream cannot be read while the configuration is unknown, as after a configuration that
/// failed or was dropped, nor after a shutdown was begun.
pub proof fn reads_need_a_configuration(stream: StreamState, session: SessionState)
    requires
        session.configured_verdict() is Err,
    ensures
        stream.running_verdict(session) == session.configured_verdict(),
{
}

/// One transfer brings at most as many samples as its buffer has room for.
pub proof fn transfers_are_bounded(queue: QueueState, consumed: nat, wanted: nat)
    requires
        queue.wf(),
        queue.current matches Some(buffer) && buffer.len() <= queue::DEFAULT_BUFFER_SIZE,
        consumed <= queue.current_len,
    ensures
        processing::available(queue, consumed, wanted) <= queue::MAX_F32_IQ_SAMPLES_PER_TRANSFER,
        processing::available(queue, consumed, wanted) <= wanted,
{
}

} // verus!
