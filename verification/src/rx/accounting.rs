//! What becomes of every completion, every block and every counter.

use crate::errors::{Error, Result};
use crate::rx::processing;
use crate::rx::queue;
use crate::rx::queue::QueueState;
use crate::rx::receiver;
use crate::rx::receiver::{StartOperation, StartStage, StartStep, StreamState};
use crate::rx::SampleBlock;
use crate::session::{Claim, ReceiverState};
use vstd::prelude::*;

verus! {

/// A new queue brings the transfers of its endpoint to eight, with buffers of 256 KiB that hold
/// zeros. It received nothing.
pub proof fn new_queues_bring_eight_transfers(pending: usize)
    ensures
        ({
            let queue = QueueState::fresh(pending);
            &&& queue.open
            &&& !queue.initialized
            &&& queue.current is None
            &&& queue.discard_remaining == 0
            &&& queue.dropped_samples == 0
            &&& queue.stats.buffers_received == 0
            &&& queue.stats.buffers_processed == 0
            &&& queue.stats.buffers_dropped == 0
            &&& queue.stats.buffers_discarded_on_restart == 0
            &&& pending <= 8 ==> queue.spare.len() + pending == 8
            &&& pending > 8 ==> queue.spare.len() == 0
            &&& forall|i: int|
                0 <= i < queue.spare.len() ==> (#[trigger] queue.spare[i]).len() == 262_144
            &&& forall|i: int, k: int|
                0 <= i < queue.spare.len() && 0 <= k < 262_144 ==> #[trigger] queue.spare[i][k] == 0
        }),
{
}

/// Whether a transfer brought a positive number of whole samples within its buffer.
pub open spec fn brought_samples(size: nat, len: usize, status: Result<()>) -> bool {
    status is Ok && 0 < len <= size && len % 2 == 0
}

/// A completion from before a restart is dropped and hands its buffer back. Of the others, one that
/// brought samples becomes the current block, and one that did not is dropped and gives the endpoint
/// up with its failure, or with a protocol error if it has none. Every completion is counted as
/// received, and as either processed or dropped.
pub proof fn completions_are_judged_and_counted(
    before: QueueState,
    buffer: Seq<u8>,
    len: usize,
    status: Result<()>,
)
    requires
        before.wf(),
        before.open,
        before.current is None,
        before.has_room(len),
    ensures
        ({
            let after = before.accepted(buffer, len, status);
            let verdict = before.verdict(buffer.len(), len, status);
            &&& after.stats.buffers_received == before.stats.buffers_received + 1
            &&& after.initialized == before.initialized
            &&& if before.discard_remaining > 0 {
                &&& verdict == Ok::<bool, Error>(false)
                &&& after.open
                &&& after.spare == before.spare
                &&& after.current is None
                &&& after.discard_remaining == before.discard_remaining - 1
                &&& after.dropped_samples == before.dropped_samples + len / 2
                &&& after.stats.buffers_processed == before.stats.buffers_processed
                &&& after.stats.buffers_dropped == before.stats.buffers_dropped + 1
                &&& after.stats.buffers_discarded_on_restart
                    == before.stats.buffers_discarded_on_restart + 1
            } else if brought_samples(buffer.len(), len, status) {
                &&& verdict == Ok::<bool, Error>(true)
                &&& after.open
                &&& after.spare == before.spare
                &&& after.current == Some(buffer)
                &&& after.current_len == len
                &&& after.discard_remaining == 0
                &&& after.dropped_samples == before.dropped_samples
                &&& after.stats.buffers_processed == before.stats.buffers_processed + 1
                &&& after.stats.buffers_dropped == before.stats.buffers_dropped
                &&& after.stats.buffers_discarded_on_restart
                    == before.stats.buffers_discarded_on_restart
            } else {
                &&& verdict == match status {
                    Err(error) => Err::<bool, Error>(error),
                    Ok(_) => Err::<bool, Error>(
                        Error::Protocol {
                            operation: "receive transfer",
                            reason: "completed with an unexpected length",
                        },
                    ),
                }
                &&& !after.open
                &&& after.spare.len() == 0
                &&& after.current is None
                &&& after.discard_remaining == 0
                &&& after.dropped_samples == before.dropped_samples
                &&& after.stats.buffers_processed == before.stats.buffers_processed
                &&& after.stats.buffers_dropped == before.stats.buffers_dropped + 1
                &&& after.stats.buffers_discarded_on_restart
                    == before.stats.buffers_discarded_on_restart
            }
        }),
{
}

/// A stop keeps an endpoint in use and its counters of what was received and processed. It counts a
/// current block that was not delivered as dropped, with all its samples, and expects the block's
/// buffer, which is submitted again, among the transfers to discard.
pub proof fn stops_count_what_was_not_delivered(
    before: QueueState,
    pending: usize,
    delivered: bool,
)
    requires
        before.wf(),
        before.open,
        pending < usize::MAX,
        before.dropped_samples + before.undelivered(delivered) <= u64::MAX,
    ensures
        ({
            let after = before.paused(pending, delivered);
            let block: int = if before.current is Some {
                1
            } else {
                0
            };
            let lost: int = if delivered {
                0
            } else {
                block
            };
            &&& after.open
            &&& after.initialized == before.initialized
            &&& after.spare == before.spare
            &&& after.current is None
            &&& after.current_len == 0
            &&& before.recycled() == before.current
            &&& after.discard_remaining == pending + block
            &&& after.stats.buffers_received == before.stats.buffers_received
            &&& after.stats.buffers_processed == before.stats.buffers_processed
            &&& after.stats.buffers_discarded_on_restart
                == before.stats.buffers_discarded_on_restart
            &&& after.stats.buffers_dropped == before.stats.buffers_dropped + lost
            &&& 2 * (after.dropped_samples - before.dropped_samples) == lost * before.current_len
        }),
{
    let lost: int = if delivered || before.current is None {
        0
    } else {
        1
    };
    assert(lost * before.current_len == if lost == 1 {
        before.current_len as int
    } else {
        0
    });
}

/// A read hands out the bytes of the current block that come next, in order and two to a sample: as
/// many as are wanted or left, whichever are fewer. The next read goes on behind them; after the
/// last one the block is released, and its buffer handed back to be submitted again. Nothing else
/// of the stream changes.
pub proof fn reads_hand_out_the_block_in_order(
    before: StreamState,
    after: StreamState,
    wanted: usize,
    samples: Vec<(u8, u8)>,
    buffer: Option<Vec<u8>>,
)
    requires
        before.wf(),
        before.queue is Some,
        before.queue->Some_0.current is Some,
        receiver::reads(before, after, wanted, (samples, buffer)),
    ensures
        ({
            let queue = before.queue->Some_0;
            let bytes = queue.current->Some_0;
            let count = samples@.len() as int;
            let end = before.consumed + 2 * count;
            &&& count <= wanted
            &&& end <= queue.current_len
            &&& count == wanted || end == queue.current_len
            &&& processing::flattened(samples@) == bytes.subrange(before.consumed as int, end)
            &&& forall|i: int|
                0 <= i < count ==> (#[trigger] samples@[i]).0 == bytes[before.consumed + 2 * i]
                    && samples@[i].1 == bytes[before.consumed + 2 * i + 1]
            &&& after.queue is Some
            &&& after.claim == before.claim
            &&& after.totals() == before.totals()
            &&& end < queue.current_len ==> {
                &&& after.consumed == end
                &&& after.queue == before.queue
                &&& buffer is None
            }
            &&& end == queue.current_len ==> {
                &&& after.consumed == 0
                &&& after.queue->Some_0.current is None
                &&& queue::content(buffer) == Some(bytes)
            }
        }),
{
    let queue = before.queue->Some_0;
    let bytes = queue.current->Some_0;
    processing::reads_take_what_is_left(queue, before.consumed, wanted as nat);
    processing::samples_are_the_bytes_in_order(
        bytes,
        before.consumed,
        processing::available(queue, before.consumed, wanted as nat),
    );
}

/// The current block of a stream is the part of its buffer that was received, of which two bytes
/// make a sample.
pub proof fn blocks_are_what_was_received(stream: StreamState, block: SampleBlock<'_>)
    requires
        stream.wf(),
        receiver::shows(stream, Ok(block)),
    ensures
        ({
            let queue = stream.queue->Some_0;
            &&& stream.queue is Some
            &&& queue.current is Some
            &&& block@.raw.len() == queue.current_len
            &&& block@.raw.is_prefix_of(queue.current->Some_0)
            &&& 2 * block@.sample_count == block@.raw.len()
            &&& block@.dropped_samples == queue.dropped_samples
        }),
{
    let queue = stream.queue->Some_0;
    assert(block@.raw =~= queue.current->Some_0.take(queue.current_len as int));
}

/// The counters of a stream are those of its queue and of the queues before, added up.
pub proof fn counters_add_up(stream: StreamState)
    requires
        stream.fits(),
        stream.queue is Some,
    ensures
        ({
            let total = stream.totals();
            let queue = stream.queue->Some_0.stats;
            &&& total.buffers_received == stream.stats.buffers_received + queue.buffers_received
            &&& total.buffers_processed == stream.stats.buffers_processed + queue.buffers_processed
            &&& total.buffers_dropped == stream.stats.buffers_dropped + queue.buffers_dropped
            &&& total.buffers_discarded_on_restart == stream.stats.buffers_discarded_on_restart
                + queue.buffers_discarded_on_restart
        }),
{
}

/// A start with a new queue switches the receive endpoint off, opens the bulk endpoint, switches the
/// receive endpoint on and clears the halt, in this order; the stream is then running, and the
/// buffers that bring its transfers to eight are to be submitted.
pub proof fn fresh_starts_submit_the_buffers(
    stream: StreamState,
    second: StreamState,
    third: StreamState,
    fourth: StreamState,
    last: StreamState,
    start: StartOperation,
    off: StartStep,
    opened: StartStep,
    on: StartStep,
    end: StartStep,
    none: usize,
    pending: usize,
)
    requires
        start.fresh,
        start.stage is SwitchOff,
        receiver::start_advances(stream, second, start, Ok(none), off),
        off is Continue,
        receiver::start_advances(second, third, off->Continue_0, Ok(pending), opened),
        opened is Continue,
        receiver::start_advances(third, fourth, opened->Continue_0, Ok(none), on),
        on is Continue,
        receiver::start_advances(fourth, last, on->Continue_0, Ok(none), end),
    ensures
        off->Continue_0.stage == StartStage::OpenEndpoint,
        opened->Continue_0.stage == StartStage::SwitchOn,
        on->Continue_0.stage == StartStage::ClearHalt,
        end matches StartStep::Started(buffers) && queue::contents(buffers@).len() == (if pending
            < 8 {
            8 - pending
        } else {
            0
        }),
        last.claim == (Claim { receiver: ReceiverState::Running, ..stream.claim }),
        !last.needs_queue(),
        last.queue->Some_0.discard_remaining == 0,
        last.stats == stream.stats,
{
}

/// A start that goes on with its queue only switches the receive endpoint on: the transfers in
/// flight are still submitted.
pub proof fn restarts_keep_the_queue(
    stream: StreamState,
    after: StreamState,
    start: StartOperation,
    none: usize,
    end: StartStep,
)
    requires
        !start.fresh,
        start.stage is SwitchOn,
        receiver::start_advances(stream, after, start, Ok(none), end),
    ensures
        end matches StartStep::Started(buffers) && queue::contents(buffers@).len() == 0,
        after.claim == (Claim { receiver: ReceiverState::Running, ..stream.claim }),
        after.queue == stream.queue,
        after.stats == stream.stats,
{
}

} // verus!
