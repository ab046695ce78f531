//! Typed receive streams backed by one persistent USB queue.

pub mod accounting;
pub mod laws;
pub mod processing;
pub mod queue;
pub mod receiver;

use crate::config::{F32Iq, RawIq, SampleMode};
use crate::errors::{Error, Result};
use crate::session::{ReceiverState, RxStreamClaim, Session};
use queue::{BulkInCompletion, QueueState};
use receiver::{Receiver, StartOperation, StartStage, StartStep, StreamState};
use vstd::prelude::*;

pub use queue::MAX_F32_IQ_SAMPLES_PER_TRANSFER;

verus! {

/// Counters collected during a receive stream.
///
/// These counters describe USB completions observed by the host. RTL-SDR bulk data
/// has no sequence number, so the driver cannot detect samples lost in the device
/// before a USB transfer completes (for example, when the application stops
/// polling long enough to exhaust the host transfer queue).
#[derive(Clone, Copy, Debug, Eq, PartialEq, Structural)]
pub struct StreamingStats {
    /// Number of USB completions consumed by the driver.
    pub buffers_received: u64,
    /// Number of buffers successfully processed by the streaming layer.
    pub buffers_processed: u64,
    /// Number of observed completions not delivered because of an error or controlled restart.
    ///
    /// This does not include device-side loss that happened before USB completion.
    pub buffers_dropped: u64,
    /// Number of dropped buffers that belonged to the queue retained across a restart.
    ///
    /// This is a subset of [`StreamingStats::buffers_dropped`]. On backends without
    /// transfer cancellation, including WebUSB, consuming these old submissions may
    /// delay the first fresh block after restarting.
    pub buffers_discarded_on_restart: u64,
}

impl StreamingStats {
    /// The counters of a stream that received nothing.
    pub open spec fn none() -> StreamingStats {
        StreamingStats {
            buffers_received: 0,
            buffers_processed: 0,
            buffers_dropped: 0,
            buffers_discarded_on_restart: 0,
        }
    }

    /// Whether no counter overflows when `other` is added.
    pub open spec fn fits(self, other: StreamingStats) -> bool {
        &&& self.buffers_received + other.buffers_received <= u64::MAX
        &&& self.buffers_processed + other.buffers_processed <= u64::MAX
        &&& self.buffers_dropped + other.buffers_dropped <= u64::MAX
        &&& self.buffers_discarded_on_restart + other.buffers_discarded_on_restart <= u64::MAX
    }

    /// The sum of two counts.
    pub open spec fn sum(self, other: StreamingStats) -> StreamingStats {
        StreamingStats {
            buffers_received: (self.buffers_received + other.buffers_received) as u64,
            buffers_processed: (self.buffers_processed + other.buffers_processed) as u64,
            buffers_dropped: (self.buffers_dropped + other.buffers_dropped) as u64,
            buffers_discarded_on_restart: (self.buffers_discarded_on_restart
                + other.buffers_discarded_on_restart) as u64,
        }
    }

    /// Whether the counters agree: what was processed or dropped was received, and what was
    /// discarded on a restart was dropped.
    pub open spec fn consistent(self) -> bool {
        &&& self.buffers_processed <= self.buffers_received
        &&& self.buffers_dropped <= self.buffers_received
        &&& self.buffers_discarded_on_restart <= self.buffers_dropped
    }

    /// Whether every completion was either processed or dropped.
    pub open spec fn balanced(self) -> bool {
        self.buffers_processed + self.buffers_dropped == self.buffers_received
    }

    /// Add counters.
    pub fn accumulate(&mut self, other: StreamingStats)
        requires
            old(self).fits(other),
        ensures
            *final(self) == old(self).sum(other),
    {
        self.buffers_received = self.buffers_received + other.buffers_received;
        self.buffers_processed = self.buffers_processed + other.buffers_processed;
        self.buffers_dropped = self.buffers_dropped + other.buffers_dropped;
        self.buffers_discarded_on_restart = self.buffers_discarded_on_restart
            + other.buffers_discarded_on_restart;
    }

    /// The sum of two counts.
    pub fn combined(self, other: StreamingStats) -> (sum: StreamingStats)
        requires
            self.fits(other),
        ensures
            sum == self.sum(other),
    {
        let mut sum = self;
        sum.accumulate(other);
        sum
    }
}

impl Default for StreamingStats {
    fn default() -> (stats: StreamingStats)
        ensures
            stats == StreamingStats::none(),
    {
        StreamingStats {
            buffers_received: 0,
            buffers_processed: 0,
            buffers_dropped: 0,
            buffers_discarded_on_restart: 0,
        }
    }
}

/// Borrowed view of one raw receive block.
#[derive(Clone, Copy, Debug, Eq, PartialEq)]
pub struct SampleBlock<'a> {
    raw: &'a [u8],
    sample_count: usize,
    dropped_samples: u64,
}

/// The content of a [`SampleBlock`].
#[verifier::ext_equal]
pub struct Block {
    /// Raw USB bytes.
    pub raw: Seq<u8>,
    /// Number of samples.
    pub sample_count: usize,
    /// Estimated number of samples that the driver discarded.
    pub dropped_samples: u64,
}

impl<'a> View for SampleBlock<'a> {
    type V = Block;

    closed spec fn view(&self) -> Block {
        Block {
            raw: self.raw@,
            sample_count: self.sample_count,
            dropped_samples: self.dropped_samples,
        }
    }
}

impl<'a> SampleBlock<'a> {
    /// A block of received samples.
    pub fn new(raw: &'a [u8], sample_count: usize, dropped_samples: u64) -> (block: SampleBlock<'a>)
        ensures
            block@ == (Block { raw: raw@, sample_count, dropped_samples }),
    {
        SampleBlock { raw, sample_count, dropped_samples }
    }

    /// Raw USB bytes for this sample block.
    pub fn raw_bytes(&self) -> (raw: &'a [u8])
        ensures
            raw@ == self@.raw,
    {
        self.raw
    }

    /// Sample count reported for this block.
    pub fn sample_count(&self) -> (count: usize)
        ensures
            count == self@.sample_count,
    {
        self.sample_count
    }

    /// Estimated sample count represented by USB buffers the driver discarded.
    ///
    /// RTL-SDR transfers have no sequence numbers, so this cannot include samples
    /// lost inside the device while the host transfer queue was exhausted.
    pub fn dropped_samples(&self) -> (count: u64)
        ensures
            count == self@.dropped_samples,
    {
        self.dropped_samples
    }
}

/// Owned receive stream for sample mode `M`, defaulting to [`F32Iq`].
///
/// Create this stream with [`crate::device::Device::rx_stream`]. It can still start, stop, and
/// restart after the device handle is gone, as long as the session lasts. Configured RF bias power
/// remains enabled until the device is shut down.
#[must_use]
pub struct RxStream<M: SampleMode = F32Iq> {
    inner: Receiver<M>,
}

impl<M: SampleMode> View for RxStream<M> {
    type V = StreamState;

    closed spec fn view(&self) -> StreamState {
        self.inner@
    }
}

impl<M: SampleMode> RxStream<M> {
    /// A stream that was not started.
    pub fn new(claim: RxStreamClaim) -> (stream: RxStream<M>)
        requires
            claim@.receiver != ReceiverState::Running,
        ensures
            stream@ == StreamState::dormant(claim@, receiver::delivers_whole::<M>()),
            stream@.wf(),
    {
        RxStream { inner: Receiver::new(claim) }
    }

    /// Whether the bulk endpoint is in use. One that is not is to be canceled and dropped.
    pub fn uses_endpoint(&self) -> (result: bool)
        ensures
            result == (self@.queue matches Some(queue) && queue.open),
    {
        self.inner.uses_endpoint()
    }

    /// Whether counting one more completion of `len` bytes overflows nothing.
    pub fn countable(&self, len: usize) -> (result: bool)
        ensures
            result == self@.countable(len),
            result && self@.wf() ==> self@.fits(),
    {
        self.inner.countable(len)
    }

    /// Counters accumulated across reads, stops and restarts.
    pub fn stats(&self) -> (stats: StreamingStats)
        requires
            self@.fits(),
        ensures
            stats == self@.totals(),
    {
        self.inner.current_stats()
    }

    /// Begin to start reception and the persistent USB transfer queue. There is nothing to do if
    /// the stream is running.
    ///
    /// A stream requiring cleanup must be stopped before restarting.
    pub fn start(&mut self) -> (result: Result<Option<StartOperation>>)
        requires
            old(self)@.wf(),
            old(self)@.fits(),
        ensures
            final(self)@ == old(self)@.starting(),
            final(self)@.wf(),
            match result {
                Ok(Some(start)) => old(self)@.claim.start_verdict() == Ok::<bool, Error>(true)
                    && start == (StartOperation {
                    fresh: old(self)@.needs_queue(),
                    stage: if old(self)@.needs_queue() {
                        StartStage::SwitchOff
                    } else {
                        StartStage::SwitchOn
                    },
                }),
                Ok(None) => old(self)@.claim.start_verdict() == Ok::<bool, Error>(false),
                Err(error) => old(self)@.claim.start_verdict() == Err::<bool, Error>(error),
            },
    {
        self.inner.start()
    }

    /// Go on with a start by what its step came to.
    pub fn advance_start(&mut self, start: StartOperation, result: Result<usize>) -> (step:
        StartStep)
        requires
            old(self)@.wf(),
            start.stage is OpenEndpoint ==> old(self)@.queue is None,
            start.stage is ClearHalt || start.stage is SwitchOn ==> old(self)@.queue is Some,
        ensures
            final(self)@.wf(),
            receiver::start_advances(old(self)@, final(self)@, start, result, step),
    {
        self.inner.advance_start(start, result)
    }

    /// Begin to stop reception. The result is whether the receive endpoint is to be switched off.
    ///
    /// If this operation fails or is canceled after it starts, retry it before reading or
    /// restarting.
    pub fn stop(&mut self) -> (started: bool)
        requires
            old(self)@.wf(),
        ensures
            final(self)@ == (StreamState { claim: old(self)@.claim.stopping(), ..old(self)@ }),
            final(self)@.wf(),
            started == (old(self)@.claim.receiver != ReceiverState::Stopped),
    {
        self.inner.stop()
    }

    /// Conclude a stop by what switching the receive endpoint off came to, with `pending` transfers
    /// in flight. The stream keeps its claim, and RF bias power is unchanged.
    pub fn conclude_stop(&mut self, result: Result<()>, pending: usize) -> (stopped: Result<
        Option<Vec<u8>>,
    >)
        requires
            old(self)@.wf(),
            old(self)@.countable(0),
            pending < usize::MAX,
        ensures
            final(self)@.wf(),
            receiver::stop_concludes(old(self)@, final(self)@, result, pending, stopped),
    {
        self.inner.conclude_stop(result, pending)
    }

    /// Take a completion. `None` is a usable block; a completion from before a restart hands its
    /// buffer back, to be submitted again. A completion that failed breaks the stream.
    pub fn accept(&mut self, completion: BulkInCompletion) -> (result: Result<Option<Vec<u8>>>)
        requires
            old(self)@.wf(),
            old(self)@.queue matches Some(queue) && queue.open && queue.current is None,
            old(self)@.countable(completion.actual_len),
        ensures
            final(self)@.wf(),
            receiver::accepts(old(self)@, final(self)@, completion, result),
    {
        self.inner.accept(completion)
    }

    /// Give the stream up: what is left is its claim, which is still to be closed, and its
    /// counters.
    pub fn close(self) -> (parts: (RxStreamClaim, StreamingStats))
        requires
            self@.fits(),
        ensures
            parts.0@ == self@.claim,
            parts.1 == self@.totals(),
    {
        self.inner.into_close_parts()
    }
}

impl RxStream<RawIq> {
    /// Begin to read the next raw I/Q USB block: the one before is released, and its buffer is to
    /// be submitted again.
    pub fn next_block(&mut self, session: &Session) -> (result: Result<Option<Vec<u8>>>)
        requires
            old(self)@.wf(),
        ensures
            final(self)@.wf(),
            match result {
                Ok(buffer) => old(self)@.running_verdict(session@) is Ok && queue::content(buffer)
                    == old(self)@.queue->Some_0.recycled() && final(self)@ == old(
                    self)@.with_queue(old(self)@.queue->Some_0.released()),
                Err(error) => old(self)@.running_verdict(session@) == Err::<(), Error>(error)
                    && final(self)@ == old(self)@,
            },
    {
        self.inner.next_block(session)
    }

    /// Whether a completion is needed to have a current block. Without an endpoint, the read fails.
    pub fn needs_completion(&mut self) -> (result: Result<bool>)
        requires
            old(self)@.wf(),
            old(self)@.fits(),
            old(self)@.queue is Some,
        ensures
            final(self)@.wf(),
            receiver::needs(old(self)@, final(self)@, result),
    {
        self.inner.needs_completion()
    }

    /// The current block, which borrows one buffer from the fixed transfer pool.
    pub fn current_block(&self) -> (result: Result<SampleBlock<'_>>)
        requires
            self@.wf(),
        ensures
            receiver::shows(self@, result),
    {
        self.inner.current_block()
    }
}

impl RxStream<F32Iq> {
    /// Begin to read samples. The result is whether a completion is needed: not for an empty read,
    /// nor while samples of a block are left.
    pub fn begin_read(&mut self, session: &Session, wanted: usize) -> (result: Result<bool>)
        requires
            old(self)@.wf(),
            old(self)@.fits(),
        ensures
            final(self)@.wf(),
            receiver::read_begins(old(self)@, final(self)@, session@, wanted, result),
    {
        self.inner.begin_read(session, wanted)
    }

    /// Hand out at most `wanted` samples of the current block, as pairs of bytes of which
    /// [`processing::component`] gives the values.
    pub fn read(&mut self, wanted: usize) -> (result: (Vec<(u8, u8)>, Option<Vec<u8>>))
        requires
            old(self)@.wf(),
        ensures
            final(self)@.wf(),
            receiver::reads(old(self)@, final(self)@, wanted, result),
    {
        self.inner.read(wanted)
    }
}

} // verus!
