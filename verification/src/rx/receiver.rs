//! One receiver lifecycle for every sample mode and execution mechanism.
//!
//! The caller performs what an operation asks for, and hands the result back.

use crate::config::{F32Iq, RawIq, SampleMode};
use crate::errors::{Error, Result};
use crate::rx::processing;
use crate::rx::processing::Processor;
use crate::rx::queue;
use crate::rx::queue::{BulkInCompletion, Queue, QueueState};
use crate::rx::{Block, SampleBlock, StreamingStats};
use crate::session::{Claim, ReceiverState, RxStreamClaim, Session, SessionState};
use vstd::prelude::*;

verus! {

/// A receive stream: its queue, its progress through the current block, the counters of the queues
/// before, and its claim.
pub struct Receiver<M: SampleMode> {
    queue: Option<Queue>,
    processor: M::Processor,
    stats: StreamingStats,
    claim: RxStreamClaim,
}

/// The content of a [`Receiver`].
#[verifier::ext_equal]
pub struct StreamState {
    /// The queue, if there is one.
    pub queue: Option<QueueState>,
    /// Number of bytes of the current block that were handed out.
    pub consumed: nat,
    /// Counters of the queues before.
    pub stats: StreamingStats,
    /// The claim.
    pub claim: Claim,
    /// Whether blocks are delivered whole, as soon as they are current.
    pub whole: bool,
}

impl<M: SampleMode> View for Receiver<M> {
    type V = StreamState;

    closed spec fn view(&self) -> StreamState {
        StreamState {
            queue: match self.queue {
                Some(queue) => Some(queue@),
                None => None,
            },
            consumed: self.processor.consumed(),
            stats: self.stats,
            claim: self.claim@,
            whole: delivers_whole::<M>(),
        }
    }
}

/// What to do next for a stream to start.
#[derive(Debug)]
pub enum StartStage {
    /// Switch the receive endpoint off.
    SwitchOff,
    /// Open the bulk endpoint. The result is the number of transfers in flight.
    OpenEndpoint,
    /// Switch the receive endpoint on.
    SwitchOn,
    /// Clear the halt of the bulk endpoint.
    ClearHalt,
    /// Switch the receive endpoint off after a failure, which is reported whatever comes of it.
    Fallback(Error),
}

/// A start in progress. A fresh one builds a new queue.
#[derive(Debug)]
pub struct StartOperation {
    /// Whether a new queue is built.
    pub fresh: bool,
    /// What to do next.
    pub stage: StartStage,
}

/// How a start goes on.
#[derive(Debug)]
pub enum StartStep {
    /// There is more to do.
    Continue(StartOperation),
    /// The stream is running. The buffers are to be submitted.
    Started(Vec<Vec<u8>>),
    /// The stream could not be started.
    Failed(Error),
}

/// Whether streams of a sample mode deliver blocks whole, as soon as they are current.
pub open spec fn delivers_whole<M: SampleMode>() -> bool {
    M::Processor::whole()
}

/// What an operation on a stream that is not running fails with.
pub open spec fn not_running() -> Error {
    Error::StreamClosed { reason: "RX stream is stopped or requires cleanup" }
}

/// What an operation on a stream without an endpoint fails with.
pub open spec fn queue_closed() -> Error {
    Error::StreamClosed { reason: "RX queue is closed" }
}

impl StreamState {
    /// A stream that was not started.
    pub open spec fn dormant(claim: Claim, whole: bool) -> StreamState {
        StreamState { queue: None, consumed: 0, stats: StreamingStats::none(), claim, whole }
    }

    /// Whether the stream is well formed: its queue is, it hands out whole samples, its counters
    /// agree, and it has a queue while it is running. If blocks are delivered whole, every
    /// completion was either processed or dropped.
    pub open spec fn wf(self) -> bool {
        &&& match self.queue {
            Some(queue) => queue.wf() && processing::in_step(queue, self.consumed),
            None => self.consumed == 0 && self.claim.receiver != ReceiverState::Running,
        }
        &&& self.stats.consistent()
        &&& self.whole ==> self.stats.balanced() && (self.queue matches Some(queue)
            ==> queue.stats.balanced())
    }

    /// Whether the counters of all queues can be added up.
    pub open spec fn fits(self) -> bool {
        self.queue matches Some(queue) ==> self.stats.fits(queue.stats)
    }

    /// Whether counting one more completion of `len` bytes overflows nothing.
    pub open spec fn countable(self, len: usize) -> bool {
        self.queue matches Some(queue) ==> {
            &&& self.stats.buffers_received + queue.stats.buffers_received < u64::MAX
            &&& queue.dropped_samples + queue.undelivered(self.whole) + len / 2 <= u64::MAX
        }
    }

    /// Counters of all queues.
    pub open spec fn totals(self) -> StreamingStats {
        match self.queue {
            Some(queue) => self.stats.sum(queue.stats),
            None => self.stats,
        }
    }

    /// The stream when its queue is given up.
    pub open spec fn retired(self) -> StreamState {
        StreamState { queue: None, consumed: 0, stats: self.totals(), ..self }
    }

    /// The stream with another state of the receive endpoint.
    pub open spec fn with_receiver(self, receiver: ReceiverState) -> StreamState {
        StreamState { claim: Claim { receiver, ..self.claim }, ..self }
    }

    /// Whether a start needs a new queue.
    pub open spec fn needs_queue(self) -> bool {
        !(self.queue matches Some(queue) && queue.initialized && queue.open)
    }

    /// The stream when a start is begun.
    pub open spec fn starting(self) -> StreamState {
        let begun = StreamState { claim: self.claim.starting(), ..self };
        if self.claim.start_verdict() == Ok::<bool, Error>(true) && self.needs_queue() {
            begun.retired()
        } else {
            begun
        }
    }

    /// The stream when a read failed.
    pub open spec fn broken(self) -> StreamState {
        self.retired().with_receiver(ReceiverState::CleanupRequired)
    }

    /// The stream with another state of its queue.
    pub open spec fn with_queue(self, queue: QueueState) -> StreamState {
        StreamState { queue: Some(queue), ..self }
    }

    /// Whether the stream can be read.
    pub open spec fn running_verdict(self, session: SessionState) -> Result<()> {
        if session.configured_verdict() is Err {
            session.configured_verdict()
        } else if self.claim.receiver == ReceiverState::Running {
            Ok(())
        } else {
            Err(not_running())
        }
    }
}

/// How a step takes a start from `before` to `after`.
pub open spec fn start_advances(
    before: StreamState,
    after: StreamState,
    start: StartOperation,
    result: Result<usize>,
    step: StartStep,
) -> bool {
    match start.stage {
        StartStage::SwitchOff => after == before && match result {
            Ok(_) => step == StartStep::Continue(
                StartOperation { fresh: start.fresh, stage: StartStage::OpenEndpoint },
            ),
            Err(error) => falls_back(start, error, step),
        },
        StartStage::OpenEndpoint => match result {
            Ok(pending) => after == before.with_queue(
                QueueState::fresh(pending),
            ) && step == StartStep::Continue(
                StartOperation { fresh: start.fresh, stage: StartStage::SwitchOn },
            ),
            Err(error) => after == before && falls_back(start, error, step),
        },
        StartStage::SwitchOn => match result {
            Ok(_) => if start.fresh {
                after == before && step == StartStep::Continue(
                    StartOperation { fresh: true, stage: StartStage::ClearHalt },
                )
            } else {
                after == before.with_receiver(ReceiverState::Running)
                    && starts(step, Seq::empty())
            },
            Err(error) => after == before && falls_back(start, error, step),
        },
        StartStage::ClearHalt => match result {
            Ok(_) => after == before.with_queue(
                QueueState {
                    spare: Seq::empty(),
                    initialized: true,
                    ..before.queue->Some_0
                },
            ).with_receiver(ReceiverState::Running) && starts(
                step,
                before.queue->Some_0.spare,
            ),
            Err(error) => after == before && falls_back(start, error, step),
        },
        StartStage::Fallback(error) => after == before && step
            == StartStep::Failed(error),
    }
}

/// How a stop that came to `result` takes a stream from `before` to `after`.
pub open spec fn stop_concludes(
    before: StreamState,
    after: StreamState,
    result: Result<()>,
    pending: usize,
    stopped: Result<Option<Vec<u8>>>,
) -> bool {
    match (result, stopped) {
        (Ok(_), Ok(buffer)) => match before.queue {
            Some(queue) => queue::content(buffer) == queue.recycled() && after == (
            StreamState { consumed: 0, ..before }).with_queue(
                queue.paused(pending, before.whole),
            ).with_receiver(ReceiverState::Stopped),
            None => buffer is None && after == before.with_receiver(
                ReceiverState::Stopped,
            ),
        },
        (Err(error), Err(same)) => same == error && after == before,
        _ => false,
    }
}

/// Whether a completion is needed to have a current block, and how finding that there is no
/// endpoint takes a stream from `before` to `after`.
pub open spec fn needs(before: StreamState, after: StreamState, result: Result<bool>) -> bool {
    let queue = before.queue->Some_0;
    if queue.current is Some || queue.open {
        &&& result == Ok::<bool, Error>(queue.current is None)
        &&& after == before
    } else {
        &&& result == Err::<bool, Error>(queue_closed())
        &&& after == before.broken()
    }
}

/// How a completion takes a stream from `before` to `after`.
pub open spec fn accepts(
    before: StreamState,
    after: StreamState,
    completion: BulkInCompletion,
    result: Result<Option<Vec<u8>>>,
) -> bool {
    let queue = before.queue->Some_0;
    let taken = before.with_queue(
        queue.accepted(
            completion.buffer@,
            completion.actual_len,
            completion.status,
        ),
    );
    match queue.verdict(
        completion.buffer@.len(),
        completion.actual_len,
        completion.status,
    ) {
        Ok(true) => result == Ok::<Option<Vec<u8>>, Error>(None) && after
            == taken,
        Ok(false) => result == Ok::<Option<Vec<u8>>, Error>(
            Some(completion.buffer),
        ) && after == taken,
        Err(error) => result == Err::<Option<Vec<u8>>, Error>(error) && after
            == taken.broken(),
    }
}

/// What the current block of a stream is.
pub open spec fn shows(stream: StreamState, result: Result<SampleBlock<'_>>) -> bool {
    match (stream.queue, result) {
        (Some(queue), Ok(block)) => queue.current is Some && block@ == (Block {
            raw: queue.current->Some_0.take(queue.current_len as int),
            sample_count: (queue.current_len / 2) as usize,
            dropped_samples: queue.dropped_samples,
        }),
        (Some(queue), Err(error)) => queue.current is None && error == (
        Error::StreamClosed { reason: "RX queue has no current block" }),
        (None, Err(error)) => error == queue_closed(),
        (None, Ok(_)) => false,
    }
}

/// How beginning to read takes a stream from `before` to `after`.
pub open spec fn read_begins(
    before: StreamState,
    after: StreamState,
    session: SessionState,
    wanted: usize,
    result: Result<bool>,
) -> bool {
    let queue = before.queue->Some_0;
    if before.running_verdict(session) is Err {
        &&& result == Err::<bool, Error>(
            before.running_verdict(session)->Err_0,
        )
        &&& after == before
    } else if wanted == 0 || queue.current is Some || queue.open {
        &&& result == Ok::<bool, Error>(wanted != 0 && queue.current is None)
        &&& after == before
    } else {
        &&& result == Err::<bool, Error>(queue_closed())
        &&& after == before.broken()
    }
}

/// How reading at most `wanted` samples takes a stream from `before` to `after`.
pub open spec fn reads(
    before: StreamState,
    after: StreamState,
    wanted: usize,
    result: (Vec<(u8, u8)>, Option<Vec<u8>>),
) -> bool {
    match before.queue {
        Some(queue) => {
            let count = processing::available(queue, before.consumed, wanted as nat);
            let consumed = before.consumed + 2 * count;
            &&& queue.current is None ==> result.0@.len() == 0
            &&& queue.current matches Some(bytes) ==> result.0@ == processing::pairs(
                bytes,
                before.consumed,
                count,
            )
            &&& if queue.current is Some && consumed == queue.current_len {
                &&& after == (StreamState {
                    consumed: 0,
                    ..before
                }).with_queue(queue.released())
                &&& queue::content(result.1) == queue.recycled()
            } else {
                &&& after == (StreamState { consumed, ..before })
                &&& result.1 is None
            }
        },
        None => after == before && result.0@.len() == 0 && result.1 is None,
    }
}

impl<M: SampleMode> Receiver<M> {
    /// A stream that was not started.
    pub fn new(claim: RxStreamClaim) -> (receiver: Receiver<M>)
        requires
            claim@.receiver != ReceiverState::Running,
        ensures
            receiver@ == StreamState::dormant(claim@, delivers_whole::<M>()),
            receiver@.wf(),
    {
        Receiver {
            queue: None,
            processor: M::Processor::fresh(),
            stats: StreamingStats::default(),
            claim,
        }
    }

    /// The claim.
    pub fn claim(&self) -> (claim: &RxStreamClaim)
        ensures
            claim@ == self@.claim,
    {
        &self.claim
    }

    /// Whether the endpoint is in use. An endpoint that is not is to be canceled and dropped.
    pub fn uses_endpoint(&self) -> (result: bool)
        ensures
            result == (self@.queue matches Some(queue) && queue.open),
    {
        match &self.queue {
            Some(queue) => !queue.is_closed(),
            None => false,
        }
    }

    /// Whether counting one more completion of `len` bytes overflows nothing.
    pub fn countable(&self, len: usize) -> (result: bool)
        ensures
            result == self@.countable(len),
            result && self@.wf() ==> self@.fits(),
    {
        match &self.queue {
            Some(queue) => queue.stats().buffers_received < u64::MAX - self.stats.buffers_received
                && queue.countable(len, M::Processor::delivers_whole()),
            None => true,
        }
    }

    /// Counters accumulated across reads, stops and restarts.
    pub fn current_stats(&self) -> (stats: StreamingStats)
        requires
            self@.fits(),
        ensures
            stats == self@.totals(),
    {
        match &self.queue {
            Some(queue) => self.stats.combined(queue.stats()),
            None => self.stats,
        }
    }

    /// Give the queue up and keep its counters.
    pub fn retire_stream(&mut self)
        requires
            old(self)@.fits(),
        ensures
            final(self)@ == old(self)@.retired(),
            old(self)@.wf() && old(self)@.claim.receiver != ReceiverState::Running ==> final(
                self)@.wf(),
    {
        if let Some(mut queue) = self.queue.take() {
            self.stats.accumulate(queue.close());
        }
        self.processor.reset();
    }

    /// Begin to start. The result is what to do, unless the stream is running already.
    pub fn start(&mut self) -> (result: Result<Option<StartOperation>>)
        requires
            old(self)@.wf(),
            old(self)@.fits(),
        ensures
            final(self)@ == old(self)@.starting(),
            final(self)@.wf(),
            match result {
                Ok(Some(start)) => old(self)@.claim.start_verdict() == Ok::<bool, Error>(true)
                    && start == (StartOperation {
                    fresh: old(self)@.needs_queue(),
                    stage: if old(self)@.needs_queue() {
                        StartStage::SwitchOff
                    } else {
                        StartStage::SwitchOn
                    },
                }),
                Ok(None) => old(self)@.claim.start_verdict() == Ok::<bool, Error>(false),
                Err(error) => old(self)@.claim.start_verdict() == Err::<bool, Error>(error),
            },
    {
        if !self.claim.begin_start()? {
            return Ok(None);
        }
        let fresh: bool = match &self.queue {
            Some(queue) => !queue.is_initialized() || queue.is_closed(),
            None => true,
        };
        if fresh {
            self.retire_stream();
            Ok(Some(StartOperation { fresh, stage: StartStage::SwitchOff }))
        } else {
            Ok(Some(StartOperation { fresh, stage: StartStage::SwitchOn }))
        }
    }

    /// Go on with a start by what its step came to.
    pub fn advance_start(&mut self, start: StartOperation, result: Result<usize>) -> (step:
        StartStep)
        requires
            old(self)@.wf(),
            start.stage is OpenEndpoint ==> old(self)@.queue is None,
            start.stage is ClearHalt || start.stage is SwitchOn ==> old(self)@.queue is Some,
        ensures
            final(self)@.wf(),
            start_advances(old(self)@, final(self)@, start, result, step),
    {
        let fresh: bool = start.fresh;
        match start.stage {
            StartStage::SwitchOff => match result {
                Ok(_) => proceed(fresh, StartStage::OpenEndpoint),
                Err(error) => proceed(fresh, StartStage::Fallback(error)),
            },
            StartStage::OpenEndpoint => match result {
                Ok(pending) => {
                    self.queue = Some(Queue::new(pending));
                    proceed(fresh, StartStage::SwitchOn)
                },
                Err(error) => proceed(fresh, StartStage::Fallback(error)),
            },
            StartStage::SwitchOn => match result {
                Ok(_) => if fresh {
                    proceed(fresh, StartStage::ClearHalt)
                } else {
                    self.claim.set_receiver_state(ReceiverState::Running);
                    let none: Vec<Vec<u8>> = Vec::new();
                    assert(queue::contents(none@) =~= Seq::empty());
                    StartStep::Started(none)
                },
                Err(error) => proceed(fresh, StartStage::Fallback(error)),
            },
            StartStage::ClearHalt => match result {
                Ok(_) => self.submit_all(),
                Err(error) => proceed(fresh, StartStage::Fallback(error)),
            },
            StartStage::Fallback(error) => StartStep::Failed(error),
        }
    }

    /// Take the buffers to submit and count as running.
    fn submit_all(&mut self) -> (step: StartStep)
        requires
            old(self)@.wf(),
            old(self)@.queue is Some,
        ensures
            final(self)@.wf(),
            final(self)@ == old(self)@.with_queue(
                QueueState {
                    spare: Seq::empty(),
                    initialized: true,
                    ..old(self)@.queue->Some_0
                },
            ).with_receiver(ReceiverState::Running),
            starts(step, old(self)@.queue->Some_0.spare),
    {
        let mut buffers: Vec<Vec<u8>> = Vec::new();
        if let Some(mut queue) = self.queue.take() {
            if let Ok(spare) = queue.initialize(Ok(())) {
                buffers = spare;
            }
            self.queue = Some(queue);
        }
        self.claim.set_receiver_state(ReceiverState::Running);
        StartStep::Started(buffers)
    }

    /// Begin to stop. The result is whether the receive endpoint is to be switched off.
    pub fn stop(&mut self) -> (started: bool)
        requires
            old(self)@.wf(),
        ensures
            final(self)@ == (StreamState { claim: old(self)@.claim.stopping(), ..old(self)@ }),
            final(self)@.wf(),
            started == (old(self)@.claim.receiver != ReceiverState::Stopped),
    {
        self.claim.begin_stop()
    }

    /// Conclude a stop by what switching the receive endpoint off came to, with `pending` transfers
    /// in flight. A block that was not delivered counts as dropped. Success hands a buffer back to submit again; after that, the transfers in flight
    /// are to be canceled.
    pub fn conclude_stop(&mut self, result: Result<()>, pending: usize) -> (stopped: Result<
        Option<Vec<u8>>,
    >)
        requires
            old(self)@.wf(),
            old(self)@.countable(0),
            pending < usize::MAX,
        ensures
            final(self)@.wf(),
            stop_concludes(old(self)@, final(self)@, result, pending, stopped),
    {
        match result {
            Ok(_) => {
                let mut buffer: Option<Vec<u8>> = None;
                if let Some(mut queue) = self.queue.take() {
                    buffer = queue.pause(pending, M::Processor::delivers_whole());
                    self.queue = Some(queue);
                }
                self.processor.reset();
                self.claim.set_receiver_state(ReceiverState::Stopped);
                Ok(buffer)
            },
            Err(error) => Err(error),
        }
    }

    /// Check that the stream can be read.
    pub fn ensure_running(&self, session: &Session) -> (verdict: Result<()>)
        ensures
            verdict == self@.running_verdict(session@),
    {
        session.ensure_configured()?;
        if self.claim.receiver_state() == ReceiverState::Running {
            Ok(())
        } else {
            Err(Error::stream_closed("RX stream is stopped or requires cleanup"))
        }
    }

    /// Give the queue up after a failed read; the stream then requires cleanup.
    fn failed_read(&mut self)
        requires
            old(self)@.wf(),
            old(self)@.fits(),
        ensures
            final(self)@ == old(self)@.broken(),
            final(self)@.wf(),
    {
        self.retire_stream();
        self.claim.set_receiver_state(ReceiverState::CleanupRequired);
    }

    /// Whether a completion is needed to have a current block. Without an endpoint, the read fails.
    pub fn needs_completion(&mut self) -> (result: Result<bool>)
        requires
            old(self)@.wf(),
            old(self)@.fits(),
            old(self)@.queue is Some,
        ensures
            final(self)@.wf(),
            needs(old(self)@, final(self)@, result),
    {
        let result: Result<bool> = match &self.queue {
            Some(queue) => queue.needs_completion(),
            None => Err(Error::stream_closed("RX queue is closed")),
        };
        if result.is_err() {
            self.failed_read();
        }
        result
    }

    /// Take a completion. `None` is a usable block; a completion from before a restart hands its
    /// buffer back, to be submitted again. A completion that failed breaks the stream.
    pub fn accept(&mut self, completion: BulkInCompletion) -> (result: Result<Option<Vec<u8>>>)
        requires
            old(self)@.wf(),
            old(self)@.queue matches Some(queue) && queue.open && queue.current is None,
            old(self)@.countable(completion.actual_len),
        ensures
            final(self)@.wf(),
            accepts(old(self)@, final(self)@, completion, result),
    {
        let mut result: Result<Option<Vec<u8>>> = Ok(None);
        if let Some(mut queue) = self.queue.take() {
            result = queue.accept(completion);
            self.queue = Some(queue);
        }
        if result.is_err() {
            self.failed_read();
        }
        result
    }

    /// Give the stream up for closing: what is left is its claim and its counters.
    pub fn into_close_parts(self) -> (parts: (RxStreamClaim, StreamingStats))
        requires
            self@.fits(),
        ensures
            parts.0@ == self@.claim,
            parts.1 == self@.totals(),
    {
        let mut receiver = self;
        receiver.retire_stream();
        (receiver.claim, receiver.stats)
    }
}

/// Whether a failed step goes on with the fallback that reports its failure.
pub open spec fn falls_back(start: StartOperation, error: Error, step: StartStep) -> bool {
    step == StartStep::Continue(
        StartOperation { fresh: start.fresh, stage: StartStage::Fallback(error) },
    )
}

/// Whether a step has the stream running, with buffers of the given contents to submit.
pub open spec fn starts(step: StartStep, buffers: Seq<Seq<u8>>) -> bool {
    step matches StartStep::Started(submitted) && queue::contents(submitted@) == buffers
}

/// A step that goes on with another stage.
fn proceed(fresh: bool, stage: StartStage) -> (step: StartStep)
    ensures
        step == StartStep::Continue(StartOperation { fresh, stage }),
{
    StartStep::Continue(StartOperation { fresh, stage })
}

impl Receiver<RawIq> {
    /// Begin to read a block: release the one before, whose buffer is to be submitted again.
    pub fn next_block(&mut self, session: &Session) -> (result: Result<Option<Vec<u8>>>)
        requires
            old(self)@.wf(),
        ensures
            final(self)@.wf(),
            match result {
                Ok(buffer) => old(self)@.running_verdict(session@) is Ok && queue::content(buffer)
                    == old(self)@.queue->Some_0.recycled() && final(self)@ == old(
                    self)@.with_queue(old(self)@.queue->Some_0.released()),
                Err(error) => old(self)@.running_verdict(session@) == Err::<(), Error>(error)
                    && final(self)@ == old(self)@,
            },
    {
        self.ensure_running(session)?;
        let mut buffer: Option<Vec<u8>> = None;
        if let Some(mut queue) = self.queue.take() {
            buffer = queue.release_current();
            self.queue = Some(queue);
        }
        Ok(buffer)
    }

    /// The current block.
    pub fn current_block(&self) -> (result: Result<SampleBlock<'_>>)
        requires
            self@.wf(),
        ensures
            shows(self@, result),
    {
        match &self.queue {
            Some(queue) => queue.block(),
            None => Err(Error::stream_closed("RX queue is closed")),
        }
    }
}

impl Receiver<F32Iq> {
    /// Begin to read samples. The result is whether a completion is needed: not for an empty read,
    /// nor while samples of a block are left.
    pub fn begin_read(&mut self, session: &Session, wanted: usize) -> (result: Result<bool>)
        requires
            old(self)@.wf(),
            old(self)@.fits(),
        ensures
            final(self)@.wf(),
            read_begins(old(self)@, final(self)@, session@, wanted, result),
    {
        self.ensure_running(session)?;
        if wanted == 0 {
            return Ok(false);
        }
        self.needs_completion()
    }

    /// Hand out at most `wanted` samples of the current block. The last sample hands its buffer
    /// back, to be submitted again.
    pub fn read(&mut self, wanted: usize) -> (result: (Vec<(u8, u8)>, Option<Vec<u8>>))
        requires
            old(self)@.wf(),
        ensures
            final(self)@.wf(),
            reads(old(self)@, final(self)@, wanted, result),
    {
        if let Some(mut queue) = self.queue.take() {
            let result = self.processor.process(&mut queue, wanted);
            self.queue = Some(queue);
            return result;
        }
        (Vec::new(), None)
    }
}

} // verus!
