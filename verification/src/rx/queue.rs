//! Persistent receive buffers, completion validation, and restart recycling.
//!
//! The caller owns the endpoint. Where a buffer has to be submitted to it, an operation hands the
//! buffer back.

use crate::errors::{Error, Result};
use crate::protocol::TRANSFER_COUNT;
use crate::rx::{Block, SampleBlock, StreamingStats};
use vstd::prelude::*;
use vstd::slice::slice_subrange;

verus! {

/// Size of a receive buffer in bytes.
pub const DEFAULT_BUFFER_SIZE: usize = 262_144;

/// Maximum number of unpacked complex `F32Iq` samples produced by one USB transfer.
///
/// Short USB transfers may contain fewer samples.
pub const MAX_F32_IQ_SAMPLES_PER_TRANSFER: usize = DEFAULT_BUFFER_SIZE / 2;

/// A finished receive transfer.
#[derive(Debug)]
pub struct BulkInCompletion {
    /// The buffer that was submitted.
    pub buffer: Vec<u8>,
    /// Number of bytes received.
    pub actual_len: usize,
    /// Whether the transfer succeeded.
    pub status: Result<()>,
}

/// Receive buffers and what became of them.
#[derive(Debug)]
pub struct Queue {
    open: bool,
    buffers: Vec<Vec<u8>>,
    initialized: bool,
    current: Option<Vec<u8>>,
    current_len: usize,
    stats: StreamingStats,
    discard_remaining: usize,
    dropped_samples: u64,
}

/// The content of a [`Queue`].
#[verifier::ext_equal]
pub struct QueueState {
    /// Whether the endpoint is in use.
    pub open: bool,
    /// Buffers that were not submitted yet.
    pub spare: Seq<Seq<u8>>,
    /// Whether the buffers were submitted.
    pub initialized: bool,
    /// The buffer that was received last, unless it was released.
    pub current: Option<Seq<u8>>,
    /// Number of bytes received into it.
    pub current_len: usize,
    /// Counters.
    pub stats: StreamingStats,
    /// Number of completions that belong to the time before a restart.
    pub discard_remaining: usize,
    /// Number of samples in buffers that were dropped.
    pub dropped_samples: u64,
}

/// The contents of buffers.
pub open spec fn contents(buffers: Seq<Vec<u8>>) -> Seq<Seq<u8>> {
    buffers.map_values(|buffer: Vec<u8>| buffer@)
}

/// The content of an optional buffer.
pub open spec fn content(buffer: Option<Vec<u8>>) -> Option<Seq<u8>> {
    match buffer {
        Some(buffer) => Some(buffer@),
        None => None,
    }
}

impl View for Queue {
    type V = QueueState;

    closed spec fn view(&self) -> QueueState {
        QueueState {
            open: self.open,
            spare: contents(self.buffers@),
            initialized: self.initialized,
            current: content(self.current),
            current_len: self.current_len,
            stats: self.stats,
            discard_remaining: self.discard_remaining,
            dropped_samples: self.dropped_samples,
        }
    }
}

impl QueueState {
    /// A queue for an endpoint that has `pending` transfers: it brings the buffers that are missing
    /// to the full number.
    pub open spec fn fresh(pending: usize) -> QueueState {
        QueueState {
            open: true,
            spare: Seq::new(
                if pending < TRANSFER_COUNT {
                    (TRANSFER_COUNT - pending) as nat
                } else {
                    0
                },
                |i: int| Seq::new(DEFAULT_BUFFER_SIZE as nat, |k: int| 0u8),
            ),
            initialized: false,
            current: None,
            current_len: 0,
            stats: StreamingStats::none(),
            discard_remaining: 0,
            dropped_samples: 0,
        }
    }

    /// Whether the queue is well formed: the current block is a positive number of whole samples
    /// within its buffer, there is one only on an endpoint in use, and the counters agree.
    pub open spec fn wf(self) -> bool {
        &&& match self.current {
            Some(buffer) => {
                &&& self.open
                &&& 0 < self.current_len <= buffer.len()
                &&& self.current_len % 2 == 0
                &&& self.stats.buffers_dropped < self.stats.buffers_received
            },
            None => self.current_len == 0,
        }
        &&& self.stats.consistent()
    }

    /// Whether counting one more completion of `len` bytes overflows nothing.
    pub open spec fn has_room(self, len: usize) -> bool {
        &&& self.stats.buffers_received < u64::MAX
        &&& self.dropped_samples + len / 2 <= u64::MAX
    }

    /// The queue without its current block.
    pub open spec fn released(self) -> QueueState {
        QueueState { current: None, current_len: 0, ..self }
    }

    /// The buffer that is submitted again when the current block is released.
    pub open spec fn recycled(self) -> Option<Seq<u8>> {
        if self.open {
            self.current
        } else {
            None
        }
    }

    /// The queue with its current block, which was not delivered, counted as dropped.
    pub open spec fn discarded(self) -> QueueState {
        if self.current is Some {
            QueueState {
                stats: StreamingStats {
                    buffers_dropped: (self.stats.buffers_dropped + 1) as u64,
                    ..self.stats
                },
                dropped_samples: (self.dropped_samples + self.current_len / 2) as u64,
                ..self.released()
            }
        } else {
            self.released()
        }
    }

    /// The queue when reception stops with `pending` transfers in flight: these, and the buffer of
    /// the current block, which is submitted again, belong to the time before the restart. The
    /// current block counts as dropped unless it was `delivered`.
    pub open spec fn paused(self, pending: usize, delivered: bool) -> QueueState {
        let left = if delivered {
            self.released()
        } else {
            self.discarded()
        };
        if self.open {
            QueueState {
                discard_remaining: if self.current is Some {
                    (pending + 1) as usize
                } else {
                    pending
                },
                ..left
            }
        } else {
            left
        }
    }

    /// Number of samples that a stop drops with the current block.
    pub open spec fn undelivered(self, delivered: bool) -> nat {
        if delivered {
            0
        } else {
            self.current_len as nat / 2
        }
    }

    /// The queue when its endpoint is given up.
    pub open spec fn closed(self) -> QueueState {
        QueueState { open: false, spare: Seq::empty(), ..self.released() }
    }

    /// Whether a completion is a usable block: not one from before a restart, not failed, and a
    /// positive number of whole samples within its buffer.
    pub open spec fn verdict(self, size: nat, len: usize, status: Result<()>) -> Result<bool> {
        if self.discard_remaining != 0 {
            Ok(false)
        } else if status is Err {
            Err(status->Err_0)
        } else if len == 0 || len % 2 != 0 || len > size {
            Err(
                Error::Protocol {
                    operation: "receive transfer",
                    reason: "completed with an unexpected length",
                },
            )
        } else {
            Ok(true)
        }
    }

    /// The queue after a completion.
    pub open spec fn accepted(self, buffer: Seq<u8>, len: usize, status: Result<()>) -> QueueState {
        let received = StreamingStats {
            buffers_received: (self.stats.buffers_received + 1) as u64,
            ..self.stats
        };
        match self.verdict(buffer.len(), len, status) {
            Ok(true) => QueueState {
                current: Some(buffer),
                current_len: len,
                stats: StreamingStats {
                    buffers_processed: (received.buffers_processed + 1) as u64,
                    ..received
                },
                ..self
            },
            Ok(false) => QueueState {
                discard_remaining: (self.discard_remaining - 1) as usize,
                stats: StreamingStats {
                    buffers_dropped: (received.buffers_dropped + 1) as u64,
                    buffers_discarded_on_restart: (received.buffers_discarded_on_restart
                        + 1) as u64,
                    ..received
                },
                dropped_samples: (self.dropped_samples + len / 2) as u64,
                ..self
            },
            Err(_) => QueueState {
                stats: StreamingStats {
                    buffers_dropped: (received.buffers_dropped + 1) as u64,
                    ..received
                },
                ..self
            }.closed(),
        }
    }
}

impl Queue {
    /// A queue for an endpoint that has `pending` transfers.
    pub fn new(pending: usize) -> (queue: Queue)
        ensures
            queue@ == QueueState::fresh(pending),
            queue@.wf(),
    {
        let missing: usize = if pending < TRANSFER_COUNT {
            TRANSFER_COUNT - pending
        } else {
            0
        };
        let mut buffers: Vec<Vec<u8>> = Vec::new();
        let ghost zeros = Seq::new(DEFAULT_BUFFER_SIZE as nat, |k: int| 0u8);
        let mut i: usize = 0;
        while i < missing
            invariant
                i <= missing,
                zeros == Seq::new(DEFAULT_BUFFER_SIZE as nat, |k: int| 0u8),
                buffers@.len() == i,
                forall|k: int| 0 <= k < i ==> (#[trigger] buffers@[k])@ == zeros,
            decreases missing - i,
        {
            let buffer: Vec<u8> = vec![0u8; DEFAULT_BUFFER_SIZE];
            assert(buffer@ =~= zeros);
            buffers.push(buffer);
            i = i + 1;
        }
        let queue = Queue {
            open: true,
            buffers,
            initialized: false,
            current: None,
            current_len: 0,
            stats: StreamingStats::default(),
            discard_remaining: 0,
            dropped_samples: 0,
        };
        assert(queue@.spare =~= QueueState::fresh(pending).spare);
        queue
    }

    /// Take the buffers to submit, if clearing the endpoint's halt succeeded.
    pub fn initialize(&mut self, result: Result<()>) -> (buffers: Result<Vec<Vec<u8>>>)
        ensures
            match (result, buffers) {
                (Ok(_), Ok(buffers)) => contents(buffers@) == old(self)@.spare && final(self)@ == (
                QueueState { spare: Seq::empty(), initialized: true, ..old(self)@ }),
                (Err(error), Err(same)) => same == error && final(self)@ == old(self)@,
                _ => false,
            },
    {
        match result {
            Ok(_) => {
                let mut buffers: Vec<Vec<u8>> = Vec::new();
                core::mem::swap(&mut buffers, &mut self.buffers);
                self.initialized = true;
                assert(self@.spare =~= Seq::empty());
                Ok(buffers)
            },
            Err(error) => Err(error),
        }
    }

    /// Whether the endpoint was given up.
    pub fn is_closed(&self) -> (closed: bool)
        ensures
            closed == !self@.open,
    {
        !self.open
    }

    /// Whether the buffers were submitted.
    pub fn is_initialized(&self) -> (initialized: bool)
        ensures
            initialized == self@.initialized,
    {
        self.initialized
    }

    /// Counters.
    pub fn stats(&self) -> (stats: StreamingStats)
        ensures
            stats == self@.stats,
    {
        self.stats
    }

    /// Whether the samples of the current block, unless it was `delivered`, and of `len` more bytes
    /// can be counted as dropped.
    pub fn countable(&self, len: usize, delivered: bool) -> (result: bool)
        ensures
            result == (self@.dropped_samples + self@.undelivered(delivered) + len / 2 <= u64::MAX),
    {
        let current: usize = if delivered {
            0
        } else {
            self.current_len / 2
        };
        let samples: u128 = self.dropped_samples as u128 + current as u128 + (len / 2) as u128;
        samples <= u64::MAX as u128
    }

    /// Release the current block. The result is its buffer, to be submitted again.
    pub fn release_current(&mut self) -> (buffer: Option<Vec<u8>>)
        ensures
            final(self)@ == old(self)@.released(),
            content(buffer) == old(self)@.recycled(),
    {
        let buffer: Option<Vec<u8>> = self.current.take();
        self.current_len = 0;
        if self.open {
            buffer
        } else {
            None
        }
    }

    /// Count the current block, which was not delivered, as dropped and release it.
    pub fn discard_current(&mut self) -> (buffer: Option<Vec<u8>>)
        requires
            old(self)@.wf(),
            old(self)@.dropped_samples + old(self)@.current_len / 2 <= u64::MAX,
        ensures
            final(self)@ == old(self)@.discarded(),
            final(self)@.wf(),
            content(buffer) == old(self)@.recycled(),
    {
        if self.current.is_some() {
            self.stats.buffers_dropped = self.stats.buffers_dropped + 1;
            self.dropped_samples = self.dropped_samples + (self.current_len / 2) as u64;
        }
        self.release_current()
    }

    /// Stop reception with `pending` transfers in flight. The current block counts as dropped
    /// unless it was `delivered`. The result is a buffer to submit again; after that, the transfers
    /// in flight are to be canceled.
    pub fn pause(&mut self, pending: usize, delivered: bool) -> (buffer: Option<Vec<u8>>)
        requires
            old(self)@.wf(),
            old(self)@.dropped_samples + old(self)@.undelivered(delivered) <= u64::MAX,
            pending < usize::MAX,
        ensures
            final(self)@ == old(self)@.paused(pending, delivered),
            final(self)@.wf(),
            content(buffer) == old(self)@.recycled(),
    {
        let buffer: Option<Vec<u8>> = if delivered {
            self.release_current()
        } else {
            self.discard_current()
        };
        if self.open {
            self.discard_remaining = if buffer.is_some() {
                pending + 1
            } else {
                pending
            };
        }
        buffer
    }

    /// Give the endpoint up. The result are the counters.
    pub fn close(&mut self) -> (stats: StreamingStats)
        ensures
            final(self)@ == old(self)@.closed(),
            stats == old(self)@.stats,
            old(self)@.stats.consistent() ==> final(self)@.wf(),
    {
        self.open = false;
        self.current = None;
        self.buffers.clear();
        self.current_len = 0;
        assert(self@.spare =~= Seq::empty());
        self.stats
    }

    /// Take a completion. `None` is a usable block; a completion from before a restart hands its
    /// buffer back, to be submitted again. A completion that failed closes the queue.
    pub fn accept(&mut self, completion: BulkInCompletion) -> (result: Result<Option<Vec<u8>>>)
        requires
            old(self)@.wf(),
            old(self)@.open,
            old(self)@.current is None,
            old(self)@.has_room(completion.actual_len),
        ensures
            final(self)@ == old(self)@.accepted(
                completion.buffer@,
                completion.actual_len,
                completion.status,
            ),
            final(self)@.wf(),
            match old(self)@.verdict(
                completion.buffer@.len(),
                completion.actual_len,
                completion.status,
            ) {
                Ok(true) => result == Ok::<Option<Vec<u8>>, Error>(None),
                Ok(false) => result == Ok::<Option<Vec<u8>>, Error>(Some(completion.buffer)),
                Err(error) => result == Err::<Option<Vec<u8>>, Error>(error),
            },
    {
        self.stats.buffers_received = self.stats.buffers_received + 1;
        if self.discard_remaining != 0 {
            self.discard_remaining = self.discard_remaining - 1;
            self.stats.buffers_dropped = self.stats.buffers_dropped + 1;
            self.stats.buffers_discarded_on_restart = self.stats.buffers_discarded_on_restart + 1;
            self.dropped_samples = self.dropped_samples + (completion.actual_len / 2) as u64;
            return Ok(Some(completion.buffer));
        }
        let len: usize = completion.actual_len;
        let checked: Result<()> = match completion.status {
            Ok(_) => if len == 0 || len % 2 != 0 || len > completion.buffer.len() {
                Err(Error::protocol("receive transfer", "completed with an unexpected length"))
            } else {
                Ok(())
            },
            Err(error) => Err(error),
        };
        match checked {
            Ok(_) => {
                self.current = Some(completion.buffer);
                self.current_len = len;
                self.stats.buffers_processed = self.stats.buffers_processed + 1;
                Ok(None)
            },
            Err(error) => {
                self.stats.buffers_dropped = self.stats.buffers_dropped + 1;
                self.close();
                Err(error)
            },
        }
    }

    /// Whether a completion is needed to have a current block.
    pub fn needs_completion(&self) -> (result: Result<bool>)
        ensures
            result == if self@.current is Some {
                Ok::<bool, Error>(false)
            } else if self@.open {
                Ok::<bool, Error>(true)
            } else {
                Err::<bool, Error>(Error::StreamClosed { reason: "RX queue is closed" })
            },
    {
        if self.current.is_some() {
            Ok(false)
        } else if self.open {
            Ok(true)
        } else {
            Err(Error::stream_closed("RX queue is closed"))
        }
    }

    /// Number of bytes in the current block.
    pub fn current_len(&self) -> (len: usize)
        ensures
            len == self@.current_len,
    {
        self.current_len
    }

    /// The buffer of the current block.
    pub fn current(&self) -> (buffer: Option<&Vec<u8>>)
        ensures
            match buffer {
                Some(buffer) => self@.current == Some(buffer@),
                None => self@.current is None,
            },
    {
        match &self.current {
            Some(buffer) => Some(buffer),
            None => None,
        }
    }

    /// The current block.
    pub fn block(&self) -> (result: Result<SampleBlock<'_>>)
        requires
            self@.wf(),
        ensures
            match result {
                Ok(block) => self@.current is Some && block@ == (Block {
                    raw: self@.current->Some_0.take(self@.current_len as int),
                    sample_count: (self@.current_len / 2) as usize,
                    dropped_samples: self@.dropped_samples,
                }) && block@.raw.len() == 2 * block@.sample_count,
                Err(error) => self@.current is None && error == (Error::StreamClosed {
                    reason: "RX queue has no current block",
                }),
            },
    {
        match &self.current {
            Some(buffer) => {
                let raw: &[u8] = slice_subrange(buffer.as_slice(), 0, self.current_len);
                assert(raw@ =~= buffer@.take(self.current_len as int));
                Ok(SampleBlock::new(raw, self.current_len / 2, self.dropped_samples))
            },
            None => Err(Error::stream_closed("RX queue has no current block")),
        }
    }
}

/// The completions of transfers, one after the other: contents of the buffers, lengths and results.
pub open spec fn accepted_all(
    queue: QueueState,
    completions: Seq<(Seq<u8>, usize, Result<()>)>,
) -> QueueState
    decreases completions.len(),
{
    if completions.len() == 0 {
        queue
    } else {
        let last = completions.last();
        accepted_all(queue, completions.drop_last()).accepted(last.0, last.1, last.2)
    }
}

/// After a pause, exactly as many completions as there were submissions in flight are discarded,
/// whatever they bring, and the queue stays open without a block; the next one is judged anew.
pub proof fn pause_discards_every_old_submission(
    queue: QueueState,
    pending: usize,
    delivered: bool,
    completions: Seq<(Seq<u8>, usize, Result<()>)>,
)
    requires
        queue.wf(),
        queue.open,
        pending < usize::MAX,
        queue.dropped_samples + queue.undelivered(delivered) <= u64::MAX,
        queue.stats.buffers_received + completions.len() <= u64::MAX,
        completions.len() <= queue.paused(pending, delivered).discard_remaining,
    ensures
        ({
            let paused = queue.paused(pending, delivered);
            let after = accepted_all(paused, completions);
            &&& paused.discard_remaining == pending + (if queue.current is Some {
                1int
            } else {
                0
            })
            &&& after.open
            &&& after.current is None
            &&& after.discard_remaining == paused.discard_remaining - completions.len()
            &&& after.stats.buffers_discarded_on_restart
                == queue.stats.buffers_discarded_on_restart + completions.len()
            &&& after.stats.buffers_processed == queue.stats.buffers_processed
        }),
    decreases completions.len(),
{
    if completions.len() > 0 {
        pause_discards_every_old_submission(
            queue,
            pending,
            delivered,
            completions.drop_last(),
        );
        lemma_accepted_all_counts(queue.paused(pending, delivered), completions.drop_last());
    }
}

proof fn lemma_accepted_all_counts(
    queue: QueueState,
    completions: Seq<(Seq<u8>, usize, Result<()>)>,
)
    requires
        queue.stats.consistent(),
        queue.stats.buffers_received + completions.len() <= u64::MAX,
        completions.len() <= queue.discard_remaining,
    ensures
        ({
            let after = accepted_all(queue, completions);
            &&& after.stats.consistent()
            &&& after.stats.buffers_received == queue.stats.buffers_received + completions.len()
            &&& after.discard_remaining == queue.discard_remaining - completions.len()
        }),
    decreases completions.len(),
{
    if completions.len() > 0 {
        lemma_accepted_all_counts(queue, completions.drop_last());
    }
}

} // verus!
