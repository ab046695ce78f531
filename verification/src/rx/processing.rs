//! Hand out received samples.

use crate::rx::queue;
use crate::rx::queue::{Queue, QueueState};
use vstd::prelude::*;

verus! {

/// Progress through the current USB block.
pub trait Processor: Sized {
    /// Number of bytes of the current block that were handed out.
    spec fn consumed(&self) -> nat;

    /// Whether blocks are delivered whole, as soon as they are current.
    spec fn whole() -> bool;

    /// A processor at the start of a block.
    fn fresh() -> (processor: Self)
        ensures
            processor.consumed() == 0,
    ;

    /// Go back to the start of a block.
    fn reset(&mut self)
        ensures
            final(self).consumed() == 0,
    ;

    /// Whether blocks are delivered whole, as soon as they are current.
    fn delivers_whole() -> (result: bool)
        ensures
            result == Self::whole(),
    ;
}

/// Hands out whole blocks.
#[derive(Debug)]
pub struct RawProcessor;

impl Processor for RawProcessor {
    open spec fn consumed(&self) -> nat {
        0
    }

    open spec fn whole() -> bool {
        true
    }

    fn fresh() -> (processor: Self) {
        RawProcessor
    }

    fn reset(&mut self) {
    }

    fn delivers_whole() -> (result: bool) {
        true
    }
}

/// Hands out single samples.
#[derive(Debug)]
pub struct IqProcessor {
    offset: usize,
}

impl Processor for IqProcessor {
    closed spec fn consumed(&self) -> nat {
        self.offset as nat
    }

    open spec fn whole() -> bool {
        false
    }

    fn fresh() -> (processor: Self) {
        IqProcessor { offset: 0 }
    }

    fn reset(&mut self) {
        self.offset = 0;
    }

    fn delivers_whole() -> (result: bool) {
        false
    }
}

/// `count` interleaved I/Q pairs of a block, from byte `offset` on.
pub open spec fn pairs(bytes: Seq<u8>, offset: nat, count: nat) -> Seq<(u8, u8)> {
    Seq::new(count, |i: int| (bytes[offset + 2 * i], bytes[offset + 2 * i + 1]))
}

/// Number of samples that a read of at most `wanted` takes from a block of which `consumed` bytes
/// were handed out.
pub open spec fn available(queue: QueueState, consumed: nat, wanted: nat) -> nat {
    let left = (queue.current_len - consumed) / 2;
    if queue.current is None {
        0
    } else if wanted < left {
        wanted
    } else {
        left as nat
    }
}

/// Whether a whole number of samples of the current block was handed out, and not all of them.
pub open spec fn in_step(queue: QueueState, consumed: nat) -> bool {
    &&& consumed % 2 == 0
    &&& queue.current is Some ==> consumed < queue.current_len
    &&& queue.current is None ==> consumed == 0
}

impl IqProcessor {
    /// Hand out at most `wanted` samples of the current block. The last sample releases the block,
    /// whose buffer is to be submitted again.
    pub fn process(&mut self, queue: &mut Queue, wanted: usize) -> (result: (
        Vec<(u8, u8)>,
        Option<Vec<u8>>,
    ))
        requires
            old(queue)@.wf(),
            in_step(old(queue)@, old(self).consumed()),
        ensures
            ({
                let before = old(queue)@;
                let count = available(before, old(self).consumed(), wanted as nat);
                let consumed = old(self).consumed() + 2 * count;
                &&& before.current is None ==> result.0@.len() == 0
                &&& before.current matches Some(bytes) ==> result.0@ == pairs(
                    bytes,
                    old(self).consumed(),
                    count,
                )
                &&& before.current matches Some(bytes) ==> flattened(result.0@)
                    == bytes.subrange(old(self).consumed() as int, consumed as int)
                &&& if before.current is Some && consumed == before.current_len {
                    &&& final(queue)@ == before.released()
                    &&& final(self).consumed() == 0
                    &&& queue::content(result.1) == before.recycled()
                } else {
                    &&& final(queue)@ == before
                    &&& final(self).consumed() == consumed
                    &&& result.1 is None
                }
            }),
            final(queue)@.wf(),
            in_step(final(queue)@, final(self).consumed()),
    {
        proof {
            if queue@.current is Some {
                let count = available(queue@, self.consumed(), wanted as nat);
                samples_are_the_bytes_in_order(queue@.current->Some_0, self.consumed(), count);
            }
        }
        let mut samples: Vec<(u8, u8)> = Vec::new();
        let len: usize = queue.current_len();
        let ghost start = self.offset as nat;
        if let Some(buffer) = queue.current() {
            let left: usize = (len - self.offset) / 2;
            let count: usize = if wanted < left {
                wanted
            } else {
                left
            };
            let mut i: usize = 0;
            while i < count
                invariant
                    i <= count <= (len - start) / 2,
                    self.offset == start <= len <= buffer@.len(),
                    samples@ == pairs(buffer@, start, i as nat),
                decreases count - i,
            {
                let at: usize = self.offset + 2 * i;
                samples.push((buffer[at], buffer[at + 1]));
                i = i + 1;
                assert(samples@ =~= pairs(buffer@, start, i as nat));
            }
            self.offset = self.offset + 2 * count;
        } else {
            return (samples, None);
        }
        if self.offset == len {
            self.offset = 0;
            (samples, queue.release_current())
        } else {
            (samples, None)
        }
    }
}

/// A sample component as the numerator of a fraction of 255, which maps `0..=255` evenly to
/// `-1..=1`.
pub fn component(byte: u8) -> (numerator: i16)
    ensures
        numerator == 2 * byte - 255,
{
    2 * (byte as i16) - 255
}

/// The bytes of samples, one sample after the other.
pub open spec fn flattened(samples: Seq<(u8, u8)>) -> Seq<u8>
    decreases samples.len(),
{
    if samples.len() == 0 {
        Seq::empty()
    } else {
        flattened(samples.drop_last()).push(samples.last().0).push(samples.last().1)
    }
}

/// The samples that a read hands out are the received bytes, each once and in order: flattened,
/// they are the part of the block that the read covers.
pub proof fn samples_are_the_bytes_in_order(bytes: Seq<u8>, offset: nat, count: nat)
    requires
        offset + 2 * count <= bytes.len(),
    ensures
        pairs(bytes, offset, count).len() == count,
        forall|i: int|
            0 <= i < count ==> #[trigger] pairs(bytes, offset, count)[i] == (
                bytes[offset + 2 * i],
                bytes[offset + 2 * i + 1],
            ),
        flattened(pairs(bytes, offset, count)) == bytes.subrange(
            offset as int,
            (offset + 2 * count) as int,
        ),
    decreases count,
{
    if count > 0 {
        let n = (count - 1) as nat;
        samples_are_the_bytes_in_order(bytes, offset, n);
        assert(pairs(bytes, offset, count).drop_last() =~= pairs(bytes, offset, n));
        let end: int = offset + 2 * (count - 1);
        assert(bytes.subrange(offset as int, end + 2) =~= bytes.subrange(offset as int, end).push(
            bytes[end],
        ).push(bytes[end + 1]));
    } else {
        assert(bytes.subrange(offset as int, offset as int) =~= Seq::empty());
    }
}

/// A read hands out as many samples as are wanted or left, whichever are fewer, so that reading
/// what is left hands out the rest of the block.
pub proof fn reads_take_what_is_left(queue: QueueState, consumed: nat, wanted: nat)
    requires
        queue.wf(),
        in_step(queue, consumed),
    ensures
        ({
            let count = available(queue, consumed, wanted);
            &&& count <= wanted
            &&& queue.current is None ==> count == 0
            &&& queue.current is Some ==> {
                &&& consumed + 2 * count <= queue.current_len
                &&& count == wanted || consumed + 2 * count == queue.current_len
                &&& wanted > 0 ==> count > 0
            }
        }),
{
}

/// Reading a block in two parts gives the same samples as reading it at once.
pub proof fn reads_continue_each_other(bytes: Seq<u8>, offset: nat, first: nat, second: nat)
    ensures
        pairs(bytes, offset, first) + pairs(bytes, offset + 2 * first, second) == pairs(
            bytes,
            offset,
            first + second,
        ),
{
    assert(pairs(bytes, offset, first) + pairs(bytes, offset + 2 * first, second) =~= pairs(
        bytes,
        offset,
        first + second,
    ));
}

} // verus!
