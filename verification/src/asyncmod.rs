//! The book-keeping of the buffered transfer strategies: how many bytes
//! went across, when a transfer ends, and whether all of the source arrived.
//!
//! The caller reads and writes; after each read it reports the length here
//! and learns whether to go on.

use vstd::prelude::*;

verus! {

/// The size of one transfer buffer, in bytes.
pub const BUFSIZE: usize = 1024 * 1024;

/// How many buffers the pipelined strategy keeps in flight between its
/// reader and its writer.
pub const CHANNEL_DEPTH: usize = 4;

/// The bytes that arrived are not the bytes of the source.
#[derive(Debug, Clone, Copy, PartialEq, Eq, Structural)]
pub struct IntegrityFault {
    /// The size of the source.
    pub expected: u64,
    /// The bytes that were transferred; `u64::MAX` stands for that many or
    /// more.
    pub transferred: u64,
}

/// A byte count as far as it matters here: every count past the largest
/// file size is the same count.
pub open spec fn capped(bytes: int) -> int {
    if bytes > u64::MAX {
        u64::MAX + 1
    } else {
        bytes
    }
}

/// The sum of the lengths of a sequence of chunks.
pub open spec fn sum(lengths: Seq<usize>) -> int
    decreases lengths.len(),
{
    if lengths.len() == 0 {
        0
    } else {
        sum(lengths.drop_last()) + lengths.last()
    }
}

/// The running total of one transfer.
#[derive(Debug)]
pub struct Tally {
    total: u64,
    beyond: bool,  // more than `u64::MAX` bytes went across
}

impl View for Tally {
    type V = int;

    closed spec fn view(&self) -> int {
        if self.beyond {
            u64::MAX + 1
        } else {
            self.total as int
        }
    }
}

impl Tally {
    /// The total of a transfer that starts.
    pub fn new() -> (tally: Tally)
        ensures
            tally@ == 0,
    {
        Tally { total: 0, beyond: false }
    }

    // Adds the length of one chunk.
    fn add(&mut self, length: usize)
        ensures
            final(self)@ == capped(old(self)@ + length),
    {
        if !self.beyond {
            match self.total.checked_add(length as u64) {
                Some(total) => {
                    self.total = total;
                },
                None => {
                    self.beyond = true;
                },
            }
        }
    }
}

/// The total after a sequence of chunks went across.
pub open spec fn tally_after(start: int, lengths: Seq<usize>) -> int
    decreases lengths.len(),
{
    if lengths.len() == 0 {
        start
    } else {
        capped(tally_after(start, lengths.drop_last()) + lengths.last())
    }
}

/// What a finished transfer reports: the bytes transferred where they are
/// as many as the source has, and a fault otherwise.
pub open spec fn outcome(transferred: int, fromsize: u64) -> Result<u64, IntegrityFault> {
    if transferred == fromsize {
        Ok(fromsize)
    } else {
        Err(
            IntegrityFault {
                expected: fromsize,
                transferred: if transferred > u64::MAX {
                    u64::MAX
                } else {
                    transferred as u64
                },
            },
        )
    }
}

/// One pass of the single-buffer strategy, after a read of `length` bytes.
/// Returns whether the transfer goes on: a read of no bytes ends it, any
/// other read is written out in full and counted.
pub fn copymax(tally: &mut Tally, length: usize) -> (more: bool)
    ensures
        more == (length != 0),
        final(tally)@ == capped(old(tally)@ + length),
{
    if length == 0 {
        return false;
    }
    tally.add(length);
    true
}

/// The reader of the pipelined strategy, after a read of `length` bytes:
/// the chunk to hand to the writer, or `None` to close the channel because
/// the source has ended.
pub fn copych_reader(length: usize) -> (chunk: Option<usize>)
    ensures
        chunk == if length == 0 {
            None
        } else {
            Some(length)
        },
{
    if length == 0 {
        None
    } else {
        Some(length)
    }
}

/// The writer of the pipelined strategy, after it asked the channel for a
/// chunk. Returns whether the transfer goes on: a closed channel ends it,
/// a chunk is counted and then written out in full.
pub fn copych(tally: &mut Tally, received: Option<usize>) -> (more: bool)
    ensures
        more == received is Some,
        final(tally)@ == match received {
            Some(length) => capped(old(tally)@ + length),
            None => old(tally)@,
        },
{
    match received {
        Some(length) => {
            tally.add(length);
            true
        },
        None => false,
    }
}

/// Ends a transfer, after the destination was flushed: the bytes
/// transferred, which are as many as the source has, or else a fault.
pub fn settle(tally: &Tally, fromsize: u64) -> (report: Result<u64, IntegrityFault>)
    ensures
        report == outcome(tally@, fromsize),
        report is Ok <==> tally@ == fromsize,
        report matches Ok(bytes) ==> bytes == fromsize,
{
    if !tally.beyond && tally.total == fromsize {
        Ok(fromsize)
    } else {
        Err(
            IntegrityFault {
                expected: fromsize,
                transferred: if tally.beyond {
                    u64::MAX
                } else {
                    tally.total
                },
            },
        )
    }
}

/// The total after a sequence of chunks is their capped sum.
pub proof fn lemma_tally_is_sum(lengths: Seq<usize>)
    ensures
        tally_after(0, lengths) == capped(sum(lengths)),
        sum(lengths) >= 0,
    decreases lengths.len(),
{
    if lengths.len() > 0 {
        lemma_tally_is_sum(lengths.drop_last());
    }
}

/// A transfer whose chunks add up to the size of the source reports that
/// size; any other transfer, one that fell short above all, reports a
/// fault.
pub proof fn law_transfer_integrity(lengths: Seq<usize>, fromsize: u64)
    ensures
        sum(lengths) == fromsize ==> outcome(tally_after(0, lengths), fromsize) == Ok::<
            u64,
            IntegrityFault,
        >(fromsize),
        sum(lengths) != fromsize ==> outcome(tally_after(0, lengths), fromsize) is Err,
        sum(lengths) < fromsize ==> outcome(tally_after(0, lengths), fromsize) == Err::<
            u64,
            IntegrityFault,
        >(IntegrityFault { expected: fromsize, transferred: sum(lengths) as u64 }),
{
    lemma_tally_is_sum(lengths);
}

} // verus!
