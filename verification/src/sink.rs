//! Byte accounting for a data channel.
//!
//! A data channel only ever delivers payload bytes to be counted and
//! discarded. The surrounding I/O loop reads into its own buffer and reports
//! each read's size here; a zero-length read is the peer closing the
//! connection.

use vstd::prelude::*;

verus! {

/// Running total of the bytes one data channel has delivered.
pub struct DataSink {
    total: u64,
}

impl DataSink {
    /// Bytes counted so far.
    pub closed spec fn total(&self) -> u64 {
        self.total
    }

    /// A fresh sink: nothing counted yet.
    pub fn new() -> (s: DataSink)
        ensures
            s.total() == 0,
    {
        DataSink { total: 0 }
    }

    /// Counts one read of `n` bytes and reports whether the channel is done:
    /// a zero-length read means the peer closed the connection.
    pub fn record(&mut self, n: usize) -> (done: bool)
        requires
            old(self).total() + n <= u64::MAX,
        ensures
            final(self).total() == old(self).total() + n,
            done == (n == 0),
    {
        self.total = self.total + n as u64;
        n == 0
    }

    /// The accumulated total, reported once the channel closes.
    pub fn total_bytes(&self) -> (r: u64)
        ensures
            r == self.total(),
    {
        self.total
    }
}

/// Sum of a sequence of read sizes.
pub open spec fn sum_chunks(chunks: Seq<usize>) -> int
    decreases chunks.len(),
{
    if chunks.len() == 0 {
        0
    } else {
        chunks[0] + sum_chunks(chunks.drop_first())
    }
}

/// The sink's count after it has recorded `chunks` in order, starting from
/// `start` bytes (each record adds the read's size, as `record` ensures).
pub open spec fn total_after(start: int, chunks: Seq<usize>) -> int
    decreases chunks.len(),
{
    if chunks.len() == 0 {
        start
    } else {
        total_after(start + chunks[0], chunks.drop_first())
    }
}

/// Data-channel accounting: however a peer splits its payload into reads,
/// the sink's final count is the sum of the read sizes — a fresh sink that
/// records chunks totalling `N` bytes reports exactly `N`.
pub proof fn lemma_data_channel_accounting(start: int, chunks: Seq<usize>)
    ensures
        total_after(start, chunks) == start + sum_chunks(chunks),
    decreases chunks.len(),
{
    if chunks.len() > 0 {
        lemma_data_channel_accounting(start + chunks[0], chunks.drop_first());
    }
}

} // verus!
