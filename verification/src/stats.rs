//! Write statistics kept by the output sinks.

use vstd::prelude::*;

verus! {

/// Counts the chunks and bytes a sink has written. Both counters only
/// grow, saturating at the top of their range rather than wrapping.
#[derive(Debug, Copy, Clone, PartialEq, Eq, Structural)]
pub struct WriteStatistics {
    /// Number of chunks written so far.
    pub chunks: u64,
    /// Number of bytes written so far.
    pub bytes: u64,
}

impl WriteStatistics {
    /// Fresh statistics: nothing written yet.
    pub fn new() -> (r: WriteStatistics)
        ensures
            r.chunks == 0,
            r.bytes == 0,
    {
        WriteStatistics { chunks: 0, bytes: 0 }
    }

    /// Counts `n` more chunks.
    pub fn increment_chunks(&mut self, n: u64)
        ensures
            final (self).chunks == if old(self).chunks + n <= u64::MAX {
                old(self).chunks + n
            } else {
                u64::MAX as int
            },
            final (self).chunks >= old(self).chunks,
            final (self).bytes == old(self).bytes,
    {
        if self.chunks <= u64::MAX - n {
            self.chunks = self.chunks + n;
        } else {
            self.chunks = u64::MAX;
        }
    }

    /// Counts `n` more bytes.
    pub fn increment_bytes(&mut self, n: u64)
        ensures
            final (self).bytes == if old(self).bytes + n <= u64::MAX {
                old(self).bytes + n
            } else {
                u64::MAX as int
            },
            final (self).bytes >= old(self).bytes,
            final (self).chunks == old(self).chunks,
    {
        if self.bytes <= u64::MAX - n {
            self.bytes = self.bytes + n;
        } else {
            self.bytes = u64::MAX;
        }
    }
}

/// A writer paired with statistics about what went through it. The writes
/// themselves are I/O and happen outside this library; callers record each
/// written buffer here, so the counters mirror the stream.
pub struct WriterSink<W> {
    /// The underlying writer.
    pub inner: W,
    /// How many chunks and bytes have been recorded.
    pub statistics: WriteStatistics,
}

impl<W> WriterSink<W> {
    /// Wraps a writer with fresh statistics.
    pub fn new(inner: W) -> (r: WriterSink<W>)
        ensures
            r.inner == inner,
            r.statistics.chunks == 0,
            r.statistics.bytes == 0,
    {
        WriterSink { inner, statistics: WriteStatistics::new() }
    }

    /// Records one written buffer of `buffer_len` bytes.
    pub fn record(&mut self, buffer_len: u64)
        ensures
            final (self).statistics.chunks == if old(self).statistics.chunks + 1 <= u64::MAX {
                old(self).statistics.chunks + 1
            } else {
                u64::MAX as int
            },
            final (self).statistics.bytes == if old(self).statistics.bytes + buffer_len
                <= u64::MAX {
                old(self).statistics.bytes + buffer_len
            } else {
                u64::MAX as int
            },
            final (self).statistics.chunks >= old(self).statistics.chunks,
            final (self).statistics.bytes >= old(self).statistics.bytes,
            final (self).inner == old(self).inner,
    {
        self.statistics.increment_chunks(1);
        self.statistics.increment_bytes(buffer_len);
    }
}

} // verus!
