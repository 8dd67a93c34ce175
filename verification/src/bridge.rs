//! Synchronous bridge over a chunked byte stream.
//!
//! A decoder expects an ordinary blocking byte source; the stream arrives as
//! byte chunks of unknown total length. The bridge buffers pushed chunks and
//! serves reads from the front. It never signals the end of the stream while
//! bytes remain, and it signals it only once the producer has finished the
//! stream; before that, an exhausted buffer only asks the caller to wait for
//! the next chunk. The source is non-seekable and its length is unknown, and
//! both are reported so rather than silently ignored.

use vstd::prelude::*;

verus! {

/// What one read of the bridge produced.
pub enum ReadOutcome {
    /// At least one byte, taken from the front of the buffered stream.
    Data(Vec<u8>),
    /// The stream has ended and every buffered byte has been read.
    End,
    /// No byte is buffered yet, but the stream has not ended: the caller
    /// must wait for the producer to push the next chunk and try again.
    Pending,
}

/// The error of an attempted seek: the bridged stream only moves forward.
pub enum SeekError {
    Unseekable,
}

/// Blocking-style byte source over buffered stream chunks.
pub struct ByteBridge {
    buffered: Vec<u8>,
    taken: usize,
    ended: bool,
}

impl ByteBridge {
    /// The bytes pushed into the bridge and not yet read.
    pub closed spec fn remaining(self) -> Seq<u8> {
        self.buffered@.skip(self.taken as int)
    }

    /// Whether the producer has declared the stream finished.
    pub closed spec fn ended(self) -> bool {
        self.ended
    }

    /// The read cursor never runs past the buffer.
    pub closed spec fn wf(self) -> bool {
        self.taken <= self.buffered.len()
    }

    /// The bridge is at the end of the stream: the producer finished it and
    /// no byte is left to read. Only here does a read return [`ReadOutcome::End`].
    pub open spec fn at_end(self) -> bool {
        self.ended() && self.remaining().len() == 0
    }

    /// A fresh bridge with nothing buffered and the stream still open.
    pub fn new() -> (b: ByteBridge)
        ensures
            b.wf(),
            b.remaining() == Seq::<u8>::empty(),
            !b.ended(),
    {
        ByteBridge { buffered: Vec::new(), taken: 0, ended: false }
    }

    /// Append one stream chunk to the buffer. A zero-length chunk is
    /// accepted and leaves the readable bytes unchanged.
    pub fn push_chunk(&mut self, chunk: Vec<u8>)
        requires
            old(self).wf(),
            !old(self).ended(),
        ensures
            final(self).wf(),
            final(self).remaining() == old(self).remaining() + chunk@,
            !final(self).ended(),
    {
        let ghost incoming_bytes = chunk@;
        if self.taken == self.buffered.len() {
            // Everything buffered so far was read: drop it before growing.
            self.buffered.clear();
            self.taken = 0;
        }
        let mut incoming = chunk;
        self.buffered.append(&mut incoming);
        proof {
            assert(self.remaining() =~= old(self).remaining() + incoming_bytes);
        }
    }

    /// Declare the stream finished: no further chunk will arrive.
    pub fn finish(&mut self)
        requires
            old(self).wf(),
        ensures
            final(self).wf(),
            final(self).remaining() == old(self).remaining(),
            final(self).ended(),
    {
        self.ended = true;
    }

    /// Whether the producer has declared the stream finished.
    pub fn is_ended(&self) -> (r: bool)
        ensures
            r == self.ended(),
    {
        self.ended
    }

    /// How many bytes are buffered and not yet read.
    pub fn available(&self) -> (n: usize)
        requires
            self.wf(),
        ensures
            n == self.remaining().len(),
    {
        self.buffered.len() - self.taken
    }

    /// Read up to `max` bytes from the front of the stream. Bytes come back
    /// exactly in stream order; the empty answer [`ReadOutcome::End`] comes
    /// exactly at the end of the stream, never before it, and
    /// [`ReadOutcome::Pending`] exactly while an open stream has nothing
    /// buffered.
    pub fn read(&mut self, max: usize) -> (r: ReadOutcome)
        requires
            old(self).wf(),
            max > 0,
        ensures
            final(self).wf(),
            final(self).ended() == old(self).ended(),
            r is End <==> old(self).at_end(),
            r is Pending <==> (!old(self).ended() && old(self).remaining().len() == 0),
            r is End || r is Pending ==> final(self).remaining() == old(self).remaining(),
            r matches ReadOutcome::Data(d) ==> {
                &&& 1 <= d@.len() <= max
                &&& d@.len() == vstd::math::min(max as int, old(self).remaining().len() as int)
                &&& d@ == old(self).remaining().take(d@.len() as int)
                &&& final(self).remaining() == old(self).remaining().skip(d@.len() as int)
            },
    {
        let avail = self.buffered.len() - self.taken;
        if avail == 0 {
            if self.ended {
                ReadOutcome::End
            } else {
                ReadOutcome::Pending
            }
        } else {
            let n = if max < avail {
                max
            } else {
                avail
            };
            let mut out: Vec<u8> = Vec::new();
            let mut i: usize = 0;
            while i < n
                invariant
                    i <= n,
                    n <= self.buffered.len() - self.taken,
                    self.taken + n <= usize::MAX,
                    out@ == self.buffered@.subrange(self.taken as int, self.taken + i),
                decreases n - i,
            {
                out.push(self.buffered[self.taken + i]);
                proof {
                    assert(out@ =~= self.buffered@.subrange(
                        self.taken as int,
                        self.taken + i + 1,
                    ));
                }
                i = i + 1;
            }
            self.taken = self.taken + n;
            proof {
                assert(out@ =~= old(self).remaining().take(n as int));
                assert(self.remaining() =~= old(self).remaining().skip(n as int));
            }
            ReadOutcome::Data(out)
        }
    }

    /// Copy up to `max` bytes from the front of the stream without
    /// consuming them: what a following read would hand out first, for
    /// probing the stream's header before decoding starts.
    pub fn peek(&self, max: usize) -> (r: Vec<u8>)
        requires
            self.wf(),
        ensures
            r@ == self.remaining().take(
                vstd::math::min(max as int, self.remaining().len() as int),
            ),
    {
        let avail = self.buffered.len() - self.taken;
        let n = if max < avail {
            max
        } else {
            avail
        };
        let mut out: Vec<u8> = Vec::new();
        let mut i: usize = 0;
        while i < n
            invariant
                i <= n,
                n <= self.buffered.len() - self.taken,
                out@ == self.buffered@.subrange(self.taken as int, self.taken + i),
            decreases n - i,
        {
            out.push(self.buffered[self.taken + i]);
            proof {
                assert(out@ =~= self.buffered@.subrange(self.taken as int, self.taken + i + 1));
            }
            i = i + 1;
        }
        proof {
            assert(out@ =~= self.remaining().take(
                vstd::math::min(max as int, self.remaining().len() as int),
            ));
        }
        out
    }

    /// The total stream length, which the bridge never knows.
    pub fn byte_len(&self) -> (r: Option<u64>)
        ensures
            r is None,
    {
        None
    }

    /// Whether the source supports seeking; it never does.
    pub fn is_seekable(&self) -> (r: bool)
        ensures
            !r,
    {
        false
    }

    /// Attempt a seek. The bridge refuses explicitly instead of quietly
    /// staying in place, and the stream state is untouched.
    pub fn seek(&mut self, _target: u64) -> (r: Result<u64, SeekError>)
        ensures
            *final(self) == *old(self),
            r is Err,
    {
        Err(SeekError::Unseekable)
    }
}

} // verus!
