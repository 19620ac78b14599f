use vstd::prelude::*;
use crate::codec::{Frame, Header, HEADER_LEN, decode_header, decode_spec};
use crate::opcode::DecodeError;

verus! {

/// Faults of reading frames from a byte stream.
#[derive(Debug, Clone, Copy, PartialEq, Eq, Structural)]
pub enum ReadError {
    /// The bytes read do not form a header.
    Decode(DecodeError),
    /// The stream ended inside a frame.
    IoTruncated,
    /// The transport failed.
    IoError,
}

/// What the buffered bytes yield: a decode error, not yet a whole frame, or
/// the header and body of the first frame.
pub open spec fn next_frame_spec(b: Seq<u8>) -> Result<Option<(Header, Seq<u8>)>, DecodeError> {
    if b.len() < 9 {
        Ok(None)
    } else {
        match decode_spec(b) {
            Err(e) => Err(e),
            Ok(h) => if b.len() < 9 + h.length {
                Ok(None)
            } else {
                Ok(Some((h, b.subrange(9, 9 + h.length))))
            },
        }
    }
}

/// The bytes held after feeding each chunk in turn.
pub open spec fn feed_all(b: Seq<u8>, chunks: Seq<Seq<u8>>) -> Seq<u8>
    decreases chunks.len(),
{
    if chunks.len() == 0 {
        b
    } else {
        feed_all(b + chunks[0], chunks.drop_first())
    }
}

/// Assembles whole frames out of the chunks that a byte stream delivers,
/// however the stream splits them.
pub struct FrameReader {
    buf: Vec<u8>,
}

impl FrameReader {
    /// The bytes received and not yet returned as a frame.
    pub closed spec fn buffered(&self) -> Seq<u8> {
        self.buf@
    }

    pub fn new() -> (r: FrameReader)
        ensures
            r.buffered() == Seq::<u8>::empty(),
    {
        FrameReader { buf: Vec::new() }
    }

    /// Number of bytes received and not yet returned as a frame.
    pub fn buffered_len(&self) -> (r: usize)
        ensures
            r == self.buffered().len(),
    {
        self.buf.len()
    }

    /// Takes the next chunk of the stream.
    pub fn feed(&mut self, chunk: &[u8])
        ensures
            final(self).buffered() == old(self).buffered() + chunk@,
    {
        let mut i: usize = 0;
        while i < chunk.len()
            invariant
                i <= chunk@.len(),
                self.buf@ == old(self).buf@ + chunk@.subrange(0, i as int),
            decreases chunk@.len() - i,
        {
            self.buf.push(chunk[i]);
            proof {
                assert(chunk@.subrange(0, i + 1) == chunk@.subrange(0, i as int).push(chunk@[i as int]));
            }
            i = i + 1;
        }
        proof {
            assert(chunk@.subrange(0, chunk@.len() as int) == chunk@);
        }
    }

    /// Returns the first frame once all its bytes have arrived, and drops
    /// them; `None` while bytes are missing. A header that does not decode
    /// is an error, and nothing is dropped then.
    pub fn next_frame(&mut self) -> (r: Result<Option<Frame>, DecodeError>)
        ensures
            match r {
                Ok(Some(f)) => next_frame_spec(old(self).buffered()) == Ok::<
                    Option<(Header, Seq<u8>)>,
                    DecodeError,
                >(Some((f.header, f.body@))) && final(self).buffered() == old(self).buffered().skip(
                    9 + f.header.length,
                ),
                Ok(None) => next_frame_spec(old(self).buffered()) == Ok::<
                    Option<(Header, Seq<u8>)>,
                    DecodeError,
                >(None) && final(self).buffered() == old(self).buffered(),
                Err(e) => next_frame_spec(old(self).buffered()) == Err::<
                    Option<(Header, Seq<u8>)>,
                    DecodeError,
                >(e) && final(self).buffered() == old(self).buffered(),
            },
    {
        let n = self.buf.len();
        if n < HEADER_LEN {
            return Ok(None);
        }
        let h = match decode_header(self.buf.as_slice()) {
            Ok(h) => h,
            Err(e) => return Err(e),
        };
        if ((n - HEADER_LEN) as u64) < (h.length as u64) {
            return Ok(None);
        }
        let end = HEADER_LEN + h.length as usize;
        let mut body: Vec<u8> = Vec::new();
        let mut i: usize = HEADER_LEN;
        while i < end
            invariant
                HEADER_LEN <= i <= end,
                end <= n,
                n == self.buf@.len(),
                body@ == self.buf@.subrange(9, i as int),
            decreases end - i,
        {
            body.push(self.buf[i]);
            proof {
                assert(self.buf@.subrange(9, i + 1) == self.buf@.subrange(9, i as int).push(self.buf@[i as int]));
            }
            i = i + 1;
        }
        let mut rest: Vec<u8> = Vec::new();
        let mut j: usize = end;
        while j < n
            invariant
                end <= j <= n,
                n == self.buf@.len(),
                rest@ == self.buf@.subrange(end as int, j as int),
            decreases n - j,
        {
            rest.push(self.buf[j]);
            proof {
                assert(self.buf@.subrange(end as int, j + 1) == self.buf@.subrange(end as int, j as int).push(self.buf@[j as int]));
            }
            j = j + 1;
        }
        proof {
            assert(rest@ =~= self.buf@.skip(end as int));
        }
        self.buf = rest;
        Ok(Some(Frame { header: h, body }))
    }

    /// At the end of the stream: fine when no partial frame is left,
    /// `IoTruncated` when the stream stopped inside one.
    pub fn finish(&self) -> (r: Result<(), ReadError>)
        ensures
            r is Ok <==> self.buffered().len() == 0,
            r is Err ==> r == Err::<(), ReadError>(ReadError::IoTruncated),
    {
        if self.buf.len() == 0 {
            Ok(())
        } else {
            Err(ReadError::IoTruncated)
        }
    }
}

/// Feeding the reader chunk by chunk leaves it holding the same bytes as
/// feeding their concatenation at once, so it yields the same frame however
/// the stream was split.
pub proof fn lemma_partial_reads(start: Seq<u8>, chunks: Seq<Seq<u8>>)
    ensures
        feed_all(start, chunks) == start + chunks.flatten(),
        next_frame_spec(feed_all(start, chunks)) == next_frame_spec(start + chunks.flatten()),
    decreases chunks.len(),
{
    if chunks.len() > 0 {
        lemma_partial_reads(start + chunks[0], chunks.drop_first());
        assert(start + chunks[0] + chunks.drop_first().flatten() =~= start + chunks.flatten());
    } else {
        assert(start + chunks.flatten() =~= start);
    }
}

} // verus!
