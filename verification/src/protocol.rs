//! Length-prefixed message framing: a two-byte big-endian length followed by
//! that many payload bytes.
//!
//! The functions here work on bytes held in memory. A caller that owns a
//! socket reads two bytes, asks [`parse_length_prefix`] how many more to read,
//! and hands a whole frame built by [`write_framed`] to the socket in one go.

use vstd::prelude::*;

verus! {

/// Largest payload a single frame can carry.
pub const MAX_PAYLOAD: usize = 65535;

/// Number of bytes in the length prefix.
pub const PREFIX_LEN: usize = 2;

/// Why a frame could not be written or read.
#[derive(Debug, Clone, Copy, PartialEq, Eq, Structural)]
pub enum FrameError {
    /// The length prefix announced an empty payload.
    ZeroLength,
    /// The payload does not fit the two-byte length prefix.
    PayloadTooLarge { len: usize },
    /// The stream ended before the prefix or the announced payload was complete.
    UnexpectedEof,
}

/// A read position over bytes held in memory.
pub struct Cursor {
    data: Vec<u8>,
    pos: usize,
}

/// The two-byte big-endian prefix that announces a payload of `len` bytes.
pub open spec fn spec_length_prefix(len: int) -> Seq<u8> {
    seq![(len / 256) as u8, (len % 256) as u8]
}

/// The payload length that a prefix of the two bytes `hi`, `lo` announces.
pub open spec fn spec_prefix_value(hi: u8, lo: u8) -> int {
    hi as int * 256 + lo as int
}

/// The wire image of one frame carrying `payload`.
pub open spec fn spec_frame(payload: Seq<u8>) -> Seq<u8> {
    spec_length_prefix(payload.len() as int) + payload
}

/// What reading one frame from the front of `input` yields.
pub open spec fn spec_read_result(input: Seq<u8>) -> Result<Seq<u8>, FrameError> {
    if input.len() < 2 {
        Err(FrameError::UnexpectedEof)
    } else if spec_prefix_value(input[0], input[1]) == 0 {
        Err(FrameError::ZeroLength)
    } else if input.len() < 2 + spec_prefix_value(input[0], input[1]) {
        Err(FrameError::UnexpectedEof)
    } else {
        Ok(input.subrange(2, 2 + spec_prefix_value(input[0], input[1])))
    }
}

/// How many bytes of `input` reading one frame uses up. A read that runs out
/// of bytes takes everything that was there; a zero length is noticed after
/// the prefix.
pub open spec fn spec_read_consumed(input: Seq<u8>) -> int {
    if input.len() < 2 {
        input.len() as int
    } else if spec_prefix_value(input[0], input[1]) == 0 {
        2
    } else if input.len() < 2 + spec_prefix_value(input[0], input[1]) {
        input.len() as int
    } else {
        2 + spec_prefix_value(input[0], input[1])
    }
}

impl Cursor {
    /// Every byte the cursor was made over.
    pub closed spec fn bytes(&self) -> Seq<u8> {
        self.data@
    }

    /// How many of the bytes have been read.
    pub closed spec fn consumed(&self) -> int {
        self.pos as int
    }

    /// The bytes not read yet.
    pub open spec fn remaining(&self) -> Seq<u8> {
        self.bytes().skip(self.consumed())
    }

    #[verifier::type_invariant]
    spec fn in_bounds(&self) -> bool {
        self.pos <= self.data.len()
    }

    /// A cursor at the start of `data`.
    pub fn new(data: Vec<u8>) -> (cursor: Cursor)
        ensures
            cursor.bytes() == data@,
            cursor.consumed() == 0,
    {
        Cursor { data, pos: 0 }
    }

    /// The number of bytes read so far.
    pub fn position(&self) -> (pos: usize)
        ensures
            pos == self.consumed(),
            pos <= self.bytes().len(),
    {
        proof {
            use_type_invariant(self);
        }
        self.pos
    }
}

/// Decodes a length prefix. Zero is the only value refused.
pub fn parse_length_prefix(hi: u8, lo: u8) -> (result: Result<usize, FrameError>)
    ensures
        spec_prefix_value(hi, lo) == 0 ==> result == Err::<usize, FrameError>(
            FrameError::ZeroLength,
        ),
        spec_prefix_value(hi, lo) != 0 ==> result == Ok::<usize, FrameError>(
            spec_prefix_value(hi, lo) as usize,
        ),
        result is Ok ==> 1 <= result->Ok_0 <= MAX_PAYLOAD,
{
    let len: usize = (hi as usize) * 256 + (lo as usize);
    if len == 0 {
        Err(FrameError::ZeroLength)
    } else {
        Ok(len)
    }
}

/// Encodes the length prefix for a payload of `len` bytes.
pub fn length_prefix(len: usize) -> (prefix: [u8; 2])
    requires
        len <= MAX_PAYLOAD,
    ensures
        prefix@ == spec_length_prefix(len as int),
        spec_prefix_value(prefix[0], prefix[1]) == len,
{
    let hi: u8 = (len / 256) as u8;
    let lo: u8 = (len % 256) as u8;
    let prefix: [u8; 2] = [hi, lo];
    assert(prefix@ =~= spec_length_prefix(len as int));
    prefix
}

/// Appends one frame carrying `data` to `stream`. A payload over
/// [`MAX_PAYLOAD`] bytes is refused and nothing is appended, so no partial
/// frame is ever left behind.
pub fn write_framed(stream: &mut Vec<u8>, data: &[u8]) -> (result: Result<(), FrameError>)
    ensures
        data@.len() > MAX_PAYLOAD ==> result == Err::<(), FrameError>(
            FrameError::PayloadTooLarge { len: data.len() },
        ) && final(stream)@ == old(stream)@,
        data@.len() <= MAX_PAYLOAD ==> result == Ok::<(), FrameError>(()) && final(stream)@ == old(
            stream,
        )@ + spec_frame(data@),
{
    if data.len() > MAX_PAYLOAD {
        return Err(FrameError::PayloadTooLarge { len: data.len() });
    }
    let prefix: [u8; 2] = length_prefix(data.len());
    let ghost before = stream@;
    stream.push(prefix[0]);
    stream.push(prefix[1]);
    stream.extend_from_slice(data);
    assert(stream@ =~= before + spec_frame(data@));
    Ok(())
}

/// Reads one frame from the cursor and returns its payload.
///
/// The two prefix bytes are read first; a prefix of zero is refused. The
/// announced number of payload bytes must then all be present.
pub fn read_framed(stream: &mut Cursor) -> (result: Result<Vec<u8>, FrameError>)
    ensures
        final(stream).bytes() == old(stream).bytes(),
        final(stream).consumed() == old(stream).consumed() + spec_read_consumed(
            old(stream).remaining(),
        ),
        match result {
            Ok(payload) => spec_read_result(old(stream).remaining()) == Ok::<
                Seq<u8>,
                FrameError,
            >(payload@),
            Err(e) => spec_read_result(old(stream).remaining()) == Err::<Seq<u8>, FrameError>(e),
        },
{
    proof {
        use_type_invariant(&*stream);
    }
    let total: usize = stream.data.len();
    let start: usize = stream.pos;
    let ghost input = stream.remaining();
    assert(input.len() == total - start);
    if total - start < 2 {
        stream.pos = total;
        return Err(FrameError::UnexpectedEof);
    }
    let hi: u8 = stream.data[start];
    let lo: u8 = stream.data[start + 1];
    assert(input[0] == hi && input[1] == lo);
    let len: usize = match parse_length_prefix(hi, lo) {
        Ok(len) => len,
        Err(e) => {
            stream.pos = start + 2;
            return Err(e);
        },
    };
    if total - start - 2 < len {
        stream.pos = total;
        return Err(FrameError::UnexpectedEof);
    }
    let payload: Vec<u8> = vstd::slice::slice_to_vec(
        vstd::slice::slice_subrange(stream.data.as_slice(), start + 2, start + 2 + len),
    );
    stream.pos = start + 2 + len;
    assert(payload@ =~= input.subrange(2, 2 + len as int));
    Ok(payload)
}

/// A frame written for a payload of one to [`MAX_PAYLOAD`] bytes reads back as
/// exactly that payload, whatever follows it on the stream, and uses up the
/// frame and nothing more.
pub proof fn lemma_frame_roundtrip(payload: Seq<u8>, rest: Seq<u8>)
    requires
        1 <= payload.len() <= MAX_PAYLOAD,
    ensures
        spec_read_result(spec_frame(payload) + rest) == Ok::<Seq<u8>, FrameError>(payload),
        spec_read_consumed(spec_frame(payload) + rest) == spec_frame(payload).len(),
{
    let n = payload.len() as int;
    let input = spec_frame(payload) + rest;
    assert(input[0] == (n / 256) as u8);
    assert(input[1] == (n % 256) as u8);
    assert(spec_prefix_value(input[0], input[1]) == n);
    assert(input.subrange(2, 2 + n) =~= payload);
}

/// A stream that starts with a zero length prefix is refused, whatever
/// follows.
pub proof fn lemma_zero_length_rejected(rest: Seq<u8>)
    ensures
        spec_read_result(seq![0u8, 0u8] + rest) == Err::<Seq<u8>, FrameError>(
            FrameError::ZeroLength,
        ),
{
    let input = seq![0u8, 0u8] + rest;
    assert(input[0] == 0u8 && input[1] == 0u8);
}

} // verus!
