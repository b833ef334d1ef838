//! Framing of the messages between the command line and the player: a
//! four-byte big-endian length, then the body.

use vstd::prelude::*;

use crate::command::{decimal_digits, push_decimal_digits};

verus! {

/// The largest request body, in bytes.
pub const MAX_REQUEST_SIZE: usize = 4096;

/// The largest response body, in bytes.
pub const MAX_RESPONSE_SIZE: usize = 33554432;

/// The largest length the four-byte header holds.
pub const MAX_FRAME_LENGTH: u64 = 0xffff_ffff;

/// Why a frame cannot be sent or received.
#[derive(Debug, Clone)]
pub enum FrameError {
    /// The body is larger than the limit; the message says by how much.
    TooLarge(String),
    /// The length does not fit the four-byte header.
    TooLong,
}

/// The message for a body of `size` bytes over the limit `max_size`.
pub open spec fn too_large_message(description: Seq<char>, size: nat, max_size: nat) -> Seq<char> {
    description + " is "@ + decimal_digits(size) + " bytes, but the maximum is "@ + decimal_digits(
        max_size,
    ) + " bytes"@
}

/// The outcome of checking a body of `size` bytes against `max_size`.
pub open spec fn frame_length_outcome(size: nat, max_size: nat) -> Option<u32> {
    if size <= max_size && size <= MAX_FRAME_LENGTH {
        Some(size as u32)
    } else {
        None
    }
}

/// The header value for a body of `size` bytes: refused when over
/// `max_size`, or when it does not fit four bytes.
pub fn frame_length(size: usize, max_size: usize, description: &str) -> (r: Result<u32, FrameError>)
    ensures
        match r {
            Ok(n) => size <= max_size && size <= MAX_FRAME_LENGTH && n == size,
            Err(FrameError::TooLarge(message)) => size > max_size && message@ == too_large_message(
                description@,
                size as nat,
                max_size as nat,
            ),
            Err(FrameError::TooLong) => size <= max_size && size > MAX_FRAME_LENGTH,
        },
{
    if size > max_size {
        let mut message = String::from_str(description);
        message.append(" is ");
        push_decimal_digits(&mut message, size as u64);
        message.append(" bytes, but the maximum is ");
        push_decimal_digits(&mut message, max_size as u64);
        message.append(" bytes");
        return Err(FrameError::TooLarge(message));
    }
    if size as u64 > MAX_FRAME_LENGTH {
        return Err(FrameError::TooLong);
    }
    Ok(size as u32)
}

/// The big-endian bytes of `n`.
pub open spec fn be_bytes(n: u32) -> Seq<u8> {
    seq![(n / 0x100_0000) as u8, ((n / 0x1_0000) % 0x100) as u8, ((n / 0x100) % 0x100) as u8, (n % 0x100) as u8]
}

/// The number whose big-endian bytes are `b`.
pub open spec fn be_value(b: Seq<u8>) -> nat {
    ((b[0] as nat) * 0x100_0000 + (b[1] as nat) * 0x1_0000 + (b[2] as nat) * 0x100 + (b[3] as nat)) as nat
}

/// The big-endian header holding `n`.
pub fn encode_length(n: u32) -> (r: [u8; 4])
    ensures
        r@ == be_bytes(n),
{
    [(n / 0x100_0000) as u8, ((n / 0x1_0000) % 0x100) as u8, ((n / 0x100) % 0x100) as u8, (n % 0x100) as u8]
}

/// The length held by the big-endian header `b`.
pub fn decode_length(b: [u8; 4]) -> (r: u32)
    ensures
        r == be_value(b@),
{
    let v: u64 = (b[0] as u64) * 0x100_0000 + (b[1] as u64) * 0x1_0000 + (b[2] as u64) * 0x100 + (b[3] as u64);
    v as u32
}

/// The frame for `data`: its length as a header, then the data.
pub fn encode_frame(data: &[u8], max_size: usize, description: &str) -> (r: Result<Vec<u8>, FrameError>)
    ensures
        match r {
            Ok(frame) => frame_length_outcome(data@.len(), max_size as nat) matches Some(n)
                && frame@ == be_bytes(n) + data@,
            Err(FrameError::TooLarge(message)) => data@.len() > max_size && message@
                == too_large_message(description@, data@.len(), max_size as nat),
            Err(FrameError::TooLong) => data@.len() <= max_size && data@.len() > MAX_FRAME_LENGTH,
        },
{
    let n = match frame_length(data.len(), max_size, description) {
        Ok(n) => n,
        Err(e) => return Err(e),
    };
    let header = encode_length(n);
    let mut frame: Vec<u8> = Vec::new();
    frame.push(header[0]);
    frame.push(header[1]);
    frame.push(header[2]);
    frame.push(header[3]);
    let mut i: usize = 0;
    while i < data.len()
        invariant
            i <= data@.len(),
            frame@ == be_bytes(n) + data@.take(i as int),
        decreases data@.len() - i,
    {
        frame.push(data[i]);
        i = i + 1;
        assert(frame@ =~= be_bytes(n) + data@.take(i as int));
    }
    assert(data@.take(i as int) =~= data@);
    Ok(frame)
}

/// The body length announced by the header `header`, checked against
/// `max_size`.
pub fn frame_body_length(header: [u8; 4], max_size: usize, description: &str) -> (r: Result<usize, FrameError>)
    ensures
        match r {
            Ok(n) => n == be_value(header@) && n <= max_size,
            Err(FrameError::TooLarge(message)) => be_value(header@) > max_size && message@
                == too_large_message(description@, be_value(header@), max_size as nat),
            Err(FrameError::TooLong) => false,
        },
{
    let size = decode_length(header);
    if size as u64 > max_size as u64 {
        let mut message = String::from_str(description);
        message.append(" is ");
        push_decimal_digits(&mut message, size as u64);
        message.append(" bytes, but the maximum is ");
        push_decimal_digits(&mut message, max_size as u64);
        message.append(" bytes");
        return Err(FrameError::TooLarge(message));
    }
    Ok(size as usize)
}

/// A header holds back the length it was made from.
pub proof fn law_length_round_trip(n: u32)
    ensures
        be_value(be_bytes(n)) == n,
{
}

/// What the bytes received so far of a frame come to.
pub enum FrameStatus {
    /// More bytes are needed.
    Incomplete,
    /// The header announces a body of this many bytes, over the limit.
    TooLarge(nat),
    /// The body, and the bytes that came after the frame.
    Done(Seq<u8>, Seq<u8>),
}

/// What the bytes `s` come to as a frame whose body may hold `max_size`
/// bytes.
pub open spec fn frame_status(s: Seq<u8>, max_size: nat) -> FrameStatus {
    if s.len() < 4 {
        FrameStatus::Incomplete
    } else {
        let n = be_value(s.take(4));
        if n > max_size {
            FrameStatus::TooLarge(n)
        } else if s.len() < 4 + n {
            FrameStatus::Incomplete
        } else {
            FrameStatus::Done(s.subrange(4, 4 + n as int), s.skip(4 + n as int))
        }
    }
}

/// Why a frame cannot be read.
#[derive(Debug, Clone)]
pub enum ReadFrameError {
    /// The announced body is larger than the limit; the message says by how
    /// much.
    TooLarge(String),
    /// The stream ended before the frame did; the message says where.
    Incomplete(String),
}

/// Reads a frame from the chunks of bytes a stream delivers.
#[derive(Debug)]
pub struct FrameReader {
    /// The largest body accepted.
    pub max_size: usize,
    /// The bytes of the frame received so far.
    pub received: Vec<u8>,
}

/// The message of a stream that ended before the header did.
pub open spec fn missing_length_message(description: Seq<char>) -> Seq<char> {
    "read "@ + description + " length"@
}

/// The message of a stream that ended before the body of `size` bytes did.
pub open spec fn missing_body_message(description: Seq<char>, size: nat) -> Seq<char> {
    "read complete "@ + description + " body ("@ + decimal_digits(size) + " bytes)"@
}

impl FrameReader {
    /// The reader can still take a frame: what it holds is a beginning of
    /// one, and the length of any frame it accepts can be counted.
    pub open spec fn wf(&self) -> bool {
        &&& self.max_size <= usize::MAX - 4
        &&& frame_status(self.received@, self.max_size as nat) is Incomplete
    }

    /// A reader of frames whose body holds at most `max_size` bytes.
    pub fn new(max_size: usize) -> (r: Self)
        requires
            max_size <= usize::MAX - 4,
        ensures
            r.wf(),
            r.max_size == max_size,
            r.received@ == Seq::<u8>::empty(),
    {
        FrameReader { max_size, received: Vec::new() }
    }

    /// Takes the next `chunk` of the stream: the frame's body and the bytes
    /// after it once they are all in; an error when the header announces
    /// too large a body; else nothing yet.
    pub fn feed(&mut self, chunk: &[u8], description: &str) -> (r: Result<
        Option<(Vec<u8>, Vec<u8>)>,
        ReadFrameError,
    >)
        requires
            old(self).wf(),
            old(self).received@.len() + chunk@.len() <= usize::MAX,
        ensures
            final(self).max_size == old(self).max_size,
            match frame_status(old(self).received@ + chunk@, old(self).max_size as nat) {
                FrameStatus::Incomplete => r matches Ok(None) && final(self).received@ == old(
                    self,
                ).received@ + chunk@ && final(self).wf(),
                FrameStatus::TooLarge(n) => r matches Err(ReadFrameError::TooLarge(message))
                    && message@ == too_large_message(description@, n, old(self).max_size as nat),
                FrameStatus::Done(body, rest) => r matches Ok(Some((b, after))) && b@ == body
                    && after@ == rest && final(self).received@ == Seq::<u8>::empty()
                    && final(self).wf(),
            },
    {
        let ghost before = self.received@;
        let mut all: Vec<u8> = Vec::new();
        std::mem::swap(&mut all, &mut self.received);
        let mut i: usize = 0;
        while i < chunk.len()
            invariant
                i <= chunk@.len(),
                all@ == before + chunk@.take(i as int),
                before.len() + chunk@.len() <= usize::MAX,
            decreases chunk@.len() - i,
        {
            all.push(chunk[i]);
            i = i + 1;
            assert(all@ =~= before + chunk@.take(i as int));
        }
        assert(chunk@.take(i as int) =~= chunk@);
        let ghost everything = all@;
        if all.len() < 4 {
            self.received = all;
            return Ok(None);
        }
        let header = [all[0], all[1], all[2], all[3]];
        assert(header@ =~= everything.take(4));
        let size = match frame_body_length(header, self.max_size, description) {
            Ok(n) => n,
            Err(FrameError::TooLarge(message)) => {
                self.received = all;
                return Err(ReadFrameError::TooLarge(message));
            },
            Err(FrameError::TooLong) => {
                self.received = all;
                return Ok(None);
            },
        };
        if all.len() - 4 < size {
            self.received = all;
            return Ok(None);
        }
        let end = 4 + size;
        let mut body: Vec<u8> = Vec::new();
        let mut k: usize = 4;
        while k < end
            invariant
                end == 4 + size,
                4 <= k <= end,
                end <= all@.len(),
                all@ == everything,
                body@ == everything.subrange(4, k as int),
            decreases end - k,
        {
            body.push(all[k]);
            k = k + 1;
            assert(body@ =~= everything.subrange(4, k as int));
        }
        let mut rest: Vec<u8> = Vec::new();
        let mut k: usize = end;
        while k < all.len()
            invariant
                end == 4 + size,
                end <= k <= all@.len(),
                all@ == everything,
                rest@ == everything.subrange(4 + size, k as int),
            decreases all@.len() - k,
        {
            rest.push(all[k]);
            k = k + 1;
            assert(rest@ =~= everything.subrange(4 + size, k as int));
        }
        assert(rest@ =~= everything.skip(4 + size));
        assert(frame_status(Seq::<u8>::empty(), self.max_size as nat) is Incomplete);
        Ok(Some((body, rest)))
    }

    /// The error of a stream that ended before the frame did.
    pub fn end_of_stream(&self, description: &str) -> (r: ReadFrameError)
        requires
            self.wf(),
        ensures
            r matches ReadFrameError::Incomplete(message) && message@ == if self.received@.len() < 4 {
                missing_length_message(description@)
            } else {
                missing_body_message(description@, be_value(self.received@.take(4)))
            },
    {
        if self.received.len() < 4 {
            let mut message = String::from_str("read ");
            message.append(description);
            message.append(" length");
            return ReadFrameError::Incomplete(message);
        }
        let header = [self.received[0], self.received[1], self.received[2], self.received[3]];
        assert(header@ =~= self.received@.take(4));
        let size = decode_length(header);
        let mut message = String::from_str("read complete ");
        message.append(description);
        message.append(" body (");
        push_decimal_digits(&mut message, size as u64);
        message.append(" bytes)");
        ReadFrameError::Incomplete(message)
    }
}

/// The frame encoded for a body is read back as that body, whatever comes
/// after it; every shorter beginning of it is incomplete.
pub proof fn law_encoded_frame_reads_back(data: Seq<u8>, rest: Seq<u8>, max_size: nat)
    requires
        data.len() <= max_size,
        data.len() <= MAX_FRAME_LENGTH,
    ensures
        frame_status(be_bytes(data.len() as u32) + data + rest, max_size) == FrameStatus::Done(
            data,
            rest,
        ),
        forall|k: int|
            0 <= k < 4 + data.len() ==> #[trigger] frame_status(
                (be_bytes(data.len() as u32) + data).take(k),
                max_size,
            ) is Incomplete,
{
    let n = data.len() as u32;
    let frame = be_bytes(n) + data;
    let s = frame + rest;
    assert(s.take(4) =~= be_bytes(n));
    assert(be_value(be_bytes(n)) == n);
    assert(s.subrange(4, 4 + data.len() as int) =~= data);
    assert(s.skip(4 + data.len() as int) =~= rest);
    assert forall|k: int| 0 <= k < 4 + data.len() implies #[trigger] frame_status(frame.take(k), max_size) is Incomplete by {
        if k >= 4 {
            assert(frame.take(k).take(4) =~= be_bytes(n));
        }
    }
}

/// What a stream delivered in `chunks` holds after its first `k` chunks are
/// in: the first `k` chunks together.
proof fn lemma_chunks_prefix(chunks: Seq<Seq<u8>>, k: int)
    requires
        0 <= k <= chunks.len(),
    ensures
        chunks.take(k).flatten_alt().len() <= chunks.flatten_alt().len(),
        chunks.take(k).flatten_alt() == chunks.flatten_alt().take(chunks.take(k).flatten_alt().len() as int),
    decreases chunks.len() - k,
{
    if k == chunks.len() {
        assert(chunks.take(k) =~= chunks);
        assert(chunks.flatten_alt().take(chunks.flatten_alt().len() as int) =~= chunks.flatten_alt());
    } else {
        lemma_chunks_prefix(chunks, k + 1);
        let a = chunks.take(k);
        let b = chunks.take(k + 1);
        assert(b.drop_last() =~= a);
        assert(b.last() == chunks[k]);
        assert(b.flatten_alt() == a.flatten_alt() + chunks[k]);
        let whole = chunks.flatten_alt();
        assert(a.flatten_alt() =~= whole.take(b.flatten_alt().len() as int).take(a.flatten_alt().len() as int));
    }
}

/// A frame read from a stream that delivers it in chunks of any sizes
/// reads back the encoded body: after each chunk, while part of the frame
/// is missing, the reader waits for more; once the last byte of the frame
/// is in, it hands back the body, with nothing after it.
pub proof fn law_chunked_frame_reads_back(data: Seq<u8>, chunks: Seq<Seq<u8>>, max_size: nat)
    requires
        data.len() <= max_size,
        data.len() <= MAX_FRAME_LENGTH,
        chunks.flatten_alt() == be_bytes(data.len() as u32) + data,
    ensures
        forall|i: int|
            0 <= i < chunks.len() ==> {
                let received = #[trigger] chunks.take(i + 1).flatten_alt();
                &&& received.len() < 4 + data.len() ==> frame_status(received, max_size) is Incomplete
                &&& received.len() == 4 + data.len() ==> frame_status(received, max_size) == FrameStatus::Done(
                    data,
                    Seq::<u8>::empty(),
                )
            },
{
    let frame = be_bytes(data.len() as u32) + data;
    law_encoded_frame_reads_back(data, Seq::<u8>::empty(), max_size);
    assert(frame + Seq::<u8>::empty() =~= frame);
    assert forall|i: int| 0 <= i < chunks.len() implies {
        let received = #[trigger] chunks.take(i + 1).flatten_alt();
        &&& received.len() < 4 + data.len() ==> frame_status(received, max_size) is Incomplete
        &&& received.len() == 4 + data.len() ==> frame_status(received, max_size) == FrameStatus::Done(
            data,
            Seq::<u8>::empty(),
        )
    } by {
        lemma_chunks_prefix(chunks, i + 1);
        let received = chunks.take(i + 1).flatten_alt();
        assert(received == frame.take(received.len() as int));
        if received.len() == 4 + data.len() {
            assert(frame.take(received.len() as int) =~= frame);
        }
    }
}

} // verus!
