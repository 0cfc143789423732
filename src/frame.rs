//! Length-prefixed frames: `| len: u32 big-endian | version: u8 | flags: u8 | payload |`,
//! where `len` counts the two header bytes and the payload.

use vstd::prelude::*;
use crate::octets::{be32_bytes, be32_value, be32_encode, be32_decode, lemma_be32_round_trip};

verus! {

/// Largest value of the length field that a peer may send: 10 MiB.
pub const MAX_FRAME_SIZE: usize = 10485760;

/// Number of header bytes that the length field counts (version and flags).
pub const HEADER_LEN: usize = 2;

/// Why a byte stream cannot be read as frames or messages.
#[derive(Debug, Clone, PartialEq, Eq)]
pub enum ProtocolError {
    /// The length field exceeds `MAX_FRAME_SIZE`.
    FrameTooLarge,
    /// The length field is too small to hold the header.
    MalformedHeader,
    /// The frame carries a version this node does not speak.
    UnsupportedVersion,
    /// The payload is not a valid serialized message.
    Serialization(String),
}

pub struct Frame {
    pub version: u8,
    pub flags: u8,
    pub payload: Vec<u8>,
}

/// Outcome of reading one frame from the front of a buffer.
pub ghost enum FrameParse {
    /// More bytes are needed.
    Incomplete,
    /// The stream is broken.
    Invalid(ProtocolError),
    /// A whole frame stands at the front, taking `consumed` bytes.
    Complete { version: u8, flags: u8, payload: Seq<u8>, consumed: nat },
}

/// The value of the length field at the front of `s` (needs four bytes).
pub open spec fn length_field(s: Seq<u8>) -> int {
    be32_value(s[0], s[1], s[2], s[3])
}

/// What the front of `s` holds, as frames.
pub open spec fn parse_frame(s: Seq<u8>) -> FrameParse {
    if s.len() < 4 {
        FrameParse::Incomplete
    } else if length_field(s) > MAX_FRAME_SIZE {
        FrameParse::Invalid(ProtocolError::FrameTooLarge)
    } else if length_field(s) < HEADER_LEN {
        FrameParse::Invalid(ProtocolError::MalformedHeader)
    } else if s.len() < 4 + length_field(s) {
        FrameParse::Incomplete
    } else {
        FrameParse::Complete {
            version: s[4],
            flags: s[5],
            payload: s.subrange(6, 4 + length_field(s)),
            consumed: (4 + length_field(s)) as nat,
        }
    }
}

/// The bytes of one frame on the wire.
pub open spec fn frame_bytes(version: u8, flags: u8, payload: Seq<u8>) -> Seq<u8> {
    be32_bytes((payload.len() + HEADER_LEN) as u32) + seq![version, flags] + payload
}

/// A payload fits in a frame when the length field stays within `MAX_FRAME_SIZE`.
pub open spec fn payload_fits(payload: Seq<u8>) -> bool {
    payload.len() + HEADER_LEN <= MAX_FRAME_SIZE
}

impl Frame {
    /// A frame around `payload`, refused when it would exceed `MAX_FRAME_SIZE`.
    pub fn new(version: u8, flags: u8, payload: Vec<u8>) -> (r: Result<Frame, ProtocolError>)
        ensures
            payload_fits(payload@) ==> r == Ok::<Frame, ProtocolError>(
                Frame { version, flags, payload },
            ),
            !payload_fits(payload@) ==> r == Err::<Frame, ProtocolError>(
                ProtocolError::FrameTooLarge,
            ),
    {
        if payload.len() > MAX_FRAME_SIZE - HEADER_LEN {
            Err(ProtocolError::FrameTooLarge)
        } else {
            Ok(Frame { version, flags, payload })
        }
    }

    pub fn payload(&self) -> (r: &Vec<u8>)
        ensures
            r == &self.payload,
    {
        &self.payload
    }

    /// Appends the frame's wire bytes to `dst`.
    pub fn encode(&self, dst: &mut Vec<u8>)
        requires
            payload_fits(self.payload@),
        ensures
            final(dst)@ == old(dst)@ + frame_bytes(self.version, self.flags, self.payload@),
    {
        let len = (self.payload.len() + HEADER_LEN) as u32;
        let prefix = be32_encode(len);
        let ghost start = dst@;
        dst.push(prefix[0]);
        dst.push(prefix[1]);
        dst.push(prefix[2]);
        dst.push(prefix[3]);
        dst.push(self.version);
        dst.push(self.flags);
        let mut i: usize = 0;
        while i < self.payload.len()
            invariant
                i <= self.payload@.len(),
                dst@ == start + be32_bytes(len) + seq![self.version, self.flags]
                    + self.payload@.subrange(0, i as int),
            decreases self.payload@.len() - i,
        {
            dst.push(self.payload[i]);
            assert(self.payload@.subrange(0, i + 1) =~= self.payload@.subrange(0, i as int).push(
                self.payload@[i as int],
            ));
            i += 1;
        }
        assert(self.payload@.subrange(0, i as int) =~= self.payload@);
        assert(dst@ =~= start + frame_bytes(self.version, self.flags, self.payload@));
    }
}

/// Reads one frame from the front of `src`; on success also says how many bytes it took.
pub fn decode_frame(src: &[u8]) -> (r: Result<Option<(Frame, usize)>, ProtocolError>)
    ensures
        match parse_frame(src@) {
            FrameParse::Incomplete => r == Ok::<Option<(Frame, usize)>, ProtocolError>(None),
            FrameParse::Invalid(e) => r == Err::<Option<(Frame, usize)>, ProtocolError>(e),
            FrameParse::Complete { version, flags, payload, consumed } => r matches Ok(Some((f, n)))
                && f.version == version && f.flags == flags && f.payload@ == payload && n == consumed,
        },
{
    if src.len() < 4 {
        return Ok(None);
    }
    let len = be32_decode(src[0], src[1], src[2], src[3]);
    if len as usize > MAX_FRAME_SIZE {
        return Err(ProtocolError::FrameTooLarge);
    }
    let len = len as usize;
    if len < HEADER_LEN {
        return Err(ProtocolError::MalformedHeader);
    }
    if src.len() - 4 < len {
        return Ok(None);
    }
    let end = 4 + len;
    let mut payload: Vec<u8> = Vec::new();
    let mut i: usize = 6;
    while i < end
        invariant
            6 <= i <= end <= src@.len(),
            payload@ == src@.subrange(6, i as int),
        decreases end - i,
    {
        payload.push(src[i]);
        assert(src@.subrange(6, i + 1) =~= src@.subrange(6, i as int).push(src@[i as int]));
        i += 1;
    }
    Ok(Some((Frame { version: src[4], flags: src[5], payload }, end)))
}

/// A frame read back from its own wire bytes is the frame that was written,
/// and it takes exactly those bytes, whatever follows them.
pub proof fn lemma_frame_round_trip(version: u8, flags: u8, payload: Seq<u8>, rest: Seq<u8>)
    requires
        payload_fits(payload),
    ensures
        parse_frame(frame_bytes(version, flags, payload) + rest) == (FrameParse::Complete {
            version,
            flags,
            payload,
            consumed: frame_bytes(version, flags, payload).len(),
        }),
{
    let n = (payload.len() + HEADER_LEN) as u32;
    let s = frame_bytes(version, flags, payload) + rest;
    lemma_be32_round_trip(n);
    assert(s[0] == be32_bytes(n)[0] && s[1] == be32_bytes(n)[1] && s[2] == be32_bytes(n)[2]
        && s[3] == be32_bytes(n)[3]);
    assert(length_field(s) == n);
    assert(s.subrange(6, 4 + n) =~= payload);
}

} // verus!
