//! The stream codec: frames of version 1, no flags, each carrying one serialized envelope.

use vstd::prelude::*;
use crate::frame::{
    decode_frame, frame_bytes, length_field, lemma_frame_round_trip, parse_frame, payload_fits,
    Frame, FrameParse, ProtocolError, MAX_FRAME_SIZE,
};

verus! {

/// The frame version this node writes and accepts.
pub const FRAME_VERSION: u8 = 1;

/// What the codec reads at the front of a stream.
pub ghost enum Decoded {
    Incomplete,
    Invalid(ProtocolError),
    Message { payload: Seq<u8>, consumed: nat },
}

pub open spec fn decoded(s: Seq<u8>) -> Decoded {
    match parse_frame(s) {
        FrameParse::Incomplete => Decoded::Incomplete,
        FrameParse::Invalid(e) => Decoded::Invalid(e),
        FrameParse::Complete { version, flags, payload, consumed } => if version == FRAME_VERSION {
            Decoded::Message { payload, consumed }
        } else {
            Decoded::Invalid(ProtocolError::UnsupportedVersion)
        },
    }
}

pub struct SentinelCodec;

impl SentinelCodec {
    pub fn new() -> (r: SentinelCodec)
        ensures
            r == SentinelCodec,
    {
        SentinelCodec
    }

    /// Reads the payload of the first frame in `src` and the number of bytes it
    /// took; `None` while the frame is not complete. The caller drops those bytes.
    pub fn decode(&mut self, src: &[u8]) -> (r: Result<Option<(Vec<u8>, usize)>, ProtocolError>)
        ensures
            match decoded(src@) {
                Decoded::Incomplete => r == Ok::<Option<(Vec<u8>, usize)>, ProtocolError>(None),
                Decoded::Invalid(e) => r == Err::<Option<(Vec<u8>, usize)>, ProtocolError>(e),
                Decoded::Message { payload, consumed } => r matches Ok(Some((p, n)))
                    && p@ == payload && n == consumed,
            },
    {
        match decode_frame(src) {
            Ok(Some((frame, n))) => {
                if frame.version != FRAME_VERSION {
                    Err(ProtocolError::UnsupportedVersion)
                } else {
                    Ok(Some((frame.payload, n)))
                }
            },
            Ok(None) => Ok(None),
            Err(e) => Err(e),
        }
    }

    /// Appends one frame carrying `payload` to `dst`; an oversize payload is
    /// refused and `dst` is left as it was.
    pub fn encode(&mut self, payload: Vec<u8>, dst: &mut Vec<u8>) -> (r: Result<(), ProtocolError>)
        ensures
            payload_fits(payload@) ==> r == Ok::<(), ProtocolError>(()) && final(dst)@ == old(
                dst,
            )@ + frame_bytes(FRAME_VERSION, 0, payload@),
            !payload_fits(payload@) ==> r == Err::<(), ProtocolError>(
                ProtocolError::FrameTooLarge,
            ) && final(dst)@ == old(dst)@,
    {
        match Frame::new(FRAME_VERSION, 0, payload) {
            Ok(frame) => {
                frame.encode(dst);
                Ok(())
            },
            Err(e) => Err(e),
        }
    }
}

/// What the codec writes for a payload, it reads back as that payload, taking
/// exactly the bytes written, whatever follows them on the stream.
pub proof fn lemma_codec_round_trip(payload: Seq<u8>, rest: Seq<u8>)
    requires
        payload_fits(payload),
    ensures
        decoded(frame_bytes(FRAME_VERSION, 0, payload) + rest) == (Decoded::Message {
            payload,
            consumed: frame_bytes(FRAME_VERSION, 0, payload).len(),
        }),
{
    lemma_frame_round_trip(FRAME_VERSION, 0, payload, rest);
}

/// A length field above `MAX_FRAME_SIZE` is a protocol error as soon as the
/// four length bytes have arrived, before any of the payload.
pub proof fn lemma_oversize_frame_rejected(s: Seq<u8>)
    requires
        s.len() >= 4,
        length_field(s) > MAX_FRAME_SIZE,
    ensures
        decoded(s) == Decoded::Invalid(ProtocolError::FrameTooLarge),
{
}

} // verus!
