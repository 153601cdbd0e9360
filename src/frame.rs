//! Length-prefixed framing: a 4-byte little-endian unsigned length, then
//! exactly that many payload bytes.

use vstd::bytes::*;
use vstd::prelude::*;

use crate::error::GameRLError;

verus! {

/// Largest payload a reader accepts (64 MiB). A larger announced length means
/// the stream lost its framing, and the connection has to be torn down.
pub const MAX_FRAME_LEN: u32 = 67108864;

/// The bytes of one frame: the payload's length, then the payload.
pub open spec fn frame_spec(payload: Seq<u8>) -> Seq<u8> {
    spec_u32_to_le_bytes(payload.len() as u32) + payload
}

/// Frames one message for writing.
pub fn frame_message(payload: &[u8]) -> (r: Vec<u8>)
    requires
        payload@.len() <= u32::MAX,
    ensures
        r@ == frame_spec(payload@),
{
    let mut out = u32_to_le_bytes(payload.len() as u32);
    let ghost head = out@;
    let mut i: usize = 0;
    while i < payload.len()
        invariant
            0 <= i <= payload@.len(),
            out@ == head + payload@.subrange(0, i as int),
        decreases payload@.len() - i,
    {
        out.push(payload[i]);
        i = i + 1;
        assert(out@ =~= head + payload@.subrange(0, i as int));
    }
    assert(payload@.subrange(0, payload@.len() as int) =~= payload@);
    out
}

/// Reads the payload length from a frame's 4-byte header. A length above
/// `MAX_FRAME_LEN` is a fatal transport error.
pub fn frame_length(header: &[u8]) -> (r: Result<usize, GameRLError>)
    requires
        header@.len() == 4,
    ensures
        spec_u32_from_le_bytes(header@) <= MAX_FRAME_LEN <==> r is Ok,
        r matches Ok(n) ==> n == spec_u32_from_le_bytes(header@),
        r matches Err(e) ==> e is IpcError,
{
    let len = u32_from_le_bytes(header);
    if len > MAX_FRAME_LEN {
        Err(GameRLError::IpcError("message too large".to_string()))
    } else {
        Ok(len as usize)
    }
}

/// Reading the header of a frame gives back the length it was written with.
pub proof fn lemma_frame_header_round_trip(payload: Seq<u8>)
    requires
        payload.len() <= MAX_FRAME_LEN,
    ensures
        spec_u32_from_le_bytes(frame_spec(payload).subrange(0, 4)) == payload.len(),
        frame_spec(payload).subrange(4, frame_spec(payload).len() as int) == payload,
{
    lemma_auto_spec_u32_to_from_le_bytes();
    let f = frame_spec(payload);
    assert(f.subrange(0, 4) =~= spec_u32_to_le_bytes(payload.len() as u32));
    assert(f.subrange(4, f.len() as int) =~= payload);
}

} // verus!
