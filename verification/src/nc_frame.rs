use vstd::prelude::*;

use vstd::bytes::*;
use vstd::slice::{slice_subrange, slice_to_vec};

use crate::nc_error::NCError;

verus! {

/// Framing layer: the on-wire unit is an 8-byte little-endian length prefix
/// (the count of payload bytes) followed by exactly that many payload
/// bytes.  The runtime that owns the stream reads the 8 header bytes first,
/// then exactly the announced count, so control never returns to a caller
/// with a partial frame; this module decides what those bytes mean.
pub const FRAME_HEADER_LEN: usize = 8;

/// The frame that carries a payload.
pub open spec fn spec_frame(payload: Seq<u8>) -> Seq<u8>
    recommends
        payload.len() <= u64::MAX,
{
    spec_u64_to_le_bytes(payload.len() as u64) + payload
}

/// The payload a buffer carries, if it is exactly one well-formed frame.
pub open spec fn spec_unframe(b: Seq<u8>) -> Option<Seq<u8>> {
    if b.len() >= 8 && b.len() == 8 + spec_u64_from_le_bytes(b.subrange(0, 8)) {
        Some(b.subrange(8, b.len() as int))
    } else {
        None
    }
}

/// Framing round trip: unframing a framed payload gives the identical
/// bytes, for every payload that fits the length field.
pub proof fn lemma_frame_round_trip(payload: Seq<u8>)
    requires
        payload.len() <= u64::MAX,
    ensures
        spec_unframe(spec_frame(payload)) == Some(payload),
{
    lemma_auto_spec_u64_to_from_le_bytes();
    let framed = spec_frame(payload);
    assert(framed.subrange(0, 8) =~= spec_u64_to_le_bytes(payload.len() as u64));
    assert(framed.subrange(8, framed.len() as int) =~= payload);
}

/// Unframing is exact: a buffer unframes only to the payload whose frame it
/// is, byte for byte.
pub proof fn lemma_unframe_exact(b: Seq<u8>)
    ensures
        spec_unframe(b) matches Some(p) ==> b == spec_frame(p) && p.len() <= u64::MAX,
{
    lemma_auto_spec_u64_to_from_le_bytes();
    match spec_unframe(b) {
        Some(p) => {
            assert(spec_u64_to_le_bytes(p.len() as u64) =~= b.subrange(0, 8));
            assert(spec_frame(p) =~= b);
        },
        None => {},
    }
}

/// Build the frame that carries `payload`.
pub fn nc_frame_data(payload: &Vec<u8>) -> (r: Vec<u8>)
    ensures
        r@ == spec_frame(payload@),
{
    let mut r = u64_to_le_bytes(payload.len() as u64);
    r.extend_from_slice(payload.as_slice());
    proof {
        assert(r@ =~= spec_frame(payload@));
    }
    r
}

/// The payload byte count a frame header announces.  The runtime hands in
/// the first 8 bytes read from the stream and then reads exactly the
/// returned count; fewer bytes than a full header mean the peer closed
/// mid-frame.
pub fn nc_decode_frame_header(header: &Vec<u8>) -> (r: Result<u64, NCError>)
    ensures
        match r {
            Ok(n) => header@.len() == 8 && n == spec_u64_from_le_bytes(header@),
            Err(e) => header@.len() != 8 && e == NCError::Deserialize,
        },
{
    if header.len() == 8 {
        Ok(u64_from_le_bytes(header.as_slice()))
    } else {
        Err(NCError::Deserialize)
    }
}

/// Split one complete frame back into its payload; any buffer that is not
/// exactly one well-formed frame is refused as malformed.
pub fn nc_unframe_data(b: &Vec<u8>) -> (r: Result<Vec<u8>, NCError>)
    ensures
        match r {
            Ok(p) => spec_unframe(b@) == Some(p@),
            Err(e) => spec_unframe(b@) is None && e == NCError::Deserialize,
        },
{
    if b.len() < 8 {
        return Err(NCError::Deserialize);
    }
    let n = u64_from_le_bytes(slice_subrange(b.as_slice(), 0, 8));
    let rest: usize = b.len() - 8;
    if rest as u64 == n {
        let payload = slice_to_vec(slice_subrange(b.as_slice(), 8, b.len()));
        Ok(payload)
    } else {
        Err(NCError::Deserialize)
    }
}

} // verus!
