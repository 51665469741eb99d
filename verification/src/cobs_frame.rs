//! COBS framing of messages on the USB serial link, through the `cobs` crate.
//! A frame on the link is the COBS encoding of a message followed by one 0x00.

use vstd::prelude::*;

verus! {

/// The bytes `cobs::encode` produces for a message (without the 0x00 delimiter).
pub uninterp spec fn cobs_encoding(message: Seq<u8>) -> Seq<u8>;

/// The message `cobs::decode` recovers from an encoded frame (delimiter
/// stripped) given room enough, or `None` when the frame is malformed.
pub uninterp spec fn cobs_decoding(frame: Seq<u8>) -> Option<Seq<u8>>;

/// Why `cobs::decode` refused a frame.
#[derive(Debug, Clone, Copy, PartialEq, Eq, Structural)]
pub enum CobsError {
    /// The frame was empty.
    EmptyFrame,
    /// The frame was malformed; `decoded_bytes` bytes had been decoded.
    InvalidFrame { decoded_bytes: usize },
    /// The decoded message did not fit the room given.
    TargetBufTooSmall,
}

/// COBS-encodes `source` with `cobs::encode` into a buffer of
/// `cobs::max_encoding_length` bytes and keeps the bytes it reports written.
/// Claimed of the crate: the encoding holds no 0x00 (the crate's stated purpose:
/// the sentinel 0 does not occur in it), its length is at most the documented
/// maximum `n + ceil(n / 254)`, and `cobs::decode` recovers any non-empty message
/// from it. An empty message encodes to no bytes at all.
#[verifier::external_body]
pub(crate) fn cobs_encode(source: &[u8]) -> (r: Vec<u8>)
    ensures
        r@ == cobs_encoding(source@),
        forall|i: int| 0 <= i < r@.len() ==> r@[i] != 0u8,
        r@.len() <= source@.len() + (source@.len() + 253) / 254,
        source@.len() > 0 ==> cobs_decoding(r@) == Some(source@),
        source@.len() == 0 ==> r@.len() == 0,
{
    let mut dest = vec![0u8; cobs::max_encoding_length(source.len())];
    let n = cobs::encode(source, &mut dest);
    dest.truncate(n);
    dest
}

/// COBS-decodes `source` with `cobs::decode` into a buffer of `capacity` bytes.
/// Claimed of the crate: it succeeds exactly when the frame decodes to a message
/// that fits, and then yields that message; an empty frame is refused as such.
#[verifier::external_body]
pub(crate) fn cobs_decode(source: &[u8], capacity: usize) -> (r: Result<Vec<u8>, CobsError>)
    ensures
        r matches Ok(v) ==> cobs_decoding(source@) == Some(v@) && v@.len() <= capacity,
        r is Err ==> (cobs_decoding(source@) is None || cobs_decoding(source@).unwrap().len() > capacity),
        (r matches Err(e) && e == CobsError::EmptyFrame) <==> source@.len() == 0,
{
    let mut dest = vec![0u8; capacity];
    match cobs::decode(source, &mut dest) {
        Ok(n) => {
            dest.truncate(n);
            Ok(dest)
        },
        Err(cobs::DecodeError::EmptyFrame) => Err(CobsError::EmptyFrame),
        Err(cobs::DecodeError::InvalidFrame { decoded_bytes }) => Err(CobsError::InvalidFrame { decoded_bytes }),
        Err(cobs::DecodeError::TargetBufTooSmall) => Err(CobsError::TargetBufTooSmall),
    }
}

/// The bytes sent on the link for a message: its encoding, then the delimiter.
pub open spec fn framed(message: Seq<u8>) -> Seq<u8> {
    cobs_encoding(message).push(0u8)
}

/// Builds the link frame of a message: the COBS encoding followed by 0x00.
pub fn frame_message(message: &[u8]) -> (r: Vec<u8>)
    ensures
        r@ == framed(message@),
        forall|i: int| 0 <= i < r@.len() - 1 ==> r@[i] != 0u8,
        r@.len() <= message@.len() + (message@.len() + 253) / 254 + 1,
        r@.len() >= 1 && r@.last() == 0u8 && r@.drop_last() == cobs_encoding(message@),
        message@.len() > 0 ==> cobs_decoding(r@.drop_last()) == Some(message@),
{
    let mut out = cobs_encode(message);
    out.push(0u8);
    assert(out@.drop_last() =~= cobs_encoding(message@));
    out
}

} // verus!
