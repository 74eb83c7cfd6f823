//! zlib inflation of compressed pixel payloads.

use vstd::prelude::*;

verus! {

/// What a zlib decoder yields for `data`: the inflated bytes, or `None`
/// where the stream is rejected. A function of the bytes alone.
pub uninterp spec fn inflate_of(data: Seq<u8>) -> Option<Seq<u8>>;

/// Inflate a zlib stream.
///
/// Relies on zune_inflate's `DeflateDecoder::decode_zlib`: a pure function
/// of the input bytes that checks the zlib header and the adler32 checksum
/// and inflates the deflate stream between them.
#[verifier::external_body]
pub(crate) fn inflate_zlib(data: &Vec<u8>) -> (r: Option<Vec<u8>>)
    ensures
        match r {
            Some(out) => inflate_of(data@) == Some(out@),
            None => inflate_of(data@) is None,
        },
{
    let mut decoder = zune_inflate::DeflateDecoder::new(data.as_slice());
    decoder.decode_zlib().ok()
}

} // verus!
