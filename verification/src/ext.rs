//! The two calls that leave the library: permissive UTF-8 decoding of name
//! bytes, and DEFLATE decompression of an entry's payload.

use vstd::prelude::*;

verus! {

/// The characters that permissive UTF-8 decoding yields for the given bytes:
/// valid sequences decode as themselves, invalid ones are replaced.
pub uninterp spec fn lossy_of(b: Seq<u8>) -> Seq<char>;

/// Relies on String::from_utf8_lossy: the result depends on the bytes alone;
/// invalid sequences are replaced, never rejected.
#[verifier::external_body]
pub(crate) fn utf8_lossy(b: &Vec<u8>) -> (r: String)
    ensures
        r@ == lossy_of(b@),
{
    String::from_utf8_lossy(b).into_owned()
}

/// The bytes that the DEFLATE codec yields for the given compressed bytes.
pub uninterp spec fn inflate_of(b: Seq<u8>) -> Seq<u8>;

/// Relies on flate2's DeflateDecoder: decompression is a function of the
/// compressed bytes alone. Output already produced is kept when the stream
/// ends or turns out malformed.
#[verifier::external_body]
pub(crate) fn inflate(compressed: &Vec<u8>) -> (r: Vec<u8>)
    ensures
        r@ == inflate_of(compressed@),
{
    let mut decoder = flate2::read::DeflateDecoder::new(&compressed[..]);
    let mut out = Vec::new();
    let _ = std::io::Read::read_to_end(&mut decoder, &mut out);
    out
}

} // verus!
