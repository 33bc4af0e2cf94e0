//! The byte compressor that blobs pass through on their way to the disk
//! and back.

use vstd::prelude::*;

verus! {

/// The bzip2 stream of `data` at the strongest level, where the encoder
/// gives one.
pub uninterp spec fn bz_compressed(data: Seq<u8>) -> Option<Seq<u8>>;

/// The bytes that the bzip2 stream `stored` holds, where it is one.
pub uninterp spec fn bz_decompressed(stored: Seq<u8>) -> Option<Seq<u8>>;

/// Reads `bzip2::read::BzEncoder` over `data`, at `Compression::best()`,
/// to its end. Trusted: the result is a function of the bytes alone, and a
/// decoder that reads it gives `data` back, as the crate shows for this
/// encoder and this decoder.
#[verifier::external_body]
pub(crate) fn compress(data: &[u8]) -> (r: Option<Vec<u8>>)
    ensures
        match r {
            Some(v) => bz_compressed(data@) == Some(v@) && bz_decompressed(v@) == Some(data@),
            None => bz_compressed(data@) is None,
        },
{
    let mut out: Vec<u8> = Vec::new();
    let mut encoder = bzip2::read::BzEncoder::new(data, bzip2::Compression::best());
    match std::io::Read::read_to_end(&mut encoder, &mut out) {
        Ok(_) => Some(out),
        Err(_) => None,
    }
}

/// Reads `bzip2::read::BzDecoder` over `stored` to its end. Trusted: the
/// result is a function of the bytes alone; there is none where the
/// decoder fails.
#[verifier::external_body]
pub(crate) fn decompress(stored: &[u8]) -> (r: Option<Vec<u8>>)
    ensures
        match r {
            Some(v) => bz_decompressed(stored@) == Some(v@),
            None => bz_decompressed(stored@) is None,
        },
{
    let mut out: Vec<u8> = Vec::new();
    let mut decoder = bzip2::read::BzDecoder::new(stored);
    match std::io::Read::read_to_end(&mut decoder, &mut out) {
        Ok(_) => Some(out),
        Err(_) => None,
    }
}

} // verus!
