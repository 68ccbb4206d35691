//! Zstandard, through the `zstd` crate.

use vstd::prelude::*;
use std::io::Read;
use std::io::Write;

verus! {

/// The data that a zstd decoder yields for the stream `raw`; `None` where it reports an
/// error.
pub uninterp spec fn zstd_decoded(raw: Seq<u8>) -> Option<Seq<u8>>;

/// The stream that a zstd encoder, as this module sets it up, produces for `data`;
/// `None` where it reports an error.
pub uninterp spec fn zstd_encoded(data: Seq<u8>) -> Option<Seq<u8>>;

/// Makes a `zstd::Decoder` over `raw` and reads it to its end.
///
/// Trusted: the result is the decoder's, which depends on `raw` alone. It is `Ok` with
/// the decoded data, or the error of making the decoder or of reading from it.
#[verifier::external_body]
pub(crate) fn decode(raw: &[u8]) -> (r: Result<Vec<u8>, std::io::Error>)
    ensures
        match r {
            Ok(data) => zstd_decoded(raw@) == Some(data@),
            Err(_) => zstd_decoded(raw@) is None,
        },
{
    let mut data = Vec::new();
    ::zstd::Decoder::new(raw)?.read_to_end(&mut data)?;
    Ok(data)
}

/// Writes `data` through a `zstd::Encoder` at level 9 and finishes the frame.
///
/// Trusted: the result is the encoder's, which depends on `data` alone. It is `Ok` with
/// the stream produced, or the encoder's error. A stream produced is the compressed
/// form of `data` that `zstd::Decoder` expands again: decoding it gives `data`
/// back.
#[verifier::external_body]
pub(crate) fn encode(data: &[u8]) -> (r: Result<Vec<u8>, std::io::Error>)
    ensures
        match r {
            Ok(stream) => zstd_encoded(data@) == Some(stream@) && zstd_decoded(stream@) == Some(
                data@,
            ),
            Err(_) => zstd_encoded(data@) is None,
        },
{
    let mut encoder = ::zstd::Encoder::new(Vec::new(), 9)?;
    encoder.write_all(data)?;
    encoder.finish()
}

} // verus!
