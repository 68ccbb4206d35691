//! Gzip, through `flate2`.

use vstd::prelude::*;
use std::io::Read;
use std::io::Write;

verus! {

/// The data that a gzip decoder yields for the stream `raw`; `None` where it reports an
/// error.
pub uninterp spec fn gzip_decoded(raw: Seq<u8>) -> Option<Seq<u8>>;

/// The stream that a gzip encoder, as this module sets it up, produces for `data`;
/// `None` where it reports an error.
pub uninterp spec fn gzip_encoded(data: Seq<u8>) -> Option<Seq<u8>>;

/// Runs `flate2::read::GzDecoder` over `raw` and reads it to its end.
///
/// Trusted: the result is the decoder's, which depends on `raw` alone. It is `Ok` with
/// the decoded data, or the decoder's error.
#[verifier::external_body]
pub(crate) fn decode(raw: &[u8]) -> (r: Result<Vec<u8>, std::io::Error>)
    ensures
        match r {
            Ok(data) => gzip_decoded(raw@) == Some(data@),
            Err(_) => gzip_decoded(raw@) is None,
        },
{
    let mut data = Vec::new();
    flate2::read::GzDecoder::new(raw).read_to_end(&mut data)?;
    Ok(data)
}

/// Writes `data` through a `flate2::write::GzEncoder` at the default level and finishes
/// the stream.
///
/// Trusted: the result is the encoder's, which depends on `data` alone. It is `Ok` with
/// the stream produced, or the encoder's error. A stream produced is the compressed
/// form of `data` that `flate2::read::GzDecoder` expands again: decoding it gives `data`
/// back.
#[verifier::external_body]
pub(crate) fn encode(data: &[u8]) -> (r: Result<Vec<u8>, std::io::Error>)
    ensures
        match r {
            Ok(stream) => gzip_encoded(data@) == Some(stream@) && gzip_decoded(stream@) == Some(
                data@,
            ),
            Err(_) => gzip_encoded(data@) is None,
        },
{
    let mut encoder = flate2::write::GzEncoder::new(Vec::new(), flate2::Compression::default());
    encoder.write_all(data)?;
    encoder.finish()
}

} // verus!
