//! Bzip2, through the `bzip2` crate.

use vstd::prelude::*;
use std::io::Read;
use std::io::Write;

verus! {

/// The data that a bzip2 decoder yields for the stream `raw`; `None` where it reports an
/// error.
pub uninterp spec fn bzip2_decoded(raw: Seq<u8>) -> Option<Seq<u8>>;

/// The stream that a bzip2 encoder, as this module sets it up, produces for `data`;
/// `None` where it reports an error.
pub uninterp spec fn bzip2_encoded(data: Seq<u8>) -> Option<Seq<u8>>;

/// Runs `bzip2::read::BzDecoder` over `raw` and reads it to its end.
///
/// Trusted: the result is the decoder's, which depends on `raw` alone. It is `Ok` with
/// the decoded data, or the decoder's error.
#[verifier::external_body]
pub(crate) fn decode(raw: &[u8]) -> (r: Result<Vec<u8>, std::io::Error>)
    ensures
        match r {
            Ok(data) => bzip2_decoded(raw@) == Some(data@),
            Err(_) => bzip2_decoded(raw@) is None,
        },
{
    let mut data = Vec::new();
    ::bzip2::read::BzDecoder::new(raw).read_to_end(&mut data)?;
    Ok(data)
}

/// Writes `data` through a `bzip2::write::BzEncoder` at the default level and finishes
/// the stream.
///
/// Trusted: the result is the encoder's, which depends on `data` alone. It is `Ok` with
/// the stream produced, or the encoder's error. A stream produced is the compressed
/// form of `data` that `bzip2::read::BzDecoder` expands again: decoding it gives `data`
/// back.
#[verifier::external_body]
pub(crate) fn encode(data: &[u8]) -> (r: Result<Vec<u8>, std::io::Error>)
    ensures
        match r {
            Ok(stream) => bzip2_encoded(data@) == Some(stream@) && bzip2_decoded(stream@) == Some(
                data@,
            ),
            Err(_) => bzip2_encoded(data@) is None,
        },
{
    let mut encoder = ::bzip2::write::BzEncoder::new(Vec::new(), ::bzip2::Compression::default());
    encoder.write_all(data)?;
    encoder.finish()
}

} // verus!
