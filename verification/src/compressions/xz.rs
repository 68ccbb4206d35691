//! XZ, through `xz2`.

use vstd::prelude::*;
use std::io::Read;
use std::io::Write;

verus! {

/// The data that an xz decoder yields for the stream `raw`; `None` where it reports an
/// error.
pub uninterp spec fn xz_decoded(raw: Seq<u8>) -> Option<Seq<u8>>;

/// The stream that an xz encoder, as this module sets it up, produces for `data`;
/// `None` where it reports an error.
pub uninterp spec fn xz_encoded(data: Seq<u8>) -> Option<Seq<u8>>;

/// Runs `xz2::read::XzDecoder` over `raw` and reads it to its end.
///
/// Trusted: the result is the decoder's, which depends on `raw` alone. It is `Ok` with
/// the decoded data, or the decoder's error.
#[verifier::external_body]
pub(crate) fn decode(raw: &[u8]) -> (r: Result<Vec<u8>, std::io::Error>)
    ensures
        match r {
            Ok(data) => xz_decoded(raw@) == Some(data@),
            Err(_) => xz_decoded(raw@) is None,
        },
{
    let mut data = Vec::new();
    xz2::read::XzDecoder::new(raw).read_to_end(&mut data)?;
    Ok(data)
}

/// Writes `data` through an `xz2::write::XzEncoder` at level 9 and finishes the stream.
///
/// Trusted: the result is the encoder's, which depends on `data` alone. It is `Ok` with
/// the stream produced, or the encoder's error. A stream produced is the compressed
/// form of `data` that `xz2::read::XzDecoder` expands again: decoding it gives `data`
/// back.
#[verifier::external_body]
pub(crate) fn encode(data: &[u8]) -> (r: Result<Vec<u8>, std::io::Error>)
    ensures
        match r {
            Ok(stream) => xz_encoded(data@) == Some(stream@) && xz_decoded(stream@) == Some(
                data@,
            ),
            Err(_) => xz_encoded(data@) is None,
        },
{
    let mut encoder = xz2::write::XzEncoder::new(Vec::new(), 9);
    encoder.write_all(data)?;
    encoder.finish()
}

} // verus!
