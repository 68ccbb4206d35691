//! LZ4, through the `lz4` crate. Only decoding is offered.

use vstd::prelude::*;
use std::io::Read;

verus! {

/// The data that an LZ4 frame decoder yields for the stream `raw`; `None` where it
/// reports an error.
pub uninterp spec fn lz4_decoded(raw: Seq<u8>) -> Option<Seq<u8>>;

/// Makes an `lz4::Decoder` over `raw` and reads it to its end.
///
/// Trusted: the result is the decoder's, which depends on `raw` alone. It is `Ok` with
/// the decoded data, or the error of making the decoder or of reading from it.
#[verifier::external_body]
pub(crate) fn decode(raw: &[u8]) -> (r: Result<Vec<u8>, std::io::Error>)
    ensures
        match r {
            Ok(data) => lz4_decoded(raw@) == Some(data@),
            Err(_) => lz4_decoded(raw@) is None,
        },
{
    let mut data = Vec::new();
    ::lz4::Decoder::new(raw)?.read_to_end(&mut data)?;
    Ok(data)
}

} // verus!
