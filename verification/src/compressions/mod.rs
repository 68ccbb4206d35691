//! The codec registry: which compression a file suffix names, and the codecs themselves.
//!
//! The suffix of a location is what follows its last `.`; a location without a `.` has
//! the empty suffix. Suffixes are compared as they stand: `GZ` is not `gz`. A suffix that
//! names no codec, as the empty one, means that the bytes pass through unchanged, for
//! reading and for writing alike.

use vstd::prelude::*;
use crate::error::OneIoError;
use crate::error::OneIoErrorView;
use crate::error::not_supported;
use crate::error::result_view;
use crate::stream::ByteSource;
use crate::stream::ByteStream;
use crate::stream::read_to_end;
use crate::text::last_occurrence;
use crate::text::lemma_no_occurrence;
use crate::text::occurs_at;
use crate::text::find_last;
use crate::text::str_eq;
use crate::text::substring;
use crate::text::to_chars;
use self::bzip2::bzip2_decoded;
use self::bzip2::bzip2_encoded;
use self::gzip::gzip_decoded;
use self::gzip::gzip_encoded;
use self::lz4::lz4_decoded;
use self::xz::xz_decoded;
use self::xz::xz_encoded;
use self::zstd::zstd_decoded;
use self::zstd::zstd_encoded;

pub mod bzip2;
pub mod gzip;
pub mod lz4;
pub mod xz;
pub mod zstd;

verus! {

/// The codecs of the registry.
#[derive(Clone, Copy, Debug, PartialEq, Eq, Structural)]
pub enum Codec {
    /// No compression: bytes pass through unchanged.
    Identity,
    Gzip,
    Bzip2,
    /// LZ4 frames. This codec decodes only.
    Lz4,
    Xz,
    Zstd,
}

impl View for Codec {
    type V = Codec;

    open spec fn view(&self) -> Codec {
        *self
    }
}

/// The suffix of a location: what follows its last `.`. A location without a `.` has no
/// suffix, which the empty text stands for.
pub open spec fn spec_file_suffix(path: Seq<char>) -> Seq<char> {
    match last_occurrence(path, "."@) {
        Some(i) => path.skip(i + "."@.len()),
        None => Seq::empty(),
    }
}

/// Takes the suffix of a location.
pub fn file_suffix(path: &str) -> (suffix: String)
    ensures
        suffix@ == spec_file_suffix(path@),
{
    let chars = to_chars(path);
    let dot = to_chars(".");
    let end = chars.len();
    match find_last(&chars, &dot) {
        Some(i) => substring(path, i + dot.len(), end),
        None => substring(path, 0, 0),
    }
}

/// The suffixes of gzip.
pub open spec fn is_gzip_suffix(suffix: Seq<char>) -> bool {
    suffix == "gz"@ || suffix == "gzip"@ || suffix == "tgz"@
}

/// The suffixes of bzip2.
pub open spec fn is_bzip2_suffix(suffix: Seq<char>) -> bool {
    suffix == "bz2"@ || suffix == "bz"@
}

/// The suffixes of LZ4.
pub open spec fn is_lz4_suffix(suffix: Seq<char>) -> bool {
    suffix == "lz4"@ || suffix == "lz"@
}

/// The suffixes of xz.
pub open spec fn is_xz_suffix(suffix: Seq<char>) -> bool {
    suffix == "xz"@ || suffix == "xz2"@ || suffix == "lzma"@
}

/// The suffixes of zstd.
pub open spec fn is_zstd_suffix(suffix: Seq<char>) -> bool {
    suffix == "zst"@ || suffix == "zstd"@
}

/// The codec that decodes what a suffix names.
pub open spec fn spec_decoder_for(suffix: Seq<char>) -> Codec {
    if is_gzip_suffix(suffix) {
        Codec::Gzip
    } else if is_bzip2_suffix(suffix) {
        Codec::Bzip2
    } else if is_lz4_suffix(suffix) {
        Codec::Lz4
    } else if is_xz_suffix(suffix) {
        Codec::Xz
    } else if is_zstd_suffix(suffix) {
        Codec::Zstd
    } else {
        Codec::Identity
    }
}

/// The text of the error for writing through the decode-only codec.
pub open spec fn lz4_writer_message() -> Seq<char> {
    "lz4 writer is not currently supported."@
}

/// The codec that encodes what a suffix names. LZ4 has no encoder.
pub open spec fn spec_encoder_for(suffix: Seq<char>) -> Result<Codec, OneIoErrorView> {
    match spec_decoder_for(suffix) {
        Codec::Lz4 => Err(not_supported(lz4_writer_message())),
        codec => Ok(codec),
    }
}

/// The text of the error for cooperative decoding of LZ4.
pub open spec fn lz4_async_message() -> Seq<char> {
    "LZ4 async decompression not yet supported - use spawn_blocking with sync version"@
}

/// The text of the error for cooperative decoding of xz.
pub open spec fn xz_async_message() -> Seq<char> {
    "XZ async decompression not yet supported - use spawn_blocking with sync version"@
}

/// The codec that decodes what a suffix names where reads must not block. LZ4 and xz
/// have no such decoder, and asking for one fails at once.
pub open spec fn spec_async_decoder_for(suffix: Seq<char>) -> Result<Codec, OneIoErrorView> {
    match spec_decoder_for(suffix) {
        Codec::Lz4 => Err(not_supported(lz4_async_message())),
        Codec::Xz => Err(not_supported(xz_async_message())),
        codec => Ok(codec),
    }
}

/// Selects the decoder for a suffix. This never fails: an unknown suffix means
/// uncompressed data.
pub fn decoder_for(suffix: &str) -> (codec: Codec)
    ensures
        codec == spec_decoder_for(suffix@),
{
    if str_eq(suffix, "gz") || str_eq(suffix, "gzip") || str_eq(suffix, "tgz") {
        Codec::Gzip
    } else if str_eq(suffix, "bz2") || str_eq(suffix, "bz") {
        Codec::Bzip2
    } else if str_eq(suffix, "lz4") || str_eq(suffix, "lz") {
        Codec::Lz4
    } else if str_eq(suffix, "xz") || str_eq(suffix, "xz2") || str_eq(suffix, "lzma") {
        Codec::Xz
    } else if str_eq(suffix, "zst") || str_eq(suffix, "zstd") {
        Codec::Zstd
    } else {
        Codec::Identity
    }
}

/// Selects the encoder for a suffix. Writing through the decode-only codec is not
/// supported; an unknown suffix means uncompressed data.
pub fn encoder_for(suffix: &str) -> (r: Result<Codec, OneIoError>)
    ensures
        result_view(r) == spec_encoder_for(suffix@),
{
    match decoder_for(suffix) {
        Codec::Lz4 => Err(OneIoError::unsupported("lz4 writer is not currently supported.")),
        codec => Ok(codec),
    }
}

/// Selects the decoder for a suffix where reads must not block.
pub fn async_decoder_for(suffix: &str) -> (r: Result<Codec, OneIoError>)
    ensures
        result_view(r) == spec_async_decoder_for(suffix@),
{
    match decoder_for(suffix) {
        Codec::Lz4 => Err(
            OneIoError::unsupported(
                "LZ4 async decompression not yet supported - use spawn_blocking with sync version",
            ),
        ),
        Codec::Xz => Err(
            OneIoError::unsupported(
                "XZ async decompression not yet supported - use spawn_blocking with sync version",
            ),
        ),
        codec => Ok(codec),
    }
}

/// The data that `codec` decodes the stream `raw` to; `None` where the decoder reports
/// an error.
pub open spec fn spec_decode(codec: Codec, raw: Seq<u8>) -> Option<Seq<u8>> {
    match codec {
        Codec::Identity => Some(raw),
        Codec::Gzip => gzip_decoded(raw),
        Codec::Bzip2 => bzip2_decoded(raw),
        Codec::Lz4 => lz4_decoded(raw),
        Codec::Xz => xz_decoded(raw),
        Codec::Zstd => zstd_decoded(raw),
    }
}

/// Decodes a whole stream. A stream that the codec rejects is an I/O error.
pub fn decode(codec: Codec, raw: Vec<u8>) -> (r: Result<Vec<u8>, OneIoError>)
    ensures
        match r {
            Ok(data) => spec_decode(codec, raw@) == Some(data@),
            Err(e) => spec_decode(codec, raw@) is None && e@ == OneIoErrorView::Io,
        },
{
    let decoded = match codec {
        Codec::Identity => {
            return Ok(raw);
        },
        Codec::Gzip => gzip::decode(raw.as_slice()),
        Codec::Bzip2 => bzip2::decode(raw.as_slice()),
        Codec::Lz4 => lz4::decode(raw.as_slice()),
        Codec::Xz => xz::decode(raw.as_slice()),
        Codec::Zstd => zstd::decode(raw.as_slice()),
    };
    match decoded {
        Ok(data) => Ok(data),
        Err(e) => Err(OneIoError::Io(e)),
    }
}

/// What an encoder made of the data: its stream, or an I/O error where it reported one.
pub open spec fn encoded_or_error(encoded: Option<Seq<u8>>) -> Result<Seq<u8>, OneIoErrorView> {
    match encoded {
        Some(stream) => Ok(stream),
        None => Err(OneIoErrorView::Io),
    }
}

/// The stream that `codec` encodes `data` to. Without compression that is `data`
/// itself. The decode-only codec is answered with the not-supported error, the failure
/// of an encoder with an I/O error.
pub open spec fn spec_encode(codec: Codec, data: Seq<u8>) -> Result<Seq<u8>, OneIoErrorView> {
    match codec {
        Codec::Identity => Ok(data),
        Codec::Gzip => encoded_or_error(gzip_encoded(data)),
        Codec::Bzip2 => encoded_or_error(bzip2_encoded(data)),
        Codec::Lz4 => Err(not_supported(lz4_writer_message())),
        Codec::Xz => encoded_or_error(xz_encoded(data)),
        Codec::Zstd => encoded_or_error(zstd_encoded(data)),
    }
}

/// Encodes `data` as a whole stream. What comes out is a stream that `codec` decodes
/// back to `data`.
pub fn encode(codec: Codec, data: Vec<u8>) -> (r: Result<Vec<u8>, OneIoError>)
    ensures
        result_view(r) == spec_encode(codec, data@),
        r matches Ok(stream) ==> spec_decode(codec, stream@) == Some(data@),
{
    let encoded = match codec {
        Codec::Identity => {
            return Ok(data);
        },
        Codec::Gzip => gzip::encode(data.as_slice()),
        Codec::Bzip2 => bzip2::encode(data.as_slice()),
        Codec::Lz4 => {
            return Err(OneIoError::unsupported("lz4 writer is not currently supported."));
        },
        Codec::Xz => xz::encode(data.as_slice()),
        Codec::Zstd => zstd::encode(data.as_slice()),
    };
    match encoded {
        Ok(stream) => Ok(stream),
        Err(e) => Err(OneIoError::Io(e)),
    }
}

/// Wraps a raw source in the decoder that a suffix names: reads the source to its end
/// and hands back a stream of the decoded bytes. With an unknown suffix the bytes of the
/// source come back as they are.
pub fn get_compression_reader<R: ByteSource>(raw_reader: R, file_suffix: &str) -> (r: Result<
    ByteStream,
    OneIoError,
>)
    requires
        raw_reader.inv(),
    ensures
        match r {
            Ok(stream) => stream.wf() && spec_decode(
                spec_decoder_for(file_suffix@),
                raw_reader.remaining(),
            ) == Some(stream.content()),
            Err(e) => spec_decode(spec_decoder_for(file_suffix@), raw_reader.remaining()) is None
                && e@ == OneIoErrorView::Io,
        },
{
    let mut source = raw_reader;
    let raw = read_to_end(&mut source);
    match decode(decoder_for(file_suffix), raw) {
        Ok(data) => Ok(ByteStream::new(data)),
        Err(e) => Err(e),
    }
}

/// The stream that the encoder of a suffix encodes `data` to.
pub open spec fn spec_get_compression_writer(suffix: Seq<char>, data: Seq<u8>) -> Result<
    Seq<u8>,
    OneIoErrorView,
> {
    match spec_encoder_for(suffix) {
        Ok(codec) => spec_encode(codec, data),
        Err(e) => Err(e),
    }
}

/// Encodes `data` with the encoder that a suffix names. With an unknown suffix the data
/// comes back as it is; the suffix of the decode-only codec is not supported. What
/// comes out is a stream that the decoder of the suffix decodes back to `data`.
pub fn get_compression_writer(data: Vec<u8>, file_suffix: &str) -> (r: Result<Vec<u8>, OneIoError>)
    ensures
        result_view(r) == spec_get_compression_writer(file_suffix@, data@),
        r matches Ok(stream) ==> spec_decode(spec_decoder_for(file_suffix@), stream@) == Some(
            data@,
        ),
{
    match encoder_for(file_suffix) {
        Ok(codec) => encode(codec, data),
        Err(e) => Err(e),
    }
}

/// A suffix that names no codec passes bytes through in both directions, without error.
pub proof fn lemma_unknown_suffix_is_identity(suffix: Seq<char>, data: Seq<u8>)
    requires
        !is_gzip_suffix(suffix),
        !is_bzip2_suffix(suffix),
        !is_lz4_suffix(suffix),
        !is_xz_suffix(suffix),
        !is_zstd_suffix(suffix),
    ensures
        spec_decoder_for(suffix) == Codec::Identity,
        spec_encoder_for(suffix) == Ok::<_, OneIoErrorView>(Codec::Identity),
        spec_async_decoder_for(suffix) == Ok::<_, OneIoErrorView>(Codec::Identity),
        spec_decode(Codec::Identity, data) == Some(data),
{
}

/// The empty suffix names no codec.
pub proof fn lemma_empty_suffix_names_no_codec()
    ensures
        spec_decoder_for(Seq::empty()) == Codec::Identity,
{
    reveal_strlit("gz");
    reveal_strlit("gzip");
    reveal_strlit("tgz");
    reveal_strlit("bz2");
    reveal_strlit("bz");
    reveal_strlit("lz4");
    reveal_strlit("lz");
    reveal_strlit("xz");
    reveal_strlit("xz2");
    reveal_strlit("lzma");
    reveal_strlit("zst");
    reveal_strlit("zstd");
    assert(Seq::<char>::empty().len() == 0);
}

/// A location without a `.` has no suffix, so no codec is chosen for it, whatever its
/// name: its bytes pass through unchanged in both directions.
pub proof fn lemma_location_without_dot_passes_through(path: Seq<char>, data: Seq<u8>)
    requires
        forall|i: int| !occurs_at(path, "."@, i),
    ensures
        spec_file_suffix(path) == Seq::<char>::empty(),
        spec_decoder_for(spec_file_suffix(path)) == Codec::Identity,
        spec_encoder_for(spec_file_suffix(path)) == Ok::<_, OneIoErrorView>(Codec::Identity),
        spec_decode(Codec::Identity, data) == Some(data),
{
    lemma_no_occurrence(path, "."@);
    lemma_empty_suffix_names_no_codec();
}

/// The suffixes of LZ4 name a codec that decodes and does not encode.
pub proof fn lemma_lz4_decodes_only(suffix: Seq<char>)
    requires
        is_lz4_suffix(suffix),
    ensures
        spec_decoder_for(suffix) == Codec::Lz4,
        spec_encoder_for(suffix) == Err::<Codec, _>(not_supported(lz4_writer_message())),
{
    reveal_strlit("gz");
    reveal_strlit("gzip");
    reveal_strlit("tgz");
    reveal_strlit("bz2");
    reveal_strlit("bz");
    reveal_strlit("lz4");
    reveal_strlit("lz");
    assert("gz"@.len() == 2 && "gz"@[0] == 'g');
    assert("gzip"@.len() == 4);
    assert("tgz"@.len() == 3 && "tgz"@[0] == 't');
    assert("bz2"@.len() == 3 && "bz2"@[0] == 'b');
    assert("bz"@.len() == 2 && "bz"@[0] == 'b');
}

} // verus!
