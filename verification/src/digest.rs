//! The SHA-256 digest of the raw bytes of a resource, as hexadecimal text.

use vstd::prelude::*;
use crate::error::OneIoError;
use crate::error::OneIoErrorView;
use crate::error::result_view;
use crate::reader::opened_view;
use crate::reader::spec_read_raw;
use crate::source::get_reader_raw;
use crate::source::spec_get_reader_raw;
use crate::stream::ByteSource;

verus! {

/// The number of bytes that are fed to the digest at a time.
pub const DIGEST_CHUNK_SIZE: usize = 1024;

/// `ring::digest::Context`, the state of a digest in the making.
#[verifier::external_type_specification]
#[verifier::external_body]
pub struct ExDigestContext(ring::digest::Context);

/// The SHA-256 digest of `data`.
pub uninterp spec fn sha256(data: Seq<u8>) -> Seq<u8>;

/// The bytes that a digest context has been fed, in order.
pub uninterp spec fn absorbed(context: ring::digest::Context) -> Seq<u8>;

/// Makes a SHA-256 context with `ring::digest::Context::new`.
///
/// Trusted: the new context has been fed nothing.
#[verifier::external_body]
fn sha256_new() -> (context: ring::digest::Context)
    ensures
        absorbed(context) == Seq::<u8>::empty(),
{
    ring::digest::Context::new(&ring::digest::SHA256)
}

/// Feeds `data` to a context with `ring::digest::Context::update`.
///
/// Trusted: the context has then been fed `data` after all that it was fed before.
#[verifier::external_body]
fn sha256_update(context: &mut ring::digest::Context, data: &[u8])
    ensures
        absorbed(*final(context)) == absorbed(*old(context)) + data@,
{
    context.update(data);
}

/// Completes a digest with `ring::digest::Context::finish`.
///
/// Trusted: the result is the SHA-256 digest of all that the context was fed, which
/// has 32 bytes.
#[verifier::external_body]
fn sha256_finish(context: ring::digest::Context) -> (digest: Vec<u8>)
    ensures
        digest@ == sha256(absorbed(context)),
        digest@.len() == 32,
{
    context.finish().as_ref().to_vec()
}

/// The hexadecimal digits, by value.
pub open spec fn hex_digits() -> Seq<char> {
    "0123456789abcdef"@
}

/// Bytes as hexadecimal text in lower case: two digits for each byte, the high half of
/// the byte first.
pub open spec fn spec_hex(bytes: Seq<u8>) -> Seq<char> {
    Seq::new(
        2 * bytes.len(),
        |i: int|
            if i % 2 == 0 {
                hex_digits()[bytes[i / 2] as int / 16]
            } else {
                hex_digits()[bytes[i / 2] as int % 16]
            },
    )
}

/// Writes bytes as hexadecimal text with `hex::encode`.
///
/// Trusted: the text holds two lower-case hexadecimal digits for each byte, in the
/// order of the bytes, the high half of each byte first.
#[verifier::external_body]
fn hex_encode(bytes: &[u8]) -> (text: String)
    ensures
        text@ == spec_hex(bytes@),
{
    hex::encode(bytes)
}

/// The digest of the raw bytes of a location, as text.
pub open spec fn spec_get_sha256_digest(
    path: Seq<char>,
    opened: Result<Seq<u8>, OneIoErrorView>,
) -> Result<Seq<char>, OneIoErrorView> {
    match spec_read_raw(path, opened) {
        Ok(raw) => Ok(spec_hex(sha256(raw))),
        Err(e) => Err(e),
    }
}

/// Computes the SHA-256 digest of the raw bytes of a location, given what came of
/// opening its raw source, and writes it as 64 hexadecimal digits. The bytes are
/// digested as they are: nothing is decoded.
pub fn get_sha256_digest<R: ByteSource>(path: &str, opened: Result<R, OneIoError>) -> (r: Result<
    String,
    OneIoError,
>)
    requires
        opened matches Ok(source) ==> source.inv(),
    ensures
        result_view(r) == spec_get_sha256_digest(path@, opened_view(opened)),
        r matches Ok(text) ==> text@.len() == 64,
        spec_get_reader_raw(path@) is Ok && opened is Err ==> r is Err && r->Err_0 == opened->Err_0,
{
    match get_reader_raw(path) {
        Ok(_) => {},
        Err(e) => {
            return Err(e);
        },
    }
    let mut source = match opened {
        Ok(source) => source,
        Err(e) => {
            return Err(e);
        },
    };
    let ghost all = source.remaining();
    let mut context = sha256_new();
    loop
        invariant
            source.inv(),
            absorbed(context) + source.remaining() == all,
        ensures
            absorbed(context) == all,
        decreases source.remaining().len(),
    {
        let chunk = source.read(DIGEST_CHUNK_SIZE);
        if chunk.len() == 0 {
            break;
        }
        sha256_update(&mut context, chunk.as_slice());
    }
    let digest = sha256_finish(context);
    Ok(hex_encode(digest.as_slice()))
}

} // verus!
