//! The protocol classifier and the raw source provider's dispatch.
//!
//! A location is a string. The text before its first `"://"` is its scheme; a location
//! without `"://"` names a local file, whatever else it holds. The classifier only
//! extracts and names the scheme. Which schemes an operation serves is decided by that
//! operation, which answers an unrecognized scheme with a not-supported error.

use vstd::prelude::*;
use crate::error::OneIoError;
use crate::error::OneIoErrorView;
use crate::error::result_view;
use crate::error::not_supported;
use crate::text::after_first;
use crate::text::before_first;
use crate::text::concat;
use crate::text::find_first;
use crate::text::first_occurrence;
use crate::text::lemma_first_occurrence_is_least;
use crate::text::lemma_no_occurrence;
use crate::text::lemma_occurrence_has_first;
use crate::text::occurs_at;
use crate::text::str_eq;
use crate::text::substring;
use crate::text::to_chars;

verus! {

/// The scheme of a location: the text before the first `"://"`, if there is one.
pub open spec fn spec_get_protocol(path: Seq<char>) -> Option<Seq<char>> {
    match first_occurrence(path, "://"@) {
        Some(i) => Some(path.take(i)),
        None => None,
    }
}

/// What follows the first `"://"` of a location; the whole location where it has none.
pub open spec fn spec_remainder(path: Seq<char>) -> Seq<char> {
    match first_occurrence(path, "://"@) {
        Some(i) => path.skip(i + "://"@.len()),
        None => path,
    }
}

/// Extracts the scheme of a location. No scheme means a local path.
pub fn get_protocol(path: &str) -> (r: Option<String>)
    ensures
        match r {
            Some(scheme) => spec_get_protocol(path@) == Some(scheme@),
            None => spec_get_protocol(path@) is None,
        },
{
    let chars = to_chars(path);
    let separator = to_chars("://");
    match find_first(&chars, &separator) {
        Some(i) => Some(substring(path, 0, i)),
        None => None,
    }
}

/// What follows the scheme separator of a location.
pub fn remainder(path: &str) -> (r: String)
    ensures
        r@ == spec_remainder(path@),
{
    let chars = to_chars(path);
    let separator = to_chars("://");
    match find_first(&chars, &separator) {
        Some(i) => {
            let end = chars.len();
            substring(path, i + separator.len(), end)
        },
        None => {
            substring(path, 0, chars.len())
        },
    }
}

/// The protocols a location can name.
#[derive(Clone, Copy, Debug, PartialEq, Eq, Structural)]
pub enum Protocol {
    /// No scheme: the local file system.
    Local,
    /// `http`
    Http,
    /// `https`
    Https,
    /// `ftp`
    Ftp,
    /// `s3`: object storage.
    S3,
    /// `r2`: the alias scheme of a second object storage provider.
    R2,
    /// Any other scheme.
    Unrecognized,
}

/// The protocol that a scheme token names.
pub open spec fn spec_protocol_of(scheme: Seq<char>) -> Protocol {
    if scheme == "http"@ {
        Protocol::Http
    } else if scheme == "https"@ {
        Protocol::Https
    } else if scheme == "ftp"@ {
        Protocol::Ftp
    } else if scheme == "s3"@ {
        Protocol::S3
    } else if scheme == "r2"@ {
        Protocol::R2
    } else {
        Protocol::Unrecognized
    }
}

/// The protocol of a location.
pub open spec fn spec_classify(path: Seq<char>) -> Protocol {
    match spec_get_protocol(path) {
        Some(scheme) => spec_protocol_of(scheme),
        None => Protocol::Local,
    }
}

/// Names the protocol of a scheme token. The comparison is exact: `HTTP` is not `http`.
pub fn protocol_of(scheme: &str) -> (p: Protocol)
    ensures
        p == spec_protocol_of(scheme@),
{
    if str_eq(scheme, "http") {
        Protocol::Http
    } else if str_eq(scheme, "https") {
        Protocol::Https
    } else if str_eq(scheme, "ftp") {
        Protocol::Ftp
    } else if str_eq(scheme, "s3") {
        Protocol::S3
    } else if str_eq(scheme, "r2") {
        Protocol::R2
    } else {
        Protocol::Unrecognized
    }
}

/// Classifies a location by its scheme.
pub fn classify(path: &str) -> (p: Protocol)
    ensures
        p == spec_classify(path@),
{
    match get_protocol(path) {
        Some(scheme) => protocol_of(scheme.as_str()),
        None => Protocol::Local,
    }
}

/// A location is local exactly where `"://"` stands nowhere in it, whatever else it
/// holds: colons and slashes alone make no scheme.
pub proof fn lemma_local_iff_no_separator(path: Seq<char>)
    ensures
        spec_classify(path) == Protocol::Local <==> forall|i: int| !occurs_at(path, "://"@, i),
{
    if exists|i: int| occurs_at(path, "://"@, i) {
        let i = choose|i: int| occurs_at(path, "://"@, i);
        lemma_occurrence_has_first(path, "://"@, i);
    } else {
        lemma_no_occurrence(path, "://"@);
    }
}

/// A location with a scheme is its scheme, the separator `"://"` and its remainder, in
/// this order; a location without a scheme is its remainder.
pub proof fn lemma_location_parts(path: Seq<char>)
    ensures
        match spec_get_protocol(path) {
            Some(scheme) => path == scheme + "://"@ + spec_remainder(path),
            None => path == spec_remainder(path),
        },
{
    lemma_first_occurrence_is_least(path, "://"@);
}

/// The two parts of `host/rest`: what stands before the first `/` and what follows it.
/// Without a `/` the second part is empty.
pub open spec fn spec_split_authority(remainder: Seq<char>) -> (Seq<char>, Seq<char>) {
    (before_first(remainder, "/"@), after_first(remainder, "/"@))
}

/// Splits `host/rest` at its first `/`.
pub fn split_authority(remainder: &str) -> (r: (String, String))
    ensures
        (r.0@, r.1@) == spec_split_authority(remainder@),
{
    let chars = to_chars(remainder);
    let slash = to_chars("/");
    match find_first(&chars, &slash) {
        Some(i) => {
            let end = chars.len();
            (substring(remainder, 0, i), substring(remainder, i + slash.len(), end))
        },
        None => {
            (substring(remainder, 0, chars.len()), substring(remainder, 0, 0))
        },
    }
}

/// The socket address and the remote path of an FTP location `ftp://host[:port]/path`.
/// A host without a port gets the default port 21. Any other location is not supported.
pub open spec fn spec_ftp_url_parse(path: Seq<char>) -> Result<(Seq<char>, Seq<char>), OneIoErrorView> {
    if spec_classify(path) == Protocol::Ftp {
        let (host, file) = spec_split_authority(spec_remainder(path));
        let socket = if first_occurrence(host, ":"@) is Some {
            host
        } else {
            host + ":21"@
        };
        Ok((socket, file))
    } else {
        Err(not_supported(path))
    }
}

/// Parses an FTP location into the socket address to connect to and the path to retrieve.
pub fn ftp_url_parse(path: &str) -> (r: Result<(String, String), OneIoError>)
    ensures
        result_view(r) == spec_ftp_url_parse(path@),
{
    match classify(path) {
        Protocol::Ftp => {
            let rest = remainder(path);
            let (host, file) = split_authority(rest.as_str());
            let host_chars = to_chars(host.as_str());
            let colon = to_chars(":");
            let socket = match find_first(&host_chars, &colon) {
                Some(_) => host,
                None => concat(host.as_str(), ":21"),
            };
            Ok((socket, file))
        },
        _ => Err(OneIoError::unsupported(path)),
    }
}

} // verus!
