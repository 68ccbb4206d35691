//! The content-length resolver: how many bytes the raw form of a resource has, where
//! that can be known.
//!
//! Resolving takes two steps around one request that the caller makes. First
//! [`content_length_probe`] says what to ask, by the protocol of the location. Then
//! [`get_content_length`] reads the answer. A length that cannot be determined is an
//! error of its own, never the length zero. Whether to go on without a length is for
//! the one who asks to decide: reading with progress does, with an unknown size.

use vstd::prelude::*;
use crate::error::OneIoError;
use crate::error::OneIoErrorView;
use crate::error::result_view;
use crate::error::not_supported;
use crate::protocol::Protocol;
use crate::protocol::classify;
use crate::protocol::spec_classify;
use crate::s3::ObjectStats;
use crate::s3::s3_stats;
use crate::s3::spec_s3_stats;
use crate::source::Endpoint;
use crate::source::EndpointView;
use crate::source::object_endpoint;
use crate::source::spec_object_endpoint;
use crate::text::concat;
use crate::text::option_text;
use crate::text::to_chars;

verus! {

/// Whether `c` is a decimal digit.
pub open spec fn is_digit(c: char) -> bool {
    '0' <= c <= '9'
}

/// The number that the digit `c` stands for.
pub open spec fn digit_value(c: char) -> nat {
    (c as int - '0' as int) as nat
}

/// Whether `text` holds decimal digits only.
pub open spec fn all_digits(text: Seq<char>) -> bool {
    forall|i: int| 0 <= i < text.len() ==> is_digit(#[trigger] text[i])
}

/// The number that a string of decimal digits stands for.
pub open spec fn decimal_value(digits: Seq<char>) -> nat
    decreases digits.len(),
{
    if digits.len() == 0 {
        0
    } else {
        decimal_value(digits.drop_last()) * 10 + digit_value(digits.last())
    }
}

/// The number that `text` states: one or more decimal digits, after an optional `+`,
/// whose value fits in 64 bits. Any other text states no number.
pub open spec fn spec_parse_u64(text: Seq<char>) -> Option<u64> {
    let digits = if text.len() > 0 && text[0] == '+' {
        text.skip(1)
    } else {
        text
    };
    if digits.len() > 0 && all_digits(digits) && decimal_value(digits) <= u64::MAX {
        Some(decimal_value(digits) as u64)
    } else {
        None
    }
}

/// A prefix of a digit string stands for no more than the whole string.
proof fn lemma_decimal_value_monotone(digits: Seq<char>, k: int)
    requires
        0 <= k <= digits.len(),
    ensures
        decimal_value(digits.take(k)) <= decimal_value(digits),
    decreases digits.len() - k,
{
    if k == digits.len() {
        assert(digits.take(k) =~= digits);
    } else {
        assert(digits.drop_last().take(k) =~= digits.take(k));
        lemma_decimal_value_monotone(digits.drop_last(), k);
    }
}

/// The value of the digit `c`, if it is one.
fn digit_of(c: char) -> (r: Option<u64>)
    ensures
        match r {
            Some(d) => is_digit(c) && d == digit_value(c),
            None => !is_digit(c),
        },
{
    match c {
        '0' => Some(0),
        '1' => Some(1),
        '2' => Some(2),
        '3' => Some(3),
        '4' => Some(4),
        '5' => Some(5),
        '6' => Some(6),
        '7' => Some(7),
        '8' => Some(8),
        '9' => Some(9),
        _ => None,
    }
}

/// Reads a decimal number of at most 64 bits from `text`.
pub fn parse_u64(text: &str) -> (r: Option<u64>)
    ensures
        r == spec_parse_u64(text@),
{
    let chars = to_chars(text);
    let start: usize = if chars.len() > 0 && chars[0] == '+' {
        1
    } else {
        0
    };
    if start == chars.len() {
        return None;
    }
    let ghost digits = chars@.skip(start as int);
    let mut value: u64 = 0;
    let mut i: usize = start;
    while i < chars.len()
        invariant
            start <= i <= chars.len(),
            start < chars.len(),
            chars@ == text@,
            start == (if chars@.len() > 0 && chars@[0] == '+' {
                1int
            } else {
                0int
            }),
            digits == chars@.skip(start as int),
            all_digits(digits.take(i - start)),
            value == decimal_value(digits.take(i - start)),
        decreases chars.len() - i,
    {
        let ghost k = i - start;
        proof {
            assert(chars@.skip(0) =~= chars@);
            assert(digits.take(k + 1).drop_last() =~= digits.take(k));
            lemma_decimal_value_monotone(digits, k + 1);
        }
        let digit = match digit_of(chars[i]) {
            Some(d) => d,
            None => {
                return None;
            },
        };
        let shifted = match value.checked_mul(10) {
            Some(v) => v,
            None => {
                return None;
            },
        };
        value = match shifted.checked_add(digit) {
            Some(v) => v,
            None => {
                return None;
            },
        };
        i += 1;
    }
    assert(digits.take(i - start) =~= digits);
    assert(chars@.skip(0) =~= chars@);
    Some(value)
}

/// The text of the error for the length of an FTP resource.
pub open spec fn ftp_length_message() -> Seq<char> {
    "FTP size determination not yet implemented"@
}

/// The text of the error for the length of a resource of an unrecognized protocol.
pub open spec fn protocol_length_message(path: Seq<char>) -> Seq<char> {
    "Protocol not supported for progress tracking: "@ + path
}

/// The text of the error for an answer without a usable content-length header.
pub open spec fn header_length_message() -> Seq<char> {
    "Cannot determine file size - server doesn't provide Content-Length"@
}

/// The text of the error for an object whose metadata tells no size.
pub open spec fn object_length_message() -> Seq<char> {
    "S3 object doesn't have content length information"@
}

/// Where to ask for the length of the resource at `path`: the metadata of the file for a
/// local path, a header-only request for HTTP and HTTPS, a head-object request for
/// object storage.
/// The length of an FTP resource cannot be asked for, nor that of a resource of an
/// unrecognized protocol.
pub open spec fn spec_content_length_probe(path: Seq<char>) -> Result<EndpointView, OneIoErrorView> {
    match spec_classify(path) {
        Protocol::Local => Ok(EndpointView::Local { path }),
        Protocol::Http | Protocol::Https => Ok(EndpointView::Http { url: path }),
        Protocol::Ftp => Err(not_supported(ftp_length_message())),
        Protocol::S3 | Protocol::R2 => spec_object_endpoint(path),
        Protocol::Unrecognized => Err(not_supported(protocol_length_message(path))),
    }
}

/// Names the endpoint to ask for the length of the resource at `path`.
pub fn content_length_probe(path: &str) -> (r: Result<Endpoint, OneIoError>)
    ensures
        result_view(r) == spec_content_length_probe(path@),
{
    match classify(path) {
        Protocol::Local => Ok(Endpoint::Local { path: path.to_owned() }),
        Protocol::Http | Protocol::Https => Ok(Endpoint::Http { url: path.to_owned() }),
        Protocol::Ftp => Err(OneIoError::unsupported("FTP size determination not yet implemented")),
        Protocol::S3 | Protocol::R2 => object_endpoint(path),
        Protocol::Unrecognized => {
            let message = concat("Protocol not supported for progress tracking: ", path);
            Err(OneIoError::NotSupported(message))
        },
    }
}

/// The answer of the endpoint that was asked for a length.
#[derive(Debug)]
pub enum LengthAnswer {
    /// The length that the metadata of a local file states.
    Metadata(u64),
    /// The text of the content-length header of the answer, where it has one that is
    /// text.
    ContentLength(Option<String>),
    /// The metadata of an object and the status code that came with it.
    ObjectHead(ObjectStats, u16),
}

/// The mathematical value of a [`LengthAnswer`].
pub enum LengthAnswerView {
    Metadata(u64),
    ContentLength(Option<Seq<char>>),
    ObjectHead(ObjectStats, u16),
}

impl View for LengthAnswer {
    type V = LengthAnswerView;

    open spec fn view(&self) -> LengthAnswerView {
        match self {
            LengthAnswer::Metadata(length) => LengthAnswerView::Metadata(*length),
            LengthAnswer::ContentLength(header) => LengthAnswerView::ContentLength(
                option_text(*header),
            ),
            LengthAnswer::ObjectHead(stats, code) => LengthAnswerView::ObjectHead(*stats, *code),
        }
    }
}

/// The length that an answer states. A header states the number that its text states,
/// and no length where it is absent or states none. An object states the size in its
/// metadata, where the request succeeded and the metadata has one.
pub open spec fn spec_resolve_length(answer: LengthAnswerView) -> Result<u64, OneIoErrorView> {
    match answer {
        LengthAnswerView::Metadata(length) => Ok(length),
        LengthAnswerView::ContentLength(header) => match header {
            Some(text) => match spec_parse_u64(text) {
                Some(length) => Ok(length),
                None => Err(not_supported(header_length_message())),
            },
            None => Err(not_supported(header_length_message())),
        },
        LengthAnswerView::ObjectHead(stats, code) => match spec_s3_stats(Ok((stats, code))) {
            Ok(found) => match found.content_length {
                Some(length) => Ok(length),
                None => Err(not_supported(object_length_message())),
            },
            Err(e) => Err(e),
        },
    }
}

/// The length of the resource at `path`, given the answer to its probe. Where the
/// location admits no probe, the error of the probe comes back and the answer is not
/// looked at.
pub open spec fn spec_get_content_length(path: Seq<char>, answer: LengthAnswerView) -> Result<
    u64,
    OneIoErrorView,
> {
    match spec_content_length_probe(path) {
        Ok(_) => spec_resolve_length(answer),
        Err(e) => Err(e),
    }
}

/// Reads the length that an answer states.
pub fn resolve_length(answer: LengthAnswer) -> (r: Result<u64, OneIoError>)
    ensures
        result_view(r) == spec_resolve_length(answer@),
{
    match answer {
        LengthAnswer::Metadata(length) => Ok(length),
        LengthAnswer::ContentLength(header) => {
            let parsed = match header {
                Some(text) => parse_u64(text.as_str()),
                None => None,
            };
            match parsed {
                Some(length) => Ok(length),
                None => Err(
                    OneIoError::unsupported(
                        "Cannot determine file size - server doesn't provide Content-Length",
                    ),
                ),
            }
        },
        LengthAnswer::ObjectHead(stats, code) => match s3_stats(Ok((stats, code))) {
            Ok(found) => match found.content_length {
                Some(length) => Ok(length),
                None => Err(
                    OneIoError::unsupported("S3 object doesn't have content length information"),
                ),
            },
            Err(e) => Err(e),
        },
    }
}

/// Determines the length of the raw form of the resource at `path` from the answer to
/// its probe. A length that cannot be determined is the not-supported error.
pub fn get_content_length(path: &str, answer: LengthAnswer) -> (r: Result<u64, OneIoError>)
    ensures
        result_view(r) == spec_get_content_length(path@, answer@),
{
    match content_length_probe(path) {
        Ok(_) => resolve_length(answer),
        Err(e) => Err(e),
    }
}

} // verus!
