//! Remote resources: checking that one exists, downloading one, and how the HTTP client
//! is set up.
//!
//! Every request is made by the caller. This module says where to ask, reads the answer,
//! and decides after a failed download whether to try again.

use vstd::prelude::*;
use crate::error::OneIoError;
use crate::error::OneIoErrorView;
use crate::error::result_view;
use crate::error::not_supported;
use crate::protocol::Protocol;
use crate::protocol::classify;
use crate::protocol::spec_classify;
use crate::reader::opened_view;
use crate::reader::read_raw;
use crate::reader::spec_read_raw;
use crate::s3::is_success;
use crate::s3::s3_exists;
use crate::s3::spec_is_success;
use crate::s3::spec_s3_exists;
use crate::source::Endpoint;
use crate::source::EndpointView;
use crate::source::object_endpoint;
use crate::source::spec_get_reader_raw;
use crate::source::spec_object_endpoint;
use crate::stream::ByteSource;
use crate::text::to_chars;

verus! {

/// The seconds to wait for the answer to a header-only request that checks existence.
pub const EXISTS_TIMEOUT_SECS: u64 = 2;

/// The seconds to wait for the answer of an object storage service.
pub const OBJECT_TIMEOUT_SECS: u64 = 600;

/// Where to ask whether the resource at `path` exists: the local file system, a
/// header-only request for HTTP and HTTPS, a head-object request for `s3`. Existence
/// cannot be asked of any other protocol.
pub open spec fn spec_exists_probe(path: Seq<char>) -> Result<EndpointView, OneIoErrorView> {
    match spec_classify(path) {
        Protocol::Local => Ok(EndpointView::Local { path }),
        Protocol::Http | Protocol::Https => Ok(EndpointView::Http { url: path }),
        Protocol::S3 => spec_object_endpoint(path),
        _ => Err(not_supported(path)),
    }
}

/// Names the endpoint to ask whether the resource at `path` exists.
pub fn exists_probe(path: &str) -> (r: Result<Endpoint, OneIoError>)
    ensures
        result_view(r) == spec_exists_probe(path@),
{
    match classify(path) {
        Protocol::Local => Ok(Endpoint::Local { path: path.to_owned() }),
        Protocol::Http | Protocol::Https => Ok(Endpoint::Http { url: path.to_owned() }),
        Protocol::S3 => object_endpoint(path),
        _ => Err(OneIoError::unsupported(path)),
    }
}

/// The answer of the endpoint that was asked whether a resource exists.
#[derive(Clone, Copy, Debug, PartialEq, Eq, Structural)]
pub enum ExistsAnswer {
    /// Whether the local file system has the path.
    Path(bool),
    /// The status code of the answer to a header-only HTTP request.
    HttpStatus(u16),
    /// The status code of the answer to a head-object request.
    ObjectStatus(u16),
}

impl View for ExistsAnswer {
    type V = ExistsAnswer;

    open spec fn view(&self) -> ExistsAnswer {
        *self
    }
}

/// What an answer says of existence. An HTTP resource exists where the status reports
/// success. An object exists on success and does not on 404; any other status is an
/// error.
pub open spec fn spec_judge_exists(answer: ExistsAnswer) -> Result<bool, OneIoErrorView> {
    match answer {
        ExistsAnswer::Path(found) => Ok(found),
        ExistsAnswer::HttpStatus(code) => Ok(spec_is_success(code)),
        ExistsAnswer::ObjectStatus(code) => spec_s3_exists(Ok(code)),
    }
}

/// Whether the resource at `path` exists, given what came of asking its endpoint: the
/// answer, or the failure of the request. Where the location admits no such question,
/// the error of the location comes back and the rest is not looked at. A failed request
/// is handed on: it is neither existence nor absence.
pub open spec fn spec_exists(path: Seq<char>, answer: Result<ExistsAnswer, OneIoErrorView>) -> Result<
    bool,
    OneIoErrorView,
> {
    match spec_exists_probe(path) {
        Ok(_) => match answer {
            Ok(said) => spec_judge_exists(said),
            Err(e) => Err(e),
        },
        Err(e) => Err(e),
    }
}

/// Decides whether the resource at `path` exists from what came of asking its endpoint.
/// The failure of the request comes back as it is.
pub fn resource_exists(path: &str, answer: Result<ExistsAnswer, OneIoError>) -> (r: Result<
    bool,
    OneIoError,
>)
    ensures
        result_view(r) == spec_exists(path@, result_view(answer)),
        spec_exists_probe(path@) is Ok && answer is Err ==> r is Err && r->Err_0 == answer->Err_0,
{
    match exists_probe(path) {
        Ok(_) => match answer {
            Ok(ExistsAnswer::Path(found)) => Ok(found),
            Ok(ExistsAnswer::HttpStatus(code)) => Ok(is_success(code)),
            Ok(ExistsAnswer::ObjectStatus(code)) => s3_exists(Ok(code)),
            Err(e) => Err(e),
        },
        Err(e) => Err(e),
    }
}

/// Downloads a resource: hands out the bytes to put into the local file, which are the
/// raw bytes of the source as they are. Nothing is decoded, whatever the suffix.
///
/// `opened` is what came of opening the raw source of `remote_path`. A location of an
/// unrecognized protocol is not supported; a failure to open is handed back as it is.
pub fn download<R: ByteSource>(remote_path: &str, opened: Result<R, OneIoError>) -> (r: Result<
    Vec<u8>,
    OneIoError,
>)
    requires
        opened matches Ok(source) ==> source.inv(),
    ensures
        result_view(r) == spec_read_raw(remote_path@, opened_view(opened)),
        spec_get_reader_raw(remote_path@) is Ok && opened is Err ==> r is Err && r->Err_0
            == opened->Err_0,
{
    read_raw(remote_path, opened)
}

/// What to do after an attempt to download.
#[derive(Debug)]
pub enum RetryStep {
    /// The download succeeded.
    Done,
    /// The download failed and is to be started over from the first byte, at once. So
    /// many further retries are left after that.
    Retry { retries_left: usize },
    /// The download failed and no retry is left. This is the error of the last attempt.
    Failed(OneIoError),
}

/// The mathematical value of a [`RetryStep`].
pub enum RetryStepView {
    Done,
    Retry { retries_left: nat },
    Failed(OneIoErrorView),
}

impl View for RetryStep {
    type V = RetryStepView;

    open spec fn view(&self) -> RetryStepView {
        match self {
            RetryStep::Done => RetryStepView::Done,
            RetryStep::Retry { retries_left } => RetryStepView::Retry {
                retries_left: *retries_left as nat,
            },
            RetryStep::Failed(e) => RetryStepView::Failed(e@),
        }
    }
}

/// What follows an attempt to download that ended with `outcome`, with `retry` retries
/// left: success ends the operation; any failure is retried as long as a retry is left,
/// and is final after that.
pub open spec fn spec_retry_step(outcome: Result<(), OneIoErrorView>, retry: nat) -> RetryStepView {
    match outcome {
        Ok(_) => RetryStepView::Done,
        Err(e) => if retry > 0 {
            RetryStepView::Retry { retries_left: (retry - 1) as nat }
        } else {
            RetryStepView::Failed(e)
        },
    }
}

/// Decides what follows an attempt to download that ended with `outcome`, with `retry`
/// retries left. A retry starts the whole download over, at once.
pub fn download_with_retry(outcome: Result<(), OneIoError>, retry: usize) -> (step: RetryStep)
    ensures
        step@ == spec_retry_step(result_view(outcome), retry as nat),
        outcome matches Err(e) ==> (retry == 0 ==> step == RetryStep::Failed(e)),
{
    match outcome {
        Ok(_) => RetryStep::Done,
        Err(e) => if retry > 0 {
            RetryStep::Retry { retries_left: retry - 1 }
        } else {
            RetryStep::Failed(e)
        },
    }
}

/// How a download with retries ends.
pub struct RetryRun {
    /// How many times the download was attempted.
    pub attempts: nat,
    /// What the operation returned.
    pub result: Result<(), OneIoErrorView>,
}

/// A whole download with `retry` retries. `outcomes[k]` is how attempt `k` ends, should
/// it be made. The attempts are made one after the other, each decided by
/// [`spec_retry_step`], until one of them ends the operation. The list of outcomes must
/// be long enough for that: it has more entries than there are retries.
pub open spec fn spec_download_with_retry(outcomes: Seq<Result<(), OneIoErrorView>>, retry: nat) -> RetryRun
    recommends
        outcomes.len() > retry,
    decreases retry,
{
    match spec_retry_step(outcomes[0], retry) {
        RetryStepView::Retry { retries_left } if retries_left < retry => {
            let rest = spec_download_with_retry(outcomes.skip(1), retries_left);
            RetryRun { attempts: rest.attempts + 1, result: rest.result }
        },
        _ => RetryRun { attempts: 1, result: outcomes[0] },
    }
}

/// A download with `retry` retries is attempted `retry + 1` times at most. It succeeds
/// with the first attempt that succeeds, and attempts nothing after that. It fails only
/// where all `retry + 1` attempts fail, and then with the error of the last of them.
pub proof fn lemma_retries_are_bounded(outcomes: Seq<Result<(), OneIoErrorView>>, retry: nat)
    requires
        outcomes.len() > retry,
    ensures
        ({
            let run = spec_download_with_retry(outcomes, retry);
            &&& 1 <= run.attempts <= retry + 1
            &&& run.result == outcomes[run.attempts - 1]
            &&& forall|k: int| 0 <= k < run.attempts - 1 ==> (#[trigger] outcomes[k]) is Err
            &&& run.result is Err ==> run.attempts == retry + 1
        }),
    decreases retry,
{
    if outcomes[0] is Err && retry > 0 {
        let rest = outcomes.skip(1);
        lemma_retries_are_bounded(rest, (retry - 1) as nat);
        let run = spec_download_with_retry(outcomes, retry);
        assert forall|k: int| 0 <= k < run.attempts - 1 implies (#[trigger] outcomes[k]) is Err by {
            if k > 0 {
                assert(rest[k - 1] == outcomes[k]);
            }
        }
    }
}

/// The lower-case form of an ASCII letter; any other character as it is.
pub open spec fn spec_ascii_lower(c: char) -> char {
    if 'A' <= c <= 'Z' {
        ((c as u8) + 32) as char
    } else {
        c
    }
}

/// Whether `text` is `word` but for the case of its ASCII letters.
pub open spec fn equals_ignoring_ascii_case(text: Seq<char>, word: Seq<char>) -> bool {
    &&& text.len() == word.len()
    &&& forall|i: int| 0 <= i < text.len() ==> spec_ascii_lower(#[trigger] text[i]) == spec_ascii_lower(word[i])
}

/// Whether the value of the toggle for invalid certificates switches it on: it does
/// where it is `true`, `yes`, `y` or `1`, in any case of the letters.
pub open spec fn spec_accept_invalid_certs(value: Seq<char>) -> bool {
    ||| equals_ignoring_ascii_case(value, "true"@)
    ||| equals_ignoring_ascii_case(value, "yes"@)
    ||| equals_ignoring_ascii_case(value, "y"@)
    ||| equals_ignoring_ascii_case(value, "1"@)
}

/// Turns an ASCII letter into its lower-case form.
fn ascii_lower(c: char) -> (r: char)
    ensures
        r == spec_ascii_lower(c),
{
    match c {
        'A' => 'a',
        'B' => 'b',
        'C' => 'c',
        'D' => 'd',
        'E' => 'e',
        'F' => 'f',
        'G' => 'g',
        'H' => 'h',
        'I' => 'i',
        'J' => 'j',
        'K' => 'k',
        'L' => 'l',
        'M' => 'm',
        'N' => 'n',
        'O' => 'o',
        'P' => 'p',
        'Q' => 'q',
        'R' => 'r',
        'S' => 's',
        'T' => 't',
        'U' => 'u',
        'V' => 'v',
        'W' => 'w',
        'X' => 'x',
        'Y' => 'y',
        'Z' => 'z',
        _ => c,
    }
}

/// Tells whether `text` is `word` but for the case of its ASCII letters.
fn matches_ignoring_ascii_case(text: &Vec<char>, word: &str) -> (r: bool)
    ensures
        r == equals_ignoring_ascii_case(text@, word@),
{
    let letters = to_chars(word);
    if text.len() != letters.len() {
        return false;
    }
    let mut i: usize = 0;
    while i < text.len()
        invariant
            i <= text.len(),
            text.len() == letters.len(),
            letters@ == word@,
            forall|j: int| 0 <= j < i ==> spec_ascii_lower(#[trigger] text@[j]) == spec_ascii_lower(word@[j]),
        decreases text.len() - i,
    {
        if ascii_lower(text[i]) != ascii_lower(letters[i]) {
            return false;
        }
        i += 1;
    }
    true
}

/// Reads the toggle that makes the HTTP client accept invalid certificates. An unset
/// toggle is the empty text, and is off.
pub fn accept_invalid_certs(value: &str) -> (r: bool)
    ensures
        r == spec_accept_invalid_certs(value@),
{
    let text = to_chars(value);
    matches_ignoring_ascii_case(&text, "true") || matches_ignoring_ascii_case(&text, "yes")
        || matches_ignoring_ascii_case(&text, "y") || matches_ignoring_ascii_case(&text, "1")
}

/// The headers that the HTTP client sends with every request unless the caller brings a
/// client of their own: the user agent and a content length of zero, and for the command
/// line tool the demand for an answer that is not cached.
pub open spec fn spec_default_headers(no_cache: bool) -> Seq<(Seq<char>, Seq<char>)> {
    let always = seq![("user-agent"@, "oneio"@), ("content-length"@, "0"@)];
    if no_cache {
        always.push(("cache-control"@, "no-cache"@))
    } else {
        always
    }
}

/// The names and values of a list of headers.
pub open spec fn header_views(headers: Seq<(String, String)>) -> Seq<(Seq<char>, Seq<char>)> {
    headers.map_values(|header: (String, String)| (header.0@, header.1@))
}

/// Lists the default headers of the HTTP client.
pub fn default_headers(no_cache: bool) -> (headers: Vec<(String, String)>)
    ensures
        header_views(headers@) == spec_default_headers(no_cache),
{
    let mut headers: Vec<(String, String)> = Vec::new();
    headers.push(("user-agent".to_owned(), "oneio".to_owned()));
    headers.push(("content-length".to_owned(), "0".to_owned()));
    if no_cache {
        headers.push(("cache-control".to_owned(), "no-cache".to_owned()));
    }
    headers
}

} // verus!
