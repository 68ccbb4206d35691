//! The stream resolution pipeline for reading: from a location and its opened raw
//! source to the decoded bytes.
//!
//! A read goes through these stages: the location is classified, its raw source is
//! opened, the source is wrapped in a progress decorator where progress is asked for,
//! and the raw bytes are decoded by the codec that the suffix of the location names. The
//! caller opens the raw source, at the endpoint that [`crate::source::get_reader_raw`]
//! names, and hands over what came of it. Any stage may fail; the failure is returned as
//! it is, and no partial stream. Nothing is retried here.

use vstd::prelude::*;
use vstd::utf8::decode_utf8;
use vstd::utf8::valid_utf8;
use crate::compressions::decode;
use crate::compressions::decoder_for;
use crate::compressions::file_suffix;
use crate::compressions::spec_decode;
use crate::compressions::spec_decoder_for;
use crate::compressions::spec_file_suffix;
use crate::error::OneIoError;
use crate::error::OneIoErrorView;
use crate::error::invalid_utf8_error;
use crate::error::result_deep_view;
use crate::error::result_view;
use crate::progress::ProgressReader;
use crate::progress::ProgressSink;
use crate::progress::has_taken_progress;
use crate::source::get_reader_raw;
use crate::source::spec_get_reader_raw;
use crate::stream::ByteSource;
use crate::stream::ByteStream;
use crate::stream::read_to_end;
use crate::text::find_first_from;
use crate::text::first_occurrence;
use crate::text::string_from_utf8;
use crate::text::substring;
use crate::text::to_chars;

verus! {

/// What came of opening a raw source: the bytes that it will hand out, or the error.
pub open spec fn opened_view<R: ByteSource>(opened: Result<R, OneIoError>) -> Result<
    Seq<u8>,
    OneIoErrorView,
> {
    match opened {
        Ok(source) => Ok(source.remaining()),
        Err(e) => Err(e@),
    }
}

/// The raw bytes of a location: where the location names an endpoint, what came of
/// opening it; else the error of the location.
pub open spec fn spec_read_raw(path: Seq<char>, opened: Result<Seq<u8>, OneIoErrorView>) -> Result<
    Seq<u8>,
    OneIoErrorView,
> {
    match spec_get_reader_raw(path) {
        Ok(_) => opened,
        Err(e) => Err(e),
    }
}

/// The raw bytes `raw` of the location `path`, decoded by the codec that the suffix of
/// the location names. Bytes that the codec rejects are an I/O error.
pub open spec fn spec_decode_for(path: Seq<char>, raw: Seq<u8>) -> Result<Seq<u8>, OneIoErrorView> {
    match spec_decode(spec_decoder_for(spec_file_suffix(path)), raw) {
        Some(data) => Ok(data),
        None => Err(OneIoErrorView::Io),
    }
}

/// The decoded bytes of a location, given what came of opening its raw source.
pub open spec fn spec_get_reader(path: Seq<char>, opened: Result<Seq<u8>, OneIoErrorView>) -> Result<
    Seq<u8>,
    OneIoErrorView,
> {
    match spec_read_raw(path, opened) {
        Ok(raw) => spec_decode_for(path, raw),
        Err(e) => Err(e),
    }
}

/// Decodes raw bytes by the codec that the suffix of `path` names.
pub fn decode_for(path: &str, raw: Vec<u8>) -> (r: Result<ByteStream, OneIoError>)
    ensures
        result_view(r) == spec_decode_for(path@, raw@),
        r matches Ok(stream) ==> stream.wf(),
{
    let suffix = file_suffix(path);
    match decode(decoder_for(suffix.as_str()), raw) {
        Ok(data) => Ok(ByteStream::new(data)),
        Err(e) => Err(e),
    }
}

/// Reads the raw bytes of a location to their end, given what came of opening its raw
/// source. No decoding takes place. A location of an unrecognized protocol is not
/// supported, whatever was opened; a failure to open is handed back as it is.
pub fn read_raw<R: ByteSource>(path: &str, opened: Result<R, OneIoError>) -> (r: Result<
    Vec<u8>,
    OneIoError,
>)
    requires
        opened matches Ok(source) ==> source.inv(),
    ensures
        result_view(r) == spec_read_raw(path@, opened_view(opened)),
        spec_get_reader_raw(path@) is Ok && opened is Err ==> r is Err && r->Err_0 == opened->Err_0,
{
    match get_reader_raw(path) {
        Ok(_) => match opened {
            Ok(source) => {
                let mut source = source;
                Ok(read_to_end(&mut source))
            },
            Err(e) => Err(e),
        },
        Err(e) => Err(e),
    }
}

/// Gets a reader of the decoded bytes of a location, given what came of opening its raw
/// source.
pub fn get_reader<R: ByteSource>(path: &str, opened: Result<R, OneIoError>) -> (r: Result<
    ByteStream,
    OneIoError,
>)
    requires
        opened matches Ok(source) ==> source.inv(),
    ensures
        result_view(r) == spec_get_reader(path@, opened_view(opened)),
        r matches Ok(stream) ==> stream.wf(),
        spec_get_reader_raw(path@) is Ok && opened is Err ==> r is Err && r->Err_0 == opened->Err_0,
{
    match read_raw(path, opened) {
        Ok(raw) => decode_for(path, raw),
        Err(e) => Err(e),
    }
}

/// The size of a resource as far as it is known: the length where it was determined,
/// unknown where determining it failed.
pub open spec fn spec_known_size(length: Result<u64, OneIoError>) -> Option<u64> {
    match length {
        Ok(size) => Some(size),
        Err(_) => None,
    }
}

/// The total that the reports of a read carry: the size where it is known, else zero.
pub open spec fn spec_reported_total(size: Option<u64>) -> u64 {
    match size {
        Some(total) => total,
        None => 0,
    }
}

/// Gets a reader of the decoded bytes of a location that reports the progress of reading
/// the raw bytes.
///
/// `length` is what came of resolving the content length of the location. A length that
/// could not be determined does not fail the read, whatever the reason: the read goes on
/// with an unknown size. The size comes back with the reader, `None` where it is unknown,
/// which is not the size zero. The only failures are those of reading without progress.
///
/// `progress` takes a report of the number of raw bytes read so far and the total,
/// after every read of the raw source that yields bytes. The total is the size, or zero
/// where the size is unknown. The counts are of the bytes that arrive from the source,
/// before decoding. The raw source is read to its end before this function returns; the
/// sink comes back with the reader, and holds the reports of the read after all that it
/// held before. The last count is the number of raw bytes.
pub fn get_reader_with_progress<R: ByteSource, S: ProgressSink>(
    path: &str,
    opened: Result<R, OneIoError>,
    length: Result<u64, OneIoError>,
    progress: S,
) -> (r: Result<(ByteStream, Option<u64>, S), OneIoError>)
    requires
        opened matches Ok(source) ==> source.inv(),
        progress.inv(),
    ensures
        match r {
            Ok((stream, size, sink)) => {
                &&& stream.wf()
                &&& size == spec_known_size(length)
                &&& spec_get_reader(path@, opened_view(opened)) == Ok::<_, OneIoErrorView>(
                    stream.content(),
                )
                &&& sink.inv()
                &&& opened matches Ok(source) && has_taken_progress(
                    progress.reports(),
                    sink.reports(),
                    source.remaining().len() as u64,
                    spec_reported_total(size),
                )
            },
            Err(e) => spec_get_reader(path@, opened_view(opened)) == Err::<Seq<u8>, _>(e@),
        },
        spec_get_reader_raw(path@) is Ok && opened is Err ==> r is Err && r->Err_0 == opened->Err_0,
{
    let size = match length {
        Ok(size) => Some(size),
        Err(_) => None,
    };
    match get_reader_raw(path) {
        Ok(_) => match opened {
            Ok(source) => {
                let mut wrapped = ProgressReader::new(source, size, progress);
                let raw = wrapped.read_to_end();
                proof {
                    wrapped.lemma_count_is_what_was_read();
                    wrapped.lemma_reports_form_a_log();
                }
                let sink = wrapped.into_sink();
                match decode_for(path, raw) {
                    Ok(stream) => Ok((stream, size, sink)),
                    Err(e) => Err(e),
                }
            },
            Err(e) => Err(e),
        },
        Err(e) => Err(e),
    }
}

/// The text that bytes encode. Bytes that are not valid UTF-8 are an I/O error.
pub open spec fn spec_text_of(data: Seq<u8>) -> Result<Seq<char>, OneIoErrorView> {
    if valid_utf8(data) {
        Ok(decode_utf8(data))
    } else {
        Err(OneIoErrorView::Io)
    }
}

/// The decoded content of a location as text.
pub open spec fn spec_read_to_string(path: Seq<char>, opened: Result<Seq<u8>, OneIoErrorView>) -> Result<
    Seq<char>,
    OneIoErrorView,
> {
    match spec_get_reader(path, opened) {
        Ok(data) => spec_text_of(data),
        Err(e) => Err(e),
    }
}

/// Reads the decoded content of a location into a string, given what came of opening its
/// raw source.
pub fn read_to_string<R: ByteSource>(path: &str, opened: Result<R, OneIoError>) -> (r: Result<
    String,
    OneIoError,
>)
    requires
        opened matches Ok(source) ==> source.inv(),
    ensures
        result_view(r) == spec_read_to_string(path@, opened_view(opened)),
{
    match get_reader(path, opened) {
        Ok(stream) => match string_from_utf8(stream.into_vec()) {
            Some(text) => Ok(text),
            None => Err(OneIoError::Io(invalid_utf8_error())),
        },
        Err(e) => Err(e),
    }
}

/// A line without the carriage return that precedes its line feed, if it has one.
pub open spec fn strip_carriage_return(line: Seq<char>) -> Seq<char> {
    if line.len() > 0 && line.last() == '\r' {
        line.drop_last()
    } else {
        line
    }
}

/// The lines of a text. A line ends with a line feed, which is not part of it, nor is a
/// carriage return just before the line feed. What follows the last line feed is a line
/// too, unless it is empty.
pub open spec fn spec_lines(text: Seq<char>) -> Seq<Seq<char>>
    decreases text.len(),
{
    if text.len() == 0 {
        Seq::empty()
    } else {
        match first_occurrence(text, seq!['\n']) {
            Some(i) if 0 <= i < text.len() => seq![strip_carriage_return(text.take(i))] + spec_lines(
                text.skip(i + 1),
            ),
            _ => seq![text],
        }
    }
}

/// Splits a text into its lines.
pub fn lines_of(text: &str) -> (lines: Vec<String>)
    ensures
        lines.deep_view() == spec_lines(text@),
{
    let chars = to_chars(text);
    let mut line_feed: Vec<char> = Vec::new();
    line_feed.push('\n');
    let mut lines: Vec<String> = Vec::new();
    let mut start: usize = 0;
    assert(text@.skip(0) =~= text@);
    while start < chars.len()
        invariant
            start <= chars.len(),
            chars@ == text@,
            line_feed@ == seq!['\n'],
            spec_lines(text@) == lines.deep_view() + spec_lines(text@.skip(start as int)),
        decreases chars.len() - start,
    {
        let ghost rest = text@.skip(start as int);
        match find_first_from(&chars, &line_feed, start) {
            Some(i) => {
                let end = if i > start && chars[i - 1] == '\r' {
                    i - 1
                } else {
                    i
                };
                let line = substring(text, start, end);
                proof {
                    assert(strip_carriage_return(rest.take(i - start)) =~= line@);
                    assert(rest.skip(i - start + 1) =~= text@.skip(i + 1));
                }
                lines.push(line);
                start = i + 1;
            },
            None => {
                let line = substring(text, start, chars.len());
                lines.push(line);
                start = chars.len();
            },
        }
    }
    lines
}

/// The lines of the decoded content of a location.
pub open spec fn spec_read_lines(path: Seq<char>, opened: Result<Seq<u8>, OneIoErrorView>) -> Result<
    Seq<Seq<char>>,
    OneIoErrorView,
> {
    match spec_read_to_string(path, opened) {
        Ok(text) => Ok(spec_lines(text)),
        Err(e) => Err(e),
    }
}

/// Reads the decoded content of a location as lines of text, given what came of opening
/// its raw source.
pub fn read_lines<R: ByteSource>(path: &str, opened: Result<R, OneIoError>) -> (r: Result<
    Vec<String>,
    OneIoError,
>)
    requires
        opened matches Ok(source) ==> source.inv(),
    ensures
        result_deep_view(r) == spec_read_lines(path@, opened_view(opened)),
{
    match read_to_string(path, opened) {
        Ok(text) => Ok(lines_of(text.as_str())),
        Err(e) => Err(e),
    }
}

} // verus!
