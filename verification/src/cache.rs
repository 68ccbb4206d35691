//! The read-through cache: a local mirror of the raw bytes of a resource that is
//! consulted before the resource is fetched again.
//!
//! A cached read takes these steps. The caller makes sure that the cache directory is
//! there and opens the cache file, whose path [`cache_file_path`] gives, if it exists.
//! [`get_cache_reader`] then either serves the file through the reading pipeline, or
//! names the endpoint to fetch from. In that case the caller fetches, and
//! [`fill_cache`] says what to store in the cache file and serves it.
//!
//! The cache file always holds the raw bytes as they were fetched. Decoding happens
//! when the file is read, by the suffix of the file's own name, never when it is
//! written. Nothing is retried: a failed fetch is the failure of the read.

use vstd::prelude::*;
use vstd::slice::slice_to_vec;
use crate::error::OneIoError;
use crate::error::OneIoErrorView;
use crate::error::result_view;
use crate::reader::get_reader;
use crate::reader::spec_decode_for;
use crate::reader::spec_get_reader;
use crate::source::Endpoint;
use crate::source::EndpointView;
use crate::source::get_reader_raw;
use crate::source::spec_get_reader_raw;
use crate::stream::ByteSource;
use crate::stream::ByteStream;
use crate::stream::read_to_end;
use crate::text::after_last;
use crate::text::concat;
use crate::text::find_last;
use crate::text::option_text;
use crate::text::substring;
use crate::text::to_chars;

verus! {

/// The name of the file that a location ends in: what follows its last `/`, or all of
/// it where it has none.
pub open spec fn spec_base_name(path: Seq<char>) -> Seq<char> {
    after_last(path, "/"@)
}

/// The path of the cache file of a location: the cache directory, a `/`, and the given
/// name, or the name of the file that the location ends in where none is given.
pub open spec fn spec_cache_file_path(
    path: Seq<char>,
    cache_dir: Seq<char>,
    cache_file_name: Option<Seq<char>>,
) -> Seq<char> {
    cache_dir + "/"@ + match cache_file_name {
        Some(name) => name,
        None => spec_base_name(path),
    }
}

/// Takes the name of the file that a location ends in.
pub fn base_name(path: &str) -> (name: String)
    ensures
        name@ == spec_base_name(path@),
{
    let chars = to_chars(path);
    let slash = to_chars("/");
    let end = chars.len();
    match find_last(&chars, &slash) {
        Some(i) => substring(path, i + slash.len(), end),
        None => {
            substring(path, 0, end)
        },
    }
}

/// Computes the path of the cache file of a location.
pub fn cache_file_path(path: &str, cache_dir: &str, cache_file_name: Option<String>) -> (file: String)
    ensures
        file@ == spec_cache_file_path(path@, cache_dir@, option_text(cache_file_name)),
{
    let name = match cache_file_name {
        Some(name) => name,
        None => base_name(path),
    };
    let directory = concat(cache_dir, "/");
    concat(directory.as_str(), name.as_str())
}

/// What a cached read does first, by the model of the cache.
pub enum CacheLookup {
    /// The cache file is served through the reading pipeline, with this result. The
    /// source is not contacted.
    Serve(Result<Seq<u8>, OneIoErrorView>),
    /// The raw bytes are to be fetched from the endpoint and stored in the cache file.
    Fetch { endpoint: EndpointView, cache_file: Seq<char> },
    /// The location names no endpoint to fetch from.
    Refuse(OneIoErrorView),
}

/// What a cached read of `path` does first. `cached` is the content of the cache file,
/// if the file exists. An existing file is served unless a refresh is forced; in every
/// other case the resource is fetched, from the endpoint of the location.
pub open spec fn spec_cache_lookup(
    cached: Option<Seq<u8>>,
    path: Seq<char>,
    cache_dir: Seq<char>,
    cache_file_name: Option<Seq<char>>,
    force_cache: bool,
) -> CacheLookup {
    let cache_file = spec_cache_file_path(path, cache_dir, cache_file_name);
    if !force_cache && cached is Some {
        CacheLookup::Serve(spec_get_reader(cache_file, Ok(cached->0)))
    } else {
        match spec_get_reader_raw(path) {
            Ok(endpoint) => CacheLookup::Fetch { endpoint, cache_file },
            Err(e) => CacheLookup::Refuse(e),
        }
    }
}

/// What a cached read does first.
#[derive(Debug)]
pub enum CacheStep {
    /// The cache file was served: this is the reader of its decoded content.
    Ready(ByteStream),
    /// The raw bytes are to be fetched from `endpoint` and handed to [`fill_cache`]
    /// together with `cache_file`.
    Fetch { endpoint: Endpoint, cache_file: String },
}

/// The content of a cache file that was opened, if it exists.
pub open spec fn cached_view<R: ByteSource>(cached: Option<R>) -> Option<Seq<u8>> {
    match cached {
        Some(source) => Some(source.remaining()),
        None => None,
    }
}

/// Begins a cached read of `path`. `cached` is the cache file, opened as a raw source,
/// if it exists. Without `force_cache` an existing cache file is served, decoded by the
/// suffix of its own name, and the source of `path` is left alone. Else the result names
/// the endpoint to fetch from, even where a cache file exists.
pub fn get_cache_reader<R: ByteSource>(
    path: &str,
    cache_dir: &str,
    cache_file_name: Option<String>,
    force_cache: bool,
    cached: Option<R>,
) -> (r: Result<CacheStep, OneIoError>)
    requires
        cached matches Some(source) ==> source.inv(),
    ensures
        match r {
            Ok(CacheStep::Ready(stream)) => stream.wf() && spec_cache_lookup(
                cached_view(cached),
                path@,
                cache_dir@,
                option_text(cache_file_name),
                force_cache,
            ) == CacheLookup::Serve(Ok(stream.content())),
            Ok(CacheStep::Fetch { endpoint, cache_file }) => spec_cache_lookup(
                cached_view(cached),
                path@,
                cache_dir@,
                option_text(cache_file_name),
                force_cache,
            ) == (CacheLookup::Fetch { endpoint: endpoint@, cache_file: cache_file@ }),
            Err(e) => {
                let lookup = spec_cache_lookup(
                    cached_view(cached),
                    path@,
                    cache_dir@,
                    option_text(cache_file_name),
                    force_cache,
                );
                lookup == CacheLookup::Serve(Err(e@)) || lookup == CacheLookup::Refuse(e@)
            },
        },
{
    let cache_file = cache_file_path(path, cache_dir, cache_file_name);
    if !force_cache {
        if let Some(source) = cached {
            return match get_reader(cache_file.as_str(), Ok(source)) {
                Ok(stream) => Ok(CacheStep::Ready(stream)),
                Err(e) => Err(e),
            };
        }
    }
    match get_reader_raw(path) {
        Ok(endpoint) => Ok(CacheStep::Fetch { endpoint, cache_file }),
        Err(e) => Err(e),
    }
}

/// Completes a cached read after the fetch. The first part of the result is what to
/// store in the cache file: the raw bytes as they were fetched, whatever the suffix.
/// The second is the reader of the cache file so written, decoded by the suffix of its
/// own name.
pub fn fill_cache<R: ByteSource>(cache_file: &str, fetched: R) -> (r: (
    Vec<u8>,
    Result<ByteStream, OneIoError>,
))
    requires
        fetched.inv(),
    ensures
        r.0@ == fetched.remaining(),
        result_view(r.1) == spec_get_reader(cache_file@, Ok(fetched.remaining())),
        r.1 matches Ok(stream) ==> stream.wf(),
{
    let mut source = fetched;
    let raw = read_to_end(&mut source);
    let stored = slice_to_vec(raw.as_slice());
    (stored, get_reader(cache_file, Ok(ByteStream::new(raw))))
}

/// The outcome of a cached read, by the model of the cache.
pub struct CacheRead {
    /// The files of the cache directory after the read, by path.
    pub store: Map<Seq<char>, Seq<u8>>,
    /// Whether the source of the location was contacted.
    pub fetched: bool,
    /// What the read returned: the decoded content, or the error.
    pub content: Result<Seq<u8>, OneIoErrorView>,
}

/// A whole cached read of `path`, over the files `store` of the cache directory.
/// `source` is what contacting the source of `path` yields, should it be contacted: its
/// raw bytes, or the failure. The steps are those of [`get_cache_reader`] and
/// [`fill_cache`]; a failed fetch stores nothing.
pub open spec fn spec_get_cache_reader(
    store: Map<Seq<char>, Seq<u8>>,
    path: Seq<char>,
    cache_dir: Seq<char>,
    cache_file_name: Option<Seq<char>>,
    force_cache: bool,
    source: Result<Seq<u8>, OneIoErrorView>,
) -> CacheRead {
    let file = spec_cache_file_path(path, cache_dir, cache_file_name);
    let cached = if store.contains_key(file) {
        Some(store[file])
    } else {
        None
    };
    match spec_cache_lookup(cached, path, cache_dir, cache_file_name, force_cache) {
        CacheLookup::Serve(content) => CacheRead { store, fetched: false, content },
        CacheLookup::Refuse(e) => CacheRead { store, fetched: false, content: Err(e) },
        CacheLookup::Fetch { endpoint, cache_file } => match source {
            Ok(raw) => CacheRead {
                store: store.insert(cache_file, raw),
                fetched: true,
                content: spec_get_reader(cache_file, Ok(raw)),
            },
            Err(e) => CacheRead { store, fetched: true, content: Err(e) },
        },
    }
}

/// After a cached read that returned content, a second read of the same location
/// without force returns the same content, and does so without contacting the source
/// and without changing the cache.
pub proof fn lemma_second_read_served_from_cache(
    store: Map<Seq<char>, Seq<u8>>,
    path: Seq<char>,
    cache_dir: Seq<char>,
    cache_file_name: Option<Seq<char>>,
    force_cache: bool,
    source: Result<Seq<u8>, OneIoErrorView>,
    later_source: Result<Seq<u8>, OneIoErrorView>,
)
    requires
        spec_get_cache_reader(store, path, cache_dir, cache_file_name, force_cache, source).content is Ok,
    ensures
        ({
            let first = spec_get_cache_reader(
                store,
                path,
                cache_dir,
                cache_file_name,
                force_cache,
                source,
            );
            let second = spec_get_cache_reader(
                first.store,
                path,
                cache_dir,
                cache_file_name,
                false,
                later_source,
            );
            &&& !second.fetched
            &&& second.content == first.content
            &&& second.store == first.store
        }),
{
}

/// A forced read of a location that names an endpoint contacts the source, whether or
/// not a cache file exists and whatever it holds. Where the source delivers, the cache
/// file then holds the raw bytes exactly as delivered, and the read returns them decoded
/// by the suffix of the cache file.
pub proof fn lemma_force_always_fetches(
    store: Map<Seq<char>, Seq<u8>>,
    path: Seq<char>,
    cache_dir: Seq<char>,
    cache_file_name: Option<Seq<char>>,
    source: Result<Seq<u8>, OneIoErrorView>,
)
    requires
        spec_get_reader_raw(path) is Ok,
    ensures
        ({
            let file = spec_cache_file_path(path, cache_dir, cache_file_name);
            let read = spec_get_cache_reader(store, path, cache_dir, cache_file_name, true, source);
            &&& read.fetched
            &&& source matches Ok(raw) ==> read.store.contains_key(file) && read.store[file] == raw
                && read.content == spec_get_reader(file, Ok(raw))
            &&& source matches Err(e) ==> read.store == store && read.content == Err::<Seq<u8>, _>(e)
        }),
{
}

/// A read never changes a file of the cache other than the cache file of its location,
/// and what it stores there is the raw form of what it returns: decoding the stored
/// bytes by the suffix of the cache file gives the returned content.
pub proof fn lemma_cache_holds_raw_bytes(
    store: Map<Seq<char>, Seq<u8>>,
    path: Seq<char>,
    cache_dir: Seq<char>,
    cache_file_name: Option<Seq<char>>,
    force_cache: bool,
    source: Result<Seq<u8>, OneIoErrorView>,
)
    ensures
        ({
            let file = spec_cache_file_path(path, cache_dir, cache_file_name);
            let read = spec_get_cache_reader(
                store,
                path,
                cache_dir,
                cache_file_name,
                force_cache,
                source,
            );
            &&& forall|other: Seq<char>|
                other != file ==> read.store.contains_key(other) == store.contains_key(other)
                    && read.store[other] == store[other]
            &&& read.content is Ok && spec_get_reader_raw(file) is Ok ==> read.store.contains_key(file)
                && read.content == spec_decode_for(file, read.store[file])
        }),
{
}

} // verus!
