//! Unified reading and writing of local and remote resources with transparent
//! compression.
//!
//! A location is a local path or a URL. The library resolves a location into a stream of
//! decoded bytes: it classifies the protocol, names the endpoint that holds the raw
//! bytes, selects the codec by the suffix of the location, and decodes. Around that
//! pipeline it offers a progress decorator, a content-length resolver, a read-through
//! cache and downloads with retry.
//!
//! The library performs no I/O. Wherever bytes have to be moved, it tells the caller
//! which endpoint to open or to ask, and takes what came of it: raw bytes as a
//! [`ByteSource`], a status code, a header, or the failure as a [`OneIoError`].

pub mod cache;
pub mod compressions;
pub mod crypto;
pub mod digest;
pub mod error;
pub mod length;
pub mod progress;
pub mod protocol;
pub mod reader;
pub mod remote;
pub mod s3;
pub mod source;
pub mod stream;
pub mod text;
pub mod writer;

pub use crate::cache::cache_file_path;
pub use crate::cache::fill_cache;
pub use crate::cache::get_cache_reader;
pub use crate::cache::CacheStep;
pub use crate::compressions::get_compression_reader;
pub use crate::compressions::get_compression_writer;
pub use crate::compressions::Codec;
pub use crate::crypto::ensure_default_provider;
pub use crate::digest::get_sha256_digest;
pub use crate::error::NetworkError;
pub use crate::error::OneIoError;
pub use crate::length::content_length_probe;
pub use crate::length::get_content_length;
pub use crate::length::LengthAnswer;
pub use crate::progress::Callback;
pub use crate::progress::ProgressLog;
pub use crate::progress::ProgressReader;
pub use crate::progress::ProgressSink;
pub use crate::protocol::get_protocol;
pub use crate::protocol::Protocol;
pub use crate::reader::get_reader;
pub use crate::reader::get_reader_with_progress;
pub use crate::reader::read_lines;
pub use crate::reader::read_to_string;
pub use crate::remote::accept_invalid_certs;
pub use crate::remote::download;
pub use crate::remote::download_with_retry;
pub use crate::remote::exists_probe;
pub use crate::remote::resource_exists;
pub use crate::remote::ExistsAnswer;
pub use crate::remote::RetryStep;
pub use crate::s3::s3_download;
pub use crate::s3::s3_exists;
pub use crate::s3::s3_list;
pub use crate::s3::s3_stats;
pub use crate::s3::s3_url_parse;
pub use crate::s3::ListPage;
pub use crate::s3::ObjectStats;
pub use crate::source::get_async_reader_raw;
pub use crate::source::get_reader_raw;
pub use crate::source::Endpoint;
pub use crate::stream::read_to_end;
pub use crate::stream::ByteSource;
pub use crate::stream::ByteStream;
pub use crate::writer::get_writer;
pub use crate::writer::Writer;
