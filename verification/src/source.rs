//! The raw source provider: where the undecoded bytes of a location are to be had.
//!
//! Opening a transport is the caller's part. This module names, for a location, the
//! endpoint to open. It looks at the protocol only, never at the suffix.

use vstd::prelude::*;
use crate::error::OneIoError;
use crate::error::OneIoErrorView;
use crate::error::result_view;
use crate::error::not_supported;
use crate::protocol::Protocol;
use crate::protocol::classify;
use crate::protocol::ftp_url_parse;
use crate::protocol::spec_classify;
use crate::protocol::spec_ftp_url_parse;
use crate::s3::s3_url_parse;
use crate::s3::spec_s3_url_parse;
use crate::text::concat;

verus! {

/// A place to fetch raw bytes from, or to ask about them.
#[derive(Debug)]
pub enum Endpoint {
    /// A file of the local file system.
    Local { path: String },
    /// A resource behind an HTTP or HTTPS URL.
    Http { url: String },
    /// A file on an FTP server: the socket address to connect to and the path to
    /// retrieve, in binary mode after an anonymous login.
    Ftp { socket: String, path: String },
    /// An object of an object storage bucket.
    Object { bucket: String, key: String },
}

/// The mathematical value of an [`Endpoint`].
pub enum EndpointView {
    Local { path: Seq<char> },
    Http { url: Seq<char> },
    Ftp { socket: Seq<char>, path: Seq<char> },
    Object { bucket: Seq<char>, key: Seq<char> },
}

impl View for Endpoint {
    type V = EndpointView;

    open spec fn view(&self) -> EndpointView {
        match self {
            Endpoint::Local { path } => EndpointView::Local { path: path@ },
            Endpoint::Http { url } => EndpointView::Http { url: url@ },
            Endpoint::Ftp { socket, path } => EndpointView::Ftp { socket: socket@, path: path@ },
            Endpoint::Object { bucket, key } => EndpointView::Object { bucket: bucket@, key: key@ },
        }
    }
}

/// The endpoint of an object storage location.
pub open spec fn spec_object_endpoint(path: Seq<char>) -> Result<EndpointView, OneIoErrorView> {
    match spec_s3_url_parse(path) {
        Ok((bucket, key)) => Ok(EndpointView::Object { bucket, key }),
        Err(e) => Err(e),
    }
}

/// The endpoint of an FTP location.
pub open spec fn spec_ftp_endpoint(path: Seq<char>) -> Result<EndpointView, OneIoErrorView> {
    match spec_ftp_url_parse(path) {
        Ok((socket, file)) => Ok(EndpointView::Ftp { socket, path: file }),
        Err(e) => Err(e),
    }
}

/// The endpoint that holds the raw bytes of a location: the local file for a location
/// without a scheme, the URL itself for HTTP and HTTPS, the parsed server and path for
/// FTP, bucket and key for object storage. A location with an unrecognized scheme is
/// not supported, and the error carries the location.
pub open spec fn spec_get_reader_raw(path: Seq<char>) -> Result<EndpointView, OneIoErrorView> {
    match spec_classify(path) {
        Protocol::Local => Ok(EndpointView::Local { path }),
        Protocol::Http | Protocol::Https => Ok(EndpointView::Http { url: path }),
        Protocol::Ftp => spec_ftp_endpoint(path),
        Protocol::S3 | Protocol::R2 => spec_object_endpoint(path),
        Protocol::Unrecognized => Err(not_supported(path)),
    }
}

/// Names the endpoint of an object storage location.
pub fn object_endpoint(path: &str) -> (r: Result<Endpoint, OneIoError>)
    ensures
        result_view(r) == spec_object_endpoint(path@),
{
    match s3_url_parse(path) {
        Ok((bucket, key)) => Ok(Endpoint::Object { bucket, key }),
        Err(e) => Err(e),
    }
}

/// Names the endpoint of an FTP location.
pub fn ftp_endpoint(path: &str) -> (r: Result<Endpoint, OneIoError>)
    ensures
        result_view(r) == spec_ftp_endpoint(path@),
{
    match ftp_url_parse(path) {
        Ok((socket, file)) => Ok(Endpoint::Ftp { socket, path: file }),
        Err(e) => Err(e),
    }
}

/// Names the endpoint to open for the raw bytes of a location.
pub fn get_reader_raw(path: &str) -> (r: Result<Endpoint, OneIoError>)
    ensures
        result_view(r) == spec_get_reader_raw(path@),
{
    match classify(path) {
        Protocol::Local => Ok(Endpoint::Local { path: path.to_owned() }),
        Protocol::Http | Protocol::Https => Ok(Endpoint::Http { url: path.to_owned() }),
        Protocol::Ftp => ftp_endpoint(path),
        Protocol::S3 | Protocol::R2 => object_endpoint(path),
        Protocol::Unrecognized => Err(OneIoError::unsupported(path)),
    }
}

/// The text of the error for a cooperative read over FTP.
pub open spec fn ftp_async_message() -> Seq<char> {
    "FTP async not supported - use sync get_reader() instead"@
}

/// The text of the error for a cooperative read from object storage.
pub open spec fn object_async_message() -> Seq<char> {
    "S3 async not supported - use sync get_reader() instead"@
}

/// The text of the error for a cooperative read of an unrecognized protocol.
pub open spec fn protocol_async_message(path: Seq<char>) -> Seq<char> {
    "Async support not available for protocol in path: "@ + path
}

/// The endpoint that holds the raw bytes of a location where reads must not block. Only
/// local files and HTTP or HTTPS resources can be read so.
pub open spec fn spec_get_async_reader_raw(path: Seq<char>) -> Result<EndpointView, OneIoErrorView> {
    match spec_classify(path) {
        Protocol::Local => Ok(EndpointView::Local { path }),
        Protocol::Http | Protocol::Https => Ok(EndpointView::Http { url: path }),
        Protocol::Ftp => Err(not_supported(ftp_async_message())),
        Protocol::S3 | Protocol::R2 => Err(not_supported(object_async_message())),
        Protocol::Unrecognized => Err(not_supported(protocol_async_message(path))),
    }
}

/// Names the endpoint to open for the raw bytes of a location where reads must not
/// block.
pub fn get_async_reader_raw(path: &str) -> (r: Result<Endpoint, OneIoError>)
    ensures
        result_view(r) == spec_get_async_reader_raw(path@),
{
    match classify(path) {
        Protocol::Local => Ok(Endpoint::Local { path: path.to_owned() }),
        Protocol::Http | Protocol::Https => Ok(Endpoint::Http { url: path.to_owned() }),
        Protocol::Ftp => Err(
            OneIoError::unsupported("FTP async not supported - use sync get_reader() instead"),
        ),
        Protocol::S3 | Protocol::R2 => Err(
            OneIoError::unsupported("S3 async not supported - use sync get_reader() instead"),
        ),
        Protocol::Unrecognized => {
            let message = concat("Async support not available for protocol in path: ", path);
            Err(OneIoError::NotSupported(message))
        },
    }
}

} // verus!
