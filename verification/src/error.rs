//! The error taxonomy shared by every component: I/O, network, not supported.

use vstd::prelude::*;

verus! {

/// `std::io::Error`, carried through as an opaque value.
#[verifier::external_type_specification]
#[verifier::external_body]
pub struct ExIoError(std::io::Error);

/// What went wrong on a remote transport or service.
#[derive(Debug)]
pub enum NetworkError {
    /// The remote answered with a status code that does not report success.
    Status(u16),
    /// Any other failure of the transport, with the message of the underlying error.
    Transport(String),
}

/// The mathematical value of a [`NetworkError`].
pub enum NetworkErrorView {
    Status(u16),
    Transport(Seq<char>),
}

impl View for NetworkError {
    type V = NetworkErrorView;

    open spec fn view(&self) -> NetworkErrorView {
        match self {
            NetworkError::Status(code) => NetworkErrorView::Status(*code),
            NetworkError::Transport(message) => NetworkErrorView::Transport(message@),
        }
    }
}

/// The failure of any operation of this library.
#[derive(Debug)]
pub enum OneIoError {
    /// A local failure: the file system, a corrupt compressed stream, text that is not UTF-8.
    Io(std::io::Error),
    /// A failure of a remote transport or of a remote service.
    Network(NetworkError),
    /// The location, codec or operation is not supported; the text says which.
    NotSupported(String),
}

/// The mathematical value of a [`OneIoError`]. The payload of an I/O error is opaque, so
/// all I/O errors share one view.
pub enum OneIoErrorView {
    Io,
    Network(NetworkErrorView),
    NotSupported(Seq<char>),
}

impl View for OneIoError {
    type V = OneIoErrorView;

    open spec fn view(&self) -> OneIoErrorView {
        match self {
            OneIoError::Io(_) => OneIoErrorView::Io,
            OneIoError::Network(e) => OneIoErrorView::Network(e@),
            OneIoError::NotSupported(message) => OneIoErrorView::NotSupported(message@),
        }
    }
}

/// The mathematical value of a result: the view of what was returned, or of the error.
pub open spec fn result_view<T: View>(r: Result<T, OneIoError>) -> Result<T::V, OneIoErrorView> {
    match r {
        Ok(value) => Ok(value@),
        Err(e) => Err(e@),
    }
}

/// The mathematical value of a result whose parts have views of their own.
pub open spec fn result_deep_view<T: DeepView>(r: Result<T, OneIoError>) -> Result<
    T::V,
    OneIoErrorView,
> {
    match r {
        Ok(value) => Ok(value.deep_view()),
        Err(e) => Err(e@),
    }
}

/// The error for a remote answer with status `code`.
pub open spec fn status_error(code: u16) -> OneIoErrorView {
    OneIoErrorView::Network(NetworkErrorView::Status(code))
}

/// The not-supported error with the text `message`.
pub open spec fn not_supported(message: Seq<char>) -> OneIoErrorView {
    OneIoErrorView::NotSupported(message)
}

/// Makes the error of a stream that is not valid UTF-8 with `std::io::Error::new`.
///
/// Trusted: nothing is claimed of the error, which is opaque.
#[verifier::external_body]
pub(crate) fn invalid_utf8_error() -> std::io::Error {
    std::io::Error::new(std::io::ErrorKind::InvalidData, "stream did not contain valid UTF-8")
}

impl OneIoError {
    /// The not-supported error with the text `message`.
    pub fn unsupported(message: &str) -> (e: OneIoError)
        ensures
            e@ == not_supported(message@),
    {
        OneIoError::NotSupported(message.to_owned())
    }

    /// The error for a remote answer with status `code`.
    pub fn status(code: u16) -> (e: OneIoError)
        ensures
            e@ == status_error(code),
    {
        OneIoError::Network(NetworkError::Status(code))
    }
}

} // verus!
