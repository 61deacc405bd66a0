//! What can go wrong when an application is launched or steered.
use vstd::prelude::*;

verus! {

/// Why an operation on an application failed.
#[derive(Debug)]
pub enum Error {
    /// The application path does not exist.
    NotFound(String),
    /// A platform call failed.
    Platform(String),
    /// The application has already terminated.
    Terminated,
    /// The operation is not supported on this platform.
    Unsupported,
}

/// The standard library's error kinds that an [`Error`] maps to.
#[derive(Debug, Clone, Copy, PartialEq, Eq, Structural)]
pub enum IoErrorKind {
    NotFound,
    Other,
    BrokenPipe,
    Unsupported,
}

/// The text an error carries, character by character.
pub enum ErrorView {
    NotFound(Seq<char>),
    Platform(Seq<char>),
    Terminated,
    Unsupported,
}

impl View for Error {
    type V = ErrorView;

    open spec fn view(&self) -> ErrorView {
        match self {
            Error::NotFound(path) => ErrorView::NotFound(path@),
            Error::Platform(message) => ErrorView::Platform(message@),
            Error::Terminated => ErrorView::Terminated,
            Error::Unsupported => ErrorView::Unsupported,
        }
    }
}

impl ErrorView {
    /// The message shown to a person.
    pub open spec fn message(self) -> Seq<char> {
        match self {
            ErrorView::NotFound(path) => "application not found: "@ + path,
            ErrorView::Platform(message) => "platform error: "@ + message,
            ErrorView::Terminated => "application has terminated"@,
            ErrorView::Unsupported => "operation not supported on this platform"@,
        }
    }

    /// The kind and the text of the I/O error that stands for this error.
    pub open spec fn io(self) -> (IoErrorKind, Seq<char>) {
        match self {
            ErrorView::NotFound(path) => (IoErrorKind::NotFound, path),
            ErrorView::Platform(message) => (IoErrorKind::Other, message),
            ErrorView::Terminated => (IoErrorKind::BrokenPipe, "application has terminated"@),
            ErrorView::Unsupported => (
                IoErrorKind::Unsupported,
                "operation not supported on this platform"@,
            ),
        }
    }
}

impl Error {
    /// The message shown to a person.
    pub fn message(&self) -> (message: String)
        ensures
            message@ == self@.message(),
    {
        match self {
            Error::NotFound(path) => "application not found: ".to_string().concat(path.as_str()),
            Error::Platform(text) => "platform error: ".to_string().concat(text.as_str()),
            Error::Terminated => "application has terminated".to_string(),
            Error::Unsupported => "operation not supported on this platform".to_string(),
        }
    }

    /// The kind and the text of the I/O error that stands for this error.
    pub fn into_io(self) -> (io: (IoErrorKind, String))
        ensures
            (io.0, io.1@) == self@.io(),
    {
        match self {
            Error::NotFound(path) => (IoErrorKind::NotFound, path),
            Error::Platform(message) => (IoErrorKind::Other, message),
            Error::Terminated => (
                IoErrorKind::BrokenPipe,
                "application has terminated".to_string(),
            ),
            Error::Unsupported => (
                IoErrorKind::Unsupported,
                "operation not supported on this platform".to_string(),
            ),
        }
    }
}

/// A message names the error and ends with the text that it carries; the I/O
/// error keeps that text and has the kind that belongs to it.
pub proof fn errors_keep_their_text(text: Seq<char>)
    ensures
        ErrorView::NotFound(text).message() == "application not found: "@ + text,
        ErrorView::Platform(text).message() == "platform error: "@ + text,
        ErrorView::Terminated.message() == "application has terminated"@,
        ErrorView::Unsupported.message() == "operation not supported on this platform"@,
        ErrorView::NotFound(text).io() == (IoErrorKind::NotFound, text),
        ErrorView::Platform(text).io() == (IoErrorKind::Other, text),
        ErrorView::Terminated.io() == (IoErrorKind::BrokenPipe, ErrorView::Terminated.message()),
        ErrorView::Unsupported.io() == (IoErrorKind::Unsupported, ErrorView::Unsupported.message()),
{
}

/// An error is viewed with the text that it carries.
pub proof fn errors_are_viewed_with_their_text(text: String)
    ensures
        Error::NotFound(text)@ == ErrorView::NotFound(text@),
        Error::Platform(text)@ == ErrorView::Platform(text@),
        Error::Terminated@ == ErrorView::Terminated,
        Error::Unsupported@ == ErrorView::Unsupported,
{
}

} // verus!
