use vstd::prelude::*;
use vstd::string::*;

verus! {

/// Status of an answer to a request for something that is not there.
pub const STATUS_NOT_FOUND: u16 = 404;

/// Status of an answer to a request that failed for any other reason.
pub const STATUS_INTERNAL_ERROR: u16 = 500;

/// What can go wrong, at startup or while a request is served.
#[derive(Clone, Debug, PartialEq, Eq)]
pub enum Error {
    /// The configuration could not be read, or what was read is no configuration.
    Config(String),
    /// The pool of connections could not be opened.
    Connection(String),
    /// A statement that has to find exactly one row did not.
    NotFound,
    /// The database failed or refused a statement.
    Query(String),
    /// An answer could not be encoded.
    Serialization(String),
}

/// An [`Error`] with its text as a sequence of characters.
pub enum ErrorView {
    Config(Seq<char>),
    Connection(Seq<char>),
    NotFound,
    Query(Seq<char>),
    Serialization(Seq<char>),
}

impl View for Error {
    type V = ErrorView;

    open spec fn view(&self) -> ErrorView {
        match self {
            Error::Config(text) => ErrorView::Config(text@),
            Error::Connection(text) => ErrorView::Connection(text@),
            Error::NotFound => ErrorView::NotFound,
            Error::Query(text) => ErrorView::Query(text@),
            Error::Serialization(text) => ErrorView::Serialization(text@),
        }
    }
}

impl DeepView for Error {
    type V = ErrorView;

    open spec fn deep_view(&self) -> ErrorView {
        self@
    }
}

impl ErrorView {
    /// The status that an answer carries when a request ends in this error:
    /// 404 where nothing was found, 500 otherwise.
    pub open spec fn status(self) -> u16 {
        match self {
            ErrorView::NotFound => STATUS_NOT_FOUND,
            _ => STATUS_INTERNAL_ERROR,
        }
    }

    /// The text that describes the error to a client.
    pub open spec fn message(self) -> Seq<char> {
        match self {
            ErrorView::Config(text) => text,
            ErrorView::Connection(text) => text,
            ErrorView::NotFound => "todo not found"@,
            ErrorView::Query(text) => text,
            ErrorView::Serialization(text) => text,
        }
    }
}

impl Error {
    /// The status that an answer carries when a request ends in this error.
    pub fn status(&self) -> (code: u16)
        ensures
            code == self@.status(),
    {
        match self {
            Error::NotFound => STATUS_NOT_FOUND,
            _ => STATUS_INTERNAL_ERROR,
        }
    }

    /// The text that describes the error to a client.
    pub fn message(&self) -> (text: String)
        ensures
            text@ == self@.message(),
    {
        match self {
            Error::Config(text) => text.clone(),
            Error::Connection(text) => text.clone(),
            Error::NotFound => String::from_str("todo not found"),
            Error::Query(text) => text.clone(),
            Error::Serialization(text) => text.clone(),
        }
    }
}

} // verus!
