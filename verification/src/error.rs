//! Public error types for the repository module.

use vstd::prelude::*;
use vstd::string::*;

use crate::io::{IoError, IoErrorView};

verus! {

/// Why a repository could not be opened, initialized or counted.
#[derive(Debug)]
#[non_exhaustive]
pub enum Error {
    /// Opening: the location holds no repository directory.
    NotFound { location: String },
    /// Initializing: the repository directory, or one of its marker files,
    /// is there already.
    AlreadyExists { location: String },
    /// The format marker holds `content`, which names no known generation.
    UnknownFormat { location: String, content: String },
    /// A failure of the operating system while the repository at
    /// `location` was worked on, passed on unchanged.
    Io { location: String, failure: IoError },
    /// The location's scheme names no backend.
    UnknownScheme { location: String },
    /// The in-memory repository at `location` was to be opened or counted
    /// without a store to find it in.
    StoreMissing { location: String },
    /// The repository on disk at `location` was to be counted without a
    /// reading of its run counter.
    ReadingMissing { location: String },
    /// The file location names a directory on another host.
    RemoteHost { location: String },
    /// The file location holds a path that is no text once its escapes are
    /// put back.
    InvalidPath { location: String },
    /// The store holds no repository under this name.
    NameNotInitialized { name: String },
    /// The run counter of the repository at `location` holds `content`,
    /// which is no decimal number that fits.
    InvalidCounter { location: String, content: String },
}

/// The mathematical value of an [`Error`].
pub enum ErrorView {
    NotFound { location: Seq<char> },
    AlreadyExists { location: Seq<char> },
    UnknownFormat { location: Seq<char>, content: Seq<char> },
    Io { location: Seq<char>, failure: IoErrorView },
    UnknownScheme { location: Seq<char> },
    StoreMissing { location: Seq<char> },
    ReadingMissing { location: Seq<char> },
    RemoteHost { location: Seq<char> },
    InvalidPath { location: Seq<char> },
    NameNotInitialized { name: Seq<char> },
    InvalidCounter { location: Seq<char>, content: Seq<char> },
}

impl View for Error {
    type V = ErrorView;

    open spec fn view(&self) -> ErrorView {
        match *self {
            Error::NotFound { location } => ErrorView::NotFound { location: location@ },
            Error::AlreadyExists { location } => ErrorView::AlreadyExists { location: location@ },
            Error::UnknownFormat { location, content } => ErrorView::UnknownFormat {
                location: location@,
                content: content@,
            },
            Error::Io { location, failure } => ErrorView::Io {
                location: location@,
                failure: failure@,
            },
            Error::UnknownScheme { location } => ErrorView::UnknownScheme { location: location@ },
            Error::StoreMissing { location } => ErrorView::StoreMissing { location: location@ },
            Error::ReadingMissing { location } => ErrorView::ReadingMissing { location: location@ },
            Error::RemoteHost { location } => ErrorView::RemoteHost { location: location@ },
            Error::InvalidPath { location } => ErrorView::InvalidPath { location: location@ },
            Error::NameNotInitialized { name } => ErrorView::NameNotInitialized { name: name@ },
            Error::InvalidCounter { location, content } => ErrorView::InvalidCounter {
                location: location@,
                content: content@,
            },
        }
    }
}

impl ErrorView {
    /// The text shown to the user. It names the offending location, and
    /// where a marker file holds what it should not, that content, letter
    /// for letter. A failure of the operating system is shown in its own
    /// words, with the location behind them.
    pub open spec fn message(self) -> Seq<char> {
        match self {
            ErrorView::NotFound { location } => "No repository found at '"@ + location + "'"@,
            ErrorView::AlreadyExists { location } => ".testrepository already exists at '"@
                + location + "'"@,
            ErrorView::UnknownFormat { location, content } => "Unknown repository format at '"@
                + location + "': "@ + content,
            ErrorView::Io { location, failure } => failure.message + " at '"@ + location + "'"@,
            ErrorView::UnknownScheme { location } => "Unknown scheme "@ + location,
            ErrorView::StoreMissing { location } =>
                "Memory store required to open a MemoryRepository at "@ + location,
            ErrorView::ReadingMissing { location } => "Run counter was not read at '"@ + location
                + "'"@,
            ErrorView::RemoteHost { location } => "File location on another host: "@ + location,
            ErrorView::InvalidPath { location } => "File location with a path that is no text: "@
                + location,
            ErrorView::NameNotInitialized { name } => "Repository not found at "@ + name,
            ErrorView::InvalidCounter { location, content } => "Invalid run counter at '"@
                + location + "': "@ + content,
        }
    }
}

impl Error {
    /// The text shown to the user.
    pub fn message(&self) -> (text: String)
        ensures
            text@ == self@.message(),
    {
        match self {
            Error::NotFound { location } => String::from_str("No repository found at '").concat(
                location.as_str(),
            ).concat("'"),
            Error::AlreadyExists { location } => String::from_str(
                ".testrepository already exists at '",
            ).concat(location.as_str()).concat("'"),
            Error::UnknownFormat { location, content } => String::from_str(
                "Unknown repository format at '",
            ).concat(location.as_str()).concat("': ").concat(content.as_str()),
            Error::Io { location, failure } => failure.message.clone().concat(" at '").concat(
                location.as_str(),
            ).concat("'"),
            Error::UnknownScheme { location } => String::from_str("Unknown scheme ").concat(
                location.as_str(),
            ),
            Error::StoreMissing { location } => String::from_str(
                "Memory store required to open a MemoryRepository at ",
            ).concat(location.as_str()),
            Error::ReadingMissing { location } => String::from_str(
                "Run counter was not read at '",
            ).concat(location.as_str()).concat("'"),
            Error::RemoteHost { location } => String::from_str(
                "File location on another host: ",
            ).concat(location.as_str()),
            Error::InvalidPath { location } => String::from_str(
                "File location with a path that is no text: ",
            ).concat(location.as_str()),
            Error::NameNotInitialized { name } => String::from_str(
                "Repository not found at ",
            ).concat(name.as_str()),
            Error::InvalidCounter { location, content } => String::from_str(
                "Invalid run counter at '",
            ).concat(location.as_str()).concat("': ").concat(content.as_str()),
        }
    }
}

/// The message of a format error ends with the unexpected content, letter
/// for letter, and names the location before it.
pub proof fn law_format_error_quotes(location: Seq<char>, content: Seq<char>)
    ensures
        ({
            let message = (ErrorView::UnknownFormat { location, content }).message();
            let intro = "Unknown repository format at '"@;
            &&& message.len() >= content.len()
            &&& message.skip(message.len() - content.len()) == content
            &&& message.subrange(intro.len() as int, (intro.len() + location.len()) as int) == location
        }),
{
    let intro = "Unknown repository format at '"@;
    let message = (ErrorView::UnknownFormat { location, content }).message();
    assert(message.skip(message.len() - content.len()) =~= content);
    assert(message.subrange(intro.len() as int, (intro.len() + location.len()) as int) =~= location);
}

/// The result of a repository operation.
pub type Result<T> = std::result::Result<T, Error>;

/// The value of a result: the value of what it holds.
pub open spec fn result_view<T: View>(result: Result<T>) -> std::result::Result<T::V, ErrorView> {
    match result {
        Ok(value) => Ok(value@),
        Err(error) => Err(error@),
    }
}

/// `location` with `before` in front of it and `after` behind it.
pub open spec fn framed(before: Seq<char>, location: Seq<char>, after: Seq<char>) -> Seq<char> {
    before + location + after
}

impl ErrorView {
    /// The location that the error is about: for a repository in memory,
    /// its name.
    pub open spec fn location(self) -> Seq<char> {
        match self {
            ErrorView::NotFound { location } => location,
            ErrorView::AlreadyExists { location } => location,
            ErrorView::UnknownFormat { location, .. } => location,
            ErrorView::Io { location, .. } => location,
            ErrorView::UnknownScheme { location } => location,
            ErrorView::StoreMissing { location } => location,
            ErrorView::ReadingMissing { location } => location,
            ErrorView::RemoteHost { location } => location,
            ErrorView::InvalidPath { location } => location,
            ErrorView::NameNotInitialized { name } => name,
            ErrorView::InvalidCounter { location, .. } => location,
        }
    }
}

/// Every message names the location that the error is about, letter for
/// letter.
pub proof fn law_messages_name_the_location(error: ErrorView)
    ensures
        exists|before: Seq<char>, after: Seq<char>|
            error.message() == #[trigger] framed(before, error.location(), after),
{
    let none = Seq::<char>::empty();
    let (before, after) = match error {
        ErrorView::NotFound { .. } => ("No repository found at '"@, "'"@),
        ErrorView::AlreadyExists { .. } => (".testrepository already exists at '"@, "'"@),
        ErrorView::UnknownFormat { content, .. } => (
            "Unknown repository format at '"@,
            "': "@ + content,
        ),
        ErrorView::Io { failure, .. } => (failure.message + " at '"@, "'"@),
        ErrorView::UnknownScheme { .. } => ("Unknown scheme "@, none),
        ErrorView::StoreMissing { .. } => (
            "Memory store required to open a MemoryRepository at "@,
            none,
        ),
        ErrorView::ReadingMissing { .. } => ("Run counter was not read at '"@, "'"@),
        ErrorView::RemoteHost { .. } => ("File location on another host: "@, none),
        ErrorView::InvalidPath { .. } => ("File location with a path that is no text: "@, none),
        ErrorView::NameNotInitialized { .. } => ("Repository not found at "@, none),
        ErrorView::InvalidCounter { content, .. } => ("Invalid run counter at '"@, "': "@ + content),
    };
    assert(error.message() =~= framed(before, error.location(), after));
}

/// The outcome of an operation of the operating system, with the location
/// of the repository that it was for.
#[derive(Debug)]
pub struct Located<'a, T> {
    pub location: &'a str,
    pub outcome: std::result::Result<T, IoError>,
}

/// Lifts the failure of a lower layer into this crate's [`Error`].
pub trait Eyrify {
    type Value;

    fn eyre(self) -> Result<Self::Value>;
}

impl<'a, T> Eyrify for Located<'a, T> {
    type Value = T;

    /// A success stays as it is; a failure becomes [`Error::Io`], unchanged
    /// and with the location that it happened at.
    fn eyre(self) -> (r: Result<T>)
        ensures
            match self.outcome {
                Ok(value) => r == Ok::<T, Error>(value),
                Err(failure) => r matches Err(e) && e@ == (ErrorView::Io {
                    location: self.location@,
                    failure: failure@,
                }),
            },
    {
        match self.outcome {
            Ok(value) => Ok(value),
            Err(failure) => Err(
                Error::Io { location: String::from_str(self.location), failure },
            ),
        }
    }
}

} // verus!
