//! Directory-relative filesystem operations, described as values.
//!
//! Nothing here touches the filesystem. A [`Request`] says which operation
//! is wanted, relative to which open directory and under which
//! [`OpenOptions`]; an [`Event`] says how the operating system answered. The
//! caller carries requests out on a thread that may block and hands the
//! events back.

use vstd::prelude::*;

verus! {

/// How writes to an opened file are performed.
#[derive(Clone, Copy, Debug, PartialEq, Eq, Structural)]
pub enum WriteMode {
    /// No writing permitted.
    Disabled,
    /// Writes land where the file position is.
    Write,
    /// Every write lands at the end of the file.
    Append,
}

/// Options for opening an entry relative to an open directory.
#[derive(Clone, Copy, Debug, PartialEq, Eq, Structural)]
pub struct OpenOptions {
    pub read: bool,
    pub create: bool,
    pub create_new: bool,
    pub write_mode: WriteMode,
}

impl Default for OpenOptions {
    /// No access, nothing created.
    fn default() -> (r: Self)
        ensures
            r == OpenOptions::nothing(),
    {
        OpenOptions { read: false, create: false, create_new: false, write_mode: WriteMode::Disabled }
    }
}

impl OpenOptions {
    /// The options that ask for no access and create nothing.
    pub open spec fn nothing() -> OpenOptions {
        OpenOptions { read: false, create: false, create_new: false, write_mode: WriteMode::Disabled }
    }

    /// The options under which an entry is opened to be read.
    pub open spec fn reading() -> OpenOptions {
        OpenOptions { read: true, ..OpenOptions::nothing() }
    }

    /// The options under which a file is made and written, and an existing
    /// file of its name is left alone: the call fails on it.
    pub open spec fn creating() -> OpenOptions {
        OpenOptions { create_new: true, write_mode: WriteMode::Write, ..OpenOptions::nothing() }
    }

    /// Sets whether the entry is opened for reading.
    pub fn read(&mut self, read: bool) -> (r: &mut Self)
        ensures
            *r == (OpenOptions { read, ..*old(self) }),
            *final(self) == *final(r),
    {
        self.read = read;
        self
    }

    /// Sets whether a missing entry is created.
    pub fn create(&mut self, create: bool) -> (r: &mut Self)
        ensures
            *r == (OpenOptions { create, ..*old(self) }),
            *final(self) == *final(r),
    {
        self.create = create;
        self
    }

    /// Sets whether the entry must be created by this very call, so that an
    /// existing one makes the call fail.
    pub fn create_new(&mut self, create_new: bool) -> (r: &mut Self)
        ensures
            *r == (OpenOptions { create_new, ..*old(self) }),
            *final(self) == *final(r),
    {
        self.create_new = create_new;
        self
    }

    /// Sets how writes to the opened entry are performed.
    pub fn write(&mut self, write_mode: WriteMode) -> (r: &mut Self)
        ensures
            *r == (OpenOptions { write_mode, ..*old(self) }),
            *final(self) == *final(r),
    {
        self.write_mode = write_mode;
        self
    }
}

/// What the repository logic reads of an operating-system failure.
#[derive(Clone, Copy, Debug, PartialEq, Eq, Structural)]
pub enum ErrorKind {
    /// The entry does not exist.
    NotFound,
    /// The process may not do this.
    PermissionDenied,
    /// The entry exists already, and the call asked to create it.
    AlreadyExists,
    /// A path component that has to be a directory is none.
    NotADirectory,
    /// Any other failure, a refused symlink among them.
    Other,
}

/// A failed filesystem operation: its kind, and the system's own words.
#[derive(Debug)]
pub struct IoError {
    pub kind: ErrorKind,
    pub message: String,
}

/// The mathematical value of an [`IoError`].
pub struct IoErrorView {
    pub kind: ErrorKind,
    pub message: Seq<char>,
}

impl View for IoError {
    type V = IoErrorView;

    open spec fn view(&self) -> IoErrorView {
        IoErrorView { kind: self.kind, message: self.message@ }
    }
}

impl Clone for IoError {
    fn clone(&self) -> (copy: Self)
        ensures
            copy@ == self@,
    {
        IoError { kind: self.kind, message: self.message.clone() }
    }
}

/// How a request ended: the text it produced, or the failure. Reading a
/// file produces its content and resolving a path produces the resolved
/// path; every other request produces the empty text.
pub type Event = Result<String, IoError>;

/// The mathematical value of an [`Event`].
pub type EventView = Result<Seq<char>, IoErrorView>;

/// The value of an event.
pub open spec fn event_view(event: Event) -> EventView {
    match event {
        Ok(text) => Ok(text@),
        Err(failure) => Err(failure@),
    }
}

/// One filesystem operation for the caller to carry out.
///
/// A session holds at most two open directories: the base, opened from a
/// path, and the root, opened or made relative to the base. Opening either
/// replaces the one held before.
#[derive(Debug)]
pub enum Request {
    /// Open the directory at `path` as the base. A symlink at the last
    /// component of the path is refused, not followed.
    OpenDir { path: String },
    /// Open the directory `name` relative to the base, as the root.
    OpenDirAt { name: &'static str, options: OpenOptions },
    /// Make the directory `name` relative to the base, and keep it open as
    /// the root. An entry of that name makes this fail.
    MkdirAt { name: &'static str, options: OpenOptions },
    /// Open the file `name` relative to the root and read all of it as text.
    Read { name: &'static str, options: OpenOptions },
    /// Open the file `name` relative to the root and write `content` to it.
    Write { name: &'static str, options: OpenOptions, content: &'static str },
    /// Open the file `name` relative to the root, and close it again.
    Probe { name: &'static str, options: OpenOptions },
    /// Resolve `path` to its canonical, symlink-free form.
    Canonicalize { path: String },
}

/// The mathematical value of a [`Request`].
pub enum RequestView {
    OpenDir { path: Seq<char> },
    OpenDirAt { name: Seq<char>, options: OpenOptions },
    MkdirAt { name: Seq<char>, options: OpenOptions },
    Read { name: Seq<char>, options: OpenOptions },
    Write { name: Seq<char>, options: OpenOptions, content: Seq<char> },
    Probe { name: Seq<char>, options: OpenOptions },
    Canonicalize { path: Seq<char> },
}

impl View for Request {
    type V = RequestView;

    open spec fn view(&self) -> RequestView {
        match *self {
            Request::OpenDir { path } => RequestView::OpenDir { path: path@ },
            Request::OpenDirAt { name, options } => RequestView::OpenDirAt { name: name@, options },
            Request::MkdirAt { name, options } => RequestView::MkdirAt { name: name@, options },
            Request::Read { name, options } => RequestView::Read { name: name@, options },
            Request::Write { name, options, content } => RequestView::Write {
                name: name@,
                options,
                content: content@,
            },
            Request::Probe { name, options } => RequestView::Probe { name: name@, options },
            Request::Canonicalize { path } => RequestView::Canonicalize { path: path@ },
        }
    }
}

} // verus!
