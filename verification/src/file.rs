//! File repository: test results kept in a directory on disk.
//!
//! A repository is the directory [`REPO_DIR`] inside the directory that a
//! location names. It holds two marker files: [`FORMAT_FILE`], one digit and
//! a newline that name the generation of the layout, and
//! [`NEXT_STREAM_FILE`], the run counter.
//!
//! Opening and initializing are sessions. A [`Session`] asks for one
//! filesystem operation at a time, as a [`Request`]; the caller carries it
//! out and hands the [`Event`] to [`Session::step`], which answers with the
//! next request or with the outcome.

use vstd::prelude::*;
use vstd::std_specs::cmp::PartialEqSpec;
use vstd::string::*;

use crate::counter::{count_of, parse_counter};
use crate::error::{result_view, Error, ErrorView, Eyrify, Located, Result};
use crate::io::{
    event_view, ErrorKind, Event, EventView, IoError, OpenOptions, Request, RequestView, WriteMode,
};
use crate::repository::Repository;
use crate::text::same_text;

verus! {

/// The name of the repository directory.
pub const REPO_DIR: &'static str = ".testrepository";

/// The name of the format marker.
pub const FORMAT_FILE: &'static str = "format";

/// The name of the run counter.
pub const NEXT_STREAM_FILE: &'static str = "next-stream";

/// The content of the run counter of a repository without runs.
pub const NO_RUNS: &'static str = "0\n";

/// Shared by the generations: the count that the run counter of the
/// repository at `location` records.
///
/// `next_stream` is what came back from reading [`NEXT_STREAM_FILE`]. A
/// failure to read it is passed on; content that is no count is refused,
/// and the refusal names the location and the content.
pub fn count(location: &str, next_stream: &Event) -> (r: Result<usize>)
    ensures
        result_view(r) == counted(location@, event_view(*next_stream)),
{
    match next_stream {
        Ok(content) => match parse_counter(content.as_str()) {
            Some(count) => Ok(count),
            None => Err(
                Error::InvalidCounter {
                    location: String::from_str(location),
                    content: content.clone(),
                },
            ),
        },
        Err(failure) => Err(
            Error::Io { location: String::from_str(location), failure: failure.clone() },
        ),
    }
}

/// The count that a reading of the run counter of the repository at
/// `location` stands for.
pub open spec fn counted(location: Seq<char>, next_stream: EventView) -> std::result::Result<
    usize,
    ErrorView,
> {
    match next_stream {
        Ok(content) => match count_of(content) {
            Some(count) => Ok(count),
            None => Err(ErrorView::InvalidCounter { location, content }),
        },
        Err(failure) => Err(ErrorView::Io { location, failure }),
    }
}

/// What a backend of either generation is counted in: what came back from
/// reading the run counter of the repository at `location`.
#[derive(Debug)]
pub struct Reading<'a> {
    pub location: &'a str,
    pub next_stream: &'a Event,
}

impl<'a> Reading<'a> {
    /// The count that this reading stands for.
    pub open spec fn counted(&self) -> std::result::Result<usize, ErrorView> {
        counted(self.location@, event_view(*self.next_stream))
    }
}

/// The backend for the legacy layout.
#[derive(Clone, Copy, Debug, PartialEq, Eq, Structural)]
pub struct TestRepositoryV1Repo;

/// The backend for the current layout.
#[derive(Clone, Copy, Debug, PartialEq, Eq, Structural)]
pub struct TestRepositoryV2Repo;

impl<'a> Repository<Reading<'a>> for TestRepositoryV1Repo {
    open spec fn counted_in(&self, source: &Reading<'a>) -> std::result::Result<usize, ErrorView> {
        source.counted()
    }

    fn count(&self, source: &Reading<'a>) -> (r: Result<usize>) {
        count(source.location, source.next_stream)
    }
}

impl<'a> Repository<Reading<'a>> for TestRepositoryV2Repo {
    open spec fn counted_in(&self, source: &Reading<'a>) -> std::result::Result<usize, ErrorView> {
        source.counted()
    }

    fn count(&self, source: &Reading<'a>) -> (r: Result<usize>) {
        count(source.location, source.next_stream)
    }
}

/// The generation of the on-disk layout that a handle is bound to.
///
/// Two values are equal when they are of the same generation.
#[derive(Clone, Copy, Debug, PartialEq, Eq, Structural)]
pub enum FileRepositoryVersion {
    V1(TestRepositoryV1Repo),
    V2(TestRepositoryV2Repo),
}

impl View for FileRepositoryVersion {
    type V = FileRepositoryVersion;

    open spec fn view(&self) -> FileRepositoryVersion {
        *self
    }
}

impl FileRepositoryVersion {
    /// The content of the format marker of this generation.
    pub open spec fn marker(self) -> Seq<char> {
        match self {
            FileRepositoryVersion::V1(_) => "1\n"@,
            FileRepositoryVersion::V2(_) => "2\n"@,
        }
    }

    /// The generation that a format marker of this content names, if any.
    pub open spec fn of_marker(content: Seq<char>) -> Option<FileRepositoryVersion> {
        if content == "1\n"@ {
            Some(FileRepositoryVersion::V1(TestRepositoryV1Repo))
        } else if content == "2\n"@ {
            Some(FileRepositoryVersion::V2(TestRepositoryV2Repo))
        } else {
            None
        }
    }

    /// The content of the format marker of this generation.
    pub fn format(&self) -> (content: &'static str)
        ensures
            content@ == self.marker(),
    {
        match self {
            FileRepositoryVersion::V1(_) => "1\n",
            FileRepositoryVersion::V2(_) => "2\n",
        }
    }
}

impl<'a> Repository<Reading<'a>> for FileRepositoryVersion {
    open spec fn counted_in(&self, source: &Reading<'a>) -> std::result::Result<usize, ErrorView> {
        match *self {
            FileRepositoryVersion::V1(repo) => repo.counted_in(source),
            FileRepositoryVersion::V2(repo) => repo.counted_in(source),
        }
    }

    fn count(&self, source: &Reading<'a>) -> (r: Result<usize>) {
        match self {
            FileRepositoryVersion::V1(repo) => repo.count(source),
            FileRepositoryVersion::V2(repo) => repo.count(source),
        }
    }
}

/// Repositories opened on file locations.
///
/// A handle is bound to the generation that the format marker names and to
/// the location of the directory, in its canonical spelling.
#[derive(Debug)]
pub struct File {
    pub engine: FileRepositoryVersion,
    pub path: String,
}

/// The mathematical value of a [`File`].
pub struct FileView {
    pub engine: FileRepositoryVersion,
    pub path: Seq<char>,
}

impl View for File {
    type V = FileView;

    open spec fn view(&self) -> FileView {
        FileView { engine: self.engine, path: self.path@ }
    }
}

impl PartialEq for File {
    fn eq(&self, other: &Self) -> (same: bool) {
        self.engine == other.engine && self.path == other.path
    }
}

impl vstd::std_specs::cmp::PartialEqSpecImpl for File {
    open spec fn obeys_eq_spec() -> bool {
        true
    }

    open spec fn eq_spec(&self, other: &Self) -> bool {
        self.engine == other.engine && self.path@ == other.path@
    }
}

impl Repository<Event> for File {
    open spec fn counted_in(&self, source: &Event) -> std::result::Result<usize, ErrorView> {
        counted(self.path@, event_view(*source))
    }

    /// The count that the run counter records. `source` is what came back
    /// from the request of [`File::count_request`].
    fn count(&self, source: &Event) -> (r: Result<usize>) {
        self.engine.count(&Reading { location: self.path.as_str(), next_stream: source })
    }
}

/// Whatever the generation, a backend counts what [`counted`] reads from
/// the run counter.
pub proof fn law_generations_count_alike(
    a: FileRepositoryVersion,
    b: FileRepositoryVersion,
    source: Reading<'_>,
)
    ensures
        a.counted_in(&source) == source.counted(),
        a.counted_in(&source) == b.counted_in(&source),
{
}

/// Two handles are equal when they are bound to one generation at one
/// path, and only then.
pub proof fn law_handle_equality(a: File, b: File)
    ensures
        a.eq_spec(&b) <==> a@ == b@,
{
}

/// Two backends are equal when they are of one generation, and only then:
/// a handle of the first generation never equals one of the second.
pub proof fn law_backend_equality(a: FileRepositoryVersion, b: FileRepositoryVersion)
    ensures
        (a == b) <==> (a is V1 <==> b is V1),
        (a == b) <==> a.marker() == b.marker(),
{
    reveal_strlit("1\n");
    reveal_strlit("2\n");
    assert("1\n"@[0] != "2\n"@[0]);
}

/// What a session is for.
#[derive(Clone, Copy, Debug, PartialEq, Eq, Structural)]
pub enum Task {
    /// Open the repository that is there, and resolve the path to bind the
    /// handle to.
    Open,
    /// Open the repository that is there, at a path that is resolved
    /// already.
    OpenResolved,
    /// Make a repository of this generation where none is, and resolve the
    /// path to bind the handle to.
    Initialize(FileRepositoryVersion),
}

/// Where a session stands: the request that it has out, and what it has
/// learnt so far.
#[derive(Clone, Copy, Debug, PartialEq, Eq, Structural)]
pub enum Stage {
    /// Resolving the path of a location, to open the repository there.
    Resolving,
    /// Opening the directory that holds the repository directory.
    OpeningBase(Task),
    /// Initializing: looking whether the repository directory exists.
    Probing(FileRepositoryVersion),
    /// Opening: opening the repository directory.
    OpeningRoot(Task),
    /// Initializing: making the repository directory.
    MakingRoot(FileRepositoryVersion),
    /// Initializing: writing the format marker.
    WritingFormat(FileRepositoryVersion),
    /// Initializing: writing the run counter.
    WritingCounter(FileRepositoryVersion),
    /// Validating: reading the format marker.
    ReadingFormat(Task),
    /// Validating: the format marker named this generation, and the run
    /// counter is being opened.
    ProbingCounter(Task, FileRepositoryVersion),
    /// Resolving the path that the handle will carry.
    Canonicalizing(FileRepositoryVersion),
}

/// An open or an initialization under way.
#[derive(Debug)]
pub struct Session {
    /// The location, as the handle or the error will name it.
    pub path: String,
    pub stage: Stage,
}

/// The mathematical value of a [`Session`].
pub struct SessionView {
    pub path: Seq<char>,
    pub stage: Stage,
}

impl View for Session {
    type V = SessionView;

    open spec fn view(&self) -> SessionView {
        SessionView { path: self.path@, stage: self.stage }
    }
}

/// What a session answers to an event.
#[derive(Debug)]
pub enum Outcome {
    /// The session goes on: carry out this request and hand back its event.
    Next(Session, Request),
    /// The session is over.
    Done(Result<File>),
}

/// The mathematical value of an [`Outcome`].
pub enum OutcomeView {
    Next(SessionView, RequestView),
    Done(std::result::Result<FileView, ErrorView>),
}

impl View for Outcome {
    type V = OutcomeView;

    open spec fn view(&self) -> OutcomeView {
        match *self {
            Outcome::Next(session, request) => OutcomeView::Next(session@, request@),
            Outcome::Done(result) => OutcomeView::Done(result_view(result)),
        }
    }
}

/// What a reading of the format marker says of the repository at `location`.
///
/// Only the two known markers are accepted, letter for letter. Any other
/// content is an unknown format, reported with that content; a marker that
/// is not there is an unknown format without content. Any other failure to
/// read is passed on.
pub open spec fn validated(location: Seq<char>, format: EventView) -> std::result::Result<
    FileRepositoryVersion,
    ErrorView,
> {
    match format {
        Ok(content) => match FileRepositoryVersion::of_marker(content) {
            Some(engine) => Ok(engine),
            None => Err(ErrorView::UnknownFormat { location, content }),
        },
        Err(failure) => if failure.kind == ErrorKind::NotFound {
            Err(ErrorView::UnknownFormat { location, content: Seq::empty() })
        } else {
            Err(ErrorView::Io { location, failure })
        },
    }
}

/// The error of an initialization that met `failure` while it made the
/// repository directory or a marker: what is there already is reported as
/// such, any other failure is passed on.
pub open spec fn refused(location: Seq<char>, failure: crate::io::IoErrorView) -> ErrorView {
    if failure.kind == ErrorKind::AlreadyExists {
        ErrorView::AlreadyExists { location }
    } else {
        ErrorView::Io { location, failure }
    }
}

/// The request that opens the repository directory.
pub open spec fn open_root() -> RequestView {
    RequestView::OpenDirAt { name: REPO_DIR@, options: OpenOptions::reading() }
}

/// The request that reads the format marker.
pub open spec fn read_format() -> RequestView {
    RequestView::Read { name: FORMAT_FILE@, options: OpenOptions::reading() }
}

/// The request that reads the run counter.
pub open spec fn read_counter() -> RequestView {
    RequestView::Read { name: NEXT_STREAM_FILE@, options: OpenOptions::reading() }
}

/// The request that writes a marker which must not be there yet.
pub open spec fn write_marker(name: Seq<char>, content: Seq<char>) -> RequestView {
    RequestView::Write { name, options: OpenOptions::creating(), content }
}

/// How a session for `task` in the directory at `path` starts: by opening
/// that directory.
pub open spec fn starting(path: Seq<char>, task: Task) -> (SessionView, RequestView) {
    (SessionView { path, stage: Stage::OpeningBase(task) }, RequestView::OpenDir { path })
}

/// How the session starts that opens the repository in the directory at
/// `path`.
pub open spec fn opening(path: Seq<char>) -> (SessionView, RequestView) {
    starting(path, Task::Open)
}

/// How the session starts that makes a repository of generation `engine` in
/// the directory at `path`.
pub open spec fn initializing(path: Seq<char>, engine: FileRepositoryVersion) -> (
    SessionView,
    RequestView,
) {
    starting(path, Task::Initialize(engine))
}

/// How the session starts that opens the repository which a location names
/// by `path`: by resolving the path.
pub open spec fn resolving(path: Seq<char>) -> (SessionView, RequestView) {
    (SessionView { path, stage: Stage::Resolving }, RequestView::Canonicalize { path })
}

/// What a session answers to the event of the request that it had out.
pub open spec fn next(session: SessionView, event: EventView) -> OutcomeView {
    let path = session.path;
    let go = |stage: Stage, request: RequestView| OutcomeView::Next(SessionView { path, stage }, request);
    let fail = |error: ErrorView| OutcomeView::Done(Err(error));
    match session.stage {
        Stage::Resolving => match event {
            Ok(resolved) => OutcomeView::Next(
                SessionView { path: resolved, stage: Stage::OpeningBase(Task::OpenResolved) },
                RequestView::OpenDir { path: resolved },
            ),
            Err(failure) => fail(ErrorView::Io { location: path, failure }),
        },
        Stage::OpeningBase(task) => match event {
            Ok(_) => match task {
                Task::Initialize(engine) => go(Stage::Probing(engine), open_root()),
                _ => go(Stage::OpeningRoot(task), open_root()),
            },
            Err(failure) => fail(ErrorView::Io { location: path, failure }),
        },
        Stage::Probing(engine) => match event {
            Ok(_) => fail(ErrorView::AlreadyExists { location: path }),
            Err(_) => go(
                Stage::MakingRoot(engine),
                RequestView::MkdirAt { name: REPO_DIR@, options: OpenOptions::nothing() },
            ),
        },
        Stage::OpeningRoot(task) => match event {
            Ok(_) => go(Stage::ReadingFormat(task), read_format()),
            Err(failure) => if failure.kind == ErrorKind::NotFound {
                fail(ErrorView::NotFound { location: path })
            } else {
                fail(ErrorView::Io { location: path, failure })
            },
        },
        Stage::MakingRoot(engine) => match event {
            Ok(_) => go(Stage::WritingFormat(engine), write_marker(FORMAT_FILE@, engine.marker())),
            Err(failure) => fail(refused(path, failure)),
        },
        Stage::WritingFormat(engine) => match event {
            Ok(_) => go(Stage::WritingCounter(engine), write_marker(NEXT_STREAM_FILE@, NO_RUNS@)),
            Err(failure) => fail(refused(path, failure)),
        },
        Stage::WritingCounter(engine) => match event {
            Ok(_) => go(Stage::ReadingFormat(Task::Initialize(engine)), read_format()),
            Err(failure) => fail(refused(path, failure)),
        },
        Stage::ReadingFormat(task) => match validated(path, event) {
            Ok(found) => go(
                Stage::ProbingCounter(task, found),
                RequestView::Probe { name: NEXT_STREAM_FILE@, options: OpenOptions::reading() },
            ),
            Err(error) => fail(error),
        },
        Stage::ProbingCounter(task, found) => match event {
            Ok(_) => match task {
                Task::OpenResolved => OutcomeView::Done(Ok(FileView { engine: found, path })),
                _ => go(Stage::Canonicalizing(found), RequestView::Canonicalize { path }),
            },
            Err(failure) => fail(ErrorView::Io { location: path, failure }),
        },
        Stage::Canonicalizing(found) => match event {
            Ok(resolved) => OutcomeView::Done(Ok(FileView { engine: found, path: resolved })),
            Err(failure) => fail(ErrorView::Io { location: path, failure }),
        },
    }
}

impl File {
    /// Starts to open the repository in the directory at `path`.
    ///
    /// The handle of a session that ends well carries the resolved path.
    pub fn new(path: &str) -> (start: (Session, Request))
        ensures
            (start.0@, start.1@) == opening(path@),
    {
        Self::start(path, Task::Open)
    }

    /// Starts to make a repository of the legacy generation in the
    /// directory at `path`. Kept for callers that need the legacy layout:
    /// new repositories are made by [`File::initialize_v2`].
    ///
    /// The handle of a session that ends well carries the resolved path.
    pub fn initialize_v1(path: &str) -> (start: (Session, Request))
        ensures
            (start.0@, start.1@) == initializing(
                path@,
                FileRepositoryVersion::V1(TestRepositoryV1Repo),
            ),
    {
        Self::start(path, Task::Initialize(FileRepositoryVersion::V1(TestRepositoryV1Repo)))
    }

    /// Starts to make a repository of the current generation in the
    /// directory at `path`.
    ///
    /// The handle of a session that ends well carries the resolved path.
    pub fn initialize_v2(path: &str) -> (start: (Session, Request))
        ensures
            (start.0@, start.1@) == initializing(
                path@,
                FileRepositoryVersion::V2(TestRepositoryV2Repo),
            ),
    {
        Self::start(path, Task::Initialize(FileRepositoryVersion::V2(TestRepositoryV2Repo)))
    }

    /// Starts to open the repository that a location names by `path`: the
    /// path is resolved first, and the resolved path is the one opened and
    /// the one that the handle carries.
    pub fn resolve(path: &str) -> (start: (Session, Request))
        ensures
            (start.0@, start.1@) == resolving(path@),
    {
        (
            Session { path: String::from_str(path), stage: Stage::Resolving },
            Request::Canonicalize { path: String::from_str(path) },
        )
    }

    fn start(path: &str, task: Task) -> (start: (Session, Request))
        ensures
            (start.0@, start.1@) == starting(path@, task),
    {
        (
            Session { path: String::from_str(path), stage: Stage::OpeningBase(task) },
            Request::OpenDir { path: String::from_str(path) },
        )
    }

    /// The request whose event [`Repository::count`] counts from: reading
    /// the run counter.
    pub fn count_request(&self) -> (request: Request)
        ensures
            request@ == read_counter(),
    {
        Request::Read { name: NEXT_STREAM_FILE, options: reading() }
    }

    /// Validates the format of the repository at `location` from a reading
    /// of its format marker.
    pub fn validate_format(location: &str, format: Event) -> (r: Result<FileRepositoryVersion>)
        ensures
            result_view(r) == validated(location@, event_view(format)),
    {
        match format {
            Ok(content) => {
                if same_text(content.as_str(), "1\n") {
                    Ok(FileRepositoryVersion::V1(TestRepositoryV1Repo))
                } else if same_text(content.as_str(), "2\n") {
                    Ok(FileRepositoryVersion::V2(TestRepositoryV2Repo))
                } else {
                    Err(Error::UnknownFormat { location: String::from_str(location), content })
                }
            },
            Err(failure) => {
                if failure.kind == ErrorKind::NotFound {
                    Err(
                        Error::UnknownFormat {
                            location: String::from_str(location),
                            content: String::new(),
                        },
                    )
                } else {
                    Err(Error::Io { location: String::from_str(location), failure })
                }
            },
        }
    }
}

/// The options under which an entry is opened to be read.
fn reading() -> (options: OpenOptions)
    ensures
        options == OpenOptions::reading(),
{
    *OpenOptions::default().read(true)
}

/// The options under which a marker is made and written.
fn creating() -> (options: OpenOptions)
    ensures
        options == OpenOptions::creating(),
{
    *OpenOptions::default().create_new(true).write(WriteMode::Write)
}

/// The error of an initialization that met `failure` while it made the
/// repository directory or a marker.
fn refuse(location: String, failure: IoError) -> (error: Error)
    ensures
        error@ == refused(location@, failure@),
{
    if failure.kind == ErrorKind::AlreadyExists {
        Error::AlreadyExists { location }
    } else {
        Error::Io { location, failure }
    }
}

impl Session {
    /// Takes the event of the request that this session had out, and
    /// answers with the next request or with the outcome.
    pub fn step(self, event: Event) -> (outcome: Outcome)
        ensures
            outcome@ == next(self@, event_view(event)),
    {
        let Session { path, stage } = self;
        match stage {
            Stage::Resolving => match (Located { location: path.as_str(), outcome: event }).eyre() {
                Ok(resolved) => {
                    let request = Request::OpenDir { path: resolved.clone() };
                    Outcome::Next(
                        Session { path: resolved, stage: Stage::OpeningBase(Task::OpenResolved) },
                        request,
                    )
                },
                Err(error) => Outcome::Done(Err(error)),
            },
            Stage::OpeningBase(task) => match (Located { location: path.as_str(), outcome: event }).eyre() {
                Ok(_) => {
                    let request = Request::OpenDirAt { name: REPO_DIR, options: reading() };
                    match task {
                        Task::Initialize(engine) => Outcome::Next(
                            Session { path, stage: Stage::Probing(engine) },
                            request,
                        ),
                        _ => Outcome::Next(Session { path, stage: Stage::OpeningRoot(task) }, request),
                    }
                },
                Err(error) => Outcome::Done(Err(error)),
            },
            Stage::Probing(engine) => match event {
                Ok(_) => Outcome::Done(Err(Error::AlreadyExists { location: path })),
                Err(_) => Outcome::Next(
                    Session { path, stage: Stage::MakingRoot(engine) },
                    Request::MkdirAt { name: REPO_DIR, options: OpenOptions::default() },
                ),
            },
            Stage::OpeningRoot(task) => match event {
                Ok(_) => Outcome::Next(
                    Session { path, stage: Stage::ReadingFormat(task) },
                    Request::Read { name: FORMAT_FILE, options: reading() },
                ),
                Err(failure) => {
                    if failure.kind == ErrorKind::NotFound {
                        Outcome::Done(Err(Error::NotFound { location: path }))
                    } else {
                        Outcome::Done(Err(Error::Io { location: path, failure }))
                    }
                },
            },
            Stage::MakingRoot(engine) => match event {
                Ok(_) => Outcome::Next(
                    Session { path, stage: Stage::WritingFormat(engine) },
                    Request::Write {
                        name: FORMAT_FILE,
                        options: creating(),
                        content: engine.format(),
                    },
                ),
                Err(failure) => Outcome::Done(Err(refuse(path, failure))),
            },
            Stage::WritingFormat(engine) => match event {
                Ok(_) => Outcome::Next(
                    Session { path, stage: Stage::WritingCounter(engine) },
                    Request::Write { name: NEXT_STREAM_FILE, options: creating(), content: NO_RUNS },
                ),
                Err(failure) => Outcome::Done(Err(refuse(path, failure))),
            },
            Stage::WritingCounter(engine) => match event {
                Ok(_) => Outcome::Next(
                    Session { path, stage: Stage::ReadingFormat(Task::Initialize(engine)) },
                    Request::Read { name: FORMAT_FILE, options: reading() },
                ),
                Err(failure) => Outcome::Done(Err(refuse(path, failure))),
            },
            Stage::ReadingFormat(task) => match File::validate_format(path.as_str(), event) {
                Ok(found) => Outcome::Next(
                    Session { path, stage: Stage::ProbingCounter(task, found) },
                    Request::Probe { name: NEXT_STREAM_FILE, options: reading() },
                ),
                Err(error) => Outcome::Done(Err(error)),
            },
            Stage::ProbingCounter(task, found) => match (Located { location: path.as_str(), outcome: event }).eyre() {
                Ok(_) => match task {
                    Task::OpenResolved => Outcome::Done(Ok(File { engine: found, path })),
                    _ => {
                        let request = Request::Canonicalize { path: path.clone() };
                        Outcome::Next(
                            Session { path, stage: Stage::Canonicalizing(found) },
                            request,
                        )
                    },
                },
                Err(error) => Outcome::Done(Err(error)),
            },
            Stage::Canonicalizing(found) => match (Located { location: path.as_str(), outcome: event }).eyre() {
                Ok(resolved) => Outcome::Done(Ok(File { engine: found, path: resolved })),
                Err(error) => Outcome::Done(Err(error)),
            },
        }
    }
}

} // verus!
