//! What the sessions of [`crate::file`] achieve on a directory that behaves.
//!
//! A [`Disk`] is a directory as a mathematical value, with the answer that
//! it gives to each [`Request`](crate::io::Request). [`run`] plays a session
//! against it to the end. The laws below are proved of every disk, and so
//! hold of a real directory as far as it answers as [`Disk::perform`] says:
//! alone with the session, and failing only where an entry is missing or in
//! the way.

use vstd::prelude::*;

use crate::counter::{count_of, decimal_value, trim_end, trim_start};
use crate::error::ErrorView;
use crate::file::{
    counted, initializing, next, opening, read_counter, resolving, starting, FileRepositoryVersion,
    FileView, OutcomeView, SessionView, Stage, Task, FORMAT_FILE, NEXT_STREAM_FILE, NO_RUNS,
    REPO_DIR,
};
use crate::io::{ErrorKind, EventView, IoErrorView, RequestView};
use crate::repository::latest_of;

verus! {

/// The files of a directory: content by name.
pub type Files = Map<Seq<char>, Seq<char>>;

/// A directory that may hold a repository, seen from one session.
pub struct Disk {
    /// Whether the directory is there.
    pub present: bool,
    /// The canonical spelling of its path.
    pub resolved: Seq<char>,
    /// The other paths that lead to it and can be opened as they are
    /// spelled: relative ones, ones with `.` or `..`, ones through a link
    /// that is not their last component.
    pub spellings: Set<Seq<char>>,
    /// The paths that lead to it through a link as their last component:
    /// they resolve, but are refused when opened as they are spelled.
    pub links: Set<Seq<char>>,
    /// The directories inside it, by name, each with its files.
    pub entries: Map<Seq<char>, Files>,
    /// The name of the one among them that the session holds open as its
    /// root, if it holds one.
    pub root: Option<Seq<char>>,
}

/// The failure of the given kind, as a disk reports it.
pub open spec fn failure(kind: ErrorKind) -> EventView {
    Err(IoErrorView { kind, message: Seq::empty() })
}

/// The event of a request that went well and produced no text.
pub open spec fn done() -> EventView {
    Ok(Seq::empty())
}

impl Disk {
    /// Whether `path` can be opened as the directory: it is there, and the
    /// path is its canonical spelling or another that opens.
    pub open spec fn opens(self, path: Seq<char>) -> bool {
        self.present && (path == self.resolved || self.spellings.contains(path))
    }

    /// Whether `path` resolves to the directory: it opens, or leads there
    /// through a link as its last component.
    pub open spec fn resolves(self, path: Seq<char>) -> bool {
        self.opens(path) || (self.present && self.links.contains(path))
    }

    /// The files of the open root, if a root is open and still there.
    pub open spec fn root_files(self) -> Option<Files> {
        match self.root {
            Some(name) => if self.entries.contains_key(name) {
                Some(self.entries[name])
            } else {
                None
            },
            None => None,
        }
    }

    /// The disk on which the open root holds `files`.
    pub open spec fn with_root_files(self, files: Files) -> Disk {
        Disk { entries: self.entries.insert(self.root->0, files), ..self }
    }

    /// The answer to a request, and the disk that the request leaves.
    ///
    /// A path that does not lead to the directory finds nothing. The base
    /// that the session holds is the directory itself, once a path opened.
    pub open spec fn perform(self, request: RequestView) -> (EventView, Disk) {
        match request {
            RequestView::OpenDir { path } => if self.opens(path) {
                (done(), self)
            } else if self.resolves(path) {
                (failure(ErrorKind::Other), self)
            } else {
                (failure(ErrorKind::NotFound), self)
            },
            RequestView::Canonicalize { path } => if self.resolves(path) {
                (Ok(self.resolved), self)
            } else {
                (failure(ErrorKind::NotFound), self)
            },
            RequestView::OpenDirAt { name, options } => if self.present
                && self.entries.contains_key(name) {
                (done(), Disk { root: Some(name), ..self })
            } else {
                (failure(ErrorKind::NotFound), self)
            },
            RequestView::MkdirAt { name, options } => if !self.present {
                (failure(ErrorKind::NotFound), self)
            } else if self.entries.contains_key(name) {
                (failure(ErrorKind::AlreadyExists), self)
            } else {
                (
                    done(),
                    Disk { entries: self.entries.insert(name, Map::empty()), root: Some(name), ..self },
                )
            },
            RequestView::Read { name, options } => match self.root_files() {
                Some(files) => if files.contains_key(name) {
                    (Ok(files[name]), self)
                } else {
                    (failure(ErrorKind::NotFound), self)
                },
                None => (failure(ErrorKind::NotFound), self),
            },
            RequestView::Probe { name, options } => match self.root_files() {
                Some(files) => if files.contains_key(name) {
                    (done(), self)
                } else {
                    (failure(ErrorKind::NotFound), self)
                },
                None => (failure(ErrorKind::NotFound), self),
            },
            RequestView::Write { name, options, content } => match self.root_files() {
                Some(files) => if files.contains_key(name) {
                    if options.create_new {
                        (failure(ErrorKind::AlreadyExists), self)
                    } else {
                        (done(), self.with_root_files(files.insert(name, content)))
                    }
                } else if options.create || options.create_new {
                    (done(), self.with_root_files(files.insert(name, content)))
                } else {
                    (failure(ErrorKind::NotFound), self)
                },
                None => (failure(ErrorKind::NotFound), self),
            },
        }
    }

    /// Whether the directory is there and holds a repository directory.
    pub open spec fn has_repository(self) -> bool {
        self.present && self.entries.contains_key(REPO_DIR@)
    }

    /// Whether the directory is there and holds no repository directory.
    pub open spec fn is_fresh(self) -> bool {
        self.present && !self.entries.contains_key(REPO_DIR@)
    }
}

/// The number of requests that a session at this stage may still make,
/// the one it has out included.
pub open spec fn steps_left(stage: Stage) -> nat {
    match stage {
        Stage::Resolving => 9,
        Stage::OpeningBase(_) => 8,
        Stage::Probing(_) => 7,
        Stage::MakingRoot(_) => 6,
        Stage::WritingFormat(_) => 5,
        Stage::WritingCounter(_) => 4,
        Stage::OpeningRoot(_) => 4,
        Stage::ReadingFormat(_) => 3,
        Stage::ProbingCounter(_, _) => 2,
        Stage::Canonicalizing(_) => 1,
    }
}

/// Plays a session against a disk: the request that is out is performed,
/// its event handed to the session, and so on until the session is over.
/// Gives the outcome and the disk as the session leaves it.
pub open spec fn run(session: SessionView, request: RequestView, disk: Disk) -> (
    std::result::Result<FileView, ErrorView>,
    Disk,
)
    decreases steps_left(session.stage),
{
    let (event, after) = disk.perform(request);
    match next(session, event) {
        OutcomeView::Next(then, request) => run(then, request, after),
        OutcomeView::Done(result) => (result, after),
    }
}

/// Every answer of a session moves it on: no session asks without end.
pub proof fn law_sessions_end(session: SessionView, event: EventView)
    ensures
        next(session, event) matches OutcomeView::Next(then, _) ==> steps_left(then.stage)
            < steps_left(session.stage),
{
}

/// The marker files of a repository of generation `engine` without runs.
pub open spec fn fresh_markers(engine: FileRepositoryVersion) -> Files {
    Map::empty().insert(FORMAT_FILE@, engine.marker()).insert(NEXT_STREAM_FILE@, NO_RUNS@)
}

/// The two markers have different names, and each generation its own
/// marker content.
pub proof fn lemma_markers_differ()
    ensures
        FORMAT_FILE@ != NEXT_STREAM_FILE@,
        forall|engine: FileRepositoryVersion|
            FileRepositoryVersion::of_marker(#[trigger] engine.marker()) == Some(engine),
{
    reveal_strlit("format");
    reveal_strlit("next-stream");
    reveal_strlit("1\n");
    reveal_strlit("2\n");
    assert(FORMAT_FILE@.len() != NEXT_STREAM_FILE@.len());
    assert("1\n"@[0] != "2\n"@[0]);
}

/// A run counter that holds [`NO_RUNS`] records no run.
pub proof fn lemma_no_runs()
    ensures
        count_of(NO_RUNS@) == Some(0usize),
{
    reveal_strlit("0\n");
    let text = NO_RUNS@;
    let digits = text.drop_last();
    assert(trim_start(text) == text);
    assert(trim_end(digits) == digits);
    assert(trim_end(text) == digits) by {
        reveal_with_fuel(trim_end, 2);
    }
    assert(decimal_value(digits) == 0) by {
        reveal_with_fuel(decimal_value, 2);
    }
}

/// Initializing where no repository is makes one of the generation asked
/// for, with [`fresh_markers`] as its marker files and nothing else touched;
/// the handle carries the canonical spelling of the path, and the repository
/// counts no run and has no latest id.
pub proof fn law_initialize_fresh(path: Seq<char>, engine: FileRepositoryVersion, disk: Disk)
    requires
        disk.is_fresh(),
        disk.opens(path),
    ensures
        ({
            let (result, after) = run(initializing(path, engine).0, initializing(path, engine).1, disk);
            let reading = after.perform(read_counter()).0;
            &&& result == Ok::<FileView, ErrorView>(FileView { engine, path: disk.resolved })
            &&& after == Disk {
                entries: disk.entries.insert(REPO_DIR@, fresh_markers(engine)),
                root: Some(REPO_DIR@),
                ..disk
            }
            &&& counted(disk.resolved, reading) == Ok::<usize, ErrorView>(0)
            &&& latest_of(counted(disk.resolved, reading)) == Ok::<Option<usize>, ErrorView>(None)
        }),
{
    lemma_markers_differ();
    lemma_no_runs();
    reveal_with_fuel(run, 9);
    let made = Disk {
        entries: disk.entries.insert(REPO_DIR@, Map::empty()),
        root: Some(REPO_DIR@),
        ..disk
    };
    let marked = made.with_root_files(
        Map::<Seq<char>, Seq<char>>::empty().insert(FORMAT_FILE@, engine.marker()),
    );
    let after = marked.with_root_files(fresh_markers(engine));
    assert(after.entries =~= disk.entries.insert(REPO_DIR@, fresh_markers(engine)));
}

/// Initializing where a repository is fails and says that it exists
/// already, whichever generation is asked for, and leaves every entry as it
/// was.
pub proof fn law_initialize_existing(path: Seq<char>, engine: FileRepositoryVersion, disk: Disk)
    requires
        disk.has_repository(),
        disk.opens(path),
    ensures
        run(initializing(path, engine).0, initializing(path, engine).1, disk) == (
            Err::<FileView, ErrorView>(ErrorView::AlreadyExists { location: path }),
            Disk { root: Some(REPO_DIR@), ..disk },
        ),
{
    reveal_with_fuel(run, 3);
}

/// Opening where no repository directory is fails and says that none was
/// found, and leaves the disk as it was.
pub proof fn law_open_missing(path: Seq<char>, disk: Disk)
    requires
        disk.is_fresh(),
        disk.opens(path),
    ensures
        run(opening(path).0, opening(path).1, disk) == (
            Err::<FileView, ErrorView>(ErrorView::NotFound { location: path }),
            disk,
        ),
{
    reveal_with_fuel(run, 3);
}

/// Opening or initializing at a path that does not open as the directory
/// fails with the failure of the operating system, before anything is
/// looked at, and leaves the disk as it was.
pub proof fn law_path_leads_elsewhere(path: Seq<char>, task: Task, disk: Disk)
    requires
        !disk.opens(path),
    ensures
        run(starting(path, task).0, starting(path, task).1, disk).0 matches Err(ErrorView::Io { .. }),
        run(starting(path, task).0, starting(path, task).1, disk).1 == disk,
{
    reveal_with_fuel(run, 2);
}

/// Opening a repository whose format marker holds anything but one of the
/// two known markers fails and reports that content, letter for letter.
pub proof fn law_open_unknown_format(path: Seq<char>, disk: Disk)
    requires
        disk.has_repository(),
        disk.opens(path),
        disk.entries[REPO_DIR@].contains_key(FORMAT_FILE@),
        FileRepositoryVersion::of_marker(disk.entries[REPO_DIR@][FORMAT_FILE@]) is None,
    ensures
        run(opening(path).0, opening(path).1, disk).0 == Err::<FileView, ErrorView>(
            ErrorView::UnknownFormat { location: path, content: disk.entries[REPO_DIR@][FORMAT_FILE@] },
        ),
{
    reveal_with_fuel(run, 4);
}

/// Opening a repository without a format marker fails as one of unknown
/// format, with no content to report.
pub proof fn law_open_unmarked(path: Seq<char>, disk: Disk)
    requires
        disk.has_repository(),
        disk.opens(path),
        !disk.entries[REPO_DIR@].contains_key(FORMAT_FILE@),
    ensures
        run(opening(path).0, opening(path).1, disk).0 == Err::<FileView, ErrorView>(
            ErrorView::UnknownFormat { location: path, content: Seq::empty() },
        ),
{
    reveal_with_fuel(run, 4);
}

/// Opening a repository with a known format marker and a run counter binds
/// a handle to the generation that the marker names and to the canonical
/// spelling of the path, however the path was spelled.
pub proof fn law_open_valid(path: Seq<char>, engine: FileRepositoryVersion, disk: Disk)
    requires
        disk.has_repository(),
        disk.opens(path),
        disk.entries[REPO_DIR@].contains_key(FORMAT_FILE@),
        disk.entries[REPO_DIR@][FORMAT_FILE@] == engine.marker(),
        disk.entries[REPO_DIR@].contains_key(NEXT_STREAM_FILE@),
    ensures
        run(opening(path).0, opening(path).1, disk) == (
            Ok::<FileView, ErrorView>(FileView { engine, path: disk.resolved }),
            Disk { root: Some(REPO_DIR@), ..disk },
        ),
{
    lemma_markers_differ();
    reveal_with_fuel(run, 6);
}

/// A location whose path resolves to the directory is opened as the
/// directory is by its canonical spelling, also where the path itself would
/// be refused for the link that it ends in.
pub proof fn law_resolve_then_open(path: Seq<char>, disk: Disk)
    requires
        disk.resolves(path),
    ensures
        run(resolving(path).0, resolving(path).1, disk) == run(
            opening(disk.resolved).0,
            opening(disk.resolved).1,
            disk,
        ),
{
    reveal_with_fuel(run, 7);
}

/// A location whose path does not resolve to the directory fails with the
/// failure of the operating system, and leaves the disk as it was.
pub proof fn law_location_leads_elsewhere(path: Seq<char>, disk: Disk)
    requires
        !disk.resolves(path),
    ensures
        run(resolving(path).0, resolving(path).1, disk).0 matches Err(ErrorView::Io { .. }),
        run(resolving(path).0, resolving(path).1, disk).1 == disk,
{
    reveal_with_fuel(run, 2);
}

/// The generation of a repository outlives the handle that made it. What
/// was initialized opens again as a handle equal to the one that
/// initializing gave: of the same generation and at the same canonical
/// location, by whatever spelling of the path it is opened, and through
/// whatever location resolves to it.
pub proof fn law_reopen(
    path: Seq<char>,
    spelling: Seq<char>,
    location: Seq<char>,
    engine: FileRepositoryVersion,
    disk: Disk,
)
    requires
        disk.is_fresh(),
        disk.opens(path),
        disk.opens(spelling),
        disk.resolves(location),
    ensures
        ({
            let (made, after) = run(initializing(path, engine).0, initializing(path, engine).1, disk);
            &&& made == Ok::<FileView, ErrorView>(FileView { engine, path: disk.resolved })
            &&& run(opening(spelling).0, opening(spelling).1, after) == (made, after)
            &&& run(resolving(location).0, resolving(location).1, after) == (made, after)
        }),
{
    law_initialize_fresh(path, engine, disk);
    lemma_markers_differ();
    let after = run(initializing(path, engine).0, initializing(path, engine).1, disk).1;
    law_open_valid(spelling, engine, after);
    law_open_valid(disk.resolved, engine, after);
    law_resolve_then_open(location, after);
}

/// Initializing twice: the second attempt fails, whichever generation it
/// asks for, and the repository of the first still counts no run.
pub proof fn law_initialize_twice(
    path: Seq<char>,
    first: FileRepositoryVersion,
    second: FileRepositoryVersion,
    disk: Disk,
)
    requires
        disk.is_fresh(),
        disk.opens(path),
    ensures
        ({
            let (made, after) = run(initializing(path, first).0, initializing(path, first).1, disk);
            let (again, last) = run(initializing(path, second).0, initializing(path, second).1, after);
            &&& made is Ok
            &&& again == Err::<FileView, ErrorView>(ErrorView::AlreadyExists { location: path })
            &&& last == after
            &&& counted(disk.resolved, last.perform(read_counter()).0) == Ok::<usize, ErrorView>(0)
        }),
{
    law_initialize_fresh(path, first, disk);
    let after = run(initializing(path, first).0, initializing(path, first).1, disk).1;
    law_initialize_existing(path, second, after);
}

/// Whether `after` holds every file that `before` holds, with the content
/// that it has there.
pub open spec fn keeps(after: Disk, before: Disk) -> bool {
    forall|dir: Seq<char>, name: Seq<char>|
        #![trigger after.entries[dir][name]]
        before.entries.contains_key(dir) && before.entries[dir].contains_key(name) ==> {
            &&& after.entries.contains_key(dir)
            &&& after.entries[dir].contains_key(name)
            &&& after.entries[dir][name] == before.entries[dir][name]
        }
}

/// No session overwrites or removes a file: whatever a session is for and
/// however it ends, every file that was there before it is there after it,
/// with the content that it had.
pub proof fn law_nothing_overwritten(path: Seq<char>, task: Task, disk: Disk)
    ensures
        keeps(run(starting(path, task).0, starting(path, task).1, disk).1, disk),
        keeps(run(resolving(path).0, resolving(path).1, disk).1, disk),
{
    lemma_markers_differ();
    reveal_with_fuel(run, 10);
}

/// A marker that is in the way is left alone. Where a session asks to write
/// a marker and the open root holds a file of that name by then, put there
/// by whoever else, the write fails, the session ends saying that the
/// repository exists already, and the disk is as it was.
pub proof fn law_marker_in_the_way(session: SessionView, event: EventView, disk: Disk)
    requires
        next(session, event) matches OutcomeView::Next(_, RequestView::Write { name, .. })
            && disk.root_files() matches Some(files) && files.contains_key(name),
    ensures
        next(session, event) matches OutcomeView::Next(then, request) && run(then, request, disk)
            == (Err::<FileView, ErrorView>(ErrorView::AlreadyExists { location: session.path }), disk),
{
    reveal_with_fuel(run, 2);
}

} // verus!
