//! Abstraction over different implementations
//!
//! Repositories are identified by their URL. The scheme of a location picks
//! the backend: `memory` names a repository in a store that the caller
//! brings, by the host of the URL; `file` names a directory by its path.

use url::Url;
use vstd::prelude::*;
use vstd::string::*;

use crate::error::{result_view, Error, ErrorView, Result};
use crate::file::{resolving, File, FileView, Session, SessionView};
use crate::io::{Event, Request, RequestView};
use crate::memory::{Memory, MemoryStore, MemoryView};
use crate::repository;
use crate::location::{
    escaped_text, is_letter, law_escaped_text_stands_for_the_text, local_path, names_drive,
    path_named,
};
use crate::text::same_text;

verus! {

/// `url::Url`, a parsed URL. Nothing inside it is seen here: a location
/// is only handed to the four methods below, and what they give is named.
#[verifier::external_type_specification]
#[verifier::external_body]
pub struct ExUrl(url::Url);

/// The scheme of a URL: what `Url::scheme` gives for it.
pub uninterp spec fn scheme_of(url: Url) -> Seq<char>;

/// The host of a URL, if it has one: what `Url::host_str` gives for it.
pub uninterp spec fn host_of(url: Url) -> Option<Seq<char>>;

/// The path of a URL: what `Url::path` gives for it.
pub uninterp spec fn path_of(url: Url) -> Seq<char>;

/// A URL as text: what `Url::as_str` gives for it.
pub uninterp spec fn text_of(url: Url) -> Seq<char>;

/// `Url::scheme` gives the scheme of the URL, without the `:` that ends it.
/// It reads the URL and nothing else, so the result is named by the URL;
/// nothing more is claimed of it.
pub assume_specification[ Url::scheme ](url: &Url) -> (scheme: &str)
    ensures
        scheme@ == scheme_of(*url),
;

/// `Url::host_str` gives the host of the URL as text, where it has a host.
/// It reads the URL and nothing else, so the result is named by the URL;
/// nothing more is claimed of it.
pub assume_specification[ Url::host_str ](url: &Url) -> (host: Option<&str>)
    ensures
        host_view(host) == host_of(*url),
;

/// `Url::path` gives the path of the URL, percent-encoded. It reads the
/// URL and nothing else, so the result is named by the URL; nothing more
/// is claimed of it.
pub assume_specification[ Url::path ](url: &Url) -> (path: &str)
    ensures
        path@ == path_of(*url),
;

/// `Url::as_str` gives the URL as text. It reads the URL and nothing else,
/// so the result is named by the URL; nothing more is claimed of it.
pub assume_specification[ Url::as_str ](url: &Url) -> (text: &str)
    ensures
        text@ == text_of(*url),
;

/// Open a repository with options
#[derive(Debug)]
pub struct OpenOptions<'a> {
    memory_store: Option<&'a MemoryStore>,
    drives: bool,
}

impl<'a> Default for OpenOptions<'a> {
    /// The options without a store, for a platform whose paths start with
    /// no drive.
    fn default() -> (options: Self)
        ensures
            options.memory_store() is None,
            !options.drives(),
    {
        OpenOptions { memory_store: None, drives: false }
    }
}

impl<'a> OpenOptions<'a> {
    /// The store that memory repositories are opened in, if one is attached.
    pub closed spec fn memory_store(&self) -> Option<&'a MemoryStore> {
        self.memory_store
    }

    /// Whether paths start with a drive on the platform that file
    /// locations are opened on.
    pub closed spec fn drives(&self) -> bool {
        self.drives
    }

    /// Attach a memory store to permit re-opening a memory repository
    pub fn with_memory_store(self, memory_store: &'a MemoryStore) -> (options: Self)
        ensures
            options.memory_store() == Some(memory_store),
            options.drives() == self.drives(),
    {
        OpenOptions { memory_store: Some(memory_store), drives: self.drives }
    }

    /// Say whether paths start with a drive on this platform, as they do
    /// on Windows. Where they do, a file location with the path `/C:/data`
    /// names the directory `C:/data`; where they do not, it names the
    /// directory `/C:/data`.
    pub fn with_drives(self, drives: bool) -> (options: Self)
        ensures
            options.memory_store() == self.memory_store(),
            options.drives() == drives,
    {
        OpenOptions { memory_store: self.memory_store, drives }
    }
}

/// All the known Repository implementations.
#[derive(Debug)]
#[non_exhaustive]
pub enum Repository {
    /// In-memory repository
    Memory(Memory),
    /// Repository in a directory on disk
    File(File),
}

/// The mathematical value of a [`Repository`].
pub enum RepositoryView {
    Memory(MemoryView),
    File(FileView),
}

impl View for Repository {
    type V = RepositoryView;

    open spec fn view(&self) -> RepositoryView {
        match *self {
            Repository::Memory(memory) => RepositoryView::Memory(memory@),
            Repository::File(file) => RepositoryView::File(file@),
        }
    }
}

/// How far opening a location gets without touching the filesystem.
#[derive(Debug)]
pub enum Opening {
    /// The repository is open.
    Ready(Repository),
    /// The repository is on disk. Carrying the session through opens it:
    /// the [`File`] that the session ends with is the repository.
    Pending(Session, Request),
}

/// The mathematical value of an [`Opening`].
pub enum OpeningView {
    Ready(RepositoryView),
    Pending(SessionView, RequestView),
}

impl View for Opening {
    type V = OpeningView;

    open spec fn view(&self) -> OpeningView {
        match *self {
            Opening::Ready(repository) => OpeningView::Ready(repository@),
            Opening::Pending(session, request) => OpeningView::Pending(session@, request@),
        }
    }
}

/// The name that a URL gives to a repository in memory: its host, and the
/// empty name where it has none.
pub open spec fn name_of(host: Option<Seq<char>>) -> Seq<char> {
    match host {
        Some(name) => name,
        None => Seq::empty(),
    }
}

/// Whether the host of a file location is another machine than this one:
/// it has a host, and the host is not the empty one.
pub open spec fn is_remote(host: Option<Seq<char>>) -> bool {
    match host {
        Some(name) => name.len() > 0,
        None => false,
    }
}

/// Where a location leads, by the parts of its URL.
///
/// - Scheme `file`: to the session that resolves the path which the path
///   of the URL names, see [`path_named`], and opens the repository in the
///   directory there. A location on another host leads nowhere, and so
///   does one whose path names no path.
/// - Scheme `memory`: to the repository that the store holds under the
///   host as its name. Without a store this fails, and so it does where
///   the store knows no such name: opening creates nothing.
/// - Any other scheme: nowhere, and nothing is asked of the filesystem or
///   of the store.
///
/// Every failure names the whole location.
pub open spec fn dispatched(
    scheme: Seq<char>,
    host: Option<Seq<char>>,
    path: Seq<char>,
    location: Seq<char>,
    memory_store: Option<&MemoryStore>,
    drives: bool,
) -> std::result::Result<OpeningView, ErrorView> {
    if scheme == "file"@ {
        if is_remote(host) {
            Err(ErrorView::RemoteHost { location })
        } else {
            match path_named(path, drives) {
                Some(local) => Ok(OpeningView::Pending(resolving(local).0, resolving(local).1)),
                None => Err(ErrorView::InvalidPath { location }),
            }
        }
    } else if scheme == "memory"@ {
        match memory_store {
            Some(store) => match store.opened(name_of(host)) {
                Ok(memory) => Ok(OpeningView::Ready(RepositoryView::Memory(memory))),
                Err(error) => Err(error),
            },
            None => Err(ErrorView::StoreMissing { location }),
        }
    } else {
        Err(ErrorView::UnknownScheme { location })
    }
}

/// The value of a host as a URL gives it.
pub open spec fn host_view(host: Option<&str>) -> Option<Seq<char>> {
    match host {
        Some(name) => Some(name@),
        None => None,
    }
}

impl Repository {
    /// Open a repository at the given location, on a platform whose paths
    /// start with no drive and without a store.
    pub fn open(location: &Url) -> (r: Result<Opening>)
        ensures
            result_view(r) == dispatched(
                scheme_of(*location),
                host_of(*location),
                path_of(*location),
                text_of(*location),
                None,
                false,
            ),
    {
        Self::open_with(location, OpenOptions::default())
    }

    /// Open a repository at the given location with given options
    ///
    /// The location is taken apart into its scheme, host and path, and
    /// [`Repository::dispatch`] decides on those.
    pub fn open_with(location: &Url, options: OpenOptions<'_>) -> (r: Result<Opening>)
        ensures
            result_view(r) == dispatched(
                scheme_of(*location),
                host_of(*location),
                path_of(*location),
                text_of(*location),
                options.memory_store(),
                options.drives(),
            ),
    {
        Self::dispatch(
            location.scheme(),
            location.host_str(),
            location.path(),
            location.as_str(),
            options,
        )
    }

    /// The name that a URL gives to a repository in memory: its host, and
    /// the empty name where it has none.
    pub fn memory_name<'h>(host: Option<&'h str>) -> (name: &'h str)
        ensures
            name@ == name_of(host_view(host)),
    {
        match host {
            Some(name) => name,
            None => {
                proof {
                    reveal_strlit("");
                    assert(""@ =~= Seq::<char>::empty());
                }
                ""
            },
        }
    }

    /// Decide where a location leads from the parts of its URL: the
    /// scheme, the host if it has one, the path, and the whole of it as
    /// text.
    pub fn dispatch(
        scheme: &str,
        host: Option<&str>,
        path: &str,
        location: &str,
        options: OpenOptions<'_>,
    ) -> (r: Result<Opening>)
        ensures
            result_view(r) == dispatched(
                scheme@,
                host_view(host),
                path@,
                location@,
                options.memory_store(),
                options.drives(),
            ),
    {
        if same_text(scheme, "file") {
            let remote = match host {
                Some(name) => name.unicode_len() > 0,
                None => false,
            };
            if remote {
                return Err(Error::RemoteHost { location: String::from_str(location) });
            }
            match local_path(path, options.drives) {
                Some(local) => {
                    let (session, request) = File::resolve(local.as_str());
                    Ok(Opening::Pending(session, request))
                },
                None => Err(Error::InvalidPath { location: String::from_str(location) }),
            }
        } else if same_text(scheme, "memory") {
            match options.memory_store {
                Some(memory_store) => match Memory::new(Self::memory_name(host), memory_store) {
                    Ok(memory) => Ok(Opening::Ready(Repository::Memory(memory))),
                    Err(error) => Err(error),
                },
                None => Err(Error::StoreMissing { location: String::from_str(location) }),
            }
        } else {
            Err(Error::UnknownScheme { location: String::from_str(location) })
        }
    }
}

/// A file location on this machine leads to the directory whose path its
/// URL holds, however the URL escapes it. On a platform whose paths start
/// with no drive the path is resolved as it stands, also where it looks
/// like a drive: where it is absolute, from the root, and not from where
/// the process happens to work.
pub proof fn law_file_location_keeps_its_path(
    keep: spec_fn(u8) -> bool,
    directory: Seq<char>,
    host: Option<Seq<char>>,
    location: Seq<char>,
    memory_store: Option<&MemoryStore>,
)
    requires
        !keep(0x25),
        forall|b: u8| #[trigger] keep(b) ==> b < 0x80,
        !is_remote(host),
    ensures
        dispatched("file"@, host, escaped_text(keep, directory), location, memory_store, false)
            == Ok::<OpeningView, ErrorView>(
            OpeningView::Pending(resolving(directory).0, resolving(directory).1),
        ),
{
    law_escaped_text_stands_for_the_text(keep, directory);
}

/// On a platform whose paths start with a drive, a file location on this
/// machine leads to the directory whose path its URL holds behind the
/// slash that comes before the drive.
pub proof fn law_file_location_on_a_drive(
    keep: spec_fn(u8) -> bool,
    directory: Seq<char>,
    host: Option<Seq<char>>,
    location: Seq<char>,
    memory_store: Option<&MemoryStore>,
)
    requires
        !keep(0x25),
        forall|b: u8| #[trigger] keep(b) ==> b < 0x80,
        !is_remote(host),
        directory.len() >= 2 && is_letter(directory[0]) && directory[1] == ':',
        directory.len() == 2 || directory[2] == '/',
    ensures
        dispatched(
            "file"@,
            host,
            escaped_text(keep, seq!['/'] + directory),
            location,
            memory_store,
            true,
        ) == Ok::<OpeningView, ErrorView>(
            OpeningView::Pending(resolving(directory).0, resolving(directory).1),
        ),
{
    let path = seq!['/'] + directory;
    law_escaped_text_stands_for_the_text(keep, path);
    assert(names_drive(path));
    assert(path.skip(1) =~= directory);
}

/// A file location on another host leads nowhere, whatever its path: the
/// failure names the location, and nothing is asked of the filesystem.
pub proof fn law_remote_file_location(
    host: Seq<char>,
    path: Seq<char>,
    location: Seq<char>,
    memory_store: Option<&MemoryStore>,
    drives: bool,
)
    requires
        host.len() > 0,
    ensures
        dispatched("file"@, Some(host), path, location, memory_store, drives) == Err::<
            OpeningView,
            ErrorView,
        >(ErrorView::RemoteHost { location }),
{
}

/// A location of a scheme that names no backend leads nowhere, whatever
/// else it holds and whatever store comes with it: it fails before anything
/// is asked of the filesystem or looked up in the store.
pub proof fn law_unknown_scheme(
    scheme: Seq<char>,
    host: Option<Seq<char>>,
    path: Seq<char>,
    location: Seq<char>,
    memory_store: Option<&MemoryStore>,
    drives: bool,
)
    requires
        scheme != "file"@,
        scheme != "memory"@,
    ensures
        dispatched(scheme, host, path, location, memory_store, drives) == Err::<
            OpeningView,
            ErrorView,
        >(ErrorView::UnknownScheme { location }),
{
}

/// A memory location opens only with a store that knows its name: without
/// a store it fails, and with a store that was never told the name it
/// fails too, and the store is as it was.
pub proof fn law_memory_needs_store(
    host: Option<Seq<char>>,
    path: Seq<char>,
    location: Seq<char>,
    store: &MemoryStore,
    drives: bool,
)
    ensures
        dispatched("memory"@, host, path, location, None, drives) == Err::<OpeningView, ErrorView>(
            ErrorView::StoreMissing { location },
        ),
        !store.repos().contains_key(name_of(host)) ==> dispatched(
            "memory"@,
            host,
            path,
            location,
            Some(store),
            drives,
        ) == Err::<OpeningView, ErrorView>(ErrorView::NameNotInitialized { name: name_of(host) }),
        store.repos().contains_key(name_of(host)) ==> dispatched(
            "memory"@,
            host,
            path,
            location,
            Some(store),
            drives,
        ) is Ok,
{
    reveal_strlit("file");
    reveal_strlit("memory");
    assert("file"@.len() != "memory"@.len());
}

/// What a repository is counted in.
#[derive(Debug)]
pub struct Source<'a> {
    /// The store that repositories in memory were opened in.
    pub memory_store: Option<&'a MemoryStore>,
    /// What came back from reading the run counter of a repository on disk:
    /// the event of the request of [`File::count_request`].
    pub next_stream: Option<&'a Event>,
}

impl<'a> repository::Repository<Source<'a>> for Repository {
    /// The count of the backend that the handle is bound to, in the part of
    /// the source that is meant for that backend. A repository in memory
    /// cannot be counted without a store, nor one on disk without a reading
    /// of its run counter: the failure says which is missing, and for which
    /// repository.
    open spec fn counted_in(&self, source: &Source<'a>) -> std::result::Result<usize, ErrorView> {
        match *self {
            Repository::Memory(memory) => match source.memory_store {
                Some(store) => memory.counted_in(store),
                None => Err(ErrorView::StoreMissing { location: memory@.path }),
            },
            Repository::File(file) => match source.next_stream {
                Some(event) => file.counted_in(event),
                None => Err(ErrorView::ReadingMissing { location: file@.path }),
            },
        }
    }

    fn count(&self, source: &Source<'a>) -> (r: Result<usize>) {
        match self {
            Repository::Memory(memory) => match source.memory_store {
                Some(store) => memory.count(store),
                None => Err(Error::StoreMissing { location: String::from_str(memory.path()) }),
            },
            Repository::File(file) => match source.next_stream {
                Some(event) => file.count(event),
                None => Err(Error::ReadingMissing { location: file.path.clone() }),
            },
        }
    }
}

} // verus!
