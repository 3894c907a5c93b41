//! The contract that every backend meets.

use std::collections::HashMap;

use testrepository_repository::error::Error;
use testrepository_repository::file::{
    File, FileRepositoryVersion, Outcome, Reading, Session, TestRepositoryV2Repo, REPO_DIR,
};
use testrepository_repository::implementations::{OpenOptions, Opening, Repository, Source};
use testrepository_repository::io::{ErrorKind, Event, IoError, Request};
use testrepository_repository::memory::MemoryStore;
use testrepository_repository::repository::Repository as Contract;
use url::Url;

/// A directory that may hold a repository, at one absolute path.
struct Dir {
    path: String,
    files: Option<HashMap<String, String>>,
}

fn failed(kind: ErrorKind) -> Event {
    Err(IoError { kind, message: format!("{:?}", kind) })
}

impl Dir {
    fn perform(&mut self, request: &Request) -> Event {
        let found = |files: &Option<HashMap<String, String>>, name: &str| {
            files.as_ref().and_then(|files| files.get(name).cloned())
        };
        match request {
            Request::OpenDir { path } if *path == self.path => Ok(String::new()),
            Request::Canonicalize { path } if *path == self.path => Ok(self.path.clone()),
            Request::OpenDir { .. } | Request::Canonicalize { .. } => failed(ErrorKind::NotFound),
            Request::OpenDirAt { name, .. } if *name == REPO_DIR && self.files.is_some() => {
                Ok(String::new())
            }
            Request::OpenDirAt { .. } => failed(ErrorKind::NotFound),
            Request::MkdirAt { .. } if self.files.is_some() => failed(ErrorKind::AlreadyExists),
            Request::MkdirAt { .. } => {
                self.files = Some(HashMap::new());
                Ok(String::new())
            }
            Request::Read { name, .. } => found(&self.files, name).ok_or(IoError {
                kind: ErrorKind::NotFound,
                message: String::new(),
            }),
            Request::Probe { name, .. } => match found(&self.files, name) {
                Some(_) => Ok(String::new()),
                None => failed(ErrorKind::NotFound),
            },
            Request::Write { name, content, .. } => match self.files.as_mut() {
                Some(files) if files.contains_key(*name) => failed(ErrorKind::AlreadyExists),
                Some(files) => {
                    files.insert(name.to_string(), content.to_string());
                    Ok(String::new())
                }
                None => failed(ErrorKind::NotFound),
            },
        }
    }

    fn run(&mut self, start: (Session, Request)) -> Result<File, Error> {
        let (mut session, mut request) = start;
        loop {
            let event = self.perform(&request);
            match session.step(event) {
                Outcome::Next(then, next) => {
                    session = then;
                    request = next;
                }
                Outcome::Done(result) => return result,
            }
        }
    }

    /// Opens the repository through its location.
    fn open(&mut self) -> Repository {
        let url = Url::from_file_path(&self.path).unwrap();
        match Repository::open(&url).unwrap() {
            Opening::Ready(repository) => repository,
            Opening::Pending(session, request) => {
                Repository::File(self.run((session, request)).unwrap())
            }
        }
    }

    /// Reads the run counter for `repository`.
    fn reading(&mut self, repository: &Repository) -> Event {
        let Repository::File(file) = repository else { panic!("not on disk: {:?}", repository) };
        self.perform(&file.count_request())
    }
}

/// A directory with a fresh repository of the first or second generation.
fn initialized(path: &str, legacy: bool) -> Dir {
    let mut dir = Dir { path: path.to_string(), files: None };
    let start = if legacy { File::initialize_v1(path) } else { File::initialize_v2(path) };
    dir.run(start).unwrap();
    dir
}

fn open_memory(store: &MemoryStore) -> Repository {
    let opts = OpenOptions::default().with_memory_store(store);
    match Repository::open_with(&Url::parse("memory://a").unwrap(), opts).unwrap() {
        Opening::Ready(repository) => repository,
        other => panic!("a repository in memory opens at once: {:?}", other),
    }
}

#[test]
fn count_empty_repo() {
    // In memory.
    let mut store = MemoryStore::default();
    // Only allow one repo for now
    store.initialize("a");
    let repo = open_memory(&store);
    let source = Source { memory_store: Some(&store), next_stream: None };
    assert_eq!(repo.count(&source).unwrap(), 0);

    // On disk, of either generation, opened again through the location.
    for legacy in [true, false] {
        let mut dir = initialized("/tmp/repo", legacy);
        let repo = dir.open();
        let reading = dir.reading(&repo);
        let source = Source { memory_store: None, next_stream: Some(&reading) };
        assert_eq!(repo.count(&source).unwrap(), 0);
    }
}

#[test]
fn latest_id_empty_repo() {
    let mut store = MemoryStore::default();
    store.initialize("a");
    let repo = open_memory(&store);
    let source = Source { memory_store: Some(&store), next_stream: None };
    assert_eq!(repo.latest_id(&source).unwrap(), None);

    for legacy in [true, false] {
        let mut dir = initialized("/tmp/repo", legacy);
        let repo = dir.open();
        let reading = dir.reading(&repo);
        assert_eq!(reading.as_ref().unwrap(), "0\n");
        let source = Source { memory_store: None, next_stream: Some(&reading) };
        assert_eq!(repo.latest_id(&source).unwrap(), None);
        let Repository::File(file) = repo else { panic!("not on disk") };
        assert_eq!(file.latest_id(&reading).unwrap(), None);
        let source = Reading { location: "/tmp/repo", next_stream: &reading };
        assert_eq!(file.engine.latest_id(&source).unwrap(), None);
    }
}

#[test]
fn latest_id_is_count_less_one() {
    let file = File {
        engine: FileRepositoryVersion::V2(TestRepositoryV2Repo),
        path: "/r".to_string(),
    };
    for (content, count, latest) in [
        ("0\n", 0usize, None),
        ("1\n", 1, Some(0usize)),
        ("2\n", 2, Some(1)),
        ("1000\n", 1000, Some(999)),
    ] {
        let reading: Event = Ok(content.to_string());
        assert_eq!(file.count(&reading).unwrap(), count);
        assert_eq!(file.latest_id(&reading).unwrap(), latest);
    }
    let max: Event = Ok(usize::MAX.to_string());
    assert_eq!(file.latest_id(&max).unwrap(), Some(usize::MAX - 1));
    let bad: Event = Ok("x".to_string());
    assert!(file.latest_id(&bad).is_err());
}
