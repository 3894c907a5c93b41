//! Sessions of the file repository, played against a directory kept in
//! memory.

use std::collections::HashMap;

use testrepository_repository::error::Error;
use testrepository_repository::file::{
    count, File, FileRepositoryVersion, Outcome, Reading, Session, Stage, Task,
    TestRepositoryV1Repo, TestRepositoryV2Repo, FORMAT_FILE, NEXT_STREAM_FILE, NO_RUNS, REPO_DIR,
};
use testrepository_repository::io::{ErrorKind, Event, IoError, OpenOptions, Request, WriteMode};
use testrepository_repository::repository::Repository;

/// A directory that may hold a repository.
struct Dir {
    present: bool,
    /// The canonical spelling of the directory's path.
    resolved: String,
    /// The other spellings that open and resolve.
    spellings: Vec<String>,
    /// The spellings that resolve, but end in a link and do not open.
    links: Vec<String>,
    entries: HashMap<String, HashMap<String, String>>,
    root: Option<String>,
    requests: usize,
}

fn failed(kind: ErrorKind) -> Event {
    Err(IoError { kind, message: format!("{:?}", kind) })
}

impl Dir {
    fn new(resolved: &str) -> Dir {
        Dir {
            present: true,
            resolved: resolved.to_string(),
            spellings: Vec::new(),
            links: Vec::new(),
            entries: HashMap::new(),
            root: None,
            requests: 0,
        }
    }

    fn file(&self, name: &str) -> Option<String> {
        self.entries.get(REPO_DIR).and_then(|files| files.get(name)).cloned()
    }

    fn put(&mut self, name: &str, content: &str) {
        self.entries
            .entry(REPO_DIR.to_string())
            .or_default()
            .insert(name.to_string(), content.to_string());
    }

    fn root_files(&mut self) -> Option<&mut HashMap<String, String>> {
        let name = self.root.clone()?;
        self.entries.get_mut(&name)
    }

    fn opens(&self, path: &str) -> bool {
        self.present && (path == self.resolved || self.spellings.iter().any(|s| s == path))
    }

    fn resolves(&self, path: &str) -> bool {
        self.opens(path) || (self.present && self.links.iter().any(|s| s == path))
    }

    fn perform(&mut self, request: &Request) -> Event {
        self.requests += 1;
        match request {
            Request::OpenDir { path } if self.opens(path) => Ok(String::new()),
            Request::OpenDir { path } if self.resolves(path) => failed(ErrorKind::Other),
            Request::Canonicalize { path } if self.resolves(path) => Ok(self.resolved.clone()),
            Request::OpenDir { .. } | Request::Canonicalize { .. } => failed(ErrorKind::NotFound),
            Request::OpenDirAt { name, options } => {
                assert!(options.read);
                if self.entries.contains_key(*name) {
                    self.root = Some(name.to_string());
                    Ok(String::new())
                } else {
                    failed(ErrorKind::NotFound)
                }
            }
            Request::MkdirAt { name, .. } => {
                if self.entries.contains_key(*name) {
                    failed(ErrorKind::AlreadyExists)
                } else {
                    self.entries.insert(name.to_string(), HashMap::new());
                    self.root = Some(name.to_string());
                    Ok(String::new())
                }
            }
            Request::Read { name, options } => {
                assert!(options.read);
                match self.root_files().and_then(|files| files.get(*name).cloned()) {
                    Some(content) => Ok(content),
                    None => failed(ErrorKind::NotFound),
                }
            }
            Request::Probe { name, .. } => {
                match self.root_files().and_then(|files| files.get(*name).cloned()) {
                    Some(_) => Ok(String::new()),
                    None => failed(ErrorKind::NotFound),
                }
            }
            Request::Write { name, options, content } => {
                assert_eq!(options.write_mode, WriteMode::Write);
                let exclusive = options.create_new;
                match self.root_files() {
                    Some(files) if files.contains_key(*name) && exclusive => {
                        failed(ErrorKind::AlreadyExists)
                    }
                    Some(files) => {
                        files.insert(name.to_string(), content.to_string());
                        Ok(String::new())
                    }
                    None => failed(ErrorKind::NotFound),
                }
            }
        }
    }

    fn run(&mut self, start: (Session, Request)) -> Result<File, Error> {
        let (mut session, mut request) = start;
        loop {
            let event = self.perform(&request);
            match session.step(event) {
                Outcome::Next(then, next) => {
                    session = then;
                    request = next;
                }
                Outcome::Done(result) => return result,
            }
        }
    }

    fn count(&mut self, file: &File) -> Result<usize, Error> {
        let event = self.perform(&file.count_request());
        file.count(&event)
    }
}

const V1: FileRepositoryVersion = FileRepositoryVersion::V1(TestRepositoryV1Repo);
const V2: FileRepositoryVersion = FileRepositoryVersion::V2(TestRepositoryV2Repo);

#[test]
fn test_initialize_v1() {
    let mut dir = Dir::new("/tmp/repo");
    assert!(dir.run(File::initialize_v1("/tmp/repo")).is_ok());
    assert_eq!("1\n", &dir.file("format").unwrap());
    assert_eq!("0\n", &dir.file("next-stream").unwrap());
    assert!(dir.entries.contains_key(".testrepository"));
    // What was created can be opened
    assert!(dir.run(File::new("/tmp/repo")).is_ok());
}

#[test]
fn test_initialize() {
    let mut dir = Dir::new("/tmp/repo");
    assert!(dir.run(File::initialize_v2("/tmp/repo")).is_ok());
    assert_eq!("2\n", &dir.file("format").unwrap());
    assert_eq!("0\n", &dir.file("next-stream").unwrap());
    assert!(dir.entries.contains_key(".testrepository"));
    // What was created can be opened
    assert!(dir.run(File::new("/tmp/repo")).is_ok());
}

#[test]
fn test_already_inited() {
    let mut dir = Dir::new("/tmp/repo");
    assert!(dir.run(File::initialize_v2("/tmp/repo")).is_ok());
    let e = dir.run(File::initialize_v2("/tmp/repo")).unwrap_err();
    assert!(
        e.message().contains(".testrepository already exists"),
        "bad error {}",
        e.message()
    );
}

#[test]
fn names_and_contents_of_the_markers() {
    assert_eq!(REPO_DIR, ".testrepository");
    assert_eq!(FORMAT_FILE, "format");
    assert_eq!(NEXT_STREAM_FILE, "next-stream");
    assert_eq!(NO_RUNS, "0\n");
    assert_eq!(V1.format(), "1\n");
    assert_eq!(V2.format(), "2\n");
}

#[test]
fn initialize_asks_for_each_operation_in_turn() {
    for start in [File::initialize_v2("some/where"), File::new("some/where")] {
        assert_eq!(start.0.path, "some/where");
        assert!(matches!(start.1, Request::OpenDir { ref path } if path == "some/where"));
    }
    let (session, request) = File::initialize_v2("some/where");
    assert_eq!(session.path, "some/where");
    assert_eq!(session.stage, Stage::OpeningBase(Task::Initialize(V2)));
    assert!(matches!(request, Request::OpenDir { ref path } if path == "some/where"));

    let reading = *OpenOptions::default().read(true);
    let creating = *OpenOptions::default().create_new(true).write(WriteMode::Write);

    let Outcome::Next(session, request) = session.step(Ok(String::new())) else {
        panic!("session over after opening the base")
    };
    assert_eq!(session.stage, Stage::Probing(V2));
    assert!(matches!(request, Request::OpenDirAt { name: ".testrepository", options } if options == reading));

    let Outcome::Next(session, request) = session.step(failed(ErrorKind::NotFound)) else {
        panic!("session over after the probe")
    };
    assert_eq!(session.stage, Stage::MakingRoot(V2));
    assert!(matches!(request, Request::MkdirAt { name: ".testrepository", options }
        if options == OpenOptions::default()));

    let Outcome::Next(session, request) = session.step(Ok(String::new())) else {
        panic!("session over after making the directory")
    };
    assert_eq!(session.stage, Stage::WritingFormat(V2));
    assert!(matches!(request, Request::Write { name: "format", options, content: "2\n" }
        if options == creating));

    let Outcome::Next(session, request) = session.step(Ok(String::new())) else {
        panic!("session over after writing the format")
    };
    assert_eq!(session.stage, Stage::WritingCounter(V2));
    assert!(matches!(request, Request::Write { name: "next-stream", options, content: "0\n" }
        if options == creating));

    let Outcome::Next(session, request) = session.step(Ok(String::new())) else {
        panic!("session over after writing the counter")
    };
    assert_eq!(session.stage, Stage::ReadingFormat(Task::Initialize(V2)));
    assert!(matches!(request, Request::Read { name: "format", options } if options == reading));

    let Outcome::Next(session, request) = session.step(Ok("2\n".to_string())) else {
        panic!("session over after reading the format")
    };
    assert_eq!(session.stage, Stage::ProbingCounter(Task::Initialize(V2), V2));
    assert!(matches!(request, Request::Probe { name: "next-stream", options } if options == reading));

    let Outcome::Next(session, request) = session.step(Ok(String::new())) else {
        panic!("session over after probing the counter")
    };
    assert_eq!(session.stage, Stage::Canonicalizing(V2));
    assert!(matches!(request, Request::Canonicalize { ref path } if path == "some/where"));

    let Outcome::Done(Ok(file)) = session.step(Ok("/some/where".to_string())) else {
        panic!("no handle at the end")
    };
    assert_eq!(file, File { engine: V2, path: "/some/where".to_string() });
}

#[test]
fn open_asks_for_each_operation_in_turn() {
    let reading = *OpenOptions::default().read(true);
    let (session, request) = File::new("rel");
    assert_eq!(session.stage, Stage::OpeningBase(Task::Open));
    assert!(matches!(request, Request::OpenDir { ref path } if path == "rel"));
    let Outcome::Next(session, request) = session.step(Ok(String::new())) else { panic!("over") };
    assert_eq!(session.stage, Stage::OpeningRoot(Task::Open));
    assert!(matches!(request, Request::OpenDirAt { name: ".testrepository", options }
        if options == reading));
    let Outcome::Next(session, request) = session.step(Ok(String::new())) else { panic!("over") };
    assert_eq!(session.stage, Stage::ReadingFormat(Task::Open));
    assert!(matches!(request, Request::Read { name: "format", options } if options == reading));
    let Outcome::Next(session, request) = session.step(Ok("1\n".to_string())) else {
        panic!("over")
    };
    assert_eq!(session.stage, Stage::ProbingCounter(Task::Open, V1));
    assert!(matches!(request, Request::Probe { name: "next-stream", options }
        if options == reading));
    let Outcome::Next(session, request) = session.step(Ok(String::new())) else { panic!("over") };
    assert_eq!(session.stage, Stage::Canonicalizing(V1));
    assert!(matches!(request, Request::Canonicalize { ref path } if path == "rel"));
    let Outcome::Done(Ok(file)) = session.step(Ok("/r".to_string())) else { panic!("not over") };
    // The handle carries the canonical spelling, not the path as given.
    assert_eq!(file, File { engine: V1, path: "/r".to_string() });
}

#[test]
fn open_binds_the_canonical_location() {
    let mut dir = Dir::new("/r");
    dir.spellings = vec!["rel".to_string(), "/r/.".to_string(), "/x/../r".to_string()];
    dir.put("format", "1\n");
    dir.put("next-stream", "12\n");
    for spelling in ["/r", "rel", "/r/.", "/x/../r"] {
        dir.requests = 0;
        let file = dir.run(File::new(spelling)).unwrap();
        assert_eq!(dir.requests, 5);
        assert_eq!(file, File { engine: V1, path: "/r".to_string() });
        assert_eq!(dir.count(&file).unwrap(), 12);
        assert_eq!(file.latest_id(&Ok("12\n".to_string())).unwrap(), Some(11));
    }
    // A path that leads elsewhere opens nothing.
    let e = dir.run(File::new("/s")).unwrap_err();
    assert!(matches!(e, Error::Io { failure: IoError { kind: ErrorKind::NotFound, .. }, .. }));
}

#[test]
fn location_through_a_link_opens_once_resolved() {
    let mut dir = Dir::new("/r");
    dir.links = vec!["/link".to_string()];
    dir.put("format", "2\n");
    dir.put("next-stream", "0\n");
    // Opened as it is spelled, the path is refused for the link it ends in.
    let e = dir.run(File::new("/link")).unwrap_err();
    assert!(matches!(e, Error::Io { failure: IoError { kind: ErrorKind::Other, .. }, .. }));
    // Resolved first, it opens, and the path is not resolved a second time.
    dir.requests = 0;
    let file = dir.run(File::resolve("/link")).unwrap();
    assert_eq!(dir.requests, 5);
    assert_eq!(file, File { engine: V2, path: "/r".to_string() });
    let (session, _) = File::resolve("/link");
    let Outcome::Next(session, request) = session.step(Ok("/r".to_string())) else {
        panic!("over")
    };
    assert_eq!(session.path, "/r");
    assert_eq!(session.stage, Stage::OpeningBase(Task::OpenResolved));
    assert!(matches!(request, Request::OpenDir { ref path } if path == "/r"));
    let session = Session { path: "/r".to_string(), stage: Stage::ProbingCounter(Task::OpenResolved, V2) };
    let Outcome::Done(Ok(file)) = session.step(Ok(String::new())) else { panic!("not over") };
    assert_eq!(file, File { engine: V2, path: "/r".to_string() });
}

#[test]
fn initialized_repository_is_empty() {
    for engine in [V1, V2] {
        let mut dir = Dir::new("/r");
        let start = match engine {
            FileRepositoryVersion::V1(_) => File::initialize_v1("/r"),
            FileRepositoryVersion::V2(_) => File::initialize_v2("/r"),
        };
        let file = dir.run(start).unwrap();
        assert_eq!(file.engine, engine);
        assert_eq!(file.path, "/r");
        assert_eq!(dir.count(&file).unwrap(), 0);
        let event = dir.perform(&file.count_request());
        assert_eq!(file.latest_id(&event).unwrap(), None);
    }
}

#[test]
fn initialize_on_existing_fails_for_either_generation() {
    for first in [V1, V2] {
        let mut dir = Dir::new("/r");
        let made = match first {
            FileRepositoryVersion::V1(_) => dir.run(File::initialize_v1("/r")).unwrap(),
            FileRepositoryVersion::V2(_) => dir.run(File::initialize_v2("/r")).unwrap(),
        };
        let before = dir.entries.clone();
        let e = dir.run(File::initialize_v1("/r")).unwrap_err();
        assert!(matches!(e, Error::AlreadyExists { ref location } if location == "/r"));
        let e = dir.run(File::initialize_v2("/r")).unwrap_err();
        assert!(matches!(e, Error::AlreadyExists { ref location } if location == "/r"));
        assert_eq!(e.message(), ".testrepository already exists at '/r'");
        assert_eq!(dir.entries, before);
        // The first handle still reports count 0.
        assert_eq!(dir.count(&made).unwrap(), 0);
    }
}

#[test]
fn open_without_repository_is_not_found() {
    let mut dir = Dir::new("/r");
    let e = dir.run(File::new("/r")).unwrap_err();
    assert!(matches!(e, Error::NotFound { ref location } if location == "/r"));
    assert_eq!(e.message(), "No repository found at '/r'");
    assert_eq!(dir.requests, 2);
}

#[test]
fn open_without_base_passes_the_failure_on() {
    let mut dir = Dir::new("/r");
    dir.present = false;
    let e = dir.run(File::new("/r")).unwrap_err();
    assert!(matches!(e, Error::Io { failure: IoError { kind: ErrorKind::NotFound, .. }, .. }));
    assert_eq!(e.message(), "NotFound at '/r'");
    let e = dir.run(File::initialize_v2("/r")).unwrap_err();
    assert!(matches!(e, Error::Io { failure: IoError { kind: ErrorKind::NotFound, .. }, .. }));
    let e = dir.run(File::resolve("/r")).unwrap_err();
    assert!(matches!(e, Error::Io { failure: IoError { kind: ErrorKind::NotFound, .. }, .. }));
}

#[test]
fn open_with_other_failure_on_root_passes_it_on() {
    let (session, _) = File::new("/r");
    let Outcome::Next(session, _) = session.step(Ok(String::new())) else { panic!("over") };
    assert_eq!(session.stage, Stage::OpeningRoot(Task::Open));
    let denied = IoError { kind: ErrorKind::PermissionDenied, message: "denied".to_string() };
    let Outcome::Done(Err(e)) = session.step(Err(denied)) else { panic!("not over") };
    assert!(matches!(e, Error::Io {
        ref location,
        failure: IoError { kind: ErrorKind::PermissionDenied, ref message },
    } if location == "/r" && message == "denied"));
    assert_eq!(e.message(), "denied at '/r'");
}

#[test]
fn overwritten_format_is_unknown() {
    let mut dir = Dir::new("/r");
    dir.run(File::initialize_v2("/r")).unwrap();
    dir.put("format", "x\n");
    let e = dir.run(File::new("/r")).unwrap_err();
    assert!(matches!(e, Error::UnknownFormat { ref location, ref content }
        if location == "/r" && content == "x\n"));
    assert!(e.message().contains("x\n"));
    assert_eq!(e.message(), "Unknown repository format at '/r': x\n");
}

#[test]
fn format_is_accepted_letter_for_letter() {
    for content in ["", "1", "2", "1\n\n", " 1\n", "1\r\n", "3\n", "12\n", "\n", "2\n "] {
        let r = File::validate_format("/r", Ok(content.to_string()));
        assert!(
            matches!(r, Err(Error::UnknownFormat { content: ref c, .. }) if c == content),
            "{:?}",
            content
        );
    }
    assert_eq!(File::validate_format("/r", Ok("1\n".to_string())).unwrap(), V1);
    assert_eq!(File::validate_format("/r", Ok("2\n".to_string())).unwrap(), V2);
}

#[test]
fn missing_format_is_unknown_without_content() {
    let mut dir = Dir::new("/r");
    dir.entries.insert(REPO_DIR.to_string(), HashMap::new());
    dir.put("next-stream", "0\n");
    let e = dir.run(File::new("/r")).unwrap_err();
    assert!(matches!(e, Error::UnknownFormat { ref location, ref content }
        if location == "/r" && content.is_empty()));
    let r = File::validate_format("/r", failed(ErrorKind::PermissionDenied));
    assert!(matches!(r, Err(Error::Io { failure: IoError { kind: ErrorKind::PermissionDenied, .. }, .. })));
}

#[test]
fn missing_counter_passes_the_failure_on() {
    let mut dir = Dir::new("/r");
    dir.put("format", "2\n");
    let e = dir.run(File::new("/r")).unwrap_err();
    assert!(matches!(e, Error::Io { failure: IoError { kind: ErrorKind::NotFound, .. }, .. }));
    let file = File { engine: V2, path: "/r".to_string() };
    let e = dir.count(&file).unwrap_err();
    assert!(matches!(e, Error::Io { failure: IoError { kind: ErrorKind::NotFound, .. }, .. }));
}

#[test]
fn marker_in_the_way_is_already_exists() {
    // The directory can be made, but a marker is there before it is written.
    for stage in [Stage::MakingRoot(V2), Stage::WritingFormat(V2), Stage::WritingCounter(V1)] {
        let session = Session { path: "/r".to_string(), stage };
        let Outcome::Done(Err(e)) = session.step(failed(ErrorKind::AlreadyExists)) else {
            panic!("not over")
        };
        assert!(matches!(e, Error::AlreadyExists { ref location } if location == "/r"));
        let session = Session { path: "/r".to_string(), stage };
        let Outcome::Done(Err(e)) = session.step(failed(ErrorKind::PermissionDenied)) else {
            panic!("not over")
        };
        assert!(matches!(e, Error::Io { failure: IoError { kind: ErrorKind::PermissionDenied, .. }, .. }));
    }
}

#[test]
fn generation_is_what_the_marker_says() {
    // Another writer got its marker in first: the handle is bound to it.
    let session = Session { path: "/r".to_string(), stage: Stage::ReadingFormat(Task::Initialize(V2)) };
    let Outcome::Next(session, _) = session.step(Ok("1\n".to_string())) else { panic!("over") };
    let Outcome::Next(session, _) = session.step(Ok(String::new())) else { panic!("over") };
    let Outcome::Done(Ok(file)) = session.step(Ok("/r".to_string())) else { panic!("not over") };
    assert_eq!(file.engine, V1);
}

#[test]
fn reopen_keeps_the_generation() {
    for engine in [V1, V2] {
        let mut dir = Dir::new("/canonical");
        dir.spellings = vec!["given".to_string(), "../canonical".to_string()];
        dir.links = vec!["elsewhere".to_string()];
        let start = match engine {
            FileRepositoryVersion::V1(_) => File::initialize_v1("given"),
            FileRepositoryVersion::V2(_) => File::initialize_v2("given"),
        };
        let made = dir.run(start).unwrap();
        assert_eq!(made.path, "/canonical");
        for spelling in ["/canonical", "given", "../canonical"] {
            let again = dir.run(File::new(spelling)).unwrap();
            assert_eq!(made, again);
        }
        for location in ["/canonical", "given", "elsewhere"] {
            let resolved = dir.run(File::resolve(location)).unwrap();
            assert_eq!(made, resolved);
        }
    }
}

#[test]
fn failures_name_the_location_at_every_stage() {
    let stages = [
        Stage::Resolving,
        Stage::OpeningBase(Task::Open),
        Stage::OpeningBase(Task::Initialize(V1)),
        Stage::OpeningRoot(Task::Open),
        Stage::MakingRoot(V2),
        Stage::WritingFormat(V2),
        Stage::WritingCounter(V2),
        Stage::ReadingFormat(Task::OpenResolved),
        Stage::ProbingCounter(Task::Open, V1),
        Stage::Canonicalizing(V1),
    ];
    for stage in stages {
        let session = Session { path: "/here".to_string(), stage };
        let Outcome::Done(Err(e)) = session.step(failed(ErrorKind::PermissionDenied)) else {
            panic!("{:?} goes on after a failure", stage)
        };
        assert!(matches!(e, Error::Io { ref location, failure: IoError { ref message, .. } }
            if location == "/here" && message == "PermissionDenied"), "{:?}", stage);
        assert_eq!(e.message(), "PermissionDenied at '/here'");
    }
}

#[test]
fn backends_are_equal_by_generation() {
    assert_eq!(V1, V1);
    assert_eq!(V2, V2);
    assert_ne!(V1, V2);
    let a = File { engine: V1, path: "/r".to_string() };
    let b = File { engine: V2, path: "/r".to_string() };
    let c = File { engine: V1, path: "/s".to_string() };
    assert_ne!(a, b);
    assert_ne!(a, c);
    assert_eq!(a, File { engine: V1, path: "/r".to_string() });
}

#[test]
fn count_reads_the_counter() {
    assert_eq!(count("/r", &Ok("0\n".to_string())).unwrap(), 0);
    assert_eq!(count("/r", &Ok("41\n".to_string())).unwrap(), 41);
    let e = count("/r", &Ok("many\n".to_string())).unwrap_err();
    assert!(matches!(e, Error::InvalidCounter { ref location, ref content }
        if location == "/r" && content == "many\n"));
    assert_eq!(e.message(), "Invalid run counter at '/r': many\n");
    let e = count("/r", &failed(ErrorKind::Other)).unwrap_err();
    assert!(matches!(e, Error::Io { ref location, failure: IoError { kind: ErrorKind::Other, .. } }
        if location == "/r"));
    let seven: Event = Ok("7\n".to_string());
    let bad: Event = Ok("x".to_string());
    for engine in [V1, V2] {
        let reading = Reading { location: "/r", next_stream: &seven };
        assert_eq!(engine.count(&reading).unwrap(), 7);
        assert_eq!(engine.latest_id(&reading).unwrap(), Some(6));
        let reading = Reading { location: "/s", next_stream: &bad };
        assert!(matches!(engine.count(&reading), Err(Error::InvalidCounter { ref location, .. })
            if location == "/s"));
    }
    let reading = Reading { location: "/r", next_stream: &seven };
    assert_eq!(TestRepositoryV1Repo.count(&reading).unwrap(), 7);
    assert_eq!(TestRepositoryV2Repo.count(&reading).unwrap(), 7);
    let file = File { engine: V2, path: "/here".to_string() };
    assert!(matches!(file.count(&bad), Err(Error::InvalidCounter { ref location, ref content })
        if location == "/here" && content == "x"));
}
