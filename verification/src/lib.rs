//! Storage of test results.
//!
//! A repository stores and indexes the results of test runs. The
//! [`repository::Repository`] trait is the contract that every backend meets.
//!
//! The [`file`] module keeps a repository in a directory on disk, in one of
//! two generations of layout. The [`memory`] module keeps repositories in a
//! store in process memory, for tests and small workloads. Repositories are
//! identified by their URL: [`implementations`] finds the backend of a
//! location, and [`location`] the directory that a file URL names.
//!
//! Nothing in this crate touches the filesystem. What has to be read or
//! written is asked for as an [`io::Request`], one at a time, and the caller
//! answers with an [`io::Event`]. The [`disk`] module states what the
//! sessions of the file backend achieve on a directory that answers as a
//! directory should.

pub mod counter;
pub mod disk;
pub mod error;
pub mod file;
pub mod implementations;
pub mod io;
pub mod location;
pub mod memory;
pub mod repository;
pub mod text;
