//! The public contract for repositories.

use vstd::prelude::*;

use crate::error::{result_view, ErrorView, Result};

verus! {

/// The id of the latest of `count` runs: ids count up from zero, so there is
/// none where there is no run, and else it is `count - 1`.
pub open spec fn latest_id_of(count: nat) -> Option<nat> {
    if count == 0 {
        None
    } else {
        Some((count - 1) as nat)
    }
}

/// The id of the latest run of a repository, from the outcome of counting
/// its runs: a count gives [`latest_id_of`], and a failure to count stays
/// that failure.
pub open spec fn latest_of(counted: std::result::Result<usize, ErrorView>) -> std::result::Result<
    Option<usize>,
    ErrorView,
> {
    match counted {
        Ok(count) => if count == 0 {
            Ok(None)
        } else {
            Ok(Some((count - 1) as usize))
        },
        Err(error) => Err(error),
    }
}

/// A repository containing test results.
///
/// A repository reads nothing by itself. It is counted in a source `S` that
/// the caller brings: a store for a repository in memory, the content read
/// from the run counter for one on disk.
pub trait Repository<S> {
    /// The number of test runs that this repository has stored, going by
    /// `source`.
    spec fn counted_in(&self, source: &S) -> std::result::Result<usize, ErrorView>;

    /// Get the number of test runs this repository has stored.
    fn count(&self, source: &S) -> (r: Result<usize>)
        ensures
            result_view(r) == self.counted_in(source),
    ;

    /// Get the id of the latest test run, if any.
    fn latest_id(&self, source: &S) -> (r: Result<Option<usize>>)
        ensures
            result_view(r) == latest_of(self.counted_in(source)),
    {
        match self.count(source) {
            Ok(count) => {
                if count == 0 {
                    Ok(None)
                } else {
                    Ok(Some(count - 1))
                }
            },
            Err(error) => Err(error),
        }
    }
}

/// The latest id is what the count says it is: absent at count zero, and
/// else the count less one. It fails where counting fails, and only there.
pub proof fn law_latest_id(counted: std::result::Result<usize, ErrorView>)
    ensures
        match counted {
            Ok(count) => latest_of(counted) == Ok::<Option<usize>, ErrorView>(
                match latest_id_of(count as nat) {
                    Some(id) => Some(id as usize),
                    None => None,
                },
            ),
            Err(error) => latest_of(counted) == Err::<Option<usize>, ErrorView>(error),
        },
{
}

} // verus!
