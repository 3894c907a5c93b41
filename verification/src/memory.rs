//! In memory repository primarily for testing.
//!
//! A [`MemoryStore`] is a table of named run lists that the caller makes and
//! keeps. A [`Memory`] handle is bound to one run list of one store: every
//! handle opened against a name is bound to the run list that the name had
//! when it was opened, so handles opened against the same name see the same
//! runs, whoever recorded them.

use vstd::prelude::*;
use vstd::string::*;

use crate::error::{result_view, Error, ErrorView, Result};
use crate::repository::{latest_of, Repository};
use crate::text::same_text;

verus! {

/// One repository's runs.
#[derive(Debug)]
struct MemoryState {
    runs: Vec<()>,
}

/// Process memory backed store for memory repositories.
///
/// Run lists are never dropped: initializing a name again binds the name to
/// a new, empty run list, and the handles opened before stay bound to the
/// old one.
#[derive(Debug)]
pub struct MemoryStore {
    /// Every run list ever made, under the name it was made for. The last
    /// one made for a name is the one that the name is bound to.
    repos: Vec<(String, MemoryState)>,
}

/// The table that a list of named entries stands for: each name is bound to
/// the place of the last entry that carries it.
spec fn table<T>(entries: Seq<(String, T)>) -> Map<Seq<char>, nat>
    decreases entries.len(),
{
    if entries.len() == 0 {
        Map::empty()
    } else {
        table(entries.drop_last()).insert(entries.last().0@, (entries.len() - 1) as nat)
    }
}

impl MemoryStore {
    /// The run list that each initialized name is bound to, as an index
    /// into [`MemoryStore::cells`].
    pub closed spec fn repos(&self) -> Map<Seq<char>, nat> {
        table(self.repos@)
    }

    /// The number of runs in each run list that the store has ever made.
    pub closed spec fn cells(&self) -> Seq<nat> {
        Seq::new(self.repos@.len(), |i: int| self.repos@[i].1.runs@.len())
    }

    /// The name that each run list was made for, run list by run list.
    pub closed spec fn names(&self) -> Seq<Seq<char>> {
        Seq::new(self.repos@.len(), |i: int| self.repos@[i].0@)
    }

    /// What opening `path` in this store gives: the handle bound to the
    /// run list of that name, where the name was initialized.
    pub open spec fn opened(&self, path: Seq<char>) -> std::result::Result<MemoryView, ErrorView> {
        if self.repos().contains_key(path) {
            Ok(MemoryView { cell: self.repos()[path], path })
        } else {
            Err(ErrorView::NameNotInitialized { name: path })
        }
    }

    /// Whether this store has the run list that `handle` is bound to: one
    /// at the handle's place, made for the handle's name.
    pub open spec fn holds(&self, handle: MemoryView) -> bool {
        &&& handle.cell < self.cells().len()
        &&& handle.cell < self.names().len()
        &&& self.names()[handle.cell as int] == handle.path
    }

    /// The count of the run list that `handle` is bound to, where this
    /// store has that run list. A store that has none at the handle's
    /// place, or one that was made for another name, is not the store that
    /// the handle was opened in, and knows no repository of its name.
    pub open spec fn counted(&self, handle: MemoryView) -> std::result::Result<usize, ErrorView> {
        if self.holds(handle) {
            Ok(self.cells()[handle.cell as int] as usize)
        } else {
            Err(ErrorView::NameNotInitialized { name: handle.path })
        }
    }

    /// Whether this store is `before` after `name` was initialized in it:
    /// the name is bound to a new run list without runs, every other name
    /// is bound as it was, and no run list has changed.
    pub open spec fn initialized_from(&self, before: &MemoryStore, name: Seq<char>) -> bool {
        &&& self.repos() == before.repos().insert(name, before.cells().len())
        &&& self.cells() == before.cells().push(0)
        &&& self.names() == before.names().push(name)
    }

    /// Create a new memory repository in the store.
    pub fn initialize(&mut self, name: &str)
        ensures
            final(self).initialized_from(old(self), name@),
    {
        self.repos.push((String::from_str(name), MemoryState { runs: Vec::new() }));
        proof {
            assert(self.repos@.drop_last() =~= old(self).repos@);
            assert(self.cells() =~= old(self).cells().push(0));
            assert(self.names() =~= old(self).names().push(name@));
        }
    }
}

impl Default for MemoryStore {
    /// The store without names and without run lists.
    fn default() -> (store: Self)
        ensures
            store.repos() == Map::<Seq<char>, nat>::empty(),
            store.cells() == Seq::<nat>::empty(),
            store.names() == Seq::<Seq<char>>::empty(),
    {
        let store = MemoryStore { repos: Vec::new() };
        proof {
            assert(store.cells() =~= Seq::<nat>::empty());
            assert(store.names() =~= Seq::<Seq<char>>::empty());
        }
        store
    }
}

/// In memory repository primarily for testing. A handle is bound to one run
/// list of the store that it was opened in, and is counted in that store.
#[derive(Debug)]
pub struct Memory {
    cell: usize,
    path: String,
}

/// The mathematical value of a [`Memory`] handle.
pub struct MemoryView {
    /// The run list that the handle is bound to: an index into
    /// [`MemoryStore::cells`].
    pub cell: nat,
    /// The name that the handle was opened against.
    pub path: Seq<char>,
}

impl View for Memory {
    type V = MemoryView;

    closed spec fn view(&self) -> MemoryView {
        MemoryView { cell: self.cell as nat, path: self.path@ }
    }
}

impl Memory {
    /// Create a new handle on the repository that `store` holds under
    /// `path`. A name that was never initialized is refused: nothing is
    /// created by opening.
    pub fn new(path: &str, store: &MemoryStore) -> (r: Result<Self>)
        ensures
            result_view(r) == store.opened(path@),
            r is Ok ==> store.holds(r->Ok_0@),
    {
        let mut i: usize = store.repos.len();
        assert(store.repos@.take(i as int) =~= store.repos@);
        while i > 0
            invariant
                i <= store.repos@.len(),
                table(store.repos@).contains_key(path@) == table(
                    store.repos@.take(i as int),
                ).contains_key(path@),
                table(store.repos@).contains_key(path@) ==> table(store.repos@)[path@] == table(
                    store.repos@.take(i as int),
                )[path@],
            decreases i,
        {
            i -= 1;
            proof {
                let shorter = store.repos@.take(i + 1);
                assert(shorter.drop_last() =~= store.repos@.take(i as int));
                assert(shorter.last() == store.repos@[i as int]);
            }
            if same_text(store.repos[i].0.as_str(), path) {
                return Ok(Memory { cell: i, path: String::from_str(path) });
            }
        }
        Err(Error::NameNotInitialized { name: String::from_str(path) })
    }

    /// The name that the handle was opened against.
    pub fn path(&self) -> (path: &str)
        ensures
            path@ == self@.path,
    {
        self.path.as_str()
    }
}

impl Repository<MemoryStore> for Memory {
    open spec fn counted_in(&self, source: &MemoryStore) -> std::result::Result<usize, ErrorView> {
        source.counted(self@)
    }

    /// The number of runs in the run list that this handle is bound to. A
    /// store without a run list at the handle's place, or with one there
    /// that was made for another name, is not the one that the handle was
    /// opened in: it knows no repository of the handle's name.
    fn count(&self, source: &MemoryStore) -> (r: Result<usize>) {
        if self.cell < source.repos.len() && same_text(
            source.repos[self.cell].0.as_str(),
            self.path.as_str(),
        ) {
            Ok(source.repos[self.cell].1.runs.len())
        } else {
            Err(Error::NameNotInitialized { name: self.path.clone() })
        }
    }
}

/// Every name of a store is bound to a run list that the store has, and
/// that was made for this name.
pub proof fn lemma_bound_to_cell(store: MemoryStore, name: Seq<char>)
    requires
        store.repos().contains_key(name),
    ensures
        store.holds(MemoryView { cell: store.repos()[name], path: name }),
{
    lemma_table_in_range(store.repos@, name);
}

proof fn lemma_table_in_range<T>(entries: Seq<(String, T)>, name: Seq<char>)
    requires
        table(entries).contains_key(name),
    ensures
        table(entries)[name] < entries.len(),
        entries[table(entries)[name] as int].0@ == name,
    decreases entries.len(),
{
    if entries.len() > 0 && entries.last().0@ != name {
        lemma_table_in_range(entries.drop_last(), name);
    }
}

/// A repository in memory that was just initialized opens and has no runs:
/// its count is zero and it has no latest id.
pub proof fn law_initialized_is_empty(before: MemoryStore, after: MemoryStore, name: Seq<char>)
    requires
        after.initialized_from(&before, name),
    ensures
        after.opened(name) matches Ok(handle) && after.counted(handle) == Ok::<usize, ErrorView>(0)
            && latest_of(after.counted(handle)) == Ok::<Option<usize>, ErrorView>(None),
{
}

/// Handles opened against the same name, while the name stays bound as it
/// is, are bound to one run list: in every state of the store, and so
/// whatever any of them has recorded since, they count the same runs. And
/// in the store that a handle was opened in, it can be counted.
pub proof fn law_handles_share(
    first: MemoryStore,
    second: MemoryStore,
    later: MemoryStore,
    name: Seq<char>,
)
    requires
        first.repos().contains_key(name),
        second.repos().contains_key(name),
        first.repos()[name] == second.repos()[name],
    ensures
        first.opened(name) matches Ok(one) && second.opened(name) matches Ok(other)
            && later.counted(one) == later.counted(other) && first.counted(one) is Ok,
{
    lemma_bound_to_cell(first, name);
}

/// A handle is counted only in a store that has its run list under its
/// name: a store that only ever knew other names refuses it.
pub proof fn law_stranger_store_refuses(store: MemoryStore, handle: MemoryView)
    requires
        forall|i: int| 0 <= i < store.names().len() ==> store.names()[i] != handle.path,
    ensures
        store.counted(handle) == Err::<usize, ErrorView>(
            ErrorView::NameNotInitialized { name: handle.path },
        ),
{
}

/// Opening a name that was not initialized fails, and says so.
pub proof fn law_uninitialized_fails(store: MemoryStore, name: Seq<char>)
    requires
        !store.repos().contains_key(name),
    ensures
        store.opened(name) == Err::<MemoryView, ErrorView>(
            ErrorView::NameNotInitialized { name },
        ),
{
}

} // verus!
