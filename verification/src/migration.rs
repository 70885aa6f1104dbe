//! Schema migrations of the local metadata store.
use vstd::prelude::*;

verus! {

/// Information about the current migration state.
#[derive(Debug, Clone, Copy, PartialEq, Eq, Structural)]
pub struct Migrations {
    /// The current migration version applied to the database.
    pub current: u32,
    /// The total number of migrations available.
    pub total: u32,
}

/// The versions of `versions` newer than `current`, in order.
pub open spec fn pending(versions: Seq<u32>, current: u32) -> Seq<u32>
    decreases versions.len(),
{
    if versions.len() == 0 {
        Seq::empty()
    } else if versions.last() > current {
        pending(versions.drop_last(), current).push(versions.last())
    } else {
        pending(versions.drop_last(), current)
    }
}

impl Migrations {
    /// The migration state for a database at version `current` (0 when no
    /// migration ran yet), given the versions of all migrations in order:
    /// the total is the version of the last migration, or 0 when there is none.
    pub fn from_versions(current: u32, versions: &Vec<u32>) -> (r: Self)
        ensures
            r.current == current,
            r.total == (if versions@.len() == 0 {
                0
            } else {
                versions@.last()
            }),
    {
        let total = if versions.len() == 0 {
            0
        } else {
            versions[versions.len() - 1]
        };
        Migrations { current, total }
    }

    /// The migrations to run on a database at version `current`: each one whose
    /// version is newer, in order. Running them brings the database up to date.
    pub fn pending(versions: &Vec<u32>, current: u32) -> (r: Vec<u32>)
        ensures
            r@ == pending(versions@, current),
    {
        let mut out: Vec<u32> = Vec::new();
        let mut i: usize = 0;
        while i < versions.len()
            invariant
                i <= versions.len(),
                out@ == pending(versions@.take(i as int), current),
            decreases versions.len() - i,
        {
            assert(versions@.take(i + 1).drop_last() =~= versions@.take(i as int));
            if versions[i] > current {
                out.push(versions[i]);
            }
            i = i + 1;
        }
        assert(versions@.take(versions.len() as int) =~= versions@);
        out
    }
}

} // verus!

verus! {

/// Once the migrations of an ascending list have run, the database stands at
/// the last version and nothing is pending any more.
pub proof fn lemma_nothing_pending_after_last(versions: Seq<u32>)
    requires
        versions.len() > 0,
        forall|i: int, j: int| 0 <= i < j < versions.len() ==> versions[i] < versions[j],
    ensures
        pending(versions, versions.last()).len() == 0,
{
    lemma_pending_none_above(versions, versions.last());
}

/// No version of `versions` is newer than `current`: nothing is pending.
proof fn lemma_pending_none_above(versions: Seq<u32>, current: u32)
    requires
        forall|i: int| 0 <= i < versions.len() ==> versions[i] <= current,
    ensures
        pending(versions, current).len() == 0,
    decreases versions.len(),
{
    if versions.len() > 0 {
        lemma_pending_none_above(versions.drop_last(), current);
    }
}

/// On a fresh database (version 0) every migration with a positive version is pending.
pub proof fn lemma_fresh_database_runs_all(versions: Seq<u32>)
    requires
        forall|i: int| 0 <= i < versions.len() ==> versions[i] > 0,
    ensures
        pending(versions, 0) == versions,
    decreases versions.len(),
{
    if versions.len() > 0 {
        lemma_fresh_database_runs_all(versions.drop_last());
        assert(versions.drop_last().push(versions.last()) =~= versions);
    }
}

} // verus!
