//! Read-mostly rule engine: an immutable point-in-time ruleset snapshot and
//! an engine that holds the current snapshot behind an atomically-swappable
//! reference, so any number of readers query without blocking while a
//! writer installs a whole replacement snapshot in one indivisible step.

use vstd::prelude::*;

use std::sync::Arc;

verus! {

/// An immutable point-in-time ruleset: the set of subject identifiers that
/// are currently allowed. Its view is that set of subjects, as sequences of
/// characters, with no implied ordering.
#[derive(Clone, Debug)]
pub struct RulesetSnapshot {
    allowed_subjects: Vec<String>,
}

impl View for RulesetSnapshot {
    type V = Set<Seq<char>>;

    closed spec fn view(&self) -> Set<Seq<char>> {
        self.allowed_subjects.deep_view().to_set()
    }
}

impl Default for RulesetSnapshot {
    /// The empty ruleset: every subject is denied.
    fn default() -> (s: Self)
        ensures
            s@ == Set::<Seq<char>>::empty(),
    {
        let s = RulesetSnapshot { allowed_subjects: Vec::new() };
        proof {
            assert(s@ =~= Set::<Seq<char>>::empty());
        }
        s
    }
}

impl RulesetSnapshot {
    /// Builds a snapshot allowing exactly the given subjects.
    pub fn from_subjects(subjects: Vec<String>) -> (s: Self)
        ensures
            s@ == subjects.deep_view().to_set(),
    {
        RulesetSnapshot { allowed_subjects: subjects }
    }

    /// Whether this snapshot allows the subject. A subject that was never
    /// granted simply evaluates to denied; no error path exists.
    pub fn allows(&self, subject: &str) -> (r: bool)
        ensures
            r == self@.contains(subject@),
    {
        let subject_owned: String = subject.to_owned();
        let n = self.allowed_subjects.len();
        let mut i: usize = 0;
        while i < n
            invariant
                n == self.allowed_subjects@.len(),
                i <= n,
                subject_owned@ == subject@,
                forall|j: int| 0 <= j < i ==> self.allowed_subjects.deep_view()[j] != subject@,
            decreases n - i,
        {
            if self.allowed_subjects[i] == subject_owned {
                proof {
                    assert(self.allowed_subjects.deep_view()[i as int] == subject@);
                    assert(self.allowed_subjects.deep_view().contains(subject@));
                }
                return true;
            }
            i += 1;
        }
        proof {
            assert(!self.allowed_subjects.deep_view().contains(subject@));
        }
        false
    }

    /// The allowed subjects, one owned string per subject, in no
    /// meaningful order.
    pub fn subjects(&self) -> (v: Vec<String>)
        ensures
            v.deep_view().to_set() == self@,
    {
        self.allowed_subjects.clone()
    }
}

/// Membership after a whole-ruleset replacement: a snapshot built from a
/// collection of subjects allows a query exactly when the query occurs in
/// that collection; every other subject, including every subject before any
/// replacement, is denied.
pub proof fn lemma_replace_membership(subjects: Seq<Seq<char>>, query: Seq<char>)
    ensures
        subjects.to_set().contains(query) <==> subjects.contains(query),
        !Set::<Seq<char>>::empty().contains(query),
{
}

/// Shared, atomically-swappable handle to the current snapshot. Hides an
/// arc_swap::ArcSwap cell, whose strategy type parameter the verifier
/// cannot name; the cell's one value is reached only through the trusted
/// functions below, and clones of the handle share the same cell.
#[verifier::external_body]
struct SnapshotCell {
    cell: Arc<arc_swap::ArcSwap<RulesetSnapshot>>,
}

impl Clone for SnapshotCell {
    /// Relies on std::sync::Arc::clone: the clone is a second handle to the
    /// very same cell, so loads and stores through either handle meet.
    #[verifier::external_body]
    fn clone(&self) -> Self {
        SnapshotCell { cell: Arc::clone(&self.cell) }
    }
}

/// Relies on arc_swap::ArcSwapAny::from_pointee: builds an
/// atomically-swappable cell initially holding exactly the given snapshot.
#[verifier::external_body]
fn snapshot_cell_new(snapshot: RulesetSnapshot) -> SnapshotCell {
    SnapshotCell { cell: Arc::new(arc_swap::ArcSwap::from_pointee(snapshot)) }
}

/// Relies on arc_swap::ArcSwapAny::load_full: atomically loads the snapshot
/// the cell currently holds — always one whole, fully-constructed snapshot,
/// never a mix of two; a concurrent store yields either the snapshot from
/// before it or the one it installed. Which snapshot comes back depends on
/// what other threads have stored, so nothing more is promised of it.
#[verifier::external_body]
fn snapshot_cell_load(cell: &SnapshotCell) -> RulesetSnapshot {
    (*cell.cell.load_full()).clone()
}

/// Relies on arc_swap::ArcSwapAny::store: atomically installs the snapshot
/// as the cell's current value in one indivisible step, without blocking
/// concurrent loads; the replaced snapshot is reclaimed once its last
/// reader drops it.
#[verifier::external_body]
fn snapshot_cell_store(cell: &SnapshotCell, snapshot: RulesetSnapshot) {
    cell.cell.store(Arc::new(snapshot));
}

/// Holds the currently-active ruleset snapshot behind an atomic indirection:
/// readers load the current snapshot without blocking while a writer
/// installs a whole replacement. Clones share the same current snapshot.
///
/// Which snapshot a load observes is decided by the interleaving of
/// concurrent stores, so the engine's own methods promise nothing about the
/// loaded value; [`RulesetSnapshot::allows`] pins down what a query answers
/// for whichever snapshot was observed.
#[derive(Clone)]
pub struct RcuRuleEngine {
    current: SnapshotCell,
}

impl Default for RcuRuleEngine {
    /// An engine whose active snapshot is the empty ruleset, denying every
    /// subject until the first replacement.
    fn default() -> Self {
        RcuRuleEngine { current: snapshot_cell_new(RulesetSnapshot::default()) }
    }
}

impl RcuRuleEngine {
    /// The currently-active snapshot, loaded atomically: an inspection hook
    /// for callers that read-modify-write the whole subject collection.
    pub fn current_snapshot(&self) -> RulesetSnapshot {
        snapshot_cell_load(&self.current)
    }

    /// Whether the currently-active snapshot allows the subject. Answers
    /// from one whole snapshot — the one active when the query loaded it —
    /// and never blocks on a concurrent replacement.
    pub fn allows(&self, subject: &str) -> bool {
        let snapshot = self.current_snapshot();
        snapshot.allows(subject)
    }

    /// Builds a brand-new snapshot allowing exactly `subjects` and installs
    /// it as current in one atomic step. Queries that already loaded the old
    /// snapshot finish against it; queries starting afterwards see the new
    /// one.
    pub fn replace_ruleset(&self, subjects: Vec<String>) {
        let next = RulesetSnapshot::from_subjects(subjects);
        snapshot_cell_store(&self.current, next);
    }
}

} // verus!
