//! The counting protocol by which the handles of one resource decide who
//! frees it.
//!
//! The underlying resource has one free operation and counts nothing itself.
//! Its side record carries a counter that starts at one. Making a handle adds
//! one; releasing a handle takes one away, and the handle that saw the counter
//! at one frees the resource. This module holds the decision each release
//! takes, a model of all the handles of one resource, and the proof that the
//! resource is freed exactly once, by the last release.

use vstd::prelude::*;

verus! {

/// What a handle does after it took itself off the counter.
#[derive(Clone, Copy, Debug, PartialEq, Eq, Structural)]
pub enum ReleaseAction {
    /// Other handles remain: nothing is freed.
    Retain,
    /// This was the last handle: the side record and the underlying resource
    /// are destroyed, in this order, after an acquire fence.
    Destroy,
    /// The counter was at zero already. No handle can have seen this: the
    /// caller's bookkeeping is broken, and it must not go on.
    Underflow,
}

/// The decision of a release that saw the counter at `previous`.
pub open spec fn spec_release_action(previous: nat) -> ReleaseAction {
    if previous == 0 {
        ReleaseAction::Underflow
    } else if previous == 1 {
        ReleaseAction::Destroy
    } else {
        ReleaseAction::Retain
    }
}

/// The decision of a release whose decrement found `previous` in the
/// counter.
pub open spec fn action_after(previous: usize) -> ReleaseAction {
    spec_release_action(previous as nat)
}

/// The decision of a release that saw the counter at `previous`, that is,
/// before it took its one away.
pub fn release_action(previous: usize) -> (action: ReleaseAction)
    ensures
        action == spec_release_action(previous as nat),
{
    if previous == 0 {
        ReleaseAction::Underflow
    } else if previous == 1 {
        ReleaseAction::Destroy
    } else {
        ReleaseAction::Retain
    }
}

/// One thing that a handle does to the counter. Handles are told apart by a
/// number; which thread holds a handle plays no part, since each operation
/// touches the counter in one atomic step.
pub enum Operation {
    /// The handle `source` is duplicated, which makes the handle `copy`.
    Duplicate { source: nat, copy: nat },
    /// The handle `handle` is released.
    Release { handle: nat },
}

/// All the handles of one resource at one moment.
#[verifier::ext_equal]
pub struct Ledger {
    /// What the counter of the side record holds.
    pub counter: nat,
    /// The handles that exist.
    pub handles: Set<nat>,
    /// How often the resource has been freed.
    pub frees: nat,
}

impl Ledger {
    /// The moment a builder is finalized: one handle, the counter at one.
    pub open spec fn finalized() -> Ledger {
        Ledger { counter: 1, handles: set![0nat], frees: 0 }
    }

    /// Whether `operation` can happen: only a handle that exists can be
    /// duplicated or released, and a new handle is not one that exists.
    pub open spec fn permits(self, operation: Operation) -> bool {
        match operation {
            Operation::Duplicate { source, copy } => self.handles.contains(source)
                && !self.handles.contains(copy),
            Operation::Release { handle } => self.handles.contains(handle),
        }
    }

    /// The ledger after `operation`. A release frees the resource when
    /// [`spec_release_action`] says so for the counter it found.
    pub open spec fn apply(self, operation: Operation) -> Ledger {
        match operation {
            Operation::Duplicate { source, copy } => Ledger {
                counter: self.counter + 1,
                handles: self.handles.insert(copy),
                frees: self.frees,
            },
            Operation::Release { handle } => Ledger {
                counter: if self.counter > 0 {
                    (self.counter - 1) as nat
                } else {
                    0
                },
                handles: self.handles.remove(handle),
                frees: if spec_release_action(self.counter) == ReleaseAction::Destroy {
                    self.frees + 1
                } else {
                    self.frees
                },
            },
        }
    }

    /// Whether `operations` can happen one after the other, starting here.
    pub open spec fn permits_all(self, operations: Seq<Operation>) -> bool
        decreases operations.len(),
    {
        if operations.len() == 0 {
            true
        } else {
            self.permits(operations[0]) && self.apply(operations[0]).permits_all(
                operations.drop_first(),
            )
        }
    }

    /// The ledger after `operations` happened one after the other.
    pub open spec fn run(self, operations: Seq<Operation>) -> Ledger
        decreases operations.len(),
    {
        if operations.len() == 0 {
            self
        } else {
            self.apply(operations[0]).run(operations.drop_first())
        }
    }

    /// The counter holds the number of handles, and the resource has been
    /// freed once if no handle is left and not at all otherwise.
    pub open spec fn consistent(self) -> bool {
        &&& self.handles.finite()
        &&& self.counter == self.handles.len()
        &&& self.frees == (if self.handles.len() == 0 {
            1nat
        } else {
            0nat
        })
    }
}

/// One permitted operation keeps a consistent ledger consistent, and a
/// release never finds the counter at zero.
pub proof fn lemma_apply_consistent(ledger: Ledger, operation: Operation)
    requires
        ledger.consistent(),
        ledger.permits(operation),
    ensures
        ledger.apply(operation).consistent(),
        operation is Release ==> spec_release_action(ledger.counter) != ReleaseAction::Underflow,
        operation is Release ==> (spec_release_action(ledger.counter) == ReleaseAction::Destroy
            <==> ledger.apply(operation).handles.is_empty()),
{
    match operation {
        Operation::Duplicate { source, copy } => {
            assert(ledger.handles.len() > 0);
        },
        Operation::Release { handle } => {
            assert(ledger.handles.len() > 0);
            let after = ledger.handles.remove(handle);
            assert(after.len() == ledger.handles.len() - 1);
            if after.len() == 0 {
                assert(after.is_empty()) by {
                    after.lemma_len0_is_empty();
                }
            }
        },
    }
}

/// Permitted operations keep a consistent ledger consistent.
pub proof fn lemma_run_consistent(ledger: Ledger, operations: Seq<Operation>)
    requires
        ledger.consistent(),
        ledger.permits_all(operations),
    ensures
        ledger.run(operations).consistent(),
    decreases operations.len(),
{
    if operations.len() > 0 {
        lemma_apply_consistent(ledger, operations[0]);
        lemma_run_consistent(ledger.apply(operations[0]), operations.drop_first());
    }
}

/// Running `operations` is running the first `k` of them and then the rest,
/// and what is permitted as a whole is permitted in both parts.
pub proof fn lemma_run_split(ledger: Ledger, operations: Seq<Operation>, k: int)
    requires
        0 <= k <= operations.len(),
    ensures
        ledger.run(operations) == ledger.run(operations.take(k)).run(operations.skip(k)),
        ledger.permits_all(operations) ==> ledger.permits_all(operations.take(k))
            && ledger.run(operations.take(k)).permits_all(operations.skip(k)),
    decreases k,
{
    if k == 0 {
        assert(operations.take(0) =~= Seq::<Operation>::empty());
        assert(operations.skip(0) =~= operations);
    } else {
        let rest = operations.drop_first();
        lemma_run_split(ledger.apply(operations[0]), rest, k - 1);
        assert(operations.take(k).drop_first() =~= rest.take(k - 1));
        assert(operations.skip(k) =~= rest.skip(k - 1));
        assert(operations.take(k)[0] == operations[0]);
    }
}

/// The resource is freed exactly once, and only after the last release.
///
/// Take any operations that the handles of one resource can perform from the
/// moment the builder is finalized, in any order, and look at the ledger
/// after the first `k` of them. The counter holds the number of handles. The
/// resource has been freed at most once. It has been freed if and only if no
/// handle is left. And once it has been freed nothing more happens: the free
/// belongs to the last operation, which is the release of the last handle.
pub proof fn lemma_freed_exactly_once(operations: Seq<Operation>, k: int)
    requires
        Ledger::finalized().permits_all(operations),
        0 <= k <= operations.len(),
    ensures
        ({
            let at = Ledger::finalized().run(operations.take(k));
            &&& at.counter == at.handles.len()
            &&& at.frees <= 1
            &&& (at.frees == 1 <==> at.handles.is_empty())
            &&& (at.frees == 1 ==> k == operations.len())
        }),
{
    let start = Ledger::finalized();
    assert(start.handles.len() == 1) by {
        assert(start.handles =~= Set::<nat>::empty().insert(0nat));
    }
    lemma_run_split(start, operations, k);
    lemma_run_consistent(start, operations.take(k));
    let at = start.run(operations.take(k));
    if at.handles.len() == 0 {
        at.handles.lemma_len0_is_empty();
        if k < operations.len() {
            // Something would follow, but it needs a handle and none is left.
            assert(at.permits(operations.skip(k)[0]));
        }
    }
}

/// A handle that was duplicated can be released without the resource being
/// freed: the copy still holds it.
pub proof fn lemma_copy_outlives_source(ledger: Ledger, source: nat, copy: nat)
    requires
        ledger.consistent(),
        ledger.permits(Operation::Duplicate { source, copy }),
    ensures
        ({
            let duplicated = ledger.apply(Operation::Duplicate { source, copy });
            let released = duplicated.apply(Operation::Release { handle: source });
            &&& duplicated.permits(Operation::Release { handle: source })
            &&& spec_release_action(duplicated.counter) == ReleaseAction::Retain
            &&& released.frees == 0
            &&& released.handles.contains(copy)
            &&& released.consistent()
        }),
{
    let duplicated = ledger.apply(Operation::Duplicate { source, copy });
    lemma_apply_consistent(ledger, Operation::Duplicate { source, copy });
    lemma_apply_consistent(duplicated, Operation::Release { handle: source });
    assert(ledger.handles.len() > 0);
}

} // verus!
