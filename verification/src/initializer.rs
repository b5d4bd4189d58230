//! Connection initializers, and the combinator that runs several of them to
//! one completion.
//!
//! An initializer is a hook that prepares a new connection before its
//! handshake begins. It either finishes at once or leaves a task behind that
//! has to be advanced until it completes. Where several initializers are
//! registered, their tasks are advanced side by side: all must complete, and
//! the first failure wins.

use crate::error::Error;
use vstd::prelude::*;

verus! {

/// What advancing a task once, or a set of tasks once each, reports.
#[derive(Clone, Copy, Debug, PartialEq, Eq, Structural)]
pub enum Progress {
    /// The work is done and succeeded.
    Complete,
    /// The work is not done: it has to be advanced again later. When that
    /// is, the caller decides.
    Pending,
    /// The work is done and failed.
    Failed { error: Error },
}

/// A task that an initializer left behind. `C` is the connection it works
/// on.
pub trait ConnectionFuture<C>: 'static + Send + Sync {
    /// Advances the task once. After it has reported that it completed or
    /// failed it is not advanced again.
    fn poll(&mut self, connection: &mut C) -> Progress;
}

impl<C: 'static, F: ConnectionFuture<C> + ?Sized> ConnectionFuture<C> for Box<F> {
    /// Advances the task in the box once, on this connection, and reports what it reports.
    fn poll(&mut self, connection: &mut C) -> (progress: Progress)
        ensures
            exists|task: &mut F, conn: &mut C|
                &*task == &**old(self) && &*final(task) == &**final(self) && *conn == *old(
                    connection,
                ) && *final(conn) == *final(connection) && call_ensures(
                    F::poll,
                    (task, conn),
                    progress,
                ),
    {
        let task: &mut F = &mut **self;
        task.poll(connection)
    }
}

/// What an initializer answers: an error, nothing more to do, or a task.
pub type ConnectionFutureResult<C> = Result<Option<Box<dyn ConnectionFuture<C>>>, Error>;

/// A hook that runs before a new connection negotiates TLS, to configure that
/// one connection.
///
/// The handshake does not begin until the task that the hook leaves behind
/// has completed.
pub trait ConnectionInitializer<C>: 'static + Send + Sync {
    /// Answers `Ok(None)` when the connection is ready at once, and
    /// `Ok(Some(task))` when a task has to complete first.
    fn initialize_connection(&self, connection: &mut C) -> ConnectionFutureResult<C>;
}

/// Whether slot `i` was advanced in the pass that `reports` records, and its
/// task failed. `reports` holds for each slot what advancing its task
/// reported, and `None` for a slot that was retired before.
pub open spec fn fails(reports: Seq<Option<Progress>>, i: int) -> bool {
    0 <= i < reports.len() && reports[i] is Some && reports[i]->Some_0 is Failed
}

/// Whether slot `i` is the first one whose task failed.
pub open spec fn first_failure(reports: Seq<Option<Progress>>, i: int) -> bool {
    fails(reports, i) && forall|j: int| 0 <= j < i ==> !fails(reports, j)
}

/// Whether the task of slot `i` is still to be advanced.
pub open spec fn waits(reports: Seq<Option<Progress>>, i: int) -> bool {
    0 <= i < reports.len() && reports[i] == Some(Progress::Pending)
}

/// A pass in which no task failed: the slots whose task is pending stay, all
/// others are retired, and the pass is pending if any slot stays.
pub open spec fn clean_pass(
    reports: Seq<Option<Progress>>,
    remaining: Seq<bool>,
    progress: Progress,
) -> bool {
    &&& remaining.len() == reports.len()
    &&& forall|j: int| !fails(reports, j)
    &&& forall|j: int| 0 <= j < reports.len() ==> remaining[j] == waits(reports, j)
    &&& progress == (if exists|j: int| waits(reports, j) {
        Progress::Pending
    } else {
        Progress::Complete
    })
}

/// A pass that ended at slot `i`, the first whose task failed: the pass
/// reports that failure; the slots before `i` whose task completed are
/// retired; slot `i` and those after it, which were not advanced at all, are
/// as they were.
pub open spec fn failed_pass(
    reports: Seq<Option<Progress>>,
    remaining: Seq<bool>,
    progress: Progress,
    i: int,
) -> bool {
    &&& remaining.len() == reports.len()
    &&& first_failure(reports, i)
    &&& progress == reports[i]->Some_0
    &&& forall|j: int|
        0 <= j < reports.len() ==> remaining[j] == (reports[j] is Some && !(j < i && reports[j]
            == Some(Progress::Complete)))
}

/// What one pass over the slots does. `reports` holds for each slot what
/// advancing its task would report, and `None` for a slot that is retired;
/// `remaining` tells of each slot whether it holds a task after the pass, and
/// `progress` is what the pass reports.
///
/// The slots are taken in order. A task that completes is retired, a task
/// that is pending stays, and the first task that fails ends the pass at
/// once: the tasks after it are not advanced.
pub open spec fn is_pass(reports: Seq<Option<Progress>>, remaining: Seq<bool>, progress: Progress) -> bool {
    clean_pass(reports, remaining, progress) || exists|i: int|
        failed_pass(reports, remaining, progress, i)
}

/// One pass over slots of which it is known what advancing each would
/// report: the slots that hold a task afterwards, and what the pass reports.
pub fn evaluate_pass(reports: &[Option<Progress>]) -> (outcome: (Vec<bool>, Progress))
    ensures
        is_pass(reports@, outcome.0@, outcome.1),
{
    let n = reports.len();
    let mut remaining: Vec<bool> = Vec::new();
    let mut pending = false;
    let mut i: usize = 0;
    while i < n
        invariant
            n == reports.len(),
            i <= n,
            remaining@.len() == i,
            forall|j: int| 0 <= j < i ==> !fails(reports@, j),
            forall|j: int| 0 <= j < i ==> remaining@[j] == waits(reports@, j),
            pending <==> exists|j: int| 0 <= j < i && waits(reports@, j),
        decreases n - i,
    {
        match reports[i] {
            Some(Progress::Failed { error }) => {
                // The slots from here on keep their tasks.
                let mut k: usize = i;
                while k < n
                    invariant
                        n == reports.len(),
                        i <= k <= n,
                        remaining@.len() == k,
                        reports@[i as int] == Some(Progress::Failed { error }),
                        forall|j: int| 0 <= j < i ==> !fails(reports@, j),
                        forall|j: int| 0 <= j < i ==> remaining@[j] == waits(reports@, j),
                        forall|j: int| i <= j < k ==> remaining@[j] == (reports@[j] is Some),
                    decreases n - k,
                {
                    remaining.push(reports[k].is_some());
                    k += 1;
                }
                proof {
                    assert(first_failure(reports@, i as int));
                    assert forall|j: int| 0 <= j < reports@.len() implies remaining@[j] == (
                    reports@[j] is Some && !(j < i && reports@[j] == Some(Progress::Complete))) by {
                        if j < i {
                            assert(!fails(reports@, j));
                            assert(remaining@[j] == waits(reports@, j));
                        }
                    }
                    assert(failed_pass(reports@, remaining@, Progress::Failed { error }, i as int));
                }
                return (remaining, Progress::Failed { error });
            },
            Some(Progress::Pending) => {
                assert(waits(reports@, i as int));
                pending = true;
                remaining.push(true);
            },
            Some(Progress::Complete) => {
                remaining.push(false);
            },
            None => {
                remaining.push(false);
            },
        }
        i += 1;
    }
    let progress = if pending {
        Progress::Pending
    } else {
        Progress::Complete
    };
    proof {
        assert(clean_pass(reports@, remaining@, progress));
    }
    (remaining, progress)
}

/// What a pass does is settled by what the tasks report: two passes over the
/// same reports leave the same slots and report the same.
pub proof fn lemma_pass_is_determined(
    reports: Seq<Option<Progress>>,
    remaining: Seq<bool>,
    progress: Progress,
    other_remaining: Seq<bool>,
    other_progress: Progress,
)
    requires
        is_pass(reports, remaining, progress),
        is_pass(reports, other_remaining, other_progress),
    ensures
        remaining == other_remaining,
        progress == other_progress,
{
    if clean_pass(reports, remaining, progress) {
        if !clean_pass(reports, other_remaining, other_progress) {
            let i = choose|i: int| failed_pass(reports, other_remaining, other_progress, i);
            assert(fails(reports, i));
        }
        assert(remaining =~= other_remaining);
    } else {
        let i = choose|i: int| failed_pass(reports, remaining, progress, i);
        assert(fails(reports, i));
        let k = choose|k: int| failed_pass(reports, other_remaining, other_progress, k);
        if i < k {
            assert(!fails(reports, i));
        }
        if k < i {
            assert(!fails(reports, k));
        }
        assert(remaining =~= other_remaining);
    }
}

/// All must complete, and the first failure wins.
///
/// A pass reports a failure exactly when some task that it advances fails,
/// and then it is the failure of the first such task; the slots from that one
/// on are left as they were. Without a failure, the pass is complete exactly
/// when no task is pending, and then no slot holds a task any more. In every
/// case a slot that was retired stays retired, and a slot whose task is
/// pending keeps it.
pub proof fn lemma_pass_outcome(
    reports: Seq<Option<Progress>>,
    remaining: Seq<bool>,
    progress: Progress,
)
    requires
        is_pass(reports, remaining, progress),
    ensures
        remaining.len() == reports.len(),
        forall|j: int| 0 <= j < reports.len() && remaining[j] ==> reports[j] is Some,
        forall|j: int| waits(reports, j) ==> remaining[j],
        progress is Failed <==> exists|i: int| fails(reports, i),
        forall|i: int| first_failure(reports, i) ==> progress == reports[i]->Some_0 && forall|j: int|
            i <= j < reports.len() ==> remaining[j] == (reports[j] is Some),
        progress is Complete <==> forall|j: int| 0 <= j < reports.len() && reports[j] is Some
            ==> reports[j] == Some(Progress::Complete),
        progress is Complete ==> forall|j: int| 0 <= j < reports.len() ==> !remaining[j],
        progress is Pending ==> exists|j: int| waits(reports, j) && remaining[j],
{
    if clean_pass(reports, remaining, progress) {
        assert forall|i: int| first_failure(reports, i) implies false by {
            assert(fails(reports, i));
        }
        if progress is Complete {
            assert forall|j: int| 0 <= j < reports.len() && reports[j] is Some implies reports[j]
                == Some(Progress::Complete) by {
                assert(!fails(reports, j));
                assert(!waits(reports, j));
            }
        } else {
            let j = choose|j: int| waits(reports, j);
            assert(waits(reports, j) && remaining[j]);
        }
    } else {
        let i = choose|i: int| failed_pass(reports, remaining, progress, i);
        assert(fails(reports, i));
        assert forall|k: int| first_failure(reports, k) implies progress == reports[k]->Some_0
            && forall|j: int| k <= j < reports.len() ==> remaining[j] == (reports[j] is Some) by {
            if k < i {
                assert(!fails(reports, k));
            }
            if i < k {
                assert(!fails(reports, i));
            }
        }
    }
}

/// Several tasks run side by side to one completion.
///
/// The combinator has a fixed number of slots. A slot holds a task until the
/// task completes; then it is retired, and it never holds a task again. The
/// slots are advanced in the order in which the tasks were registered.
///
/// There is no cancellation. After a failure the tasks that have not
/// completed are abandoned: they stay in their slots and are never advanced
/// again, whatever the caller does, and the combinator goes on reporting that
/// failure. The caller has to make sure that nothing depends on their running
/// on.
pub struct ConcurrentConnectionFuture<F> {
    slots: Vec<Option<F>>,
    abandoned: Option<Error>,
}

/// Whether the pass that `reports` records advances the task of slot `i`:
/// the slot holds a task, and no task before it fails.
pub open spec fn advances(reports: Seq<Option<Progress>>, i: int) -> bool {
    0 <= i < reports.len() && reports[i] is Some && forall|j: int| 0 <= j < i ==> !fails(reports, j)
}

/// The failure that a pass reporting `progress` leaves behind.
pub open spec fn failure_of(progress: Progress) -> Option<Error> {
    match progress {
        Progress::Failed { error } => Some(error),
        _ => None,
    }
}

/// Whether `reports` can be what advancing the tasks of the slots `active`
/// reports: a report for each slot that holds a task, and for no other.
pub open spec fn reports_of(reports: Seq<Option<Progress>>, active: Seq<bool>) -> bool {
    &&& reports.len() == active.len()
    &&& forall|i: int| 0 <= i < active.len() ==> (reports[i] is Some <==> active[i])
}

impl<F> ConcurrentConnectionFuture<F> {
    /// The slots, in order: the task of each, or `None` where it is retired.
    pub closed spec fn tasks(&self) -> Seq<Option<F>> {
        self.slots@
    }

    /// Of each slot, whether it holds a task.
    pub open spec fn active(&self) -> Seq<bool> {
        Seq::new(self.tasks().len(), |i: int| self.tasks()[i] is Some)
    }

    /// The failure on which the tasks were abandoned, if one of them failed.
    pub closed spec fn failure(&self) -> Option<Error> {
        self.abandoned
    }

    /// A combinator of `futures`, one slot each, in this order.
    pub fn new(futures: Vec<F>) -> (combinator: Self)
        ensures
            combinator.tasks().len() == futures@.len(),
            forall|i: int| 0 <= i < futures@.len() ==> combinator.tasks()[i] == Some(futures@[i]),
            combinator.failure() is None,
    {
        let mut futures = futures;
        let ghost all = futures@;
        let mut reversed: Vec<F> = Vec::new();
        while futures.len() > 0
            invariant
                futures@.len() + reversed@.len() == all.len(),
                forall|i: int| 0 <= i < futures@.len() ==> futures@[i] == all[i],
                forall|i: int| 0 <= i < reversed@.len() ==> reversed@[i] == all[all.len() - 1 - i],
            decreases futures@.len(),
        {
            match futures.pop() {
                Some(future) => {
                    reversed.push(future);
                },
                None => {},
            }
        }
        let mut slots: Vec<Option<F>> = Vec::new();
        while reversed.len() > 0
            invariant
                reversed@.len() + slots@.len() == all.len(),
                forall|i: int| 0 <= i < reversed@.len() ==> reversed@[i] == all[all.len() - 1 - i],
                forall|i: int| 0 <= i < slots@.len() ==> slots@[i] == Some(all[i]),
            decreases reversed@.len(),
        {
            match reversed.pop() {
                Some(future) => {
                    slots.push(Some(future));
                },
                None => {},
            }
        }
        ConcurrentConnectionFuture { slots, abandoned: None }
    }

    /// A combinator of what initializers answered, one slot each, in this
    /// order. The slot of an initializer that left a task holds that task;
    /// the slot of one that was ready at once is retired from the start.
    pub fn from_results(results: Vec<Option<F>>) -> (combinator: Self)
        ensures
            combinator.tasks() == results@,
            combinator.failure() is None,
    {
        ConcurrentConnectionFuture { slots: results, abandoned: None }
    }

    /// The failure on which the tasks were abandoned, if one of them failed.
    pub fn abandoned_on(&self) -> (failure: Option<Error>)
        ensures
            failure == self.failure(),
    {
        self.abandoned
    }

    /// How many slots there are.
    pub fn slot_count(&self) -> (count: usize)
        ensures
            count == self.tasks().len(),
    {
        self.slots.len()
    }

    /// Whether slot `index` holds a task. A slot that does not exist holds
    /// none.
    pub fn holds_task(&self, index: usize) -> (held: bool)
        ensures
            held == (index < self.active().len() && self.active()[index as int]),
    {
        if index < self.slots.len() {
            self.slots[index].is_some()
        } else {
            false
        }
    }

    /// Whether every slot is retired.
    pub fn is_complete(&self) -> (complete: bool)
        ensures
            complete == (forall|i: int| 0 <= i < self.active().len() ==> !self.active()[i]),
    {
        let mut i: usize = 0;
        while i < self.slots.len()
            invariant
                i <= self.slots.len(),
                forall|j: int| 0 <= j < i ==> !self.active()[j],
            decreases self.slots.len() - i,
        {
            if self.slots[i].is_some() {
                assert(self.active()[i as int]);
                return false;
            }
            i += 1;
        }
        true
    }
}

impl<C: 'static, F: ConnectionFuture<C>> ConnectionFuture<C> for ConcurrentConnectionFuture<F> {
    /// One pass: every slot that holds a task has its task advanced once,
    /// in order, each on the connection as the one before left it.
    ///
    /// A task that completes is retired. The first task that fails ends the
    /// pass with its failure; the tasks after it are not advanced, and from
    /// then on no task is advanced ever again: every later pass reports the
    /// same failure and touches nothing. Otherwise the pass is pending if any
    /// task is, and complete if none is left.
    ///
    /// What the tasks report is theirs to decide. `reports` holds what each
    /// task that was advanced reported, and `states` the states that the
    /// connection went through; slots and result are those that [`is_pass`]
    /// gives for the reports.
    fn poll(&mut self, connection: &mut C) -> (progress: Progress)
        ensures
            final(self).tasks().len() == old(self).tasks().len(),
            forall|i: int|
                0 <= i < old(self).active().len() && final(self).active()[i] ==> old(
                    self,
                ).active()[i],
            old(self).failure() matches Some(error) ==> progress == (Progress::Failed { error })
                && final(self).tasks() == old(self).tasks() && final(self).failure() == old(
                self,
            ).failure() && *final(connection) == *old(connection),
            old(self).failure() is None ==> final(self).failure() == failure_of(progress),
            old(self).failure() is None && (forall|i: int|
                0 <= i < old(self).active().len() ==> !old(self).active()[i]) ==> progress
                == Progress::Complete,
            old(self).failure() is None ==> exists|reports: Seq<Option<Progress>>, states: Seq<C>|
                {
                    &&& reports_of(reports, old(self).active())
                    &&& is_pass(reports, final(self).active(), progress)
                    &&& states.len() == reports.len() + 1
                    &&& states[0] == *old(connection)
                    &&& states[reports.len() as int] == *final(connection)
                    &&& forall|i: int|
                        #![trigger reports[i]]
                        0 <= i < reports.len() ==> if advances(reports, i) {
                            exists|task: &mut F, conn: &mut C|
                                Some(*task) == old(self).tasks()[i] && *conn == states[i]
                                    && *final(conn) == states[i + 1] && call_ensures(
                                    F::poll,
                                    (task, conn),
                                    reports[i]->Some_0,
                                ) && (final(self).tasks()[i] matches Some(kept) ==> kept
                                    == *final(task))
                        } else {
                            states[i + 1] == states[i] && final(self).tasks()[i] == old(
                                self,
                            ).tasks()[i]
                        }
                },
    {
        match self.abandoned {
            Some(error) => {
                return Progress::Failed { error };
            },
            None => {},
        }
        let ghost initial = self.tasks();
        let ghost before = self.active();
        let ghost mut reports: Seq<Option<Progress>> = Seq::empty();
        let ghost mut states: Seq<C> = seq![*connection];
        let n = self.slots.len();
        let mut pending = false;
        let mut i: usize = 0;
        while i < n
            invariant
                n == self.slots.len(),
                self.abandoned is None,
                old(self).failure() is None,
                initial == old(self).tasks(),
                before == old(self).active(),
                n == before.len(),
                i <= n,
                reports.len() == i,
                states.len() == i + 1,
                states[0] == *old(connection),
                states[i as int] == *connection,
                forall|j: int| 0 <= j < i ==> (reports[j] is Some <==> before[j]),
                forall|j: int| 0 <= j < i ==> !fails(reports, j),
                forall|j: int| 0 <= j < i ==> self.active()[j] == waits(reports, j),
                forall|j: int| i <= j < n ==> self.tasks()[j] == initial[j],
                pending <==> exists|j: int| 0 <= j < i && waits(reports, j),
                forall|k: int|
                    #![trigger reports[k]]
                    0 <= k < i ==> if reports[k] is Some {
                        exists|task: &mut F, conn: &mut C|
                            Some(*task) == initial[k] && *conn == states[k] && *final(conn)
                                == states[k + 1] && call_ensures(
                                F::poll,
                                (task, conn),
                                reports[k]->Some_0,
                            ) && (self.tasks()[k] matches Some(kept) ==> kept == *final(task))
                    } else {
                        states[k + 1] == states[k] && self.tasks()[k] == initial[k]
                    },
            decreases n - i,
        {
            let ghost entering = self.tasks();
            let ghost reported = reports;
            let ghost passed = states;
            let slot = self.slots[i].take();
            let ghost mut report: Option<Progress> = None;
            match slot {
                Some(mut task) => {
                    assert(before[i as int]) by {
                        assert(entering[i as int] == initial[i as int]);
                    }
                    let ghost task_before = task;
                    let advanced = task.poll(connection);
                    let ghost task_after = task;
                    proof {
                        report = Some(advanced);
                        assert(exists|t: &mut F, c: &mut C|
                            Some(*t) == initial[i as int] && *c == passed[i as int] && *final(c)
                                == *connection && call_ensures(F::poll, (t, c), advanced)
                                && *final(t) == task_after);
                    }
                    match advanced {
                        Progress::Complete => {},
                        Progress::Pending => {
                            pending = true;
                            self.slots[i] = Some(task);
                        },
                        Progress::Failed { error } => {
                            self.slots[i] = Some(task);
                            self.abandoned = Some(error);
                            proof {
                                let rest = Seq::new(
                                    (n - i - 1) as nat,
                                    |k: int|
                                        if before[i + 1 + k] {
                                            Some(Progress::Pending)
                                        } else {
                                            None
                                        },
                                );
                                let all = reports.push(report) + rest;
                                let after = *connection;
                                let path = Seq::new((n + 1) as nat, |k: int| if k <= i {
                                    passed[k]
                                } else {
                                    after
                                });
                                assert forall|j: int| 0 <= j < i implies all[j] == reports[j] by {}
                                assert(all[i as int] == report);
                                assert forall|j: int| 0 <= j < i implies !fails(all, j) by {
                                    assert(!fails(reports, j));
                                }
                                assert(first_failure(all, i as int));
                                assert forall|j: int| 0 <= j < n implies self.active()[j] == (
                                all[j] is Some && !(j < i && all[j] == Some(Progress::Complete))) by {
                                    if j < i {
                                        assert(self.tasks()[j] == entering[j]);
                                        assert((entering[j] is Some) == waits(reports, j));
                                        assert(!fails(reports, j));
                                    } else if j > i {
                                        assert(all[j] == rest[j - i - 1]);
                                        assert(self.tasks()[j] == entering[j]);
                                        assert(entering[j] == initial[j]);
                                    }
                                }
                                assert(reports_of(all, before)) by {
                                    assert forall|j: int| 0 <= j < n implies (all[j] is Some
                                        <==> before[j]) by {
                                        if j > i {
                                            assert(all[j] == rest[j - i - 1]);
                                        }
                                    }
                                }
                                assert(failed_pass(all, self.active(), advanced, i as int));
                                assert(is_pass(all, self.active(), advanced));
                                assert forall|k: int|
                                    #![trigger all[k]]
                                    0 <= k < n implies if advances(all, k) {
                                    exists|t: &mut F, c: &mut C|
                                        Some(*t) == initial[k] && *c == path[k] && *final(c)
                                            == path[k + 1] && call_ensures(
                                            F::poll,
                                            (t, c),
                                            all[k]->Some_0,
                                        ) && (self.tasks()[k] matches Some(kept) ==> kept
                                            == *final(t))
                                } else {
                                    path[k + 1] == path[k] && self.tasks()[k] == initial[k]
                                } by {
                                    if k < i {
                                        assert(all[k] == reports[k]);
                                        assert(self.tasks()[k] == entering[k]);
                                        if reports[k] is Some {
                                            assert(advances(all, k));
                                        } else {
                                            assert(!advances(all, k));
                                        }
                                    } else if k == i {
                                        assert(advances(all, k));
                                    } else {
                                        assert(fails(all, i as int));
                                        assert(!advances(all, k));
                                        assert(self.tasks()[k] == entering[k]);
                                        assert(entering[k] == initial[k]);
                                    }
                                }
                                assert(path.len() == all.len() + 1);
                                assert(path[0] == *old(connection));
                                assert(path[all.len() as int] == *connection);
                            }
                            return Progress::Failed { error };
                        },
                    }
                },
                None => {},
            }
            proof {
                let extended = reports.push(report);
                states = states.push(*connection);
                assert forall|j: int| 0 <= j < i implies extended[j] == reports[j] by {}
                assert forall|j: int| 0 <= j < i + 1 implies !fails(extended, j) by {
                    if j < i {
                        assert(!fails(reports, j));
                    }
                }
                assert forall|j: int| 0 <= j < i + 1 implies self.active()[j] == waits(
                    extended,
                    j,
                ) by {
                    if j < i {
                        assert(self.tasks()[j] == entering[j]);
                        assert((entering[j] is Some) == waits(reports, j));
                    }
                }
                assert forall|j: int| i + 1 <= j < n implies self.tasks()[j] == initial[j] by {
                    assert(self.tasks()[j] == entering[j]);
                }
                if pending {
                    if waits(extended, i as int) {
                    } else {
                        let j = choose|j: int| 0 <= j < i && waits(reports, j);
                        assert(waits(extended, j));
                    }
                } else {
                    assert forall|j: int| 0 <= j < i + 1 implies !waits(extended, j) by {
                        if j < i {
                            assert(!waits(reports, j));
                        }
                    }
                }
                assert forall|k: int|
                    #![trigger extended[k]]
                    0 <= k < i + 1 implies if extended[k] is Some {
                    exists|t: &mut F, c: &mut C|
                        Some(*t) == initial[k] && *c == states[k] && *final(c) == states[k + 1]
                            && call_ensures(F::poll, (t, c), extended[k]->Some_0) && (
                        self.tasks()[k] matches Some(kept) ==> kept == *final(t))
                } else {
                    states[k + 1] == states[k] && self.tasks()[k] == initial[k]
                } by {
                    if k < i {
                        assert(extended[k] == reports[k]);
                        assert(states[k] == passed[k]);
                        assert(states[k + 1] == passed[k + 1]);
                        assert(self.tasks()[k] == entering[k]);
                    } else {
                        assert(states[k] == passed[k]);
                        assert(entering[k] == initial[k]);
                    }
                }
                reports = extended;
            }
            i += 1;
        }
        let progress = if pending {
            Progress::Pending
        } else {
            Progress::Complete
        };
        proof {
            assert(reports_of(reports, before));
            assert(clean_pass(reports, self.active(), progress));
            if pending {
                let j = choose|j: int| 0 <= j < i && waits(reports, j);
                assert(before[j]);
            }
            assert forall|k: int| #![trigger reports[k]] 0 <= k < n implies (advances(reports, k)
                <==> reports[k] is Some) by {
                if reports[k] is Some {
                    assert forall|j: int| 0 <= j < k implies !fails(reports, j) by {}
                }
            }
        }
        progress
    }
}

impl<C: 'static> ConcurrentConnectionFuture<Box<dyn ConnectionFuture<C>>> {
    /// Calls every one of `hooks` on `connection`, in order, and makes a
    /// combinator of what they answer, as [`Self::from_results`] does. The
    /// first hook that fails ends this with its error: the hooks after it
    /// are not called.
    ///
    /// Without hooks this succeeds. On success every slot holds what the hook
    /// of its place answered; on failure the error is that of a hook before
    /// which all hooks succeeded. Each hook finds the connection as the hook
    /// before it left it: `states` are the states that the connection goes
    /// through.
    pub fn from_hooks<I: ConnectionInitializer<C> + ?Sized>(
        hooks: &[&I],
        connection: &mut C,
    ) -> (combinator: Result<Self, Error>)
        ensures
            hooks@.len() == 0 ==> combinator is Ok,
            match combinator {
                Ok(c) => c.tasks().len() == hooks@.len() && exists|states: Seq<C>|
                    {
                        &&& states.len() == hooks@.len() + 1
                        &&& states[0] == *old(connection)
                        &&& states[hooks@.len() as int] == *final(connection)
                        &&& forall|i: int|
                            #![trigger hooks@[i]]
                            0 <= i < hooks@.len() ==> exists|conn: &mut C|
                                *conn == states[i] && *final(conn) == states[i + 1]
                                    && call_ensures(
                                    I::initialize_connection,
                                    (hooks@[i], conn),
                                    Ok(c.tasks()[i]),
                                )
                    },
                Err(error) => exists|
                    states: Seq<C>,
                    answers: Seq<Option<Box<dyn ConnectionFuture<C>>>>,
                    last: &mut C,
                |
                    {
                        &&& answers.len() < hooks@.len()
                        &&& states.len() == answers.len() + 1
                        &&& states[0] == *old(connection)
                        &&& forall|i: int|
                            #![trigger hooks@[i]]
                            0 <= i < answers.len() ==> exists|conn: &mut C|
                                *conn == states[i] && *final(conn) == states[i + 1]
                                    && call_ensures(
                                    I::initialize_connection,
                                    (hooks@[i], conn),
                                    Ok(answers[i]),
                                )
                        &&& *last == states[answers.len() as int]
                        &&& *final(last) == *final(connection)
                        &&& call_ensures(
                            I::initialize_connection,
                            (hooks@[answers.len() as int], last),
                            Err(error),
                        )
                    },
            },
    {
        let mut slots: Vec<Option<Box<dyn ConnectionFuture<C>>>> = Vec::new();
        let ghost mut states: Seq<C> = seq![*connection];
        let mut i: usize = 0;
        while i < hooks.len()
            invariant
                i <= hooks.len(),
                slots@.len() == i,
                states.len() == i + 1,
                states[0] == *old(connection),
                states[i as int] == *connection,
                forall|k: int|
                    #![trigger hooks@[k]]
                    0 <= k < i ==> exists|conn: &mut C|
                        *conn == states[k] && *final(conn) == states[k + 1] && call_ensures(
                            I::initialize_connection,
                            (hooks@[k], conn),
                            Ok(slots@[k]),
                        ),
            decreases hooks.len() - i,
        {
            let ghost before = states;
            let ghost held = slots@;
            match hooks[i].initialize_connection(connection) {
                Ok(slot) => {
                    slots.push(slot);
                    proof {
                        states = states.push(*connection);
                        assert forall|k: int|
                            #![trigger hooks@[k]]
                            0 <= k < i + 1 implies exists|conn: &mut C|
                            *conn == states[k] && *final(conn) == states[k + 1] && call_ensures(
                                I::initialize_connection,
                                (hooks@[k], conn),
                                Ok(slots@[k]),
                            ) by {
                            if k < i {
                                assert(states[k] == before[k]);
                                assert(states[k + 1] == before[k + 1]);
                                assert(slots@[k] == held[k]);
                            }
                        }
                    }
                },
                Err(error) => {
                    return Err(error);
                },
            }
            i += 1;
        }
        Ok(ConcurrentConnectionFuture::from_results(slots))
    }
}

/// The combinator `combinator` as a task like any other.
pub open spec fn as_task<C: 'static>(
    combinator: ConcurrentConnectionFuture<Box<dyn ConnectionFuture<C>>>,
) -> Box<dyn ConnectionFuture<C>> {
    Box::new(combinator)
}

/// Hands `combinator` out as a task like any other, to be waited for.
pub fn into_task<C: 'static>(
    combinator: ConcurrentConnectionFuture<Box<dyn ConnectionFuture<C>>>,
) -> (task: Option<Box<dyn ConnectionFuture<C>>>)
    ensures
        task == Some(as_task(combinator)),
{
    let combined: Box<dyn ConnectionFuture<C>> = Box::new(combinator);
    Some(combined)
}

/// Whether `joined` is what two initializers answered together, when `first`
/// and `second` is what each answered: nothing to wait for when both were
/// ready at once, the one task when only one of them left a task, and
/// otherwise the combinator of both tasks, the first one's first, with
/// neither of them advanced yet.
pub open spec fn is_join<C: 'static>(
    first: Option<Box<dyn ConnectionFuture<C>>>,
    second: Option<Box<dyn ConnectionFuture<C>>>,
    joined: Option<Box<dyn ConnectionFuture<C>>>,
) -> bool {
    &&& joined is None <==> first is None && second is None
    &&& second is None ==> joined == first
    &&& first is None ==> joined == second
    &&& first is Some && second is Some ==> exists|
        combinator: ConcurrentConnectionFuture<Box<dyn ConnectionFuture<C>>>,
    |
        combinator.tasks() == seq![first, second] && combinator.failure() is None && joined
            == Some(as_task(combinator))
}

/// What two initializers answered together: nothing to wait for when both
/// were ready at once, the one task when only one of them left a task, and
/// otherwise a combinator of both tasks, the first one's first.
pub fn join<C: 'static>(
    first: Option<Box<dyn ConnectionFuture<C>>>,
    second: Option<Box<dyn ConnectionFuture<C>>>,
) -> (joined: Option<Box<dyn ConnectionFuture<C>>>)
    ensures
        is_join(first, second, joined),
{
    if first.is_none() {
        second
    } else if second.is_none() {
        first
    } else {
        let mut slots: Vec<Option<Box<dyn ConnectionFuture<C>>>> = Vec::new();
        slots.push(first);
        slots.push(second);
        let combinator = ConcurrentConnectionFuture::from_results(slots);
        assert(combinator.tasks() == seq![first, second]);
        into_task(combinator)
    }
}

impl<C: 'static, A: ConnectionInitializer<C>, B: ConnectionInitializer<C>> ConnectionInitializer<
    C,
> for (A, B) {
    /// Calls the first initializer and then the second; if one fails, that
    /// is the answer, and a first that fails keeps the second from being
    /// called. What they answer is put together by [`join`].
    ///
    /// An error is the error of the first initializer, or that of the second
    /// after the first succeeded. A success is the [`is_join`] of what both
    /// answered. The second initializer finds the connection as the first
    /// one left it.
    fn initialize_connection(&self, connection: &mut C) -> (answer: ConnectionFutureResult<C>)
        ensures
            match answer {
                Err(error) => (exists|conn: &mut C|
                    *conn == *old(connection) && *final(conn) == *final(connection)
                        && call_ensures(
                        A::initialize_connection,
                        (&self.0, conn),
                        Err(error),
                    )) || (exists|
                    first: &mut C,
                    second: &mut C,
                    a: Option<Box<dyn ConnectionFuture<C>>>,
                |
                    *first == *old(connection) && *final(first) == *second && *final(second)
                        == *final(connection) && call_ensures(
                        A::initialize_connection,
                        (&self.0, first),
                        Ok(a),
                    ) && call_ensures(B::initialize_connection, (&self.1, second), Err(error))),
                Ok(joined) => exists|
                    first: &mut C,
                    second: &mut C,
                    a: Option<Box<dyn ConnectionFuture<C>>>,
                    b: Option<Box<dyn ConnectionFuture<C>>>,
                |
                    *first == *old(connection) && *final(first) == *second && *final(second)
                        == *final(connection) && call_ensures(
                        A::initialize_connection,
                        (&self.0, first),
                        Ok(a),
                    ) && call_ensures(B::initialize_connection, (&self.1, second), Ok(b))
                        && is_join(a, b, joined),
            },
    {
        let a = match self.0.initialize_connection(connection) {
            Ok(a) => a,
            Err(error) => {
                return Err(error);
            },
        };
        let b = match self.1.initialize_connection(connection) {
            Ok(b) => b,
            Err(error) => {
                return Err(error);
            },
        };
        Ok(join(a, b))
    }
}

} // verus!
