use vstd::prelude::*;

use tokio::sync::oneshot::error::TryRecvError;
use tokio::sync::oneshot::Receiver;
use tokio::task::JoinHandle;

verus! {

#[verifier::external_type_specification]
#[verifier::external_body]
#[verifier::reject_recursive_types(T)]
pub struct ExReceiver<T>(Receiver<T>);

#[verifier::external_type_specification]
#[verifier::external_body]
#[verifier::reject_recursive_types(T)]
pub struct ExJoinHandle<T>(JoinHandle<T>);

// The error types of the `Future` impls of `Receiver` and `JoinHandle`: Verus
// asks for them once those two types are declared, though nothing here uses
// them.
#[verifier::external_type_specification]
#[verifier::external_body]
pub struct ExRecvError(tokio::sync::oneshot::error::RecvError);

#[verifier::external_type_specification]
#[verifier::external_body]
pub struct ExJoinError(tokio::task::JoinError);

/// What one look into a single-use channel finds.
pub enum Received<T> {
    /// The value that was sent.
    Value(T),
    /// Nothing yet.
    Empty,
    /// The sender went away without sending.
    Closed,
}

/// Relies on tokio's `oneshot::Receiver::try_recv`: the sent value, `Empty`
/// while nothing was sent and the sender lives, which leaves the receiver as it
/// was, and `Closed` once the sender was dropped without a value.
#[verifier::external_body]
fn try_receive<T>(rx: &mut Receiver<T>) -> (r: Received<T>)
    ensures
        r is Empty ==> *final(rx) == *old(rx),
{
    match rx.try_recv() {
        Ok(v) => Received::Value(v),
        Err(TryRecvError::Empty) => Received::Empty,
        Err(TryRecvError::Closed) => Received::Closed,
    }
}

/// Relies on tokio's `JoinHandle::is_finished`: whether the task has ended.
#[verifier::external_body]
fn task_finished(handle: &JoinHandle<()>) -> (r: bool) {
    handle.is_finished()
}

/// What a poll of the pending slot reports.
pub enum Poll<T> {
    /// No operation is pending.
    Idle,
    /// The pending operation has not finished.
    Pending,
    /// The pending operation finished with this result; nothing is pending now.
    Ready(T),
    /// The pending operation ended without sending a result; nothing is
    /// pending now.
    Terminated,
}

/// The items whose flag is false, in order.
pub open spec fn spec_keep_unfinished<H>(items: Seq<H>, finished: Seq<bool>) -> Seq<H>
    decreases items.len(),
{
    if items.len() == 0 {
        Seq::empty()
    } else {
        let kept = spec_keep_unfinished(items.drop_last(), finished.take(items.len() - 1));
        if finished[items.len() - 1] {
            kept
        } else {
            kept.push(items.last())
        }
    }
}

/// What is kept is no longer than the items, and each of it is one of them.
pub proof fn lemma_keep_unfinished_within<H>(items: Seq<H>, finished: Seq<bool>)
    requires
        finished.len() == items.len(),
    ensures
        spec_keep_unfinished(items, finished).len() <= items.len(),
        forall|i: int|
            0 <= i < spec_keep_unfinished(items, finished).len() ==> items.contains(
                #[trigger] spec_keep_unfinished(items, finished)[i],
            ),
        items.len() == 0 ==> spec_keep_unfinished(items, finished).len() == 0,
    decreases items.len(),
{
    if items.len() > 0 {
        let rest = items.drop_last();
        let flags = finished.take(items.len() - 1);
        lemma_keep_unfinished_within(rest, flags);
        let kept = spec_keep_unfinished(rest, flags);
        assert forall|i: int|
            0 <= i < spec_keep_unfinished(items, finished).len() implies items.contains(
            #[trigger] spec_keep_unfinished(items, finished)[i],
        ) by {
            if i < kept.len() {
                assert(rest.contains(kept[i]));
                let j = choose|j: int| 0 <= j < rest.len() && rest[j] == kept[i];
                assert(items[j] == kept[i]);
            } else {
                assert(items[items.len() - 1] == items.last());
            }
        }
    }
}

/// Keeps, in order, the items whose flag in `finished` is false.
pub fn keep_unfinished<H>(items: Vec<H>, finished: &Vec<bool>) -> (r: Vec<H>)
    requires
        finished@.len() == items@.len(),
    ensures
        r@ == spec_keep_unfinished(items@, finished@),
{
    let ghost all = items@;
    let mut rest = items;
    let mut kept: Vec<H> = Vec::new();
    let mut i: usize = 0;
    while i < finished.len()
        invariant
            finished@.len() == all.len(),
            i <= all.len(),
            rest@ == all.skip(i as int),
            kept@ == spec_keep_unfinished(all.take(i as int), finished@.take(i as int)),
        decreases all.len() - i,
    {
        let item = rest.remove(0);
        proof {
            assert(item == all[i as int]);
            assert(rest@ =~= all.skip(i + 1));
            let next = all.take(i + 1);
            assert(next.drop_last() =~= all.take(i as int));
            assert(finished@.take(i + 1).take(i as int) =~= finished@.take(i as int));
            assert(next.last() == item);
        }
        if !finished[i] {
            kept.push(item);
        }
        i = i + 1;
    }
    assert(all.take(i as int) =~= all);
    assert(finished@.take(i as int) =~= finished@);
    kept
}

/// Hands the results of background operations to a thread that polls. It
/// keeps one pending slot, the receiver of the latest submission, and the
/// handles of the tasks it was told of, so that finished ones can be dropped.
#[verifier::reject_recursive_types(T)]
pub struct TaskBridge<T> {
    /// Receiver of the latest submission, until its outcome was seen.
    pub pipe: Option<Receiver<T>>,
    /// Handles of submitted tasks that had not finished at the last pruning.
    pub tasks: Vec<JoinHandle<()>>,
}

/// The pending slot after a submission with receiver `rx`.
pub open spec fn spec_after_submit<T>(old_pipe: Option<Receiver<T>>, rx: Receiver<T>) -> Option<
    Receiver<T>,
> {
    Some(rx)
}

/// The pending slot after a poll that reported `p`.
pub open spec fn spec_after_poll<T>(old_pipe: Option<Receiver<T>>, p: Poll<T>) -> Option<
    Receiver<T>,
> {
    match p {
        Poll::Pending => old_pipe,
        _ => None,
    }
}

impl<T> TaskBridge<T> {
    /// A bridge with nothing pending and no tasks.
    pub fn new() -> (r: TaskBridge<T>)
        ensures
            r.pipe is None,
            r.tasks@.len() == 0,
    {
        TaskBridge { pipe: None, tasks: Vec::new() }
    }

    /// Whether a submission is pending.
    pub fn is_pending(&self) -> (r: bool)
        ensures
            r == self.pipe is Some,
    {
        self.pipe.is_some()
    }

    /// Drops the handles of the tasks that have finished and keeps the
    /// others, in order. Nothing is waited for or cancelled.
    pub fn prune_finished(&mut self)
        ensures
            final(self).pipe == old(self).pipe,
            exists|f: Seq<bool>|
                f.len() == old(self).tasks@.len() && final(self).tasks@ == spec_keep_unfinished(
                    old(self).tasks@,
                    f,
                ),
    {
        let mut finished: Vec<bool> = Vec::new();
        let mut i: usize = 0;
        while i < self.tasks.len()
            invariant
                i <= self.tasks@.len(),
                finished@.len() == i,
            decreases self.tasks@.len() - i,
        {
            finished.push(task_finished(&self.tasks[i]));
            i = i + 1;
        }
        let mut tasks: Vec<JoinHandle<()>> = Vec::new();
        std::mem::swap(&mut tasks, &mut self.tasks);
        self.tasks = keep_unfinished(tasks, &finished);
    }

    /// Makes `rx` the pending slot, after dropping finished tasks, and keeps
    /// `handle` last. A receiver that was pending before is let go: its
    /// result, should it come, is never seen.
    pub fn submit(&mut self, rx: Receiver<T>, handle: JoinHandle<()>)
        ensures
            final(self).pipe == spec_after_submit(old(self).pipe, rx),
            exists|f: Seq<bool>|
                f.len() == old(self).tasks@.len() && final(self).tasks@ == spec_keep_unfinished(
                    old(self).tasks@,
                    f,
                ).push(handle),
            final(self).tasks@.len() > 0,
            final(self).tasks@.last() == handle,
            final(self).tasks@.len() <= old(self).tasks@.len() + 1,
            forall|i: int|
                0 <= i < final(self).tasks@.len() - 1 ==> old(self).tasks@.contains(
                    #[trigger] final(self).tasks@[i],
                ),
            old(self).tasks@.len() == 0 ==> final(self).tasks@ == seq![handle],
    {
        let ghost before = self.tasks@;
        self.prune_finished();
        let ghost pruned = self.tasks@;
        self.pipe = Some(rx);
        self.tasks.push(handle);
        proof {
            let f = choose|f: Seq<bool>|
                f.len() == before.len() && pruned == spec_keep_unfinished(before, f);
            lemma_keep_unfinished_within(before, f);
            assert(self.tasks@ == pruned.push(handle));
            assert forall|i: int| 0 <= i < self.tasks@.len() - 1 implies before.contains(
                #[trigger] self.tasks@[i],
            ) by {
                assert(self.tasks@[i] == pruned[i]);
            }
            if before.len() == 0 {
                assert(pruned =~= Seq::<JoinHandle<()>>::empty());
                assert(self.tasks@ =~= seq![handle]);
            }
        }
    }

    /// Looks into the pending slot without blocking: `Idle` with nothing
    /// pending; `Pending`, with the slot kept, while its operation runs; else
    /// the operation's result, or `Terminated` where it vanished without one,
    /// and the slot is empty from then on.
    pub fn poll(&mut self) -> (r: Poll<T>)
        ensures
            old(self).pipe is None ==> r is Idle,
            old(self).pipe is Some ==> !(r is Idle),
            final(self).pipe == spec_after_poll(old(self).pipe, r),
            final(self).tasks == old(self).tasks,
    {
        let mut rx = match self.pipe.take() {
            None => return Poll::Idle,
            Some(rx) => rx,
        };
        match try_receive(&mut rx) {
            Received::Value(v) => Poll::Ready(v),
            Received::Empty => {
                self.pipe = Some(rx);
                Poll::Pending
            },
            Received::Closed => Poll::Terminated,
        }
    }
}

/// Of two submissions in a row, the pending slot holds the second, whatever
/// was pending before; a poll consults that slot only, and keeps it while its
/// operation runs, so the first submission's result is never reported.
pub proof fn lemma_latest_submission_wins<T>(
    pipe: Option<Receiver<T>>,
    a: Receiver<T>,
    b: Receiver<T>,
    p: Poll<T>,
)
    ensures
        spec_after_submit(spec_after_submit(pipe, a), b) == Some(b),
        p is Pending ==> spec_after_poll(spec_after_submit(spec_after_submit(pipe, a), b), p)
            == Some(b),
        !(p is Pending) ==> spec_after_poll(spec_after_submit(spec_after_submit(pipe, a), b), p)
            is None,
{
}

} // verus!
