//! What holds of a pool over several operations.
use super::pool::{
    shut_down, submitted, token_put, tokens_put, Closing, CoreView, Ending, Step, Submission,
    ThreadPoolInner, Worker,
};
use super::state::{Lifecycle, CAPACITY};
use super::threads::Scheduled;
use crate::delay_queue::heap::Entry;
use crate::delay_queue::inner::{entry, law_expired_is_ready, law_head_comes_first};
use crate::delay_queue::{Delayed, DelayQueue};
use crate::linked_queue::LinkedQueue;
use crate::queue::{Queue, SyncQueue};
use vstd::multiset::Multiset;
use vstd::prelude::*;

verus! {

/// The lifecycle of a pool only advances: by a shutdown, by a worker that
/// leaves or is torn out of its run, and by the end of the pool.
pub proof fn law_lifecycle_only_advances(c: CoreView, target: Lifecycle, queue_empty: bool)
    requires
        target is Shutdown || target is Stop,
    ensures
        c.state.lifecycle.rank() <= c.after_shutdown(target).rank(),
        c.state.lifecycle.rank() <= c.worker_left().state.lifecycle.rank(),
        c.state.lifecycle.rank() <= c.worker_torn(queue_empty).state.lifecycle.rank(),
        c.state.lifecycle.rank() <= c.in_lifecycle(
            Lifecycle::Terminated,
        ).state.lifecycle.rank(),
{
}

/// A pool has no more workers than the limit against which the last one was
/// counted.
pub proof fn law_workers_are_limited(c: CoreView, has_task: bool, queue_empty: bool, core: bool)
    requires
        c.admits(has_task, queue_empty, core),
    ensures
        c.plus_workers(1).state.workers <= c.target(core),
{
}

/// A pool that has stopped starts no worker, takes no task, and sends every
/// worker away that asks for its next task, whatever task it holds.
pub proof fn law_stopped_pool_does_nothing<T, Q: SyncQueue<Option<T>>>(
    before: ThreadPoolInner<T, Q>,
    after: ThreadPoolInner<T, Q>,
    task: T,
    held: Option<T>,
    immediate: bool,
    core: bool,
    r: Submission<T>,
)
    requires
        before@.state.lifecycle.stopped(),
        submitted(before, after, task, immediate, r),
    ensures
        !before@.admits(held is Some, before.idle(), core),
        r.fate is Refused,
        r.helper is None,
        after@ == before@,
        after.queue() == before.queue(),
        Worker::next_step(before@, held).1 is Exit,
{
}

/// A pool that has been shut down accepts no new task.
pub proof fn law_shut_down_pool_takes_no_task<T, Q: SyncQueue<Option<T>>>(
    before: ThreadPoolInner<T, Q>,
    after: ThreadPoolInner<T, Q>,
    task: T,
    immediate: bool,
    r: Submission<T>,
)
    requires
        !(before@.state.lifecycle is Running),
        submitted(before, after, task, immediate, r),
    ensures
        r.fate is Refused,
        after.queue() == before.queue(),
{
}

/// A pool that has ended stays so, and has no workers if it had none.
pub proof fn law_end_is_final(c: CoreView, target: Lifecycle, has_task: bool, empty: bool, core: bool)
    requires
        c.state.lifecycle is Terminated,
        target is Shutdown || target is Stop,
    ensures
        c.after_shutdown(target) is Terminated,
        !c.shutdown_acts(target),
        !c.admits(has_task, empty, core),
{
}

/// A pool that has ended has no workers: this holds of a new pool, and no worker
/// that is started, leaves or is torn out of its run and no shutdown changes it.
pub proof fn law_ended_pool_has_no_workers(
    c: CoreView,
    target: Lifecycle,
    has_task: bool,
    empty: bool,
    core: bool,
)
    requires
        c.state.lifecycle is Terminated ==> c.state.workers == 0,
        target is Shutdown || target is Stop,
    ensures
        c.admits(has_task, empty, core) ==> !(c.plus_workers(1).state.lifecycle is Terminated),
        c.after_shutdown(target) is Terminated ==> c.state.workers == 0,
        c.state.workers >= 1 && c.worker_left().state.lifecycle is Terminated
            ==> c.worker_left().state.workers == 0,
        c.state.workers >= 1 && c.torn_ends(empty) is Finalize ==> c.worker_torn(
            empty,
        ).state.workers == 0,
{
}

/// The last worker to leave in good order ends the pool, and a running pool without
/// workers ends at once when it is shut down. Where the last worker of a pool that has been
/// shut down or stopped was torn out of its run, another one takes its place, or somebody is
/// told to end the pool: none is left without workers and without an end.
pub proof fn law_last_worker_ends_the_pool(c: CoreView, target: Lifecycle, queue_empty: bool)
    requires
        target is Shutdown || target is Stop,
    ensures
        c.state.workers == 1 ==> c.worker_left().state.lifecycle is Terminated
            && c.ends() is Ended,
        c.state.workers == 0 && c.state.lifecycle is Running ==> c.after_shutdown(
            target,
        ) is Terminated,
        c.state.workers == 1 && !(c.state.lifecycle is Running) ==> (c.worker_torn(
            queue_empty,
        ).state.workers == 0 <==> c.torn_ends(queue_empty) is Finalize),
        c.state.workers >= 1 && c.state.lifecycle.stopped() ==> !c.replaces(queue_empty),
{
}

/// Queued tasks are run whatever becomes of the workers: while something is in the queue of
/// a pool that has not been stopped, a worker is left after one of them was torn out of its
/// run.
pub proof fn law_queue_keeps_a_worker(c: CoreView)
    requires
        c.state.workers >= 1,
        !c.state.lifecycle.stopped(),
        c.core_pool_size > 0 || c.maximum_pool_size > 0,
    ensures
        c.worker_torn(false).state.workers >= 1,
        c.worker_torn(false).state.lifecycle == c.state.lifecycle,
        c.torn_ends(false) is Goes,
{
}

/// The core size is kept up: a running pool with no more workers than that has as many
/// after one of them was torn out of its run.
pub proof fn law_core_size_is_kept_up(c: CoreView, queue_empty: bool)
    requires
        c.state.lifecycle is Running,
        1 <= c.state.workers <= c.core_pool_size,
        c.state.workers <= CAPACITY,
    ensures
        c.worker_torn(queue_empty) == c,
        c.torn_ends(queue_empty) is Goes,
{
}

/// A task that is queued finds a worker, unless the pool may have none.
pub proof fn law_queued_task_finds_a_worker<T, Q: SyncQueue<Option<T>>>(
    before: ThreadPoolInner<T, Q>,
    after: ThreadPoolInner<T, Q>,
    task: T,
    immediate: bool,
    r: Submission<T>,
)
    requires
        submitted(before, after, task, immediate, r),
        r.fate is Queued,
        before@.maximum_pool_size > 0,
    ensures
        after@.state.workers >= 1,
{
}

/// A shutdown queues one token for each worker and touches no task: every task
/// is in the queue as often as before, and the tokens that do not fit are owed.
pub proof fn law_one_token_for_each_worker<T, Q: SyncQueue<Option<T>>>(
    before: ThreadPoolInner<T, Q>,
    after: ThreadPoolInner<T, Q>,
    target: Lifecycle,
    r: Closing,
    task: T,
)
    requires
        target is Shutdown || target is Stop,
        shut_down(before, after, target, r),
    ensures
        after.queue().contents().count(Some(task)) == before.queue().contents().count(Some(task)),
        before@.shutdown_acts(target) ==> after.queue().contents().count(None) + r.tokens
            == before.queue().contents().count(None) + before@.state.workers,
        !before@.shutdown_acts(target) ==> after.queue() == before.queue(),
{
    let owed = if before@.shutdown_acts(target) {
        before@.state.workers as int
    } else {
        0
    };
    lemma_tokens(before.queue(), (owed - r.tokens) as nat, after.queue(), target is Shutdown, task);
}

/// Tokens add to the contents and nothing else.
proof fn lemma_tokens<T, Q: SyncQueue<Option<T>>>(q: Q, n: nat, after: Q, last: bool, task: T)
    requires
        tokens_put(q, n, after, last),
    ensures
        after.contents().count(Some(task)) == q.contents().count(Some(task)),
        after.contents().count(None) == q.contents().count(None) + n,
    decreases n,
{
    if n > 0 {
        let mid = choose|mid: Q|
            tokens_put(q, (n - 1) as nat, mid, last) && #[trigger] token_put(mid, after, last);
        lemma_tokens(q, (n - 1) as nat, mid, last, task);
    }
}

/// The tokens of a shutdown stand behind every task that was queued before it,
/// so that the workers run those tasks first.
pub proof fn law_tokens_come_last<T>(
    before: ThreadPoolInner<T, LinkedQueue<Option<T>>>,
    after: ThreadPoolInner<T, LinkedQueue<Option<T>>>,
    target: Lifecycle,
    r: Closing,
    i: int,
)
    requires
        target is Shutdown || target is Stop,
        shut_down(before, after, target, r),
        0 <= i < after.queue()@.items.len(),
    ensures
        before.queue()@.items.len() <= after.queue()@.items.len(),
        i < before.queue()@.items.len() ==> after.queue()@.items[i] == before.queue()@.items[i],
        i >= before.queue()@.items.len() ==> after.queue()@.items[i] is None,
{
    let owed = if before@.shutdown_acts(target) {
        before@.state.workers as int
    } else {
        0
    };
    lemma_tokens_are_pushed(
        before.queue(),
        (owed - r.tokens) as nat,
        after.queue(),
        target is Shutdown,
    );
}

/// Tokens are pushed one by one.
proof fn lemma_tokens_are_pushed<T>(
    q: LinkedQueue<Option<T>>,
    n: nat,
    after: LinkedQueue<Option<T>>,
    last: bool,
)
    requires
        tokens_put(q, n, after, last),
    ensures
        after@.items.len() == q@.items.len() + n,
        forall|i: int| 0 <= i < q@.items.len() ==> after@.items[i] == q@.items[i],
        forall|i: int| q@.items.len() <= i < after@.items.len() ==> after@.items[i] is None,
    decreases n,
{
    if n > 0 {
        let mid = choose|mid: LinkedQueue<Option<T>>|
            tokens_put(q, (n - 1) as nat, mid, last) && #[trigger] token_put(mid, after, last);
        lemma_tokens_are_pushed(q, (n - 1) as nat, mid, last);
    }
}

/// The entries `tokens` were added to those of `before`, each of them behind all of
/// these.
pub open spec fn added_behind<T>(
    before: Multiset<Entry<Option<T>>>,
    tokens: Multiset<Entry<Option<T>>>,
    after: Multiset<Entry<Option<T>>>,
) -> bool {
    &&& after == before.add(tokens)
    &&& forall|x: Entry<Option<T>>, y: Entry<Option<T>>|
        #![trigger before.contains(x), tokens.contains(y)]
        before.contains(x) && tokens.contains(y) ==> x.time <= y.time
    &&& forall|y: Entry<Option<T>>| #[trigger] tokens.contains(y) ==> y.last && y.val is None
}

/// Every one of the entries `tokens` may be popped at the reading `now` of the clock, or when
/// one of the entries of `before` may be popped.
pub open spec fn come_due<T>(
    before: Multiset<Entry<Option<T>>>,
    tokens: Multiset<Entry<Option<T>>>,
    now: u64,
) -> bool {
    forall|y: Entry<Option<T>>| #[trigger]
        tokens.contains(y) ==> y.time <= now || exists|x: Entry<Option<T>>| #[trigger]
            before.contains(x) && y.time <= x.time
}

/// The tokens of a shutdown that lets the tasks run stand behind every task that is
/// queued, also behind those whose delay has not expired: as long as one of these is in
/// the queue, no token is its head, so that the workers run every task before they end.
pub proof fn law_tokens_come_last_in_a_delay_queue<T: Delayed>(
    before: ThreadPoolInner<T, DelayQueue<Option<T>>>,
    after: ThreadPoolInner<T, DelayQueue<Option<T>>>,
    r: Closing,
)
    requires
        shut_down(before, after, Lifecycle::Shutdown, r),
    ensures
        exists|tokens: Multiset<Entry<Option<T>>>|
            {
                &&& #[trigger] added_behind(before.queue()@, tokens, after.queue()@)
                &&& forall|q: DelayQueue<Option<T>>, x: Entry<Option<T>>|
                    #![trigger q.head(), q@.contains(x)]
                    q.valid() && q@.contains(x) && before.queue()@.contains(x) && !x.last
                        ==> !tokens.contains(q.head())
            },
{
    let owed = if before@.shutdown_acts(Lifecycle::Shutdown) {
        before@.state.workers as int
    } else {
        0
    };
    lemma_tokens_are_behind(before.queue(), (owed - r.tokens) as nat, after.queue());
    let (tokens, _) = choose|tokens: Multiset<Entry<Option<T>>>, now: u64| #[trigger]
        added_behind(before.queue()@, tokens, after.queue()@) && #[trigger] come_due(
            before.queue()@,
            tokens,
            now,
        );
    assert forall|q: DelayQueue<Option<T>>, x: Entry<Option<T>>|
        #![trigger q.head(), q@.contains(x)]
        q.valid() && q@.contains(x) && before.queue()@.contains(x)
            && !x.last implies !tokens.contains(q.head()) by {
        law_head_comes_first(q, x);
        if tokens.contains(q.head()) {
            assert(x.time <= q.head().time);
        }
    }
}

/// The tokens of a shutdown that lets the tasks run come due, one for each worker that is
/// not owed one. There is a reading `now` of the clock, the latest at which one of them was
/// put, from which on a queue that was empty is ready. Any other queue with a token in it is
/// ready from then on once the latest of the entries before them may be popped.
pub proof fn law_tokens_come_due_in_a_delay_queue<T: Delayed>(
    before: ThreadPoolInner<T, DelayQueue<Option<T>>>,
    after: ThreadPoolInner<T, DelayQueue<Option<T>>>,
    r: Closing,
)
    requires
        after.wf(),
        shut_down(before, after, Lifecycle::Shutdown, r),
    ensures
        exists|tokens: Multiset<Entry<Option<T>>>, now: u64|
            {
                &&& #[trigger] added_behind(before.queue()@, tokens, after.queue()@)
                &&& #[trigger] come_due(before.queue()@, tokens, now)
                &&& before@.shutdown_acts(Lifecycle::Shutdown) ==> tokens.len() + r.tokens
                    == before@.state.workers
                &&& forall|q: DelayQueue<Option<T>>, y: Entry<Option<T>>, t: u64|
                    #![trigger q.ready(t), q@.contains(y)]
                    q.valid() && q@.contains(y) && tokens.contains(y) && now <= t && (forall|
                        x: Entry<Option<T>>,
                    | #[trigger]
                        before.queue()@.contains(x) ==> x.time <= t) ==> q.ready(t)
                &&& before.queue()@.len() == 0 && tokens.len() > 0 ==> forall|t: u64| now <= t
                    ==> #[trigger] after.queue().ready(t)
            },
{
    let owed = if before@.shutdown_acts(Lifecycle::Shutdown) {
        before@.state.workers as int
    } else {
        0
    };
    let n = (owed - r.tokens) as nat;
    lemma_tokens_are_behind(before.queue(), n, after.queue());
    let (tokens, now) = choose|tokens: Multiset<Entry<Option<T>>>, now: u64|
        tokens.len() == n && #[trigger] added_behind(before.queue()@, tokens, after.queue()@)
            && #[trigger] come_due(before.queue()@, tokens, now);
    assert forall|q: DelayQueue<Option<T>>, y: Entry<Option<T>>, t: u64|
        #![trigger q.ready(t), q@.contains(y)]
        q.valid() && q@.contains(y) && tokens.contains(y) && now <= t && (forall|
            x: Entry<Option<T>>,
        | #[trigger]
            before.queue()@.contains(x) ==> x.time <= t) implies q.ready(t) by {
        law_expired_is_ready(q, y, t);
    }
    if before.queue()@.len() == 0 && tokens.len() > 0 {
        after.lemma_queue();
        let y = tokens.choose();
        assert(after.queue()@.contains(y));
        assert(before.queue()@ =~= Multiset::<Entry<Option<T>>>::empty());
        assert forall|t: u64| now <= t implies #[trigger] after.queue().ready(t) by {
            assert(forall|x: Entry<Option<T>>| !(#[trigger] before.queue()@.contains(x)));
        }
    }
}

/// Tokens are put behind everything one by one, each of them when it or an entry before it
/// may be popped.
proof fn lemma_tokens_are_behind<T: Delayed>(
    q: DelayQueue<Option<T>>,
    n: nat,
    after: DelayQueue<Option<T>>,
)
    requires
        tokens_put(q, n, after, true),
    ensures
        exists|tokens: Multiset<Entry<Option<T>>>, now: u64|
            tokens.len() == n && #[trigger] added_behind(q@, tokens, after@)
                && #[trigger] come_due(q@, tokens, now),
    decreases n,
{
    if n == 0 {
        let none = Multiset::<Entry<Option<T>>>::empty();
        assert(q@ =~= q@.add(none));
        assert(added_behind(q@, none, after@));
        assert(come_due(q@, none, 0));
    } else {
        let mid = choose|mid: DelayQueue<Option<T>>|
            tokens_put(q, (n - 1) as nat, mid, true) && #[trigger] token_put(mid, after, true);
        lemma_tokens_are_behind(q, (n - 1) as nat, mid);
        let (tokens, before) = choose|tokens: Multiset<Entry<Option<T>>>, now: u64|
            tokens.len() == n - 1 && #[trigger] added_behind(q@, tokens, mid@)
                && #[trigger] come_due(q@, tokens, now);
        assert(mid.offered_last(None, after));
        let (x, put) = choose|x: Entry<Option<T>>, now: u64| #[trigger]
            mid.put_behind(None, now, x, after);
        let more = tokens.insert(x);
        let now = if before < put {
            put
        } else {
            before
        };
        assert(after@ =~= q@.add(more));
        assert forall|y: Entry<Option<T>>| #[trigger] q@.contains(y) implies y.time <= x.time by {
            assert(mid@.contains(y));
        }
        assert forall|y: Entry<Option<T>>| #[trigger] more.contains(y) implies y.last
            && y.val is None by {
            assert(y == x || tokens.contains(y));
        }
        assert forall|w: Entry<Option<T>>, y: Entry<Option<T>>|
            #![trigger q@.contains(w), more.contains(y)]
            q@.contains(w) && more.contains(y) implies w.time <= y.time by {
            assert(y == x || tokens.contains(y));
        }
        assert(added_behind(q@, more, after@));
        assert forall|y: Entry<Option<T>>| #[trigger] more.contains(y) implies y.time <= now
            || exists|w: Entry<Option<T>>| #[trigger] q@.contains(w) && y.time <= w.time by {
            assert(y == x || tokens.contains(y));
            if y == x && x.time != put {
                let w = choose|w: Entry<Option<T>>| #[trigger]
                    mid@.contains(w) && w.time == x.time;
                assert(q@.contains(w) || tokens.contains(w));
            }
        }
        assert(come_due(q@, more, now));
    }
}

/// Everybody that waits for the end of a pool hears of it. Whatever brings the pool to its
/// end, a shutdown, a worker that leaves, or somebody who was told to end it, says that
/// those that wait are to be woken, and from then on a turn of waiting finds that the pool
/// has ended. Nobody is woken by an end that is not there.
pub proof fn law_waiters_hear_of_the_end<T, Q: SyncQueue<Option<T>>>(
    before: ThreadPoolInner<T, Q>,
    after: ThreadPoolInner<T, Q>,
    target: Lifecycle,
    r: Closing,
    task: Option<T>,
    queue_empty: bool,
    turn: bool,
)
    requires
        target is Shutdown || target is Stop,
        shut_down(before, after, target, r),
        call_ensures(ThreadPoolInner::<T, Q>::await_termination, (&after,), turn),
    ensures
        !(before@.state.lifecycle is Terminated) && after@.state.lifecycle is Terminated
            <==> r.ending is Ended,
        turn <==> after@.state.lifecycle is Terminated,
        ({
            let c = before@;
            let left = c.worker_left();
            !(c.state.lifecycle is Terminated) && c.state.workers >= 1 ==> (
            left.state.lifecycle is Terminated <==> c.ends() is Ended)
        }),
        before@.worker_torn(queue_empty).state.lifecycle == before@.state.lifecycle,
        !(before@.torn_ends(queue_empty) is Ended),
        ({
            let c = before@;
            let step = Worker::next_step(c, task);
            !(c.state.lifecycle is Terminated) && c.state.workers >= 1 ==> (
            step.0.state.lifecycle is Terminated <==> step.1 == Step::<T>::Exit(Ending::Ended))
        }),
{
}

/// A task that is handed to a pool is in exactly one place afterwards: with a new
/// worker, once more in the queue, or dropped.
pub proof fn law_task_is_in_one_place<T, Q: SyncQueue<Option<T>>>(
    before: ThreadPoolInner<T, Q>,
    after: ThreadPoolInner<T, Q>,
    task: T,
    immediate: bool,
    r: Submission<T>,
)
    requires
        submitted(before, after, task, immediate, r),
    ensures
        r.fate is Handed ==> r.worker is Some && r.worker->0.first() == Some(task),
        !(r.fate is Handed) ==> r.worker is None,
        after.queue().contents().count(Some(task)) == before.queue().contents().count(Some(task))
            + (if r.fate is Queued {
            1int
        } else {
            0
        }),
{
}

/// A scheduled task does not run before its delay: it never goes past the queue
/// to a worker, and the queue does not give it out at a reading of the clock
/// before the end of the delay, counted from the reading at which it was
/// scheduled.
pub proof fn law_scheduled_task_waits<T>(
    before: ThreadPoolInner<Scheduled<T>, DelayQueue<Option<Scheduled<T>>>>,
    after: ThreadPoolInner<Scheduled<T>, DelayQueue<Option<Scheduled<T>>>>,
    task: Scheduled<T>,
    r: Submission<Scheduled<T>>,
)
    requires
        submitted(before, after, task, false, r),
    ensures
        r.worker is None,
        r.fate is Queued ==> exists|now: u64|
            {
                let e = #[trigger] entry(Some(task), now);
                &&& after.queue()@ == before.queue()@.insert(e)
                &&& forall|q: DelayQueue<Option<Scheduled<T>>>, t: u64|
                    q.head() == e && #[trigger] q.ready(t) ==> now + task.delay_ns() <= t
            },
{
    if r.fate is Queued {
        let now = choose|now: u64|
            #![trigger entry(Some(task), now)]
            entry(Some(task), now).time == now + Some(task).delay_ns() && after.queue()@
                == before.queue()@.insert(entry(Some(task), now));
        assert(before.queue().offered(Some(task), after.queue()));
        assert(entry(Some(task), now).time == now + task.delay_ns());
    }
}

/// A worker of a running pool runs whatever task it holds or takes, and leaves
/// only to make room: a pool below its maximum keeps it.
pub proof fn law_running_pool_keeps_its_workers<T>(c: CoreView, task: Option<T>)
    requires
        c.state.lifecycle is Running,
        c.state.workers <= c.maximum_pool_size,
    ensures
        task matches Some(t) ==> Worker::next_step(c, task) == (c, Step::Run(t)),
        task is None ==> Worker::next_step(c, task) == (c, Step::<T>::Take),
{
}

/// A worker is counted once: from its start until the one step that ends it, in
/// good order or not.
pub proof fn law_worker_is_counted_once<T>(c: CoreView, task: Option<T>, queue_empty: bool)
    requires
        c.state.workers >= 1,
    ensures
        Worker::next_step(c, task).0.state.workers == c.state.workers - (if Worker::next_step(
            c,
            task,
        ).1 is Exit {
            1int
        } else {
            0
        }),
        c.worker_left().state.workers == c.state.workers - 1,
        c.worker_torn(queue_empty).state.workers == c.state.workers - 1 + (if c.replaces(
            queue_empty,
        ) {
            1int
        } else {
            0
        }),
{
}

} // verus!
