//! What the operations on a pool and its workers are for, one by one.
//!
//! The laws speak of the lifecycle, the number of workers and the contents of the queue before
//! and after an operation, and of what it came to.
use super::laws::{
    added_behind, law_one_token_for_each_worker, law_tokens_come_last,
    law_tokens_come_last_in_a_delay_queue,
};
use super::pool::{
    shut_down, token_put, tokens_put, Closing, Core, CoreView, Departure, Ending, Step, Submission,
    ThreadPoolInner, Worker,
};
use super::state::{Lifecycle, State};
use super::threads::{Scheduled, ScheduledThreadPool, ThreadPool, WorkQueue};
use crate::delay_queue::heap::Entry;
use crate::delay_queue::inner::entry;
use crate::delay_queue::{DelayQueue, Delayed};
use crate::linked_queue::LinkedQueue;
use crate::queue::{Queue, SyncQueue};
use crate::run::{Run, Task};
use vstd::multiset::Multiset;
use vstd::prelude::*;

verus! {

/// The pool still processes tasks: it runs, or has been shut down.
pub open spec fn processes_tasks(c: CoreView) -> bool {
    c.state.lifecycle is Running || c.state.lifecycle is Shutdown
}

/// The limits of a pool are what they were.
pub open spec fn same_limits(before: CoreView, after: CoreView) -> bool {
    after.core_pool_size == before.core_pool_size && after.maximum_pool_size
        == before.maximum_pool_size
}

/// What it comes to that a worker leaves in good order: there is one less, and the last one ends
/// the pool and says so.
pub open spec fn leaves(before: CoreView, after: CoreView, ending: Ending) -> bool {
    &&& same_limits(before, after)
    &&& after.state.workers + 1 == before.state.workers
    &&& before.state.workers == 1 ==> after.state.lifecycle is Terminated && ending is Ended
    &&& before.state.workers > 1 ==> after.state.lifecycle == before.state.lifecycle
        && ending is Goes
}

/// What a worker does next that holds the task `held`, if any. While the pool processes tasks it
/// runs exactly that task, and without one it takes from the queue, unless there are more workers
/// than the maximum. Otherwise it leaves.
pub open spec fn goes_on<T>(
    before: CoreView,
    held: Option<T>,
    after: CoreView,
    step: Step<T>,
) -> bool {
    if !processes_tasks(before) {
        step is Exit && leaves(before, after, step->Exit_0)
    } else {
        match held {
            Some(task) => step == Step::Run(task) && after == before,
            None => if before.state.workers <= before.maximum_pool_size {
                step is Take && after == before
            } else {
                &&& step == Step::<T>::Exit(Ending::Goes)
                &&& same_limits(before, after)
                &&& after.state.workers + 1 == before.state.workers
                &&& after.state.lifecycle == before.state.lifecycle
            },
        }
    }
}

/// A worker runs the task that it starts with, whatever the number of workers, as long as the
/// pool processes tasks, and starts with it once.
pub proof fn law_worker_runs_what_it_starts_with<T>(
    worker: &mut Worker<T>,
    core: &mut Core,
    step: Step<T>,
)
    requires
        old(core).wf(),
        old(core)@.state.workers >= 1,
        call_ensures(Worker::<T>::get_task, (worker, core), step),
    ensures
        goes_on(old(core)@, old(worker).first(), final(core)@, step),
        final(worker).first() is None,
        final(worker).unsettled() == old(worker).unsettled(),
{
}

/// A worker runs the task that it took from the queue, whatever the number of workers, as long as
/// the pool processes tasks. One that took a token leaves.
pub proof fn law_worker_runs_what_it_takes<T>(
    worker: &mut Worker<T>,
    core: &mut Core,
    taken: Option<T>,
    step: Step<T>,
)
    requires
        old(core).wf(),
        old(core)@.state.workers >= 1,
        call_ensures(Worker::<T>::took, (worker, core, taken), step),
    ensures
        taken is Some ==> goes_on(old(core)@, taken, final(core)@, step),
        taken is None ==> step is Exit && leaves(old(core)@, final(core)@, step->Exit_0),
        *final(worker) == *old(worker),
{
}

/// Workers are made with their first task and are told apart by whether they are in their run.
pub proof fn law_workers_begin_and_end<T>(
    task: Option<T>,
    made: Worker<T>,
    entering: &mut Worker<T>,
    leaving: &mut Worker<T>,
)
    requires
        call_ensures(Worker::<T>::new, (task,), made),
        call_ensures(Worker::<T>::enter, (entering,), ()),
        call_ensures(Worker::<T>::leave, (leaving,), ()),
    ensures
        made.first() == task && !made.unsettled(),
        final(entering).unsettled() && final(entering).first() == old(entering).first(),
        !final(leaving).unsettled() && final(leaving).first() == old(leaving).first(),
{
}

/// A worker that leaves in good order is counted off, and the pool ends with the last one, or when
/// it is ended.
pub proof fn law_leaving_is_counted(
    core: &mut Core,
    ending: Ending,
    other: &mut Core,
    end: Ending,
    seen: bool,
)
    requires
        old(core).wf(),
        old(core)@.state.workers >= 1,
        call_ensures(Core::decrement_worker_count, (core,), ending),
        old(other).wf(),
        call_ensures(Core::finalize_threadpool, (other,), end),
        call_ensures(Core::await_termination, (&*final(other),), seen),
    ensures
        leaves(old(core)@, final(core)@, ending),
        end is Ended,
        seen,
        same_limits(old(other)@, final(other)@),
        final(other)@.state.lifecycle is Terminated,
        final(other)@.state.workers == old(other)@.state.workers,
{
}

/// Whether another worker may be started below `limit`: in a running pool, and in one that was
/// shut down if there is something to do for it.
pub open spec fn may_start(c: CoreView, something_to_do: bool, limit: u32) -> bool {
    &&& c.state.lifecycle is Running || (c.state.lifecycle is Shutdown && something_to_do)
    &&& c.state.workers < 536_870_911
    &&& c.state.workers < limit
}

/// `n` workers were started, and nothing else happened to the pool.
pub open spec fn started(before: CoreView, after: CoreView, n: int) -> bool {
    &&& same_limits(before, after)
    &&& after.state.lifecycle == before.state.lifecycle
    &&& after.state.workers == before.state.workers + n
}

/// Starting a worker: one that may be started gets the task, else the task comes back.
pub proof fn law_worker_is_started_with_its_task<T, Q: SyncQueue<Option<T>>>(
    pool: &mut ThreadPoolInner<T, Q>,
    task: Option<T>,
    core: bool,
    r: Result<Worker<T>, Option<T>>,
)
    requires
        old(pool).wf(),
        call_ensures(ThreadPoolInner::<T, Q>::add_worker, (pool, task, core), r),
    ensures
        ({
            let c = old(pool)@;
            let limit = if core {
                c.core_pool_size
            } else {
                c.maximum_pool_size
            };
            let busy = task is Some || old(pool).queue().contents().len() > 0;
            &&& final(pool).queue() == old(pool).queue()
            &&& r is Ok <==> may_start(c, busy, limit)
            &&& r matches Ok(w) ==> w.first() == task && !w.unsettled() && started(
                c,
                final(pool)@,
                1,
            )
            &&& r matches Err(back) ==> back == task && final(pool)@ == c
        }),
{
}

/// Workers are started ahead up to the core size, one or all of them, without a task.
pub proof fn law_core_workers_are_started_ahead<T, Q: SyncQueue<Option<T>>>(
    pool: &mut ThreadPoolInner<T, Q>,
    one: Option<Worker<T>>,
    other: &mut ThreadPoolInner<T, Q>,
    all: Vec<Worker<T>>,
)
    requires
        old(pool).wf(),
        call_ensures(ThreadPoolInner::<T, Q>::prestart_core_thread, (pool,), one),
        old(other).wf(),
        call_ensures(ThreadPoolInner::<T, Q>::prestart_all_core_threads, (other,), all),
    ensures
        ({
            let c = old(pool)@;
            let busy = old(pool).queue().contents().len() > 0;
            &&& final(pool).queue() == old(pool).queue()
            &&& one is Some <==> may_start(c, busy, c.core_pool_size)
            &&& one matches Some(w) ==> w.first() is None && !w.unsettled() && started(
                c,
                final(pool)@,
                1,
            )
            &&& one is None ==> final(pool)@ == c
        }),
        ({
            let c = old(other)@;
            let busy = old(other).queue().contents().len() > 0;
            &&& final(other).queue() == old(other).queue()
            &&& started(c, final(other)@, all@.len() as int)
            &&& !may_start(final(other)@, busy, c.core_pool_size)
            &&& all@.len() > 0 ==> final(other)@.state.workers <= c.core_pool_size
            &&& c.state.lifecycle is Running && c.core_pool_size <= 536_870_911
                && c.state.workers <= c.core_pool_size ==> final(other)@.state.workers
                == c.core_pool_size
            &&& forall|i: int|
                0 <= i < all@.len() ==> (#[trigger] all@[i]).first() is None && !all@[i].unsettled()
        }),
{
}

/// What it comes to that `task` is handed to a pool. A running pool accepts it wherever it can: as
/// the first task of a new worker, where the task is immediate and there are fewer than the core
/// size, else in the queue, else, where the queue is full, with a new worker up to the maximum.
/// Whatever goes to the queue is announced to the workers that wait, and there is a worker for it
/// unless the pool may have none. A pool that does not run refuses the task.
pub open spec fn handed_over<T, Q: SyncQueue<Option<T>>>(
    before: ThreadPoolInner<T, Q>,
    after: ThreadPoolInner<T, Q>,
    task: T,
    immediate: bool,
    r: Submission<T>,
) -> bool {
    let c = before@;
    let q = before.queue();
    let busy = q.contents().len() > 0;
    let below = c.state.workers < c.core_pool_size;
    let helps = !immediate && below && may_start(c, busy, c.maximum_pool_size);
    let n = c.state.workers + (if helps {
        1int
    } else {
        0
    });
    &&& r.wake <==> r.fate is Queued
    &&& r.worker is Some <==> r.fate is Handed
    &&& r.worker matches Some(w) ==> w.first() == Some(task) && !w.unsettled()
    &&& r.helper matches Some(w) ==> w.first() is None && !w.unsettled()
    &&& started(
        c,
        after@,
        (if r.helper is Some {
            1int
        } else {
            0
        }) + (if r.worker is Some {
            1int
        } else {
            0
        }),
    )
    &&& !(r.fate is Queued) ==> after.queue() == q
    &&& r.fate is Queued ==> after.queue().contents() == q.contents().insert(Some(task))
        && q.offered(Some(task), after.queue())
    &&& if !(c.state.lifecycle is Running) {
        r.fate is Refused && (r.helper is Some <==> helps)
    } else if immediate && below && c.state.workers < 536_870_911 {
        r.fate is Handed && r.helper is None
    } else if !q.full() {
        r.fate is Queued && (r.helper is Some <==> helps || (c.state.workers == 0
            && c.maximum_pool_size > 0))
    } else if n < c.maximum_pool_size && n < 536_870_911 {
        r.fate is Handed && (r.helper is Some <==> helps)
    } else {
        r.fate is Refused && (r.helper is Some <==> helps)
    }
}

/// A task that is handed to a pool gets a worker of its own, is queued and announced, or is
/// refused, as the lifecycle, the number of workers and the room in the queue say.
pub proof fn law_task_is_handed_over<T, Q: SyncQueue<Option<T>>>(
    pool: &mut ThreadPoolInner<T, Q>,
    task: T,
    immediate: bool,
    r: Submission<T>,
)
    requires
        old(pool).wf(),
        call_ensures(ThreadPoolInner::<T, Q>::run, (pool, task, immediate), r),
    ensures
        handed_over(*old(pool), *final(pool), task, immediate, r),
{
}

/// No task lies in the queue of a pool unheard of: whatever a submission or a shutdown puts there,
/// it says that the workers that wait have to be woken, whatever other workers it starts.
pub proof fn law_what_is_queued_is_announced<T, Q: SyncQueue<Option<T>>>(
    pool: &mut ThreadPoolInner<T, Q>,
    task: T,
    immediate: bool,
    r: Submission<T>,
    other: &mut ThreadPoolInner<T, Q>,
    target: Lifecycle,
    s: Closing,
)
    requires
        old(pool).wf(),
        call_ensures(ThreadPoolInner::<T, Q>::run, (pool, task, immediate), r),
        old(other).wf(),
        target is Shutdown || target is Stop,
        call_ensures(ThreadPoolInner::<T, Q>::shutdown, (other, target), s),
    ensures
        r.fate is Queued ==> r.wake,
        final(pool).queue().contents().count(Some(task)) > old(pool).queue().contents().count(
            Some(task),
        ) ==> r.wake,
        final(pool).queue() != old(pool).queue() ==> r.wake,
        final(other).queue() != old(other).queue() ==> s.wake,
        s.tokens > 0 ==> s.wake,
{
    law_task_is_handed_over(pool, task, immediate, r);
    law_shutdown_follows_its_target(other, target, s);
}

/// What it comes to that a pool is shut down with the aim `target`. One that runs or, on the way to
/// be stopped, has been shut down moves on, a running one without workers to its end. Then each
/// worker gets a token, at once or, where the queue is full, later.
pub open spec fn closes<T, Q: SyncQueue<Option<T>>>(
    before: ThreadPoolInner<T, Q>,
    after: ThreadPoolInner<T, Q>,
    target: Lifecycle,
    r: Closing,
) -> bool {
    let c = before@;
    let running = c.state.lifecycle is Running;
    let moves = running || (c.state.lifecycle is Shutdown && target is Stop);
    let put = after.queue().contents().count(None) - before.queue().contents().count(None);
    &&& same_limits(c, after@)
    &&& after@.state.workers == c.state.workers
    &&& after@.state.lifecycle == (if running && c.state.workers == 0 {
        Lifecycle::Terminated
    } else if moves {
        target
    } else {
        c.state.lifecycle
    })
    &&& r.ending is Ended <==> running && c.state.workers == 0
    &&& !(r.ending is Finalize)
    &&& r.wake <==> moves && c.state.workers > 0
    &&& moves ==> put + r.tokens == c.state.workers
    &&& !moves ==> r.tokens == 0 && after.queue() == before.queue()
    &&& r.tokens > 0 ==> after.queue().full()
    &&& c.state.workers == 0 ==> after.queue() == before.queue()
    &&& forall|t: T|
        #![trigger after.queue().contents().count(Some(t))]
        after.queue().contents().count(Some(t)) == before.queue().contents().count(Some(t))
}

/// A shutdown follows its target: it moves the pool on, gives each worker a token and touches no
/// task.
pub proof fn law_shutdown_follows_its_target<T, Q: SyncQueue<Option<T>>>(
    pool: &mut ThreadPoolInner<T, Q>,
    target: Lifecycle,
    r: Closing,
)
    requires
        old(pool).wf(),
        target is Shutdown || target is Stop,
        call_ensures(ThreadPoolInner::<T, Q>::shutdown, (pool, target), r),
    ensures
        closes(*old(pool), *final(pool), target, r),
{
    assert forall|t: T| #[trigger]
        final(pool).queue().contents().count(Some(t)) == old(pool).queue().contents().count(
            Some(t),
        ) by {
        law_one_token_for_each_worker(*old(pool), *final(pool), target, r, t);
    }
    let any: T = arbitrary();
    law_one_token_for_each_worker(*old(pool), *final(pool), target, r, any);
}

/// A token that is put later goes to the queue if there is room, and nothing else changes.
pub proof fn law_token_is_put_later<T, Q: SyncQueue<Option<T>>>(
    pool: &mut ThreadPoolInner<T, Q>,
    target: Lifecycle,
    r: bool,
)
    requires
        old(pool).wf(),
        call_ensures(ThreadPoolInner::<T, Q>::put_token, (pool, target), r),
    ensures
        final(pool)@ == old(pool)@,
        r <==> !old(pool).queue().full(),
        !r ==> final(pool).queue() == old(pool).queue(),
        r ==> final(pool).queue().contents() == old(pool).queue().contents().insert(None),
        r && target is Shutdown ==> old(pool).queue().offered_last(None, final(pool).queue()),
        r && !(target is Shutdown) ==> old(pool).queue().offered(None, final(pool).queue()),
{
}

/// A pool that is shut down runs the tasks that it has accepted: a worker that holds one when the
/// pool is shut down, or takes one afterwards, is told to run exactly that one. One that is stopped
/// runs none.
pub proof fn law_accepted_tasks_are_run_after_a_shutdown<T, Q: SyncQueue<Option<T>>>(
    pool: &mut ThreadPoolInner<T, Q>,
    target: Lifecycle,
    r: Closing,
    holder: &mut Worker<T>,
    core: &mut Core,
    step: Step<T>,
    taker: &mut Worker<T>,
    other: &mut Core,
    task: T,
    next: Step<T>,
)
    requires
        old(pool).wf(),
        old(pool)@.state.workers >= 1,
        old(pool)@.state.lifecycle is Running,
        target is Shutdown || target is Stop,
        call_ensures(ThreadPoolInner::<T, Q>::shutdown, (pool, target), r),
        old(core).wf() && old(core)@ == final(pool)@,
        call_ensures(Worker::<T>::get_task, (holder, core), step),
        old(other).wf() && old(other)@ == final(pool)@,
        call_ensures(Worker::<T>::took, (taker, other, Some(task)), next),
    ensures
        target is Shutdown && old(holder).first() is Some ==> step == Step::Run(
            old(holder).first()->0,
        ) && final(core)@ == final(pool)@,
        target is Shutdown ==> next == Step::Run(task) && final(other)@ == final(pool)@,
        target is Stop ==> step is Exit && next is Exit,
{
    law_shutdown_follows_its_target(pool, target, r);
    law_worker_runs_what_it_starts_with(holder, core, step);
    law_worker_runs_what_it_takes(taker, other, Some(task), next);
}

/// What a worker that was torn out of its run leaves behind. Another one takes its place while
/// the pool processes tasks and fewer than the core size are left, in a pool that was shut down only
/// if something is queued, and also where nobody is left for what is queued. The last one that is
/// not replaced in a pool that does not run has somebody else end the pool.
pub open spec fn torn_out<T>(
    before: CoreView,
    busy: bool,
    after: CoreView,
    r: Departure<T>,
) -> bool {
    let rest = (before.state.workers - 1) as nat;
    let works = before.state.lifecycle is Running || (before.state.lifecycle is Shutdown && busy);
    let replaced = works && rest < 536_870_911 && (rest < before.core_pool_size || (rest == 0 && busy
        && before.maximum_pool_size > 0));
    &&& same_limits(before, after)
    &&& after.state.lifecycle == before.state.lifecycle
    &&& r.worker is Some <==> replaced
    &&& r.worker matches Some(w) ==> w.first() is None && !w.unsettled()
    &&& after.state.workers == (if replaced {
        before.state.workers
    } else {
        rest
    })
    &&& r.ending is Finalize <==> after.state.workers == 0 && !(before.state.lifecycle is Running)
    &&& !(r.ending is Ended)
}

/// A worker that was torn out of its run is counted off and replaced where it is needed, and one
/// that has ended its run leaves nothing behind.
pub proof fn law_torn_worker_is_made_up_for<T, Q: SyncQueue<Option<T>>>(
    worker: Worker<T>,
    pool: &mut ThreadPoolInner<T, Q>,
    r: Departure<T>,
    other: &mut ThreadPoolInner<T, Q>,
    s: Departure<T>,
)
    requires
        old(pool).wf(),
        old(pool)@.state.workers >= 1,
        call_ensures(Worker::<T>::discard::<Q>, (worker, pool), r),
        old(other).wf(),
        old(other)@.state.workers >= 1,
        call_ensures(ThreadPoolInner::<T, Q>::replace_worker, (other,), s),
    ensures
        final(pool).queue() == old(pool).queue(),
        worker.unsettled() ==> torn_out(
            old(pool)@,
            old(pool).queue().contents().len() > 0,
            final(pool)@,
            r,
        ),
        !worker.unsettled() ==> final(pool)@ == old(pool)@ && r.ending is Goes && r.worker is None,
        final(other).queue() == old(other).queue(),
        torn_out(old(other)@, old(other).queue().contents().len() > 0, final(other)@, s),
{
}

/// A new pool runs, has no workers and the limits and the queue that it was given. Whether it has
/// been shut down, and whether it has ended, is told by its lifecycle.
pub proof fn law_new_pool_runs<T, Q: SyncQueue<Option<T>>>(
    core_pool_size: u32,
    maximum_pool_size: u32,
    queue: Q,
    pool: ThreadPoolInner<T, Q>,
    any: &ThreadPoolInner<T, Q>,
    shut: bool,
    ended: bool,
)
    requires
        call_ensures(
            ThreadPoolInner::<T, Q>::new,
            (core_pool_size, maximum_pool_size, queue),
            pool,
        ),
        any.wf(),
        call_ensures(ThreadPoolInner::<T, Q>::is_shutdown, (any,), shut),
        call_ensures(ThreadPoolInner::<T, Q>::await_termination, (any,), ended),
    ensures
        pool@.state.lifecycle is Running,
        pool@.state.workers == 0,
        pool@.core_pool_size == core_pool_size,
        pool@.maximum_pool_size == maximum_pool_size,
        pool.queue() == queue,
        shut <==> !(any@.state.lifecycle is Running),
        ended <==> any@.state.lifecycle is Terminated,
{
}

/// The pool that users hand their tasks to does what its state does: it runs tasks at once where it
/// may, is shut down, and is stopped.
pub proof fn law_thread_pool_is_its_state<T: Task, Q: WorkQueue<T>>(
    running: &mut ThreadPool<T, Q>,
    task: T,
    r: Submission<T>,
    closing: &mut ThreadPool<T, Q>,
    s: Closing,
    stopping: &mut ThreadPool<T, Q>,
    t: Closing,
)
    requires
        old(running).pool().wf(),
        call_ensures(<ThreadPool<T, Q> as Run<T>>::run, (running, task), r),
        old(closing).pool().wf(),
        call_ensures(ThreadPool::<T, Q>::shutdown, (closing,), s),
        old(stopping).pool().wf(),
        call_ensures(ThreadPool::<T, Q>::shutdown_now, (stopping,), t),
    ensures
        handed_over(old(running).pool(), final(running).pool(), task, true, r),
        closes(old(closing).pool(), final(closing).pool(), Lifecycle::Shutdown, s),
        closes(old(stopping).pool(), final(stopping).pool(), Lifecycle::Stop, t),
{
    assert forall|x: T| #[trigger]
        final(closing).pool().queue().contents().count(Some(x)) == old(
            closing,
        ).pool().queue().contents().count(Some(x)) by {
        law_one_token_for_each_worker(
            old(closing).pool(),
            final(closing).pool(),
            Lifecycle::Shutdown,
            s,
            x,
        );
    }
    assert forall|x: T| #[trigger]
        final(stopping).pool().queue().contents().count(Some(x)) == old(
            stopping,
        ).pool().queue().contents().count(Some(x)) by {
        law_one_token_for_each_worker(
            old(stopping).pool(),
            final(stopping).pool(),
            Lifecycle::Stop,
            t,
            x,
        );
    }
    law_one_token_for_each_worker(
        old(closing).pool(),
        final(closing).pool(),
        Lifecycle::Shutdown,
        s,
        task,
    );
    law_one_token_for_each_worker(
        old(stopping).pool(),
        final(stopping).pool(),
        Lifecycle::Stop,
        t,
        task,
    );
}

/// A task that is scheduled in a running pool goes to the queue, with just its delay counted from a
/// reading of the clock, and is announced. No worker gets it before. A pool that does not run
/// refuses it.
pub proof fn law_task_is_scheduled<T: Task>(
    pool: &mut ScheduledThreadPool<T>,
    delay: u32,
    task: T,
    r: Submission<Scheduled<T>>,
)
    requires
        old(pool).pool().wf(),
        call_ensures(ScheduledThreadPool::<T>::schedule_ms, (pool, delay, task), r),
    ensures
        r.worker is None,
        r.wake <==> old(pool).pool()@.state.lifecycle is Running,
        r.fate is Queued <==> old(pool).pool()@.state.lifecycle is Running,
        r.fate is Refused <==> !(old(pool).pool()@.state.lifecycle is Running),
        r.fate is Refused ==> final(pool).pool().queue() == old(pool).pool().queue(),
        r.fate is Queued ==> exists|x: Entry<Option<Scheduled<T>>>, now: u64|
            {
                &&& #[trigger] old(pool).pool().queue()@.insert(x)
                    == final(pool).pool().queue()@
                &&& x.time == #[trigger] (now + delay * 1_000_000)
                &&& !x.last
                &&& x.val matches Some(s) && s->Delayed_0 == task
            },
{
    let s = choose|s: Scheduled<T>|
        {
            &&& s->Delayed_0 == task
            &&& s.delay_ns() == delay * 1_000_000
            &&& #[trigger] super::pool::submitted(
                old(pool).pool(),
                final(pool).pool(),
                s,
                false,
                r,
            )
        };
    if r.fate is Queued {
        let before = old(pool).pool().queue();
        let after = final(pool).pool().queue();
        assert(before.offered(Some(s), after));
        let now = choose|now: u64|
            #![trigger entry(Some(s), now)]
            entry(Some(s), now).time == now + Some(s).delay_ns() && after@ == before@.insert(
                entry(Some(s), now),
            );
        let x = entry(Some(s), now);
        assert(before@.insert(x) == after@);
        assert(x.time == now + delay * 1_000_000);
    }
}

/// A task that is scheduled without a delay is one with a delay of nothing.
pub proof fn law_task_is_scheduled_at_once<T: Task>(
    pool: &mut ScheduledThreadPool<T>,
    task: T,
    r: Submission<Scheduled<T>>,
)
    requires
        old(pool).pool().wf(),
        call_ensures(<ScheduledThreadPool<T> as Run<T>>::run, (pool, task), r),
    ensures
        r.worker is None,
        r.wake <==> old(pool).pool()@.state.lifecycle is Running,
        r.fate is Queued <==> old(pool).pool()@.state.lifecycle is Running,
        r.fate is Queued ==> exists|x: Entry<Option<Scheduled<T>>>, now: u64|
            {
                &&& #[trigger] old(pool).pool().queue()@.insert(x)
                    == final(pool).pool().queue()@
                &&& x.time == #[trigger] (now + 0)
                &&& !x.last
                &&& x.val matches Some(s) && s->Delayed_0 == task
            },
{
    let s = choose|s: Scheduled<T>|
        {
            &&& s->Delayed_0 == task
            &&& s.delay_ns() == 0
            &&& #[trigger] super::pool::submitted(
                old(pool).pool(),
                final(pool).pool(),
                s,
                false,
                r,
            )
        };
    if r.fate is Queued {
        let before = old(pool).pool().queue();
        let after = final(pool).pool().queue();
        assert(before.offered(Some(s), after));
        let now = choose|now: u64|
            #![trigger entry(Some(s), now)]
            entry(Some(s), now).time == now + Some(s).delay_ns() && after@ == before@.insert(
                entry(Some(s), now),
            );
        let x = entry(Some(s), now);
        assert(before@.insert(x) == after@);
        assert(x.time == now + 0);
    }
}

/// New pools run without workers, with the sizes that they were given, and an empty queue of their
/// own or the one that they were given.
pub proof fn law_new_thread_pools<T: Task, Q: WorkQueue<T>>(
    core_pool_size: u32,
    maximum_pool_size: u32,
    queue: Q,
    pool: ThreadPool<T, Q>,
    size: u32,
    fixed: ThreadPool<T, LinkedQueue<Option<T>>>,
    single: ThreadPool<T, LinkedQueue<Option<T>>>,
    scheduled: ScheduledThreadPool<T>,
    scheduled_single: ScheduledThreadPool<T>,
    any: &ThreadPool<T, Q>,
    shut: bool,
    ended: bool,
)
    requires
        call_ensures(
            ThreadPool::<T, Q>::new,
            (core_pool_size, maximum_pool_size, queue),
            pool,
        ),
        call_ensures(ThreadPool::<T, LinkedQueue<Option<T>>>::fixed_size, (size,), fixed),
        call_ensures(ThreadPool::<T, LinkedQueue<Option<T>>>::single_thread, (), single),
        call_ensures(ScheduledThreadPool::<T>::fixed_size, (size,), scheduled),
        call_ensures(ScheduledThreadPool::<T>::single_thread, (), scheduled_single),
        any.pool().wf(),
        call_ensures(ThreadPool::<T, Q>::is_shutdown, (any,), shut),
        call_ensures(ThreadPool::<T, Q>::await_termination, (any,), ended),
    ensures
        new_pool(pool.pool()@, core_pool_size, maximum_pool_size) && pool.pool().queue() == queue,
        new_pool(fixed.pool()@, size, size) && new_pool(single.pool()@, 1, 1),
        fixed.pool().queue()@.items.len() == 0 && single.pool().queue()@.items.len() == 0,
        fixed.pool().queue()@.capacity == usize::MAX && single.pool().queue()@.capacity
            == usize::MAX,
        new_pool(scheduled.pool()@, size, size) && new_pool(scheduled_single.pool()@, 1, 1),
        scheduled.pool().queue()@.len() == 0 && scheduled_single.pool().queue()@.len() == 0,
        shut <==> !(any.pool()@.state.lifecycle is Running),
        ended <==> any.pool()@.state.lifecycle is Terminated,
{
}

/// A pool that runs and has no workers, with the given sizes.
pub open spec fn new_pool(c: CoreView, core_pool_size: u32, maximum_pool_size: u32) -> bool {
    &&& c.state.lifecycle is Running
    &&& c.state.workers == 0
    &&& c.core_pool_size == core_pool_size
    &&& c.maximum_pool_size == maximum_pool_size
}

/// A function that is run as a task is called, and so is one that was scheduled.
pub proof fn law_tasks_are_run<F: FnOnce() + Send>(f: F, scheduled: Scheduled<F>)
    requires
        call_ensures(<F as Task>::run, (f,), ()),
        call_ensures(<Scheduled<F> as Task>::run, (scheduled,), ()),
    ensures
        call_ensures(f, (), ()),
        call_ensures(scheduled->Delayed_0, (), ()),
{
}

/// A worker is started by one that read the state before others acted only if the state that was
/// read and the one that there is both leave room for it, and what is started is the same.
pub proof fn law_worker_is_started_within_both_readings<T, Q: SyncQueue<Option<T>>>(
    pool: &mut ThreadPoolInner<T, Q>,
    seen: State,
    task: Option<T>,
    core: bool,
    r: Result<Worker<T>, Option<T>>,
)
    requires
        old(pool).wf(),
        call_ensures(ThreadPoolInner::<T, Q>::add_worker_from, (pool, seen, task, core), r),
    ensures
        ({
            let c = old(pool)@;
            let limit = if core {
                c.core_pool_size
            } else {
                c.maximum_pool_size
            };
            let busy = task is Some || old(pool).queue().contents().len() > 0;
            &&& final(pool).queue() == old(pool).queue()
            &&& r is Ok <==> may_start(c, busy, limit) && may_start(
                CoreView { state: seen@, ..c },
                busy,
                limit,
            )
            &&& r matches Ok(w) ==> w.first() == task && !w.unsettled() && started(
                c,
                final(pool)@,
                1,
            )
            &&& r matches Err(back) ==> back == task && final(pool)@ == c
        }),
{
}

/// A pool that is shut down by one that read the state before others acted follows the target as one
/// that is shut down at the last reading.
pub proof fn law_shutdown_need_not_have_read_last<T, Q: SyncQueue<Option<T>>>(
    pool: &mut ThreadPoolInner<T, Q>,
    seen: State,
    target: Lifecycle,
    r: Closing,
)
    requires
        old(pool).wf(),
        target is Shutdown || target is Stop,
        call_ensures(ThreadPoolInner::<T, Q>::shutdown_from, (pool, seen, target), r),
    ensures
        closes(*old(pool), *final(pool), target, r),
{
    assert forall|t: T| #[trigger]
        final(pool).queue().contents().count(Some(t)) == old(pool).queue().contents().count(
            Some(t),
        ) by {
        law_one_token_for_each_worker(*old(pool), *final(pool), target, r, t);
    }
    let any: T = arbitrary();
    law_one_token_for_each_worker(*old(pool), *final(pool), target, r, any);
}

/// The entries `tokens` were added to those of `before`, each of them at its own time, which is a
/// reading of the clock no later than `now`, and not behind others.
pub open spec fn added_at_once<T>(
    before: Multiset<Entry<Option<T>>>,
    tokens: Multiset<Entry<Option<T>>>,
    after: Multiset<Entry<Option<T>>>,
    now: u64,
) -> bool {
    &&& after == before.add(tokens)
    &&& forall|y: Entry<Option<T>>| #[trigger]
        tokens.contains(y) ==> y.val is None && !y.last && 0 <= y.time <= now
}

/// Tokens that are not put last are put at once.
proof fn lemma_tokens_are_put_at_once<T: Delayed>(
    q: DelayQueue<Option<T>>,
    n: nat,
    after: DelayQueue<Option<T>>,
)
    requires
        tokens_put(q, n, after, false),
    ensures
        exists|tokens: Multiset<Entry<Option<T>>>, now: u64|
            tokens.len() == n && #[trigger] added_at_once(q@, tokens, after@, now),
    decreases n,
{
    if n == 0 {
        let none = Multiset::<Entry<Option<T>>>::empty();
        assert(q@.add(none) =~= q@);
        assert(added_at_once(q@, none, after@, 0));
    } else {
        let mid = choose|mid: DelayQueue<Option<T>>|
            tokens_put(q, (n - 1) as nat, mid, false) && #[trigger] token_put(mid, after, false);
        lemma_tokens_are_put_at_once(q, (n - 1) as nat, mid);
        let (tokens, now) = choose|tokens: Multiset<Entry<Option<T>>>, now: u64|
            tokens.len() == n - 1 && #[trigger] added_at_once(q@, tokens, mid@, now);
        let t = choose|t: u64|
            #![trigger entry(None::<T>, t)]
            entry(None::<T>, t).time == t && after@ == mid@.insert(entry(None::<T>, t));
        let x = entry(None::<T>, t);
        let all = tokens.insert(x);
        assert(q@.add(all) =~= q@.add(tokens).insert(x));
        let latest = if t > now {
            t
        } else {
            now
        };
        assert forall|y: Entry<Option<T>>| #[trigger] all.contains(y) implies y.val is None
            && !y.last && 0 <= y.time <= latest by {
            if y != x {
                assert(tokens.contains(y));
            }
        }
        assert(added_at_once(q@, all, after@, latest));
    }
}

/// A stop does not wait for the tasks that are scheduled: its tokens, one for each worker, are put
/// into the queue at their own time, so that a worker that waits gets one as soon as no task is due.
/// A pool that was stopped before, or has ended, gets none.
pub proof fn law_stop_does_not_wait_for_scheduled_tasks<T: Delayed>(
    pool: &mut ThreadPoolInner<T, DelayQueue<Option<T>>>,
    r: Closing,
)
    requires
        old(pool).wf(),
        call_ensures(
            ThreadPoolInner::<T, DelayQueue<Option<T>>>::shutdown,
            (pool, Lifecycle::Stop),
            r,
        ),
    ensures
        exists|tokens: Multiset<Entry<Option<T>>>, now: u64|
            {
                &&& #[trigger] added_at_once(
                    old(pool).queue()@,
                    tokens,
                    final(pool).queue()@,
                    now,
                )
                &&& tokens.len() == (if old(pool)@.state.lifecycle is Running
                    || old(pool)@.state.lifecycle is Shutdown {
                    old(pool)@.state.workers
                } else {
                    0
                })
            },
        r.tokens == 0,
{
    let owed = if old(pool)@.state.lifecycle is Running || old(pool)@.state.lifecycle is Shutdown {
        old(pool)@.state.workers
    } else {
        0
    };
    lemma_tokens_are_put_at_once(old(pool).queue(), owed, final(pool).queue());
}

/// A shutdown empties no queue.
proof fn lemma_nothing_is_lost<T>(
    before: ThreadPoolInner<T, LinkedQueue<Option<T>>>,
    after: ThreadPoolInner<T, LinkedQueue<Option<T>>>,
    r: Closing,
)
    requires
        shut_down(before, after, Lifecycle::Shutdown, r),
        after.queue()@.items.len() == 0,
    ensures
        before.queue()@.items.len() == 0,
{
    broadcast use vstd::seq_lib::group_to_multiset_ensures;

    let items = before.queue()@.items;
    if items.len() > 0 {
        let task = if items[0] is Some {
            items[0]->0
        } else {
            arbitrary()
        };
        law_one_token_for_each_worker(before, after, Lifecycle::Shutdown, r, task);
        assert(items.contains(items[0]));
        assert(after.queue()@.items =~= Seq::<Option<T>>::empty());
        assert(items.to_multiset().count(items[0]) > 0);
        assert(after.queue().contents().count(items[0]) == 0);
    }
}

/// A shutdown lets the workers run what is queued: its tokens stand behind every task, in a queue of
/// delayed tasks also behind those whose delay has not expired.
pub proof fn law_shutdown_waits_for_queued_tasks<T: Delayed>(
    pool: &mut ThreadPoolInner<T, DelayQueue<Option<T>>>,
    r: Closing,
    other: &mut ThreadPoolInner<T, LinkedQueue<Option<T>>>,
    s: Closing,
)
    requires
        old(pool).wf() && final(pool).wf(),
        call_ensures(
            ThreadPoolInner::<T, DelayQueue<Option<T>>>::shutdown,
            (pool, Lifecycle::Shutdown),
            r,
        ),
        old(other).wf(),
        call_ensures(
            ThreadPoolInner::<T, LinkedQueue<Option<T>>>::shutdown,
            (other, Lifecycle::Shutdown),
            s,
        ),
    ensures
        exists|tokens: Multiset<Entry<Option<T>>>| #[trigger]
            added_behind(old(pool).queue()@, tokens, final(pool).queue()@),
        ({
            let items = old(other).queue()@.items;
            let after = final(other).queue()@.items;
            &&& items.len() <= after.len()
            &&& forall|i: int| 0 <= i < items.len() ==> #[trigger] after[i] == items[i]
            &&& forall|i: int| items.len() <= i < after.len() ==> #[trigger] after[i] is None
        }),
{
    law_tokens_come_last_in_a_delay_queue(*old(pool), *final(pool), r);
    let items = old(other).queue()@.items;
    let after = final(other).queue()@.items;
    assert forall|i: int| 0 <= i < after.len() implies items.len() <= after.len() && (i < items.len()
        ==> #[trigger] after[i] == items[i]) && (i >= items.len() ==> after[i] is None) by {
        law_tokens_come_last(*old(other), *final(other), Lifecycle::Shutdown, s, i);
    }
    if after.len() == 0 {
        lemma_nothing_is_lost(*old(other), *final(other), s);
    } else {
        law_tokens_come_last(*old(other), *final(other), Lifecycle::Shutdown, s, 0);
    }
}

} // verus!
