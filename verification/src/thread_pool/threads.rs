//! The pools that users hand their tasks to.
use super::pool::{
    shut_down, submitted, Closing, CoreView, Fate, Submission, ThreadPoolInner, Worker,
};
use super::state::{Lifecycle, StateView};
use crate::delay_queue::{Delayed, DelayQueue};
use crate::duration::Duration;
use crate::linked_queue::LinkedQueue;
use crate::queue::{Queue, SyncQueue};
use crate::run::{Run, Task};
use vstd::prelude::*;

verus! {

/// A queue that can be used to back a thread pool.
pub trait WorkQueue<T>: SyncQueue<Option<T>> {

}

impl<T, Q: SyncQueue<Option<T>>> WorkQueue<T> for Q {

}

/// A running pool without workers.
pub open spec fn fresh(core_pool_size: u32, maximum_pool_size: u32) -> CoreView {
    CoreView {
        state: StateView { lifecycle: Lifecycle::Running, workers: 0 },
        core_pool_size,
        maximum_pool_size,
    }
}

/// A pool of threads that run tasks.
pub struct ThreadPool<T: Task, Q: WorkQueue<T>> {
    inner: ThreadPoolInner<T, Q>,
}

impl<T: Task> ThreadPool<T, LinkedQueue<Option<T>>> {
    /// A pool of `size` threads.
    pub fn fixed_size(size: u32) -> (r: ThreadPool<T, LinkedQueue<Option<T>>>)
        ensures
            r.pool().wf(),
            r.pool()@ == fresh(size, size),
            r.pool().queue()@.items == Seq::<Option<T>>::empty(),
            r.pool().queue()@.capacity == usize::MAX,
    {
        ThreadPool::new(size, size, LinkedQueue::with_capacity(usize::MAX))
    }

    /// A pool of one thread.
    pub fn single_thread() -> (r: ThreadPool<T, LinkedQueue<Option<T>>>)
        ensures
            r.pool().wf(),
            r.pool()@ == fresh(1, 1),
            r.pool().queue()@.items == Seq::<Option<T>>::empty(),
            r.pool().queue()@.capacity == usize::MAX,
    {
        ThreadPool::<T, LinkedQueue<Option<T>>>::fixed_size(1)
    }
}

impl<T: Task, Q: WorkQueue<T>> ThreadPool<T, Q> {
    /// The state of the pool.
    pub closed spec fn pool(&self) -> ThreadPoolInner<T, Q> {
        self.inner
    }

    /// A pool over `work_queue` that starts `core_pool_size` threads before it
    /// queues tasks, and `maximum_pool_size` threads when the queue is full.
    pub fn new(core_pool_size: u32, maximum_pool_size: u32, work_queue: Q) -> (r: ThreadPool<T, Q>)
        requires
            work_queue.wf(),
        ensures
            r.pool().wf(),
            r.pool()@ == fresh(core_pool_size, maximum_pool_size),
            r.pool().queue() == work_queue,
    {
        ThreadPool { inner: ThreadPoolInner::new(core_pool_size, maximum_pool_size, work_queue) }
    }

    /// The state of the pool, for its workers.
    pub fn inner_mut(&mut self) -> (r: &mut ThreadPoolInner<T, Q>)
        ensures
            *r == old(self).pool(),
            final(self).pool() == *final(r),
    {
        &mut self.inner
    }

    /// Starts a thread if fewer than the core size run.
    pub fn prestart_core_thread(&mut self) -> (r: Option<Worker<T>>)
        requires
            old(self).pool().wf(),
        ensures
            final(self).pool().wf(),
            final(self).pool().queue() == old(self).pool().queue(),
            r is Some <==> old(self).pool()@.admits(false, old(self).pool().idle(), true),
            r matches Some(w) ==> w.first() is None && !w.unsettled() && final(self).pool()@ == old(
                self,
            ).pool()@.plus_workers(1),
            r is None ==> final(self).pool()@ == old(self).pool()@,
    {
        self.inner.prestart_core_thread()
    }

    /// Starts threads until the core size is reached.
    pub fn prestart_all_core_threads(&mut self) -> (r: Vec<Worker<T>>)
        requires
            old(self).pool().wf(),
        ensures
            final(self).pool().wf(),
            final(self).pool().queue() == old(self).pool().queue(),
            final(self).pool()@ == old(self).pool()@.plus_workers(r@.len() as int),
            !final(self).pool()@.admits(false, final(self).pool().idle(), true),
            forall|i: int|
                0 <= i < r@.len() ==> (#[trigger] r@[i]).first() is None && !r@[i].unsettled(),
            r@.len() > 0 ==> final(self).pool()@.state.workers <= old(self).pool()@.core_pool_size,
    {
        self.inner.prestart_all_core_threads()
    }

    /// Shuts the pool down: no new tasks are accepted, and those in the queue are
    /// run.
    pub fn shutdown(&mut self) -> (r: Closing)
        requires
            old(self).pool().wf(),
            Q::accepts(None),
        ensures
            final(self).pool().wf(),
            shut_down(old(self).pool(), final(self).pool(), Lifecycle::Shutdown, r),
    {
        self.inner.shutdown(Lifecycle::Shutdown)
    }

    /// Stops the pool: no new tasks are accepted, and those in the queue are not
    /// run.
    pub fn shutdown_now(&mut self) -> (r: Closing)
        requires
            old(self).pool().wf(),
            Q::accepts(None),
        ensures
            final(self).pool().wf(),
            shut_down(old(self).pool(), final(self).pool(), Lifecycle::Stop, r),
    {
        self.inner.shutdown(Lifecycle::Stop)
    }

    /// Whether the pool has been shut down.
    pub fn is_shutdown(&self) -> (r: bool)
        requires
            self.pool().wf(),
        ensures
            r == !(self.pool()@.state.lifecycle is Running),
    {
        self.inner.is_shutdown()
    }

    /// One turn of waiting for the end of the pool: whether it has ended.
    pub fn await_termination(&self) -> (r: bool)
        requires
            self.pool().wf(),
        ensures
            r == (self.pool()@.state.lifecycle is Terminated),
    {
        self.inner.await_termination()
    }
}

impl<T: Task, Q: WorkQueue<T>> Run<T> for ThreadPool<T, Q> {
    type Outcome = Submission<T>;

    open spec fn ready(&self) -> bool {
        self.pool().wf()
    }

    open spec fn runs(task: T) -> bool {
        Q::accepts(Some(task))
    }

    fn run(&mut self, task: T) -> (r: Submission<T>)
        ensures
            submitted(old(self).pool(), final(self).pool(), task, true, r),
    {
        self.inner.run(task, true)
    }
}

/// A task that is run after a delay.
#[derive(Debug)]
pub enum Scheduled<T> {
    Delayed(T, Duration),
}

impl<T> Delayed for Scheduled<T> {
    open spec fn delay_ns(&self) -> int {
        self->Delayed_1@
    }

    fn delay(&self) -> (r: Duration) {
        match self {
            Scheduled::Delayed(_, d) => *d,
        }
    }
}

impl<T: Task> Task for Scheduled<T> {
    open spec fn runnable(&self) -> bool {
        self->Delayed_0.runnable()
    }

    open spec fn done(&self) -> bool {
        self->Delayed_0.done()
    }

    fn run(self) {
        match self {
            Scheduled::Delayed(t, _) => t.run(),
        }
    }
}

/// A thread pool that can schedule tasks to run after a given delay. Delayed
/// tasks do not run before their associated delays, but besides that, there are
/// no real-time guarantees about exactly when the task will run.
pub struct ScheduledThreadPool<T: Task> {
    thread_pool: ThreadPool<Scheduled<T>, DelayQueue<Option<Scheduled<T>>>>,
}

impl<T: Task> ScheduledThreadPool<T> {
    /// The state of the pool.
    pub closed spec fn pool(&self) -> ThreadPoolInner<
        Scheduled<T>,
        DelayQueue<Option<Scheduled<T>>>,
    > {
        self.thread_pool.pool()
    }

    /// A pool of `size` threads.
    pub fn fixed_size(size: u32) -> (r: ScheduledThreadPool<T>)
        requires
            size > 0,
        ensures
            r.pool().wf(),
            r.pool()@ == fresh(size, size),
            r.pool().queue()@.len() == 0,
    {
        ScheduledThreadPool { thread_pool: ThreadPool::new(size, size, DelayQueue::new()) }
    }

    /// A pool of one thread.
    pub fn single_thread() -> (r: ScheduledThreadPool<T>)
        ensures
            r.pool().wf(),
            r.pool()@ == fresh(1, 1),
            r.pool().queue()@.len() == 0,
    {
        ScheduledThreadPool::fixed_size(1)
    }

    /// The pool, for its workers.
    pub fn inner_mut(&mut self) -> (r: &mut ThreadPoolInner<
        Scheduled<T>,
        DelayQueue<Option<Scheduled<T>>>,
    >)
        ensures
            *r == old(self).pool(),
            final(self).pool() == *final(r),
    {
        self.thread_pool.inner_mut()
    }

    /// Schedules `task` to run after `delay` milliseconds. It is queued if the
    /// pool runs, and dropped otherwise.
    pub fn schedule_ms(&mut self, delay: u32, task: T) -> (r: Submission<Scheduled<T>>)
        requires
            old(self).pool().wf(),
        ensures
            final(self).pool().wf(),
            exists|scheduled: Scheduled<T>|
                {
                    &&& scheduled->Delayed_0 == task
                    &&& scheduled.delay_ns() == delay * 1_000_000
                    &&& #[trigger] submitted(
                        old(self).pool(),
                        final(self).pool(),
                        scheduled,
                        false,
                        r,
                    )
                },
            r.worker is None,
            r.fate == (if old(self).pool()@.state.lifecycle is Running {
                Fate::Queued
            } else {
                Fate::Refused
            }),
    {
        let scheduled = Scheduled::Delayed(task, Duration::milliseconds(delay as i64));
        let r = self.thread_pool.inner.run(scheduled, false);
        assert(submitted(old(self).pool(), self.pool(), scheduled, false, r));
        r
    }
}

impl<T: Task> Run<T> for ScheduledThreadPool<T> {
    type Outcome = Submission<Scheduled<T>>;

    open spec fn ready(&self) -> bool {
        self.pool().wf()
    }

    open spec fn runs(task: T) -> bool {
        true
    }

    fn run(&mut self, task: T) -> (r: Submission<Scheduled<T>>)
        ensures
            exists|scheduled: Scheduled<T>|
                {
                    &&& scheduled->Delayed_0 == task
                    &&& scheduled.delay_ns() == 0
                    &&& #[trigger] submitted(
                        old(self).pool(),
                        final(self).pool(),
                        scheduled,
                        false,
                        r,
                    )
                },
            r.worker is None,
            r.fate == (if old(self).pool()@.state.lifecycle is Running {
                Fate::Queued
            } else {
                Fate::Refused
            }),
    {
        self.schedule_ms(0, task)
    }
}

} // verus!
