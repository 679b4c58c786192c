//! A pool of worker threads that share a queue of tasks.
//!
//! The pool never starts or wakes a thread itself. It hands out the `Worker`s
//! that are to be run on threads of their own, and says when those that wait
//! for the end of the pool are to be woken.
use super::state::{AtomicState, Lifecycle, State, StateView, CAPACITY};
use crate::queue::{Queue, SyncQueue};
use vstd::prelude::*;

verus! {

/// What a pool and its workers share.
pub ghost struct CoreView {
    pub state: StateView,
    /// The number of workers that are started before tasks are queued.
    pub core_pool_size: u32,
    /// The number of workers that are started at most.
    pub maximum_pool_size: u32,
}

impl CoreView {
    /// The core with `n` workers more.
    pub open spec fn plus_workers(self, n: int) -> CoreView {
        CoreView {
            state: StateView { workers: (self.state.workers + n) as nat, ..self.state },
            ..self
        }
    }

    /// The core in another state.
    pub open spec fn in_state(self, state: StateView) -> CoreView {
        CoreView { state, ..self }
    }

    /// The core in another lifecycle.
    pub open spec fn in_lifecycle(self, lifecycle: Lifecycle) -> CoreView {
        CoreView { state: StateView { lifecycle, ..self.state }, ..self }
    }

    /// How many workers may run, counted against the core size or against the
    /// maximum.
    pub open spec fn target(self, core: bool) -> u32 {
        if core {
            self.core_pool_size
        } else {
            self.maximum_pool_size
        }
    }

    /// Whether another worker may be started: not once the pool has stopped, in
    /// a pool that is shut down only if there is work, and only below the limits.
    pub open spec fn admits(self, has_task: bool, queue_empty: bool, core: bool) -> bool {
        &&& !self.state.lifecycle.stopped()
        &&& self.state.lifecycle is Shutdown ==> has_task || !queue_empty
        &&& self.state.workers < CAPACITY
        &&& self.state.workers < self.target(core)
    }

    /// The lifecycle after a shutdown that aims at `target`.
    pub open spec fn after_shutdown(self, target: Lifecycle) -> Lifecycle {
        match self.state.lifecycle {
            Lifecycle::Running => if self.state.workers == 0 {
                Lifecycle::Terminated
            } else {
                target
            },
            Lifecycle::Shutdown => target,
            l => l,
        }
    }

    /// Whether a shutdown that aims at `target` has anything to do.
    pub open spec fn shutdown_acts(self, target: Lifecycle) -> bool {
        self.state.lifecycle is Running || (self.state.lifecycle is Shutdown && !(
        target is Shutdown))
    }

    /// The core after one worker has left in good order: the last one ends the pool.
    pub open spec fn worker_left(self) -> CoreView {
        let rest = self.plus_workers(-1);
        if self.state.workers == 1 {
            rest.in_lifecycle(Lifecycle::Terminated)
        } else {
            rest
        }
    }

    /// Whether the pool has ended once a worker has left in good order.
    pub open spec fn ends(self) -> Ending {
        if self.state.workers == 1 {
            Ending::Ended
        } else {
            Ending::Goes
        }
    }

    /// Whether a worker that was torn out of its run is replaced: to keep up the core
    /// size, and where nobody is left to run what is in the queue.
    pub open spec fn replaces(self, queue_empty: bool) -> bool {
        let rest = self.plus_workers(-1);
        ||| rest.admits(false, queue_empty, true)
        ||| rest.state.workers == 0 && !queue_empty && rest.admits(false, queue_empty, false)
    }

    /// The core after one worker was torn out of its run.
    pub open spec fn worker_torn(self, queue_empty: bool) -> CoreView {
        if self.replaces(queue_empty) {
            self
        } else {
            self.plus_workers(-1)
        }
    }

    /// Who ends the pool after one worker was torn out of its run: the last one that is
    /// not replaced leaves the end of a pool that no longer runs to somebody else.
    pub open spec fn torn_ends(self, queue_empty: bool) -> Ending {
        if self.state.workers == 1 && !(self.state.lifecycle is Running) && !self.replaces(
            queue_empty,
        ) {
            Ending::Finalize
        } else {
            Ending::Goes
        }
    }
}

/// What follows from a worker leaving.
#[derive(Debug, Clone, Copy, PartialEq, Eq, Structural)]
pub enum Ending {
    /// Nothing: the pool goes on.
    Goes,
    /// The pool has ended: all those that wait for it are to be woken.
    Ended,
    /// `finalize_threadpool` is to be called from another thread.
    Finalize,
}

/// What a shutdown comes to.
#[derive(Debug, Clone, Copy, PartialEq, Eq, Structural)]
pub struct Closing {
    /// The number of tokens that are still to be put because the queue is full.
    pub tokens: u32,
    /// Whether the pool has ended, so that those that wait for it are to be woken.
    pub ending: Ending,
    /// Whether the workers that wait for a task have to be woken.
    pub wake: bool,
}

/// What a pool and its workers share.
pub struct Core {
    state: AtomicState,
    core_pool_size: u32,
    maximum_pool_size: u32,
}

impl Core {
    /// The invariant of the core.
    pub closed spec fn wf(self) -> bool {
        self.state.wf()
    }

    /// What the core holds.
    pub closed spec fn view(&self) -> CoreView {
        CoreView {
            state: self.state@,
            core_pool_size: self.core_pool_size,
            maximum_pool_size: self.maximum_pool_size,
        }
    }

    /// The core of a running pool without workers.
    pub fn new(core_pool_size: u32, maximum_pool_size: u32) -> (r: Core)
        ensures
            r.wf(),
            r@ == (CoreView {
                state: StateView { lifecycle: Lifecycle::Running, workers: 0 },
                core_pool_size,
                maximum_pool_size,
            }),
    {
        Core { state: AtomicState::new(Lifecycle::Running), core_pool_size, maximum_pool_size }
    }

    /// The control state.
    pub fn state(&self) -> (r: State)
        requires
            self.wf(),
        ensures
            r.wf(),
            r@ == self@.state,
    {
        self.state.load()
    }

    /// One turn of waiting for the end of the pool: whether it has ended.
    pub fn await_termination(&self) -> (r: bool)
        requires
            self.wf(),
        ensures
            r == (self@.state.lifecycle is Terminated),
    {
        self.state.load().is_terminated()
    }

    /// Ends the pool.
    pub fn finalize_threadpool(&mut self) -> (r: Ending)
        requires
            old(self).wf(),
        ensures
            r is Ended,
            final(self).wf(),
            final(self)@ == old(self)@.in_lifecycle(Lifecycle::Terminated),
    {
        self.state.transition_to_terminated();
        Ending::Ended
    }

    /// Notes that one worker leaves in good order.
    pub fn decrement_worker_count(&mut self) -> (r: Ending)
        requires
            old(self).wf(),
            old(self)@.state.workers >= 1,
        ensures
            final(self).wf(),
            final(self)@ == old(self)@.worker_left(),
            r == old(self)@.ends(),
    {
        let state = self.state.fetch_dec_worker_count();
        if state.worker_count() == 1 {
            return self.finalize_threadpool();
        }
        Ending::Goes
    }
}

/// A worker of a pool, to be run on a thread of its own.
#[derive(Debug)]
pub struct Worker<T> {
    /// The task to run when the thread first starts.
    initial_task: Option<T>,
    /// Whether the worker is between the start and the orderly end of its run.
    panicked: bool,
}

/// What a worker has to do next.
#[derive(Debug)]
pub enum Step<T> {
    /// To run the task, then to ask again.
    Run(T),
    /// To take from the queue, blocking, and to report what came.
    Take,
    /// To end.
    Exit(Ending),
}

impl<T> Worker<T> {
    /// The task that the worker starts with.
    pub closed spec fn first(self) -> Option<T> {
        self.initial_task
    }

    /// Whether the worker is between the start and the orderly end of its run.
    pub closed spec fn unsettled(self) -> bool {
        self.panicked
    }

    /// A worker that starts with `initial_task`.
    pub fn new(initial_task: Option<T>) -> (r: Worker<T>)
        ensures
            r.first() == initial_task,
            !r.unsettled(),
    {
        Worker { initial_task, panicked: false }
    }

    /// Notes that the run of the worker begins.
    pub fn enter(&mut self)
        ensures
            final(self).unsettled(),
            final(self).first() == old(self).first(),
    {
        self.panicked = true;
    }

    /// Notes that the run of the worker has ended in good order.
    pub fn leave(&mut self)
        ensures
            !final(self).unsettled(),
            final(self).first() == old(self).first(),
    {
        self.panicked = false;
    }

    /// Notes that the worker is gone. One that was torn out of its run is counted off, and
    /// replaced if it is needed.
    pub fn discard<Q: SyncQueue<Option<T>>>(self, pool: &mut ThreadPoolInner<T, Q>) -> (r:
        Departure<T>)
        requires
            old(pool).wf(),
            self.unsettled() ==> old(pool)@.state.workers >= 1,
        ensures
            final(pool).wf(),
            final(pool).queue() == old(pool).queue(),
            self.unsettled() ==> departed(old(pool)@, old(pool).idle(), final(pool)@, r),
            !self.unsettled() ==> final(pool)@ == old(pool)@ && r.ending is Goes && r.worker is None,
    {
        if self.panicked {
            pool.replace_worker()
        } else {
            Departure { ending: Ending::Goes, worker: None }
        }
    }

    /// What a worker does next that has the task `task`, if any, in its hands:
    /// it leaves a pool that has stopped, and drops the task; it runs the task;
    /// it leaves a pool with too many workers; else it takes from the queue.
    pub open spec fn next_step(core: CoreView, task: Option<T>) -> (CoreView, Step<T>) {
        if core.state.lifecycle.stopped() {
            (core.worker_left(), Step::Exit(core.ends()))
        } else if task is Some {
            (core, Step::Run(task->0))
        } else if core.state.workers > core.maximum_pool_size {
            (core.plus_workers(-1), Step::Exit(Ending::Goes))
        } else {
            (core, Step::Take)
        }
    }

    /// Begins to get the next task.
    pub fn get_task(&mut self, core: &mut Core) -> (r: Step<T>)
        requires
            old(core).wf(),
            old(core)@.state.workers >= 1,
        ensures
            final(core).wf(),
            (final(core)@, r) == Worker::next_step(old(core)@, old(self).first()),
            final(self).first() is None,
            final(self).unsettled() == old(self).unsettled(),
    {
        let task = self.initial_task.take();
        Self::proceed(core, task)
    }

    /// Goes on to get the next task, with what came from the queue. The token
    /// `None` tells the worker to end.
    pub fn took(&mut self, core: &mut Core, taken: Option<T>) -> (r: Step<T>)
        requires
            old(core).wf(),
            old(core)@.state.workers >= 1,
        ensures
            final(core).wf(),
            *final(self) == *old(self),
            taken is Some ==> (final(core)@, r) == Worker::next_step(old(core)@, taken),
            taken is None ==> final(core)@ == old(core)@.worker_left() && r
                == Step::<T>::Exit(old(core)@.ends()),
    {
        match taken {
            Some(t) => Self::proceed(core, Some(t)),
            None => Step::Exit(core.decrement_worker_count()),
        }
    }

    fn proceed(core: &mut Core, task: Option<T>) -> (r: Step<T>)
        requires
            old(core).wf(),
            old(core)@.state.workers >= 1,
        ensures
            final(core).wf(),
            (final(core)@, r) == Worker::next_step(old(core)@, task),
    {
        let state = core.state.load();
        if state.lifecycle().is_stopped() {
            return Step::Exit(core.decrement_worker_count());
        }
        match task {
            Some(t) => Step::Run(t),
            None => {
                if state.worker_count() > core.maximum_pool_size {
                    let _ = core.state.compare_and_dec_worker_count(state);
                    return Step::Exit(Ending::Goes);
                }
                Step::Take
            },
        }
    }
}

/// What follows from a worker being torn out of its run.
#[derive(Debug)]
pub struct Departure<T> {
    /// Who ends the pool.
    pub ending: Ending,
    /// A worker to start in its place.
    pub worker: Option<Worker<T>>,
}

/// What became of a task that was handed to a pool.
#[derive(Debug, Clone, Copy, PartialEq, Eq, Structural)]
pub enum Fate {
    /// It is the first task of a new worker.
    Handed,
    /// It is in the queue.
    Queued,
    /// It was dropped.
    Refused,
}

/// What handing a task to a pool comes to.
#[derive(Debug)]
pub struct Submission<T> {
    /// A worker to start that takes from the queue.
    pub helper: Option<Worker<T>>,
    /// A worker to start that has the task.
    pub worker: Option<Worker<T>>,
    /// What became of the task.
    pub fate: Fate,
    /// Whether a worker that waits for a task has to be woken.
    pub wake: bool,
}

/// The state of a pool.
pub struct ThreadPoolInner<T, Q: SyncQueue<Option<T>>> {
    core: Core,
    work_queue: Q,
    task: core::marker::PhantomData<T>,
}

impl<T, Q: SyncQueue<Option<T>>> ThreadPoolInner<T, Q> {
    /// The invariant of the pool.
    pub closed spec fn wf(self) -> bool {
        self.core.wf() && self.work_queue.wf()
    }

    /// What the pool and its workers share.
    pub closed spec fn view(&self) -> CoreView {
        self.core@
    }

    /// The queue of the pool.
    pub closed spec fn queue(self) -> Q {
        self.work_queue
    }

    /// The queue of a pool keeps its invariant.
    pub proof fn lemma_queue(self)
        requires
            self.wf(),
        ensures
            self.queue().wf(),
    {
    }

    /// Whether the queue of the pool is empty.
    pub open spec fn idle(self) -> bool {
        self.queue().contents().len() == 0
    }

    /// A running pool without workers.
    pub fn new(core_pool_size: u32, maximum_pool_size: u32, work_queue: Q) -> (r: ThreadPoolInner<
        T,
        Q,
    >)
        requires
            work_queue.wf(),
        ensures
            r.wf(),
            r@ == (CoreView {
                state: StateView { lifecycle: Lifecycle::Running, workers: 0 },
                core_pool_size,
                maximum_pool_size,
            }),
            r.queue() == work_queue,
    {
        ThreadPoolInner {
            core: Core::new(core_pool_size, maximum_pool_size),
            work_queue,
            task: core::marker::PhantomData,
        }
    }

    /// The part of the pool that its workers share.
    pub fn core_mut(&mut self) -> (r: &mut Core)
        requires
            old(self).wf(),
        ensures
            r.wf(),
            r@ == old(self)@,
            final(self)@ == final(r)@,
            final(self).queue() == old(self).queue(),
            final(r).wf() ==> final(self).wf(),
    {
        &mut self.core
    }

    /// The queue of the pool.
    pub fn queue_mut(&mut self) -> (r: &mut Q)
        requires
            old(self).wf(),
        ensures
            r.wf(),
            *r == old(self).queue(),
            final(self)@ == old(self)@,
            final(self).queue() == *final(r),
            final(r).wf() ==> final(self).wf(),
    {
        &mut self.work_queue
    }

    /// Starts a worker without a task if fewer than the core size run.
    pub fn prestart_core_thread(&mut self) -> (r: Option<Worker<T>>)
        requires
            old(self).wf(),
        ensures
            final(self).wf(),
            final(self).queue() == old(self).queue(),
            r is Some <==> old(self)@.admits(false, old(self).idle(), true),
            r matches Some(w) ==> w.first() is None && !w.unsettled() && final(self)@
                == old(self)@.plus_workers(1),
            r is None ==> final(self)@ == old(self)@,
    {
        match self.add_worker(None, true) {
            Ok(w) => Some(w),
            Err(_) => None,
        }
    }

    /// Starts workers without a task until the core size is reached.
    pub fn prestart_all_core_threads(&mut self) -> (r: Vec<Worker<T>>)
        requires
            old(self).wf(),
        ensures
            final(self).wf(),
            final(self).queue() == old(self).queue(),
            final(self)@ == old(self)@.plus_workers(r@.len() as int),
            !final(self)@.admits(false, final(self).idle(), true),
            forall|i: int|
                0 <= i < r@.len() ==> (#[trigger] r@[i]).first() is None && !r@[i].unsettled(),
            r@.len() > 0 ==> final(self)@.state.workers <= old(self)@.core_pool_size,
    {
        let mut workers: Vec<Worker<T>> = Vec::new();
        loop
            invariant
                self.wf(),
                self.queue() == old(self).queue(),
                self@ == old(self)@.plus_workers(workers@.len() as int),
                forall|i: int|
                    0 <= i < workers@.len() ==> (#[trigger] workers@[i]).first() is None
                        && !workers@[i].unsettled(),
                workers@.len() > 0 ==> self@.state.workers <= old(self)@.core_pool_size,
            decreases self@.core_pool_size - self@.state.workers,
        {
            match self.add_worker(None, true) {
                Ok(w) => workers.push(w),
                Err(_) => {
                    return workers;
                },
            }
        }
    }

    /// Counts a worker off that was torn out of its run. Another one is to be started in
    /// its place to keep up the core size, or where nobody is left to run what is in the
    /// queue.
    pub fn replace_worker(&mut self) -> (r: Departure<T>)
        requires
            old(self).wf(),
            old(self)@.state.workers >= 1,
        ensures
            final(self).wf(),
            final(self).queue() == old(self).queue(),
            departed(old(self)@, old(self).idle(), final(self)@, r),
    {
        let state = self.core.state.fetch_dec_worker_count();
        let last = state.worker_count() == 1;
        match self.add_worker(None, true) {
            Ok(w) => {
                return Departure { ending: Ending::Goes, worker: Some(w) };
            },
            Err(_) => {},
        }
        if last && !self.work_queue.is_empty() {
            match self.add_worker(None, false) {
                Ok(w) => {
                    return Departure { ending: Ending::Goes, worker: Some(w) };
                },
                Err(_) => {},
            }
        }
        if last && !state.is_running() {
            return Departure { ending: Ending::Finalize, worker: None };
        }
        Departure { ending: Ending::Goes, worker: None }
    }

    /// Hands a task to the pool.
    ///
    /// If fewer than the core size of workers run, an immediate task becomes the
    /// first task of a new worker, and for any other task a worker is started.
    /// Otherwise the task is queued if the queue has room, and a worker is started if
    /// there is none. A full queue makes the pool grow to its maximum. A pool that has
    /// been shut down, or has no more room, drops the task.
    pub fn run(&mut self, task: T, immediate: bool) -> (r: Submission<T>)
        requires
            old(self).wf(),
            Q::accepts(Some(task)),
        ensures
            final(self).wf(),
            submitted(*old(self), *final(self), task, immediate, r),
    {
        let mut task = task;
        let mut helper: Option<Worker<T>> = None;
        let mut state = self.core.state.load();
        if state.worker_count() < self.core.core_pool_size {
            if immediate {
                if state.is_running() {
                    match self.add_worker(Some(task), true) {
                        Ok(w) => {
                            return Submission { helper, worker: Some(w), fate: Fate::Handed, wake: false };
                        },
                        Err(t) => {
                            task = t.unwrap();
                        },
                    }
                }
            } else {
                match self.add_worker(None, false) {
                    Ok(w) => {
                        helper = Some(w);
                    },
                    Err(_) => {},
                }
            }
            state = self.core.state.load();
        }
        if state.is_running() {
            match self.work_queue.offer(Some(task)) {
                Ok(_) => {
                    if state.worker_count() == 0 {
                        match self.add_worker(None, false) {
                            Ok(w) => {
                                helper = Some(w);
                            },
                            Err(_) => {},
                        }
                    }
                    Submission { helper, worker: None, fate: Fate::Queued, wake: true }
                },
                Err(t) => {
                    match self.add_worker(t, false) {
                        Ok(w) => Submission { helper, worker: Some(w), fate: Fate::Handed, wake: false },
                        Err(_) => Submission { helper, worker: None, fate: Fate::Refused, wake: false },
                    }
                },
            }
        } else {
            Submission { helper, worker: None, fate: Fate::Refused, wake: false }
        }
    }

    /// Shuts the pool down, aiming at `target`. A pool without workers ends at
    /// once. Otherwise one token `None` is queued for each worker, so that those
    /// that wait for a task look at the state: behind the tasks that are in the queue
    /// if these are to be run, else ahead of those whose time has not come.
    pub fn shutdown(&mut self, target: Lifecycle) -> (r: Closing)
        requires
            old(self).wf(),
            target is Shutdown || target is Stop,
            Q::accepts(None),
        ensures
            final(self).wf(),
            shut_down(*old(self), *final(self), target, r),
    {
        let state = self.core.state.load();
        self.shutdown_from(state, target)
    }

    /// Shuts the pool down, on the side of a caller that has read the state `state`,
    /// which the pool may have left since for a later one.
    pub fn shutdown_from(&mut self, state: State, target: Lifecycle) -> (r: Closing)
        requires
            old(self).wf(),
            target is Shutdown || target is Stop,
            Q::accepts(None),
            state.wf(),
            state@.lifecycle.rank() <= old(self)@.state.lifecycle.rank(),
        ensures
            final(self).wf(),
            shut_down(*old(self), *final(self), target, r),
    {
        let mut state = state;
        let mut next = state;
        loop
            invariant_except_break
                *self == *old(self),
                self.wf(),
                target is Shutdown || target is Stop,
                state.wf(),
                state@.lifecycle.rank() <= self@.state.lifecycle.rank(),
            ensures
                self.wf(),
                old(self)@.shutdown_acts(target),
                self@ == old(self)@.in_lifecycle(old(self)@.after_shutdown(target)),
                self.queue() == old(self).queue(),
                next.wf(),
                next@ == self@.state,
            decreases (if state == self.core.state.held() { 0int } else { 1int }),
        {
            proof {
                self.core.state.lemma_held();
            }
            next = match state.lifecycle() {
                Lifecycle::Running => {
                    if state.worker_count() == 0 {
                        state.with_lifecycle(Lifecycle::Terminated)
                    } else {
                        state.with_lifecycle(target)
                    }
                },
                Lifecycle::Shutdown => {
                    if target == Lifecycle::Shutdown {
                        return Closing { tokens: 0, ending: Ending::Goes, wake: false };
                    }
                    state.with_lifecycle(target)
                },
                _ => {
                    return Closing { tokens: 0, ending: Ending::Goes, wake: false };
                },
            };
            let actual = self.core.state.compare_and_swap(state, next);
            if actual == state {
                break;
            }
            state = actual;
        }
        if next.is_terminated() {
            return Closing { tokens: 0, ending: Ending::Ended, wake: false };
        }
        let cnt: u32 = next.worker_count();
        let mut i: u32 = 0;
        while i < cnt
            invariant
                i <= cnt,
                cnt == old(self)@.state.workers,
                old(self)@.shutdown_acts(target),
                self.wf(),
                self@ == old(self)@.in_lifecycle(old(self)@.after_shutdown(target)),
                Q::accepts(None),
                tokens_put(old(self).queue(), i as nat, self.queue(), target is Shutdown),
                !(self@.state.lifecycle is Terminated),
            decreases cnt - i,
        {
            let ghost mid = self.queue();
            if !self.put_token(target) {
                return Closing { tokens: cnt - i, ending: Ending::Goes, wake: true };
            }
            i += 1;
            assert(token_put(mid, self.queue(), target is Shutdown));
        }
        Closing { tokens: 0, ending: Ending::Goes, wake: cnt > 0 }
    }

    /// Puts one token of a shutdown that aims at `target`, and says whether the queue had
    /// room for it. Then a worker that waits has to be woken.
    pub fn put_token(&mut self, target: Lifecycle) -> (r: bool)
        requires
            old(self).wf(),
            Q::accepts(None),
        ensures
            final(self).wf(),
            final(self)@ == old(self)@,
            r <==> !old(self).queue().full(),
            r ==> token_put(old(self).queue(), final(self).queue(), target is Shutdown),
            !r ==> final(self).queue() == old(self).queue(),
    {
        let put = if target == Lifecycle::Shutdown {
            self.work_queue.put_last(None)
        } else {
            self.work_queue.put(None)
        };
        put.is_ok()
    }

    /// Whether the pool has been shut down.
    pub fn is_shutdown(&self) -> (r: bool)
        requires
            self.wf(),
        ensures
            r == !(self@.state.lifecycle is Running),
    {
        !self.core.state.load().is_running()
    }

    /// One turn of waiting for the end of the pool: whether it has ended.
    pub fn await_termination(&self) -> (r: bool)
        requires
            self.wf(),
        ensures
            r == (self@.state.lifecycle is Terminated),
    {
        self.core.await_termination()
    }

    /// Starts a worker with `task`, counted against the core size or against the
    /// maximum, or hands the task back if none may be started.
    pub fn add_worker(&mut self, task: Option<T>, core: bool) -> (r: Result<Worker<T>, Option<T>>)
        requires
            old(self).wf(),
        ensures
            final(self).wf(),
            final(self).queue() == old(self).queue(),
            r is Ok <==> old(self)@.admits(task is Some, old(self).idle(), core),
            r matches Ok(w) ==> w.first() == task && !w.unsettled() && final(self)@
                == old(self)@.plus_workers(1),
            r matches Err(t) ==> t == task && final(self)@ == old(self)@,
    {
        let state = self.core.state.load();
        self.add_worker_from(state, task, core)
    }

    /// Starts a worker with `task`, on the side of a caller that has read the state
    /// `seen`, which the pool may have left since: both must admit the worker.
    pub fn add_worker_from(&mut self, seen: State, task: Option<T>, core: bool) -> (r: Result<
        Worker<T>,
        Option<T>,
    >)
        requires
            old(self).wf(),
            seen.wf(),
        ensures
            final(self).wf(),
            final(self).queue() == old(self).queue(),
            r is Ok <==> old(self)@.in_state(seen@).admits(
                task is Some,
                old(self).idle(),
                core,
            ) && old(self)@.admits(task is Some, old(self).idle(), core),
            r matches Ok(w) ==> w.first() == task && !w.unsettled() && final(self)@
                == old(self)@.plus_workers(1),
            r matches Err(t) ==> t == task && final(self)@ == old(self)@,
    {
        let target: u32 = if core {
            self.core.core_pool_size
        } else {
            self.core.maximum_pool_size
        };
        let mut state = seen;
        loop
            invariant
                *self == *old(self),
                self.wf(),
                state.wf(),
                target == self@.target(core),
                state == seen || (state == self.core.state.held() && self@.in_state(seen@).admits(
                    task is Some,
                    self.idle(),
                    core,
                )),
            decreases (if state == self.core.state.held() { 0int } else { 1int }),
        {
            proof {
                self.core.state.lemma_held();
            }
            let lifecycle = state.lifecycle();
            if lifecycle.is_stopped() {
                return Err(task);
            }
            if lifecycle == Lifecycle::Shutdown {
                if task.is_none() && self.work_queue.is_empty() {
                    return Err(task);
                }
            }
            let wc: u32 = state.worker_count();
            if wc >= CAPACITY || wc >= target {
                return Err(task);
            }
            if self.core.state.compare_and_inc_worker_count(state) {
                return Ok(Worker::new(task));
            }
            state = self.core.state.load();
        }
    }
}

/// What handing a task to a pool does to it.
pub open spec fn submitted<T, Q: SyncQueue<Option<T>>>(
    before: ThreadPoolInner<T, Q>,
    after: ThreadPoolInner<T, Q>,
    task: T,
    immediate: bool,
    r: Submission<T>,
) -> bool {
    let c = before@;
    let q = before.queue();
    let below = c.state.workers < c.core_pool_size;
    let hands = immediate && below && c.state.lifecycle is Running && c.admits(
        true,
        before.idle(),
        true,
    );
    let helps = !immediate && below && c.admits(false, before.idle(), false);
    let c1 = if helps {
        c.plus_workers(1)
    } else {
        c
    };
    let grows = c.state.lifecycle is Running && q.full() && c1.admits(true, before.idle(), false);
    let revives = r.fate is Queued && c1.state.workers == 0 && c1.admits(false, false, false);
    &&& r.fate == (if hands {
        Fate::Handed
    } else if c.state.lifecycle is Running && !q.full() {
        Fate::Queued
    } else if grows {
        Fate::Handed
    } else {
        Fate::Refused
    })
    &&& r.wake <==> r.fate is Queued
    &&& r.helper is Some <==> helps || revives
    &&& r.helper matches Some(w) ==> w.first() is None && !w.unsettled()
    &&& r.worker is Some <==> r.fate is Handed
    &&& r.worker matches Some(w) ==> w.first() == Some(task) && !w.unsettled()
    &&& after@ == (if r.fate is Handed || revives {
        c1.plus_workers(1)
    } else {
        c1
    })
    &&& if r.fate is Queued {
        &&& after.queue().contents() == q.contents().insert(Some(task))
        &&& q.offered(Some(task), after.queue())
    } else {
        after.queue() == q
    }
}

/// What a worker that was torn out of its run leaves behind.
pub open spec fn departed<T>(
    before: CoreView,
    queue_empty: bool,
    after: CoreView,
    r: Departure<T>,
) -> bool {
    &&& after == before.worker_torn(queue_empty)
    &&& r.ending == before.torn_ends(queue_empty)
    &&& r.worker is Some <==> before.replaces(queue_empty)
    &&& r.worker matches Some(w) ==> w.first() is None && !w.unsettled()
}

/// What a shutdown that aims at `target` does to a pool.
pub open spec fn shut_down<T, Q: SyncQueue<Option<T>>>(
    before: ThreadPoolInner<T, Q>,
    after: ThreadPoolInner<T, Q>,
    target: Lifecycle,
    r: Closing,
) -> bool {
    let owed = if before@.shutdown_acts(target) {
        before@.state.workers as int
    } else {
        0
    };
    &&& after@ == before@.in_lifecycle(before@.after_shutdown(target))
    &&& 0 <= r.tokens <= owed
    &&& tokens_put(before.queue(), (owed - r.tokens) as nat, after.queue(), target is Shutdown)
    &&& r.tokens > 0 ==> after.queue().full()
    &&& r.wake <==> owed > 0
    &&& r.ending == (if before@.state.lifecycle is Running && before@.state.workers == 0 {
        Ending::Ended
    } else {
        Ending::Goes
    })
}

/// The queue `q` has become `after` by one token, put behind everything in the queue or
/// not.
pub open spec fn token_put<T, Q: SyncQueue<Option<T>>>(q: Q, after: Q, last: bool) -> bool {
    &&& !q.full()
    &&& if last {
        q.offered_last(None, after)
    } else {
        q.offered(None, after)
    }
    &&& after.contents() == q.contents().insert(None)
}

/// The queue `q` has become `after` by `n` tokens that were put one by one.
pub open spec fn tokens_put<T, Q: SyncQueue<Option<T>>>(q: Q, n: nat, after: Q, last: bool) -> bool
    decreases n,
{
    if n == 0 {
        after == q
    } else {
        exists|mid: Q|
            tokens_put(q, (n - 1) as nat, mid, last) && #[trigger] token_put(mid, after, last)
    }
}

} // verus!
