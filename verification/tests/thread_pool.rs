use std::cell::RefCell;
use std::rc::Rc;
use syncbox::duration::Duration;
use syncbox::linked_queue::LinkedQueue;
use syncbox::queue::{Attempt, Queue, SyncQueue};
use syncbox::run::{Run, Task};
use syncbox::thread_pool::pool::{Ending, Fate, Step, Submission, ThreadPoolInner, Worker};
use syncbox::thread_pool::state::{AtomicState, Lifecycle, State};
use syncbox::thread_pool::{Scheduled, ScheduledThreadPool, ThreadPool};

/// A task that sends its messages one by one.
struct Messages(Vec<&'static str>);

impl Task for Messages {
    fn run(self) {}
}

type Pool = ThreadPool<Messages, LinkedQueue<Option<Messages>>>;

/// A thread that runs a worker.
struct Thread<T> {
    worker: Option<Worker<T>>,
    task: Option<T>,
    ending: Option<Ending>,
}

impl<T> Thread<T> {
    fn start(worker: Worker<T>) -> Thread<T> {
        let mut worker = worker;
        worker.enter();
        Thread { worker: Some(worker), task: None, ending: None }
    }

    /// Gets the next task if there is one to be had.
    fn fetch<Q: SyncQueue<Option<T>>>(&mut self, inner: &mut ThreadPoolInner<T, Q>) {
        let worker = match &mut self.worker {
            Some(worker) => worker,
            None => return,
        };
        let mut step = worker.get_task(inner.core_mut());
        loop {
            match step {
                Step::Run(t) => {
                    self.task = Some(t);
                    return;
                }
                Step::Take => match inner.queue_mut().take() {
                    Attempt::Done(taken) => step = worker.took(inner.core_mut(), taken),
                    _ => return,
                },
                Step::Exit(ending) => {
                    worker.leave();
                    self.ending = Some(ending);
                    let worker = self.worker.take().unwrap();
                    let departure = worker.discard(inner);
                    assert_eq!(Ending::Goes, departure.ending);
                    assert!(departure.worker.is_none());
                    return;
                }
            }
        }
    }
}

/// Runs the threads side by side, each of them sending one message at a time.
fn run_all(pool: &mut Pool, threads: &mut Vec<Thread<Messages>>) -> Vec<&'static str> {
    let mut log = vec![];
    loop {
        let mut idle = true;
        for t in threads.iter_mut() {
            if t.task.is_none() {
                t.fetch(pool.inner_mut());
            }
            if let Some(task) = &mut t.task {
                idle = false;
                log.push(task.0.remove(0));
                if task.0.is_empty() {
                    t.task = None;
                }
            }
        }
        if idle {
            return log;
        }
    }
}

fn submit(pool: &mut Pool, threads: &mut Vec<Thread<Messages>>, msgs: Vec<&'static str>) -> Fate {
    let s: Submission<Messages> = pool.run(Messages(msgs));
    threads.extend(s.helper.map(Thread::start));
    threads.extend(s.worker.map(Thread::start));
    s.fate
}

#[test]
fn test_one_thread_basic() {
    let mut tp = ThreadPool::<_, LinkedQueue<Option<_>>>::single_thread();
    let log = std::sync::Arc::new(std::sync::Mutex::new(vec![]));
    let tx = log.clone();

    let s = tp.run(move || tx.lock().unwrap().push("hi"));
    assert_eq!(Fate::Handed, s.fate);
    let mut thread = Thread::start(s.worker.unwrap());
    thread.fetch(tp.inner_mut());
    thread.task.unwrap().run();
    assert_eq!(vec!["hi"], *log.lock().unwrap());
}

#[test]
fn test_two_thread_basic() {
    let mut tp: Pool = ThreadPool::<Messages, LinkedQueue<Option<Messages>>>::fixed_size(2);
    let mut threads = vec![];
    for _ in 0..2 {
        submit(&mut tp, &mut threads, vec!["hi", "bye"]);
    }
    assert_eq!(2, threads.len());
    assert_eq!(vec!["hi", "hi", "bye", "bye"], run_all(&mut tp, &mut threads));
}

#[test]
fn test_two_threads_task_queue_up() {
    let mut tp: Pool = ThreadPool::<Messages, LinkedQueue<Option<Messages>>>::fixed_size(2);
    let mut threads = vec![];
    for _ in 0..4 {
        submit(&mut tp, &mut threads, vec!["hi", "bye"]);
    }
    assert_eq!(2, threads.len());
    assert_eq!(
        vec!["hi", "hi", "bye", "bye", "hi", "hi", "bye", "bye"],
        run_all(&mut tp, &mut threads)
    );
}

#[test]
fn shutdown_lets_queued_tasks_finish() {
    let mut tp: Pool = ThreadPool::<Messages, LinkedQueue<Option<Messages>>>::fixed_size(2);
    let mut threads = vec![];
    for m in ["a", "b", "c", "d"] {
        submit(&mut tp, &mut threads, vec![m]);
    }
    assert!(!tp.is_shutdown());
    assert_eq!(0, tp.shutdown().tokens);
    assert!(tp.is_shutdown());
    assert!(!tp.await_termination());
    assert_eq!(0, tp.shutdown().tokens);
    assert_eq!(Fate::Refused, submit(&mut tp, &mut threads, vec!["e"]));
    assert_eq!(vec!["a", "b", "c", "d"], run_all(&mut tp, &mut threads));
    assert!(tp.await_termination());
    assert_eq!(Some(Ending::Goes), threads[0].ending);
    assert_eq!(Some(Ending::Ended), threads[1].ending);
}

#[test]
fn shutdown_now_drops_queued_tasks() {
    let mut tp: Pool = ThreadPool::<Messages, LinkedQueue<Option<Messages>>>::fixed_size(1);
    let mut threads = vec![];
    assert_eq!(Fate::Handed, submit(&mut tp, &mut threads, vec!["a"]));
    assert_eq!(Fate::Queued, submit(&mut tp, &mut threads, vec!["b"]));
    threads[0].fetch(tp.inner_mut());
    assert_eq!(0, tp.shutdown_now().tokens);
    assert_eq!(vec!["a"], run_all(&mut tp, &mut threads));
    assert_eq!(Some(Ending::Ended), threads[0].ending);
    assert!(tp.await_termination());
}

#[test]
fn pool_without_workers_ends_at_once() {
    let mut tp: Pool = ThreadPool::<Messages, LinkedQueue<Option<Messages>>>::single_thread();
    let closing = tp.shutdown();
    assert_eq!(Ending::Ended, closing.ending);
    assert_eq!(0, closing.tokens);
    assert!(!closing.wake);
    assert!(tp.await_termination());
    assert_eq!(Ending::Goes, tp.shutdown_now().ending);
    assert!(tp.prestart_core_thread().is_none());
}

#[test]
fn core_threads_are_started_ahead() {
    let mut tp: Pool = ThreadPool::new(3, 5, LinkedQueue::new());
    assert!(tp.prestart_core_thread().is_some());
    assert_eq!(2, tp.prestart_all_core_threads().len());
    assert!(tp.prestart_core_thread().is_none());
    assert_eq!(0, tp.prestart_all_core_threads().len());
}

#[test]
fn full_queue_makes_the_pool_grow() {
    let mut tp: Pool = ThreadPool::new(1, 2, LinkedQueue::with_capacity(1));
    let mut threads = vec![];
    assert_eq!(Fate::Handed, submit(&mut tp, &mut threads, vec!["a"]));
    assert_eq!(Fate::Queued, submit(&mut tp, &mut threads, vec!["b"]));
    assert_eq!(Fate::Handed, submit(&mut tp, &mut threads, vec!["c"]));
    assert_eq!(Fate::Refused, submit(&mut tp, &mut threads, vec!["d"]));
    assert_eq!(2, threads.len());
    // The tokens for the two workers do not fit behind the task
    assert_eq!(2, tp.shutdown().tokens);
    assert_eq!(vec!["a", "c", "b"], run_all(&mut tp, &mut threads));
}

#[test]
fn worker_that_panics_is_replaced() {
    let mut tp: Pool = ThreadPool::<Messages, LinkedQueue<Option<Messages>>>::fixed_size(1);
    let mut threads = vec![];
    submit(&mut tp, &mut threads, vec!["a"]);
    submit(&mut tp, &mut threads, vec!["b"]);
    let torn = threads.pop().unwrap().worker.unwrap();
    let departure = torn.discard(tp.inner_mut());
    assert_eq!(Ending::Goes, departure.ending);
    threads.push(Thread::start(departure.worker.unwrap()));
    // The task that was queued is run by the other worker
    assert_eq!(vec!["b"], run_all(&mut tp, &mut threads));
    assert_eq!(1, tp.inner_mut().core_mut().state().worker_count());
    assert_eq!(0, tp.shutdown_now().tokens);
    let torn = threads.pop().unwrap().worker.unwrap();
    let departure = torn.discard(tp.inner_mut());
    assert_eq!(Ending::Finalize, departure.ending);
    assert!(departure.worker.is_none());
    assert!(!tp.await_termination());
    assert_eq!(Ending::Ended, tp.inner_mut().core_mut().finalize_threadpool());
    assert!(tp.await_termination());
}

#[test]
fn worker_that_panics_after_the_shutdown_is_replaced() {
    let mut tp: Pool = ThreadPool::<Messages, LinkedQueue<Option<Messages>>>::fixed_size(1);
    let mut threads = vec![];
    submit(&mut tp, &mut threads, vec!["a"]);
    submit(&mut tp, &mut threads, vec!["b"]);
    assert_eq!(0, tp.shutdown().tokens);
    let torn = threads.pop().unwrap().worker.unwrap();
    let departure = torn.discard(tp.inner_mut());
    assert_eq!(Ending::Goes, departure.ending);
    threads.push(Thread::start(departure.worker.unwrap()));
    assert_eq!(vec!["b"], run_all(&mut tp, &mut threads));
    assert_eq!(Some(Ending::Ended), threads[0].ending);
    assert!(tp.await_termination());
}

#[test]
fn workers_beyond_the_core_size_are_not_replaced() {
    let mut tp: Pool = ThreadPool::new(1, 2, LinkedQueue::with_capacity(1));
    let mut threads = vec![];
    for m in ["a", "b", "c"] {
        submit(&mut tp, &mut threads, vec![m]);
    }
    assert_eq!(2, threads.len());
    let torn = threads.pop().unwrap().worker.unwrap();
    assert!(torn.discard(tp.inner_mut()).worker.is_none());
    assert_eq!(1, tp.inner_mut().core_mut().state().worker_count());
}

#[test]
fn last_worker_is_replaced_while_tasks_are_queued() {
    let mut tp: Pool = ThreadPool::new(0, 1, LinkedQueue::new());
    // A pool without a core starts a worker for what is queued
    let s = tp.run(Messages(vec!["a"]));
    assert_eq!(Fate::Queued, s.fate);
    assert!(s.worker.is_none());
    let thread = Thread::start(s.helper.unwrap());
    assert!(tp.run(Messages(vec!["b"])).helper.is_none());
    let departure = thread.worker.unwrap().discard(tp.inner_mut());
    assert_eq!(Ending::Goes, departure.ending);
    let mut threads = vec![Thread::start(departure.worker.unwrap())];
    assert_eq!(vec!["a", "b"], run_all(&mut tp, &mut threads));
    // Nobody is needed for an empty queue
    let departure = threads.pop().unwrap().worker.unwrap().discard(tp.inner_mut());
    assert_eq!(Ending::Goes, departure.ending);
    assert!(departure.worker.is_none());
}

#[test]
fn pool_that_may_have_no_worker_queues_tasks() {
    let mut tp: Pool = ThreadPool::new(0, 0, LinkedQueue::new());
    let s = tp.run(Messages(vec!["a"]));
    assert_eq!(Fate::Queued, s.fate);
    assert!(s.worker.is_none() && s.helper.is_none());
}

#[test]
fn tokens_of_an_idle_scheduled_pool_are_due_at_once() {
    let mut tp = ScheduledThreadPool::<Messages>::single_thread();
    let s = tp.run(Messages(vec!["now"]));
    let mut thread = Thread::start(s.helper.unwrap());
    thread.fetch(tp.inner_mut());
    assert!(thread.task.take().is_some());
    tp.inner_mut().shutdown(Lifecycle::Shutdown);
    thread.fetch(tp.inner_mut());
    assert_eq!(Some(Ending::Ended), thread.ending);
    assert!(tp.inner_mut().await_termination());
}

#[test]
fn scheduled_tasks_wait_in_the_queue() {
    let mut tp = ScheduledThreadPool::<Messages>::single_thread();
    let s = tp.schedule_ms(60_000, Messages(vec!["later"]));
    assert_eq!(Fate::Queued, s.fate);
    assert!(s.worker.is_none());
    let mut thread = Thread::start(s.helper.unwrap());
    let s = tp.run(Messages(vec!["now"]));
    assert_eq!(Fate::Queued, s.fate);
    assert!(s.worker.is_none() && s.helper.is_none());
    thread.fetch(tp.inner_mut());
    match thread.task.take().unwrap() {
        Scheduled::Delayed(m, d) => {
            assert_eq!(vec!["now"], m.0);
            assert_eq!(0, d.num_milliseconds());
        }
    }
    thread.fetch(tp.inner_mut());
    assert!(thread.task.is_none());
    assert!(!tp.inner_mut().queue_mut().is_empty());
}

#[test]
fn shutdown_lets_scheduled_tasks_run() {
    let mut tp = ScheduledThreadPool::<Messages>::single_thread();
    let s = tp.schedule_ms(20, Messages(vec!["later"]));
    assert!(s.wake);
    let mut thread = Thread::start(s.helper.unwrap());
    let closing = tp.inner_mut().shutdown(Lifecycle::Shutdown);
    assert_eq!(0, closing.tokens);
    assert!(closing.wake);
    thread.fetch(tp.inner_mut());
    assert!(thread.task.is_none() && thread.ending.is_none());
    while thread.task.is_none() {
        thread.fetch(tp.inner_mut());
    }
    match thread.task.take().unwrap() {
        Scheduled::Delayed(m, _) => assert_eq!(vec!["later"], m.0),
    }
    thread.fetch(tp.inner_mut());
    assert_eq!(Some(Ending::Ended), thread.ending);
}

#[test]
fn stop_does_not_wait_for_scheduled_tasks() {
    let mut tp = ScheduledThreadPool::<Messages>::single_thread();
    let s = tp.schedule_ms(60_000, Messages(vec!["later"]));
    let mut thread = Thread::start(s.helper.unwrap());
    thread.fetch(tp.inner_mut());
    tp.inner_mut().shutdown(Lifecycle::Stop);
    thread.fetch(tp.inner_mut());
    assert_eq!(Some(Ending::Ended), thread.ending);
}

#[test]
fn scheduled_pool_of_a_given_size() {
    let mut tp = ScheduledThreadPool::<Messages>::fixed_size(2);
    assert!(tp.schedule_ms(5, Messages(vec![])).helper.is_some());
    assert!(tp.schedule_ms(5, Messages(vec![])).helper.is_some());
    assert!(tp.schedule_ms(5, Messages(vec![])).helper.is_none());
}

#[test]
fn tasks_run() {
    let log = std::sync::Arc::new(std::sync::Mutex::new(0));
    let l = log.clone();
    Task::run(move || *l.lock().unwrap() += 1);
    let l = log.clone();
    Scheduled::Delayed(move || *l.lock().unwrap() += 10, Duration::milliseconds(3)).run();
    assert_eq!(11, *log.lock().unwrap());
}

#[test]
fn state_words() {
    let s = State::of(Lifecycle::Stop).with_worker().with_worker();
    assert_eq!(2 + 2 * 8, s.as_u32());
    assert_eq!(2, s.worker_count());
    assert_eq!(Lifecycle::Stop, s.lifecycle());
    assert!(s.lifecycle().is_stopped());
    assert_eq!(s, State::load(s.as_u32()));
    assert_eq!(1, s.without_worker().worker_count());
    assert!(s.with_lifecycle(Lifecycle::Terminated).is_terminated());
    let mut a = AtomicState::new(Lifecycle::Running);
    let seen = a.load();
    assert!(a.compare_and_inc_worker_count(seen));
    assert!(!a.compare_and_inc_worker_count(seen));
    assert_eq!(1, a.load().worker_count());
    a.transition_to_terminated();
    assert!(a.load().is_terminated());
    for code in 0..5 {
        assert_eq!(code, Lifecycle::from_u32(code).as_u32());
    }
}

#[test]
fn pools_can_be_shared() {
    let tp: Rc<RefCell<Pool>> =
        Rc::new(RefCell::new(ThreadPool::<Messages, LinkedQueue<Option<Messages>>>::single_thread()));
    let other = tp.clone();
    other.borrow_mut().shutdown();
    assert!(tp.borrow().is_shutdown());
}

#[test]
fn stale_reads_of_a_pool() {
    let mut inner: ThreadPoolInner<Messages, LinkedQueue<Option<Messages>>> =
        ThreadPoolInner::new(2, 2, LinkedQueue::new());
    let seen = inner.core_mut().state();
    assert!(inner.add_worker(None, true).is_ok());
    assert!(inner.add_worker_from(seen, None, true).is_ok());
    assert!(inner.add_worker_from(seen, None, true).is_err());
    assert_eq!(2, inner.core_mut().state().worker_count());
    assert_eq!(0, inner.shutdown_from(seen, Lifecycle::Stop).tokens);
    assert_eq!(Lifecycle::Stop, inner.core_mut().state().lifecycle());
    assert!(matches!(inner.queue_mut().take_opt(), Some(None)));
    assert!(matches!(inner.queue_mut().take_opt(), Some(None)));
    assert!(inner.queue_mut().take_opt().is_none());
}

#[test]
fn pool_that_is_shut_down_takes_no_task() {
    let mut tp: Pool = ThreadPool::new(2, 2, LinkedQueue::new());
    let mut threads = vec![];
    assert_eq!(Fate::Handed, submit(&mut tp, &mut threads, vec!["a"]));
    tp.shutdown();
    assert_eq!(Fate::Refused, submit(&mut tp, &mut threads, vec!["b"]));
    assert_eq!(1, threads.len());
}
