use std::cell::RefCell;
use std::rc::Rc;
use syncbox::future::future::{Cancel, Future, FutureErrorKind, FutureResult, SyncFuture};
use syncbox::future::val::{
    cancelation, cloner, Delivery, FutureImpl, InterestStep, InterestTake, Notice, Producer,
    ReceiveStep, TakeStep,
};
use syncbox::future::{future, FutureVal};

type Cloner<T> = fn(&FutureResult<T>) -> FutureResult<T>;
type Callback<T> = Box<dyn FnOnce(FutureResult<T>)>;
type ProducerCallback<T> = Box<dyn FnOnce(FutureResult<Producer<T>>)>;
type Cell<T> = Rc<RefCell<FutureImpl<T, Cloner<T>, Callback<T>, ProducerCallback<T>, u32>>>;

/// What came, in the order in which it came.
struct Log<V> {
    entries: Rc<RefCell<Vec<V>>>,
}

impl<V: Clone> Log<V> {
    fn new() -> Log<V> {
        Log { entries: Rc::new(RefCell::new(vec![])) }
    }

    fn again(&self) -> Log<V> {
        Log { entries: self.entries.clone() }
    }

    fn send(&self, v: V) {
        self.entries.borrow_mut().push(v);
    }

    fn all(&self) -> Vec<V> {
        self.entries.borrow().clone()
    }
}

fn pair<T: 'static>() -> (Cell<T>, FutureVal<T>, Producer<T>) {
    let (cell, f, c) = future();
    (Rc::new(RefCell::new(cell)), f, c)
}

/// Tells the producer. The result is the thread to unpark, if any.
fn notify<T>(n: Notice<T, ProducerCallback<T>, u32>) -> Option<u32> {
    match n {
        Notice::Nobody => None,
        Notice::Invoke(f, p) => {
            f(p);
            None
        }
        Notice::Unpark(thread) => Some(thread),
    }
}

/// Receives, and returns the threads that were unparked on the way.
fn receive<T: 'static>(cell: &Cell<T>, f: FutureVal<T>, cb: Callback<T>) -> Vec<u32> {
    let mut f = f;
    let mut cb = cb;
    let mut woken = vec![];
    loop {
        let step = f.receive(&mut *cell.borrow_mut(), cb);
        match step {
            ReceiveStep::Notify(again, c, n) => {
                f = again;
                cb = c;
                woken.extend(notify(n));
            }
            ReceiveStep::Invoke(c, v) => {
                c(v);
                return woken;
            }
            ReceiveStep::Registered(_) => return woken,
        }
    }
}

/// Begins to take, and returns the value, if it is there, and the threads that were
/// unparked on the way.
fn take<T: 'static>(
    cell: &Cell<T>,
    f: FutureVal<T>,
    thread: u32,
) -> (Option<FutureResult<T>>, Vec<u32>) {
    let mut f = f;
    let mut thread = thread;
    let mut woken = vec![];
    loop {
        let step = f.take(&mut *cell.borrow_mut(), thread);
        match step {
            TakeStep::Notify(again, t, n) => {
                f = again;
                thread = t;
                woken.extend(notify(n));
            }
            TakeStep::Ready(v) => return (Some(v), woken),
            TakeStep::Park => return (None, woken),
        }
    }
}

fn take_now<T: 'static>(cell: &Cell<T>, f: FutureVal<T>) -> FutureResult<T> {
    let (val, woken) = take(cell, f, 0);
    assert!(woken.is_empty());
    val.expect("the value is not there")
}

/// Serves those that wait. The result is the threads to unpark.
fn deliver<T>(deliveries: Vec<Delivery<T, Callback<T>, u32>>) -> Vec<u32> {
    let mut woken = vec![];
    for d in deliveries {
        match d {
            Delivery::Invoke(c, v) => c(v),
            Delivery::Unpark(thread) => woken.push(thread),
        }
    }
    woken
}

fn complete<T: 'static>(cell: &Cell<T>, c: Producer<T>, val: T) -> Vec<u32> {
    let deliveries = c.complete(&mut *cell.borrow_mut(), val);
    deliver(deliveries)
}

fn producer_receive<T: 'static>(cell: &Cell<T>, c: Producer<T>, cb: ProducerCallback<T>) {
    let step = c.receive(&mut *cell.borrow_mut(), cb);
    match step {
        InterestStep::Invoke(f, p) => f(p),
        InterestStep::Registered(_) => {}
    }
}

fn producer_take<T: 'static>(
    cell: &Cell<T>,
    c: Producer<T>,
    thread: u32,
) -> Option<FutureResult<Producer<T>>> {
    match c.take(&mut *cell.borrow_mut(), thread) {
        InterestTake::Ready(p) => Some(p),
        InterestTake::Park => None,
    }
}

fn producer_resume<T: 'static>(cell: &Cell<T>) -> FutureResult<Producer<T>> {
    match cell.borrow_mut().producer_take_parked() {
        InterestTake::Ready(p) => p,
        InterestTake::Park => panic!("the producer still waits"),
    }
}

fn cancel<T: 'static>(cell: &Cell<T>, f: FutureVal<T>) -> Option<u32> {
    let n = f.cancel(&mut *cell.borrow_mut());
    notify(n)
}

fn sends(log: &Log<&'static str>) -> Callback<&'static str> {
    let log = log.again();
    Box::new(move |v: FutureResult<&'static str>| log.send(v.unwrap()))
}

#[test]
fn test_complete_before_take() {
    let (cell, f, c) = pair();
    assert!(complete(&cell, c, "zomg").is_empty());
    assert_eq!(take_now(&cell, f).unwrap(), "zomg");
}

#[test]
fn test_complete_after_take() {
    let (cell, f, c) = pair();
    assert!(take(&cell, f, 7).0.is_none());
    assert!(cell.borrow_mut().take_parked().is_none());
    assert_eq!(vec![7], complete(&cell, c, "zomg"));
    assert_eq!(cell.borrow_mut().take_parked().unwrap().unwrap(), "zomg");
}

#[test]
fn val_test_complete_before_receive() {
    let (cell, f, c) = pair();
    let log = Log::new();
    complete(&cell, c, "zomg");
    receive(&cell, f, sends(&log));
    assert_eq!(vec!["zomg"], log.all());
}

#[test]
fn test_complete_after_receive() {
    let (cell, f, c) = pair();
    let log = Log::new();
    receive(&cell, f, sends(&log));
    assert!(log.all().is_empty());
    complete(&cell, c, "zomg");
    assert_eq!(vec!["zomg"], log.all());
}

/// A callback of the producer that completes with "zomg", once `ready` is set.
fn completes(cell: &Cell<&'static str>, ready: &Rc<RefCell<bool>>) -> ProducerCallback<&'static str> {
    let cell = cell.clone();
    let ready = ready.clone();
    Box::new(move |c: FutureResult<Producer<&'static str>>| {
        assert!(*ready.borrow());
        complete(&cell, c.unwrap(), "zomg");
    })
}

#[test]
fn test_receive_complete_future_before_take() {
    let (cell, f, c) = pair::<&'static str>();
    let w1 = Rc::new(RefCell::new(false));
    producer_receive(&cell, c, completes(&cell, &w1));
    *w1.borrow_mut() = true;
    assert_eq!(take_now(&cell, f).unwrap(), "zomg");
}

#[test]
fn test_receive_complete_future_after_take() {
    let (cell, f, c) = pair::<&'static str>();
    let w1 = Rc::new(RefCell::new(true));
    assert!(take(&cell, f, 1).0.is_none());
    producer_receive(&cell, c, completes(&cell, &w1));
    assert_eq!(cell.borrow_mut().take_parked().unwrap().unwrap(), "zomg");
}

#[test]
fn test_receive_complete_before_consumer_receive() {
    let (cell, f, c) = pair::<&'static str>();
    let w1 = Rc::new(RefCell::new(false));
    producer_receive(&cell, c, completes(&cell, &w1));

    let log = Log::new();
    *w1.borrow_mut() = true;
    let tx = log.again();
    receive(
        &cell,
        f,
        Box::new(move |msg: FutureResult<&'static str>| {
            assert_eq!("zomg", msg.unwrap());
            tx.send("hi2u");
        }),
    );
    assert_eq!(vec!["hi2u"], log.all());
}

#[test]
fn test_receive_complete_after_consumer_receive() {
    let (cell, f, c) = pair::<&'static str>();
    let w1 = Rc::new(RefCell::new(true));
    let log = Log::new();
    receive(&cell, f, sends(&log));
    assert!(log.all().is_empty());
    producer_receive(&cell, c, completes(&cell, &w1));
    assert_eq!(vec!["zomg"], log.all());
}

#[test]
fn test_take_complete_before_consumer_take() {
    let (cell, f, c) = pair();
    assert!(producer_take(&cell, c, 3).is_none());
    let (val, woken) = take(&cell, f, 4);
    assert!(val.is_none());
    assert_eq!(vec![3], woken);
    let c = producer_resume(&cell).unwrap();
    assert_eq!(vec![4], complete(&cell, c, "zomg"));
    assert_eq!(cell.borrow_mut().take_parked().unwrap().unwrap(), "zomg");
}

#[test]
fn test_take_complete_after_consumer_take() {
    let (cell, f, c) = pair();
    assert!(take(&cell, f, 4).0.is_none());
    let c = producer_take(&cell, c, 3).unwrap().unwrap();
    assert_eq!(vec![4], complete(&cell, c, "zomg"));
    assert_eq!(cell.borrow_mut().take_parked().unwrap().unwrap(), "zomg");
}

#[test]
fn test_take_complete_before_consumer_receive() {
    let (cell, f, c) = pair();
    let log = Log::new();
    assert!(producer_take(&cell, c, 3).is_none());
    assert_eq!(vec![3], receive(&cell, f, sends(&log)));
    let c = producer_resume(&cell).unwrap();
    complete(&cell, c, "zomg");
    assert_eq!(vec!["zomg"], log.all());
}

#[test]
fn test_take_complete_after_consumer_receive() {
    let (cell, f, c) = pair();
    let log = Log::new();
    receive(&cell, f, sends(&log));
    let c = producer_take(&cell, c, 3).unwrap().unwrap();
    complete(&cell, c, "zomg");
    assert_eq!(vec!["zomg"], log.all());
}

/// Asks for the interest five times in a row, then completes.
fn waiting(cell: &Cell<&'static str>, count: u32, depth: Rc<RefCell<u32>>, c: Producer<&'static str>) {
    // The callback is not invoked recursively
    assert_eq!(0, *depth.borrow());
    *depth.borrow_mut() += 1;

    if count == 5 {
        complete(cell, c, "done");
    } else {
        let again = cell.clone();
        let d = depth.clone();
        let step = c.receive(
            &mut *cell.borrow_mut(),
            Box::new(move |c: FutureResult<Producer<&'static str>>| {
                waiting(&again, count + 1, d, c.unwrap());
            }),
        );
        match step {
            InterestStep::Registered(_) => {}
            InterestStep::Invoke(_, _) => panic!("there is no interest yet"),
        }
    }

    *depth.borrow_mut() -= 1;
}

#[test]
fn test_producer_receive_when_consumer_cb_set() {
    let (cell, f, c) = pair();
    let log = Log::new();
    waiting(&cell, 0, Rc::new(RefCell::new(0)), c);
    receive(&cell, f, sends(&log));
    assert_eq!(vec!["done"], log.all());
}

#[test]
fn test_producer_receive_when_consumer_waiting() {
    let (cell, f, c) = pair();
    waiting(&cell, 0, Rc::new(RefCell::new(0)), c);
    assert_eq!(take_now(&cell, f).unwrap(), "done");
}

#[test]
fn test_producer_take_when_consumer_cb_set() {
    let (cell, f, c) = pair();
    let log = Log::new();
    assert!(producer_take(&cell, c, 3).is_none());
    assert_eq!(vec![3], receive(&cell, f, sends(&log)));
    let c = producer_resume(&cell).unwrap();
    let c = producer_take(&cell, c, 3).unwrap().unwrap();
    let c = producer_take(&cell, c, 3).unwrap().unwrap();
    complete(&cell, c, "zomg");
    assert_eq!(vec!["zomg"], log.all());
}

#[test]
fn test_producer_take_when_consumer_waiting() {
    let (cell, f, c) = pair();
    assert!(producer_take(&cell, c, 3).is_none());
    assert!(take(&cell, f, 4).0.is_none());
    let c = producer_resume(&cell).unwrap();
    let c = producer_take(&cell, c, 3).unwrap().unwrap();
    let c = producer_take(&cell, c, 3).unwrap().unwrap();
    assert_eq!(vec![4], complete(&cell, c, "zomg"));
    assert_eq!(cell.borrow_mut().take_parked().unwrap().unwrap(), "zomg");
}

fn expects_error(log: &Log<&'static str>) -> ProducerCallback<&'static str> {
    let log = log.again();
    Box::new(move |s: FutureResult<Producer<&'static str>>| {
        assert!(s.is_err());
        log.send("done");
    })
}

#[test]
fn test_canceling_future_before_producer_receive() {
    let (cell, f, c) = pair();
    let log = Log::new();
    assert!(cancel(&cell, f).is_none());
    producer_receive(&cell, c, expects_error(&log));
    assert_eq!(vec!["done"], log.all());
}

#[test]
fn test_canceling_future_before_producer_take() {
    let (cell, f, c) = pair::<usize>();
    cancel(&cell, f);
    assert!(producer_take(&cell, c, 0).unwrap().is_err());
}

#[test]
fn test_canceling_future_after_producer_receive() {
    let (cell, f, c) = pair();
    let log = Log::new();
    producer_receive(&cell, c, expects_error(&log));
    assert!(log.all().is_empty());
    cancel(&cell, f);
    assert_eq!(vec!["done"], log.all());
}

#[test]
fn test_canceling_future_after_producer_take() {
    let (cell, f, c) = pair::<usize>();
    assert!(producer_take(&cell, c, 9).is_none());
    assert_eq!(Some(9), cancel(&cell, f));
    assert!(producer_resume(&cell).is_err());
}

#[test]
fn test_dropping_val_signals_cancelation() {
    let (cell, f, c) = pair::<usize>();
    assert!(producer_take(&cell, c, 9).is_none());
    cancel(&cell, f);
    let err = producer_resume(&cell).err().unwrap();
    assert!(err.is_cancelation_error());
    assert!(!err.is_execution_error());
    assert_eq!("future was canceled by consumer", err.desc);
}

#[test]
fn test_producer_fail_before_consumer_take() {
    let (cell, f, c) = pair::<usize>();
    deliver(c.fail(&mut *cell.borrow_mut(), "nope"));
    let err = take_now(&cell, f).unwrap_err();
    assert_eq!(err.desc, "nope");
    assert!(err.is_execution_error());
}

#[test]
fn test_producer_fail_consumer_receive() {
    let (cell, f, c) = pair::<usize>();
    assert!(take(&cell, f, 1).0.is_none());
    let d = c.fail(&mut *cell.borrow_mut(), "nope");
    assert_eq!(vec![1], deliver(d));
    let err = cell.borrow_mut().take_parked().unwrap().unwrap_err();
    assert_eq!(err.desc, "nope");
    assert!(err.is_execution_error());
}

#[test]
fn test_producer_drops_before_consumer_take() {
    let (cell, f, c) = pair::<usize>();
    deliver(c.discard(&mut *cell.borrow_mut()));
    let err = take_now(&cell, f).unwrap_err();
    assert_eq!(err.desc, "producer dropped out of scope without completing");
    assert!(err.is_execution_error());
}

#[test]
fn test_producer_drops_after_consumer_take() {
    let (cell, f, c) = pair::<usize>();
    assert!(take(&cell, f, 1).0.is_none());
    let d = c.discard(&mut *cell.borrow_mut());
    assert_eq!(vec![1], deliver(d));
    let err = cell.borrow_mut().take_parked().unwrap().unwrap_err();
    assert_eq!(err.desc, "producer dropped out of scope without completing");
    assert!(err.is_execution_error());
}

fn clone(cell: &Cell<&'static str>, f: &FutureVal<&'static str>) -> FutureVal<&'static str> {
    f.clone(&mut *cell.borrow_mut(), cloner::<&'static str>)
}

#[test]
fn test_cloning_clone_complete_take_both() {
    let (cell, f1, c) = pair();
    let f2 = clone(&cell, &f1);
    complete(&cell, c, "zomg");
    assert_eq!(take_now(&cell, f1).unwrap(), "zomg");
    assert_eq!(take_now(&cell, f2).unwrap(), "zomg");
}

#[test]
fn test_cloning_clone_take_both_complete() {
    let (cell, f1, c) = pair();
    let f2 = clone(&cell, &f1);
    assert!(take(&cell, f2, 2).0.is_none());
    assert!(take(&cell, f1, 1).0.is_none());
    assert_eq!(vec![2, 1], complete(&cell, c, "zomg"));
    assert_eq!(cell.borrow_mut().take_parked().unwrap().unwrap(), "zomg");
    assert_eq!(cell.borrow_mut().take_parked().unwrap().unwrap(), "zomg");
}

#[test]
fn test_cloning_clone_take_complete_take() {
    let (cell, f1, c) = pair();
    let f2 = clone(&cell, &f1);
    assert!(take(&cell, f1, 1).0.is_none());
    assert_eq!(vec![1], complete(&cell, c, "zomg"));
    assert_eq!(cell.borrow_mut().take_parked().unwrap().unwrap(), "zomg");
    assert_eq!(take_now(&cell, f2).unwrap(), "zomg");
}

#[test]
fn test_cloning_clone_complete_receive_both() {
    let (cell, f1, c) = pair();
    let f2 = clone(&cell, &f1);
    complete(&cell, c, "zomg");
    let (log1, log2) = (Log::new(), Log::new());
    receive(&cell, f1, sends(&log1));
    receive(&cell, f2, sends(&log2));
    assert_eq!(vec!["zomg"], log1.all());
    assert_eq!(vec!["zomg"], log2.all());
}

#[test]
fn test_cloning_receive_both_complete() {
    let (cell, f1, c) = pair();
    let f2 = clone(&cell, &f1);
    let (log1, log2) = (Log::new(), Log::new());
    receive(&cell, f1, sends(&log1));
    receive(&cell, f2, sends(&log2));
    complete(&cell, c, "zomg");
    assert_eq!(vec!["zomg"], log1.all());
    assert_eq!(vec!["zomg"], log2.all());
}

#[test]
fn test_cloning_receive_complete_receive() {
    let (cell, f1, c) = pair();
    let f2 = clone(&cell, &f1);
    let (log1, log2) = (Log::new(), Log::new());
    receive(&cell, f1, sends(&log1));
    complete(&cell, c, "zomg");
    receive(&cell, f2, sends(&log2));
    assert_eq!(vec!["zomg"], log1.all());
    assert_eq!(vec!["zomg"], log2.all());
}

#[test]
fn only_the_last_consumer_cancels() {
    let (cell, f1, c) = pair();
    let f2 = clone(&cell, &f1);
    assert!(producer_take(&cell, c, 5).is_none());
    assert_eq!(None, cancel(&cell, f1));
    match cell.borrow_mut().producer_take_parked() {
        InterestTake::Park => {}
        InterestTake::Ready(_) => panic!("one consumer is left"),
    }
    assert_eq!(Some(5), cancel(&cell, f2));
    assert!(producer_resume(&cell).is_err());
}

#[test]
fn consumer_that_is_left_gets_the_value() {
    let (cell, f1, c) = pair();
    let f2 = clone(&cell, &f1);
    cancel(&cell, f1);
    let c = match producer_take(&cell, c, 5) {
        None => {
            assert!(take(&cell, f2, 6).0.is_none());
            producer_resume(&cell).unwrap()
        }
        Some(_) => panic!("there is no interest yet"),
    };
    assert_eq!(vec![6], complete(&cell, c, "zomg"));
    assert_eq!(cell.borrow_mut().take_parked().unwrap().unwrap(), "zomg");
}

#[test]
fn completing_a_canceled_future_changes_nothing() {
    let (cell, f, c) = pair();
    cancel(&cell, f);
    assert!(complete(&cell, c, "zomg").is_empty());
    assert!(cell.borrow_mut().take_parked().is_none());
}

#[test]
fn giving_up_a_complete_future_drops_the_value() {
    let (cell, f, c) = pair();
    complete(&cell, c, "zomg");
    assert_eq!(None, cancel(&cell, f));
    assert!(cell.borrow_mut().take_parked().is_none());
}

#[test]
fn producer_cancels() {
    let (cell, f, c) = pair::<u8>();
    deliver(c.cancel(&mut *cell.borrow_mut()));
    let err = take_now(&cell, f).unwrap_err();
    assert_eq!("canceled by producer", err.desc);
    assert_eq!(FutureErrorKind::ExecutionError, err.kind);
}

#[test]
fn cloning_results() {
    assert_eq!(Ok(vec![1, 2]), cloner(&Ok(vec![1, 2])));
    assert_eq!(Err(cancelation()), cloner::<u8>(&Err(cancelation())));
    assert_eq!(FutureErrorKind::CancelationError, cancelation().kind);
}
