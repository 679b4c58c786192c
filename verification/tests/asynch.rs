use std::cell::RefCell;
use std::rc::Rc;
use syncbox::util::asynch::atomic_state::AtomicState;
use syncbox::util::asynch::cell::{Action, Core, CoreInner, OptionCore};
use syncbox::util::asynch::combine::{Taken, Turn, Until};
use syncbox::util::asynch::receipt;
use syncbox::util::asynch::state::{Lifecycle, State};
use syncbox::util::asynch::compose::{Ask, Event};
use syncbox::util::asynch::{
    Async, AsyncError, AsyncResult, BusySender, Cancel, Complete, Compose, Future, Head, Receipt,
    Sender, Stream,
};

type Consumer<T, E> = Box<dyn FnOnce(AsyncResult<T, E>)>;
type Producer = Box<dyn FnOnce(AsyncResult<Core, ()>)>;
type Cell<T, E> = Rc<RefCell<CoreInner<T, E, Consumer<T, E>, Producer, u32>>>;

/// Does what an operation owes. The result is the threads to unpark.
fn perform<T, E>(
    cell: &Cell<T, E>,
    action: Action<T, E, Consumer<T, E>, Producer, u32>,
) -> Vec<u32> {
    let mut action = action;
    let mut woken = vec![];
    loop {
        action = match action {
            Action::Idle => return woken,
            Action::Consume(f, val) => {
                f(val);
                cell.borrow_mut().consumer_done()
            }
            Action::Produce(f, core) => {
                f(core);
                cell.borrow_mut().producer_done()
            }
            Action::Unpark(thread) => {
                woken.push(thread);
                return woken;
            }
        };
    }
}

/// The end of a consumer with its core.
struct Fut<T: 'static, E: 'static> {
    cell: Cell<T, E>,
    end: Option<Future<T, E>>,
}

impl<T, E> Fut<T, E> {
    fn pair() -> (Fut<T, E>, Com<T, E>) {
        let (cell, future, complete) = Future::pair();
        let cell = Rc::new(RefCell::new(cell));
        (
            Fut { cell: cell.clone(), end: Some(future) },
            Com { cell, end: Some(complete) },
        )
    }

    fn of(val: T) -> Fut<T, E> {
        let (cell, future) = Future::of(val);
        Fut { cell: Rc::new(RefCell::new(cell)), end: Some(future) }
    }

    fn receive<F: FnOnce(AsyncResult<T, E>) + 'static>(mut self, f: F) {
        let end = self.end.take().unwrap();
        let (core, action) = end.receive(&mut *self.cell.borrow_mut(), Box::new(f));
        perform(&self.cell, action);
        self.cell.borrow_mut().release(core);
    }

    /// Takes a value that is there once the producer has been told.
    fn wait(mut self) -> AsyncResult<T, E> {
        let end = self.end.take().unwrap();
        let (core, val, action) = end.wait(&mut *self.cell.borrow_mut(), 1);
        perform(&self.cell, action);
        let val = match val {
            Some(val) => val,
            None => self.cell.borrow_mut().consumer_poll().expect("the value is not there"),
        };
        self.cell.borrow_mut().release(core);
        val
    }
}

/// Runs a composition: it gets what happens, and what it asks for is done.
fn run<T: 'static, E: 'static, V: 'static, W: 'static, X: 'static>(
    turn: impl FnMut(Event<T, E, V, W>) -> Ask<Fut<T, E>, X, Fut<V, W>, V, W> + 'static,
) -> Fut<V, W> {
    let mut turn = turn;
    let (future, complete) = Fut::pair();
    complete.receive(move |c| {
        let complete = match c {
            Ok(complete) => complete,
            Err(_) => {
                drop(turn(Event::Gone));
                return;
            }
        };
        match turn(Event::Interest) {
            Ask::First(first) => first.receive(move |res| match turn(Event::First(res)) {
                Ask::Second(second) => second.receive(move |res| match turn(Event::Second(res)) {
                    Ask::Settle(res, _) => complete.settle(res),
                    _ => unreachable!(),
                }),
                Ask::Settle(res, unused) => {
                    complete.settle(res);
                    drop(unused);
                }
                _ => unreachable!(),
            }),
            _ => unreachable!(),
        }
    });
    future
}

impl<T, E> Drop for Fut<T, E> {
    fn drop(&mut self) {
        if let Some(end) = self.end.take() {
            let (core, action) = end.discard(&mut *self.cell.borrow_mut());
            perform(&self.cell, action);
            self.cell.borrow_mut().release(core);
        }
    }
}

/// The end of a producer with its core.
struct Com<T: 'static, E: 'static> {
    cell: Cell<T, E>,
    end: Option<Complete<T, E>>,
}

impl<T, E> Com<T, E> {
    fn settle(mut self, res: AsyncResult<T, E>) {
        let end = self.end.take().unwrap();
        let (core, action) = end.settle(&mut *self.cell.borrow_mut(), res);
        perform(&self.cell, action);
        self.cell.borrow_mut().release(core);
    }

    fn complete(self, val: T) {
        self.settle(Ok(val));
    }

    fn receive<F: FnOnce(AsyncResult<Com<T, E>, ()>) + 'static>(mut self, f: F) {
        let end = self.end.take().unwrap();
        let cell = self.cell.clone();
        let call: Producer = Box::new(move |core| {
            f(match core {
                Ok(core) => Ok(Com { cell, end: Some(Complete::from_core(core)) }),
                Err(e) => Err(e),
            });
        });
        let (core, action) = end.receive(&mut *self.cell.borrow_mut(), call);
        perform(&self.cell, action);
        self.cell.borrow_mut().release(core);
    }
}

impl<T, E> Drop for Com<T, E> {
    fn drop(&mut self) {
        if let Some(end) = self.end.take() {
            let (core, action) = end.discard(&mut *self.cell.borrow_mut());
            perform(&self.cell, action);
            self.cell.borrow_mut().release(core);
        }
    }
}

/// The end of a consumer of a stream with its core.
struct Str<T: 'static, E: 'static> {
    cell: Cell<Head<T, E>, E>,
    end: Option<Stream<T, E>>,
}

impl<T, E> Str<T, E> {
    fn pair() -> (Send<T, E>, Str<T, E>) {
        let (cell, sender, stream) = Stream::pair();
        let cell = Rc::new(RefCell::new(cell));
        (
            Send { cell: cell.clone(), end: Some(sender) },
            Str { cell, end: Some(stream) },
        )
    }

    fn head(cell: &Cell<Head<T, E>, E>, res: AsyncResult<Head<T, E>, E>) -> AsyncResult<Option<(T, Str<T, E>)>, E> {
        match res {
            Ok(Some((v, rest))) => Ok(Some((v, Str { cell: cell.clone(), end: Some(rest) }))),
            Ok(None) => Ok(None),
            Err(e) => Err(e),
        }
    }

    fn receive<F: FnOnce(AsyncResult<Option<(T, Str<T, E>)>, E>) + 'static>(mut self, f: F) {
        let end = self.end.take().unwrap();
        let cell = self.cell.clone();
        let call: Consumer<Head<T, E>, E> = Box::new(move |res| f(Str::head(&cell, res)));
        let (core, action) = end.receive(&mut *self.cell.borrow_mut(), call);
        perform(&self.cell, action);
        self.cell.borrow_mut().release(core);
    }

    /// Registers a callback that can be taken back.
    fn ready<F: FnOnce(AsyncResult<Option<(T, Str<T, E>)>, E>) + 'static>(
        mut self,
        f: F,
    ) -> (Cell<Head<T, E>, E>, Receipt<Stream<T, E>>) {
        let end = self.end.take().unwrap();
        let cell = self.cell.clone();
        let call: Consumer<Head<T, E>, E> = Box::new(move |res| f(Str::head(&cell, res)));
        let (receipt, core, action) = end.ready(&mut *self.cell.borrow_mut(), call);
        perform(&self.cell, action);
        if let Some(core) = core {
            self.cell.borrow_mut().release(core);
        }
        (self.cell.clone(), receipt)
    }

    fn wait(mut self) -> AsyncResult<Option<(T, Str<T, E>)>, E> {
        let end = self.end.take().unwrap();
        let (core, val, action) = end.wait(&mut *self.cell.borrow_mut(), 1);
        perform(&self.cell, action);
        let val = match val {
            Some(val) => val,
            None => self.cell.borrow_mut().consumer_poll().expect("the head is not there"),
        };
        self.cell.borrow_mut().release(core);
        Str::head(&self.cell, val)
    }
}

impl<T, E> Drop for Str<T, E> {
    fn drop(&mut self) {
        if let Some(end) = self.end.take() {
            let (core, action) = end.discard(&mut *self.cell.borrow_mut());
            perform(&self.cell, action);
            self.cell.borrow_mut().release(core);
        }
    }
}

/// The end of the producer of a stream with its core.
struct Send<T: 'static, E: 'static> {
    cell: Cell<Head<T, E>, E>,
    end: Option<Sender<T, E>>,
}

impl<T, E> Send<T, E> {
    fn send(mut self, val: T) -> Busy<T, E> {
        let end = self.end.take().unwrap();
        let (busy, action) = end.send(&mut *self.cell.borrow_mut(), val);
        perform(&self.cell, action);
        Busy { cell: self.cell.clone(), end: Some(busy) }
    }

    fn fail(mut self, err: E) {
        let end = self.end.take().unwrap();
        let (core, action) = end.fail(&mut *self.cell.borrow_mut(), err);
        perform(&self.cell, action);
        self.cell.borrow_mut().release(core);
    }

    fn done(mut self) {
        let end = self.end.take().unwrap();
        let (core, action) = end.done(&mut *self.cell.borrow_mut());
        perform(&self.cell, action);
        self.cell.borrow_mut().release(core);
    }

    fn receive<F: FnOnce(AsyncResult<Send<T, E>, ()>) + 'static>(mut self, f: F) {
        let end = self.end.take().unwrap();
        let cell = self.cell.clone();
        let call: Producer = Box::new(move |core| {
            f(match core {
                Ok(core) => Ok(Send { cell, end: Some(Sender::from_core(core)) }),
                Err(e) => Err(e),
            });
        });
        let (core, action) = end.receive(&mut *self.cell.borrow_mut(), call);
        perform(&self.cell, action);
        self.cell.borrow_mut().release(core);
    }
}

impl<T, E> Drop for Send<T, E> {
    fn drop(&mut self) {
        if let Some(end) = self.end.take() {
            let (core, action) = end.done(&mut *self.cell.borrow_mut());
            perform(&self.cell, action);
            self.cell.borrow_mut().release(core);
        }
    }
}

/// The end of a producer whose value may not have been consumed, with its core.
struct Busy<T: 'static, E: 'static> {
    cell: Cell<Head<T, E>, E>,
    end: Option<BusySender<T, E>>,
}

impl<T, E> Busy<T, E> {
    fn receive<F: FnOnce(AsyncResult<Send<T, E>, ()>) + 'static>(mut self, f: F) {
        let end = self.end.take().unwrap();
        Busy::ask(&self.cell, end, f);
    }

    fn ask<F: FnOnce(AsyncResult<Send<T, E>, ()>) + 'static>(
        cell: &Cell<Head<T, E>, E>,
        end: BusySender<T, E>,
        f: F,
    ) {
        let own = cell.clone();
        let call: Producer = Box::new(move |core| {
            f(match core {
                Ok(core) => Ok(Send { cell: own, end: Some(Sender::from_core(core)) }),
                Err(e) => Err(e),
            });
        });
        let (core, action) = end.receive(&mut *cell.borrow_mut(), call);
        perform(cell, action);
        cell.borrow_mut().release(core);
    }
}

impl<T, E> Drop for Busy<T, E> {
    fn drop(&mut self) {
        if let Some(end) = self.end.take() {
            Busy::ask(&self.cell, end, |res| {
                if let Ok(tx) = res {
                    tx.done();
                }
            });
        }
    }
}

#[derive(Clone)]
struct Log<V>(Rc<RefCell<Vec<V>>>);

impl<V: Clone> Log<V> {
    fn new() -> Log<V> {
        Log(Rc::new(RefCell::new(vec![])))
    }

    fn send(&self, v: V) {
        self.0.borrow_mut().push(v);
    }

    fn all(&self) -> Vec<V> {
        self.0.borrow().clone()
    }
}

/// The stream of the numbers from `from` up to `to`, made on demand.
fn nums(from: i32, to: i32) -> Str<i32, ()> {
    let (tx, rx) = Str::pair();
    produce(tx, from, to);
    rx
}

fn produce(tx: Send<i32, ()>, from: i32, to: i32) {
    tx.receive(move |res| {
        if let Ok(tx) = res {
            if from < to {
                tx.send(from).receive(move |res| {
                    if let Ok(tx) = res {
                        produce(tx, from + 1, to);
                    }
                });
            } else {
                tx.done();
            }
        }
    });
}

/// Takes the heads of a stream one by one until `f` says that it is complete.
fn drive<T, E, U, F>(stream: Str<T, E>, init: U, f: F) -> AsyncResult<U, E>
where
    F: Fn(AsyncResult<Head<T, E>, E>, U) -> Turn<T, E, U>,
{
    let mut acc = init;
    let mut stream = stream;
    loop {
        let cell = stream.cell.clone();
        let res = match stream.wait() {
            Ok(Some((v, mut rest))) => Ok(Some((v, rest.end.take().unwrap()))),
            Ok(None) => Ok(None),
            Err(e) => Err(e),
        };
        match f(res, acc) {
            Turn::More(u, rest) => {
                acc = u;
                stream = Str { cell, end: Some(rest) };
            }
            Turn::Done(res) => return res,
        }
    }
}

#[test]
fn test_struct_sizes() {
    assert_eq!(std::mem::size_of::<State>(), std::mem::size_of::<usize>());
}

#[test]
fn test_initial_ref_count() {
    let c: CoreInner<usize, (), (), (), ()> = CoreInner::new();
    assert_eq!(1, c.state().ref_count());
}

#[test]
fn test_and_success_async() {
    let (f1, c1) = Fut::<&'static str, ()>::pair();
    let (f2, c2) = Fut::<i32, ()>::pair();
    let log = Log::new();

    let tx1 = log.clone();
    c1.receive(move |c| {
        tx1.send("first");
        c.ok().unwrap().complete("zomg");
    });
    let tx2 = log.clone();
    c2.receive(move |c| {
        tx2.send("second");
        c.ok().unwrap().complete(123);
    });

    let mut and = Compose::and(f1, f2);
    let and = run(move |event| and.turn(event));

    // No interest registered yet
    assert!(log.all().is_empty());

    let res = and.wait().unwrap();
    assert_eq!(res, 123);
    assert_eq!(vec!["first", "second"], log.all());
}

#[test]
fn test_or_first_success_async() {
    let (f1, c1) = Fut::<&'static str, ()>::pair();
    let (f2, c2) = Fut::<&'static str, ()>::pair();
    let log = Log::new();

    let tx1 = log.clone();
    c1.receive(move |c| {
        tx1.send("first");
        c.ok().unwrap().complete("zomg");
    });
    let tx2 = log.clone();
    c2.receive(move |res| {
        if let Err(AsyncError::CancellationError) = res {
            tx2.send("winning");
        }
    });

    let mut or = Compose::or(f1, f2);
    let or = run(move |event| or.turn(event));

    // No interest registered yet
    assert!(log.all().is_empty());

    let res = or.wait().unwrap();
    assert_eq!(res, "zomg");
    assert_eq!(vec!["first", "winning"], log.all());
}

#[test]
fn error_of_the_first_is_passed_on() {
    let (f1, c1) = Fut::<u8, &'static str>::pair();
    let mut then = Compose::and_then(f1, |_| -> Fut<u8, &'static str> { panic!("not called") });
    let then = run(move |event| then.turn(event));
    c1.settle(Err(AsyncError::ExecutionError("nope")));
    assert_eq!(Err(AsyncError::ExecutionError("nope")), then.wait());

    let (f1, c1) = Fut::<u8, &'static str>::pair();
    let (f2, c2) = Fut::<u16, &'static str>::pair();
    let log = Log::new();
    let tx = log.clone();
    c2.receive(move |c| tx.send(c.err().unwrap().is_cancellation()));
    let mut and = Compose::and(f1, f2);
    let and = run(move |event| and.turn(event));
    c1.settle(Err(AsyncError::CancellationError));
    assert!(log.all().is_empty());
    assert_eq!(Err(AsyncError::CancellationError), and.wait());
    assert_eq!(vec![true], log.all());
}

#[test]
fn value_of_the_first_goes_to_the_second() {
    let (f1, c1) = Fut::<u8, ()>::pair();
    let mut then = Compose::and_then(f1, |v| Fut::<u16, ()>::of(v as u16 * 100));
    let then = run(move |event| then.turn(event));
    c1.complete(7);
    assert_eq!(Ok(700), then.wait());
}

#[test]
fn alternative_is_asked_on_an_error() {
    let (f1, c1) = Fut::<u8, u32>::pair();
    let (f2, c2) = Fut::<u8, u32>::pair();
    let log = Log::new();
    let tx = log.clone();
    c2.receive(move |c| {
        tx.send("second");
        c.ok().unwrap().complete(2);
    });
    let mut or = Compose::or(f1, f2);
    let or = run(move |event| or.turn(event));
    c1.settle(Err(AsyncError::ExecutionError(1)));
    assert!(log.all().is_empty());
    assert_eq!(Ok(2), or.wait());
    assert_eq!(vec!["second"], log.all());

    let (f1, c1) = Fut::<u8, u32>::pair();
    let mut or = Compose::or_else(f1, |e: AsyncError<u32>| Fut::of(e.unwrap() as u8 + 1));
    let or = run(move |event| or.turn(event));
    c1.settle(Err(AsyncError::ExecutionError(8)));
    assert_eq!(Ok(9), or.wait());
}

#[test]
fn outcome_is_handled() {
    let (f1, c1) = Fut::<u8, ()>::pair();
    let mut handled = Compose::handle(f1, |res: AsyncResult<u8, ()>| {
        assert_eq!(Err(AsyncError::CancellationError), res);
        Fut::<&'static str, ()>::of("handled")
    });
    let handled = run(move |event| handled.turn(event));
    drop(c1);
    assert_eq!(Ok("handled"), handled.wait());
}

#[test]
fn composition_that_is_given_up_gives_up_its_parts() {
    let (f1, c1) = Fut::<u8, ()>::pair();
    let (f2, c2) = Fut::<u8, ()>::pair();
    let log = Log::new();
    let tx = log.clone();
    c1.receive(move |c| tx.send(("first", c.err().unwrap().is_cancellation())));
    let tx = log.clone();
    c2.receive(move |c| tx.send(("second", c.err().unwrap().is_cancellation())));
    let mut or = Compose::or(f1, f2);
    let or = run(move |event| or.turn(event));
    assert!(log.all().is_empty());
    drop(or);
    assert_eq!(vec![("first", true), ("second", true)], log.all());
}

#[test]
fn canceled_stream_ends_with_the_cancellation() {
    let (mut cell, tx, rx) = Stream::<u8, ()>::pair::<u8, u8, u32>();
    let (core, action) = tx.end_with(&mut cell, AsyncError::CancellationError);
    assert!(matches!(action, Action::Idle));
    cell.release(core);
    match rx.poll(&mut cell) {
        Ok((_, res)) => assert!(res.err().unwrap().is_cancellation()),
        Err(_) => panic!("the stream has ended"),
    }
}

#[test]
fn test_stream_fail_await() {
    let (tx, rx) = Str::<u32, &'static str>::pair();

    tx.fail("nope");
    assert_eq!("nope", rx.wait().err().unwrap().unwrap());
}

#[test]
fn test_stream_fail_second_iter_await() {
    let (tx, rx) = Str::<u32, &'static str>::pair();

    tx.send(1).receive(|tx| tx.ok().unwrap().fail("nope"));

    let rx = match rx.wait() {
        Ok(Some((v, rest))) => {
            assert_eq!(v, 1);
            rest
        }
        _ => panic!("unexpected value for head of stream"),
    };

    assert_eq!("nope", rx.wait().err().unwrap().unwrap());
}

/// Takes a callback back. The result is the stream, if it was not too late.
fn take_back<T, E>(
    cell: &Cell<Head<T, E>, E>,
    receipt: Receipt<Stream<T, E>>,
) -> Option<Str<T, E>> {
    let (back, core) = receipt.cancel(&mut *cell.borrow_mut());
    if let Some(core) = core {
        cell.borrow_mut().release(core);
    }
    back.map(|(end, _callback)| Str { cell: cell.clone(), end: Some(end) })
}

#[test]
fn test_stream_cancel_before_send() {
    let (generate, stream) = Str::<i32, ()>::pair();

    let (cell, receipt) = stream.ready(move |_| panic!("nope"));
    let stream = take_back(&cell, receipt).expect("cancel failed");

    let busy = generate.send(123);

    match stream.wait().ok().unwrap() {
        Some((v, _)) => assert_eq!(123, v),
        _ => panic!("nope"),
    }
    drop(busy);
}

#[test]
fn test_stream_cancel_after_send() {
    let (generate, stream) = Str::<i32, ()>::pair();
    let log = Log::new();
    let tx = log.clone();

    let (cell, receipt) = stream.ready(move |s| match s.ok().unwrap() {
        Some((v, _)) => tx.send(v),
        _ => panic!("nope"),
    });

    let busy = generate.send(123);

    assert!(take_back(&cell, receipt).is_none());
    assert_eq!(vec![123], log.all());
    drop(busy);
}

#[test]
fn receipt_is_good_for_its_own_request_only() {
    let (mut cell, tx, rx) = Stream::<u8, ()>::pair::<u8, u8, u32>();
    let (receipt, core, action) = rx.ready(&mut cell, 1);
    assert!(core.is_none());
    assert!(matches!(action, Action::Idle));
    assert_eq!(1, cell.request_count());
    let (_busy, action) = tx.send(&mut cell, 9);
    let rest = match action {
        Action::Consume(1, Ok(Some((9, rest)))) => rest,
        _ => panic!("the consumer was not told"),
    };
    assert!(matches!(cell.consumer_done(), Action::Idle));
    let (next, _, _) = rest.ready(&mut cell, 2);
    let (back, core) = receipt.cancel(&mut cell);
    assert!(back.is_none() && core.is_some());
    let (back, core) = next.cancel(&mut cell);
    assert_eq!(2, back.unwrap().1);
    assert!(core.is_none());
}

#[test]
fn interest_that_is_served_at_once_cannot_be_taken_back() {
    let (mut cell, tx, rx) = Stream::<u8, ()>::pair::<u8, u8, u32>();
    let (busy, _) = tx.send(&mut cell, 9);
    let (receipt, core, action) = rx.ready(&mut cell, 1);
    assert!(matches!(action, Action::Consume(1, _)));
    assert!(core.is_some());
    let (back, core) = receipt.cancel(&mut cell);
    assert!(back.is_none() && core.is_none());
    let (receipt, _, action) = busy.ready(&mut cell, 4);
    assert!(matches!(action, Action::Idle));
    assert!(receipt.cancel().is_none());
}

#[test]
fn test_stream_iter_async_producer() {
    let (tx, rx) = Str::pair();

    fn gen(tx: Send<usize, ()>, i: usize) {
        tx.receive(move |res| {
            let tx = res.ok().unwrap();

            if i < 5 {
                tx.send(i).receive(move |res| {
                    gen(res.ok().unwrap(), i + 1);
                });
            }
        })
    }

    gen(tx, 0);

    let mut rx = rx;
    let mut iter = rx.end.take().unwrap().iter();
    let mut vals: Vec<usize> = vec![];
    loop {
        let (head, action) = iter.wait(&mut *rx.cell.borrow_mut(), 1);
        perform(&rx.cell, action);
        let head = match head {
            Some(head) => head,
            None => rx.cell.borrow_mut().consumer_poll().expect("the head is not there"),
        };
        let (core, item) = iter.next(head.unwrap());
        rx.cell.borrow_mut().release(core);
        match item {
            Some(v) => vals.push(v),
            None => break,
        }
    }
    assert_eq!(vec![0, 1, 2, 3, 4], vals);
}

#[test]
fn test_stream_map_async() {
    let log = Log::new();

    fn receive(s: Str<i32, ()>, tx: Log<i32>) {
        let cell = s.cell.clone();
        s.receive(move |res| {
            let res = res.map(|head| head.map(|(v, mut rest)| (v, rest.end.take().unwrap())));
            if let Some((v, rest)) = Stream::map(res, &|i| 2 * i).unwrap() {
                tx.send(v);
                receive(Str { cell, end: Some(rest) }, tx);
            }
        });
    }

    receive(nums(0, 5), log.clone());
    assert_eq!(vec![0, 2, 4, 6, 8], log.all());
}

#[test]
fn test_one_shot_stream_async() {}

#[test]
fn test_one_shot_stream_await() {
    let (tx, mut rx) = Str::<&'static str, ()>::pair();

    // The consumer waits before the value is sent
    let end = rx.end.take().unwrap();
    let (core, val, action) = end.wait(&mut *rx.cell.borrow_mut(), 42);
    assert!(val.is_none());
    assert!(perform(&rx.cell, action).is_empty());

    let mut tx = tx;
    let sender = tx.end.take().unwrap();
    let (_busy, action) = sender.send(&mut *rx.cell.borrow_mut(), "hello");
    assert_eq!(vec![42], perform(&rx.cell, action));

    match rx.cell.borrow_mut().consumer_poll() {
        Some(Ok(Some((h, _)))) => assert_eq!("hello", h),
        _ => panic!("nope"),
    }
    rx.cell.borrow_mut().release(core);
}

#[test]
fn test_one_shot_stream_done() {
    let (tx, stream) = Str::<&'static str, ()>::pair();
    tx.send("hello").receive(|tx| tx.ok().unwrap().done());

    let mut stream = stream;
    let mut vals = vec![];
    while let Ok(Some((v, rest))) = stream.wait() {
        vals.push(v);
        stream = rest;
    }
    assert_eq!(vec!["hello"], vals);
}

#[test]
fn test_stream_receive_before_produce_interest_async() {
    let (producer, stream) = Str::pair();
    let log = Log::new();
    let eof = Log::new();

    fn do_receive(stream: Str<&'static str, ()>, tx: Log<&'static str>, eof: Log<bool>) {
        stream.receive(move |res| match res {
            Ok(Some((h, rest))) => {
                tx.send(h);
                do_receive(rest, tx, eof);
            }
            Ok(None) => eof.send(true),
            _ => panic!("unexpected error"),
        });
    }

    do_receive(stream, log.clone(), eof.clone());

    let busy = Rc::new(RefCell::new(None));
    let out = busy.clone();
    producer.receive(move |p| {
        *out.borrow_mut() = Some(p.ok().unwrap().send("hello"));
    });
    assert_eq!(vec!["hello"], log.all());

    let p = busy.borrow_mut().take().unwrap();
    let out = busy.clone();
    p.receive(move |p| {
        *out.borrow_mut() = Some(p.ok().unwrap().send("world"));
    });
    assert_eq!(vec!["hello", "world"], log.all());

    let p = busy.borrow_mut().take().unwrap();
    p.receive(move |p| p.ok().unwrap().done());
    assert_eq!(vec![true], eof.all());
    assert_eq!(vec!["hello", "world"], log.all());
}

#[test]
fn test_stream_produce_interest_before_receive_async() {
    let (producer, stream) = Str::<&'static str, ()>::pair();
    let busy = Rc::new(RefCell::new(None));

    let out = busy.clone();
    producer.receive(move |p| {
        *out.borrow_mut() = Some(p.ok().unwrap().send("hello"));
    });
    assert!(busy.borrow().is_none());

    fn next(stream: Str<&'static str, ()>) -> Option<(&'static str, Str<&'static str, ()>)> {
        let slot = Rc::new(RefCell::new(None));
        let out = slot.clone();
        stream.receive(move |res| *out.borrow_mut() = Some(res));
        let res = slot.borrow_mut().take();
        res.expect("nothing came").ok().unwrap()
    }

    let (v, stream) = next(stream).unwrap();
    assert_eq!(v, "hello");

    let p = busy.borrow_mut().take().unwrap();
    let out = busy.clone();
    p.receive(move |p| {
        *out.borrow_mut() = Some(p.ok().unwrap().send("world"));
    });

    let (v, stream) = next(stream).unwrap();
    assert_eq!(v, "world");

    let p = busy.borrow_mut().take().unwrap();
    p.receive(move |p| p.ok().unwrap().done());

    assert!(next(stream).is_none());
}

#[test]
fn test_stream_produce_before_receive_async() {}

#[test]
fn test_stream_send_then_done_before_receive() {}

#[test]
fn test_recursive_receive() {
    let (p, s) = Str::<usize, ()>::pair();
    let log = Log::new();
    let depth = Rc::new(RefCell::new((0, 0)));

    fn consume(s: Str<usize, ()>, tx: Log<usize>, depth: Rc<RefCell<(u32, u32)>>) {
        s.receive(move |res| {
            depth.borrow_mut().0 += 1;
            assert_eq!(1, depth.borrow().0);
            if let Some((v, rest)) = res.ok().unwrap() {
                tx.send(v);
                consume(rest, tx, depth.clone());
            }
            depth.borrow_mut().0 -= 1;
        });
    }

    fn produce(p: Send<usize, ()>, n: usize, depth: Rc<RefCell<(u32, u32)>>) {
        p.receive(move |res| {
            depth.borrow_mut().1 += 1;
            assert_eq!(1, depth.borrow().1);
            let p = res.ok().unwrap();
            if n > 20_000 {
                p.done();
            } else {
                let d = depth.clone();
                p.send(n).receive(move |res| produce(res.ok().unwrap(), n + 1, d));
            }
            depth.borrow_mut().1 -= 1;
        });
    }

    consume(s, log.clone(), depth.clone());
    produce(p, 1, depth);

    let vals = log.all();
    assert_eq!(vals.len(), 20_000);
    for (i, v) in vals.iter().enumerate() {
        assert_eq!(i + 1, *v);
    }
}

#[test]
fn test_stream_reduce_async() {
    let s = drive(nums(0, 5), 10, |res, sum| Stream::reduce(res, sum, &|sum, v| sum + v));
    assert_eq!(20, s.unwrap());
}

#[test]
fn test_stream_reduce_fail() {
    let (tx, rx) = Str::<i32, ()>::pair();
    tx.send(1).receive(|tx| {
        tx.ok().unwrap().send(2).receive(|tx| {
            tx.ok().unwrap().send(3).receive(|tx| tx.ok().unwrap().fail(()))
        })
    });

    let reduced = drive(rx, 0, |res, sum| Stream::reduce(res, sum, &|sum, v| sum + v));
    assert_eq!(Err(AsyncError::ExecutionError(())), reduced);
}

#[test]
fn test_stream_take() {
    let mut stream = nums(0, 10);
    let mut vals = vec![];
    let mut n: u64 = 4;
    while !Stream::<i32, ()>::takes_none(n) {
        let cell = stream.cell.clone();
        let res = stream.wait().map(|h| h.map(|(v, mut rest)| (v, rest.end.take().unwrap())));
        match Stream::take(res, n) {
            Taken::Value(v, rest, left) => {
                vals.push(v);
                n = left;
                stream = Str { cell, end: Some(rest) };
            }
            _ => panic!("the stream is longer"),
        }
    }
    assert_eq!(vec![0, 1, 2, 3], vals);
}

#[test]
fn stream_is_collected_in_order() {
    let all = drive(nums(3, 9), vec![], |res, buf| Stream::collect(res, buf));
    assert_eq!(vec![3, 4, 5, 6, 7, 8], all.unwrap());
}

#[test]
fn function_is_called_with_each_value() {
    let log = Log::new();
    let res = drive(nums(0, 3), (), |res, _| Stream::each(res, &|v| log.send(v)));
    assert_eq!(Ok(()), res);
    assert_eq!(vec![0, 1, 2], log.all());
}

#[test]
fn heads_without_a_value() {
    let end: fn() -> AsyncResult<Head<i32, u8>, u8> = || Ok(None);
    let failed: fn() -> AsyncResult<Head<i32, u8>, u8> = || Err(AsyncError::ExecutionError(7));
    let gone: fn() -> AsyncResult<Head<i32, u8>, u8> = || Err(AsyncError::CancellationError);

    assert!(Stream::map(end(), &|v| v).unwrap().is_none());
    assert_eq!(7, Stream::map(failed(), &|v| v).err().unwrap().unwrap());
    match Stream::reduce(end(), 5, &|a, v| a + v) {
        Turn::Done(Ok(v)) => assert_eq!(5, v),
        _ => panic!("the stream has ended"),
    }
    match Stream::reduce(gone(), 5, &|a, v| a + v) {
        Turn::Done(Err(e)) => assert!(e.is_cancellation()),
        _ => panic!("the stream is gone"),
    }
    match Stream::each(failed(), &|_| ()) {
        Turn::Done(Err(e)) => assert_eq!(7, e.unwrap()),
        _ => panic!("the stream has failed"),
    }
    match Stream::collect(end(), vec![1]) {
        Turn::Done(Ok(v)) => assert_eq!(vec![1], v),
        _ => panic!("the stream has ended"),
    }
    match Stream::take(failed(), 2) {
        Taken::Fail(e) => assert_eq!(7, e.unwrap()),
        _ => panic!("the stream has failed"),
    }
    match Stream::take(end(), 2) {
        Taken::End => {}
        _ => panic!("the stream has ended"),
    }
    assert!(Stream::take_until(1, end()).is_none());
    assert!(Stream::take_until(1, failed()).is_none());
}

#[test]
fn values_are_taken_until_the_condition_holds() {
    let head = || -> AsyncResult<Head<i32, ()>, ()> {
        let (_cell, _tx, rest) = Stream::pair::<(), (), ()>();
        Ok(Some((4, rest)))
    };
    assert_eq!(4, Stream::take_until(1, head()).unwrap().0);
    assert!(Stream::take_until(0, head()).is_none());
}

#[test]
fn sender_learns_of_a_canceled_stream() {
    let (tx, rx) = Str::<u8, ()>::pair();
    assert!(!tx.end.as_ref().unwrap().is_ready(&*tx.cell.borrow()));
    drop(rx);
    assert!(tx.end.as_ref().unwrap().is_ready(&*tx.cell.borrow()));
    assert!(tx.end.as_ref().unwrap().is_err(&*tx.cell.borrow()));
    let log = Log::new();
    let out = log.clone();
    tx.receive(move |res| out.send(res.err().unwrap().is_cancellation()));
    assert_eq!(vec![true], log.all());
}

#[test]
fn polling_a_stream() {
    let (mut cell, tx, rx) = Stream::<u8, ()>::pair::<(), (), u32>();
    assert!(!rx.is_ready(&cell));
    let rx = match rx.poll(&mut cell) {
        Err(rx) => rx,
        Ok(_) => panic!("nothing was sent"),
    };
    let tx = match tx.poll(&mut cell) {
        Err(tx) => tx,
        Ok(_) => panic!("nobody asked"),
    };
    let (busy, action) = tx.send(&mut cell, 9);
    assert!(matches!(action, Action::Idle));
    assert!(rx.is_ready(&cell));
    assert!(!rx.is_err(&cell));
    assert_eq!(3, cell.state().ref_count());
    let (core, head) = match rx.poll(&mut cell) {
        Ok(res) => res,
        Err(_) => panic!("a value was sent"),
    };
    assert!(!cell.release(core));
    let (v, rest) = head.unwrap().unwrap();
    assert_eq!(9, v);
    assert!(!busy.is_ready(&cell));
    let (core, action) = rest.discard(&mut cell);
    assert!(matches!(action, Action::Idle));
    assert!(!cell.release(core));
    assert!(busy.is_err(&cell));
    match busy.poll(&mut cell) {
        Ok((core, res)) => {
            assert!(res.err().unwrap().is_cancellation());
            assert!(cell.release(core));
        }
        Err(_) => panic!("the consumer is gone"),
    }
}

#[test]
fn futures_that_are_ready() {
    assert_eq!(Ok(4), Fut::<i32, ()>::of(4).wait());
    let (mut cell, f) = Future::<i32, u8>::error::<(), (), u32>(3);
    assert!(f.is_ready(&cell));
    let (_, val, _) = f.wait(&mut cell, 0);
    assert_eq!(Some(Err(AsyncError::ExecutionError(3))), val);
    let (mut cell, f) = Future::<i32, u8>::canceled::<(), (), u32>();
    let (_, val, _) = f.wait(&mut cell, 0);
    assert_eq!(Some(Err(AsyncError::CancellationError)), val);
}

#[test]
fn lazy_future_runs_on_interest() {
    let (mut cell, f, core) = Future::<i32, ()>::lazy::<(), &'static str, u32>("work");
    assert!(!cell.release(core));
    let (_, val, action) = f.wait(&mut cell, 5);
    assert!(val.is_none());
    let core = match action {
        Action::Produce(f, Ok(core)) => {
            assert_eq!("work", f);
            core
        }
        _ => panic!("the producer was not told"),
    };
    let c: Complete<i32, ()> = Complete::from_core(core);
    let (_, action) = c.complete(&mut cell, 11);
    assert!(matches!(action, Action::Unpark(5)));
    assert!(matches!(cell.producer_done(), Action::Idle));
    assert_eq!(Some(Ok(11)), cell.consumer_poll());
}

#[test]
fn future_of_a_head_is_a_stream() {
    let (mut cell, f) = Future::<Head<u8, ()>, ()>::of::<(), (), u32>(None);
    let s = f.as_stream();
    match s.poll(&mut cell) {
        Ok((_, res)) => assert!(res.unwrap().is_none()),
        Err(_) => panic!("the head is there"),
    }
}

#[test]
fn producer_that_goes_cancels() {
    let (f, c) = Fut::<i32, ()>::pair();
    drop(c);
    assert_eq!(Err(AsyncError::CancellationError), f.wait());
}

#[test]
fn producer_waits_for_interest() {
    let (mut cell, f, c) = Future::<i32, ()>::pair::<u8, (), u32>();
    let (core, res) = c.wait(&mut cell, 8);
    assert!(res.is_none());
    let (_, action) = f.receive(&mut cell, 1);
    assert!(matches!(action, Action::Unpark(8)));
    let core2 = cell.producer_poll().unwrap().unwrap();
    assert!(!cell.release(core));
    let c: Complete<i32, ()> = Complete::from_core(core2);
    let (_, action) = c.fail(&mut cell, ());
    match action {
        Action::Consume(1, Err(e)) => assert!(e.is_execution_error()),
        _ => panic!("the consumer was not told"),
    }
    assert!(matches!(cell.consumer_done(), Action::Idle));
}

#[test]
fn ready_values_are_composed() {
    let ok: AsyncResult<i32, u8> = Ok(1337);
    assert!(ok.is_ready());
    assert!(!Async::is_err(&ok));
    let r: AsyncResult<i32, u8> = Compose::and_then(ok, |v| -> AsyncResult<i32, u8> {
        assert_eq!(v, 1337);
        Ok(1007)
    })
    .expect();
    assert_eq!(Ok(1007), r);

    let err: AsyncResult<i32, &'static str> = Err(AsyncError::ExecutionError("failed"));
    assert!(Async::is_err(&err));
    let r = Compose::or_else(err, |e| -> AsyncResult<i32, &'static str> {
        assert_eq!(e, AsyncError::ExecutionError("failed"));
        Ok(1337)
    })
    .expect();
    assert_eq!(Ok(1337), r);

    let err: AsyncResult<i32, u8> = Err(AsyncError::ExecutionError(3));
    assert_eq!(Err(AsyncError::ExecutionError(3)), Compose::and(err, Ok::<u8, AsyncError<u8>>(4)).expect());
    let ok: AsyncResult<i32, u8> = Ok(1);
    assert_eq!(Ok(4u8), Compose::and(ok, Ok::<u8, AsyncError<u8>>(4)).expect());
    let ok: AsyncResult<i32, u8> = Ok(1);
    assert_eq!(Ok(1), Compose::or(ok, Ok::<i32, AsyncError<u8>>(2)).expect());
    let gone: AsyncResult<i32, u8> = Err(AsyncError::CancellationError);
    assert_eq!(Ok(2), Compose::or(gone, Ok::<i32, AsyncError<u8>>(2)).expect());
    let gone: AsyncResult<i32, u8> = Err(AsyncError::CancellationError);
    assert_eq!(Ok(true), Compose::handle(gone, |res: AsyncResult<i32, u8>| res.is_err()).expect());
}

#[test]
fn plain_values_are_ready() {
    assert_eq!(Ok(Ok(5u64)), 5u64.wait());
    assert_eq!(Ok(Ok(())), ().poll());
    assert_eq!(Ok("x".to_string()), "x".to_string().expect());
    assert_eq!(Ok(Ok(vec![1, 2])), Async::wait(vec![1, 2]));
    assert!(Async::is_ready(&true));
    assert!(!Async::is_err(&-3i8));
    let log = Log::new();
    assert!(7i32.receive(|res| log.send(res.unwrap())).is_ok());
    assert!(matches!(9i32.ready(|v| log.send(v)), Ok(None)));
    assert_eq!(vec![7, 9], log.all());
}

#[test]
fn what_was_registered_is_taken_back() {
    assert_eq!(Some(3), Cancel::cancel(Some(3)));
    assert_eq!(None, Cancel::<u8>::cancel(None));
    let none: Receipt<Sender<u8, ()>> = receipt::none();
    assert!(none.cancel().is_none());
    let none: Receipt<BusySender<u8, ()>> = receipt::none();
    assert!(none.cancel().is_none());
    let (mut cell, _f, _c) = Future::<i32, ()>::pair::<(), (), ()>();
    let r: Receipt<u8> = receipt::new(cell.acquire(), 17);
    let (core, count) = receipt::parts(r);
    assert!(core.is_some());
    assert_eq!(17, count);
    let (core, count) = receipt::parts(receipt::none::<u8>());
    assert!(core.is_none());
    assert_eq!(0, count);
}

#[test]
fn errors() {
    let e = AsyncError::wrap(5);
    assert!(e.is_execution_error());
    assert!(!e.is_cancellation());
    assert_eq!(5, e.unwrap());
    assert_eq!(Some(6), AsyncError::wrap(6).take());
    let c: AsyncError<u8> = AsyncError::canceled();
    assert!(c.is_cancellation());
    assert!(!c.is_execution_error());
    assert_eq!(None, c.take());
}

#[test]
fn state_word() {
    let s = State::new();
    assert_eq!(Lifecycle::New, s.lifecycle());
    assert_eq!(64, s.as_usize());
    let t = s.ref_inc().with_lifecycle(Lifecycle::Canceled).with_producing();
    assert_eq!(2 * 64 + 32 + 8, t.as_usize());
    assert_eq!(2, t.ref_count());
    assert!(t.is_canceled() && t.is_producing() && !t.is_consuming());
    assert_eq!(s, t.ref_dec().with_lifecycle(Lifecycle::New).without_producing());
    for code in 0..9 {
        assert_eq!(code, Lifecycle::from_usize(code).unwrap().as_usize());
    }
    assert!(Lifecycle::from_usize(9).is_none());
}

#[test]
fn state_cell() {
    let mut a = AtomicState::new();
    assert_eq!(1, a.load().ref_count());
    let s = a.load();
    let t = s.with_lifecycle(Lifecycle::Ready);
    assert_eq!(s, a.compare_and_swap(t, t));
    assert_eq!(s, a.compare_and_swap(s, t));
    assert_eq!(Lifecycle::Ready, a.load().lifecycle());
}

#[test]
fn handles_are_taken_once() {
    let mut cell: CoreInner<u8, (), (), (), ()> = CoreInner::new();
    let mut slot = OptionCore::new(cell.acquire());
    assert!(slot.is_some());
    let core = slot.take();
    assert!(!slot.is_some());
    assert!(!cell.release(core));
}

#[test]
fn cancellation_is_told_after_the_callback() {
    let (mut cell, tx, rx) = Stream::<u8, ()>::pair::<u8, u8, u32>();
    let (_, action) = tx.receive(&mut cell, 1);
    assert!(matches!(action, Action::Idle));
    let (_, action) = rx.receive(&mut cell, 5);
    let core = match action {
        Action::Produce(1, Ok(core)) => core,
        _ => panic!("the producer was not told"),
    };
    let tx: Sender<u8, ()> = Sender::from_core(core);
    let (busy, action) = tx.send(&mut cell, 9);
    let rest = match action {
        Action::Consume(5, Ok(Some((9, rest)))) => rest,
        _ => panic!("the consumer was not told"),
    };
    assert!(matches!(cell.consumer_done(), Action::Idle));
    // The producer callback still runs when the producer waits again
    let (_, action) = busy.receive(&mut cell, 2);
    assert!(matches!(action, Action::Idle));
    let (_, action) = rest.discard(&mut cell);
    assert!(matches!(action, Action::Idle));
    match cell.producer_done() {
        Action::Produce(2, Err(e)) => assert!(e.is_cancellation()),
        _ => panic!("the producer was not told"),
    }
    assert!(matches!(cell.producer_done(), Action::Idle));
}

#[test]
fn stale_reads_make_no_difference() {
    let (mut cell, f, c) = Future::<u8, ()>::pair::<u8, u8, u32>();
    let seen = cell.state();
    let (_, action) = f.receive(&mut cell, 3);
    assert!(matches!(action, Action::Idle));
    match cell.complete_from(seen, Ok(8)) {
        Action::Consume(3, Ok(8)) => {}
        _ => panic!("the consumer waits"),
    }
    drop(c);

    let (mut cell, _f, c) = Future::<u8, ()>::pair::<u8, u8, u32>();
    let seen = cell.state();
    let (_, action) = c.complete(&mut cell, 6);
    assert!(matches!(action, Action::Idle));
    match cell.consumer_receive_from(seen, 4) {
        Action::Consume(4, Ok(6)) => {}
        _ => panic!("the value is there"),
    }

    let (mut cell, _f, c) = Future::<u8, ()>::pair::<u8, u8, u32>();
    let seen = cell.state();
    let (_, action) = c.receive(&mut cell, 7);
    assert!(matches!(action, Action::Idle));
    match cell.cancel_from(seen) {
        Action::Produce(7, Err(e)) => assert!(e.is_cancellation()),
        _ => panic!("the producer waits"),
    }

    let (mut cell, f, _c) = Future::<u8, ()>::pair::<u8, u8, u32>();
    let seen = cell.state();
    let (_, action) = f.discard(&mut cell);
    assert!(matches!(action, Action::Idle));
    match cell.producer_receive_from(seen, 2) {
        Action::Produce(2, Err(e)) => assert!(e.is_cancellation()),
        _ => panic!("the consumer is gone"),
    }
}

#[test]
fn value_that_is_there_is_given_within_a_callback() {
    let (mut cell, tx, rx) = Stream::<u8, ()>::pair::<u8, u8, u32>();
    let (core, action) = rx.receive(&mut cell, 1);
    assert!(matches!(action, Action::Idle));
    let (busy, action) = tx.send(&mut cell, 7);
    let rest = match action {
        Action::Consume(1, Ok(Some((7, rest)))) => rest,
        _ => panic!("the consumer was not told"),
    };
    cell.release(core);
    // While the callback runs nobody may wait for a value that is not there
    assert!(!cell.can_await() && cell.can_consume());
    let (handle, polled) = match busy.receive(&mut cell, 2) {
        (handle, Action::Idle) => (handle, cell.producer_poll()),
        _ => panic!("nobody has asked"),
    };
    assert!(polled.is_none());
    cell.release(handle);
    let (handle, action) = rest.receive(&mut cell, 3);
    cell.release(handle);
    let core = match action {
        Action::Produce(2, Ok(core)) => core,
        _ => panic!("the producer was not told"),
    };
    let (busy, action) = Sender::<u8, ()>::from_core(core).send(&mut cell, 8);
    assert!(matches!(action, Action::Idle));
    let rest = match cell.consumer_ready_cancel(2) {
        Some(3) => Stream::<u8, ()>::from_core(cell.acquire()),
        _ => panic!("the callback was not put off"),
    };
    assert!(matches!(busy.receive(&mut cell, 4), (_, Action::Idle)));
    assert_eq!(Lifecycle::ReadyProducerWait, cell.state().lifecycle());
    assert!(cell.can_await() && !cell.can_consume());
    let (_, val, action) = rest.wait(&mut cell, 42);
    assert!(matches!(val, Some(Ok(Some((8, _))))));
    assert!(matches!(action, Action::Idle));
    assert_eq!(Lifecycle::ProducerWait, cell.state().lifecycle());
}

#[test]
fn busy_sender_that_goes_ends_the_stream() {
    let (mut cell, tx, rx) = Stream::<u8, ()>::pair::<u8, u8, u32>();
    let (busy, _) = tx.send(&mut cell, 7);
    let (handle, action) = busy.discard(&mut cell, 5);
    assert!(matches!(action, Action::Idle));
    cell.release(handle);
    // The value that was sent still arrives
    let (handle, val, _) = rx.wait(&mut cell, 42);
    cell.release(handle);
    let rest = match val {
        Some(Ok(Some((7, rest)))) => rest,
        _ => panic!("the value is lost"),
    };
    let (handle, action) = rest.receive(&mut cell, 6);
    cell.release(handle);
    let told = match action {
        Action::Produce(5, told) => told,
        _ => panic!("the sender was not told"),
    };
    let (handle, action) = BusySender::<u8, ()>::end(told, &mut cell).unwrap();
    assert!(matches!(action, Action::Consume(6, Ok(None))));
    cell.release(handle);
}

#[test]
fn busy_sender_that_goes_leaves_a_canceled_stream() {
    let (mut cell, tx, rx) = Stream::<u8, ()>::pair::<u8, u8, u32>();
    let (busy, _) = tx.send(&mut cell, 7);
    let (_, action) = rx.discard(&mut cell);
    assert!(matches!(action, Action::Idle));
    let told = match busy.discard(&mut cell, 5) {
        (_, Action::Produce(5, told)) => told,
        _ => panic!("the sender was not told"),
    };
    assert!(told.is_err());
    assert!(BusySender::<u8, ()>::end(told, &mut cell).is_none());
    assert_eq!(Lifecycle::Canceled, cell.state().lifecycle());
}

#[test]
fn condition_and_value_share_one_sender() {
    let mut until = Until::new();
    assert_eq!(Ok(()), until.wait_with('a'));
    match until.resume::<u8, ()>(Ok(None)) {
        Some(('a', None)) => {}
        _ => panic!("the value came first"),
    }
    assert_eq!(Ok(()), until.wait_with('b'));
    match until.resume::<u8, ()>(Err(AsyncError::wrap(()))) {
        Some(('b', None)) => {}
        _ => panic!("the value came first"),
    }
    assert_eq!(Ok(()), until.wait_with('c'));
    assert_eq!(Some('c'), until.end());
    assert!(until.resume::<u8, ()>(Ok(None)).is_none());
    assert_eq!(Err('d'), until.wait_with('d'));
    assert_eq!(None, until.end());

    let (mut cell, tx, rx) = Stream::<u8, ()>::pair::<u8, u8, u32>();
    let _ = tx.send(&mut cell, 3);
    let (_, val, _) = rx.wait(&mut cell, 1);
    let mut until = Until::new();
    assert_eq!(Ok(()), until.wait_with('e'));
    assert!(matches!(until.resume(val.unwrap()), Some(('e', Some((3, _))))));
}

#[test]
fn mapped_stream_ends_like_its_source() {
    let double = |i: u8| 2 * i;
    let end: AsyncResult<Head<u8, &'static str>, &'static str> = Ok(None);
    assert!(matches!(Stream::map(end, &double), Ok(None)));
    let failed: AsyncResult<Head<u8, &'static str>, &'static str> = Err(AsyncError::wrap("no"));
    match Stream::map(failed, &double) {
        Err(AsyncError::ExecutionError("no")) => {}
        _ => panic!("the error is lost"),
    }
    let (mut cell, tx, rx) = Stream::<u8, &'static str>::pair::<u8, u8, u32>();
    let _ = tx.send(&mut cell, 21);
    let (_, val, _) = rx.wait(&mut cell, 1);
    assert!(matches!(Stream::map(val.unwrap(), &double), Ok(Some((42, _)))));
}
