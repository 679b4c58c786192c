use std::cell::RefCell;
use std::rc::Rc;
use syncbox::delay_queue::inner::{Poll, Take};
use syncbox::delay_queue::{Delay, DelayQueue, Delayed};
use syncbox::duration::Duration;
use syncbox::linked_queue::inner::{TimedPut, TimedTake};
use syncbox::linked_queue::timeout::Timeout;
use syncbox::linked_queue::LinkedQueue;
use syncbox::queue::{Attempt, Queue, SyncQueue};
use syncbox::util::Consume;

/// Lets the time pass, as a thread does that waits and is not woken.
fn sleep_ms(ms: u64) {
    let target = time::precise_time_ns() + ms * 1_000_000;
    while time::precise_time_ns() < target {}
}

fn put_take() {
    let mut q = LinkedQueue::new();

    assert_eq!(0, q.len());
    assert!(SyncQueue::put(&mut q, 1).is_ok());
    assert_eq!(1, q.len());
    assert_eq!(Attempt::Done(1), SyncQueue::take(&mut q));
    assert_eq!(0, q.len());
    assert!(Queue::poll(&mut q).is_none());
}

#[test]
fn test_linked_queue_test_single_threaded_put_take() {
    put_take();
}

#[test]
fn linked_test_single_threaded_put_take() {
    let mut q = LinkedQueue::new();

    assert_eq!(0, q.len());
    let none = Timeout::new(Duration::milliseconds(0));
    assert_eq!(TimedPut::Done(false), q.put_wait(1usize, &none));
    assert_eq!(1, q.len());
    assert_eq!(TimedTake::Done(1usize, false), q.take_wait(&none));
    assert_eq!(0, q.len());
    assert_eq!(TimedTake::Elapsed, q.take_wait(&none));
}

#[test]
fn linked_queue_test_single_threaded_put_take() {
    let mut q = LinkedQueue::new();

    assert_eq!(0, q.len());
    assert!(SyncQueue::put(&mut q, 1usize).is_ok());
    assert_eq!(1, q.len());
    assert_eq!(Attempt::Done(1usize), SyncQueue::take(&mut q));
    assert_eq!(0, q.len());
    assert!(q.take_opt().is_none());
}

#[test]
fn test_single_threaded_offer_timeout() {
    let mut q = LinkedQueue::with_capacity(1);

    q.offer(1).unwrap();

    let now = time::precise_time_ns();
    let mut timeout = Timeout::new(Duration::milliseconds(200));
    let mut val = 2;
    let result = loop {
        match q.put_wait(val, &timeout) {
            TimedPut::Done(_) => break Ok(()),
            TimedPut::Elapsed(v) => break Err(v),
            TimedPut::Wait(v, ms) => {
                val = v;
                q.producer_waits();
                sleep_ms(ms);
                q.producer_resumes();
                assert!(timeout.update());
            }
        }
    };
    let delta = time::precise_time_ns() - now;
    assert!(result.is_err());
    assert!(delta >= 200_000_000, "actual={}", delta);
    assert!(!q.producer_notify());
}

#[test]
fn test_single_threaded_poll_timeout() {
    let mut q = LinkedQueue::<u32>::new();

    let now = time::precise_time_ns();
    let mut timeout = Timeout::new(Duration::milliseconds(200));
    loop {
        match q.take_wait(&timeout) {
            TimedTake::Done(_, _) => panic!("the queue is empty"),
            TimedTake::Elapsed => break,
            TimedTake::Wait(ms) => {
                q.consumer_waits();
                sleep_ms(ms);
                q.consumer_resumes();
                assert!(timeout.update());
            }
        }
    }
    let delta = time::precise_time_ns() - now;
    assert!(delta >= 200_000_000, "actual={}", delta);
}

/// One consumer that waits for 10,000 values of one producer, which runs in bursts.
fn single_consumer_single_producer() {
    let mut q = LinkedQueue::new();
    let mut produced = 0;
    let mut waits = 0;

    for i in 0..10_000 {
        loop {
            match SyncQueue::take(&mut q) {
                Attempt::Done(v) => {
                    assert_eq!(i, v);
                    break;
                }
                _ => {
                    q.consumer_waits();
                    waits += 1;
                    for _ in 0..7 {
                        assert!(SyncQueue::put(&mut q, produced).is_ok());
                        assert!(q.consumer_notify());
                        produced += 1;
                    }
                    q.consumer_resumes();
                }
            }
        }
    }

    assert!(waits > 1);
    while produced > 10_000 {
        produced -= 1;
        assert!(Queue::poll(&mut q).is_some());
    }
    assert!(Queue::poll(&mut q).is_none());
}

#[test]
fn test_linked_queue_test_single_consumer_single_producer() {
    single_consumer_single_producer();
}

#[test]
fn linked_test_single_consumer_single_producer() {
    single_consumer_single_producer();
}

/// One consumer and ten producers, which take turns of different lengths.
fn single_consumer_multi_producer() {
    let mut q = LinkedQueue::new();
    let mut next = [0usize; 10];
    let mut taken = 0;
    let mut vals = [0usize; 10];
    let mut round = 0;

    while taken < 10 * 10_000 {
        for t in 0..10 {
            for _ in 0..(1 + (t + round) % 5) {
                if next[t] < 10_000 {
                    assert!(SyncQueue::put(&mut q, (t, next[t])).is_ok());
                    next[t] += 1;
                }
            }
        }
        while let Attempt::Done((t, v)) = SyncQueue::take(&mut q) {
            assert_eq!(vals[t], v);
            vals[t] += 1;
            taken += 1;
        }
        round += 1;
    }
}

#[test]
fn test_linked_queue_test_single_consumer_multi_producer() {
    single_consumer_multi_producer();
}

#[test]
fn linked_test_single_consumer_multi_producer() {
    single_consumer_multi_producer();
}

#[test]
fn linked_test_multi_consumer_multi_producer() {
    let mut q = LinkedQueue::new();
    let mut results: LinkedQueue<Vec<(usize, u32)>> = LinkedQueue::new();
    let mut vals: Vec<Vec<(usize, u32)>> = vec![vec![], vec![], vec![], vec![], vec![]];
    let mut seen = [[0u32; 5]; 5];
    let mut done = [false; 5];

    for i in 1..1_000 {
        for t in 0..5 {
            assert!(SyncQueue::put(&mut q, (t, i)).is_ok());
        }
        for c in 0..((i as usize) % 6) {
            let c = c % 5;
            if let Some((t, v)) = Queue::poll(&mut q) {
                assert!(seen[c][t] < v);
                seen[c][t] = v;
                vals[c].push((t, v));
            }
        }
    }
    for t in 0..5 {
        assert!(SyncQueue::put(&mut q, (t, 1_000_000)).is_ok());
    }
    while !done.iter().all(|d| *d) {
        for c in 0..5 {
            if done[c] {
                continue;
            }
            match SyncQueue::take(&mut q) {
                Attempt::Done((t, v)) => {
                    if v > 1_000 {
                        done[c] = true;
                        assert!(SyncQueue::put(&mut results, vals[c].clone()).is_ok());
                    } else {
                        assert!(seen[c][t] < v);
                        seen[c][t] = v;
                        vals[c].push((t, v));
                    }
                }
                _ => panic!("a consumer without an end"),
            }
        }
    }

    let mut all_vals = vec![];
    for _ in 0..5 {
        match SyncQueue::take(&mut results) {
            Attempt::Done(v) => all_vals.extend(v),
            _ => panic!("a result is missing"),
        }
    }
    all_vals.sort();
    let mut per_producer = [1, 1, 1, 1, 1];
    for &(t, v) in all_vals.iter() {
        assert_eq!(per_producer[t], v);
        per_producer[t] += 1;
    }
    for &v in per_producer.iter() {
        assert_eq!(1_000, v);
    }
}

fn queue_with_capacity() {
    let mut queue = LinkedQueue::with_capacity(8);

    for i in 0..8 {
        assert!(queue.offer(i).is_ok());
    }

    assert_eq!(Err(8), queue.offer(8));
    assert_eq!(Some(0), Queue::poll(&mut queue));

    assert!(queue.offer(8).is_ok());

    for i in 1..9 {
        assert_eq!(Some(i), Queue::poll(&mut queue));
    }
}

#[test]
fn test_linked_queue_test_queue_with_capacity() {
    queue_with_capacity();
}

#[test]
fn linked_test_queue_with_capacity() {
    queue_with_capacity();
}

#[test]
fn linked_queue_test_queue_with_capacity() {
    let mut queue = LinkedQueue::with_capacity(8);

    for i in 0..8 {
        assert!(queue.put_opt(i).is_ok());
    }

    assert_eq!(Err(8), queue.put_opt(8));
    assert_eq!(Some(0), queue.take_opt());

    assert!(queue.put_opt(8).is_ok());

    for i in 1..9 {
        assert_eq!(Some(i), queue.take_opt());
    }
}

/// Eight producers of 1,000 values each, which wait when the queue is full.
fn multi_producer_at_capacity() {
    let mut queue = LinkedQueue::with_capacity(8);
    let mut next = [0; 8];
    let mut waiting = [false; 8];
    let mut taken = 0;

    while taken < 8 * 1_000 {
        for t in 0..8 {
            if waiting[t] {
                continue;
            }
            while next[t] < 1_000 {
                match SyncQueue::put(&mut queue, next[t]) {
                    Ok(()) => next[t] += 1,
                    Err(v) => {
                        assert_eq!(next[t], v);
                        queue.producer_waits();
                        waiting[t] = true;
                        break;
                    }
                }
            }
        }
        assert!(queue.len() <= 8);
        while let Attempt::Done(_) = SyncQueue::take(&mut queue) {
            taken += 1;
            if queue.producer_notify() {
                let t = waiting.iter().position(|w| *w).unwrap();
                queue.producer_resumes();
                waiting[t] = false;
            }
        }
    }
    assert_eq!(8 * 1_000, taken);
    assert!(!queue.producer_notify());
}

#[test]
fn test_linked_queue_test_multi_producer_at_capacity() {
    multi_producer_at_capacity();
}

#[test]
fn linked_test_multi_producer_at_capacity() {
    multi_producer_at_capacity();
}

#[test]
fn elements_come_out_in_the_order_they_went_in() {
    let mut q = LinkedQueue::with_capacity(3);
    for round in 0..50 {
        assert_eq!(Ok(()), q.put_opt((round, 'a')));
        assert_eq!(Ok(()), q.put_opt((round, 'b')));
        assert_eq!(Ok(()), q.put_opt((round, 'c')));
        assert_eq!(Err((round, 'd')), q.put_opt((round, 'd')));
        assert_eq!(Some((round, 'a')), q.take_opt());
        assert_eq!(Ok(()), q.put_opt((round, 'e')));
        assert_eq!(Some((round, 'b')), q.take_opt());
        assert_eq!(Some((round, 'c')), q.take_opt());
        assert_eq!(Some((round, 'e')), q.take_opt());
        assert_eq!(None, q.take_opt());
    }
}

#[test]
fn nothing_fits_into_a_queue_without_capacity() {
    let mut q = LinkedQueue::with_capacity(0);
    assert_eq!(Err(1), q.offer(1));
    assert_eq!(None, Queue::poll(&mut q));
    assert!(q.is_empty());
}

#[test]
fn waiting_leaves_no_trace() {
    let mut q: LinkedQueue<u8> = LinkedQueue::new();
    assert!(!q.consumer_notify());
    q.consumer_waits();
    q.consumer_waits();
    assert!(q.consumer_notify());
    q.consumer_resumes();
    assert!(q.consumer_notify());
    q.consumer_resumes();
    assert!(!q.consumer_notify());
    q.producer_waits();
    assert!(q.producer_notify());
    assert!(!q.consumer_notify());
    q.producer_resumes();
    assert!(!q.producer_notify());
}

#[test]
fn queue_is_consumed() {
    let mut q = LinkedQueue::new();
    assert_eq!(Attempt::Wait, Consume::take(&mut q));
    q.put_opt(5).unwrap();
    q.put_opt(6).unwrap();
    assert_eq!(Attempt::Done(5), Consume::take(&mut q));
    assert_eq!(Some(6), Consume::poll(&mut q));
    assert_eq!(None, Consume::poll(&mut q));
}

#[test]
fn timeout_counts_whole_milliseconds() {
    let mut t = Timeout::starting(Duration::milliseconds(10), 5);
    assert_eq!(10, t.remaining_ms());
    t.update_at(3_999_999);
    assert_eq!(7, t.remaining_ms());
    t.update_at(10_999_998);
    assert_eq!(1, t.remaining_ms());
    assert!(!t.is_elapsed());
    t.update_at(100_000_000);
    assert_eq!(0, t.remaining_ms());
    assert!(t.is_elapsed());
}

#[test]
fn negative_timeout_does_not_elapse() {
    let t = Timeout::starting(Duration::milliseconds(-1), 0);
    assert_eq!(u64::MAX, t.remaining_ms());
    assert!(!t.is_elapsed());
    assert!(Timeout::starting(Duration::nanoseconds(-1), 0).is_elapsed());
}

#[test]
fn timeout_stays_where_the_clock_goes_backwards() {
    let mut t = Timeout::starting(Duration::milliseconds(10), 5_000_000);
    assert!(!t.update_to(4_999_999));
    assert_eq!(10, t.remaining_ms());
    assert!(t.update_to(7_000_000));
    assert_eq!(8, t.remaining_ms());
}

#[test]
fn timeout_reads_the_clock() {
    let mut t = Timeout::new(Duration::milliseconds(1_000));
    sleep_ms(20);
    assert!(t.update());
    assert!(t.remaining_ms() <= 980);
    assert!(t.remaining_ms() > 0);
}

#[test]
fn durations() {
    assert_eq!(30, Duration::milliseconds(30).num_milliseconds());
    assert_eq!(86_400_000, Duration::days(1).num_milliseconds());
    assert_eq!(1, Duration::nanoseconds(1_999_999).num_milliseconds());
    assert_eq!(-1, Duration::nanoseconds(-1_999_999).num_milliseconds());
    assert_eq!(i64::MIN, Duration::milliseconds(i64::MIN).num_milliseconds());
    assert_eq!(30_000_000, Duration::milliseconds(30).num_nanoseconds());
    assert!(Duration::nanoseconds(-1).is_negative());
    assert!(!Duration::nanoseconds(0).is_negative());
}

/// Takes as a thread does that is woken by nothing but its timeout.
fn take<T: Delayed>(queue: &mut DelayQueue<T>) -> T {
    loop {
        match SyncQueue::take(queue) {
            Attempt::Done(v) => return v,
            Attempt::Wait => panic!("the queue is empty"),
            Attempt::WaitTimeout(ms) => sleep_ms(ms as u64),
        }
    }
}

fn poll_timeout<T: Delayed>(queue: &mut DelayQueue<T>, timeout: Duration) -> Option<T> {
    let end = DelayQueue::<T>::deadline(timeout);
    loop {
        match queue.poll_timeout(end) {
            Poll::Done(v, _) => return Some(v),
            Poll::Elapsed => return None,
            Poll::Wait(ms) => sleep_ms(ms as u64),
        }
    }
}

#[test]
fn test_ordering() {
    let mut queue = DelayQueue::new();

    queue.offer(Delay(1i32, Duration::milliseconds(30))).unwrap();
    queue.offer(Delay(2i32, Duration::milliseconds(10))).unwrap();
    queue.offer(Delay(3i32, Duration::milliseconds(20))).unwrap();

    assert_eq!(2, *take(&mut queue));
    assert_eq!(3, *take(&mut queue));
    assert_eq!(1, *take(&mut queue));
}

#[test]
fn test_poll() {
    let mut queue = DelayQueue::new();

    queue.offer(Delay(1i32, Duration::nanoseconds(0))).unwrap();
    queue.offer(Delay(2i32, Duration::days(1))).unwrap();

    assert_eq!(1, *queue.poll().unwrap());
    assert_eq!(None, queue.poll());
}

#[test]
fn test_poll_timeout() {
    let mut queue = DelayQueue::new();

    queue.offer(Delay(1i32, Duration::nanoseconds(0))).unwrap();
    queue.offer(Delay(2i32, Duration::milliseconds(250))).unwrap();
    queue.offer(Delay(3i32, Duration::days(1))).unwrap();

    assert_eq!(1, poll_timeout(&mut queue, Duration::milliseconds(250)).unwrap().unwrap());
    assert_eq!(2, poll_timeout(&mut queue, Duration::milliseconds(500)).unwrap().unwrap());
    assert_eq!(None, poll_timeout(&mut queue, Duration::milliseconds(500)));
}

#[test]
fn delayed_values_come_out_from_their_time_on() {
    let mut queue = DelayQueue::new();
    let ms = 1_000_000;

    assert!(queue.offer_at(Delay('b', Duration::milliseconds(30)), 5 * ms));
    assert!(!queue.offer_at(Delay('c', Duration::milliseconds(40)), 5 * ms));
    assert!(queue.offer_at(Delay('a', Duration::milliseconds(20)), 5 * ms));
    assert!(!queue.offer_at(Delay('d', Duration::milliseconds(50)), 5 * ms));
    assert_eq!(4, queue.len());

    assert_eq!(Take::WaitTimeout(20), queue.take_at(5 * ms));
    assert_eq!(None, queue.poll_at(25 * ms - 1));
    assert_eq!(Take::WaitTimeout(0), queue.take_at(25 * ms - 1));
    assert_eq!(Some((Delay('a', Duration::milliseconds(20)), true)), queue.poll_at(25 * ms));
    assert_eq!(None, queue.poll_at(25 * ms));
    assert_eq!(Some((Delay('b', Duration::milliseconds(30)), true)), queue.poll_at(100 * ms));
    assert_eq!(Some((Delay('c', Duration::milliseconds(40)), true)), queue.poll_at(100 * ms));
    assert_eq!(Take::Done(Delay('d', Duration::milliseconds(50)), false), queue.take_at(100 * ms));
    assert_eq!(Take::Wait, queue.take_at(100 * ms));
    assert!(queue.is_empty());
}

#[test]
fn deadline_ends_a_wait() {
    let mut queue = DelayQueue::new();
    let ms = 1_000_000;
    let end = DelayQueue::<Delay<u8>>::deadline_at(10 * ms, Duration::milliseconds(15));
    assert_eq!(25_000_000, end);
    queue.offer_at(Delay(1u8, Duration::milliseconds(40)), 0);
    assert_eq!(Poll::Wait(15), queue.poll_timeout_at(10 * ms, end));
    queue.offer_at(Delay(2u8, Duration::milliseconds(12)), 0);
    assert_eq!(Poll::Wait(2), queue.poll_timeout_at(10 * ms, end));
    assert_eq!(Poll::Elapsed, queue.poll_timeout_at(25 * ms, end));
    match queue.poll_timeout_at(24 * ms, end) {
        Poll::Done(v, wake) => {
            assert_eq!(2, v.unwrap());
            assert!(wake);
        },
        _ => panic!("the head is ready"),
    }
}

#[test]
fn long_waits_are_cut_to_their_low_bits() {
    let mut queue = DelayQueue::new();
    queue.offer_at(Delay(1u8, Duration::milliseconds(0x1_0000_0005)), 0);
    assert_eq!(Take::WaitTimeout(5), queue.take_at(0));
}

#[test]
fn many_delayed_values_are_sorted() {
    let mut queue = DelayQueue::new();
    let mut seed: u64 = 12345;
    let mut delays = vec![];
    for _ in 0..500 {
        seed = seed.wrapping_mul(6364136223846793005).wrapping_add(1442695040888963407);
        let d = (seed >> 40) as i64 % 1000;
        delays.push(d);
        queue.offer_at(Delay(d, Duration::milliseconds(d)), 0);
    }
    delays.sort();
    for d in delays {
        assert_eq!(d, queue.poll_at(u64::MAX).unwrap().0.unwrap());
    }
    assert!(queue.is_empty());
}

#[test]
fn value_that_is_put_last_comes_out_last() {
    let mut queue = DelayQueue::new();
    let ms = 1_000_000;
    assert!(queue.offer_at(Delay('b', Duration::milliseconds(50)), 0));
    assert!(queue.offer_at(Delay('a', Duration::milliseconds(10)), 0));
    assert!(!queue.put_last_at(Delay('y', Duration::milliseconds(0)), 5 * ms));
    assert!(!queue.put_last_at(Delay('z', Duration::milliseconds(0)), 5 * ms));
    assert!(!queue.offer_at(Delay('c', Duration::milliseconds(50)), 0));
    assert_eq!('a', queue.poll_at(10 * ms).unwrap().0.unwrap());
    assert_eq!(None, queue.poll_at(49 * ms));
    let mut rest = vec![];
    while let Some((d, wake)) = queue.poll_at(50 * ms) {
        assert_eq!(wake, !queue.is_empty());
        rest.push(d.unwrap());
    }
    rest[0..2].sort();
    rest[2..4].sort();
    assert_eq!(vec!['b', 'c', 'y', 'z'], rest);
    assert!(queue.put_last_at(Delay('x', Duration::milliseconds(7)), 5 * ms));
    assert_eq!(Take::WaitTimeout(7), queue.take_at(5 * ms));
    assert_eq!(None, queue.poll_at(12 * ms - 1));
    assert_eq!('x', queue.poll_at(12 * ms).unwrap().0.unwrap());
    // A value whose delay is the longest waits for its own delay
    queue.offer_at(Delay('u', Duration::milliseconds(1)), 0);
    assert!(!queue.put_last_at(Delay('v', Duration::milliseconds(9)), ms));
    assert_eq!('u', queue.poll_at(ms).unwrap().0.unwrap());
    assert_eq!(None, queue.poll_at(10 * ms - 1));
    assert_eq!('v', queue.poll_at(10 * ms).unwrap().0.unwrap());
}

#[test]
fn popping_from_a_delay_queue_wakes_the_next() {
    let mut queue = DelayQueue::new();
    queue.offer_now(Delay(1, Duration::nanoseconds(0)));
    queue.offer_now(Delay(2, Duration::nanoseconds(0)));
    let (_, wake) = queue.poll_now().unwrap();
    assert!(wake);
    assert!(matches!(queue.take_now(), Take::Done(_, false)));
    assert_eq!(Take::Wait, queue.take_now());
}

#[test]
fn linked_queue_says_whom_to_wake() {
    let mut q = LinkedQueue::with_capacity(1);
    assert_eq!(Ok(false), q.offer_notify(1));
    q.producer_waits();
    assert_eq!(Some((1, true)), q.poll_notify());
    q.producer_resumes();
    q.consumer_waits();
    assert_eq!(Ok(true), q.offer_notify(2));
    assert_eq!(Err(3), q.offer_notify(3));
    let long = Timeout::starting(Duration::milliseconds(9), 0);
    assert_eq!(TimedTake::Done(2, false), q.take_wait(&long));
    assert_eq!(TimedPut::Done(true), q.put_wait(4, &long));
    assert_eq!(TimedPut::Wait(5, 9), q.put_wait(5, &long));
}

#[test]
fn no_value_has_no_delay() {
    let none: Option<Delay<u8>> = None;
    assert_eq!(0, none.delay().num_nanoseconds());
    assert_eq!(7_000_000, Some(Delay(1u8, Duration::milliseconds(7))).delay().num_nanoseconds());
}

#[test]
fn delay_gives_access_to_its_value() {
    let mut d = Delay(vec![1], Duration::milliseconds(3));
    d.deref_mut().push(2);
    assert_eq!(vec![1, 2], *d);
    assert_eq!(3, d.delay().num_milliseconds());
    assert_eq!(vec![1, 2], d.unwrap());
}

#[test]
fn queue_can_be_shared() {
    let q = Rc::new(RefCell::new(LinkedQueue::new()));
    let p = q.clone();
    p.borrow_mut().put_opt(1).unwrap();
    assert_eq!(Some(1), q.borrow_mut().take_opt());
}
