use syncbox::duration::Duration;
use syncbox::locks::mutex::{
    is_broken, is_timed_wait_broken, ms_to_abs, ms_to_abs_at, ms_to_abs_from, try_lock, TryLock,
};
use syncbox::locks::park::{Park, Wait};
use syncbox::locks::{park, park_timed, Parker};
use syncbox::util::asynch::state::{Lifecycle, State};
use syncbox::util::atomic::{Atomic, AtomicI64, AtomicU64, AtomicUsize, AtomicVal, Order};

#[test]
fn unsigned_box() {
    let mut a = AtomicU64::new(5);
    assert_eq!(5, a.load(Order::SeqCst));
    a.store(6, Order::Release);
    assert_eq!(6, a.swap(7, Order::AcqRel));
    assert_eq!(7, a.compare_and_swap(6, 8, Order::Relaxed));
    assert_eq!(7, a.load(Order::Acquire));
    assert_eq!(7, a.compare_and_swap(7, 8, Order::Relaxed));
    assert_eq!(8, a.load(Order::Relaxed));
    assert_eq!(8, a.fetch_add(u64::MAX, Order::Relaxed));
    assert_eq!(7, a.fetch_sub(8, Order::Relaxed));
    assert_eq!(u64::MAX, a.fetch_and(0b1100, Order::Relaxed));
    assert_eq!(0b1100, a.fetch_or(0b0011, Order::Relaxed));
    assert_eq!(0b1111, a.fetch_xor(0b0101, Order::Relaxed));
    assert_eq!(0b1010, a.load(Order::Relaxed));
}

#[test]
fn signed_box() {
    let mut a = AtomicI64::new(-5);
    assert_eq!(-5, a.load(Order::SeqCst));
    a.store(i64::MAX, Order::SeqCst);
    assert_eq!(i64::MAX, a.fetch_add(1, Order::Relaxed));
    assert_eq!(i64::MIN, a.fetch_sub(1, Order::Relaxed));
    assert_eq!(i64::MAX, a.swap(12, Order::Relaxed));
    assert_eq!(12, a.compare_and_swap(12, -1, Order::Relaxed));
    assert_eq!(-1, a.compare_and_swap(12, 3, Order::Relaxed));
    assert_eq!(-1, a.fetch_and(6, Order::Relaxed));
    assert_eq!(6, a.fetch_or(-8, Order::Relaxed));
    assert_eq!(-2, a.fetch_xor(-1, Order::Relaxed));
    assert_eq!(1, a.load(Order::Relaxed));
}

#[test]
fn adding_and_subtracting_is_undone() {
    let mut a = AtomicU64::new(u64::MAX - 1);
    a.fetch_add(10, Order::Relaxed);
    a.fetch_sub(10, Order::Relaxed);
    a.fetch_xor(77, Order::Relaxed);
    a.fetch_xor(77, Order::Relaxed);
    assert_eq!(u64::MAX - 1, a.load(Order::Relaxed));
    let mut b = AtomicI64::new(i64::MIN);
    b.fetch_add(-10, Order::Relaxed);
    b.fetch_sub(-10, Order::Relaxed);
    b.fetch_xor(-77, Order::Relaxed);
    b.fetch_xor(-77, Order::Relaxed);
    assert_eq!(i64::MIN, b.load(Order::Relaxed));
}

#[test]
fn word_box() {
    let mut a = AtomicUsize::new(1);
    assert_eq!(1, a.load(Order::Relaxed));
    a.store(2, Order::Relaxed);
    assert_eq!(2, a.swap(3, Order::Relaxed));
    assert_eq!(3, a.compare_and_swap(2, 4, Order::Relaxed));
    assert_eq!(3, a.compare_and_swap(3, 4, Order::Relaxed));
    assert_eq!(4, a.load(Order::Relaxed));
}

#[test]
fn box_of_states() {
    let s = State::new();
    let t = s.with_lifecycle(Lifecycle::Ready).with_consuming();
    let mut a: AtomicVal<State, AtomicUsize> = AtomicVal::new(s);
    assert_eq!(s, a.load(Order::Relaxed));
    assert_eq!(s, a.compare_and_swap(t, t, Order::Relaxed));
    assert_eq!(s, a.compare_and_swap(s, t, Order::Relaxed));
    assert_eq!(t, a.swap(s, Order::Relaxed));
    a.store(t, Order::Relaxed);
    assert!(a.load(Order::Relaxed).is_consuming());
    assert_eq!(Lifecycle::Ready, a.load(Order::Relaxed).lifecycle());
}

#[test]
fn unpark_before_park_is_kept() {
    let mut p = Parker::new();
    assert!(!p.unpark());
    assert!(!p.unpark());
    assert_eq!(Park::Consumed, park(&mut p));
    assert_eq!(Park::Enter(Wait::Forever), park(&mut p));
}

#[test]
fn unpark_during_park_is_kept() {
    let mut p = Parker::new();
    assert_eq!(Park::Enter(Wait::Forever), park(&mut p));
    assert!(!p.unpark());
    assert!(!p.enter());
}

#[test]
fn unpark_of_a_parked_thread_signals() {
    let mut p = Parker::new();
    assert_eq!(Park::Enter(Wait::Ms(20)), p.park_ms(20));
    assert!(p.enter());
    assert!(p.unpark());
    p.leave();
    assert_eq!(Park::Enter(Wait::Forever), p.park_ms(0));
}

#[test]
fn timed_park() {
    let mut p = Parker::new();
    assert_eq!(Park::Enter(Wait::Ms(15)), park_timed(&mut p, Duration::milliseconds(15)));
    assert_eq!(Park::Enter(Wait::Forever), park_timed(&mut p, Duration::nanoseconds(999_999)));
    assert_eq!(Park::Enter(Wait::Ms(usize::MAX)), park_timed(&mut p, Duration::milliseconds(-4)));
    p.unpark();
    assert_eq!(Park::Consumed, park_timed(&mut p, Duration::milliseconds(15)));
}

#[test]
fn native_codes() {
    assert_eq!(TryLock::Locked, try_lock(0, 16));
    assert_eq!(TryLock::Busy, try_lock(16, 16));
    assert_eq!(TryLock::Broken, try_lock(22, 16));
    assert!(is_broken(-1));
    assert!(!is_broken(0));
    assert!(!is_broken(1));
    assert!(!is_timed_wait_broken(0, 110));
    assert!(!is_timed_wait_broken(110, 110));
    assert!(is_timed_wait_broken(22, 110));
}

#[test]
fn end_of_a_wait() {
    assert_eq!((12, 1_000_965), ms_to_abs_from((10, 5), 2_000));
    assert_eq!((10, 1_000_512), ms_to_abs_from((10, 0), 512));
    assert_eq!((12, 2_999), ms_to_abs_from((10, 999_001_999), 1_000));
    assert_eq!((1_000_001, 1_000_000), ms_to_abs_from((1, 0), 2_000_000_000_000));
}

#[test]
fn end_of_a_wait_that_does_not_fit() {
    assert_eq!(Some((12, 1_000_965)), ms_to_abs_at((10, 5), 2_000));
    assert_eq!(None, ms_to_abs_at((i64::MAX, 0), 1_000));
    assert_eq!(Some((i64::MAX, 1_000_000)), ms_to_abs_at((i64::MAX, 0), 0));
    assert_eq!(Some((i64::MAX, 999_999_999)), ms_to_abs_at((i64::MAX, 998_999_999), 0));
    assert_eq!(None, ms_to_abs_at((i64::MAX, 999_000_000), 0));
}

#[test]
fn end_of_a_wait_from_now() {
    let before = time::get_time();
    let (sec, nsec) = ms_to_abs(3_000).unwrap();
    let after = time::get_time();
    assert!(0 <= nsec && nsec < 1_000_000_000);
    assert!(before.sec + 3 <= sec);
    assert!(sec <= after.sec + 4);
}
