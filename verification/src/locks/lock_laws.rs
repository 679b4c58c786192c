//! What the steps of parking a thread and of the locks are for, one by one.
use super::mutex::{
    ends_at, is_broken, is_timed_wait_broken, ms_to_abs, ms_to_abs_at, ms_to_abs_from,
    try_lock, TryLock,
};
use super::park::{park, park_timed, Park, Parker, Wait};
use crate::duration::Duration;
use vstd::prelude::*;

verus! {

/// The first step of parking: a thread that was unparked before goes on, and the unpark is used up.
/// Any other one is to block, and its parker is as it was.
pub open spec fn first_step(before: Parker, after: Parker, r: Park) -> bool {
    &&& r is Consumed <==> before@ is Unpark
    &&& r is Consumed ==> after@ is Parked
    &&& !(r is Consumed) ==> after@ == before@
}

/// A thread that parks for some milliseconds blocks for just as many, and without a limit for none.
pub proof fn law_park_blocks_as_long_as_it_should(
    p: &mut Parker,
    ms: usize,
    r: Park,
    q: &mut Parker,
    s: Park,
)
    requires
        old(p).wf(),
        call_ensures(Parker::park_ms, (p, ms), r),
        old(q).wf(),
        call_ensures(park, (q,), s),
    ensures
        first_step(*old(p), *final(p), r),
        r matches Park::Enter(wait) ==> (ms == 0 ==> wait is Forever) && (ms > 0 ==> wait
            == Wait::Ms(ms)),
        first_step(*old(q), *final(q), s),
        s matches Park::Enter(wait) ==> wait is Forever,
{
}

/// A thread that parks for a span blocks for its whole milliseconds. A negative span, or one that
/// does not fit, is the longest there is, and one of less than a millisecond has no limit.
pub proof fn law_timed_park_blocks_for_its_span(p: &mut Parker, timeout: Duration, r: Park)
    requires
        old(p).wf(),
        call_ensures(park_timed, (p, timeout), r),
    ensures
        first_step(*old(p), *final(p), r),
        r matches Park::Enter(wait) ==> {
            &&& wait is Forever <==> -1_000_000 < timeout@ < 1_000_000
            &&& timeout@ <= -1_000_000 ==> wait == Wait::Ms(usize::MAX)
            &&& wait matches Wait::Ms(ms) ==> (timeout@ >= 0 ==> ms * 1_000_000 <= timeout@) && (0
                <= timeout@ < usize::MAX * 1_000_000 ==> timeout@ < (ms + 1) * 1_000_000)
        },
{
}

/// An unpark is never lost: the thread goes on where it came before the thread parks, and where it
/// came between the two steps of parking, and is signaled where it waits. A thread that was not
/// unparked waits.
pub proof fn law_unpark_reaches_the_thread(
    p: &mut Parker,
    signal: bool,
    parking: &mut Parker,
    ms: usize,
    first: Park,
    entering: &mut Parker,
    waits: bool,
    q: &mut Parker,
    enters: bool,
    unparked: &mut Parker,
    signaled: bool,
    leaving: &mut Parker,
)
    requires
        old(p).wf(),
        call_ensures(Parker::unpark, (p,), signal),
        *old(parking) == *final(p),
        call_ensures(Parker::park_ms, (parking, ms), first),
        *old(entering) == *final(p),
        call_ensures(Parker::enter, (entering,), waits),
        old(q).wf(),
        call_ensures(Parker::enter, (q,), enters),
        *old(unparked) == *final(q),
        call_ensures(Parker::unpark, (unparked,), signaled),
        call_ensures(Parker::leave, (leaving,), ()),
    ensures
        final(p)@ is Unpark,
        signal <==> old(p)@ is Parked,
        first is Consumed,
        !waits,
        enters <==> !(old(q)@ is Unpark),
        final(q)@ is Parked,
        signaled,
        final(leaving)@ is Initial,
{
}

/// A new parker is neither parked nor signaled, so that a thread that parks with it blocks.
pub proof fn law_new_parker_blocks(p: Parker, q: &mut Parker, ms: usize, r: Park)
    requires
        call_ensures(Parker::new, (), p),
        *old(q) == p,
        call_ensures(Parker::park_ms, (q, ms), r),
    ensures
        p@ is Initial,
        r is Enter,
{
}

/// What the codes of the native operations tell: a lock is taken exactly if the code is that of
/// success, is somebody else's if it is the busy one, and is otherwise broken.
pub proof fn law_codes_are_told_apart(
    res: i32,
    other: i32,
    broken: bool,
    tried: TryLock,
    timed: bool,
)
    requires
        call_ensures(is_broken, (res,), broken),
        call_ensures(try_lock, (res, other), tried),
        call_ensures(is_timed_wait_broken, (res, other), timed),
    ensures
        broken <==> res < 0,
        tried is Locked <==> res == 0,
        tried is Busy <==> res == other && res != 0,
        tried is Broken <==> res != other && res != 0,
        timed <==> res != 0 && res != other,
{
}

/// A wait of `ms` milliseconds from `now` on ends at `r`: after its whole seconds, at most a million
/// of them, and a little more than one millisecond. There is no end where its seconds do not fit.
pub open spec fn wait_ends(now: (i64, i32), ms: usize, r: Option<(i64, i32)>) -> bool {
    let begin = now.0 * 1_000_000_000 + now.1;
    let seconds = if ms >= 1_000_001_000 {
        1_000_000int
    } else {
        ms as int / 1000
    };
    let finish = begin + seconds * 1_000_000_000 + (ms & 1000) + 1_000_000;
    &&& (ms & 1000) <= 1000
    &&& r is Some <==> finish < (0x7fff_ffff_ffff_ffff + 1) * 1_000_000_000
    &&& r matches Some(e) ==> 0 <= e.1 < 1_000_000_000 && e.0 * 1_000_000_000 + e.1 == finish
}

/// A wait ends after its seconds, and there is an end wherever these fit.
pub proof fn law_wait_ends_after_its_seconds(
    now: (i64, i32),
    ms: usize,
    r: Option<(i64, i32)>,
    end: (i64, i32),
)
    requires
        0 <= now.1 < 1_000_000_000,
        call_ensures(ms_to_abs_at, (now, ms), r),
        r is Some ==> call_ensures(ms_to_abs_from, (now, ms), end),
    ensures
        wait_ends(now, ms, r),
        r matches Some(e) ==> end == e,
{
    assert((ms & 1000) <= 1000) by (bit_vector);
}

/// A wait that begins now ends as one that begins at some reading of the wall clock.
pub proof fn law_wait_ends_by_the_clock(ms: usize, r: Option<(i64, i32)>)
    requires
        call_ensures(ms_to_abs, (ms,), r),
    ensures
        exists|now: (i64, i32)| 0 <= now.1 < 1_000_000_000 && #[trigger] wait_ends(now, ms, r),
{
    assert((ms & 1000) <= 1000) by (bit_vector);
    let now = choose|now: (i64, i32)|
        0 <= now.1 < 1_000_000_000 && #[trigger] ends_at(now, ms, r);
    assert(wait_ends(now, ms, r));
}

} // verus!
