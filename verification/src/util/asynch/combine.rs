//! Computations on streams, one head at a time.
//!
//! Each function says what a computation does with the head that came. The rest
//! of the stream, where there is one, is for the next turn.
use super::error::{AsyncError, AsyncResult};
use super::stream::{Head, Stream};
use vstd::prelude::*;

verus! {

/// How a computation on a stream goes on.
pub enum Turn<T, E, U> {
    /// With the rest of the stream.
    More(U, Stream<T, E>),
    /// It is complete.
    Done(AsyncResult<U, E>),
}

/// How the stream of the first values of another one goes on.
pub enum Taken<T, E> {
    /// With a value, and then with that many values of the rest.
    Value(T, Stream<T, E>, u64),
    /// It has ended.
    End,
    /// It has failed.
    Fail(AsyncError<E>),
}

impl<T, E> Stream<T, E> {
    /// One turn of mapping a stream: the head with its value mapped. The rest is to be
    /// mapped in turn.
    pub fn map<U, F: Fn(T) -> U>(res: AsyncResult<Head<T, E>, E>, f: &F) -> (r: AsyncResult<
        Option<(U, Stream<T, E>)>,
        E,
    >)
        requires
            res matches Ok(Some(h)) ==> call_requires(*f, (h.0,)),
        ensures
            res matches Ok(Some(h)) ==> (r matches Ok(Some(m)) && m.1 == h.1 && call_ensures(
                *f,
                (h.0,),
                m.0,
            )),
            res matches Ok(None) ==> r == Ok::<Option<(U, Stream<T, E>)>, AsyncError<E>>(None),
            res matches Err(e) ==> r == Err::<Option<(U, Stream<T, E>)>, AsyncError<E>>(e),
    {
        match res {
            Ok(Some((v, rest))) => Ok(Some((f(v), rest))),
            Ok(None) => Ok(None),
            Err(e) => Err(e),
        }
    }

    /// One turn of reducing a stream to a single value, with `init` so far.
    pub fn reduce<U, F: Fn(U, T) -> U>(res: AsyncResult<Head<T, E>, E>, init: U, f: &F) -> (r:
        Turn<T, E, U>)
        requires
            res matches Ok(Some(h)) ==> call_requires(*f, (init, h.0)),
        ensures
            res matches Ok(Some(h)) ==> (r matches Turn::More(u, rest) && rest == h.1 && call_ensures(
                *f,
                (init, h.0),
                u,
            )),
            res matches Ok(None) ==> r == Turn::<T, E, U>::Done(Ok(init)),
            res matches Err(e) ==> r == Turn::<T, E, U>::Done(Err(e)),
    {
        match res {
            Ok(Some((v, rest))) => Turn::More(f(init, v), rest),
            Ok(None) => Turn::Done(Ok(init)),
            Err(AsyncError::ExecutionError(e)) => Turn::Done(Err(AsyncError::wrap(e))),
            Err(AsyncError::CancellationError) => Turn::Done(Err(AsyncError::canceled())),
        }
    }

    /// One turn of collecting the items of a stream, sorted by order of arrival, with
    /// `buffer` so far.
    pub fn collect(res: AsyncResult<Head<T, E>, E>, buffer: Vec<T>) -> (r: Turn<T, E, Vec<T>>)
        ensures
            res matches Ok(Some(h)) ==> (r matches Turn::More(vec, rest) && rest == h.1 && vec@
                == buffer@.push(h.0)),
            res matches Ok(None) ==> r == Turn::<T, E, Vec<T>>::Done(Ok(buffer)),
            res matches Err(e) ==> r == Turn::<T, E, Vec<T>>::Done(Err(e)),
    {
        let push = |vec: Vec<T>, item: T| -> (r: Vec<T>)
            ensures
                r@ == vec@.push(item),
            {
                let mut vec = vec;
                vec.push(item);
                vec
            };
        Stream::reduce(res, buffer, &push)
    }

    /// One turn of calling `f` with every value of a stream.
    pub fn each<F: Fn(T)>(res: AsyncResult<Head<T, E>, E>, f: &F) -> (r: Turn<T, E, ()>)
        requires
            res matches Ok(Some(h)) ==> call_requires(*f, (h.0,)),
        ensures
            res matches Ok(Some(h)) ==> r == Turn::<T, E, ()>::More((), h.1) && call_ensures(
                *f,
                (h.0,),
                (),
            ),
            res matches Ok(None) ==> r == Turn::<T, E, ()>::Done(Ok(())),
            res matches Err(e) ==> r == Turn::<T, E, ()>::Done(Err(e)),
    {
        match res {
            Ok(Some((v, rest))) => {
                f(v);
                Turn::More((), rest)
            },
            Ok(None) => Turn::Done(Ok(())),
            Err(e) => Turn::Done(Err(e)),
        }
    }

    /// Whether the stream of the first `n` values of another one ends without a look
    /// at it.
    pub fn takes_none(n: u64) -> (r: bool)
        ensures
            r == (n == 0),
    {
        n == 0
    }

    /// One turn of taking the first `n` values of a stream.
    pub fn take(res: AsyncResult<Head<T, E>, E>, n: u64) -> (r: Taken<T, E>)
        requires
            n > 0,
        ensures
            res matches Ok(Some(h)) ==> r == Taken::<T, E>::Value(h.0, h.1, (n - 1) as u64),
            res matches Ok(None) ==> r is End,
            res matches Err(e) ==> r == Taken::<T, E>::Fail(e),
    {
        match res {
            Ok(Some((v, rest))) => Taken::Value(v, rest, n - 1),
            Ok(None) => Taken::End,
            Err(e) => Taken::Fail(e),
        }
    }

    /// One turn of taking the values of a stream until a condition holds: `first` is
    /// the place of whichever of the two was ready first, the condition at 0 and the
    /// stream at 1. The stream also ends where the other one ends or fails.
    pub fn take_until(first: usize, res: AsyncResult<Head<T, E>, E>) -> (r: Head<T, E>)
        ensures
            first == 0 ==> r is None,
            first != 0 ==> (match res {
                Ok(head) => r == head,
                Err(_) => r is None,
            }),
    {
        if first == 0 {
            None
        } else {
            match res {
                Ok(Some((v, rest))) => Some((v, rest)),
                _ => None,
            }
        }
    }
}

/// Which of the two came first where values are taken until a condition holds, and the sender
/// of the next value while neither has come.
pub ghost struct UntilView<S> {
    /// The condition holds.
    pub over: bool,
    /// Who sends the value that is waited for, or ends the stream.
    pub waiting: Option<S>,
}

impl<S> UntilView<S> {
    /// What it is for the condition to hold: whoever waits is to end the stream.
    pub open spec fn ended(self) -> (UntilView<S>, Option<S>) {
        (UntilView { over: true, waiting: None }, self.waiting)
    }

    /// What it is to wait for the next value: where the condition holds the sender comes back,
    /// to end the stream.
    pub open spec fn waited(self, sender: S) -> (UntilView<S>, Result<(), S>) {
        if self.over {
            (self, Err(sender))
        } else {
            (UntilView { waiting: Some(sender), ..self }, Ok(()))
        }
    }

    /// What it is for the next value to come: whoever waits is to send it.
    pub open spec fn resumed(self) -> (UntilView<S>, Option<S>) {
        (UntilView { waiting: None, ..self }, self.waiting)
    }
}

/// The state of taking the values of a stream until a condition holds.
#[derive(Debug)]
pub struct Until<S> {
    over: bool,
    waiting: Option<S>,
}

impl<S> Until<S> {
    /// What the state is.
    pub closed spec fn view(&self) -> UntilView<S> {
        UntilView { over: self.over, waiting: self.waiting }
    }

    /// Neither the condition nor a value has come.
    pub fn new() -> (r: Until<S>)
        ensures
            r@ == (UntilView::<S> { over: false, waiting: None }),
    {
        Until { over: false, waiting: None }
    }

    /// Notes that the condition holds. A sender that waits is to end the stream.
    pub fn end(&mut self) -> (r: Option<S>)
        ensures
            (final(self)@, r) == old(self)@.ended(),
    {
        self.over = true;
        self.waiting.take()
    }

    /// Waits for the next value with its sender. It comes back where the condition holds, and
    /// is to end the stream.
    pub fn wait_with(&mut self, sender: S) -> (r: Result<(), S>)
        ensures
            (final(self)@, r) == old(self)@.waited(sender),
    {
        if self.over {
            return Err(sender);
        }
        self.waiting = Some(sender);
        Ok(())
    }

    /// Goes on with the next head of the stream: returns what is to be sent with the sender that
    /// waited for it, unless the condition came first.
    pub fn resume<T, E>(&mut self, res: AsyncResult<Head<T, E>, E>) -> (r: Option<
        (S, Head<T, E>),
    >)
        ensures
            final(self)@ == old(self)@.resumed().0,
            r is Some <==> old(self)@.waiting is Some,
            r matches Some(next) ==> Some(next.0) == old(self)@.resumed().1 && next.1 == (match res {
                Ok(head) => head,
                Err(_) => None,
            }),
    {
        match self.waiting.take() {
            Some(sender) => Some((sender, Stream::take_until(1, res))),
            None => None,
        }
    }
}

/// Either the condition or the next value gets the sender that waits, whichever comes first, and
/// the other one finds none. Once the condition holds nobody waits any more.
pub proof fn law_first_of_two_decides<S>(v: UntilView<S>, sender: S, next: S)
    requires
        !v.over,
    ensures
        ({
            let waiting = v.waited(sender);
            let ended = waiting.0.ended();
            let resumed = waiting.0.resumed();
            &&& waiting.1 is Ok
            &&& ended.1 == Some(sender)
            &&& ended.0.resumed().1 is None
            &&& ended.0.waited(next) == (ended.0, Err::<(), S>(next))
            &&& resumed.1 == Some(sender)
            &&& resumed.0.waited(next).1 is Ok
            &&& resumed.0.ended().1 is None
            &&& resumed.0.ended().0.waited(next).1 == Err::<(), S>(next)
        }),
{
}

/// What collecting comes to, with `buffer` so far and `items` still to come.
pub open spec fn collected<T>(buffer: Seq<T>, items: Seq<T>) -> Seq<T>
    decreases items.len(),
{
    if items.len() == 0 {
        buffer
    } else {
        collected(buffer.push(items[0]), items.drop_first())
    }
}

/// Collecting keeps every item in the order of arrival.
pub proof fn law_collect_keeps_order<T>(buffer: Seq<T>, items: Seq<T>)
    ensures
        collected(buffer, items) == buffer + items,
    decreases items.len(),
{
    if items.len() == 0 {
        assert(buffer + items =~= buffer);
    } else {
        law_collect_keeps_order(buffer.push(items[0]), items.drop_first());
        assert(buffer.push(items[0]) + items.drop_first() =~= buffer + items);
    }
}

/// What taking the first `n` of `items` comes to.
pub open spec fn firsts<T>(items: Seq<T>, n: nat) -> Seq<T>
    decreases items.len(),
{
    if n == 0 || items.len() == 0 {
        Seq::empty()
    } else {
        seq![items[0]] + firsts(items.drop_first(), (n - 1) as nat)
    }
}

/// Taking the first `n` items gives just those, or all if there are fewer.
pub proof fn law_take_gives_the_first<T>(items: Seq<T>, n: nat)
    ensures
        n <= items.len() ==> firsts(items, n) == items.take(n as int),
        n >= items.len() ==> firsts(items, n) == items,
    decreases items.len(),
{
    if n == 0 || items.len() == 0 {
        assert(firsts(items, n) =~= items.take(0));
        assert(items.len() == 0 ==> firsts(items, n) =~= items);
    } else {
        law_take_gives_the_first(items.drop_first(), (n - 1) as nat);
        assert(firsts(items, n) == seq![items[0]] + firsts(items.drop_first(), (n - 1) as nat));
        assert(seq![items[0]] + items.drop_first() =~= items);
        if n <= items.len() {
            assert(seq![items[0]] + items.drop_first().take(n - 1) =~= items.take(n as int));
        }
    }
}

/// What reducing comes to, with `acc` so far and `items` still to come.
pub open spec fn reduced<U, T>(acc: U, items: Seq<T>, f: spec_fn(U, T) -> U) -> U
    decreases items.len(),
{
    if items.len() == 0 {
        acc
    } else {
        reduced(f(acc, items[0]), items.drop_first(), f)
    }
}

/// Reducing is folding from the left: the part of a stream that has been reduced
/// can be replaced by its value.
pub proof fn law_reduce_folds<U, T>(acc: U, first: Seq<T>, rest: Seq<T>, f: spec_fn(U, T) -> U)
    ensures
        reduced(acc, first + rest, f) == reduced(reduced(acc, first, f), rest, f),
    decreases first.len(),
{
    if first.len() == 0 {
        assert(first + rest =~= rest);
    } else {
        law_reduce_folds(f(acc, first[0]), first.drop_first(), rest, f);
        assert((first + rest).drop_first() =~= first.drop_first() + rest);
    }
}

/// The buffer of a chain of turns of `collect` after `n` of them.
proof fn lemma_collect<T, E>(
    items: Seq<T>,
    rests: Seq<Stream<T, E>>,
    buffers: Seq<Vec<T>>,
    turns: Seq<Turn<T, E, Vec<T>>>,
    n: int,
)
    requires
        buffers.len() > items.len(),
        forall|i: int|
            0 <= i < items.len() ==> call_ensures(
                Stream::<T, E>::collect,
                (Ok(Some((items[i], rests[i]))), buffers[i]),
                #[trigger] turns[i],
            ) && turns[i] == Turn::<T, E, Vec<T>>::More(buffers[i + 1], rests[i]),
        0 <= n <= items.len(),
    ensures
        buffers[n]@ == buffers[0]@ + items.take(n),
    decreases n,
{
    if n == 0 {
        assert(buffers[0]@ + items.take(0) =~= buffers[0]@);
    } else {
        lemma_collect(items, rests, buffers, turns, n - 1);
        assert(turns[n - 1] == Turn::<T, E, Vec<T>>::More(buffers[n], rests[n - 1]));
        assert(items.take(n) =~= items.take(n - 1).push(items[n - 1]));
        assert(buffers[n]@ =~= buffers[n - 1]@.push(items[n - 1]));
    }
}

/// A chain of turns of `collect` over the items of a stream comes to `collected`: each
/// turn but the last gets the next item and hands its buffer on, and the last one gets
/// the end of the stream, or the error that ended it.
pub proof fn law_collecting_a_stream<T, E>(
    items: Seq<T>,
    rests: Seq<Stream<T, E>>,
    buffers: Seq<Vec<T>>,
    turns: Seq<Turn<T, E, Vec<T>>>,
    end: AsyncResult<Head<T, E>, E>,
    last: Turn<T, E, Vec<T>>,
)
    requires
        buffers.len() == items.len() + 1,
        forall|i: int|
            0 <= i < items.len() ==> call_ensures(
                Stream::<T, E>::collect,
                (Ok(Some((items[i], rests[i]))), buffers[i]),
                #[trigger] turns[i],
            ) && turns[i] == Turn::<T, E, Vec<T>>::More(buffers[i + 1], rests[i]),
        call_ensures(Stream::<T, E>::collect, (end, buffers.last()), last),
        end matches Ok(head) ==> head is None,
    ensures
        end is Ok ==> last is Done && last->Done_0 is Ok && last->Done_0->Ok_0@ == collected(
            buffers[0]@,
            items,
        ),
        end matches Err(e) ==> last == Turn::<T, E, Vec<T>>::Done(Err(e)),
{
    lemma_collect(items, rests, buffers, turns, items.len() as int);
    assert(items.take(items.len() as int) =~= items);
    law_collect_keeps_order(buffers[0]@, items);
}

/// The value of a chain of turns of `reduce` from the turn `n` on.
proof fn lemma_reduce<T, E, U, F: Fn(U, T) -> U>(
    f: F,
    g: spec_fn(U, T) -> U,
    items: Seq<T>,
    rests: Seq<Stream<T, E>>,
    accs: Seq<U>,
    turns: Seq<Turn<T, E, U>>,
    n: int,
)
    requires
        accs.len() == items.len() + 1,
        forall|acc: U, item: T, r: U| #[trigger]
            call_ensures(f, (acc, item), r) ==> r == g(acc, item),
        forall|i: int|
            0 <= i < items.len() ==> call_ensures(
                Stream::<T, E>::reduce::<U, F>,
                (Ok(Some((items[i], rests[i]))), accs[i], &f),
                #[trigger] turns[i],
            ) && turns[i] == Turn::<T, E, U>::More(accs[i + 1], rests[i]),
        0 <= n <= items.len(),
    ensures
        reduced(accs[n], items.skip(n), g) == accs.last(),
    decreases items.len() - n,
{
    if n < items.len() {
        lemma_reduce(f, g, items, rests, accs, turns, n + 1);
        assert(turns[n] == Turn::<T, E, U>::More(accs[n + 1], rests[n]));
        assert(call_ensures(f, (accs[n], items[n]), accs[n + 1]));
        assert(items.skip(n)[0] == items[n]);
        assert(items.skip(n).drop_first() =~= items.skip(n + 1));
    }
}

/// A chain of turns of `reduce` over the items of a stream comes to `reduced`, for a
/// function `f` that computes `g`.
pub proof fn law_reducing_a_stream<T, E, U, F: Fn(U, T) -> U>(
    f: F,
    g: spec_fn(U, T) -> U,
    items: Seq<T>,
    rests: Seq<Stream<T, E>>,
    accs: Seq<U>,
    turns: Seq<Turn<T, E, U>>,
    end: AsyncResult<Head<T, E>, E>,
    last: Turn<T, E, U>,
)
    requires
        accs.len() == items.len() + 1,
        forall|acc: U, item: T, r: U| #[trigger]
            call_ensures(f, (acc, item), r) ==> r == g(acc, item),
        forall|i: int|
            0 <= i < items.len() ==> call_ensures(
                Stream::<T, E>::reduce::<U, F>,
                (Ok(Some((items[i], rests[i]))), accs[i], &f),
                #[trigger] turns[i],
            ) && turns[i] == Turn::<T, E, U>::More(accs[i + 1], rests[i]),
        call_ensures(Stream::<T, E>::reduce::<U, F>, (end, accs.last(), &f), last),
        end matches Ok(head) ==> head is None,
    ensures
        end is Ok ==> last == Turn::<T, E, U>::Done(Ok(reduced(accs[0], items, g))),
        end matches Err(e) ==> last == Turn::<T, E, U>::Done(Err(e)),
{
    lemma_reduce(f, g, items, rests, accs, turns, 0);
    assert(items.skip(0) =~= items);
}

/// A chain of turns of `map` over the items of a stream gives what `f` makes of each item,
/// in order and each with the rest of the stream behind it, and ends as the stream ends or
/// with the error that ended it. Where `f` computes `g`, the items come out mapped by `g`.
pub proof fn law_mapping_a_stream<T, E, U, F: Fn(T) -> U>(
    f: F,
    g: spec_fn(T) -> U,
    items: Seq<T>,
    rests: Seq<Stream<T, E>>,
    turns: Seq<AsyncResult<Option<(U, Stream<T, E>)>, E>>,
    end: AsyncResult<Head<T, E>, E>,
    last: AsyncResult<Option<(U, Stream<T, E>)>, E>,
)
    requires
        turns.len() == items.len(),
        forall|i: int|
            0 <= i < items.len() ==> call_ensures(
                Stream::<T, E>::map::<U, F>,
                (Ok(Some((items[i], rests[i]))), &f),
                #[trigger] turns[i],
            ),
        call_ensures(Stream::<T, E>::map::<U, F>, (end, &f), last),
        end matches Ok(head) ==> head is None,
    ensures
        forall|i: int|
            0 <= i < items.len() ==> (#[trigger] turns[i] matches Ok(Some(m)) && m.1 == rests[i]
                && call_ensures(f, (items[i],), m.0)),
        end is Ok ==> last == Ok::<Option<(U, Stream<T, E>)>, AsyncError<E>>(None),
        end matches Err(e) ==> last == Err::<Option<(U, Stream<T, E>)>, AsyncError<E>>(e),
        (forall|item: T, r: U| #[trigger] call_ensures(f, (item,), r) ==> r == g(item))
            ==> Seq::new(turns.len(), |i: int| turns[i]->Ok_0->Some_0.0) == items.map_values(g),
{
    assert forall|i: int| 0 <= i < items.len() implies (#[trigger] turns[i] matches Ok(Some(m))
        && m.1 == rests[i] && call_ensures(f, (items[i],), m.0)) by {}
    if forall|item: T, r: U| #[trigger] call_ensures(f, (item,), r) ==> r == g(item) {
        let out = Seq::new(turns.len(), |i: int| turns[i]->Ok_0->Some_0.0);
        assert forall|i: int| 0 <= i < items.len() implies out[i] == g(items[i]) by {
            assert(turns[i] matches Ok(Some(m)) && call_ensures(f, (items[i],), m.0));
        }
        assert(out =~= items.map_values(g));
    }
}

/// A chain of turns of `each` over the items of a stream calls `f` with each of them, in
/// order, and comes to nothing at the end of the stream, or to the error that ended it.
pub proof fn law_visiting_a_stream<T, E, F: Fn(T)>(
    f: F,
    items: Seq<T>,
    rests: Seq<Stream<T, E>>,
    turns: Seq<Turn<T, E, ()>>,
    end: AsyncResult<Head<T, E>, E>,
    last: Turn<T, E, ()>,
)
    requires
        turns.len() == items.len(),
        forall|i: int|
            0 <= i < items.len() ==> call_ensures(
                Stream::<T, E>::each::<F>,
                (Ok(Some((items[i], rests[i]))), &f),
                #[trigger] turns[i],
            ),
        call_ensures(Stream::<T, E>::each::<F>, (end, &f), last),
        end matches Ok(head) ==> head is None,
    ensures
        forall|i: int|
            0 <= i < items.len() ==> #[trigger] turns[i] == Turn::<T, E, ()>::More((), rests[i])
                && call_ensures(f, (items[i],), ()),
        end is Ok ==> last == Turn::<T, E, ()>::Done(Ok(())),
        end matches Err(e) ==> last == Turn::<T, E, ()>::Done(Err(e)),
{
}

/// The number that is left in a chain of turns of `take` after `n` of them.
proof fn lemma_take<T, E>(
    items: Seq<T>,
    rests: Seq<Stream<T, E>>,
    left: Seq<u64>,
    turns: Seq<Taken<T, E>>,
    n: int,
)
    requires
        0 <= n < left.len(),
        forall|i: int|
            0 <= i < turns.len() ==> left[i] > 0 && call_ensures(
                Stream::<T, E>::take,
                (Ok(Some((items[i], rests[i]))), left[i]),
                #[trigger] turns[i],
            ) && turns[i] is Value && left[i + 1] == turns[i]->Value_2,
        left.len() == turns.len() + 1,
    ensures
        left[n] == left[0] - n,
    decreases n,
{
    if n > 0 {
        lemma_take(items, rests, left, turns, n - 1);
        assert(turns[n - 1] is Value);
    }
}

/// A chain of turns of `take` over the items of a stream gives its first items: it stops
/// when nothing is left to take, or at the end of the stream.
pub proof fn law_taking_from_a_stream<T, E>(
    items: Seq<T>,
    rests: Seq<Stream<T, E>>,
    left: Seq<u64>,
    turns: Seq<Taken<T, E>>,
)
    requires
        turns.len() <= items.len(),
        left.len() == turns.len() + 1,
        forall|i: int|
            0 <= i < turns.len() ==> left[i] > 0 && call_ensures(
                Stream::<T, E>::take,
                (Ok(Some((items[i], rests[i]))), left[i]),
                #[trigger] turns[i],
            ) && turns[i] is Value && left[i + 1] == turns[i]->Value_2,
        left.last() == 0 || turns.len() == items.len(),
    ensures
        Seq::new(turns.len(), |i: int| turns[i]->Value_0) == firsts(items, left[0] as nat),
{
    lemma_take(items, rests, left, turns, turns.len() as int);
    law_take_gives_the_first(items, left[0] as nat);
    let out = Seq::new(turns.len(), |i: int| turns[i]->Value_0);
    assert forall|i: int| 0 <= i < turns.len() implies out[i] == items[i] by {
        assert(turns[i] is Value);
    }
    if left.last() == 0 {
        assert(out =~= items.take(left[0] as int));
    } else {
        assert(out =~= items);
    }
}

/// Whoever comes first of the condition and the next value gets the sender that waits. One that would
/// wait once the condition holds comes back, and a value goes with its sender: with its rest, or as the
/// end where the stream has ended or failed.
pub proof fn law_turns_of_until<S, T, E>(
    made: Until<S>,
    ending: &mut Until<S>,
    ended: Option<S>,
    waiting: &mut Until<S>,
    sender: S,
    waits: Result<(), S>,
    resuming: &mut Until<S>,
    res: AsyncResult<Head<T, E>, E>,
    resumed: Option<(S, Head<T, E>)>,
)
    requires
        call_ensures(Until::<S>::new, (), made),
        call_ensures(Until::<S>::end, (ending,), ended),
        call_ensures(Until::<S>::wait_with, (waiting, sender), waits),
        call_ensures(Until::<S>::resume::<T, E>, (resuming, res), resumed),
    ensures
        !made@.over && made@.waiting is None,
        final(ending)@.over && final(ending)@.waiting is None && ended == old(ending)@.waiting,
        final(waiting)@.over == old(waiting)@.over,
        waits is Err <==> old(waiting)@.over,
        waits matches Err(back) ==> back == sender && final(waiting)@ == old(waiting)@,
        waits is Ok ==> final(waiting)@.waiting == Some(sender),
        final(resuming)@.over == old(resuming)@.over && final(resuming)@.waiting is None,
        resumed is Some <==> old(resuming)@.waiting is Some,
        resumed matches Some(next) ==> Some(next.0) == old(resuming)@.waiting && (res matches Ok(
            head,
        ) ==> next.1 == head) && (res is Err ==> next.1 is None),
{
}

/// Values are taken until the condition holds: where it came first the stream ends, else its head goes
/// on as it is, and an error ends it. Nothing is asked of a stream of which no value is wanted.
pub proof fn law_values_are_taken_until_the_condition_holds<T, E>(
    first: usize,
    res: AsyncResult<Head<T, E>, E>,
    r: Head<T, E>,
    n: u64,
    none: bool,
)
    requires
        call_ensures(Stream::<T, E>::take_until, (first, res), r),
        call_ensures(Stream::<T, E>::takes_none, (n,), none),
    ensures
        first == 0 ==> r is None,
        first > 0 ==> (res matches Ok(head) ==> r == head) && (res is Err ==> r is None),
        none <==> n == 0,
{
}

/// Every item of a stream counts: a turn that gets one goes on with the rest behind it, with what the
/// function makes of the value so far and the item, or with the item behind those that are there, or
/// with one item less to take. A turn that gets the end or an error is the last one.
pub proof fn law_every_item_has_its_turn<T, E, U, F: Fn(U, T) -> U>(
    res: AsyncResult<Head<T, E>, E>,
    init: U,
    f: F,
    reduced: Turn<T, E, U>,
    buffer: Vec<T>,
    collected: Turn<T, E, Vec<T>>,
    n: u64,
    taken: Taken<T, E>,
)
    requires
        n > 0,
        call_ensures(Stream::<T, E>::reduce::<U, F>, (res, init, &f), reduced),
        call_ensures(Stream::<T, E>::collect, (res, buffer), collected),
        call_ensures(Stream::<T, E>::take, (res, n), taken),
    ensures
        match res {
            Ok(Some((item, rest))) => {
                &&& reduced matches Turn::More(u, behind) && behind == rest && call_ensures(
                    f,
                    (init, item),
                    u,
                )
                &&& collected matches Turn::More(items, behind) && behind == rest && items@
                    =~= buffer@ + seq![item]
                &&& taken matches Taken::Value(first, behind, left) && first == item && behind
                    == rest && left + 1 == n
            },
            Ok(None) => {
                &&& reduced matches Turn::Done(Ok(u)) && u == init
                &&& collected matches Turn::Done(Ok(items)) && items@ == buffer@
                &&& taken is End
            },
            Err(error) => {
                &&& reduced matches Turn::Done(Err(e)) && e == error
                &&& collected matches Turn::Done(Err(e)) && e == error
                &&& taken matches Taken::Fail(e) && e == error
            },
        },
{
}

/// Reducing is folding from the left.
pub proof fn law_reduced_is_folded<U, T>(acc: U, items: Seq<T>, f: spec_fn(U, T) -> U)
    ensures
        reduced(acc, items, f) == items.fold_left(acc, f),
    decreases items.len(),
{
    if items.len() > 0 {
        law_reduced_is_folded(f(acc, items[0]), items.drop_first(), f);
        items.lemma_fold_left_alt(acc, f);
        items.drop_first().lemma_fold_left_alt(f(acc, items[0]), f);
        assert(items.subrange(1, items.len() as int) =~= items.drop_first());
    }
}

} // verus!
