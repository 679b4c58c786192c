//! The right to take back an interest that was registered.
use super::cell::{Core, CoreInner};
use super::stream::{BusySender, Head, Sender, Stream};
use super::value::Cancel;
use vstd::prelude::*;

verus! {

/// What was registered, by whom (`A`) and at which count.
pub struct Receipt<A> {
    core: Option<Core>,
    count: u64,
    kind: core::marker::PhantomData<A>,
}

impl<A> Receipt<A> {
    /// The handle and the count.
    pub closed spec fn view(&self) -> (Option<Core>, u64) {
        (self.core, self.count)
    }
}

/// The receipt of an interest that can be taken back.
pub fn new<A>(core: Core, count: u64) -> (r: Receipt<A>)
    ensures
        r@ == (Some(core), count),
{
    Receipt { core: Some(core), count, kind: core::marker::PhantomData }
}

/// The receipt of an interest that cannot be taken back.
pub fn none<A>() -> (r: Receipt<A>)
    ensures
        r@ == (None::<Core>, 0u64),
{
    Receipt { core: None, count: 0, kind: core::marker::PhantomData }
}

/// The handle and the count of a receipt.
pub fn parts<A>(receipt: Receipt<A>) -> (r: (Option<Core>, u64))
    ensures
        r == receipt@,
{
    (receipt.core, receipt.count)
}

impl<T, E> Receipt<Stream<T, E>> {
    /// Takes back the interest in the head of a stream, if its callback has not been
    /// started: the stream comes back with the callback. Otherwise the handle of the
    /// stream, where there is one, is to be released.
    pub fn cancel<C, D, K>(self, cell: &mut CoreInner<Head<T, E>, E, C, D, K>) -> (r: (
        Option<(Stream<T, E>, C)>,
        Option<Core>,
    ))
        requires
            self@.0 matches Some(core) ==> core@ == old(cell)@.id,
            old(cell).wf(),
        ensures
            final(cell).wf(),
            r.0 is Some <==> self@.0 is Some && self@.1 == old(cell).requests()
                && old(cell)@.retractable(),
            r.0 matches Some(v) ==> v.0.held() == Some(old(cell)@.id) && (final(cell)@, v.1) == old(cell)@.retracted(),
            r.0 is None ==> final(cell)@ == old(cell)@,
            r.1 is Some <==> self@.0 is Some && r.0 is None,
            r.1 matches Some(core) ==> core@ == old(cell)@.id,
    {
        let (core, count) = parts(self);
        match core {
            None => (None, None),
            Some(core) => {
                match cell.consumer_ready_cancel(count) {
                    Some(f) => (Some((Stream::from_core(core), f)), None),
                    None => (None, Some(core)),
                }
            },
        }
    }
}

/// The interest of a sender cannot be taken back.
impl<T, E> Cancel<Sender<T, E>> for Receipt<Sender<T, E>> {
    open spec fn regained(&self) -> Option<Sender<T, E>> {
        None
    }

    fn cancel(self) -> (r: Option<Sender<T, E>>) {
        None
    }
}

/// The interest of a busy sender cannot be taken back.
impl<T, E> Cancel<BusySender<T, E>> for Receipt<BusySender<T, E>> {
    open spec fn regained(&self) -> Option<BusySender<T, E>> {
        None
    }

    fn cancel(self) -> (r: Option<BusySender<T, E>>) {
        None
    }
}

} // verus!
