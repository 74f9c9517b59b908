//! The callback bridge: the slot that holds the pair of callbacks in force, and
//! the two entry points through which the native library reaches them.

use crate::error::SimonError;
use crate::sync::{arc_share, guard_mut, guard_ref, mutex_lock, mutex_new, mutex_try_lock};
use std::sync::Arc;
use std::sync::Mutex;
use vstd::prelude::*;

verus! {

/// What the native library calls when it has a pattern length to send.
///
/// The call comes from a thread of the native library's choosing, so an
/// implementor can be sent there and takes every count.
pub trait SendCallback: Send + 'static {
    fn send(&self, count: i32);
}

/// What the native library calls when it wants to know whether the pattern was
/// completed.
pub trait ReceiveCallback: Send + 'static {
    fn receive(&self) -> bool;
}

/// A closure as a [`SendCallback`].
pub struct FnSend<F: Fn(i32) + Send + 'static> {
    f: F,
}

impl<F: Fn(i32) + Send + 'static> FnSend<F> {
    #[verifier::type_invariant]
    spec fn takes_every_count(self) -> bool {
        forall|count: i32| call_requires(self.f, (count,))
    }

    /// The closure inside.
    pub closed spec fn closure(self) -> F {
        self.f
    }

    pub fn new(f: F) -> (callback: Self)
        requires
            forall|count: i32| call_requires(f, (count,)),
        ensures
            callback.closure() == f,
    {
        FnSend { f }
    }
}

impl<F: Fn(i32) + Send + 'static> SendCallback for FnSend<F> {
    fn send(&self, count: i32)
        ensures
            call_ensures(self.closure(), (count,), ()),
    {
        proof {
            use_type_invariant(self);
        }
        (self.f)(count)
    }
}

/// A closure as a [`ReceiveCallback`].
pub struct FnReceive<G: Fn() -> bool + Send + 'static> {
    g: G,
}

impl<G: Fn() -> bool + Send + 'static> FnReceive<G> {
    #[verifier::type_invariant]
    spec fn can_be_called(self) -> bool {
        call_requires(self.g, ())
    }

    /// The closure inside.
    pub closed spec fn closure(self) -> G {
        self.g
    }

    pub fn new(g: G) -> (callback: Self)
        requires
            call_requires(g, ()),
        ensures
            callback.closure() == g,
    {
        FnReceive { g }
    }
}

impl<G: Fn() -> bool + Send + 'static> ReceiveCallback for FnReceive<G> {
    fn receive(&self) -> (answer: bool)
        ensures
            call_ensures(self.closure(), (), answer),
    {
        proof {
            use_type_invariant(self);
        }
        (self.g)()
    }
}

/// The pair of callbacks in force: at most one of each kind.
pub struct CallbackSlot<S: SendCallback, R: ReceiveCallback> {
    send: Option<S>,
    receive: Option<R>,
}

impl<S: SendCallback, R: ReceiveCallback> CallbackSlot<S, R> {
    /// The send callback in force, if there is one.
    pub closed spec fn send_entry(self) -> Option<S> {
        self.send
    }

    /// The receive callback in force, if there is one.
    pub closed spec fn receive_entry(self) -> Option<R> {
        self.receive
    }

    /// The slot with no callback in it.
    pub closed spec fn empty() -> Self {
        CallbackSlot { send: None, receive: None }
    }

    /// The slot once `send` and `receive` are installed in it, whatever it held.
    pub closed spec fn with_pair(self, send: S, receive: R) -> Self {
        CallbackSlot { send: Some(send), receive: Some(receive) }
    }

    /// What the receive entry point answers where the callback, if one is in
    /// force, says `answer`.
    pub open spec fn receive_outcome(self, answer: bool) -> int {
        if self.receive_entry() is Some && answer {
            1
        } else {
            0
        }
    }

    pub fn new() -> (slot: Self)
        ensures
            slot == Self::empty(),
    {
        CallbackSlot { send: None, receive: None }
    }

    /// Puts a new pair in force. The pair that was in force is dropped.
    pub fn install(&mut self, send: S, receive: R)
        ensures
            *final(self) == old(self).with_pair(send, receive),
    {
        self.send = Some(send);
        self.receive = Some(receive);
    }

    /// Takes both callbacks out of force.
    pub fn clear(&mut self)
        ensures
            *final(self) == Self::empty(),
        opens_invariants none
        no_unwind
    {
        self.send = None;
        self.receive = None;
    }

    /// Settles the slot after the native library was asked to take the hook
    /// down: cleared where it reported success, kept where it did not, since
    /// the native side may then still call.
    pub fn settle(&mut self, status: Result<(), SimonError>)
        ensures
            status is Ok ==> *final(self) == Self::empty(),
            status is Err ==> *final(self) == *old(self),
        opens_invariants none
        no_unwind
    {
        match status {
            Ok(()) => {
                self.clear();
            },
            Err(_) => {},
        }
    }

    /// Hands `count` to the send callback in force; without one, does nothing.
    pub fn dispatch_send(&self, count: i32)
        ensures
            self.send_entry() matches Some(callback) ==> call_ensures(
                S::send,
                (&callback, count),
                (),
            ),
    {
        match &self.send {
            Some(callback) => {
                callback.send(count);
            },
            None => {},
        }
    }

    /// Asks the receive callback in force and answers `1` for yes and `0` for
    /// no; without one, answers `0`.
    pub fn dispatch_receive(&self) -> (r: i32)
        ensures
            exists|answer: bool|
                (self.receive_entry() matches Some(callback) ==> call_ensures(
                    R::receive,
                    (&callback,),
                    answer,
                )) && r == self.receive_outcome(answer),
    {
        match &self.receive {
            Some(callback) => {
                let answer = callback.receive();
                let r: i32 = if answer { 1 } else { 0 };
                assert(r == self.receive_outcome(answer));
                r
            },
            None => {
                assert(0 == self.receive_outcome(false));
                0
            },
        }
    }
}

/// The entries of the empty slot and of a slot with a pair installed.
pub proof fn slot_entries<S: SendCallback, R: ReceiveCallback>(
    slot: CallbackSlot<S, R>,
    send: S,
    receive: R,
)
    ensures
        CallbackSlot::<S, R>::empty().send_entry() is None,
        CallbackSlot::<S, R>::empty().receive_entry() is None,
        slot.with_pair(send, receive).send_entry() == Some(send),
        slot.with_pair(send, receive).receive_entry() == Some(receive),
{
}

/// Installing twice leaves exactly the second pair in force: the slot is the
/// one that installing the second pair alone gives, from any slot at all, so
/// nothing of the first pair is left for an entry point to call.
pub proof fn second_pair_replaces_first<S: SendCallback, R: ReceiveCallback>(
    slot: CallbackSlot<S, R>,
    other: CallbackSlot<S, R>,
    first_send: S,
    first_receive: R,
    second_send: S,
    second_receive: R,
)
    ensures
        slot.with_pair(first_send, first_receive).with_pair(second_send, second_receive)
            == other.with_pair(second_send, second_receive),
        slot.with_pair(first_send, first_receive).with_pair(
            second_send,
            second_receive,
        ).send_entry() == Some(second_send),
        slot.with_pair(first_send, first_receive).with_pair(
            second_send,
            second_receive,
        ).receive_entry() == Some(second_receive),
{
}

/// Without a receive callback the answer is `0`, whatever a callback would say.
pub proof fn empty_slot_answers_zero<S: SendCallback, R: ReceiveCallback>(answer: bool)
    ensures
        CallbackSlot::<S, R>::empty().receive_outcome(answer) == 0,
{
}

/// The slot behind its lock, shared by the middleware that fills it and the
/// entry points that read it.
#[verifier::reject_recursive_types(S)]
#[verifier::reject_recursive_types(R)]
pub struct CallbackBridge<S: SendCallback, R: ReceiveCallback> {
    slot: Arc<Mutex<CallbackSlot<S, R>>>,
}

impl<S: SendCallback, R: ReceiveCallback> CallbackBridge<S, R> {
    /// A bridge whose slot is empty.
    pub fn new() -> (bridge: Self) {
        CallbackBridge { slot: Arc::new(mutex_new(CallbackSlot::new())) }
    }

    /// One more reference to the same slot.
    pub fn share(&self) -> (bridge: Self)
        ensures
            bridge == *self,
    {
        CallbackBridge { slot: arc_share(&self.slot) }
    }

    /// Installs a new pair under the lock. Fails with `Unknown`, and installs
    /// nothing, where the lock cannot be taken.
    pub fn install(&self, send: S, receive: R) -> (r: Result<(), SimonError>)
        ensures
            r == Ok::<(), SimonError>(()) || r == Err::<(), SimonError>(SimonError::Unknown),
    {
        match mutex_lock(&self.slot) {
            Some(mut guard) => {
                let slot = guard_mut(&mut guard);
                slot.install(send, receive);
                Ok(())
            },
            None => Err(SimonError::Unknown),
        }
    }

    /// Clears the slot under the lock. Fails with `Unknown`, and clears
    /// nothing, where the lock cannot be taken.
    pub fn clear(&self) -> (r: Result<(), SimonError>)
        ensures
            r == Ok::<(), SimonError>(()) || r == Err::<(), SimonError>(SimonError::Unknown),
    {
        match mutex_lock(&self.slot) {
            Some(mut guard) => {
                let slot = guard_mut(&mut guard);
                slot.clear();
                Ok(())
            },
            None => Err(SimonError::Unknown),
        }
    }

    /// Settles the slot under the lock by the status of a native cleanup. A
    /// failed cleanup keeps its error. A cleanup that succeeded fails with
    /// `Unknown` where the lock cannot be taken.
    pub fn settle(&self, status: Result<(), SimonError>) -> (r: Result<(), SimonError>)
        ensures
            status is Err ==> r == status,
            status is Ok ==> r == Ok::<(), SimonError>(()) || r == Err::<(), SimonError>(
                SimonError::Unknown,
            ),
    {
        match mutex_lock(&self.slot) {
            Some(mut guard) => {
                let slot = guard_mut(&mut guard);
                slot.settle(status);
                match status {
                    Ok(()) => Ok(()),
                    Err(error) => Err(error),
                }
            },
            None => match status {
                Ok(()) => Err(SimonError::Unknown),
                Err(error) => Err(error),
            },
        }
    }

    /// Settles the slot as `settle` does, but without waiting: where the lock
    /// is held elsewhere, the slot is left as it is and a cleanup that
    /// succeeded counts as `Unknown`. This is for a resource that is let go of,
    /// which must neither wait nor fail.
    pub fn settle_if_free(&self, status: Result<(), SimonError>) -> (r: Result<(), SimonError>)
        ensures
            status is Err ==> r == status,
            status is Ok ==> r == Ok::<(), SimonError>(()) || r == Err::<(), SimonError>(
                SimonError::Unknown,
            ),
        opens_invariants none
        no_unwind
    {
        match mutex_try_lock(&self.slot) {
            Some(mut guard) => {
                let slot = guard_mut(&mut guard);
                slot.settle(status);
                match status {
                    Ok(()) => Ok(()),
                    Err(error) => Err(error),
                }
            },
            None => match status {
                Ok(()) => Err(SimonError::Unknown),
                Err(error) => Err(error),
            },
        }
    }

    /// The entry point for a pattern length: takes the lock and hands `count`
    /// to the send callback in force. Where the lock cannot be taken, or no
    /// callback is in force, nothing happens.
    pub fn send_trampoline(&self, count: i32) {
        match mutex_lock(&self.slot) {
            Some(guard) => {
                guard_ref(&guard).dispatch_send(count);
            },
            None => {},
        }
    }

    /// The entry point for the question: takes the lock and asks the receive
    /// callback in force. Where the lock cannot be taken, or no callback is in
    /// force, the answer is `0`; it is `1` only where a receive callback was
    /// asked and said yes.
    pub fn receive_trampoline(&self) -> (r: i32)
        ensures
            r == 0 || r == 1,
            r == 1 ==> exists|callback: R| call_ensures(R::receive, (&callback,), true),
    {
        match mutex_lock(&self.slot) {
            Some(guard) => {
                let slot = guard_ref(&guard);
                let r = slot.dispatch_receive();
                proof {
                    if r == 1 {
                        let callback = slot.receive_entry().unwrap();
                        assert(call_ensures(R::receive, (&callback,), true));
                    }
                }
                r
            },
            None => 0,
        }
    }
}

} // verus!
