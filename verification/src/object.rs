//! The kernel-object base state: a signal value plus registered callbacks,
//! the signal-transition delivery rules, and the decision logic of the
//! blocking and asynchronous wait paths.

use vstd::prelude::*;

use crate::koid::{KoID, KoidAllocator};
use crate::signal::Signal;

verus! {

/// The wake handle stored in a registered callback. Declared so that
/// verified code can hold one and request a wake through it; nothing is
/// assumed about its behaviour.
#[verifier::external_type_specification]
#[verifier::external_body]
pub struct ExWaker(core::task::Waker);

/// Relies on core::task::Waker::wake_by_ref: requests that the thread or
/// task behind the handle be made runnable again. It only issues that
/// request, so nothing is promised about program state.
pub assume_specification[ core::task::Waker::wake_by_ref ](w: &core::task::Waker);

/// A unit of registered interest in signal transitions: when a transition
/// produces a signal with any bit of `mask` set, the handler wakes the
/// thread or task behind `waker` and reports itself as done.
pub struct SignalHandler {
    mask: Signal,
    waker: core::task::Waker,
}

impl SignalHandler {
    /// The bits this handler waits for.
    pub closed spec fn mask_spec(self) -> Signal {
        self.mask
    }

    /// A handler that waits for any bit of `mask` and then wakes `waker`.
    pub fn new(mask: Signal, waker: core::task::Waker) -> (h: SignalHandler)
        ensures
            h.mask_spec() == mask,
    {
        SignalHandler { mask, waker }
    }

    /// Invoke the handler with the signal value a transition produced:
    /// if any waited-for bit is set, issue the wake and report done (the
    /// caller must then discard the handler, never invoking it again);
    /// otherwise report not done, staying registered.
    pub fn invoke(&self, new_signal: Signal) -> (done: bool)
        ensures
            done == new_signal.spec_intersects(self.mask_spec()),
    {
        if new_signal.intersects(self.mask) {
            self.waker.wake_by_ref();
            true
        } else {
            false
        }
    }
}

/// The callbacks of `cbs` that stay registered after a transition to
/// `new_signal`: exactly those whose mask has no bit in common with it, in
/// their original order. The others are invoked and permanently discarded.
pub open spec fn retained_callbacks(cbs: Seq<SignalHandler>, new_signal: Signal) -> Seq<
    SignalHandler,
>
    decreases cbs.len(),
{
    if cbs.len() == 0 {
        Seq::empty()
    } else {
        let rest = retained_callbacks(cbs.drop_last(), new_signal);
        if new_signal.spec_intersects(cbs.last().mask_spec()) {
            rest
        } else {
            rest.push(cbs.last())
        }
    }
}

/// Every callback still registered after a transition is one the transition
/// did not satisfy.
pub proof fn lemma_retained_unsatisfied(cbs: Seq<SignalHandler>, new_signal: Signal)
    ensures
        forall|i: int|
            0 <= i < retained_callbacks(cbs, new_signal).len() ==> !new_signal.spec_intersects(
                (#[trigger] retained_callbacks(cbs, new_signal)[i]).mask_spec(),
            ),
    decreases cbs.len(),
{
    if cbs.len() > 0 {
        lemma_retained_unsatisfied(cbs.drop_last(), new_signal);
        let rest = retained_callbacks(cbs.drop_last(), new_signal);
        let r = retained_callbacks(cbs, new_signal);
        assert forall|i: int| 0 <= i < r.len() implies !new_signal.spec_intersects(
            (#[trigger] r[i]).mask_spec(),
        ) by {
            if new_signal.spec_intersects(cbs.last().mask_spec()) {
                assert(r[i] == rest[i]);
            } else {
                if i < rest.len() {
                    assert(r[i] == rest[i]);
                } else {
                    assert(r[i] == cbs.last());
                }
            }
        }
    }
}

/// A callback that a transition satisfies is removed at that transition:
/// it is invoked at most once for it, and, having reported done, is never
/// invoked again.
pub proof fn lemma_satisfied_callback_removed(
    cbs: Seq<SignalHandler>,
    new_signal: Signal,
    h: SignalHandler,
)
    requires
        new_signal.spec_intersects(h.mask_spec()),
    ensures
        !retained_callbacks(cbs, new_signal).contains(h),
{
    lemma_retained_unsatisfied(cbs, new_signal);
    if retained_callbacks(cbs, new_signal).contains(h) {
        let i = choose|i: int|
            0 <= i < retained_callbacks(cbs, new_signal).len() && retained_callbacks(
                cbs,
                new_signal,
            )[i] == h;
        assert(!new_signal.spec_intersects(retained_callbacks(cbs, new_signal)[i].mask_spec()));
    }
}

/// A callback that a transition does not satisfy stays registered across it.
pub proof fn lemma_unsatisfied_callback_kept(cbs: Seq<SignalHandler>, new_signal: Signal, i: int)
    requires
        0 <= i < cbs.len(),
        !new_signal.spec_intersects(cbs[i].mask_spec()),
    ensures
        retained_callbacks(cbs, new_signal).contains(cbs[i]),
    decreases cbs.len(),
{
    let rest = retained_callbacks(cbs.drop_last(), new_signal);
    if i == cbs.len() - 1 {
        assert(rest.push(cbs.last())[rest.len() as int] == cbs[i]);
    } else {
        lemma_unsatisfied_callback_kept(cbs.drop_last(), new_signal, i);
        let j = choose|j: int| 0 <= j < rest.len() && rest[j] == cbs.drop_last()[i];
        if !new_signal.spec_intersects(cbs.last().mask_spec()) {
            assert(rest.push(cbs.last())[j] == cbs[i]);
        }
    }
}

/// `post` is `pre` with exactly one callback appended, one whose mask is
/// `mask`: the shape a single registration leaves the callback list in.
pub open spec fn registered_one(pre: Seq<SignalHandler>, post: Seq<SignalHandler>, mask: Signal) -> bool {
    &&& post.len() == pre.len() + 1
    &&& post.drop_last() == pre
    &&& post.last().mask_spec() == mask
}

/// The base state every kernel object embeds: an immutable identifier, the
/// current signal value, and the ordered list of registered callbacks.
///
/// Concurrency note: the embedding object is expected to guard this state
/// with one non-reentrant lock and to perform every read and mutation under
/// it; the methods here are the computations that run inside that critical
/// section, so a callback must not reach back into the same object.
pub struct KObjectBase {
    id: KoID,
    signal: Signal,
    callbacks: Vec<SignalHandler>,
}

impl KObjectBase {
    /// The object's identifier.
    pub closed spec fn id_spec(self) -> KoID {
        self.id
    }

    /// The current signal value.
    pub closed spec fn signal_spec(self) -> Signal {
        self.signal
    }

    /// The registered callbacks, in registration order.
    pub closed spec fn callbacks_spec(self) -> Seq<SignalHandler> {
        self.callbacks@
    }

    /// A base with no signal asserted and no callback registered, under a
    /// freshly allocated identifier.
    pub fn new(allocator: &mut KoidAllocator) -> (obj: KObjectBase)
        requires
            old(allocator).wf(),
            old(allocator).next_spec() < u64::MAX,
        ensures
            final(allocator).wf(),
            final(allocator).next_spec() == old(allocator).next_spec() + 1,
            final(allocator).allocated() == old(allocator).allocated().push(obj.id_spec()),
            obj.id_spec() == old(allocator).next_spec(),
            obj.signal_spec() == Signal::spec_empty(),
            obj.callbacks_spec() == Seq::<SignalHandler>::empty(),
    {
        Self::with_signal(allocator, Signal::empty())
    }

    /// A base with initial signal `signal` and no callback registered, under
    /// a freshly allocated identifier.
    pub fn with_signal(allocator: &mut KoidAllocator, signal: Signal) -> (obj: KObjectBase)
        requires
            old(allocator).wf(),
            old(allocator).next_spec() < u64::MAX,
        ensures
            final(allocator).wf(),
            final(allocator).next_spec() == old(allocator).next_spec() + 1,
            final(allocator).allocated() == old(allocator).allocated().push(obj.id_spec()),
            obj.id_spec() == old(allocator).next_spec(),
            obj.signal_spec() == signal,
            obj.callbacks_spec() == Seq::<SignalHandler>::empty(),
    {
        KObjectBase { id: allocator.allocate(), signal, callbacks: Vec::new() }
    }

    /// The object's identifier.
    pub fn id(&self) -> (id: KoID)
        ensures
            id == self.id_spec(),
    {
        self.id
    }

    /// A snapshot of the current signal value. No side effects.
    pub fn signal(&self) -> (s: Signal)
        ensures
            s == self.signal_spec(),
    {
        self.signal
    }

    /// Change the signal: remove the `clear` bits, then add the `set` bits,
    /// as one combined transition. If the result equals the prior value, no
    /// callback is invoked and the list stays as it was. Otherwise every
    /// registered callback is invoked once with the new value, in
    /// registration order, and exactly those the transition satisfies are
    /// discarded; each discarded one has its wake issued.
    pub fn signal_change(&mut self, clear: Signal, set: Signal)
        ensures
            final(self).id_spec() == old(self).id_spec(),
            final(self).signal_spec() == old(self).signal_spec().after_change(clear, set),
            final(self).signal_spec() == old(self).signal_spec() ==> final(self).callbacks_spec()
                == old(self).callbacks_spec(),
            final(self).signal_spec() != old(self).signal_spec() ==> final(self).callbacks_spec()
                == retained_callbacks(old(self).callbacks_spec(), final(self).signal_spec()),
    {
        let old_signal = self.signal;
        self.signal.remove(clear);
        self.signal.insert(set);
        let new_signal = self.signal;
        if new_signal == old_signal {
            return;
        }
        let ghost orig = self.callbacks@;
        let ghost obj_id = self.id;
        let mut kept: Vec<SignalHandler> = Vec::new();
        let ghost mut idx: int = 0;
        while self.callbacks.len() > 0
            invariant
                0 <= idx <= orig.len(),
                self.callbacks@ == orig.subrange(idx, orig.len() as int),
                kept@ == retained_callbacks(orig.subrange(0, idx), new_signal),
                self.id == obj_id,
                self.signal == new_signal,
            decreases self.callbacks@.len(),
        {
            let h = self.callbacks.remove(0);
            proof {
                assert(orig.subrange(idx, orig.len() as int)[0] == orig[idx]);
                assert(orig.subrange(idx, orig.len() as int).remove(0) =~= orig.subrange(
                    idx + 1,
                    orig.len() as int,
                ));
                assert(orig.subrange(0, idx + 1).drop_last() =~= orig.subrange(0, idx));
                assert(orig.subrange(0, idx + 1).last() == orig[idx]);
            }
            if h.invoke(new_signal) {
                // satisfied: wake issued, permanently discarded
            } else {
                kept.push(h);
            }
            proof {
                idx = idx + 1;
            }
        }
        proof {
            assert(orig.subrange(0, orig.len() as int) =~= orig);
        }
        self.callbacks = kept;
    }

    /// Assert the bits of `signal`: a change that clears nothing.
    pub fn signal_set(&mut self, signal: Signal)
        ensures
            final(self).id_spec() == old(self).id_spec(),
            final(self).signal_spec() == old(self).signal_spec().spec_union(signal),
            final(self).signal_spec() == old(self).signal_spec() ==> final(self).callbacks_spec()
                == old(self).callbacks_spec(),
            final(self).signal_spec() != old(self).signal_spec() ==> final(self).callbacks_spec()
                == retained_callbacks(old(self).callbacks_spec(), final(self).signal_spec()),
    {
        proof {
            crate::signal::lemma_change_halves(self.signal, signal);
        }
        self.signal_change(Signal::empty(), signal);
    }

    /// Deassert the bits of `signal`: a change that sets nothing.
    pub fn signal_clear(&mut self, signal: Signal)
        ensures
            final(self).id_spec() == old(self).id_spec(),
            final(self).signal_spec() == old(self).signal_spec().spec_diff(signal),
            final(self).signal_spec() == old(self).signal_spec() ==> final(self).callbacks_spec()
                == old(self).callbacks_spec(),
            final(self).signal_spec() != old(self).signal_spec() ==> final(self).callbacks_spec()
                == retained_callbacks(old(self).callbacks_spec(), final(self).signal_spec()),
    {
        proof {
            crate::signal::lemma_change_halves(self.signal, signal);
        }
        self.signal_change(signal, Signal::empty());
    }

    /// Append `callback` to the callback list. Registration alone never
    /// evaluates the callback against the current signal: even one whose
    /// mask the current signal already satisfies stays registered, silent
    /// until the next distinct transition.
    pub fn add_signal_callback(&mut self, callback: SignalHandler)
        ensures
            final(self).id_spec() == old(self).id_spec(),
            final(self).signal_spec() == old(self).signal_spec(),
            final(self).callbacks_spec() == old(self).callbacks_spec().push(callback),
    {
        self.callbacks.push(callback);
    }

    /// The check-and-register step that begins a blocking wait: if the
    /// current signal already has a bit of `mask` set, return it at once and
    /// register nothing; otherwise register a one-shot callback that will
    /// wake `waker` at the first transition with a bit of `mask` set, and
    /// return nothing. The caller then parks its thread and re-reads the
    /// signal after each wake until the mask is satisfied.
    pub fn wait_signal_start(&mut self, mask: Signal, waker: core::task::Waker) -> (r: Option<
        Signal,
    >)
        ensures
            final(self).id_spec() == old(self).id_spec(),
            final(self).signal_spec() == old(self).signal_spec(),
            old(self).signal_spec().spec_intersects(mask) ==> (r == Some(old(self).signal_spec())
                && final(self).callbacks_spec() == old(self).callbacks_spec()),
            !old(self).signal_spec().spec_intersects(mask) ==> (r == None::<Signal>
                && registered_one(old(self).callbacks_spec(), final(self).callbacks_spec(), mask)),
    {
        let current = self.signal();
        if current.intersects(mask) {
            return Some(current);
        }
        self.add_signal_callback(SignalHandler::new(mask, waker));
        proof {
            assert(self.callbacks@.drop_last() =~= old(self).callbacks@);
        }
        None
    }

    /// Begin an asynchronous wait for any bit of `mask`. Nothing is checked
    /// or registered here: the first poll of the returned wait does both.
    pub fn wait_signal_async(&self, mask: Signal) -> (fut: SignalFuture)
        ensures
            fut.mask_spec() == mask,
            fut.is_first(),
    {
        SignalFuture::new(mask)
    }
}

/// What one poll of an asynchronous wait decides: complete with the signal
/// seen, register the one-shot callback and stay pending, or stay pending
/// with the callback already registered.
pub enum PollDecision {
    Ready(Signal),
    Register,
    Pending,
}

/// The state of one asynchronous wait: the mask waited for, and whether the
/// callback-registering first poll is still to come. The embedding future
/// keeps a shared-ownership handle to the object and feeds each poll the
/// object's current signal.
pub struct SignalFuture {
    mask: Signal,
    first: bool,
}

impl SignalFuture {
    /// The bits this wait is for.
    pub closed spec fn mask_spec(self) -> Signal {
        self.mask
    }

    /// Whether no poll has registered the callback yet.
    pub closed spec fn is_first(self) -> bool {
        self.first
    }

    /// The bits this wait is for.
    pub fn mask(&self) -> (m: Signal)
        ensures
            m == self.mask_spec(),
    {
        self.mask
    }

    /// A fresh asynchronous wait for any bit of `mask`. Nothing is checked
    /// or registered until the first poll.
    pub fn new(mask: Signal) -> (fut: SignalFuture)
        ensures
            fut.mask_spec() == mask,
            fut.is_first(),
    {
        SignalFuture { mask, first: true }
    }

    /// Decide one poll, given the object's current signal: complete at once
    /// when the mask is already satisfied, whether or not a callback was
    /// ever registered; otherwise have the caller register the one-shot
    /// callback on the first poll only, and stay pending.
    pub fn poll_decision(&mut self, current_signal: Signal) -> (r: PollDecision)
        ensures
            final(self).mask_spec() == old(self).mask_spec(),
            current_signal.spec_intersects(old(self).mask_spec()) ==> (r == PollDecision::Ready(
                current_signal,
            ) && *final(self) == *old(self)),
            !current_signal.spec_intersects(old(self).mask_spec()) && old(self).is_first() ==> (r
                == PollDecision::Register && !final(self).is_first()),
            !current_signal.spec_intersects(old(self).mask_spec()) && !old(self).is_first() ==> (r
                == PollDecision::Pending && *final(self) == *old(self)),
    {
        if current_signal.intersects(self.mask) {
            return PollDecision::Ready(current_signal);
        }
        if self.first {
            self.first = false;
            return PollDecision::Register;
        }
        PollDecision::Pending
    }

    /// One poll of the asynchronous wait against the object itself: complete
    /// with the full current signal when it has a bit of `mask` set; else
    /// stay pending, registering a one-shot callback that wakes `waker` --
    /// on the first poll only, later polls never re-register.
    pub fn poll(&mut self, object: &mut KObjectBase, waker: core::task::Waker) -> (r: Option<
        Signal,
    >)
        ensures
            final(self).mask_spec() == old(self).mask_spec(),
            final(object).id_spec() == old(object).id_spec(),
            final(object).signal_spec() == old(object).signal_spec(),
            old(object).signal_spec().spec_intersects(old(self).mask_spec()) ==> (
                r == Some(old(object).signal_spec())
                && final(object).callbacks_spec() == old(object).callbacks_spec()
                && *final(self) == *old(self)),
            !old(object).signal_spec().spec_intersects(old(self).mask_spec())
                ==> r == None::<Signal>,
            (!old(object).signal_spec().spec_intersects(old(self).mask_spec())
                && old(self).is_first()) ==> (!final(self).is_first()
                && registered_one(
                    old(object).callbacks_spec(),
                    final(object).callbacks_spec(),
                    old(self).mask_spec(),
                )),
            (!old(object).signal_spec().spec_intersects(old(self).mask_spec())
                && !old(self).is_first()) ==> (*final(self) == *old(self)
                && final(object).callbacks_spec() == old(object).callbacks_spec()),
    {
        let current_signal = object.signal();
        match self.poll_decision(current_signal) {
            PollDecision::Ready(s) => Some(s),
            PollDecision::Register => {
                object.add_signal_callback(SignalHandler::new(self.mask, waker));
                proof {
                    assert(object.callbacks@.drop_last() =~= old(object).callbacks@);
                }
                None
            },
            PollDecision::Pending => None,
        }
    }
}

/// The polymorphic interface every concrete kernel-object variant offers:
/// identity, a type name, a signal snapshot, and callback registration, all
/// forwarded to an embedded `KObjectBase`.
pub trait KernelObject {
    /// The object's identifier.
    fn id(&self) -> KoID;

    /// The name of the concrete variant's type.
    fn variant_name(&self) -> &'static str;

    /// A snapshot of the object's current signal value.
    fn signal(&self) -> Signal;

    /// Register `callback` for signal transitions. Registration alone never
    /// evaluates the callback against the current signal.
    fn add_signal_callback(&mut self, callback: SignalHandler);
}

impl dyn KernelObject {
    /// Begin an asynchronous wait for any bit of `mask`. Nothing is checked
    /// or registered here: the first poll of the returned wait does both.
    pub fn wait_signal_async(&self, mask: Signal) -> (fut: SignalFuture)
        ensures
            fut.mask_spec() == mask,
            fut.is_first(),
    {
        SignalFuture::new(mask)
    }
}

/// The base itself offers the full interface; concrete variants embedding a
/// base forward these same four operations to it.
impl KernelObject for KObjectBase {
    fn id(&self) -> KoID {
        self.id
    }

    fn variant_name(&self) -> &'static str {
        "KObjectBase"
    }

    fn signal(&self) -> Signal {
        self.signal
    }

    fn add_signal_callback(&mut self, callback: SignalHandler) {
        self.callbacks.push(callback);
    }
}

} // verus!
