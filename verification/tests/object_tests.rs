use std::sync::atomic::{AtomicUsize, Ordering};
use std::sync::Arc;
use std::task::{Wake, Waker};

use kobject::koid::{KoidAllocator, KOID_BASE};
use kobject::object::{KObjectBase, KernelObject, SignalHandler};
use kobject::signal::Signal;

/// A wake handle that counts how often it was woken.
struct CountWaker(AtomicUsize);

impl Wake for CountWaker {
    fn wake(self: Arc<Self>) {
        self.0.fetch_add(1, Ordering::SeqCst);
    }
    fn wake_by_ref(self: &Arc<Self>) {
        self.0.fetch_add(1, Ordering::SeqCst);
    }
}

fn count_waker() -> (Arc<CountWaker>, Waker) {
    let counter = Arc::new(CountWaker(AtomicUsize::new(0)));
    (counter.clone(), Waker::from(counter))
}

fn wakes(counter: &Arc<CountWaker>) -> usize {
    counter.0.load(Ordering::SeqCst)
}

/// A concrete kernel-object variant: a base and nothing else.
struct DummyObject {
    base: KObjectBase,
}

impl KernelObject for DummyObject {
    fn id(&self) -> u64 {
        self.base.id()
    }
    fn variant_name(&self) -> &'static str {
        "DummyObject"
    }
    fn signal(&self) -> Signal {
        self.base.signal()
    }
    fn add_signal_callback(&mut self, callback: SignalHandler) {
        self.base.add_signal_callback(callback);
    }
}

fn new_base(allocator: &mut KoidAllocator) -> KObjectBase {
    KObjectBase::new(allocator)
}

#[test]
fn wait_async() {
    let mut allocator = KoidAllocator::new();
    let mut object = DummyObject { base: new_base(&mut allocator) };
    let (counter, waker) = count_waker();

    let mut fut = (&object as &dyn KernelObject).wait_signal_async(Signal::readable());

    // Polled before any qualifying transition: pending, and no wake yet.
    assert_eq!(fut.poll(&mut object.base, waker.clone()), None);
    assert_eq!(wakes(&counter), 0);

    // The task sets READABLE; the registered one-shot callback asks the
    // scheduler for a reschedule.
    object.base.signal_set(Signal::readable());
    assert_eq!(wakes(&counter), 1);

    // Rescheduled: the next poll completes with the expected signal.
    assert_eq!(fut.poll(&mut object.base, waker), Some(Signal::readable()));
}

#[test]
fn async_wait_completes_at_once_when_satisfied() {
    let mut allocator = KoidAllocator::new();
    let mut object = DummyObject {
        base: KObjectBase::with_signal(&mut allocator, Signal::readable()),
    };
    let (counter, waker) = count_waker();

    let mut fut = object.base.wait_signal_async(Signal::readable());
    // Already satisfied on the first poll: completes without registering.
    assert_eq!(
        fut.poll(&mut object.base, waker),
        Some(Signal::readable())
    );
    // No callback was registered, so a later transition wakes nobody.
    object.base.signal_set(Signal::writable());
    assert_eq!(wakes(&counter), 0);
}

#[test]
fn async_poll_registers_only_once() {
    let mut allocator = KoidAllocator::new();
    let mut object = DummyObject { base: new_base(&mut allocator) };
    let (counter, waker) = count_waker();

    let mut fut = object.base.wait_signal_async(Signal::readable());
    assert_eq!(fut.poll(&mut object.base, waker.clone()), None);
    assert_eq!(fut.poll(&mut object.base, waker.clone()), None);
    assert_eq!(fut.poll(&mut object.base, waker), None);

    // Only the first pending poll registered a callback, so the qualifying
    // transition produces exactly one wake.
    object.base.signal_set(Signal::readable());
    assert_eq!(wakes(&counter), 1);
}

#[test]
fn signal_sequence_folds_in_call_order() {
    let mut allocator = KoidAllocator::new();
    let mut base = new_base(&mut allocator);
    assert_eq!(base.signal(), Signal::empty());

    base.signal_set(Signal::new(0b0101));
    assert_eq!(base.signal(), Signal::new(0b0101));

    base.signal_change(Signal::new(0b0001), Signal::new(0b0010));
    assert_eq!(base.signal(), Signal::new(0b0110));

    base.signal_clear(Signal::new(0b0100));
    assert_eq!(base.signal(), Signal::new(0b0010));

    base.signal_change(Signal::new(0b0010), Signal::new(0b1000));
    assert_eq!(base.signal(), Signal::new(0b1000));
}

#[test]
fn unchanged_transition_invokes_no_callback() {
    let mut allocator = KoidAllocator::new();
    let mut base = new_base(&mut allocator);
    let (counter, waker) = count_waker();
    base.add_signal_callback(SignalHandler::new(Signal::readable(), waker));

    // Each of these nets no difference, so no callback is evaluated.
    base.signal_set(Signal::empty());
    base.signal_clear(Signal::writable());
    base.signal_change(Signal::empty(), Signal::empty());
    assert_eq!(wakes(&counter), 0);

    // An observable transition that satisfies the mask does fire it.
    base.signal_set(Signal::readable());
    assert_eq!(wakes(&counter), 1);
}

#[test]
fn satisfied_callback_fires_once_and_is_removed() {
    let mut allocator = KoidAllocator::new();
    let mut base = new_base(&mut allocator);
    let (counter, waker) = count_waker();
    base.add_signal_callback(SignalHandler::new(Signal::readable(), waker));

    base.signal_set(Signal::readable());
    assert_eq!(wakes(&counter), 1);

    // Further distinct transitions, with and without the bit, fire it no more.
    base.signal_clear(Signal::readable());
    base.signal_set(Signal::readable());
    base.signal_set(Signal::writable());
    assert_eq!(wakes(&counter), 1);
}

#[test]
fn unsatisfied_callback_stays_registered() {
    let mut allocator = KoidAllocator::new();
    let mut base = new_base(&mut allocator);
    let (counter, waker) = count_waker();
    base.add_signal_callback(SignalHandler::new(Signal::readable(), waker));

    // Transitions without the waited-for bit leave it registered, silent.
    base.signal_set(Signal::writable());
    base.signal_clear(Signal::writable());
    assert_eq!(wakes(&counter), 0);

    // It still fires at the first transition that has the bit.
    base.signal_set(Signal::readable());
    assert_eq!(wakes(&counter), 1);
}

#[test]
fn registration_does_not_evaluate_against_current_signal() {
    let mut allocator = KoidAllocator::new();
    let mut base = KObjectBase::with_signal(&mut allocator, Signal::readable());
    let (counter, waker) = count_waker();

    // The mask is already satisfied at registration time, yet nothing fires.
    base.add_signal_callback(SignalHandler::new(Signal::readable(), waker));
    assert_eq!(wakes(&counter), 0);

    // Only the next distinct transition evaluates it (READABLE still set).
    base.signal_set(Signal::writable());
    assert_eq!(wakes(&counter), 1);
}

#[test]
fn koids_increase_and_never_repeat() {
    let mut allocator = KoidAllocator::new();
    let mut ids = Vec::new();
    for _ in 0..16 {
        ids.push(new_base(&mut allocator).id());
    }
    assert_eq!(ids[0], KOID_BASE);
    for window in ids.windows(2) {
        assert!(window[0] < window[1]);
    }
    assert_eq!(*ids.last().unwrap(), KOID_BASE + 15);
}

#[test]
fn wait_start_returns_current_signal_when_satisfied() {
    let mut allocator = KoidAllocator::new();
    let mut base = KObjectBase::with_signal(
        &mut allocator,
        Signal::readable().union(Signal::writable()),
    );
    let (counter, waker) = count_waker();

    // Already satisfied: the full signal comes back, nothing is registered.
    let r = base.wait_signal_start(Signal::readable(), waker);
    assert_eq!(r, Some(Signal::readable().union(Signal::writable())));
    base.signal_clear(Signal::readable());
    base.signal_set(Signal::readable());
    assert_eq!(wakes(&counter), 0);
}

#[test]
fn wait_start_registers_one_shot_callback() {
    let mut allocator = KoidAllocator::new();
    let mut base = new_base(&mut allocator);
    let (counter, waker) = count_waker();

    let r = base.wait_signal_start(Signal::writable(), waker);
    assert_eq!(r, None);

    // A transition without the bit leaves the waiter parked.
    base.signal_set(Signal::readable());
    assert_eq!(wakes(&counter), 0);

    // The qualifying transition wakes it exactly once, then discards it.
    base.signal_set(Signal::writable());
    assert_eq!(wakes(&counter), 1);
    base.signal_clear(Signal::writable());
    base.signal_set(Signal::writable());
    assert_eq!(wakes(&counter), 1);
}

#[test]
fn signal_operations() {
    let a = Signal::new(0b0011);
    let b = Signal::new(0b0110);
    assert_eq!(a.union(b), Signal::new(0b0111));
    assert!(a.intersects(b));
    assert!(!a.intersects(Signal::new(0b1000)));
    assert!(Signal::empty().is_empty());
    assert!(!a.is_empty());

    let mut s = Signal::empty();
    s.insert(a);
    assert_eq!(s, a);
    s.remove(Signal::new(0b0001));
    assert_eq!(s, Signal::new(0b0010));
    assert_eq!(Signal::readable(), Signal::new(1));
    assert_eq!(Signal::writable(), Signal::new(2));
}

#[test]
fn kernel_object_interface_forwards_to_base() {
    let mut allocator = KoidAllocator::new();
    let mut object = DummyObject { base: new_base(&mut allocator) };
    assert_eq!(object.id(), KOID_BASE);
    assert_eq!(object.variant_name(), "DummyObject");
    assert_eq!(KernelObject::signal(&object), Signal::empty());

    let (counter, waker) = count_waker();
    object.add_signal_callback(SignalHandler::new(Signal::readable(), waker));
    object.base.signal_set(Signal::readable());
    assert_eq!(KernelObject::signal(&object), Signal::readable());
    assert_eq!(wakes(&counter), 1);
}
