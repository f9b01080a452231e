//! Signal bitsets: the observable state flags of a kernel object.

use vstd::prelude::*;

verus! {

/// A bitset of observable state flags belonging to a kernel object.
///
/// Treated as an opaque set of bits: the only operations are union,
/// set-subtraction, the "any bit in common" test and equality.
#[derive(Clone, Copy, PartialEq, Eq, Structural, Debug, Hash)]
pub struct Signal {
    pub bits: u32,
}

impl Signal {
    /// The signal value with no bit set.
    pub open spec fn spec_empty() -> Signal {
        Signal { bits: 0 }
    }

    /// The bits of `self` together with the bits of `other`.
    pub open spec fn spec_union(self, other: Signal) -> Signal {
        Signal { bits: self.bits | other.bits }
    }

    /// The bits of `self` without the bits of `other`.
    pub open spec fn spec_diff(self, other: Signal) -> Signal {
        Signal { bits: self.bits & !other.bits }
    }

    /// Whether `self` and `other` have at least one bit in common.
    pub open spec fn spec_intersects(self, other: Signal) -> bool {
        self.bits & other.bits != 0
    }

    /// Whether no bit is set.
    pub open spec fn spec_is_empty(self) -> bool {
        self.bits == 0
    }

    /// One signal-change step: remove the `clear` bits, then add the `set` bits.
    pub open spec fn after_change(self, clear: Signal, set: Signal) -> Signal {
        self.spec_diff(clear).spec_union(set)
    }

    /// An empty signal set.
    pub fn empty() -> (s: Signal)
        ensures
            s == Self::spec_empty(),
    {
        Signal { bits: 0 }
    }

    /// The signal set with exactly the given bits.
    pub fn new(bits: u32) -> (s: Signal)
        ensures
            s.bits == bits,
    {
        Signal { bits }
    }

    /// The READABLE state flag.
    pub fn readable() -> (s: Signal)
        ensures
            s.bits == 1u32,
    {
        Signal { bits: 1 }
    }

    /// The WRITABLE state flag.
    pub fn writable() -> (s: Signal)
        ensures
            s.bits == 2u32,
    {
        Signal { bits: 2 }
    }

    /// Add the bits of `other` to `self`.
    pub fn insert(&mut self, other: Signal)
        ensures
            *final(self) == old(self).spec_union(other),
    {
        self.bits = self.bits | other.bits;
    }

    /// Take the bits of `other` out of `self`.
    pub fn remove(&mut self, other: Signal)
        ensures
            *final(self) == old(self).spec_diff(other),
    {
        self.bits = self.bits & !other.bits;
    }

    /// The union of `self` and `other`, as a new value.
    pub fn union(self, other: Signal) -> (s: Signal)
        ensures
            s == self.spec_union(other),
    {
        Signal { bits: self.bits | other.bits }
    }

    /// Whether `self` and `other` have at least one bit in common.
    pub fn intersects(self, other: Signal) -> (b: bool)
        ensures
            b == self.spec_intersects(other),
    {
        self.bits & other.bits != 0
    }

    /// Whether no bit is set.
    pub fn is_empty(self) -> (b: bool)
        ensures
            b == self.spec_is_empty(),
    {
        self.bits == 0
    }
}

/// The signal value reached from `s` by applying each `(clear, set)` step of
/// `steps` in order, clear-then-set at every step.
pub open spec fn apply_changes(s: Signal, steps: Seq<(Signal, Signal)>) -> Signal
    decreases steps.len(),
{
    if steps.len() == 0 {
        s
    } else {
        apply_changes(s.after_change(steps[0].0, steps[0].1), steps.drop_first())
    }
}

/// For any sequence of signal-change steps, the signal reached by performing
/// them call by call equals the fold of the steps in call order: one more
/// call appended to a call sequence changes the folded result by exactly that
/// step's clear-then-set transition.
pub proof fn lemma_apply_changes_push(
    s: Signal,
    steps: Seq<(Signal, Signal)>,
    clear: Signal,
    set: Signal,
)
    ensures
        apply_changes(s, steps.push((clear, set))) == apply_changes(s, steps).after_change(
            clear,
            set,
        ),
    decreases steps.len(),
{
    let stepped = steps.push((clear, set));
    if steps.len() == 0 {
        assert(stepped[0] == (clear, set));
        assert(stepped.drop_first() =~= Seq::<(Signal, Signal)>::empty());
        assert(apply_changes(s, stepped) == apply_changes(
            s.after_change(clear, set),
            stepped.drop_first(),
        ));
        assert(apply_changes(s.after_change(clear, set), stepped.drop_first()) == s.after_change(
            clear,
            set,
        ));
        assert(apply_changes(s, steps) == s);
    } else {
        assert(stepped[0] == steps[0]);
        assert(stepped.drop_first() =~= steps.drop_first().push((clear, set)));
        lemma_apply_changes_push(
            s.after_change(steps[0].0, steps[0].1),
            steps.drop_first(),
            clear,
            set,
        );
    }
}

/// Clearing nothing leaves the clear half of a step without effect: a step
/// that only sets bits is a plain union, and a step that only clears bits is
/// a plain set-subtraction.
pub proof fn lemma_change_halves(s: Signal, other: Signal)
    ensures
        s.after_change(Signal::spec_empty(), other) == s.spec_union(other),
        s.after_change(other, Signal::spec_empty()) == s.spec_diff(other),
{
    let a = s.bits;
    let b = other.bits;
    assert(a & !0u32 == a) by (bit_vector);
    assert((a & !b) | 0u32 == a & !b) by (bit_vector);
}

} // verus!
