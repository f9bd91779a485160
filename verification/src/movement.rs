//! The set of active intents, kept as flag bits.

use vstd::prelude::*;
use crate::intent::Intent;

verus! {

/// Every flag bit that stands for an intent.
pub const ALL_BITS: u32 = 0x1_01FD;

/// A set of intents. Each intent has one bit; a bit is set while its
/// intent is a member.
#[derive(Clone, Copy, Debug)]
pub struct Movement {
    bits: u32,
}

/// The flag bits of a set of intents: the sum of its members' bits.
pub open spec fn mask(s: Set<Intent>) -> int {
    (if s.contains(Intent::TurnLeft) { 0x1int } else { 0 })
    + (if s.contains(Intent::TurnRight) { 0x4int } else { 0 })
    + (if s.contains(Intent::Forward) { 0x8int } else { 0 })
    + (if s.contains(Intent::Backward) { 0x10int } else { 0 })
    + (if s.contains(Intent::Up) { 0x20int } else { 0 })
    + (if s.contains(Intent::Down) { 0x40int } else { 0 })
    + (if s.contains(Intent::StrafeLeft) { 0x80int } else { 0 })
    + (if s.contains(Intent::StrafeRight) { 0x100int } else { 0 })
    + (if s.contains(Intent::MouseLook) { 0x1_0000int } else { 0 })
}

spec fn is_flag(b: u32) -> bool {
    b == 0x1 || b == 0x4 || b == 0x8 || b == 0x10 || b == 0x20 || b == 0x40 || b == 0x80
        || b == 0x100 || b == 0x1_0000
}

proof fn lemma_bit_is_flag(i: Intent)
    ensures
        is_flag(i.spec_bit()),
{
}

proof fn lemma_bits_distinct(i: Intent, j: Intent)
    ensures
        i.spec_bit() == j.spec_bit() <==> i == j,
{
}

proof fn lemma_flag_test(x: u32, b: u32)
    by (bit_vector)
    requires
        is_flag(b),
    ensures
        (x & b) == b <==> x & b != 0,
        0u32 & b == 0,
{
}

proof fn lemma_flag_set(x: u32, b: u32, c: u32)
    by (bit_vector)
    requires
        is_flag(b),
        is_flag(c),
    ensures
        (x | b) & c != 0 <==> (x & c != 0 || b == c),
        x & !ALL_BITS == 0 ==> (x | b) & !ALL_BITS == 0,
{
}

proof fn lemma_flag_clear(x: u32, b: u32, c: u32)
    by (bit_vector)
    requires
        is_flag(b),
        is_flag(c),
    ensures
        (x & !b) & c != 0 <==> (x & c != 0 && b != c),
        x & !ALL_BITS == 0 ==> (x & !b) & !ALL_BITS == 0,
{
}

proof fn lemma_flags_sum(x: u32)
    by (bit_vector)
    requires
        x & !ALL_BITS == 0,
    ensures
        x == (x & 0x1) + (x & 0x4) + (x & 0x8) + (x & 0x10) + (x & 0x20) + (x & 0x40) + (x & 0x80)
            + (x & 0x100) + (x & 0x1_0000),
        x & 0x1 == 0 || x & 0x1 == 0x1,
        x & 0x4 == 0 || x & 0x4 == 0x4,
        x & 0x8 == 0 || x & 0x8 == 0x8,
        x & 0x10 == 0 || x & 0x10 == 0x10,
        x & 0x20 == 0 || x & 0x20 == 0x20,
        x & 0x40 == 0 || x & 0x40 == 0x40,
        x & 0x80 == 0 || x & 0x80 == 0x80,
        x & 0x100 == 0 || x & 0x100 == 0x100,
        x & 0x1_0000 == 0 || x & 0x1_0000 == 0x1_0000,
{
}

impl View for Movement {
    type V = Set<Intent>;

    /// The intents whose bit is set.
    closed spec fn view(&self) -> Set<Intent> {
        Set::new(|i: Intent| self.bits & i.spec_bit() != 0)
    }
}

impl Movement {
    #[verifier::type_invariant]
    spec fn only_flags(self) -> bool {
        self.bits & !ALL_BITS == 0
    }

    /// The set with no intent in it.
    pub fn empty() -> (m: Movement)
        ensures
            m@ == Set::<Intent>::empty(),
    {
        assert(0u32 & !ALL_BITS == 0) by (bit_vector);
        let m = Movement { bits: 0 };
        proof {
            assert forall|i: Intent| !m@.contains(i) by {
                lemma_bit_is_flag(i);
                lemma_flag_test(0, i.spec_bit());
            }
            assert(m@ =~= Set::<Intent>::empty());
        }
        m
    }

    /// The flag bits of the set.
    pub fn bits(&self) -> (r: u32)
        ensures
            r == mask(self@),
    {
        proof {
            use_type_invariant(self);
            lemma_flags_sum(self.bits);
            assert(self@.contains(Intent::TurnLeft) <==> self.bits & 0x1 != 0);
            assert(self@.contains(Intent::TurnRight) <==> self.bits & 0x4 != 0);
            assert(self@.contains(Intent::Forward) <==> self.bits & 0x8 != 0);
            assert(self@.contains(Intent::Backward) <==> self.bits & 0x10 != 0);
            assert(self@.contains(Intent::Up) <==> self.bits & 0x20 != 0);
            assert(self@.contains(Intent::Down) <==> self.bits & 0x40 != 0);
            assert(self@.contains(Intent::StrafeLeft) <==> self.bits & 0x80 != 0);
            assert(self@.contains(Intent::StrafeRight) <==> self.bits & 0x100 != 0);
            assert(self@.contains(Intent::MouseLook) <==> self.bits & 0x1_0000 != 0);
        }
        self.bits
    }

    /// Whether `intent` is a member.
    pub fn contains(&self, intent: Intent) -> (r: bool)
        ensures
            r == self@.contains(intent),
    {
        let b = intent.bit();
        proof {
            lemma_bit_is_flag(intent);
            lemma_flag_test(self.bits, b);
        }
        (self.bits & b) == b
    }

    /// Makes `intent` a member; the other intents stay as they are.
    pub fn insert(&mut self, intent: Intent)
        ensures
            final(self)@ == old(self)@.insert(intent),
        no_unwind
    {
        let b = intent.bit();
        proof {
            use_type_invariant(&*self);
            lemma_bit_is_flag(intent);
            lemma_flag_set(self.bits, b, b);
            assert forall|j: Intent|
                ((self.bits | b) & j.spec_bit() != 0) == (self@.contains(j) || j == intent) by {
                lemma_bit_is_flag(j);
                lemma_bits_distinct(intent, j);
                lemma_flag_set(self.bits, b, j.spec_bit());
            }
        }
        self.bits = self.bits | b;
        assert(self@ =~= old(self)@.insert(intent));
    }

    /// Takes `intent` out; the other intents stay as they are.
    pub fn remove(&mut self, intent: Intent)
        ensures
            final(self)@ == old(self)@.remove(intent),
        no_unwind
    {
        let b = intent.bit();
        proof {
            use_type_invariant(&*self);
            lemma_bit_is_flag(intent);
            lemma_flag_clear(self.bits, b, b);
            assert forall|j: Intent|
                ((self.bits & !b) & j.spec_bit() != 0) == (self@.contains(j) && j != intent) by {
                lemma_bit_is_flag(j);
                lemma_bits_distinct(intent, j);
                lemma_flag_clear(self.bits, b, j.spec_bit());
            }
        }
        self.bits = self.bits & !b;
        assert(self@ =~= old(self)@.remove(intent));
    }
}

} // verus!
