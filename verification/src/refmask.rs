//! Which halves of the driver are alive.

use vstd::prelude::*;

verus! {

/// Value corresponding to either the Tx or the Rx part of the Uart being active.
#[derive(Debug, Clone, Copy, PartialEq, Eq, Structural)]
pub enum TxRxRef {
    Rx,
    Tx,
}

impl TxRxRef {
    /// The bit of the mask that stands for the part.
    pub open spec fn bit(self) -> u8 {
        match self {
            TxRxRef::Rx => 0b01,
            TxRxRef::Tx => 0b10,
        }
    }

    fn as_bit(self) -> (r: u8)
        ensures
            r == self.bit(),
    {
        match self {
            TxRxRef::Rx => 0b01,
            TxRxRef::Tx => 0b10,
        }
    }
}

/// Mask that stores whether a Tx and/or Rx part of the Uart is active.
///
/// Used when the parts are made and dropped to manage the peripheral lifetime. Each
/// operation takes the mask exclusively; whoever shares it between the parts sees to that.
pub struct TxRxRefMask {
    bits: u8,
}

impl View for TxRxRefMask {
    type V = Set<TxRxRef>;

    /// The parts that are active.
    closed spec fn view(&self) -> Set<TxRxRef> {
        Set::new(|part: TxRxRef| self.bits & part.bit() != 0)
    }
}

impl TxRxRefMask {
    #[verifier::type_invariant]
    spec fn wf(self) -> bool {
        self.bits & !0b11u8 == 0
    }

    /// No part is active.
    pub fn new() -> (r: Self)
        ensures
            r@ == Set::<TxRxRef>::empty(),
    {
        assert(0u8 & !0b11u8 == 0) by (bit_vector);
        let r = Self { bits: 0 };
        assert forall|part: TxRxRef| !r@.contains(part) by {
            assert(0u8 & 0b01u8 == 0 && 0u8 & 0b10u8 == 0) by (bit_vector);
        }
        r
    }

    /// Signal that either the Tx or Rx has been dropped.
    ///
    /// Returns `true` if after this call all parts are inactive.
    pub fn set_inactive_fetch_last(&mut self, value: TxRxRef) -> (r: bool)
        ensures
            final(self)@ == old(self)@.remove(value),
            r == (final(self)@ == Set::<TxRxRef>::empty()),
    {
        proof {
            use_type_invariant(&*self);
        }
        let bit: u8 = value.as_bit();
        let before: u8 = self.bits;
        let after: u8 = before & !bit;
        assert(before & !0b11u8 == 0 ==> after & !0b11u8 == 0) by (bit_vector)
            requires
                after == before & !bit,
        ;
        self.bits = after;
        proof {
            lemma_clear(before, after, value);
            if after == 0 {
                assert(0u8 & 0b01u8 == 0 && 0u8 & 0b10u8 == 0) by (bit_vector);
                assert(self@ =~= Set::<TxRxRef>::empty());
            } else {
                assert(after & 0b01 != 0 || after & 0b10 != 0) by (bit_vector)
                    requires
                        after & !0b11u8 == 0,
                        after != 0,
                ;
                assert(self@.contains(TxRxRef::Rx) || self@.contains(TxRxRef::Tx));
            }
        }
        after == 0
    }

    /// Signal that either the Tx or Rx has been created.
    pub fn set_active(&mut self, value: TxRxRef)
        ensures
            final(self)@ == old(self)@.insert(value),
    {
        proof {
            use_type_invariant(&*self);
        }
        let bit: u8 = value.as_bit();
        let before: u8 = self.bits;
        let after: u8 = before | bit;
        assert(after & !0b11u8 == 0) by (bit_vector)
            requires
                before & !0b11u8 == 0,
                bit == 0b01 || bit == 0b10,
                after == before | bit,
        ;
        self.bits = after;
        proof {
            lemma_set(before, after, value);
        }
    }

    /// Determine if either channels have been created, but not dropped. Clears the state.
    ///
    /// Should only be relevant when any of the parts have been leaked using
    /// [core::mem::forget].
    pub fn fetch_any_alive_reset(&mut self) -> (r: bool)
        ensures
            r == (old(self)@ != Set::<TxRxRef>::empty()),
            final(self)@ == Set::<TxRxRef>::empty(),
    {
        proof {
            use_type_invariant(&*self);
        }
        let before: u8 = self.bits;
        assert(0u8 & !0b11u8 == 0 && 0u8 & 0b01u8 == 0 && 0u8 & 0b10u8 == 0) by (bit_vector);
        self.bits = 0;
        proof {
            if before == 0 {
                assert(old(self)@ =~= Set::<TxRxRef>::empty());
            } else {
                assert(before & 0b01 != 0 || before & 0b10 != 0) by (bit_vector)
                    requires
                        before & !0b11u8 == 0,
                        before != 0,
                ;
                assert(old(self)@.contains(TxRxRef::Rx) || old(self)@.contains(TxRxRef::Tx));
            }
        }
        before != 0
    }
}

/// Clearing the bit of one part keeps the other.
proof fn lemma_clear(before: u8, after: u8, value: TxRxRef)
    requires
        after == before & !value.bit(),
    ensures
        forall|part: TxRxRef|
            (after & #[trigger] part.bit() != 0) == (before & part.bit() != 0 && part != value),
{
    assert forall|part: TxRxRef|
        (after & #[trigger] part.bit() != 0) == (before & part.bit() != 0 && part != value) by {
        let b = value.bit();
        let p = part.bit();
        assert((after & p != 0) == (before & p != 0 && p != b)) by (bit_vector)
            requires
                after == before & !b,
                b == 0b01 || b == 0b10,
                p == 0b01 || p == 0b10,
        ;
    }
}

/// Setting the bit of one part keeps the other.
proof fn lemma_set(before: u8, after: u8, value: TxRxRef)
    requires
        after == before | value.bit(),
    ensures
        forall|part: TxRxRef|
            (after & #[trigger] part.bit() != 0) == (before & part.bit() != 0 || part == value),
{
    assert forall|part: TxRxRef|
        (after & #[trigger] part.bit() != 0) == (before & part.bit() != 0 || part == value) by {
        let b = value.bit();
        let p = part.bit();
        assert((after & p != 0) == (before & p != 0 || p == b)) by (bit_vector)
            requires
                after == before | b,
                b == 0b01 || b == 0b10,
                p == 0b01 || p == 0b10,
        ;
    }
}

/// A part is active from when it is made until it is dropped, whatever the other one does.
pub proof fn law_parts_are_active_while_they_live(part: TxRxRef, other: TxRxRef)
    requires
        part != other,
    ensures
        forall|mask: &mut TxRxRefMask| #[trigger]
            call_ensures(TxRxRefMask::set_active, (mask, part), ()) ==> {
                &&& final(mask)@.contains(part)
                &&& final(mask)@.contains(other) == mask@.contains(other)
            },
        forall|mask: &mut TxRxRefMask, last: bool| #[trigger]
            call_ensures(TxRxRefMask::set_inactive_fetch_last, (mask, part), last) ==> {
                &&& !final(mask)@.contains(part)
                &&& final(mask)@.contains(other) == mask@.contains(other)
                &&& last == !mask@.contains(other)
            },
        forall|mask: &mut TxRxRefMask, any: bool| #[trigger]
            call_ensures(TxRxRefMask::fetch_any_alive_reset, (mask,), any) ==> {
                &&& any == (mask@.contains(part) || mask@.contains(other))
                &&& !final(mask)@.contains(part) && !final(mask)@.contains(other)
            },
        forall|mask: TxRxRefMask| #[trigger]
            call_ensures(TxRxRefMask::new, (), mask) ==> !mask@.contains(part),
{
    assert forall|active: Set<TxRxRef>| active.contains(part) || active.contains(other) || active
        == Set::<TxRxRef>::empty() by {
        if !active.contains(part) && !active.contains(other) {
            assert(active =~= Set::<TxRxRef>::empty()) by {
                assert forall|any: TxRxRef| !active.contains(any) by {
                    assert(any == part || any == other);
                }
            }
        }
    }
}

} // verus!
