//! Four-bit values, the unit from which operand bytes are packed.

use vstd::prelude::*;

verus! {

/// A four-bit value. Two of them make one operand byte, high nibble first.
#[derive(Clone, Copy, Debug)]
pub struct U4 {
    bits: u8,
}

impl U4 {
    #[verifier::type_invariant]
    spec fn in_range(self) -> bool {
        self.bits < 16
    }

    /// The number this nibble stands for.
    pub closed spec fn value(self) -> nat {
        self.bits as nat
    }

    /// Whether the nibble holds a four-bit number. Every nibble that
    /// executable code can hold does; ghost values have to say so.
    pub closed spec fn wf(self) -> bool {
        self.bits < 16
    }

    /// The nibble that holds `v`, for `v` below sixteen.
    pub closed spec fn of(v: nat) -> U4 {
        U4 { bits: v as u8 }
    }

    /// The zero nibble.
    pub fn zero() -> (n: U4)
        ensures
            n.wf(),
            n.value() == 0,
    {
        U4 { bits: 0 }
    }

    /// The nibble with the given value, if it fits in four bits.
    pub fn new(v: u8) -> (n: Option<U4>)
        ensures
            n is Some <==> v < 16,
            n matches Some(u) ==> u.wf() && u.value() == v,
    {
        if v < 16 {
            Some(U4 { bits: v })
        } else {
            None
        }
    }

    /// The low four bits of a byte.
    pub fn low(b: u8) -> (n: U4)
        ensures
            n.wf(),
            n.value() == b % 16,
    {
        U4 { bits: b % 16 }
    }

    /// Splits an operand byte into its high and low nibble.
    pub fn paired(b: u8) -> (p: (U4, U4))
        ensures
            p.0 == U4::of(b as nat / 16),
            p.1 == U4::of(b as nat % 16),
            p.0.wf(),
            p.1.wf(),
            p.0.value() == b / 16,
            p.1.value() == b % 16,
    {
        (U4 { bits: b / 16 }, U4 { bits: b % 16 })
    }

    /// Packs `self` as the high nibble and `low` as the low nibble of a byte.
    pub fn pair(self, low: U4) -> (b: u8)
        ensures
            b == self.value() * 16 + low.value(),
    {
        proof {
            use_type_invariant(&self);
            use_type_invariant(&low);
        }
        self.bits * 16 + low.bits
    }

    /// The value as a byte.
    pub fn get(self) -> (v: u8)
        ensures
            v == self.value(),
            v < 16,
    {
        proof {
            use_type_invariant(&self);
        }
        self.bits
    }
}

/// The nibble made from a number below sixteen holds that number, and a
/// nibble is made from the number it holds.
pub broadcast proof fn lemma_of_value(v: nat)
    requires
        v < 16,
    ensures
        (#[trigger] U4::of(v)).wf(),
        U4::of(v).value() == v,
{
}

/// A nibble is made from the number it holds.
pub proof fn lemma_value_of(n: U4)
    requires
        n.wf(),
    ensures
        U4::of(n.value()) == n,
{
}

/// Packing and splitting are inverse to one another: the byte packed from
/// two nibbles splits into them, and the nibbles of a byte pack into it.
pub proof fn lemma_pack_and_split(hi: U4, lo: U4, b: u8)
    requires
        hi.wf(),
        lo.wf(),
    ensures
        hi.value() * 16 + lo.value() < 256,
        U4::of((hi.value() * 16 + lo.value()) / 16) == hi,
        U4::of((hi.value() * 16 + lo.value()) % 16) == lo,
        U4::of(b as nat / 16).value() * 16 + U4::of(b as nat % 16).value() == b,
{
}

} // verus!
