//! Register names and their four-bit selectors.
//!
//! A selector is the dense index that an operand nibble carries. The mapping
//! between names and selectors is fixed here, once, for the encoder and the
//! engine alike.

use crate::nibble::U4;
use vstd::prelude::*;

verus! {

/// A sixteen-bit register.
#[derive(Clone, Copy, Debug, PartialEq, Eq, Structural)]
pub enum WReg {
    /// The hard-wired zero register.
    R0,
    R1,
    R2,
    R3,
    R4,
    R5,
    R6,
    R7,
    R8,
    R9,
    R10,
    /// The stack pointer.
    Rs,
    /// The link register.
    Rl,
    /// The base register.
    Rb,
    /// The program counter, under a register name.
    Rp,
    /// The handler stack register, privileged.
    Rh,
}

/// An eight-bit register: the zero register, or one half of a wide register.
#[derive(Clone, Copy, Debug, PartialEq, Eq, Structural)]
pub enum BReg {
    /// The hard-wired zero register.
    R0b,
    R1l,
    R1h,
    R2l,
    R2h,
    R3l,
    R3h,
    R4l,
    R4h,
    R5l,
    R5h,
    R6b,
    R7b,
    R8b,
    R9b,
    R10b,
}

impl WReg {
    /// The four-bit selector that stands for this register in an operand byte.
    #[verifier::opaque]
    pub open spec fn selector(self) -> nat {
        match self {
            WReg::R0 => 0,
            WReg::R1 => 1,
            WReg::R2 => 2,
            WReg::R3 => 3,
            WReg::R4 => 4,
            WReg::R5 => 5,
            WReg::R6 => 6,
            WReg::R7 => 7,
            WReg::R8 => 8,
            WReg::R9 => 9,
            WReg::R10 => 10,
            WReg::Rs => 11,
            WReg::Rl => 12,
            WReg::Rb => 13,
            WReg::Rp => 14,
            WReg::Rh => 15,
        }
    }

    /// The register that a selector stands for.
    #[verifier::opaque]
    pub open spec fn from_selector(n: nat) -> WReg {
        if n == 0 {
            WReg::R0
        } else if n == 1 {
            WReg::R1
        } else if n == 2 {
            WReg::R2
        } else if n == 3 {
            WReg::R3
        } else if n == 4 {
            WReg::R4
        } else if n == 5 {
            WReg::R5
        } else if n == 6 {
            WReg::R6
        } else if n == 7 {
            WReg::R7
        } else if n == 8 {
            WReg::R8
        } else if n == 9 {
            WReg::R9
        } else if n == 10 {
            WReg::R10
        } else if n == 11 {
            WReg::Rs
        } else if n == 12 {
            WReg::Rl
        } else if n == 13 {
            WReg::Rb
        } else if n == 14 {
            WReg::Rp
        } else {
            WReg::Rh
        }
    }

    /// The selector as a nibble.
    pub fn nibble(self) -> (n: U4)
        ensures
            n.wf(),
            n.value() == self.selector(),
    {
        reveal(WReg::selector);
        reveal(BReg::selector);
        let v: u8 = match self {
            WReg::R0 => 0,
            WReg::R1 => 1,
            WReg::R2 => 2,
            WReg::R3 => 3,
            WReg::R4 => 4,
            WReg::R5 => 5,
            WReg::R6 => 6,
            WReg::R7 => 7,
            WReg::R8 => 8,
            WReg::R9 => 9,
            WReg::R10 => 10,
            WReg::Rs => 11,
            WReg::Rl => 12,
            WReg::Rb => 13,
            WReg::Rp => 14,
            WReg::Rh => 15,
        };
        U4::low(v)
    }

    /// The register that a nibble selects. Every nibble selects one.
    pub fn from_nibble(n: U4) -> (r: WReg)
        ensures
            r == WReg::from_selector(n.value()),
            r.selector() == n.value(),
    {
        reveal(WReg::selector);
        reveal(BReg::selector);
        reveal(WReg::from_selector);
        reveal(BReg::from_selector);
        let v = n.get();
        if v == 0 {
            WReg::R0
        } else if v == 1 {
            WReg::R1
        } else if v == 2 {
            WReg::R2
        } else if v == 3 {
            WReg::R3
        } else if v == 4 {
            WReg::R4
        } else if v == 5 {
            WReg::R5
        } else if v == 6 {
            WReg::R6
        } else if v == 7 {
            WReg::R7
        } else if v == 8 {
            WReg::R8
        } else if v == 9 {
            WReg::R9
        } else if v == 10 {
            WReg::R10
        } else if v == 11 {
            WReg::Rs
        } else if v == 12 {
            WReg::Rl
        } else if v == 13 {
            WReg::Rb
        } else if v == 14 {
            WReg::Rp
        } else {
            WReg::Rh
        }
    }
}

impl BReg {
    /// The four-bit selector that stands for this register in an operand byte.
    #[verifier::opaque]
    pub open spec fn selector(self) -> nat {
        match self {
            BReg::R0b => 0,
            BReg::R1l => 1,
            BReg::R1h => 2,
            BReg::R2l => 3,
            BReg::R2h => 4,
            BReg::R3l => 5,
            BReg::R3h => 6,
            BReg::R4l => 7,
            BReg::R4h => 8,
            BReg::R5l => 9,
            BReg::R5h => 10,
            BReg::R6b => 11,
            BReg::R7b => 12,
            BReg::R8b => 13,
            BReg::R9b => 14,
            BReg::R10b => 15,
        }
    }

    /// The register that a selector stands for.
    #[verifier::opaque]
    pub open spec fn from_selector(n: nat) -> BReg {
        if n == 0 {
            BReg::R0b
        } else if n == 1 {
            BReg::R1l
        } else if n == 2 {
            BReg::R1h
        } else if n == 3 {
            BReg::R2l
        } else if n == 4 {
            BReg::R2h
        } else if n == 5 {
            BReg::R3l
        } else if n == 6 {
            BReg::R3h
        } else if n == 7 {
            BReg::R4l
        } else if n == 8 {
            BReg::R4h
        } else if n == 9 {
            BReg::R5l
        } else if n == 10 {
            BReg::R5h
        } else if n == 11 {
            BReg::R6b
        } else if n == 12 {
            BReg::R7b
        } else if n == 13 {
            BReg::R8b
        } else if n == 14 {
            BReg::R9b
        } else {
            BReg::R10b
        }
    }

    /// The selector as a nibble.
    pub fn nibble(self) -> (n: U4)
        ensures
            n.wf(),
            n.value() == self.selector(),
    {
        reveal(WReg::selector);
        reveal(BReg::selector);
        let v: u8 = match self {
            BReg::R0b => 0,
            BReg::R1l => 1,
            BReg::R1h => 2,
            BReg::R2l => 3,
            BReg::R2h => 4,
            BReg::R3l => 5,
            BReg::R3h => 6,
            BReg::R4l => 7,
            BReg::R4h => 8,
            BReg::R5l => 9,
            BReg::R5h => 10,
            BReg::R6b => 11,
            BReg::R7b => 12,
            BReg::R8b => 13,
            BReg::R9b => 14,
            BReg::R10b => 15,
        };
        U4::low(v)
    }

    /// The register that a nibble selects. Every nibble selects one.
    pub fn from_nibble(n: U4) -> (r: BReg)
        ensures
            r == BReg::from_selector(n.value()),
            r.selector() == n.value(),
    {
        reveal(WReg::selector);
        reveal(BReg::selector);
        reveal(WReg::from_selector);
        reveal(BReg::from_selector);
        let v = n.get();
        if v == 0 {
            BReg::R0b
        } else if v == 1 {
            BReg::R1l
        } else if v == 2 {
            BReg::R1h
        } else if v == 3 {
            BReg::R2l
        } else if v == 4 {
            BReg::R2h
        } else if v == 5 {
            BReg::R3l
        } else if v == 6 {
            BReg::R3h
        } else if v == 7 {
            BReg::R4l
        } else if v == 8 {
            BReg::R4h
        } else if v == 9 {
            BReg::R5l
        } else if v == 10 {
            BReg::R5h
        } else if v == 11 {
            BReg::R6b
        } else if v == 12 {
            BReg::R7b
        } else if v == 13 {
            BReg::R8b
        } else if v == 14 {
            BReg::R9b
        } else {
            BReg::R10b
        }
    }

    /// The wide register that this byte register is a part of.
    pub open spec fn spec_wide(self) -> WReg {
        match self {
            BReg::R0b => WReg::R0,
            BReg::R1l => WReg::R1,
            BReg::R1h => WReg::R1,
            BReg::R2l => WReg::R2,
            BReg::R2h => WReg::R2,
            BReg::R3l => WReg::R3,
            BReg::R3h => WReg::R3,
            BReg::R4l => WReg::R4,
            BReg::R4h => WReg::R4,
            BReg::R5l => WReg::R5,
            BReg::R5h => WReg::R5,
            BReg::R6b => WReg::R6,
            BReg::R7b => WReg::R7,
            BReg::R8b => WReg::R8,
            BReg::R9b => WReg::R9,
            BReg::R10b => WReg::R10,
        }
    }

    /// Whether this register is the high byte of its wide register.
    pub open spec fn spec_is_high(self) -> bool {
        match self {
            BReg::R1h | BReg::R2h | BReg::R3h | BReg::R4h | BReg::R5h => true,
            _ => false,
        }
    }

    /// The wide register that this byte register is a part of.
    #[verifier::when_used_as_spec(spec_wide)]
    pub fn wide(self) -> (r: WReg)
        ensures
            r == self.spec_wide(),
    {
        match self {
            BReg::R0b => WReg::R0,
            BReg::R1l => WReg::R1,
            BReg::R1h => WReg::R1,
            BReg::R2l => WReg::R2,
            BReg::R2h => WReg::R2,
            BReg::R3l => WReg::R3,
            BReg::R3h => WReg::R3,
            BReg::R4l => WReg::R4,
            BReg::R4h => WReg::R4,
            BReg::R5l => WReg::R5,
            BReg::R5h => WReg::R5,
            BReg::R6b => WReg::R6,
            BReg::R7b => WReg::R7,
            BReg::R8b => WReg::R8,
            BReg::R9b => WReg::R9,
            BReg::R10b => WReg::R10,
        }
    }

    /// Whether this register is the high byte of its wide register.
    #[verifier::when_used_as_spec(spec_is_high)]
    pub fn is_high(self) -> (h: bool)
        ensures
            h == self.spec_is_high(),
    {
        match self {
            BReg::R1h | BReg::R2h | BReg::R3h | BReg::R4h | BReg::R5h => true,
            _ => false,
        }
    }
}

/// A wide register is found again from its selector, and a selector below
/// sixteen from its register.
pub proof fn lemma_wide_selector_round_trip(r: WReg, n: nat)
    ensures
        r.selector() < 16,
        WReg::from_selector(r.selector()) == r,
        n < 16 ==> WReg::from_selector(n).selector() == n,
{
    reveal(WReg::selector);
    reveal(WReg::from_selector);
}

/// A byte register is found again from its selector, and a selector below
/// sixteen from its register.
pub proof fn lemma_byte_selector_round_trip(r: BReg, n: nat)
    ensures
        r.selector() < 16,
        BReg::from_selector(r.selector()) == r,
        n < 16 ==> BReg::from_selector(n).selector() == n,
{
    reveal(BReg::selector);
    reveal(BReg::from_selector);
}

} // verus!
