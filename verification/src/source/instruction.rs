//! From the operands of a source line to the operands of an instruction,
//! and from a mnemonic to its opcode.

use crate::isa;
use crate::registers::{BReg, WReg};
use crate::source::err::{Location, SourceLocation};
use crate::source::operand::{DataOperand, Wide};
use crate::source::symbols::{used, position, Entry, Symbols};
use crate::source::text::is;
use vstd::prelude::*;

verus! {

/// An operand as it stands in a source line.
#[derive(Debug, Clone, PartialEq, Eq)]
pub enum SourceOperand {
    /// A number marked as a byte.
    Byte(u8),
    /// A number marked as wide.
    Wide(u16),
    /// A number without a mark.
    Number(i32),
    ByteReg(BReg),
    WideReg(WReg),
    /// A label, by its name.
    Label(String),
}

/// An operand of a source line, as plain values.
pub enum Operand {
    Byte(u8),
    Wide(u16),
    Number(i32),
    ByteReg(BReg),
    WideReg(WReg),
    Label(Seq<char>),
}

impl View for SourceOperand {
    type V = Operand;

    open spec fn view(&self) -> Operand {
        match self {
            SourceOperand::Byte(b) => Operand::Byte(*b),
            SourceOperand::Wide(w) => Operand::Wide(*w),
            SourceOperand::Number(n) => Operand::Number(*n),
            SourceOperand::ByteReg(r) => Operand::ByteReg(*r),
            SourceOperand::WideReg(r) => Operand::WideReg(*r),
            SourceOperand::Label(l) => Operand::Label(l@),
        }
    }
}

/// The operands of a list, as plain values.
pub open spec fn operands(ops: Seq<SourceOperand>) -> Seq<Operand> {
    ops.map_values(|o: SourceOperand| o@)
}

/// The byte register an operand names.
pub open spec fn as_byte(op: Operand) -> Option<BReg> {
    match op {
        Operand::ByteReg(r) => Some(r),
        _ => None,
    }
}

/// The wide register an operand names.
pub open spec fn as_wide(op: Operand) -> Option<WReg> {
    match op {
        Operand::WideReg(r) => Some(r),
        _ => None,
    }
}

/// The eight-bit immediate an operand stands for: a byte, or a number
/// without a mark, taken modulo 256.
pub open spec fn as_imm_byte(op: Operand) -> Option<u8> {
    match op {
        Operand::Number(n) => Some((n % 256) as u8),
        Operand::Byte(n) => Some(n),
        _ => None,
    }
}

/// The sixteen-bit immediate an operand stands for: a wide number, a
/// number without a mark, taken modulo 65536, or a label, which is then
/// used at `at`.
pub open spec fn as_imm_wide(op: Operand, table: Seq<Entry>, at: Location) -> (
    Seq<Entry>,
    Option<Wide>,
) {
    match op {
        Operand::Number(n) => (table, Some(Wide::Number((n % 0x1_0000) as u16))),
        Operand::Wide(n) => (table, Some(Wide::Number(n))),
        Operand::Label(l) => (used(table, l, at), Some(Wide::Label(position(table, l) as usize))),
        _ => (table, None),
    }
}

/// `n` modulo `2^bits`, for 8 or 16 bits.
pub fn low_bits(n: i32, modulus: i32) -> (r: i32)
    requires
        modulus == 256 || modulus == 0x1_0000,
    ensures
        r == n % modulus,
        0 <= r < modulus,
{
    if n >= 0 {
        n % modulus
    } else {
        modulus - 1 - (-(n + 1)) % modulus
    }
}

/// No operand at all.
pub open spec fn spec_parse_nothing(ops: Seq<Operand>) -> Option<DataOperand> {
    if ops.len() != 0 {
        None
    } else {
        Some(DataOperand::Nothing)
    }
}

/// Exactly one operand, a byte register.
pub open spec fn spec_parse_breg(ops: Seq<Operand>) -> Option<DataOperand> {
    if ops.len() <= 0 {
        None
    } else {
        match as_byte(ops[0]) {
            None => None,
            Some(v0) => {
                if ops.len() != 1 {
                    None
                } else {
                    Some(DataOperand::ByteRegister(v0))
                }
            },
        }
    }
}

/// Exactly one operand, a wide register.
pub open spec fn spec_parse_wreg(ops: Seq<Operand>) -> Option<DataOperand> {
    if ops.len() <= 0 {
        None
    } else {
        match as_wide(ops[0]) {
            None => None,
            Some(v0) => {
                if ops.len() != 1 {
                    None
                } else {
                    Some(DataOperand::WideRegister(v0))
                }
            },
        }
    }
}

/// Exactly one operand, an eight-bit immediate.
pub open spec fn spec_parse_imm_byte(ops: Seq<Operand>) -> Option<DataOperand> {
    if ops.len() <= 0 {
        None
    } else {
        match as_imm_byte(ops[0]) {
            None => None,
            Some(v0) => {
                if ops.len() != 1 {
                    None
                } else {
                    Some(DataOperand::ImmediateByte(v0))
                }
            },
        }
    }
}

/// Exactly one operand, a sixteen-bit immediate.
pub open spec fn spec_parse_imm_wide(ops: Seq<Operand>, table: Seq<Entry>, at: Location) -> (
    Seq<Entry>,
    Option<DataOperand>,
) {
    if ops.len() <= 0 {
        (table, None)
    } else {
        let (t0, w0) = as_imm_wide(ops[0], table, at);
        match w0 {
            None => (t0, None),
            Some(v0) => {
                if ops.len() != 1 {
                    (t0, None)
                } else {
                    (t0, Some(DataOperand::ImmediateWide(v0)))
                }
            },
        }
    }
}

/// A byte register and an eight-bit immediate. Any further operands are ignored.
pub open spec fn spec_parse_byte_imm(ops: Seq<Operand>) -> Option<DataOperand> {
    if ops.len() <= 0 {
        None
    } else {
        match as_byte(ops[0]) {
            None => None,
            Some(v0) => {
                if ops.len() <= 1 {
                    None
                } else {
                    match as_imm_byte(ops[1]) {
                        None => None,
                        Some(v1) => {
                            Some(DataOperand::ByteImm(v0, v1))
                        },
                    }
                }
            },
        }
    }
}

/// A wide register and a sixteen-bit immediate. Any further operands are ignored.
pub open spec fn spec_parse_wide_imm(ops: Seq<Operand>, table: Seq<Entry>, at: Location) -> (
    Seq<Entry>,
    Option<DataOperand>,
) {
    if ops.len() <= 0 {
        (table, None)
    } else {
        match as_wide(ops[0]) {
            None => (table, None),
            Some(v0) => {
                if ops.len() <= 1 {
                    (table, None)
                } else {
                    let (t1, w1) = as_imm_wide(ops[1], table, at);
                    match w1 {
                        None => (t1, None),
                        Some(v1) => {
                            (t1, Some(DataOperand::WideImm(v0, v1)))
                        },
                    }
                }
            },
        }
    }
}

/// Three byte registers. Any further operands are ignored.
pub open spec fn spec_parse_three_byte(ops: Seq<Operand>) -> Option<DataOperand> {
    if ops.len() <= 0 {
        None
    } else {
        match as_byte(ops[0]) {
            None => None,
            Some(v0) => {
                if ops.len() <= 1 {
                    None
                } else {
                    match as_byte(ops[1]) {
                        None => None,
                        Some(v1) => {
                            if ops.len() <= 2 {
                                None
                            } else {
                                match as_byte(ops[2]) {
                                    None => None,
                                    Some(v2) => {
                                        Some(DataOperand::ThreeByte(v0, v1, v2))
                                    },
                                }
                            }
                        },
                    }
                }
            },
        }
    }
}

/// Three wide registers. Any further operands are ignored.
pub open spec fn spec_parse_three_wide(ops: Seq<Operand>) -> Option<DataOperand> {
    if ops.len() <= 0 {
        None
    } else {
        match as_wide(ops[0]) {
            None => None,
            Some(v0) => {
                if ops.len() <= 1 {
                    None
                } else {
                    match as_wide(ops[1]) {
                        None => None,
                        Some(v1) => {
                            if ops.len() <= 2 {
                                None
                            } else {
                                match as_wide(ops[2]) {
                                    None => None,
                                    Some(v2) => {
                                        Some(DataOperand::ThreeWide(v0, v1, v2))
                                    },
                                }
                            }
                        },
                    }
                }
            },
        }
    }
}

/// A wide register, a sixteen-bit immediate and a byte register. Any further operands are ignored.
pub open spec fn spec_parse_wide_imm_byte(ops: Seq<Operand>, table: Seq<Entry>, at: Location) -> (
    Seq<Entry>,
    Option<DataOperand>,
) {
    if ops.len() <= 0 {
        (table, None)
    } else {
        match as_wide(ops[0]) {
            None => (table, None),
            Some(v0) => {
                if ops.len() <= 1 {
                    (table, None)
                } else {
                    let (t1, w1) = as_imm_wide(ops[1], table, at);
                    match w1 {
                        None => (t1, None),
                        Some(v1) => {
                            if ops.len() <= 2 {
                                (t1, None)
                            } else {
                                match as_byte(ops[2]) {
                                    None => (t1, None),
                                    Some(v2) => {
                                        (t1, Some(DataOperand::WideImmByte(v0, v1, v2)))
                                    },
                                }
                            }
                        },
                    }
                }
            },
        }
    }
}

/// A wide register, a sixteen-bit immediate and a wide register. Any further operands are ignored.
pub open spec fn spec_parse_wide_imm_wide(ops: Seq<Operand>, table: Seq<Entry>, at: Location) -> (
    Seq<Entry>,
    Option<DataOperand>,
) {
    if ops.len() <= 0 {
        (table, None)
    } else {
        match as_wide(ops[0]) {
            None => (table, None),
            Some(v0) => {
                if ops.len() <= 1 {
                    (table, None)
                } else {
                    let (t1, w1) = as_imm_wide(ops[1], table, at);
                    match w1 {
                        None => (t1, None),
                        Some(v1) => {
                            if ops.len() <= 2 {
                                (t1, None)
                            } else {
                                match as_wide(ops[2]) {
                                    None => (t1, None),
                                    Some(v2) => {
                                        (t1, Some(DataOperand::WideImmWide(v0, v1, v2)))
                                    },
                                }
                            }
                        },
                    }
                }
            },
        }
    }
}

/// Two wide registers and a byte register. Any further operands are ignored.
pub open spec fn spec_parse_two_wide_one_byte(ops: Seq<Operand>) -> Option<DataOperand> {
    if ops.len() <= 0 {
        None
    } else {
        match as_wide(ops[0]) {
            None => None,
            Some(v0) => {
                if ops.len() <= 1 {
                    None
                } else {
                    match as_wide(ops[1]) {
                        None => None,
                        Some(v1) => {
                            if ops.len() <= 2 {
                                None
                            } else {
                                match as_byte(ops[2]) {
                                    None => None,
                                    Some(v2) => {
                                        Some(DataOperand::TwoWideOneByte(v0, v1, v2))
                                    },
                                }
                            }
                        },
                    }
                }
            },
        }
    }
}

/// A byte register, a wide register and a sixteen-bit immediate. Any further operands are ignored.
pub open spec fn spec_parse_byte_wide_imm(ops: Seq<Operand>, table: Seq<Entry>, at: Location) -> (
    Seq<Entry>,
    Option<DataOperand>,
) {
    if ops.len() <= 0 {
        (table, None)
    } else {
        match as_byte(ops[0]) {
            None => (table, None),
            Some(v0) => {
                if ops.len() <= 1 {
                    (table, None)
                } else {
                    match as_wide(ops[1]) {
                        None => (table, None),
                        Some(v1) => {
                            if ops.len() <= 2 {
                                (table, None)
                            } else {
                                let (t2, w2) = as_imm_wide(ops[2], table, at);
                                match w2 {
                                    None => (t2, None),
                                    Some(v2) => {
                                        (t2, Some(DataOperand::ByteWideImm(v0, v1, v2)))
                                    },
                                }
                            }
                        },
                    }
                }
            },
        }
    }
}

/// Two wide registers and a sixteen-bit immediate. Any further operands are ignored.
pub open spec fn spec_parse_two_wide_imm(ops: Seq<Operand>, table: Seq<Entry>, at: Location) -> (
    Seq<Entry>,
    Option<DataOperand>,
) {
    if ops.len() <= 0 {
        (table, None)
    } else {
        match as_wide(ops[0]) {
            None => (table, None),
            Some(v0) => {
                if ops.len() <= 1 {
                    (table, None)
                } else {
                    match as_wide(ops[1]) {
                        None => (table, None),
                        Some(v1) => {
                            if ops.len() <= 2 {
                                (table, None)
                            } else {
                                let (t2, w2) = as_imm_wide(ops[2], table, at);
                                match w2 {
                                    None => (t2, None),
                                    Some(v2) => {
                                        (t2, Some(DataOperand::TwoWideImm(v0, v1, v2)))
                                    },
                                }
                            }
                        },
                    }
                }
            },
        }
    }
}

/// A byte register and two wide registers. Any further operands are ignored.
pub open spec fn spec_parse_byte_two_wide(ops: Seq<Operand>) -> Option<DataOperand> {
    if ops.len() <= 0 {
        None
    } else {
        match as_byte(ops[0]) {
            None => None,
            Some(v0) => {
                if ops.len() <= 1 {
                    None
                } else {
                    match as_wide(ops[1]) {
                        None => None,
                        Some(v1) => {
                            if ops.len() <= 2 {
                                None
                            } else {
                                match as_wide(ops[2]) {
                                    None => None,
                                    Some(v2) => {
                                        Some(DataOperand::ByteTwoWide(v0, v1, v2))
                                    },
                                }
                            }
                        },
                    }
                }
            },
        }
    }
}

/// Four byte registers. Any further operands are ignored.
pub open spec fn spec_parse_four_byte(ops: Seq<Operand>) -> Option<DataOperand> {
    if ops.len() <= 0 {
        None
    } else {
        match as_byte(ops[0]) {
            None => None,
            Some(v0) => {
                if ops.len() <= 1 {
                    None
                } else {
                    match as_byte(ops[1]) {
                        None => None,
                        Some(v1) => {
                            if ops.len() <= 2 {
                                None
                            } else {
                                match as_byte(ops[2]) {
                                    None => None,
                                    Some(v2) => {
                                        if ops.len() <= 3 {
                                            None
                                        } else {
                                            match as_byte(ops[3]) {
                                                None => None,
                                                Some(v3) => {
                                                    Some(DataOperand::FourByte(v0, v1, v2, v3))
                                                },
                                            }
                                        }
                                    },
                                }
                            }
                        },
                    }
                }
            },
        }
    }
}

/// Four wide registers. Any further operands are ignored.
pub open spec fn spec_parse_four_wide(ops: Seq<Operand>) -> Option<DataOperand> {
    if ops.len() <= 0 {
        None
    } else {
        match as_wide(ops[0]) {
            None => None,
            Some(v0) => {
                if ops.len() <= 1 {
                    None
                } else {
                    match as_wide(ops[1]) {
                        None => None,
                        Some(v1) => {
                            if ops.len() <= 2 {
                                None
                            } else {
                                match as_wide(ops[2]) {
                                    None => None,
                                    Some(v2) => {
                                        if ops.len() <= 3 {
                                            None
                                        } else {
                                            match as_wide(ops[3]) {
                                                None => None,
                                                Some(v3) => {
                                                    Some(DataOperand::FourWide(v0, v1, v2, v3))
                                                },
                                            }
                                        }
                                    },
                                }
                            }
                        },
                    }
                }
            },
        }
    }
}

impl DataOperand {
    /// The byte register an operand names.
    pub fn byte(op: &SourceOperand) -> (r: Option<BReg>)
        ensures
            r == as_byte(op@),
    {
        match op {
            SourceOperand::ByteReg(r) => Some(*r),
            _ => None,
        }
    }

    /// The wide register an operand names.
    pub fn wide(op: &SourceOperand) -> (r: Option<WReg>)
        ensures
            r == as_wide(op@),
    {
        match op {
            SourceOperand::WideReg(r) => Some(*r),
            _ => None,
        }
    }

    /// The eight-bit immediate an operand stands for.
    pub fn imm_byte(op: &SourceOperand) -> (r: Option<u8>)
        ensures
            r == as_imm_byte(op@),
    {
        match op {
            SourceOperand::Number(n) => Some(low_bits(*n, 256) as u8),
            SourceOperand::Byte(n) => Some(*n),
            _ => None,
        }
    }

    /// The sixteen-bit immediate an operand stands for; a label is used at
    /// `sl`.
    pub fn imm_wide(op: &SourceOperand, sym: &mut Symbols, sl: &SourceLocation) -> (r: Option<Wide>)
        ensures
            (final(sym)@, r) == as_imm_wide(op@, old(sym)@, sl@),
    {
        match op {
            SourceOperand::Number(n) => Some(Wide::Number(low_bits(*n, 0x1_0000) as u16)),
            SourceOperand::Wide(n) => Some(Wide::Number(*n)),
            SourceOperand::Label(lbl) => Some(Wide::Label(sym.get_label(lbl, sl.duplicate()))),
            _ => None,
        }
    }

    /// No operand at all.
    pub fn parse_nothing(ops: &[SourceOperand]) -> (r: Option<DataOperand>)
        ensures
            r == spec_parse_nothing(operands(ops@)),
    {
        if ops.len() != 0 {
            return None;
        }
        Some(DataOperand::Nothing)
    }

    /// Exactly one operand, a byte register.
    pub fn parse_breg(ops: &[SourceOperand]) -> (r: Option<DataOperand>)
        ensures
            r == spec_parse_breg(operands(ops@)),
    {
        if ops.len() <= 0 {
            return None;
        }
        let v0 = DataOperand::byte(&ops[0])?;
        if ops.len() != 1 {
            return None;
        }
        Some(DataOperand::ByteRegister(v0))
    }

    /// Exactly one operand, a wide register.
    pub fn parse_wreg(ops: &[SourceOperand]) -> (r: Option<DataOperand>)
        ensures
            r == spec_parse_wreg(operands(ops@)),
    {
        if ops.len() <= 0 {
            return None;
        }
        let v0 = DataOperand::wide(&ops[0])?;
        if ops.len() != 1 {
            return None;
        }
        Some(DataOperand::WideRegister(v0))
    }

    /// Exactly one operand, an eight-bit immediate.
    pub fn parse_imm_byte(ops: &[SourceOperand]) -> (r: Option<DataOperand>)
        ensures
            r == spec_parse_imm_byte(operands(ops@)),
    {
        if ops.len() <= 0 {
            return None;
        }
        let v0 = DataOperand::imm_byte(&ops[0])?;
        if ops.len() != 1 {
            return None;
        }
        Some(DataOperand::ImmediateByte(v0))
    }

    /// Exactly one operand, a sixteen-bit immediate.
    pub fn parse_imm_wide(ops: &[SourceOperand], sym: &mut Symbols, sl: &SourceLocation) -> (r: Option<
        DataOperand,
    >)
        ensures
            (final(sym)@, r) == spec_parse_imm_wide(operands(ops@), old(sym)@, sl@),
    {
        if ops.len() <= 0 {
            return None;
        }
        let v0 = DataOperand::imm_wide(&ops[0], sym, sl)?;
        if ops.len() != 1 {
            return None;
        }
        Some(DataOperand::ImmediateWide(v0))
    }

    /// A byte register and an eight-bit immediate. Any further operands are ignored.
    pub fn parse_byte_imm(ops: &[SourceOperand]) -> (r: Option<DataOperand>)
        ensures
            r == spec_parse_byte_imm(operands(ops@)),
    {
        if ops.len() <= 0 {
            return None;
        }
        let v0 = DataOperand::byte(&ops[0])?;
        if ops.len() <= 1 {
            return None;
        }
        let v1 = DataOperand::imm_byte(&ops[1])?;
        Some(DataOperand::ByteImm(v0, v1))
    }

    /// A wide register and a sixteen-bit immediate. Any further operands are ignored.
    pub fn parse_wide_imm(ops: &[SourceOperand], sym: &mut Symbols, sl: &SourceLocation) -> (r: Option<
        DataOperand,
    >)
        ensures
            (final(sym)@, r) == spec_parse_wide_imm(operands(ops@), old(sym)@, sl@),
    {
        if ops.len() <= 0 {
            return None;
        }
        let v0 = DataOperand::wide(&ops[0])?;
        if ops.len() <= 1 {
            return None;
        }
        let v1 = DataOperand::imm_wide(&ops[1], sym, sl)?;
        Some(DataOperand::WideImm(v0, v1))
    }

    /// Three byte registers. Any further operands are ignored.
    pub fn parse_three_byte(ops: &[SourceOperand]) -> (r: Option<DataOperand>)
        ensures
            r == spec_parse_three_byte(operands(ops@)),
    {
        if ops.len() <= 0 {
            return None;
        }
        let v0 = DataOperand::byte(&ops[0])?;
        if ops.len() <= 1 {
            return None;
        }
        let v1 = DataOperand::byte(&ops[1])?;
        if ops.len() <= 2 {
            return None;
        }
        let v2 = DataOperand::byte(&ops[2])?;
        Some(DataOperand::ThreeByte(v0, v1, v2))
    }

    /// Three wide registers. Any further operands are ignored.
    pub fn parse_three_wide(ops: &[SourceOperand]) -> (r: Option<DataOperand>)
        ensures
            r == spec_parse_three_wide(operands(ops@)),
    {
        if ops.len() <= 0 {
            return None;
        }
        let v0 = DataOperand::wide(&ops[0])?;
        if ops.len() <= 1 {
            return None;
        }
        let v1 = DataOperand::wide(&ops[1])?;
        if ops.len() <= 2 {
            return None;
        }
        let v2 = DataOperand::wide(&ops[2])?;
        Some(DataOperand::ThreeWide(v0, v1, v2))
    }

    /// A wide register, a sixteen-bit immediate and a byte register. Any further operands are ignored.
    pub fn parse_wide_imm_byte(ops: &[SourceOperand], sym: &mut Symbols, sl: &SourceLocation) -> (r: Option<
        DataOperand,
    >)
        ensures
            (final(sym)@, r) == spec_parse_wide_imm_byte(operands(ops@), old(sym)@, sl@),
    {
        if ops.len() <= 0 {
            return None;
        }
        let v0 = DataOperand::wide(&ops[0])?;
        if ops.len() <= 1 {
            return None;
        }
        let v1 = DataOperand::imm_wide(&ops[1], sym, sl)?;
        if ops.len() <= 2 {
            return None;
        }
        let v2 = DataOperand::byte(&ops[2])?;
        Some(DataOperand::WideImmByte(v0, v1, v2))
    }

    /// A wide register, a sixteen-bit immediate and a wide register. Any further operands are ignored.
    pub fn parse_wide_imm_wide(ops: &[SourceOperand], sym: &mut Symbols, sl: &SourceLocation) -> (r: Option<
        DataOperand,
    >)
        ensures
            (final(sym)@, r) == spec_parse_wide_imm_wide(operands(ops@), old(sym)@, sl@),
    {
        if ops.len() <= 0 {
            return None;
        }
        let v0 = DataOperand::wide(&ops[0])?;
        if ops.len() <= 1 {
            return None;
        }
        let v1 = DataOperand::imm_wide(&ops[1], sym, sl)?;
        if ops.len() <= 2 {
            return None;
        }
        let v2 = DataOperand::wide(&ops[2])?;
        Some(DataOperand::WideImmWide(v0, v1, v2))
    }

    /// Two wide registers and a byte register. Any further operands are ignored.
    pub fn parse_two_wide_one_byte(ops: &[SourceOperand]) -> (r: Option<DataOperand>)
        ensures
            r == spec_parse_two_wide_one_byte(operands(ops@)),
    {
        if ops.len() <= 0 {
            return None;
        }
        let v0 = DataOperand::wide(&ops[0])?;
        if ops.len() <= 1 {
            return None;
        }
        let v1 = DataOperand::wide(&ops[1])?;
        if ops.len() <= 2 {
            return None;
        }
        let v2 = DataOperand::byte(&ops[2])?;
        Some(DataOperand::TwoWideOneByte(v0, v1, v2))
    }

    /// A byte register, a wide register and a sixteen-bit immediate. Any further operands are ignored.
    pub fn parse_byte_wide_imm(ops: &[SourceOperand], sym: &mut Symbols, sl: &SourceLocation) -> (r: Option<
        DataOperand,
    >)
        ensures
            (final(sym)@, r) == spec_parse_byte_wide_imm(operands(ops@), old(sym)@, sl@),
    {
        if ops.len() <= 0 {
            return None;
        }
        let v0 = DataOperand::byte(&ops[0])?;
        if ops.len() <= 1 {
            return None;
        }
        let v1 = DataOperand::wide(&ops[1])?;
        if ops.len() <= 2 {
            return None;
        }
        let v2 = DataOperand::imm_wide(&ops[2], sym, sl)?;
        Some(DataOperand::ByteWideImm(v0, v1, v2))
    }

    /// Two wide registers and a sixteen-bit immediate. Any further operands are ignored.
    pub fn parse_two_wide_imm(ops: &[SourceOperand], sym: &mut Symbols, sl: &SourceLocation) -> (r: Option<
        DataOperand,
    >)
        ensures
            (final(sym)@, r) == spec_parse_two_wide_imm(operands(ops@), old(sym)@, sl@),
    {
        if ops.len() <= 0 {
            return None;
        }
        let v0 = DataOperand::wide(&ops[0])?;
        if ops.len() <= 1 {
            return None;
        }
        let v1 = DataOperand::wide(&ops[1])?;
        if ops.len() <= 2 {
            return None;
        }
        let v2 = DataOperand::imm_wide(&ops[2], sym, sl)?;
        Some(DataOperand::TwoWideImm(v0, v1, v2))
    }

    /// A byte register and two wide registers. Any further operands are ignored.
    pub fn parse_byte_two_wide(ops: &[SourceOperand]) -> (r: Option<DataOperand>)
        ensures
            r == spec_parse_byte_two_wide(operands(ops@)),
    {
        if ops.len() <= 0 {
            return None;
        }
        let v0 = DataOperand::byte(&ops[0])?;
        if ops.len() <= 1 {
            return None;
        }
        let v1 = DataOperand::wide(&ops[1])?;
        if ops.len() <= 2 {
            return None;
        }
        let v2 = DataOperand::wide(&ops[2])?;
        Some(DataOperand::ByteTwoWide(v0, v1, v2))
    }

    /// Four byte registers. Any further operands are ignored.
    pub fn parse_four_byte(ops: &[SourceOperand]) -> (r: Option<DataOperand>)
        ensures
            r == spec_parse_four_byte(operands(ops@)),
    {
        if ops.len() <= 0 {
            return None;
        }
        let v0 = DataOperand::byte(&ops[0])?;
        if ops.len() <= 1 {
            return None;
        }
        let v1 = DataOperand::byte(&ops[1])?;
        if ops.len() <= 2 {
            return None;
        }
        let v2 = DataOperand::byte(&ops[2])?;
        if ops.len() <= 3 {
            return None;
        }
        let v3 = DataOperand::byte(&ops[3])?;
        Some(DataOperand::FourByte(v0, v1, v2, v3))
    }

    /// Four wide registers. Any further operands are ignored.
    pub fn parse_four_wide(ops: &[SourceOperand]) -> (r: Option<DataOperand>)
        ensures
            r == spec_parse_four_wide(operands(ops@)),
    {
        if ops.len() <= 0 {
            return None;
        }
        let v0 = DataOperand::wide(&ops[0])?;
        if ops.len() <= 1 {
            return None;
        }
        let v1 = DataOperand::wide(&ops[1])?;
        if ops.len() <= 2 {
            return None;
        }
        let v2 = DataOperand::wide(&ops[2])?;
        if ops.len() <= 3 {
            return None;
        }
        let v3 = DataOperand::wide(&ops[3])?;
        Some(DataOperand::FourWide(v0, v1, v2, v3))
    }
}

/// What a mnemonic and its operands assemble to: the opcode and the
/// operands of the instruction, or what the mnemonic takes instead. Labels
/// among the operands are used at `at`; a form that is tried and does not
/// fit may have used them already.
pub type Assembled = Result<(u8, DataOperand), Seq<char>>;

/// A mnemonic that takes no operand.
pub open spec fn spec_plain(opcode: u8, ops: Seq<Operand>) -> Assembled {
    match spec_parse_nothing(ops) {
        Some(d) => Ok((opcode, d)),
        None => Err("nothing"@),
    }
}

/// A mnemonic that takes one register of either width.
pub open spec fn spec_one_register(byte_opcode: u8, wide_opcode: u8, ops: Seq<Operand>) -> Assembled {
    match spec_parse_breg(ops) {
        Some(d) => Ok((byte_opcode, d)),
        None => match spec_parse_wreg(ops) {
            Some(d) => Ok((wide_opcode, d)),
            None => Err("takes one register"@),
        },
    }
}

/// A mnemonic that takes an address.
pub open spec fn spec_to_address(opcode: u8, ops: Seq<Operand>, table: Seq<Entry>, at: Location) -> (
    Seq<Entry>,
    Assembled,
) {
    let (t, r) = spec_parse_imm_wide(ops, table, at);
    match r {
        Some(d) => (t, Ok((opcode, d))),
        None => (t, Err("a wide (addr like a label or just a number)"@)),
    }
}

/// A two-operand operation: three registers of one width.
pub open spec fn spec_parse_binop(bop: u8, wop: u8, ops: Seq<Operand>) -> Assembled {
    match spec_parse_three_byte(ops) {
        Some(d) => Ok((bop, d)),
        None => match spec_parse_three_wide(ops) {
            Some(d) => Ok((wop, d)),
            None => Err("three regs of same size"@),
        },
    }
}

/// A multiplication or division: four registers of one width.
pub open spec fn spec_four_registers(bop: u8, wop: u8, ops: Seq<Operand>) -> Assembled {
    match spec_parse_four_byte(ops) {
        Some(d) => Ok((bop, d)),
        None => match spec_parse_four_wide(ops) {
            Some(d) => Ok((wop, d)),
            None => Err("four registers"@),
        },
    }
}

/// `ret`: no operand, which stands for 0, or a byte.
pub open spec fn spec_ret(ops: Seq<Operand>) -> Assembled {
    match spec_parse_nothing(ops) {
        Some(_) => Ok((isa::RET, DataOperand::ImmediateByte(0))),
        None => match spec_parse_imm_byte(ops) {
            Some(d) => Ok((isa::RET, d)),
            None => Err("either nothing or a byte"@),
        },
    }
}

/// `store`: to an immediate or a register offset, from a byte or a wide
/// register. The forms are tried in this order.
pub open spec fn spec_store(ops: Seq<Operand>, table: Seq<Entry>, at: Location) -> (
    Seq<Entry>,
    Assembled,
) {
    let (t1, r1) = spec_parse_wide_imm_byte(ops, table, at);
    match r1 {
        Some(d) => (t1, Ok((isa::STORE_BI, d))),
        None => {
            let (t2, r2) = spec_parse_wide_imm_wide(ops, t1, at);
            match r2 {
                Some(d) => (t2, Ok((isa::STORE_WI, d))),
                None => match spec_parse_two_wide_one_byte(ops) {
                    Some(d) => (t2, Ok((isa::STORE_BR, d))),
                    None => match spec_parse_three_wide(ops) {
                        Some(d) => (t2, Ok((isa::STORE_WR, d))),
                        None => (
                            t2,
                            Err(
                                "a wide and another wide or immediate for destination and a source register (any size)"@,
                            ),
                        ),
                    },
                },
            }
        },
    }
}

/// `load`: from an immediate or a register offset, to a byte or a wide
/// register. The forms are tried in this order.
pub open spec fn spec_load(ops: Seq<Operand>, table: Seq<Entry>, at: Location) -> (
    Seq<Entry>,
    Assembled,
) {
    let (t1, r1) = spec_parse_byte_wide_imm(ops, table, at);
    match r1 {
        Some(d) => (t1, Ok((isa::LOAD_BI, d))),
        None => {
            let (t2, r2) = spec_parse_two_wide_imm(ops, t1, at);
            match r2 {
                Some(d) => (t2, Ok((isa::LOAD_WI, d))),
                None => match spec_parse_byte_two_wide(ops) {
                    Some(d) => (t2, Ok((isa::LOAD_BR, d))),
                    None => match spec_parse_three_wide(ops) {
                        Some(d) => (t2, Ok((isa::LOAD_WR, d))),
                        None => (
                            t2,
                            Err(
                                "a destination register (any size) and then a wide and a wide or immediate for source"@,
                            ),
                        ),
                    },
                },
            }
        },
    }
}

/// `ldi`: a byte register and a byte, or a wide register and a wide value.
/// The wide form is `LDI_W` in its load variant.
pub open spec fn spec_ldi(ops: Seq<Operand>, table: Seq<Entry>, at: Location) -> (
    Seq<Entry>,
    Assembled,
) {
    match spec_parse_byte_imm(ops) {
        Some(d) => (table, Ok((isa::LDI_B, d))),
        None => {
            let (t, r) = spec_parse_wide_imm(ops, table, at);
            match r {
                Some(DataOperand::WideImm(reg, w)) => (
                    t,
                    Ok((isa::LDI_W, DataOperand::TwoWideImm(reg, WReg::R0, w))),
                ),
                _ => (t, Err("one register and one immediate"@)),
            }
        },
    }
}

/// `jmp`: to an address, or to what a wide register other than the zero
/// register holds. Both are `LDI_W` in its jump variant.
pub open spec fn spec_jmp(ops: Seq<Operand>, table: Seq<Entry>, at: Location) -> (
    Seq<Entry>,
    Assembled,
) {
    let (t, r) = spec_parse_imm_wide(ops, table, at);
    match r {
        Some(DataOperand::ImmediateWide(w)) => (
            t,
            Ok((isa::LDI_W, DataOperand::TwoWideImm(WReg::R0, WReg::R1, w))),
        ),
        _ => match spec_parse_wreg(ops) {
            Some(DataOperand::WideRegister(reg)) => if reg == WReg::R0 {
                (t, Err("r0 is not a valid jmp destination"@))
            } else {
                (t, Ok((isa::LDI_W, DataOperand::TwoWideImm(reg, WReg::R1, Wide::Number(0)))))
            },
            _ => (t, Err("address or wide register"@)),
        },
    }
}

/// What a mnemonic and its operands assemble to.
pub open spec fn spec_parse_ins(name: Seq<char>, ops: Seq<Operand>, table: Seq<Entry>, at: Location) -> (
    Seq<Entry>,
    Assembled,
) {
    if name == "null"@ {
        (table, spec_plain(isa::NULL, ops))
    } else if name == "halt"@ {
        (table, spec_plain(isa::HALT, ops))
    } else if name == "ctf"@ {
        (table, spec_plain(isa::CTF, ops))
    } else if name == "reth"@ {
        (table, spec_plain(isa::RETH, ops))
    } else if name == "nop"@ {
        (table, spec_plain(isa::NOP, ops))
    } else if name == "syscall"@ {
        (table, spec_plain(isa::SYSCALL, ops))
    } else if name == "usr"@ {
        (table, spec_plain(isa::USR, ops))
    } else if name == "vmon"@ {
        (table, spec_plain(isa::VMON, ops))
    } else if name == "vmoff"@ {
        (table, spec_plain(isa::VMOFF, ops))
    } else if name == "push"@ {
        (table, spec_one_register(isa::PUSH_B, isa::PUSH_W, ops))
    } else if name == "pop"@ {
        (table, spec_one_register(isa::POP_B, isa::POP_W, ops))
    } else if name == "call"@ {
        spec_to_address(isa::CALL, ops, table, at)
    } else if name == "ret"@ {
        (table, spec_ret(ops))
    } else if name == "store"@ || name == "str"@ {
        spec_store(ops, table, at)
    } else if name == "load"@ {
        spec_load(ops, table, at)
    } else if name == "jez"@ {
        spec_to_address(isa::JEZ, ops, table, at)
    } else if name == "jlt"@ {
        spec_to_address(isa::JLT, ops, table, at)
    } else if name == "jle"@ {
        spec_to_address(isa::JLE, ops, table, at)
    } else if name == "jgt"@ {
        spec_to_address(isa::JGT, ops, table, at)
    } else if name == "jge"@ {
        spec_to_address(isa::JGE, ops, table, at)
    } else if name == "jnz"@ || name == "jne"@ {
        spec_to_address(isa::JNZ, ops, table, at)
    } else if name == "jo"@ {
        spec_to_address(isa::JO, ops, table, at)
    } else if name == "jno"@ {
        spec_to_address(isa::JNO, ops, table, at)
    } else if name == "jb"@ || name == "jc"@ {
        spec_to_address(isa::JB, ops, table, at)
    } else if name == "jae"@ || name == "jnc"@ {
        spec_to_address(isa::JAE, ops, table, at)
    } else if name == "ja"@ {
        spec_to_address(isa::JA, ops, table, at)
    } else if name == "jbe"@ {
        spec_to_address(isa::JBE, ops, table, at)
    } else if name == "ldi"@ {
        spec_ldi(ops, table, at)
    } else if name == "jmp"@ || name == "jump"@ {
        spec_jmp(ops, table, at)
    } else if name == "add"@ {
        (table, spec_parse_binop(isa::ADD_B, isa::ADD_W, ops))
    } else if name == "sub"@ {
        (table, spec_parse_binop(isa::SUB_B, isa::SUB_W, ops))
    } else if name == "and"@ {
        (table, spec_parse_binop(isa::AND_B, isa::AND_W, ops))
    } else if name == "or"@ {
        (table, spec_parse_binop(isa::OR_B, isa::OR_W, ops))
    } else if name == "xor"@ {
        (table, spec_parse_binop(isa::XOR_B, isa::XOR_W, ops))
    } else if name == "shl"@ {
        (table, spec_parse_binop(isa::SHL_B, isa::SHL_W, ops))
    } else if name == "asr"@ {
        (table, spec_parse_binop(isa::ASR_B, isa::ASR_W, ops))
    } else if name == "lsr"@ {
        (table, spec_parse_binop(isa::LSR_B, isa::LSR_W, ops))
    } else if name == "mul"@ {
        (table, spec_four_registers(isa::MUL_B, isa::MUL_W, ops))
    } else if name == "div"@ {
        (table, spec_four_registers(isa::DIV_B, isa::DIV_W, ops))
    } else {
        (table, Err("unknown instruction"@))
    }
}

fn plain(opcode: u8, ops: &[SourceOperand]) -> (r: Result<(u8, DataOperand), &'static str>)
    ensures
        matches_assembled(r, spec_plain(opcode, operands(ops@))),
{
    match DataOperand::parse_nothing(ops) {
        Some(d) => Ok((opcode, d)),
        None => Err("nothing"),
    }
}

/// Whether an outcome is the one stated: the same instruction, or a
/// message with the same text.
pub open spec fn matches_assembled(r: Result<(u8, DataOperand), &'static str>, a: Assembled) -> bool {
    match a {
        Ok(v) => r == Ok::<(u8, DataOperand), &'static str>(v),
        Err(m) => r matches Err(e) && e@ == m,
    }
}

fn one_register(byte_opcode: u8, wide_opcode: u8, ops: &[SourceOperand]) -> (r: Result<
    (u8, DataOperand),
    &'static str,
>)
    ensures
        matches_assembled(r, spec_one_register(byte_opcode, wide_opcode, operands(ops@))),
{
    if let Some(dat_op) = DataOperand::parse_breg(ops) {
        Ok((byte_opcode, dat_op))
    } else if let Some(dat_op) = DataOperand::parse_wreg(ops) {
        Ok((wide_opcode, dat_op))
    } else {
        Err("takes one register")
    }
}

fn to_address(opcode: u8, ops: &[SourceOperand], sym: &mut Symbols, sl: &SourceLocation) -> (r:
    Result<(u8, DataOperand), &'static str>)
    ensures
        final(sym)@ == spec_to_address(opcode, operands(ops@), old(sym)@, sl@).0,
        matches_assembled(r, spec_to_address(opcode, operands(ops@), old(sym)@, sl@).1),
{
    match DataOperand::parse_imm_wide(ops, sym, sl) {
        Some(d) => Ok((opcode, d)),
        None => Err("a wide (addr like a label or just a number)"),
    }
}

/// A two-operand operation: three registers of one width.
pub fn parse_binop(bop: u8, wop: u8, ops: &[SourceOperand]) -> (r: Result<
    (u8, DataOperand),
    &'static str,
>)
    ensures
        matches_assembled(r, spec_parse_binop(bop, wop, operands(ops@))),
{
    if let Some(dat_op) = DataOperand::parse_three_byte(ops) {
        Ok((bop, dat_op))
    } else if let Some(dat_op) = DataOperand::parse_three_wide(ops) {
        Ok((wop, dat_op))
    } else {
        Err("three regs of same size")
    }
}

fn four_registers(bop: u8, wop: u8, ops: &[SourceOperand]) -> (r: Result<
    (u8, DataOperand),
    &'static str,
>)
    ensures
        matches_assembled(r, spec_four_registers(bop, wop, operands(ops@))),
{
    if let Some(dat_op) = DataOperand::parse_four_byte(ops) {
        Ok((bop, dat_op))
    } else if let Some(dat_op) = DataOperand::parse_four_wide(ops) {
        Ok((wop, dat_op))
    } else {
        Err("four registers")
    }
}

fn ret(ops: &[SourceOperand]) -> (r: Result<(u8, DataOperand), &'static str>)
    ensures
        matches_assembled(r, spec_ret(operands(ops@))),
{
    if let Some(_) = DataOperand::parse_nothing(ops) {
        Ok((isa::RET, DataOperand::ImmediateByte(0)))
    } else if let Some(dat_op) = DataOperand::parse_imm_byte(ops) {
        Ok((isa::RET, dat_op))
    } else {
        Err("either nothing or a byte")
    }
}

fn store(ops: &[SourceOperand], sym: &mut Symbols, sl: &SourceLocation) -> (r: Result<
    (u8, DataOperand),
    &'static str,
>)
    ensures
        final(sym)@ == spec_store(operands(ops@), old(sym)@, sl@).0,
        matches_assembled(r, spec_store(operands(ops@), old(sym)@, sl@).1),
{
    if let Some(dat_op) = DataOperand::parse_wide_imm_byte(ops, sym, sl) {
        Ok((isa::STORE_BI, dat_op))
    } else if let Some(dat_op) = DataOperand::parse_wide_imm_wide(ops, sym, sl) {
        Ok((isa::STORE_WI, dat_op))
    } else if let Some(dat_op) = DataOperand::parse_two_wide_one_byte(ops) {
        Ok((isa::STORE_BR, dat_op))
    } else if let Some(dat_op) = DataOperand::parse_three_wide(ops) {
        Ok((isa::STORE_WR, dat_op))
    } else {
        Err("a wide and another wide or immediate for destination and a source register (any size)")
    }
}

fn load(ops: &[SourceOperand], sym: &mut Symbols, sl: &SourceLocation) -> (r: Result<
    (u8, DataOperand),
    &'static str,
>)
    ensures
        final(sym)@ == spec_load(operands(ops@), old(sym)@, sl@).0,
        matches_assembled(r, spec_load(operands(ops@), old(sym)@, sl@).1),
{
    if let Some(dat_op) = DataOperand::parse_byte_wide_imm(ops, sym, sl) {
        Ok((isa::LOAD_BI, dat_op))
    } else if let Some(dat_op) = DataOperand::parse_two_wide_imm(ops, sym, sl) {
        Ok((isa::LOAD_WI, dat_op))
    } else if let Some(dat_op) = DataOperand::parse_byte_two_wide(ops) {
        Ok((isa::LOAD_BR, dat_op))
    } else if let Some(dat_op) = DataOperand::parse_three_wide(ops) {
        Ok((isa::LOAD_WR, dat_op))
    } else {
        Err("a destination register (any size) and then a wide and a wide or immediate for source")
    }
}

fn ldi(ops: &[SourceOperand], sym: &mut Symbols, sl: &SourceLocation) -> (r: Result<
    (u8, DataOperand),
    &'static str,
>)
    ensures
        final(sym)@ == spec_ldi(operands(ops@), old(sym)@, sl@).0,
        matches_assembled(r, spec_ldi(operands(ops@), old(sym)@, sl@).1),
{
    if let Some(dat_op) = DataOperand::parse_byte_imm(ops) {
        Ok((isa::LDI_B, dat_op))
    } else {
        match DataOperand::parse_wide_imm(ops, sym, sl) {
            Some(DataOperand::WideImm(r, w)) => Ok(
                (isa::LDI_W, DataOperand::TwoWideImm(r, WReg::R0, w)),
            ),
            _ => Err("one register and one immediate"),
        }
    }
}

fn jmp(ops: &[SourceOperand], sym: &mut Symbols, sl: &SourceLocation) -> (r: Result<
    (u8, DataOperand),
    &'static str,
>)
    ensures
        final(sym)@ == spec_jmp(operands(ops@), old(sym)@, sl@).0,
        matches_assembled(r, spec_jmp(operands(ops@), old(sym)@, sl@).1),
{
    match DataOperand::parse_imm_wide(ops, sym, sl) {
        Some(DataOperand::ImmediateWide(w)) => Ok(
            (isa::LDI_W, DataOperand::TwoWideImm(WReg::R0, WReg::R1, w)),
        ),
        _ => match DataOperand::parse_wreg(ops) {
            Some(DataOperand::WideRegister(wr)) => {
                if wr == WReg::R0 {
                    Err("r0 is not a valid jmp destination")
                } else {
                    Ok((isa::LDI_W, DataOperand::TwoWideImm(wr, WReg::R1, Wide::Number(0))))
                }
            },
            _ => Err("address or wide register"),
        },
    }
}

/// Assembles one instruction: the opcode and the operands that a mnemonic
/// and the operands of its line stand for, or what the mnemonic takes
/// instead. Labels among the operands are used at `sl`.
pub fn parse_ins(s: &String, ops: &Vec<SourceOperand>, sym: &mut Symbols, sl: &SourceLocation) -> (r:
    Result<(u8, DataOperand), &'static str>)
    ensures
        final(sym)@ == spec_parse_ins(s@, operands(ops@), old(sym)@, sl@).0,
        matches_assembled(r, spec_parse_ins(s@, operands(ops@), old(sym)@, sl@).1),
{
    let ops = ops.as_slice();
    if is(s, "null") {
        plain(isa::NULL, ops)
    } else if is(s, "halt") {
        plain(isa::HALT, ops)
    } else if is(s, "ctf") {
        plain(isa::CTF, ops)
    } else if is(s, "reth") {
        plain(isa::RETH, ops)
    } else if is(s, "nop") {
        plain(isa::NOP, ops)
    } else if is(s, "syscall") {
        plain(isa::SYSCALL, ops)
    } else if is(s, "usr") {
        plain(isa::USR, ops)
    } else if is(s, "vmon") {
        plain(isa::VMON, ops)
    } else if is(s, "vmoff") {
        plain(isa::VMOFF, ops)
    } else if is(s, "push") {
        one_register(isa::PUSH_B, isa::PUSH_W, ops)
    } else if is(s, "pop") {
        one_register(isa::POP_B, isa::POP_W, ops)
    } else if is(s, "call") {
        to_address(isa::CALL, ops, sym, sl)
    } else if is(s, "ret") {
        ret(ops)
    } else if is(s, "store") || is(s, "str") {
        store(ops, sym, sl)
    } else if is(s, "load") {
        load(ops, sym, sl)
    } else if is(s, "jez") {
        to_address(isa::JEZ, ops, sym, sl)
    } else if is(s, "jlt") {
        to_address(isa::JLT, ops, sym, sl)
    } else if is(s, "jle") {
        to_address(isa::JLE, ops, sym, sl)
    } else if is(s, "jgt") {
        to_address(isa::JGT, ops, sym, sl)
    } else if is(s, "jge") {
        to_address(isa::JGE, ops, sym, sl)
    } else if is(s, "jnz") || is(s, "jne") {
        to_address(isa::JNZ, ops, sym, sl)
    } else if is(s, "jo") {
        to_address(isa::JO, ops, sym, sl)
    } else if is(s, "jno") {
        to_address(isa::JNO, ops, sym, sl)
    } else if is(s, "jb") || is(s, "jc") {
        to_address(isa::JB, ops, sym, sl)
    } else if is(s, "jae") || is(s, "jnc") {
        to_address(isa::JAE, ops, sym, sl)
    } else if is(s, "ja") {
        to_address(isa::JA, ops, sym, sl)
    } else if is(s, "jbe") {
        to_address(isa::JBE, ops, sym, sl)
    } else if is(s, "ldi") {
        ldi(ops, sym, sl)
    } else if is(s, "jmp") || is(s, "jump") {
        jmp(ops, sym, sl)
    } else if is(s, "add") {
        parse_binop(isa::ADD_B, isa::ADD_W, ops)
    } else if is(s, "sub") {
        parse_binop(isa::SUB_B, isa::SUB_W, ops)
    } else if is(s, "and") {
        parse_binop(isa::AND_B, isa::AND_W, ops)
    } else if is(s, "or") {
        parse_binop(isa::OR_B, isa::OR_W, ops)
    } else if is(s, "xor") {
        parse_binop(isa::XOR_B, isa::XOR_W, ops)
    } else if is(s, "shl") {
        parse_binop(isa::SHL_B, isa::SHL_W, ops)
    } else if is(s, "asr") {
        parse_binop(isa::ASR_B, isa::ASR_W, ops)
    } else if is(s, "lsr") {
        parse_binop(isa::LSR_B, isa::LSR_W, ops)
    } else if is(s, "mul") {
        four_registers(isa::MUL_B, isa::MUL_W, ops)
    } else if is(s, "div") {
        four_registers(isa::DIV_B, isa::DIV_W, ops)
    } else {
        Err("unknown instruction")
    }
}

} // verus!
