//! Big-R operands: a slot that holds a register or a small immediate.
//!
//! The slot is one value, a byte or a wide one. A value below sixteen is
//! the selector of a register. Any other value is an immediate, moved up by
//! fifteen; the immediate 0 is written as the zero register, which reads as
//! 0. So a byte slot holds immediates up to 240 and a wide slot immediates
//! up to 65520.
//!
//! The operand forms with such a slot stand here too, with their readers
//! and their writer: the registers beside the slot share one byte, which
//! goes before the slot.

use crate::registers::{
    lemma_byte_selector_round_trip, lemma_wide_selector_round_trip, BReg, WReg,
};
use crate::source::err::{Location, SourceLocation};
use crate::source::instruction::{
    as_byte, as_imm_byte, as_imm_wide, as_wide, operands, Operand, SourceOperand,
};
use crate::source::operand::{pair_byte, DataOperand, Wide};
use crate::source::symbols::{Entry, Symbols};
use vstd::prelude::*;

verus! {

/// A byte register or an eight-bit immediate.
#[derive(Debug, Copy, Clone, PartialEq, Eq, Structural)]
pub enum BBigR {
    Register(BReg),
    Byte(u8),
}

/// A wide register or a sixteen-bit immediate.
#[derive(Debug, Copy, Clone, PartialEq, Eq, Structural)]
pub enum WBigR {
    Register(WReg),
    Wide(Wide),
}


/// The byte that a byte slot holds, if the immediate fits.
pub open spec fn spec_big_r_to_byte(br: BBigR) -> Option<u8> {
    match br {
        BBigR::Register(r) => Some(r.selector() as u8),
        BBigR::Byte(b) => if b == 0 {
            Some(0)
        } else if b <= 240 {
            Some((b + 15) as u8)
        } else {
            None
        },
    }
}

/// The wide value that a wide slot holds, with `w` the value of the
/// immediate, if it fits.
pub open spec fn spec_big_r_value(wr: WBigR, w: u16) -> Option<u16> {
    match wr {
        WBigR::Register(r) => Some(r.selector() as u16),
        WBigR::Wide(_) => if w == 0 {
            Some(0)
        } else if w <= 65520 {
            Some((w + 15) as u16)
        } else {
            None
        },
    }
}

/// What a byte slot stands for. The immediate 0 comes back as the zero
/// register.
pub open spec fn spec_byte_to_big_r(b: u8) -> BBigR {
    if b < 16 {
        BBigR::Register(BReg::from_selector(b as nat))
    } else {
        BBigR::Byte((b - 15) as u8)
    }
}

/// What a wide slot stands for. The immediate 0 comes back as the zero
/// register.
pub open spec fn spec_wide_to_big_r(w: u16) -> WBigR {
    if w < 16 {
        WBigR::Register(WReg::from_selector(w as nat))
    } else {
        WBigR::Wide(Wide::Number((w - 15) as u16))
    }
}

/// The byte of a byte slot. An immediate above 240 does not fit.
pub fn big_r_to_byte(br: BBigR) -> (r: Result<u8, &'static str>)
    ensures
        match spec_big_r_to_byte(br) {
            Some(b) => r == Ok::<u8, &'static str>(b),
            None => r matches Err(e) && e@ == "immediate between 1-240"@,
        },
{
    match br {
        BBigR::Register(r) => Ok(r.nibble().get()),
        BBigR::Byte(b) => {
            if b == 0 {
                Ok(0)
            } else if b <= 240 {
                Ok(b + 15)
            } else {
                Err("immediate between 1-240")
            }
        },
    }
}

/// The two bytes of a wide slot, low byte first. A label in the slot is
/// resolved by `id_to_pos`. An immediate above 65520 does not fit.
pub fn big_r_to_wide<F: FnOnce(usize) -> u16>(wr: WBigR, id_to_pos: F) -> (r: Result<
    [u8; 2],
    &'static str,
>)
    requires
        forall|id: usize| call_requires(id_to_pos, (id,)),
    ensures
        exists|w: u16|
            {
                &&& match wr {
                    WBigR::Wide(Wide::Number(n)) => w == n,
                    WBigR::Wide(Wide::Label(l)) => call_ensures(id_to_pos, (l,), w),
                    WBigR::Register(_) => w == 0,
                }
                &&& match #[trigger] spec_big_r_value(wr, w) {
                    Some(v) => r matches Ok(bytes) && bytes@ == seq![
                        (v % 256) as u8,
                        (v / 256) as u8,
                    ],
                    None => r matches Err(e) && e@ == "immediate between 1-65520"@,
                }
            },
{
    let w: u16 = match wr {
        WBigR::Register(_) => 0,
        WBigR::Wide(Wide::Number(n)) => n,
        WBigR::Wide(Wide::Label(l)) => id_to_pos(l),
    };
    let r = wide_slot(wr, w);
    assert(spec_big_r_value(wr, w) == spec_big_r_value(wr, w));
    r
}

/// The two bytes of a wide slot, with `w` the value of its immediate.
pub fn wide_slot(wr: WBigR, w: u16) -> (r: Result<[u8; 2], &'static str>)
    ensures
        match spec_big_r_value(wr, w) {
            Some(v) => r matches Ok(bytes) && bytes@ == seq![(v % 256) as u8, (v / 256) as u8],
            None => r matches Err(e) && e@ == "immediate between 1-65520"@,
        },
{
    let v: u16 = match wr {
        WBigR::Register(r) => r.nibble().get() as u16,
        WBigR::Wide(_) => {
            if w == 0 {
                0
            } else if w <= 65520 {
                w + 15
            } else {
                return Err("immediate between 1-65520");
            }
        },
    };
    let bytes: [u8; 2] = [(v % 256) as u8, (v / 256) as u8];
    assert(bytes@ =~= seq![(v % 256) as u8, (v / 256) as u8]);
    Ok(bytes)
}

/// What a byte slot stands for.
pub fn byte_to_big_r(b: u8) -> (r: BBigR)
    ensures
        r == spec_byte_to_big_r(b),
{
    match crate::nibble::U4::new(b) {
        Some(n) => BBigR::Register(BReg::from_nibble(n)),
        None => BBigR::Byte(b - 15),
    }
}

/// What a wide slot stands for.
pub fn wide_to_big_r(w: u16) -> (r: WBigR)
    ensures
        r == spec_wide_to_big_r(w),
{
    if w < 16 {
        match crate::nibble::U4::new(w as u8) {
            Some(n) => WBigR::Register(WReg::from_nibble(n)),
            None => WBigR::Register(WReg::R0),
        }
    } else {
        WBigR::Wide(Wide::Number(w - 15))
    }
}

/// The big-R operand that a source operand stands for: a byte register, or
/// an eight-bit immediate.
pub open spec fn spec_byte_or_imm(op: Operand) -> Option<BBigR> {
    match as_byte(op) {
        Some(r) => Some(BBigR::Register(r)),
        None => match as_imm_byte(op) {
            Some(b) => Some(BBigR::Byte(b)),
            None => None,
        },
    }
}

/// The big-R operand that a source operand stands for: a wide register, or
/// a sixteen-bit immediate. A label is used at `at`.
pub open spec fn spec_wide_or_imm(op: Operand, table: Seq<Entry>, at: Location) -> (
    Seq<Entry>,
    Option<WBigR>,
) {
    match as_wide(op) {
        Some(r) => (table, Some(WBigR::Register(r))),
        None => {
            let (t, w) = as_imm_wide(op, table, at);
            match w {
                Some(w) => (t, Some(WBigR::Wide(w))),
                None => (t, None),
            }
        },
    }
}

/// Reads a source operand as a byte big-R operand.
pub fn byte_or_imm(op: &SourceOperand) -> (r: Option<BBigR>)
    ensures
        r == spec_byte_or_imm(op@),
{
    match DataOperand::byte(op) {
        Some(r) => Some(BBigR::Register(r)),
        None => match DataOperand::imm_byte(op) {
            Some(b) => Some(BBigR::Byte(b)),
            None => None,
        },
    }
}

/// Reads a source operand as a wide big-R operand; a label in it is used at
/// `sl`.
pub fn wide_or_imm(op: &SourceOperand, sym: &mut Symbols, sl: &SourceLocation) -> (r: Option<WBigR>)
    ensures
        (final(sym)@, r) == spec_wide_or_imm(op@, old(sym)@, sl@),
{
    match DataOperand::wide(op) {
        Some(r) => Some(WBigR::Register(r)),
        None => match DataOperand::imm_wide(op, sym, sl) {
            Some(w) => Some(WBigR::Wide(w)),
            None => None,
        },
    }
}

/// A slot gives back what was put into it: a register comes back as that
/// register and an immediate that fits as that immediate, but for 0, which
/// comes back as the zero register. And what a slot stands for is written
/// as that slot.
pub proof fn lemma_big_r_round_trip(br: BBigR, wr: WBigR, w: u16, b: u8, v: u16)
    ensures
        spec_big_r_to_byte(br) matches Some(x) ==> spec_byte_to_big_r(x) == match br {
            BBigR::Byte(0) => BBigR::Register(BReg::R0b),
            _ => br,
        },
        spec_big_r_value(wr, w) matches Some(x) ==> spec_wide_to_big_r(x) == match wr {
            WBigR::Register(r) => wr,
            WBigR::Wide(_) => if w == 0 {
                WBigR::Register(WReg::R0)
            } else {
                WBigR::Wide(Wide::Number(w))
            },
        },
        spec_big_r_to_byte(spec_byte_to_big_r(b)) == Some(b),
        spec_big_r_value(
            spec_wide_to_big_r(v),
            if v < 16 {
                0
            } else {
                (v - 15) as u16
            },
        ) == Some(v),
{
    match br {
        BBigR::Register(r) => lemma_byte_selector_round_trip(r, 0),
        BBigR::Byte(_) => lemma_byte_selector_round_trip(BReg::R0b, 0),
    }
    match wr {
        WBigR::Register(r) => lemma_wide_selector_round_trip(r, 0),
        WBigR::Wide(_) => lemma_wide_selector_round_trip(WReg::R0, 0),
    }
    lemma_byte_selector_round_trip(BReg::R0b, b as nat);
    lemma_wide_selector_round_trip(WReg::R0, v as nat);
    reveal(BReg::selector);
    reveal(WReg::selector);
    reveal(BReg::from_selector);
    reveal(WReg::from_selector);
}

/// A big-R slot of either width.
enum Slot {
    Byte(BBigR),
    Wide(WBigR),
}

/// The operands of an instruction that has a big-R slot.
#[derive(Debug, Copy, Clone, PartialEq, Eq, Structural)]
pub enum BigOperand {
    /// Exactly one operand, a byte big-R operand.
    ByteBigR(BBigR),
    /// Exactly one operand, a wide big-R operand.
    WideBigR(WBigR),
    /// Two byte registers and a byte big-R operand.
    TwoByteOneBig(BReg, BReg, BBigR),
    /// Two wide registers and a wide big-R operand.
    TwoWideOneBig(WReg, WReg, WBigR),
    /// A wide register, a wide big-R operand and a wide register.
    WideBigWide(WReg, WBigR, WReg),
    /// A byte register, a wide register and a wide big-R operand.
    ByteWideBig(BReg, WReg, WBigR),
    /// A wide register, a wide big-R operand and a byte register.
    WideBigByte(WReg, WBigR, BReg),
}

impl BigOperand {
    /// The number of bytes these operands take behind the opcode: a byte
    /// slot is one byte, a wide slot two, and the registers share one.
    pub open spec fn spec_size(self) -> nat {
        match self {
            BigOperand::ByteBigR(_) => 1,
            BigOperand::WideBigR(_) => 2,
            BigOperand::TwoByteOneBig(..) => 2,
            _ => 3,
        }
    }

    /// The number of bytes these operands take behind the opcode.
    pub fn size(&self) -> (n: u16)
        ensures
            n == self.spec_size(),
    {
        match self {
            BigOperand::ByteBigR(_) => 1,
            BigOperand::WideBigR(_) => 2,
            BigOperand::TwoByteOneBig(..) => 2,
            _ => 3,
        }
    }

    /// The wide slot of these operands, if they have one.
    pub open spec fn spec_wide_slot(self) -> Option<WBigR> {
        match self {
            BigOperand::WideBigR(wr) => Some(wr),
            BigOperand::TwoWideOneBig(_, _, wr) => Some(wr),
            BigOperand::WideBigWide(_, wr, _) => Some(wr),
            BigOperand::ByteWideBig(_, _, wr) => Some(wr),
            BigOperand::WideBigByte(_, wr, _) => Some(wr),
            _ => None,
        }
    }

    /// The byte that packs the registers of these operands, if they have
    /// registers beside the slot.
    pub open spec fn spec_register_byte(self) -> Option<u8> {
        match self {
            BigOperand::ByteBigR(_) => None,
            BigOperand::WideBigR(_) => None,
            BigOperand::TwoByteOneBig(a, b, _) => Some(pair_byte(a.selector(), b.selector())),
            BigOperand::TwoWideOneBig(a, b, _) => Some(pair_byte(a.selector(), b.selector())),
            BigOperand::WideBigWide(a, _, b) => Some(pair_byte(a.selector(), b.selector())),
            BigOperand::ByteWideBig(a, b, _) => Some(pair_byte(a.selector(), b.selector())),
            BigOperand::WideBigByte(a, _, b) => Some(pair_byte(a.selector(), b.selector())),
        }
    }

    /// The bytes of the slot, with `w` the value of a wide immediate in
    /// it, if what the slot holds fits.
    pub open spec fn spec_slot_bytes(self, w: u16) -> Option<Seq<u8>> {
        match self {
            BigOperand::ByteBigR(br) => match spec_big_r_to_byte(br) {
                Some(b) => Some(seq![b]),
                None => None,
            },
            BigOperand::TwoByteOneBig(_, _, br) => match spec_big_r_to_byte(br) {
                Some(b) => Some(seq![b]),
                None => None,
            },
            _ => match self.spec_wide_slot() {
                Some(wr) => match spec_big_r_value(wr, w) {
                    Some(v) => Some(seq![(v % 256) as u8, (v / 256) as u8]),
                    None => None,
                },
                None => None,
            },
        }
    }

    /// The bytes written for these operands, with `w` the value of a wide
    /// immediate in the slot, and whether the slot fit: the register byte,
    /// if there is one, then the slot. Where the slot does not fit, the
    /// register byte has been written.
    pub open spec fn spec_written(self, w: u16) -> (Seq<u8>, bool) {
        let front = match self.spec_register_byte() {
            Some(b) => seq![b],
            None => Seq::empty(),
        };
        match self.spec_slot_bytes(w) {
            Some(slot) => (front + slot, true),
            None => (front, false),
        }
    }

    /// Appends the bytes of these operands to `mem`, with `w` the value
    /// of a wide immediate in the slot. Where the slot does not fit, the
    /// register byte is appended all the same.
    pub fn write(&self, mem: &mut Vec<u8>, w: u16) -> (r: Result<(), &'static str>)
        ensures
            final(mem)@ == old(mem)@ + self.spec_written(w).0,
            r is Ok <==> self.spec_written(w).1,
    {
        let front: Option<u8> = match self {
            BigOperand::ByteBigR(_) => None,
            BigOperand::WideBigR(_) => None,
            BigOperand::TwoByteOneBig(a, b, _) => Some(a.nibble().pair(b.nibble())),
            BigOperand::TwoWideOneBig(a, b, _) => Some(a.nibble().pair(b.nibble())),
            BigOperand::WideBigWide(a, _, b) => Some(a.nibble().pair(b.nibble())),
            BigOperand::ByteWideBig(a, b, _) => Some(a.nibble().pair(b.nibble())),
            BigOperand::WideBigByte(a, _, b) => Some(a.nibble().pair(b.nibble())),
        };
        if let Some(b) = front {
            mem.push(b);
        }
        let ghost with_front = mem@;
        assert(with_front =~= old(mem)@ + match self.spec_register_byte() {
            Some(b) => seq![b],
            None => Seq::<u8>::empty(),
        });
        let slot = match self {
            BigOperand::ByteBigR(br) => Slot::Byte(*br),
            BigOperand::TwoByteOneBig(_, _, br) => Slot::Byte(*br),
            BigOperand::WideBigR(wr) => Slot::Wide(*wr),
            BigOperand::TwoWideOneBig(_, _, wr) => Slot::Wide(*wr),
            BigOperand::WideBigWide(_, wr, _) => Slot::Wide(*wr),
            BigOperand::ByteWideBig(_, _, wr) => Slot::Wide(*wr),
            BigOperand::WideBigByte(_, wr, _) => Slot::Wide(*wr),
        };
        match slot {
            Slot::Byte(br) => {
                match big_r_to_byte(br) {
                    Ok(b) => {
                        mem.push(b);
                        assert(mem@ =~= old(mem)@ + self.spec_written(w).0);
                        Ok(())
                    },
                    Err(e) => {
                        assert(mem@ =~= old(mem)@ + self.spec_written(w).0);
                        Err(e)
                    },
                }
            },
            Slot::Wide(wr) => {
                match wide_slot(wr, w) {
                    Ok(bytes) => {
                        mem.push(bytes[0]);
                        mem.push(bytes[1]);
                        assert(mem@ =~= old(mem)@ + self.spec_written(w).0);
                        Ok(())
                    },
                    Err(e) => {
                        assert(mem@ =~= old(mem)@ + self.spec_written(w).0);
                        Err(e)
                    },
                }
            },
        }
    }
}

/// Exactly one operand, a byte big-R operand.
pub open spec fn spec_parse_b_big_r(ops: Seq<Operand>) -> Option<BigOperand> {
    if ops.len() <= 0 {
        None
    } else {
        match spec_byte_or_imm(ops[0]) {
            None => None,
            Some(v0) => {
                if ops.len() != 1 {
                    None
                } else {
                    Some(BigOperand::ByteBigR(v0))
                }
            },
        }
    }
}

/// Exactly one operand, a wide big-R operand.
pub open spec fn spec_parse_w_big_r(ops: Seq<Operand>, table: Seq<Entry>, at: Location) -> (
    Seq<Entry>,
    Option<BigOperand>,
) {
    if ops.len() <= 0 {
        (table, None)
    } else {
        let (t0, w0) = spec_wide_or_imm(ops[0], table, at);
        match w0 {
            None => (t0, None),
            Some(v0) => {
                if ops.len() != 1 {
                    (t0, None)
                } else {
                    (t0, Some(BigOperand::WideBigR(v0)))
                }
            },
        }
    }
}

/// Two byte registers and a byte big-R operand. Any further operands are ignored.
pub open spec fn spec_parse_two_byte_one_big(ops: Seq<Operand>) -> Option<BigOperand> {
    if ops.len() <= 0 {
        None
    } else {
        match as_byte(ops[0]) {
            None => None,
            Some(v0) => {
                if ops.len() <= 1 {
                    None
                } else {
                    match as_byte(ops[1]) {
                        None => None,
                        Some(v1) => {
                            if ops.len() <= 2 {
                                None
                            } else {
                                match spec_byte_or_imm(ops[2]) {
                                    None => None,
                                    Some(v2) => {
                                        Some(BigOperand::TwoByteOneBig(v0, v1, v2))
                                    },
                                }
                            }
                        },
                    }
                }
            },
        }
    }
}

/// Two wide registers and a wide big-R operand. Any further operands are ignored.
pub open spec fn spec_parse_two_wide_one_big(ops: Seq<Operand>, table: Seq<Entry>, at: Location) -> (
    Seq<Entry>,
    Option<BigOperand>,
) {
    if ops.len() <= 0 {
        (table, None)
    } else {
        match as_wide(ops[0]) {
            None => (table, None),
            Some(v0) => {
                if ops.len() <= 1 {
                    (table, None)
                } else {
                    match as_wide(ops[1]) {
                        None => (table, None),
                        Some(v1) => {
                            if ops.len() <= 2 {
                                (table, None)
                            } else {
                                let (t2, w2) = spec_wide_or_imm(ops[2], table, at);
                                match w2 {
                                    None => (t2, None),
                                    Some(v2) => {
                                        (t2, Some(BigOperand::TwoWideOneBig(v0, v1, v2)))
                                    },
                                }
                            }
                        },
                    }
                }
            },
        }
    }
}

/// A wide register, a wide big-R operand and a wide register. Any further operands are ignored.
pub open spec fn spec_parse_wide_big_wide(ops: Seq<Operand>, table: Seq<Entry>, at: Location) -> (
    Seq<Entry>,
    Option<BigOperand>,
) {
    if ops.len() <= 0 {
        (table, None)
    } else {
        match as_wide(ops[0]) {
            None => (table, None),
            Some(v0) => {
                if ops.len() <= 1 {
                    (table, None)
                } else {
                    let (t1, w1) = spec_wide_or_imm(ops[1], table, at);
                    match w1 {
                        None => (t1, None),
                        Some(v1) => {
                            if ops.len() <= 2 {
                                (t1, None)
                            } else {
                                match as_wide(ops[2]) {
                                    None => (t1, None),
                                    Some(v2) => {
                                        (t1, Some(BigOperand::WideBigWide(v0, v1, v2)))
                                    },
                                }
                            }
                        },
                    }
                }
            },
        }
    }
}

/// A byte register, a wide register and a wide big-R operand. Any further operands are ignored.
pub open spec fn spec_parse_byte_wide_big(ops: Seq<Operand>, table: Seq<Entry>, at: Location) -> (
    Seq<Entry>,
    Option<BigOperand>,
) {
    if ops.len() <= 0 {
        (table, None)
    } else {
        match as_byte(ops[0]) {
            None => (table, None),
            Some(v0) => {
                if ops.len() <= 1 {
                    (table, None)
                } else {
                    match as_wide(ops[1]) {
                        None => (table, None),
                        Some(v1) => {
                            if ops.len() <= 2 {
                                (table, None)
                            } else {
                                let (t2, w2) = spec_wide_or_imm(ops[2], table, at);
                                match w2 {
                                    None => (t2, None),
                                    Some(v2) => {
                                        (t2, Some(BigOperand::ByteWideBig(v0, v1, v2)))
                                    },
                                }
                            }
                        },
                    }
                }
            },
        }
    }
}

/// A wide register, a wide big-R operand and a byte register. Any further operands are ignored.
pub open spec fn spec_parse_wide_big_byte(ops: Seq<Operand>, table: Seq<Entry>, at: Location) -> (
    Seq<Entry>,
    Option<BigOperand>,
) {
    if ops.len() <= 0 {
        (table, None)
    } else {
        match as_wide(ops[0]) {
            None => (table, None),
            Some(v0) => {
                if ops.len() <= 1 {
                    (table, None)
                } else {
                    let (t1, w1) = spec_wide_or_imm(ops[1], table, at);
                    match w1 {
                        None => (t1, None),
                        Some(v1) => {
                            if ops.len() <= 2 {
                                (t1, None)
                            } else {
                                match as_byte(ops[2]) {
                                    None => (t1, None),
                                    Some(v2) => {
                                        (t1, Some(BigOperand::WideBigByte(v0, v1, v2)))
                                    },
                                }
                            }
                        },
                    }
                }
            },
        }
    }
}

/// Exactly one operand, a byte big-R operand.
pub fn parse_b_big_r(ops: &[SourceOperand]) -> (r: Option<BigOperand>)
    ensures
        r == spec_parse_b_big_r(operands(ops@)),
{
    if ops.len() <= 0 {
        return None;
    }
    let v0 = byte_or_imm(&ops[0])?;
    if ops.len() != 1 {
        return None;
    }
    Some(BigOperand::ByteBigR(v0))
}

/// Exactly one operand, a wide big-R operand.
pub fn parse_w_big_r(ops: &[SourceOperand], sym: &mut Symbols, sl: &SourceLocation) -> (r: Option<
    BigOperand,
>)
    ensures
        (final(sym)@, r) == spec_parse_w_big_r(operands(ops@), old(sym)@, sl@),
{
    if ops.len() <= 0 {
        return None;
    }
    let v0 = wide_or_imm(&ops[0], sym, sl)?;
    if ops.len() != 1 {
        return None;
    }
    Some(BigOperand::WideBigR(v0))
}

/// Two byte registers and a byte big-R operand. Any further operands are ignored.
pub fn parse_two_byte_one_big(ops: &[SourceOperand]) -> (r: Option<BigOperand>)
    ensures
        r == spec_parse_two_byte_one_big(operands(ops@)),
{
    if ops.len() <= 0 {
        return None;
    }
    let v0 = DataOperand::byte(&ops[0])?;
    if ops.len() <= 1 {
        return None;
    }
    let v1 = DataOperand::byte(&ops[1])?;
    if ops.len() <= 2 {
        return None;
    }
    let v2 = byte_or_imm(&ops[2])?;
    Some(BigOperand::TwoByteOneBig(v0, v1, v2))
}

/// Two wide registers and a wide big-R operand. Any further operands are ignored.
pub fn parse_two_wide_one_big(ops: &[SourceOperand], sym: &mut Symbols, sl: &SourceLocation) -> (r: Option<
    BigOperand,
>)
    ensures
        (final(sym)@, r) == spec_parse_two_wide_one_big(operands(ops@), old(sym)@, sl@),
{
    if ops.len() <= 0 {
        return None;
    }
    let v0 = DataOperand::wide(&ops[0])?;
    if ops.len() <= 1 {
        return None;
    }
    let v1 = DataOperand::wide(&ops[1])?;
    if ops.len() <= 2 {
        return None;
    }
    let v2 = wide_or_imm(&ops[2], sym, sl)?;
    Some(BigOperand::TwoWideOneBig(v0, v1, v2))
}

/// A wide register, a wide big-R operand and a wide register. Any further operands are ignored.
pub fn parse_wide_big_wide(ops: &[SourceOperand], sym: &mut Symbols, sl: &SourceLocation) -> (r: Option<
    BigOperand,
>)
    ensures
        (final(sym)@, r) == spec_parse_wide_big_wide(operands(ops@), old(sym)@, sl@),
{
    if ops.len() <= 0 {
        return None;
    }
    let v0 = DataOperand::wide(&ops[0])?;
    if ops.len() <= 1 {
        return None;
    }
    let v1 = wide_or_imm(&ops[1], sym, sl)?;
    if ops.len() <= 2 {
        return None;
    }
    let v2 = DataOperand::wide(&ops[2])?;
    Some(BigOperand::WideBigWide(v0, v1, v2))
}

/// A byte register, a wide register and a wide big-R operand. Any further operands are ignored.
pub fn parse_byte_wide_big(ops: &[SourceOperand], sym: &mut Symbols, sl: &SourceLocation) -> (r: Option<
    BigOperand,
>)
    ensures
        (final(sym)@, r) == spec_parse_byte_wide_big(operands(ops@), old(sym)@, sl@),
{
    if ops.len() <= 0 {
        return None;
    }
    let v0 = DataOperand::byte(&ops[0])?;
    if ops.len() <= 1 {
        return None;
    }
    let v1 = DataOperand::wide(&ops[1])?;
    if ops.len() <= 2 {
        return None;
    }
    let v2 = wide_or_imm(&ops[2], sym, sl)?;
    Some(BigOperand::ByteWideBig(v0, v1, v2))
}

/// A wide register, a wide big-R operand and a byte register. Any further operands are ignored.
pub fn parse_wide_big_byte(ops: &[SourceOperand], sym: &mut Symbols, sl: &SourceLocation) -> (r: Option<
    BigOperand,
>)
    ensures
        (final(sym)@, r) == spec_parse_wide_big_byte(operands(ops@), old(sym)@, sl@),
{
    if ops.len() <= 0 {
        return None;
    }
    let v0 = DataOperand::wide(&ops[0])?;
    if ops.len() <= 1 {
        return None;
    }
    let v1 = wide_or_imm(&ops[1], sym, sl)?;
    if ops.len() <= 2 {
        return None;
    }
    let v2 = DataOperand::byte(&ops[2])?;
    Some(BigOperand::WideBigByte(v0, v1, v2))
}

} // verus!
