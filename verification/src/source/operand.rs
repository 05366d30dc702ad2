//! Operands of an instruction, their byte layout, and the way back from
//! bytes to operands.
//!
//! An operand byte packs two register selectors, high nibble first; an
//! unused low nibble is zero. Immediates follow the register bytes, wide
//! ones low byte first.

use crate::image::SegmentType;
use crate::nibble::U4;
use crate::registers::{BReg, WReg};
use vstd::prelude::*;

verus! {

/// A sixteen-bit immediate: a number, or a label by its id, to be resolved
/// when bytes are emitted.
#[derive(Debug, Copy, Clone, PartialEq, Eq, Structural)]
pub enum Wide {
    Number(u16),
    Label(usize),
}

/// Where a label is used: the segment, and the position in the emitted
/// bytes at which its address goes.
#[derive(Debug, Copy, Clone, PartialEq, Eq, Structural)]
pub struct LabelRead {
    pub segment: SegmentType,
    pub position: u16,
}

/// The operands of one instruction.
#[derive(Debug, Copy, Clone, PartialEq, Eq, Structural)]
pub enum DataOperand {
    /// No operand.
    Nothing,
    /// One byte register.
    ByteRegister(BReg),
    /// One wide register.
    WideRegister(WReg),
    /// An eight-bit immediate.
    ImmediateByte(u8),
    /// A sixteen-bit immediate.
    ImmediateWide(Wide),
    /// A byte register and an eight-bit immediate.
    ByteImm(BReg, u8),
    /// A wide register and a sixteen-bit immediate.
    WideImm(WReg, Wide),
    /// A wide register, a sixteen-bit immediate and a byte register.
    WideImmByte(WReg, Wide, BReg),
    /// A wide register, a sixteen-bit immediate and a wide register.
    WideImmWide(WReg, Wide, WReg),
    /// Two wide registers and a byte register.
    TwoWideOneByte(WReg, WReg, BReg),
    /// A byte register, a wide register and a sixteen-bit immediate.
    ByteWideImm(BReg, WReg, Wide),
    /// Two wide registers and a sixteen-bit immediate.
    TwoWideImm(WReg, WReg, Wide),
    /// A byte register and two wide registers.
    ByteTwoWide(BReg, WReg, WReg),
    /// Three byte registers.
    ThreeByte(BReg, BReg, BReg),
    /// Three wide registers.
    ThreeWide(WReg, WReg, WReg),
    /// Four byte registers.
    FourByte(BReg, BReg, BReg, BReg),
    /// Four wide registers.
    FourWide(WReg, WReg, WReg, WReg),
}

/// The shape of an operand: which registers and immediates it holds.
#[derive(Debug, Copy, Clone, PartialEq, Eq, Structural)]
pub enum Shape {
    Nothing,
    ByteRegister,
    WideRegister,
    ImmediateByte,
    ImmediateWide,
    ByteImm,
    WideImm,
    WideImmByte,
    WideImmWide,
    TwoWideOneByte,
    ByteWideImm,
    TwoWideImm,
    ByteTwoWide,
    ThreeByte,
    ThreeWide,
    FourByte,
    FourWide,
}

/// The operand byte with the given selectors in its high and low nibble.
pub open spec fn pair_byte(high: nat, low: nat) -> u8 {
    (high * 16 + low) as u8
}

impl Shape {
    /// The number of operand bytes that follow the opcode.
    pub open spec fn spec_size(self) -> nat {
        match self {
            Shape::Nothing => 0,
            Shape::ByteRegister => 1,
            Shape::WideRegister => 1,
            Shape::ImmediateByte => 1,
            Shape::ImmediateWide => 2,
            Shape::ByteImm => 2,
            Shape::WideImm => 3,
            Shape::WideImmByte => 3,
            Shape::WideImmWide => 3,
            Shape::TwoWideOneByte => 2,
            Shape::ByteWideImm => 3,
            Shape::TwoWideImm => 3,
            Shape::ByteTwoWide => 2,
            Shape::ThreeByte => 2,
            Shape::ThreeWide => 2,
            Shape::FourByte => 2,
            Shape::FourWide => 2,
        }
    }

    /// The number of operand bytes that follow the opcode.
    pub fn size(self) -> (n: u16)
        ensures
            n == self.spec_size(),
    {
        match self {
            Shape::Nothing => 0,
            Shape::ByteRegister => 1,
            Shape::WideRegister => 1,
            Shape::ImmediateByte => 1,
            Shape::ImmediateWide => 2,
            Shape::ByteImm => 2,
            Shape::WideImm => 3,
            Shape::WideImmByte => 3,
            Shape::WideImmWide => 3,
            Shape::TwoWideOneByte => 2,
            Shape::ByteWideImm => 3,
            Shape::TwoWideImm => 3,
            Shape::ByteTwoWide => 2,
            Shape::ThreeByte => 2,
            Shape::ThreeWide => 2,
            Shape::FourByte => 2,
            Shape::FourWide => 2,
        }
    }
}

impl DataOperand {
    /// The shape of this operand.
    pub open spec fn spec_shape(&self) -> Shape {
        match self {
            DataOperand::Nothing => Shape::Nothing,
            DataOperand::ByteRegister(..) => Shape::ByteRegister,
            DataOperand::WideRegister(..) => Shape::WideRegister,
            DataOperand::ImmediateByte(..) => Shape::ImmediateByte,
            DataOperand::ImmediateWide(..) => Shape::ImmediateWide,
            DataOperand::ByteImm(..) => Shape::ByteImm,
            DataOperand::WideImm(..) => Shape::WideImm,
            DataOperand::WideImmByte(..) => Shape::WideImmByte,
            DataOperand::WideImmWide(..) => Shape::WideImmWide,
            DataOperand::TwoWideOneByte(..) => Shape::TwoWideOneByte,
            DataOperand::ByteWideImm(..) => Shape::ByteWideImm,
            DataOperand::TwoWideImm(..) => Shape::TwoWideImm,
            DataOperand::ByteTwoWide(..) => Shape::ByteTwoWide,
            DataOperand::ThreeByte(..) => Shape::ThreeByte,
            DataOperand::ThreeWide(..) => Shape::ThreeWide,
            DataOperand::FourByte(..) => Shape::FourByte,
            DataOperand::FourWide(..) => Shape::FourWide,
        }
    }

    /// The shape of this operand.
    #[verifier::when_used_as_spec(spec_shape)]
    pub fn shape(&self) -> (s: Shape)
        ensures
            s == self.spec_shape(),
    {
        match self {
            DataOperand::Nothing => Shape::Nothing,
            DataOperand::ByteRegister(..) => Shape::ByteRegister,
            DataOperand::WideRegister(..) => Shape::WideRegister,
            DataOperand::ImmediateByte(..) => Shape::ImmediateByte,
            DataOperand::ImmediateWide(..) => Shape::ImmediateWide,
            DataOperand::ByteImm(..) => Shape::ByteImm,
            DataOperand::WideImm(..) => Shape::WideImm,
            DataOperand::WideImmByte(..) => Shape::WideImmByte,
            DataOperand::WideImmWide(..) => Shape::WideImmWide,
            DataOperand::TwoWideOneByte(..) => Shape::TwoWideOneByte,
            DataOperand::ByteWideImm(..) => Shape::ByteWideImm,
            DataOperand::TwoWideImm(..) => Shape::TwoWideImm,
            DataOperand::ByteTwoWide(..) => Shape::ByteTwoWide,
            DataOperand::ThreeByte(..) => Shape::ThreeByte,
            DataOperand::ThreeWide(..) => Shape::ThreeWide,
            DataOperand::FourByte(..) => Shape::FourByte,
            DataOperand::FourWide(..) => Shape::FourWide,
        }
    }

    /// The number of bytes this operand takes behind the opcode.
    pub open spec fn spec_size(self) -> nat {
        self.spec_shape().spec_size()
    }

    /// The number of bytes this operand takes behind the opcode.
    pub fn size(&self) -> (n: u16)
        ensures
            n == self.spec_size(),
            n <= 3,
    {
        self.shape().size()
    }

    /// The sixteen-bit immediate of this operand, if it has one.
    pub open spec fn spec_immediate(&self) -> Option<Wide> {
        match self {
            DataOperand::ImmediateWide(w) => Some(*w),
            DataOperand::WideImm(_, w) => Some(*w),
            DataOperand::WideImmByte(_, w, _) => Some(*w),
            DataOperand::WideImmWide(_, w, _) => Some(*w),
            DataOperand::ByteWideImm(_, _, w) => Some(*w),
            DataOperand::TwoWideImm(_, _, w) => Some(*w),
            _ => None,
        }
    }

    /// The sixteen-bit immediate of this operand, if it has one.
    #[verifier::when_used_as_spec(spec_immediate)]
    pub fn immediate(&self) -> (w: Option<Wide>)
        ensures
            w == self.spec_immediate(),
    {
        match self {
            DataOperand::ImmediateWide(w) => Some(*w),
            DataOperand::WideImm(_, w) => Some(*w),
            DataOperand::WideImmByte(_, w, _) => Some(*w),
            DataOperand::WideImmWide(_, w, _) => Some(*w),
            DataOperand::ByteWideImm(_, _, w) => Some(*w),
            DataOperand::TwoWideImm(_, _, w) => Some(*w),
            _ => None,
        }
    }

    /// This operand with its sixteen-bit immediate, if it has one, replaced
    /// by the number `w`.
    pub open spec fn resolved(self, w: u16) -> DataOperand {
        match self {
            DataOperand::ImmediateWide(_) => DataOperand::ImmediateWide(Wide::Number(w)),
            DataOperand::WideImm(f0, _) => DataOperand::WideImm(f0, Wide::Number(w)),
            DataOperand::WideImmByte(f0, _, f2) => DataOperand::WideImmByte(
                f0,
                Wide::Number(w),
                f2,
            ),
            DataOperand::WideImmWide(f0, _, f2) => DataOperand::WideImmWide(
                f0,
                Wide::Number(w),
                f2,
            ),
            DataOperand::ByteWideImm(f0, f1, _) => DataOperand::ByteWideImm(
                f0,
                f1,
                Wide::Number(w),
            ),
            DataOperand::TwoWideImm(f0, f1, _) => DataOperand::TwoWideImm(f0, f1, Wide::Number(w)),
            _ => self,
        }
    }

    /// The bytes of this operand, with `w` the value of its sixteen-bit
    /// immediate, if it has one.
    pub open spec fn bytes(self, w: u16) -> Seq<u8> {
        match self {
            DataOperand::Nothing => Seq::empty(),
            DataOperand::ByteRegister(f0) => seq![pair_byte(f0.selector(), 0)],
            DataOperand::WideRegister(f0) => seq![pair_byte(f0.selector(), 0)],
            DataOperand::ImmediateByte(f0) => seq![f0],
            DataOperand::ImmediateWide(_) => seq![(w % 256) as u8, (w / 256) as u8],
            DataOperand::ByteImm(f0, f1) => seq![pair_byte(f0.selector(), 0), f1],
            DataOperand::WideImm(f0, _) => seq![
                pair_byte(f0.selector(), 0),
                (w % 256) as u8,
                (w / 256) as u8,
            ],
            DataOperand::WideImmByte(f0, _, f2) => seq![
                pair_byte(f0.selector(), f2.selector()),
                (w % 256) as u8,
                (w / 256) as u8,
            ],
            DataOperand::WideImmWide(f0, _, f2) => seq![
                pair_byte(f0.selector(), f2.selector()),
                (w % 256) as u8,
                (w / 256) as u8,
            ],
            DataOperand::TwoWideOneByte(f0, f1, f2) => seq![
                pair_byte(f0.selector(), f1.selector()),
                pair_byte(f2.selector(), 0),
            ],
            DataOperand::ByteWideImm(f0, f1, _) => seq![
                pair_byte(f0.selector(), f1.selector()),
                (w % 256) as u8,
                (w / 256) as u8,
            ],
            DataOperand::TwoWideImm(f0, f1, _) => seq![
                pair_byte(f0.selector(), f1.selector()),
                (w % 256) as u8,
                (w / 256) as u8,
            ],
            DataOperand::ByteTwoWide(f0, f1, f2) => seq![
                pair_byte(f0.selector(), f1.selector()),
                pair_byte(f2.selector(), 0),
            ],
            DataOperand::ThreeByte(f0, f1, f2) => seq![
                pair_byte(f0.selector(), f1.selector()),
                pair_byte(f2.selector(), 0),
            ],
            DataOperand::ThreeWide(f0, f1, f2) => seq![
                pair_byte(f0.selector(), f1.selector()),
                pair_byte(f2.selector(), 0),
            ],
            DataOperand::FourByte(f0, f1, f2, f3) => seq![
                pair_byte(f0.selector(), f1.selector()),
                pair_byte(f2.selector(), f3.selector()),
            ],
            DataOperand::FourWide(f0, f1, f2, f3) => seq![
                pair_byte(f0.selector(), f1.selector()),
                pair_byte(f2.selector(), f3.selector()),
            ],
        }
    }

    /// Appends the bytes of this operand to `mem`, with `w` the value of
    /// its sixteen-bit immediate.
    pub fn encode(&self, mem: &mut Vec<u8>, w: u16)
        ensures
            final(mem)@ == old(mem)@ + self.bytes(w),
    {
        match self {
            DataOperand::Nothing => {
            },
            DataOperand::ByteRegister(f0) => {
                mem.push(f0.nibble().pair(U4::zero()));
            },
            DataOperand::WideRegister(f0) => {
                mem.push(f0.nibble().pair(U4::zero()));
            },
            DataOperand::ImmediateByte(f0) => {
                mem.push(*f0);
            },
            DataOperand::ImmediateWide(_) => {
                mem.push((w % 256) as u8);
                mem.push((w / 256) as u8);
            },
            DataOperand::ByteImm(f0, f1) => {
                mem.push(f0.nibble().pair(U4::zero()));
                mem.push(*f1);
            },
            DataOperand::WideImm(f0, _) => {
                mem.push(f0.nibble().pair(U4::zero()));
                mem.push((w % 256) as u8);
                mem.push((w / 256) as u8);
            },
            DataOperand::WideImmByte(f0, _, f2) => {
                mem.push(f0.nibble().pair(f2.nibble()));
                mem.push((w % 256) as u8);
                mem.push((w / 256) as u8);
            },
            DataOperand::WideImmWide(f0, _, f2) => {
                mem.push(f0.nibble().pair(f2.nibble()));
                mem.push((w % 256) as u8);
                mem.push((w / 256) as u8);
            },
            DataOperand::TwoWideOneByte(f0, f1, f2) => {
                mem.push(f0.nibble().pair(f1.nibble()));
                mem.push(f2.nibble().pair(U4::zero()));
            },
            DataOperand::ByteWideImm(f0, f1, _) => {
                mem.push(f0.nibble().pair(f1.nibble()));
                mem.push((w % 256) as u8);
                mem.push((w / 256) as u8);
            },
            DataOperand::TwoWideImm(f0, f1, _) => {
                mem.push(f0.nibble().pair(f1.nibble()));
                mem.push((w % 256) as u8);
                mem.push((w / 256) as u8);
            },
            DataOperand::ByteTwoWide(f0, f1, f2) => {
                mem.push(f0.nibble().pair(f1.nibble()));
                mem.push(f2.nibble().pair(U4::zero()));
            },
            DataOperand::ThreeByte(f0, f1, f2) => {
                mem.push(f0.nibble().pair(f1.nibble()));
                mem.push(f2.nibble().pair(U4::zero()));
            },
            DataOperand::ThreeWide(f0, f1, f2) => {
                mem.push(f0.nibble().pair(f1.nibble()));
                mem.push(f2.nibble().pair(U4::zero()));
            },
            DataOperand::FourByte(f0, f1, f2, f3) => {
                mem.push(f0.nibble().pair(f1.nibble()));
                mem.push(f2.nibble().pair(f3.nibble()));
            },
            DataOperand::FourWide(f0, f1, f2, f3) => {
                mem.push(f0.nibble().pair(f1.nibble()));
                mem.push(f2.nibble().pair(f3.nibble()));
            },
        }
        assert(mem@ =~= old(mem)@ + self.bytes(w));
    }

    /// The operand of the given shape that a run of bytes starts with.
    /// There is none where the run is too short or a nibble that has to be
    /// zero is not. A sixteen-bit immediate comes back as a number.
    pub open spec fn spec_decode(shape: Shape, b: Seq<u8>) -> Option<DataOperand> {
        if b.len() < shape.spec_size() {
            None
        } else {
            match shape {
                Shape::Nothing => Some(DataOperand::Nothing),
                Shape::ByteRegister => if b[0] % 16 != 0 {
                    None
                } else {
                    Some(DataOperand::ByteRegister(BReg::from_selector(b[0] as nat / 16)))
                },
                Shape::WideRegister => if b[0] % 16 != 0 {
                    None
                } else {
                    Some(DataOperand::WideRegister(WReg::from_selector(b[0] as nat / 16)))
                },
                Shape::ImmediateByte => Some(DataOperand::ImmediateByte(b[0])),
                Shape::ImmediateWide => Some(
                    DataOperand::ImmediateWide(Wide::Number((b[0] + 256 * b[1]) as u16)),
                ),
                Shape::ByteImm => if b[0] % 16 != 0 {
                    None
                } else {
                    Some(DataOperand::ByteImm(BReg::from_selector(b[0] as nat / 16), b[1]))
                },
                Shape::WideImm => if b[0] % 16 != 0 {
                    None
                } else {
                    Some(
                        DataOperand::WideImm(
                            WReg::from_selector(b[0] as nat / 16),
                            Wide::Number((b[1] + 256 * b[2]) as u16),
                        ),
                    )
                },
                Shape::WideImmByte => Some(
                    DataOperand::WideImmByte(
                        WReg::from_selector(b[0] as nat / 16),
                        Wide::Number((b[1] + 256 * b[2]) as u16),
                        BReg::from_selector(b[0] as nat % 16),
                    ),
                ),
                Shape::WideImmWide => Some(
                    DataOperand::WideImmWide(
                        WReg::from_selector(b[0] as nat / 16),
                        Wide::Number((b[1] + 256 * b[2]) as u16),
                        WReg::from_selector(b[0] as nat % 16),
                    ),
                ),
                Shape::TwoWideOneByte => if b[1] % 16 != 0 {
                    None
                } else {
                    Some(
                        DataOperand::TwoWideOneByte(
                            WReg::from_selector(b[0] as nat / 16),
                            WReg::from_selector(b[0] as nat % 16),
                            BReg::from_selector(b[1] as nat / 16),
                        ),
                    )
                },
                Shape::ByteWideImm => Some(
                    DataOperand::ByteWideImm(
                        BReg::from_selector(b[0] as nat / 16),
                        WReg::from_selector(b[0] as nat % 16),
                        Wide::Number((b[1] + 256 * b[2]) as u16),
                    ),
                ),
                Shape::TwoWideImm => Some(
                    DataOperand::TwoWideImm(
                        WReg::from_selector(b[0] as nat / 16),
                        WReg::from_selector(b[0] as nat % 16),
                        Wide::Number((b[1] + 256 * b[2]) as u16),
                    ),
                ),
                Shape::ByteTwoWide => if b[1] % 16 != 0 {
                    None
                } else {
                    Some(
                        DataOperand::ByteTwoWide(
                            BReg::from_selector(b[0] as nat / 16),
                            WReg::from_selector(b[0] as nat % 16),
                            WReg::from_selector(b[1] as nat / 16),
                        ),
                    )
                },
                Shape::ThreeByte => if b[1] % 16 != 0 {
                    None
                } else {
                    Some(
                        DataOperand::ThreeByte(
                            BReg::from_selector(b[0] as nat / 16),
                            BReg::from_selector(b[0] as nat % 16),
                            BReg::from_selector(b[1] as nat / 16),
                        ),
                    )
                },
                Shape::ThreeWide => if b[1] % 16 != 0 {
                    None
                } else {
                    Some(
                        DataOperand::ThreeWide(
                            WReg::from_selector(b[0] as nat / 16),
                            WReg::from_selector(b[0] as nat % 16),
                            WReg::from_selector(b[1] as nat / 16),
                        ),
                    )
                },
                Shape::FourByte => Some(
                    DataOperand::FourByte(
                        BReg::from_selector(b[0] as nat / 16),
                        BReg::from_selector(b[0] as nat % 16),
                        BReg::from_selector(b[1] as nat / 16),
                        BReg::from_selector(b[1] as nat % 16),
                    ),
                ),
                Shape::FourWide => Some(
                    DataOperand::FourWide(
                        WReg::from_selector(b[0] as nat / 16),
                        WReg::from_selector(b[0] as nat % 16),
                        WReg::from_selector(b[1] as nat / 16),
                        WReg::from_selector(b[1] as nat % 16),
                    ),
                ),
            }
        }
    }

    /// Decodes the operand of the given shape at the start of `b`.
    pub fn decode(shape: Shape, b: &[u8]) -> (op: Option<DataOperand>)
        ensures
            op == DataOperand::spec_decode(shape, b@),
    {
        let len = b.len();
        if len < shape.size() as usize {
            return None;
        }
        let b0: u8 = if len > 0 {
            b[0]
        } else {
            0
        };
        let b1: u8 = if len > 1 {
            b[1]
        } else {
            0
        };
        let b2: u8 = if len > 2 {
            b[2]
        } else {
            0
        };
        match shape {
            Shape::Nothing => Some(DataOperand::Nothing),
            Shape::ByteRegister => if b0 % 16 != 0 {
                None
            } else {
                Some(DataOperand::ByteRegister(high_byte_register(b0)))
            },
            Shape::WideRegister => if b0 % 16 != 0 {
                None
            } else {
                Some(DataOperand::WideRegister(high_wide_register(b0)))
            },
            Shape::ImmediateByte => Some(DataOperand::ImmediateByte(b0)),
            Shape::ImmediateWide => Some(
                DataOperand::ImmediateWide(Wide::Number(b0 as u16 + 256 * (b1 as u16))),
            ),
            Shape::ByteImm => if b0 % 16 != 0 {
                None
            } else {
                Some(DataOperand::ByteImm(high_byte_register(b0), b1))
            },
            Shape::WideImm => if b0 % 16 != 0 {
                None
            } else {
                Some(
                    DataOperand::WideImm(
                        high_wide_register(b0),
                        Wide::Number(b1 as u16 + 256 * (b2 as u16)),
                    ),
                )
            },
            Shape::WideImmByte => Some(
                DataOperand::WideImmByte(
                    high_wide_register(b0),
                    Wide::Number(b1 as u16 + 256 * (b2 as u16)),
                    low_byte_register(b0),
                ),
            ),
            Shape::WideImmWide => Some(
                DataOperand::WideImmWide(
                    high_wide_register(b0),
                    Wide::Number(b1 as u16 + 256 * (b2 as u16)),
                    low_wide_register(b0),
                ),
            ),
            Shape::TwoWideOneByte => if b1 % 16 != 0 {
                None
            } else {
                Some(
                    DataOperand::TwoWideOneByte(
                        high_wide_register(b0),
                        low_wide_register(b0),
                        high_byte_register(b1),
                    ),
                )
            },
            Shape::ByteWideImm => Some(
                DataOperand::ByteWideImm(
                    high_byte_register(b0),
                    low_wide_register(b0),
                    Wide::Number(b1 as u16 + 256 * (b2 as u16)),
                ),
            ),
            Shape::TwoWideImm => Some(
                DataOperand::TwoWideImm(
                    high_wide_register(b0),
                    low_wide_register(b0),
                    Wide::Number(b1 as u16 + 256 * (b2 as u16)),
                ),
            ),
            Shape::ByteTwoWide => if b1 % 16 != 0 {
                None
            } else {
                Some(
                    DataOperand::ByteTwoWide(
                        high_byte_register(b0),
                        low_wide_register(b0),
                        high_wide_register(b1),
                    ),
                )
            },
            Shape::ThreeByte => if b1 % 16 != 0 {
                None
            } else {
                Some(
                    DataOperand::ThreeByte(
                        high_byte_register(b0),
                        low_byte_register(b0),
                        high_byte_register(b1),
                    ),
                )
            },
            Shape::ThreeWide => if b1 % 16 != 0 {
                None
            } else {
                Some(
                    DataOperand::ThreeWide(
                        high_wide_register(b0),
                        low_wide_register(b0),
                        high_wide_register(b1),
                    ),
                )
            },
            Shape::FourByte => Some(
                DataOperand::FourByte(
                    high_byte_register(b0),
                    low_byte_register(b0),
                    high_byte_register(b1),
                    low_byte_register(b1),
                ),
            ),
            Shape::FourWide => Some(
                DataOperand::FourWide(
                    high_wide_register(b0),
                    low_wide_register(b0),
                    high_wide_register(b1),
                    low_wide_register(b1),
                ),
            ),
        }
    }
}

fn high_byte_register(b: u8) -> (r: BReg)
    ensures
        r == BReg::from_selector(b as nat / 16),
{
    BReg::from_nibble(U4::paired(b).0)
}

fn low_byte_register(b: u8) -> (r: BReg)
    ensures
        r == BReg::from_selector(b as nat % 16),
{
    BReg::from_nibble(U4::paired(b).1)
}

fn high_wide_register(b: u8) -> (r: WReg)
    ensures
        r == WReg::from_selector(b as nat / 16),
{
    WReg::from_nibble(U4::paired(b).0)
}

fn low_wide_register(b: u8) -> (r: WReg)
    ensures
        r == WReg::from_selector(b as nat % 16),
{
    WReg::from_nibble(U4::paired(b).1)
}

/// The value a sixteen-bit immediate stands for: a number is itself, and a
/// label is what `read_label` gives for its id and the place of use.
pub fn parse_wide<F: FnOnce(usize, LabelRead) -> u16>(
    w: Wide,
    read_label: F,
    segment: SegmentType,
    position: u16,
) -> (value: u16)
    requires
        forall|id: usize, at: LabelRead| call_requires(read_label, (id, at)),
    ensures
        match w {
            Wide::Number(n) => value == n,
            Wide::Label(l) => call_ensures(read_label, (l, LabelRead { segment, position }), value),
        },
{
    match w {
        Wide::Label(l) => read_label(l, LabelRead { segment, position }),
        Wide::Number(n) => n,
    }
}

/// The position in the emitted bytes at which the sixteen-bit immediate of
/// an operand goes, when the operand is written behind `len` bytes: behind
/// its register byte, if it has one. Positions are taken modulo 65536.
pub open spec fn immediate_position(op: DataOperand, len: nat) -> u16 {
    if op is ImmediateWide {
        (len % 0x1_0000) as u16
    } else {
        ((len + 1) % 0x1_0000) as u16
    }
}

/// Appends the bytes of an operand to `mem`. A label in the operand is
/// resolved by `read_label`, which is told the segment and the position at
/// which the address goes; a number stands for itself. Always succeeds.
pub fn write_data_operand<F: FnOnce(usize, LabelRead) -> u16>(
    st: SegmentType,
    mem: &mut Vec<u8>,
    read_label: F,
    dat_op: DataOperand,
) -> (res: Result<(), &'static str>)
    requires
        forall|id: usize, at: LabelRead| call_requires(read_label, (id, at)),
    ensures
        res is Ok,
        match dat_op.spec_immediate() {
            None => final(mem)@ == old(mem)@ + dat_op.bytes(0),
            Some(Wide::Number(n)) => final(mem)@ == old(mem)@ + dat_op.bytes(n),
            Some(Wide::Label(l)) => exists|value: u16|
                call_ensures(
                    read_label,
                    (
                        l,
                        LabelRead {
                            segment: st,
                            position: immediate_position(dat_op, old(mem)@.len()),
                        },
                    ),
                    value,
                ) && final(mem)@ == old(mem)@ + dat_op.bytes(value),
        },
{
    let value = match dat_op.immediate() {
        None => 0,
        Some(w) => {
            let at = match dat_op {
                DataOperand::ImmediateWide(_) => mem.len() % 0x1_0000,
                _ => (mem.len() % 0x1_0000 + 1) % 0x1_0000,
            };
            parse_wide(w, read_label, st, at as u16)
        },
    };
    dat_op.encode(mem, value);
    Ok(())
}

/// The bytes of a selector pair, split again.
proof fn lemma_pair_split(high: nat, low: nat)
    requires
        high < 16,
        low < 16,
    ensures
        pair_byte(high, low) as nat / 16 == high,
        pair_byte(high, low) as nat % 16 == low,
{
}

/// A register packed with a zero nibble is read back from the high nibble,
/// and the low nibble is zero.
pub proof fn lemma_pair_byte_zero(a: BReg)
    ensures
        BReg::from_selector(pair_byte(a.selector(), 0) as nat / 16) == a,
        pair_byte(a.selector(), 0) % 16 == 0,
{
    crate::registers::lemma_byte_selector_round_trip(a, 0);
    lemma_pair_split(a.selector(), 0);
}

/// A byte with a zero low nibble is packed again from the register in its
/// high nibble.
proof fn lemma_split_byte_zero(x: u8)
    requires
        x % 16 == 0,
    ensures
        pair_byte(BReg::from_selector(x as nat / 16).selector(), 0) == x,
{
    crate::registers::lemma_byte_selector_round_trip(BReg::from_selector(0), x as nat / 16);
}

/// Two registers packed into a byte are read back from its nibbles.
pub proof fn lemma_pair_byte_byte(a: BReg, b: BReg)
    ensures
        BReg::from_selector(pair_byte(a.selector(), b.selector()) as nat / 16) == a,
        BReg::from_selector(pair_byte(a.selector(), b.selector()) as nat % 16) == b,
{
    crate::registers::lemma_byte_selector_round_trip(a, 0);
    crate::registers::lemma_byte_selector_round_trip(b, 0);
    lemma_pair_split(a.selector(), b.selector());
}

/// A byte is packed again from the registers in its nibbles.
proof fn lemma_split_byte_byte(x: u8)
    ensures
        pair_byte(
            BReg::from_selector(x as nat / 16).selector(),
            BReg::from_selector(x as nat % 16).selector(),
        ) == x,
{
    crate::registers::lemma_byte_selector_round_trip(BReg::from_selector(0), x as nat / 16);
    crate::registers::lemma_byte_selector_round_trip(BReg::from_selector(0), x as nat % 16);
}

/// Two registers packed into a byte are read back from its nibbles.
pub proof fn lemma_pair_byte_wide(a: BReg, b: WReg)
    ensures
        BReg::from_selector(pair_byte(a.selector(), b.selector()) as nat / 16) == a,
        WReg::from_selector(pair_byte(a.selector(), b.selector()) as nat % 16) == b,
{
    crate::registers::lemma_byte_selector_round_trip(a, 0);
    crate::registers::lemma_wide_selector_round_trip(b, 0);
    lemma_pair_split(a.selector(), b.selector());
}

/// A byte is packed again from the registers in its nibbles.
proof fn lemma_split_byte_wide(x: u8)
    ensures
        pair_byte(
            BReg::from_selector(x as nat / 16).selector(),
            WReg::from_selector(x as nat % 16).selector(),
        ) == x,
{
    crate::registers::lemma_byte_selector_round_trip(BReg::from_selector(0), x as nat / 16);
    crate::registers::lemma_wide_selector_round_trip(WReg::from_selector(0), x as nat % 16);
}

/// A register packed with a zero nibble is read back from the high nibble,
/// and the low nibble is zero.
pub proof fn lemma_pair_wide_zero(a: WReg)
    ensures
        WReg::from_selector(pair_byte(a.selector(), 0) as nat / 16) == a,
        pair_byte(a.selector(), 0) % 16 == 0,
{
    crate::registers::lemma_wide_selector_round_trip(a, 0);
    lemma_pair_split(a.selector(), 0);
}

/// A byte with a zero low nibble is packed again from the register in its
/// high nibble.
proof fn lemma_split_wide_zero(x: u8)
    requires
        x % 16 == 0,
    ensures
        pair_byte(WReg::from_selector(x as nat / 16).selector(), 0) == x,
{
    crate::registers::lemma_wide_selector_round_trip(WReg::from_selector(0), x as nat / 16);
}

/// Two registers packed into a byte are read back from its nibbles.
pub proof fn lemma_pair_wide_byte(a: WReg, b: BReg)
    ensures
        WReg::from_selector(pair_byte(a.selector(), b.selector()) as nat / 16) == a,
        BReg::from_selector(pair_byte(a.selector(), b.selector()) as nat % 16) == b,
{
    crate::registers::lemma_wide_selector_round_trip(a, 0);
    crate::registers::lemma_byte_selector_round_trip(b, 0);
    lemma_pair_split(a.selector(), b.selector());
}

/// A byte is packed again from the registers in its nibbles.
proof fn lemma_split_wide_byte(x: u8)
    ensures
        pair_byte(
            WReg::from_selector(x as nat / 16).selector(),
            BReg::from_selector(x as nat % 16).selector(),
        ) == x,
{
    crate::registers::lemma_wide_selector_round_trip(WReg::from_selector(0), x as nat / 16);
    crate::registers::lemma_byte_selector_round_trip(BReg::from_selector(0), x as nat % 16);
}

/// Two registers packed into a byte are read back from its nibbles.
pub proof fn lemma_pair_wide_wide(a: WReg, b: WReg)
    ensures
        WReg::from_selector(pair_byte(a.selector(), b.selector()) as nat / 16) == a,
        WReg::from_selector(pair_byte(a.selector(), b.selector()) as nat % 16) == b,
{
    crate::registers::lemma_wide_selector_round_trip(a, 0);
    crate::registers::lemma_wide_selector_round_trip(b, 0);
    lemma_pair_split(a.selector(), b.selector());
}

/// A byte is packed again from the registers in its nibbles.
proof fn lemma_split_wide_wide(x: u8)
    ensures
        pair_byte(
            WReg::from_selector(x as nat / 16).selector(),
            WReg::from_selector(x as nat % 16).selector(),
        ) == x,
{
    crate::registers::lemma_wide_selector_round_trip(WReg::from_selector(0), x as nat / 16);
    crate::registers::lemma_wide_selector_round_trip(WReg::from_selector(0), x as nat % 16);
}

/// Round trip, from operands. The bytes of an operand are as many as its
/// size says, and decoding them, whatever follows them, gives the operand
/// back, with its immediate as the number that was written.
pub proof fn lemma_encode_then_decode(op: DataOperand, w: u16, rest: Seq<u8>)
    ensures
        op.bytes(w).len() == op.spec_size(),
        DataOperand::spec_decode(op.spec_shape(), op.bytes(w) + rest) == Some(op.resolved(w)),
{
    let all = op.bytes(w) + rest;
    assert(forall|i: int| 0 <= i < op.bytes(w).len() ==> all[i] == op.bytes(w)[i]);
    match op {
        DataOperand::Nothing => {
        },
        DataOperand::ByteRegister(f0) => {
                lemma_pair_byte_zero(f0);
        },
        DataOperand::WideRegister(f0) => {
                lemma_pair_wide_zero(f0);
        },
        DataOperand::ImmediateByte(f0) => {
        },
        DataOperand::ImmediateWide(f0) => {
        },
        DataOperand::ByteImm(f0, f1) => {
                lemma_pair_byte_zero(f0);
        },
        DataOperand::WideImm(f0, f1) => {
                lemma_pair_wide_zero(f0);
        },
        DataOperand::WideImmByte(f0, f1, f2) => {
                lemma_pair_wide_byte(f0, f2);
        },
        DataOperand::WideImmWide(f0, f1, f2) => {
                lemma_pair_wide_wide(f0, f2);
        },
        DataOperand::TwoWideOneByte(f0, f1, f2) => {
                lemma_pair_wide_wide(f0, f1);
                lemma_pair_byte_zero(f2);
        },
        DataOperand::ByteWideImm(f0, f1, f2) => {
                lemma_pair_byte_wide(f0, f1);
        },
        DataOperand::TwoWideImm(f0, f1, f2) => {
                lemma_pair_wide_wide(f0, f1);
        },
        DataOperand::ByteTwoWide(f0, f1, f2) => {
                lemma_pair_byte_wide(f0, f1);
                lemma_pair_wide_zero(f2);
        },
        DataOperand::ThreeByte(f0, f1, f2) => {
                lemma_pair_byte_byte(f0, f1);
                lemma_pair_byte_zero(f2);
        },
        DataOperand::ThreeWide(f0, f1, f2) => {
                lemma_pair_wide_wide(f0, f1);
                lemma_pair_wide_zero(f2);
        },
        DataOperand::FourByte(f0, f1, f2, f3) => {
                lemma_pair_byte_byte(f0, f1);
                lemma_pair_byte_byte(f2, f3);
        },
        DataOperand::FourWide(f0, f1, f2, f3) => {
                lemma_pair_wide_wide(f0, f1);
                lemma_pair_wide_wide(f2, f3);
        },
    }
}

/// Round trip, from bytes. Where a run of bytes decodes, the operand has
/// the shape asked for, its immediate is a number, and encoding it gives
/// the bytes that were decoded.
pub proof fn lemma_decode_then_encode(shape: Shape, b: Seq<u8>)
    requires
        DataOperand::spec_decode(shape, b) is Some,
    ensures
        ({
            let d = DataOperand::spec_decode(shape, b)->Some_0;
            &&& d.spec_shape() == shape
            &&& match d.spec_immediate() {
                None => d.bytes(0) == b.subrange(0, shape.spec_size() as int),
                Some(Wide::Number(n)) => d.bytes(n) == b.subrange(0, shape.spec_size() as int),
                Some(Wide::Label(_)) => false,
            }
        }),
{
    let d = DataOperand::spec_decode(shape, b)->Some_0;
    let n = match d.spec_immediate() {
        Some(Wide::Number(n)) => n,
        _ => 0,
    };
    match shape {
        Shape::Nothing => {
        },
        Shape::ByteRegister => {
            lemma_split_byte_zero(b[0]);
        },
        Shape::WideRegister => {
            lemma_split_wide_zero(b[0]);
        },
        Shape::ImmediateByte => {
        },
        Shape::ImmediateWide => {
        },
        Shape::ByteImm => {
            lemma_split_byte_zero(b[0]);
        },
        Shape::WideImm => {
            lemma_split_wide_zero(b[0]);
        },
        Shape::WideImmByte => {
            lemma_split_wide_byte(b[0]);
        },
        Shape::WideImmWide => {
            lemma_split_wide_wide(b[0]);
        },
        Shape::TwoWideOneByte => {
            lemma_split_wide_wide(b[0]);
            lemma_split_byte_zero(b[1]);
        },
        Shape::ByteWideImm => {
            lemma_split_byte_wide(b[0]);
        },
        Shape::TwoWideImm => {
            lemma_split_wide_wide(b[0]);
        },
        Shape::ByteTwoWide => {
            lemma_split_byte_wide(b[0]);
            lemma_split_wide_zero(b[1]);
        },
        Shape::ThreeByte => {
            lemma_split_byte_byte(b[0]);
            lemma_split_byte_zero(b[1]);
        },
        Shape::ThreeWide => {
            lemma_split_wide_wide(b[0]);
            lemma_split_wide_zero(b[1]);
        },
        Shape::FourByte => {
            lemma_split_byte_byte(b[0]);
            lemma_split_byte_byte(b[1]);
        },
        Shape::FourWide => {
            lemma_split_wide_wide(b[0]);
            lemma_split_wide_wide(b[1]);
        },
    }
    assert(d.bytes(n) =~= b.subrange(0, shape.spec_size() as int));
}

} // verus!
