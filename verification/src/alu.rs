//! The arithmetic and logic unit: results and condition flags of the
//! two-operand operations, in both widths.
//!
//! Results are stated over the integers. A shift by the operand width or
//! more moves every bit out: left and logical right shifts give 0, an
//! arithmetic right shift gives the sign in every bit.

use crate::cpu::Flags;
use vstd::arithmetic::power2::{lemma2_to64, pow2};
use vstd::prelude::*;

verus! {

/// The two-operand operations.
#[derive(Clone, Copy, Debug, PartialEq, Eq, Structural)]
pub enum BinOp {
    Add,
    Sub,
    And,
    Or,
    Xor,
    /// Shift left.
    Shl,
    /// Arithmetic shift right: the sign bit is kept.
    Asr,
    /// Logical shift right: zeros move in.
    Lsr,
}

/// A byte read as a two's-complement number.
pub open spec fn signed8(a: u8) -> int {
    if a >= 0x80 {
        a - 0x100
    } else {
        a as int
    }
}

/// A wide value read as a two's-complement number.
pub open spec fn signed16(a: u16) -> int {
    if a >= 0x8000 {
        a - 0x1_0000
    } else {
        a as int
    }
}

/// The result of a byte operation.
pub open spec fn result_b(op: BinOp, a: u8, b: u8) -> u8 {
    match op {
        BinOp::Add => ((a + b) % 0x100) as u8,
        BinOp::Sub => ((a - b) % 0x100) as u8,
        BinOp::And => a & b,
        BinOp::Or => a | b,
        BinOp::Xor => a ^ b,
        BinOp::Shl => if b >= 8 {
            0
        } else {
            ((a * pow2(b as nat)) % 0x100) as u8
        },
        BinOp::Asr => if b >= 8 {
            if a >= 0x80 {
                0xff
            } else {
                0
            }
        } else {
            ((signed8(a) / (pow2(b as nat) as int)) % 0x100) as u8
        },
        BinOp::Lsr => if b >= 8 {
            0
        } else {
            (a as nat / pow2(b as nat)) as u8
        },
    }
}

/// The carry flag after a byte operation: the unsigned result did not fit.
pub open spec fn carry_b(op: BinOp, a: u8, b: u8) -> bool {
    match op {
        BinOp::Add => a + b > 0xff,
        BinOp::Sub => a - b < 0,
        _ => false,
    }
}

/// The overflow flag after a byte operation: the signed result did not fit.
pub open spec fn overflow_b(op: BinOp, a: u8, b: u8) -> bool {
    match op {
        BinOp::Add => !(-0x80 <= signed8(a) + signed8(b) <= 0x7f),
        BinOp::Sub => !(-0x80 <= signed8(a) - signed8(b) <= 0x7f),
        _ => false,
    }
}

/// The result of a wide operation.
pub open spec fn result_w(op: BinOp, a: u16, b: u16) -> u16 {
    match op {
        BinOp::Add => ((a + b) % 0x1_0000) as u16,
        BinOp::Sub => ((a - b) % 0x1_0000) as u16,
        BinOp::And => a & b,
        BinOp::Or => a | b,
        BinOp::Xor => a ^ b,
        BinOp::Shl => if b >= 16 {
            0
        } else {
            ((a * pow2(b as nat)) % 0x1_0000) as u16
        },
        BinOp::Asr => if b >= 16 {
            if a >= 0x8000 {
                0xffff
            } else {
                0
            }
        } else {
            ((signed16(a) / (pow2(b as nat) as int)) % 0x1_0000) as u16
        },
        BinOp::Lsr => if b >= 16 {
            0
        } else {
            (a as nat / pow2(b as nat)) as u16
        },
    }
}

/// The carry flag after a wide operation: the unsigned result did not fit.
pub open spec fn carry_w(op: BinOp, a: u16, b: u16) -> bool {
    match op {
        BinOp::Add => a + b > 0xffff,
        BinOp::Sub => a - b < 0,
        _ => false,
    }
}

/// The overflow flag after a wide operation: the signed result did not fit.
pub open spec fn overflow_w(op: BinOp, a: u16, b: u16) -> bool {
    match op {
        BinOp::Add => !(-0x8000 <= signed16(a) + signed16(b) <= 0x7fff),
        BinOp::Sub => !(-0x8000 <= signed16(a) - signed16(b) <= 0x7fff),
        _ => false,
    }
}

/// The flags with the four condition flags replaced; the mode bits stay.
pub open spec fn with_conditions(
    flags: Flags,
    zero: bool,
    sign: bool,
    carry: bool,
    overflow: bool,
) -> Flags {
    Flags { zero, sign, carry, overflow, ..flags }
}

/// The flags after a byte operation.
pub open spec fn flags_b(flags: Flags, op: BinOp, a: u8, b: u8) -> Flags {
    let res = result_b(op, a, b);
    with_conditions(flags, res == 0, res >= 0x80, carry_b(op, a, b), overflow_b(op, a, b))
}

/// The flags after a wide operation.
pub open spec fn flags_w(flags: Flags, op: BinOp, a: u16, b: u16) -> Flags {
    let res = result_w(op, a, b);
    with_conditions(flags, res == 0, res >= 0x8000, carry_w(op, a, b), overflow_w(op, a, b))
}

/// The upper half of the double-width product of two bytes.
pub open spec fn product_upper_b(a: u8, b: u8) -> u8 {
    ((a * b) / 0x100) as u8
}

/// The lower half of the double-width product of two bytes.
pub open spec fn product_lower_b(a: u8, b: u8) -> u8 {
    ((a * b) % 0x100) as u8
}

/// The upper half of the double-width product of two wide values.
pub open spec fn product_upper_w(a: u16, b: u16) -> u16 {
    ((a * b) / 0x1_0000) as u16
}

/// The lower half of the double-width product of two wide values.
pub open spec fn product_lower_w(a: u16, b: u16) -> u16 {
    ((a * b) % 0x1_0000) as u16
}

/// The flags after a byte multiplication: carry and overflow say that the
/// upper half is not 0, zero and sign describe the lower half.
pub open spec fn flags_mul_b(flags: Flags, a: u8, b: u8) -> Flags {
    let upper = product_upper_b(a, b);
    let lower = product_lower_b(a, b);
    with_conditions(flags, lower == 0, lower >= 0x80, upper != 0, upper != 0)
}

/// The flags after a wide multiplication.
pub open spec fn flags_mul_w(flags: Flags, a: u16, b: u16) -> Flags {
    let upper = product_upper_w(a, b);
    let lower = product_lower_w(a, b);
    with_conditions(flags, lower == 0, lower >= 0x8000, upper != 0, upper != 0)
}

/// Two to the power `n`, for a shift amount below sixteen.
fn power_of_two(n: u16) -> (p: u32)
    requires
        n < 16,
    ensures
        p == pow2(n as nat),
        1 <= p <= 0x8000,
        n < 8 ==> p <= 0x80,
{
    proof {
        lemma2_to64();
    }
    if n == 0 {
        1
    } else if n == 1 {
        2
    } else if n == 2 {
        4
    } else if n == 3 {
        8
    } else if n == 4 {
        0x10
    } else if n == 5 {
        0x20
    } else if n == 6 {
        0x40
    } else if n == 7 {
        0x80
    } else if n == 8 {
        0x100
    } else if n == 9 {
        0x200
    } else if n == 10 {
        0x400
    } else if n == 11 {
        0x800
    } else if n == 12 {
        0x1000
    } else if n == 13 {
        0x2000
    } else if n == 14 {
        0x4000
    } else {
        0x8000
    }
}

/// An arithmetic right shift of a negative byte, in unsigned terms. With
/// `a` the unsigned reading the number is `a - 256`; for a shift below the
/// width its floor quotient by a power of two `p`, taken modulo 256, is
/// `256 - 256 / p + a / p`.
proof fn lemma_shifted_quotient_b(a: int, n: nat)
    requires
        n < 8,
        0 <= a < 0x100,
    ensures
        ((a - 0x100) / (pow2(n) as int)) % 0x100 == 0x100 - 0x100int / (pow2(n) as int) + a / (
        pow2(n) as int),
        0 <= 0x100 - 0x100int / (pow2(n) as int) + a / (pow2(n) as int) < 0x100,
{
    lemma2_to64();
    if n == 0 {
        assert(((a - 0x100) / 1) % 0x100 == 0x100 - 0x100int / 1 + a / 1);
    } else if n == 1 {
        assert(((a - 0x100) / 2) % 0x100 == 0x100 - 0x100int / 2 + a / 2);
    } else if n == 2 {
        assert(((a - 0x100) / 4) % 0x100 == 0x100 - 0x100int / 4 + a / 4);
    } else if n == 3 {
        assert(((a - 0x100) / 8) % 0x100 == 0x100 - 0x100int / 8 + a / 8);
    } else if n == 4 {
        assert(((a - 0x100) / 0x10) % 0x100 == 0x100 - 0x100int / 0x10 + a / 0x10);
    } else if n == 5 {
        assert(((a - 0x100) / 0x20) % 0x100 == 0x100 - 0x100int / 0x20 + a / 0x20);
    } else if n == 6 {
        assert(((a - 0x100) / 0x40) % 0x100 == 0x100 - 0x100int / 0x40 + a / 0x40);
    } else {
        assert(((a - 0x100) / 0x80) % 0x100 == 0x100 - 0x100int / 0x80 + a / 0x80);
    }
}

/// An arithmetic right shift of a negative wide value, in unsigned terms:
/// as for bytes, with 65536 as the modulus.
proof fn lemma_shifted_quotient_w(a: int, n: nat)
    requires
        n < 16,
        0 <= a < 0x1_0000,
    ensures
        ((a - 0x1_0000) / (pow2(n) as int)) % 0x1_0000 == 0x1_0000 - 0x1_0000int / (pow2(n) as int)
            + a / (pow2(n) as int),
        0 <= 0x1_0000 - 0x1_0000int / (pow2(n) as int) + a / (pow2(n) as int) < 0x1_0000,
{
    lemma2_to64();
    if n == 0 {
        assert(((a - 0x1_0000) / 1) % 0x1_0000 == 0x1_0000 - 0x1_0000int / 1 + a / 1);
    } else if n == 1 {
        assert(((a - 0x1_0000) / 2) % 0x1_0000 == 0x1_0000 - 0x1_0000int / 2 + a / 2);
    } else if n == 2 {
        assert(((a - 0x1_0000) / 4) % 0x1_0000 == 0x1_0000 - 0x1_0000int / 4 + a / 4);
    } else if n == 3 {
        assert(((a - 0x1_0000) / 8) % 0x1_0000 == 0x1_0000 - 0x1_0000int / 8 + a / 8);
    } else if n == 4 {
        assert(((a - 0x1_0000) / 0x10) % 0x1_0000 == 0x1_0000 - 0x1_0000int / 0x10 + a / 0x10);
    } else if n == 5 {
        assert(((a - 0x1_0000) / 0x20) % 0x1_0000 == 0x1_0000 - 0x1_0000int / 0x20 + a / 0x20);
    } else if n == 6 {
        assert(((a - 0x1_0000) / 0x40) % 0x1_0000 == 0x1_0000 - 0x1_0000int / 0x40 + a / 0x40);
    } else if n == 7 {
        assert(((a - 0x1_0000) / 0x80) % 0x1_0000 == 0x1_0000 - 0x1_0000int / 0x80 + a / 0x80);
    } else if n == 8 {
        assert(((a - 0x1_0000) / 0x100) % 0x1_0000 == 0x1_0000 - 0x1_0000int / 0x100 + a / 0x100);
    } else if n == 9 {
        assert(((a - 0x1_0000) / 0x200) % 0x1_0000 == 0x1_0000 - 0x1_0000int / 0x200 + a / 0x200);
    } else if n == 10 {
        assert(((a - 0x1_0000) / 0x400) % 0x1_0000 == 0x1_0000 - 0x1_0000int / 0x400 + a / 0x400);
    } else if n == 11 {
        assert(((a - 0x1_0000) / 0x800) % 0x1_0000 == 0x1_0000 - 0x1_0000int / 0x800 + a / 0x800);
    } else if n == 12 {
        assert(((a - 0x1_0000) / 0x1000) % 0x1_0000 == 0x1_0000 - 0x1_0000int / 0x1000 + a / 0x1000);
    } else if n == 13 {
        assert(((a - 0x1_0000) / 0x2000) % 0x1_0000 == 0x1_0000 - 0x1_0000int / 0x2000 + a / 0x2000);
    } else if n == 14 {
        assert(((a - 0x1_0000) / 0x4000) % 0x1_0000 == 0x1_0000 - 0x1_0000int / 0x4000 + a / 0x4000);
    } else {
        assert(((a - 0x1_0000) / 0x8000) % 0x1_0000 == 0x1_0000 - 0x1_0000int / 0x8000 + a / 0x8000);
    }
}

/// Computes a byte operation: the result, the carry and the overflow.
pub fn alu_b(op: BinOp, a: u8, b: u8) -> (r: (u8, bool, bool))
    ensures
        r.0 == result_b(op, a, b),
        r.1 == carry_b(op, a, b),
        r.2 == overflow_b(op, a, b),
{
    let sa: i16 = if a >= 0x80 {
        a as i16 - 0x100
    } else {
        a as i16
    };
    let sb: i16 = if b >= 0x80 {
        b as i16 - 0x100
    } else {
        b as i16
    };
    match op {
        BinOp::Add => {
            let sum: u16 = a as u16 + b as u16;
            let ssum: i16 = sa + sb;
            ((sum % 0x100) as u8, sum > 0xff, ssum < -0x80 || ssum > 0x7f)
        },
        BinOp::Sub => {
            let diff: u16 = (0x100 + a as u16 - b as u16) % 0x100;
            let sdiff: i16 = sa - sb;
            (diff as u8, a < b, sdiff < -0x80 || sdiff > 0x7f)
        },
        BinOp::And => (a & b, false, false),
        BinOp::Or => (a | b, false, false),
        BinOp::Xor => (a ^ b, false, false),
        BinOp::Shl => {
            if b >= 8 {
                (0, false, false)
            } else {
                let p = power_of_two(b as u16);
                assert(a * p <= 0xff * 0x80) by (nonlinear_arith)
                    requires
                        a <= 0xff,
                        p <= 0x80,
                ;
                (((a as u32 * p) % 0x100) as u8, false, false)
            }
        },
        BinOp::Asr => {
            if b >= 8 {
                (
                    if a >= 0x80 {
                        0xff
                    } else {
                        0
                    },
                    false,
                    false,
                )
            } else {
                let p = power_of_two(b as u16);
                if a >= 0x80 {
                    proof {
                        lemma_shifted_quotient_b(a as int, b as nat);
                    }
                    ((0x100 - 0x100 / p + a as u32 / p) as u8, false, false)
                } else {
                    ((a as u32 / p) as u8, false, false)
                }
            }
        },
        BinOp::Lsr => {
            if b >= 8 {
                (0, false, false)
            } else {
                let p = power_of_two(b as u16);
                ((a as u32 / p) as u8, false, false)
            }
        },
    }
}

/// Computes a wide operation: the result, the carry and the overflow.
pub fn alu_w(op: BinOp, a: u16, b: u16) -> (r: (u16, bool, bool))
    ensures
        r.0 == result_w(op, a, b),
        r.1 == carry_w(op, a, b),
        r.2 == overflow_w(op, a, b),
{
    let sa: i32 = if a >= 0x8000 {
        a as i32 - 0x1_0000
    } else {
        a as i32
    };
    let sb: i32 = if b >= 0x8000 {
        b as i32 - 0x1_0000
    } else {
        b as i32
    };
    match op {
        BinOp::Add => {
            let sum: u32 = a as u32 + b as u32;
            let ssum: i32 = sa + sb;
            ((sum % 0x1_0000) as u16, sum > 0xffff, ssum < -0x8000 || ssum > 0x7fff)
        },
        BinOp::Sub => {
            let diff: u32 = (0x1_0000 + a as u32 - b as u32) % 0x1_0000;
            let sdiff: i32 = sa - sb;
            (diff as u16, a < b, sdiff < -0x8000 || sdiff > 0x7fff)
        },
        BinOp::And => (a & b, false, false),
        BinOp::Or => (a | b, false, false),
        BinOp::Xor => (a ^ b, false, false),
        BinOp::Shl => {
            if b >= 16 {
                (0, false, false)
            } else {
                let p = power_of_two(b);
                assert(a * p <= 0xffff * 0x8000) by (nonlinear_arith)
                    requires
                        a <= 0xffff,
                        p <= 0x8000,
                ;
                (((a as u32 * p) % 0x1_0000) as u16, false, false)
            }
        },
        BinOp::Asr => {
            if b >= 16 {
                (
                    if a >= 0x8000 {
                        0xffff
                    } else {
                        0
                    },
                    false,
                    false,
                )
            } else {
                let p = power_of_two(b);
                if a >= 0x8000 {
                    proof {
                        lemma_shifted_quotient_w(a as int, b as nat);
                    }
                    ((0x1_0000 - 0x1_0000 / p + a as u32 / p) as u16, false, false)
                } else {
                    ((a as u32 / p) as u16, false, false)
                }
            }
        },
        BinOp::Lsr => {
            if b >= 16 {
                (0, false, false)
            } else {
                let p = power_of_two(b);
                ((a as u32 / p) as u16, false, false)
            }
        },
    }
}

/// The double-width product of two bytes, as upper and lower half.
pub fn mul_halves_b(a: u8, b: u8) -> (r: (u8, u8))
    ensures
        r.0 == product_upper_b(a, b),
        r.1 == product_lower_b(a, b),
{
    assert(a * b <= 0xff * 0xff) by (nonlinear_arith)
        requires
            a <= 0xff,
            b <= 0xff,
    ;
    let product: u16 = a as u16 * b as u16;
    ((product / 0x100) as u8, (product % 0x100) as u8)
}

/// The double-width product of two wide values, as upper and lower half.
pub fn mul_halves_w(a: u16, b: u16) -> (r: (u16, u16))
    ensures
        r.0 == product_upper_w(a, b),
        r.1 == product_lower_w(a, b),
{
    assert(a * b <= 0xffff * 0xffff) by (nonlinear_arith)
        requires
            a <= 0xffff,
            b <= 0xffff,
    ;
    let product: u32 = a as u32 * b as u32;
    ((product / 0x1_0000) as u16, (product % 0x1_0000) as u16)
}

/// Flag laws of byte addition and subtraction: `zero` says the result is 0,
/// `sign` that its high bit is set, `carry` that the result differs from
/// the true unsigned sum or difference, `overflow` that it differs from the
/// true signed one. The mode bits stay.
pub proof fn lemma_flags_add_sub_b(f: Flags, a: u8, b: u8)
    ensures
        ({
            let r = result_b(BinOp::Add, a, b);
            let g = flags_b(f, BinOp::Add, a, b);
            &&& (g.zero <==> r == 0)
            &&& (g.sign <==> r >= 0x80)
            &&& (g.carry <==> a + b > 0xff)
            &&& (g.carry <==> r != a + b)
            &&& (g.overflow <==> signed8(r) != signed8(a) + signed8(b))
            &&& g.trap == f.trap && g.user_mode == f.user_mode && g.virtual_mode == f.virtual_mode
        }),
        ({
            let r = result_b(BinOp::Sub, a, b);
            let g = flags_b(f, BinOp::Sub, a, b);
            &&& (g.zero <==> r == 0)
            &&& (g.zero <==> a == b)
            &&& (g.sign <==> r >= 0x80)
            &&& (g.carry <==> a < b)
            &&& (g.carry <==> r != a - b)
            &&& (g.overflow <==> signed8(r) != signed8(a) - signed8(b))
            &&& g.trap == f.trap && g.user_mode == f.user_mode && g.virtual_mode == f.virtual_mode
        }),
{
}

/// Flag laws of wide addition and subtraction: as for bytes.
pub proof fn lemma_flags_add_sub_w(f: Flags, a: u16, b: u16)
    ensures
        ({
            let r = result_w(BinOp::Add, a, b);
            let g = flags_w(f, BinOp::Add, a, b);
            &&& (g.zero <==> r == 0)
            &&& (g.sign <==> r >= 0x8000)
            &&& (g.carry <==> a + b > 0xffff)
            &&& (g.carry <==> r != a + b)
            &&& (g.overflow <==> signed16(r) != signed16(a) + signed16(b))
            &&& g.trap == f.trap && g.user_mode == f.user_mode && g.virtual_mode == f.virtual_mode
        }),
        ({
            let r = result_w(BinOp::Sub, a, b);
            let g = flags_w(f, BinOp::Sub, a, b);
            &&& (g.zero <==> r == 0)
            &&& (g.zero <==> a == b)
            &&& (g.sign <==> r >= 0x8000)
            &&& (g.carry <==> a < b)
            &&& (g.carry <==> r != a - b)
            &&& (g.overflow <==> signed16(r) != signed16(a) - signed16(b))
            &&& g.trap == f.trap && g.user_mode == f.user_mode && g.virtual_mode == f.virtual_mode
        }),
{
}

/// Flag laws of the bitwise operations and the shifts: carry and overflow
/// are clear, `zero` and `sign` describe the result, the mode bits stay.
pub proof fn lemma_flags_logic(f: Flags, op: BinOp, a: u8, b: u8, x: u16, y: u16)
    requires
        op != BinOp::Add,
        op != BinOp::Sub,
    ensures
        !flags_b(f, op, a, b).carry,
        !flags_b(f, op, a, b).overflow,
        flags_b(f, op, a, b).zero <==> result_b(op, a, b) == 0,
        flags_b(f, op, a, b).sign <==> result_b(op, a, b) >= 0x80,
        !flags_w(f, op, x, y).carry,
        !flags_w(f, op, x, y).overflow,
        flags_w(f, op, x, y).zero <==> result_w(op, x, y) == 0,
        flags_w(f, op, x, y).sign <==> result_w(op, x, y) >= 0x8000,
        flags_b(f, op, a, b).trap == f.trap,
        flags_b(f, op, a, b).user_mode == f.user_mode,
        flags_b(f, op, a, b).virtual_mode == f.virtual_mode,
        flags_w(f, op, x, y).trap == f.trap,
        flags_w(f, op, x, y).user_mode == f.user_mode,
        flags_w(f, op, x, y).virtual_mode == f.virtual_mode,
{
}

/// The halves of a product make the product, and carry and overflow after
/// a multiplication say that it did not fit the lower half.
pub proof fn lemma_product_halves(f: Flags, a: u8, b: u8, x: u16, y: u16)
    ensures
        product_upper_b(a, b) * 0x100 + product_lower_b(a, b) == a * b,
        product_upper_w(x, y) * 0x1_0000 + product_lower_w(x, y) == x * y,
        flags_mul_b(f, a, b).carry <==> a * b > 0xff,
        flags_mul_b(f, a, b).overflow == flags_mul_b(f, a, b).carry,
        flags_mul_w(f, x, y).carry <==> x * y > 0xffff,
        flags_mul_w(f, x, y).overflow == flags_mul_w(f, x, y).carry,
{
    assert(0 <= a * b <= 0xff * 0xff) by (nonlinear_arith)
        requires
            0 <= a <= 0xff,
            0 <= b <= 0xff,
    ;
    assert(0 <= x * y <= 0xffff * 0xffff) by (nonlinear_arith)
        requires
            0 <= x <= 0xffff,
            0 <= y <= 0xffff,
    ;
}

} // verus!
