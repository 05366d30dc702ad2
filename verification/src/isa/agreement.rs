//! The engine executes what the assembler writes.
//!
//! The laws here follow an instruction from its operands to its effect: the
//! bytes that the encoder gives for it, read from the instruction stream,
//! make the engine do what the instruction says.

use crate::alu::{flags_b, flags_w, result_b, result_w, BinOp};
use crate::context::{wrap16, State};
use crate::cpu::{Cpu, OpRes, TrapMode};
use crate::engine::{spec_step, Step};
use crate::isa::handlers::{
    lemma_reads_what_was_encoded, spec_arg_b0, spec_arg_bb, spec_arg_imm_wide, spec_arg_w0,
    spec_arg_wn, spec_arg_ww, spec_binop_b, spec_binop_w, spec_ldi_w,
};
use crate::isa::{
    spec_dispatch, ADD_B, ADD_W, AND_B, AND_W, ASR_B, ASR_W, LDI_W, LSR_B, LSR_W, OR_B, OR_W,
    SHL_B, SHL_W, SUB_B, SUB_W, XOR_B, XOR_W,
};
use crate::registers::{lemma_wide_selector_round_trip, BReg, WReg};
use crate::source::operand::{pair_byte, DataOperand, Wide};
use vstd::prelude::*;

verus! {

/// Whether byte `i` of `bytes` is in the instruction stream, `i` places
/// behind the program counter: the place lies inside the text bounds and
/// is read without a fault.
pub open spec fn holds(s: State, bytes: Seq<u8>, i: int) -> bool {
    let at = wrap16(s.cpu.program_counter + i);
    &&& s.cpu.text_start <= at <= s.cpu.text_last
    &&& s.read(at) == Ok::<u8, TrapMode>(bytes[i])
}

/// Whether the instruction stream holds `bytes` from the program counter
/// on.
pub open spec fn stream(s: State, bytes: Seq<u8>) -> bool {
    forall|i: int| 0 <= i < bytes.len() ==> #[trigger] holds(s, bytes, i)
}

/// The state with the program counter moved on by `n`, wrapping.
pub open spec fn advanced(s: State, n: int) -> State {
    s.with_cpu(s.cpu.with_pc(wrap16(s.cpu.program_counter + n)))
}

/// Behind `k` bytes of a stream a fetch gives the next one and moves on by
/// one.
pub proof fn lemma_fetch(s: State, bytes: Seq<u8>, k: int)
    requires
        stream(s, bytes),
        0 <= k < bytes.len(),
    ensures
        advanced(s, k).fetch() == (advanced(s, k + 1), Ok::<u8, TrapMode>(bytes[k])),
        advanced(s, k).mem == s.mem,
        advanced(s, 0) == s,
{
    assert(holds(s, bytes, k));
    let here = advanced(s, k);
    let at = wrap16(s.cpu.program_counter + k);
    assert(here.read(at) == s.read(at));
    assert(wrap16(at + 1) == wrap16(s.cpu.program_counter + k + 1));
}

/// The opcode of a two-operand operation, by its width.
pub open spec fn binop_opcode(op: BinOp, wide: bool) -> u8 {
    match op {
        BinOp::Add => if wide { ADD_W } else { ADD_B },
        BinOp::Sub => if wide { SUB_W } else { SUB_B },
        BinOp::And => if wide { AND_W } else { AND_B },
        BinOp::Or => if wide { OR_W } else { OR_B },
        BinOp::Xor => if wide { XOR_W } else { XOR_B },
        BinOp::Shl => if wide { SHL_W } else { SHL_B },
        BinOp::Asr => if wide { ASR_W } else { ASR_B },
        BinOp::Lsr => if wide { LSR_W } else { LSR_B },
    }
}

/// The opcode of an operation is dispatched to the operation.
proof fn lemma_dispatch_binop(s: State, op: BinOp)
    ensures
        spec_dispatch(binop_opcode(op, true), s) == spec_binop_w(s, op),
        spec_dispatch(binop_opcode(op, false), s) == spec_binop_b(s, op),
        spec_dispatch(LDI_W, s) == spec_ldi_w(s),
{
    reveal(spec_dispatch);
}

/// A wide operation runs as written. Where the instruction stream holds
/// the opcode of the operation and the bytes that the encoder gives for
/// three wide registers, and the registers may be read and written, the
/// step retires: the program counter is behind the three bytes, the flags
/// are those of the operation on the second and third register, and the
/// first register holds the result.
pub proof fn lemma_wide_operation_runs(s: State, op: BinOp, d: WReg, a: WReg, b: WReg)
    requires
        stream(s, seq![binop_opcode(op, true)] + DataOperand::ThreeWide(d, a, b).bytes(0)),
        advanced(s, 3).cpu.read_fault(a) is None,
        advanced(s, 3).cpu.read_fault(b) is None,
        advanced(s, 3).cpu.write_fault(d) is None,
    ensures
        ({
            let c = advanced(s, 3).cpu;
            let x = c.wide(a);
            let y = c.wide(b);
            spec_step(s) == (
                s.with_cpu(
                    c.with_flags(flags_w(c.flags, op, x, y)).with_wide(d, result_w(op, x, y)),
                ),
                Step::Retired,
            )
        }),
{
    let bytes = seq![binop_opcode(op, true)] + DataOperand::ThreeWide(d, a, b).bytes(0);
    assert(bytes =~= seq![
        binop_opcode(op, true),
        pair_byte(d.selector(), a.selector()),
        pair_byte(b.selector(), 0),
    ]);
    lemma_fetch(s, bytes, 0);
    lemma_fetch(s, bytes, 1);
    lemma_fetch(s, bytes, 2);
    let s1 = advanced(s, 1);
    let s2 = advanced(s, 2);
    let s3 = advanced(s, 3);
    lemma_reads_what_was_encoded(s1, d, a, BReg::R0b, BReg::R0b, 0);
    lemma_reads_what_was_encoded(s2, b, b, BReg::R0b, BReg::R0b, 0);
    assert(spec_arg_ww(s1) == (s2, Ok::<(WReg, WReg), TrapMode>((d, a))));
    assert(spec_arg_w0(s2) == (s3, Ok::<WReg, TrapMode>(b)));
    lemma_dispatch_binop(s1, op);
    let c = s3.cpu;
    let x = c.wide(a);
    let y = c.wide(b);
    assert(spec_binop_w(s1, op) == (
        s.with_cpu(c.with_flags(flags_w(c.flags, op, x, y)).with_wide(d, result_w(op, x, y))),
        Ok::<(), TrapMode>(()),
    ));
    reveal(spec_step);
}

/// A byte operation runs as written: as for wide operations, on byte
/// registers, which can always be read and written.
pub proof fn lemma_byte_operation_runs(s: State, op: BinOp, d: BReg, a: BReg, b: BReg)
    requires
        stream(s, seq![binop_opcode(op, false)] + DataOperand::ThreeByte(d, a, b).bytes(0)),
    ensures
        ({
            let c = advanced(s, 3).cpu;
            let x = c.byte(a);
            let y = c.byte(b);
            spec_step(s) == (
                s.with_cpu(
                    c.with_flags(flags_b(c.flags, op, x, y)).with_byte(d, result_b(op, x, y)),
                ),
                Step::Retired,
            )
        }),
{
    let bytes = seq![binop_opcode(op, false)] + DataOperand::ThreeByte(d, a, b).bytes(0);
    assert(bytes =~= seq![
        binop_opcode(op, false),
        pair_byte(d.selector(), a.selector()),
        pair_byte(b.selector(), 0),
    ]);
    lemma_fetch(s, bytes, 0);
    lemma_fetch(s, bytes, 1);
    lemma_fetch(s, bytes, 2);
    let s1 = advanced(s, 1);
    let s2 = advanced(s, 2);
    let s3 = advanced(s, 3);
    lemma_reads_what_was_encoded(s1, WReg::R0, WReg::R0, d, a, 0);
    lemma_reads_what_was_encoded(s2, WReg::R0, WReg::R0, b, b, 0);
    assert(spec_arg_bb(s1) == (s2, Ok::<(BReg, BReg), TrapMode>((d, a))));
    assert(spec_arg_b0(s2) == (s3, Ok::<BReg, TrapMode>(b)));
    lemma_dispatch_binop(s1, op);
    let c = s3.cpu;
    let x = c.byte(a);
    let y = c.byte(b);
    assert(spec_binop_b(s1, op) == (
        s.with_cpu(c.with_flags(flags_b(c.flags, op, x, y)).with_byte(d, result_b(op, x, y))),
        Ok::<(), TrapMode>(()),
    ));
    reveal(spec_step);
}

/// What `LDI_W` reads from a stream of its opcode, a register with a
/// variant nibble, and a wide immediate.
proof fn lemma_operands_of_ldi_w(s: State, bytes: Seq<u8>, reg: WReg, variant: u8, value: u16)
    requires
        variant < 16,
        bytes =~= seq![
            LDI_W,
            pair_byte(reg.selector(), variant as nat),
            (value % 256) as u8,
            (value / 256) as u8,
        ],
        stream(s, bytes),
    ensures
        s.fetch() == (advanced(s, 1), Ok::<u8, TrapMode>(LDI_W)),
        spec_arg_wn(advanced(s, 1)) == (
            advanced(s, 2),
            Ok::<(WReg, u8), TrapMode>((reg, variant)),
        ),
        spec_arg_imm_wide(advanced(s, 2)) == (advanced(s, 4), Ok::<u16, TrapMode>(value)),
        advanced(s, 4).mem == s.mem,
{
    lemma_fetch(s, bytes, 0);
    lemma_fetch(s, bytes, 1);
    lemma_fetch(s, bytes, 2);
    lemma_fetch(s, bytes, 3);
    lemma_wide_selector_round_trip(reg, 0);
    let p = pair_byte(reg.selector(), variant as nat);
    assert(p as nat / 16 == reg.selector() && p % 16 == variant);
}

/// A load of a wide immediate runs as written: `ldi reg, value` leaves the
/// value in the register and the program counter behind the four bytes of
/// the instruction.
pub proof fn lemma_ldi_runs(s: State, reg: WReg, value: u16)
    requires
        stream(
            s,
            seq![LDI_W] + DataOperand::TwoWideImm(reg, WReg::R0, Wide::Number(value)).bytes(value),
        ),
        advanced(s, 4).cpu.write_fault(reg) is None,
    ensures
        spec_step(s) == (s.with_cpu(advanced(s, 4).cpu.with_wide(reg, value)), Step::Retired),
{
    let bytes = seq![LDI_W] + DataOperand::TwoWideImm(reg, WReg::R0, Wide::Number(value)).bytes(
        value,
    );
    assert(WReg::R0.selector() == 0) by {
        reveal(WReg::selector);
    }
    lemma_operands_of_ldi_w(s, bytes, reg, 0, value);
    lemma_dispatch_binop(advanced(s, 1), BinOp::Add);
    assert(spec_ldi_w(advanced(s, 1)) == (
        s.with_cpu(advanced(s, 4).cpu.with_wide(reg, value)),
        Ok::<(), TrapMode>(()),
    ));
    reveal(spec_step);
}

/// A jump to an address runs as written: `jmp target` leaves the program
/// counter at the target and nothing else changed.
pub proof fn lemma_jmp_runs(s: State, target: u16)
    requires
        stream(
            s,
            seq![LDI_W] + DataOperand::TwoWideImm(WReg::R0, WReg::R1, Wide::Number(target)).bytes(
                target,
            ),
        ),
    ensures
        spec_step(s) == (s.with_cpu(s.cpu.with_pc(target)), Step::Retired),
{
    let bytes = seq![LDI_W] + DataOperand::TwoWideImm(
        WReg::R0,
        WReg::R1,
        Wide::Number(target),
    ).bytes(target);
    assert(WReg::R0.selector() == 0 && WReg::R1.selector() == 1) by {
        reveal(WReg::selector);
    }
    lemma_operands_of_ldi_w(s, bytes, WReg::R0, 1, target);
    lemma_dispatch_binop(advanced(s, 1), BinOp::Add);
    assert(spec_ldi_w(advanced(s, 1)) == (
        s.with_cpu(s.cpu.with_pc(target)),
        Ok::<(), TrapMode>(()),
    ));
    reveal(spec_step);
}

} // verus!
