//! The instruction set: opcode bytes and the handlers behind them.

use crate::alu::BinOp;
use crate::context::{HandlerContext, State};
use crate::cpu::{OpRes, TrapMode};
use crate::isa::handlers::Condition;
use vstd::prelude::*;

pub mod agreement;
pub mod handlers;

verus! {

// Control and privileged memory.
pub const NULL: u8 = 0x00;
pub const HALT: u8 = 0x01;
pub const CTF: u8 = 0x02;
pub const RETH: u8 = 0x03;
pub const NOP: u8 = 0x04;
pub const SYSCALL: u8 = 0x05;
pub const USR: u8 = 0x06;
pub const VMON: u8 = 0x07;
pub const VMOFF: u8 = 0x08;
pub const PSTORE: u8 = 0x09;
pub const PLOAD: u8 = 0x0a;

// Stack and flow.
pub const PUSH_B: u8 = 0x10;
pub const PUSH_W: u8 = 0x11;
pub const POP_B: u8 = 0x12;
pub const POP_W: u8 = 0x13;
pub const CALL: u8 = 0x14;
pub const RET: u8 = 0x15;

// Stores and loads: `B` and `W` give the width, `I` an immediate offset,
// `R` an offset in a register.
pub const STORE_BI: u8 = 0x20;
pub const STORE_WI: u8 = 0x21;
pub const STORE_BR: u8 = 0x22;
pub const STORE_WR: u8 = 0x23;
pub const LOAD_BI: u8 = 0x24;
pub const LOAD_WI: u8 = 0x25;
pub const LOAD_BR: u8 = 0x26;
pub const LOAD_WR: u8 = 0x27;

// Conditional jumps.
pub const JEZ: u8 = 0x30;
pub const JLT: u8 = 0x31;
pub const JLE: u8 = 0x32;
pub const JGT: u8 = 0x33;
pub const JGE: u8 = 0x34;
pub const JNZ: u8 = 0x35;
pub const JO: u8 = 0x36;
pub const JNO: u8 = 0x37;
pub const JB: u8 = 0x38;
pub const JAE: u8 = 0x39;
pub const JA: u8 = 0x3a;
pub const JBE: u8 = 0x3b;

// Immediate loads; `LDI_W` also is the unconditional jump.
pub const LDI_B: u8 = 0x40;
pub const LDI_W: u8 = 0x41;

// Arithmetic and logic, in both widths.
pub const ADD_B: u8 = 0x50;
pub const ADD_W: u8 = 0x51;
pub const SUB_B: u8 = 0x52;
pub const SUB_W: u8 = 0x53;
pub const AND_B: u8 = 0x54;
pub const AND_W: u8 = 0x55;
pub const OR_B: u8 = 0x56;
pub const OR_W: u8 = 0x57;
pub const XOR_B: u8 = 0x58;
pub const XOR_W: u8 = 0x59;
pub const SHL_B: u8 = 0x5a;
pub const SHL_W: u8 = 0x5b;
pub const ASR_B: u8 = 0x5c;
pub const ASR_W: u8 = 0x5d;
pub const LSR_B: u8 = 0x5e;
pub const LSR_W: u8 = 0x5f;

// Division and multiplication.
pub const DIV_B: u8 = 0x60;
pub const DIV_W: u8 = 0x61;
pub const MUL_B: u8 = 0x62;
pub const MUL_W: u8 = 0x63;

/// Whether an opcode byte has a handler of its own.
pub open spec fn is_assigned(op: u8) -> bool {
    op <= PLOAD || (PUSH_B <= op <= RET) || (STORE_BI <= op <= LOAD_WR) || (JEZ <= op <= JBE)
        || op == LDI_B || op == LDI_W || (ADD_B <= op <= LSR_W) || (DIV_B <= op <= MUL_W)
}

/// What the instruction behind an opcode byte does, once the opcode has
/// been fetched. An unassigned byte is `Invalid`.
#[verifier::opaque]
pub open spec fn spec_dispatch(op: u8, s: State) -> (State, OpRes) {
    if op == HALT {
        handlers::spec_halt(s)
    } else if op == CTF {
        handlers::spec_ctf(s)
    } else if op == RETH {
        handlers::spec_reth(s)
    } else if op == NOP {
        handlers::spec_nop(s)
    } else if op == SYSCALL {
        handlers::spec_syscall(s)
    } else if op == USR {
        handlers::spec_usr(s)
    } else if op == VMON {
        handlers::spec_vmon(s)
    } else if op == VMOFF {
        handlers::spec_vmoff(s)
    } else if op == PSTORE {
        handlers::spec_pstore(s)
    } else if op == PLOAD {
        handlers::spec_pload(s)
    } else if op == PUSH_B {
        handlers::spec_push_b(s)
    } else if op == PUSH_W {
        handlers::spec_push_w(s)
    } else if op == POP_B {
        handlers::spec_pop_b(s)
    } else if op == POP_W {
        handlers::spec_pop_w(s)
    } else if op == CALL {
        handlers::spec_call(s)
    } else if op == RET {
        handlers::spec_ret(s)
    } else if op == STORE_BI {
        handlers::spec_store_bi(s)
    } else if op == STORE_WI {
        handlers::spec_store_wi(s)
    } else if op == STORE_BR {
        handlers::spec_store_br(s)
    } else if op == STORE_WR {
        handlers::spec_store_wr(s)
    } else if op == LOAD_BI {
        handlers::spec_load_bi(s)
    } else if op == LOAD_WI {
        handlers::spec_load_wi(s)
    } else if op == LOAD_BR {
        handlers::spec_load_br(s)
    } else if op == LOAD_WR {
        handlers::spec_load_wr(s)
    } else if op == JEZ {
        handlers::spec_jif(Condition::Ez.spec_holds(s.cpu.flags), s)
    } else if op == JLT {
        handlers::spec_jif(Condition::Lt.spec_holds(s.cpu.flags), s)
    } else if op == JLE {
        handlers::spec_jif(Condition::Le.spec_holds(s.cpu.flags), s)
    } else if op == JGT {
        handlers::spec_jif(Condition::Gt.spec_holds(s.cpu.flags), s)
    } else if op == JGE {
        handlers::spec_jif(Condition::Ge.spec_holds(s.cpu.flags), s)
    } else if op == JNZ {
        handlers::spec_jif(Condition::Nz.spec_holds(s.cpu.flags), s)
    } else if op == JO {
        handlers::spec_jif(Condition::O.spec_holds(s.cpu.flags), s)
    } else if op == JNO {
        handlers::spec_jif(Condition::No.spec_holds(s.cpu.flags), s)
    } else if op == JB {
        handlers::spec_jif(Condition::B.spec_holds(s.cpu.flags), s)
    } else if op == JAE {
        handlers::spec_jif(Condition::Ae.spec_holds(s.cpu.flags), s)
    } else if op == JA {
        handlers::spec_jif(Condition::A.spec_holds(s.cpu.flags), s)
    } else if op == JBE {
        handlers::spec_jif(Condition::Be.spec_holds(s.cpu.flags), s)
    } else if op == LDI_B {
        handlers::spec_ldi_b(s)
    } else if op == LDI_W {
        handlers::spec_ldi_w(s)
    } else if op == ADD_B {
        handlers::spec_binop_b(s, BinOp::Add)
    } else if op == ADD_W {
        handlers::spec_binop_w(s, BinOp::Add)
    } else if op == SUB_B {
        handlers::spec_binop_b(s, BinOp::Sub)
    } else if op == SUB_W {
        handlers::spec_binop_w(s, BinOp::Sub)
    } else if op == AND_B {
        handlers::spec_binop_b(s, BinOp::And)
    } else if op == AND_W {
        handlers::spec_binop_w(s, BinOp::And)
    } else if op == OR_B {
        handlers::spec_binop_b(s, BinOp::Or)
    } else if op == OR_W {
        handlers::spec_binop_w(s, BinOp::Or)
    } else if op == XOR_B {
        handlers::spec_binop_b(s, BinOp::Xor)
    } else if op == XOR_W {
        handlers::spec_binop_w(s, BinOp::Xor)
    } else if op == SHL_B {
        handlers::spec_binop_b(s, BinOp::Shl)
    } else if op == SHL_W {
        handlers::spec_binop_w(s, BinOp::Shl)
    } else if op == ASR_B {
        handlers::spec_binop_b(s, BinOp::Asr)
    } else if op == ASR_W {
        handlers::spec_binop_w(s, BinOp::Asr)
    } else if op == LSR_B {
        handlers::spec_binop_b(s, BinOp::Lsr)
    } else if op == LSR_W {
        handlers::spec_binop_w(s, BinOp::Lsr)
    } else if op == DIV_B {
        handlers::spec_div_b(s)
    } else if op == DIV_W {
        handlers::spec_div_w(s)
    } else if op == MUL_B {
        handlers::spec_mul_b(s)
    } else if op == MUL_W {
        handlers::spec_mul_w(s)
    } else {
        handlers::spec_n(s)
    }
}

/// Runs the handler of an opcode byte. Every byte has one: the unassigned
/// ones, and `NULL`, share the handler that raises `Invalid`.
pub fn dispatch(op: u8, c: &mut HandlerContext) -> (res: OpRes)
    ensures
        (final(c)@, res) == spec_dispatch(op, old(c)@),
{
    reveal(spec_dispatch);
    match op {
        NULL => handlers::n(c),
        HALT => handlers::halt(c),
        CTF => handlers::ctf(c),
        RETH => handlers::reth(c),
        NOP => handlers::nop(c),
        SYSCALL => handlers::syscall(c),
        USR => handlers::usr(c),
        VMON => handlers::vmon(c),
        VMOFF => handlers::vmoff(c),
        PSTORE => handlers::pstore(c),
        PLOAD => handlers::pload(c),
        PUSH_B => handlers::push_b(c),
        PUSH_W => handlers::push_w(c),
        POP_B => handlers::pop_b(c),
        POP_W => handlers::pop_w(c),
        CALL => handlers::call(c),
        RET => handlers::ret(c),
        STORE_BI => handlers::store_bi(c),
        STORE_WI => handlers::store_wi(c),
        STORE_BR => handlers::store_br(c),
        STORE_WR => handlers::store_wr(c),
        LOAD_BI => handlers::load_bi(c),
        LOAD_WI => handlers::load_wi(c),
        LOAD_BR => handlers::load_br(c),
        LOAD_WR => handlers::load_wr(c),
        JEZ => handlers::jez(c),
        JLT => handlers::jlt(c),
        JLE => handlers::jle(c),
        JGT => handlers::jgt(c),
        JGE => handlers::jge(c),
        JNZ => handlers::jnz(c),
        JO => handlers::jo(c),
        JNO => handlers::jno(c),
        JB => handlers::jb(c),
        JAE => handlers::jae(c),
        JA => handlers::ja(c),
        JBE => handlers::jbe(c),
        LDI_B => handlers::ldi_b(c),
        LDI_W => handlers::ldi_w(c),
        ADD_B => handlers::add_b(c),
        ADD_W => handlers::add_w(c),
        SUB_B => handlers::sub_b(c),
        SUB_W => handlers::sub_w(c),
        AND_B => handlers::and_b(c),
        AND_W => handlers::and_w(c),
        OR_B => handlers::or_b(c),
        OR_W => handlers::or_w(c),
        XOR_B => handlers::xor_b(c),
        XOR_W => handlers::xor_w(c),
        SHL_B => handlers::shl_b(c),
        SHL_W => handlers::shl_w(c),
        ASR_B => handlers::asr_b(c),
        ASR_W => handlers::asr_w(c),
        LSR_B => handlers::lsr_b(c),
        LSR_W => handlers::lsr_w(c),
        DIV_B => handlers::div_b(c),
        DIV_W => handlers::div_w(c),
        MUL_B => handlers::mul_b(c),
        MUL_W => handlers::mul_w(c),
        _ => handlers::n(c),
    }
}

/// Every opcode byte is covered: an assigned one by its handler, and any
/// other, like `NULL`, raises `Invalid` and changes nothing.
pub proof fn lemma_dispatch_coverage(op: u8, s: State)
    ensures
        !is_assigned(op) || op == NULL ==> spec_dispatch(op, s) == (
            s,
            Err::<(), TrapMode>(TrapMode::Invalid),
        ),
{
    reveal(spec_dispatch);
}

/// The privileged opcodes, executed in user mode, raise `IllegalOperation`
/// and change nothing: no operand byte is fetched.
pub proof fn lemma_privileged_in_user_mode(op: u8, s: State)
    requires
        op == USR || op == VMON || op == VMOFF || op == PSTORE || op == PLOAD || op == CTF,
        s.cpu.flags.user_mode,
    ensures
        spec_dispatch(op, s) == (s, Err::<(), TrapMode>(TrapMode::IllegalOperation)),
{
    reveal(spec_dispatch);
}

/// `RETH` is dispatched to its handler.
pub proof fn lemma_dispatch_reth(s: State)
    ensures
        spec_dispatch(RETH, s) == handlers::spec_reth(s),
{
    reveal(spec_dispatch);
}

} // verus!
