//! One handler per opcode, and the operand decoders they share.
//!
//! A handler runs after its opcode byte has been fetched. It fetches its
//! operand bytes, then changes the state or raises a trap. Each handler is
//! stated as a function on [`State`] that gives the state left behind and
//! the outcome.

use crate::alu::{
    alu_b, alu_w, flags_b, flags_mul_b, flags_mul_w, flags_w, mul_halves_b, mul_halves_w,
    product_lower_b, product_lower_w, product_upper_b, product_upper_w, result_b, result_w, BinOp,
};
use crate::context::{add16, wrap16, HandlerContext, State};
use crate::cpu::{Cpu, Flags, OpRes, TrapMode};
use crate::nibble::{lemma_of_value, U4};
use crate::registers::{BReg, WReg};
use crate::source::operand::{
    lemma_pair_byte_byte, lemma_pair_byte_wide, lemma_pair_byte_zero, lemma_pair_wide_byte,
    lemma_pair_wide_wide, lemma_pair_wide_zero, pair_byte,
};
use vstd::prelude::*;

verus! {

/// Fetches one operand byte and hands its high nibble to `f1` and its low
/// nibble to `f2`.
pub fn arg_pair<T, U, F1: FnOnce(U4) -> T, F2: FnOnce(U4) -> U>(
    c: &mut HandlerContext,
    f1: F1,
    f2: F2,
) -> (res: OpRes<(T, U)>)
    requires
        forall|n: U4| n.wf() ==> call_requires(f1, (n,)),
        forall|n: U4| n.wf() ==> call_requires(f2, (n,)),
    ensures
        final(c)@ == old(c)@.fetch().0,
        match old(c)@.fetch().1 {
            Err(t) => res == Err::<(T, U), TrapMode>(t),
            Ok(b) => res matches Ok(p) && call_ensures(f1, (U4::of(b as nat / 16),), p.0)
                && call_ensures(f2, (U4::of(b as nat % 16),), p.1),
        },
{
    let operand = c.fetch()?;
    let (a, b) = U4::paired(operand);
    Ok((f1(a), f2(b)))
}

/// Fetches an eight-bit immediate.
pub fn arg_imm_byte(c: &mut HandlerContext) -> (res: OpRes<u8>)
    ensures
        (final(c)@, res) == old(c)@.fetch(),
{
    let val = c.fetch()?;
    Ok(val)
}

/// Fetching a sixteen-bit immediate: two bytes, the low one first.
pub open spec fn spec_arg_imm_wide(s: State) -> (State, OpRes<u16>) {
    let (s1, low) = s.fetch();
    match low {
        Err(t) => (s1, Err(t)),
        Ok(l) => {
            let (s2, high) = s1.fetch();
            match high {
                Err(t) => (s2, Err(t)),
                Ok(h) => (s2, Ok((l + 256 * h) as u16)),
            }
        },
    }
}

/// Fetches a sixteen-bit immediate.
pub fn arg_imm_wide(c: &mut HandlerContext) -> (res: OpRes<u16>)
    ensures
        (final(c)@, res) == spec_arg_imm_wide(old(c)@),
{
    let l = c.fetch()?;
    let h = c.fetch()?;
    Ok(l as u16 + 256 * (h as u16))
}

/// An operand byte that names two byte registers.
pub open spec fn spec_arg_bb(s: State) -> (State, OpRes<(BReg, BReg)>) {
    let (s1, r) = s.fetch();
    match r {
        Err(t) => (s1, Err(t)),
        Ok(b) => (s1, Ok((BReg::from_selector(b as nat / 16), BReg::from_selector(b as nat % 16)))),
    }
}

/// An operand byte that names a byte register, then a wide register.
pub open spec fn spec_arg_bw(s: State) -> (State, OpRes<(BReg, WReg)>) {
    let (s1, r) = s.fetch();
    match r {
        Err(t) => (s1, Err(t)),
        Ok(b) => (s1, Ok((BReg::from_selector(b as nat / 16), WReg::from_selector(b as nat % 16)))),
    }
}

/// An operand byte that names a wide register, then a byte register.
pub open spec fn spec_arg_wb(s: State) -> (State, OpRes<(WReg, BReg)>) {
    let (s1, r) = s.fetch();
    match r {
        Err(t) => (s1, Err(t)),
        Ok(b) => (s1, Ok((WReg::from_selector(b as nat / 16), BReg::from_selector(b as nat % 16)))),
    }
}

/// An operand byte that names two wide registers.
pub open spec fn spec_arg_ww(s: State) -> (State, OpRes<(WReg, WReg)>) {
    let (s1, r) = s.fetch();
    match r {
        Err(t) => (s1, Err(t)),
        Ok(b) => (s1, Ok((WReg::from_selector(b as nat / 16), WReg::from_selector(b as nat % 16)))),
    }
}

/// An operand byte that names a wide register and carries a free nibble.
pub open spec fn spec_arg_wn(s: State) -> (State, OpRes<(WReg, u8)>) {
    let (s1, r) = s.fetch();
    match r {
        Err(t) => (s1, Err(t)),
        Ok(b) => (s1, Ok((WReg::from_selector(b as nat / 16), b % 16))),
    }
}

/// An operand byte that names one byte register: its low nibble has to be
/// zero, else the byte is `Invalid`.
pub open spec fn spec_arg_b0(s: State) -> (State, OpRes<BReg>) {
    let (s1, r) = s.fetch();
    match r {
        Err(t) => (s1, Err(t)),
        Ok(b) => if b % 16 != 0 {
            (s1, Err(TrapMode::Invalid))
        } else {
            (s1, Ok(BReg::from_selector(b as nat / 16)))
        },
    }
}

/// An operand byte that names one wide register: its low nibble has to be
/// zero, else the byte is `Invalid`.
pub open spec fn spec_arg_w0(s: State) -> (State, OpRes<WReg>) {
    let (s1, r) = s.fetch();
    match r {
        Err(t) => (s1, Err(t)),
        Ok(b) => if b % 16 != 0 {
            (s1, Err(TrapMode::Invalid))
        } else {
            (s1, Ok(WReg::from_selector(b as nat / 16)))
        },
    }
}

/// Fetches an operand byte that names two byte registers.
fn arg_bb(c: &mut HandlerContext) -> (res: OpRes<(BReg, BReg)>)
    ensures
        (final(c)@, res) == spec_arg_bb(old(c)@),
{
    broadcast use lemma_of_value;

    arg_pair(c, BReg::from_nibble, BReg::from_nibble)
}

/// Fetches an operand byte that names a byte register, then a wide register.
fn arg_bw(c: &mut HandlerContext) -> (res: OpRes<(BReg, WReg)>)
    ensures
        (final(c)@, res) == spec_arg_bw(old(c)@),
{
    broadcast use lemma_of_value;

    arg_pair(c, BReg::from_nibble, WReg::from_nibble)
}

/// Fetches an operand byte that names a wide register, then a byte register.
fn arg_wb(c: &mut HandlerContext) -> (res: OpRes<(WReg, BReg)>)
    ensures
        (final(c)@, res) == spec_arg_wb(old(c)@),
{
    broadcast use lemma_of_value;

    arg_pair(c, WReg::from_nibble, BReg::from_nibble)
}

/// Fetches an operand byte that names two wide registers.
fn arg_ww(c: &mut HandlerContext) -> (res: OpRes<(WReg, WReg)>)
    ensures
        (final(c)@, res) == spec_arg_ww(old(c)@),
{
    broadcast use lemma_of_value;

    arg_pair(c, WReg::from_nibble, WReg::from_nibble)
}

/// Fetches an operand byte that names a wide register and a free nibble.
fn arg_wn(c: &mut HandlerContext) -> (res: OpRes<(WReg, u8)>)
    ensures
        (final(c)@, res) == spec_arg_wn(old(c)@),
{
    broadcast use lemma_of_value;

    arg_pair(c, WReg::from_nibble, U4::get)
}

/// Fetches an operand byte that names one byte register.
fn arg_b0(c: &mut HandlerContext) -> (res: OpRes<BReg>)
    ensures
        (final(c)@, res) == spec_arg_b0(old(c)@),
{
    broadcast use lemma_of_value;

    let (r, z) = arg_pair(c, BReg::from_nibble, U4::get)?;
    if z != 0 {
        return Err(TrapMode::Invalid);
    }
    Ok(r)
}

/// Fetches an operand byte that names one wide register.
fn arg_w0(c: &mut HandlerContext) -> (res: OpRes<WReg>)
    ensures
        (final(c)@, res) == spec_arg_w0(old(c)@),
{
    broadcast use lemma_of_value;

    let (r, z) = arg_pair(c, WReg::from_nibble, U4::get)?;
    if z != 0 {
        return Err(TrapMode::Invalid);
    }
    Ok(r)
}

/// The state after a wide register write, and whether it took place.
pub open spec fn spec_set_wide(s: State, r: WReg, v: u16) -> (State, OpRes) {
    let (cpu, res) = s.cpu.spec_write_wr(r, v);
    (s.with_cpu(cpu), res)
}

/// The physical address that a supervisor port composes: the byte is the
/// upper eight bits, the wide value the lower sixteen.
pub open spec fn physical_address(high: u8, low: u16) -> u32 {
    (high * 0x1_0000 + low) as u32
}

/// An unassigned opcode: `Invalid`.
pub open spec fn spec_n(s: State) -> (State, OpRes) {
    (s, Err(TrapMode::Invalid))
}

/// The handler of every opcode byte without an instruction: raises `Invalid`.
pub fn n(c: &mut HandlerContext) -> (res: OpRes)
    ensures
        (final(c)@, res) == spec_n(old(c)@),
{
    Err(TrapMode::Invalid)
}

/// `HALT`: raises `Halt`.
pub open spec fn spec_halt(s: State) -> (State, OpRes) {
    (s, Err(TrapMode::Halt))
}

/// Executes `HALT`.
pub fn halt(c: &mut HandlerContext) -> (res: OpRes)
    ensures
        (final(c)@, res) == spec_halt(old(c)@),
{
    Err(TrapMode::Halt)
}

/// `SYSCALL`: raises `SysCall`.
pub open spec fn spec_syscall(s: State) -> (State, OpRes) {
    (s, Err(TrapMode::SysCall))
}

/// Executes `SYSCALL`.
pub fn syscall(c: &mut HandlerContext) -> (res: OpRes)
    ensures
        (final(c)@, res) == spec_syscall(old(c)@),
{
    Err(TrapMode::SysCall)
}

/// `NOP`: nothing.
pub open spec fn spec_nop(s: State) -> (State, OpRes) {
    (s, Ok(()))
}

/// Executes `NOP`.
pub fn nop(c: &mut HandlerContext) -> (res: OpRes)
    ensures
        (final(c)@, res) == spec_nop(old(c)@),
{
    Ok(())
}

/// `CTF`: clears the trap flag and restores nothing. Supervisor only.
pub open spec fn spec_ctf(s: State) -> (State, OpRes) {
    if s.cpu.flags.user_mode {
        (s, Err(TrapMode::IllegalOperation))
    } else {
        (s.with_cpu(s.cpu.with_flags(Flags { trap: false, ..s.cpu.flags })), Ok(()))
    }
}

/// Executes `CTF`.
pub fn ctf(c: &mut HandlerContext) -> (res: OpRes)
    ensures
        (final(c)@, res) == spec_ctf(old(c)@),
{
    if c.cpu.flags.user_mode {
        return Err(TrapMode::IllegalOperation);
    }
    c.cpu.flags.trap = false;
    Ok(())
}

/// `RETH`: outside a handler `IllegalHandlerReturn`; inside, the saved
/// registers are restored and the trap flag is cleared.
pub open spec fn spec_reth(s: State) -> (State, OpRes) {
    if !s.cpu.flags.trap {
        (s, Err(TrapMode::IllegalHandlerReturn))
    } else {
        let (s1, r) = s.pop_registers();
        match r {
            Err(t) => (s1, Err(t)),
            Ok(_) => (
                s1.with_cpu(s1.cpu.with_flags(Flags { trap: false, ..s1.cpu.flags })),
                Ok(()),
            ),
        }
    }
}

/// Executes `RETH`.
pub fn reth(c: &mut HandlerContext) -> (res: OpRes)
    ensures
        (final(c)@, res) == spec_reth(old(c)@),
{
    if !c.cpu.flags.trap {
        return Err(TrapMode::IllegalHandlerReturn);
    }
    c.pop_registers()?;
    c.cpu.flags.trap = false;
    Ok(())
}

/// `USR`: enters user mode. Supervisor only.
pub open spec fn spec_usr(s: State) -> (State, OpRes) {
    if s.cpu.flags.user_mode {
        (s, Err(TrapMode::IllegalOperation))
    } else {
        (s.with_cpu(s.cpu.with_flags(Flags { user_mode: true, ..s.cpu.flags })), Ok(()))
    }
}

/// Executes `USR`.
pub fn usr(c: &mut HandlerContext) -> (res: OpRes)
    ensures
        (final(c)@, res) == spec_usr(old(c)@),
{
    if c.cpu.flags.user_mode {
        return Err(TrapMode::IllegalOperation);
    }
    c.cpu.flags.user_mode = true;
    Ok(())
}

/// `VMON`: turns address translation on. Supervisor only.
pub open spec fn spec_vmon(s: State) -> (State, OpRes) {
    if s.cpu.flags.user_mode {
        (s, Err(TrapMode::IllegalOperation))
    } else {
        (s.with_cpu(s.cpu.with_flags(Flags { virtual_mode: true, ..s.cpu.flags })), Ok(()))
    }
}

/// Executes `VMON`.
pub fn vmon(c: &mut HandlerContext) -> (res: OpRes)
    ensures
        (final(c)@, res) == spec_vmon(old(c)@),
{
    if c.cpu.flags.user_mode {
        return Err(TrapMode::IllegalOperation);
    }
    c.cpu.flags.virtual_mode = true;
    Ok(())
}

/// `VMOFF`: turns address translation off. Supervisor only.
pub open spec fn spec_vmoff(s: State) -> (State, OpRes) {
    if s.cpu.flags.user_mode {
        (s, Err(TrapMode::IllegalOperation))
    } else {
        (s.with_cpu(s.cpu.with_flags(Flags { virtual_mode: false, ..s.cpu.flags })), Ok(()))
    }
}

/// Executes `VMOFF`.
pub fn vmoff(c: &mut HandlerContext) -> (res: OpRes)
    ensures
        (final(c)@, res) == spec_vmoff(old(c)@),
{
    if c.cpu.flags.user_mode {
        return Err(TrapMode::IllegalOperation);
    }
    c.cpu.flags.virtual_mode = false;
    Ok(())
}

/// `PSTORE high, low, src`: writes the byte register `src` to the physical
/// address composed from `high` and `low`. Supervisor only.
pub open spec fn spec_pstore(s: State) -> (State, OpRes) {
    if s.cpu.flags.user_mode {
        (s, Err(TrapMode::IllegalOperation))
    } else {
        let (s1, p1) = spec_arg_bw(s);
        match p1 {
            Err(t) => (s1, Err(t)),
            Ok((high, low)) => {
                let (s2, p2) = spec_arg_b0(s1);
                match p2 {
                    Err(t) => (s2, Err(t)),
                    Ok(src) => match s2.cpu.spec_read_wr(low) {
                        Err(t) => (s2, Err(t)),
                        Ok(l) => s2.physical_write(
                            physical_address(s2.cpu.byte(high), l),
                            s2.cpu.byte(src),
                        ),
                    },
                }
            },
        }
    }
}

/// Executes `PSTORE`.
pub fn pstore(c: &mut HandlerContext) -> (res: OpRes)
    ensures
        (final(c)@, res) == spec_pstore(old(c)@),
{
    if c.cpu.flags.user_mode {
        return Err(TrapMode::IllegalOperation);
    }
    let (br1, wr) = arg_bw(c)?;
    let br2 = arg_b0(c)?;
    let high_byte = c.cpu.read_br(br1);
    let low_wide = c.cpu.read_wr(wr)?;
    let addr: u32 = (high_byte as u32) * 0x1_0000 + low_wide as u32;
    let v = c.cpu.read_br(br2);
    c.physical_write(addr, v)
}

/// `PLOAD dst, high, low`: reads the byte at the physical address composed
/// from `high` and `low` into the byte register `dst`. Supervisor only.
pub open spec fn spec_pload(s: State) -> (State, OpRes) {
    if s.cpu.flags.user_mode {
        (s, Err(TrapMode::IllegalOperation))
    } else {
        let (s1, p1) = spec_arg_bb(s);
        match p1 {
            Err(t) => (s1, Err(t)),
            Ok((dst, high)) => {
                let (s2, p2) = spec_arg_w0(s1);
                match p2 {
                    Err(t) => (s2, Err(t)),
                    Ok(low) => match s2.cpu.spec_read_wr(low) {
                        Err(t) => (s2, Err(t)),
                        Ok(l) => match s2.physical_read(physical_address(s2.cpu.byte(high), l)) {
                            Err(t) => (s2, Err(t)),
                            Ok(v) => (s2.with_cpu(s2.cpu.with_byte(dst, v)), Ok(())),
                        },
                    },
                }
            },
        }
    }
}

/// Executes `PLOAD`.
pub fn pload(c: &mut HandlerContext) -> (res: OpRes)
    ensures
        (final(c)@, res) == spec_pload(old(c)@),
{
    if c.cpu.flags.user_mode {
        return Err(TrapMode::IllegalOperation);
    }
    let (br1, br2) = arg_bb(c)?;
    let wr = arg_w0(c)?;
    let high_byte = c.cpu.read_br(br2);
    let low_wide = c.cpu.read_wr(wr)?;
    let addr: u32 = (high_byte as u32) * 0x1_0000 + low_wide as u32;
    let val = c.physical_read(addr)?;
    c.cpu.write_br(br1, val);
    Ok(())
}

/// A byte operation `dst, a, b`: the flags are set from the operation on
/// the registers `a` and `b`, and the result goes to `dst`.
pub open spec fn spec_binop_b(s: State, op: BinOp) -> (State, OpRes) {
    let (s1, p1) = spec_arg_bb(s);
    match p1 {
        Err(t) => (s1, Err(t)),
        Ok((dst, a)) => {
            let (s2, p2) = spec_arg_b0(s1);
            match p2 {
                Err(t) => (s2, Err(t)),
                Ok(b) => {
                    let x = s2.cpu.byte(a);
                    let y = s2.cpu.byte(b);
                    let flagged = s2.cpu.with_flags(flags_b(s2.cpu.flags, op, x, y));
                    (s2.with_cpu(flagged.with_byte(dst, result_b(op, x, y))), Ok(()))
                },
            }
        },
    }
}

/// Executes the byte operation `op`.
pub fn binop_b(c: &mut HandlerContext, op: BinOp) -> (res: OpRes)
    ensures
        (final(c)@, res) == spec_binop_b(old(c)@, op),
{
    let (r1, r2) = arg_bb(c)?;
    let r3 = arg_b0(c)?;
    let x = c.cpu.read_br(r2);
    let y = c.cpu.read_br(r3);
    let (value, carry, overflow) = alu_b(op, x, y);
    c.cpu.flags.carry = carry;
    c.cpu.flags.overflow = overflow;
    c.cpu.flags.sign = value >= 0x80;
    c.cpu.flags.zero = value == 0;
    c.cpu.write_br(r1, value);
    Ok(())
}

/// A wide operation `dst, a, b`: the flags are set from the operation on
/// the registers `a` and `b`, then the result goes to `dst`. Where that
/// write is refused the flags have been set.
pub open spec fn spec_binop_w(s: State, op: BinOp) -> (State, OpRes) {
    let (s1, p1) = spec_arg_ww(s);
    match p1 {
        Err(t) => (s1, Err(t)),
        Ok((dst, a)) => {
            let (s2, p2) = spec_arg_w0(s1);
            match p2 {
                Err(t) => (s2, Err(t)),
                Ok(b) => match (s2.cpu.spec_read_wr(a), s2.cpu.spec_read_wr(b)) {
                    (Err(t), _) => (s2, Err(t)),
                    (Ok(_), Err(t)) => (s2, Err(t)),
                    (Ok(x), Ok(y)) => {
                        let flagged = s2.cpu.with_flags(flags_w(s2.cpu.flags, op, x, y));
                        spec_set_wide(s2.with_cpu(flagged), dst, result_w(op, x, y))
                    },
                },
            }
        },
    }
}

/// Executes the wide operation `op`.
pub fn binop_w(c: &mut HandlerContext, op: BinOp) -> (res: OpRes)
    ensures
        (final(c)@, res) == spec_binop_w(old(c)@, op),
{
    let (r1, r2) = arg_ww(c)?;
    let r3 = arg_w0(c)?;
    let x = c.cpu.read_wr(r2)?;
    let y = c.cpu.read_wr(r3)?;
    let (value, carry, overflow) = alu_w(op, x, y);
    c.cpu.flags.carry = carry;
    c.cpu.flags.overflow = overflow;
    c.cpu.flags.sign = value >= 0x8000;
    c.cpu.flags.zero = value == 0;
    c.cpu.write_wr(r1, value)
}

/// Executes `ADD_B`.
pub fn add_b(c: &mut HandlerContext) -> (res: OpRes)
    ensures
        (final(c)@, res) == spec_binop_b(old(c)@, BinOp::Add),
{
    binop_b(c, BinOp::Add)
}

/// Executes `ADD_W`.
pub fn add_w(c: &mut HandlerContext) -> (res: OpRes)
    ensures
        (final(c)@, res) == spec_binop_w(old(c)@, BinOp::Add),
{
    binop_w(c, BinOp::Add)
}

/// Executes `SUB_B`.
pub fn sub_b(c: &mut HandlerContext) -> (res: OpRes)
    ensures
        (final(c)@, res) == spec_binop_b(old(c)@, BinOp::Sub),
{
    binop_b(c, BinOp::Sub)
}

/// Executes `SUB_W`.
pub fn sub_w(c: &mut HandlerContext) -> (res: OpRes)
    ensures
        (final(c)@, res) == spec_binop_w(old(c)@, BinOp::Sub),
{
    binop_w(c, BinOp::Sub)
}

/// Executes `AND_B`.
pub fn and_b(c: &mut HandlerContext) -> (res: OpRes)
    ensures
        (final(c)@, res) == spec_binop_b(old(c)@, BinOp::And),
{
    binop_b(c, BinOp::And)
}

/// Executes `AND_W`.
pub fn and_w(c: &mut HandlerContext) -> (res: OpRes)
    ensures
        (final(c)@, res) == spec_binop_w(old(c)@, BinOp::And),
{
    binop_w(c, BinOp::And)
}

/// Executes `OR_B`.
pub fn or_b(c: &mut HandlerContext) -> (res: OpRes)
    ensures
        (final(c)@, res) == spec_binop_b(old(c)@, BinOp::Or),
{
    binop_b(c, BinOp::Or)
}

/// Executes `OR_W`.
pub fn or_w(c: &mut HandlerContext) -> (res: OpRes)
    ensures
        (final(c)@, res) == spec_binop_w(old(c)@, BinOp::Or),
{
    binop_w(c, BinOp::Or)
}

/// Executes `XOR_B`.
pub fn xor_b(c: &mut HandlerContext) -> (res: OpRes)
    ensures
        (final(c)@, res) == spec_binop_b(old(c)@, BinOp::Xor),
{
    binop_b(c, BinOp::Xor)
}

/// Executes `XOR_W`.
pub fn xor_w(c: &mut HandlerContext) -> (res: OpRes)
    ensures
        (final(c)@, res) == spec_binop_w(old(c)@, BinOp::Xor),
{
    binop_w(c, BinOp::Xor)
}

/// Executes `SHL_B`.
pub fn shl_b(c: &mut HandlerContext) -> (res: OpRes)
    ensures
        (final(c)@, res) == spec_binop_b(old(c)@, BinOp::Shl),
{
    binop_b(c, BinOp::Shl)
}

/// Executes `SHL_W`.
pub fn shl_w(c: &mut HandlerContext) -> (res: OpRes)
    ensures
        (final(c)@, res) == spec_binop_w(old(c)@, BinOp::Shl),
{
    binop_w(c, BinOp::Shl)
}

/// Executes `ASR_B`.
pub fn asr_b(c: &mut HandlerContext) -> (res: OpRes)
    ensures
        (final(c)@, res) == spec_binop_b(old(c)@, BinOp::Asr),
{
    binop_b(c, BinOp::Asr)
}

/// Executes `ASR_W`.
pub fn asr_w(c: &mut HandlerContext) -> (res: OpRes)
    ensures
        (final(c)@, res) == spec_binop_w(old(c)@, BinOp::Asr),
{
    binop_w(c, BinOp::Asr)
}

/// Executes `LSR_B`.
pub fn lsr_b(c: &mut HandlerContext) -> (res: OpRes)
    ensures
        (final(c)@, res) == spec_binop_b(old(c)@, BinOp::Lsr),
{
    binop_b(c, BinOp::Lsr)
}

/// Executes `LSR_W`.
pub fn lsr_w(c: &mut HandlerContext) -> (res: OpRes)
    ensures
        (final(c)@, res) == spec_binop_w(old(c)@, BinOp::Lsr),
{
    binop_w(c, BinOp::Lsr)
}

/// `MUL_B upper, lower, a, b`: the double-width product of the registers
/// `a` and `b` goes to `upper` and `lower`, `upper` first.
pub open spec fn spec_mul_b(s: State) -> (State, OpRes) {
    let (s1, p1) = spec_arg_bb(s);
    match p1 {
        Err(t) => (s1, Err(t)),
        Ok((upper, lower)) => {
            let (s2, p2) = spec_arg_bb(s1);
            match p2 {
                Err(t) => (s2, Err(t)),
                Ok((a, b)) => {
                    let x = s2.cpu.byte(a);
                    let y = s2.cpu.byte(b);
                    let flagged = s2.cpu.with_flags(flags_mul_b(s2.cpu.flags, x, y));
                    (
                        s2.with_cpu(
                            flagged.with_byte(upper, product_upper_b(x, y)).with_byte(
                                lower,
                                product_lower_b(x, y),
                            ),
                        ),
                        Ok(()),
                    )
                },
            }
        },
    }
}

/// Executes `MUL_B`.
pub fn mul_b(c: &mut HandlerContext) -> (res: OpRes)
    ensures
        (final(c)@, res) == spec_mul_b(old(c)@),
{
    let (r1, r2) = arg_bb(c)?;
    let (r3, r4) = arg_bb(c)?;
    let (upper, lower) = mul_halves_b(c.cpu.read_br(r3), c.cpu.read_br(r4));
    c.cpu.flags.carry = upper != 0;
    c.cpu.flags.overflow = upper != 0;
    c.cpu.flags.zero = lower == 0;
    c.cpu.flags.sign = lower >= 0x80;
    c.cpu.write_br(r1, upper);
    c.cpu.write_br(r2, lower);
    Ok(())
}

/// `MUL_W upper, lower, a, b`: as `MUL_B`, on wide registers. The flags are
/// set before the writes, and `upper` is written before `lower`; a refused
/// write ends the instruction there.
pub open spec fn spec_mul_w(s: State) -> (State, OpRes) {
    let (s1, p1) = spec_arg_ww(s);
    match p1 {
        Err(t) => (s1, Err(t)),
        Ok((upper, lower)) => {
            let (s2, p2) = spec_arg_ww(s1);
            match p2 {
                Err(t) => (s2, Err(t)),
                Ok((a, b)) => match (s2.cpu.spec_read_wr(a), s2.cpu.spec_read_wr(b)) {
                    (Err(t), _) => (s2, Err(t)),
                    (Ok(_), Err(t)) => (s2, Err(t)),
                    (Ok(x), Ok(y)) => {
                        let flagged = s2.cpu.with_flags(flags_mul_w(s2.cpu.flags, x, y));
                        let (s3, w1) = spec_set_wide(
                            s2.with_cpu(flagged),
                            upper,
                            product_upper_w(x, y),
                        );
                        match w1 {
                            Err(t) => (s3, Err(t)),
                            Ok(_) => spec_set_wide(s3, lower, product_lower_w(x, y)),
                        }
                    },
                },
            }
        },
    }
}

/// Executes `MUL_W`.
pub fn mul_w(c: &mut HandlerContext) -> (res: OpRes)
    ensures
        (final(c)@, res) == spec_mul_w(old(c)@),
{
    let (r1, r2) = arg_ww(c)?;
    let (r3, r4) = arg_ww(c)?;
    let x = c.cpu.read_wr(r3)?;
    let y = c.cpu.read_wr(r4)?;
    let (upper, lower) = mul_halves_w(x, y);
    c.cpu.flags.carry = upper != 0;
    c.cpu.flags.overflow = upper != 0;
    c.cpu.flags.zero = lower == 0;
    c.cpu.flags.sign = lower >= 0x8000;
    c.cpu.write_wr(r1, upper)?;
    c.cpu.write_wr(r2, lower)
}

/// `DIV_B quot, rem, a, b`: quotient and remainder of the registers `a` and
/// `b` go to `quot` and `rem`, `quot` first. A zero divisor is `ZeroDiv`,
/// and nothing is written. The flags stay.
pub open spec fn spec_div_b(s: State) -> (State, OpRes) {
    let (s1, p1) = spec_arg_bb(s);
    match p1 {
        Err(t) => (s1, Err(t)),
        Ok((quot, rem)) => {
            let (s2, p2) = spec_arg_bb(s1);
            match p2 {
                Err(t) => (s2, Err(t)),
                Ok((a, b)) => {
                    let x = s2.cpu.byte(a);
                    let y = s2.cpu.byte(b);
                    if y == 0 {
                        (s2, Err(TrapMode::ZeroDiv))
                    } else {
                        (s2.with_cpu(s2.cpu.with_byte(quot, x / y).with_byte(rem, x % y)), Ok(()))
                    }
                },
            }
        },
    }
}

/// Executes `DIV_B`.
pub fn div_b(c: &mut HandlerContext) -> (res: OpRes)
    ensures
        (final(c)@, res) == spec_div_b(old(c)@),
{
    let (r1, r2) = arg_bb(c)?;
    let (r3, r4) = arg_bb(c)?;
    let n1 = c.cpu.read_br(r3);
    let n2 = c.cpu.read_br(r4);
    if n2 == 0 {
        return Err(TrapMode::ZeroDiv);
    }
    let upper = n1 / n2;
    let lower = n1 % n2;
    c.cpu.write_br(r1, upper);
    c.cpu.write_br(r2, lower);
    Ok(())
}

/// `DIV_W quot, rem, a, b`: as `DIV_B`, on wide registers; a refused write
/// ends the instruction there.
pub open spec fn spec_div_w(s: State) -> (State, OpRes) {
    let (s1, p1) = spec_arg_ww(s);
    match p1 {
        Err(t) => (s1, Err(t)),
        Ok((quot, rem)) => {
            let (s2, p2) = spec_arg_ww(s1);
            match p2 {
                Err(t) => (s2, Err(t)),
                Ok((a, b)) => match (s2.cpu.spec_read_wr(a), s2.cpu.spec_read_wr(b)) {
                    (Err(t), _) => (s2, Err(t)),
                    (Ok(_), Err(t)) => (s2, Err(t)),
                    (Ok(x), Ok(y)) => if y == 0 {
                        (s2, Err(TrapMode::ZeroDiv))
                    } else {
                        let (s3, w1) = spec_set_wide(s2, quot, x / y);
                        match w1 {
                            Err(t) => (s3, Err(t)),
                            Ok(_) => spec_set_wide(s3, rem, x % y),
                        }
                    },
                },
            }
        },
    }
}

/// Executes `DIV_W`.
pub fn div_w(c: &mut HandlerContext) -> (res: OpRes)
    ensures
        (final(c)@, res) == spec_div_w(old(c)@),
{
    let (r1, r2) = arg_ww(c)?;
    let (r3, r4) = arg_ww(c)?;
    let n1 = c.cpu.read_wr(r3)?;
    let n2 = c.cpu.read_wr(r4)?;
    if n2 == 0 {
        return Err(TrapMode::ZeroDiv);
    }
    let upper = n1 / n2;
    let lower = n1 % n2;
    c.cpu.write_wr(r1, upper)?;
    c.cpu.write_wr(r2, lower)
}

/// `PUSH_B src`.
pub open spec fn spec_push_b(s: State) -> (State, OpRes) {
    let (s1, p) = spec_arg_b0(s);
    match p {
        Err(t) => (s1, Err(t)),
        Ok(src) => s1.pushb(s1.cpu.byte(src)),
    }
}

/// Executes `PUSH_B`.
pub fn push_b(c: &mut HandlerContext) -> (res: OpRes)
    ensures
        (final(c)@, res) == spec_push_b(old(c)@),
{
    let b = arg_b0(c)?;
    let b = c.cpu.read_br(b);
    c.pushb(b)
}

/// `PUSH_W src`.
pub open spec fn spec_push_w(s: State) -> (State, OpRes) {
    let (s1, p) = spec_arg_w0(s);
    match p {
        Err(t) => (s1, Err(t)),
        Ok(src) => match s1.cpu.spec_read_wr(src) {
            Err(t) => (s1, Err(t)),
            Ok(w) => s1.pushw(w),
        },
    }
}

/// Executes `PUSH_W`.
pub fn push_w(c: &mut HandlerContext) -> (res: OpRes)
    ensures
        (final(c)@, res) == spec_push_w(old(c)@),
{
    let w = arg_w0(c)?;
    let w = c.cpu.read_wr(w)?;
    c.pushw(w)
}

/// `POP_B dst`.
pub open spec fn spec_pop_b(s: State) -> (State, OpRes) {
    let (s1, p) = spec_arg_b0(s);
    match p {
        Err(t) => (s1, Err(t)),
        Ok(dst) => {
            let (s2, v) = s1.popb();
            match v {
                Err(t) => (s2, Err(t)),
                Ok(b) => (s2.with_cpu(s2.cpu.with_byte(dst, b)), Ok(())),
            }
        },
    }
}

/// Executes `POP_B`.
pub fn pop_b(c: &mut HandlerContext) -> (res: OpRes)
    ensures
        (final(c)@, res) == spec_pop_b(old(c)@),
{
    let r1 = arg_b0(c)?;
    let b = c.popb()?;
    c.cpu.write_br(r1, b);
    Ok(())
}

/// `POP_W dst`. Where the write to `dst` is refused the value has been
/// popped.
pub open spec fn spec_pop_w(s: State) -> (State, OpRes) {
    let (s1, p) = spec_arg_w0(s);
    match p {
        Err(t) => (s1, Err(t)),
        Ok(dst) => {
            let (s2, v) = s1.popw();
            match v {
                Err(t) => (s2, Err(t)),
                Ok(w) => spec_set_wide(s2, dst, w),
            }
        },
    }
}

/// Executes `POP_W`.
pub fn pop_w(c: &mut HandlerContext) -> (res: OpRes)
    ensures
        (final(c)@, res) == spec_pop_w(old(c)@),
{
    let r1 = arg_w0(c)?;
    let w = c.popw()?;
    c.cpu.write_wr(r1, w)
}

/// `CALL target`: the link register takes the address of the next
/// instruction, the program counter the target.
pub open spec fn spec_call(s: State) -> (State, OpRes) {
    let (s1, p) = spec_arg_imm_wide(s);
    match p {
        Err(t) => (s1, Err(t)),
        Ok(target) => (
            s1.with_cpu(Cpu { link: s1.cpu.program_counter, program_counter: target, ..s1.cpu }),
            Ok(()),
        ),
    }
}

/// Executes `CALL`.
pub fn call(c: &mut HandlerContext) -> (res: OpRes)
    ensures
        (final(c)@, res) == spec_call(old(c)@),
{
    let w = arg_imm_wide(c)?;
    c.cpu.link = c.cpu.program_counter;
    c.cpu.program_counter = w;
    Ok(())
}

/// `RET count`: the stack pointer goes up by `count`, wrapping, and the
/// program counter takes the link register.
pub open spec fn spec_ret(s: State) -> (State, OpRes) {
    let (s1, p) = s.fetch();
    match p {
        Err(t) => (s1, Err(t)),
        Ok(count) => (
            s1.with_cpu(
                Cpu {
                    stack: wrap16(s1.cpu.stack + count),
                    program_counter: s1.cpu.link,
                    ..s1.cpu
                },
            ),
            Ok(()),
        ),
    }
}

/// Executes `RET`.
pub fn ret(c: &mut HandlerContext) -> (res: OpRes)
    ensures
        (final(c)@, res) == spec_ret(old(c)@),
{
    let b = arg_imm_byte(c)?;
    c.cpu.stack = add16(c.cpu.stack, b as u16);
    c.cpu.program_counter = c.cpu.link;
    Ok(())
}

/// `STORE_BI base, src, offset`: the byte register `src` goes to the
/// address `base + offset`, wrapping.
pub open spec fn spec_store_bi(s: State) -> (State, OpRes) {
    let (s1, p1) = spec_arg_wb(s);
    match p1 {
        Err(t) => (s1, Err(t)),
        Ok((base, src)) => {
            let (s2, p2) = spec_arg_imm_wide(s1);
            match p2 {
                Err(t) => (s2, Err(t)),
                Ok(offset) => match s2.cpu.spec_read_wr(base) {
                    Err(t) => (s2, Err(t)),
                    Ok(b) => s2.write(wrap16(b + offset), s2.cpu.byte(src)),
                },
            }
        },
    }
}

/// Executes `STORE_BI`.
pub fn store_bi(c: &mut HandlerContext) -> (res: OpRes)
    ensures
        (final(c)@, res) == spec_store_bi(old(c)@),
{
    let (r1, r2) = arg_wb(c)?;
    let offset = arg_imm_wide(c)?;
    let addr = add16(c.cpu.read_wr(r1)?, offset);
    let v = c.cpu.read_br(r2);
    c.write(addr, v)
}

/// `STORE_BR base, offset, src`: as `STORE_BI`, with the offset in a wide
/// register.
pub open spec fn spec_store_br(s: State) -> (State, OpRes) {
    let (s1, p1) = spec_arg_ww(s);
    match p1 {
        Err(t) => (s1, Err(t)),
        Ok((base, offset)) => {
            let (s2, p2) = spec_arg_b0(s1);
            match p2 {
                Err(t) => (s2, Err(t)),
                Ok(src) => match (s2.cpu.spec_read_wr(offset), s2.cpu.spec_read_wr(base)) {
                    (Err(t), _) => (s2, Err(t)),
                    (Ok(_), Err(t)) => (s2, Err(t)),
                    (Ok(o), Ok(b)) => s2.write(wrap16(b + o), s2.cpu.byte(src)),
                },
            }
        },
    }
}

/// Executes `STORE_BR`.
pub fn store_br(c: &mut HandlerContext) -> (res: OpRes)
    ensures
        (final(c)@, res) == spec_store_br(old(c)@),
{
    let (r1, r2) = arg_ww(c)?;
    let r3 = arg_b0(c)?;
    let offset = c.cpu.read_wr(r2)?;
    let addr = add16(c.cpu.read_wr(r1)?, offset);
    let v = c.cpu.read_br(r3);
    c.write(addr, v)
}

/// `STORE_WI base, src, offset`: the wide register `src` goes to the
/// address `base + offset`, wrapping, low byte first.
pub open spec fn spec_store_wi(s: State) -> (State, OpRes) {
    let (s1, p1) = spec_arg_ww(s);
    match p1 {
        Err(t) => (s1, Err(t)),
        Ok((base, src)) => {
            let (s2, p2) = spec_arg_imm_wide(s1);
            match p2 {
                Err(t) => (s2, Err(t)),
                Ok(offset) => match (s2.cpu.spec_read_wr(base), s2.cpu.spec_read_wr(src)) {
                    (Err(t), _) => (s2, Err(t)),
                    (Ok(_), Err(t)) => (s2, Err(t)),
                    (Ok(b), Ok(w)) => s2.write_wide(wrap16(b + offset), w),
                },
            }
        },
    }
}

/// Executes `STORE_WI`.
pub fn store_wi(c: &mut HandlerContext) -> (res: OpRes)
    ensures
        (final(c)@, res) == spec_store_wi(old(c)@),
{
    let (r1, r2) = arg_ww(c)?;
    let offset = arg_imm_wide(c)?;
    let addr = add16(c.cpu.read_wr(r1)?, offset);
    let w = c.cpu.read_wr(r2)?;
    c.write_wide(addr, w)
}

/// `STORE_WR base, offset, src`: as `STORE_WI`, with the offset in a wide
/// register.
pub open spec fn spec_store_wr(s: State) -> (State, OpRes) {
    let (s1, p1) = spec_arg_ww(s);
    match p1 {
        Err(t) => (s1, Err(t)),
        Ok((base, offset)) => {
            let (s2, p2) = spec_arg_w0(s1);
            match p2 {
                Err(t) => (s2, Err(t)),
                Ok(src) => match (
                    s2.cpu.spec_read_wr(offset),
                    s2.cpu.spec_read_wr(base),
                    s2.cpu.spec_read_wr(src),
                ) {
                    (Err(t), _, _) => (s2, Err(t)),
                    (Ok(_), Err(t), _) => (s2, Err(t)),
                    (Ok(_), Ok(_), Err(t)) => (s2, Err(t)),
                    (Ok(o), Ok(b), Ok(w)) => s2.write_wide(wrap16(b + o), w),
                },
            }
        },
    }
}

/// Executes `STORE_WR`.
pub fn store_wr(c: &mut HandlerContext) -> (res: OpRes)
    ensures
        (final(c)@, res) == spec_store_wr(old(c)@),
{
    let (r1, r2) = arg_ww(c)?;
    let r3 = arg_w0(c)?;
    let offset = c.cpu.read_wr(r2)?;
    let addr = add16(c.cpu.read_wr(r1)?, offset);
    let w = c.cpu.read_wr(r3)?;
    c.write_wide(addr, w)
}

/// `LOAD_BI dst, base, offset`: the byte at `base + offset`, wrapping, goes
/// to the byte register `dst`.
pub open spec fn spec_load_bi(s: State) -> (State, OpRes) {
    let (s1, p1) = spec_arg_bw(s);
    match p1 {
        Err(t) => (s1, Err(t)),
        Ok((dst, base)) => {
            let (s2, p2) = spec_arg_imm_wide(s1);
            match p2 {
                Err(t) => (s2, Err(t)),
                Ok(offset) => match s2.cpu.spec_read_wr(base) {
                    Err(t) => (s2, Err(t)),
                    Ok(b) => match s2.read(wrap16(b + offset)) {
                        Err(t) => (s2, Err(t)),
                        Ok(v) => (s2.with_cpu(s2.cpu.with_byte(dst, v)), Ok(())),
                    },
                },
            }
        },
    }
}

/// Executes `LOAD_BI`.
pub fn load_bi(c: &mut HandlerContext) -> (res: OpRes)
    ensures
        (final(c)@, res) == spec_load_bi(old(c)@),
{
    let (r1, r2) = arg_bw(c)?;
    let offset = arg_imm_wide(c)?;
    let addr = add16(c.cpu.read_wr(r2)?, offset);
    let val = c.read(addr)?;
    c.cpu.write_br(r1, val);
    Ok(())
}

/// `LOAD_BR dst, base, offset`: as `LOAD_BI`, with the offset in a wide
/// register.
pub open spec fn spec_load_br(s: State) -> (State, OpRes) {
    let (s1, p1) = spec_arg_bw(s);
    match p1 {
        Err(t) => (s1, Err(t)),
        Ok((dst, base)) => {
            let (s2, p2) = spec_arg_w0(s1);
            match p2 {
                Err(t) => (s2, Err(t)),
                Ok(offset) => match (s2.cpu.spec_read_wr(offset), s2.cpu.spec_read_wr(base)) {
                    (Err(t), _) => (s2, Err(t)),
                    (Ok(_), Err(t)) => (s2, Err(t)),
                    (Ok(o), Ok(b)) => match s2.read(wrap16(b + o)) {
                        Err(t) => (s2, Err(t)),
                        Ok(v) => (s2.with_cpu(s2.cpu.with_byte(dst, v)), Ok(())),
                    },
                },
            }
        },
    }
}

/// Executes `LOAD_BR`.
pub fn load_br(c: &mut HandlerContext) -> (res: OpRes)
    ensures
        (final(c)@, res) == spec_load_br(old(c)@),
{
    let (r1, r2) = arg_bw(c)?;
    let r3 = arg_w0(c)?;
    let offset = c.cpu.read_wr(r3)?;
    let addr = add16(c.cpu.read_wr(r2)?, offset);
    let val = c.read(addr)?;
    c.cpu.write_br(r1, val);
    Ok(())
}

/// `LOAD_WI dst, base, offset`: the wide value at `base + offset`,
/// wrapping, goes to the wide register `dst`.
pub open spec fn spec_load_wi(s: State) -> (State, OpRes) {
    let (s1, p1) = spec_arg_ww(s);
    match p1 {
        Err(t) => (s1, Err(t)),
        Ok((dst, base)) => {
            let (s2, p2) = spec_arg_imm_wide(s1);
            match p2 {
                Err(t) => (s2, Err(t)),
                Ok(offset) => match s2.cpu.spec_read_wr(base) {
                    Err(t) => (s2, Err(t)),
                    Ok(b) => match s2.read_wide(wrap16(b + offset)) {
                        Err(t) => (s2, Err(t)),
                        Ok(w) => spec_set_wide(s2, dst, w),
                    },
                },
            }
        },
    }
}

/// Executes `LOAD_WI`.
pub fn load_wi(c: &mut HandlerContext) -> (res: OpRes)
    ensures
        (final(c)@, res) == spec_load_wi(old(c)@),
{
    let (r1, r2) = arg_ww(c)?;
    let offset = arg_imm_wide(c)?;
    let addr = add16(c.cpu.read_wr(r2)?, offset);
    let val = c.read_wide(addr)?;
    c.cpu.write_wr(r1, val)
}

/// `LOAD_WR dst, base, offset`: as `LOAD_WI`, with the offset in a wide
/// register.
pub open spec fn spec_load_wr(s: State) -> (State, OpRes) {
    let (s1, p1) = spec_arg_ww(s);
    match p1 {
        Err(t) => (s1, Err(t)),
        Ok((dst, base)) => {
            let (s2, p2) = spec_arg_w0(s1);
            match p2 {
                Err(t) => (s2, Err(t)),
                Ok(offset) => match (s2.cpu.spec_read_wr(offset), s2.cpu.spec_read_wr(base)) {
                    (Err(t), _) => (s2, Err(t)),
                    (Ok(_), Err(t)) => (s2, Err(t)),
                    (Ok(o), Ok(b)) => match s2.read_wide(wrap16(b + o)) {
                        Err(t) => (s2, Err(t)),
                        Ok(w) => spec_set_wide(s2, dst, w),
                    },
                },
            }
        },
    }
}

/// Executes `LOAD_WR`.
pub fn load_wr(c: &mut HandlerContext) -> (res: OpRes)
    ensures
        (final(c)@, res) == spec_load_wr(old(c)@),
{
    let (r1, r2) = arg_ww(c)?;
    let r3 = arg_w0(c)?;
    let offset = c.cpu.read_wr(r3)?;
    let addr = add16(c.cpu.read_wr(r2)?, offset);
    let val = c.read_wide(addr)?;
    c.cpu.write_wr(r1, val)
}

/// The conditions of the conditional jumps.
#[derive(Clone, Copy, Debug, PartialEq, Eq, Structural)]
pub enum Condition {
    /// Equal, or zero.
    Ez,
    /// Signed less.
    Lt,
    /// Signed less or equal.
    Le,
    /// Signed greater.
    Gt,
    /// Signed greater or equal.
    Ge,
    /// Not equal, or not zero.
    Nz,
    /// Signed overflow.
    O,
    /// No signed overflow.
    No,
    /// Unsigned above.
    A,
    /// Unsigned above or equal: no carry.
    Ae,
    /// Unsigned below: carry.
    B,
    /// Unsigned below or equal.
    Be,
}

impl Condition {
    /// Whether the condition holds of the flags. The signed conditions go
    /// by `sign` against `overflow`, the unsigned ones by `carry`; the
    /// inclusive and exclusive ones also by `zero`.
    pub open spec fn spec_holds(self, f: Flags) -> bool {
        match self {
            Condition::Ez => f.zero,
            Condition::Lt => f.sign != f.overflow,
            Condition::Le => f.sign != f.overflow || f.zero,
            Condition::Gt => f.sign == f.overflow && !f.zero,
            Condition::Ge => f.sign == f.overflow,
            Condition::Nz => !f.zero,
            Condition::O => f.overflow,
            Condition::No => !f.overflow,
            Condition::A => !f.carry && !f.zero,
            Condition::Ae => !f.carry,
            Condition::B => f.carry,
            Condition::Be => f.carry || f.zero,
        }
    }

    /// Whether the condition holds of the flags.
    #[verifier::when_used_as_spec(spec_holds)]
    pub fn holds(self, f: Flags) -> (h: bool)
        ensures
            h == self.spec_holds(f),
    {
        match self {
            Condition::Ez => f.zero,
            Condition::Lt => f.sign != f.overflow,
            Condition::Le => f.sign != f.overflow || f.zero,
            Condition::Gt => f.sign == f.overflow && !f.zero,
            Condition::Ge => f.sign == f.overflow,
            Condition::Nz => !f.zero,
            Condition::O => f.overflow,
            Condition::No => !f.overflow,
            Condition::A => !f.carry && !f.zero,
            Condition::Ae => !f.carry,
            Condition::B => f.carry,
            Condition::Be => f.carry || f.zero,
        }
    }
}

/// A conditional jump: the target is fetched, and the program counter takes
/// it if the condition holds.
pub open spec fn spec_jif(cond: bool, s: State) -> (State, OpRes) {
    let (s1, p) = spec_arg_imm_wide(s);
    match p {
        Err(t) => (s1, Err(t)),
        Ok(target) => if cond {
            (s1.with_cpu(s1.cpu.with_pc(target)), Ok(()))
        } else {
            (s1, Ok(()))
        },
    }
}

/// Executes a conditional jump whose condition has been found to be `cond`.
pub fn jif(cond: bool, c: &mut HandlerContext) -> (res: OpRes)
    ensures
        (final(c)@, res) == spec_jif(cond, old(c)@),
{
    let location = arg_imm_wide(c)?;
    if cond {
        c.cpu.program_counter = location;
    }
    Ok(())
}

/// Executes `JEZ`.
pub fn jez(c: &mut HandlerContext) -> (res: OpRes)
    ensures
        (final(c)@, res) == spec_jif(Condition::Ez.spec_holds(old(c).cpu.flags), old(c)@),
{
    jif(Condition::Ez.holds(c.cpu.flags), c)
}

/// Executes `JLT`.
pub fn jlt(c: &mut HandlerContext) -> (res: OpRes)
    ensures
        (final(c)@, res) == spec_jif(Condition::Lt.spec_holds(old(c).cpu.flags), old(c)@),
{
    jif(Condition::Lt.holds(c.cpu.flags), c)
}

/// Executes `JLE`.
pub fn jle(c: &mut HandlerContext) -> (res: OpRes)
    ensures
        (final(c)@, res) == spec_jif(Condition::Le.spec_holds(old(c).cpu.flags), old(c)@),
{
    jif(Condition::Le.holds(c.cpu.flags), c)
}

/// Executes `JGT`.
pub fn jgt(c: &mut HandlerContext) -> (res: OpRes)
    ensures
        (final(c)@, res) == spec_jif(Condition::Gt.spec_holds(old(c).cpu.flags), old(c)@),
{
    jif(Condition::Gt.holds(c.cpu.flags), c)
}

/// Executes `JGE`.
pub fn jge(c: &mut HandlerContext) -> (res: OpRes)
    ensures
        (final(c)@, res) == spec_jif(Condition::Ge.spec_holds(old(c).cpu.flags), old(c)@),
{
    jif(Condition::Ge.holds(c.cpu.flags), c)
}

/// Executes `JNZ`.
pub fn jnz(c: &mut HandlerContext) -> (res: OpRes)
    ensures
        (final(c)@, res) == spec_jif(Condition::Nz.spec_holds(old(c).cpu.flags), old(c)@),
{
    jif(Condition::Nz.holds(c.cpu.flags), c)
}

/// Executes `JO`.
pub fn jo(c: &mut HandlerContext) -> (res: OpRes)
    ensures
        (final(c)@, res) == spec_jif(Condition::O.spec_holds(old(c).cpu.flags), old(c)@),
{
    jif(Condition::O.holds(c.cpu.flags), c)
}

/// Executes `JNO`.
pub fn jno(c: &mut HandlerContext) -> (res: OpRes)
    ensures
        (final(c)@, res) == spec_jif(Condition::No.spec_holds(old(c).cpu.flags), old(c)@),
{
    jif(Condition::No.holds(c.cpu.flags), c)
}

/// Executes `JA`.
pub fn ja(c: &mut HandlerContext) -> (res: OpRes)
    ensures
        (final(c)@, res) == spec_jif(Condition::A.spec_holds(old(c).cpu.flags), old(c)@),
{
    jif(Condition::A.holds(c.cpu.flags), c)
}

/// Executes `JAE`.
pub fn jae(c: &mut HandlerContext) -> (res: OpRes)
    ensures
        (final(c)@, res) == spec_jif(Condition::Ae.spec_holds(old(c).cpu.flags), old(c)@),
{
    jif(Condition::Ae.holds(c.cpu.flags), c)
}

/// Executes `JB`.
pub fn jb(c: &mut HandlerContext) -> (res: OpRes)
    ensures
        (final(c)@, res) == spec_jif(Condition::B.spec_holds(old(c).cpu.flags), old(c)@),
{
    jif(Condition::B.holds(c.cpu.flags), c)
}

/// Executes `JBE`.
pub fn jbe(c: &mut HandlerContext) -> (res: OpRes)
    ensures
        (final(c)@, res) == spec_jif(Condition::Be.spec_holds(old(c).cpu.flags), old(c)@),
{
    jif(Condition::Be.holds(c.cpu.flags), c)
}

/// `LDI_B dst, value`.
pub open spec fn spec_ldi_b(s: State) -> (State, OpRes) {
    let (s1, p1) = spec_arg_b0(s);
    match p1 {
        Err(t) => (s1, Err(t)),
        Ok(dst) => {
            let (s2, p2) = s1.fetch();
            match p2 {
                Err(t) => (s2, Err(t)),
                Ok(v) => (s2.with_cpu(s2.cpu.with_byte(dst, v)), Ok(())),
            }
        },
    }
}

/// Executes `LDI_B`.
pub fn ldi_b(c: &mut HandlerContext) -> (res: OpRes)
    ensures
        (final(c)@, res) == spec_ldi_b(old(c)@),
{
    let r1 = arg_b0(c)?;
    let b = arg_imm_byte(c)?;
    c.cpu.write_br(r1, b);
    Ok(())
}

/// `LDI_W reg, variant, value`. Variant 0 loads the value into the
/// register. Variant 1 jumps: to the value where the register is the zero
/// register, else to what the register holds. Any other variant is
/// `Invalid`.
pub open spec fn spec_ldi_w(s: State) -> (State, OpRes) {
    let (s1, p1) = spec_arg_wn(s);
    match p1 {
        Err(t) => (s1, Err(t)),
        Ok((reg, variant)) => {
            let (s2, p2) = spec_arg_imm_wide(s1);
            match p2 {
                Err(t) => (s2, Err(t)),
                Ok(value) => if variant == 0 {
                    spec_set_wide(s2, reg, value)
                } else if variant == 1 {
                    if reg == WReg::R0 {
                        (s2.with_cpu(s2.cpu.with_pc(value)), Ok(()))
                    } else {
                        match s2.cpu.spec_read_wr(reg) {
                            Err(t) => (s2, Err(t)),
                            Ok(target) => (s2.with_cpu(s2.cpu.with_pc(target)), Ok(())),
                        }
                    }
                } else {
                    (s2, Err(TrapMode::Invalid))
                },
            }
        },
    }
}

/// Executes `LDI_W`.
pub fn ldi_w(c: &mut HandlerContext) -> (res: OpRes)
    ensures
        (final(c)@, res) == spec_ldi_w(old(c)@),
{
    let (r1, o) = arg_wn(c)?;
    let w = arg_imm_wide(c)?;
    if o == 0 {
        c.cpu.write_wr(r1, w)
    } else if o == 1 {
        if r1 == WReg::R0 {
            c.cpu.program_counter = w;
        } else {
            c.cpu.program_counter = c.cpu.read_wr(r1)?;
        }
        Ok(())
    } else {
        Err(TrapMode::Invalid)
    }
}

/// The engine reads operand bytes as the encoder writes them: a byte that
/// packs two register selectors gives those registers back, whatever their
/// widths; a register packed with a zero nibble gives that register; and
/// the two bytes of a wide immediate, low byte first, give the immediate.
pub proof fn lemma_reads_what_was_encoded(s: State, a: WReg, b: WReg, x: BReg, y: BReg, w: u16)
    ensures
        s.fetch().1 == Ok::<u8, TrapMode>(pair_byte(a.selector(), b.selector())) ==> spec_arg_ww(
            s,
        ).1 == Ok::<(WReg, WReg), TrapMode>((a, b)),
        s.fetch().1 == Ok::<u8, TrapMode>(pair_byte(x.selector(), y.selector())) ==> spec_arg_bb(
            s,
        ).1 == Ok::<(BReg, BReg), TrapMode>((x, y)),
        s.fetch().1 == Ok::<u8, TrapMode>(pair_byte(a.selector(), x.selector())) ==> spec_arg_wb(
            s,
        ).1 == Ok::<(WReg, BReg), TrapMode>((a, x)),
        s.fetch().1 == Ok::<u8, TrapMode>(pair_byte(x.selector(), a.selector())) ==> spec_arg_bw(
            s,
        ).1 == Ok::<(BReg, WReg), TrapMode>((x, a)),
        s.fetch().1 == Ok::<u8, TrapMode>(pair_byte(a.selector(), 0)) ==> spec_arg_w0(s).1 == Ok::<
            WReg,
            TrapMode,
        >(a),
        s.fetch().1 == Ok::<u8, TrapMode>(pair_byte(x.selector(), 0)) ==> spec_arg_b0(s).1 == Ok::<
            BReg,
            TrapMode,
        >(x),
        s.fetch().1 == Ok::<u8, TrapMode>((w % 256) as u8) && s.fetch().0.fetch().1 == Ok::<
            u8,
            TrapMode,
        >((w / 256) as u8) ==> spec_arg_imm_wide(s).1 == Ok::<u16, TrapMode>(w),
{
    lemma_pair_wide_wide(a, b);
    lemma_pair_byte_byte(x, y);
    lemma_pair_wide_byte(a, x);
    lemma_pair_byte_wide(x, a);
    lemma_pair_wide_zero(a);
    lemma_pair_byte_zero(x);
}

} // verus!
