use telda2::alu::{alu_b, alu_w, BinOp};
use telda2::context::HandlerContext;
use telda2::cpu::{Cpu, Flags, TrapMode, TrapVectors};
use telda2::engine::{run, step, Step};
use telda2::isa;
use telda2::memory::Memory;
use telda2::registers::{BReg, WReg};

fn machine(program: &[u8]) -> HandlerContext {
    let mut memory = Memory::new(0x1_0000);
    assert!(memory.load_at(0, &program.to_vec()));
    HandlerContext::new(Cpu::new(), memory)
}

#[test]
fn ldi_w_loads_the_immediate() {
    let mut c = machine(&[isa::LDI_W, 0x10, 0x34, 0x12]);
    assert_eq!(step(&mut c), Step::Retired);
    assert_eq!(c.cpu.r1, 0x1234);
    assert_eq!(c.cpu.program_counter, 4);
}

#[test]
fn ldi_w_variant_one_jumps_to_the_immediate() {
    let mut c = machine(&[isa::LDI_W, 0x01, 0x00, 0x01]);
    assert_eq!(step(&mut c), Step::Retired);
    assert_eq!(c.cpu.program_counter, 0x0100);
}

#[test]
fn ldi_w_variant_one_jumps_to_a_register() {
    let mut c = machine(&[isa::LDI_W, 0x21, 0x00, 0x00]);
    c.cpu.r2 = 0x4321;
    assert_eq!(step(&mut c), Step::Retired);
    assert_eq!(c.cpu.program_counter, 0x4321);
}

#[test]
fn ldi_w_other_variants_are_invalid() {
    let mut c = machine(&[isa::LDI_W, 0x12, 0x00, 0x00]);
    assert_eq!(step(&mut c), Step::Fatal(TrapMode::Invalid));
    assert_eq!(c.cpu, Cpu::new());
}

#[test]
fn div_w_by_zero_traps_and_writes_nothing() {
    let mut c = machine(&[isa::DIV_W, 0x12, 0x34]);
    c.cpu.r1 = 7;
    c.cpu.r2 = 9;
    c.cpu.r3 = 100;
    c.cpu.r4 = 0;
    let before = c.cpu;
    assert_eq!(step(&mut c), Step::Fatal(TrapMode::ZeroDiv));
    assert_eq!(c.cpu.r1, 7);
    assert_eq!(c.cpu.r2, 9);
    assert_eq!(c.cpu, before);
}

#[test]
fn div_w_gives_quotient_and_remainder() {
    let mut c = machine(&[isa::DIV_W, 0x12, 0x34]);
    c.cpu.r3 = 100;
    c.cpu.r4 = 7;
    assert_eq!(step(&mut c), Step::Retired);
    assert_eq!(c.cpu.r1, 14);
    assert_eq!(c.cpu.r2, 2);
}

#[test]
fn pstore_from_user_mode_is_illegal() {
    let mut c = machine(&[isa::PSTORE, 0x12, 0x30]);
    c.cpu.flags.user_mode = true;
    c.cpu.r1 = 0x0000;
    c.cpu.r2 = 0x0200;
    c.cpu.r3 = 0x00aa;
    let before = c.cpu;
    assert_eq!(step(&mut c), Step::Fatal(TrapMode::IllegalOperation));
    assert_eq!(c.cpu, before);
    for addr in 0..0x1_0000u32 {
        let expected = match addr {
            0 => isa::PSTORE,
            1 => 0x12,
            2 => 0x30,
            _ => 0,
        };
        assert_eq!(c.memory.read(addr), Ok(expected));
    }
}

#[test]
fn pstore_and_pload_reach_physical_memory() {
    // pstore r1l, r2, r2h ; pload r3l, r1l, r2
    let mut memory = Memory::new(0x3_0000);
    assert!(memory.load_at(0, &vec![isa::PSTORE, 0x12, 0x40, isa::PLOAD, 0x51, 0x20]));
    let mut c = HandlerContext::new(Cpu::new(), memory);
    c.cpu.r1 = 0x0002;
    c.cpu.r2 = 0x7710;
    assert_eq!(step(&mut c), Step::Retired);
    assert_eq!(c.memory.read(0x2_7710), Ok(0x77));
    assert_eq!(step(&mut c), Step::Retired);
    assert_eq!(c.cpu.r3, 0x0077);
}

#[test]
fn every_privileged_opcode_is_refused_in_user_mode() {
    for op in [isa::USR, isa::VMON, isa::VMOFF, isa::PSTORE, isa::PLOAD, isa::CTF] {
        let mut c = machine(&[op, 0x00, 0x00]);
        c.cpu.flags.user_mode = true;
        let before = c.cpu;
        assert_eq!(step(&mut c), Step::Fatal(TrapMode::IllegalOperation));
        assert_eq!(c.cpu, before);
    }
}

#[test]
fn call_links_and_ret_returns() {
    let mut memory = Memory::new(0x1_0000);
    assert!(memory.load_at(0x0010, &vec![isa::CALL, 0x80, 0x00]));
    assert!(memory.load_at(0x0080, &vec![isa::RET, 0x00]));
    let mut c = HandlerContext::new(Cpu::new(), memory);
    c.cpu.program_counter = 0x0010;
    c.cpu.stack = 0x8000;
    assert_eq!(step(&mut c), Step::Retired);
    assert_eq!(c.cpu.link, 0x0013);
    assert_eq!(c.cpu.program_counter, 0x0080);
    assert_eq!(step(&mut c), Step::Retired);
    assert_eq!(c.cpu.program_counter, 0x0013);
    assert_eq!(c.cpu.stack, 0x8000);
}

#[test]
fn ret_pops_the_arguments() {
    let mut c = machine(&[isa::RET, 0x06]);
    c.cpu.stack = 0xfffc;
    c.cpu.link = 0x0200;
    assert_eq!(step(&mut c), Step::Retired);
    assert_eq!(c.cpu.stack, 0x0002);
    assert_eq!(c.cpu.program_counter, 0x0200);
}

#[test]
fn mul_b_splits_the_product() {
    // mul r1l, r1h, r2l, r2h with r2l = 0xff, r2h = 0x02
    let mut c = machine(&[isa::MUL_B, 0x12, 0x34]);
    c.cpu.r2 = 0x02ff;
    assert_eq!(step(&mut c), Step::Retired);
    assert_eq!(c.cpu.read_br(BReg::R1l), 0x01);
    assert_eq!(c.cpu.read_br(BReg::R1h), 0xfe);
    assert!(c.cpu.flags.carry);
    assert!(c.cpu.flags.overflow);
    assert!(c.cpu.flags.sign);
    assert!(!c.cpu.flags.zero);
}

#[test]
fn mul_w_splits_the_product() {
    let mut c = machine(&[isa::MUL_W, 0x12, 0x34]);
    c.cpu.r3 = 0x1234;
    c.cpu.r4 = 0x0100;
    assert_eq!(step(&mut c), Step::Retired);
    assert_eq!(c.cpu.r1, 0x0012);
    assert_eq!(c.cpu.r2, 0x3400);
    assert!(c.cpu.flags.carry && c.cpu.flags.overflow);
    assert!(!c.cpu.flags.sign && !c.cpu.flags.zero);
}

#[test]
fn add_w_three_registers() {
    let mut c = machine(&[isa::ADD_W, 0x12, 0x30]);
    c.cpu.r2 = 0xffff;
    c.cpu.r3 = 0x0001;
    assert_eq!(step(&mut c), Step::Retired);
    assert_eq!(c.cpu.r1, 0);
    assert!(c.cpu.flags.zero && c.cpu.flags.carry);
    assert!(!c.cpu.flags.overflow && !c.cpu.flags.sign);
    assert_eq!(c.cpu.program_counter, 3);
}

#[test]
fn a_nonzero_zero_nibble_is_invalid() {
    let mut c = machine(&[isa::ADD_W, 0x12, 0x31]);
    assert_eq!(step(&mut c), Step::Fatal(TrapMode::Invalid));
    let mut c = machine(&[isa::PUSH_B, 0x11]);
    assert_eq!(step(&mut c), Step::Fatal(TrapMode::Invalid));
}

#[test]
fn flags_of_byte_addition() {
    assert_eq!(alu_b(BinOp::Add, 0x7f, 0x01), (0x80, false, true));
    assert_eq!(alu_b(BinOp::Add, 0xff, 0x01), (0x00, true, false));
    assert_eq!(alu_b(BinOp::Add, 0x80, 0x80), (0x00, true, true));
    assert_eq!(alu_b(BinOp::Add, 0x01, 0x02), (0x03, false, false));
}

#[test]
fn flags_of_byte_subtraction() {
    assert_eq!(alu_b(BinOp::Sub, 0x00, 0x01), (0xff, true, false));
    assert_eq!(alu_b(BinOp::Sub, 0x80, 0x01), (0x7f, false, true));
    assert_eq!(alu_b(BinOp::Sub, 0x05, 0x05), (0x00, false, false));
}

#[test]
fn flags_of_wide_addition_and_subtraction() {
    assert_eq!(alu_w(BinOp::Add, 0x7fff, 0x0001), (0x8000, false, true));
    assert_eq!(alu_w(BinOp::Add, 0xffff, 0x0002), (0x0001, true, false));
    assert_eq!(alu_w(BinOp::Sub, 0x0000, 0x0001), (0xffff, true, false));
    assert_eq!(alu_w(BinOp::Sub, 0x8000, 0x0001), (0x7fff, false, true));
}

#[test]
fn bitwise_operations_clear_carry_and_overflow() {
    assert_eq!(alu_b(BinOp::And, 0xf0, 0x3c), (0x30, false, false));
    assert_eq!(alu_b(BinOp::Or, 0xf0, 0x3c), (0xfc, false, false));
    assert_eq!(alu_b(BinOp::Xor, 0xf0, 0x3c), (0xcc, false, false));
    assert_eq!(alu_w(BinOp::And, 0xff00, 0x0ff0), (0x0f00, false, false));
    assert_eq!(alu_w(BinOp::Or, 0xff00, 0x0ff0), (0xfff0, false, false));
    assert_eq!(alu_w(BinOp::Xor, 0xff00, 0x0ff0), (0xf0f0, false, false));
}

#[test]
fn shifts() {
    assert_eq!(alu_b(BinOp::Shl, 0x81, 1), (0x02, false, false));
    assert_eq!(alu_b(BinOp::Shl, 0x81, 8), (0x00, false, false));
    assert_eq!(alu_b(BinOp::Lsr, 0x81, 1), (0x40, false, false));
    assert_eq!(alu_b(BinOp::Lsr, 0x81, 200), (0x00, false, false));
    assert_eq!(alu_b(BinOp::Asr, 0x81, 1), (0xc0, false, false));
    assert_eq!(alu_b(BinOp::Asr, 0x41, 1), (0x20, false, false));
    assert_eq!(alu_b(BinOp::Asr, 0x81, 9), (0xff, false, false));
    assert_eq!(alu_b(BinOp::Asr, 0x41, 9), (0x00, false, false));
    assert_eq!(alu_w(BinOp::Shl, 0x8001, 4), (0x0010, false, false));
    assert_eq!(alu_w(BinOp::Shl, 0x8001, 16), (0x0000, false, false));
    assert_eq!(alu_w(BinOp::Lsr, 0x8001, 15), (0x0001, false, false));
    assert_eq!(alu_w(BinOp::Asr, 0x8001, 15), (0xffff, false, false));
    assert_eq!(alu_w(BinOp::Asr, 0x8010, 4), (0xf801, false, false));
    assert_eq!(alu_w(BinOp::Asr, 0x4010, 4), (0x0401, false, false));
    assert_eq!(alu_w(BinOp::Asr, 0x8000, 16), (0xffff, false, false));
}

#[test]
fn the_zero_register_reads_zero_and_takes_no_value() {
    let mut cpu = Cpu::new();
    assert_eq!(cpu.read_br(BReg::R0b), 0);
    assert_eq!(cpu.read_wr(WReg::R0), Ok(0));
    cpu.write_br(BReg::R0b, 0x55);
    assert_eq!(cpu, Cpu::new());
    assert_eq!(cpu.write_wr(WReg::R0, 0x5555), Err(TrapMode::Invalid));
    assert_eq!(cpu, Cpu::new());
}

#[test]
fn byte_registers_are_halves_of_wide_registers() {
    let mut cpu = Cpu::new();
    cpu.write_br(BReg::R1l, 0x34);
    cpu.write_br(BReg::R1h, 0x12);
    assert_eq!(cpu.read_wr(WReg::R1), Ok(0x1234));
    assert_eq!(cpu.write_wr(WReg::R10, 0xabcd), Ok(()));
    assert_eq!(cpu.read_br(BReg::R10b), 0xcd);
    assert_eq!(cpu.write_wr(WReg::R5, 0x1122), Ok(()));
    assert_eq!(cpu.read_br(BReg::R5h), 0x11);
    assert_eq!(cpu.read_br(BReg::R5l), 0x22);
}

#[test]
fn the_handler_stack_register_is_privileged() {
    let mut cpu = Cpu::new();
    assert_eq!(cpu.write_wr(WReg::Rh, 0x4000), Ok(()));
    assert_eq!(cpu.read_wr(WReg::Rh), Ok(0x4000));
    cpu.flags.user_mode = true;
    assert_eq!(cpu.read_wr(WReg::Rh), Err(TrapMode::IllegalOperation));
    assert_eq!(cpu.write_wr(WReg::Rh, 1), Err(TrapMode::IllegalOperation));
    assert_eq!(cpu.handler, 0x4000);
}

#[test]
fn every_opcode_byte_steps_to_an_outcome() {
    for op in 0..=255u8 {
        let mut c = machine(&[op, 0x00, 0x00, 0x00, 0x00]);
        c.cpu.r1 = 1;
        let out = step(&mut c);
        let assigned = op <= isa::PLOAD
            || (isa::PUSH_B..=isa::RET).contains(&op)
            || (isa::STORE_BI..=isa::LOAD_WR).contains(&op)
            || (isa::JEZ..=isa::JBE).contains(&op)
            || op == isa::LDI_B
            || op == isa::LDI_W
            || (isa::ADD_B..=isa::LSR_W).contains(&op)
            || (isa::DIV_B..=isa::MUL_W).contains(&op);
        if !assigned || op == isa::NULL {
            assert_eq!(out, Step::Fatal(TrapMode::Invalid), "opcode {op:#x}");
            assert_eq!(c.cpu.program_counter, 0);
        }
    }
}

#[test]
fn halt_and_syscall_go_to_the_host() {
    let mut c = machine(&[isa::NOP, isa::SYSCALL, isa::NOP, isa::HALT]);
    assert_eq!(run(&mut c, 100), (Step::Host(TrapMode::SysCall), 2));
    assert_eq!(c.cpu.program_counter, 2);
    assert_eq!(run(&mut c, 100), (Step::Host(TrapMode::Halt), 2));
    assert_eq!(c.cpu.program_counter, 4);
    let mut c = machine(&[isa::NOP, isa::NOP, isa::NOP]);
    assert_eq!(run(&mut c, 2), (Step::Retired, 2));
    assert_eq!(run(&mut c, 0), (Step::Retired, 0));
}

#[test]
fn a_fault_enters_the_handler_and_reth_restores() {
    // 0x0000: div r1, r2, r3, r0   (divisor is the zero register)
    // 0x0100: reth
    let mut memory = Memory::new(0x1_0000);
    assert!(memory.load_at(0, &vec![isa::DIV_W, 0x12, 0x30]));
    assert!(memory.load_at(0x0100, &vec![isa::RETH]));
    let mut cpu = Cpu::new();
    cpu.vectors = TrapVectors::all(0x0100);
    cpu.handler = 0x9000;
    cpu.stack = 0x8000;
    cpu.r3 = 77;
    cpu.r7 = 0x1357;
    cpu.link = 0x0444;
    cpu.flags.carry = true;
    cpu.flags.user_mode = true;
    let before = cpu;
    let mut c = HandlerContext::new(cpu, memory);
    assert_eq!(step(&mut c), Step::Handled(TrapMode::ZeroDiv));
    assert_eq!(c.cpu.program_counter, 0x0100);
    assert_eq!(c.cpu.stack, 0x9000 - 29);
    assert!(c.cpu.flags.trap);
    assert!(!c.cpu.flags.user_mode);
    assert!(c.cpu.flags.carry);
    assert_eq!(c.memory.read(0x9000 - 29 + 12), Ok(0x57));
    assert_eq!(c.memory.read(0x9000 - 29 + 13), Ok(0x13));
    assert_eq!(c.memory.read(0x9000 - 1), Ok(before.flags.to_byte()));
    assert_eq!(step(&mut c), Step::Retired);
    assert_eq!(c.cpu, before);
}

#[test]
fn a_fault_inside_a_handler_is_fatal() {
    let mut memory = Memory::new(0x1_0000);
    assert!(memory.load_at(0, &vec![isa::NULL]));
    assert!(memory.load_at(0x0100, &vec![0xff]));
    let mut cpu = Cpu::new();
    cpu.vectors = TrapVectors::all(0x0100);
    cpu.handler = 0x9000;
    let mut c = HandlerContext::new(cpu, memory);
    assert_eq!(step(&mut c), Step::Handled(TrapMode::Invalid));
    assert_eq!(step(&mut c), Step::Fatal(TrapMode::Invalid));
    assert_eq!(c.cpu.program_counter, 0x0100);
}

#[test]
fn reth_outside_a_handler_is_illegal() {
    let mut c = machine(&[isa::RETH]);
    assert_eq!(step(&mut c), Step::Fatal(TrapMode::IllegalHandlerReturn));
}

#[test]
fn push_and_pop() {
    let mut c = machine(&[isa::PUSH_W, 0x10, isa::PUSH_B, 0x30, isa::POP_B, 0x50, isa::POP_W, 0x40]);
    c.cpu.stack = 0x8000;
    c.cpu.r1 = 0xbeef;
    c.cpu.r2 = 0x0042;
    assert_eq!(step(&mut c), Step::Retired);
    assert_eq!(c.cpu.stack, 0x7ffe);
    assert_eq!(c.memory.read(0x7ffe), Ok(0xef));
    assert_eq!(c.memory.read(0x7fff), Ok(0xbe));
    assert_eq!(step(&mut c), Step::Retired);
    assert_eq!(c.cpu.stack, 0x7ffd);
    assert_eq!(c.memory.read(0x7ffd), Ok(0x42));
    assert_eq!(step(&mut c), Step::Retired);
    assert_eq!(c.cpu.r3, 0x0042);
    assert_eq!(step(&mut c), Step::Retired);
    assert_eq!(c.cpu.r4, 0xbeef);
    assert_eq!(c.cpu.stack, 0x8000);
}

#[test]
fn loads_and_stores_wrap_the_address() {
    // store [r1 + 0x0002], r2 ; load r3, [r1 + 0x0002]
    let mut c = machine(&[isa::STORE_WI, 0x12, 0x02, 0x00, isa::LOAD_WI, 0x31, 0x02, 0x00]);
    c.cpu.r1 = 0xfffd;
    c.cpu.r2 = 0xa1b2;
    assert_eq!(step(&mut c), Step::Retired);
    assert_eq!(c.memory.read(0xffff), Ok(0xb2));
    assert_eq!(c.memory.read(0x0000), Ok(0xa1));
    c.cpu.program_counter = 4;
    assert!(c.memory.load_at(0, &vec![isa::STORE_WI]));
    assert_eq!(step(&mut c), Step::Retired);
    assert_eq!(c.cpu.r3, ((isa::STORE_WI as u16) << 8) | 0xb2);
}

#[test]
fn register_offset_loads_and_stores() {
    let mut c = machine(&[
        isa::STORE_BR, 0x12, 0x50,
        isa::LOAD_BR, 0x71, 0x20,
        isa::STORE_WR, 0x12, 0x40,
        isa::LOAD_WR, 0x51, 0x20,
        isa::STORE_BI, 0x15, 0x00, 0x01,
        isa::LOAD_BI, 0x91, 0x00, 0x01,
    ]);
    c.cpu.r1 = 0x4000;
    c.cpu.r2 = 0x0010;
    c.cpu.r3 = 0x0099;
    c.cpu.r4 = 0x1234;
    assert_eq!(step(&mut c), Step::Retired);
    assert_eq!(c.memory.read(0x4010), Ok(0x99));
    assert_eq!(step(&mut c), Step::Retired);
    assert_eq!(c.cpu.read_br(BReg::R4l), 0x99);
    c.cpu.r4 = 0x1234;
    assert_eq!(step(&mut c), Step::Retired);
    assert_eq!(c.memory.read(0x4010), Ok(0x34));
    assert_eq!(c.memory.read(0x4011), Ok(0x12));
    assert_eq!(step(&mut c), Step::Retired);
    assert_eq!(c.cpu.r5, 0x1234);
    assert_eq!(step(&mut c), Step::Retired);
    assert_eq!(c.memory.read(0x4100), Ok(0x99));
    assert_eq!(step(&mut c), Step::Retired);
    assert_eq!(c.cpu.read_br(BReg::R5l), 0x99);
}

#[test]
fn conditional_jumps_follow_the_flags() {
    let cases: [(u8, fn(&mut Flags), bool); 14] = [
        (isa::JEZ, |f| f.zero = true, true),
        (isa::JEZ, |_| (), false),
        (isa::JNZ, |_| (), true),
        (isa::JLT, |f| f.sign = true, true),
        (isa::JLT, |f| { f.sign = true; f.overflow = true }, false),
        (isa::JLE, |f| f.zero = true, true),
        (isa::JLE, |f| f.overflow = true, true),
        (isa::JLE, |_| (), false),
        (isa::JGT, |_| (), true),
        (isa::JGT, |f| f.zero = true, false),
        (isa::JGE, |f| { f.sign = true; f.overflow = true }, true),
        (isa::JA, |f| f.carry = true, false),
        (isa::JBE, |f| f.zero = true, true),
        (isa::JB, |f| f.carry = true, true),
    ];
    for (op, set, jumps) in cases {
        let mut c = machine(&[op, 0x00, 0x20]);
        set(&mut c.cpu.flags);
        assert_eq!(step(&mut c), Step::Retired);
        assert_eq!(c.cpu.program_counter, if jumps { 0x2000 } else { 3 }, "opcode {op:#x}");
    }
    for (op, set, jumps) in [
        (isa::JO, true, true),
        (isa::JO, false, false),
        (isa::JNO, false, true),
        (isa::JAE, false, true),
    ] {
        let mut c = machine(&[op, 0x00, 0x20]);
        c.cpu.flags.overflow = set;
        assert_eq!(step(&mut c), Step::Retired);
        assert_eq!(c.cpu.program_counter, if jumps { 0x2000 } else { 3 });
    }
}

#[test]
fn fetch_outside_the_text_bounds_is_invalid() {
    let mut c = machine(&[isa::NOP, isa::NOP]);
    c.cpu.text_last = 0;
    assert_eq!(step(&mut c), Step::Retired);
    assert_eq!(step(&mut c), Step::Fatal(TrapMode::Invalid));
    assert_eq!(c.cpu.program_counter, 1);
}

#[test]
fn translation_walks_the_page_table() {
    let mut memory = Memory::new(0x4_0000);
    // page table at 0x3_0000: page 0 -> frame 0x10 (present, read only),
    // page 1 -> frame 0x20 (present, writable), page 2 absent.
    assert!(memory.load_at(0x3_0000, &vec![0x01, 0x01, 0x03, 0x02, 0x00, 0x00]));
    assert!(memory.load_at(0x1_0000, &vec![isa::LDI_B, 0x10, 0x5a, isa::STORE_BI, 0x01, 0x04, 0x10, isa::STORE_BI, 0x01, 0x04, 0x00, isa::LOAD_BI, 0x30, 0x00, 0x20]));
    let mut cpu = Cpu::new();
    cpu.page_table = 0x3_0000;
    cpu.flags.virtual_mode = true;
    let mut c = HandlerContext::new(cpu, memory);
    assert_eq!(c.translate(0x0123, false), Ok(0x1_0123));
    assert_eq!(c.translate(0x0123, true), Err(TrapMode::PageFault(0x0123)));
    assert_eq!(c.translate(0x1fff, true), Ok(0x2_0fff));
    assert_eq!(c.translate(0x2000, false), Err(TrapMode::PageFault(0x2000)));
    assert_eq!(step(&mut c), Step::Retired);
    assert_eq!(step(&mut c), Step::Retired);
    assert_eq!(c.memory.read(0x2_0004), Ok(0x5a));
    assert_eq!(step(&mut c), Step::Fatal(TrapMode::PageFault(0x0004)));
    assert_eq!(step(&mut c), Step::Fatal(TrapMode::PageFault(0x0004)));
    c.cpu.program_counter = 11;
    assert_eq!(step(&mut c), Step::Fatal(TrapMode::PageFault(0x2000)));
}

#[test]
fn untranslated_addresses_use_the_frame_of_the_mode() {
    let mut memory = Memory::new(0x3_0000);
    assert!(memory.load_at(0x1_0040, &vec![0x11]));
    assert!(memory.load_at(0x2_0040, &vec![0x22]));
    let mut cpu = Cpu::new();
    cpu.supervisor_frame = 1;
    cpu.user_frame = 2;
    let mut c = HandlerContext::new(cpu, memory);
    assert_eq!(c.read(0x0040), Ok(0x11));
    c.cpu.flags.user_mode = true;
    assert_eq!(c.read(0x0040), Ok(0x22));
    c.cpu.user_frame = 3;
    assert_eq!(c.read(0x0040), Err(TrapMode::MemoryFault));
    assert_eq!(c.write(0x0040, 1), Err(TrapMode::MemoryFault));
    assert_eq!(c.physical_read(0x1_0040), Err(TrapMode::IllegalOperation));
    assert_eq!(c.physical_write(0x1_0040, 1), Err(TrapMode::IllegalOperation));
    c.cpu.flags.user_mode = false;
    assert_eq!(c.physical_read(0x1_0040), Ok(0x11));
    assert_eq!(c.physical_read(0x3_0000), Err(TrapMode::MemoryFault));
    assert_eq!(c.physical_write(0x3_0000, 1), Err(TrapMode::MemoryFault));
    assert_eq!(c.physical_write(0x2_ffff, 9), Ok(()));
    assert_eq!(c.memory.read(0x2_ffff), Ok(9));
}

#[test]
fn flag_words_round_trip() {
    for w in 0..128u8 {
        assert_eq!(Flags::from_byte(w).to_byte(), w);
    }
    let mut f = Flags::cleared();
    f.carry = true;
    f.user_mode = true;
    assert_eq!(f.to_byte(), 0x24);
}

#[test]
fn usr_vmon_vmoff_and_ctf_set_the_mode_bits() {
    let mut c = machine(&[isa::VMON]);
    assert_eq!(step(&mut c), Step::Retired);
    assert!(c.cpu.flags.virtual_mode);
    let mut c = machine(&[isa::VMOFF, isa::CTF, isa::USR]);
    c.cpu.flags.trap = true;
    assert_eq!(step(&mut c), Step::Retired);
    assert!(!c.cpu.flags.virtual_mode);
    assert_eq!(step(&mut c), Step::Retired);
    assert!(!c.cpu.flags.trap);
    assert_eq!(step(&mut c), Step::Retired);
    assert!(c.cpu.flags.user_mode);
}
