use telda2::standard16::{
    Arithmetic, Logic, Memory16Bit, Signal, StandardCpu, ADD, AND, CALL, COMPARE, DEC, DIV, HALT,
    INC, INT1, INT2, INT3, JEZ, JGT, JIO, JLTR, JMPR, JUMP, MOVR, MOVT, MUL, NOP, NOT, OR,
    Opcode, POP, PUSH, REM, RESERVED5, RET, STORE, SUB, XOR,
};

fn memory(program: &[u8]) -> Memory16Bit {
    let mut m = Memory16Bit::new();
    for (i, b) in program.iter().enumerate() {
        m.write(0x100 + i as u16, *b);
    }
    m
}

fn cpu() -> StandardCpu {
    StandardCpu {
        pc: 0x100,
        stack_pointer: 0x8000,
        base_pointer: 0,
        counter: 0,
        accumulator: 0,
        flags: 0,
    }
}

#[test]
fn the_processor_is_read_from_the_first_cells() {
    let mut m = Memory16Bit::new();
    for (i, b) in [0x00u8, 0x01, 0x00, 0x80, 0x34, 0x12, 0x78, 0x56, 0xa5].iter().enumerate() {
        m.write(i as u16, *b);
    }
    assert_eq!(
        StandardCpu::new(&m),
        StandardCpu {
            pc: 0x0100,
            stack_pointer: 0x8000,
            base_pointer: 0x1234,
            counter: 0x5678,
            accumulator: 0x56,
            flags: 0xa5,
        }
    );
}

#[test]
fn wide_values_are_little_endian_and_wrap() {
    let mut m = Memory16Bit::new();
    m.write_index(0xffff, 0xabcd);
    assert_eq!(m.read(0xffff), 0xcd);
    assert_eq!(m.read(0x0000), 0xab);
    assert_eq!(m.read_index(0xffff), 0xabcd);
}

#[test]
fn arguments_are_immediate_or_indirect() {
    let mut m = memory(&[0x42, 0x00, 0x02]);
    m.write(0x0200, 0x99);
    m.write(0x0201, 0x03);
    m.write(0x0300, 0x77);
    let mut c = cpu();
    assert_eq!(c.read_arg(&m, false), 0x42);
    assert_eq!(c.pc, 0x101);
    assert_eq!(c.read_arg(&m, true), 0x99);
    assert_eq!(c.pc, 0x103);
    c.pc = 0x101;
    assert_eq!(c.read_arg_index(&m, false), 0x0200);
    assert_eq!(c.pc, 0x103);
    c.pc = 0x101;
    assert_eq!(c.read_arg_index(&m, true), 0x0399);
}

#[test]
fn load_store_and_move() {
    let mut m = memory(&[MOVR, 0x2a, STORE, 0x00, 0x03, RESERVED5, 0x00, 0x03, MOVT, 0x11, 0x10, 0x03, MOVR | 0x80, 0x10, 0x03]);
    let mut c = cpu();
    assert_eq!(c.run(&mut m), None);
    assert_eq!(c.accumulator, 0x2a);
    assert_eq!(c.run(&mut m), None);
    assert_eq!(m.read(0x0300), 0x2a);
    c.accumulator = 0;
    assert_eq!(c.run(&mut m), None);
    assert_eq!(c.accumulator, 0x2a);
    assert_eq!(c.run(&mut m), None);
    assert_eq!(m.read(0x0310), 0x11);
    assert_eq!(c.pc, 0x10c);
    assert_eq!(c.run(&mut m), None);
    assert_eq!(c.accumulator, 0x11);
}

#[test]
fn arithmetic_sets_the_overflow_flag() {
    let m = memory(&[0x02, 0x03, 0x00, 0x07]);
    let mut c = cpu();
    c.accumulator = 0xff;
    c.flags = 0xf7;
    assert!(c.binop_overflowing(&m, false, Arithmetic::Add));
    assert_eq!((c.accumulator, c.flags), (0x01, 0xf8));
    assert!(c.binop_overflowing(&m, false, Arithmetic::Add));
    assert_eq!((c.accumulator, c.flags), (0x04, 0xf0));
    assert!(!c.binop_overflowing(&m, false, Arithmetic::Div));
    assert_eq!((c.accumulator, c.flags, c.pc), (0x04, 0xf0, 0x103));
    c.pc = 0x102;
    assert!(!c.binop_overflowing(&m, false, Arithmetic::Rem));
    c.accumulator = 100;
    assert!(c.binop_overflowing(&m, false, Arithmetic::Mul));
    assert_eq!((c.accumulator, c.flags), (188, 0xf8));
    c.pc = 0x103;
    assert!(c.binop_overflowing(&m, false, Arithmetic::Div));
    assert_eq!((c.accumulator, c.flags), (26, 0xf0));
    c.pc = 0x103;
    assert!(c.binop_overflowing(&m, false, Arithmetic::Rem));
    assert_eq!(c.accumulator, 5);
}

#[test]
fn subtraction_and_comparison_set_the_order_flags() {
    let m = memory(&[0x05, 0x05, 0x05, 0x05, 0x05, 0x05]);
    let mut c = cpu();
    c.accumulator = 7;
    c.sub(&m, false);
    assert_eq!((c.accumulator, c.flags), (2, 0b0010));
    c.accumulator = 5;
    c.sub(&m, false);
    assert_eq!((c.accumulator, c.flags), (0, 0b0001));
    c.sub(&m, false);
    assert_eq!((c.accumulator, c.flags), (0xfb, 0b1100));
    c.accumulator = 9;
    c.flags = 0xa0;
    c.cmp(&m, false);
    assert_eq!((c.accumulator, c.flags), (9, 0xa4));
    c.accumulator = 5;
    c.cmp(&m, false);
    assert_eq!(c.flags, 0xa1);
    c.accumulator = 4;
    c.cmp(&m, false);
    assert_eq!(c.flags, 0xa2);
}

#[test]
fn bitwise_operations_clear_the_low_flags() {
    let m = memory(&[0x3c, 0x3c, 0x3c]);
    let mut c = cpu();
    c.accumulator = 0xf0;
    c.flags = 0x1f;
    c.binop(&m, false, Logic::And);
    assert_eq!((c.accumulator, c.flags), (0x30, 0x10));
    c.binop(&m, false, Logic::Or);
    assert_eq!(c.accumulator, 0x3c);
    c.binop(&m, false, Logic::Xor);
    assert_eq!(c.accumulator, 0x00);
}

#[test]
fn instructions_by_opcode() {
    let mut m = memory(&[ADD, 1, SUB, 3, MUL, 2, DIV, 0, REM, 0, AND, 0x0f, OR, 0x30, XOR, 0xff, NOT, 0x0f, INC, DEC, COMPARE, 0xf0, NOP]);
    let mut c = cpu();
    assert_eq!(c.run(&mut m), None);
    assert_eq!(c.accumulator, 1);
    assert_eq!(c.run(&mut m), None);
    assert_eq!((c.accumulator, c.flags), (0xfe, 0b1100));
    assert_eq!(c.run(&mut m), None);
    assert_eq!((c.accumulator, c.flags), (0xfc, 0b1000));
    assert_eq!(c.run(&mut m), Some(Signal::DivisionByZero));
    assert_eq!(c.run(&mut m), Some(Signal::DivisionByZero));
    assert_eq!(c.accumulator, 0xfc);
    assert_eq!(c.run(&mut m), None);
    assert_eq!(c.accumulator, 0x0c);
    assert_eq!(c.run(&mut m), None);
    assert_eq!(c.accumulator, 0x3c);
    assert_eq!(c.run(&mut m), None);
    assert_eq!(c.accumulator, 0xc3);
    assert_eq!(c.run(&mut m), None);
    assert_eq!(c.accumulator, 0xf0);
    c.accumulator = 0xff;
    assert_eq!(c.run(&mut m), None);
    assert_eq!(c.accumulator, 0x00);
    assert_eq!(c.run(&mut m), None);
    assert_eq!(c.accumulator, 0xff);
    assert_eq!(c.run(&mut m), None);
    assert_eq!(c.flags & 0x0f, 0b0100);
    let pc = c.pc;
    assert_eq!(c.run(&mut m), None);
    assert_eq!(c.pc, pc + 1);
}

#[test]
fn jumps() {
    let mut m = memory(&[JUMP, 0x10, 0x02]);
    let mut c = cpu();
    assert_eq!(c.run(&mut m), None);
    assert_eq!(c.pc, 0x0210);
    let mut m = memory(&[JMPR, 0xfd, 0xff]);
    let mut c = cpu();
    assert_eq!(c.run(&mut m), None);
    assert_eq!(c.pc, 0x0100);
    let mut m = memory(&[JEZ, 0x10, 0x02, JEZ, 0x10, 0x02]);
    let mut c = cpu();
    c.flags = 0b0010;
    assert_eq!(c.run(&mut m), None);
    assert_eq!(c.pc, 0x0103);
    c.flags = 0b0001;
    assert_eq!(c.run(&mut m), None);
    assert_eq!(c.pc, 0x0210);
    let mut m = memory(&[JGT, 0x10, 0x02, JLTR, 0x10, 0x00, JIO, 0x00, 0x04]);
    let mut c = cpu();
    c.flags = 0b1010;
    assert_eq!(c.run(&mut m), None);
    assert_eq!(c.pc, 0x0103);
    c.pc = 0x0106;
    assert_eq!(c.run(&mut m), None);
    assert_eq!(c.pc, 0x0400);
    c.pc = 0x0103;
    assert_eq!(c.run(&mut m), None);
    assert_eq!(c.pc, 0x0116);
    let mut m = memory(&[JUMP | 0x80, 0x00, 0x03]);
    m.write_index(0x0300, 0x4567);
    let mut c = cpu();
    assert_eq!(c.run(&mut m), None);
    assert_eq!(c.pc, 0x4567);
}

#[test]
fn the_stack() {
    let mut m = memory(&[PUSH, POP, CALL, 0x00, 0x02]);
    m.write(0x0200, RET);
    let mut c = cpu();
    c.accumulator = 0x5a;
    assert_eq!(c.run(&mut m), None);
    assert_eq!(m.read(0x8000), 0x5a);
    assert_eq!(c.stack_pointer, 0x7fff);
    c.accumulator = 0;
    assert_eq!(c.run(&mut m), None);
    assert_eq!((c.accumulator, c.stack_pointer), (0x5a, 0x8000));
    assert_eq!(c.run(&mut m), None);
    assert_eq!((c.pc, c.stack_pointer), (0x0200, 0x7ffe));
    assert_eq!(m.read_index(0x7fff), 0x0105);
    assert_eq!(c.run(&mut m), None);
    assert_eq!(c.stack_pointer, 0x8000);
    assert_eq!(c.pc, m.read_index(0x8001));
}

#[test]
fn signals_go_to_the_host() {
    let mut m = memory(&[INT1, INT2, INT3, HALT, 0x7f, 0x00, 0x26, 0x6f, 0xa6]);
    let mut c = cpu();
    c.accumulator = b'x';
    assert_eq!(c.run(&mut m), Some(Signal::Input));
    assert_eq!(c.run(&mut m), Some(Signal::Output(b'x')));
    assert_eq!(c.run(&mut m), Some(Signal::Debug));
    assert_eq!(c.run(&mut m), Some(Signal::PowerOff));
    assert_eq!(c.run(&mut m), Some(Signal::PowerOff));
    assert_eq!(c.run(&mut m), Some(Signal::Invalid(0x00)));
    assert_eq!(c.run(&mut m), Some(Signal::Invalid(0x26)));
    assert_eq!(c.run(&mut m), Some(Signal::Invalid(0x6f)));
    assert_eq!(c.run(&mut m), Some(Signal::Invalid(0xa6)));
    assert_eq!(c.pc, 0x0109);
}

#[test]
fn opcodes_by_name() {
    assert_eq!(Opcode::from_str("ADD"), Some(Opcode::ADD));
    assert_eq!(Opcode::from_str("INT15"), Some(Opcode::INT15));
    assert_eq!(Opcode::from_str("add"), None);
    assert_eq!(Opcode::from_str(""), None);
    assert_eq!(Opcode::ADD.code(), 0x0a);
    assert_eq!(Opcode::RESERVED5.code(), 0x05);
    assert_eq!(Opcode::INT15.code(), 0x7f);
    assert_eq!(Opcode::COMPARE.code(), 0x02);
    assert_eq!(Opcode::JNER.code(), 0x1e);
}
