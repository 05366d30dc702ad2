use telda2::context::HandlerContext;
use telda2::cpu::Cpu;
use telda2::engine::{run, Step};
use telda2::cpu::TrapMode;
use telda2::image::{align, SegmentType};
use telda2::isa;
use telda2::loader::boot;
use telda2::memory::Memory;
use telda2::registers::{BReg, WReg};
use telda2::source::err::{Error, ErrorType, SourceLocation};
use telda2::source::instruction::{parse_ins, SourceOperand};
use telda2::source::lines::{
    parse_bytechar, parse_number, parse_operand, parse_text, unescape_bytes, SourceLine,
    SourceLines,
};
use telda2::source::operand::{write_data_operand, DataOperand, LabelRead, Shape, Wide};
use telda2::source::process::{emit, finish, inner_process, process, DataLine, ProcessState};
use telda2::source::symbols::{Address, SymbolType, Symbols};

fn source(text: &str) -> SourceLines {
    SourceLines::from_reader(text.lines().map(|l| l.to_string()).collect())
}

fn encode(op: DataOperand) -> Vec<u8> {
    let mut mem = Vec::new();
    assert_eq!(write_data_operand(SegmentType::Text, &mut mem, |_, _| 0xbeef, op), Ok(()));
    mem
}

fn here() -> SourceLocation {
    SourceLocation::new("<input>", 1)
}

fn assemble(name: &str, ops: Vec<SourceOperand>) -> Result<(u8, DataOperand), &'static str> {
    parse_ins(&name.to_string(), &ops, &mut Symbols::new(), &here())
}

#[test]
fn add_three_wide_registers_encodes_and_decodes() {
    let op = DataOperand::ThreeWide(WReg::R1, WReg::R2, WReg::R3);
    assert_eq!(encode(op), vec![0x12, 0x30]);
    assert_eq!(DataOperand::decode(Shape::ThreeWide, &[0x12, 0x30]), Some(op));
    assert_eq!(
        assemble(
            "add",
            vec![
                SourceOperand::WideReg(WReg::R1),
                SourceOperand::WideReg(WReg::R2),
                SourceOperand::WideReg(WReg::R3),
            ],
        ),
        Ok((isa::ADD_W, op))
    );
}

fn samples() -> Vec<(DataOperand, Vec<u8>)> {
    let n = Wide::Number(0x1234);
    vec![
        (DataOperand::Nothing, vec![]),
        (DataOperand::ByteRegister(BReg::R10b), vec![0xf0]),
        (DataOperand::WideRegister(WReg::Rs), vec![0xb0]),
        (DataOperand::ImmediateByte(0x7f), vec![0x7f]),
        (DataOperand::ImmediateWide(n), vec![0x34, 0x12]),
        (DataOperand::ByteImm(BReg::R1h, 0xee), vec![0x20, 0xee]),
        (DataOperand::WideImm(WReg::R9, n), vec![0x90, 0x34, 0x12]),
        (DataOperand::WideImmByte(WReg::R1, n, BReg::R2l), vec![0x13, 0x34, 0x12]),
        (DataOperand::WideImmWide(WReg::R1, n, WReg::Rh), vec![0x1f, 0x34, 0x12]),
        (DataOperand::TwoWideOneByte(WReg::R1, WReg::R2, BReg::R3l), vec![0x12, 0x50]),
        (DataOperand::ByteWideImm(BReg::R5h, WReg::Rb, n), vec![0xad, 0x34, 0x12]),
        (DataOperand::TwoWideImm(WReg::R1, WReg::R0, n), vec![0x10, 0x34, 0x12]),
        (DataOperand::ByteTwoWide(BReg::R1l, WReg::R2, WReg::R3), vec![0x12, 0x30]),
        (DataOperand::ThreeByte(BReg::R1l, BReg::R1h, BReg::R2l), vec![0x12, 0x30]),
        (DataOperand::ThreeWide(WReg::Rl, WReg::Rp, WReg::R10), vec![0xce, 0xa0]),
        (DataOperand::FourByte(BReg::R1l, BReg::R1h, BReg::R2l, BReg::R2h), vec![0x12, 0x34]),
        (DataOperand::FourWide(WReg::R1, WReg::R2, WReg::R3, WReg::R4), vec![0x12, 0x34]),
    ]
}

#[test]
fn every_shape_encodes_to_its_layout() {
    for (op, bytes) in samples() {
        assert_eq!(encode(op), bytes, "{op:?}");
        assert_eq!(op.size() as usize, bytes.len(), "{op:?}");
        assert_eq!(op.shape().size() as usize, bytes.len(), "{op:?}");
    }
}

#[test]
fn decoding_gives_the_operands_back() {
    for (op, bytes) in samples() {
        assert_eq!(DataOperand::decode(op.shape(), &bytes), Some(op), "{op:?}");
        let mut longer = bytes.clone();
        longer.extend_from_slice(&[0xaa, 0xbb]);
        assert_eq!(DataOperand::decode(op.shape(), &longer), Some(op), "{op:?}");
        if !bytes.is_empty() {
            assert_eq!(DataOperand::decode(op.shape(), &bytes[..bytes.len() - 1]), None);
        }
    }
}

#[test]
fn encoding_what_was_decoded_gives_the_bytes_back() {
    let shapes = [
        Shape::Nothing,
        Shape::ByteRegister,
        Shape::WideRegister,
        Shape::ImmediateByte,
        Shape::ImmediateWide,
        Shape::ByteImm,
        Shape::WideImm,
        Shape::WideImmByte,
        Shape::WideImmWide,
        Shape::TwoWideOneByte,
        Shape::ByteWideImm,
        Shape::TwoWideImm,
        Shape::ByteTwoWide,
        Shape::ThreeByte,
        Shape::ThreeWide,
        Shape::FourByte,
        Shape::FourWide,
    ];
    for shape in shapes {
        for first in 0..=255u8 {
            for second in [0x00u8, 0x07, 0x40, 0xf3] {
                let bytes = [first, second, 0x5a];
                if let Some(op) = DataOperand::decode(shape, &bytes) {
                    assert_eq!(op.shape(), shape);
                    assert_eq!(encode(op), bytes[..shape.size() as usize].to_vec());
                }
            }
        }
    }
}

#[test]
fn a_nonzero_zero_nibble_does_not_decode() {
    assert_eq!(DataOperand::decode(Shape::ByteRegister, &[0x11]), None);
    assert_eq!(DataOperand::decode(Shape::WideRegister, &[0x1f]), None);
    assert_eq!(DataOperand::decode(Shape::ByteImm, &[0x11, 0x00]), None);
    assert_eq!(DataOperand::decode(Shape::WideImm, &[0x11, 0x00, 0x00]), None);
    assert_eq!(DataOperand::decode(Shape::ThreeWide, &[0x12, 0x31]), None);
    assert_eq!(DataOperand::decode(Shape::ThreeByte, &[0x12, 0x31]), None);
    assert_eq!(DataOperand::decode(Shape::TwoWideOneByte, &[0x12, 0x31]), None);
    assert_eq!(DataOperand::decode(Shape::ByteTwoWide, &[0x12, 0x31]), None);
}

#[test]
fn labels_are_resolved_where_they_are_written() {
    let mut mem = vec![0; 7];
    let mut seen = None;
    let op = DataOperand::WideImm(WReg::R1, Wide::Label(3));
    let r = write_data_operand(
        SegmentType::Data,
        &mut mem,
        |id, at: LabelRead| {
            seen = Some((id, at));
            0x4321
        },
        op,
    );
    assert_eq!(r, Ok(()));
    assert_eq!(mem[7..], [0x10, 0x21, 0x43]);
    assert_eq!(seen, Some((3, LabelRead { segment: SegmentType::Data, position: 8 })));
    let mut mem = vec![0; 2];
    let op = DataOperand::ImmediateWide(Wide::Label(0));
    let r = write_data_operand(
        SegmentType::Text,
        &mut mem,
        |_, at: LabelRead| at.position,
        op,
    );
    assert_eq!(r, Ok(()));
    assert_eq!(mem, vec![0, 0, 2, 0]);
}

#[test]
fn numbers_as_operands() {
    assert_eq!(parse_number("12"), SourceOperand::Number(12));
    assert_eq!(parse_number("-12"), SourceOperand::Number(-12));
    assert_eq!(parse_number("+12"), SourceOperand::Number(12));
    assert_eq!(parse_number("2147483647"), SourceOperand::Number(i32::MAX));
    assert_eq!(parse_number("-2147483648"), SourceOperand::Number(i32::MIN));
    assert_eq!(parse_number("2147483648"), SourceOperand::Label("2147483648".to_string()));
    assert_eq!(parse_number("0000000000000000000007"), SourceOperand::Number(7));
    assert_eq!(parse_number("255b"), SourceOperand::Byte(255));
    assert_eq!(parse_number("-1b"), SourceOperand::Byte(255));
    assert_eq!(parse_number("-128b"), SourceOperand::Byte(128));
    assert_eq!(parse_number("256b"), SourceOperand::Label("256b".to_string()));
    assert_eq!(parse_number("-129b"), SourceOperand::Label("-129b".to_string()));
    assert_eq!(parse_number("65535w"), SourceOperand::Wide(65535));
    assert_eq!(parse_number("-2w"), SourceOperand::Wide(0xfffe));
    assert_eq!(parse_number("65536w"), SourceOperand::Label("65536w".to_string()));
    assert_eq!(parse_number("b"), SourceOperand::Label("b".to_string()));
    assert_eq!(parse_number("-"), SourceOperand::Label("-".to_string()));
    assert_eq!(parse_number(""), SourceOperand::Label(String::new()));
    assert_eq!(parse_number("loop"), SourceOperand::Label("loop".to_string()));
    assert_eq!(parse_number("1 2"), SourceOperand::Label("1 2".to_string()));
    assert_eq!(parse_number("'a'"), SourceOperand::Byte(b'a'));
    assert_eq!(parse_number("'\\n'"), SourceOperand::Byte(b'\n'));
    assert_eq!(parse_number("'\\x41'"), SourceOperand::Byte(0x41));
    assert_eq!(parse_number("'ab'"), SourceOperand::Byte(b'a'));
    assert_eq!(parse_number("'\u{e9}'"), SourceOperand::Byte(0xc3));
    assert_eq!(parse_number("''"), SourceOperand::Label("''".to_string()));
    assert_eq!(parse_number("'\\q'"), SourceOperand::Label("'\\q'".to_string()));
}

#[test]
fn registers_as_operands() {
    assert_eq!(parse_operand("r0b"), SourceOperand::ByteReg(BReg::R0b));
    assert_eq!(parse_operand("r1l"), SourceOperand::ByteReg(BReg::R1l));
    assert_eq!(parse_operand("r5h"), SourceOperand::ByteReg(BReg::R5h));
    assert_eq!(parse_operand("r10b"), SourceOperand::ByteReg(BReg::R10b));
    assert_eq!(parse_operand("r0"), SourceOperand::WideReg(WReg::R0));
    assert_eq!(parse_operand("r10"), SourceOperand::WideReg(WReg::R10));
    assert_eq!(parse_operand("rs"), SourceOperand::WideReg(WReg::Rs));
    assert_eq!(parse_operand("rl"), SourceOperand::WideReg(WReg::Rl));
    assert_eq!(parse_operand("rb"), SourceOperand::WideReg(WReg::Rb));
    assert_eq!(parse_operand("rp"), SourceOperand::WideReg(WReg::Rp));
    assert_eq!(parse_operand("rh"), SourceOperand::WideReg(WReg::Rh));
    assert_eq!(parse_operand("r11"), SourceOperand::Label("r11".to_string()));
    assert_eq!(parse_operand("R1"), SourceOperand::Label("R1".to_string()));
    assert_eq!(parse_operand("42"), SourceOperand::Number(42));
}

#[test]
fn escapes() {
    assert_eq!(parse_bytechar(b"a"), Some((b'a', 1)));
    assert_eq!(parse_bytechar(b"\\r"), Some((b'\r', 2)));
    assert_eq!(parse_bytechar(b"\\t"), Some((b'\t', 2)));
    assert_eq!(parse_bytechar(b"\\n"), Some((b'\n', 2)));
    assert_eq!(parse_bytechar(b"\\0"), Some((0, 2)));
    assert_eq!(parse_bytechar(b"\\\\"), Some((b'\\', 2)));
    assert_eq!(parse_bytechar(b"\\'"), Some((b'\'', 2)));
    assert_eq!(parse_bytechar(b"\\\""), Some((b'"', 2)));
    assert_eq!(parse_bytechar(b"\\x7Fz"), Some((0x7f, 4)));
    assert_eq!(parse_bytechar(b"\\xa0"), Some((0xa0, 4)));
    assert_eq!(parse_bytechar(b""), None);
    assert_eq!(parse_bytechar(b"\\"), None);
    assert_eq!(parse_bytechar(b"\\q"), None);
    assert_eq!(parse_bytechar(b"\\x4"), None);
    assert_eq!(parse_bytechar(b"\\x4g"), None);
    assert_eq!(unescape_bytes(b"a\\tb\\x00\\\\"), Some(vec![b'a', b'\t', b'b', 0, b'\\']));
    assert_eq!(unescape_bytes(b""), Some(vec![]));
    assert_eq!(unescape_bytes(b"ab\\"), None);
}

#[test]
fn lines_are_read_by_their_kind() {
    assert_eq!(parse_text(""), Ok(SourceLine::Comment));
    assert_eq!(parse_text("   \t "), Ok(SourceLine::Comment));
    assert_eq!(parse_text("; note"), Ok(SourceLine::Comment));
    assert_eq!(parse_text("  // note"), Ok(SourceLine::Comment));
    assert_eq!(parse_text("# note"), Ok(SourceLine::Comment));
    assert_eq!(parse_text("\u{a0}loop:\u{3000}"), Ok(SourceLine::Label("loop".to_string())));
    assert_eq!(parse_text("nop"), Ok(SourceLine::Ins("nop".to_string(), vec![])));
    assert_eq!(
        parse_text("  add r1, r2 ,r3  "),
        Ok(SourceLine::Ins(
            "add".to_string(),
            vec![
                SourceOperand::WideReg(WReg::R1),
                SourceOperand::WideReg(WReg::R2),
                SourceOperand::WideReg(WReg::R3),
            ],
        ))
    );
    assert_eq!(
        parse_text("ldi r1l,, 'x'"),
        Ok(SourceLine::Ins(
            "ldi".to_string(),
            vec![
                SourceOperand::ByteReg(BReg::R1l),
                SourceOperand::Label(String::new()),
                SourceOperand::Byte(b'x'),
            ],
        ))
    );
    assert_eq!(
        parse_text("jmp\tloop"),
        Ok(SourceLine::Ins("jmp\tloop".to_string(), vec![]))
    );
}

#[test]
fn directives() {
    assert_eq!(parse_text(".entry"), Ok(SourceLine::DirEntry));
    assert_eq!(parse_text(".seg text"), Ok(SourceLine::DirSeg("text".to_string())));
    assert_eq!(parse_text(".seg"), Ok(SourceLine::DirSeg(String::new())));
    assert_eq!(parse_text(".include a b.asm"), Ok(SourceLine::DirInclude("a b.asm".to_string())));
    assert_eq!(parse_text(".global main"), Ok(SourceLine::DirGlobal("main".to_string())));
    assert_eq!(parse_text(".globl main"), Ok(SourceLine::DirGlobal("main".to_string())));
    assert_eq!(parse_text(".ref puts"), Ok(SourceLine::DirReference("puts".to_string())));
    assert_eq!(parse_text(".reference puts"), Ok(SourceLine::DirReference("puts".to_string())));
    assert_eq!(parse_text(".byte 7"), Ok(SourceLine::DirByte(7)));
    assert_eq!(parse_text(".byte 7b"), Ok(SourceLine::DirByte(7)));
    assert_eq!(parse_text(".byte -1"), Ok(SourceLine::DirByte(0xff)));
    assert_eq!(parse_text(".byte 258"), Ok(SourceLine::DirByte(2)));
    assert_eq!(parse_text(".byte 'A'"), Ok(SourceLine::DirByte(0x41)));
    assert_eq!(
        parse_text(".byte 7w"),
        Err(ErrorType::Other("invalid byte literal", "7w".to_string()))
    );
    assert_eq!(
        parse_text(".byte seven"),
        Err(ErrorType::Other("invalid byte literal", "seven".to_string()))
    );
    assert_eq!(parse_text(".wide 0x"), Ok(SourceLine::DirWide(Err("0x".to_string()))));
    assert_eq!(parse_text(".wide 4660"), Ok(SourceLine::DirWide(Ok(0x1234))));
    assert_eq!(parse_text(".word -1"), Ok(SourceLine::DirWide(Ok(0xffff))));
    assert_eq!(parse_text(".wide 65537"), Ok(SourceLine::DirWide(Ok(1))));
    assert_eq!(parse_text(".wide 9w"), Ok(SourceLine::DirWide(Ok(9))));
    assert_eq!(parse_text(".wide table"), Ok(SourceLine::DirWide(Err("table".to_string()))));
    assert_eq!(
        parse_text(".wide 9b"),
        Err(ErrorType::Other("invalid wide literal", "9b".to_string()))
    );
    assert_eq!(
        parse_text(".string hi\\n\u{e9}"),
        Ok(SourceLine::DirString(vec![b'h', b'i', b'\n', 0xc3, 0xa9]))
    );
    assert_eq!(parse_text(".string"), Ok(SourceLine::DirString(vec![])));
    assert_eq!(
        parse_text(".string a\\"),
        Err(ErrorType::Other("invalid escape", "a\\".to_string()))
    );
    assert_eq!(
        parse_text(".bogus 1"),
        Err(ErrorType::UnknownDirective("bogus".to_string()))
    );
    assert_eq!(parse_text(". x"), Err(ErrorType::UnknownDirective(String::new())));
}

#[test]
fn source_lines_count_their_lines() {
    let mut lines = source("nop\n\n.bogus\nhalt");
    assert_eq!(lines.source(), "<input>");
    assert_eq!(lines.number(), 0);
    assert_eq!(lines.next(), Some(Ok((1, SourceLine::Ins("nop".to_string(), vec![])))));
    assert_eq!(lines.next(), Some(Ok((2, SourceLine::Comment))));
    assert_eq!(
        lines.next(),
        Some(Err(Error::new(
            "<input>".to_string(),
            3,
            ErrorType::UnknownDirective("bogus".to_string()),
        )))
    );
    assert_eq!(lines.next(), Some(Ok((4, SourceLine::Ins("halt".to_string(), vec![])))));
    assert_eq!(lines.next(), None);
    assert_eq!(lines.next(), None);
    assert_eq!(lines.number(), 4);
    assert_eq!(lines.parse_line("x:"), Ok(SourceLine::Label("x".to_string())));
    assert_eq!(lines.number(), 5);
    let named = SourceLines::named("a.asm".to_string(), vec![]);
    assert_eq!(named.source(), "a.asm");
}

#[test]
fn mnemonics_assemble_to_their_opcodes() {
    let w = |r| SourceOperand::WideReg(r);
    let b = |r| SourceOperand::ByteReg(r);
    assert_eq!(assemble("null", vec![]), Ok((isa::NULL, DataOperand::Nothing)));
    assert_eq!(assemble("halt", vec![]), Ok((isa::HALT, DataOperand::Nothing)));
    assert_eq!(assemble("ctf", vec![]), Ok((isa::CTF, DataOperand::Nothing)));
    assert_eq!(assemble("reth", vec![]), Ok((isa::RETH, DataOperand::Nothing)));
    assert_eq!(assemble("nop", vec![]), Ok((isa::NOP, DataOperand::Nothing)));
    assert_eq!(assemble("syscall", vec![]), Ok((isa::SYSCALL, DataOperand::Nothing)));
    assert_eq!(assemble("usr", vec![]), Ok((isa::USR, DataOperand::Nothing)));
    assert_eq!(assemble("vmon", vec![]), Ok((isa::VMON, DataOperand::Nothing)));
    assert_eq!(assemble("vmoff", vec![]), Ok((isa::VMOFF, DataOperand::Nothing)));
    assert_eq!(assemble("nop", vec![SourceOperand::Number(1)]), Err("nothing"));
    assert_eq!(
        assemble("push", vec![b(BReg::R1l)]),
        Ok((isa::PUSH_B, DataOperand::ByteRegister(BReg::R1l)))
    );
    assert_eq!(
        assemble("push", vec![w(WReg::R1)]),
        Ok((isa::PUSH_W, DataOperand::WideRegister(WReg::R1)))
    );
    assert_eq!(assemble("push", vec![SourceOperand::Number(1)]), Err("takes one register"));
    assert_eq!(
        assemble("pop", vec![b(BReg::R1l)]),
        Ok((isa::POP_B, DataOperand::ByteRegister(BReg::R1l)))
    );
    assert_eq!(
        assemble("pop", vec![w(WReg::R1)]),
        Ok((isa::POP_W, DataOperand::WideRegister(WReg::R1)))
    );
    assert_eq!(assemble("pop", vec![w(WReg::R1), w(WReg::R2)]), Err("takes one register"));
    assert_eq!(
        assemble("call", vec![SourceOperand::Number(0x80)]),
        Ok((isa::CALL, DataOperand::ImmediateWide(Wide::Number(0x80))))
    );
    assert_eq!(
        assemble("call", vec![]),
        Err("a wide (addr like a label or just a number)")
    );
    assert_eq!(assemble("ret", vec![]), Ok((isa::RET, DataOperand::ImmediateByte(0))));
    assert_eq!(assemble("ret", vec![SourceOperand::Byte(4)]), Ok((isa::RET, DataOperand::ImmediateByte(4))));
    assert_eq!(assemble("ret", vec![SourceOperand::Number(260)]), Ok((isa::RET, DataOperand::ImmediateByte(4))));
    assert_eq!(assemble("ret", vec![w(WReg::R1)]), Err("either nothing or a byte"));
    assert_eq!(
        assemble("store", vec![w(WReg::R1), SourceOperand::Number(2), b(BReg::R2l)]),
        Ok((isa::STORE_BI, DataOperand::WideImmByte(WReg::R1, Wide::Number(2), BReg::R2l)))
    );
    assert_eq!(
        assemble("str", vec![w(WReg::R1), SourceOperand::Number(-1), w(WReg::R2)]),
        Ok((isa::STORE_WI, DataOperand::WideImmWide(WReg::R1, Wide::Number(0xffff), WReg::R2)))
    );
    assert_eq!(
        assemble("store", vec![w(WReg::R1), w(WReg::R3), b(BReg::R2l)]),
        Ok((isa::STORE_BR, DataOperand::TwoWideOneByte(WReg::R1, WReg::R3, BReg::R2l)))
    );
    assert_eq!(
        assemble("store", vec![w(WReg::R1), w(WReg::R3), w(WReg::R2)]),
        Ok((isa::STORE_WR, DataOperand::ThreeWide(WReg::R1, WReg::R3, WReg::R2)))
    );
    assert_eq!(
        assemble("store", vec![w(WReg::R1)]),
        Err("a wide and another wide or immediate for destination and a source register (any size)")
    );
    assert_eq!(
        assemble("load", vec![b(BReg::R2l), w(WReg::R1), SourceOperand::Number(2)]),
        Ok((isa::LOAD_BI, DataOperand::ByteWideImm(BReg::R2l, WReg::R1, Wide::Number(2))))
    );
    assert_eq!(
        assemble("load", vec![w(WReg::R2), w(WReg::R1), SourceOperand::Wide(2)]),
        Ok((isa::LOAD_WI, DataOperand::TwoWideImm(WReg::R2, WReg::R1, Wide::Number(2))))
    );
    assert_eq!(
        assemble("load", vec![b(BReg::R2l), w(WReg::R1), w(WReg::R3)]),
        Ok((isa::LOAD_BR, DataOperand::ByteTwoWide(BReg::R2l, WReg::R1, WReg::R3)))
    );
    assert_eq!(
        assemble("load", vec![w(WReg::R2), w(WReg::R1), w(WReg::R3)]),
        Ok((isa::LOAD_WR, DataOperand::ThreeWide(WReg::R2, WReg::R1, WReg::R3)))
    );
    assert_eq!(
        assemble("load", vec![]),
        Err("a destination register (any size) and then a wide and a wide or immediate for source")
    );
    for (name, opcode) in [
        ("jez", isa::JEZ),
        ("jlt", isa::JLT),
        ("jle", isa::JLE),
        ("jgt", isa::JGT),
        ("jge", isa::JGE),
        ("jnz", isa::JNZ),
        ("jne", isa::JNZ),
        ("jo", isa::JO),
        ("jno", isa::JNO),
        ("jb", isa::JB),
        ("jc", isa::JB),
        ("jae", isa::JAE),
        ("jnc", isa::JAE),
        ("ja", isa::JA),
        ("jbe", isa::JBE),
    ] {
        assert_eq!(
            assemble(name, vec![SourceOperand::Number(0x2000)]),
            Ok((opcode, DataOperand::ImmediateWide(Wide::Number(0x2000)))),
            "{name}"
        );
        assert_eq!(
            assemble(name, vec![b(BReg::R1l)]),
            Err("a wide (addr like a label or just a number)")
        );
    }
    assert_eq!(
        assemble("ldi", vec![b(BReg::R1l), SourceOperand::Number(-2)]),
        Ok((isa::LDI_B, DataOperand::ByteImm(BReg::R1l, 0xfe)))
    );
    assert_eq!(
        assemble("ldi", vec![w(WReg::R1), SourceOperand::Number(0x1234)]),
        Ok((isa::LDI_W, DataOperand::TwoWideImm(WReg::R1, WReg::R0, Wide::Number(0x1234))))
    );
    assert_eq!(assemble("ldi", vec![w(WReg::R1)]), Err("one register and one immediate"));
    assert_eq!(
        assemble("jmp", vec![SourceOperand::Number(0x0100)]),
        Ok((isa::LDI_W, DataOperand::TwoWideImm(WReg::R0, WReg::R1, Wide::Number(0x0100))))
    );
    assert_eq!(
        assemble("jump", vec![w(WReg::R4)]),
        Ok((isa::LDI_W, DataOperand::TwoWideImm(WReg::R4, WReg::R1, Wide::Number(0))))
    );
    assert_eq!(assemble("jmp", vec![w(WReg::R0)]), Err("r0 is not a valid jmp destination"));
    assert_eq!(assemble("jmp", vec![b(BReg::R1l)]), Err("address or wide register"));
    for (name, bop, wop) in [
        ("add", isa::ADD_B, isa::ADD_W),
        ("sub", isa::SUB_B, isa::SUB_W),
        ("and", isa::AND_B, isa::AND_W),
        ("or", isa::OR_B, isa::OR_W),
        ("xor", isa::XOR_B, isa::XOR_W),
        ("shl", isa::SHL_B, isa::SHL_W),
        ("asr", isa::ASR_B, isa::ASR_W),
        ("lsr", isa::LSR_B, isa::LSR_W),
    ] {
        assert_eq!(
            assemble(name, vec![b(BReg::R1l), b(BReg::R1h), b(BReg::R2l)]),
            Ok((bop, DataOperand::ThreeByte(BReg::R1l, BReg::R1h, BReg::R2l)))
        );
        assert_eq!(
            assemble(name, vec![w(WReg::R1), w(WReg::R2), w(WReg::R3)]),
            Ok((wop, DataOperand::ThreeWide(WReg::R1, WReg::R2, WReg::R3)))
        );
        assert_eq!(
            assemble(name, vec![w(WReg::R1), w(WReg::R2), b(BReg::R1l)]),
            Err("three regs of same size")
        );
    }
    for (name, bop, wop) in [("mul", isa::MUL_B, isa::MUL_W), ("div", isa::DIV_B, isa::DIV_W)] {
        assert_eq!(
            assemble(name, vec![b(BReg::R1l), b(BReg::R1h), b(BReg::R2l), b(BReg::R2h)]),
            Ok((bop, DataOperand::FourByte(BReg::R1l, BReg::R1h, BReg::R2l, BReg::R2h)))
        );
        assert_eq!(
            assemble(name, vec![w(WReg::R1), w(WReg::R2), w(WReg::R3), w(WReg::R4)]),
            Ok((wop, DataOperand::FourWide(WReg::R1, WReg::R2, WReg::R3, WReg::R4)))
        );
        assert_eq!(assemble(name, vec![w(WReg::R1)]), Err("four registers"));
    }
    assert_eq!(assemble("frob", vec![]), Err("unknown instruction"));
}

#[test]
fn a_form_that_does_not_fit_has_used_its_label() {
    let mut symbols = Symbols::new();
    let ops = vec![
        SourceOperand::WideReg(WReg::R1),
        SourceOperand::Label("far".to_string()),
        SourceOperand::WideReg(WReg::R2),
    ];
    let r = parse_ins(&"store".to_string(), &ops, &mut symbols, &here());
    assert_eq!(
        r,
        Ok((isa::STORE_WI, DataOperand::WideImmWide(WReg::R1, Wide::Label(0), WReg::R2)))
    );
    assert_eq!(symbols.size(), 1);
    assert_eq!(symbols.entries[0].name, "far");
    assert_eq!(symbols.entries[0].uses, vec![here(), here()]);
}

#[test]
fn symbols_get_dense_ids() {
    let mut symbols = Symbols::new();
    let a = "a".to_string();
    let b = "b".to_string();
    assert_eq!(symbols.find_id(&a), 0);
    assert_eq!(symbols.find_id(&b), 1);
    assert_eq!(symbols.find_id(&a), 0);
    assert_eq!(symbols.get_label(&b, here()), 1);
    assert_eq!(symbols.entries[1].uses, vec![here()]);
    assert_eq!(symbols.set_label(&b, Address(SegmentType::Text, 4), here()), Ok(()));
    assert_eq!(symbols.entries[1].definition, Some(Address(SegmentType::Text, 4)));
    assert!(symbols.entries[1].uses.is_empty());
    assert_eq!(symbols.get_label(&b, here()), 1);
    assert!(symbols.entries[1].uses.is_empty());
    assert_eq!(
        symbols.set_label(&b, Address(SegmentType::Text, 8), SourceLocation::new("x", 9)),
        Err(Error::new("x".to_string(), 9, ErrorType::DuplicateLabel("b".to_string())))
    );
    symbols.set_global(0);
    symbols.set_reference(1);
    symbols.set_global(7);
    assert_eq!(symbols.entries[0].kind, SymbolType::Global);
    assert_eq!(symbols.entries[1].kind, SymbolType::Reference);
    assert_eq!(symbols.size(), 2);
}

#[test]
fn alignment() {
    assert_eq!(align(0, 0x100), Some(0));
    assert_eq!(align(1, 0x100), Some(0x100));
    assert_eq!(align(0x100, 0x100), Some(0x100));
    assert_eq!(align(0x1ff, 0x100), Some(0x200));
    assert_eq!(align(0xff00, 0x100), Some(0xff00));
    assert_eq!(align(0xff01, 0x100), None);
    assert_eq!(align(7, 3), Some(9));
}

const PROGRAM: &str = "\
.seg text
.entry
start:
    ldi r1, 5
    ldi r2, 0
loop:
    add r2, r2, r1
    ldi r3, 1
    sub r1, r1, r3
    jnz loop
    ldi r4, result
    store r4, 0, r2
    halt
.seg data
result:
    .wide 0
    .byte 7
    .string ok\\n
    .wide start
.global start
";

#[test]
fn a_program_is_laid_out() {
    let p = process(source(PROGRAM)).unwrap();
    assert_eq!(
        p.labels,
        vec![
            ("start".to_string(), SymbolType::Global, SegmentType::Text, 0x0100),
            ("loop".to_string(), SymbolType::Internal, SegmentType::Text, 0x0108),
            ("result".to_string(), SymbolType::Internal, SegmentType::Data, 0x0200),
        ]
    );
    assert_eq!(p.entry, Some(0x0100));
    let text = p.dls.text.as_ref().unwrap();
    assert_eq!((text.start, text.size), (0x0100, 30));
    assert_eq!(text.lines.len(), 9);
    let data = p.dls.data.as_ref().unwrap();
    assert_eq!((data.start, data.size), (0x0200, 8));
    assert!(p.dls.rodata.is_none());
    assert!(p.dls.heap.is_none());
    assert!(matches!(data.lines[3], DataLine::Wide(Wide::Label(0))));
    let bytes = emit(&p, SegmentType::Text);
    assert_eq!(bytes.len(), 30);
    assert_eq!(
        bytes,
        vec![
            isa::LDI_W, 0x10, 0x05, 0x00,
            isa::LDI_W, 0x20, 0x00, 0x00,
            isa::ADD_W, 0x22, 0x10,
            isa::LDI_W, 0x30, 0x01, 0x00,
            isa::SUB_W, 0x11, 0x30,
            isa::JNZ, 0x08, 0x01,
            isa::LDI_W, 0x40, 0x00, 0x02,
            isa::STORE_WI, 0x42, 0x00, 0x00,
            isa::HALT,
        ]
    );
    assert_eq!(
        emit(&p, SegmentType::Data),
        vec![0x00, 0x00, 0x07, b'o', b'k', b'\n', 0x00, 0x01]
    );
    assert_eq!(emit(&p, SegmentType::Heap), Vec::<u8>::new());
    assert_eq!(emit(&p, SegmentType::Unknown), Vec::<u8>::new());
}

#[test]
fn an_assembled_program_runs() {
    let p = process(source(PROGRAM)).unwrap();
    let mut memory = Memory::new(0x1_0000);
    for st in [SegmentType::Text, SegmentType::Data] {
        let start = p.dls.get(st).unwrap().start;
        assert!(memory.load_at(start as u32, &emit(&p, st)));
    }
    let mut cpu = Cpu::new();
    cpu.program_counter = p.entry.unwrap();
    let mut c = HandlerContext::new(cpu, memory);
    let (last, steps) = run(&mut c, 1000);
    assert_eq!(last, Step::Host(TrapMode::Halt));
    assert_eq!(steps, 2 + 5 * 4 + 3);
    assert_eq!(c.cpu.r2, 15);
    assert_eq!(c.memory.read(0x0200), Ok(15));
    assert_eq!(c.memory.read(0x0201), Ok(0));
}

#[test]
fn segments_follow_one_another_aligned() {
    let p = process(source(
        ".seg heap\n.byte 1\n.seg data\n.byte 2\n.byte 3\n.seg rodata\n.string \n.seg text\nnop\n.seg data\nend:\n",
    ))
    .unwrap();
    let start = |st| {
        let s = p.dls.get(st).unwrap();
        (s.start, s.size)
    };
    assert_eq!(start(SegmentType::Text), (0x0100, 1));
    assert_eq!(start(SegmentType::RoData), (0x0200, 0));
    assert_eq!(start(SegmentType::Data), (0x0200, 2));
    assert_eq!(start(SegmentType::Heap), (0x0300, 1));
    assert_eq!(
        p.labels,
        vec![("end".to_string(), SymbolType::Internal, SegmentType::Data, 0x0202)]
    );
    assert_eq!(p.entry, None);
}

fn failure(text: &str) -> Error {
    process(source(text)).unwrap_err()
}

fn at(line: u32, kind: ErrorType) -> Error {
    Error::new("<input>".to_string(), line, kind)
}

#[test]
fn failures_of_the_first_pass() {
    assert_eq!(
        failure("nop"),
        at(1, ErrorType::Other("no segment was started", String::new()))
    );
    assert_eq!(
        failure(".seg text\n.seg stack"),
        at(2, ErrorType::InvalidOperand("stack".to_string()))
    );
    assert_eq!(failure(".entry\n\n.entry"), at(3, ErrorType::DoubleEntry));
    assert_eq!(
        failure(".seg text\nx:\nnop\nx:"),
        at(4, ErrorType::DuplicateLabel("x".to_string()))
    );
    assert_eq!(
        failure(".seg text\nfrob r1"),
        at(2, ErrorType::Other("unknown instruction", "frob".to_string()))
    );
    assert_eq!(
        failure(".seg text\nadd r1, r2"),
        at(2, ErrorType::Other("three regs of same size", "add".to_string()))
    );
    assert_eq!(failure(".seg text\n.include other.asm"), at(2, ErrorType::IoError));
    assert_eq!(
        failure(".seg text\n.what"),
        at(2, ErrorType::UnknownDirective("what".to_string()))
    );
}

#[test]
fn a_segment_must_fit_the_address_space() {
    let mut text = String::from(".seg data\n");
    let long = "x".repeat(0x8000);
    text.push_str(&format!(".string {long}\n.string {long}\n"));
    assert_eq!(
        failure(&text),
        at(3, ErrorType::Other("segment exceeds the address space", String::new()))
    );
    let mut text = String::from(".seg text\n");
    text.push_str(&format!(".string {long}\n.seg data\n.string {long}\n"));
    assert_eq!(
        failure(&text),
        Error::new(
            "<src>".to_string(),
            0,
            ErrorType::Other("image exceeds the address space", String::new()),
        )
    );
}

#[test]
fn failures_of_the_second_pass() {
    let e = failure(".seg text\njmp away\nnop\ncall away\njez away");
    assert_eq!(e.kind, ErrorType::UndefinedLabel("away".to_string()));
    assert_eq!((e.source.as_str(), e.line_number), ("<input>", 5));
    assert_eq!(
        e.chain,
        vec![SourceLocation::new("<input>", 4), SourceLocation::new("<input>", 2)]
    );
    assert_eq!(
        failure(".seg text\n.reference puts\nputs:"),
        Error::new(
            "<src>".to_string(),
            0,
            ErrorType::Other("symbol is declared as reference but defined", "puts".to_string()),
        )
    );
}

#[test]
fn undefined_globals_and_references_stay_unresolved() {
    let p = process(source(".seg text\n.global a\n.reference b\ncall b")).unwrap();
    assert_eq!(
        p.labels,
        vec![
            ("a".to_string(), SymbolType::Reference, SegmentType::Unknown, 0xfaff),
            ("b".to_string(), SymbolType::Reference, SegmentType::Unknown, 0xfaff),
        ]
    );
    assert_eq!(emit(&p, SegmentType::Text), vec![isa::CALL, 0xff, 0xfa]);
}

#[test]
fn a_label_before_any_segment_is_at_zero() {
    let p = process(source("first:\n.entry\n.seg text\nnop")).unwrap();
    assert_eq!(
        p.labels,
        vec![("first".to_string(), SymbolType::Internal, SegmentType::Unknown, 0)]
    );
    assert_eq!(p.entry, Some(0));
}

#[test]
fn an_include_hands_over_to_the_caller() {
    let mut outer = source(".seg text\nnop\n.include inner.asm\nhalt\nafter:");
    let mut symbols = Symbols::new();
    let mut state = ProcessState::new();
    let mut segment = SegmentType::Unknown;
    assert_eq!(
        inner_process(&mut outer, &mut segment, &mut state, &mut symbols),
        Ok(Some("inner.asm".to_string()))
    );
    assert_eq!(outer.number(), 3);
    let mut inner = SourceLines::named(
        "inner.asm".to_string(),
        vec![".seg text".to_string(), "inner:".to_string(), "nop".to_string()],
    );
    let mut inner_segment = SegmentType::Unknown;
    assert_eq!(
        inner_process(&mut inner, &mut inner_segment, &mut state, &mut symbols),
        Ok(None)
    );
    assert_eq!(inner_process(&mut outer, &mut segment, &mut state, &mut symbols), Ok(None));
    let p = finish(state, symbols).unwrap();
    assert_eq!(
        p.labels,
        vec![
            ("inner".to_string(), SymbolType::Internal, SegmentType::Text, 0x0101),
            ("after".to_string(), SymbolType::Internal, SegmentType::Text, 0x0103),
        ]
    );
    assert_eq!(emit(&p, SegmentType::Text), vec![isa::NOP, isa::NOP, isa::HALT]);
}

#[test]
fn an_image_boots_at_its_entry() {
    let p = process(source(PROGRAM)).unwrap();
    let mut c = boot(&p, 0x1_0000).unwrap();
    assert_eq!(c.cpu.program_counter, 0x0100);
    assert_eq!((c.cpu.text_start, c.cpu.text_last), (0x0100, 0x011d));
    assert_eq!(c.memory.read(0x0100), Ok(isa::LDI_W));
    assert_eq!(c.memory.read(0x011d), Ok(isa::HALT));
    assert_eq!(c.memory.read(0x011e), Ok(0));
    assert_eq!(c.memory.read(0x0202), Ok(7));
    assert_eq!(c.memory.read(0x00ff), Ok(0));
    assert_eq!(run(&mut c, 1000), (Step::Host(TrapMode::Halt), 25));
    assert_eq!(c.memory.read(0x0200), Ok(15));
    assert!(boot(&p, 0x0207).is_none());
    assert!(boot(&p, 0x0208).is_some());
}

#[test]
fn without_an_entry_an_image_boots_at_its_text() {
    let p = process(source(".seg data\n.byte 1\n.seg text\nnop\nnop")).unwrap();
    let mut c = boot(&p, 0x1000).unwrap();
    assert_eq!(c.cpu.program_counter, 0x0100);
    assert_eq!(run(&mut c, 10), (Step::Fatal(TrapMode::Invalid), 3));
    assert_eq!(c.cpu.program_counter, 0x0102);
    let p = process(source(".seg data\n.byte 1")).unwrap();
    let mut c = boot(&p, 0x1000).unwrap();
    assert_eq!(c.cpu.program_counter, 0);
    assert_eq!(run(&mut c, 10), (Step::Fatal(TrapMode::Invalid), 1));
}

#[test]
fn addresses_must_fit_sixteen_bits() {
    let mut state = ProcessState::new();
    assert_eq!(state.add_line(SegmentType::Text, DataLine::Raw(vec![1]), 1), Ok(()));
    let mut symbols = Symbols::new();
    assert_eq!(
        symbols.set_label(&"far".to_string(), Address(SegmentType::Text, 0xffff), here()),
        Ok(())
    );
    assert_eq!(
        finish(state, symbols).unwrap_err(),
        Error::new(
            "<src>".to_string(),
            0,
            ErrorType::Other("label lies beyond the address space", "far".to_string()),
        )
    );
    let mut state = ProcessState::new();
    assert_eq!(state.add_line(SegmentType::Text, DataLine::Raw(vec![1]), 1), Ok(()));
    state.entry = Some(Address(SegmentType::Text, 0xff00));
    assert_eq!(
        finish(state, Symbols::new()).unwrap_err(),
        Error::new(
            "<src>".to_string(),
            0,
            ErrorType::Other("entry lies beyond the address space", String::new()),
        )
    );
    let mut state = ProcessState::new();
    assert_eq!(
        state.add_line(SegmentType::Unknown, DataLine::Raw(vec![1]), 1),
        Err("no segment was started")
    );
    assert_eq!(state.add_line(SegmentType::Heap, DataLine::Raw(vec![]), 0xffff), Ok(()));
    assert_eq!(
        state.add_line(SegmentType::Heap, DataLine::Raw(vec![1]), 1),
        Err("segment exceeds the address space")
    );
    assert_eq!(state.get_size(SegmentType::Heap), 0xffff);
    assert_eq!(state.get_size(SegmentType::Text), 0);
}
