use telda2::registers::{BReg, WReg};
use telda2::source::bigr::{
    big_r_to_byte, big_r_to_wide, byte_or_imm, byte_to_big_r, parse_b_big_r,
    parse_byte_wide_big, parse_two_byte_one_big, parse_two_wide_one_big, parse_w_big_r,
    parse_wide_big_byte, parse_wide_big_wide, wide_or_imm, wide_slot, wide_to_big_r, BBigR,
    BigOperand, WBigR,
};
use telda2::source::err::SourceLocation;
use telda2::source::instruction::SourceOperand;
use telda2::source::operand::Wide;
use telda2::source::symbols::Symbols;

#[test]
fn a_byte_slot_holds_a_register_or_an_immediate() {
    assert_eq!(big_r_to_byte(BBigR::Register(BReg::R0b)), Ok(0));
    assert_eq!(big_r_to_byte(BBigR::Register(BReg::R10b)), Ok(15));
    assert_eq!(big_r_to_byte(BBigR::Byte(0)), Ok(0));
    assert_eq!(big_r_to_byte(BBigR::Byte(1)), Ok(16));
    assert_eq!(big_r_to_byte(BBigR::Byte(240)), Ok(255));
    assert_eq!(big_r_to_byte(BBigR::Byte(241)), Err("immediate between 1-240"));
}

#[test]
fn a_wide_slot_holds_a_register_or_an_immediate() {
    assert_eq!(big_r_to_wide(WBigR::Register(WReg::Rh), |_| 9), Ok([15, 0]));
    assert_eq!(big_r_to_wide(WBigR::Wide(Wide::Number(0)), |_| 9), Ok([0, 0]));
    assert_eq!(big_r_to_wide(WBigR::Wide(Wide::Number(0x1231)), |_| 9), Ok([0x40, 0x12]));
    assert_eq!(big_r_to_wide(WBigR::Wide(Wide::Label(3)), |id| id as u16 + 0x100), Ok([0x12, 0x01]));
    assert_eq!(big_r_to_wide(WBigR::Wide(Wide::Number(65520)), |_| 9), Ok([0xff, 0xff]));
    assert_eq!(
        big_r_to_wide(WBigR::Wide(Wide::Number(65521)), |_| 9),
        Err("immediate between 1-65520")
    );
    assert_eq!(wide_slot(WBigR::Wide(Wide::Label(0)), 1), Ok([16, 0]));
}

#[test]
fn slots_give_back_what_was_put_in() {
    for b in 0..=255u8 {
        assert_eq!(big_r_to_byte(byte_to_big_r(b)), Ok(b));
    }
    for w in [0u16, 1, 15, 16, 17, 0x1234, 0xffff] {
        let r = wide_to_big_r(w);
        let value = match r {
            WBigR::Wide(Wide::Number(n)) => n,
            _ => 0,
        };
        assert_eq!(wide_slot(r, value), Ok([(w % 256) as u8, (w / 256) as u8]));
    }
    assert_eq!(byte_to_big_r(3), BBigR::Register(BReg::R2l));
    assert_eq!(byte_to_big_r(16), BBigR::Byte(1));
    assert_eq!(wide_to_big_r(11), WBigR::Register(WReg::Rs));
    assert_eq!(wide_to_big_r(0x100), WBigR::Wide(Wide::Number(0xf1)));
}

#[test]
fn source_operands_as_big_r() {
    assert_eq!(
        byte_or_imm(&SourceOperand::ByteReg(BReg::R1l)),
        Some(BBigR::Register(BReg::R1l))
    );
    assert_eq!(byte_or_imm(&SourceOperand::Number(300)), Some(BBigR::Byte(44)));
    assert_eq!(byte_or_imm(&SourceOperand::Byte(7)), Some(BBigR::Byte(7)));
    assert_eq!(byte_or_imm(&SourceOperand::WideReg(WReg::R1)), None);
    let mut symbols = Symbols::new();
    let at = SourceLocation::new("<input>", 3);
    assert_eq!(
        wide_or_imm(&SourceOperand::WideReg(WReg::R1), &mut symbols, &at),
        Some(WBigR::Register(WReg::R1))
    );
    assert_eq!(
        wide_or_imm(&SourceOperand::Number(-1), &mut symbols, &at),
        Some(WBigR::Wide(Wide::Number(0xffff)))
    );
    assert_eq!(
        wide_or_imm(&SourceOperand::Label("x".to_string()), &mut symbols, &at),
        Some(WBigR::Wide(Wide::Label(0)))
    );
    assert_eq!(symbols.entries[0].uses, vec![at.duplicate()]);
    assert_eq!(wide_or_imm(&SourceOperand::ByteReg(BReg::R1l), &mut symbols, &at), None);
}

#[test]
fn operands_with_a_big_r_slot() {
    let at = SourceLocation::new("<input>", 1);
    let mut symbols = Symbols::new();
    let b = |r| SourceOperand::ByteReg(r);
    let w = |r| SourceOperand::WideReg(r);
    assert_eq!(
        parse_b_big_r(&[SourceOperand::Number(5)]),
        Some(BigOperand::ByteBigR(BBigR::Byte(5)))
    );
    assert_eq!(parse_b_big_r(&[b(BReg::R1l), b(BReg::R1h)]), None);
    assert_eq!(
        parse_w_big_r(&[w(WReg::R3)], &mut symbols, &at),
        Some(BigOperand::WideBigR(WBigR::Register(WReg::R3)))
    );
    assert_eq!(parse_w_big_r(&[], &mut symbols, &at), None);
    assert_eq!(
        parse_two_byte_one_big(&[b(BReg::R1l), b(BReg::R1h), SourceOperand::Byte(9)]),
        Some(BigOperand::TwoByteOneBig(BReg::R1l, BReg::R1h, BBigR::Byte(9)))
    );
    assert_eq!(parse_two_byte_one_big(&[b(BReg::R1l), w(WReg::R1), b(BReg::R1h)]), None);
    assert_eq!(
        parse_two_wide_one_big(
            &[w(WReg::R1), w(WReg::R2), SourceOperand::Label("x".to_string())],
            &mut symbols,
            &at
        ),
        Some(BigOperand::TwoWideOneBig(WReg::R1, WReg::R2, WBigR::Wide(Wide::Label(0))))
    );
    assert_eq!(
        parse_wide_big_wide(&[w(WReg::R1), SourceOperand::Number(7), w(WReg::R2)], &mut symbols, &at),
        Some(BigOperand::WideBigWide(WReg::R1, WBigR::Wide(Wide::Number(7)), WReg::R2))
    );
    assert_eq!(
        parse_byte_wide_big(&[b(BReg::R2l), w(WReg::R1), w(WReg::R2)], &mut symbols, &at),
        Some(BigOperand::ByteWideBig(BReg::R2l, WReg::R1, WBigR::Register(WReg::R2)))
    );
    assert_eq!(
        parse_wide_big_byte(&[w(WReg::R1), SourceOperand::Wide(8), b(BReg::R2l)], &mut symbols, &at),
        Some(BigOperand::WideBigByte(WReg::R1, WBigR::Wide(Wide::Number(8)), BReg::R2l))
    );
    assert_eq!(parse_wide_big_byte(&[w(WReg::R1), SourceOperand::Wide(8)], &mut symbols, &at), None);

    let written = |op: BigOperand, value: u16| {
        let mut mem = vec![0xee];
        let r = op.write(&mut mem, value);
        (mem[1..].to_vec(), r)
    };
    assert_eq!(written(BigOperand::ByteBigR(BBigR::Byte(5)), 0), (vec![20], Ok(())));
    assert_eq!(
        written(BigOperand::ByteBigR(BBigR::Byte(250)), 0),
        (vec![], Err("immediate between 1-240"))
    );
    assert_eq!(
        written(BigOperand::WideBigR(WBigR::Wide(Wide::Number(0x100))), 0x100),
        (vec![0x0f, 0x01], Ok(()))
    );
    assert_eq!(
        written(BigOperand::TwoByteOneBig(BReg::R1l, BReg::R1h, BBigR::Register(BReg::R2l)), 0),
        (vec![0x12, 0x03], Ok(()))
    );
    assert_eq!(
        written(BigOperand::TwoWideOneBig(WReg::R1, WReg::R2, WBigR::Wide(Wide::Label(0))), 0x2000),
        (vec![0x12, 0x0f, 0x20], Ok(()))
    );
    assert_eq!(
        written(BigOperand::WideBigWide(WReg::R1, WBigR::Wide(Wide::Number(0xffff)), WReg::R2), 0xffff),
        (vec![0x12], Err("immediate between 1-65520"))
    );
    assert_eq!(
        written(BigOperand::ByteWideBig(BReg::R2l, WReg::R1, WBigR::Register(WReg::R2)), 0),
        (vec![0x31, 0x02, 0x00], Ok(()))
    );
    assert_eq!(
        written(BigOperand::WideBigByte(WReg::R1, WBigR::Wide(Wide::Number(0)), BReg::R2l), 0),
        (vec![0x13, 0x00, 0x00], Ok(()))
    );
    for (op, size) in [
        (BigOperand::ByteBigR(BBigR::Byte(5)), 1),
        (BigOperand::WideBigR(WBigR::Register(WReg::R1)), 2),
        (BigOperand::TwoByteOneBig(BReg::R1l, BReg::R1h, BBigR::Byte(1)), 2),
        (BigOperand::TwoWideOneBig(WReg::R1, WReg::R2, WBigR::Register(WReg::R1)), 3),
        (BigOperand::WideBigWide(WReg::R1, WBigR::Register(WReg::R1), WReg::R2), 3),
        (BigOperand::ByteWideBig(BReg::R1l, WReg::R2, WBigR::Register(WReg::R1)), 3),
        (BigOperand::WideBigByte(WReg::R1, WBigR::Register(WReg::R1), BReg::R1l), 3),
    ] {
        assert_eq!(op.size(), size);
        assert_eq!(written(op, 0).0.len(), size as usize);
    }
}
