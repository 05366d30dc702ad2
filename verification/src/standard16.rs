//! The standard sixteen-bit-address machine: an accumulator machine with
//! byte cells, the predecessor of the register machine.
//!
//! An instruction is one byte, then its argument. Bit 7 of the byte asks
//! for indirection: the argument is then the address of the value instead
//! of the value. The low seven bits are the opcode. Arithmetic wraps, on
//! the accumulator as on the program counter and the stack pointer.
//!
//! The machine does no input or output of its own. Where an instruction
//! asks for it, `run` hands a signal to the host.

use crate::context::wrap16;
use crate::source::text::str_eq;
use vstd::prelude::*;

verus! {

pub const INVALID: u8 = 0x00;
/// Loads the accumulator from the argument.
pub const MOVR: u8 = 0x01;
/// Writes the argument to the address that follows it.
pub const MOVT: u8 = 0x03;
/// Writes the accumulator to the address in the argument.
pub const STORE: u8 = 0x04;
/// Reserved. Loads the accumulator from the address in the argument, as the
/// instruction that held this place did.
pub const RESERVED5: u8 = 0x05;
pub const ADD: u8 = 0x0a;
pub const SUB: u8 = 0x0b;
pub const MUL: u8 = 0x0c;
pub const DIV: u8 = 0x0d;
pub const REM: u8 = 0x0e;
pub const NOP: u8 = 0x0f;
pub const AND: u8 = 0x06;
pub const OR: u8 = 0x07;
pub const XOR: u8 = 0x08;
pub const NOT: u8 = 0x09;
pub const COMPARE: u8 = 0x02;
pub const JUMP: u8 = 0x10;
pub const JMPR: u8 = 0x18;
pub const JEZ: u8 = 0x11;
pub const JEZR: u8 = 0x19;
pub const JLT: u8 = 0x12;
pub const JLTR: u8 = 0x1a;
pub const JLE: u8 = 0x13;
pub const JLER: u8 = 0x1b;
pub const JGT: u8 = 0x14;
pub const JGTR: u8 = 0x1c;
pub const JGE: u8 = 0x15;
pub const JGER: u8 = 0x1d;
pub const JNE: u8 = 0x16;
pub const JNER: u8 = 0x1e;
pub const JIO: u8 = 0x17;
pub const JIOR: u8 = 0x1f;
pub const PUSH: u8 = 0x20;
pub const POP: u8 = 0x21;
pub const CALL: u8 = 0x22;
pub const RET: u8 = 0x23;
pub const INC: u8 = 0x24;
pub const DEC: u8 = 0x25;
/// Reserved: no instruction yet.
pub const LSV: u8 = 0x26;
pub const HALT: u8 = 0x70;
/// Asks the host for a byte.
pub const INT1: u8 = 0x71;
/// Hands the accumulator to the host.
pub const INT2: u8 = 0x72;
/// Asks the host to show the processor.
pub const INT3: u8 = 0x73;
pub const INT4: u8 = 0x74;
pub const INT5: u8 = 0x75;
pub const INT6: u8 = 0x76;
pub const INT7: u8 = 0x77;
pub const INT8: u8 = 0x78;
pub const INT9: u8 = 0x79;
pub const INT10: u8 = 0x7a;
pub const INT11: u8 = 0x7b;
pub const INT12: u8 = 0x7c;
pub const INT13: u8 = 0x7d;
pub const INT14: u8 = 0x7e;
pub const INT15: u8 = 0x7f;

/// The opcodes by name.
#[derive(Debug, Copy, Clone, Eq, PartialEq, Structural)]
#[allow(non_camel_case_types)]
pub enum Opcode {
    INVALID,
    MOVR,
    MOVT,
    STORE,
    RESERVED5,
    ADD,
    SUB,
    MUL,
    DIV,
    REM,
    NOP,
    AND,
    OR,
    XOR,
    NOT,
    COMPARE,
    JUMP,
    JMPR,
    JEZ,
    JEZR,
    JLT,
    JLTR,
    JLE,
    JLER,
    JGT,
    JGTR,
    JGE,
    JGER,
    JNE,
    JNER,
    JIO,
    JIOR,
    PUSH,
    POP,
    CALL,
    RET,
    INC,
    DEC,
    LSV,
    HALT,
    INT1,
    INT2,
    INT3,
    INT4,
    INT5,
    INT6,
    INT7,
    INT8,
    INT9,
    INT10,
    INT11,
    INT12,
    INT13,
    INT14,
    INT15,
}

impl Opcode {
    /// The opcode byte.
    pub open spec fn spec_code(self) -> u8 {
        match self {
            Opcode::INVALID => INVALID,
            Opcode::MOVR => MOVR,
            Opcode::MOVT => MOVT,
            Opcode::STORE => STORE,
            Opcode::RESERVED5 => RESERVED5,
            Opcode::ADD => ADD,
            Opcode::SUB => SUB,
            Opcode::MUL => MUL,
            Opcode::DIV => DIV,
            Opcode::REM => REM,
            Opcode::NOP => NOP,
            Opcode::AND => AND,
            Opcode::OR => OR,
            Opcode::XOR => XOR,
            Opcode::NOT => NOT,
            Opcode::COMPARE => COMPARE,
            Opcode::JUMP => JUMP,
            Opcode::JMPR => JMPR,
            Opcode::JEZ => JEZ,
            Opcode::JEZR => JEZR,
            Opcode::JLT => JLT,
            Opcode::JLTR => JLTR,
            Opcode::JLE => JLE,
            Opcode::JLER => JLER,
            Opcode::JGT => JGT,
            Opcode::JGTR => JGTR,
            Opcode::JGE => JGE,
            Opcode::JGER => JGER,
            Opcode::JNE => JNE,
            Opcode::JNER => JNER,
            Opcode::JIO => JIO,
            Opcode::JIOR => JIOR,
            Opcode::PUSH => PUSH,
            Opcode::POP => POP,
            Opcode::CALL => CALL,
            Opcode::RET => RET,
            Opcode::INC => INC,
            Opcode::DEC => DEC,
            Opcode::LSV => LSV,
            Opcode::HALT => HALT,
            Opcode::INT1 => INT1,
            Opcode::INT2 => INT2,
            Opcode::INT3 => INT3,
            Opcode::INT4 => INT4,
            Opcode::INT5 => INT5,
            Opcode::INT6 => INT6,
            Opcode::INT7 => INT7,
            Opcode::INT8 => INT8,
            Opcode::INT9 => INT9,
            Opcode::INT10 => INT10,
            Opcode::INT11 => INT11,
            Opcode::INT12 => INT12,
            Opcode::INT13 => INT13,
            Opcode::INT14 => INT14,
            Opcode::INT15 => INT15,
        }
    }

    /// The opcode of a name, written in capitals.
    pub open spec fn spec_from_str(s: Seq<char>) -> Option<Opcode> {
        if s == "INVALID"@ {
            Some(Opcode::INVALID)
        } else if s == "MOVR"@ {
            Some(Opcode::MOVR)
        } else if s == "MOVT"@ {
            Some(Opcode::MOVT)
        } else if s == "STORE"@ {
            Some(Opcode::STORE)
        } else if s == "RESERVED5"@ {
            Some(Opcode::RESERVED5)
        } else if s == "ADD"@ {
            Some(Opcode::ADD)
        } else if s == "SUB"@ {
            Some(Opcode::SUB)
        } else if s == "MUL"@ {
            Some(Opcode::MUL)
        } else if s == "DIV"@ {
            Some(Opcode::DIV)
        } else if s == "REM"@ {
            Some(Opcode::REM)
        } else if s == "NOP"@ {
            Some(Opcode::NOP)
        } else if s == "AND"@ {
            Some(Opcode::AND)
        } else if s == "OR"@ {
            Some(Opcode::OR)
        } else if s == "XOR"@ {
            Some(Opcode::XOR)
        } else if s == "NOT"@ {
            Some(Opcode::NOT)
        } else if s == "COMPARE"@ {
            Some(Opcode::COMPARE)
        } else if s == "JUMP"@ {
            Some(Opcode::JUMP)
        } else if s == "JMPR"@ {
            Some(Opcode::JMPR)
        } else if s == "JEZ"@ {
            Some(Opcode::JEZ)
        } else if s == "JEZR"@ {
            Some(Opcode::JEZR)
        } else if s == "JLT"@ {
            Some(Opcode::JLT)
        } else if s == "JLTR"@ {
            Some(Opcode::JLTR)
        } else if s == "JLE"@ {
            Some(Opcode::JLE)
        } else if s == "JLER"@ {
            Some(Opcode::JLER)
        } else if s == "JGT"@ {
            Some(Opcode::JGT)
        } else if s == "JGTR"@ {
            Some(Opcode::JGTR)
        } else if s == "JGE"@ {
            Some(Opcode::JGE)
        } else if s == "JGER"@ {
            Some(Opcode::JGER)
        } else if s == "JNE"@ {
            Some(Opcode::JNE)
        } else if s == "JNER"@ {
            Some(Opcode::JNER)
        } else if s == "JIO"@ {
            Some(Opcode::JIO)
        } else if s == "JIOR"@ {
            Some(Opcode::JIOR)
        } else if s == "PUSH"@ {
            Some(Opcode::PUSH)
        } else if s == "POP"@ {
            Some(Opcode::POP)
        } else if s == "CALL"@ {
            Some(Opcode::CALL)
        } else if s == "RET"@ {
            Some(Opcode::RET)
        } else if s == "INC"@ {
            Some(Opcode::INC)
        } else if s == "DEC"@ {
            Some(Opcode::DEC)
        } else if s == "LSV"@ {
            Some(Opcode::LSV)
        } else if s == "HALT"@ {
            Some(Opcode::HALT)
        } else if s == "INT1"@ {
            Some(Opcode::INT1)
        } else if s == "INT2"@ {
            Some(Opcode::INT2)
        } else if s == "INT3"@ {
            Some(Opcode::INT3)
        } else if s == "INT4"@ {
            Some(Opcode::INT4)
        } else if s == "INT5"@ {
            Some(Opcode::INT5)
        } else if s == "INT6"@ {
            Some(Opcode::INT6)
        } else if s == "INT7"@ {
            Some(Opcode::INT7)
        } else if s == "INT8"@ {
            Some(Opcode::INT8)
        } else if s == "INT9"@ {
            Some(Opcode::INT9)
        } else if s == "INT10"@ {
            Some(Opcode::INT10)
        } else if s == "INT11"@ {
            Some(Opcode::INT11)
        } else if s == "INT12"@ {
            Some(Opcode::INT12)
        } else if s == "INT13"@ {
            Some(Opcode::INT13)
        } else if s == "INT14"@ {
            Some(Opcode::INT14)
        } else if s == "INT15"@ {
            Some(Opcode::INT15)
        } else {
            None
        }
    }

    /// The opcode byte.
    #[verifier::when_used_as_spec(spec_code)]
    pub fn code(self) -> (c: u8)
        ensures
            c == self.spec_code(),
    {
        match self {
            Opcode::INVALID => INVALID,
            Opcode::MOVR => MOVR,
            Opcode::MOVT => MOVT,
            Opcode::STORE => STORE,
            Opcode::RESERVED5 => RESERVED5,
            Opcode::ADD => ADD,
            Opcode::SUB => SUB,
            Opcode::MUL => MUL,
            Opcode::DIV => DIV,
            Opcode::REM => REM,
            Opcode::NOP => NOP,
            Opcode::AND => AND,
            Opcode::OR => OR,
            Opcode::XOR => XOR,
            Opcode::NOT => NOT,
            Opcode::COMPARE => COMPARE,
            Opcode::JUMP => JUMP,
            Opcode::JMPR => JMPR,
            Opcode::JEZ => JEZ,
            Opcode::JEZR => JEZR,
            Opcode::JLT => JLT,
            Opcode::JLTR => JLTR,
            Opcode::JLE => JLE,
            Opcode::JLER => JLER,
            Opcode::JGT => JGT,
            Opcode::JGTR => JGTR,
            Opcode::JGE => JGE,
            Opcode::JGER => JGER,
            Opcode::JNE => JNE,
            Opcode::JNER => JNER,
            Opcode::JIO => JIO,
            Opcode::JIOR => JIOR,
            Opcode::PUSH => PUSH,
            Opcode::POP => POP,
            Opcode::CALL => CALL,
            Opcode::RET => RET,
            Opcode::INC => INC,
            Opcode::DEC => DEC,
            Opcode::LSV => LSV,
            Opcode::HALT => HALT,
            Opcode::INT1 => INT1,
            Opcode::INT2 => INT2,
            Opcode::INT3 => INT3,
            Opcode::INT4 => INT4,
            Opcode::INT5 => INT5,
            Opcode::INT6 => INT6,
            Opcode::INT7 => INT7,
            Opcode::INT8 => INT8,
            Opcode::INT9 => INT9,
            Opcode::INT10 => INT10,
            Opcode::INT11 => INT11,
            Opcode::INT12 => INT12,
            Opcode::INT13 => INT13,
            Opcode::INT14 => INT14,
            Opcode::INT15 => INT15,
        }
    }

    /// The opcode of a name, written in capitals.
    pub fn from_str(s: &str) -> (op: Option<Opcode>)
        ensures
            op == Opcode::spec_from_str(s@),
    {
        if str_eq(s, "INVALID") {
            Some(Opcode::INVALID)
        } else if str_eq(s, "MOVR") {
            Some(Opcode::MOVR)
        } else if str_eq(s, "MOVT") {
            Some(Opcode::MOVT)
        } else if str_eq(s, "STORE") {
            Some(Opcode::STORE)
        } else if str_eq(s, "RESERVED5") {
            Some(Opcode::RESERVED5)
        } else if str_eq(s, "ADD") {
            Some(Opcode::ADD)
        } else if str_eq(s, "SUB") {
            Some(Opcode::SUB)
        } else if str_eq(s, "MUL") {
            Some(Opcode::MUL)
        } else if str_eq(s, "DIV") {
            Some(Opcode::DIV)
        } else if str_eq(s, "REM") {
            Some(Opcode::REM)
        } else if str_eq(s, "NOP") {
            Some(Opcode::NOP)
        } else if str_eq(s, "AND") {
            Some(Opcode::AND)
        } else if str_eq(s, "OR") {
            Some(Opcode::OR)
        } else if str_eq(s, "XOR") {
            Some(Opcode::XOR)
        } else if str_eq(s, "NOT") {
            Some(Opcode::NOT)
        } else if str_eq(s, "COMPARE") {
            Some(Opcode::COMPARE)
        } else if str_eq(s, "JUMP") {
            Some(Opcode::JUMP)
        } else if str_eq(s, "JMPR") {
            Some(Opcode::JMPR)
        } else if str_eq(s, "JEZ") {
            Some(Opcode::JEZ)
        } else if str_eq(s, "JEZR") {
            Some(Opcode::JEZR)
        } else if str_eq(s, "JLT") {
            Some(Opcode::JLT)
        } else if str_eq(s, "JLTR") {
            Some(Opcode::JLTR)
        } else if str_eq(s, "JLE") {
            Some(Opcode::JLE)
        } else if str_eq(s, "JLER") {
            Some(Opcode::JLER)
        } else if str_eq(s, "JGT") {
            Some(Opcode::JGT)
        } else if str_eq(s, "JGTR") {
            Some(Opcode::JGTR)
        } else if str_eq(s, "JGE") {
            Some(Opcode::JGE)
        } else if str_eq(s, "JGER") {
            Some(Opcode::JGER)
        } else if str_eq(s, "JNE") {
            Some(Opcode::JNE)
        } else if str_eq(s, "JNER") {
            Some(Opcode::JNER)
        } else if str_eq(s, "JIO") {
            Some(Opcode::JIO)
        } else if str_eq(s, "JIOR") {
            Some(Opcode::JIOR)
        } else if str_eq(s, "PUSH") {
            Some(Opcode::PUSH)
        } else if str_eq(s, "POP") {
            Some(Opcode::POP)
        } else if str_eq(s, "CALL") {
            Some(Opcode::CALL)
        } else if str_eq(s, "RET") {
            Some(Opcode::RET)
        } else if str_eq(s, "INC") {
            Some(Opcode::INC)
        } else if str_eq(s, "DEC") {
            Some(Opcode::DEC)
        } else if str_eq(s, "LSV") {
            Some(Opcode::LSV)
        } else if str_eq(s, "HALT") {
            Some(Opcode::HALT)
        } else if str_eq(s, "INT1") {
            Some(Opcode::INT1)
        } else if str_eq(s, "INT2") {
            Some(Opcode::INT2)
        } else if str_eq(s, "INT3") {
            Some(Opcode::INT3)
        } else if str_eq(s, "INT4") {
            Some(Opcode::INT4)
        } else if str_eq(s, "INT5") {
            Some(Opcode::INT5)
        } else if str_eq(s, "INT6") {
            Some(Opcode::INT6)
        } else if str_eq(s, "INT7") {
            Some(Opcode::INT7)
        } else if str_eq(s, "INT8") {
            Some(Opcode::INT8)
        } else if str_eq(s, "INT9") {
            Some(Opcode::INT9)
        } else if str_eq(s, "INT10") {
            Some(Opcode::INT10)
        } else if str_eq(s, "INT11") {
            Some(Opcode::INT11)
        } else if str_eq(s, "INT12") {
            Some(Opcode::INT12)
        } else if str_eq(s, "INT13") {
            Some(Opcode::INT13)
        } else if str_eq(s, "INT14") {
            Some(Opcode::INT14)
        } else if str_eq(s, "INT15") {
            Some(Opcode::INT15)
        } else {
            None
        }
    }
}

/// The flag that says the last comparison or subtraction found equality.
pub const FLAG_ZERO: u8 = 0b0001;
/// The flag that says it found less.
pub const FLAG_LESS: u8 = 0b0010;
/// The flag that says it found greater.
pub const FLAG_GREATER: u8 = 0b0100;
/// The flag that says the last arithmetic operation overflowed.
pub const FLAG_OVERFLOW: u8 = 0b1000;

/// Memory of byte cells, 65536 of them when made by `new`.
#[derive(Debug)]
pub struct Memory16Bit {
    cells: Vec<u8>,
}

impl View for Memory16Bit {
    type V = Seq<u8>;

    closed spec fn view(&self) -> Seq<u8> {
        self.cells@
    }
}

/// The cell at an address: 0 where memory has no such cell.
pub open spec fn cell(mem: Seq<u8>, at: u16) -> u8 {
    if at < mem.len() {
        mem[at as int]
    } else {
        0
    }
}

/// Memory with a cell written. Where memory has no such cell nothing is
/// written.
pub open spec fn with_cell(mem: Seq<u8>, at: u16, v: u8) -> Seq<u8> {
    if at < mem.len() {
        mem.update(at as int, v)
    } else {
        mem
    }
}

/// The wide value at an address: the cell there is the low byte, the next
/// cell, wrapping, the high byte.
pub open spec fn index_at(mem: Seq<u8>, at: u16) -> u16 {
    (cell(mem, at) + 256 * cell(mem, wrap16(at + 1))) as u16
}

/// Memory with a wide value written at an address, low byte first.
pub open spec fn with_index(mem: Seq<u8>, at: u16, v: u16) -> Seq<u8> {
    with_cell(with_cell(mem, at, (v % 256) as u8), wrap16(at + 1), (v / 256) as u8)
}

impl Memory16Bit {
    /// Memory with every cell 0.
    pub fn new() -> (m: Memory16Bit)
        ensures
            m@.len() == 0x1_0000,
            forall|i: int| 0 <= i < 0x1_0000 ==> m@[i] == 0,
    {
        let mut cells: Vec<u8> = Vec::new();
        let mut i: u32 = 0;
        while i < 0x1_0000
            invariant
                i <= 0x1_0000,
                cells@.len() == i,
                forall|j: int| 0 <= j < i ==> cells@[j] == 0,
            decreases 0x1_0000 - i,
        {
            cells.push(0);
            i = i + 1;
        }
        Memory16Bit { cells }
    }

    /// Reads a cell.
    pub fn read(&self, index: u16) -> (v: u8)
        ensures
            v == cell(self@, index),
    {
        if (index as usize) < self.cells.len() {
            self.cells[index as usize]
        } else {
            0
        }
    }

    /// Writes a cell.
    pub fn write(&mut self, index: u16, v: u8)
        ensures
            final(self)@ == with_cell(old(self)@, index, v),
    {
        if (index as usize) < self.cells.len() {
            self.cells.set(index as usize, v);
        }
    }

    /// Reads a wide value, low byte first.
    pub fn read_index(&self, index: u16) -> (v: u16)
        ensures
            v == index_at(self@, index),
    {
        let low = self.read(index);
        let high = self.read(crate::context::add16(index, 1));
        low as u16 + 256 * (high as u16)
    }

    /// Writes a wide value, low byte first.
    pub fn write_index(&mut self, index: u16, v: u16)
        ensures
            final(self)@ == with_index(old(self)@, index, v),
    {
        self.write(index, (v % 256) as u8);
        self.write(crate::context::add16(index, 1), (v / 256) as u8);
    }
}

/// What `run` asks of the host.
#[derive(Clone, Copy, Debug, PartialEq, Eq, Structural)]
pub enum Signal {
    /// The machine stops.
    PowerOff,
    /// The machine wants a byte: the host puts it into the accumulator.
    Input,
    /// The machine hands out a byte.
    Output(u8),
    /// The machine wants its processor shown.
    Debug,
    /// The instruction byte has no meaning.
    Invalid(u8),
    /// A division or remainder by 0. The accumulator and the flags stay.
    DivisionByZero,
}

/// The arithmetic operations that set the overflow flag.
#[derive(Clone, Copy, Debug, PartialEq, Eq, Structural)]
pub enum Arithmetic {
    Add,
    Mul,
    Div,
    Rem,
}

/// The bitwise operations.
#[derive(Clone, Copy, Debug, PartialEq, Eq, Structural)]
pub enum Logic {
    And,
    Or,
    Xor,
}

/// The processor.
#[derive(Clone, Copy, Debug, PartialEq, Eq, Structural)]
pub struct StandardCpu {
    pub pc: u16,
    pub stack_pointer: u16,
    pub base_pointer: u16,
    pub counter: u16,
    pub accumulator: u8,
    pub flags: u8,
}

/// The result of an arithmetic operation and whether it overflowed. There
/// is none for a division or remainder by 0.
pub open spec fn arithmetic(op: Arithmetic, a: u8, b: u8) -> Option<(u8, bool)> {
    match op {
        Arithmetic::Add => Some((((a + b) % 256) as u8, a + b > 255)),
        Arithmetic::Mul => Some((((a * b) % 256) as u8, a * b > 255)),
        Arithmetic::Div => if b == 0 {
            None
        } else {
            Some(((a / b) as u8, false))
        },
        Arithmetic::Rem => if b == 0 {
            None
        } else {
            Some(((a % b) as u8, false))
        },
    }
}

/// The result of a bitwise operation.
pub open spec fn logic(op: Logic, a: u8, b: u8) -> u8 {
    match op {
        Logic::And => a & b,
        Logic::Or => a | b,
        Logic::Xor => a ^ b,
    }
}

/// The flags with the four low bits replaced.
pub open spec fn with_low_flags(flags: u8, low: u8) -> u8 {
    (flags & 0b1111_0000) | low
}

/// A byte one up or one down, wrapping.
fn wrapping_step(a: u8, up: bool) -> (r: u8)
    ensures
        up ==> r == ((a + 1) % 256) as u8,
        !up ==> r == ((a - 1) % 256) as u8,
{
    if up {
        ((a as u16 + 1) % 256) as u8
    } else {
        ((a as u16 + 255) % 256) as u8
    }
}

impl StandardCpu {
    /// The processor as the first cells of memory describe it: the program
    /// counter at 0, the stack pointer at 2, the base pointer at 4, the
    /// counter at 6, the accumulator at 7 and the flags at 8.
    pub open spec fn spec_new(mem: Seq<u8>) -> StandardCpu {
        StandardCpu {
            pc: index_at(mem, 0),
            stack_pointer: index_at(mem, 2),
            base_pointer: index_at(mem, 4),
            counter: index_at(mem, 6),
            accumulator: cell(mem, 7),
            flags: cell(mem, 8),
        }
    }

    /// Reading a byte argument: the cell at the program counter, or, with
    /// indirection, the cell at the address that stands there.
    pub open spec fn spec_read_arg(self, mem: Seq<u8>, indirection: bool) -> (StandardCpu, u8) {
        if indirection {
            (StandardCpu { pc: wrap16(self.pc + 2), ..self }, cell(mem, index_at(mem, self.pc)))
        } else {
            (StandardCpu { pc: wrap16(self.pc + 1), ..self }, cell(mem, self.pc))
        }
    }

    /// Reading a wide argument: the wide value at the program counter, or,
    /// with indirection, the wide value at the address that stands there.
    pub open spec fn spec_read_arg_index(self, mem: Seq<u8>, indirection: bool) -> (
        StandardCpu,
        u16,
    ) {
        (
            StandardCpu { pc: wrap16(self.pc + 2), ..self },
            if indirection {
                index_at(mem, index_at(mem, self.pc))
            } else {
                index_at(mem, self.pc)
            },
        )
    }

    /// Subtracting the argument from the accumulator. The low flags say
    /// overflow with greater where the subtraction wrapped, else zero or
    /// less.
    pub open spec fn spec_sub(self, mem: Seq<u8>, indirection: bool) -> StandardCpu {
        let (c, v) = self.spec_read_arg(mem, indirection);
        let work = ((c.accumulator - v) % 256) as u8;
        StandardCpu {
            accumulator: work,
            flags: with_low_flags(
                c.flags,
                if c.accumulator < v {
                    0b1100
                } else if work == 0 {
                    0b0001
                } else {
                    0b0010
                },
            ),
            ..c
        }
    }

    /// An arithmetic operation on the accumulator and the argument. The
    /// low flags are cleared but for overflow. A division by 0 changes the
    /// program counter only.
    pub open spec fn spec_binop_overflowing(self, mem: Seq<u8>, indirection: bool, op: Arithmetic) -> (
        StandardCpu,
        bool,
    ) {
        let (c, v) = self.spec_read_arg(mem, indirection);
        match arithmetic(op, c.accumulator, v) {
            None => (c, false),
            Some((work, o)) => (
                StandardCpu {
                    accumulator: work,
                    flags: with_low_flags(
                        c.flags,
                        if o {
                            0b1000
                        } else {
                            0
                        },
                    ),
                    ..c
                },
                true,
            ),
        }
    }

    /// A bitwise operation on the accumulator and the argument. The low
    /// flags are cleared.
    pub open spec fn spec_binop(self, mem: Seq<u8>, indirection: bool, op: Logic) -> StandardCpu {
        let (c, v) = self.spec_read_arg(mem, indirection);
        StandardCpu {
            accumulator: logic(op, c.accumulator, v),
            flags: with_low_flags(c.flags, 0),
            ..c
        }
    }

    /// Comparing the accumulator with the argument: the low flags say
    /// greater, less or equal.
    pub open spec fn spec_compare(self, mem: Seq<u8>, indirection: bool) -> StandardCpu {
        let (c, v) = self.spec_read_arg(mem, indirection);
        StandardCpu {
            flags: with_low_flags(
                c.flags,
                if c.accumulator > v {
                    0b0100
                } else if c.accumulator < v {
                    0b0010
                } else {
                    0b0001
                },
            ),
            ..c
        }
    }

    /// A jump to the wide argument, or, where it is relative, by the wide
    /// argument from behind the instruction, wrapping.
    pub open spec fn spec_jmp(self, mem: Seq<u8>, indirection: bool, relative: bool) -> StandardCpu {
        let (c, location) = self.spec_read_arg_index(mem, indirection);
        StandardCpu {
            pc: if relative {
                wrap16(c.pc + location)
            } else {
                location
            },
            ..c
        }
    }

    /// A jump that is taken where `taken` holds; else the wide argument is
    /// passed over.
    pub open spec fn spec_jump_if(
        self,
        mem: Seq<u8>,
        indirection: bool,
        relative: bool,
        taken: bool,
    ) -> StandardCpu {
        if taken {
            self.spec_jmp(mem, indirection, relative)
        } else {
            StandardCpu { pc: wrap16(self.pc + 2), ..self }
        }
    }

    /// One instruction: the processor and memory it leaves, and what it
    /// asks of the host, if anything.
    pub open spec fn spec_run(self, mem: Seq<u8>) -> (StandardCpu, Seq<u8>, Option<Signal>) {
        let cur_ins = cell(mem, self.pc);
        let c = StandardCpu { pc: wrap16(self.pc + 1), ..self };
        let indirection = cur_ins & 0b1000_0000 == 0b1000_0000;
        let relative = cur_ins & 0b1000 == 0b1000;
        let op = cur_ins & 0b0111_1111;
        if op == NOP {
            (c, mem, None)
        } else if op == MOVT {
            let (d, v) = c.spec_read_arg(mem, indirection);
            (
                StandardCpu { pc: wrap16(d.pc + 2), ..d },
                with_cell(mem, index_at(mem, d.pc), v),
                None,
            )
        } else if op == RESERVED5 {
            let (d, at) = c.spec_read_arg_index(mem, indirection);
            (StandardCpu { accumulator: cell(mem, at), ..d }, mem, None)
        } else if op == MOVR {
            let (d, v) = c.spec_read_arg(mem, indirection);
            (StandardCpu { accumulator: v, ..d }, mem, None)
        } else if op == STORE {
            let (d, at) = c.spec_read_arg_index(mem, indirection);
            (d, with_cell(mem, at, d.accumulator), None)
        } else if op == COMPARE {
            (c.spec_compare(mem, indirection), mem, None)
        } else if op == SUB {
            (c.spec_sub(mem, indirection), mem, None)
        } else if op == ADD {
            (c.spec_binop_overflowing(mem, indirection, Arithmetic::Add).0, mem, None)
        } else if op == MUL {
            (c.spec_binop_overflowing(mem, indirection, Arithmetic::Mul).0, mem, None)
        } else if op == DIV {
            let (d, done) = c.spec_binop_overflowing(mem, indirection, Arithmetic::Div);
            (
                d,
                mem,
                if done {
                    None
                } else {
                    Some(Signal::DivisionByZero)
                },
            )
        } else if op == REM {
            let (d, done) = c.spec_binop_overflowing(mem, indirection, Arithmetic::Rem);
            (
                d,
                mem,
                if done {
                    None
                } else {
                    Some(Signal::DivisionByZero)
                },
            )
        } else if op == AND {
            (c.spec_binop(mem, indirection, Logic::And), mem, None)
        } else if op == OR {
            (c.spec_binop(mem, indirection, Logic::Or), mem, None)
        } else if op == XOR {
            (c.spec_binop(mem, indirection, Logic::Xor), mem, None)
        } else if op == NOT {
            let (d, v) = c.spec_read_arg(mem, indirection);
            (StandardCpu { accumulator: !v, ..d }, mem, None)
        } else if op == JUMP || op == JMPR {
            (c.spec_jmp(mem, indirection, relative), mem, None)
        } else if op == JIO || op == JIOR {
            (
                c.spec_jump_if(mem, indirection, relative, c.flags & 0b1000 == 0b1000),
                mem,
                None,
            )
        } else if (JEZ <= op && op <= JNE) || (JEZR <= op && op <= JNER) {
            (
                c.spec_jump_if(mem, indirection, relative, c.flags & (cur_ins & 0b0111) != 0),
                mem,
                None,
            )
        } else if op == PUSH {
            (
                StandardCpu { stack_pointer: wrap16(c.stack_pointer - 1), ..c },
                with_cell(mem, c.stack_pointer, c.accumulator),
                None,
            )
        } else if op == POP {
            let sp = wrap16(c.stack_pointer + 1);
            (StandardCpu { stack_pointer: sp, accumulator: cell(mem, sp), ..c }, mem, None)
        } else if op == RET {
            let sp = wrap16(c.stack_pointer + 2);
            (StandardCpu { stack_pointer: sp, pc: index_at(mem, wrap16(sp + 1)), ..c }, mem, None)
        } else if op == CALL {
            let (d, location) = c.spec_read_arg_index(mem, indirection);
            (
                StandardCpu { stack_pointer: wrap16(d.stack_pointer - 2), pc: location, ..d },
                with_index(mem, wrap16(d.stack_pointer - 1), d.pc),
                None,
            )
        } else if op == INC {
            (StandardCpu { accumulator: ((c.accumulator + 1) % 256) as u8, ..c }, mem, None)
        } else if op == DEC {
            (StandardCpu { accumulator: ((c.accumulator - 1) % 256) as u8, ..c }, mem, None)
        } else if op == INT1 {
            (c, mem, Some(Signal::Input))
        } else if op == INT2 {
            (c, mem, Some(Signal::Output(c.accumulator)))
        } else if op == INT3 {
            (c, mem, Some(Signal::Debug))
        } else if op >= HALT {
            (c, mem, Some(Signal::PowerOff))
        } else {
            (c, mem, Some(Signal::Invalid(cur_ins)))
        }
    }

    /// The processor as the first cells of memory describe it.
    pub fn new(m: &Memory16Bit) -> (cpu: StandardCpu)
        ensures
            cpu == StandardCpu::spec_new(m@),
    {
        StandardCpu {
            pc: m.read_index(0),
            stack_pointer: m.read_index(2),
            base_pointer: m.read_index(4),
            counter: m.read_index(6),
            accumulator: m.read(7),
            flags: m.read(8),
        }
    }

    /// Reads a byte argument and moves the program counter behind it.
    pub fn read_arg(&mut self, m: &Memory16Bit, indirection: bool) -> (ret: u8)
        ensures
            (*final(self), ret) == old(self).spec_read_arg(m@, indirection),
    {
        let ret;
        if indirection {
            ret = m.read(m.read_index(self.pc));
            self.pc = crate::context::add16(self.pc, 2);
        } else {
            ret = m.read(self.pc);
            self.pc = crate::context::add16(self.pc, 1);
        }
        ret
    }

    /// Reads a wide argument and moves the program counter behind it.
    pub fn read_arg_index(&mut self, m: &Memory16Bit, indirection: bool) -> (ret: u16)
        ensures
            (*final(self), ret) == old(self).spec_read_arg_index(m@, indirection),
    {
        let ret = if indirection {
            m.read_index(m.read_index(self.pc))
        } else {
            m.read_index(self.pc)
        };
        self.pc = crate::context::add16(self.pc, 2);
        ret
    }

    /// Subtracts the argument from the accumulator.
    pub fn sub(&mut self, m: &Memory16Bit, indirection: bool)
        ensures
            *final(self) == old(self).spec_sub(m@, indirection),
    {
        let v = self.read_arg(m, indirection);
        let o = self.accumulator < v;
        let work: u8 = ((self.accumulator as u16 + 256 - v as u16) % 256) as u8;
        self.accumulator = work;
        self.flags = (self.flags & 0b1111_0000) | if o {
            0b1100
        } else if work == 0 {
            0b0001
        } else {
            0b0010
        };
    }

    /// An arithmetic operation on the accumulator and the argument; `false`
    /// for a division by 0.
    pub fn binop_overflowing(&mut self, m: &Memory16Bit, indirection: bool, op: Arithmetic) -> (done:
        bool)
        ensures
            (*final(self), done) == old(self).spec_binop_overflowing(m@, indirection, op),
    {
        let v = self.read_arg(m, indirection);
        let a = self.accumulator;
        assert(a * v <= 255 * 255) by (nonlinear_arith)
            requires
                a <= 255,
                v <= 255,
        ;
        let (work, o): (u8, bool) = match op {
            Arithmetic::Add => (((a as u16 + v as u16) % 256) as u8, a as u16 + v as u16 > 255),
            Arithmetic::Mul => (((a as u16 * v as u16) % 256) as u8, a as u16 * v as u16 > 255),
            Arithmetic::Div => {
                if v == 0 {
                    return false;
                }
                (a / v, false)
            },
            Arithmetic::Rem => {
                if v == 0 {
                    return false;
                }
                (a % v, false)
            },
        };
        self.accumulator = work;
        self.flags = (self.flags & 0b1111_0000) | if o {
            0b1000
        } else {
            0
        };
        true
    }

    /// A bitwise operation on the accumulator and the argument.
    pub fn binop(&mut self, m: &Memory16Bit, indirection: bool, op: Logic)
        ensures
            *final(self) == old(self).spec_binop(m@, indirection, op),
    {
        let v = self.read_arg(m, indirection);
        self.accumulator = match op {
            Logic::And => self.accumulator & v,
            Logic::Or => self.accumulator | v,
            Logic::Xor => self.accumulator ^ v,
        };
        self.flags = (self.flags & 0b1111_0000) | 0;
    }

    /// Compares the accumulator with the argument.
    pub fn cmp(&mut self, m: &Memory16Bit, indirection: bool)
        ensures
            *final(self) == old(self).spec_compare(m@, indirection),
    {
        let v = self.read_arg(m, indirection);
        self.flags = (self.flags & 0b1111_0000) | if self.accumulator > v {
            0b0100
        } else if self.accumulator < v {
            0b0010
        } else {
            0b0001
        };
    }

    /// Jumps to the wide argument, or by it.
    pub fn jmp(&mut self, m: &Memory16Bit, indirection: bool, relative: bool)
        ensures
            *final(self) == old(self).spec_jmp(m@, indirection, relative),
    {
        let location = self.read_arg_index(m, indirection);
        self.pc = if relative {
            crate::context::add16(self.pc, location)
        } else {
            location
        };
    }

    fn jump_if(&mut self, m: &Memory16Bit, indirection: bool, relative: bool, taken: bool)
        ensures
            *final(self) == old(self).spec_jump_if(m@, indirection, relative, taken),
    {
        if taken {
            self.jmp(m, indirection, relative);
        } else {
            self.pc = crate::context::add16(self.pc, 2);
        }
    }

    /// Executes one instruction. What it asks of the host comes back as a
    /// signal; the processor then stands behind the instruction.
    pub fn run(&mut self, memory: &mut Memory16Bit) -> (signal: Option<Signal>)
        ensures
            (*final(self), final(memory)@, signal) == old(self).spec_run(old(memory)@),
    {
        let cur_ins = memory.read(self.pc);
        self.pc = crate::context::add16(self.pc, 1);
        let indirection = cur_ins & 0b1000_0000 == 0b1000_0000;
        let relative = cur_ins & 0b1000 == 0b1000;
        let op = cur_ins & 0b0111_1111;
        if op == NOP {
        } else if op == MOVT {
            let to_write = self.read_arg(memory, indirection);
            memory.write(memory.read_index(self.pc), to_write);
            self.pc = crate::context::add16(self.pc, 2);
        } else if op == RESERVED5 {
            let at = self.read_arg_index(memory, indirection);
            self.accumulator = memory.read(at);
        } else if op == MOVR {
            self.accumulator = self.read_arg(memory, indirection);
        } else if op == STORE {
            let at = self.read_arg_index(memory, indirection);
            memory.write(at, self.accumulator);
        } else if op == COMPARE {
            self.cmp(memory, indirection);
        } else if op == SUB {
            self.sub(memory, indirection);
        } else if op == ADD {
            self.binop_overflowing(memory, indirection, Arithmetic::Add);
        } else if op == MUL {
            self.binop_overflowing(memory, indirection, Arithmetic::Mul);
        } else if op == DIV {
            if !self.binop_overflowing(memory, indirection, Arithmetic::Div) {
                return Some(Signal::DivisionByZero);
            }
        } else if op == REM {
            if !self.binop_overflowing(memory, indirection, Arithmetic::Rem) {
                return Some(Signal::DivisionByZero);
            }
        } else if op == AND {
            self.binop(memory, indirection, Logic::And);
        } else if op == OR {
            self.binop(memory, indirection, Logic::Or);
        } else if op == XOR {
            self.binop(memory, indirection, Logic::Xor);
        } else if op == NOT {
            self.accumulator = !self.read_arg(memory, indirection);
        } else if op == JUMP || op == JMPR {
            self.jmp(memory, indirection, relative);
        } else if op == JIO || op == JIOR {
            let taken = self.flags & 0b1000 == 0b1000;
            self.jump_if(memory, indirection, relative, taken);
        } else if (JEZ <= op && op <= JNE) || (JEZR <= op && op <= JNER) {
            let taken = self.flags & (cur_ins & 0b0111) != 0;
            self.jump_if(memory, indirection, relative, taken);
        } else if op == PUSH {
            memory.write(self.stack_pointer, self.accumulator);
            self.stack_pointer = crate::context::sub16(self.stack_pointer, 1);
        } else if op == POP {
            self.stack_pointer = crate::context::add16(self.stack_pointer, 1);
            self.accumulator = memory.read(self.stack_pointer);
        } else if op == RET {
            self.stack_pointer = crate::context::add16(self.stack_pointer, 2);
            self.pc = memory.read_index(crate::context::add16(self.stack_pointer, 1));
        } else if op == CALL {
            let call_location = self.read_arg_index(memory, indirection);
            memory.write_index(crate::context::sub16(self.stack_pointer, 1), self.pc);
            self.stack_pointer = crate::context::sub16(self.stack_pointer, 2);
            self.pc = call_location;
        } else if op == INC {
            self.accumulator = wrapping_step(self.accumulator, true);
        } else if op == DEC {
            self.accumulator = wrapping_step(self.accumulator, false);
        } else if op == INT1 {
            return Some(Signal::Input);
        } else if op == INT2 {
            return Some(Signal::Output(self.accumulator));
        } else if op == INT3 {
            return Some(Signal::Debug);
        } else if op >= HALT {
            return Some(Signal::PowerOff);
        } else {
            return Some(Signal::Invalid(cur_ins));
        }
        None
    }
}

} // verus!
