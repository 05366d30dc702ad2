//! Processor state: registers, flags, mode bits and the machine's fixed
//! configuration, together with the trap kinds an instruction can raise.

use crate::registers::{BReg, WReg};
use vstd::prelude::*;

verus! {

/// Why an instruction did not retire.
#[derive(Clone, Copy, Debug, PartialEq, Eq, Structural)]
pub enum TrapMode {
    /// An unassigned opcode, a malformed operand byte, a write to the wide
    /// zero register, or a fetch outside the text bounds.
    Invalid,
    /// `HALT` was executed.
    Halt,
    /// `SYSCALL` was executed.
    SysCall,
    /// A division whose divisor is zero.
    ZeroDiv,
    /// A privileged operation attempted in user mode.
    IllegalOperation,
    /// `RETH` outside a trap handler.
    IllegalHandlerReturn,
    /// Address translation failed for the given virtual address.
    PageFault(u16),
    /// A physical address beyond the end of memory.
    MemoryFault,
}

/// What an operation hands back: its value, or the trap it raises.
pub type OpRes<T = ()> = Result<T, TrapMode>;

/// The four condition flags and the three mode bits.
#[derive(Clone, Copy, Debug, PartialEq, Eq, Structural)]
pub struct Flags {
    pub zero: bool,
    pub sign: bool,
    pub carry: bool,
    pub overflow: bool,
    /// A trap handler is running.
    pub trap: bool,
    /// Privileged operations are refused.
    pub user_mode: bool,
    /// Effective addresses go through the page table.
    pub virtual_mode: bool,
}

/// The value of one bit of a flag word.
pub open spec fn bit_weight(set: bool, weight: nat) -> nat {
    if set {
        weight
    } else {
        0
    }
}

impl Flags {
    /// The flag word: one bit per flag, `zero` lowest, bit 7 clear.
    pub open spec fn word(self) -> nat {
        bit_weight(self.zero, 1) + bit_weight(self.sign, 2) + bit_weight(self.carry, 4)
            + bit_weight(self.overflow, 8) + bit_weight(self.trap, 16) + bit_weight(
            self.user_mode,
            32,
        ) + bit_weight(self.virtual_mode, 64)
    }

    /// The flags that a flag word stands for. Bit 7 is ignored.
    pub open spec fn from_word(w: nat) -> Flags {
        Flags {
            zero: w % 2 == 1,
            sign: (w / 2) % 2 == 1,
            carry: (w / 4) % 2 == 1,
            overflow: (w / 8) % 2 == 1,
            trap: (w / 16) % 2 == 1,
            user_mode: (w / 32) % 2 == 1,
            virtual_mode: (w / 64) % 2 == 1,
        }
    }

    /// All flags clear: supervisor mode, physical addressing, no trap.
    pub fn cleared() -> (f: Flags)
        ensures
            f == Flags::from_word(0),
    {
        Flags {
            zero: false,
            sign: false,
            carry: false,
            overflow: false,
            trap: false,
            user_mode: false,
            virtual_mode: false,
        }
    }

    /// Packs the flags into the flag word.
    pub fn to_byte(self) -> (b: u8)
        ensures
            b == self.word(),
            b < 128,
    {
        let mut b: u8 = 0;
        if self.zero {
            b = b + 1;
        }
        if self.sign {
            b = b + 2;
        }
        if self.carry {
            b = b + 4;
        }
        if self.overflow {
            b = b + 8;
        }
        if self.trap {
            b = b + 16;
        }
        if self.user_mode {
            b = b + 32;
        }
        if self.virtual_mode {
            b = b + 64;
        }
        b
    }

    /// Unpacks a flag word.
    pub fn from_byte(b: u8) -> (f: Flags)
        ensures
            f == Flags::from_word(b as nat),
    {
        Flags {
            zero: b % 2 == 1,
            sign: (b / 2) % 2 == 1,
            carry: (b / 4) % 2 == 1,
            overflow: (b / 8) % 2 == 1,
            trap: (b / 16) % 2 == 1,
            user_mode: (b / 32) % 2 == 1,
            virtual_mode: (b / 64) % 2 == 1,
        }
    }
}

/// Unpacking a packed flag word gives the flags back.
pub proof fn lemma_flag_word_round_trip(f: Flags)
    ensures
        f.word() < 128,
        Flags::from_word(f.word()) == f,
{
}

/// Where each kind of fault enters the guest, if a handler is installed.
#[derive(Clone, Copy, Debug, PartialEq, Eq, Structural)]
pub struct TrapVectors {
    pub invalid: Option<u16>,
    pub zero_div: Option<u16>,
    pub illegal_operation: Option<u16>,
    pub illegal_handler_return: Option<u16>,
    pub page_fault: Option<u16>,
    pub memory_fault: Option<u16>,
}

impl TrapVectors {
    /// The handler address for a trap kind. `Halt` and `SysCall` have none:
    /// they go to the host.
    pub open spec fn spec_vector(self, t: TrapMode) -> Option<u16> {
        match t {
            TrapMode::Invalid => self.invalid,
            TrapMode::Halt => None,
            TrapMode::SysCall => None,
            TrapMode::ZeroDiv => self.zero_div,
            TrapMode::IllegalOperation => self.illegal_operation,
            TrapMode::IllegalHandlerReturn => self.illegal_handler_return,
            TrapMode::PageFault(_) => self.page_fault,
            TrapMode::MemoryFault => self.memory_fault,
        }
    }

    /// No handler installed for any kind.
    pub open spec fn spec_none() -> TrapVectors {
        TrapVectors {
            invalid: None,
            zero_div: None,
            illegal_operation: None,
            illegal_handler_return: None,
            page_fault: None,
            memory_fault: None,
        }
    }

    /// Every fault kind enters the guest at the same address.
    pub open spec fn spec_all(entry: u16) -> TrapVectors {
        TrapVectors {
            invalid: Some(entry),
            zero_div: Some(entry),
            illegal_operation: Some(entry),
            illegal_handler_return: Some(entry),
            page_fault: Some(entry),
            memory_fault: Some(entry),
        }
    }

    /// No handler installed for any kind.
    #[verifier::when_used_as_spec(spec_none)]
    pub fn none() -> (v: TrapVectors)
        ensures
            v == TrapVectors::spec_none(),
    {
        TrapVectors {
            invalid: None,
            zero_div: None,
            illegal_operation: None,
            illegal_handler_return: None,
            page_fault: None,
            memory_fault: None,
        }
    }

    /// Every fault kind enters the guest at the same address.
    #[verifier::when_used_as_spec(spec_all)]
    pub fn all(entry: u16) -> (v: TrapVectors)
        ensures
            v == TrapVectors::spec_all(entry),
    {
        TrapVectors {
            invalid: Some(entry),
            zero_div: Some(entry),
            illegal_operation: Some(entry),
            illegal_handler_return: Some(entry),
            page_fault: Some(entry),
            memory_fault: Some(entry),
        }
    }

    /// The handler address for a trap kind.
    #[verifier::when_used_as_spec(spec_vector)]
    pub fn vector(self, t: TrapMode) -> (v: Option<u16>)
        ensures
            v == self.spec_vector(t),
    {
        match t {
            TrapMode::Invalid => self.invalid,
            TrapMode::Halt => None,
            TrapMode::SysCall => None,
            TrapMode::ZeroDiv => self.zero_div,
            TrapMode::IllegalOperation => self.illegal_operation,
            TrapMode::IllegalHandlerReturn => self.illegal_handler_return,
            TrapMode::PageFault(_) => self.page_fault,
            TrapMode::MemoryFault => self.memory_fault,
        }
    }
}

/// The processor: ten general registers, the distinguished wide registers,
/// the flags, and the configuration that no instruction changes.
#[derive(Clone, Copy, Debug, PartialEq, Eq, Structural)]
pub struct Cpu {
    pub r1: u16,
    pub r2: u16,
    pub r3: u16,
    pub r4: u16,
    pub r5: u16,
    pub r6: u16,
    pub r7: u16,
    pub r8: u16,
    pub r9: u16,
    pub r10: u16,
    /// The stack pointer, `rs`.
    pub stack: u16,
    /// The link register, `rl`.
    pub link: u16,
    /// The base register, `rb`.
    pub base: u16,
    /// The handler stack register, `rh`: the top of the area where trap
    /// entry saves the registers.
    pub handler: u16,
    pub program_counter: u16,
    pub flags: Flags,
    /// The upper eight address bits in supervisor mode without translation.
    pub supervisor_frame: u8,
    /// The upper eight address bits in user mode without translation.
    pub user_frame: u8,
    /// The physical address of the page table.
    pub page_table: u32,
    /// The first address instructions may be fetched from.
    pub text_start: u16,
    /// The last address instructions may be fetched from.
    pub text_last: u16,
    pub vectors: TrapVectors,
}

/// The low byte of a wide value.
pub open spec fn low_byte(w: u16) -> u8 {
    (w % 256) as u8
}

/// The high byte of a wide value.
pub open spec fn high_byte(w: u16) -> u8 {
    (w / 256) as u8
}

/// The wide value with the given low and high byte.
pub open spec fn wide_of(low: u8, high: u8) -> u16 {
    (low + 256 * high) as u16
}

impl Cpu {
    /// What a wide register holds. The zero register holds 0.
    pub open spec fn wide(self, r: WReg) -> u16 {
        match r {
            WReg::R0 => 0,
            WReg::R1 => self.r1,
            WReg::R2 => self.r2,
            WReg::R3 => self.r3,
            WReg::R4 => self.r4,
            WReg::R5 => self.r5,
            WReg::R6 => self.r6,
            WReg::R7 => self.r7,
            WReg::R8 => self.r8,
            WReg::R9 => self.r9,
            WReg::R10 => self.r10,
            WReg::Rs => self.stack,
            WReg::Rl => self.link,
            WReg::Rb => self.base,
            WReg::Rp => self.program_counter,
            WReg::Rh => self.handler,
        }
    }

    /// The state with a wide register set. Setting the zero register
    /// changes nothing.
    pub open spec fn with_wide(self, r: WReg, v: u16) -> Cpu {
        match r {
            WReg::R0 => self,
            WReg::R1 => Cpu { r1: v, ..self },
            WReg::R2 => Cpu { r2: v, ..self },
            WReg::R3 => Cpu { r3: v, ..self },
            WReg::R4 => Cpu { r4: v, ..self },
            WReg::R5 => Cpu { r5: v, ..self },
            WReg::R6 => Cpu { r6: v, ..self },
            WReg::R7 => Cpu { r7: v, ..self },
            WReg::R8 => Cpu { r8: v, ..self },
            WReg::R9 => Cpu { r9: v, ..self },
            WReg::R10 => Cpu { r10: v, ..self },
            WReg::Rs => Cpu { stack: v, ..self },
            WReg::Rl => Cpu { link: v, ..self },
            WReg::Rb => Cpu { base: v, ..self },
            WReg::Rp => Cpu { program_counter: v, ..self },
            WReg::Rh => Cpu { handler: v, ..self },
        }
    }

    /// The trap that reading a wide register raises, if any: the handler
    /// stack register is out of reach in user mode.
    pub open spec fn read_fault(self, r: WReg) -> Option<TrapMode> {
        if r == WReg::Rh && self.flags.user_mode {
            Some(TrapMode::IllegalOperation)
        } else {
            None
        }
    }

    /// The trap that writing a wide register raises, if any: the zero
    /// register rejects writes, and the handler stack register is out of
    /// reach in user mode.
    pub open spec fn write_fault(self, r: WReg) -> Option<TrapMode> {
        if r == WReg::R0 {
            Some(TrapMode::Invalid)
        } else if r == WReg::Rh && self.flags.user_mode {
            Some(TrapMode::IllegalOperation)
        } else {
            None
        }
    }

    /// What reading a wide register gives.
    pub open spec fn spec_read_wr(self, r: WReg) -> OpRes<u16> {
        match self.read_fault(r) {
            Some(t) => Err(t),
            None => Ok(self.wide(r)),
        }
    }

    /// The state after writing a wide register. A refused write changes
    /// nothing.
    pub open spec fn spec_write_wr(self, r: WReg, v: u16) -> (Cpu, OpRes) {
        match self.write_fault(r) {
            Some(t) => (self, Err(t)),
            None => (self.with_wide(r, v), Ok(())),
        }
    }

    /// What a byte register holds: one half of its wide register, and 0 for
    /// the zero register.
    pub open spec fn byte(self, r: BReg) -> u8 {
        if r.spec_is_high() {
            high_byte(self.wide(r.spec_wide()))
        } else {
            low_byte(self.wide(r.spec_wide()))
        }
    }

    /// The state with a byte register set: the other half of its wide
    /// register stays. Setting the zero register changes nothing.
    pub open spec fn with_byte(self, r: BReg, v: u8) -> Cpu {
        let w = self.wide(r.spec_wide());
        if r.spec_is_high() {
            self.with_wide(r.spec_wide(), wide_of(low_byte(w), v))
        } else {
            self.with_wide(r.spec_wide(), wide_of(v, high_byte(w)))
        }
    }

    /// The state with the flags replaced.
    pub open spec fn with_flags(self, flags: Flags) -> Cpu {
        Cpu { flags, ..self }
    }

    /// The state with the program counter replaced.
    pub open spec fn with_pc(self, pc: u16) -> Cpu {
        Cpu { program_counter: pc, ..self }
    }

    /// A processor at reset: every register 0, supervisor mode, physical
    /// addressing in frame 0, the whole address range open to fetches, no
    /// handler installed.
    pub open spec fn spec_new() -> Cpu {
        Cpu {
            r1: 0,
            r2: 0,
            r3: 0,
            r4: 0,
            r5: 0,
            r6: 0,
            r7: 0,
            r8: 0,
            r9: 0,
            r10: 0,
            stack: 0,
            link: 0,
            base: 0,
            handler: 0,
            program_counter: 0,
            flags: Flags::from_word(0),
            supervisor_frame: 0,
            user_frame: 0,
            page_table: 0,
            text_start: 0,
            text_last: 0xffff,
            vectors: TrapVectors::spec_none(),
        }
    }

    /// A processor at reset.
    pub fn new() -> (cpu: Cpu)
        ensures
            cpu == Cpu::spec_new(),
    {
        Cpu {
            r1: 0,
            r2: 0,
            r3: 0,
            r4: 0,
            r5: 0,
            r6: 0,
            r7: 0,
            r8: 0,
            r9: 0,
            r10: 0,
            stack: 0,
            link: 0,
            base: 0,
            handler: 0,
            program_counter: 0,
            flags: Flags::cleared(),
            supervisor_frame: 0,
            user_frame: 0,
            page_table: 0,
            text_start: 0,
            text_last: 0xffff,
            vectors: TrapVectors::none(),
        }
    }

    /// Reads a wide register without the privilege check.
    fn raw_wide(&self, r: WReg) -> (v: u16)
        ensures
            v == self.wide(r),
    {
        match r {
            WReg::R0 => 0,
            WReg::R1 => self.r1,
            WReg::R2 => self.r2,
            WReg::R3 => self.r3,
            WReg::R4 => self.r4,
            WReg::R5 => self.r5,
            WReg::R6 => self.r6,
            WReg::R7 => self.r7,
            WReg::R8 => self.r8,
            WReg::R9 => self.r9,
            WReg::R10 => self.r10,
            WReg::Rs => self.stack,
            WReg::Rl => self.link,
            WReg::Rb => self.base,
            WReg::Rp => self.program_counter,
            WReg::Rh => self.handler,
        }
    }

    /// Sets a wide register without the checks.
    fn set_raw_wide(&mut self, r: WReg, v: u16)
        ensures
            *final(self) == old(self).with_wide(r, v),
    {
        match r {
            WReg::R0 => {},
            WReg::R1 => { self.r1 = v; },
            WReg::R2 => { self.r2 = v; },
            WReg::R3 => { self.r3 = v; },
            WReg::R4 => { self.r4 = v; },
            WReg::R5 => { self.r5 = v; },
            WReg::R6 => { self.r6 = v; },
            WReg::R7 => { self.r7 = v; },
            WReg::R8 => { self.r8 = v; },
            WReg::R9 => { self.r9 = v; },
            WReg::R10 => { self.r10 = v; },
            WReg::Rs => { self.stack = v; },
            WReg::Rl => { self.link = v; },
            WReg::Rb => { self.base = v; },
            WReg::Rp => { self.program_counter = v; },
            WReg::Rh => { self.handler = v; },
        }
    }

    /// Reads a wide register. Only the handler stack register in user mode
    /// refuses.
    pub fn read_wr(&self, r: WReg) -> (res: OpRes<u16>)
        ensures
            res == self.spec_read_wr(r),
    {
        if r == WReg::Rh && self.flags.user_mode {
            Err(TrapMode::IllegalOperation)
        } else {
            Ok(self.raw_wide(r))
        }
    }

    /// Writes a wide register, or raises the write fault and changes
    /// nothing.
    pub fn write_wr(&mut self, r: WReg, v: u16) -> (res: OpRes)
        ensures
            (*final(self), res) == old(self).spec_write_wr(r, v),
    {
        if r == WReg::R0 {
            Err(TrapMode::Invalid)
        } else if r == WReg::Rh && self.flags.user_mode {
            Err(TrapMode::IllegalOperation)
        } else {
            self.set_raw_wide(r, v);
            Ok(())
        }
    }

    /// Reads a byte register.
    pub fn read_br(&self, r: BReg) -> (v: u8)
        ensures
            v == self.byte(r),
    {
        let w = self.raw_wide(r.wide());
        if r.is_high() {
            (w / 256) as u8
        } else {
            (w % 256) as u8
        }
    }

    /// Writes a byte register. A write to the zero register is discarded.
    pub fn write_br(&mut self, r: BReg, v: u8)
        ensures
            *final(self) == old(self).with_byte(r, v),
    {
        let w = self.raw_wide(r.wide());
        if r.is_high() {
            self.set_raw_wide(r.wide(), w % 256 + 256 * (v as u16));
        } else {
            self.set_raw_wide(r.wide(), (v as u16) + 256 * (w / 256));
        }
    }
}

/// The zero register reads as 0 in both widths, a byte write to it is
/// discarded, and a wide write to it is rejected as `Invalid`.
pub proof fn lemma_zero_register(cpu: Cpu, b: u8, w: u16)
    ensures
        cpu.byte(BReg::R0b) == 0,
        cpu.wide(WReg::R0) == 0,
        cpu.read_fault(WReg::R0) is None,
        cpu.with_byte(BReg::R0b, b) == cpu,
        cpu.write_fault(WReg::R0) == Some(TrapMode::Invalid),
{
}

/// A register reads back what was written to it, and a write leaves the
/// flags and the configuration alone.
pub proof fn lemma_write_then_read(cpu: Cpu, r: WReg, b: BReg, w: u16, v: u8)
    ensures
        r != WReg::R0 ==> cpu.with_wide(r, w).wide(r) == w,
        b != BReg::R0b ==> cpu.with_byte(b, v).byte(b) == v,
        cpu.with_wide(r, w).flags == cpu.flags,
        cpu.with_byte(b, v).flags == cpu.flags,
        cpu.with_wide(r, w).vectors == cpu.vectors,
        cpu.with_byte(b, v).vectors == cpu.vectors,
{
}

} // verus!
