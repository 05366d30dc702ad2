//! The context an instruction runs in: the processor together with memory,
//! and the ports through which instructions reach memory.
//!
//! Every operation is stated over [`State`], the mathematical picture of
//! the context: the processor as it is and memory as a sequence of bytes.

use crate::cpu::{Cpu, OpRes, TrapMode};
use crate::memory::{load, store, Memory, PHYSICAL_SPACE};
use vstd::prelude::*;

verus! {

/// A sixteen-bit value from any integer, wrapping.
pub open spec fn wrap16(x: int) -> u16 {
    (x % 0x1_0000) as u16
}

/// The processor and memory, as plain values.
pub struct State {
    pub cpu: Cpu,
    pub mem: Seq<u8>,
}

/// A page-table entry, from its two bytes in memory order.
///
/// Bit 0 says the page is present and bit 1 that it may be written; the
/// upper twelve bits are the number of the physical frame.
pub open spec fn entry_word(low: u8, high: u8) -> nat {
    (low + 256 * high) as nat
}

/// Whether a page-table entry says its page is present.
pub open spec fn entry_present(entry: nat) -> bool {
    entry % 2 == 1
}

/// Whether a page-table entry says its page may be written.
pub open spec fn entry_writable(entry: nat) -> bool {
    (entry / 2) % 2 == 1
}

/// The number of the physical frame that a page-table entry names.
pub open spec fn entry_frame(entry: nat) -> nat {
    entry / 16
}

impl State {
    /// The same memory under another processor state.
    pub open spec fn with_cpu(self, cpu: Cpu) -> State {
        State { cpu, mem: self.mem }
    }

    /// The upper address bits that apply without translation.
    pub open spec fn frame(self) -> u8 {
        if self.cpu.flags.user_mode {
            self.cpu.user_frame
        } else {
            self.cpu.supervisor_frame
        }
    }

    /// The physical address behind an effective address.
    ///
    /// Without translation the effective address is the low sixteen bits
    /// inside the current frame, and an address beyond memory is a
    /// `MemoryFault`. With translation a page has 4096 bytes: the upper four
    /// bits of the address pick one of sixteen two-byte entries of the page
    /// table, the lower twelve are the offset inside the frame the entry
    /// names. An entry that lies beyond memory or the physical address
    /// space, is not present, is not writable on a write, or leads beyond
    /// memory is a `PageFault` that carries the effective address.
    pub open spec fn translate(self, addr: u16, write: bool) -> OpRes<u32> {
        if !self.cpu.flags.virtual_mode {
            let p = self.frame() * 0x1_0000 + addr;
            if p < self.mem.len() {
                Ok(p as u32)
            } else {
                Err(TrapMode::MemoryFault)
            }
        } else {
            let page = addr / 4096;
            let offset = addr % 4096;
            let at = self.cpu.page_table + 2 * page;
            if at + 1 >= self.mem.len() || at + 1 >= PHYSICAL_SPACE {
                Err(TrapMode::PageFault(addr))
            } else {
                let entry = entry_word(self.mem[at], self.mem[at + 1]);
                let p = entry_frame(entry) * 4096 + offset;
                if !entry_present(entry) || (write && !entry_writable(entry)) || p
                    >= self.mem.len() {
                    Err(TrapMode::PageFault(addr))
                } else {
                    Ok(p as u32)
                }
            }
        }
    }

    /// What a read through the effective-address port gives.
    pub open spec fn read(self, addr: u16) -> OpRes<u8> {
        match self.translate(addr, false) {
            Ok(p) => Ok(self.mem[p as int]),
            Err(t) => Err(t),
        }
    }

    /// The state after a write through the effective-address port. A write
    /// that faults changes nothing.
    pub open spec fn write(self, addr: u16, v: u8) -> (State, OpRes) {
        match self.translate(addr, true) {
            Ok(p) => (State { mem: self.mem.update(p as int, v), ..self }, Ok(())),
            Err(t) => (self, Err(t)),
        }
    }

    /// A wide read: the byte at `addr` is the low byte, the byte at the next
    /// address, wrapping, the high byte.
    pub open spec fn read_wide(self, addr: u16) -> OpRes<u16> {
        match self.read(addr) {
            Err(t) => Err(t),
            Ok(low) => match self.read(wrap16(addr + 1)) {
                Err(t) => Err(t),
                Ok(high) => Ok((low + 256 * high) as u16),
            },
        }
    }

    /// A wide write: the low byte goes to `addr`, then the high byte to the
    /// next address, wrapping. Where the second write faults the first has
    /// taken place.
    pub open spec fn write_wide(self, addr: u16, w: u16) -> (State, OpRes) {
        let (s1, r1) = self.write(addr, (w % 256) as u8);
        match r1 {
            Err(t) => (s1, Err(t)),
            Ok(_) => s1.write(wrap16(addr + 1), (w / 256) as u8),
        }
    }

    /// What a read through the physical port gives. The port is closed in
    /// user mode.
    pub open spec fn physical_read(self, addr: u32) -> OpRes<u8> {
        if self.cpu.flags.user_mode {
            Err(TrapMode::IllegalOperation)
        } else {
            load(self.mem, addr as int)
        }
    }

    /// The state after a write through the physical port. The port is
    /// closed in user mode.
    pub open spec fn physical_write(self, addr: u32, v: u8) -> (State, OpRes) {
        if self.cpu.flags.user_mode {
            (self, Err(TrapMode::IllegalOperation))
        } else {
            let (mem, r) = store(self.mem, addr as int, v);
            (State { mem, ..self }, r)
        }
    }

    /// Fetching the next byte of the instruction stream: a program counter
    /// outside the text bounds is `Invalid`; otherwise the byte is read
    /// through the effective-address port, and on success the program
    /// counter moves on by one, wrapping.
    pub open spec fn fetch(self) -> (State, OpRes<u8>) {
        let pc = self.cpu.program_counter;
        if pc < self.cpu.text_start || pc > self.cpu.text_last {
            (self, Err(TrapMode::Invalid))
        } else {
            match self.read(pc) {
                Err(t) => (self, Err(t)),
                Ok(b) => (self.with_cpu(self.cpu.with_pc(wrap16(pc + 1))), Ok(b)),
            }
        }
    }

    /// Pushing a byte: the stack pointer goes down by one, wrapping, and the
    /// byte is written there. A faulting push leaves the stack pointer.
    pub open spec fn pushb(self, v: u8) -> (State, OpRes) {
        let sp = wrap16(self.cpu.stack - 1);
        let (s1, r) = self.write(sp, v);
        match r {
            Err(t) => (s1, Err(t)),
            Ok(_) => (s1.with_cpu(Cpu { stack: sp, ..s1.cpu }), Ok(())),
        }
    }

    /// Pushing a wide value: the stack pointer goes down by two, wrapping,
    /// and the value is written there. A faulting push leaves the stack
    /// pointer.
    pub open spec fn pushw(self, w: u16) -> (State, OpRes) {
        let sp = wrap16(self.cpu.stack - 2);
        let (s1, r) = self.write_wide(sp, w);
        match r {
            Err(t) => (s1, Err(t)),
            Ok(_) => (s1.with_cpu(Cpu { stack: sp, ..s1.cpu }), Ok(())),
        }
    }

    /// Popping a byte: it is read at the stack pointer, which then goes up
    /// by one, wrapping.
    pub open spec fn popb(self) -> (State, OpRes<u8>) {
        match self.read(self.cpu.stack) {
            Err(t) => (self, Err(t)),
            Ok(v) => (self.with_cpu(Cpu { stack: wrap16(self.cpu.stack + 1), ..self.cpu }), Ok(v)),
        }
    }

    /// Popping a wide value: it is read at the stack pointer, which then
    /// goes up by two, wrapping.
    pub open spec fn popw(self) -> (State, OpRes<u16>) {
        match self.read_wide(self.cpu.stack) {
            Err(t) => (self, Err(t)),
            Ok(w) => (self.with_cpu(Cpu { stack: wrap16(self.cpu.stack + 2), ..self.cpu }), Ok(w)),
        }
    }
}

/// The processor and memory, handed to every instruction as one value.
#[derive(Debug)]
pub struct HandlerContext {
    pub cpu: Cpu,
    pub memory: Memory,
}

impl View for HandlerContext {
    type V = State;

    open spec fn view(&self) -> State {
        State { cpu: self.cpu, mem: self.memory@ }
    }
}

/// `a + b` in sixteen bits, wrapping.
pub fn add16(a: u16, b: u16) -> (r: u16)
    ensures
        r == wrap16(a + b),
{
    ((a as u32 + b as u32) % 0x1_0000) as u16
}

/// `a - b` in sixteen bits, wrapping.
pub fn sub16(a: u16, b: u16) -> (r: u16)
    ensures
        r == wrap16(a - b),
{
    ((a as u32 + 0x1_0000 - b as u32) % 0x1_0000) as u16
}

impl HandlerContext {
    /// A context from a processor and memory.
    pub fn new(cpu: Cpu, memory: Memory) -> (c: HandlerContext)
        ensures
            c.cpu == cpu,
            c.memory@ == memory@,
    {
        HandlerContext { cpu, memory }
    }

    /// The physical address behind an effective address.
    pub fn translate(&self, addr: u16, write: bool) -> (res: OpRes<u32>)
        ensures
            res == self@.translate(addr, write),
            res matches Ok(p) ==> p < self@.mem.len(),
    {
        if !self.cpu.flags.virtual_mode {
            let frame = if self.cpu.flags.user_mode {
                self.cpu.user_frame
            } else {
                self.cpu.supervisor_frame
            };
            let p: u32 = (frame as u32) * 0x1_0000 + (addr as u32);
            if (p as usize) < self.memory.len() {
                Ok(p)
            } else {
                Err(TrapMode::MemoryFault)
            }
        } else {
            let page: u16 = addr / 4096;
            let offset: u16 = addr % 4096;
            let at: u64 = self.cpu.page_table as u64 + 2 * (page as u64);
            if at + 1 >= self.memory.len() as u64 || at + 1 >= PHYSICAL_SPACE as u64 {
                return Err(TrapMode::PageFault(addr));
            }
            let low = self.memory.read(at as u32);
            let high = self.memory.read((at + 1) as u32);
            match (low, high) {
                (Ok(low), Ok(high)) => {
                    let entry: u16 = low as u16 + 256 * (high as u16);
                    let p: u32 = ((entry / 16) as u32) * 4096 + (offset as u32);
                    if entry % 2 != 1 || (write && (entry / 2) % 2 != 1) || (p as usize)
                        >= self.memory.len() {
                        Err(TrapMode::PageFault(addr))
                    } else {
                        Ok(p)
                    }
                },
                _ => Err(TrapMode::PageFault(addr)),
            }
        }
    }

    /// Reads a byte through the effective-address port.
    pub fn read(&self, addr: u16) -> (res: OpRes<u8>)
        ensures
            res == self@.read(addr),
    {
        let p = self.translate(addr, false)?;
        self.memory.read(p)
    }

    /// Writes a byte through the effective-address port.
    pub fn write(&mut self, addr: u16, v: u8) -> (res: OpRes)
        ensures
            (final(self)@, res) == old(self)@.write(addr, v),
    {
        let p = self.translate(addr, true)?;
        self.memory.write(p, v)
    }

    /// Reads a wide value, low byte first.
    pub fn read_wide(&self, addr: u16) -> (res: OpRes<u16>)
        ensures
            res == self@.read_wide(addr),
    {
        let low = self.read(addr)?;
        let high = self.read(add16(addr, 1))?;
        Ok(low as u16 + 256 * (high as u16))
    }

    /// Writes a wide value, low byte first.
    pub fn write_wide(&mut self, addr: u16, w: u16) -> (res: OpRes)
        ensures
            (final(self)@, res) == old(self)@.write_wide(addr, w),
    {
        self.write(addr, (w % 256) as u8)?;
        self.write(add16(addr, 1), (w / 256) as u8)
    }

    /// Reads a byte through the physical port.
    pub fn physical_read(&self, addr: u32) -> (res: OpRes<u8>)
        ensures
            res == self@.physical_read(addr),
    {
        if self.cpu.flags.user_mode {
            return Err(TrapMode::IllegalOperation);
        }
        self.memory.read(addr)
    }

    /// Writes a byte through the physical port.
    pub fn physical_write(&mut self, addr: u32, v: u8) -> (res: OpRes)
        ensures
            (final(self)@, res) == old(self)@.physical_write(addr, v),
    {
        if self.cpu.flags.user_mode {
            return Err(TrapMode::IllegalOperation);
        }
        self.memory.write(addr, v)
    }

    /// Fetches the next byte of the instruction stream.
    pub fn fetch(&mut self) -> (res: OpRes<u8>)
        ensures
            (final(self)@, res) == old(self)@.fetch(),
    {
        let pc = self.cpu.program_counter;
        if pc < self.cpu.text_start || pc > self.cpu.text_last {
            return Err(TrapMode::Invalid);
        }
        let b = self.read(pc)?;
        self.cpu.program_counter = add16(pc, 1);
        Ok(b)
    }

    /// Pushes a byte.
    pub fn pushb(&mut self, v: u8) -> (res: OpRes)
        ensures
            (final(self)@, res) == old(self)@.pushb(v),
    {
        let sp = sub16(self.cpu.stack, 1);
        self.write(sp, v)?;
        self.cpu.stack = sp;
        Ok(())
    }

    /// Pushes a wide value.
    pub fn pushw(&mut self, w: u16) -> (res: OpRes)
        ensures
            (final(self)@, res) == old(self)@.pushw(w),
    {
        let sp = sub16(self.cpu.stack, 2);
        self.write_wide(sp, w)?;
        self.cpu.stack = sp;
        Ok(())
    }

    /// Pops a byte.
    pub fn popb(&mut self) -> (res: OpRes<u8>)
        ensures
            (final(self)@, res) == old(self)@.popb(),
    {
        let v = self.read(self.cpu.stack)?;
        self.cpu.stack = add16(self.cpu.stack, 1);
        Ok(v)
    }

    /// Pops a wide value.
    pub fn popw(&mut self) -> (res: OpRes<u16>)
        ensures
            (final(self)@, res) == old(self)@.popw(),
    {
        let w = self.read_wide(self.cpu.stack)?;
        self.cpu.stack = add16(self.cpu.stack, 2);
        Ok(w)
    }
}

} // verus!
