//! Physical memory: a run of bytes addressed from 0.

use crate::cpu::{OpRes, TrapMode};
use vstd::prelude::*;

verus! {

/// The size of the physical address space: addresses have 24 bits.
pub const PHYSICAL_SPACE: u32 = 0x100_0000;

/// Physical memory. An address at or beyond its length is out of range.
#[derive(Debug)]
pub struct Memory {
    bytes: Vec<u8>,
}

impl View for Memory {
    type V = Seq<u8>;

    closed spec fn view(&self) -> Seq<u8> {
        self.bytes@
    }
}

/// What a read at a physical address gives.
pub open spec fn load(mem: Seq<u8>, addr: int) -> OpRes<u8> {
    if 0 <= addr < mem.len() {
        Ok(mem[addr])
    } else {
        Err(TrapMode::MemoryFault)
    }
}

/// The memory after a write at a physical address, and whether the write
/// took place. An out-of-range write changes nothing.
pub open spec fn store(mem: Seq<u8>, addr: int, v: u8) -> (Seq<u8>, OpRes) {
    if 0 <= addr < mem.len() {
        (mem.update(addr, v), Ok(()))
    } else {
        (mem, Err(TrapMode::MemoryFault))
    }
}

/// Memory with a run of bytes laid over it from `base` on.
pub open spec fn overlay(mem: Seq<u8>, base: int, data: Seq<u8>) -> Seq<u8> {
    Seq::new(
        mem.len(),
        |i: int|
            if base <= i < base + data.len() {
                data[i - base]
            } else {
                mem[i]
            },
    )
}

impl Memory {
    /// Memory of the given size, every byte 0.
    pub fn new(size: usize) -> (m: Memory)
        ensures
            m@.len() == size,
            forall|i: int| 0 <= i < size ==> m@[i] == 0,
    {
        let mut bytes: Vec<u8> = Vec::new();
        let mut i: usize = 0;
        while i < size
            invariant
                i <= size,
                bytes@.len() == i,
                forall|j: int| 0 <= j < i ==> bytes@[j] == 0,
            decreases size - i,
        {
            bytes.push(0);
            i = i + 1;
        }
        Memory { bytes }
    }

    /// Memory holding exactly the given bytes.
    pub fn from_bytes(bytes: Vec<u8>) -> (m: Memory)
        ensures
            m@ == bytes@,
    {
        Memory { bytes }
    }

    /// The number of bytes.
    pub fn len(&self) -> (n: usize)
        ensures
            n == self@.len(),
    {
        self.bytes.len()
    }

    /// Reads the byte at a physical address.
    pub fn read(&self, addr: u32) -> (res: OpRes<u8>)
        ensures
            res == load(self@, addr as int),
    {
        if (addr as usize) < self.bytes.len() {
            Ok(self.bytes[addr as usize])
        } else {
            Err(TrapMode::MemoryFault)
        }
    }

    /// Writes the byte at a physical address.
    pub fn write(&mut self, addr: u32, v: u8) -> (res: OpRes)
        ensures
            (final(self)@, res) == store(old(self)@, addr as int, v),
    {
        if (addr as usize) < self.bytes.len() {
            self.bytes.set(addr as usize, v);
            Ok(())
        } else {
            Err(TrapMode::MemoryFault)
        }
    }

    /// Copies `data` into memory from `base` on, if it fits; else nothing
    /// is copied.
    pub fn load_at(&mut self, base: u32, data: &Vec<u8>) -> (fits: bool)
        ensures
            fits == (base + data@.len() <= old(self)@.len()),
            fits ==> final(self)@ == overlay(old(self)@, base as int, data@),
            !fits ==> final(self)@ == old(self)@,
    {
        let n = data.len();
        let len = self.bytes.len();
        if (base as usize) > len || n > len - (base as usize) {
            return false;
        }
        let mut i: usize = 0;
        while i < n
            invariant
                i <= n,
                n == data@.len(),
                base + n <= len,
                self.bytes@.len() == len,
                len == old(self)@.len(),
                forall|j: int|
                    0 <= j < self.bytes@.len() ==> self.bytes@[j] == if base <= j < base + i {
                        data@[j - base]
                    } else {
                        old(self)@[j]
                    },
            decreases n - i,
        {
            self.bytes.set(base as usize + i, data[i]);
            i = i + 1;
        }
        assert(self.bytes@ =~= overlay(old(self)@, base as int, data@));
        true
    }
}

} // verus!
