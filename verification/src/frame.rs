//! The register frame that trap entry saves and `RETH` restores.
//!
//! A frame has 29 bytes, in ascending address order: the ten general
//! registers, the stack pointer, the link register, the base register and
//! the program counter, each low byte first, then the flag word.

use crate::context::{add16, wrap16, HandlerContext, State};
use crate::cpu::{high_byte, low_byte, wide_of, Cpu, Flags, OpRes, TrapMode};
use vstd::prelude::*;

verus! {

/// The number of bytes in a register frame.
pub const FRAME_SIZE: u16 = 29;

/// The frame that saves a processor state.
pub open spec fn frame_bytes(cpu: Cpu) -> Seq<u8> {
    seq![
        low_byte(cpu.r1),
        high_byte(cpu.r1),
        low_byte(cpu.r2),
        high_byte(cpu.r2),
        low_byte(cpu.r3),
        high_byte(cpu.r3),
        low_byte(cpu.r4),
        high_byte(cpu.r4),
        low_byte(cpu.r5),
        high_byte(cpu.r5),
        low_byte(cpu.r6),
        high_byte(cpu.r6),
        low_byte(cpu.r7),
        high_byte(cpu.r7),
        low_byte(cpu.r8),
        high_byte(cpu.r8),
        low_byte(cpu.r9),
        high_byte(cpu.r9),
        low_byte(cpu.r10),
        high_byte(cpu.r10),
        low_byte(cpu.stack),
        high_byte(cpu.stack),
        low_byte(cpu.link),
        high_byte(cpu.link),
        low_byte(cpu.base),
        high_byte(cpu.base),
        low_byte(cpu.program_counter),
        high_byte(cpu.program_counter),
        cpu.flags.word() as u8,
    ]
}

/// The processor state with the saved registers and flags put back. The
/// handler stack register and the configuration are not part of a frame.
pub open spec fn restored(cpu: Cpu, frame: Seq<u8>) -> Cpu {
    Cpu {
        r1: wide_of(frame[0], frame[1]),
        r2: wide_of(frame[2], frame[3]),
        r3: wide_of(frame[4], frame[5]),
        r4: wide_of(frame[6], frame[7]),
        r5: wide_of(frame[8], frame[9]),
        r6: wide_of(frame[10], frame[11]),
        r7: wide_of(frame[12], frame[13]),
        r8: wide_of(frame[14], frame[15]),
        r9: wide_of(frame[16], frame[17]),
        r10: wide_of(frame[18], frame[19]),
        stack: wide_of(frame[20], frame[21]),
        link: wide_of(frame[22], frame[23]),
        base: wide_of(frame[24], frame[25]),
        program_counter: wide_of(frame[26], frame[27]),
        flags: Flags::from_word(frame[28] as nat),
        ..cpu
    }
}

impl State {
    /// The state after writing the first `k` of `bytes` to consecutive
    /// effective addresses from `addr` on, wrapping. The run stops at the
    /// first write that faults.
    pub open spec fn write_prefix(self, addr: u16, bytes: Seq<u8>, k: nat) -> (State, OpRes)
        decreases k,
    {
        if k == 0 {
            (self, Ok(()))
        } else {
            let (s1, r) = self.write_prefix(addr, bytes, (k - 1) as nat);
            match r {
                Err(t) => (s1, Err(t)),
                Ok(_) => s1.write(wrap16(addr + k - 1), bytes[k - 1]),
            }
        }
    }

    /// The `k` bytes at consecutive effective addresses from `addr` on,
    /// wrapping, or the first fault.
    pub open spec fn read_prefix(self, addr: u16, k: nat) -> OpRes<Seq<u8>>
        decreases k,
    {
        if k == 0 {
            Ok(Seq::empty())
        } else {
            match self.read_prefix(addr, (k - 1) as nat) {
                Err(t) => Err(t),
                Ok(front) => match self.read(wrap16(addr + k - 1)) {
                    Err(t) => Err(t),
                    Ok(b) => Ok(front.push(b)),
                },
            }
        }
    }

    /// Saving the registers of `saved` below the handler stack register:
    /// the frame is written at `rh - 29`, wrapping, and the stack pointer is
    /// left at the frame. A fault while writing leaves the stack pointer.
    pub open spec fn push_registers(self, saved: Cpu) -> (State, OpRes) {
        let at = wrap16(self.cpu.handler - FRAME_SIZE);
        let (s1, r) = self.write_prefix(at, frame_bytes(saved), FRAME_SIZE as nat);
        match r {
            Err(t) => (s1, Err(t)),
            Ok(_) => (s1.with_cpu(Cpu { stack: at, ..s1.cpu }), Ok(())),
        }
    }

    /// Restoring the registers from the frame at the stack pointer. A fault
    /// while reading changes nothing.
    pub open spec fn pop_registers(self) -> (State, OpRes) {
        match self.read_prefix(self.cpu.stack, FRAME_SIZE as nat) {
            Err(t) => (self, Err(t)),
            Ok(frame) => (self.with_cpu(restored(self.cpu, frame)), Ok(())),
        }
    }
}

/// The frame of a processor state, as bytes.
fn frame_of(cpu: &Cpu) -> (v: Vec<u8>)
    ensures
        v@ == frame_bytes(*cpu),
{
    let mut v: Vec<u8> = Vec::new();
    v.push((cpu.r1 % 256) as u8);
    v.push((cpu.r1 / 256) as u8);
    v.push((cpu.r2 % 256) as u8);
    v.push((cpu.r2 / 256) as u8);
    v.push((cpu.r3 % 256) as u8);
    v.push((cpu.r3 / 256) as u8);
    v.push((cpu.r4 % 256) as u8);
    v.push((cpu.r4 / 256) as u8);
    v.push((cpu.r5 % 256) as u8);
    v.push((cpu.r5 / 256) as u8);
    v.push((cpu.r6 % 256) as u8);
    v.push((cpu.r6 / 256) as u8);
    v.push((cpu.r7 % 256) as u8);
    v.push((cpu.r7 / 256) as u8);
    v.push((cpu.r8 % 256) as u8);
    v.push((cpu.r8 / 256) as u8);
    v.push((cpu.r9 % 256) as u8);
    v.push((cpu.r9 / 256) as u8);
    v.push((cpu.r10 % 256) as u8);
    v.push((cpu.r10 / 256) as u8);
    v.push((cpu.stack % 256) as u8);
    v.push((cpu.stack / 256) as u8);
    v.push((cpu.link % 256) as u8);
    v.push((cpu.link / 256) as u8);
    v.push((cpu.base % 256) as u8);
    v.push((cpu.base / 256) as u8);
    v.push((cpu.program_counter % 256) as u8);
    v.push((cpu.program_counter / 256) as u8);
    v.push(cpu.flags.to_byte());
    assert(v@ =~= frame_bytes(*cpu));
    v
}

fn wide_at(frame: &Vec<u8>, i: usize) -> (w: u16)
    requires
        frame@.len() == FRAME_SIZE,
        i + 1 < FRAME_SIZE,
    ensures
        w == wide_of(frame@[i as int], frame@[i + 1]),
{
    frame[i] as u16 + 256 * (frame[i + 1] as u16)
}

impl HandlerContext {
    /// Saves the registers of `saved` below the handler stack register and
    /// leaves the stack pointer at the frame.
    pub fn push_registers(&mut self, saved: &Cpu) -> (res: OpRes)
        ensures
            (final(self)@, res) == old(self)@.push_registers(*saved),
    {
        let frame = frame_of(saved);
        let at = crate::context::sub16(self.cpu.handler, FRAME_SIZE);
        let mut i: u16 = 0;
        while i < FRAME_SIZE
            invariant
                i <= FRAME_SIZE,
                FRAME_SIZE == 29,
                frame@ == frame_bytes(*saved),
                at == wrap16(old(self).cpu.handler - FRAME_SIZE),
                (self@, Ok::<(), TrapMode>(())) == old(self)@.write_prefix(at, frame@, i as nat),
            decreases FRAME_SIZE - i,
        {
            let r = self.write(add16(at, i), frame[i as usize]);
            match r {
                Err(t) => {
                    proof {
                        lemma_write_prefix_stops(old(self)@, at, frame@, i as nat + 1, 29);
                    }
                    return Err(t);
                },
                Ok(_) => {},
            }
            i = i + 1;
        }
        self.cpu.stack = at;
        Ok(())
    }

    /// Restores the registers from the frame at the stack pointer.
    pub fn pop_registers(&mut self) -> (res: OpRes)
        ensures
            (final(self)@, res) == old(self)@.pop_registers(),
    {
        let at = self.cpu.stack;
        let mut frame: Vec<u8> = Vec::new();
        let mut i: u16 = 0;
        while i < FRAME_SIZE
            invariant
                i <= FRAME_SIZE,
                FRAME_SIZE == 29,
                self@ == old(self)@,
                at == self.cpu.stack,
                Ok::<Seq<u8>, TrapMode>(frame@) == self@.read_prefix(at, i as nat),
                frame@.len() == i,
            decreases FRAME_SIZE - i,
        {
            let r = self.read(add16(at, i));
            match r {
                Err(t) => {
                    proof {
                        lemma_read_prefix_stops(self@, at, i as nat + 1, 29);
                    }
                    return Err(t);
                },
                Ok(b) => {
                    frame.push(b);
                },
            }
            i = i + 1;
        }
        self.cpu.r1 = wide_at(&frame, 0);
        self.cpu.r2 = wide_at(&frame, 2);
        self.cpu.r3 = wide_at(&frame, 4);
        self.cpu.r4 = wide_at(&frame, 6);
        self.cpu.r5 = wide_at(&frame, 8);
        self.cpu.r6 = wide_at(&frame, 10);
        self.cpu.r7 = wide_at(&frame, 12);
        self.cpu.r8 = wide_at(&frame, 14);
        self.cpu.r9 = wide_at(&frame, 16);
        self.cpu.r10 = wide_at(&frame, 18);
        self.cpu.stack = wide_at(&frame, 20);
        self.cpu.link = wide_at(&frame, 22);
        self.cpu.base = wide_at(&frame, 24);
        self.cpu.program_counter = wide_at(&frame, 26);
        self.cpu.flags = Flags::from_byte(frame[28]);
        Ok(())
    }
}

/// A run of writes that has faulted stays faulted, in the same state, however
/// many more bytes were to follow.
pub proof fn lemma_write_prefix_stops(s: State, addr: u16, bytes: Seq<u8>, k: nat, n: nat)
    requires
        k <= n,
        s.write_prefix(addr, bytes, k).1 is Err,
    ensures
        s.write_prefix(addr, bytes, n) == s.write_prefix(addr, bytes, k),
    decreases n,
{
    if k < n {
        lemma_write_prefix_stops(s, addr, bytes, k, (n - 1) as nat);
    }
}

/// A run of reads that has faulted stays faulted however many more bytes
/// were to follow.
pub proof fn lemma_read_prefix_stops(s: State, addr: u16, k: nat, n: nat)
    requires
        k <= n,
        s.read_prefix(addr, k) is Err,
    ensures
        s.read_prefix(addr, n) == s.read_prefix(addr, k),
    decreases n,
{
    if k < n {
        lemma_read_prefix_stops(s, addr, k, (n - 1) as nat);
    }
}

} // verus!
