//! From an assembled source to a machine that is ready to run.

use crate::context::HandlerContext;
use crate::cpu::Cpu;
use crate::image::SegmentType;
use crate::memory::{overlay, Memory};
use crate::source::process::{emit, lines_bytes, Label, Processed, ProcessedSource, Segment};
use vstd::prelude::*;

verus! {

/// Memory with the bytes of a segment laid over it at the start of the
/// segment. There is none where the segment reaches beyond memory. A
/// segment that is not there changes nothing.
pub open spec fn with_segment(mem: Seq<u8>, seg: Option<Segment>, labels: Seq<Label>) -> Option<
    Seq<u8>,
> {
    match seg {
        None => Some(mem),
        Some(s) => {
            let bytes = lines_bytes(s.lines, labels, s.lines.len());
            if s.start + bytes.len() <= mem.len() {
                Some(overlay(mem, s.start as int, bytes))
            } else {
                None
            }
        },
    }
}

/// Memory of `size` zero bytes with the segments of an image laid over it:
/// text, read-only data, data and heap, in this order.
pub open spec fn image_memory(p: Processed, size: nat) -> Option<Seq<u8>> {
    let blank = Seq::new(size, |i: int| 0u8);
    match with_segment(blank, p.layout.text, p.labels) {
        None => None,
        Some(m1) => match with_segment(m1, p.layout.rodata, p.labels) {
            None => None,
            Some(m2) => match with_segment(m2, p.layout.data, p.labels) {
                None => None,
                Some(m3) => with_segment(m3, p.layout.heap, p.labels),
            },
        },
    }
}

/// The processor at the start of an image: at reset, but for the program
/// counter, which is at the entry point, or at the start of the text
/// segment where the image names none, and for the text bounds, which are
/// those of the text segment. Without text no address is open to fetches.
pub open spec fn image_cpu(p: Processed) -> Cpu {
    let pc = match p.entry {
        Some(e) => e,
        None => p.layout.start(SegmentType::Text),
    };
    match p.layout.text {
        Some(text) => if text.size > 0 {
            Cpu {
                program_counter: pc,
                text_start: text.start,
                text_last: (text.start + text.size - 1) as u16,
                ..Cpu::spec_new()
            }
        } else {
            Cpu { program_counter: pc, text_start: 1, text_last: 0, ..Cpu::spec_new() }
        },
        None => Cpu { program_counter: pc, text_start: 1, text_last: 0, ..Cpu::spec_new() },
    }
}

fn lay(memory: &mut Memory, source: &ProcessedSource, st: SegmentType) -> (fits: bool)
    requires
        st != SegmentType::Unknown,
    ensures
        match with_segment(old(memory)@, source@.layout.get(st), source@.labels) {
            Some(m) => fits && final(memory)@ == m,
            None => !fits,
        },
{
    match source.dls.get(st) {
        None => true,
        Some(seg) => {
            let bytes = emit(source, st);
            memory.load_at(seg.start as u32, &bytes)
        },
    }
}

/// Loads an image into memory of `size` bytes and puts the processor at
/// its start. There is no machine where a segment reaches beyond memory,
/// or the text segment ends beyond the sixteen-bit address space.
pub fn boot(source: &ProcessedSource, size: usize) -> (machine: Option<HandlerContext>)
    ensures
        match image_memory(source@, size as nat) {
            Some(m) => if source@.layout.start(SegmentType::Text) + source@.layout.size(
                SegmentType::Text,
            ) > 0x1_0000 {
                machine is None
            } else {
                machine matches Some(c) && c@.mem == m && c@.cpu == image_cpu(source@)
            },
            None => machine is None,
        },
{
    let mut memory = Memory::new(size);
    assert(memory@ =~= Seq::new(size as nat, |i: int| 0u8));
    if !lay(&mut memory, source, SegmentType::Text) {
        return None;
    }
    if !lay(&mut memory, source, SegmentType::RoData) {
        return None;
    }
    if !lay(&mut memory, source, SegmentType::Data) {
        return None;
    }
    if !lay(&mut memory, source, SegmentType::Heap) {
        return None;
    }
    let mut cpu = Cpu::new();
    cpu.text_start = 1;
    cpu.text_last = 0;
    let mut start: u16 = 0;
    match source.dls.get(SegmentType::Text) {
        Some(text) => {
            if text.start as u32 + text.size as u32 > 0x1_0000 {
                return None;
            }
            start = text.start;
            if text.size > 0 {
                cpu.text_start = text.start;
                cpu.text_last = (text.start as u32 + text.size as u32 - 1) as u16;
            }
        },
        None => {},
    }
    cpu.program_counter = match source.entry {
        Some(e) => e,
        None => start,
    };
    Some(HandlerContext::new(cpu, memory))
}

} // verus!
