//! The execution engine: one instruction at a time, and what becomes of a
//! trap.
//!
//! `Halt` and `SysCall` go to the host. Any other trap is a fault: the
//! processor state goes back to what it was before the faulting
//! instruction, and the fault enters the guest's handler, unless a handler
//! is already running or none is installed; then it is fatal.

use crate::context::{wrap16, HandlerContext, State};
use crate::cpu::{lemma_flag_word_round_trip, Cpu, Flags, OpRes, TrapMode};
use crate::frame::{frame_bytes, restored, FRAME_SIZE};
use crate::isa::handlers::spec_reth;
use crate::isa::{dispatch, spec_dispatch, RETH};
use vstd::prelude::*;

verus! {

/// How one step of the engine ended.
#[derive(Clone, Copy, Debug, PartialEq, Eq, Structural)]
pub enum Step {
    /// The instruction retired.
    Retired,
    /// `Halt` or `SysCall`: the host takes over. The program counter is
    /// behind the instruction.
    Host(TrapMode),
    /// A fault entered the guest's handler.
    Handled(TrapMode),
    /// A fault that could not be delivered: a handler was running already,
    /// none is installed, or the registers could not be saved.
    Fatal(TrapMode),
}

/// The flags a handler starts with: supervisor mode, physical addressing,
/// the trap flag set; the condition flags stay.
pub open spec fn handler_flags(f: Flags) -> Flags {
    Flags { trap: true, user_mode: false, virtual_mode: false, ..f }
}

/// Entering a handler from the state `s`: the registers of `s` are saved
/// below the handler stack register, in supervisor mode with physical
/// addressing, and the program counter takes the vector.
pub open spec fn spec_enter(s: State, vector: u16) -> (State, OpRes) {
    let (s1, r) = s.with_cpu(s.cpu.with_flags(handler_flags(s.cpu.flags))).push_registers(s.cpu);
    match r {
        Err(t) => (s1, Err(t)),
        Ok(_) => (s1.with_cpu(s1.cpu.with_pc(vector)), Ok(())),
    }
}

/// What becomes of the trap `t`, raised by an instruction that began in
/// the state `before` and left the state `after`.
pub open spec fn spec_deliver(before: Cpu, after: State, t: TrapMode) -> (State, Step) {
    if t == TrapMode::Halt || t == TrapMode::SysCall {
        (after, Step::Host(t))
    } else {
        let rolled = after.with_cpu(before);
        if before.flags.trap {
            (rolled, Step::Fatal(t))
        } else {
            match before.vectors.spec_vector(t) {
                None => (rolled, Step::Fatal(t)),
                Some(vector) => {
                    let (s1, r) = spec_enter(rolled, vector);
                    match r {
                        Err(_) => (s1.with_cpu(before), Step::Fatal(t)),
                        Ok(_) => (s1, Step::Handled(t)),
                    }
                },
            }
        }
    }
}

/// One step: the opcode is fetched, its handler runs, and a trap is
/// delivered.
#[verifier::opaque]
pub open spec fn spec_step(s: State) -> (State, Step) {
    let (s1, f) = s.fetch();
    let (s2, r) = match f {
        Err(t) => (s1, Err(t)),
        Ok(op) => spec_dispatch(op, s1),
    };
    match r {
        Ok(_) => (s2, Step::Retired),
        Err(t) => spec_deliver(s.cpu, s2, t),
    }
}

/// Whether the engine goes on after a step.
pub open spec fn goes_on(step: Step) -> bool {
    step is Retired || step is Handled
}

/// Up to `limit` steps, stopping behind the first one that does not go on:
/// the state, how the last step ended, and the number of steps taken. With
/// no step taken the outcome is `Retired`.
pub open spec fn spec_run(s: State, limit: nat) -> (State, Step, nat)
    decreases limit,
{
    if limit == 0 {
        (s, Step::Retired, 0)
    } else {
        let (s1, step) = spec_step(s);
        if goes_on(step) && limit > 1 {
            let (s2, last, n) = spec_run(s1, (limit - 1) as nat);
            (s2, last, n + 1)
        } else {
            (s1, step, 1)
        }
    }
}

/// Delivers a trap.
fn deliver(c: &mut HandlerContext, before: &Cpu, t: TrapMode) -> (out: Step)
    ensures
        (final(c)@, out) == spec_deliver(*before, old(c)@, t),
{
    match t {
        TrapMode::Halt | TrapMode::SysCall => {
            return Step::Host(t);
        },
        _ => {},
    }
    c.cpu = *before;
    if before.flags.trap {
        return Step::Fatal(t);
    }
    match before.vectors.vector(t) {
        None => Step::Fatal(t),
        Some(vector) => {
            c.cpu.flags.trap = true;
            c.cpu.flags.user_mode = false;
            c.cpu.flags.virtual_mode = false;
            match c.push_registers(before) {
                Err(_) => {
                    c.cpu = *before;
                    Step::Fatal(t)
                },
                Ok(_) => {
                    c.cpu.program_counter = vector;
                    Step::Handled(t)
                },
            }
        },
    }
}

/// Executes one instruction and delivers the trap it raises, if any.
pub fn step(c: &mut HandlerContext) -> (out: Step)
    ensures
        (final(c)@, out) == spec_step(old(c)@),
{
    proof {
        reveal(spec_step);
    }
    let before = c.cpu;
    let r = match c.fetch() {
        Err(t) => Err(t),
        Ok(op) => dispatch(op, c),
    };
    match r {
        Ok(_) => Step::Retired,
        Err(t) => deliver(c, &before, t),
    }
}

/// The outcome of a run that was preceded by `before` further steps.
pub open spec fn after_steps(r: (State, Step, nat), before: nat) -> (State, Step, nat) {
    (r.0, r.1, r.2 + before)
}

/// Executes up to `limit` instructions, stopping behind the first step
/// that hands over to the host or is fatal.
pub fn run(c: &mut HandlerContext, limit: u64) -> (out: (Step, u64))
    ensures
        (final(c)@, out.0, out.1 as nat) == spec_run(old(c)@, limit as nat),
{
    if limit == 0 {
        return (Step::Retired, 0);
    }
    let ghost start = c@;
    let mut last = Step::Retired;
    let mut taken: u64 = 0;
    loop
        invariant_except_break
            taken < limit,
            spec_run(start, limit as nat) == after_steps(
                spec_run(c@, (limit - taken) as nat),
                taken as nat,
            ),
        ensures
            (c@, last, taken as nat) == spec_run(start, limit as nat),
        decreases limit - taken,
    {
        last = step(c);
        taken = taken + 1;
        let stop = match last {
            Step::Retired => false,
            Step::Handled(_) => false,
            _ => true,
        };
        if stop || taken == limit {
            break ;
        }
    }
    (last, taken)
}

/// The physical address behind an effective address without translation.
pub open spec fn untranslated(s: State, addr: u16) -> int {
    s.frame() * 0x1_0000 + addr
}

/// Whether memory holds byte `j` of a run at the place its address names.
pub open spec fn holds_byte(s: State, at: u16, bytes: Seq<u8>, j: int) -> bool {
    let p = untranslated(s, wrap16(at + j));
    0 <= p < s.mem.len() && s.mem[p] == bytes[j]
}

/// A run of writes without translation, when it succeeds, leaves the
/// processor alone, keeps the size of memory, and puts every byte at the
/// place its address names.
proof fn lemma_written_run(s: State, at: u16, bytes: Seq<u8>, k: nat)
    requires
        !s.cpu.flags.virtual_mode,
        k <= bytes.len(),
        k <= 0x1_0000,
        s.write_prefix(at, bytes, k).1 is Ok,
    ensures
        s.write_prefix(at, bytes, k).0.cpu == s.cpu,
        s.write_prefix(at, bytes, k).0.mem.len() == s.mem.len(),
        forall|j: int|
            0 <= j < k ==> #[trigger] holds_byte(s.write_prefix(at, bytes, k).0, at, bytes, j),
    decreases k,
{
    if k > 0 {
        let (s1, r) = s.write_prefix(at, bytes, (k - 1) as nat);
        lemma_written_run(s, at, bytes, (k - 1) as nat);
        let last = wrap16(at + k - 1);
        let s2 = s1.write(last, bytes[k - 1]).0;
        assert(s2 == s.write_prefix(at, bytes, k).0);
        assert(s1.translate(last, true) == Ok::<u32, TrapMode>(untranslated(s1, last) as u32));
        assert(s2.mem == s1.mem.update(untranslated(s1, last), bytes[k - 1]));
        assert forall|j: int| 0 <= j < k implies #[trigger] holds_byte(s2, at, bytes, j) by {
            if j < k - 1 {
                assert(holds_byte(s1, at, bytes, j));
                assert(wrap16(at + j) != last);
            }
        }
    }
}

/// Reading a run back, without translation, from memory that holds the
/// bytes at the places their addresses name.
proof fn lemma_read_run(s: State, at: u16, bytes: Seq<u8>, k: nat)
    requires
        !s.cpu.flags.virtual_mode,
        k <= bytes.len(),
        forall|j: int| 0 <= j < k ==> #[trigger] holds_byte(s, at, bytes, j),
    ensures
        s.read_prefix(at, k) == Ok::<Seq<u8>, TrapMode>(bytes.subrange(0, k as int)),
    decreases k,
{
    if k > 0 {
        lemma_read_run(s, at, bytes, (k - 1) as nat);
        assert(holds_byte(s, at, bytes, k - 1));
        assert(s.read(wrap16(at + k - 1)) == Ok::<u8, TrapMode>(bytes[k - 1]));
        assert(bytes.subrange(0, k - 1).push(bytes[k - 1]) =~= bytes.subrange(0, k as int));
    } else {
        assert(bytes.subrange(0, 0) =~= Seq::<u8>::empty());
    }
}

/// Restoring a frame gives back the registers and flags it was made from.
pub proof fn lemma_frame_round_trip(now: Cpu, saved: Cpu)
    requires
        now.handler == saved.handler,
        now.supervisor_frame == saved.supervisor_frame,
        now.user_frame == saved.user_frame,
        now.page_table == saved.page_table,
        now.text_start == saved.text_start,
        now.text_last == saved.text_last,
        now.vectors == saved.vectors,
    ensures
        frame_bytes(saved).len() == FRAME_SIZE,
        restored(now, frame_bytes(saved)) == saved,
{
    lemma_flag_word_round_trip(saved.flags);
}

/// Trap symmetry. Where a fault enters a handler from a state outside any
/// handler, and the handler does nothing but return, `RETH` leaves the
/// processor exactly as it was before the faulting instruction began.
pub proof fn lemma_trap_symmetry(s: State, vector: u16)
    requires
        !s.cpu.flags.trap,
        spec_enter(s, vector).1 is Ok,
    ensures
        spec_reth(spec_enter(s, vector).0) == (
            State { cpu: s.cpu, mem: spec_enter(s, vector).0.mem },
            Ok::<(), TrapMode>(()),
        ),
{
    let sup = s.with_cpu(s.cpu.with_flags(handler_flags(s.cpu.flags)));
    let at = wrap16(sup.cpu.handler - FRAME_SIZE);
    let frame = frame_bytes(s.cpu);
    let written = sup.write_prefix(at, frame, FRAME_SIZE as nat).0;
    let entered = spec_enter(s, vector).0;
    lemma_written_run(sup, at, frame, FRAME_SIZE as nat);
    assert(entered == written.with_cpu(Cpu { stack: at, program_counter: vector, ..sup.cpu }));
    assert forall|j: int| 0 <= j < FRAME_SIZE implies #[trigger] holds_byte(
        entered,
        at,
        frame,
        j,
    ) by {
        assert(holds_byte(written, at, frame, j));
    }
    lemma_read_run(entered, at, frame, FRAME_SIZE as nat);
    assert(frame.subrange(0, FRAME_SIZE as int) =~= frame);
    assert(entered.pop_registers() == (
        entered.with_cpu(restored(entered.cpu, frame)),
        Ok::<(), TrapMode>(()),
    ));
    lemma_frame_round_trip(entered.cpu, s.cpu);
}

/// Trap symmetry, step by step. Where a step from outside any handler ends
/// with a fault handled, and the handler's first instruction is `RETH`,
/// the next step retires and leaves the processor exactly as it was before
/// the faulting instruction.
pub proof fn lemma_fault_then_reth(s: State)
    requires
        spec_step(s).1 is Handled,
        spec_step(s).0.fetch().1 == Ok::<u8, TrapMode>(RETH),
    ensures
        spec_step(spec_step(s).0) == (
            State { cpu: s.cpu, mem: spec_step(s).0.mem },
            Step::Retired,
        ),
{
    reveal(spec_step);
    let (s1, f) = s.fetch();
    let (s2, r) = match f {
        Err(t) => (s1, Err(t)),
        Ok(op) => spec_dispatch(op, s1),
    };
    let t = r->Err_0;
    let rolled = s2.with_cpu(s.cpu);
    let vector = s.cpu.vectors.spec_vector(t)->Some_0;
    assert(spec_step(s).0 == spec_enter(rolled, vector).0);
    lemma_trap_symmetry(rolled, vector);
    let entered = spec_step(s).0;
    let fetched = entered.fetch().0;
    crate::isa::lemma_dispatch_reth(fetched);
    assert(fetched.mem == entered.mem);
    assert(fetched.cpu == entered.cpu.with_pc(wrap16(entered.cpu.program_counter + 1)));
    lemma_reth_ignores_pc(entered, wrap16(entered.cpu.program_counter + 1));
}

/// `RETH` restores the program counter from the frame: what it was before
/// does not matter.
proof fn lemma_reth_ignores_pc(s: State, pc: u16)
    requires
        spec_reth(s).1 is Ok,
    ensures
        spec_reth(s.with_cpu(s.cpu.with_pc(pc))) == spec_reth(s),
{
    let moved = s.with_cpu(s.cpu.with_pc(pc));
    lemma_read_prefix_same(s, moved, s.cpu.stack, FRAME_SIZE as nat);
}

/// What a run of reads gives depends on the processor only through what
/// address translation reads.
proof fn lemma_read_prefix_same(a: State, b: State, at: u16, k: nat)
    requires
        a.mem == b.mem,
        a.cpu.flags == b.cpu.flags,
        a.cpu.supervisor_frame == b.cpu.supervisor_frame,
        a.cpu.user_frame == b.cpu.user_frame,
        a.cpu.page_table == b.cpu.page_table,
    ensures
        a.read_prefix(at, k) == b.read_prefix(at, k),
    decreases k,
{
    if k > 0 {
        lemma_read_prefix_same(a, b, at, (k - 1) as nat);
    }
}

/// Privilege. A step that fetches a privileged opcode in user mode ends in
/// `IllegalOperation`, handled or fatal. Where it is fatal nothing has
/// changed; where it is handled the state is that of trap entry from the
/// state before the step.
pub proof fn lemma_privileged_step(s: State, op: u8)
    requires
        s.cpu.flags.user_mode,
        s.fetch().1 == Ok::<u8, TrapMode>(op),
        op == crate::isa::USR || op == crate::isa::VMON || op == crate::isa::VMOFF || op
            == crate::isa::PSTORE || op == crate::isa::PLOAD,
    ensures
        spec_step(s).1 == Step::Handled(TrapMode::IllegalOperation) || spec_step(s).1
            == Step::Fatal(TrapMode::IllegalOperation),
        spec_step(s).1 is Fatal ==> spec_step(s).0.cpu == s.cpu,
        spec_step(s).1 is Fatal && (s.cpu.flags.trap || s.cpu.vectors.spec_vector(
            TrapMode::IllegalOperation,
        ) is None) ==> spec_step(s).0 == s,
        spec_step(s).1 is Handled ==> (spec_step(s).0, Ok::<(), TrapMode>(())) == spec_enter(
            s,
            s.cpu.vectors.spec_vector(TrapMode::IllegalOperation)->Some_0,
        ),
{
    reveal(spec_step);
    crate::isa::lemma_privileged_in_user_mode(op, s.fetch().0);
    assert(s.fetch().0.with_cpu(s.cpu) == s);
}

} // verus!
