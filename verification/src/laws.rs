//! What holds of the engine whatever the program: statements that relate
//! several operations, proved over the model.

use vstd::prelude::*;
use crate::error::CpuError;
use crate::model::{CpuModel, RunState};
use crate::opcode::{nibbles, recognized, word};
use crate::progress::lemma_step_makes_progress;

verus! {

impl CpuModel {
    /// The outcome of issuing one call per address in `addrs`, in order, with
    /// no return in between. The first call that is refused ends the series.
    pub open spec fn nested_calls(self, addrs: Seq<u16>) -> Result<CpuModel, CpuError>
        decreases addrs.len(),
    {
        if addrs.len() == 0 {
            Ok(self)
        } else {
            match self.nested_calls(addrs.drop_last()) {
                Ok(reached) => reached.try_call(addrs.last()),
                Err(fault) => Err(fault),
            }
        }
    }
}

/// The four fields of any word, shifted back into their places, give the word.
pub proof fn law_decode_recombines(opcode: u16)
    ensures
        ({
            let (c, x, y, d) = nibbles(opcode);
            ((c as u16) << 12) | ((x as u16) << 8) | ((y as u16) << 4) | (d as u16) == opcode
        }),
        nibbles(opcode).0 < 16,
        nibbles(opcode).1 < 16,
        nibbles(opcode).2 < 16,
        nibbles(opcode).3 < 16,
{
    let c: u16 = opcode / 4096;
    let x: u16 = opcode / 256 % 16;
    let y: u16 = opcode / 16 % 16;
    let d: u16 = opcode % 16;
    assert((c << 12) | (x << 8) | (y << 4) | d == opcode) by (bit_vector)
        requires
            c == opcode / 4096,
            x == opcode / 256 % 16,
            y == opcode / 16 % 16,
            d == opcode % 16,
    ;
}

/// Nested calls succeed exactly while they fit in the sixteen stack slots.
/// Each one that succeeds takes one slot; the first one that does not fit is
/// refused with a stack overflow. From an empty stack that is the seventeenth.
pub proof fn law_stack_bound(s: CpuModel, addrs: Seq<u16>)
    requires
        s.wf(),
    ensures
        match s.nested_calls(addrs) {
            Ok(reached) => {
                &&& s.sp + addrs.len() <= 16
                &&& reached.wf()
                &&& reached.sp == s.sp + addrs.len()
            },
            Err(fault) => s.sp + addrs.len() > 16 && fault == CpuError::StackOverflow,
        },
    decreases addrs.len(),
{
    if addrs.len() > 0 {
        law_stack_bound(s, addrs.drop_last());
    }
}

/// A return on an empty call stack is refused with a stack underflow, and
/// only there.
pub proof fn law_return_needs_call(s: CpuModel)
    requires
        s.wf(),
    ensures
        s.try_ret() == Err::<CpuModel, CpuError>(CpuError::StackUnderflow) <==> s.sp == 0,
{
}

/// A call followed by a return comes back to where the call was issued, with
/// the call stack as deep as before and registers and memory untouched.
pub proof fn law_call_then_return(s: CpuModel, addr: u16)
    requires
        s.wf(),
        s.sp < 16,
    ensures
        s.call(addr).try_ret() is Ok,
        s.call(addr).ret().pc == s.pc,
        s.call(addr).ret().sp == s.sp,
        s.call(addr).ret().reg == s.reg,
        s.call(addr).ret().mem == s.mem,
        forall|i: int| 0 <= i < s.sp ==> s.call(addr).ret().stack[i] == s.stack[i],
{
}

/// A word outside the instruction table is never skipped: dispatching it
/// faults and leaves the state alone. A word inside the table never gives
/// that fault.
pub proof fn law_unrecognized_faults(s: CpuModel, opcode: u16)
    ensures
        !recognized(opcode) ==> s.execute(opcode) == (
            s,
            RunState::Faulted(CpuError::UnimplementedOpcode),
        ),
        recognized(opcode) ==> s.execute(opcode).1 != RunState::Faulted(
            CpuError::UnimplementedOpcode,
        ),
{
}

/// An add leaves 0 or 1 in the carry flag, and, unless the flag itself was
/// the target, the target and the flag together hold the true sum.
pub proof fn law_add_carries(s: CpuModel, x: int, y: int)
    requires
        s.wf(),
        0 <= x < 16,
        0 <= y < 16,
    ensures
        s.add_xy(x, y).wf(),
        s.add_xy(x, y).reg[0xF] == 0 || s.add_xy(x, y).reg[0xF] == 1,
        x != 0xF ==> s.add_xy(x, y).reg[x] + 256 * s.add_xy(x, y).reg[0xF] == s.reg[x] + s.reg[y],
        forall|i: int| 0 <= i < 16 && i != x && i != 0xF ==> s.add_xy(x, y).reg[i] == s.reg[i],
{
}

/// Loading bytes changes memory in the loaded range only, and nothing else
/// of the machine.
pub proof fn law_load_is_local(s: CpuModel, start: int, bytes: Seq<u8>)
    requires
        s.wf(),
        0 <= start,
        start + bytes.len() <= 4096,
    ensures
        s.load(start, bytes).wf(),
        s.load(start, bytes).mem.subrange(start, start + bytes.len()) == bytes,
        forall|i: int|
            0 <= i < 4096 && !(start <= i < start + bytes.len()) ==> s.load(start, bytes).mem[i]
                == s.mem[i],
        s.load(start, bytes).reg == s.reg,
        s.load(start, bytes).stack == s.stack,
        s.load(start, bytes).pc == s.pc,
        s.load(start, bytes).sp == s.sp,
{
}

/// No instruction writes to memory: a run leaves every byte as it found it.
pub proof fn law_run_keeps_memory(s: CpuModel)
    requires
        s.wf(),
    ensures
        s.run().0.mem == s.mem,
    decreases s.potential(),
{
    if s.step().1 == RunState::Running {
        lemma_step_makes_progress(s);
        law_run_keeps_memory(s.step().0);
    }
}

/// Whether `state` is a standing in which a run may have stopped at `last`,
/// judged by `last` alone. After a halt the program counter stands just past
/// the halt instruction. After a stack overflow the stack is full and the
/// word just before the program counter is a call; after a stack underflow
/// the stack is empty and that word is the return. After the remaining
/// fault either no word can be fetched at the program counter, or the word
/// just before it is outside the instruction table.
pub open spec fn stopped_for_a_reason(last: CpuModel, state: RunState) -> bool {
    let fetched = word(last.mem[last.pc - 2], last.mem[last.pc - 1]);
    let past_a_word = 2 <= last.pc <= 4096;
    match state {
        RunState::Running => false,
        RunState::Halted => past_a_word && nibbles(fetched) == (0u8, 0u8, 0u8, 0u8),
        RunState::Faulted(CpuError::StackOverflow) => {
            &&& last.sp == 16
            &&& past_a_word
            &&& nibbles(fetched).0 == 0x2
        },
        RunState::Faulted(CpuError::StackUnderflow) => {
            &&& last.sp == 0
            &&& past_a_word
            &&& nibbles(fetched) == (0u8, 0u8, 0xEu8, 0xEu8)
        },
        RunState::Faulted(CpuError::UnimplementedOpcode) => {
            ||| !last.can_fetch()
            ||| past_a_word && !recognized(fetched)
        },
        RunState::Faulted(CpuError::MemoryWriteOutOfBounds) => false,
    }
}

/// A run stops for a reason that its last state shows.
pub proof fn law_run_stops_for_a_reason(s: CpuModel)
    requires
        s.wf(),
    ensures
        stopped_for_a_reason(s.run().0, s.run().1),
    decreases s.potential(),
{
    if s.step().1 == RunState::Running {
        lemma_step_makes_progress(s);
        law_run_stops_for_a_reason(s.step().0);
    } else if s.can_fetch() {
        let last = s.step().0;
        assert(last.pc == s.pc + 2);
        assert(last.mem == s.mem);
        assert(word(last.mem[last.pc - 2], last.mem[last.pc - 1]) == s.opcode());
    }
}

} // verus!
