//! Why every run ends, and what a whole run computes.
//!
//! Control only ever moves forward within one level of the call stack: an
//! instruction leaves the program counter two bytes further on, a call goes
//! one level up, and a return comes back to a level that a call left behind
//! two bytes further on. With sixteen levels and 4096 bytes there is a finite
//! supply of such moves, which `potential` counts.

use vstd::prelude::*;
use crate::model::{CpuModel, RunState};

verus! {

/// The cycles that a program counter at `pc` still has in front of it on its
/// own level, counted generously: one per byte up to the end of memory.
pub open spec fn room(pc: int) -> nat {
    if 0 <= pc <= 4096 {
        (4097 - pc) as nat
    } else {
        0
    }
}

/// What one unit of room is worth at stack level `level`. A cycle at this
/// level may start a visit to the level above, so a unit here is worth more
/// than all the room there is above.
pub open spec fn weight(level: int) -> nat
    decreases 16 - level,
{
    if level >= 16 {
        1
    } else {
        1 + 4097 * weight(level + 1)
    }
}

/// The worth of the program counters saved in the first `depth` stack slots.
pub open spec fn pending(stack: Seq<u16>, depth: int) -> nat
    decreases depth,
{
    if depth <= 0 {
        0
    } else {
        pending(stack, depth - 1) + room(stack[depth - 1] as int) * weight(depth - 1)
    }
}

impl CpuModel {
    /// An upper bound on the cycles that the engine can still run.
    pub open spec fn potential(self) -> nat {
        pending(self.stack, self.sp) + room(self.pc) * weight(self.sp)
    }

    /// The state and the standing in which a run that starts here ends: the
    /// engine cycles until it halts or faults.
    pub open spec fn run(self) -> (CpuModel, RunState)
        decreases self.potential(),
        when self.wf()
        via Self::run_terminates
    {
        let (next, state) = self.step();
        if state == RunState::Running {
            next.run()
        } else {
            (next, state)
        }
    }

    #[via_fn]
    proof fn run_terminates(self) {
        let (next, state) = self.step();
        if state == RunState::Running {
            lemma_step_makes_progress(self);
        }
    }
}

/// The saved program counters below `depth` are worth the same in two stacks
/// that agree below `depth`.
proof fn lemma_pending_agrees(a: Seq<u16>, b: Seq<u16>, depth: int)
    requires
        forall|i: int| 0 <= i < depth ==> a[i] == b[i],
    ensures
        pending(a, depth) == pending(b, depth),
    decreases depth,
{
    if depth > 0 {
        lemma_pending_agrees(a, b, depth - 1);
    }
}

/// Room never exceeds 4097 units, so all of it at one level is worth less
/// than one unit at the level below.
proof fn lemma_level_outweighs(pc: int, level: int)
    requires
        0 <= level < 16,
    ensures
        room(pc) * weight(level + 1) < weight(level),
{
    let r = room(pc) as int;
    let w = weight(level + 1) as int;
    assert(r * w <= 4097 * w) by (nonlinear_arith)
        requires
            0 <= r <= 4097,
            0 <= w,
    ;
}

/// A cycle that leaves the engine running leaves it a well-formed state with
/// less potential.
pub proof fn lemma_step_makes_progress(s: CpuModel)
    requires
        s.wf(),
        s.step().1 == RunState::Running,
    ensures
        s.step().0.wf(),
        s.step().0.potential() < s.potential(),
{
    let t = s.step().0;
    let w = weight(s.sp) as int;
    let before = room(s.pc) as int;
    let after = room(s.pc + 2) as int;
    assert(before * w == after * w + 2 * w) by (nonlinear_arith)
        requires
            before == after + 2,
    ;
    if t.sp == s.sp + 1 {
        lemma_pending_agrees(s.stack, t.stack, s.sp);
        lemma_level_outweighs(t.pc, s.sp);
        assert(pending(t.stack, t.sp) == pending(t.stack, s.sp) + room(s.pc + 2) * weight(s.sp));
    } else if t.sp == s.sp - 1 {
        assert(pending(s.stack, s.sp) == pending(s.stack, t.sp) + room(t.pc) * weight(t.sp));
    } else {
        assert(t.stack == s.stack);
    }
}

/// A run ends in a well-formed state, and it ends halted or faulted.
pub proof fn lemma_run_ends(s: CpuModel)
    requires
        s.wf(),
    ensures
        s.run().0.wf(),
        s.run().1 != RunState::Running,
    decreases s.potential(),
{
    if s.step().1 == RunState::Running {
        lemma_step_makes_progress(s);
        lemma_run_ends(s.step().0);
    }
}

} // verus!
