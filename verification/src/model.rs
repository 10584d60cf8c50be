//! The mathematical image of the machine, and what one instruction does to it.

use vstd::prelude::*;
use crate::error::CpuError;
use crate::opcode::{address, nibbles, word};

verus! {

/// Where the engine stands after an instruction.
#[derive(Clone, Copy, Debug, PartialEq, Eq, Structural)]
pub enum RunState {
    /// The instruction completed; the next one can be fetched.
    Running,
    /// The halt instruction was met.
    Halted,
    /// The engine cannot proceed.
    Faulted(CpuError),
}

/// The whole state of the machine as plain mathematical values.
#[verifier::ext_equal]
pub struct CpuModel {
    /// The sixteen registers; the last one is the carry flag.
    pub reg: Seq<u8>,
    /// The 4096 bytes of memory.
    pub mem: Seq<u8>,
    /// The offset in memory of the next instruction.
    pub pc: int,
    /// The sixteen call stack slots; those below `sp` are live.
    pub stack: Seq<u16>,
    /// The next free call stack slot; zero when the stack is empty.
    pub sp: int,
}

impl CpuModel {
    /// The shape every machine state has.
    pub open spec fn wf(self) -> bool {
        &&& self.reg.len() == 16
        &&& self.mem.len() == 4096
        &&& self.stack.len() == 16
        &&& 0 <= self.sp <= 16
        &&& 0 <= self.pc <= 0xFFFF
    }

    /// The state of a machine that has just been built: everything zero.
    pub open spec fn fresh() -> CpuModel {
        CpuModel {
            reg: Seq::new(16, |i: int| 0u8),
            mem: Seq::new(4096, |i: int| 0u8),
            pc: 0,
            stack: Seq::new(16, |i: int| 0u16),
            sp: 0,
        }
    }

    /// Memory after `bytes` have been copied in from offset `start` on.
    pub open spec fn load(self, start: int, bytes: Seq<u8>) -> CpuModel {
        CpuModel {
            mem: Seq::new(
                self.mem.len(),
                |i: int|
                    if start <= i < start + bytes.len() {
                        bytes[i - start]
                    } else {
                        self.mem[i]
                    },
            ),
            ..self
        }
    }

    /// Whether two bytes can be read at the program counter.
    pub open spec fn can_fetch(self) -> bool {
        0 <= self.pc <= 4094
    }

    /// The word at the program counter.
    pub open spec fn opcode(self) -> u16 {
        word(self.mem[self.pc], self.mem[self.pc + 1])
    }

    /// The state with the program counter moved past one instruction.
    pub open spec fn advance(self) -> CpuModel {
        CpuModel { pc: self.pc + 2, ..self }
    }

    /// Register `x` receives the sum of registers `x` and `y` modulo 256, and
    /// then the carry flag is rewritten: 1 if the sum exceeded 255, else 0.
    pub open spec fn add_xy(self, x: int, y: int) -> CpuModel {
        let sum = self.reg[x] as int + self.reg[y] as int;
        let carry = if sum > 255 { 1u8 } else { 0u8 };
        CpuModel { reg: self.reg.update(x, (sum % 256) as u8).update(0xF, carry), ..self }
    }

    /// The program counter is saved in the next free stack slot and control
    /// moves to `addr`. Meaningful while `sp < 16`.
    pub open spec fn call(self, addr: u16) -> CpuModel {
        CpuModel {
            stack: self.stack.update(self.sp, self.pc as u16),
            sp: self.sp + 1,
            pc: addr as int,
            ..self
        }
    }

    /// Control moves to the most recently saved program counter, whose slot
    /// becomes free. Meaningful while `sp > 0`.
    pub open spec fn ret(self) -> CpuModel {
        CpuModel { sp: self.sp - 1, pc: self.stack[self.sp - 1] as int, ..self }
    }

    /// A call that checks for room on the stack first.
    pub open spec fn try_call(self, addr: u16) -> Result<CpuModel, CpuError> {
        if self.sp >= 16 {
            Err(CpuError::StackOverflow)
        } else {
            Ok(self.call(addr))
        }
    }

    /// A return that checks for a saved program counter first.
    pub open spec fn try_ret(self) -> Result<CpuModel, CpuError> {
        if self.sp <= 0 {
            Err(CpuError::StackUnderflow)
        } else {
            Ok(self.ret())
        }
    }

    /// What dispatching `opcode` does: the state it leaves and where the
    /// engine then stands. A fault leaves the state as it was.
    pub open spec fn execute(self, opcode: u16) -> (CpuModel, RunState) {
        let (c, x, y, d) = nibbles(opcode);
        if c == 0 && x == 0 && y == 0 && d == 0 {
            (self, RunState::Halted)
        } else if c == 0 && x == 0 && y == 0xE && d == 0xE {
            match self.try_ret() {
                Ok(next) => (next, RunState::Running),
                Err(fault) => (self, RunState::Faulted(fault)),
            }
        } else if c == 0x2 {
            match self.try_call(address(opcode)) {
                Ok(next) => (next, RunState::Running),
                Err(fault) => (self, RunState::Faulted(fault)),
            }
        } else if c == 0x8 && d == 0x4 {
            (self.add_xy(x as int, y as int), RunState::Running)
        } else {
            (self, RunState::Faulted(CpuError::UnimplementedOpcode))
        }
    }

    /// One cycle: fetch, move the program counter past the instruction, then
    /// dispatch, so that a fault in dispatch leaves the program counter past
    /// the word that caused it. Where fewer than two bytes are left at the
    /// program counter there is no word to fetch: that counts as an
    /// unimplemented opcode, and the state stays as it was.
    pub open spec fn step(self) -> (CpuModel, RunState) {
        if self.can_fetch() {
            self.advance().execute(self.opcode())
        } else {
            (self, RunState::Faulted(CpuError::UnimplementedOpcode))
        }
    }
}

} // verus!
