//! The executable machine.

use vstd::prelude::*;
use crate::error::CpuError;
use crate::model::{CpuModel, RunState};
use crate::opcode::{nibbles, recognized};
use crate::progress::lemma_step_makes_progress;

verus! {

/// The number of bytes at the bottom of memory set aside for system code.
pub const RES_SYS_MEM: usize = 0x100;

/// The number of bytes of memory.
pub const MEM_SIZE: usize = 4096;

/// A virtual CPU that implements a subset of the CHIP-8 instructions.
pub struct CPU {
    reg: [u8; 16],
    mem: [u8; 4096],
    pc: usize,
    stack: [u16; 16],
    sp: usize,
}

impl View for CPU {
    type V = CpuModel;

    /// The machine as plain values, field by field.
    closed spec fn view(&self) -> CpuModel {
        CpuModel {
            reg: self.reg@,
            mem: self.mem@,
            pc: self.pc as int,
            stack: self.stack@,
            sp: self.sp as int,
        }
    }
}

impl CPU {
    #[verifier::type_invariant]
    spec fn inv(self) -> bool {
        self.sp <= 16 && self.pc <= 0xFFFF
    }

    /// Builds a machine with every register, memory byte and stack slot zero,
    /// the program counter at zero and the call stack empty.
    pub fn new() -> (cpu: CPU)
        ensures
            cpu@ == CpuModel::fresh(),
    {
        let cpu = CPU { reg: [0; 16], pc: 0, mem: [0; 4096], stack: [0; 16], sp: 0 };
        assert(cpu@ =~= CpuModel::fresh());
        cpu
    }

    /// The value of register `index`.
    pub fn register(&self, index: usize) -> (value: u8)
        requires
            index < 16,
        ensures
            value == self@.reg[index as int],
    {
        self.reg[index]
    }

    /// Writes `value` to register `index` and changes nothing else.
    pub fn set_register(&mut self, index: usize, value: u8)
        requires
            index < 16,
        ensures
            final(self)@.wf(),
            final(self)@ == (CpuModel {
                reg: old(self)@.reg.update(index as int, value),
                ..old(self)@
            }),
    {
        proof {
            use_type_invariant(&*self);
        }
        self.reg[index] = value;
        assert(self@ =~= (CpuModel {
            reg: old(self)@.reg.update(index as int, value),
            ..old(self)@
        }));
    }

    /// A copy of all sixteen registers.
    pub fn registers(&self) -> (all: [u8; 16])
        ensures
            all@ == self@.reg,
    {
        self.reg
    }

    /// The byte of memory at `addr`.
    pub fn memory_at(&self, addr: usize) -> (byte: u8)
        requires
            addr < 4096,
        ensures
            byte == self@.mem[addr as int],
    {
        self.mem[addr]
    }

    /// The content of call stack slot `slot`, live or not.
    pub fn stack_at(&self, slot: usize) -> (saved: u16)
        requires
            slot < 16,
        ensures
            saved == self@.stack[slot as int],
    {
        self.stack[slot]
    }

    /// The offset in memory of the next instruction.
    pub fn program_counter(&self) -> (pc: usize)
        ensures
            pc == self@.pc,
            self@.wf(),
    {
        proof {
            use_type_invariant(self);
        }
        self.pc
    }

    /// The number of program counters saved on the call stack.
    pub fn stack_pointer(&self) -> (sp: usize)
        ensures
            sp == self@.sp,
            sp <= 16,
            self@.wf(),
    {
        proof {
            use_type_invariant(self);
        }
        self.sp
    }

    /// Copies `ops` to the start of memory, the region set aside for system
    /// code. More than 256 bytes are refused and memory stays as it was.
    pub fn write_system_mem(&mut self, ops: &[u8]) -> (loaded: Result<(), CpuError>)
        ensures
            final(self)@.wf(),
            loaded is Ok <==> ops@.len() <= 0x100,
            match loaded {
                Ok(_) => final(self)@ == old(self)@.load(0, ops@),
                Err(fault) => fault == CpuError::MemoryWriteOutOfBounds && final(self)@ == old(
                    self,
                )@,
            },
    {
        if ops.len() > RES_SYS_MEM {
            proof {
                use_type_invariant(&*self);
            }
            return Err(CpuError::MemoryWriteOutOfBounds);
        }
        self.copy_in(0, ops);
        Ok(())
    }

    /// Copies `ops` into memory from address 0x100 on, the region for program
    /// code. Bytes that would not fit below address 4096 are refused and
    /// memory stays as it was.
    pub fn write_prog_mem(&mut self, ops: &[u8]) -> (loaded: Result<(), CpuError>)
        ensures
            final(self)@.wf(),
            loaded is Ok <==> 0x100 + ops@.len() <= 4096,
            match loaded {
                Ok(_) => final(self)@ == old(self)@.load(0x100, ops@),
                Err(fault) => fault == CpuError::MemoryWriteOutOfBounds && final(self)@ == old(
                    self,
                )@,
            },
    {
        if ops.len() > MEM_SIZE - RES_SYS_MEM {
            proof {
                use_type_invariant(&*self);
            }
            return Err(CpuError::MemoryWriteOutOfBounds);
        }
        self.copy_in(RES_SYS_MEM, ops);
        Ok(())
    }

    /// Copies `ops` into memory from `start` on.
    fn copy_in(&mut self, start: usize, ops: &[u8])
        requires
            start + ops@.len() <= 4096,
        ensures
            final(self)@.wf(),
            final(self)@ == old(self)@.load(start as int, ops@),
    {
        proof {
            use_type_invariant(&*self);
        }
        assert(self@ =~= self@.load(start as int, ops@.take(0)));
        let mut i: usize = 0;
        while i < ops.len()
            invariant
                i <= ops@.len(),
                start + ops@.len() <= 4096,
                self@.wf(),
                self@ == old(self)@.load(start as int, ops@.take(i as int)),
            decreases ops@.len() - i,
        {
            self.mem[start + i] = ops[i];
            i += 1;
            assert(self@ =~= old(self)@.load(start as int, ops@.take(i as int)));
        }
        assert(ops@.take(i as int) =~= ops@);
    }

    /// Reads the instruction word at the program counter, high byte first.
    /// The program counter does not move.
    pub fn read_opcode(&self) -> (opcode: u16)
        requires
            self@.can_fetch(),
        ensures
            opcode == self@.opcode(),
    {
        let op_byte1: u16 = self.mem[self.pc] as u16;
        let op_byte2: u16 = self.mem[self.pc + 1] as u16;
        assert((op_byte1 << 8) | op_byte2 == op_byte1 * 256 + op_byte2) by (bit_vector)
            requires
                op_byte1 < 256,
                op_byte2 < 256,
        ;
        (op_byte1 << 8) | op_byte2
    }

    /// Splits an instruction word into its four 4-bit fields `(c, x, y, d)`,
    /// most significant first. Every word splits, whether or not it names an
    /// instruction, and the fields put back together give the word.
    pub fn decode(&self, opcode: &u16) -> (fields: (u8, u8, u8, u8))
        ensures
            fields == nibbles(*opcode),
            fields.0 < 16 && fields.1 < 16 && fields.2 < 16 && fields.3 < 16,
            ((fields.0 as u16) << 12) | ((fields.1 as u16) << 8) | ((fields.2 as u16) << 4) | (
            fields.3 as u16) == *opcode,
    {
        let op: u16 = *opcode;
        let c: u16 = (op & 0xF000) >> 12;
        let x: u16 = (op & 0x0F00) >> 8;
        let y: u16 = (op & 0x00F0) >> 4;
        let d: u16 = op & 0x000F;
        assert(c == op / 4096 && x == op / 256 % 16 && y == op / 16 % 16 && d == op % 16 && c
            < 16 && x < 16 && y < 16 && d < 16 && (c << 12) | (x << 8) | (y << 4) | d == op)
            by (bit_vector)
            requires
                c == (op & 0xF000) >> 12,
                x == (op & 0x0F00) >> 8,
                y == (op & 0x00F0) >> 4,
                d == op & 0x000F,
        ;
        (c as u8, x as u8, y as u8, d as u8)
    }

    /// Saves the program counter on the call stack and moves control to
    /// `addr`. With all sixteen slots in use the call is refused and the
    /// machine stays as it was.
    pub fn call(&mut self, addr: u16) -> (done: Result<(), CpuError>)
        ensures
            final(self)@.wf(),
            done is Ok <==> old(self)@.sp < 16,
            match done {
                Ok(_) => final(self)@ == old(self)@.call(addr),
                Err(fault) => fault == CpuError::StackOverflow && final(self)@ == old(self)@,
            },
    {
        proof {
            use_type_invariant(&*self);
        }
        if self.sp >= 16 {
            return Err(CpuError::StackOverflow);
        }
        self.stack[self.sp] = self.pc as u16;
        self.sp += 1;
        self.pc = addr as usize;
        assert(self@ =~= old(self)@.call(addr));
        Ok(())
    }

    /// Moves control to the most recently saved program counter and frees
    /// its slot. With the call stack empty the return is refused and the
    /// machine stays as it was.
    pub fn ret(&mut self) -> (done: Result<(), CpuError>)
        ensures
            final(self)@.wf(),
            done is Ok <==> old(self)@.sp > 0,
            match done {
                Ok(_) => final(self)@ == old(self)@.ret(),
                Err(fault) => fault == CpuError::StackUnderflow && final(self)@ == old(self)@,
            },
    {
        proof {
            use_type_invariant(&*self);
        }
        if self.sp == 0 {
            return Err(CpuError::StackUnderflow);
        }
        self.sp -= 1;
        self.pc = self.stack[self.sp] as usize;
        assert(self@ =~= old(self)@.ret());
        Ok(())
    }

    /// Adds register `y` to register `x`, wrapping at 256, and then rewrites
    /// the carry flag, register 0xF: 1 if the true sum exceeded 255, else 0.
    pub fn add_xy(&mut self, x: u8, y: u8)
        requires
            x < 16,
            y < 16,
        ensures
            final(self)@.wf(),
            final(self)@ == old(self)@.add_xy(x as int, y as int),
            final(self)@.reg[0xF] <= 1,
    {
        proof {
            use_type_invariant(&*self);
        }
        let lhs: u8 = self.reg[x as usize];
        let rhs: u8 = self.reg[y as usize];
        let wrapped_val: u8 = rhs.wrapping_add(lhs);
        let overflow: bool = rhs.checked_add(lhs).is_none();
        self.reg[x as usize] = wrapped_val;
        // the last register is the carry flag: it says whether the sum
        // outgrew the eight bits of a register
        if overflow {
            self.reg[0xF] = 1;
        } else {
            self.reg[0xF] = 0;
        }
        assert(self@ =~= old(self)@.add_xy(x as int, y as int));
    }

    /// Dispatches one instruction word. Halt stops the engine; return, call
    /// and add act on the machine; any other word is a fault, as are a call
    /// on a full stack and a return on an empty one. A fault leaves the
    /// machine as it was.
    pub fn execute(&mut self, opcode: u16) -> (state: RunState)
        ensures
            final(self)@.wf(),
            (final(self)@, state) == old(self)@.execute(opcode),
            !recognized(opcode) ==> state == RunState::Faulted(CpuError::UnimplementedOpcode)
                && final(self)@ == old(self)@,
    {
        proof {
            use_type_invariant(&*self);
        }
        assert(opcode & 0x0FFF == opcode % 4096) by (bit_vector);
        let nnn: u16 = opcode & 0x0FFF;
        match self.decode(&opcode) {
            (0, 0, 0, 0) => RunState::Halted,
            (0, 0, 0xE, 0xE) => match self.ret() {
                Ok(_) => RunState::Running,
                Err(fault) => RunState::Faulted(fault),
            },
            (0x2, _, _, _) => match self.call(nnn) {
                Ok(_) => RunState::Running,
                Err(fault) => RunState::Faulted(fault),
            },
            (0x8, x, y, 0x4) => {
                self.add_xy(x, y);
                RunState::Running
            },
            _ => RunState::Faulted(CpuError::UnimplementedOpcode),
        }
    }

    /// Runs one cycle: fetches the word at the program counter, moves the
    /// program counter past it, and dispatches it, so that a fault in
    /// dispatch leaves the program counter past the word that caused it.
    /// Where fewer than two bytes are left at the program counter there is no
    /// word to fetch: the engine reports an unimplemented opcode and the
    /// machine stays as it was.
    pub fn step(&mut self) -> (state: RunState)
        ensures
            final(self)@.wf(),
            (final(self)@, state) == old(self)@.step(),
    {
        proof {
            use_type_invariant(&*self);
        }
        if self.pc > MEM_SIZE - 2 {
            return RunState::Faulted(CpuError::UnimplementedOpcode);
        }
        let opcode = self.read_opcode();
        self.pc += 2;
        assert(self@ =~= old(self)@.advance());
        self.execute(opcode)
    }

    /// Runs cycles until the engine halts or faults. `Ok` reports a halt,
    /// `Err` the fault; either way the machine is left in the state that the
    /// last cycle produced. Every run ends.
    pub fn run(&mut self) -> (ended: Result<(), CpuError>)
        ensures
            final(self)@.wf(),
            final(self)@ == old(self)@.run().0,
            match ended {
                Ok(_) => old(self)@.run().1 == RunState::Halted,
                Err(fault) => old(self)@.run().1 == RunState::Faulted(fault),
            },
    {
        proof {
            use_type_invariant(&*self);
        }
        loop
            invariant
                self@.wf(),
                self@.run() == old(self)@.run(),
            decreases self@.potential(),
        {
            let ghost before = self@;
            match self.step() {
                RunState::Running => {
                    proof {
                        lemma_step_makes_progress(before);
                    }
                },
                RunState::Halted => {
                    return Ok(());
                },
                RunState::Faulted(fault) => {
                    return Err(fault);
                },
            }
        }
    }
}

impl Default for CPU {
    /// The same machine that `new` builds.
    fn default() -> (cpu: Self)
        ensures
            cpu@ == CpuModel::fresh(),
    {
        Self::new()
    }
}

} // verus!
