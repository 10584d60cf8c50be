//! The faults that end a run or reject a memory load.

use vstd::prelude::*;

verus! {

/// Why the engine stopped, or why a load was refused.
#[derive(Clone, Copy, Debug, PartialEq, Eq, Structural)]
pub enum CpuError {
    /// A call was issued while all sixteen stack slots were in use.
    StackOverflow,
    /// A return was issued while the call stack was empty.
    StackUnderflow,
    /// A load would have written past the end of its region.
    MemoryWriteOutOfBounds,
    /// The fetched word matches no instruction the engine knows.
    UnimplementedOpcode,
}

impl CpuError {
    /// The words that name the fault to a person.
    pub open spec fn text(self) -> Seq<char> {
        match self {
            CpuError::StackOverflow => "Stack Overflow"@,
            CpuError::StackUnderflow => "Stack Underflow!"@,
            CpuError::MemoryWriteOutOfBounds => "Cannot exceed memory allocation!"@,
            CpuError::UnimplementedOpcode => "Unimplemented opcode!"@,
        }
    }

    /// The words that name the fault to a person.
    pub fn message(&self) -> (words: &'static str)
        ensures
            words@ == self.text(),
    {
        match self {
            CpuError::StackOverflow => "Stack Overflow",
            CpuError::StackUnderflow => "Stack Underflow!",
            CpuError::MemoryWriteOutOfBounds => "Cannot exceed memory allocation!",
            CpuError::UnimplementedOpcode => "Unimplemented opcode!",
        }
    }
}

} // verus!
