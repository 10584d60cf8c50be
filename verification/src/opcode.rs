//! Instruction words: how two bytes form one, and how one splits into fields.

use vstd::prelude::*;

verus! {

/// The word formed by a high byte followed by a low byte (big-endian).
pub open spec fn word(hi: u8, lo: u8) -> u16 {
    (hi as int * 256 + lo as int) as u16
}

/// The four 4-bit fields of a word, most significant first: the group `c`,
/// the operands `x` and `y`, and the subgroup `d`.
pub open spec fn nibbles(opcode: u16) -> (u8, u8, u8, u8) {
    (
        (opcode / 4096) as u8,
        (opcode / 256 % 16) as u8,
        (opcode / 16 % 16) as u8,
        (opcode % 16) as u8,
    )
}

/// The low twelve bits of a word: the address operand `nnn`.
pub open spec fn address(opcode: u16) -> u16 {
    opcode % 4096
}

/// Whether the fields name an instruction that the engine implements.
pub open spec fn recognized(opcode: u16) -> bool {
    let (c, x, y, d) = nibbles(opcode);
    ||| (c == 0 && x == 0 && y == 0 && d == 0)
    ||| (c == 0 && x == 0 && y == 0xE && d == 0xE)
    ||| c == 0x2
    ||| (c == 0x8 && d == 0x4)
}

} // verus!
