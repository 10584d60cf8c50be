//! Turning command-line text into the bytes that are loaded into the machine.
//!
//! Each argument is a run of two-character pairs, and each pair is one byte
//! written in hexadecimal, such as `8014` for the bytes 0x80 and 0x14.

use vstd::prelude::*;
use vstd::string::StrSliceExecFns;

verus! {

/// The value of a hexadecimal digit, in either case; `None` for any other
/// character.
pub open spec fn hex_value(c: char) -> Option<u8> {
    if '0' <= c <= '9' {
        Some((c as u32 - '0' as u32) as u8)
    } else if 'a' <= c <= 'f' {
        Some((c as u32 - 'a' as u32 + 10) as u8)
    } else if 'A' <= c <= 'F' {
        Some((c as u32 - 'A' as u32 + 10) as u8)
    } else {
        None
    }
}

/// The byte that a pair of characters stands for: two hexadecimal digits,
/// the more significant first, or a plus sign and one digit.
pub open spec fn pair_value(msb: char, lsb: char) -> Option<u8> {
    match hex_value(lsb) {
        None => None,
        Some(low) => if msb == '+' {
            Some(low)
        } else {
            match hex_value(msb) {
                None => None,
                Some(high) => Some((high * 16 + low) as u8),
            }
        },
    }
}

/// Whether an argument is made of pairs that each stand for a byte.
pub open spec fn well_formed(entry: Seq<char>) -> bool {
    &&& entry.len() % 2 == 0
    &&& forall|k: int|
        0 <= k < entry.len() / 2 ==> (#[trigger] pair_value(entry[2 * k], entry[2 * k + 1])) is Some
}

/// The bytes of a well-formed argument, one per pair, in order.
pub open spec fn entry_bytes(entry: Seq<char>) -> Seq<u8> {
    Seq::new(entry.len() / 2, |k: int| pair_value(entry[2 * k], entry[2 * k + 1]).unwrap())
}

/// The bytes of a list of arguments: those of each argument, one argument
/// after the other.
pub open spec fn all_bytes(entries: Seq<String>) -> Seq<u8>
    decreases entries.len(),
{
    if entries.len() == 0 {
        Seq::empty()
    } else {
        all_bytes(entries.drop_last()) + entry_bytes(entries.last()@)
    }
}

/// The value of a hexadecimal digit.
pub fn hex_digit(c: char) -> (value: Option<u8>)
    ensures
        value == hex_value(c),
        value matches Some(v) ==> v < 16,
{
    if '0' <= c && c <= '9' {
        Some((c as u32 - '0' as u32) as u8)
    } else if 'a' <= c && c <= 'f' {
        Some((c as u32 - 'a' as u32 + 10) as u8)
    } else if 'A' <= c && c <= 'F' {
        Some((c as u32 - 'A' as u32 + 10) as u8)
    } else {
        None
    }
}

/// The byte that a pair of characters stands for.
pub fn parse_pair(msb: char, lsb: char) -> (value: Option<u8>)
    ensures
        value == pair_value(msb, lsb),
{
    match hex_digit(lsb) {
        None => None,
        Some(low) => if msb == '+' {
            Some(low)
        } else {
            match hex_digit(msb) {
                None => None,
                Some(high) => Some(high * 16 + low),
            }
        },
    }
}

/// Reads every argument pair by pair into one list of bytes. The result is
/// `None` where some argument has an odd number of characters or holds a
/// pair that stands for no byte.
pub fn parse_args_to_byte_array(input: &Vec<String>) -> (result: Option<Vec<u8>>)
    ensures
        result is Some <==> forall|i: int| 0 <= i < input@.len() ==> well_formed(#[trigger] input@[i]@),
        result matches Some(bytes) ==> bytes@ == all_bytes(input@),
{
    let mut result: Vec<u8> = Vec::new();
    let mut i: usize = 0;
    while i < input.len()
        invariant
            i <= input@.len(),
            forall|k: int| 0 <= k < i ==> well_formed(#[trigger] input@[k]@),
            result@ == all_bytes(input@.take(i as int)),
        decreases input@.len() - i,
    {
        let entry = input[i].as_str();
        let len = entry.unicode_len();
        if len % 2 != 0 {
            return None;
        }
        let ghost done = result@;
        let mut j: usize = 0;
        while j < len
            invariant
                j <= len,
                j % 2 == 0,
                len % 2 == 0,
                len == entry@.len(),
                entry@ == input@[i as int]@,
                i < input@.len(),
                forall|k: int|
                    0 <= k < j / 2 ==> (#[trigger] pair_value(entry@[2 * k], entry@[2 * k + 1])) is Some,
                result@ == done + entry_bytes(entry@).take(j as int / 2),
            decreases len - j,
        {
            let msb = entry.get_char(j);
            let lsb = entry.get_char(j + 1);
            match parse_pair(msb, lsb) {
                None => {
                    assert(!well_formed(input@[i as int]@)) by {
                        let k = j as int / 2;
                        assert(pair_value(entry@[2 * k], entry@[2 * k + 1]) is None);
                    }
                    return None;
                },
                Some(val) => {
                    result.push(val);
                },
            }
            assert(entry_bytes(entry@).take(j as int / 2 + 1) =~= entry_bytes(entry@).take(
                j as int / 2,
            ).push(entry_bytes(entry@)[j as int / 2]));
            j += 2;
        }
        assert(entry_bytes(entry@).take(len as int / 2) =~= entry_bytes(entry@));
        assert(input@.take(i as int + 1).drop_last() =~= input@.take(i as int));
        i += 1;
    }
    assert(input@.take(i as int) =~= input@);
    Some(result)
}

} // verus!
