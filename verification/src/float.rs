//! Taking a 32-bit float apart into the three fields of its bit pattern, and
//! laying the fields out as a table for a terminal.
//!
//! ```text
//! [] [<------ exponent ------>] [<------ mantissa ------>]
//! 31 30 29 28 27 26 25 24 23 22 21 20 19 18 17 .. 0
//! ^
//! (sign)
//! ```
//!
//! The library works on the bit pattern; turning a float into its bit pattern
//! is left to the caller.

use vstd::prelude::*;
use vstd::arithmetic::power2::pow2;
use vstd::string::StringExecFns;
use colored::Colorize;

verus! {

/// The sign bit of a bit pattern: bit 31.
pub open spec fn sign_of(bits: u32) -> u8 {
    (bits / 0x8000_0000) as u8
}

/// The exponent byte of a bit pattern: bits 23 to 30.
pub open spec fn exponent_of(bits: u32) -> u8 {
    (bits / 0x80_0000 % 0x100) as u8
}

/// The mantissa of a bit pattern, bits 0 to 22, as three bytes, the most
/// significant first; the first one holds seven bits.
pub open spec fn mantissa_of(bits: u32) -> Seq<u8> {
    seq![(bits / 0x1_0000 % 0x80) as u8, (bits / 0x100 % 0x100) as u8, (bits % 0x100) as u8]
}

/// Whether bit `k` of `value` is set.
pub open spec fn bit(value: u32, k: int) -> bool {
    (value as int / pow2(k as nat) as int) % 2 == 1
}

/// The lowest `width` bits of `value` written as binary digits, the most
/// significant first.
pub open spec fn binary_text(value: u32, width: int) -> Seq<char> {
    Seq::new(
        width as nat,
        |i: int|
            if bit(value, width - 1 - i) {
                '1'
            } else {
                '0'
            },
    )
}

/// The mantissa bytes as twenty-three binary digits: seven for the first
/// byte and eight for each of the other two.
pub open spec fn mantissa_text_of(bits: u32) -> Seq<char> {
    binary_text(mantissa_of(bits)[0] as u32, 7) + binary_text(mantissa_of(bits)[1] as u32, 8)
        + binary_text(mantissa_of(bits)[2] as u32, 8)
}

/// A run of `n` zero digits.
pub open spec fn zeros(n: int) -> Seq<char> {
    Seq::new(n as nat, |i: int| '0')
}

/// The escape sequence that switches a terminal to a red background.
pub open spec fn red_background() -> Seq<char> {
    seq!['\u{1b}', '[', '4', '1', 'm']
}

/// The escape sequence that switches a terminal back to its defaults.
pub open spec fn reset() -> Seq<char> {
    seq!['\u{1b}', '[', '0', 'm']
}

/// Whether `painted` is `plain` as it may come back from highlighting: left
/// alone where colours are switched off, else set between the two escape
/// sequences. The opening sequence alone is missing where colours are
/// switched off while the text is being rendered.
pub open spec fn highlights(plain: Seq<char>, painted: Seq<char>) -> bool {
    ||| painted == plain
    ||| painted == red_background() + plain + reset()
    ||| painted == plain + reset()
}

/// The four rows of the table for a bit pattern, given the three fields as
/// they are to be shown: the whole pattern, then each field at its place in
/// a row of thirty-two digits that is zero elsewhere.
pub open spec fn table(
    bits: u32,
    sign: Seq<char>,
    exponent: Seq<char>,
    mantissa: Seq<char>,
) -> Seq<Seq<char>> {
    seq![
        "| input (bits) | "@ + binary_text(bits, 32) + " |"@,
        "| sign         | "@ + sign + zeros(31) + " |"@,
        "| exponent     | "@ + zeros(1) + exponent + zeros(23) + " |"@,
        "| mantissa     | "@ + zeros(9) + mantissa + " |"@,
    ]
}

/// Whether `rows` hold exactly the rows of `wanted`.
pub open spec fn shows(rows: Seq<String>, wanted: Seq<Seq<char>>) -> bool {
    &&& rows.len() == wanted.len()
    &&& forall|i: int| 0 <= i < rows.len() ==> (#[trigger] rows[i])@ == wanted[i]
}

/// The three fields of the bit pattern of a 32-bit float.
pub struct DeconstructedFloat32 {
    bits: u32,
    sign_bit: u8,
    exponent_byte: u8,
    mantissa_bytes: [u8; 3],
}

impl View for DeconstructedFloat32 {
    type V = u32;

    /// The bit pattern that was taken apart.
    closed spec fn view(&self) -> u32 {
        self.bits
    }
}

impl DeconstructedFloat32 {
    #[verifier::type_invariant]
    spec fn inv(self) -> bool {
        &&& self.sign_bit == sign_of(self.bits)
        &&& self.exponent_byte == exponent_of(self.bits)
        &&& self.mantissa_bytes@ == mantissa_of(self.bits)
    }

    /// Takes the bit pattern `bits` apart.
    pub fn new(bits: u32) -> (parts: DeconstructedFloat32)
        ensures
            parts@ == bits,
    {
        let sign: u32 = (bits & 0x8000_0000) >> 31;
        let exponent: u32 = (bits & 0x7F80_0000) >> 23;
        let mantissa: u32 = bits & 0x007F_FFFF;
        let high: u32 = mantissa >> 16;
        let middle: u32 = (mantissa >> 8) & 0xFF;
        let low: u32 = mantissa & 0xFF;
        assert(sign == bits / 0x8000_0000 && exponent == bits / 0x80_0000 % 0x100 && high == bits
            / 0x1_0000 % 0x80 && middle == bits / 0x100 % 0x100 && low == bits % 0x100 && sign
            < 2 && exponent < 256 && high < 128 && middle < 256 && low < 256) by (bit_vector)
            requires
                sign == (bits & 0x8000_0000) >> 31,
                exponent == (bits & 0x7F80_0000) >> 23,
                mantissa == bits & 0x007F_FFFF,
                high == mantissa >> 16,
                middle == (mantissa >> 8) & 0xFF,
                low == mantissa & 0xFF,
        ;
        let mantissa_bytes: [u8; 3] = [high as u8, middle as u8, low as u8];
        assert(mantissa_bytes@ =~= mantissa_of(bits));
        DeconstructedFloat32 {
            bits,
            sign_bit: sign as u8,
            exponent_byte: exponent as u8,
            mantissa_bytes,
        }
    }

    /// The bit pattern that was taken apart.
    pub fn bits(&self) -> (bits: u32)
        ensures
            bits == self@,
    {
        self.bits
    }

    /// The sign bit: 0 or 1.
    pub fn sign_bit(&self) -> (sign: u8)
        ensures
            sign == sign_of(self@),
            sign <= 1,
    {
        proof {
            use_type_invariant(self);
        }
        self.sign_bit
    }

    /// The exponent byte, bias included.
    pub fn exponent_byte(&self) -> (exponent: u8)
        ensures
            exponent == exponent_of(self@),
    {
        proof {
            use_type_invariant(self);
        }
        self.exponent_byte
    }

    /// The three mantissa bytes, the most significant first.
    pub fn mantissa_bytes(&self) -> (mantissa: [u8; 3])
        ensures
            mantissa@ == mantissa_of(self@),
            mantissa@[0] < 128,
    {
        proof {
            use_type_invariant(self);
        }
        self.mantissa_bytes
    }

    /// The sign bit as one binary digit.
    pub fn sign_text(&self) -> (text: String)
        ensures
            text@ == binary_text(sign_of(self@) as u32, 1),
    {
        binary_digits(self.sign_bit() as u32, 1)
    }

    /// The exponent byte as eight binary digits.
    pub fn exponent_text(&self) -> (text: String)
        ensures
            text@ == binary_text(exponent_of(self@) as u32, 8),
    {
        binary_digits(self.exponent_byte() as u32, 8)
    }

    /// The mantissa as twenty-three binary digits.
    pub fn mantissa_text(&self) -> (text: String)
        ensures
            text@ == mantissa_text_of(self@),
    {
        let m = self.mantissa_bytes();
        let mut text = binary_digits(m[0] as u32, 7);
        let middle = binary_digits(m[1] as u32, 8);
        let low = binary_digits(m[2] as u32, 8);
        text.append(middle.as_str());
        text.append(low.as_str());
        text
    }

    /// Lays out the table with the three fields shown as given.
    pub fn layout(&self, sign: &str, exponent: &str, mantissa: &str) -> (rows: Vec<String>)
        ensures
            shows(rows@, table(self@, sign@, exponent@, mantissa@)),
    {
        let mut whole = String::from_str("| input (bits) | ");
        whole.append(binary_digits(self.bits, 32).as_str());
        whole.append(" |");

        let mut sign_row = String::from_str("| sign         | ");
        sign_row.append(sign);
        sign_row.append(zero_digits(31).as_str());
        sign_row.append(" |");

        let mut exponent_row = String::from_str("| exponent     | ");
        exponent_row.append(zero_digits(1).as_str());
        exponent_row.append(exponent);
        exponent_row.append(zero_digits(23).as_str());
        exponent_row.append(" |");

        let mut mantissa_row = String::from_str("| mantissa     | ");
        mantissa_row.append(zero_digits(9).as_str());
        mantissa_row.append(mantissa);
        mantissa_row.append(" |");

        let mut rows: Vec<String> = Vec::new();
        rows.push(whole);
        rows.push(sign_row);
        rows.push(exponent_row);
        rows.push(mantissa_row);
        rows
    }

    /// The table with each field highlighted on a red background, as far as
    /// the terminal settings allow colours.
    pub fn report(&self) -> (rows: Vec<String>)
        ensures
            exists|sign: Seq<char>, exponent: Seq<char>, mantissa: Seq<char>|
                {
                    &&& highlights(binary_text(sign_of(self@) as u32, 1), sign)
                    &&& highlights(binary_text(exponent_of(self@) as u32, 8), exponent)
                    &&& highlights(mantissa_text_of(self@), mantissa)
                    &&& #[trigger] shows(rows@, table(self@, sign, exponent, mantissa))
                },
    {
        let sign_plain = self.sign_text();
        let exponent_plain = self.exponent_text();
        let mantissa_plain = self.mantissa_text();
        proof {
            lemma_digits_hold_no_escape(sign_of(self@) as u32, 1);
            lemma_digits_hold_no_escape(exponent_of(self@) as u32, 8);
            lemma_digits_hold_no_escape(mantissa_of(self@)[0] as u32, 7);
            lemma_digits_hold_no_escape(mantissa_of(self@)[1] as u32, 8);
            lemma_digits_hold_no_escape(mantissa_of(self@)[2] as u32, 8);
        }
        let sign = on_red(sign_plain.as_str());
        let exponent = on_red(exponent_plain.as_str());
        let mantissa = on_red(mantissa_plain.as_str());
        let rows = self.layout(sign.as_str(), exponent.as_str(), mantissa.as_str());
        assert(shows(rows@, table(self@, sign@, exponent@, mantissa@)));
        rows
    }
}

/// Renders `text` on a red background: `colored::Colorize::on_red`, written
/// out through the `Display` of the `ColoredString` that it returns. Not
/// verified. The crate consults the environment, the terminal and its own
/// override switch on whether to colour at all, so all that is claimed is
/// that the result has one of the forms of `highlights`. Text that already
/// holds an escape character is left out: the crate would rewrite reset
/// sequences inside it.
#[verifier::external_body]
fn on_red(text: &str) -> (painted: String)
    requires
        !text@.contains('\u{1b}'),
    ensures
        highlights(text@, painted@),
{
    format!("{}", text.on_red())
}

/// Writes the lowest `width` bits of `value` as binary digits, the most
/// significant first.
fn binary_digits(value: u32, width: u32) -> (text: String)
    requires
        width <= 32,
    ensures
        text@ == binary_text(value, width as int),
{
    let mut text = String::new();
    let mut i: u32 = 0;
    while i < width
        invariant
            i <= width <= 32,
            text@ == binary_text(value, width as int).take(i as int),
        decreases width - i,
    {
        let k: u32 = width - 1 - i;
        let set: bool = (value >> k) & 1 == 1;
        proof {
            lemma_bit_is_shift(value, k);
            reveal_strlit("1");
            reveal_strlit("0");
        }
        if set {
            text.append("1");
        } else {
            text.append("0");
        }
        assert(text@ =~= binary_text(value, width as int).take(i as int + 1));
        i += 1;
    }
    assert(binary_text(value, width as int).take(width as int) =~= binary_text(
        value,
        width as int,
    ));
    text
}

/// Writes `n` zero digits.
fn zero_digits(n: usize) -> (text: String)
    ensures
        text@ == zeros(n as int),
{
    let mut text = String::new();
    let mut i: usize = 0;
    while i < n
        invariant
            i <= n,
            text@ == zeros(i as int),
        decreases n - i,
    {
        proof {
            reveal_strlit("0");
        }
        text.append("0");
        assert(text@ =~= zeros(i as int + 1));
        i += 1;
    }
    text
}

/// Shifting right by `k` and masking with 1 reads bit `k`.
proof fn lemma_bit_is_shift(value: u32, k: u32)
    requires
        k < 32,
    ensures
        ((value >> k) & 1 == 1) == bit(value, k as int),
{
    let shifted = value >> k;
    assert(shifted & 1 == shifted % 2) by (bit_vector);
    vstd::bits::lemma_u32_shr_is_div(value, k);
}

/// Binary digits are zeros and ones, so none of them is an escape character.
proof fn lemma_digits_hold_no_escape(value: u32, width: int)
    requires
        0 <= width,
    ensures
        !binary_text(value, width).contains('\u{1b}'),
        forall|other: Seq<char>|
            !other.contains('\u{1b}') ==> !(#[trigger] (other + binary_text(value, width))).contains(
                '\u{1b}',
            ),
{
    let digits = binary_text(value, width);
    assert forall|i: int| 0 <= i < digits.len() implies digits[i] != '\u{1b}' by {}
    assert forall|other: Seq<char>| !other.contains('\u{1b}') implies !(#[trigger] (other
        + digits)).contains('\u{1b}') by {
        let joined = other + digits;
        if joined.contains('\u{1b}') {
            let i = choose|i: int| 0 <= i < joined.len() && joined[i] == '\u{1b}';
            if i < other.len() {
                assert(other[i] == '\u{1b}');
            } else {
                assert(digits[i - other.len()] == '\u{1b}');
            }
        }
    }
}

} // verus!
