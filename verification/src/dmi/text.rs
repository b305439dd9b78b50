use vstd::prelude::*;

verus! {

/// The character of one digit in base sixteen, lower case.  Digits
/// below ten are the decimal digits.
pub open spec fn spec_digit(d: nat) -> char {
    if d == 0 {
        '0'
    } else if d == 1 {
        '1'
    } else if d == 2 {
        '2'
    } else if d == 3 {
        '3'
    } else if d == 4 {
        '4'
    } else if d == 5 {
        '5'
    } else if d == 6 {
        '6'
    } else if d == 7 {
        '7'
    } else if d == 8 {
        '8'
    } else if d == 9 {
        '9'
    } else if d == 10 {
        'a'
    } else if d == 11 {
        'b'
    } else if d == 12 {
        'c'
    } else if d == 13 {
        'd'
    } else if d == 14 {
        'e'
    } else {
        'f'
    }
}

/// The decimal numeral of `n`, without leading zeros.
pub open spec fn spec_decimal(n: nat) -> Seq<char>
    decreases n,
{
    if n < 10 {
        seq![spec_digit(n)]
    } else {
        spec_decimal(n / 10).push(spec_digit(n % 10))
    }
}

/// The hexadecimal numeral of `n`, lower case, without leading zeros.
pub open spec fn spec_hex(n: nat) -> Seq<char>
    decreases n,
{
    if n < 16 {
        seq![spec_digit(n)]
    } else {
        spec_hex(n / 16).push(spec_digit(n % 16))
    }
}

/// The two lower-case hexadecimal digits of a byte.
#[verifier::opaque]
pub open spec fn spec_hex_byte(b: u8) -> Seq<char> {
    seq![spec_digit(b as nat / 16), spec_digit(b as nat % 16)]
}

/// The value of `n` bytes of `s` from index `at` on, the first byte
/// being the least significant.
pub open spec fn spec_le(s: Seq<u8>, at: int, n: nat) -> nat
    decreases n,
{
    if n == 0 {
        0
    } else {
        s[at] as nat + 256 * spec_le(s, at + 1, (n - 1) as nat)
    }
}

/// The character that a byte of a firmware string stands for: the code
/// point of the same number.
pub open spec fn spec_byte_char(b: u8) -> char {
    b as char
}

/// Appends one character with `String::push`, which adds the given
/// character at the end and leaves the rest untouched.
#[verifier::external_body]
pub(crate) fn push_char(f: &mut String, c: char)
    ensures
        final(f)@ == old(f)@.push(c),
{
    f.push(c);
}

/// The character of a digit below sixteen.
pub fn digit_char(d: u8) -> (c: char)
    requires
        d < 16,
    ensures
        c == spec_digit(d as nat),
{
    if d == 0 {
        '0'
    } else if d == 1 {
        '1'
    } else if d == 2 {
        '2'
    } else if d == 3 {
        '3'
    } else if d == 4 {
        '4'
    } else if d == 5 {
        '5'
    } else if d == 6 {
        '6'
    } else if d == 7 {
        '7'
    } else if d == 8 {
        '8'
    } else if d == 9 {
        '9'
    } else if d == 10 {
        'a'
    } else if d == 11 {
        'b'
    } else if d == 12 {
        'c'
    } else if d == 13 {
        'd'
    } else if d == 14 {
        'e'
    } else {
        'f'
    }
}

/// Appends the decimal numeral of `n`.
pub fn push_decimal(f: &mut String, n: u64)
    ensures
        final(f)@ == old(f)@ + spec_decimal(n as nat),
    decreases n,
{
    if n >= 10 {
        push_decimal(f, n / 10);
    }
    let d: u8 = (n % 10) as u8;
    push_char(f, digit_char(d));
    assert(final(f)@ =~= old(f)@ + spec_decimal(n as nat));
}

/// Appends the hexadecimal numeral of `n`.
pub fn push_hex(f: &mut String, n: u64)
    ensures
        final(f)@ == old(f)@ + spec_hex(n as nat),
    decreases n,
{
    if n >= 16 {
        push_hex(f, n / 16);
    }
    let d: u8 = (n % 16) as u8;
    push_char(f, digit_char(d));
    assert(final(f)@ =~= old(f)@ + spec_hex(n as nat));
}

/// Appends the two hexadecimal digits of `b`.
pub fn push_hex_byte(f: &mut String, b: u8)
    ensures
        final(f)@ == old(f)@ + spec_hex_byte(b),
{
    reveal(spec_hex_byte);
    push_char(f, digit_char(b / 16));
    push_char(f, digit_char(b % 16));
    assert(final(f)@ =~= old(f)@ + spec_hex_byte(b));
}

/// The 16-bit value of two bytes, low byte first.
pub fn le16(bytes: &[u8], at: usize) -> (r: u16)
    requires
        at + 2 <= bytes@.len(),
    ensures
        r as nat == spec_le(bytes@, at as int, 2),
{
    reveal_with_fuel(spec_le, 3);
    let b0: u16 = bytes[at] as u16;
    let b1: u16 = bytes[at + 1] as u16;
    b0 + b1 * 256
}

/// The 32-bit value of four bytes, low byte first.
pub fn le32(bytes: &[u8], at: usize) -> (r: u32)
    requires
        at + 4 <= bytes@.len(),
    ensures
        r as nat == spec_le(bytes@, at as int, 4),
{
    reveal_with_fuel(spec_le, 5);
    let b0: u32 = bytes[at] as u32;
    let b1: u32 = bytes[at + 1] as u32;
    let b2: u32 = bytes[at + 2] as u32;
    let b3: u32 = bytes[at + 3] as u32;
    b0 + b1 * 0x100 + b2 * 0x1_0000 + b3 * 0x100_0000
}

/// The 64-bit value of eight bytes, low byte first.
pub fn le64(bytes: &[u8], at: usize) -> (r: u64)
    requires
        at + 8 <= bytes@.len(),
    ensures
        r as nat == spec_le(bytes@, at as int, 8),
{
    reveal_with_fuel(spec_le, 9);
    let n: usize = bytes.len();
    let lo: u64 = le32(bytes, at) as u64;
    let hi: u64 = le32(bytes, at + 4) as u64;
    lo + hi * 0x1_0000_0000
}

} // verus!
