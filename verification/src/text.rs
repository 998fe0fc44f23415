//! Building text: hex digits, decimal numbers and quoted words.

use vstd::prelude::*;
use vstd::string::StringExecFns;

verus! {

/// The digit for a value below 16, with the letters in upper or lower case.
pub open spec fn digit_char(v: int, upper: bool) -> char {
    if v == 0 {
        '0'
    } else if v == 1 {
        '1'
    } else if v == 2 {
        '2'
    } else if v == 3 {
        '3'
    } else if v == 4 {
        '4'
    } else if v == 5 {
        '5'
    } else if v == 6 {
        '6'
    } else if v == 7 {
        '7'
    } else if v == 8 {
        '8'
    } else if v == 9 {
        '9'
    } else if v == 10 {
        if upper { 'A' } else { 'a' }
    } else if v == 11 {
        if upper { 'B' } else { 'b' }
    } else if v == 12 {
        if upper { 'C' } else { 'c' }
    } else if v == 13 {
        if upper { 'D' } else { 'd' }
    } else if v == 14 {
        if upper { 'E' } else { 'e' }
    } else {
        if upper { 'F' } else { 'f' }
    }
}

/// A byte as two hex digits, high nibble first.
pub open spec fn byte_hex(b: u8, upper: bool) -> Seq<char> {
    seq![digit_char(b as int / 16, upper), digit_char(b as int % 16, upper)]
}

/// A 16-bit value as four hex digits.
pub open spec fn word_hex(w: u16, upper: bool) -> Seq<char> {
    byte_hex((w / 256) as u8, upper) + byte_hex((w % 256) as u8, upper)
}

/// A 32-bit value as eight hex digits.
pub open spec fn long_hex(v: u32, upper: bool) -> Seq<char> {
    word_hex((v / 65536) as u16, upper) + word_hex((v % 65536) as u16, upper)
}

/// The first `n` bytes, each as two lower-case hex digits.
pub open spec fn bytes_hex(bytes: Seq<u8>, n: nat) -> Seq<char>
    decreases n,
{
    if n == 0 {
        Seq::empty()
    } else {
        bytes_hex(bytes, (n - 1) as nat) + byte_hex(bytes[n - 1], false)
    }
}

/// A natural number in decimal, without leading zeros.
pub open spec fn decimal(n: nat) -> Seq<char>
    decreases n,
{
    if n < 10 {
        seq![digit_char(n as int, true)]
    } else {
        decimal(n / 10) + seq![digit_char((n % 10) as int, true)]
    }
}

/// An integer in decimal, with a minus sign where it is negative.
pub open spec fn signed_decimal(value: int) -> Seq<char> {
    if value < 0 {
        seq!['-'] + decimal((-value) as nat)
    } else {
        decimal(value as nat)
    }
}

/// The digits of a list of values below 10, last value first.
pub open spec fn digits_backwards(digits: Seq<u8>) -> Seq<char> {
    Seq::new(digits.len(), |i: int| digit_char(digits[digits.len() - 1 - i] as int, true))
}

fn digit_text(v: u8, upper: bool) -> (r: &'static str)
    requires
        v < 16,
    ensures
        r@ == seq![digit_char(v as int, upper)],
{
    proof {
        reveal_strlit("0");
        reveal_strlit("1");
        reveal_strlit("2");
        reveal_strlit("3");
        reveal_strlit("4");
        reveal_strlit("5");
        reveal_strlit("6");
        reveal_strlit("7");
        reveal_strlit("8");
        reveal_strlit("9");
        reveal_strlit("A");
        reveal_strlit("B");
        reveal_strlit("C");
        reveal_strlit("D");
        reveal_strlit("E");
        reveal_strlit("F");
        reveal_strlit("a");
        reveal_strlit("b");
        reveal_strlit("c");
        reveal_strlit("d");
        reveal_strlit("e");
        reveal_strlit("f");
    }
    let r = if v == 0 {
        "0"
    } else if v == 1 {
        "1"
    } else if v == 2 {
        "2"
    } else if v == 3 {
        "3"
    } else if v == 4 {
        "4"
    } else if v == 5 {
        "5"
    } else if v == 6 {
        "6"
    } else if v == 7 {
        "7"
    } else if v == 8 {
        "8"
    } else if v == 9 {
        "9"
    } else if v == 10 {
        if upper { "A" } else { "a" }
    } else if v == 11 {
        if upper { "B" } else { "b" }
    } else if v == 12 {
        if upper { "C" } else { "c" }
    } else if v == 13 {
        if upper { "D" } else { "d" }
    } else if v == 14 {
        if upper { "E" } else { "e" }
    } else {
        if upper { "F" } else { "f" }
    };
    assert(r@ =~= seq![digit_char(v as int, upper)]);
    r
}

/// Appends a byte as two hex digits.
pub fn push_byte_hex(out: &mut String, b: u8, upper: bool)
    ensures
        final(out)@ == old(out)@ + byte_hex(b, upper),
{
    out.append(digit_text(b / 16, upper));
    out.append(digit_text(b % 16, upper));
    assert(out@ =~= old(out)@ + byte_hex(b, upper));
}

/// Appends a 16-bit value as four hex digits.
pub fn push_word_hex(out: &mut String, w: u16, upper: bool)
    ensures
        final(out)@ == old(out)@ + word_hex(w, upper),
{
    push_byte_hex(out, (w / 256) as u8, upper);
    push_byte_hex(out, (w % 256) as u8, upper);
    assert(out@ =~= old(out)@ + word_hex(w, upper));
}

/// Appends a 32-bit value as eight hex digits.
pub fn push_long_hex(out: &mut String, v: u32, upper: bool)
    ensures
        final(out)@ == old(out)@ + long_hex(v, upper),
{
    push_word_hex(out, (v / 65536) as u16, upper);
    push_word_hex(out, (v % 65536) as u16, upper);
    assert(out@ =~= old(out)@ + long_hex(v, upper));
}

/// Appends bytes as lower-case hex digits, two for each byte.
pub fn push_bytes_hex(out: &mut String, bytes: &[u8])
    ensures
        final(out)@ == old(out)@ + bytes_hex(bytes@, bytes@.len()),
{
    let mut i: usize = 0;
    assert(out@ =~= old(out)@ + bytes_hex(bytes@, 0));
    while i < bytes.len()
        invariant
            i <= bytes@.len(),
            out@ == old(out)@ + bytes_hex(bytes@, i as nat),
        decreases bytes@.len() - i,
    {
        push_byte_hex(out, bytes[i], false);
        assert(out@ =~= old(out)@ + bytes_hex(bytes@, (i + 1) as nat));
        i += 1;
    }
}

/// Appends an integer in decimal.
pub fn push_decimal(out: &mut String, value: i32)
    ensures
        final(out)@ == old(out)@ + signed_decimal(value as int),
{
    let wide: i64 = value as i64;
    let start: u64 = if wide < 0 {
        out.append("-");
        (-wide) as u64
    } else {
        wide as u64
    };
    proof {
        reveal_strlit("-");
    }
    let ghost sign = if wide < 0 {
        seq!['-']
    } else {
        Seq::<char>::empty()
    };
    assert(out@ =~= old(out)@ + sign);
    let mut digits: Vec<u8> = Vec::new();
    digits.push((start % 10) as u8);
    let mut rest: u64 = start / 10;
    assert(decimal(start as nat) =~= (if rest == 0 {
        Seq::<char>::empty()
    } else {
        decimal(rest as nat)
    }) + digits_backwards(digits@));
    while rest > 0
        invariant
            out@ == old(out)@ + sign,
            digits@.len() > 0,
            forall|k: int| 0 <= k < digits@.len() ==> digits@[k] < 10,
            decimal(start as nat) == (if rest == 0 {
                Seq::<char>::empty()
            } else {
                decimal(rest as nat)
            }) + digits_backwards(digits@),
        decreases rest,
    {
        let ghost before = digits@;
        digits.push((rest % 10) as u8);
        assert(digits_backwards(digits@) =~= seq![digit_char((rest % 10) as int, true)]
            + digits_backwards(before));
        assert(decimal(rest as nat) =~= (if rest / 10 == 0 {
            Seq::<char>::empty()
        } else {
            decimal((rest / 10) as nat)
        }) + seq![digit_char((rest % 10) as int, true)]);
        rest = rest / 10;
    }
    assert(decimal(start as nat) =~= digits_backwards(digits@));
    let n: usize = digits.len();
    let mut i: usize = 0;
    assert(out@ =~= old(out)@ + sign + digits_backwards(digits@).subrange(0, 0));
    while i < n
        invariant
            n == digits@.len(),
            i <= n,
            forall|k: int| 0 <= k < digits@.len() ==> digits@[k] < 10,
            out@ == old(out)@ + sign + digits_backwards(digits@).subrange(0, i as int),
        decreases n - i,
    {
        out.append(digit_text(digits[n - 1 - i], true));
        assert(out@ =~= old(out)@ + sign + digits_backwards(digits@).subrange(0, i + 1));
        i += 1;
    }
    assert(digits_backwards(digits@).subrange(0, n as int) =~= digits_backwards(digits@));
    assert(out@ =~= old(out)@ + signed_decimal(value as int));
}

} // verus!
