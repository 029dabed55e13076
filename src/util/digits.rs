//! Writing numbers as text: lowercase hexadecimal and decimal.
use vstd::prelude::*;

verus! {

/// The character of a digit below 16: `0-9`, then `a-f`.
pub open spec fn digit_char(d: nat) -> char {
    if d == 0 { '0' } else if d == 1 { '1' } else if d == 2 { '2' } else if d == 3 { '3' }
    else if d == 4 { '4' } else if d == 5 { '5' } else if d == 6 { '6' } else if d == 7 { '7' }
    else if d == 8 { '8' } else if d == 9 { '9' } else if d == 10 { 'a' } else if d == 11 { 'b' }
    else if d == 12 { 'c' } else if d == 13 { 'd' } else if d == 14 { 'e' } else { 'f' }
}

/// The lowercase hexadecimal digits of `v`, most significant first,
/// without leading zeros (`0` is one digit).
pub open spec fn hex_digits(v: nat) -> Seq<char>
    decreases v,
{
    if v < 16 {
        seq![digit_char(v)]
    } else {
        hex_digits(v / 16).push(digit_char(v % 16))
    }
}

/// The decimal digits of `v`, most significant first, without leading
/// zeros (`0` is one digit).
pub open spec fn decimal(v: nat) -> Seq<char>
    decreases v,
{
    if v < 10 {
        seq![digit_char(v)]
    } else {
        decimal(v / 10).push(digit_char(v % 10))
    }
}

/// `s` with zeros put in front until it is `width` long.
pub open spec fn zero_pad(s: Seq<char>, width: nat) -> Seq<char> {
    if s.len() >= width {
        s
    } else {
        Seq::new((width - s.len()) as nat, |i: int| '0') + s
    }
}

/// The character of a digit below 16 in uppercase hexadecimal.
pub open spec fn upper_digit_char(d: nat) -> char {
    if d == 10 { 'A' } else if d == 11 { 'B' } else if d == 12 { 'C' } else if d == 13 { 'D' }
    else if d == 14 { 'E' } else if d == 15 { 'F' } else { digit_char(d) }
}

/// The uppercase hexadecimal digits of `v`, without leading zeros.
pub open spec fn upper_hex_digits(v: nat) -> Seq<char>
    decreases v,
{
    if v < 16 {
        seq![upper_digit_char(v)]
    } else {
        upper_hex_digits(v / 16).push(upper_digit_char(v % 16))
    }
}

/// Decimal of `v`, with a minus sign when it is negative.
pub open spec fn signed_decimal(v: int) -> Seq<char> {
    if v < 0 {
        "-"@ + decimal((-v) as nat)
    } else {
        decimal(v as nat)
    }
}

/// `true` or `false`.
pub open spec fn bool_text(b: bool) -> Seq<char> {
    if b {
        "true"@
    } else {
        "false"@
    }
}

/// Lowercase hexadecimal of `v`, at least `width` digits.
pub open spec fn hex(v: nat, width: nat) -> Seq<char> {
    zero_pad(hex_digits(v), width)
}

fn digit_str(d: u64) -> (r: &'static str)
    requires
        d < 16,
    ensures
        r@ == seq![digit_char(d as nat)],
{
    proof {
        reveal_strlit("0");
        reveal_strlit("1");
        reveal_strlit("2");
        reveal_strlit("3");
        reveal_strlit("4");
        reveal_strlit("5");
        reveal_strlit("6");
        reveal_strlit("7");
        reveal_strlit("8");
        reveal_strlit("9");
        reveal_strlit("a");
        reveal_strlit("b");
        reveal_strlit("c");
        reveal_strlit("d");
        reveal_strlit("e");
        reveal_strlit("f");
    }
    let r = match d {
        0 => "0",
        1 => "1",
        2 => "2",
        3 => "3",
        4 => "4",
        5 => "5",
        6 => "6",
        7 => "7",
        8 => "8",
        9 => "9",
        10 => "a",
        11 => "b",
        12 => "c",
        13 => "d",
        14 => "e",
        _ => "f",
    };
    assert(r@ =~= seq![digit_char(d as nat)]);
    r
}

fn upper_digit_str(d: u64) -> (r: &'static str)
    requires
        d < 16,
    ensures
        r@ == seq![upper_digit_char(d as nat)],
{
    if d < 10 {
        digit_str(d)
    } else {
        proof {
            reveal_strlit("A");
            reveal_strlit("B");
            reveal_strlit("C");
            reveal_strlit("D");
            reveal_strlit("E");
            reveal_strlit("F");
        }
        let r = match d {
            10 => "A",
            11 => "B",
            12 => "C",
            13 => "D",
            14 => "E",
            _ => "F",
        };
        assert(r@ =~= seq![upper_digit_char(d as nat)]);
        r
    }
}

/// Appends `v` in uppercase hexadecimal.
pub fn push_upper_hex(s: &mut String, v: u64)
    ensures
        final(s)@ == old(s)@ + upper_hex_digits(v as nat),
    decreases v,
{
    if v >= 16 {
        push_upper_hex(s, v / 16);
    }
    s.append(upper_digit_str(v % 16));
    assert(final(s)@ =~= old(s)@ + upper_hex_digits(v as nat));
}

/// Appends `v` in decimal, with a minus sign when it is negative.
pub fn push_signed(s: &mut String, v: i64)
    ensures
        final(s)@ == old(s)@ + signed_decimal(v as int),
{
    if v < 0 {
        s.append("-");
        let m: u64 = (-(v + 1)) as u64 + 1;
        push_decimal(s, m);
        assert(final(s)@ =~= old(s)@ + signed_decimal(v as int));
    } else {
        push_decimal(s, v as u64);
    }
}

/// Appends `true` or `false`.
pub fn push_bool(s: &mut String, b: bool)
    ensures
        final(s)@ == old(s)@ + bool_text(b),
{
    if b {
        s.append("true");
    } else {
        s.append("false");
    }
}

fn push_hex_digits(s: &mut String, v: u64)
    ensures
        final(s)@ == old(s)@ + hex_digits(v as nat),
    decreases v,
{
    if v >= 16 {
        push_hex_digits(s, v / 16);
    }
    s.append(digit_str(v % 16));
    assert(final(s)@ =~= old(s)@ + hex_digits(v as nat));
}

fn hex_digit_count(v: u64) -> (n: u64)
    ensures
        n == hex_digits(v as nat).len(),
        n <= v + 1,
    decreases v,
{
    if v >= 16 {
        hex_digit_count(v / 16) + 1
    } else {
        1
    }
}

/// Appends `v` in lowercase hexadecimal, padded with zeros to `width` digits.
pub fn push_hex(s: &mut String, v: u64, width: u64)
    ensures
        final(s)@ == old(s)@ + hex(v as nat, width as nat),
{
    let n = hex_digit_count(v);
    let ghost start = s@;
    let mut k: u64 = n;
    while k < width
        invariant
            n <= k,
            n < width ==> k <= width,
            n >= width ==> k == n,
            s@ == start + Seq::new((k - n) as nat, |i: int| '0'),
        decreases width - k,
    {
        proof {
            reveal_strlit("0");
        }
        s.append("0");
        k = k + 1;
        assert(s@ =~= start + Seq::new((k - n) as nat, |i: int| '0'));
    }
    let ghost zeros = Seq::new((k - n) as nat, |i: int| '0');
    assert(k == if n < width { width } else { n });
    push_hex_digits(s, v);
    assert(s@ =~= start + (zeros + hex_digits(v as nat)));
    if n < width {
        assert(zeros + hex_digits(v as nat) =~= hex(v as nat, width as nat));
    } else {
        assert(zeros + hex_digits(v as nat) =~= hex(v as nat, width as nat));
    }
}

/// Appends `v` in decimal.
pub fn push_decimal(s: &mut String, v: u64)
    ensures
        final(s)@ == old(s)@ + decimal(v as nat),
    decreases v,
{
    if v >= 10 {
        push_decimal(s, v / 10);
    }
    s.append(digit_str(v % 10));
    assert(final(s)@ =~= old(s)@ + decimal(v as nat));
}

} // verus!
