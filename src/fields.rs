//! The four fields of a table cell: the code point in octal, decimal and
//! hexadecimal, and left-justified padding to a fixed width.

use vstd::prelude::*;

verus! {

/// The digit of value `d` in bases up to 16, with lower-case letters.
pub open spec fn digit_char(d: int) -> char {
    if d == 0 {
        '0'
    } else if d == 1 {
        '1'
    } else if d == 2 {
        '2'
    } else if d == 3 {
        '3'
    } else if d == 4 {
        '4'
    } else if d == 5 {
        '5'
    } else if d == 6 {
        '6'
    } else if d == 7 {
        '7'
    } else if d == 8 {
        '8'
    } else if d == 9 {
        '9'
    } else if d == 10 {
        'a'
    } else if d == 11 {
        'b'
    } else if d == 12 {
        'c'
    } else if d == 13 {
        'd'
    } else if d == 14 {
        'e'
    } else {
        'f'
    }
}

/// `i` as exactly three octal digits, zero-padded.
pub open spec fn octal_text(i: int) -> Seq<char> {
    seq![digit_char(i / 64), digit_char(i / 8 % 8), digit_char(i % 8)]
}

/// `n` in base 10, without leading zeros.
pub open spec fn decimal_text(n: nat) -> Seq<char>
    decreases n,
{
    if n < 10 {
        seq![digit_char(n as int)]
    } else {
        decimal_text(n / 10).push(digit_char(n as int % 10))
    }
}

/// `i` as exactly two lower-case hexadecimal digits, zero-padded.
pub open spec fn hex_text(i: int) -> Seq<char> {
    seq![digit_char(i / 16), digit_char(i % 16)]
}

/// `n` spaces.
pub open spec fn spaces(n: nat) -> Seq<char> {
    Seq::new(n, |_k: int| ' ')
}

/// `s` left-justified in a field of `width` characters: followed by spaces up
/// to that width, or unchanged where it is already as long.
pub open spec fn padded(s: Seq<char>, width: nat) -> Seq<char> {
    if s.len() >= width {
        s
    } else {
        s + spaces((width - s.len()) as nat)
    }
}

/// The one-character text of digit `d`.
fn digit_str(d: usize) -> (r: &'static str)
    requires
        d < 16,
    ensures
        r@ == seq![digit_char(d as int)],
{
    proof {
        reveal_strlit("0");
        reveal_strlit("1");
        reveal_strlit("2");
        reveal_strlit("3");
        reveal_strlit("4");
        reveal_strlit("5");
        reveal_strlit("6");
        reveal_strlit("7");
        reveal_strlit("8");
        reveal_strlit("9");
        reveal_strlit("a");
        reveal_strlit("b");
        reveal_strlit("c");
        reveal_strlit("d");
        reveal_strlit("e");
        reveal_strlit("f");
    }
    let r = match d {
        0 => "0",
        1 => "1",
        2 => "2",
        3 => "3",
        4 => "4",
        5 => "5",
        6 => "6",
        7 => "7",
        8 => "8",
        9 => "9",
        10 => "a",
        11 => "b",
        12 => "c",
        13 => "d",
        14 => "e",
        _ => "f",
    };
    assert(r@ =~= seq![digit_char(d as int)]);
    r
}

/// The octal field of code point `i`: three digits, zero-padded.
pub fn octal_field(i: usize) -> (r: String)
    requires
        i < 512,
    ensures
        r@ == octal_text(i as int),
{
    let mut r = String::new();
    r.append(digit_str(i / 64));
    r.append(digit_str(i / 8 % 8));
    r.append(digit_str(i % 8));
    assert(r@ =~= octal_text(i as int));
    r
}

/// The decimal field of code point `i`: its base-10 digits.
pub fn decimal_field(i: usize) -> (r: String)
    ensures
        r@ == decimal_text(i as nat),
{
    let mut q = i;
    let mut tail = String::new();
    while q >= 10
        invariant
            decimal_text(i as nat) == decimal_text(q as nat) + tail@,
        decreases q,
    {
        let d = digit_str(q % 10);
        let ghost old_tail = tail@;
        tail = String::from_str(d).concat(tail.as_str());
        assert(decimal_text(q as nat) == decimal_text((q / 10) as nat).push(digit_char(q as int % 10)));
        assert(decimal_text(q as nat) + old_tail =~= decimal_text((q / 10) as nat) + tail@);
        q = q / 10;
    }
    let r = String::from_str(digit_str(q)).concat(tail.as_str());
    assert(decimal_text(q as nat) == seq![digit_char(q as int)]);
    assert(r@ =~= decimal_text(i as nat));
    r
}

/// The hexadecimal field of code point `i`: two lower-case digits, zero-padded.
pub fn hex_field(i: usize) -> (r: String)
    requires
        i < 256,
    ensures
        r@ == hex_text(i as int),
{
    let mut r = String::new();
    r.append(digit_str(i / 16));
    r.append(digit_str(i % 16));
    assert(r@ =~= hex_text(i as int));
    r
}

/// `s` left-justified in a field of `width` characters.
pub fn pad(s: &str, width: usize) -> (r: String)
    ensures
        r@ == padded(s@, width as nat),
{
    let len = s.unicode_len();
    let mut r = String::from_str(s);
    let mut k: usize = len;
    assert(r@ =~= s@ + spaces(0));
    while k < width
        invariant
            len == s@.len(),
            len <= k,
            len < width ==> k <= width,
            len >= width ==> k == len,
            r@ == s@ + spaces((k - len) as nat),
        decreases width - k,
    {
        proof {
            reveal_strlit(" ");
        }
        r.append(" ");
        assert(r@ =~= s@ + spaces((k + 1 - len) as nat));
        k = k + 1;
    }
    assert(r@ =~= padded(s@, width as nat));
    r
}

} // verus!
