//! Text: decimal notation for fixed-point values, padding to a width, and
//! comparison of texts.

use vstd::prelude::*;
use crate::fixed::{absolute, magnitude, pow10, power_of_ten};

verus! {

/// The character that writes the digit `d`.
pub open spec fn digit_char(d: int) -> char {
    if d == 0 {
        '0'
    } else if d == 1 {
        '1'
    } else if d == 2 {
        '2'
    } else if d == 3 {
        '3'
    } else if d == 4 {
        '4'
    } else if d == 5 {
        '5'
    } else if d == 6 {
        '6'
    } else if d == 7 {
        '7'
    } else if d == 8 {
        '8'
    } else {
        '9'
    }
}

/// The decimal digits of `n`, without leading zeros; `0` is written "0".
pub open spec fn digits(n: nat) -> Seq<char>
    decreases n,
{
    if n < 10 {
        seq![digit_char(n as int)]
    } else {
        digits(n / 10).push(digit_char((n % 10) as int))
    }
}

/// The last `width` decimal digits of `n`, with leading zeros.
pub open spec fn padded_digits(n: nat, width: nat) -> Seq<char>
    decreases width,
{
    if width == 0 {
        Seq::empty()
    } else {
        padded_digits(n / 10, (width - 1) as nat).push(digit_char((n % 10) as int))
    }
}

/// How many fractional digits are written when `places` are asked for: a
/// value has nine, and no more are ever written.
pub open spec fn shown_places(places: u8) -> nat {
    if places <= 9 {
        places as nat
    } else {
        9
    }
}

/// The distance of `v` billionths from zero, in steps of `10^-places`, rounded
/// to the nearest step and away from zero where two are equally near.
pub open spec fn rounded(v: int, places: nat) -> nat
    recommends
        places <= 9,
{
    let step = pow10((9 - places) as nat);
    (magnitude(v) + step / 2) / step
}

/// The sign written before a value that is `steps` away from zero once
/// rounded: a minus for a negative value that does not round to zero, else a
/// plus where one is asked for, else nothing.
pub open spec fn sign_text(v: int, steps: nat, plus: bool) -> Seq<char> {
    if v < 0 && steps > 0 {
        seq!['-']
    } else if plus {
        seq!['+']
    } else {
        Seq::empty()
    }
}

/// `v` billionths in decimal notation with `places` fractional digits (at
/// most nine).
pub open spec fn decimal_text(v: int, places: nat, plus: bool) -> Seq<char>
    recommends
        places <= 9,
{
    let steps = rounded(v, places);
    let whole = digits(steps / pow10(places));
    if places == 0 {
        sign_text(v, steps, plus) + whole
    } else {
        sign_text(v, steps, plus) + whole + seq!['.'] + padded_digits(steps % pow10(places), places)
    }
}

/// `n` spaces.
pub open spec fn spaces(n: nat) -> Seq<char> {
    Seq::new(n, |i: int| ' ')
}

/// `text` behind as many spaces as bring it to `width` characters; a longer
/// text as it is.
pub open spec fn padded_start(text: Seq<char>, width: nat) -> Seq<char> {
    if text.len() >= width {
        text
    } else {
        spaces((width - text.len()) as nat) + text
    }
}

/// `text` ahead of as many spaces as bring it to `width` characters; a longer
/// text as it is.
pub open spec fn padded_end(text: Seq<char>, width: nat) -> Seq<char> {
    if text.len() >= width {
        text
    } else {
        text + spaces((width - text.len()) as nat)
    }
}

/// The texts that a vector of strings holds.
pub open spec fn texts(strings: Seq<String>) -> Seq<Seq<char>> {
    strings.map_values(|s: String| s@)
}

/// `part` occurs in `text`.
pub open spec fn occurs_in(part: Seq<char>, text: Seq<char>) -> bool {
    exists|i: int|
        0 <= i <= text.len() - part.len() && #[trigger] text.subrange(i, i + part.len()) == part
}

/// The digit `d` as a text of one character.
fn digit_text(d: u64) -> (r: &'static str)
    requires
        d < 10,
    ensures
        r@ == seq![digit_char(d as int)],
{
    proof {
        reveal_strlit("0");
        reveal_strlit("1");
        reveal_strlit("2");
        reveal_strlit("3");
        reveal_strlit("4");
        reveal_strlit("5");
        reveal_strlit("6");
        reveal_strlit("7");
        reveal_strlit("8");
        reveal_strlit("9");
    }
    let r = match d {
        0 => "0",
        1 => "1",
        2 => "2",
        3 => "3",
        4 => "4",
        5 => "5",
        6 => "6",
        7 => "7",
        8 => "8",
        _ => "9",
    };
    assert(r@ =~= seq![digit_char(d as int)]);
    r
}

/// Writes the decimal digits of `n` at the end of `out`.
pub fn append_digits(out: &mut String, n: u64)
    ensures
        final(out)@ == old(out)@ + digits(n as nat),
    decreases n,
{
    if n >= 10 {
        append_digits(out, n / 10);
    }
    out.append(digit_text(n % 10));
    assert(out@ =~= old(out)@ + digits(n as nat));
}

/// Writes the last `width` decimal digits of `n` at the end of `out`.
pub fn append_padded_digits(out: &mut String, n: u64, width: u8)
    ensures
        final(out)@ == old(out)@ + padded_digits(n as nat, width as nat),
    decreases width,
{
    if width > 0 {
        append_padded_digits(out, n / 10, width - 1);
        out.append(digit_text(n % 10));
    }
    assert(out@ =~= old(out)@ + padded_digits(n as nat, width as nat));
}

/// Writes `count` spaces at the end of `out`.
pub fn append_spaces(out: &mut String, count: usize)
    ensures
        final(out)@ == old(out)@ + spaces(count as nat),
{
    let mut i: usize = 0;
    while i < count
        invariant
            i <= count,
            out@ == old(out)@ + spaces(i as nat),
        decreases count - i,
    {
        proof {
            reveal_strlit(" ");
        }
        out.append(" ");
        i += 1;
        assert(out@ =~= old(out)@ + spaces(i as nat));
    }
    assert(out@ =~= old(out)@ + spaces(count as nat));
}

/// `v` billionths in decimal notation with `places` fractional digits, nine
/// at most, rounded to the nearest and away from zero where two are equally
/// near; with `plus`, a value that is not written with a minus gets a plus.
pub fn format_decimal(v: i64, places: u8, plus: bool) -> (r: String)
    ensures
        r@ == decimal_text(v as int, shown_places(places), plus),
{
    let p: u8 = if places <= 9 { places } else { 9 };
    let step: u64 = power_of_ten(9 - p);
    let unit: u64 = power_of_ten(p);
    let steps: u64 = (absolute(v) + step / 2) / step;
    let mut out = String::new();
    proof {
        reveal_strlit("-");
        reveal_strlit("+");
        reveal_strlit(".");
    }
    if v < 0 && steps > 0 {
        out.append("-");
    } else if plus {
        out.append("+");
    }
    assert(out@ =~= sign_text(v as int, steps as nat, plus));
    append_digits(&mut out, steps / unit);
    if p > 0 {
        out.append(".");
        append_padded_digits(&mut out, steps % unit, p);
    }
    assert(out@ =~= decimal_text(v as int, shown_places(places), plus));
    out
}

/// `text` behind as many spaces as bring it to `width` characters.
pub fn pad_start(text: &str, width: usize) -> (r: String)
    ensures
        r@ == padded_start(text@, width as nat),
{
    let len: usize = text.unicode_len();
    let mut out = String::new();
    if len < width {
        append_spaces(&mut out, width - len);
    }
    out.append(text);
    assert(out@ =~= padded_start(text@, width as nat));
    out
}

/// `text` ahead of as many spaces as bring it to `width` characters.
pub fn pad_end(text: &str, width: usize) -> (r: String)
    ensures
        r@ == padded_end(text@, width as nat),
{
    let len: usize = text.unicode_len();
    let mut out = String::from_str(text);
    if len < width {
        append_spaces(&mut out, width - len);
    }
    assert(out@ =~= padded_end(text@, width as nat));
    out
}

/// Whether two texts are the same.
pub fn same_text(a: &str, b: &str) -> (r: bool)
    ensures
        r == (a@ == b@),
{
    String::from_str(a) == String::from_str(b)
}

/// Whether `text` begins with `part`.
pub fn begins_with(text: &str, part: &str) -> (r: bool)
    ensures
        r == part@.is_prefix_of(text@),
{
    let length: usize = text.unicode_len();
    let part_length: usize = part.unicode_len();
    if part_length > length {
        return false;
    }
    let head = text.substring_char(0, part_length);
    same_text(head, part)
}

/// Whether `text` ends with `part`.
pub fn ends_with(text: &str, part: &str) -> (r: bool)
    ensures
        r == part@.is_suffix_of(text@),
{
    let length: usize = text.unicode_len();
    let part_length: usize = part.unicode_len();
    if part_length > length {
        return false;
    }
    let tail = text.substring_char(length - part_length, length);
    same_text(tail, part)
}

/// Whether `part` occurs in `text`.
pub fn contains(text: &str, part: &str) -> (r: bool)
    ensures
        r == occurs_in(part@, text@),
{
    let length: usize = text.unicode_len();
    let part_length: usize = part.unicode_len();
    if part_length > length {
        return false;
    }
    let last: usize = length - part_length;
    let mut i: usize = 0;
    loop
        invariant
            i <= last,
            last == text@.len() - part@.len(),
            part_length == part@.len(),
            length == text@.len(),
            forall|j: int| 0 <= j < i ==> #[trigger] text@.subrange(j, j + part@.len()) != part@,
        decreases last - i,
    {
        if same_text(text.substring_char(i, i + part_length), part) {
            return true;
        }
        if i == last {
            return false;
        }
        i += 1;
    }
}

} // verus!
