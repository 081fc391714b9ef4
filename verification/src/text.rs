//! Small pieces of text handling that the parsers of names and the error
//! messages share.

use vstd::prelude::*;

verus! {

/// What `str::to_lowercase` returns for a text with these characters.
pub uninterp spec fn lowercase(s: Seq<char>) -> Seq<char>;

/// The text with every underscore left out.
pub open spec fn without_underscores(s: Seq<char>) -> Seq<char> {
    s.filter(|c: char| c != '_')
}

/// The character that shows one decimal digit.
pub open spec fn digit(d: nat) -> char {
    if d == 0 {
        '0'
    } else if d == 1 {
        '1'
    } else if d == 2 {
        '2'
    } else if d == 3 {
        '3'
    } else if d == 4 {
        '4'
    } else if d == 5 {
        '5'
    } else if d == 6 {
        '6'
    } else if d == 7 {
        '7'
    } else if d == 8 {
        '8'
    } else {
        '9'
    }
}

/// The digit that a character shows, if it shows one.
pub open spec fn digit_of(c: char) -> Option<nat> {
    if c == '0' {
        Some(0)
    } else if c == '1' {
        Some(1)
    } else if c == '2' {
        Some(2)
    } else if c == '3' {
        Some(3)
    } else if c == '4' {
        Some(4)
    } else if c == '5' {
        Some(5)
    } else if c == '6' {
        Some(6)
    } else if c == '7' {
        Some(7)
    } else if c == '8' {
        Some(8)
    } else if c == '9' {
        Some(9)
    } else {
        None
    }
}

/// The value of a text of decimal digits, the first of which counts most;
/// none where a character is no digit. The empty text has the value 0.
pub open spec fn digits_value(s: Seq<char>) -> Option<nat>
    decreases s.len(),
{
    if s.len() == 0 {
        Some(0)
    } else {
        match (digits_value(s.drop_last()), digit_of(s.last())) {
            (Some(v), Some(d)) => Some(v * 10 + d),
            _ => None,
        }
    }
}

/// The decimal notation of a number, without leading zeros.
pub open spec fn decimal(n: nat) -> Seq<char>
    decreases n,
{
    if n < 10 {
        seq![digit(n)]
    } else {
        decimal(n / 10).push(digit(n % 10))
    }
}

/// `str::to_lowercase`: the lowercase equivalent of the text, as a new
/// `String`. Nothing is claimed of it but that it depends on the characters
/// alone.
#[verifier::external_body]
pub(crate) fn to_lowercase(s: &str) -> (r: String)
    ensures
        r@ == lowercase(s@),
{
    s.to_lowercase()
}

/// `str::replace` with the pattern `"_"` and an empty replacement: every
/// underscore is removed and the other characters keep their order.
#[verifier::external_body]
pub(crate) fn strip_underscores(s: &str) -> (r: String)
    ensures
        r@ == without_underscores(s@),
{
    s.replace("_", "")
}

/// `String::push`: the character is appended at the end.
#[verifier::external_body]
pub(crate) fn push_char(s: &mut String, c: char)
    ensures
        final(s)@ == old(s)@.push(c),
{
    s.push(c)
}

/// `String::push_str`: the slice is appended at the end.
#[verifier::external_body]
pub(crate) fn push_str(s: &mut String, t: &str)
    ensures
        final(s)@ == old(s)@ + t@,
{
    s.push_str(t)
}

/// Whether two texts hold the same characters.
pub fn same_text(a: &str, b: &str) -> (r: bool)
    ensures
        r == (a@ == b@),
{
    let x = a.to_owned();
    let y = b.to_owned();
    x == y
}

fn digit_char(d: u8) -> (c: char)
    requires
        d < 10,
    ensures
        c == digit(d as nat),
{
    if d == 0 {
        '0'
    } else if d == 1 {
        '1'
    } else if d == 2 {
        '2'
    } else if d == 3 {
        '3'
    } else if d == 4 {
        '4'
    } else if d == 5 {
        '5'
    } else if d == 6 {
        '6'
    } else if d == 7 {
        '7'
    } else if d == 8 {
        '8'
    } else {
        '9'
    }
}

/// The decimal notation of a byte.
pub fn decimal_u8(v: u8) -> (r: String)
    ensures
        r@ == decimal(v as nat),
{
    let mut out = String::new();
    if v >= 100 {
        push_char(&mut out, digit_char(v / 100));
        assert(out@ == decimal(v as nat / 100)) by {
            assert(out@ == seq![digit(v as nat / 100)]);
        }
    }
    if v >= 10 {
        let tens: u8 = (v / 10) % 10;
        push_char(&mut out, digit_char(tens));
        assert(out@ == decimal(v as nat / 10)) by {
            if v >= 100 {
                assert((v as nat / 10) / 10 == v as nat / 100);
                assert(tens as nat == (v as nat / 10) % 10);
            } else {
                assert(out@ == seq![digit(v as nat / 10)]);
            }
        }
    }
    push_char(&mut out, digit_char(v % 10));
    assert(out@ == decimal(v as nat)) by {
        if v < 10 {
            assert(out@ == seq![digit(v as nat)]);
        }
    }
    out
}

/// The decimal notation of a number.
pub fn decimal_u32(v: u32) -> (r: String)
    ensures
        r@ == decimal(v as nat),
    decreases v,
{
    if v < 10 {
        let mut out = String::new();
        push_char(&mut out, digit_char(v as u8));
        assert(out@ =~= seq![digit(v as nat)]);
        out
    } else {
        let mut out = decimal_u32(v / 10);
        push_char(&mut out, digit_char((v % 10) as u8));
        out
    }
}

/// The binary notation of a number in `width` digits: leading zeros are
/// kept, and of a number that needs more digits the highest are lost.
pub open spec fn binary(n: nat, width: nat) -> Seq<char>
    decreases width,
{
    if width == 0 {
        Seq::empty()
    } else {
        binary(n / 2, (width - 1) as nat).push(
            if n % 2 == 1 {
                '1'
            } else {
                '0'
            },
        )
    }
}

/// The binary notation of a number in `width` digits.
pub fn binary_u16(n: u16, width: usize) -> (r: String)
    ensures
        r@ == binary(n as nat, width as nat),
    decreases width,
{
    if width == 0 {
        String::new()
    } else {
        let mut out = binary_u16(n / 2, width - 1);
        push_char(
            &mut out,
            if n % 2 == 1 {
                '1'
            } else {
                '0'
            },
        );
        out
    }
}

/// The text brought to `width` characters by spaces in front of it; a text
/// that is as long or longer stays as it is.
pub open spec fn padded(s: Seq<char>, width: nat) -> Seq<char> {
    if s.len() >= width {
        s
    } else {
        Seq::new((width - s.len()) as nat, |i: int| ' ') + s
    }
}

/// The text brought to `width` characters by spaces in front of it.
pub fn pad_left(s: &str, width: usize) -> (r: String)
    ensures
        r@ == padded(s@, width as nat),
{
    let n = s.unicode_len();
    let mut out = String::new();
    if n < width {
        let mut i: usize = 0;
        while i < width - n
            invariant
                n < width,
                i <= width - n,
                out@ == Seq::new(i as nat, |j: int| ' '),
            decreases width - n - i,
        {
            push_char(&mut out, ' ');
            i = i + 1;
            assert(out@ =~= Seq::new(i as nat, |j: int| ' '));
        }
    }
    push_str(&mut out, s);
    assert(s@.len() >= width ==> out@ =~= s@);
    out
}

/// A text followed by the decimal notation of a byte.
pub fn with_number(prefix: &str, v: u8) -> (r: String)
    ensures
        r@ == prefix@ + decimal(v as nat),
{
    let mut out = prefix.to_owned();
    let digits = decimal_u8(v);
    push_str(&mut out, digits.as_str());
    out
}

} // verus!
