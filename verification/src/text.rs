//! Small helpers on text.

use vstd::prelude::*;
use vstd::std_specs::iter::IteratorSpec;
use vstd::string::StringExecFns;

verus! {

/// Whether two string slices hold the same characters.
pub fn same_text(a: &str, b: &str) -> (same: bool)
    ensures
        same == (a@ == b@),
{
    let left: String = a.to_owned();
    let right: String = b.to_owned();
    left == right
}

/// The characters of a string slice, one by one.
pub fn characters(text: &str) -> (chars: Vec<char>)
    ensures
        chars@ == text@,
{
    broadcast use vstd::string::group_string_axioms;

    let mut chars: Vec<char> = Vec::new();
    let mut rest = text.chars();
    loop
        invariant
            chars@ + rest.remaining() == text@,
            rest.decrease() is Some,
        ensures
            chars@ == text@,
        decreases rest.decrease()->0,
    {
        let ghost before = rest.remaining();
        match rest.next() {
            Some(c) => {
                chars.push(c);
                assert(chars@ + rest.remaining() == text@) by {
                    assert(before == seq![c] + before.drop_first());
                }
            },
            None => {
                assert(before.len() == 0);
                assert(chars@ + before == chars@);
                break ;
            },
        }
    }
    chars
}

/// The pieces of `text` between line feeds. There is always at least one
/// piece; a text that ends in a line feed has an empty last piece.
pub open spec fn lines_of(text: Seq<char>) -> Seq<Seq<char>>
    decreases text.len(),
{
    if text.len() == 0 {
        seq![Seq::empty()]
    } else {
        let before = lines_of(text.drop_last());
        if text.last() == '\n' {
            before.push(Seq::empty())
        } else {
            before.drop_last().push(before.last().push(text.last()))
        }
    }
}

/// The characters of each of `pieces`.
pub open spec fn texts_of(pieces: Seq<&str>) -> Seq<Seq<char>> {
    Seq::new(pieces.len(), |i: int| pieces[i]@)
}

/// Splits `text` at its line feeds.
pub fn split_lines<'a>(text: &'a str) -> (lines: Vec<&'a str>)
    ensures
        texts_of(lines@) == lines_of(text@),
{
    let chars = characters(text);
    let mut lines: Vec<&'a str> = Vec::new();
    let mut start: usize = 0;
    let mut i: usize = 0;
    proof {
        assert(text@.take(0).len() == 0);
        assert(text@.subrange(0, 0) == Seq::<char>::empty());
        assert(texts_of(lines@).push(Seq::<char>::empty()) == seq![Seq::<char>::empty()]);
    }
    while i < chars.len()
        invariant
            chars@ == text@,
            start <= i <= chars.len(),
            lines_of(text@.take(i as int)) == texts_of(lines@).push(
                text@.subrange(start as int, i as int),
            ),
        decreases chars.len() - i,
    {
        let ghost seen = text@.take(i as int);
        let ghost next = text@.take(i + 1);
        proof {
            assert(next.drop_last() == seen);
            assert(next.last() == text@[i as int]);
        }
        if chars[i] == '\n' {
            let ghost earlier = texts_of(lines@);
            let line = text.substring_char(start, i);
            lines.push(line);
            proof {
                assert(texts_of(lines@) == earlier.push(text@.subrange(start as int, i as int)));
                assert(text@.subrange(i + 1, i + 1) == Seq::<char>::empty());
            }
            start = i + 1;
        } else {
            proof {
                let head = texts_of(lines@).push(text@.subrange(start as int, i as int));
                assert(head.drop_last() == texts_of(lines@));
                assert(head.last().push(text@[i as int]) == text@.subrange(start as int, i + 1));
            }
        }
        i = i + 1;
    }
    let ghost earlier = texts_of(lines@);
    let line = text.substring_char(start, i);
    lines.push(line);
    proof {
        assert(text@.take(i as int) == text@);
        assert(texts_of(lines@) == earlier.push(text@.subrange(start as int, i as int)));
    }
    lines
}

/// The character of a decimal digit.
pub open spec fn digit_char(d: int) -> char
    recommends
        0 <= d < 10,
{
    if d == 0 {
        '0'
    } else if d == 1 {
        '1'
    } else if d == 2 {
        '2'
    } else if d == 3 {
        '3'
    } else if d == 4 {
        '4'
    } else if d == 5 {
        '5'
    } else if d == 6 {
        '6'
    } else if d == 7 {
        '7'
    } else if d == 8 {
        '8'
    } else {
        '9'
    }
}

/// The decimal digits of a natural number, most significant first.
pub open spec fn decimal_nat(n: nat) -> Seq<char>
    decreases n,
{
    if n < 10 {
        seq![digit_char(n as int)]
    } else {
        decimal_nat(n / 10).push(digit_char((n % 10) as int))
    }
}

/// The decimal notation of an integer, with a minus sign where it is negative.
pub open spec fn decimal(v: int) -> Seq<char> {
    if v < 0 {
        seq!['-'] + decimal_nat((-v) as nat)
    } else {
        decimal_nat(v as nat)
    }
}

/// The text of one decimal digit.
fn digit_text(d: u64) -> (text: &'static str)
    requires
        d < 10,
    ensures
        text@ == seq![digit_char(d as int)],
{
    proof {
        reveal_strlit("0");
        reveal_strlit("1");
        reveal_strlit("2");
        reveal_strlit("3");
        reveal_strlit("4");
        reveal_strlit("5");
        reveal_strlit("6");
        reveal_strlit("7");
        reveal_strlit("8");
        reveal_strlit("9");
    }
    let text = if d == 0 {
        "0"
    } else if d == 1 {
        "1"
    } else if d == 2 {
        "2"
    } else if d == 3 {
        "3"
    } else if d == 4 {
        "4"
    } else if d == 5 {
        "5"
    } else if d == 6 {
        "6"
    } else if d == 7 {
        "7"
    } else if d == 8 {
        "8"
    } else {
        "9"
    };
    assert(text@ =~= seq![digit_char(d as int)]);
    text
}

/// Appends the decimal digits of `n` to `out`.
fn push_decimal(n: u64, out: &mut String)
    ensures
        final(out)@ == old(out)@ + decimal_nat(n as nat),
    decreases n,
{
    if n >= 10 {
        push_decimal(n / 10, out);
    }
    out.append(digit_text(n % 10));
    assert(out@ == old(out)@ + decimal_nat(n as nat)) by {
        if n >= 10 {
            assert(old(out)@ + decimal_nat((n / 10) as nat) + seq![digit_char((n % 10) as int)]
                == old(out)@ + decimal_nat((n / 10) as nat).push(digit_char((n % 10) as int)));
        }
    }
}

/// The decimal notation of `v`.
pub fn decimal_text(v: i64) -> (text: String)
    ensures
        text@ == decimal(v as int),
{
    let mut text = String::new();
    if v < 0 {
        proof {
            reveal_strlit("-");
        }
        text.append("-");
        assert(text@ =~= seq!['-']);
        let magnitude: u64 = (-(v as i128)) as u64;
        push_decimal(magnitude, &mut text);
    } else {
        push_decimal(v as u64, &mut text);
        assert(text@ =~= decimal_nat(v as nat));
    }
    text
}

/// Holds of the ten decimal digits.
pub open spec fn is_digit(c: char) -> bool {
    '0' as u32 <= c as u32 <= '9' as u32
}

/// The number that a run of decimal digits stands for.
pub open spec fn digits_value(digits: Seq<char>) -> int
    decreases digits.len(),
{
    if digits.len() == 0 {
        0
    } else {
        digits_value(digits.drop_last()) * 10 + (digits.last() as u32 - '0' as u32)
    }
}

/// Holds of a non-empty run of decimal digits.
pub open spec fn is_number(digits: Seq<char>) -> bool {
    digits.len() > 0 && forall|i: int| 0 <= i < digits.len() ==> is_digit(#[trigger] digits[i])
}

/// The integer that `text` denotes: decimal digits, with a sign in front if
/// there is one. Anything else denotes nothing.
pub open spec fn integer_of(text: Seq<char>) -> Option<int> {
    if text.len() > 0 && text[0] == '-' {
        if is_number(text.skip(1)) {
            Some(-digits_value(text.skip(1)))
        } else {
            None
        }
    } else if text.len() > 0 && text[0] == '+' {
        if is_number(text.skip(1)) {
            Some(digits_value(text.skip(1)))
        } else {
            None
        }
    } else if is_number(text) {
        Some(digits_value(text))
    } else {
        None
    }
}

/// The integer that `text` denotes, where it denotes one that fits.
pub open spec fn parsed_integer(text: Seq<char>) -> Option<i64> {
    match integer_of(text) {
        Some(v) => if i64::MIN <= v <= i64::MAX {
            Some(v as i64)
        } else {
            None
        },
        None => None,
    }
}

/// Reads a decimal integer with an optional sign.
#[verifier::loop_isolation(false)]
pub fn parse_integer(text: &str) -> (r: Option<i64>)
    ensures
        r == parsed_integer(text@),
{
    let chars = characters(text);
    let negative: bool = chars.len() > 0 && chars[0] == '-';
    let signed: bool = negative || (chars.len() > 0 && chars[0] == '+');
    let first: usize = if signed {
        1
    } else {
        0
    };
    if chars.len() == first {
        assert(text@.skip(first as int).len() == 0);
        return None;
    }
    let ghost body = text@.skip(first as int);
    let mut value: i128 = 0;
    let mut too_large: bool = false;
    let mut i: usize = first;
    while i < chars.len()
        invariant
            chars@ == text@,
            body == text@.skip(first as int),
            first <= i <= chars.len(),
            forall|k: int| 0 <= k < i - first ==> is_digit(#[trigger] body[k]),
            0 <= digits_value(body.take(i - first)),
            !too_large ==> value == digits_value(body.take(i - first)) && value
                <= 0x8000_0000_0000_0000,
            too_large ==> digits_value(body.take(i - first)) > 0x8000_0000_0000_0000,
        decreases chars.len() - i,
    {
        let c = chars[i];
        assert(body[i - first] == c);
        if !(c as u32 >= '0' as u32 && c as u32 <= '9' as u32) {
            assert(!is_number(body));
            return None;
        }
        proof {
            let next = body.take(i - first + 1);
            assert(next.drop_last() == body.take(i - first));
            assert(next.last() == c);
        }
        if !too_large {
            value = value * 10 + (c as u32 - '0' as u32) as i128;
            if value > 0x8000_0000_0000_0000 {
                too_large = true;
            }
        }
        i = i + 1;
    }
    proof {
        assert(body.take(i - first) == body);
        assert(is_number(body));
        assert(text@.skip(0) == text@);
    }
    if too_large {
        None
    } else if negative {
        Some((-value) as i64)
    } else if value == 0x8000_0000_0000_0000 {
        None
    } else {
        Some(value as i64)
    }
}

} // verus!
