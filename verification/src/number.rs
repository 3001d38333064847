//! Reading a bound from text: surrounding white space is dropped, and what
//! is left must be a decimal number that fits in 32 bits.
use vstd::prelude::*;

verus! {

/// White space, as Unicode defines it.
pub open spec fn is_space(c: char) -> bool {
    let code = c as u32;
    ||| 0x09 <= code <= 0x0D
    ||| code == 0x20
    ||| code == 0x85
    ||| code == 0xA0
    ||| code == 0x1680
    ||| 0x2000 <= code <= 0x200A
    ||| code == 0x2028
    ||| code == 0x2029
    ||| code == 0x202F
    ||| code == 0x205F
    ||| code == 0x3000
}

/// A text without the white space that it begins with.
pub open spec fn trim_start_text(s: Seq<char>) -> Seq<char>
    decreases s.len(),
{
    if s.len() > 0 && is_space(s.first()) {
        trim_start_text(s.drop_first())
    } else {
        s
    }
}

/// A text without the white space that it ends with.
pub open spec fn trim_end_text(s: Seq<char>) -> Seq<char>
    decreases s.len(),
{
    if s.len() > 0 && is_space(s.last()) {
        trim_end_text(s.drop_last())
    } else {
        s
    }
}

/// A text without the white space around it.
pub open spec fn trimmed(s: Seq<char>) -> Seq<char> {
    trim_end_text(trim_start_text(s))
}

/// One of the ten decimal digits.
pub open spec fn is_digit(c: char) -> bool {
    0x30 <= c as u32 <= 0x39
}

/// The number that a digit stands for.
pub open spec fn digit_value(c: char) -> nat {
    (c as u32 - 0x30) as nat
}

/// Digits only.
pub open spec fn all_digits(s: Seq<char>) -> bool {
    forall|i: int| 0 <= i < s.len() ==> is_digit(#[trigger] s[i])
}

/// The number that a row of digits stands for.
pub open spec fn digits_value(s: Seq<char>) -> nat
    decreases s.len(),
{
    if s.len() == 0 {
        0
    } else {
        digits_value(s.drop_last()) * 10 + digit_value(s.last())
    }
}

/// The number that a text stands for: one or more decimal digits, with
/// any number of leading zeros and at most one `+` in front, and no more
/// than 32 bits hold. Every other text stands for no number.
pub open spec fn parsed_u32(s: Seq<char>) -> Option<u32> {
    let digits = if s.len() > 0 && s.first() == '+' {
        s.drop_first()
    } else {
        s
    };
    if digits.len() > 0 && all_digits(digits) && digits_value(digits) <= u32::MAX {
        Some(digits_value(digits) as u32)
    } else {
        None
    }
}

/// A row of digits stands for no less than any row it begins with.
pub proof fn lemma_digits_grow(s: Seq<char>, upto: int)
    requires
        0 <= upto <= s.len(),
    ensures
        digits_value(s.take(upto)) <= digits_value(s),
    decreases s.len(),
{
    if upto == s.len() {
        assert(s.take(upto) =~= s);
    } else {
        lemma_digits_grow(s.drop_last(), upto);
        assert(s.drop_last().take(upto) =~= s.take(upto));
    }
}

/// The characters of a text.
pub fn chars_of(s: &str) -> (chars: Vec<char>)
    ensures
        chars@ == s@,
{
    let mut chars: Vec<char> = Vec::new();
    for c in it: s.chars()
        invariant
            chars@ == it.seq().take(it.index() as int),
            it.seq() == s@,
    {
        chars.push(c);
        assert(chars@ =~= it.seq().take(it.index() + 1));
    }
    assert(chars@ =~= s@);
    chars
}

fn space(c: char) -> (yes: bool)
    ensures
        yes == is_space(c),
{
    let code = c as u32;
    (0x09 <= code && code <= 0x0D) || code == 0x20 || code == 0x85 || code == 0xA0 || code
        == 0x1680 || (0x2000 <= code && code <= 0x200A) || code == 0x2028 || code == 0x2029 || code
        == 0x202F || code == 0x205F || code == 0x3000
}

/// Reads the number that a text stands for once the white space around it
/// is dropped.
pub fn parse_trimmed(s: &str) -> (number: Option<u32>)
    ensures
        number == parsed_u32(trimmed(s@)),
{
    let chars = chars_of(s);
    let mut start: usize = 0;
    assert(chars@.skip(0) =~= chars@);
    while start < chars.len() && space(chars[start])
        invariant
            start <= chars.len(),
            trim_start_text(chars@) == trim_start_text(chars@.skip(start as int)),
        decreases chars.len() - start,
    {
        assert(chars@.skip(start as int).drop_first() =~= chars@.skip(start + 1));
        start = start + 1;
    }
    assert(trim_start_text(chars@) == chars@.skip(start as int));
    let mut end: usize = chars.len();
    assert(chars@.subrange(start as int, end as int) =~= chars@.skip(start as int));
    while end > start && space(chars[end - 1])
        invariant
            start <= end <= chars.len(),
            trimmed(chars@) == trim_end_text(chars@.subrange(start as int, end as int)),
        decreases end,
    {
        assert(chars@.subrange(start as int, end as int).drop_last() =~= chars@.subrange(
            start as int,
            end - 1,
        ));
        end = end - 1;
    }
    let ghost text = chars@.subrange(start as int, end as int);
    assert(trimmed(chars@) == text);
    let first: usize = if start < end && chars[start] == '+' {
        start + 1
    } else {
        start
    };
    let ghost digits = chars@.subrange(first as int, end as int);
    assert(digits =~= if text.len() > 0 && text.first() == '+' {
        text.drop_first()
    } else {
        text
    });
    if first == end {
        return None;
    }
    let mut value: u32 = 0;
    let mut i: usize = first;
    assert(digits.take(0) =~= Seq::<char>::empty());
    let ghost wanted = parsed_u32(trimmed(s@));
    while i < end
        invariant
            first <= i <= end <= chars.len(),
            digits == chars@.subrange(first as int, end as int),
            wanted == parsed_u32(trimmed(s@)),
            wanted == if all_digits(digits) && digits_value(digits) <= u32::MAX {
                Some(digits_value(digits) as u32)
            } else {
                None
            },
            all_digits(digits.take(i - first)),
            value == digits_value(digits.take(i - first)),
        decreases end - i,
    {
        let code = chars[i] as u32;
        if code < 0x30 || code > 0x39 {
            assert(!is_digit(digits[i - first]));
            return None;
        }
        let digit = code - 0x30;
        proof {
            assert(digits.take(i + 1 - first).drop_last() =~= digits.take(i - first));
            lemma_digits_grow(digits, i + 1 - first);
        }
        if value > (u32::MAX - digit) / 10 {
            return None;
        }
        value = value * 10 + digit;
        i = i + 1;
    }
    assert(digits.take(i - first) =~= digits);
    Some(value)
}

} // verus!
