//! The text of the run counter: a decimal number, with white space around it.

use vstd::prelude::*;

use crate::text::chars_of;

verus! {

/// Whether `c` is white space: the Unicode property `White_Space`.
pub open spec fn is_whitespace(c: char) -> bool {
    let u = c as u32;
    ||| 0x09 <= u <= 0x0d
    ||| u == 0x20
    ||| u == 0x85
    ||| u == 0xa0
    ||| u == 0x1680
    ||| 0x2000 <= u <= 0x200a
    ||| u == 0x2028
    ||| u == 0x2029
    ||| u == 0x202f
    ||| u == 0x205f
    ||| u == 0x3000
}

/// `text` without the white space it starts with.
pub open spec fn trim_start(text: Seq<char>) -> Seq<char>
    decreases text.len(),
{
    if text.len() > 0 && is_whitespace(text[0]) {
        trim_start(text.skip(1))
    } else {
        text
    }
}

/// `text` without the white space it ends with.
pub open spec fn trim_end(text: Seq<char>) -> Seq<char>
    decreases text.len(),
{
    if text.len() > 0 && is_whitespace(text.last()) {
        trim_end(text.drop_last())
    } else {
        text
    }
}

/// `text` without the white space at either end.
pub open spec fn trim(text: Seq<char>) -> Seq<char> {
    trim_end(trim_start(text))
}

/// Whether `c` is one of the digits `0` to `9`.
pub open spec fn is_digit(c: char) -> bool {
    '0' <= c <= '9'
}

/// The number that a run of digits writes in base ten.
pub open spec fn decimal_value(digits: Seq<char>) -> nat
    decreases digits.len(),
{
    if digits.len() == 0 {
        0
    } else {
        (10 * decimal_value(digits.drop_last()) + (digits.last() as u32 - '0' as u32)) as nat
    }
}

/// Whether `text` is made of digits only.
pub open spec fn all_digits(text: Seq<char>) -> bool {
    forall|i: int| 0 <= i < text.len() ==> is_digit(#[trigger] text[i])
}

/// The number that `text` writes: an optional `+`, then one digit or more,
/// and nothing else.
pub open spec fn parse_decimal(text: Seq<char>) -> Option<nat> {
    let digits = if text.len() > 0 && text[0] == '+' {
        text.skip(1)
    } else {
        text
    };
    if digits.len() > 0 && all_digits(digits) {
        Some(decimal_value(digits))
    } else {
        None
    }
}

/// The count that a counter file of this content records, if it records one:
/// the number it writes between white space, where that number fits.
pub open spec fn count_of(content: Seq<char>) -> Option<usize> {
    match parse_decimal(trim(content)) {
        Some(value) => if value <= usize::MAX {
            Some(value as usize)
        } else {
            None
        },
        None => None,
    }
}

/// A run of digits is worth no less than any run it starts with.
pub proof fn lemma_decimal_value_grows(digits: Seq<char>, k: int)
    requires
        0 <= k <= digits.len(),
        all_digits(digits),
    ensures
        decimal_value(digits.take(k)) <= decimal_value(digits),
    decreases digits.len(),
{
    if k == digits.len() {
        assert(digits.take(k) =~= digits);
    } else {
        let shorter = digits.drop_last();
        assert(all_digits(shorter)) by {
            assert forall|i: int| 0 <= i < shorter.len() implies is_digit(#[trigger] shorter[i]) by {
                assert(shorter[i] == digits[i]);
            }
        }
        lemma_decimal_value_grows(shorter, k);
        assert(shorter.take(k) =~= digits.take(k));
        assert(is_digit(digits.last()));
    }
}

/// Whether `c` is white space.
pub fn whitespace(c: char) -> (r: bool)
    ensures
        r == is_whitespace(c),
{
    let u: u32 = c as u32;
    (0x09 <= u && u <= 0x0d) || u == 0x20 || u == 0x85 || u == 0xa0 || u == 0x1680 || (0x2000 <= u
        && u <= 0x200a) || u == 0x2028 || u == 0x2029 || u == 0x202f || u == 0x205f || u == 0x3000
}

/// Reads the count that a counter file of this content records.
///
/// White space at either end is skipped. What is left has to be an optional
/// `+` and then decimal digits, at least one, that write a number no larger
/// than `usize::MAX`.
#[verifier::loop_isolation(false)]
pub fn parse_counter(content: &str) -> (count: Option<usize>)
    ensures
        count == count_of(content@),
{
    let chars = chars_of(content);
    let n: usize = chars.len();
    let mut lo: usize = 0;
    assert(chars@.skip(0) =~= chars@);
    while lo < n && whitespace(chars[lo])
        invariant
            lo <= n,
            n == chars@.len(),
            trim_start(chars@) == trim_start(chars@.skip(lo as int)),
        decreases n - lo,
    {
        assert(chars@.skip(lo as int).skip(1) =~= chars@.skip(lo + 1));
        lo += 1;
    }
    assert(trim_start(chars@) == chars@.skip(lo as int));
    assert(chars@.skip(lo as int) =~= chars@.subrange(lo as int, n as int));
    let mut hi: usize = n;
    while hi > lo && whitespace(chars[hi - 1])
        invariant
            lo <= hi <= n,
            n == chars@.len(),
            trim(chars@) == trim_end(chars@.subrange(lo as int, hi as int)),
        decreases hi,
    {
        assert(chars@.subrange(lo as int, hi as int).drop_last() =~= chars@.subrange(
            lo as int,
            hi - 1,
        ));
        hi -= 1;
    }
    let ghost trimmed = chars@.subrange(lo as int, hi as int);
    assert(trim(chars@) == trimmed);
    let mut i: usize = lo;
    if i < hi && chars[i] == '+' {
        i += 1;
    }
    let ghost digits = chars@.subrange(i as int, hi as int);
    assert(digits =~= if trimmed.len() > 0 && trimmed[0] == '+' {
        trimmed.skip(1)
    } else {
        trimmed
    });
    if i == hi {
        return None;
    }
    let first: usize = i;
    let mut value: usize = 0;
    while i < hi
        invariant
            lo <= first <= i <= hi <= n,
            n == chars@.len(),
            digits == chars@.subrange(first as int, hi as int),
            all_digits(digits.take(i - first)),
            value == decimal_value(digits.take(i - first)),
        decreases hi - i,
    {
        let c = chars[i];
        assert(c == digits[i - first]);
        if !('0' <= c && c <= '9') {
            assert(!is_digit(digits[i - first]));
            return None;
        }
        let d: usize = (c as u32 - '0' as u32) as usize;
        let ghost longer = digits.take(i - first + 1);
        assert(longer.drop_last() =~= digits.take(i - first));
        assert(longer.last() == c);
        assert(all_digits(longer)) by {
            assert forall|k: int| 0 <= k < longer.len() implies is_digit(#[trigger] longer[k]) by {
                if k < i - first {
                    assert(longer[k] == digits.take(i - first)[k]);
                }
            }
        }
        let next: Option<usize> = match value.checked_mul(10) {
            Some(tens) => tens.checked_add(d),
            None => None,
        };
        match next {
            Some(v) => {
                value = v;
            },
            None => {
                proof {
                    assert(decimal_value(longer) > usize::MAX);
                    if all_digits(digits) {
                        lemma_decimal_value_grows(digits, i - first + 1);
                    }
                }
                return None;
            },
        }
        i += 1;
    }
    assert(digits.take(i - first) =~= digits);
    Some(value)
}

} // verus!
