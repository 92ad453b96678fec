//! Text handling for the fields of a row.

use vstd::prelude::*;

verus! {

/// `String::push` appends one character.
pub assume_specification[ String::push ](s: &mut String, ch: char)
    ensures
        final(s)@ == old(s)@.push(ch),
;

/// Whether a character is a line feed or a tab: the layout characters that a
/// page is cleared of before it is parsed.
pub open spec fn is_layout(c: char) -> bool {
    c == '\n' || c == '\t'
}

/// A text without its line feeds and tabs.
pub open spec fn without_layout(text: Seq<char>) -> Seq<char> {
    text.filter(|c: char| !is_layout(c))
}

/// Removes every line feed and tab from a text and keeps the rest in order.
pub fn strip_layout(text: &str) -> (stripped: String)
    ensures
        stripped@ == without_layout(text@),
{
    let mut stripped = String::new();
    for c in it: text.chars()
        invariant
            it.seq() == text@,
            stripped@ == without_layout(text@.take(it.index())),
    {
        proof {
            reveal(Seq::filter);
            let i = it.index();
            assert(text@.take(i + 1).drop_last() == text@.take(i));
        }
        if c != '\n' && c != '\t' {
            stripped.push(c);
        }
    }
    proof {
        assert(text@.take(text@.len() as int) == text@);
    }
    stripped
}

/// Whether a character is white space: the characters of Unicode's property
/// White_Space.
pub open spec fn is_whitespace(c: char) -> bool {
    let n = c as u32;
    ||| 0x09 <= n <= 0x0d
    ||| n == 0x20
    ||| n == 0x85
    ||| n == 0xa0
    ||| n == 0x1680
    ||| 0x2000 <= n <= 0x200a
    ||| n == 0x2028
    ||| n == 0x2029
    ||| n == 0x202f
    ||| n == 0x205f
    ||| n == 0x3000
}

/// Tells whether a character is white space.
pub fn char_is_whitespace(c: char) -> (white: bool)
    ensures
        white == is_whitespace(c),
{
    let n = c as u32;
    (0x09 <= n && n <= 0x0d) || n == 0x20 || n == 0x85 || n == 0xa0 || n == 0x1680 || (0x2000 <= n
        && n <= 0x200a) || n == 0x2028 || n == 0x2029 || n == 0x202f || n == 0x205f || n == 0x3000
}

/// The number of white-space characters that a text begins with.
pub open spec fn leading_whitespace(text: Seq<char>) -> nat
    decreases text.len(),
{
    if text.len() > 0 && is_whitespace(text.first()) {
        1 + leading_whitespace(text.drop_first())
    } else {
        0
    }
}

/// The number of white-space characters that a text ends with.
pub open spec fn trailing_whitespace(text: Seq<char>) -> nat
    decreases text.len(),
{
    if text.len() > 0 && is_whitespace(text.last()) {
        1 + trailing_whitespace(text.drop_last())
    } else {
        0
    }
}

/// A text without the white space that it begins and ends with.
pub open spec fn trimmed(text: Seq<char>) -> Seq<char> {
    let rest = text.skip(leading_whitespace(text) as int);
    rest.take(rest.len() - trailing_whitespace(rest))
}

/// A text that holds nothing but white space.
pub open spec fn is_blank(text: Seq<char>) -> bool {
    forall|i: int| 0 <= i < text.len() ==> is_whitespace(#[trigger] text[i])
}

/// A text that begins with `k` white-space characters, followed by the end of
/// the text or by another character, has exactly `k` leading ones.
proof fn lemma_leading_whitespace(text: Seq<char>, k: int)
    requires
        0 <= k <= text.len(),
        forall|i: int| 0 <= i < k ==> is_whitespace(#[trigger] text[i]),
        k < text.len() ==> !is_whitespace(text[k]),
    ensures
        leading_whitespace(text) == k,
    decreases k,
{
    if k > 0 {
        let rest = text.drop_first();
        assert forall|i: int| 0 <= i < k - 1 implies is_whitespace(#[trigger] rest[i]) by {
            assert(rest[i] == text[i + 1]);
        }
        lemma_leading_whitespace(rest, k - 1);
    }
}

/// A text whose characters from `k` on are all white space, and whose
/// character before `k`, if there is one, is not, has exactly
/// `text.len() - k` trailing ones.
proof fn lemma_trailing_whitespace(text: Seq<char>, k: int)
    requires
        0 <= k <= text.len(),
        forall|i: int| k <= i < text.len() ==> is_whitespace(#[trigger] text[i]),
        k > 0 ==> !is_whitespace(text[k - 1]),
    ensures
        trailing_whitespace(text) == text.len() - k,
    decreases text.len() - k,
{
    if k < text.len() {
        let rest = text.drop_last();
        assert forall|i: int| k <= i < rest.len() implies is_whitespace(#[trigger] rest[i]) by {
            assert(rest[i] == text[i]);
        }
        lemma_trailing_whitespace(rest, k);
    }
}

/// Removes the white space at both ends of a text.
pub fn trim(text: &str) -> (inner: &str)
    ensures
        inner@ == trimmed(text@),
{
    let mut start: usize = 0;
    let mut end: usize = 0;
    let mut count: usize = 0;
    let mut leading: bool = true;
    let length: usize = text.unicode_len();
    for c in it: text.chars()
        invariant
            it.seq() == text@,
            length == text@.len(),
            count == it.index(),
            start <= count,
            end <= count,
            forall|i: int| 0 <= i < start ==> is_whitespace(#[trigger] text@[i]),
            leading ==> start == count && end == 0,
            !leading ==> start < end && !is_whitespace(text@[start as int]),
            forall|i: int| end <= i < count ==> is_whitespace(#[trigger] text@[i]),
            end > 0 ==> !is_whitespace(text@[end - 1]),
    {
        let white = char_is_whitespace(c);
        if white {
            if leading {
                start = start + 1;
            }
        } else {
            leading = false;
            end = count + 1;
        }
        count = count + 1;
    }
    proof {
        let whole = text@;
        lemma_leading_whitespace(whole, start as int);
        let rest = whole.skip(start as int);
        if leading {
            assert(rest.len() == 0);
        } else {
            assert forall|i: int| end - start <= i < rest.len() implies is_whitespace(
                #[trigger] rest[i],
            ) by {
                assert(rest[i] == whole[i + start]);
            }
            assert(rest[end - start - 1] == whole[end - 1]);
            lemma_trailing_whitespace(rest, end - start);
            assert(rest.take(end - start) == whole.subrange(start as int, end as int));
        }
    }
    if leading {
        text.substring_char(start, start)
    } else {
        text.substring_char(start, end)
    }
}

/// The white space that a text begins with is white space, and what follows
/// it is not.
proof fn lemma_leading_whitespace_ends(text: Seq<char>)
    ensures
        leading_whitespace(text) <= text.len(),
        forall|i: int| 0 <= i < leading_whitespace(text) ==> is_whitespace(#[trigger] text[i]),
        leading_whitespace(text) < text.len() ==> !is_whitespace(
            text[leading_whitespace(text) as int],
        ),
    decreases text.len(),
{
    if text.len() > 0 && is_whitespace(text.first()) {
        let rest = text.drop_first();
        lemma_leading_whitespace_ends(rest);
        assert forall|i: int| 0 <= i < leading_whitespace(text) implies is_whitespace(
            #[trigger] text[i],
        ) by {
            if i > 0 {
                assert(text[i] == rest[i - 1]);
            }
        }
        if leading_whitespace(text) < text.len() {
            assert(text[leading_whitespace(text) as int] == rest[leading_whitespace(rest) as int]);
        }
    }
}

/// The white space that a text ends with is white space.
proof fn lemma_trailing_whitespace_is_white(text: Seq<char>)
    ensures
        trailing_whitespace(text) <= text.len(),
        forall|i: int|
            text.len() - trailing_whitespace(text) <= i < text.len() ==> is_whitespace(
                #[trigger] text[i],
            ),
    decreases text.len(),
{
    if text.len() > 0 && is_whitespace(text.last()) {
        let rest = text.drop_last();
        lemma_trailing_whitespace_is_white(rest);
        assert forall|i: int|
            text.len() - trailing_whitespace(text) <= i < text.len() implies is_whitespace(
            #[trigger] text[i],
        ) by {
            if i < rest.len() {
                assert(text[i] == rest[i]);
            }
        }
    }
}

/// A text is blank exactly where nothing is left of it once it is trimmed.
pub proof fn lemma_blank_is_trimmed_empty(text: Seq<char>)
    ensures
        is_blank(text) <==> trimmed(text).len() == 0,
{
    lemma_leading_whitespace_ends(text);
    let rest = text.skip(leading_whitespace(text) as int);
    lemma_trailing_whitespace_is_white(rest);
    if rest.len() > 0 {
        assert(rest[0] == text[leading_whitespace(text) as int]);
    }
}

/// Tells whether a text holds nothing but white space.
pub fn text_is_blank(text: &str) -> (blank: bool)
    ensures
        blank == is_blank(text@),
{
    for c in it: text.chars()
        invariant
            it.seq() == text@,
            forall|i: int| 0 <= i < it.index() ==> is_whitespace(#[trigger] text@[i]),
    {
        if !char_is_whitespace(c) {
            return false;
        }
    }
    true
}

/// Whether a character is one of the decimal digits `0` to `9`.
pub open spec fn is_digit(c: char) -> bool {
    '0' <= c <= '9'
}

/// The number that a decimal digit stands for.
pub open spec fn digit_value(c: char) -> nat {
    (c as u32 - '0' as u32) as nat
}

/// Whether a text holds decimal digits only.
pub open spec fn all_digits(text: Seq<char>) -> bool {
    forall|i: int| 0 <= i < text.len() ==> is_digit(#[trigger] text[i])
}

/// The number that a text of decimal digits stands for, the empty text for 0.
pub open spec fn decimal_value(digits: Seq<char>) -> nat
    decreases digits.len(),
{
    if digits.len() == 0 {
        0
    } else {
        10 * decimal_value(digits.drop_last()) + digit_value(digits.last())
    }
}

/// The digits of a decimal numeral: the text itself, without the plus sign
/// that it may begin with.
pub open spec fn numeral_digits(text: Seq<char>) -> Seq<char> {
    if text.len() > 0 && text[0] == '+' {
        text.drop_first()
    } else {
        text
    }
}

/// The number that a text denotes as an unsigned decimal numeral of 32 bits:
/// an optional plus sign, then at least one digit and nothing else, the
/// number being at most `u32::MAX`. Any other text denotes none.
pub open spec fn parsed_u32(text: Seq<char>) -> Option<u32> {
    let digits = numeral_digits(text);
    if digits.len() > 0 && all_digits(digits) && decimal_value(digits) <= u32::MAX {
        Some(decimal_value(digits) as u32)
    } else {
        None
    }
}

/// A numeral is worth at least as much as each of its beginnings.
proof fn lemma_decimal_value_grows(digits: Seq<char>, k: int)
    requires
        0 <= k <= digits.len(),
    ensures
        decimal_value(digits.take(k)) <= decimal_value(digits),
    decreases digits.len() - k,
{
    if k < digits.len() {
        lemma_decimal_value_grows(digits.drop_last(), k);
        assert(digits.drop_last().take(k) == digits.take(k));
    } else {
        assert(digits.take(k) == digits);
    }
}

/// Reads a text as an unsigned decimal numeral of 32 bits.
pub fn parse_u32(text: &str) -> (number: Option<u32>)
    ensures
        number == parsed_u32(text@),
{
    let mut value: u64 = 0;
    let mut at_start: bool = true;
    let mut any_digit: bool = false;
    for c in it: text.chars()
        invariant
            it.seq() == text@,
            at_start == (it.index() == 0),
            value <= u32::MAX,
            ({
                let seen = numeral_digits(text@.take(it.index()));
                &&& any_digit == (seen.len() > 0)
                &&& all_digits(seen)
                &&& value == decimal_value(seen)
            }),
    {
        let ghost before = text@.take(it.index());
        let ghost seen = numeral_digits(before);
        proof {
            assert(text@.take(it.index() + 1) == before.push(c));
        }
        if at_start && c == '+' {
            proof {
                assert(numeral_digits(before.push(c)) == Seq::<char>::empty());
            }
        } else {
            proof {
                assert(numeral_digits(before.push(c)) == seen.push(c));
                assert(seen.push(c).drop_last() == seen);
            }
            if !('0' <= c && c <= '9') {
                proof {
                    let digits = numeral_digits(text@);
                    assert(digits[seen.len() as int] == c);
                    assert(!is_digit(digits[seen.len() as int]));
                }
                return None;
            }
            value = value * 10 + (c as u32 - '0' as u32) as u64;
            if value > u32::MAX as u64 {
                proof {
                    let digits = numeral_digits(text@);
                    assert(digits.take(seen.len() as int + 1) == seen.push(c));
                    lemma_decimal_value_grows(digits, seen.len() as int + 1);
                }
                return None;
            }
            any_digit = true;
        }
        at_start = false;
    }
    proof {
        assert(text@.take(text@.len() as int) == text@);
    }
    if any_digit {
        Some(value as u32)
    } else {
        None
    }
}

} // verus!
