//! Texts: comparing, trimming, and reading decimal numerals.

use vstd::prelude::*;

verus! {

/// Equality of string slices, `<str as PartialEq>::eq`: two slices are equal
/// exactly when they hold the same characters.
pub assume_specification[ <str as PartialEq<str>>::eq ](a: &str, b: &str) -> (same: bool)
    ensures
        same == (a@ == b@),
;

/// The text that an optional text holds, if any.
pub open spec fn text_view(text: Option<String>) -> Option<Seq<char>> {
    match text {
        Some(text) => Some(text@),
        None => None,
    }
}

/// `text` without the run of `c` at its end.
pub open spec fn without_trailing(text: Seq<char>, c: char) -> Seq<char>
    decreases text.len(),
{
    if text.len() > 0 && text.last() == c {
        without_trailing(text.drop_last(), c)
    } else {
        text
    }
}

/// A prefix of `text` that is followed by nothing but `c`, and does not itself
/// end in `c`, is `text` without its trailing run of `c`.
proof fn lemma_without_trailing(text: Seq<char>, c: char, keep: int)
    requires
        0 <= keep <= text.len(),
        forall|j: int| keep <= j < text.len() ==> text[j] == c,
        keep > 0 ==> text[keep - 1] != c,
    ensures
        without_trailing(text, c) == text.subrange(0, keep),
    decreases text.len(),
{
    if keep == text.len() {
        assert(text.subrange(0, keep) =~= text);
    } else {
        lemma_without_trailing(text.drop_last(), c, keep);
        assert(text.drop_last().subrange(0, keep) =~= text.subrange(0, keep));
    }
}

/// What trimming leaves: the text up to its last character other than `c`.
pub proof fn lemma_without_trailing_shape(text: Seq<char>, c: char)
    ensures
        without_trailing(text, c).len() <= text.len(),
        without_trailing(text, c) == text.subrange(0, without_trailing(text, c).len() as int),
        forall|j: int| without_trailing(text, c).len() <= j < text.len() ==> text[j] == c,
        without_trailing(text, c).len() > 0 ==> without_trailing(text, c).last() != c,
    decreases text.len(),
{
    if text.len() > 0 && text.last() == c {
        let shorter = text.drop_last();
        let kept = without_trailing(shorter, c);
        lemma_without_trailing_shape(shorter, c);
        assert(without_trailing(text, c) == kept);
        assert(shorter.subrange(0, kept.len() as int) =~= text.subrange(0, kept.len() as int));
        assert forall|j: int| kept.len() <= j < text.len() implies text[j] == c by {
            if j < shorter.len() {
                assert(shorter[j] == text[j]);
            }
        }
    } else {
        assert(without_trailing(text, c) == text);
        assert(text.subrange(0, text.len() as int) =~= text);
    }
}

/// Removes every `c` from the end of `text`.
pub fn trim_end(text: &str, c: char) -> (kept: &str)
    ensures
        kept@ == without_trailing(text@, c),
{
    let total: usize = text.unicode_len();
    let mut seen: usize = 0;
    let mut keep: usize = 0;
    for ch in it: text.chars()
        invariant
            it.seq() == text@,
            seen == it.index(),
            total == text@.len(),
            keep <= seen <= total,
            forall|j: int| keep <= j < seen ==> text@[j] == c,
            keep > 0 ==> text@[keep - 1] != c,
    {
        seen = seen + 1;
        if ch != c {
            keep = seen;
        }
    }
    proof {
        lemma_without_trailing(text@, c, keep as int);
    }
    text.substring_char(0, keep)
}

/// Whether `c` is one of the ten decimal digits.
pub open spec fn is_digit(c: char) -> bool {
    '0' <= c <= '9'
}

/// The number that a decimal digit stands for.
pub open spec fn digit_value(c: char) -> nat {
    (c as u32 - '0' as u32) as nat
}

/// The number that a run of decimal digits writes, the most significant first.
pub open spec fn decimal_value(digits: Seq<char>) -> nat
    decreases digits.len(),
{
    if digits.len() == 0 {
        0
    } else {
        10 * decimal_value(digits.drop_last()) + digit_value(digits.last())
    }
}

/// Whether `digits` is a decimal numeral: at least one character, all digits.
pub open spec fn is_decimal(digits: Seq<char>) -> bool {
    digits.len() > 0 && forall|i: int| 0 <= i < digits.len() ==> is_digit(#[trigger] digits[i])
}

/// How many characters of `text` are its sign: one where a `+` leads it.
pub open spec fn sign_len(text: Seq<char>) -> int {
    if text.len() > 0 && text[0] == '+' {
        1
    } else {
        0
    }
}

/// `text` without the one `+` that may lead it.
pub open spec fn unsigned_part(text: Seq<char>) -> Seq<char> {
    text.subrange(sign_len(text), text.len() as int)
}

/// The number that `text` writes, where it is a decimal numeral, with or
/// without a leading `+`, of a number that a `u32` can hold.
pub open spec fn decimal_u32(text: Seq<char>) -> Option<u32> {
    let digits = unsigned_part(text);
    if is_decimal(digits) && decimal_value(digits) <= u32::MAX {
        Some(decimal_value(digits) as u32)
    } else {
        None
    }
}

/// A numeral is worth at least as much as any numeral it starts with.
proof fn lemma_decimal_value_prefix(digits: Seq<char>, k: int)
    requires
        0 <= k <= digits.len(),
    ensures
        decimal_value(digits.subrange(0, k)) <= decimal_value(digits),
    decreases digits.len(),
{
    if k == digits.len() {
        assert(digits.subrange(0, k) =~= digits);
    } else {
        lemma_decimal_value_prefix(digits.drop_last(), k);
        assert(digits.drop_last().subrange(0, k) =~= digits.subrange(0, k));
    }
}

/// One more digit: ten times what was read, and the digit.
proof fn lemma_decimal_value_step(text: Seq<char>, from: int, to: int)
    requires
        0 <= from <= to < text.len(),
    ensures
        decimal_value(text.subrange(from, to + 1)) == 10 * decimal_value(text.subrange(from, to))
            + digit_value(text[to]),
{
    let longer = text.subrange(from, to + 1);
    assert(longer.drop_last() =~= text.subrange(from, to));
    assert(longer.last() == text[to]);
}

/// A text with a character that is neither a digit nor its sign is no numeral.
proof fn lemma_not_a_numeral(text: Seq<char>, at: int)
    requires
        sign_len(text) <= at < text.len(),
        !is_digit(text[at]),
    ensures
        decimal_u32(text) is None,
{
    let digits = unsigned_part(text);
    assert(digits[at - sign_len(text)] == text[at]);
}

/// A text whose digits, read up to some point, are already worth more than a
/// `u32` holds is no numeral of a `u32`.
proof fn lemma_too_large(text: Seq<char>, to: int)
    requires
        sign_len(text) <= to <= text.len(),
        decimal_value(text.subrange(sign_len(text), to)) > u32::MAX,
    ensures
        decimal_u32(text) is None,
{
    let digits = unsigned_part(text);
    assert(digits.subrange(0, to - sign_len(text)) =~= text.subrange(sign_len(text), to));
    lemma_decimal_value_prefix(digits, to - sign_len(text));
}

/// Reads `text` as a decimal numeral: an optional `+`, then digits only.
/// `None` where it is anything else, or the number does not fit.
pub fn parse_u32(text: &str) -> (number: Option<u32>)
    ensures
        number == decimal_u32(text@),
{
    let total: usize = text.unicode_len();
    let mut seen: usize = 0;
    let mut value: u64 = 0;
    let mut signed: bool = false;
    for ch in it: text.chars()
        invariant
            it.seq() == text@,
            seen == it.index(),
            total == text@.len(),
            seen <= total,
            signed <==> seen > 0 && text@[0] == '+',
            seen > 0 ==> sign_len(text@) <= seen,
            forall|j: int| sign_len(text@) <= j < seen ==> is_digit(#[trigger] text@[j]),
            seen > 0 ==> value == decimal_value(text@.subrange(sign_len(text@), seen as int)),
            seen == 0 ==> value == 0,
            value <= u32::MAX,
    {
        if seen == 0 && ch == '+' {
            signed = true;
            assert(text@.subrange(1, 1) =~= Seq::<char>::empty());
        } else if '0' <= ch && ch <= '9' {
            let next: u64 = value * 10 + (ch as u32 - '0' as u32) as u64;
            proof {
                if seen == 0 {
                    assert(text@.subrange(0, 0) =~= Seq::<char>::empty());
                }
                lemma_decimal_value_step(text@, sign_len(text@), seen as int);
            }
            if next > u32::MAX as u64 {
                proof {
                    lemma_too_large(text@, seen + 1);
                }
                return None;
            }
            value = next;
        } else {
            proof {
                lemma_not_a_numeral(text@, seen as int);
            }
            return None;
        }
        seen = seen + 1;
    }
    if seen == 0 || (signed && seen == 1) {
        assert(unsigned_part(text@).len() == 0);
        None
    } else {
        assert(unsigned_part(text@) =~= text@.subrange(sign_len(text@), seen as int));
        Some(value as u32)
    }
}

} // verus!
