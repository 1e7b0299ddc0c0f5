//! Splitting a text at a delimiter character, and writing numbers.
//!
//! Credentials and identifiers are delimited texts: an API key is three parts
//! joined by `_`, an identifier two parts joined by `:`. This module says what
//! the parts of a text are and finds the first delimiters in one pass. It
//! also writes the counts that go into diagnostics.

use vstd::prelude::*;

verus! {

/// How often `delimiter` occurs in `text`.
pub open spec fn count_of(text: Seq<char>, delimiter: char) -> nat
    decreases text.len(),
{
    if text.len() == 0 {
        0
    } else {
        count_of(text.drop_last(), delimiter) + if text.last() == delimiter {
            1nat
        } else {
            0nat
        }
    }
}

/// Where `delimiter` first occurs in `text`, or `text.len()` if it does not.
pub open spec fn first_index(text: Seq<char>, delimiter: char) -> int
    decreases text.len(),
{
    if text.len() == 0 || text[0] == delimiter {
        0
    } else {
        1 + first_index(text.drop_first(), delimiter)
    }
}

/// Where `delimiter` occurs for the second time in `text`, or `text.len()` if
/// it occurs less than twice.
pub open spec fn second_index(text: Seq<char>, delimiter: char) -> int {
    let first = first_index(text, delimiter);
    if first < text.len() {
        first + 1 + first_index(text.skip(first + 1), delimiter)
    } else {
        text.len() as int
    }
}

/// The parts of `text` between the occurrences of `delimiter`, in order. A
/// text without the delimiter is one part; an empty text is one empty part.
pub open spec fn split(text: Seq<char>, delimiter: char) -> Seq<Seq<char>>
    decreases text.len(),
{
    let first = first_index(text, delimiter);
    if 0 <= first < text.len() {
        seq![text.take(first)] + split(text.skip(first + 1), delimiter)
    } else {
        seq![text]
    }
}

/// `delimiter` occurs nowhere in `text`.
pub open spec fn free_of(text: Seq<char>, delimiter: char) -> bool {
    forall|i: int| 0 <= i < text.len() ==> text[i] != delimiter
}

/// The first index lies within the text, nothing before it is the delimiter,
/// and the delimiter stands there unless the index is the length.
pub proof fn lemma_first_index(text: Seq<char>, delimiter: char)
    ensures
        0 <= first_index(text, delimiter) <= text.len(),
        free_of(text.take(first_index(text, delimiter)), delimiter),
        first_index(text, delimiter) < text.len() ==> text[first_index(text, delimiter)]
            == delimiter,
    decreases text.len(),
{
    if text.len() == 0 || text[0] == delimiter {
    } else {
        let rest = text.drop_first();
        lemma_first_index(rest, delimiter);
        let first = first_index(text, delimiter);
        let before = text.take(first);
        assert forall|i: int| 0 <= i < before.len() implies before[i] != delimiter by {
            if i > 0 {
                assert(rest.take(first - 1)[i - 1] == text[i]);
            }
        }
    }
}

/// An index with nothing but other characters before it, and the delimiter or
/// the end of the text at it, is the first index.
pub proof fn lemma_first_index_is(text: Seq<char>, delimiter: char, at: int)
    requires
        0 <= at <= text.len(),
        free_of(text.take(at), delimiter),
        at < text.len() ==> text[at] == delimiter,
    ensures
        first_index(text, delimiter) == at,
    decreases text.len(),
{
    if text.len() == 0 {
    } else if text[0] == delimiter {
        if at > 0 {
            assert(text.take(at)[0] == delimiter);
        }
    } else {
        let rest = text.drop_first();
        let before = rest.take(at - 1);
        assert forall|i: int| 0 <= i < before.len() implies before[i] != delimiter by {
            assert(text.take(at)[i + 1] == before[i]);
        }
        lemma_first_index_is(rest, delimiter, at - 1);
    }
}

/// Occurrences add up over a concatenation.
pub proof fn lemma_count_of_concat(left: Seq<char>, right: Seq<char>, delimiter: char)
    ensures
        count_of(left + right, delimiter) == count_of(left, delimiter) + count_of(
            right,
            delimiter,
        ),
    decreases right.len(),
{
    if right.len() == 0 {
        assert(left + right =~= left);
    } else {
        assert((left + right).drop_last() =~= left + right.drop_last());
        lemma_count_of_concat(left, right.drop_last(), delimiter);
    }
}

/// A text is free of the delimiter exactly when the delimiter occurs zero
/// times in it.
pub proof fn lemma_count_of_zero(text: Seq<char>, delimiter: char)
    ensures
        free_of(text, delimiter) <==> count_of(text, delimiter) == 0,
    decreases text.len(),
{
    if text.len() > 0 {
        lemma_count_of_zero(text.drop_last(), delimiter);
        if free_of(text, delimiter) {
            assert forall|i: int| 0 <= i < text.drop_last().len() implies text.drop_last()[i]
                != delimiter by {
                assert(text.drop_last()[i] == text[i]);
            }
        }
        if count_of(text, delimiter) == 0 {
            assert forall|i: int| 0 <= i < text.len() implies text[i] != delimiter by {
                if i < text.len() - 1 {
                    assert(text.drop_last()[i] == text[i]);
                }
            }
        }
    }
}

/// Cutting a text at its first delimiter leaves one occurrence less behind it.
pub proof fn lemma_count_of_after_first(text: Seq<char>, delimiter: char)
    requires
        first_index(text, delimiter) < text.len(),
    ensures
        count_of(text, delimiter) == 1 + count_of(
            text.skip(first_index(text, delimiter) + 1),
            delimiter,
        ),
{
    let first = first_index(text, delimiter);
    lemma_first_index(text, delimiter);
    let head = text.take(first);
    let mark = seq![delimiter];
    let tail = text.skip(first + 1);
    assert(text =~= head + mark + tail);
    lemma_count_of_concat(head + mark, tail, delimiter);
    lemma_count_of_concat(head, mark, delimiter);
    lemma_count_of_zero(head, delimiter);
    assert(mark.drop_last() =~= Seq::<char>::empty());
    assert(count_of(mark, delimiter) == 1) by {
        reveal_with_fuel(count_of, 2);
    }
}

/// A text has one part more than it has delimiters.
pub proof fn lemma_split_len(text: Seq<char>, delimiter: char)
    ensures
        split(text, delimiter).len() == count_of(text, delimiter) + 1,
    decreases text.len(),
{
    let first = first_index(text, delimiter);
    lemma_first_index(text, delimiter);
    if first < text.len() {
        lemma_count_of_after_first(text, delimiter);
        lemma_split_len(text.skip(first + 1), delimiter);
    } else {
        assert(text.take(first) =~= text);
        lemma_count_of_zero(text, delimiter);
    }
}

/// No part of a split holds the delimiter.
pub proof fn lemma_split_parts_free(text: Seq<char>, delimiter: char)
    ensures
        forall|k: int|
            0 <= k < split(text, delimiter).len() ==> free_of(
                #[trigger] split(text, delimiter)[k],
                delimiter,
            ),
    decreases text.len(),
{
    let first = first_index(text, delimiter);
    let parts = split(text, delimiter);
    lemma_first_index(text, delimiter);
    if first < text.len() {
        let rest = split(text.skip(first + 1), delimiter);
        lemma_split_parts_free(text.skip(first + 1), delimiter);
        assert forall|k: int| 0 <= k < parts.len() implies free_of(
            #[trigger] parts[k],
            delimiter,
        ) by {
            if k > 0 {
                assert(parts[k] == rest[k - 1]);
            }
        }
    } else {
        assert(text.take(first) =~= text);
    }
}

/// A text with exactly one delimiter splits into what stands before it and
/// what stands behind it.
pub proof fn lemma_split_two(text: Seq<char>, delimiter: char)
    requires
        count_of(text, delimiter) == 1,
    ensures
        0 <= first_index(text, delimiter) < text.len(),
        split(text, delimiter) == seq![
            text.take(first_index(text, delimiter)),
            text.skip(first_index(text, delimiter) + 1),
        ],
{
    let first = first_index(text, delimiter);
    lemma_first_index(text, delimiter);
    if first >= text.len() {
        assert(text.take(first) =~= text);
        lemma_count_of_zero(text, delimiter);
    }
    let tail = text.skip(first + 1);
    lemma_count_of_after_first(text, delimiter);
    lemma_count_of_zero(tail, delimiter);
    lemma_first_index_is(tail, delimiter, tail.len() as int);
    assert(split(tail, delimiter) =~= seq![tail]);
    assert(split(text, delimiter) =~= seq![text.take(first), tail]);
}

/// A text with exactly two delimiters splits into what stands before the
/// first, between the two, and behind the second.
pub proof fn lemma_split_three(text: Seq<char>, delimiter: char)
    requires
        count_of(text, delimiter) == 2,
    ensures
        0 <= first_index(text, delimiter) < second_index(text, delimiter) < text.len(),
        split(text, delimiter) == seq![
            text.take(first_index(text, delimiter)),
            text.subrange(first_index(text, delimiter) + 1, second_index(text, delimiter)),
            text.skip(second_index(text, delimiter) + 1),
        ],
{
    let first = first_index(text, delimiter);
    lemma_first_index(text, delimiter);
    if first >= text.len() {
        assert(text.take(first) =~= text);
        lemma_count_of_zero(text, delimiter);
    }
    let tail = text.skip(first + 1);
    lemma_count_of_after_first(text, delimiter);
    lemma_split_two(tail, delimiter);
    let inner = first_index(tail, delimiter);
    assert(tail.take(inner) =~= text.subrange(first + 1, first + 1 + inner));
    assert(tail.skip(inner + 1) =~= text.skip(first + 1 + inner + 1));
    assert(split(text, delimiter) =~= seq![text.take(first)] + split(tail, delimiter));
}

/// Three parts free of the delimiter, joined by it, split into those parts.
pub proof fn lemma_split_of_joined(
    first: Seq<char>,
    second: Seq<char>,
    third: Seq<char>,
    delimiter: char,
)
    requires
        free_of(first, delimiter),
        free_of(second, delimiter),
        free_of(third, delimiter),
    ensures
        split(first + seq![delimiter] + second + seq![delimiter] + third, delimiter) == seq![
            first,
            second,
            third,
        ],
{
    let mark = seq![delimiter];
    let text = first + mark + second + mark + third;
    let tail = second + mark + third;
    assert(text.take(first.len() as int) =~= first);
    lemma_first_index_is(text, delimiter, first.len() as int);
    assert(text.skip(first.len() as int + 1) =~= tail);
    assert(tail.take(second.len() as int) =~= second);
    lemma_first_index_is(tail, delimiter, second.len() as int);
    assert(tail.skip(second.len() as int + 1) =~= third);
    assert(third.take(third.len() as int) =~= third);
    lemma_first_index_is(third, delimiter, third.len() as int);
    assert(split(third, delimiter) =~= seq![third]);
    assert(split(tail, delimiter) =~= seq![second] + split(third, delimiter));
    assert(split(text, delimiter) =~= seq![first] + split(tail, delimiter));
}

/// `needle` stands in `text` from position `at` on.
pub open spec fn occurs_at(needle: Seq<char>, text: Seq<char>, at: int) -> bool {
    0 <= at && at + needle.len() <= text.len() && text.subrange(at, at + needle.len()) == needle
}

/// `needle` occurs in `text` as a run of consecutive characters.
pub open spec fn occurs_in(needle: Seq<char>, text: Seq<char>) -> bool {
    exists|at: int| occurs_at(needle, text, at)
}

/// What occurs in a part of a text occurs in the text.
pub proof fn lemma_occurs_in_part(
    needle: Seq<char>,
    left: Seq<char>,
    part: Seq<char>,
    right: Seq<char>,
)
    requires
        occurs_in(needle, part),
    ensures
        occurs_in(needle, left + part + right),
{
    let at = choose|at: int| occurs_at(needle, part, at);
    let text = left + part + right;
    assert(text.subrange(left.len() + at, left.len() + at + needle.len()) =~= part.subrange(
        at,
        at + needle.len(),
    ));
    assert(occurs_at(needle, text, left.len() + at));
}

/// What occurs in two joined texts, and is free of the character at which
/// they meet, occurs in one of the two. The character is the last of the
/// left text or the first of the right one.
pub proof fn lemma_occurs_in_joined(
    needle: Seq<char>,
    left: Seq<char>,
    right: Seq<char>,
    wall: char,
)
    requires
        free_of(needle, wall),
        (left.len() > 0 && left.last() == wall) || (right.len() > 0 && right[0] == wall),
        occurs_in(needle, left + right),
    ensures
        occurs_in(needle, left) || occurs_in(needle, right),
{
    let text = left + right;
    let at = choose|at: int| occurs_at(needle, text, at);
    let len = needle.len() as int;
    let met = if left.len() > 0 && left.last() == wall {
        left.len() - 1
    } else {
        left.len() as int
    };
    assert(text[met] == wall);
    if len == 0 {
        assert(left.subrange(0, 0) =~= needle);
        assert(occurs_at(needle, left, 0));
    } else {
        if at <= met < at + len {
            assert(text.subrange(at, at + len)[met - at] == text[met]);
            assert(needle[met - at] == wall);
        }
        if at + len <= met {
            assert(left.subrange(at, at + len) =~= text.subrange(at, at + len));
            assert(occurs_at(needle, left, at));
        } else {
            let from = at - left.len();
            assert(right.subrange(from, from + len) =~= text.subrange(at, at + len));
            assert(occurs_at(needle, right, from));
        }
    }
}

/// What one pass over a text finds of a delimiter.
pub struct DelimiterScan {
    /// How often the delimiter occurs.
    pub count: usize,
    /// The position of its first occurrence, or the text's length.
    pub first: usize,
    /// The position of its second occurrence, or the text's length.
    pub second: usize,
    /// The number of characters in the text.
    pub len: usize,
}

/// Counts the occurrences of `delimiter` in `text` and finds the first two, in
/// one pass over its characters.
pub fn scan_delimiter(text: &str, delimiter: char) -> (scan: DelimiterScan)
    ensures
        scan.len == text@.len(),
        scan.count == count_of(text@, delimiter),
        scan.first == first_index(text@, delimiter),
        scan.second == second_index(text@, delimiter),
{
    broadcast use vstd::string::group_string_axioms;

    let len: usize = text.unicode_len();
    let mut count: usize = 0;
    let mut first: usize = len;
    let mut second: usize = len;
    let mut at: usize = 0;
    proof {
        assert(text@.take(0) =~= Seq::<char>::empty());
    }
    for ch in chars: text.chars()
        invariant
            chars.seq() == text@,
            len == text@.len(),
            at == chars.index(),
            count <= at,
            count == count_of(text@.take(at as int), delimiter),
            count == 0 ==> first == len && free_of(text@.take(at as int), delimiter),
            count >= 1 ==> first < at && text@[first as int] == delimiter && free_of(
                text@.take(first as int),
                delimiter,
            ),
            count <= 1 ==> second == len,
            count == 1 ==> free_of(text@.subrange(first + 1, at as int), delimiter),
            count >= 2 ==> first < second < at && text@[second as int] == delimiter && free_of(
                text@.subrange(first + 1, second as int),
                delimiter,
            ),
    {
        proof {
            assert(text@.take(at + 1).drop_last() =~= text@.take(at as int));
            assert(text@.take(at + 1).last() == text@[at as int]);
        }
        if ch == delimiter {
            if count == 0 {
                first = at;
                assert(text@.subrange(first + 1, at + 1) =~= Seq::<char>::empty());
            } else if count == 1 {
                second = at;
            }
            count = count + 1;
        } else {
            proof {
                if count == 0 {
                    let seen = text@.take(at + 1);
                    assert forall|i: int| 0 <= i < seen.len() implies seen[i] != delimiter by {
                        if i < at {
                            assert(text@.take(at as int)[i] == text@[i]);
                        }
                    }
                }
                if count == 1 {
                    let seen = text@.subrange(first + 1, at + 1);
                    assert forall|i: int| 0 <= i < seen.len() implies seen[i] != delimiter by {
                        if i < at - first - 1 {
                            assert(text@.subrange(first + 1, at as int)[i] == text@[first + 1 + i]);
                        }
                    }
                }
            }
        }
        at = at + 1;
    }
    proof {
        assert(text@.take(at as int) =~= text@);
        if count == 0 {
            lemma_first_index_is(text@, delimiter, len as int);
        } else {
            lemma_first_index_is(text@, delimiter, first as int);
            let tail = text@.skip(first + 1);
            if count == 1 {
                assert(tail =~= text@.subrange(first + 1, at as int));
                lemma_first_index_is(tail, delimiter, tail.len() as int);
            } else {
                assert(tail.take(second - first - 1) =~= text@.subrange(
                    first + 1,
                    second as int,
                ));
                lemma_first_index_is(tail, delimiter, second - first - 1);
            }
        }
    }
    DelimiterScan { count, first, second, len }
}

/// The decimal digit of a value below ten.
pub open spec fn digit_char(digit: int) -> char {
    seq!['0', '1', '2', '3', '4', '5', '6', '7', '8', '9'][digit]
}

/// The decimal numeral of `value`, without leading zeros.
pub open spec fn decimal(value: nat) -> Seq<char>
    decreases value,
{
    if value < 10 {
        seq![digit_char(value as int)]
    } else {
        decimal(value / 10).push(digit_char(value as int % 10))
    }
}

/// The numeral whose digits are `digits`, the last of them first.
pub open spec fn numeral(digits: Seq<u8>) -> Seq<char> {
    Seq::new(digits.len(), |i: int| digit_char(digits[digits.len() - 1 - i] as int))
}

/// The text of one decimal digit.
fn digit_text(digit: u8) -> (text: &'static str)
    requires
        digit < 10,
    ensures
        text@ == seq![digit_char(digit as int)],
{
    proof {
        reveal_strlit("0");
        reveal_strlit("1");
        reveal_strlit("2");
        reveal_strlit("3");
        reveal_strlit("4");
        reveal_strlit("5");
        reveal_strlit("6");
        reveal_strlit("7");
        reveal_strlit("8");
        reveal_strlit("9");
    }
    let text = match digit {
        0 => "0",
        1 => "1",
        2 => "2",
        3 => "3",
        4 => "4",
        5 => "5",
        6 => "6",
        7 => "7",
        8 => "8",
        _ => "9",
    };
    assert(text@ =~= seq![digit_char(digit as int)]);
    text
}

/// Writes `value` as a decimal numeral.
pub fn decimal_string(value: usize) -> (text: String)
    ensures
        text@ == decimal(value as nat),
{
    let mut digits: Vec<u8> = Vec::new();
    digits.push((value % 10) as u8);
    let mut rest: usize = value / 10;
    proof {
        assert(numeral(digits@) =~= seq![digit_char(value as int % 10)]);
        if rest > 0 {
            assert(decimal(value as nat) =~= decimal(rest as nat) + numeral(digits@));
        }
    }
    while rest > 0
        invariant
            digits@.len() > 0,
            forall|i: int| 0 <= i < digits@.len() ==> digits@[i] < 10,
            rest > 0 ==> decimal(value as nat) == decimal(rest as nat) + numeral(digits@),
            rest == 0 ==> decimal(value as nat) == numeral(digits@),
        decreases rest,
    {
        let ghost before = digits@;
        let ghost higher = rest as nat;
        let digit = (rest % 10) as u8;
        digits.push(digit);
        rest = rest / 10;
        proof {
            assert(numeral(digits@) =~= seq![digit_char(digit as int)] + numeral(before));
            if rest > 0 {
                assert(decimal(higher) =~= decimal(rest as nat) + seq![digit_char(digit as int)]);
            } else {
                assert(decimal(higher) =~= seq![digit_char(digit as int)]);
            }
            assert(decimal(value as nat) =~= decimal(higher) + numeral(before));
        }
    }
    let mut text = String::new();
    let mut left: usize = digits.len();
    while left > 0
        invariant
            left <= digits@.len(),
            forall|i: int| 0 <= i < digits@.len() ==> digits@[i] < 10,
            text@ == numeral(digits@).take(digits@.len() - left),
        decreases left,
    {
        left = left - 1;
        text.append(digit_text(digits[left]));
        proof {
            assert(text@ =~= numeral(digits@).take(digits@.len() - left));
        }
    }
    proof {
        assert(numeral(digits@).take(digits@.len() as int) =~= numeral(digits@));
    }
    text
}

} // verus!
