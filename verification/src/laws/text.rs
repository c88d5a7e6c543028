//! What trimming, lines, fields and numbers are.
use crate::text::{
    all_digits, contents, decimal_text, decimal_value, fields_of, is_digit,
    law_decimal_text_is_read_back, lemma_position_is, lines_of, optional_text, string_contents,
    trimmed, unsigned_digits, unsigned_number, white_space, without_leading_space,
    without_trailing_space,
};
use vstd::prelude::*;

verus! {

proof fn lemma_leading_space(s: Seq<char>) -> (start: int)
    ensures
        0 <= start <= s.len(),
        without_leading_space(s) == s.skip(start),
        forall|k: int| 0 <= k < start ==> white_space(s[k]),
        start < s.len() ==> !white_space(s[start]),
    decreases s.len(),
{
    if s.len() > 0 && white_space(s[0]) {
        let rest = lemma_leading_space(s.skip(1));
        assert(s.skip(1).skip(rest) == s.skip(rest + 1));
        assert forall|k: int| 0 <= k < rest + 1 implies white_space(s[k]) by {
            if k > 0 {
                assert(s[k] == s.skip(1)[k - 1]);
            }
        }
        rest + 1
    } else {
        assert(s.skip(0) == s);
        0
    }
}

proof fn lemma_trailing_space(s: Seq<char>) -> (end: int)
    ensures
        0 <= end <= s.len(),
        without_trailing_space(s) == s.take(end),
        forall|k: int| end <= k < s.len() ==> white_space(s[k]),
        end > 0 ==> !white_space(s[end - 1]),
    decreases s.len(),
{
    if s.len() > 0 && white_space(s.last()) {
        let end = lemma_trailing_space(s.drop_last());
        assert(s.drop_last().take(end) == s.take(end));
        assert forall|k: int| end <= k < s.len() implies white_space(s[k]) by {
            if k < s.len() - 1 {
                assert(s[k] == s.drop_last()[k]);
            }
        }
        end
    } else {
        assert(s.take(s.len() as int) == s);
        s.len() as int
    }
}

/// A trimmed text is the part of the text between the white space at its ends: all that is cut off
/// is white space, and what is left neither starts nor ends with white space.
pub proof fn law_trimming_cuts_off_outer_space(s: Seq<char>)
    ensures
        exists|start: int, end: int|
            {
                &&& 0 <= start <= end <= s.len()
                &&& trimmed(s) == #[trigger] s.subrange(start, end)
                &&& forall|k: int| 0 <= k < start ==> white_space(s[k])
                &&& forall|k: int| end <= k < s.len() ==> white_space(s[k])
                &&& start < end ==> !white_space(s[start]) && !white_space(s[end - 1])
            },
{
    let start = lemma_leading_space(s);
    let t = s.skip(start);
    let length = lemma_trailing_space(t);
    let end = start + length;
    assert(t.take(length) == s.subrange(start, end));
    assert forall|k: int| end <= k < s.len() implies white_space(s[k]) by {
        assert(s[k] == t[k - start]);
    }
    if start < end {
        assert(t[length - 1] == s[end - 1]);
    }
}

/// Lines end at `\n` or `\r\n`, which is no part of them, and the last ending is optional.
pub proof fn law_lines_end_at_their_endings(line: Seq<char>, rest: Seq<char>)
    requires
        forall|i: int| 0 <= i < line.len() ==> line[i] != '\n',
    ensures
        lines_of(Seq::<char>::empty()) == Seq::<Seq<char>>::empty(),
        line.len() > 0 ==> lines_of(line) == seq![line],
        line.len() == 0 || line.last() != '\r' ==> lines_of(line.push('\n') + rest) == seq![line]
            + lines_of(rest),
        lines_of(line.push('\r').push('\n') + rest) == seq![line] + lines_of(rest),
{
    lemma_position_is(line, '\n', line.len() as int);
    let whole = line.push('\n') + rest;
    lemma_position_is(whole, '\n', line.len() as int);
    assert(whole.take(line.len() as int) == line);
    assert(whole.skip(line.len() as int + 1) == rest);
    let long = line.push('\r').push('\n') + rest;
    lemma_position_is(long, '\n', line.len() as int + 1);
    assert(long.take(line.len() as int + 1) == line.push('\r'));
    assert(line.push('\r').drop_last() == line);
    assert(long.skip(line.len() as int + 2) == rest);
}

/// A field reaches up to the next separator, and the last one up to the end.
pub proof fn law_fields_end_at_separators(field: Seq<char>, separator: char, rest: Seq<char>)
    requires
        forall|i: int| 0 <= i < field.len() ==> field[i] != separator,
    ensures
        fields_of(field, separator) == seq![field],
        fields_of(field.push(separator) + rest, separator) == seq![field] + fields_of(
            rest,
            separator,
        ),
{
    lemma_position_is(field, separator, field.len() as int);
    let whole = field.push(separator) + rest;
    lemma_position_is(whole, separator, field.len() as int);
    assert(whole.take(field.len() as int) == field);
    assert(whole.skip(field.len() as int + 1) == rest);
}

proof fn lemma_digits_pushed(s: Seq<char>, c: char)
    ensures
        decimal_value(s.push(c)) == 10 * decimal_value(s) + (c as int - '0' as int),
        all_digits(s.push(c)) <==> all_digits(s) && is_digit(c),
{
    let t = s.push(c);
    assert(t.drop_last() == s);
    if all_digits(t) {
        assert forall|i: int| 0 <= i < s.len() implies is_digit(#[trigger] s[i]) by {
            assert(is_digit(t[i]));
        }
        assert(is_digit(t[s.len() as int]));
    }
    if all_digits(s) && is_digit(c) {
        assert forall|i: int| 0 <= i < t.len() implies is_digit(#[trigger] t[i]) by {
            if i < s.len() {
                assert(is_digit(s[i]));
            }
        }
    }
}

/// Numbers are read digit by digit: one more digit makes ten times the number plus the digit, as
/// long as that fits 32 bits, and any other character makes it no number.
pub proof fn law_numbers_are_read_digit_by_digit(s: Seq<char>, c: char)
    ensures
        unsigned_number(Seq::<char>::empty()) is None,
        unsigned_number(seq!['+']) is None,
        '0' <= c <= '9' ==> unsigned_number(seq![c]) == Some((c as int - 48) as u32),
        '0' <= c <= '9' ==> unsigned_number(seq!['+', c]) == Some((c as int - 48) as u32),
        !('0' <= c <= '9') ==> unsigned_number(s.push(c)) is None,
        '0' <= c <= '9' ==> (unsigned_number(s) matches Some(n) ==> unsigned_number(s.push(c)) == (
        if 10 * n + (c as int - 48) <= u32::MAX {
            Some((10 * n + (c as int - 48)) as u32)
        } else {
            None
        })),
        unsigned_number(s) is None && s.len() > 0 && s != seq!['+'] ==> unsigned_number(
            s.push(c),
        ) is None,
{
    let none = Seq::<char>::empty();
    assert(seq!['+'].skip(1) == none);
    assert(seq!['+', c].skip(1) == seq![c]);
    assert(none.push(c) == seq![c]);
    lemma_digits_pushed(none, c);
    let digits = unsigned_digits(s);
    let t = s.push(c);
    if s.len() > 0 {
        assert(s[0] == '+' ==> t.skip(1) == s.skip(1).push(c));
        assert(unsigned_digits(t) == digits.push(c));
        lemma_digits_pushed(digits, c);
        if s[0] == '+' && s.len() == 1 {
            assert(s == seq!['+']);
        }
        if all_digits(digits) {
            lemma_value_is_natural(digits);
        }
    } else {
        assert(s == none);
        if c == '+' {
            assert(t == seq!['+']);
        }
    }
}

proof fn lemma_value_is_natural(s: Seq<char>)
    requires
        all_digits(s),
    ensures
        decimal_value(s) >= 0,
    decreases s.len(),
{
    if s.len() > 0 {
        assert(is_digit(s[s.len() - 1]));
        assert forall|i: int| 0 <= i < s.drop_last().len() implies is_digit(
            #[trigger] s.drop_last()[i],
        ) by {
            assert(is_digit(s[i]));
        }
        lemma_value_is_natural(s.drop_last());
    }
}

/// A number is written in digits only, without leading zeros, and reads back as itself.
pub proof fn law_numbers_are_written_in_digits(n: u32)
    ensures
        forall|i: int|
            0 <= i < decimal_text(n as nat).len() ==> '0' <= #[trigger] decimal_text(n as nat)[i]
                <= '9',
        decimal_text(0) == seq!['0'],
        n > 0 ==> decimal_text(n as nat)[0] != '0',
        unsigned_number(decimal_text(n as nat)) == Some(n),
{
    law_decimal_text_is_read_back(n);
    lemma_written_in_digits(n as nat);
}

proof fn lemma_written_in_digits(n: nat)
    ensures
        decimal_text(n).len() > 0,
        forall|i: int| 0 <= i < decimal_text(n).len() ==> '0' <= #[trigger] decimal_text(n)[i] <= '9',
        n > 0 ==> decimal_text(n)[0] != '0',
    decreases n,
{
    if n >= 10 {
        lemma_written_in_digits(n / 10);
        let front = decimal_text(n / 10);
        assert forall|i: int| 0 <= i < decimal_text(n).len() implies '0' <= #[trigger] decimal_text(
            n,
        )[i] <= '9' by {
            if i < front.len() {
                assert(decimal_text(n)[i] == front[i]);
            }
        }
        assert(decimal_text(n)[0] == front[0]);
    }
}

/// The contents of texts are the texts' own, one by one and in order.
pub proof fn law_contents_are_those_of_the_texts(
    texts: Seq<&str>,
    strings: Seq<String>,
    optional: Option<String>,
)
    ensures
        contents(texts).len() == texts.len(),
        forall|i: int| 0 <= i < texts.len() ==> #[trigger] contents(texts)[i] == texts[i]@,
        string_contents(strings).len() == strings.len(),
        forall|i: int|
            0 <= i < strings.len() ==> #[trigger] string_contents(strings)[i] == strings[i]@,
        optional_text(optional) is Some <==> optional is Some,
        optional matches Some(text) ==> optional_text(optional) == Some(text@),
{
}

} // verus!
