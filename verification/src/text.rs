//! Text handling: white space, lines, fields and decimal numbers.
//!
//! Texts are modelled as sequences of characters. Lines, fields, trimming and numbers are what the
//! standard library's `lines`, `split`, `trim` and `parse` take them for.
use vstd::prelude::*;
use vstd::string::*;

verus! {

/// The code points with the Unicode property `White_Space`.
pub open spec fn white_space(c: char) -> bool {
    ||| '\t' <= c <= '\r'
    ||| c == ' '
    ||| c == '\u{85}'
    ||| c == '\u{a0}'
    ||| c == '\u{1680}'
    ||| '\u{2000}' <= c <= '\u{200a}'
    ||| '\u{2028}' <= c <= '\u{2029}'
    ||| c == '\u{202f}'
    ||| c == '\u{205f}'
    ||| c == '\u{3000}'
}

/// A text without its leading white space.
pub open spec fn without_leading_space(s: Seq<char>) -> Seq<char>
    decreases s.len(),
{
    if s.len() > 0 && white_space(s[0]) {
        without_leading_space(s.skip(1))
    } else {
        s
    }
}

/// A text without its trailing white space.
pub open spec fn without_trailing_space(s: Seq<char>) -> Seq<char>
    decreases s.len(),
{
    if s.len() > 0 && white_space(s.last()) {
        without_trailing_space(s.drop_last())
    } else {
        s
    }
}

/// A text without its leading and trailing white space.
pub open spec fn trimmed(s: Seq<char>) -> Seq<char> {
    without_trailing_space(without_leading_space(s))
}

/// The position of the first `c` in a text, or the length of the text where it has none.
pub open spec fn position_of(s: Seq<char>, c: char) -> int
    decreases s.len(),
{
    if s.len() == 0 || s[0] == c {
        0
    } else {
        1 + position_of(s.skip(1), c)
    }
}

/// A line without the carriage return that belongs to its line ending.
pub open spec fn without_carriage_return(line: Seq<char>) -> Seq<char> {
    if line.len() > 0 && line.last() == '\r' {
        line.drop_last()
    } else {
        line
    }
}

/// The lines of a text. A line ends at `\n` or at `\r\n`, and the last ending is optional.
pub open spec fn lines_of(s: Seq<char>) -> Seq<Seq<char>>
    decreases s.len(),
{
    let end = position_of(s, '\n');
    if s.len() == 0 {
        seq![]
    } else if 0 <= end < s.len() {
        seq![without_carriage_return(s.take(end))] + lines_of(s.skip(end + 1))
    } else {
        seq![s]
    }
}

/// The pieces of a text between the occurrences of a separator: one more than there are
/// separators.
pub open spec fn fields_of(s: Seq<char>, separator: char) -> Seq<Seq<char>>
    decreases s.len(),
{
    let end = position_of(s, separator);
    if 0 <= end < s.len() {
        seq![s.take(end)] + fields_of(s.skip(end + 1), separator)
    } else {
        seq![s]
    }
}

pub open spec fn is_digit(c: char) -> bool {
    '0' <= c <= '9'
}

pub open spec fn all_digits(s: Seq<char>) -> bool {
    forall|i: int| 0 <= i < s.len() ==> is_digit(#[trigger] s[i])
}

/// The number that a sequence of decimal digits writes down.
pub open spec fn decimal_value(s: Seq<char>) -> int
    decreases s.len(),
{
    if s.len() == 0 {
        0
    } else {
        10 * decimal_value(s.drop_last()) + (s.last() as int - '0' as int)
    }
}

/// The digits of a number text: what follows an optional plus sign.
pub open spec fn unsigned_digits(s: Seq<char>) -> Seq<char> {
    if s.len() > 0 && s[0] == '+' {
        s.skip(1)
    } else {
        s
    }
}

/// The 32 bit number that a text writes down: an optional plus sign, then one or more digits.
pub open spec fn unsigned_number(s: Seq<char>) -> Option<u32> {
    let digits = unsigned_digits(s);
    if digits.len() > 0 && all_digits(digits) && decimal_value(digits) <= u32::MAX {
        Some(decimal_value(digits) as u32)
    } else {
        None
    }
}

/// The character of a decimal digit.
pub open spec fn digit_char(digit: nat) -> char {
    ('0' as int + digit) as char
}

/// A number in decimal digits, without leading zeros.
pub open spec fn decimal_text(n: nat) -> Seq<char>
    decreases n,
{
    if n < 10 {
        seq![digit_char(n)]
    } else {
        decimal_text(n / 10).push(digit_char(n % 10))
    }
}

/// The contents of a list of texts.
pub open spec fn contents(texts: Seq<&str>) -> Seq<Seq<char>> {
    texts.map_values(|t: &str| t@)
}

/// The contents of a list of owned texts.
pub open spec fn string_contents(texts: Seq<String>) -> Seq<Seq<char>> {
    texts.map_values(|t: String| t@)
}

/// The contents of an optional text.
pub open spec fn optional_text(text: Option<String>) -> Option<Seq<char>> {
    match text {
        Some(s) => Some(s@),
        None => None,
    }
}

/// The position of a character is that of its first occurrence.
pub proof fn lemma_position_of(s: Seq<char>, c: char)
    ensures
        0 <= position_of(s, c) <= s.len(),
        position_of(s, c) < s.len() ==> s[position_of(s, c)] == c,
        forall|i: int| 0 <= i < position_of(s, c) ==> s[i] != c,
    decreases s.len(),
{
    if s.len() == 0 || s[0] == c {
    } else {
        lemma_position_of(s.skip(1), c);
        assert forall|i: int| 0 <= i < position_of(s, c) implies s[i] != c by {
            if i > 0 {
                assert(s[i] == s.skip(1)[i - 1]);
            }
        }
    }
}

/// The first occurrence of a character is its position.
pub proof fn lemma_position_is(s: Seq<char>, c: char, at: int)
    requires
        0 <= at <= s.len(),
        at < s.len() ==> s[at] == c,
        forall|i: int| 0 <= i < at ==> s[i] != c,
    ensures
        position_of(s, c) == at,
{
    lemma_position_of(s, c);
    let p = position_of(s, c);
    if p < at {
        assert(s[p] != c);
    } else if at < p {
        assert(s[at] != c);
    }
}

proof fn lemma_without_leading_space(s: Seq<char>, at: int)
    requires
        0 <= at <= s.len(),
        at < s.len() ==> !white_space(s[at]),
        forall|i: int| 0 <= i < at ==> white_space(s[i]),
    ensures
        without_leading_space(s) == s.skip(at),
    decreases s.len(),
{
    if at == 0 {
        assert(s.skip(0) == s);
    } else {
        assert forall|i: int| 0 <= i < at - 1 implies white_space(s.skip(1)[i]) by {
            assert(s.skip(1)[i] == s[i + 1]);
        }
        lemma_without_leading_space(s.skip(1), at - 1);
        assert(s.skip(1).skip(at - 1) == s.skip(at));
    }
}

proof fn lemma_without_trailing_space(s: Seq<char>, end: int)
    requires
        0 <= end <= s.len(),
        end > 0 ==> !white_space(s[end - 1]),
        forall|i: int| end <= i < s.len() ==> white_space(s[i]),
    ensures
        without_trailing_space(s) == s.take(end),
    decreases s.len(),
{
    if end == s.len() {
        assert(s.take(end) == s);
    } else {
        lemma_without_trailing_space(s.drop_last(), end);
        assert(s.drop_last().take(end) == s.take(end));
    }
}

proof fn lemma_decimal_value_grows(s: Seq<char>, n: int)
    requires
        all_digits(s),
        0 <= n <= s.len(),
    ensures
        0 <= decimal_value(s.take(n)) <= decimal_value(s),
    decreases s.len() - n, s.len(),
{
    if n < s.len() {
        lemma_decimal_value_grows(s, n + 1);
        assert(s.take(n + 1).drop_last() == s.take(n));
        assert(is_digit(s.take(n + 1).last()));
        lemma_decimal_value_grows(s.take(n), n);
        assert(s.take(n).take(n) == s.take(n));
    } else {
        assert(s.take(n) == s);
        if n > 0 {
            lemma_decimal_value_grows(s.drop_last(), n - 1);
            assert(s.drop_last().take(n - 1) == s.drop_last());
            assert(is_digit(s.last()));
        }
    }
}

/// A number is read back from its decimal text.
pub proof fn law_decimal_text_is_read_back(n: u32)
    ensures
        unsigned_number(decimal_text(n as nat)) == Some(n),
{
    lemma_decimal_text(n as nat);
    let s = decimal_text(n as nat);
    assert(is_digit(s[0]));
}

proof fn lemma_decimal_text(n: nat)
    ensures
        decimal_text(n).len() > 0,
        all_digits(decimal_text(n)),
        decimal_value(decimal_text(n)) == n,
    decreases n,
{
    reveal_with_fuel(decimal_value, 2);
    if n < 10 {
        assert(decimal_text(n).drop_last() == Seq::<char>::empty());
    } else {
        lemma_decimal_text(n / 10);
        let s = decimal_text(n);
        assert(s.drop_last() == decimal_text(n / 10));
        assert forall|i: int| 0 <= i < s.len() implies is_digit(#[trigger] s[i]) by {
            if i < s.len() - 1 {
                assert(is_digit(decimal_text(n / 10)[i]));
            }
        }
    }
}

/// The lines of a text that starts with a whole line are that line and the lines of the rest.
pub proof fn law_lines_are_read_one_by_one(line: Seq<char>, rest: Seq<char>)
    requires
        forall|i: int| 0 <= i < line.len() ==> line[i] != '\n',
    ensures
        lines_of(line.push('\n') + rest) == seq![without_carriage_return(line)] + lines_of(rest),
{
    let s = line.push('\n') + rest;
    lemma_position_is(s, '\n', line.len() as int);
    assert(s.take(line.len() as int) == line);
    assert(s.skip(line.len() as int + 1) == rest);
}

/// The lines of two parts are those of the first, which ends in a line ending, and then those of
/// the second, however many lines a part has.
pub proof fn law_lines_are_read_part_by_part(first: Seq<char>, rest: Seq<char>)
    ensures
        lines_of(first.push('\n') + rest) == lines_of(first.push('\n')) + lines_of(rest),
    decreases first.len(),
{
    let end = position_of(first, '\n');
    lemma_position_of(first, '\n');
    let none = Seq::<char>::empty();
    if end < first.len() {
        let line = first.take(end);
        let tail = first.skip(end + 1);
        assert(first.push('\n') + rest == line.push('\n') + (tail.push('\n') + rest));
        assert(first.push('\n') == line.push('\n') + tail.push('\n'));
        law_lines_are_read_one_by_one(line, tail.push('\n') + rest);
        law_lines_are_read_one_by_one(line, tail.push('\n'));
        law_lines_are_read_part_by_part(tail, rest);
        assert(lines_of(first.push('\n') + rest) =~= lines_of(first.push('\n')) + lines_of(rest));
    } else {
        law_lines_are_read_one_by_one(first, rest);
        law_lines_are_read_one_by_one(first, none);
        assert(first.push('\n') + none == first.push('\n'));
    }
}

/// Trimming drops everything up to the first and everything after the last character that is no
/// white space: what remains neither starts nor ends with white space.
pub proof fn law_trimmed_has_no_outer_space(s: Seq<char>)
    ensures
        trimmed(s).len() > 0 ==> !white_space(trimmed(s)[0]) && !white_space(trimmed(s).last()),
{
    let t = without_leading_space(s);
    lemma_leading_space_gone(s);
    lemma_trailing_space_gone(t);
}

proof fn lemma_leading_space_gone(s: Seq<char>)
    ensures
        without_leading_space(s).len() > 0 ==> !white_space(without_leading_space(s)[0]),
    decreases s.len(),
{
    if s.len() > 0 && white_space(s[0]) {
        lemma_leading_space_gone(s.skip(1));
    }
}

proof fn lemma_trailing_space_gone(s: Seq<char>)
    ensures
        without_trailing_space(s).len() > 0 ==> {
            &&& !white_space(without_trailing_space(s).last())
            &&& s.len() > 0
            &&& without_trailing_space(s)[0] == s[0]
        },
    decreases s.len(),
{
    if s.len() > 0 && white_space(s.last()) {
        lemma_trailing_space_gone(s.drop_last());
    }
}

/// Whether a character is white space.
pub fn is_white_space(c: char) -> (r: bool)
    ensures
        r == white_space(c),
{
    ('\t' <= c && c <= '\r') || c == ' ' || c == '\u{85}' || c == '\u{a0}' || c == '\u{1680}' || (
    '\u{2000}' <= c && c <= '\u{200a}') || ('\u{2028}' <= c && c <= '\u{2029}') || c == '\u{202f}'
        || c == '\u{205f}' || c == '\u{3000}'
}

/// The characters of a text.
fn characters(s: &str) -> (v: Vec<char>)
    ensures
        v@ == s@,
{
    let mut v: Vec<char> = Vec::new();
    for c in it: s.chars()
        invariant
            v@ == it.seq().take(it.index() as int),
            it.seq() == s@,
    {
        v.push(c);
    }
    v
}

/// Whether two texts hold the same characters.
pub fn same_text(a: &str, b: &str) -> (r: bool)
    ensures
        r == (a@ == b@),
{
    a.to_owned() == b.to_owned()
}

/// A text without its leading and trailing white space.
pub fn trim<'a>(s: &'a str) -> (r: &'a str)
    ensures
        r@ == trimmed(s@),
{
    let chars = characters(s);
    let mut start: usize = 0;
    while start < chars.len() && is_white_space(chars[start])
        invariant
            start <= chars.len(),
            forall|i: int| 0 <= i < start ==> white_space(chars@[i]),
        decreases chars.len() - start,
    {
        start = start + 1;
    }
    let mut end: usize = chars.len();
    while end > start && is_white_space(chars[end - 1])
        invariant
            start <= end <= chars.len(),
            forall|i: int| end <= i < chars.len() ==> white_space(chars@[i]),
        decreases end,
    {
        end = end - 1;
    }
    proof {
        lemma_without_leading_space(s@, start as int);
        let t = s@.skip(start as int);
        assert forall|i: int| end - start <= i < t.len() implies white_space(t[i]) by {
            assert(t[i] == chars@[i + start]);
        }
        lemma_without_trailing_space(t, end - start);
        assert(t.take(end - start) == s@.subrange(start as int, end as int));
    }
    s.substring_char(start, end)
}

/// The position of the first `c` at or after `from`, or the length where there is none.
fn find_from(chars: &Vec<char>, c: char, from: usize) -> (at: usize)
    requires
        from <= chars.len(),
    ensures
        from <= at <= chars.len(),
        at - from == position_of(chars@.skip(from as int), c),
{
    let mut at: usize = from;
    while at < chars.len() && chars[at] != c
        invariant
            from <= at <= chars.len(),
            forall|i: int| from <= i < at ==> chars@[i] != c,
        decreases chars.len() - at,
    {
        at = at + 1;
    }
    proof {
        let s = chars@.skip(from as int);
        assert forall|i: int| 0 <= i < at - from implies s[i] != c by {
            assert(s[i] == chars@[i + from]);
        }
        lemma_position_is(s, c, at - from);
    }
    at
}

/// The lines of a text, without their line endings.
pub fn lines<'a>(s: &'a str) -> (r: Vec<&'a str>)
    ensures
        contents(r@) == lines_of(s@),
{
    let chars = characters(s);
    let mut r: Vec<&'a str> = Vec::new();
    let mut start: usize = 0;
    proof {
        assert(s@.skip(0) == s@);
        assert(contents(r@) + lines_of(s@) == lines_of(s@));
    }
    while start < chars.len()
        invariant
            start <= chars.len(),
            chars@ == s@,
            contents(r@) + lines_of(s@.skip(start as int)) == lines_of(s@),
        decreases chars.len() - start,
    {
        let end = find_from(&chars, '\n', start);
        let ghost rest = s@.skip(start as int);
        let ghost before = r@;
        if end < chars.len() {
            let line_end: usize = if end > start && chars[end - 1] == '\r' {
                end - 1
            } else {
                end
            };
            let line = s.substring_char(start, line_end);
            proof {
                let taken = rest.take(end - start);
                assert(taken == s@.subrange(start as int, end as int));
                assert(line@ == without_carriage_return(taken));
                assert(rest.skip(end - start + 1) == s@.skip(end + 1));
            }
            r.push(line);
            assert(contents(r@) == contents(before).push(line@));
            assert(contents(r@) + lines_of(s@.skip(end + 1)) == contents(before) + lines_of(rest));
            start = end + 1;
        } else {
            let line = s.substring_char(start, end);
            assert(line@ == rest);
            r.push(line);
            assert(contents(r@) == contents(before).push(line@));
            start = end;
            assert(s@.skip(end as int) == Seq::<char>::empty());
            assert(contents(r@) + lines_of(s@.skip(end as int)) == contents(before) + lines_of(rest));
        }
    }
    assert(s@.skip(start as int) == Seq::<char>::empty());
    assert(contents(r@) + lines_of(s@.skip(start as int)) == contents(r@));
    r
}

/// The fields of a text between the occurrences of a separator.
pub fn fields<'a>(s: &'a str, separator: char) -> (r: Vec<&'a str>)
    ensures
        contents(r@) == fields_of(s@, separator),
{
    let chars = characters(s);
    let mut r: Vec<&'a str> = Vec::new();
    let mut start: usize = 0;
    let mut end = find_from(&chars, separator, start);
    proof {
        assert(s@.skip(0) == s@);
        assert(contents(r@) + fields_of(s@, separator) == fields_of(s@, separator));
    }
    while end < chars.len()
        invariant
            start <= end <= chars.len(),
            chars@ == s@,
            end - start == position_of(s@.skip(start as int), separator),
            contents(r@) + fields_of(s@.skip(start as int), separator) == fields_of(s@, separator),
        decreases chars.len() - start,
    {
        let ghost rest = s@.skip(start as int);
        let ghost before = r@;
        let field = s.substring_char(start, end);
        proof {
            assert(field@ == rest.take(end - start));
            assert(rest.skip(end - start + 1) == s@.skip(end + 1));
        }
        r.push(field);
        assert(contents(r@) == contents(before).push(field@));
        assert(contents(r@) + fields_of(s@.skip(end + 1), separator) == contents(before)
            + fields_of(rest, separator));
        start = end + 1;
        end = find_from(&chars, separator, start);
    }
    let ghost before = r@;
    let field = s.substring_char(start, end);
    assert(field@ == s@.skip(start as int));
    r.push(field);
    assert(contents(r@) == contents(before).push(field@));
    assert(contents(r@) == contents(before) + fields_of(s@.skip(start as int), separator));
    r
}

/// The 32 bit number that a text writes down.
pub fn parse_u32(s: &str) -> (r: Option<u32>)
    ensures
        r == unsigned_number(s@),
{
    let chars = characters(s);
    let first: usize = if chars.len() > 0 && chars[0] == '+' {
        1
    } else {
        0
    };
    let ghost digits = s@.skip(first as int);
    proof {
        assert(s@.skip(0) == s@);
        assert(digits == unsigned_digits(s@));
    }
    if first == chars.len() {
        return None;
    }
    let mut value: u64 = 0;
    let mut at: usize = first;
    while at < chars.len()
        invariant
            first <= at <= chars.len(),
            chars@ == s@,
            digits == s@.skip(first as int),
            digits == unsigned_digits(s@),
            all_digits(digits.take(at - first)),
            value == decimal_value(digits.take(at - first)),
            value <= u32::MAX,
        decreases chars.len() - at,
    {
        let c = chars[at];
        assert(c == digits[at - first]);
        if c < '0' || '9' < c {
            assert(!is_digit(digits[at - first]));
            return None;
        }
        let ghost now = digits.take(at - first + 1);
        value = value * 10 + (c as u64 - '0' as u64);
        proof {
            assert(now.drop_last() == digits.take(at - first));
            assert forall|i: int| 0 <= i < now.len() implies is_digit(#[trigger] now[i]) by {
                if i < at - first {
                    assert(now[i] == digits.take(at - first)[i]);
                }
            }
        }
        if value > u32::MAX as u64 {
            proof {
                if all_digits(digits) {
                    lemma_decimal_value_grows(digits, at - first + 1);
                }
            }
            return None;
        }
        at = at + 1;
    }
    assert(digits.take(at - first) == digits);
    Some(value as u32)
}

/// The text of a decimal digit.
fn digit_text(digit: u32) -> (s: &'static str)
    requires
        digit < 10,
    ensures
        s@ == seq![digit_char(digit as nat)],
{
    proof {
        reveal_strlit("0");
        reveal_strlit("1");
        reveal_strlit("2");
        reveal_strlit("3");
        reveal_strlit("4");
        reveal_strlit("5");
        reveal_strlit("6");
        reveal_strlit("7");
        reveal_strlit("8");
        reveal_strlit("9");
    }
    match digit {
        0 => "0",
        1 => "1",
        2 => "2",
        3 => "3",
        4 => "4",
        5 => "5",
        6 => "6",
        7 => "7",
        8 => "8",
        _ => "9",
    }
}

/// A number in decimal digits.
pub fn u32_to_string(n: u32) -> (s: String)
    ensures
        s@ == decimal_text(n as nat),
    decreases n,
{
    if n < 10 {
        digit_text(n).to_owned()
    } else {
        let mut s = u32_to_string(n / 10);
        s.append(digit_text(n % 10));
        s
    }
}

} // verus!
