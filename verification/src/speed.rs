//! The graph rate that TARI.Miner reports on its standard output.
//!
//! TARI.Miner has no status API, it prints a periodic speed report instead. The rate is kept as
//! the decimal text that the miner printed.
use crate::text::{all_digits, is_digit, white_space};
use regex::Regex;
use vstd::prelude::*;

verus! {

/// The pattern of a speed report; its only group is the rate.
pub const SPEED_PATTERN: &'static str = r"speed[= ]([0-9]+(?:\.[0-9]+)?)\s*g/s";

/// A sample older than this is treated as if the miner stopped producing graphs.
pub const SPEED_SAMPLE_STALE_AFTER_NANOS: u128 = 120_000_000_000;

/// Whether a text is a rate: digits, or digits with a point and more digits.
pub open spec fn is_rate(rate: Seq<char>) -> bool {
    ||| rate.len() > 0 && all_digits(rate)
    ||| exists|point: int|
        {
            &&& 0 < point < rate.len() - 1
            &&& all_digits(rate.take(point))
            &&& #[trigger] rate[point] == '.'
            &&& all_digits(rate.skip(point + 1))
        }
}

pub open spec fn all_white_space(s: Seq<char>) -> bool {
    forall|i: int| 0 <= i < s.len() ==> white_space(#[trigger] s[i])
}

/// The text of a speed report: `speed`, an equals sign or a blank, the rate, any white space and
/// `g/s`.
pub open spec fn speed_report(separator: char, rate: Seq<char>, gap: Seq<char>) -> Seq<char> {
    "speed"@.push(separator) + rate + gap + "g/s"@
}

/// Whether a text starts with a speed report of that rate.
pub open spec fn starts_with_report(text: Seq<char>, rate: Seq<char>) -> bool {
    &&& is_rate(rate)
    &&& exists|separator: char, gap: Seq<char>|
        {
            &&& separator == '=' || separator == ' '
            &&& all_white_space(gap)
            &&& (#[trigger] speed_report(separator, rate, gap)).is_prefix_of(text)
        }
}

/// The rate of the first speed report in a line.
pub open spec fn reported_speed(line: Seq<char>) -> Option<Seq<char>>
    decreases line.len(),
{
    if exists|rate: Seq<char>| starts_with_report(line, rate) {
        Some(choose|rate: Seq<char>| starts_with_report(line, rate))
    } else if line.len() == 0 {
        None
    } else {
        reported_speed(line.skip(1))
    }
}

proof fn lemma_rate_characters(rate: Seq<char>)
    requires
        is_rate(rate),
    ensures
        rate.len() > 0,
        forall|i: int| 0 <= i < rate.len() ==> is_digit(#[trigger] rate[i]) || rate[i] == '.',
{
    if !all_digits(rate) {
        let point = choose|point: int|
            {
                &&& 0 < point < rate.len() - 1
                &&& all_digits(rate.take(point))
                &&& #[trigger] rate[point] == '.'
                &&& all_digits(rate.skip(point + 1))
            };
        assert forall|i: int| 0 <= i < rate.len() implies is_digit(#[trigger] rate[i]) || rate[i]
            == '.' by {
            if i < point {
                assert(is_digit(rate.take(point)[i]));
            } else if i > point {
                assert(is_digit(rate.skip(point + 1)[i - point - 1]));
            }
        }
    }
}

/// What follows the separator of a report: the rate, then a character that no rate holds.
proof fn lemma_report_layout(text: Seq<char>, rate: Seq<char>)
    requires
        starts_with_report(text, rate),
    ensures
        6 + rate.len() < text.len(),
        rate == text.subrange(6, 6 + rate.len() as int),
        !is_digit(text[6 + rate.len() as int]),
        text[6 + rate.len() as int] != '.',
{
    reveal_strlit("speed");
    reveal_strlit("g/s");
    let (separator, gap) = choose|separator: char, gap: Seq<char>|
        {
            &&& separator == '=' || separator == ' '
            &&& all_white_space(gap)
            &&& (#[trigger] speed_report(separator, rate, gap)).is_prefix_of(text)
        };
    let report = speed_report(separator, rate, gap);
    let after = 6 + rate.len() as int;
    assert(report == text.subrange(0, report.len() as int));
    assert(rate == report.subrange(6, after));
    assert(rate == text.subrange(6, after));
    assert(text[after] == report[after]);
    if gap.len() > 0 {
        assert(report[after] == gap[0]);
    } else {
        assert(report[after] == "g/s"@[0]);
    }
}

/// A text starts with a report of at most one rate: where a report starts, its rate is fixed.
pub proof fn law_report_has_one_rate(text: Seq<char>, a: Seq<char>, b: Seq<char>)
    requires
        starts_with_report(text, a),
        starts_with_report(text, b),
    ensures
        a == b,
{
    lemma_report_layout(text, a);
    lemma_report_layout(text, b);
    lemma_rate_characters(a);
    lemma_rate_characters(b);
    if a.len() < b.len() {
        assert(b[a.len() as int] == text[6 + a.len() as int]);
    } else if b.len() < a.len() {
        assert(a[b.len() as int] == text[6 + b.len() as int]);
    }
}

/// A reported speed is a decimal number: digits, or digits with a point and more digits.
pub proof fn law_reported_speed_is_a_rate(line: Seq<char>)
    ensures
        reported_speed(line) matches Some(rate) ==> is_rate(rate),
    decreases line.len(),
{
    if !(exists|rate: Seq<char>| starts_with_report(line, rate)) && line.len() > 0 {
        law_reported_speed_is_a_rate(line.skip(1));
    }
}

/// A report that starts a line gives its rate, whatever follows it.
pub proof fn law_leading_report_is_read(
    separator: char,
    rate: Seq<char>,
    gap: Seq<char>,
    rest: Seq<char>,
)
    requires
        separator == '=' || separator == ' ',
        is_rate(rate),
        all_white_space(gap),
    ensures
        reported_speed(speed_report(separator, rate, gap) + rest) == Some(rate),
{
    let line = speed_report(separator, rate, gap) + rest;
    assert(speed_report(separator, rate, gap).is_prefix_of(line));
    assert(starts_with_report(line, rate));
    law_report_has_one_rate(
        line,
        rate,
        choose|rate: Seq<char>| starts_with_report(line, rate),
    );
}

/// The first report in a line is read, wherever it starts and whatever follows it.
pub proof fn law_first_report_is_read(line: Seq<char>, at: int, rate: Seq<char>)
    requires
        0 <= at <= line.len(),
        starts_with_report(line.skip(at), rate),
        forall|i: int, other: Seq<char>|
            0 <= i < at ==> !#[trigger] starts_with_report(line.skip(i), other),
    ensures
        reported_speed(line) == Some(rate),
    decreases at,
{
    assert(line.skip(0) == line);
    if at == 0 {
        law_report_has_one_rate(line, rate, choose|r: Seq<char>| starts_with_report(line, r));
    } else {
        let rest = line.skip(1);
        assert(rest.skip(at - 1) == line.skip(at));
        assert forall|i: int, other: Seq<char>| 0 <= i < at - 1 implies !#[trigger]
            starts_with_report(rest.skip(i), other) by {
            assert(rest.skip(i) == line.skip(i + 1));
        }
        assert forall|other: Seq<char>| !starts_with_report(line, other) by {
            assert(!starts_with_report(line.skip(0), other));
        }
        law_first_report_is_read(rest, at - 1, rate);
    }
}

/// A line in which no report starts gives no speed.
pub proof fn law_no_report_gives_no_speed(line: Seq<char>)
    requires
        forall|i: int, rate: Seq<char>|
            0 <= i <= line.len() ==> !#[trigger] starts_with_report(line.skip(i), rate),
    ensures
        reported_speed(line) is None,
    decreases line.len(),
{
    assert(line.skip(0) == line);
    assert forall|rate: Seq<char>| !starts_with_report(line, rate) by {
        assert(!starts_with_report(line.skip(0), rate));
    }
    if line.len() > 0 {
        let rest = line.skip(1);
        assert forall|i: int, rate: Seq<char>| 0 <= i <= rest.len() implies !#[trigger]
            starts_with_report(rest.skip(i), rate) by {
            assert(rest.skip(i) == line.skip(i + 1));
        }
        law_no_report_gives_no_speed(rest);
    }
}

/// `regex::Regex::captures`: the first group of the leftmost match of the speed pattern. The
/// pattern compiles; the literals and classes in it stand for themselves, `\s` is the Unicode
/// white space, and a search gives the match that starts first.
#[verifier::external_body]
fn capture_speed(pattern: &str, line: &str) -> (rate: Option<String>)
    requires
        pattern@ == SPEED_PATTERN@,
    ensures
        match rate {
            Some(text) => reported_speed(line@) == Some(text@),
            None => reported_speed(line@) is None,
        },
{
    let captures = Regex::new(pattern).ok()?.captures(line)?;
    captures.get(1).map(|group| group.as_str().to_string())
}

/// Extracts the graph rate from TARI.Miner's periodic report, which looks like
/// `speed 4.21 g/s | graphs=42 cycles=1 submitted=1 accepted=1 rejected=0`.
pub fn parse_speed_line(line: &str) -> (rate: Option<String>)
    ensures
        match rate {
            Some(text) => reported_speed(line@) == Some(text@) && is_rate(text@),
            None => reported_speed(line@) is None,
        },
{
    proof {
        law_reported_speed_is_a_rate(line@);
    }
    capture_speed(SPEED_PATTERN, line)
}

/// A graph rate and when it was reported, in nanoseconds of a clock that never runs backwards.
#[derive(Debug)]
pub struct SpeedSample {
    pub speed: String,
    pub reported_at: u128,
}

/// Keeps the last graph rate TARI.Miner reported so the status monitor can read it.
#[derive(Debug)]
pub struct TariMinerSpeedTracker {
    last_sample: Option<SpeedSample>,
}

impl View for TariMinerSpeedTracker {
    type V = Option<(Seq<char>, u128)>;

    /// The last reported rate and when it was reported.
    closed spec fn view(&self) -> Option<(Seq<char>, u128)> {
        match self.last_sample {
            Some(sample) => Some((sample.speed@, sample.reported_at)),
            None => None,
        }
    }
}

/// Whether a sample still counts at a given time.
pub open spec fn is_fresh(reported_at: u128, now: u128) -> bool {
    now - reported_at <= SPEED_SAMPLE_STALE_AFTER_NANOS
}

/// The rate that a tracker reports at a given time.
pub open spec fn speed_at(sample: Option<(Seq<char>, u128)>, now: u128) -> Option<Seq<char>> {
    match sample {
        Some((speed, reported_at)) => if is_fresh(reported_at, now) {
            Some(speed)
        } else {
            None
        },
        None => None,
    }
}

/// What a tracker holds after it was shown a line.
pub open spec fn sample_after(
    sample: Option<(Seq<char>, u128)>,
    line: Seq<char>,
    now: u128,
) -> Option<(Seq<char>, u128)> {
    match reported_speed(line) {
        Some(speed) => Some((speed, now)),
        None => sample,
    }
}

impl Default for TariMinerSpeedTracker {
    fn default() -> (tracker: Self)
        ensures
            tracker@ is None,
    {
        TariMinerSpeedTracker { last_sample: None }
    }
}

impl TariMinerSpeedTracker {
    /// Keeps the rate that a line reports; any other line changes nothing.
    pub fn record_line(&mut self, line: &str, now: u128)
        ensures
            final(self)@ == sample_after(old(self)@, line@, now),
    {
        match parse_speed_line(line) {
            Some(speed) => {
                self.last_sample = Some(SpeedSample { speed, reported_at: now });
            },
            None => {},
        }
    }

    /// Returns the last reported graph rate, or `None` when nothing was reported recently enough.
    pub fn latest_speed(&self, now: u128) -> (speed: Option<String>)
        ensures
            match speed {
                Some(text) => speed_at(self@, now) == Some(text@),
                None => speed_at(self@, now) is None,
            },
    {
        match &self.last_sample {
            Some(sample) => {
                let age: u128 = if now > sample.reported_at {
                    now - sample.reported_at
                } else {
                    0
                };
                if age > SPEED_SAMPLE_STALE_AFTER_NANOS {
                    None
                } else {
                    Some(sample.speed.clone())
                }
            },
            None => None,
        }
    }
}

/// What a tracker holds after it was shown lines one after another, each at its time.
pub open spec fn sample_after_all(
    sample: Option<(Seq<char>, u128)>,
    lines: Seq<(Seq<char>, u128)>,
) -> Option<(Seq<char>, u128)>
    decreases lines.len(),
{
    if lines.len() == 0 {
        sample
    } else {
        sample_after(
            sample_after_all(sample, lines.drop_last()),
            lines.last().0,
            lines.last().1,
        )
    }
}

/// Lines without a report change nothing, however many there are.
pub proof fn law_lines_without_report_change_nothing(
    sample: Option<(Seq<char>, u128)>,
    lines: Seq<(Seq<char>, u128)>,
)
    requires
        forall|i: int| 0 <= i < lines.len() ==> reported_speed((#[trigger] lines[i]).0) is None,
    ensures
        sample_after_all(sample, lines) == sample,
    decreases lines.len(),
{
    if lines.len() > 0 {
        let front = lines.drop_last();
        assert forall|i: int| 0 <= i < front.len() implies reported_speed((#[trigger] front[i]).0)
            is None by {
            assert(front[i] == lines[i]);
        }
        law_lines_without_report_change_nothing(sample, front);
        assert(reported_speed(lines[lines.len() - 1].0) is None);
    }
}

/// Of any sequence of recorded lines the last report decides: its speed is reported until it is
/// stale and not after that.
pub proof fn law_last_report_is_reported_until_stale(
    sample: Option<(Seq<char>, u128)>,
    lines: Seq<(Seq<char>, u128)>,
    last: int,
    now: u128,
)
    requires
        0 <= last < lines.len(),
        reported_speed(lines[last].0) is Some,
        forall|i: int|
            last < i < lines.len() ==> reported_speed((#[trigger] lines[i]).0) is None,
    ensures
        sample_after_all(sample, lines) == Some((reported_speed(lines[last].0)->0, lines[last].1)),
        speed_at(sample_after_all(sample, lines), now) == (if is_fresh(lines[last].1, now) {
            reported_speed(lines[last].0)
        } else {
            None
        }),
    decreases lines.len(),
{
    if last < lines.len() - 1 {
        let front = lines.drop_last();
        assert forall|i: int| last < i < front.len() implies reported_speed(
            (#[trigger] front[i]).0,
        ) is None by {
            assert(front[i] == lines[i]);
        }
        law_last_report_is_reported_until_stale(sample, front, last, now);
        assert(reported_speed(lines[lines.len() - 1].0) is None);
    }
}

} // verus!
