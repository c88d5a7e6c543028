//! Which speed TARI.Miner reports, and what follows from it.
use crate::gpu::GpuMinerAlgorithm;
use crate::monitor::{
    health_for, result_of_fallback, status_for, triggered_after, unhealthy_action,
    unhealthy_result, HandleUnhealthyResult, HealthStatus, UnhealthyAction,
};
use crate::speed::{
    all_white_space, is_rate, law_first_report_is_read, reported_speed, sample_after, speed_at, speed_report, starts_with_report,
};
use crate::text::{all_digits, is_digit, white_space};
use vstd::prelude::*;

verus! {

/// A speed report, letter by letter.
pub open spec fn report_letters(separator: char, rate: Seq<char>, gap: Seq<char>) -> Seq<char> {
    seq!['s', 'p', 'e', 'e', 'd', separator] + rate + gap + seq!['g', '/', 's']
}

proof fn lemma_report_letters(separator: char, rate: Seq<char>, gap: Seq<char>)
    ensures
        speed_report(separator, rate, gap) == report_letters(separator, rate, gap),
{
    reveal_strlit("speed");
    reveal_strlit("g/s");
    assert("speed"@.push(separator) =~= seq!['s', 'p', 'e', 'e', 'd', separator]);
    assert("g/s"@ =~= seq!['g', '/', 's']);
}

proof fn lemma_rate_of_digits(whole: Seq<char>, fraction: Seq<char>)
    requires
        whole.len() > 0,
        forall|i: int| 0 <= i < whole.len() ==> '0' <= #[trigger] whole[i] <= '9',
        forall|i: int| 0 <= i < fraction.len() ==> '0' <= #[trigger] fraction[i] <= '9',
    ensures
        is_rate(whole),
        fraction.len() > 0 ==> is_rate(whole.push('.') + fraction),
{
    assert(all_digits(whole));
    assert(all_digits(fraction));
    if fraction.len() > 0 {
        let rate = whole.push('.') + fraction;
        let point = whole.len() as int;
        assert(rate.take(point) =~= whole);
        assert(rate.skip(point + 1) =~= fraction);
        assert(rate[point] == '.');
    }
}

/// Where a line says `speed`, an equals sign or a blank, digits, perhaps a point and more digits,
/// any white space and `g/s`, it gives a speed. It gives these digits where no `s` stands before
/// them that another report could start with.
pub proof fn law_report_in_a_line_is_read(
    before: Seq<char>,
    separator: char,
    whole: Seq<char>,
    fraction: Seq<char>,
    gap: Seq<char>,
    after: Seq<char>,
)
    requires
        separator == '=' || separator == ' ',
        whole.len() > 0,
        forall|i: int| 0 <= i < whole.len() ==> '0' <= #[trigger] whole[i] <= '9',
        forall|i: int| 0 <= i < fraction.len() ==> '0' <= #[trigger] fraction[i] <= '9',
        forall|i: int| 0 <= i < gap.len() ==> white_space(#[trigger] gap[i]),
    ensures
        ({
            let rate = if fraction.len() == 0 {
                whole
            } else {
                whole.push('.') + fraction
            };
            let speed = reported_speed(before + (report_letters(separator, rate, gap) + after));
            &&& speed is Some
            &&& !before.contains('s') ==> speed == Some(rate)
        }),
{
    let rate = if fraction.len() == 0 {
        whole
    } else {
        whole.push('.') + fraction
    };
    lemma_rate_of_digits(whole, fraction);
    lemma_report_letters(separator, rate, gap);
    let report = speed_report(separator, rate, gap);
    let line = before + (report + after);
    let at = before.len() as int;
    assert(line.skip(at) =~= report + after);
    assert(report.is_prefix_of(line.skip(at)));
    assert(all_white_space(gap));
    assert(starts_with_report(line.skip(at), rate));
    lemma_some_report_is_read(line, at, rate);
    if !before.contains('s') {
        assert forall|i: int, other: Seq<char>| 0 <= i < at implies !#[trigger] starts_with_report(
            line.skip(i),
            other,
        ) by {
            if starts_with_report(line.skip(i), other) {
                lemma_report_starts_with_s(line.skip(i), other);
                assert(before[i] == 's');
            }
        }
        law_first_report_is_read(line, at, rate);
    }
}

proof fn lemma_report_starts_with_s(text: Seq<char>, rate: Seq<char>)
    requires
        starts_with_report(text, rate),
    ensures
        text.len() > 0 && text[0] == 's',
{
    let (separator, gap) = choose|separator: char, gap: Seq<char>|
        {
            &&& separator == '=' || separator == ' '
            &&& all_white_space(gap)
            &&& (#[trigger] speed_report(separator, rate, gap)).is_prefix_of(text)
        };
    lemma_report_letters(separator, rate, gap);
    let report = speed_report(separator, rate, gap);
    assert(report == text.subrange(0, report.len() as int));
    assert(report[0] == 's');
}

proof fn lemma_some_report_is_read(line: Seq<char>, at: int, rate: Seq<char>)
    requires
        0 <= at <= line.len(),
        starts_with_report(line.skip(at), rate),
    ensures
        reported_speed(line) is Some,
    decreases at,
{
    assert(line.skip(0) == line);
    if at > 0 && !(exists|r: Seq<char>| starts_with_report(line, r)) {
        assert(line.skip(1).skip(at - 1) == line.skip(at));
        lemma_some_report_is_read(line.skip(1), at - 1, rate);
    }
}

/// A speed stands in the line that reports it: after `speed` and an equals sign or a blank, and
/// before white space and `g/s`. It holds digits and points only, and starts and ends with a
/// digit.
pub proof fn law_speed_stands_in_its_line(line: Seq<char>)
    requires
        reported_speed(line) is Some,
    ensures
        ({
            let rate = reported_speed(line)->0;
            &&& rate.len() > 0
            &&& '0' <= rate[0] <= '9'
            &&& '0' <= rate.last() <= '9'
            &&& forall|i: int|
                0 <= i < rate.len() ==> ('0' <= #[trigger] rate[i] <= '9' || rate[i] == '.')
            &&& forall|i: int, j: int|
                0 <= i < j < rate.len() ==> !(#[trigger] rate[i] == '.' && #[trigger] rate[j]
                    == '.')
            &&& exists|at: int, separator: char, gap: Seq<char>|
                {
                    &&& 0 <= at <= line.len()
                    &&& separator == '=' || separator == ' '
                    &&& forall|i: int| 0 <= i < gap.len() ==> white_space(#[trigger] gap[i])
                    &&& #[trigger] report_letters(separator, rate, gap).is_prefix_of(line.skip(at))
                }
        }),
    decreases line.len(),
{
    let rate = reported_speed(line)->0;
    if exists|r: Seq<char>| starts_with_report(line, r) {
        assert(starts_with_report(line, rate));
        lemma_rate_shape(rate);
        let (separator, gap) = choose|separator: char, gap: Seq<char>|
            {
                &&& separator == '=' || separator == ' '
                &&& all_white_space(gap)
                &&& (#[trigger] speed_report(separator, rate, gap)).is_prefix_of(line)
            };
        lemma_report_letters(separator, rate, gap);
        assert(line.skip(0) == line);
        assert(report_letters(separator, rate, gap).is_prefix_of(line.skip(0)));
    } else {
        law_speed_stands_in_its_line(line.skip(1));
        let (at, separator, gap) = choose|at: int, separator: char, gap: Seq<char>|
            {
                &&& 0 <= at <= line.skip(1).len()
                &&& separator == '=' || separator == ' '
                &&& forall|i: int| 0 <= i < gap.len() ==> white_space(#[trigger] gap[i])
                &&& #[trigger] report_letters(separator, rate, gap).is_prefix_of(
                    line.skip(1).skip(at),
                )
            };
        assert(line.skip(1).skip(at) == line.skip(at + 1));
        assert(report_letters(separator, rate, gap).is_prefix_of(line.skip(at + 1)));
    }
}

proof fn lemma_rate_shape(rate: Seq<char>)
    requires
        is_rate(rate),
    ensures
        rate.len() > 0,
        '0' <= rate[0] <= '9',
        '0' <= rate.last() <= '9',
        forall|i: int| 0 <= i < rate.len() ==> ('0' <= #[trigger] rate[i] <= '9' || rate[i] == '.'),
        forall|i: int, j: int|
            0 <= i < j < rate.len() ==> !(#[trigger] rate[i] == '.' && #[trigger] rate[j] == '.'),
{
    if all_digits(rate) {
        assert forall|i: int| 0 <= i < rate.len() implies '0' <= #[trigger] rate[i] <= '9' by {
            assert(is_digit(rate[i]));
        }
    } else {
        let point = choose|point: int|
            {
                &&& 0 < point < rate.len() - 1
                &&& all_digits(rate.take(point))
                &&& #[trigger] rate[point] == '.'
                &&& all_digits(rate.skip(point + 1))
            };
        assert forall|i: int| 0 <= i < rate.len() && i != point implies '0' <= #[trigger] rate[i]
            <= '9' by {
            if i < point {
                assert(is_digit(rate.take(point)[i]));
            } else {
                assert(is_digit(rate.skip(point + 1)[i - point - 1]));
            }
        }
    }
}

/// A line without a speed changes nothing; one with a speed makes it the last one, as of now.
/// A speed is reported for two minutes after that, and not any longer.
pub proof fn law_speed_is_reported_for_two_minutes(
    sample: Option<(Seq<char>, u128)>,
    line: Seq<char>,
    recorded: u128,
    now: u128,
)
    ensures
        match reported_speed(line) {
            Some(speed) => {
                &&& sample_after(sample, line, recorded) == Some((speed, recorded))
                &&& now <= recorded + 120_000_000_000 ==> speed_at(
                    sample_after(sample, line, recorded),
                    now,
                ) == Some(speed)
                &&& now > recorded + 120_000_000_000 ==> speed_at(
                    sample_after(sample, line, recorded),
                    now,
                ) is None
            },
            None => sample_after(sample, line, recorded) == sample,
        },
        sample matches Some((speed, at)) ==> speed_at(sample, now) == (if now - at
            <= 120_000_000_000 {
            Some(speed)
        } else {
            None
        }),
        speed_at(None, now) is None,
{
}

/// A miner that reports a speed mines at that speed and is healthy. One that does not is idle and
/// unhealthy.
pub proof fn law_status_shows_the_speed(speed: Option<Seq<char>>)
    ensures
        match speed {
            Some(rate) => {
                &&& status_for(speed).is_mining
                &&& status_for(speed).hash_rate == rate
                &&& health_for(true) == HealthStatus::Healthy
            },
            None => {
                &&& !status_for(speed).is_mining
                &&& status_for(speed).hash_rate == seq!['0']
                &&& health_for(false) == HealthStatus::Unhealthy
            },
        },
        status_for(speed).estimated_earnings == 0,
        status_for(speed).algorithm == GpuMinerAlgorithm::C29,
{
    reveal_strlit("0");
    assert("0"@ =~= seq!['0']);
}

/// There is a fallback exactly after more than three minutes without health and only where there
/// was none before. The watcher stops exactly where it succeeded, and only that is remembered.
pub proof fn law_fallback_comes_after_three_minutes(
    was_triggered: bool,
    unhealthy_secs: u64,
    action: UnhealthyAction,
    outcome: Option<bool>,
    succeeded: bool,
)
    ensures
        unhealthy_action(was_triggered, unhealthy_secs) == UnhealthyAction::FallBack <==> {
            unhealthy_secs > 180 && !was_triggered
        },
        triggered_after(was_triggered, succeeded) <==> was_triggered || succeeded,
        result_of_fallback(succeeded) == HandleUnhealthyResult::Stop <==> succeeded,
        unhealthy_result(action, outcome) == HandleUnhealthyResult::Stop <==> {
            action == UnhealthyAction::FallBack && outcome == Some(true)
        },
{
}

} // verus!
