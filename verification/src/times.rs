//! How long ago something happened, in words.

use crate::text::{decimal, number};
use vstd::prelude::*;

verus! {

pub const SECOND: i128 = 1_000_000_000;

pub const MINUTE: i128 = 60_000_000_000;

pub const HOUR: i128 = 3_600_000_000_000;

pub const DAY: i128 = 86_400_000_000_000;

pub const SECONDS_A_DAY: i128 = 86_400;

/// A time span in the largest unit that fits into it, of days, hours and
/// minutes; none fits into a short span, nor into one that lies ahead.
pub open spec fn largest_unit(nanos: int) -> Option<Seq<char>> {
    if nanos >= DAY {
        Some(decimal((nanos / DAY as int) as nat) + "d ago"@)
    } else if nanos >= HOUR {
        Some(decimal((nanos / HOUR as int) as nat) + "h ago"@)
    } else if nanos >= MINUTE {
        Some(decimal((nanos / MINUTE as int) as nat) + "m ago"@)
    } else {
        None
    }
}

/// A time span that has just begun is so described.
pub open spec fn ago(nanos: int) -> Seq<char> {
    match largest_unit(nanos) {
        Some(text) => text,
        None => "just now"@,
    }
}

/// How many units a span is long, with the unit behind the number.
fn counted(nanos: i128, unit: i128, suffix: &str) -> (text: String)
    requires
        unit >= MINUTE,
        unit <= nanos < MINUTE * 0xffff_ffff_ffff_ffff,
    ensures
        text@ == decimal((nanos as int / unit as int) as nat) + suffix@,
{
    let n: i128 = nanos / unit;
    assert(0 <= n <= 0xffff_ffff_ffff_ffff) by (nonlinear_arith)
        requires
            n == nanos as int / unit as int,
            0 < MINUTE as int <= unit <= nanos < MINUTE as int * 0xffff_ffff_ffff_ffff,
    ;
    let mut text = number(n as u64);
    text.append(suffix);
    text
}

/// Spans longer than any that moments of 64 bits are apart.
pub const LONGEST: i128 = 0x1_0000_0000_0000_0000_0000_0000;

fn unit_text(nanos: i128) -> (text: Option<String>)
    requires
        nanos < LONGEST,
    ensures
        match text {
            Some(t) => largest_unit(nanos as int) == Some(t@),
            None => largest_unit(nanos as int) is None,
        },
{
    if nanos >= DAY {
        Some(counted(nanos, DAY, "d ago"))
    } else if nanos >= HOUR {
        Some(counted(nanos, HOUR, "h ago"))
    } else if nanos >= MINUTE {
        Some(counted(nanos, MINUTE, "m ago"))
    } else {
        None
    }
}

/// How long ago a span of nanoseconds began.
pub fn time_ago(nanos: i128) -> (text: String)
    requires
        nanos < LONGEST,
    ensures
        text@ == ago(nanos as int),
{
    match unit_text(nanos) {
        Some(text) => text,
        None => "just now".to_owned(),
    }
}

/// How long ago a moment was. Moments are nanoseconds since the epoch.
pub fn time_since_datetime(timestamp: i64, now: i64) -> (text: String)
    ensures
        text@ == ago(now - timestamp),
{
    time_ago(now as i128 - timestamp as i128)
}

/// How long ago something was archived; a minute ago at least.
pub open spec fn archived_ago(nanos: int) -> Seq<char> {
    match largest_unit(nanos) {
        Some(text) => text,
        None => "1m ago"@,
    }
}

/// How long ago something was archived; a minute ago at least.
pub fn format_time_ago(archived_at: i64, now: i64) -> (text: String)
    ensures
        text@ == archived_ago(now - archived_at),
{
    match unit_text(now as i128 - archived_at as i128) {
        Some(text) => text,
        None => "1m ago".to_owned(),
    }
}

/// The moment that a text in the form of RFC 3339 stands for, as
/// `chrono::DateTime::parse_from_rfc3339` reads it: seconds since the epoch, and
/// nanoseconds behind them, which are a second or more in a leap second.
pub uninterp spec fn rfc3339(text: Seq<char>) -> Option<(i64, u32)>;

/// Calls `chrono::DateTime::parse_from_rfc3339`, and gives the moment as its
/// `timestamp` and its `timestamp_subsec_nanos`. The result is named, and
/// nothing else is claimed of it.
#[verifier::external_body]
fn parse_rfc3339(text: &str) -> (moment: Option<(i64, u32)>)
    ensures
        moment == rfc3339(text@),
{
    match chrono::DateTime::parse_from_rfc3339(text) {
        Ok(parsed) => Some((parsed.timestamp(), parsed.timestamp_subsec_nanos())),
        Err(_) => None,
    }
}

/// The nanoseconds from a moment to now. A leap second counts once it is over
/// on the clock of a day.
pub open spec fn span_since(moment: (i64, u32), now: i64) -> int {
    let seconds = now as int / SECOND as int;
    let later = seconds % SECONDS_A_DAY as int > moment.0 as int % SECONDS_A_DAY as int;
    now - moment.0 * SECOND - moment.1 + if later && moment.1 >= SECOND {
        SECOND as int
    } else {
        0
    }
}

/// The quotient that leaves a remainder that is not negative.
fn floor_div(a: i128, b: i128) -> (q: i128)
    requires
        0 < b < LONGEST,
        -LONGEST < a < LONGEST,
    ensures
        q == a as int / b as int,
{
    if a >= 0 {
        a / b
    } else {
        let n: i128 = -(a + 1);
        let m: i128 = n / b;
        proof {
            assert(0 <= m <= n) by (nonlinear_arith)
                requires
                    m == n as int / b as int,
                    n >= 0,
                    b > 0,
            ;
            assert(a as int / b as int == -m - 1) by (nonlinear_arith)
                requires
                    m == n as int / b as int,
                    n == -(a + 1),
                    n >= 0,
                    b > 0,
            ;
        }
        -m - 1
    }
}

/// The nanoseconds from a moment to now.
pub fn nanos_since(moment: (i64, u32), now: i64) -> (nanos: i128)
    ensures
        nanos == span_since(moment, now),
        nanos < LONGEST,
{
    let seconds = floor_div(now as i128, SECOND);
    let here: i128 = seconds - floor_div(seconds, SECONDS_A_DAY) * SECONDS_A_DAY;
    let there: i128 = moment.0 as i128 - floor_div(moment.0 as i128, SECONDS_A_DAY)
        * SECONDS_A_DAY;
    proof {
        vstd::arithmetic::div_mod::lemma_fundamental_div_mod(seconds as int, SECONDS_A_DAY as int);
        vstd::arithmetic::div_mod::lemma_fundamental_div_mod(
            moment.0 as int,
            SECONDS_A_DAY as int,
        );
    }
    let span: i128 = now as i128 - moment.0 as i128 * SECOND - moment.1 as i128;
    if here > there && moment.1 as i128 >= SECOND {
        span + SECOND
    } else {
        span
    }
}

/// How long ago the moment of a text was; nothing for a text that stands for
/// none.
pub open spec fn described(moment: Option<(i64, u32)>, now: i64) -> Seq<char> {
    match moment {
        Some(moment) => ago(span_since(moment, now)),
        None => Seq::empty(),
    }
}

/// How long ago a moment was, if there is one.
pub fn describe_moment(moment: Option<(i64, u32)>, now: i64) -> (text: String)
    ensures
        text@ == described(moment, now),
{
    match moment {
        Some(moment) => time_ago(nanos_since(moment, now)),
        None => String::new(),
    }
}

/// How long ago the moment was that a text in the form of RFC 3339 stands for.
pub fn relative_time(iso_str: &str, now: i64) -> (text: String)
    ensures
        text@ == described(rfc3339(iso_str@), now),
{
    describe_moment(parse_rfc3339(iso_str), now)
}

/// Outside leap seconds a span is the plain difference.
pub proof fn spans_are_differences(moment: (i64, u32), now: i64)
    requires
        moment.1 < SECOND,
    ensures
        span_since(moment, now) == now - (moment.0 * SECOND + moment.1),
{
}

/// A span is told in whole days from a day on, else in whole hours from an hour
/// on, else in whole minutes from a minute on, each rounded down; a shorter one
/// is just now, and for the archive a minute.
pub proof fn spans_are_told_in_their_largest_unit(count: int, rest: int)
    requires
        count >= 1,
        rest >= 0,
    ensures
        rest < 86_400_000_000_000 ==> ago(count * 86_400_000_000_000 + rest) == decimal(count as nat)
            + "d ago"@,
        count < 24 && rest < 3_600_000_000_000 ==> ago(count * 3_600_000_000_000 + rest) == decimal(
            count as nat,
        ) + "h ago"@,
        count < 60 && rest < 60_000_000_000 ==> ago(count * 60_000_000_000 + rest) == decimal(
            count as nat,
        ) + "m ago"@,
        rest < 60_000_000_000 ==> ago(rest) == "just now"@ && archived_ago(rest) == "1m ago"@,
        rest >= 60_000_000_000 ==> archived_ago(rest) == ago(rest),
        ago(-rest) == if rest == 0 {
            ago(0)
        } else {
            "just now"@
        },
{
    if rest < 86_400_000_000_000 {
        vstd::arithmetic::div_mod::lemma_fundamental_div_mod_converse(
            count * 86_400_000_000_000 + rest,
            86_400_000_000_000,
            count,
            rest,
        );
    }
    if rest < 3_600_000_000_000 {
        vstd::arithmetic::div_mod::lemma_fundamental_div_mod_converse(
            count * 3_600_000_000_000 + rest,
            3_600_000_000_000,
            count,
            rest,
        );
    }
    if rest < 60_000_000_000 {
        vstd::arithmetic::div_mod::lemma_fundamental_div_mod_converse(
            count * 60_000_000_000 + rest,
            60_000_000_000,
            count,
            rest,
        );
    }
}

/// A text that stands for no moment tells nothing, and one that does how long ago
/// it was: so many whole seconds before now as it says.
pub proof fn moments_are_told_by_their_distance(seconds: i64, now: i64)
    ensures
        described(None, now).len() == 0,
        described(Some((seconds, 0)), now) == ago(now - seconds * 1_000_000_000),
{
}

/// The time since a moment is that between the two; after a leap second it is a
/// second more from the next second of the day on.
pub proof fn the_time_between_is_told(moment: (i64, u32), now: i64)
    ensures
        moment.1 < 1_000_000_000 ==> span_since(moment, now) + moment.0 * 1_000_000_000 + moment.1
            == now,
        moment.0 * 1_000_000_000 <= now < (moment.0 + 1) * 1_000_000_000 ==> span_since(moment, now)
            + moment.0 * 1_000_000_000 + moment.1 == now,
        moment.1 >= 1_000_000_000 && (moment.0 + 1) * 1_000_000_000 <= now < (moment.0 + 2)
            * 1_000_000_000 && moment.0 as int % 86_400 != 86_399 ==> span_since(moment, now)
            + moment.0 * 1_000_000_000 + moment.1 == now + 1_000_000_000,
{
    let seconds = now as int / 1_000_000_000;
    if moment.0 * 1_000_000_000 <= now < (moment.0 + 1) * 1_000_000_000 {
        assert(seconds == moment.0);
    }
    if (moment.0 + 1) * 1_000_000_000 <= now < (moment.0 + 2) * 1_000_000_000 {
        assert(seconds == moment.0 + 1);
    }
}

} // verus!
