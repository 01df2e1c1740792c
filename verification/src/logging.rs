//! What is written to the log: timestamps and lines.

use vstd::arithmetic::div_mod::{
    lemma_fundamental_div_mod, lemma_fundamental_div_mod_converse, lemma_hoist_over_denominator,
    lemma_mod_mod, lemma_mod_multiples_vanish,
};
use vstd::prelude::*;

use crate::components::pad_right;
use crate::numbers::{
    decimal, digits_of, digits_value, is_digit, law_numbers_read_back, padded_left, padded_right,
    push_digits, repeated,
};
use crate::text::{ends_with, starts_with};

verus! {

// ---- the calendar --------------------------------------------------------------

/// Whether a year of the Gregorian calendar has a leap day.
pub open spec fn is_leap(y: int) -> bool {
    (y % 4 == 0 && y % 100 != 0) || y % 400 == 0
}

/// How many days a month has.
pub open spec fn days_in_month(y: int, m: int) -> int {
    if m == 2 {
        if is_leap(y) {
            29
        } else {
            28
        }
    } else if m == 4 || m == 6 || m == 9 || m == 11 {
        30
    } else {
        31
    }
}

/// How many days of a year come before a month.
pub open spec fn days_before_month(y: int, m: int) -> int
    decreases m,
{
    if m <= 1 {
        0
    } else {
        days_before_month(y, m - 1) + days_in_month(y, m - 1)
    }
}

/// How many leap days the years 1 to `y` have.
pub open spec fn leap_days_through(y: int) -> int {
    y / 4 - y / 100 + y / 400
}

/// The number of the first day of a year; the first day of 1970 is day 0.
pub open spec fn first_day_of(y: int) -> int {
    365 * (y - 1970) + leap_days_through(y - 1) - leap_days_through(1969)
}

/// The number of a day.
pub open spec fn day_number(y: int, m: int, d: int) -> int {
    first_day_of(y) + days_before_month(y, m) + d - 1
}

/// Whether there is such a day.
pub open spec fn is_date(y: int, m: int, d: int) -> bool {
    1 <= m <= 12 && 1 <= d <= days_in_month(y, m)
}

proof fn lemma_months(y: int)
    ensures
        days_before_month(y, 1) == 0,
        days_before_month(y, 2) == 31,
        days_before_month(y, 3) == 59 + (if is_leap(y) {
            1int
        } else {
            0
        }),
        days_before_month(y, 4) == days_before_month(y, 3) + 31,
        days_before_month(y, 5) == days_before_month(y, 3) + 61,
        days_before_month(y, 6) == days_before_month(y, 3) + 92,
        days_before_month(y, 7) == days_before_month(y, 3) + 122,
        days_before_month(y, 8) == days_before_month(y, 3) + 153,
        days_before_month(y, 9) == days_before_month(y, 3) + 184,
        days_before_month(y, 10) == days_before_month(y, 3) + 214,
        days_before_month(y, 11) == days_before_month(y, 3) + 245,
        days_before_month(y, 12) == days_before_month(y, 3) + 275,
        days_before_month(y, 13) == days_before_month(y, 3) + 306,
{
    reveal_with_fuel(days_before_month, 14);
}

proof fn lemma_year_of_era(doe: u32)
    requires
        doe <= 146_096,
    ensures
        ({
            let yoe = (doe - doe / 1460 + doe / 36524 - doe / 146_096) / 365;
            let start = 365 * yoe + yoe / 4 - yoe / 100;
            let next = yoe + 1;
            let end = 365 * next + next / 4 - next / 100 + next / 400;
            0 <= yoe <= 399 && start <= doe < end
        }),
{
    assert(({
        let yoe = (doe - doe / 1460 + doe / 36524 - doe / 146_096) / 365;
        let start = 365 * yoe + yoe / 4 - yoe / 100;
        let next = yoe + 1;
        let end = 365 * next + next / 4 - next / 100 + next / 400;
        0 <= yoe <= 399 && start <= doe < end
    })) by (bit_vector)
        requires
            doe <= 146_096,
    ;
}

proof fn lemma_leap_days(era: int, yoe: int)
    requires
        0 <= yoe <= 399,
    ensures
        leap_days_through(yoe + 400 * era) == yoe / 4 - yoe / 100 + 97 * era,
        is_leap(yoe + 400 * era + 1) <==> is_leap(yoe + 1),
{
    lemma_hoist_over_denominator(yoe, 100 * era, 4);
    lemma_hoist_over_denominator(yoe, 4 * era, 100);
    lemma_hoist_over_denominator(yoe, era, 400);
    lemma_mod_multiples_vanish(100 * era, yoe + 1, 4);
    lemma_mod_multiples_vanish(4 * era, yoe + 1, 100);
    lemma_mod_multiples_vanish(era, yoe + 1, 400);
}

proof fn lemma_leap_step(y: int)
    ensures
        leap_days_through(y) - leap_days_through(y - 1) == (if is_leap(y) {
            1int
        } else {
            0
        }),
{
    lemma_quotient_step(y, 4);
    lemma_quotient_step(y, 100);
    lemma_quotient_step(y, 400);
    lemma_mod_mod(y, 4, 25);
    lemma_mod_mod(y, 100, 4);
    vstd::arithmetic::div_mod::lemma_small_mod(0, 4);
    vstd::arithmetic::div_mod::lemma_small_mod(0, 100);
}

proof fn lemma_quotient_step(y: int, d: int)
    requires
        d > 1,
    ensures
        y / d - (y - 1) / d == (if y % d == 0 {
            1int
        } else {
            0
        }),
{
    let q = y / d;
    let r = y % d;
    lemma_fundamental_div_mod(y, d);
    vstd::arithmetic::div_mod::lemma_mod_bound(y, d);
    if r == 0 {
        assert(y - 1 == (q - 1) * d + (d - 1)) by (nonlinear_arith)
            requires
                y == d * q,
        ;
        lemma_fundamental_div_mod_converse(y - 1, d, q - 1, d - 1);
    } else {
        assert(y - 1 == q * d + (r - 1)) by (nonlinear_arith)
            requires
                y == d * q + r,
        ;
        lemma_fundamental_div_mod_converse(y - 1, d, q, r - 1);
    }
}

proof fn lemma_civil(era: int, yoe: int, doy: int, mp: int, day: int, month: int, year: int)
    requires
        0 <= yoe <= 399,
        0 <= doy,
        365 * yoe + yoe / 4 - yoe / 100 + doy < 365 * (yoe + 1) + (yoe + 1) / 4 - (yoe + 1) / 100 + (
        yoe + 1) / 400,
        mp == (5 * doy + 2) / 153,
        day == doy - (153 * mp + 2) / 5 + 1,
        month == (if mp < 10 {
            mp + 3
        } else {
            mp - 9
        }),
        year == yoe + 400 * era + (if month <= 2 {
            1int
        } else {
            0
        }),
    ensures
        is_date(year, month, day),
        day_number(year, month, day) == 365 * yoe + yoe / 4 - yoe / 100 + doy + era * 146_097
            - 719_468,
{
    let y = yoe + 400 * era;
    lemma_leap_days(era, yoe);
    lemma_leap_step(y);
    lemma_leap_step(y + 1);
    lemma_leap_step(yoe + 1);
    lemma_months(year);
    assert(leap_days_through(1969) == 477);
    assert(doy <= 365);
    assert(doy == 365 ==> is_leap(yoe + 1));
    assert(0 <= mp <= 11);
    if mp == 0 {
    } else if mp == 1 {
    } else if mp == 2 {
    } else if mp == 3 {
    } else if mp == 4 {
    } else if mp == 5 {
    } else if mp == 6 {
    } else if mp == 7 {
    } else if mp == 8 {
    } else if mp == 9 {
    } else if mp == 10 {
    } else {
    }
}

/// The day with this number: its year, month and day of the month.
pub fn civil_from_days(z: i64) -> (r: (i64, u32, u32))
    requires
        z <= i64::MAX - 719_468,
    ensures
        is_date(r.0 as int, r.1 as int, r.2 as int),
        day_number(r.0 as int, r.1 as int, r.2 as int) == z,
{
    let shifted: i64 = z + 719_468;
    let base: i64 = if shifted >= 0 {
        shifted
    } else {
        shifted - 146_096
    };
    let era: i64 = base / 146_097;
    assert(era == shifted as int / 146_097);
    let doe: u32 = (shifted - era * 146_097) as u32;
    proof {
        lemma_year_of_era(doe);
    }
    let yoe: u32 = (doe - doe / 1460 + doe / 36524 - doe / 146_096) / 365;
    let y: i64 = yoe as i64 + era * 400;
    let doy: u32 = doe - (365 * yoe + yoe / 4 - yoe / 100);
    let mp: u32 = (5 * doy + 2) / 153;
    let day: u32 = doy - (153 * mp + 2) / 5 + 1;
    let month: u32 = if mp < 10 {
        mp + 3
    } else {
        mp - 9
    };
    let year: i64 = if month <= 2 {
        y + 1
    } else {
        y
    };
    proof {
        lemma_civil(
            era as int,
            yoe as int,
            doy as int,
            mp as int,
            day as int,
            month as int,
            year as int,
        );
    }
    (year, month, day)
}

/// No two days have the same number.
pub proof fn law_day_numbers_are_unique(
    y1: int,
    m1: int,
    d1: int,
    y2: int,
    m2: int,
    d2: int,
)
    requires
        is_date(y1, m1, d1),
        is_date(y2, m2, d2),
        day_number(y1, m1, d1) == day_number(y2, m2, d2),
    ensures
        y1 == y2 && m1 == m2 && d1 == d2,
{
    lemma_day_within_year(y1, m1, d1);
    lemma_day_within_year(y2, m2, d2);
    if y1 < y2 {
        lemma_years_ascend(y1 + 1, y2);
    } else if y2 < y1 {
        lemma_years_ascend(y2 + 1, y1);
    } else if m1 < m2 {
        lemma_months_ascend(y1, m1 + 1, m2);
    } else if m2 < m1 {
        lemma_months_ascend(y1, m2 + 1, m1);
    }
}

proof fn lemma_months_ascend(y: int, a: int, b: int)
    requires
        1 <= a <= b,
    ensures
        days_before_month(y, a) <= days_before_month(y, b),
    decreases b,
{
    if a < b {
        lemma_months_ascend(y, a, b - 1);
    }
}

proof fn lemma_day_within_year(y: int, m: int, d: int)
    requires
        is_date(y, m, d),
    ensures
        first_day_of(y) <= day_number(y, m, d) < first_day_of(y + 1),
{
    lemma_months(y);
    lemma_leap_step(y);
    lemma_months_ascend(y, 1, m);
    lemma_months_ascend(y, m + 1, 13);
}

proof fn lemma_years_ascend(a: int, b: int)
    requires
        a <= b,
    ensures
        first_day_of(a) <= first_day_of(b),
    decreases b - a,
{
    if a < b {
        lemma_years_ascend(a, b - 1);
        lemma_leap_step(b - 1);
    }
}

// ---- timestamps ----------------------------------------------------------------

/// `n` in decimal, at least `width` digits wide.
pub open spec fn zero_padded(n: int, width: nat) -> Seq<char> {
    padded_left(decimal(n as nat), width, '0')
}

/// A moment of a day, as `YYYY-MM-DDTHH:MM:SSZ`.
pub open spec fn timestamp(y: int, m: int, d: int, secs_of_day: int) -> Seq<char> {
    zero_padded(y, 4) + "-"@ + zero_padded(m, 2) + "-"@ + zero_padded(d, 2) + "T"@ + zero_padded(
        secs_of_day / 3600,
        2,
    ) + ":"@ + zero_padded((secs_of_day % 3600) / 60, 2) + ":"@ + zero_padded(secs_of_day % 60, 2)
        + "Z"@
}

/// Whether `text` is the timestamp of the moment `total_secs` after the start of
/// 1970.
pub open spec fn is_timestamp(text: Seq<char>, total_secs: int) -> bool {
    exists|y: int, m: int, d: int|
        #![trigger day_number(y, m, d)]
        is_date(y, m, d) && day_number(y, m, d) == total_secs / 86_400 && text == timestamp(
            y,
            m,
            d,
            total_secs % 86_400,
        )
}

/// The moment `total_secs` after the start of 1970, as
/// `YYYY-MM-DDTHH:MM:SSZ`.
pub fn iso8601(total_secs: u64) -> (r: String)
    ensures
        is_timestamp(r@, total_secs as int),
{
    let days: i64 = (total_secs / 86_400) as i64;
    let secs: u64 = total_secs % 86_400;
    let (year, month, day) = civil_from_days(days);
    proof {
        lemma_day_within_year(year as int, month as int, day as int);
        if year < 1970 {
            lemma_years_ascend(year + 1, 1970);
            assert(false);
        }
    }
    let mut s = String::new();
    push_digits(&mut s, year as u64, 10, false, 4, '0');
    s.append("-");
    push_digits(&mut s, month as u64, 10, false, 2, '0');
    s.append("-");
    push_digits(&mut s, day as u64, 10, false, 2, '0');
    s.append("T");
    push_digits(&mut s, secs / 3600, 10, false, 2, '0');
    s.append(":");
    push_digits(&mut s, (secs % 3600) / 60, 10, false, 2, '0');
    s.append(":");
    push_digits(&mut s, secs % 60, 10, false, 2, '0');
    s.append("Z");
    proof {
        let t = timestamp(year as int, month as int, day as int, secs as int);
        assert(s@ =~= t);
        assert(day_number(year as int, month as int, day as int) == total_secs as int / 86_400);
    }
    s
}

// ---- the log -------------------------------------------------------------------

/// Ceiling on the log file's size: past it, the file is dropped and started
/// fresh rather than left to grow forever.
pub const MAX_LOG_BYTES: u64 = 5_242_880;

/// Whether a log file of this size is started fresh.
pub fn outgrown(len: u64) -> (r: bool)
    ensures
        r == (len > MAX_LOG_BYTES),
{
    len > MAX_LOG_BYTES
}

/// Whether `line` is the log line of a message at the given moment.
pub open spec fn is_log_line(
    line: Seq<char>,
    total_secs: int,
    level: Seq<char>,
    target: Seq<char>,
    message: Seq<char>,
) -> bool {
    exists|time: Seq<char>| #[trigger]
        is_timestamp(time, total_secs) && line == time + " "@ + padded_right(level, 5) + " "@
            + target + ": "@ + message
}

/// The log line of a message at the moment `total_secs` after the start of 1970.
pub fn log_line(total_secs: u64, level: &str, target: &str, message: &str) -> (r: String)
    ensures
        is_log_line(r@, total_secs as int, level@, target@, message@),
{
    let mut s = iso8601(total_secs);
    let ghost time = s@;
    s.append(" ");
    s.append(pad_right(level, 5).as_str());
    s.append(" ");
    s.append(target);
    s.append(": ");
    s.append(message);
    assert(is_timestamp(time, total_secs as int));
    s
}

// ---- laws ----------------------------------------------------------------------

/// Days are numbered through: the first day of 1970 is day 0, and the day after a
/// day has the next number, also over the end of a month and of a year.
pub proof fn law_days_are_numbered_through(y: int, m: int, d: int)
    requires
        is_date(y, m, d),
    ensures
        day_number(1970, 1, 1) == 0,
        is_date(y, m, d + 1) ==> day_number(y, m, d + 1) == day_number(y, m, d) + 1,
        !is_date(y, m, d + 1) && m < 12 ==> is_date(y, m + 1, 1) && day_number(y, m + 1, 1)
            == day_number(y, m, d) + 1,
        !is_date(y, m, d + 1) && m == 12 ==> is_date(y + 1, 1, 1) && day_number(y + 1, 1, 1)
            == day_number(y, m, d) + 1,
{
    lemma_months(1970);
    lemma_months(y);
    lemma_months(y + 1);
    lemma_leap_step(y);
}

/// The months have the days that they have, and every fourth year has a leap day,
/// but for three in four of the hundreds.
pub proof fn law_the_calendar_is_gregorian(y: int, m: int, d: int)
    ensures
        is_date(y, m, d) ==> 1 <= m <= 12 && 1 <= d <= 31,
        is_date(y, m, 31) <==> m == 1 || m == 3 || m == 5 || m == 7 || m == 8 || m == 10 || m == 12,
        is_date(y, m, 30) <==> 1 <= m <= 12 && m != 2,
        is_date(y, 2, 29) <==> (y % 4 == 0 && y % 100 != 0) || y % 400 == 0,
        1 <= m <= 12 && 1 <= d <= 28 ==> is_date(y, m, d),
{
}

proof fn lemma_zeros_in_front(k: nat, s: Seq<char>)
    ensures
        digits_value(repeated('0', k) + s, 10) == digits_value(s, 10),
    decreases k + s.len(),
{
    let t = repeated('0', k) + s;
    if s.len() > 0 {
        lemma_zeros_in_front(k, s.drop_last());
        assert(t.drop_last() =~= repeated('0', k) + s.drop_last());
    } else if k > 0 {
        lemma_zeros_in_front((k - 1) as nat, s);
        assert(t.drop_last() =~= repeated('0', (k - 1) as nat) + s);
    } else {
        assert(t =~= s);
    }
}

proof fn lemma_zero_padded(n: int, width: nat)
    requires
        0 <= n,
        width == 2 && n < 100 || width == 4 && n < 10_000,
    ensures
        zero_padded(n, width).len() == width,
        digits_value(zero_padded(n, width), 10) == n,
{
    let s = decimal(n as nat);
    law_numbers_read_back(n as nat, 10, false, n as nat);
    assert(s.len() <= width && is_digit(s[0], 10)) by {
        reveal_with_fuel(digits_of, 5);
    }
    if s.len() < width {
        lemma_zeros_in_front((width - s.len()) as nat, s);
    }
}

/// A timestamp spells its moment: year, month and day, then hours, minutes and
/// seconds, each in its place.
pub proof fn law_timestamps_spell_their_moment(y: int, m: int, d: int, secs: int)
    requires
        0 <= y <= 9999,
        is_date(y, m, d),
        0 <= secs < 86_400,
    ensures
        ({
            let t = timestamp(y, m, d, secs);
            let number = |from: int, to: int| digits_value(t.subrange(from, to), 10);
            &&& t.len() == 20
            &&& number(0, 4) == y && t[4] == '-' && number(5, 7) == m && t[7] == '-'
            &&& number(8, 10) == d && t[10] == 'T'
            &&& number(11, 13) * 3600 + number(14, 16) * 60 + number(17, 19) == secs
            &&& number(14, 16) < 60 && number(17, 19) < 60
            &&& t[13] == ':' && t[16] == ':' && t[19] == 'Z'
        }),
{
    reveal_strlit("-");
    reveal_strlit("T");
    reveal_strlit(":");
    reveal_strlit("Z");
    let hours = secs / 3600;
    let minutes = (secs % 3600) / 60;
    let seconds = secs % 60;
    lemma_zero_padded(y, 4);
    lemma_zero_padded(m, 2);
    lemma_zero_padded(d, 2);
    lemma_zero_padded(hours, 2);
    lemma_zero_padded(minutes, 2);
    lemma_zero_padded(seconds, 2);
    assert(hours * 3600 + minutes * 60 + seconds == secs);
    let t = timestamp(y, m, d, secs);
    assert(t.subrange(0, 4) =~= zero_padded(y, 4));
    assert(t.subrange(5, 7) =~= zero_padded(m, 2));
    assert(t.subrange(8, 10) =~= zero_padded(d, 2));
    assert(t.subrange(11, 13) =~= zero_padded(hours, 2));
    assert(t.subrange(14, 16) =~= zero_padded(minutes, 2));
    assert(t.subrange(17, 19) =~= zero_padded(seconds, 2));
}

/// A log line starts with its moment and ends with what was logged, and by whom;
/// before that stands how much it matters.
pub proof fn law_log_lines_say_what_happened(
    line: Seq<char>,
    total_secs: int,
    level: Seq<char>,
    target: Seq<char>,
    message: Seq<char>,
)
    requires
        is_log_line(line, total_secs, level, target, message),
    ensures
        ends_with(line, " "@ + target + ": "@ + message),
        exists|time: Seq<char>| #[trigger]
            is_timestamp(time, total_secs) && starts_with(line, time + " "@ + level),
{
    let time = choose|time: Seq<char>| #[trigger]
        is_timestamp(time, total_secs) && line == time + " "@ + padded_right(level, 5) + " "@
            + target + ": "@ + message;
    let start = time + " "@ + level;
    let end = " "@ + target + ": "@ + message;
    assert(line.skip(line.len() - end.len()) =~= end);
    assert(line.take(start.len() as int) =~= start);
    assert(is_timestamp(time, total_secs) && starts_with(line, start));
}

} // verus!
