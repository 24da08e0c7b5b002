//! The clock: civil date and time at an offset from UTC.
//!
//! The clock itself only reads the machine's time. Everything else is
//! arithmetic on the proleptic Gregorian calendar, stated against
//! `day_number`, the count of days from 1970-01-01 to a date.

use vstd::prelude::*;

verus! {

/// Largest magnitude, in minutes, that an offset from UTC may have: one day.
pub const MAX_OFFSET_MINUTES: i64 = 1440;

/// Seconds in a day.
pub const SECONDS_PER_DAY: u64 = 86400;

/// Days from 0001-01-01 to 1970-01-01.
pub const DAYS_TO_EPOCH: u64 = 719162;

/// Why the clock gave no date.
#[derive(Clone, Copy, Debug, PartialEq, Eq, Structural)]
pub enum ClockError {
    /// The offset lies outside `-MAX_OFFSET_MINUTES ..= MAX_OFFSET_MINUTES`.
    InvalidOffset,
    /// The machine's clock reads a time before 1970-01-01T00:00:00Z.
    BeforeEpoch,
}

/// A date and a time of day on the Gregorian calendar.
#[derive(Clone, Copy, Debug, PartialEq, Eq, Structural)]
pub struct CivilDateTime {
    pub year: u64,
    pub month: u8,
    pub day: u8,
    pub hour: u8,
    pub minute: u8,
    pub second: u8,
}

/// Whether `year` has a 29th of February.
pub open spec fn is_leap_year(year: int) -> bool {
    year % 4 == 0 && (year % 100 != 0 || year % 400 == 0)
}

/// The number of days in `year`.
pub open spec fn year_length(year: int) -> int {
    if is_leap_year(year) {
        366
    } else {
        365
    }
}

/// The number of days in `month` of `year`.
pub open spec fn days_in_month(year: int, month: int) -> int {
    if month == 2 {
        if is_leap_year(year) {
            29
        } else {
            28
        }
    } else if month == 4 || month == 6 || month == 9 || month == 11 {
        30
    } else {
        31
    }
}

/// The number of days of `year` that lie before the first of `month`.
pub open spec fn days_before_month(year: int, month: int) -> int
    decreases month,
{
    if month <= 1 {
        0
    } else {
        days_before_month(year, month - 1) + days_in_month(year, month - 1)
    }
}

/// The number of days from 0001-01-01 to the first of January of `year`.
pub open spec fn days_before_year(year: int) -> int {
    let past = year - 1;
    365 * past + past / 4 - past / 100 + past / 400
}

/// Whether `year`-`month`-`day` is a date of the calendar.
pub open spec fn is_date(year: int, month: int, day: int) -> bool {
    1 <= month <= 12 && 1 <= day <= days_in_month(year, month)
}

/// The number of days from 1970-01-01 to `year`-`month`-`day`.
pub open spec fn day_number(year: int, month: int, day: int) -> int {
    days_before_year(year) - DAYS_TO_EPOCH + days_before_month(year, month) + day - 1
}

/// Whether `offset`, in minutes, lies within the accepted range.
pub open spec fn offset_in_range(offset: int) -> bool {
    -MAX_OFFSET_MINUTES <= offset <= MAX_OFFSET_MINUTES
}

impl CivilDateTime {
    /// Whether the fields name a date of the calendar and a time of day.
    pub open spec fn is_valid(self) -> bool {
        &&& is_date(self.year as int, self.month as int, self.day as int)
        &&& self.hour < 24
        &&& self.minute < 60
        &&& self.second < 60
    }

    /// The number of seconds from 1970-01-01T00:00:00 to this date and time,
    /// both read on the same clock.
    pub open spec fn seconds(self) -> int {
        day_number(self.year as int, self.month as int, self.day as int) * SECONDS_PER_DAY
            + self.hour * 3600 + self.minute * 60 + self.second
    }
}

/// A year is as long as the distance between its first of January and the
/// next.
pub proof fn lemma_next_year(year: int)
    ensures
        days_before_year(year + 1) == days_before_year(year) + year_length(year),
{
    let past = year - 1;
    assert(year / 4 == past / 4 + if year % 4 == 0 { 1int } else { 0int });
    assert(year / 100 == past / 100 + if year % 100 == 0 { 1int } else { 0int });
    assert(year / 400 == past / 400 + if year % 400 == 0 { 1int } else { 0int });
    assert(year % 100 == 0 ==> year % 4 == 0) by {
        assert(year % 100 == 0 ==> year == 4 * (25 * (year / 100)));
    }
    assert(year % 400 == 0 ==> year % 100 == 0) by {
        assert(year % 400 == 0 ==> year == 100 * (4 * (year / 400)));
    }
}

/// Later years begin later, by at least the length of every year between.
pub proof fn lemma_years_ascend(earlier: int, later: int)
    requires
        earlier < later,
    ensures
        days_before_year(earlier) + year_length(earlier) <= days_before_year(later),
    decreases later - earlier,
{
    lemma_next_year(earlier);
    if earlier + 1 < later {
        lemma_years_ascend(earlier + 1, later);
    }
}

/// Later months begin later, by at least the length of every month between.
pub proof fn lemma_months_ascend(year: int, earlier: int, later: int)
    requires
        1 <= earlier < later,
    ensures
        days_before_month(year, earlier) + days_in_month(year, earlier) <= days_before_month(
            year,
            later,
        ),
    decreases later - earlier,
{
    if earlier + 1 < later {
        lemma_months_ascend(year, earlier, later - 1);
    }
}

/// The twelve months of a year make up its length.
pub proof fn lemma_whole_year(year: int)
    ensures
        days_before_month(year, 13) == year_length(year),
{
    reveal_with_fuel(days_before_month, 14);
}

/// No two dates have the same day number.
pub proof fn lemma_day_number_injective(y1: int, m1: int, d1: int, y2: int, m2: int, d2: int)
    requires
        is_date(y1, m1, d1),
        is_date(y2, m2, d2),
        day_number(y1, m1, d1) == day_number(y2, m2, d2),
    ensures
        y1 == y2,
        m1 == m2,
        d1 == d2,
{
    lemma_whole_year(y1);
    lemma_whole_year(y2);
    if m1 < 12 {
        lemma_months_ascend(y1, m1, 13);
    }
    if m2 < 12 {
        lemma_months_ascend(y2, m2, 13);
    }
    lemma_month_starts_nonnegative(y1, m1);
    lemma_month_starts_nonnegative(y2, m2);
    if y1 < y2 {
        lemma_years_ascend(y1, y2);
    } else if y2 < y1 {
        lemma_years_ascend(y2, y1);
    } else if m1 < m2 {
        lemma_months_ascend(y1, m1, m2);
    } else if m2 < m1 {
        lemma_months_ascend(y1, m2, m1);
    }
}

/// No month begins before its year does.
pub proof fn lemma_month_starts_nonnegative(year: int, month: int)
    ensures
        days_before_month(year, month) >= 0,
    decreases month,
{
    if month > 1 {
        lemma_month_starts_nonnegative(year, month - 1);
    }
}

/// No two valid dates and times are the same number of seconds from the
/// epoch.
pub proof fn lemma_seconds_injective(a: CivilDateTime, b: CivilDateTime)
    requires
        a.is_valid(),
        b.is_valid(),
        a.seconds() == b.seconds(),
    ensures
        a == b,
{
    let da = day_number(a.year as int, a.month as int, a.day as int);
    let db = day_number(b.year as int, b.month as int, b.day as int);
    let ta = a.hour * 3600 + a.minute * 60 + a.second;
    let tb = b.hour * 3600 + b.minute * 60 + b.second;
    assert(0 <= ta < 86400 && 0 <= tb < 86400);
    assert(da * 86400 + ta == db * 86400 + tb);
    assert(da == db) by (nonlinear_arith)
        requires
            da * 86400 + ta == db * 86400 + tb,
            0 <= ta < 86400,
            0 <= tb < 86400,
    ;
    lemma_day_number_injective(
        a.year as int,
        a.month as int,
        a.day as int,
        b.year as int,
        b.month as int,
        b.day as int,
    );
}

/// Tests whether `year` has a 29th of February.
pub fn leap_year(year: u64) -> (leap: bool)
    ensures
        leap == is_leap_year(year as int),
{
    year % 4 == 0 && (year % 100 != 0 || year % 400 == 0)
}

/// The number of days in `month` of `year`.
pub fn month_length(year: u64, month: u8) -> (length: u8)
    ensures
        length == days_in_month(year as int, month as int),
{
    if month == 2 {
        if leap_year(year) {
            29
        } else {
            28
        }
    } else if month == 4 || month == 6 || month == 9 || month == 11 {
        30
    } else {
        31
    }
}

/// Splits a count of days since 0001-01-01 into the year it falls in and
/// the number of days of that year that lie before it.
fn year_of(days: u64) -> (found: (u64, u64))
    requires
        days <= 0x0001_0000_0000_0000,
    ensures
        found.0 >= 1,
        days_before_year(found.0 as int) + found.1 == days,
        found.1 < year_length(found.0 as int),
{
    // 400 years hold 146097 days, 100 years 36524 or one more, 4 years 1461
    // or one fewer, a year 365 or one more: the long ones come last in each
    // cycle, so the last day of a cycle would count one cycle too many.
    let eras: u64 = days / 146097;
    let in_era: u64 = days % 146097;
    let centuries: u64 = if in_era / 36524 > 3 {
        3
    } else {
        in_era / 36524
    };
    let in_century: u64 = in_era - centuries * 36524;
    let quads: u64 = in_century / 1461;
    let in_quad: u64 = in_century % 1461;
    let years: u64 = if in_quad / 365 > 3 {
        3
    } else {
        in_quad / 365
    };
    let in_year: u64 = in_quad - years * 365;
    let past: u64 = 400 * eras + 100 * centuries + 4 * quads + years;
    proof {
        let p = past as int;
        assert(quads <= 24);
        assert(p / 4 == 100 * eras + 25 * centuries + quads);
        assert(p / 100 == 4 * eras + centuries);
        assert(p / 400 == eras as int);
        assert(days_before_year(p + 1) == 146097 * eras + 36524 * centuries + 1461 * quads + 365
            * years);
        if in_year >= 365 {
            assert(years == 3 && in_quad == 1460);
            assert((p + 1) % 4 == 0);
            if quads == 24 {
                assert(in_century == 36524);
                assert(centuries == 3);
                assert((p + 1) % 400 == 0);
            } else {
                assert((p + 1) % 100 != 0);
            }
        }
    }
    (past + 1, in_year)
}

/// Splits a count of days since the first of January of `year` into month
/// and day of the month.
fn month_and_day(year: u64, in_year: u64) -> (found: (u8, u8))
    requires
        in_year < year_length(year as int),
    ensures
        is_date(year as int, found.0 as int, found.1 as int),
        days_before_month(year as int, found.0 as int) + found.1 - 1 == in_year,
{
    let mut month: u8 = 1;
    let mut rest: u64 = in_year;
    proof {
        lemma_whole_year(year as int);
    }
    while rest >= month_length(year, month) as u64
        invariant
            1 <= month <= 12,
            days_before_month(year as int, month as int) + rest == in_year,
            in_year < days_before_month(year as int, 13),
        decreases 12 - month,
    {
        proof {
            if month == 12 {
                assert(days_before_month(year as int, 13) == days_before_month(year as int, 12)
                    + days_in_month(year as int, 12));
            }
        }
        rest = rest - month_length(year, month) as u64;
        month = month + 1;
    }
    (month, (rest + 1) as u8)
}

/// The date and time that lie `unix_seconds` seconds after
/// 1970-01-01T00:00:00Z, read on a clock that runs `offset_minutes` ahead
/// of UTC.
///
/// An offset beyond one day either way is refused, never clamped. Every
/// other input has exactly one answer: the valid date and time whose distance
/// from the epoch, in seconds, is `unix_seconds + 60 * offset_minutes`.
pub fn civil_at(unix_seconds: u64, offset_minutes: i64) -> (result: Result<
    CivilDateTime,
    ClockError,
>)
    ensures
        !offset_in_range(offset_minutes as int) ==> result == Err::<CivilDateTime, ClockError>(
            ClockError::InvalidOffset,
        ),
        offset_in_range(offset_minutes as int) ==> result is Ok && result->Ok_0.is_valid()
            && result->Ok_0.seconds() == unix_seconds + 60 * offset_minutes,
{
    if offset_minutes < -MAX_OFFSET_MINUTES || offset_minutes > MAX_OFFSET_MINUTES {
        return Err(ClockError::InvalidOffset);
    }
    let whole_days: u64 = unix_seconds / SECONDS_PER_DAY;
    let into_day: u64 = unix_seconds % SECONDS_PER_DAY;
    // between 0 and three days, whatever the offset
    let shifted: u64 = (into_day as i64 + SECONDS_PER_DAY as i64 + 60 * offset_minutes) as u64;
    // days since 0001-01-01, the day borrowed above given back
    let days: u64 = whole_days + shifted / SECONDS_PER_DAY + (DAYS_TO_EPOCH - 1);
    let second_of_day: u64 = shifted % SECONDS_PER_DAY;
    let (year, in_year) = year_of(days);
    let (month, day) = month_and_day(year, in_year);
    let hour: u8 = (second_of_day / 3600) as u8;
    let minute: u8 = (second_of_day % 3600 / 60) as u8;
    let second: u8 = (second_of_day % 60) as u8;
    let found = CivilDateTime { year, month, day, hour, minute, second };
    proof {
        assert(day_number(year as int, month as int, day as int) == days - DAYS_TO_EPOCH);
        assert(hour * 3600 + minute * 60 + second == second_of_day);
        assert(unix_seconds == whole_days * 86400 + into_day);
        assert(shifted == (shifted / 86400) * 86400 + second_of_day);
        assert(found.seconds() == (days - DAYS_TO_EPOCH) * 86400 + second_of_day);
    }
    Ok(found)
}

/// Whether `result` is what the clock answers once the machine's time has
/// been read. `reading` is that time in seconds since the epoch, or `None`
/// where the machine's clock stands before the epoch; no offset means UTC.
///
/// An offset out of range gives `InvalidOffset`, whatever the reading. A
/// reading before the epoch gives `BeforeEpoch`. Every other answer is the
/// valid date and time that lies `reading + 60 * offset` seconds after the
/// epoch; `lemma_one_answer` shows that there is only one.
pub open spec fn answers(
    reading: Option<u64>,
    offset: Option<i64>,
    result: Result<CivilDateTime, ClockError>,
) -> bool {
    let minutes = offset_or_utc(offset);
    if !offset_in_range(minutes) {
        result == Err::<CivilDateTime, ClockError>(ClockError::InvalidOffset)
    } else {
        match reading {
            None => result == Err::<CivilDateTime, ClockError>(ClockError::BeforeEpoch),
            Some(unix_seconds) => {
                &&& result is Ok
                &&& result->Ok_0.is_valid()
                &&& result->Ok_0.seconds() == unix_seconds + 60 * minutes
            },
        }
    }
}

/// The offset in minutes that `offset` asks for: none asks for UTC.
pub open spec fn offset_or_utc(offset: Option<i64>) -> int {
    match offset {
        Some(minutes) => minutes as int,
        None => 0,
    }
}

/// The same reading and the same offset have one answer only.
pub proof fn lemma_one_answer(
    reading: Option<u64>,
    offset: Option<i64>,
    first: Result<CivilDateTime, ClockError>,
    second: Result<CivilDateTime, ClockError>,
)
    requires
        answers(reading, offset, first),
        answers(reading, offset, second),
    ensures
        first == second,
{
    if first is Ok && second is Ok {
        lemma_seconds_injective(first->Ok_0, second->Ok_0);
    }
}

/// An offset out of range fails with `InvalidOffset` whatever the machine's
/// clock reads, and one in range never does.
pub proof fn lemma_offset_bound(
    reading: Option<u64>,
    offset: Option<i64>,
    result: Result<CivilDateTime, ClockError>,
)
    requires
        answers(reading, offset, result),
    ensures
        !offset_in_range(offset_or_utc(offset)) <==> result == Err::<CivilDateTime, ClockError>(
            ClockError::InvalidOffset,
        ),
{
}

/// The clock provider. It holds nothing: every call reads the machine's time
/// anew.
#[derive(Clone, Copy, Debug)]
pub struct Clock;

impl Clock {
    /// Turns a reading of the machine's time into the clock's answer.
    pub fn at(reading: Option<u64>, offset: Option<i64>) -> (result: Result<
        CivilDateTime,
        ClockError,
    >)
        ensures
            answers(reading, offset, result),
    {
        let minutes: i64 = match offset {
            Some(minutes) => minutes,
            None => 0,
        };
        if minutes < -MAX_OFFSET_MINUTES || minutes > MAX_OFFSET_MINUTES {
            return Err(ClockError::InvalidOffset);
        }
        match reading {
            None => Err(ClockError::BeforeEpoch),
            Some(unix_seconds) => civil_at(unix_seconds, minutes),
        }
    }

    /// The current date and time on a clock that runs `offset` minutes ahead
    /// of UTC; no offset means UTC.
    ///
    /// The result is the answer to some reading of the machine's time. So an
    /// offset beyond one day either way fails with `InvalidOffset`, one
    /// within never does, and every date handed out is valid.
    pub fn now(&self, offset: Option<i64>) -> (result: Result<CivilDateTime, ClockError>)
        ensures
            exists|reading: Option<u64>| answers(reading, offset, result),
            !offset_in_range(offset_or_utc(offset)) <==> result == Err::<
                CivilDateTime,
                ClockError,
            >(ClockError::InvalidOffset),
            result matches Ok(found) ==> found.is_valid(),
    {
        let time = system_time();
        let reading: Option<u64> = match since_epoch(&time) {
            Some(elapsed) => Some(elapsed.as_secs()),
            None => None,
        };
        let result = Clock::at(reading, offset);
        assert(answers(reading, offset, result));
        result
    }
}

/// Declares `std::time::SystemTime`, a reading of the machine's clock.
/// Nothing is known of what it holds.
#[verifier::external_type_specification]
#[verifier::external_body]
pub struct ExSystemTime(std::time::SystemTime);

/// Reads the machine's clock through `std::time::SystemTime::now`. Nothing is
/// claimed of the reading.
#[verifier::external_body]
fn system_time() -> (time: std::time::SystemTime) {
    std::time::SystemTime::now()
}

/// How long after 1970-01-01T00:00:00Z `time` lies, through
/// `std::time::SystemTime::duration_since`, or `None` where it lies before.
/// Nothing is claimed of the value.
#[verifier::external_body]
fn since_epoch(time: &std::time::SystemTime) -> (elapsed: Option<core::time::Duration>) {
    time.duration_since(std::time::UNIX_EPOCH).ok()
}

/// The whole seconds of a duration, through `core::time::Duration::as_secs`.
/// Nothing is claimed of the value.
pub assume_specification[ core::time::Duration::as_secs ](duration: &core::time::Duration) -> (seconds:
    u64);

} // verus!
