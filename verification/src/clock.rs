use vstd::prelude::*;
use crate::digits::{decimal, digit_char, four_digits};

verus! {

/// The smallest year a timestamp can carry.
pub const MIN_YEAR: i32 = -262143;

/// The largest year a timestamp can carry.
pub const MAX_YEAR: i32 = 262142;

/// A civil date and time of day without a time zone, held as plain numbers.
#[derive(Clone, Copy, Debug, PartialEq, Eq, Structural)]
pub struct Timestamp {
    pub year: i32,
    /// 1 for January up to 12 for December.
    pub month: u32,
    /// Day of the month, from 1.
    pub day: u32,
    pub hour: u32,
    pub minute: u32,
    pub second: u32,
}

/// Whether `year` is a leap year of the proleptic Gregorian calendar.
pub open spec fn is_leap_year(year: int) -> bool {
    year % 4 == 0 && (year % 100 != 0 || year % 400 == 0)
}

/// The number of days of `month` in `year`; 0 where `month` is no month.
pub open spec fn days_in_month(year: int, month: int) -> int {
    if month == 2 {
        if is_leap_year(year) {
            29
        } else {
            28
        }
    } else if month == 4 || month == 6 || month == 9 || month == 11 {
        30
    } else if 1 <= month <= 12 {
        31
    } else {
        0
    }
}

/// Whether year, month and day name a day of the calendar within the years
/// a timestamp can carry.
pub open spec fn is_calendar_date(year: int, month: int, day: int) -> bool {
    &&& MIN_YEAR <= year <= MAX_YEAR
    &&& 1 <= month <= 12
    &&& 1 <= day <= days_in_month(year, month)
}

/// A year as text: four digits from 0 to 9999, a plus sign before a later
/// year, a minus sign and at least four digits for a year before 0.
pub open spec fn year_text(year: int) -> Seq<char> {
    if year < 0 {
        seq!['-'] + four_digits((-year) as nat)
    } else if year > 9999 {
        seq!['+'] + decimal(year as nat)
    } else {
        four_digits(year as nat)
    }
}

/// A date as text: the year, then month and day in two digits each, with
/// hyphens between them.
pub open spec fn date_text(year: int, month: int, day: int) -> Seq<char> {
    year_text(year) + seq!['-', digit_char(month / 10), digit_char(month % 10)] + seq![
        '-',
        digit_char(day / 10),
        digit_char(day % 10),
    ]
}

/// Calls `chrono::Local::now` and reads the date and the time of day from
/// the result with chrono's `Datelike` and `Timelike`. The contract claims
/// what chrono holds of every date and time: the year lies in the range of
/// `NaiveDate`, the day exists in its month, and hour, minute and second
/// lie below 24, 60 and 60. Nothing is claimed of which moment comes back.
#[verifier::external_body]
pub(crate) fn read_clock() -> (now: Timestamp)
    ensures
        now.wf(),
{
    let now = chrono::Local::now().naive_local();
    Timestamp {
        year: chrono::Datelike::year(&now),
        month: chrono::Datelike::month(&now),
        day: chrono::Datelike::day(&now),
        hour: chrono::Timelike::hour(&now),
        minute: chrono::Timelike::minute(&now),
        second: chrono::Timelike::second(&now),
    }
}

/// Calls `chrono::NaiveDate::from_ymd_opt` and formats the date with
/// chrono's `format("%Y-%m-%d")`. The contract claims what chrono's
/// formatting writes for these three items: `%Y` is the year in four digits
/// from 0 to 9999, with a sign outside of that range, `%m` and `%d` are
/// month and day in two digits.
#[verifier::external_body]
pub(crate) fn format_date(year: i32, month: u32, day: u32) -> (text: String)
    requires
        is_calendar_date(year as int, month as int, day as int),
    ensures
        text@ == date_text(year as int, month as int, day as int),
{
    match chrono::NaiveDate::from_ymd_opt(year, month, day) {
        Some(date) => date.format("%Y-%m-%d").to_string(),
        None => String::new(),
    }
}

impl Timestamp {
    /// A timestamp is well formed when it names an existing day and a time
    /// of that day.
    pub open spec fn wf(self) -> bool {
        &&& is_calendar_date(self.year as int, self.month as int, self.day as int)
        &&& self.hour < 24
        &&& self.minute < 60
        &&& self.second < 60
    }

    /// Whether the timestamp names an existing day and a time of that day.
    pub fn is_valid(&self) -> (valid: bool)
        ensures
            valid == self.wf(),
    {
        if self.year < MIN_YEAR || self.year > MAX_YEAR || self.month < 1 || self.month > 12 {
            return false;
        }
        let leap = self.year % 4 == 0 && (self.year % 100 != 0 || self.year % 400 == 0);
        let days: u32 = if self.month == 2 {
            if leap {
                29
            } else {
                28
            }
        } else if self.month == 4 || self.month == 6 || self.month == 9 || self.month == 11 {
            30
        } else {
            31
        };
        1 <= self.day && self.day <= days && self.hour < 24 && self.minute < 60 && self.second
            < 60
    }

    /// The timestamp of these numbers, where they name an existing day and
    /// a time of that day.
    pub fn new(year: i32, month: u32, day: u32, hour: u32, minute: u32, second: u32) -> (made:
        Option<Timestamp>)
        ensures
            made == if (Timestamp { year, month, day, hour, minute, second }).wf() {
                Some(Timestamp { year, month, day, hour, minute, second })
            } else {
                None
            },
    {
        let t = Timestamp { year, month, day, hour, minute, second };
        if t.is_valid() {
            Some(t)
        } else {
            None
        }
    }

    /// The current local date and time.
    pub fn now() -> (now: Timestamp)
        ensures
            now.wf(),
    {
        read_clock()
    }

    /// The month counted from 0 for January, as the ledger keys its months.
    pub open spec fn ledger_month(self) -> int {
        self.month - 1
    }

    /// The month counted from 0 for January.
    pub fn month0(self) -> (m: i32)
        requires
            self.wf(),
        ensures
            m == self.ledger_month(),
            0 <= m < 12,
    {
        (self.month - 1) as i32
    }
}

} // verus!
