use chrono::Datelike;
use vstd::prelude::*;

verus! {

/// No calendar date has a day number below this one.
pub const MIN_DAY: i32 = -100_000_000;

/// No calendar date has a day number above this one.
pub const MAX_DAY: i32 = 100_000_000;

/// A calendar date, held as its day number: 0001-01-01 is day 1, and
/// consecutive dates have consecutive numbers.
#[derive(Clone, Copy, Debug, PartialEq, Eq, Structural)]
pub struct Date {
    pub days: i32,
}

impl Date {
    /// The day number lies in the range of representable calendar dates.
    pub open spec fn wf(self) -> bool {
        MIN_DAY <= self.days <= MAX_DAY
    }

    pub fn from_days(days: i32) -> (r: Date)
        ensures
            r.days == days,
    {
        Date { days }
    }

    /// The date `n` days later.
    pub fn plus_days(self, n: i32) -> (r: Date)
        requires
            self.wf(),
            0 <= n <= MAX_DAY,
        ensures
            r.days == self.days + n,
    {
        Date { days: self.days + n }
    }

    /// How many days lie from `self` to `later` (negative when `later` comes first).
    pub fn days_until(self, later: Date) -> (r: i64)
        ensures
            r == later.days - self.days,
    {
        later.days as i64 - self.days as i64
    }
}

/// The date that a text in the form `YYYY-MM-DD` names, if it names one.
pub uninterp spec fn date_from_text(s: Seq<char>) -> Option<Date>;

/// Relies on chrono's `FromStr` for `NaiveDate` (`%Y-%m-%d`) and on
/// `Datelike::num_days_from_ce`; chrono's dates lie between the years
/// -262143 and 262142, well inside `MIN_DAY..=MAX_DAY`.
#[verifier::external_body]
pub(crate) fn parse_date(s: &str) -> (r: Option<Date>)
    ensures
        r == date_from_text(s@),
        r matches Some(d) ==> d.wf(),
{
    s.parse::<chrono::NaiveDate>().ok().map(|d| Date { days: d.num_days_from_ce() })
}

/// Relies on chrono's `Utc::now` and `DateTime::date_naive`: today's date in UTC,
/// which lies in chrono's range of dates.
#[verifier::external_body]
pub(crate) fn today_utc() -> (r: Date)
    ensures
        r.wf(),
{
    Date { days: chrono::Utc::now().date_naive().num_days_from_ce() }
}

} // verus!
