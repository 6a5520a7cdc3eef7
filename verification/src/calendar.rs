//! Calendar dates as the ledger keeps them: text in the `%Y-%m-%d` form,
//! read as day numbers (January 1 of year 1 is day 1).

use vstd::prelude::*;
use chrono::Datelike;

verus! {

/// The form in which the ledger writes and reads its dates.
pub const DATE_FORMAT: &'static str = "%Y-%m-%d";

/// How many days of usage the ledger keeps before today.
pub const RETENTION_DAYS: i64 = 30;

/// The day number that chrono's date parser gives for `text` read in the
/// form `format`, or `None` where it refuses the text.
pub uninterp spec fn spec_parse_date_days(text: Seq<char>, format: Seq<char>) -> Option<i32>;

/// Calls `chrono::NaiveDate::parse_from_str` on `text` and `format` and
/// gives the parsed date's `num_days_from_ce`, or `None` where the parser
/// returns an error. The result is named by `spec_parse_date_days`.
#[verifier::external_body]
fn parse_date_days(text: &str, format: &str) -> (r: Option<i32>)
    ensures
        r == spec_parse_date_days(text@, format@),
{
    chrono::NaiveDate::parse_from_str(text, format).ok().map(|d| d.num_days_from_ce())
}

/// Reads the system clock once with `std::time::SystemTime::now()`, turns
/// it into a local time with chrono's `DateTime::<Local>::from` (which
/// takes clocks before 1970 too), and gives the local date both as text in
/// the form `format` and as its `num_days_from_ce`. Which date
/// depends on the clock and the time zone; the text, read back in the same
/// form, gives the same day, since `%Y`, `%m` and `%d` are read as they
/// are written. `format` is held to the ledger's form, which formats
/// without error.
#[verifier::external_body]
fn local_today(format: &str) -> (r: (String, i32))
    requires
        format@ == DATE_FORMAT@,
    ensures
        spec_parse_date_days(r.0@, format@) == Some(r.1),
{
    let now = chrono::DateTime::<chrono::Local>::from(std::time::SystemTime::now());
    (now.format(format).to_string(), now.naive_local().date().num_days_from_ce())
}

/// The day number of the ledger date `text`, or `None` where it is not a
/// date in the ledger's form.
pub open spec fn date_days(text: Seq<char>) -> Option<i32> {
    spec_parse_date_days(text, DATE_FORMAT@)
}

/// `d` is the day number of some date in the ledger's form.
pub open spec fn is_date_day(d: i32) -> bool {
    exists|t: Seq<char>| #[trigger] date_days(t) == Some(d)
}

/// Reads the ledger date `text` as a day number.
pub fn parse_ledger_date(text: &str) -> (r: Option<i32>)
    ensures
        r == date_days(text@),
{
    parse_date_days(text, DATE_FORMAT)
}

/// Today's local date in the ledger's form, read from the clock.
pub fn today_text() -> (r: String)
    ensures
        date_days(r@) is Some,
{
    LocalDay::now().text
}

/// The oldest day number the ledger keeps: today's local day number, read
/// from the clock, less the retention period.
pub fn retention_cutoff() -> (r: i64)
    ensures
        exists|d: i32| #[trigger] is_date_day(d) && r == d - RETENTION_DAYS,
{
    let today = LocalDay::now();
    today.cutoff()
}

/// The oldest day number the ledger keeps on the day `today`: the
/// retention period before it.
pub fn cutoff_for_day(today: i32) -> (r: i64)
    ensures
        r == today - RETENTION_DAYS,
{
    today as i64 - RETENTION_DAYS
}

/// Today's local date, read from the clock once: its text in the
/// ledger's form and its day number, which that text reads back as.
pub struct LocalDay {
    text: String,
    days: i32,
}

impl LocalDay {
    #[verifier::type_invariant]
    spec fn reads_back(self) -> bool {
        date_days(self.text@) == Some(self.days)
    }

    /// The date's text in the ledger's form.
    pub closed spec fn date(self) -> String {
        self.text
    }

    /// The date's day number.
    pub closed spec fn day_number(self) -> i32 {
        self.days
    }

    /// Reads today's local date from the clock.
    pub fn now() -> (d: LocalDay)
        ensures
            date_days(d.date()@) == Some(d.day_number()),
    {
        let (text, days) = local_today(DATE_FORMAT);
        LocalDay { text, days }
    }

    /// The date's text in the ledger's form, which reads back as its day
    /// number.
    pub fn text(&self) -> (r: &String)
        ensures
            *r == self.date(),
            date_days(r@) == Some(self.day_number()),
    {
        proof {
            use_type_invariant(self);
        }
        &self.text
    }

    /// The oldest day number the ledger keeps on this date.
    pub fn cutoff(&self) -> (r: i64)
        ensures
            r == self.day_number() - RETENTION_DAYS,
            is_date_day(self.day_number()),
    {
        proof {
            use_type_invariant(self);
            assert(date_days(self.text@) == Some(self.days));
        }
        cutoff_for_day(self.days)
    }
}

} // verus!
