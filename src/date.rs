use vstd::prelude::*;

verus! {

/// A moment at which a message was sent: the instant, in seconds since the
/// Unix epoch, and the wall-clock reading of that instant in the user's time
/// zone.
#[derive(Clone, Copy, Debug, PartialEq, Eq, Structural)]
pub struct MailDate {
    pub timestamp: i64,
    pub year: i32,
    pub month: u32,
    pub day: u32,
    pub hour: u32,
    pub minute: u32,
}

pub open spec fn is_leap_year(y: int) -> bool {
    (y % 4 == 0 && y % 100 != 0) || y % 400 == 0
}

pub open spec fn days_in_month(y: int, m: int) -> int {
    if m == 2 {
        if is_leap_year(y) { 29 } else { 28 }
    } else if m == 4 || m == 6 || m == 9 || m == 11 {
        30
    } else {
        31
    }
}

/// The decimal digit `d` (for `0 <= d <= 9`).
pub open spec fn digit(d: int) -> char {
    if d == 0 { '0' }
    else if d == 1 { '1' }
    else if d == 2 { '2' }
    else if d == 3 { '3' }
    else if d == 4 { '4' }
    else if d == 5 { '5' }
    else if d == 6 { '6' }
    else if d == 7 { '7' }
    else if d == 8 { '8' }
    else { '9' }
}

/// `n` (for `0 <= n <= 99`) in two digits, with a leading zero.
pub open spec fn two_digits(n: int) -> Seq<char> {
    seq![digit(n / 10), digit(n % 10)]
}

/// `n` (for `0 <= n <= 9999`) in four digits, with leading zeros.
pub open spec fn four_digits(n: int) -> Seq<char> {
    seq![digit(n / 1000), digit(n / 100 % 10), digit(n / 10 % 10), digit(n % 10)]
}

/// `YYYY/MM/DD HH:MM` for the wall-clock reading of `d`.
pub open spec fn date_text(d: MailDate) -> Seq<char> {
    four_digits(d.year as int) + seq!['/'] + two_digits(d.month as int) + seq!['/']
        + two_digits(d.day as int) + seq![' '] + two_digits(d.hour as int) + seq![':']
        + two_digits(d.minute as int)
}

impl MailDate {
    /// The wall-clock reading names a real minute of the proleptic Gregorian
    /// calendar, within the years that chrono's dates can hold.
    pub open spec fn is_valid(self) -> bool {
        &&& -262_143 <= self.year <= 262_142
        &&& 1 <= self.month <= 12
        &&& 1 <= self.day <= days_in_month(self.year as int, self.month as int)
        &&& self.hour < 24
        &&& self.minute < 60
    }
}

/// The layout of dates in the message list.
pub open spec fn list_date_format() -> Seq<char> {
    "%Y/%m/%d %H:%M"@
}

impl MailDate {
    /// Whether the wall-clock reading is valid.
    pub fn check_valid(&self) -> (r: bool)
        ensures
            r == self.is_valid(),
    {
        let leap = (self.year % 4 == 0 && self.year % 100 != 0) || self.year % 400 == 0;
        let days: u32 = if self.month == 2 {
            if leap { 29 } else { 28 }
        } else if self.month == 4 || self.month == 6 || self.month == 9 || self.month == 11 {
            30
        } else {
            31
        };
        -262_143 <= self.year && self.year <= 262_142 && 1 <= self.month && self.month <= 12 && 1
            <= self.day && self.day <= days && self.hour < 24 && self.minute < 60
    }
}

/// Relies on chrono's `NaiveDate::from_ymd_opt` and `and_hms_opt`, which
/// accept every valid reading, and on `format`, which for the list layout
/// writes the year zero-padded to four digits (for years 0 to 9999) and the
/// other fields zero-padded to two. Only the list layout is admitted: chrono
/// reports a bad layout when the value is written, and `to_string` panics on
/// that report.
#[verifier::external_body]
fn format_reading(d: &MailDate, fmt: &str) -> (r: String)
    requires
        d.is_valid(),
        fmt@ == list_date_format(),
    ensures
        0 <= d.year <= 9999 ==> r@ == date_text(*d),
{
    match chrono::NaiveDate::from_ymd_opt(d.year, d.month, d.day) {
        Some(day) => match day.and_hms_opt(d.hour, d.minute, 0) {
            Some(t) => t.format(fmt).to_string(),
            None => String::new(),
        },
        None => String::new(),
    }
}

/// Formats the date for the message list as `YYYY/MM/DD HH:MM`.
pub fn format_date(date: &MailDate) -> (r: String)
    requires
        date.is_valid(),
    ensures
        0 <= date.year <= 9999 ==> r@ == date_text(*date),
        0 <= date.year <= 9999 ==> r@.len() == 16,
{
    format_reading(date, "%Y/%m/%d %H:%M")
}

} // verus!
