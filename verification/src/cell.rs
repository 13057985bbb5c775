//! Spreadsheet cells as plain values, and their canonical text.

use vstd::prelude::*;
use vstd::string::*;
use crate::text::{decimal, decimal_string, two_digit, two_digit_string};

verus! {

/// Year of the day that serial number zero stands for.
pub const EPOCH_YEAR: i32 = 1899;

/// Month of the day that serial number zero stands for.
pub const EPOCH_MONTH: u32 = 12;

/// Day of month of the day that serial number zero stands for.
pub const EPOCH_DAY: u32 = 30;

/// Largest magnitude of a serial day number that can be turned into a date.
pub const SERIAL_DAY_LIMIT: i64 = 95_000_000;

/// Largest magnitude of the seconds that accompany a serial day number.
pub const DAY_SECONDS: i64 = 86_400;

/// Plain numbers above this bound, and below `SERIAL_DATE_HIGH`, are taken
/// for serial dates.
pub const SERIAL_DATE_LOW: i64 = 30_000;

/// Plain numbers below this bound, and above `SERIAL_DATE_LOW`, are taken
/// for serial dates.
pub const SERIAL_DATE_HIGH: i64 = 70_000;

/// An error value held by a cell.
#[derive(Clone, Copy, Debug, PartialEq, Eq, Structural)]
pub enum CellError {
    Div0,
    NA,
    Name,
    Null,
    Num,
    Ref,
    Value,
    GettingData,
}

/// One cell of a worksheet.
///
/// A floating-point cell is held as the integer it truncates to, whether it
/// has a fractional part, and its two renderings; date-time and duration
/// cells are held as whole days and seconds.
#[derive(Debug)]
pub enum Cell {
    /// No content.
    Empty,
    /// Text.
    Text(String),
    /// A signed integer.
    Int(i64),
    /// A truth value.
    Bool(bool),
    /// A floating-point number: `whole` is the number truncated towards
    /// zero, `fractional` says whether anything was cut off, `rounded` is
    /// the number written without decimals and `plain` its default decimal
    /// text.
    Number { whole: i64, fractional: bool, rounded: String, plain: String },
    /// A point in time: whole days since the epoch and the seconds of the
    /// remaining fraction of a day.
    DateTime { days: i64, seconds: i64 },
    /// A duration in whole seconds.
    Duration { seconds: i64 },
    /// A date or time already written as text.
    DateTimeIso(String),
    /// A duration already written as text.
    DurationIso(String),
    /// An error value.
    Error(CellError),
}

/// The mathematical content of a [`Cell`].
pub enum CellView {
    Empty,
    Text(Seq<char>),
    Int(int),
    Bool(bool),
    Number { whole: int, fractional: bool, rounded: Seq<char>, plain: Seq<char> },
    DateTime { days: int, seconds: int },
    Duration { seconds: int },
    DateTimeIso(Seq<char>),
    DurationIso(Seq<char>),
    Error(CellError),
}

impl View for Cell {
    type V = CellView;

    open spec fn view(&self) -> CellView {
        match *self {
            Cell::Empty => CellView::Empty,
            Cell::Text(s) => CellView::Text(s@),
            Cell::Int(i) => CellView::Int(i as int),
            Cell::Bool(b) => CellView::Bool(b),
            Cell::Number { whole, fractional, rounded, plain } => CellView::Number {
                whole: whole as int,
                fractional,
                rounded: rounded@,
                plain: plain@,
            },
            Cell::DateTime { days, seconds } => CellView::DateTime {
                days: days as int,
                seconds: seconds as int,
            },
            Cell::Duration { seconds } => CellView::Duration { seconds: seconds as int },
            Cell::DateTimeIso(s) => CellView::DateTimeIso(s@),
            Cell::DurationIso(s) => CellView::DurationIso(s@),
            Cell::Error(e) => CellView::Error(e),
        }
    }
}

impl DeepView for Cell {
    type V = CellView;

    open spec fn deep_view(&self) -> CellView {
        self@
    }
}

/// The pattern by which dates are written: year, month and day of month
/// with hyphens between them.
pub open spec fn date_pattern() -> Seq<char> {
    "%Y-%m-%d"@
}

/// The pattern by which points in time are written: the date, a space, and
/// the time of day with colons.
pub open spec fn datetime_pattern() -> Seq<char> {
    "%Y-%m-%d %H:%M:%S"@
}

/// The text of the calendar day that lies `days` days after the given day,
/// written by `pattern`.
pub uninterp spec fn date_text(year: int, month: int, day: int, days: int, pattern: Seq<char>) -> Seq<
    char,
>;

/// The text of the point in time that lies `days` days and `seconds` seconds
/// after midnight of the given day, written by `pattern`.
pub uninterp spec fn datetime_text(
    year: int,
    month: int,
    day: int,
    days: int,
    seconds: int,
    pattern: Seq<char>,
) -> Seq<char>;

/// Whether a year has a 29th of February.
pub open spec fn leap_year(year: int) -> bool {
    year % 4 == 0 && (year % 100 != 0 || year % 400 == 0)
}

/// The number of days of a month.
pub open spec fn month_length(year: int, month: int) -> int {
    if month == 2 {
        if leap_year(year) {
            29
        } else {
            28
        }
    } else if month == 4 || month == 6 || month == 9 || month == 11 {
        30
    } else {
        31
    }
}

/// A day that exists in the calendar, in a year from which every serial day
/// number within the limit can still be reached.
pub open spec fn usable_epoch(year: int, month: int, day: int) -> bool {
    &&& 0 <= year <= 2000
    &&& 1 <= month <= 12
    &&& 1 <= day <= month_length(year, month)
}

/// Calls `chrono::NaiveDate::from_ymd_opt`, adds `chrono::Duration::days(days)`
/// to the date and formats the sum with `pattern`.
///
/// Trusted: the result is the named text [`date_text`] of the arguments. The
/// preconditions keep the epoch a real calendar day, the sum inside the
/// years that chrono can represent, and the pattern one that chrono
/// knows, so the call does not panic.
#[verifier::external_body]
fn format_date(year: i32, month: u32, day: u32, days: i64, pattern: &str) -> (text: String)
    requires
        usable_epoch(year as int, month as int, day as int),
        -SERIAL_DAY_LIMIT <= days <= SERIAL_DAY_LIMIT,
        pattern@ == date_pattern(),
    ensures
        text@ == date_text(year as int, month as int, day as int, days as int, pattern@),
{
    let base = chrono::NaiveDate::from_ymd_opt(year, month, day).unwrap();
    (base + chrono::Duration::days(days)).format(pattern).to_string()
}

/// Calls `chrono::NaiveDate::from_ymd_opt` and `and_hms_opt(0, 0, 0)`, adds
/// `chrono::Duration::days(days)` and `chrono::Duration::seconds(seconds)` and
/// formats the sum with `pattern`.
///
/// Trusted: the result is the named text [`datetime_text`] of the arguments.
/// The preconditions keep the epoch a real calendar day, the sum inside the
/// years that chrono can represent, and the pattern one that chrono
/// knows, so the call does not panic.
#[verifier::external_body]
fn format_datetime(
    year: i32,
    month: u32,
    day: u32,
    days: i64,
    seconds: i64,
    pattern: &str,
) -> (text: String)
    requires
        usable_epoch(year as int, month as int, day as int),
        -SERIAL_DAY_LIMIT <= days <= SERIAL_DAY_LIMIT,
        -DAY_SECONDS <= seconds <= DAY_SECONDS,
        pattern@ == datetime_pattern(),
    ensures
        text@ == datetime_text(
            year as int,
            month as int,
            day as int,
            days as int,
            seconds as int,
            pattern@,
        ),
{
    let base = chrono::NaiveDate::from_ymd_opt(year, month, day).unwrap();
    let start = base.and_hms_opt(0, 0, 0).unwrap();
    let moment = start + chrono::Duration::days(days) + chrono::Duration::seconds(seconds);
    moment.format(pattern).to_string()
}

/// The policy that tells serial dates from plain numbers: a number counts as
/// a serial date when it lies strictly between the two bounds.
///
/// The number is given by the integer it truncates to and by whether it has
/// a fractional part.
pub open spec fn in_serial_date_range(whole: int, fractional: bool) -> bool {
    &&& whole > SERIAL_DATE_LOW || (whole == SERIAL_DATE_LOW && fractional)
    &&& whole < SERIAL_DATE_HIGH
}

/// Integer division that rounds towards zero.
pub open spec fn quotient(a: int, b: int) -> int
    recommends
        b > 0,
{
    if a >= 0 {
        a / b
    } else {
        -((-a) / b)
    }
}

/// The remainder that goes with [`quotient`]; it has the sign of `a`.
pub open spec fn remainder(a: int, b: int) -> int
    recommends
        b > 0,
{
    if a >= 0 {
        a % b
    } else {
        -((-a) % b)
    }
}

/// A duration of whole seconds written as hours, minutes and seconds, each
/// at least two characters wide; the hours are not wrapped at a day.
pub open spec fn clock_text(seconds: int) -> Seq<char> {
    two_digit(quotient(seconds, 3600)) + seq![':'] + two_digit(
        quotient(remainder(seconds, 3600), 60),
    ) + seq![':'] + two_digit(remainder(seconds, 60))
}

/// The name under which an error value is reported.
pub open spec fn error_name(e: CellError) -> Seq<char> {
    match e {
        CellError::Div0 => "Div0"@,
        CellError::NA => "NA"@,
        CellError::Name => "Name"@,
        CellError::Null => "Null"@,
        CellError::Num => "Num"@,
        CellError::Ref => "Ref"@,
        CellError::Value => "Value"@,
        CellError::GettingData => "GettingData"@,
    }
}

/// The canonical text of a cell.
pub open spec fn cell_text(cell: CellView) -> Seq<char> {
    match cell {
        CellView::Empty => Seq::empty(),
        CellView::Text(s) => s,
        CellView::Int(i) => decimal(i),
        CellView::Bool(b) => if b {
            "true"@
        } else {
            "false"@
        },
        CellView::Number { whole, fractional, rounded, plain } => {
            if in_serial_date_range(whole, fractional) {
                date_text(
                    EPOCH_YEAR as int,
                    EPOCH_MONTH as int,
                    EPOCH_DAY as int,
                    whole,
                    date_pattern(),
                )
            } else if !fractional {
                rounded
            } else {
                plain
            }
        },
        CellView::DateTime { days, seconds } => datetime_text(
            EPOCH_YEAR as int,
            EPOCH_MONTH as int,
            EPOCH_DAY as int,
            days,
            seconds,
            datetime_pattern(),
        ),
        CellView::Duration { seconds } => clock_text(seconds),
        CellView::DateTimeIso(s) => s,
        CellView::DurationIso(s) => s,
        CellView::Error(e) => "Error: "@ + error_name(e),
    }
}

/// Whether a cell can be normalized: the days and seconds of a point in
/// time must lie within the limits of the calendar.
pub open spec fn cell_wf(cell: CellView) -> bool {
    match cell {
        CellView::DateTime { days, seconds } => {
            &&& -SERIAL_DAY_LIMIT <= days <= SERIAL_DAY_LIMIT
            &&& -DAY_SECONDS <= seconds <= DAY_SECONDS
        },
        _ => true,
    }
}

impl Cell {
    /// Whether this cell can be normalized.
    pub open spec fn wf(&self) -> bool {
        cell_wf(self@)
    }

    /// Tells whether this cell can be normalized.
    pub fn is_wf(&self) -> (ok: bool)
        ensures
            ok == self.wf(),
    {
        match self {
            Cell::DateTime { days, seconds } => {
                -SERIAL_DAY_LIMIT <= *days && *days <= SERIAL_DAY_LIMIT && -DAY_SECONDS <= *seconds
                    && *seconds <= DAY_SECONDS
            },
            _ => true,
        }
    }
}

/// Tells serial dates from plain numbers, by [`in_serial_date_range`].
pub fn is_serial_date(whole: i64, fractional: bool) -> (r: bool)
    ensures
        r == in_serial_date_range(whole as int, fractional),
{
    (whole > SERIAL_DATE_LOW || (whole == SERIAL_DATE_LOW && fractional)) && whole
        < SERIAL_DATE_HIGH
}

/// Writes a duration of whole seconds as hours, minutes and seconds.
pub fn clock_string(seconds: i64) -> (text: String)
    ensures
        text@ == clock_text(seconds as int),
{
    let hours: i64 = seconds / 3600;
    let minutes: i64 = (seconds % 3600) / 60;
    let secs: i64 = seconds % 60;
    let mut text = two_digit_string(hours);
    proof {
        reveal_strlit(":");
        assert(":"@ =~= seq![':']);
    }
    text.append(":");
    text.append(two_digit_string(minutes).as_str());
    text.append(":");
    text.append(two_digit_string(secs).as_str());
    text
}

fn error_name_str(e: CellError) -> (name: &'static str)
    ensures
        name@ == error_name(e),
{
    match e {
        CellError::Div0 => "Div0",
        CellError::NA => "NA",
        CellError::Name => "Name",
        CellError::Null => "Null",
        CellError::Num => "Num",
        CellError::Ref => "Ref",
        CellError::Value => "Value",
        CellError::GettingData => "GettingData",
    }
}

/// Produces the canonical text of a cell.
///
/// Every kind of cell yields some text, so that all later steps work on
/// strings alone.
pub fn get_cell_string(cell: &Cell) -> (text: String)
    requires
        cell.wf(),
    ensures
        text@ == cell_text(cell@),
{
    match cell {
        Cell::Empty => String::new(),
        Cell::Text(s) => s.clone(),
        Cell::Int(i) => decimal_string(*i),
        Cell::Bool(b) => if *b {
            String::from_str("true")
        } else {
            String::from_str("false")
        },
        Cell::Number { whole, fractional, rounded, plain } => {
            if is_serial_date(*whole, *fractional) {
                format_date(EPOCH_YEAR, EPOCH_MONTH, EPOCH_DAY, *whole, "%Y-%m-%d")
            } else if !*fractional {
                rounded.clone()
            } else {
                plain.clone()
            }
        },
        Cell::DateTime { days, seconds } => format_datetime(
            EPOCH_YEAR,
            EPOCH_MONTH,
            EPOCH_DAY,
            *days,
            *seconds,
            "%Y-%m-%d %H:%M:%S",
        ),
        Cell::Duration { seconds } => clock_string(*seconds),
        Cell::DateTimeIso(s) => s.clone(),
        Cell::DurationIso(s) => s.clone(),
        Cell::Error(e) => String::from_str("Error: ").concat(error_name_str(*e)),
    }
}

} // verus!
