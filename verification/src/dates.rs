//! Parsing a wide-table header row into the ordered sequence of calendar
//! dates that defines the column-to-date mapping for every data row.

use vstd::prelude::*;

use chrono::Datelike;

use crate::error::TransformError;
use crate::record::CalendarDate;

verus! {

/// The calendar date a header cell denotes under the fixed
/// month/day/two-digit-year format, as (year, month, day), or `None` for
/// a cell that is not such a date. The full behaviour belongs to the
/// date library; this name stands for it.
pub uninterp spec fn header_date_of(s: Seq<char>) -> Option<(int, int, int)>;

/// Relies on chrono's `NaiveDateTime::parse_from_str` with the fixed
/// `%-m/%-d/%y %H:%M` format, the time half supplied as `00:00`, and on
/// the `Datelike` accessors to read the result back as plain values. The
/// outcome depends on the cell text alone; chrono resolves a two-digit
/// year to 1970-2069 and only ever returns a valid calendar date.
#[verifier::external_body]
fn parse_header_cell(cell: &str) -> (r: Option<(u16, u8, u8)>)
    ensures
        r matches Some(d) ==> (header_date_of(cell@) == Some(
            (d.0 as int, d.1 as int, d.2 as int),
        ) && 1970 <= d.0 <= 2069 && 1 <= d.1 <= 12 && 1 <= d.2 <= 31),
        r is None ==> header_date_of(cell@) is None,
{
    let formatted = format!("{} 00:00", cell);
    match chrono::NaiveDateTime::parse_from_str(&formatted, "%-m/%-d/%y %H:%M") {
        Ok(dt) => {
            let date = dt.date();
            Some((date.year() as u16, date.month() as u8, date.day() as u8))
        },
        Err(_) => None,
    }
}

/// How many date columns a header row of `n` cells carries: everything
/// past the four fixed identifier columns.
pub open spec fn date_column_count(n: int) -> int {
    if n >= 4 {
        n - 4
    } else {
        0
    }
}

/// Parses the header row into the ordered date sequence. The first four
/// cells are the fixed identifier columns; every later cell must be a
/// date, and one unparseable cell invalidates the whole mapping.
#[verifier::loop_isolation(false)]
pub fn parse_date_columns(headers: &Vec<String>) -> (r: Result<Vec<CalendarDate>, TransformError>)
    ensures
        (r is Ok) <==> (forall|i: int|
            4 <= i < headers@.len() ==> header_date_of(headers@[i]@) is Some),
        r matches Ok(dates) ==> {
            &&& dates@.len() == date_column_count(headers@.len() as int)
            &&& forall|i: int|
                0 <= i < dates@.len() ==> {
                    let d = #[trigger] dates@[i];
                    d.wf() && header_date_of(headers@[i + 4]@) == Some(
                        (d.year as int, d.month as int, d.day as int),
                    )
                }
        },
        r matches Err(e) ==> e == TransformError::UnparseableHeaderDate,
{
    let n = headers.len();
    let mut dates: Vec<CalendarDate> = Vec::new();
    if n <= 4 {
        return Ok(dates);
    }
    let mut i: usize = 4;
    while i < n
        invariant
            4 <= i <= n,
            dates@.len() == i - 4,
            forall|j: int| 4 <= j < i ==> header_date_of(headers@[j]@) is Some,
            forall|j: int|
                0 <= j < dates@.len() ==> {
                    let d = #[trigger] dates@[j];
                    d.wf() && header_date_of(headers@[j + 4]@) == Some(
                        (d.year as int, d.month as int, d.day as int),
                    )
                },
        decreases n - i,
    {
        match parse_header_cell(headers[i].as_str()) {
            Some(d) => {
                dates.push(CalendarDate { year: d.0, month: d.1, day: d.2 });
            },
            None => {
                return Err(TransformError::UnparseableHeaderDate);
            },
        }
        i += 1;
    }
    Ok(dates)
}

} // verus!
