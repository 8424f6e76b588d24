//! The normalized long-format record: one row per (geographic unit, date)
//! pair, together with the calendar-date and feed-status types it carries.

use vstd::prelude::*;

verus! {

/// Which feed a record was taken from.
#[derive(Clone, Copy, Debug, PartialEq, Eq, Structural)]
pub enum Status {
    Confirmed,
    Deaths,
    Recovered,
}

/// A calendar date taken from one wide-table header cell. The time of day
/// is fixed at midnight, so only the date itself is carried.
#[derive(Clone, Copy, Debug, PartialEq, Eq, Structural)]
pub struct CalendarDate {
    pub year: u16,
    pub month: u8,
    pub day: u8,
}

impl CalendarDate {
    /// A date the header parser can produce: month and day within their
    /// calendar ranges, year within the two-digit-year window.
    pub open spec fn wf(self) -> bool {
        1 <= self.month <= 12 && 1 <= self.day <= 31 && 1970 <= self.year <= 2069
    }
}

/// One normalized record. Count cells that failed to parse default to 0;
/// empty coordinate cells stay absent, and non-empty ones keep the cell
/// text for the columnar writer to convert.
#[derive(Clone, Debug)]
pub struct CovidRecord {
    pub status: Status,
    pub province_state: Option<String>,
    pub state: Option<String>,
    pub city: Option<String>,
    pub county: Option<String>,
    pub country_region: String,
    pub lat: Option<String>,
    pub lon: Option<String>,
    pub date: CalendarDate,
    pub count: i64,
}

/// The mathematical image of a record: every text field as a character
/// sequence, the count as an unbounded integer.
pub struct RecordModel {
    pub status: Status,
    pub province_state: Option<Seq<char>>,
    pub state: Option<Seq<char>>,
    pub city: Option<Seq<char>>,
    pub county: Option<Seq<char>>,
    pub country_region: Seq<char>,
    pub lat: Option<Seq<char>>,
    pub lon: Option<Seq<char>>,
    pub date: CalendarDate,
    pub count: int,
}

/// View of an optional owned string as an optional character sequence.
pub open spec fn opt_str_view(o: Option<String>) -> Option<Seq<char>> {
    match o {
        Some(s) => Some(s@),
        None => None,
    }
}

impl View for CovidRecord {
    type V = RecordModel;

    open spec fn view(&self) -> RecordModel {
        RecordModel {
            status: self.status,
            province_state: opt_str_view(self.province_state),
            state: opt_str_view(self.state),
            city: opt_str_view(self.city),
            county: opt_str_view(self.county),
            country_region: self.country_region@,
            lat: opt_str_view(self.lat),
            lon: opt_str_view(self.lon),
            date: self.date,
            count: self.count as int,
        }
    }
}

} // verus!
