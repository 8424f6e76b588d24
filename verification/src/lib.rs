//! Reshapes wide-format time-series tables (one column per calendar date,
//! one row per geographic unit) into normalized long-format records, and
//! drives the lifecycle of the remote crawl resource that catalogs the
//! published output.

pub mod cleaner;
pub mod counts;
pub mod crawler;
pub mod dates;
pub mod error;
pub mod record;
pub mod states;
pub mod storage;
pub mod strutil;
pub mod transform;
pub mod us_cleaner;

pub use cleaner::{extract_us_data, remap_territories};
pub use crawler::delay_time;
pub use error::{GeoError, TransformError};
pub use record::{CalendarDate, CovidRecord, Status};
