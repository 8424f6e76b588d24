use dracula_covid19::counts::parse_count;
use dracula_covid19::dates::parse_date_columns;
use dracula_covid19::error::{GeoError, TransformError};
use dracula_covid19::record::{CalendarDate, CovidRecord, Status};
use dracula_covid19::transform::{extract_records, transform, transform_row};

fn strings(cells: &[&str]) -> Vec<String> {
    cells.iter().map(|c| c.to_string()).collect()
}

fn sample_headers() -> Vec<String> {
    strings(&[
        "Province/State",
        "Country/Region",
        "Lat",
        "Long",
        "1/22/20",
        "1/23/20",
        "1/24/20",
    ])
}

fn sample_dates() -> Vec<CalendarDate> {
    parse_date_columns(&sample_headers()).unwrap()
}

#[test]
fn count_cell_empty_defaults_to_zero() {
    assert_eq!(parse_count(""), 0);
}

#[test]
fn count_cell_non_numeric_defaults_to_zero() {
    assert_eq!(parse_count("n/a"), 0);
    assert_eq!(parse_count("12.5"), 0);
    assert_eq!(parse_count(" 7"), 0);
    assert_eq!(parse_count("-"), 0);
    assert_eq!(parse_count("+"), 0);
}

#[test]
fn count_cell_numeric_values() {
    assert_eq!(parse_count("0"), 0);
    assert_eq!(parse_count("42"), 42);
    assert_eq!(parse_count("007"), 7);
    assert_eq!(parse_count("+13"), 13);
    assert_eq!(parse_count("-5"), -5);
    assert_eq!(parse_count("9223372036854775807"), i64::MAX);
    assert_eq!(parse_count("-9223372036854775808"), i64::MIN);
}

#[test]
fn count_cell_out_of_range_defaults_to_zero() {
    assert_eq!(parse_count("9223372036854775808"), 0);
    assert_eq!(parse_count("-9223372036854775809"), 0);
    assert_eq!(parse_count("99999999999999999999999999"), 0);
}

#[test]
fn header_dates_parse_in_column_order() {
    let dates = sample_dates();
    assert_eq!(dates.len(), 3);
    assert_eq!(
        dates[0],
        CalendarDate {
            year: 2020,
            month: 1,
            day: 22
        }
    );
    assert_eq!(
        dates[2],
        CalendarDate {
            year: 2020,
            month: 1,
            day: 24
        }
    );
}

#[test]
fn header_date_two_digit_year_window() {
    let headers = strings(&["a", "b", "c", "d", "12/31/69", "1/1/70"]);
    let dates = parse_date_columns(&headers).unwrap();
    assert_eq!(
        dates[0],
        CalendarDate {
            year: 2069,
            month: 12,
            day: 31
        }
    );
    assert_eq!(
        dates[1],
        CalendarDate {
            year: 1970,
            month: 1,
            day: 1
        }
    );
}

#[test]
fn unparseable_header_date_is_fatal() {
    let headers = strings(&["a", "b", "c", "d", "1/22/20", "not a date"]);
    assert_eq!(
        parse_date_columns(&headers),
        Err(TransformError::UnparseableHeaderDate)
    );
}

#[test]
fn short_header_yields_no_date_columns() {
    let headers = strings(&["a", "b", "c", "d"]);
    assert_eq!(parse_date_columns(&headers), Ok(vec![]));
}

#[test]
fn transform_row_emits_one_record_per_date() {
    let dates = sample_dates();
    let row = strings(&["Hubei", "China", "30.97", "112.27", "1", "2", ""]);
    let records = transform_row(&dates, &row, Status::Deaths).unwrap();
    assert_eq!(records.len(), 3);
    for (i, record) in records.iter().enumerate() {
        assert_eq!(record.status, Status::Deaths);
        assert_eq!(record.province_state.as_deref(), Some("Hubei"));
        assert_eq!(record.country_region, "China");
        assert_eq!(record.city, None);
        assert_eq!(record.county, None);
        assert_eq!(record.state, None);
        assert_eq!(record.lat.as_deref(), Some("30.97"));
        assert_eq!(record.lon.as_deref(), Some("112.27"));
        assert_eq!(record.date, dates[i]);
    }
    assert_eq!(records[0].count, 1);
    assert_eq!(records[1].count, 2);
    assert_eq!(records[2].count, 0);
}

#[test]
fn transform_row_empty_coordinates_stay_absent() {
    let dates = sample_dates();
    let row = strings(&["", "France", "", "", "0", "0", "0"]);
    let records = transform_row(&dates, &row, Status::Confirmed).unwrap();
    assert_eq!(records[0].province_state, None);
    assert_eq!(records[0].lat, None);
    assert_eq!(records[0].lon, None);
    assert_eq!(records[0].count, 0);
}

#[test]
fn transform_row_normalizes_us_rows() {
    let dates = sample_dates();
    let row = strings(&["Los Angeles, CA", "US", "34.05", "-118.24", "5", "6", "7"]);
    let records = transform_row(&dates, &row, Status::Confirmed).unwrap();
    assert_eq!(records[0].city.as_deref(), Some("Los Angeles"));
    assert_eq!(records[0].county, None);
    assert_eq!(records[0].state.as_deref(), Some("California"));
    assert_eq!(records[0].country_region, "US");
}

#[test]
fn transform_row_applies_territory_remap() {
    let dates = sample_dates();
    let row = strings(&["Saint Barthelemy", "France", "17.9", "-62.83", "3", "3", "4"]);
    let records = transform_row(&dates, &row, Status::Recovered).unwrap();
    for record in &records {
        assert_eq!(record.country_region, "France - Saint Barthelemy");
    }
}

#[test]
fn transform_row_us_without_province_is_fatal() {
    let dates = sample_dates();
    let row = strings(&["", "US", "", "", "1", "2", "3"]);
    assert_eq!(
        transform_row(&dates, &row, Status::Confirmed).unwrap_err(),
        TransformError::Geo(GeoError::ProvinceMissing)
    );
}

#[test]
fn transform_produces_rows_times_dates_records() {
    let dates = sample_dates();
    let rows = vec![
        strings(&["", "Italy", "41.87", "12.56", "1", "2", "3"]),
        strings(&["Hubei", "China", "30.97", "112.27", "4", "5", "6"]),
    ];
    let records = transform(&dates, &rows, Status::Confirmed).unwrap();
    assert_eq!(records.len(), 2 * 3);
    for k in 0..2 {
        for i in 0..3 {
            let record = &records[k * 3 + i];
            assert_eq!(record.date, dates[i]);
            assert_eq!(record.count, (k * 3 + i + 1) as i64);
        }
    }
}

#[test]
fn transform_propagates_first_row_error() {
    let dates = sample_dates();
    let rows = vec![
        strings(&["", "Italy", "", "", "1", "2", "3"]),
        strings(&["Somewhere, XX", "US", "", "", "4", "5", "6"]),
    ];
    assert_eq!(
        transform(&dates, &rows, Status::Confirmed).unwrap_err(),
        TransformError::Geo(GeoError::UnknownStateAbbreviation)
    );
}

#[test]
fn extract_records_appends_all_feeds() {
    let headers = sample_headers();
    let rows = vec![
        strings(&["", "Italy", "41.87", "12.56", "1", "2", "3"]),
        strings(&["", "Spain", "40.46", "-3.75", "4", "5", "6"]),
    ];
    let mut records: Vec<CovidRecord> = Vec::new();
    extract_records(&headers, &rows, Status::Confirmed, &mut records).unwrap();
    assert_eq!(records.len(), 6);
    extract_records(&headers, &rows, Status::Deaths, &mut records).unwrap();
    assert_eq!(records.len(), 12);
    assert_eq!(records[0].status, Status::Confirmed);
    assert_eq!(records[6].status, Status::Deaths);
    assert_eq!(
        records[6].date,
        CalendarDate {
            year: 2020,
            month: 1,
            day: 22
        }
    );
}

#[test]
fn extract_records_bad_header_leaves_records_untouched() {
    let headers = strings(&["a", "b", "c", "d", "bogus"]);
    let rows = vec![strings(&["", "Italy", "", "", "1"])];
    let mut records: Vec<CovidRecord> = Vec::new();
    assert_eq!(
        extract_records(&headers, &rows, Status::Confirmed, &mut records),
        Err(TransformError::UnparseableHeaderDate)
    );
    assert_eq!(records.len(), 0);
}
