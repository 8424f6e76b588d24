//! The wide-to-long reshape: one normalized record per (data row, date
//! column) pair, with geographic normalization and both country remap
//! passes applied to every record.

use vstd::prelude::*;

use crate::cleaner::{
    normalize, remap_spec, remap_territories, us_city_county_state, us_input_error, us_input_ok,
};
use crate::counts::{count_cell_value, parse_count};
use crate::dates::{date_column_count, header_date_of, parse_date_columns};
use crate::error::{GeoError, TransformError};
use crate::record::{opt_str_view, CalendarDate, CovidRecord, RecordModel, Status};

verus! {

/// The province/state a row carries: its first cell, absent when empty.
pub open spec fn province_of(row: Seq<String>) -> Option<Seq<char>>
    recommends
        row.len() >= 1,
{
    if row[0]@.len() == 0 {
        None
    } else {
        Some(row[0]@)
    }
}

/// A coordinate cell: kept as text when non-empty, absent when empty —
/// never defaulted to zero, unlike a count cell.
pub open spec fn opt_cell(c: Seq<char>) -> Option<Seq<char>> {
    if c.len() == 0 {
        None
    } else {
        Some(c)
    }
}

/// Why normalizing a row fails, if it does: only US rows can fail, on a
/// missing province or a province the decomposition rejects.
pub open spec fn row_error(row: Seq<String>) -> Option<GeoError>
    recommends
        row.len() >= 2,
{
    if row[1]@ == "US"@ {
        match province_of(row) {
            None => Some(GeoError::ProvinceMissing),
            Some(loc) => {
                if us_input_ok(loc) {
                    None
                } else {
                    Some(us_input_error(loc))
                }
            },
        }
    } else {
        None
    }
}

/// The (city, county, state) triple a row is normalized to; non-US rows
/// get no decomposition.
pub open spec fn row_geo(row: Seq<String>) -> (
    Option<Seq<char>>,
    Option<Seq<char>>,
    Option<Seq<char>>,
)
    recommends
        row.len() >= 2,
        row_error(row) is None,
{
    if row[1]@ == "US"@ {
        us_city_county_state(province_of(row)->0)
    } else {
        (None, None, None)
    }
}

/// The record a row contributes for one date column.
pub open spec fn row_record_model(
    row: Seq<String>,
    status: Status,
    date: CalendarDate,
    count_cell: Seq<char>,
) -> RecordModel
    recommends
        row.len() >= 4,
        row_error(row) is None,
{
    let geo = row_geo(row);
    RecordModel {
        status,
        province_state: province_of(row),
        state: geo.2,
        city: geo.0,
        county: geo.1,
        country_region: remap_spec(province_of(row), row[1]@),
        lat: opt_cell(row[2]@),
        lon: opt_cell(row[3]@),
        date,
        count: count_cell_value(count_cell),
    }
}

fn clone_opt_string(o: &Option<String>) -> (r: Option<String>)
    ensures
        opt_str_view(r) == opt_str_view(*o),
{
    match o {
        None => None,
        Some(s) => Some(s.clone()),
    }
}

/// Emits one record per date column for a single data row: the four
/// identifier cells are shared by every record, the count cell at
/// position `i` pairs with `dates[i]`.
#[verifier::loop_isolation(false)]
pub fn transform_row(dates: &Vec<CalendarDate>, row: &Vec<String>, status: Status) -> (r: Result<
    Vec<CovidRecord>,
    TransformError,
>)
    requires
        row@.len() >= 4 + dates@.len(),
    ensures
        (r is Ok) <==> row_error(row@) is None,
        r matches Err(e) ==> (row_error(row@) matches Some(g) && e == TransformError::Geo(g)),
        r matches Ok(recs) ==> {
            &&& recs@.len() == dates@.len()
            &&& forall|i: int|
                0 <= i < recs@.len() ==> (#[trigger] recs@[i])@ == row_record_model(
                    row@,
                    status,
                    dates@[i],
                    row@[4 + i]@,
                )
        },
{
    let province_state: Option<String> = if row[0].as_str().is_empty() {
        None
    } else {
        Some(row[0].clone())
    };
    assert(opt_str_view(province_state) == province_of(row@));
    let country_region: String = row[1].clone();
    let geo = match normalize(&province_state, country_region.as_str()) {
        Ok(t) => t,
        Err(g) => {
            return Err(TransformError::Geo(g));
        },
    };
    let lat: Option<String> = if row[2].as_str().is_empty() {
        None
    } else {
        Some(row[2].clone())
    };
    let lon: Option<String> = if row[3].as_str().is_empty() {
        None
    } else {
        Some(row[3].clone())
    };
    let n = row.len();
    assert(4 + dates@.len() <= n);
    let mut recs: Vec<CovidRecord> = Vec::new();
    let mut i: usize = 0;
    while i < dates.len()
        invariant
            0 <= i <= dates@.len(),
            recs@.len() == i,
            opt_str_view(province_state) == province_of(row@),
            country_region@ == row@[1]@,
            row_error(row@) is None,
            ({
                let g = row_geo(row@);
                opt_str_view(geo.0) == g.0 && opt_str_view(geo.1) == g.1 && opt_str_view(geo.2)
                    == g.2
            }),
            opt_str_view(lat) == opt_cell(row@[2]@),
            opt_str_view(lon) == opt_cell(row@[3]@),
            forall|j: int|
                0 <= j < i ==> (#[trigger] recs@[j])@ == row_record_model(
                    row@,
                    status,
                    dates@[j],
                    row@[4 + j]@,
                ),
        decreases dates@.len() - i,
    {
        let count = parse_count(row[4 + i].as_str());
        let mut rec = CovidRecord {
            status,
            province_state: clone_opt_string(&province_state),
            state: clone_opt_string(&geo.2),
            city: clone_opt_string(&geo.0),
            county: clone_opt_string(&geo.1),
            country_region: country_region.clone(),
            lat: clone_opt_string(&lat),
            lon: clone_opt_string(&lon),
            date: dates[i],
            count,
        };
        remap_territories(&mut rec);
        assert(rec@ == row_record_model(row@, status, dates@[i as int], row@[4 + i]@));
        recs.push(rec);
        i += 1;
    }
    Ok(recs)
}

/// Reshapes a whole wide table: exactly `rows × dates` records, where the
/// record for `(row k, column i)` carries `dates[i]` and the count cell
/// at position `i` of row `k`.
#[verifier::loop_isolation(false)]
pub fn transform(dates: &Vec<CalendarDate>, rows: &Vec<Vec<String>>, status: Status) -> (r: Result<
    Vec<CovidRecord>,
    TransformError,
>)
    requires
        forall|k: int| 0 <= k < rows@.len() ==> (#[trigger] rows@[k])@.len() >= 4 + dates@.len(),
    ensures
        (r is Ok) <==> (forall|k: int|
            0 <= k < rows@.len() ==> row_error((#[trigger] rows@[k])@) is None),
        r matches Err(e) ==> (exists|k: int|
            #![trigger row_error(rows@[k]@)]
            {
                &&& 0 <= k < rows@.len()
                &&& row_error(rows@[k]@) matches Some(g)
                &&& e == TransformError::Geo(g)
                &&& forall|j: int| 0 <= j < k ==> row_error(rows@[j]@) is None
            }),
        r matches Ok(recs) ==> {
            &&& recs@.len() == rows@.len() * dates@.len()
            &&& forall|k: int, i: int|
                #![trigger rows@[k], dates@[i]]
                0 <= k < rows@.len() && 0 <= i < dates@.len() ==> recs@[k * dates@.len() + i]@
                    == row_record_model(rows@[k]@, status, dates@[i], rows@[k]@[4 + i]@)
        },
{
    let d = dates.len();
    let mut recs: Vec<CovidRecord> = Vec::new();
    let mut k: usize = 0;
    while k < rows.len()
        invariant
            0 <= k <= rows@.len(),
            recs@.len() == k * dates@.len(),
            forall|j: int| 0 <= j < k ==> row_error((#[trigger] rows@[j])@) is None,
            forall|k0: int, i: int|
                #![trigger rows@[k0], dates@[i]]
                0 <= k0 < k && 0 <= i < dates@.len() ==> recs@[k0 * dates@.len() + i]@
                    == row_record_model(rows@[k0]@, status, dates@[i], rows@[k0]@[4 + i]@),
        decreases rows@.len() - k,
    {
        let mut row_recs = match transform_row(dates, &rows[k], status) {
            Ok(rr) => rr,
            Err(e) => {
                return Err(e);
            },
        };
        let ghost old_len = recs@.len();
        recs.append(&mut row_recs);
        proof {
            assert(old_len == k * dates@.len());
            assert forall|k0: int, i: int|
                #![trigger rows@[k0], dates@[i]]
                0 <= k0 < k + 1 && 0 <= i < dates@.len() implies recs@[k0 * dates@.len() + i]@
                == row_record_model(rows@[k0]@, status, dates@[i], rows@[k0]@[4 + i]@) by {
                let dl = dates@.len() as int;
                if k0 < k {
                    assert(k0 * dl + i < k * dl) by (nonlinear_arith)
                        requires
                            0 <= k0 < k,
                            0 <= i < dl,
                    ;
                    assert(k0 * dl + i >= 0) by (nonlinear_arith)
                        requires
                            0 <= k0,
                            0 <= i,
                            dl >= 0,
                    ;
                } else {
                    assert(k0 * dl == k * dl);
                }
            }
            assert((k + 1) * dates@.len() == k * dates@.len() + dates@.len()) by (nonlinear_arith);
        }
        k += 1;
    }
    Ok(recs)
}

/// The date denoted by the header cell `i` places past the four
/// identifier columns.
pub open spec fn header_date_at(headers: Seq<String>, i: int) -> CalendarDate
    recommends
        0 <= i,
        i + 4 < headers.len(),
        header_date_of(headers[i + 4]@) is Some,
{
    let d = header_date_of(headers[i + 4]@)->0;
    CalendarDate { year: d.0 as u16, month: d.1 as u8, day: d.2 as u8 }
}

/// Reshapes one feed into `records`: parses the header row into the date
/// sequence, explodes every data row, and appends the result. On any
/// error `records` is left untouched.
pub fn extract_records(
    headers: &Vec<String>,
    rows: &Vec<Vec<String>>,
    status: Status,
    records: &mut Vec<CovidRecord>,
) -> (r: Result<(), TransformError>)
    requires
        forall|k: int|
            0 <= k < rows@.len() ==> (#[trigger] rows@[k])@.len() >= 4 + date_column_count(
                headers@.len() as int,
            ),
    ensures
        (r is Ok) <==> ((forall|i: int|
            4 <= i < headers@.len() ==> header_date_of(#[trigger] headers@[i]@) is Some) && (
        forall|k: int| 0 <= k < rows@.len() ==> row_error((#[trigger] rows@[k])@) is None)),
        r is Err ==> final (records)@ == old(records)@,
        r matches Err(e) ==> {
            if exists|i: int| 4 <= i < headers@.len() && header_date_of(#[trigger] headers@[i]@) is None {
                e == TransformError::UnparseableHeaderDate
            } else {
                exists|k: int|
                    #![trigger row_error(rows@[k]@)]
                    {
                        &&& 0 <= k < rows@.len()
                        &&& row_error(rows@[k]@) matches Some(g)
                        &&& e == TransformError::Geo(g)
                        &&& forall|j: int| 0 <= j < k ==> row_error(rows@[j]@) is None
                    }
            }
        },
        r is Ok ==> {
            let d = date_column_count(headers@.len() as int);
            &&& final (records)@.len() == old(records)@.len() + rows@.len() * d
            &&& forall|j: int| 0 <= j < old(records)@.len() ==> final (records)@[j] == old(
                records,
            )@[j]
            &&& forall|k: int, i: int|
                #![trigger rows@[k], header_date_at(headers@, i)]
                0 <= k < rows@.len() && 0 <= i < d ==> final (records)@[old(records)@.len() + k * d
                    + i]@ == row_record_model(
                    rows@[k]@,
                    status,
                    header_date_at(headers@, i),
                    rows@[k]@[4 + i]@,
                )
        },
{
    let dates = match parse_date_columns(headers) {
        Ok(d) => d,
        Err(e) => {
            return Err(e);
        },
    };
    assert forall|i: int| 0 <= i < dates@.len() implies #[trigger] dates@[i] == header_date_at(
        headers@,
        i,
    ) by {
        let d = dates@[i];
        assert(header_date_of(headers@[i + 4]@) == Some(
            (d.year as int, d.month as int, d.day as int),
        ));
    }
    let mut fresh = match transform(&dates, rows, status) {
        Ok(v) => v,
        Err(e) => {
            return Err(e);
        },
    };
    let ghost fresh_view = fresh@;
    let ghost old_view = records@;
    records.append(&mut fresh);
    proof {
        let d = date_column_count(headers@.len() as int);
        assert(dates@.len() == d);
        assert forall|k: int, i: int|
            #![trigger rows@[k], header_date_at(headers@, i)]
            0 <= k < rows@.len() && 0 <= i < d implies records@[old_view.len() + k * d + i]@
            == row_record_model(
            rows@[k]@,
            status,
            header_date_at(headers@, i),
            rows@[k]@[4 + i]@,
        ) by {
            assert(dates@[i] == header_date_at(headers@, i));
            assert(0 <= k * d + i < fresh_view.len()) by (nonlinear_arith)
                requires
                    0 <= k < rows@.len(),
                    0 <= i < d,
                    fresh_view.len() == rows@.len() * d,
            ;
            assert(fresh_view[k * d + i]@ == row_record_model(
                rows@[k]@,
                status,
                dates@[i],
                rows@[k]@[4 + i]@,
            ));
            assert(records@[old_view.len() + k * d + i] == fresh_view[k * d + i]);
        }
    }
    Ok(())
}

} // verus!
