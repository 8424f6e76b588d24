use dracula_covid19::cleaner;
use dracula_covid19::error::GeoError;
use dracula_covid19::record::{CalendarDate, CovidRecord, Status};
use dracula_covid19::us_cleaner;

#[test]
fn cleaner_test_state_extraction() {
    let result = cleaner::extract_us_data("California");
    assert_eq!(result, (None, None, Some("California".to_string())))
}

#[test]
fn cleaner_test_city_extraction() {
    let result = cleaner::extract_us_data("Los Angeles, CA");
    assert_eq!(
        result,
        (
            Some("Los Angeles".to_string()),
            None,
            Some("California".to_string())
        )
    )
}

#[test]
fn cleaner_test_county_extraction() {
    let result = cleaner::extract_us_data("Shasta County, CA");
    assert_eq!(
        result,
        (
            None,
            Some("Shasta".to_string()),
            Some("California".to_string())
        )
    )
}

#[test]
fn cleaner_test_washington_dc_extraction() {
    let result = cleaner::extract_us_data("Washington, D.C.");
    assert_eq!(result, (Some("Washington, D.C.".to_string()), None, None))
}

#[test]
fn us_cleaner_test_state_extraction() {
    let result = us_cleaner::extract_us_data("California");
    assert_eq!(result, (None, None, Some("California".to_string())))
}

#[test]
fn us_cleaner_test_city_extraction() {
    let result = us_cleaner::extract_us_data("Los Angeles, CA");
    assert_eq!(
        result,
        (
            Some("Los Angeles".to_string()),
            None,
            Some("California".to_string())
        )
    )
}

#[test]
fn us_cleaner_test_county_extraction() {
    let result = us_cleaner::extract_us_data("Shasta County, CA");
    assert_eq!(
        result,
        (
            None,
            Some("Shasta".to_string()),
            Some("California".to_string())
        )
    )
}

#[test]
fn us_cleaner_test_washington_dc_extraction() {
    let result = us_cleaner::extract_us_data("Washington, D.C.");
    assert_eq!(result, (Some("Washington, D.C.".to_string()), None, None))
}

#[test]
fn virgin_islands_extraction() {
    let result = cleaner::extract_us_data("Virgin Islands, U.S.");
    assert_eq!(result, (None, None, Some("Virgin Islands".to_string())))
}

#[test]
fn normalize_missing_province_for_us_is_fatal() {
    let result = cleaner::normalize(&None, "US");
    assert_eq!(result, Err(GeoError::ProvinceMissing));
}

#[test]
fn normalize_city_case() {
    let result = cleaner::normalize(&Some("Los Angeles, CA".to_string()), "US");
    assert_eq!(
        result,
        Ok((
            Some("Los Angeles".to_string()),
            None,
            Some("California".to_string())
        ))
    );
}

#[test]
fn normalize_county_case() {
    let result = cleaner::normalize(&Some("Shasta County, CA".to_string()), "US");
    assert_eq!(
        result,
        Ok((
            None,
            Some("Shasta".to_string()),
            Some("California".to_string())
        ))
    );
}

#[test]
fn normalize_state_case() {
    let result = cleaner::normalize(&Some("California".to_string()), "US");
    assert_eq!(result, Ok((None, None, Some("California".to_string()))));
}

#[test]
fn normalize_washington_dc_case() {
    let result = cleaner::normalize(&Some("Washington, D.C.".to_string()), "US");
    assert_eq!(
        result,
        Ok((Some("Washington, D.C.".to_string()), None, None))
    );
}

#[test]
fn normalize_non_us_rows_get_no_decomposition() {
    let result = cleaner::normalize(&Some("Hubei".to_string()), "China");
    assert_eq!(result, Ok((None, None, None)));
}

#[test]
fn normalize_unknown_abbreviation_is_fatal() {
    let result = cleaner::normalize(&Some("Somewhere, XX".to_string()), "US");
    assert_eq!(result, Err(GeoError::UnknownStateAbbreviation));
}

#[test]
fn normalize_comma_without_separator_is_fatal() {
    let result = cleaner::normalize(&Some("Odd,Place".to_string()), "US");
    assert_eq!(result, Err(GeoError::MalformedLocation));
}

fn record_with(province: Option<&str>, country: &str) -> CovidRecord {
    CovidRecord {
        status: Status::Confirmed,
        province_state: province.map(|p| p.to_string()),
        state: None,
        city: None,
        county: None,
        country_region: country.to_string(),
        lat: None,
        lon: None,
        date: CalendarDate {
            year: 2020,
            month: 3,
            day: 1,
        },
        count: 0,
    }
}

#[test]
fn territory_remap_overrides_any_country() {
    let mut record = record_with(Some("Saint Barthelemy"), "Whatever");
    cleaner::remap_territories(&mut record);
    assert_eq!(record.country_region, "France - Saint Barthelemy");

    let mut record = record_with(Some("Saint Barthelemy"), "France");
    cleaner::remap_territories(&mut record);
    assert_eq!(record.country_region, "France - Saint Barthelemy");
}

#[test]
fn territory_remap_other_aliases() {
    let mut record = record_with(Some("Curacao"), "Netherlands Antilles");
    cleaner::remap_territories(&mut record);
    assert_eq!(record.country_region, "Netherlands - Curacao");

    let mut record = record_with(Some("Cayman Islands"), "UK");
    cleaner::remap_territories(&mut record);
    assert_eq!(record.country_region, "United Kingdom - Cayman Islands");
}

#[test]
fn ampersand_rename_applies_without_territory_match() {
    let mut record = record_with(None, "Antigua and Barbuda");
    cleaner::remap_territories(&mut record);
    assert_eq!(record.country_region, "Antigua & Barbuda");

    let mut record = record_with(Some("Mainland"), "Trinidad and Tobago");
    cleaner::remap_territories(&mut record);
    assert_eq!(record.country_region, "Trinidad & Tobago");
}

#[test]
fn remap_leaves_unlisted_countries_alone() {
    let mut record = record_with(Some("Hubei"), "China");
    cleaner::remap_territories(&mut record);
    assert_eq!(record.country_region, "China");
}

#[test]
fn convert_state_abbreviation_examples() {
    assert_eq!(cleaner::convert_state_abbreviation_to_full("CA"), "California");
    assert_eq!(cleaner::convert_state_abbreviation_to_full("WY"), "Wyoming");
    assert_eq!(
        us_cleaner::convert_state_abbreviation_to_full("AL"),
        "Alabama"
    );
}

#[test]
fn county_extraction_trims_state_token() {
    let result = cleaner::extract_us_data("Harris County,  TX");
    assert_eq!(
        result,
        (None, Some("Harris".to_string()), Some("Texas".to_string()))
    )
}
