//! Geographic normalization: decomposing a US location string into city,
//! county and state, remapping known small territories to compound
//! sovereign labels, and renaming a short list of countries to their
//! ampersand form.

use vstd::prelude::*;

use crate::error::GeoError;
use crate::record::{opt_str_view, CovidRecord};
use crate::states::{state_abbreviation_lookup, state_full_of};
use crate::strutil::{
    contains_seq, contains_sub, find_first, find_sub, lemma_find_first, remove_all,
    remove_all_spec, str_eq, trim, trim_spec,
};

verus! {

/// The part of `s` before the first `", "`, or all of `s` when the
/// separator never occurs: element 0 of splitting on `", "`.
pub open spec fn comma_head(s: Seq<char>) -> Seq<char> {
    if contains_seq(s, ", "@) {
        s.subrange(0, find_first(s, ", "@))
    } else {
        s
    }
}

/// Element 1 of splitting `s` on `", "`: the segment between the first
/// separator and the next one (or the end of the string).
pub open spec fn comma_second(s: Seq<char>) -> Seq<char>
    recommends
        contains_seq(s, ", "@),
{
    let rest = s.subrange(find_first(s, ", "@) + 2, s.len() as int);
    if contains_seq(rest, ", "@) {
        rest.subrange(0, find_first(rest, ", "@))
    } else {
        rest
    }
}

/// The (city, county, state) triple the US decomposition yields.
pub open spec fn us_city_county_state(s: Seq<char>) -> (
    Option<Seq<char>>,
    Option<Seq<char>>,
    Option<Seq<char>>,
) {
    if s == "Washington, D.C."@ {
        (Some("Washington, D.C."@), None, None)
    } else if s == "Virgin Islands, U.S."@ {
        (None, None, Some("Virgin Islands"@))
    } else if contains_seq(s, ","@) {
        if contains_seq(s, "County"@) {
            (
                None,
                Some(remove_all_spec(comma_head(s), " County"@)),
                Some(state_full_of(trim_spec(comma_second(s))).unwrap()),
            )
        } else {
            (Some(comma_head(s)), None, Some(state_full_of(comma_second(s)).unwrap()))
        }
    } else {
        (None, None, Some(s))
    }
}

/// The location strings the decomposition is defined on. A string with a
/// comma but no `", "` separator yields no state token, and a state token
/// outside the fifty-entry table is a data-integrity failure.
pub open spec fn us_input_ok(s: Seq<char>) -> bool {
    if s == "Washington, D.C."@ || s == "Virgin Islands, U.S."@ {
        true
    } else if contains_seq(s, ","@) {
        &&& contains_seq(s, ", "@)
        &&& if contains_seq(s, "County"@) {
            state_full_of(trim_spec(comma_second(s))) is Some
        } else {
            state_full_of(comma_second(s)) is Some
        }
    } else {
        true
    }
}

/// Which error a rejected location string is reported with.
pub open spec fn us_input_error(s: Seq<char>) -> GeoError {
    if contains_seq(s, ","@) && !contains_seq(s, ", "@) {
        GeoError::MalformedLocation
    } else {
        GeoError::UnknownStateAbbreviation
    }
}

/// Expands a two-letter state abbreviation to the full state name. The
/// table is a closed enumeration: anything outside it is a
/// data-integrity failure and is excluded here.
pub fn convert_state_abbreviation_to_full(abbrev: &str) -> (r: String)
    requires
        state_full_of(abbrev@) is Some,
    ensures
        Some(r@) == state_full_of(abbrev@),
{
    state_abbreviation_lookup(abbrev).unwrap()
}

/// Decomposes a US location string into (city, county, state).
pub fn extract_us_data(col1: &str) -> (r: (Option<String>, Option<String>, Option<String>))
    requires
        us_input_ok(col1@),
    ensures
        ({
            let m = us_city_county_state(col1@);
            &&& opt_str_view(r.0) == m.0
            &&& opt_str_view(r.1) == m.1
            &&& opt_str_view(r.2) == m.2
        }),
{
    if str_eq(col1, "Washington, D.C.") {
        return (Some("Washington, D.C.".to_owned()), None, None);
    }
    if str_eq(col1, "Virgin Islands, U.S.") {
        return (None, None, Some("Virgin Islands".to_owned()));
    }
    if contains_sub(col1, ",") {
        proof {
            reveal_strlit(", ");
            lemma_find_first(col1@, ", "@);
        }
        let sep = find_sub(col1, ", ").unwrap();
        let len = col1.unicode_len();
        let head = col1.substring_char(0, sep);
        let rest = col1.substring_char(sep + 2, len);
        proof {
            lemma_find_first(rest@, ", "@);
        }
        let second = match find_sub(rest, ", ") {
            Some(j) => rest.substring_char(0, j),
            None => rest,
        };
        assert(head@ == comma_head(col1@));
        assert(second@ == comma_second(col1@));
        if contains_sub(col1, "County") {
            proof {
                reveal_strlit(" County");
            }
            let county = remove_all(head, " County");
            let state = convert_state_abbreviation_to_full(trim(second));
            (None, Some(county), Some(state))
        } else {
            let state = convert_state_abbreviation_to_full(second);
            (Some(head.to_owned()), None, Some(state))
        }
    } else {
        (None, None, Some(col1.to_owned()))
    }
}

/// The compound sovereign-territory label a province name is remapped to,
/// if it names one of the known small territories.
pub open spec fn territory_country_of(p: Option<Seq<char>>) -> Option<Seq<char>> {
    match p {
        Some(name) => {
            if name == "Saint Barthelemy"@ {
                Some("France - Saint Barthelemy"@)
            } else if name == "St Martin"@ {
                Some("France - St Martin"@)
            } else if name == "French Polynesia"@ {
                Some("France - French Polynesia"@)
            } else if name == "French Guiana"@ {
                Some("France - French Guiana"@)
            } else if name == "Mayotte"@ {
                Some("France - Mayotte"@)
            } else if name == "Guadeloupe"@ {
                Some("France - Guadeloupe"@)
            } else if name == "Curacao"@ {
                Some("Netherlands - Curacao"@)
            } else if name == "Gibraltar"@ {
                Some("United Kingdom - Gibraltar"@)
            } else if name == "Cayman Islands"@ {
                Some("United Kingdom - Cayman Islands"@)
            } else {
                None
            }
        },
        None => None,
    }
}

/// The ampersand form a country name is renamed to, if it is on the short
/// rename list.
pub open spec fn ampersand_rename_of(c: Seq<char>) -> Option<Seq<char>> {
    if c == "Antigua and Barbuda"@ {
        Some("Antigua & Barbuda"@)
    } else if c == "Bosnia and Herzegovina"@ {
        Some("Bosnia & Herzegovina"@)
    } else if c == "Saint Vincent and the Grenadines"@ {
        Some("Saint Vincent & the Grenadines"@)
    } else if c == "Trinidad and Tobago"@ {
        Some("Trinidad & Tobago"@)
    } else {
        None
    }
}

/// Country value after both passes: territory remap first, then the
/// ampersand rename on whatever country value that left.
pub open spec fn remap_spec(p: Option<Seq<char>>, c: Seq<char>) -> Seq<char> {
    let c1 = match territory_country_of(p) {
        Some(t) => t,
        None => c,
    };
    match ampersand_rename_of(c1) {
        Some(r) => r,
        None => c1,
    }
}

fn territory_lookup(p: &Option<String>) -> (r: Option<String>)
    ensures
        opt_str_view(r) == territory_country_of(opt_str_view(*p)),
{
    match p {
        None => None,
        Some(name) => {
            if str_eq(name.as_str(), "Saint Barthelemy") {
                Some("France - Saint Barthelemy".to_owned())
            } else if str_eq(name.as_str(), "St Martin") {
                Some("France - St Martin".to_owned())
            } else if str_eq(name.as_str(), "French Polynesia") {
                Some("France - French Polynesia".to_owned())
            } else if str_eq(name.as_str(), "French Guiana") {
                Some("France - French Guiana".to_owned())
            } else if str_eq(name.as_str(), "Mayotte") {
                Some("France - Mayotte".to_owned())
            } else if str_eq(name.as_str(), "Guadeloupe") {
                Some("France - Guadeloupe".to_owned())
            } else if str_eq(name.as_str(), "Curacao") {
                Some("Netherlands - Curacao".to_owned())
            } else if str_eq(name.as_str(), "Gibraltar") {
                Some("United Kingdom - Gibraltar".to_owned())
            } else if str_eq(name.as_str(), "Cayman Islands") {
                Some("United Kingdom - Cayman Islands".to_owned())
            } else {
                None
            }
        },
    }
}

fn ampersand_lookup(c: &str) -> (r: Option<String>)
    ensures
        opt_str_view(r) == ampersand_rename_of(c@),
{
    if str_eq(c, "Antigua and Barbuda") {
        Some("Antigua & Barbuda".to_owned())
    } else if str_eq(c, "Bosnia and Herzegovina") {
        Some("Bosnia & Herzegovina".to_owned())
    } else if str_eq(c, "Saint Vincent and the Grenadines") {
        Some("Saint Vincent & the Grenadines".to_owned())
    } else if str_eq(c, "Trinidad and Tobago") {
        Some("Trinidad & Tobago".to_owned())
    } else {
        None
    }
}

/// Rewrites a record's country to the compound sovereign-territory label
/// when the province names a known territory, then applies the ampersand
/// rename; every other field is left as it was.
pub fn remap_territories(record: &mut CovidRecord)
    ensures
        final (record)@.country_region == remap_spec(
            old(record)@.province_state,
            old(record)@.country_region,
        ),
        final (record)@.status == old(record)@.status,
        final (record)@.province_state == old(record)@.province_state,
        final (record)@.state == old(record)@.state,
        final (record)@.city == old(record)@.city,
        final (record)@.county == old(record)@.county,
        final (record)@.lat == old(record)@.lat,
        final (record)@.lon == old(record)@.lon,
        final (record)@.date == old(record)@.date,
        final (record)@.count == old(record)@.count,
{
    let remapped = territory_lookup(&record.province_state);
    if let Some(compound) = remapped {
        record.country_region = compound;
    }
    let renamed = ampersand_lookup(record.country_region.as_str());
    if let Some(ampersand) = renamed {
        record.country_region = ampersand;
    }
}

/// Derives (city, county, state) for a row. Rows outside the US get no
/// decomposition; a US row must carry a province value that the
/// decomposition is defined on, and anything else is a fatal error.
pub fn normalize(province_state: &Option<String>, country_region: &str) -> (r: Result<
    (Option<String>, Option<String>, Option<String>),
    GeoError,
>)
    ensures
        country_region@ != "US"@ ==> (r matches Ok(t) && t.0 is None && t.1 is None
            && t.2 is None),
        country_region@ == "US"@ && opt_str_view(*province_state) is None ==> r == Err::<
            (Option<String>, Option<String>, Option<String>),
            GeoError,
        >(GeoError::ProvinceMissing),
        ({
            let p = opt_str_view(*province_state);
            (country_region@ == "US"@ && p is Some) ==> {
                let loc = p->0;
                if us_input_ok(loc) {
                    let m = us_city_county_state(loc);
                    (r matches Ok(t) && opt_str_view(t.0) == m.0 && opt_str_view(t.1) == m.1
                        && opt_str_view(t.2) == m.2)
                } else {
                    r == Err::<(Option<String>, Option<String>, Option<String>), GeoError>(
                        us_input_error(loc),
                    )
                }
            }
        }),
{
    if !str_eq(country_region, "US") {
        return Ok((None, None, None));
    }
    match province_state {
        None => Err(GeoError::ProvinceMissing),
        Some(loc) => {
            let loc = loc.as_str();
            if us_input_check(loc) {
                Ok(extract_us_data(loc))
            } else {
                if contains_sub(loc, ",") && !contains_sub(loc, ", ") {
                    Err(GeoError::MalformedLocation)
                } else {
                    Err(GeoError::UnknownStateAbbreviation)
                }
            }
        },
    }
}

/// Decides `us_input_ok`.
pub fn us_input_check(loc: &str) -> (r: bool)
    ensures
        r == us_input_ok(loc@),
{
    if str_eq(loc, "Washington, D.C.") || str_eq(loc, "Virgin Islands, U.S.") {
        return true;
    }
    if !contains_sub(loc, ",") {
        return true;
    }
    if !contains_sub(loc, ", ") {
        return false;
    }
    proof {
        reveal_strlit(", ");
        lemma_find_first(loc@, ", "@);
    }
    let sep = find_sub(loc, ", ").unwrap();
    let len = loc.unicode_len();
    let rest = loc.substring_char(sep + 2, len);
    proof {
        lemma_find_first(rest@, ", "@);
    }
    let second = match find_sub(rest, ", ") {
        Some(j) => rest.substring_char(0, j),
        None => rest,
    };
    assert(second@ == comma_second(loc@));
    if contains_sub(loc, "County") {
        state_abbreviation_lookup(trim(second)).is_some()
    } else {
        state_abbreviation_lookup(second).is_some()
    }
}

/// A record whose province names the Saint Barthelemy territory is always
/// assigned the compound France label, whatever country it carried before.
pub proof fn lemma_saint_barthelemy_remap(c: Seq<char>)
    ensures
        remap_spec(Some("Saint Barthelemy"@), c) == "France - Saint Barthelemy"@,
{
    reveal_strlit("France - Saint Barthelemy");
    reveal_strlit("Antigua and Barbuda");
    reveal_strlit("Bosnia and Herzegovina");
    reveal_strlit("Saint Vincent and the Grenadines");
    reveal_strlit("Trinidad and Tobago");
}

} // verus!
