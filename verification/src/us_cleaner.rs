//! A stricter variant of the US location decomposition: no special case
//! for the U.S. Virgin Islands, and the state token after a county split
//! is looked up without whitespace trimming.

use vstd::prelude::*;

use crate::cleaner::{comma_head, comma_second};
use crate::record::opt_str_view;
use crate::states::{state_abbreviation_lookup, state_full_of};
use crate::strutil::{
    contains_seq, contains_sub, find_sub, lemma_find_first, remove_all, remove_all_spec, str_eq,
};

verus! {

/// The (city, county, state) triple this variant yields.
pub open spec fn us_city_county_state(s: Seq<char>) -> (
    Option<Seq<char>>,
    Option<Seq<char>>,
    Option<Seq<char>>,
) {
    if s == "Washington, D.C."@ {
        (Some("Washington, D.C."@), None, None)
    } else if contains_seq(s, ","@) {
        if contains_seq(s, "County"@) {
            (
                None,
                Some(remove_all_spec(comma_head(s), " County"@)),
                Some(state_full_of(comma_second(s)).unwrap()),
            )
        } else {
            (Some(comma_head(s)), None, Some(state_full_of(comma_second(s)).unwrap()))
        }
    } else {
        (None, None, Some(s))
    }
}

/// The location strings this variant is defined on.
pub open spec fn us_input_ok(s: Seq<char>) -> bool {
    if s == "Washington, D.C."@ {
        true
    } else if contains_seq(s, ","@) {
        contains_seq(s, ", "@) && state_full_of(comma_second(s)) is Some
    } else {
        true
    }
}

/// Expands a two-letter state abbreviation to the full state name.
pub fn convert_state_abbreviation_to_full(abbrev: &str) -> (r: String)
    requires
        state_full_of(abbrev@) is Some,
    ensures
        Some(r@) == state_full_of(abbrev@),
{
    state_abbreviation_lookup(abbrev).unwrap()
}

/// Decomposes a US location string into (city, county, state).
pub fn extract_us_data(col1: &str) -> (r: (Option<String>, Option<String>, Option<String>))
    requires
        us_input_ok(col1@),
    ensures
        ({
            let m = us_city_county_state(col1@);
            &&& opt_str_view(r.0) == m.0
            &&& opt_str_view(r.1) == m.1
            &&& opt_str_view(r.2) == m.2
        }),
{
    if str_eq(col1, "Washington, D.C.") {
        return (Some("Washington, D.C.".to_owned()), None, None);
    }
    if contains_sub(col1, ",") {
        proof {
            reveal_strlit(", ");
            lemma_find_first(col1@, ", "@);
        }
        let sep = find_sub(col1, ", ").unwrap();
        let len = col1.unicode_len();
        let head = col1.substring_char(0, sep);
        let rest = col1.substring_char(sep + 2, len);
        proof {
            lemma_find_first(rest@, ", "@);
        }
        let second = match find_sub(rest, ", ") {
            Some(j) => rest.substring_char(0, j),
            None => rest,
        };
        assert(head@ == comma_head(col1@));
        assert(second@ == comma_second(col1@));
        if contains_sub(col1, "County") {
            proof {
                reveal_strlit(" County");
            }
            let county = remove_all(head, " County");
            let state = convert_state_abbreviation_to_full(second);
            (None, Some(county), Some(state))
        } else {
            let state = convert_state_abbreviation_to_full(second);
            (Some(head.to_owned()), None, Some(state))
        }
    } else {
        (None, None, Some(col1.to_owned()))
    }
}

} // verus!
