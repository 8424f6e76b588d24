//! The closed table of the fifty US state abbreviations and their full
//! names. An abbreviation outside this table is a data-integrity failure
//! for the caller.

use vstd::prelude::*;

use crate::strutil::str_eq;

verus! {

/// Full state name for a two-letter abbreviation, or `None` for anything
/// outside the closed fifty-entry table.
pub open spec fn state_full_of(a: Seq<char>) -> Option<Seq<char>> {
    if a == "AL"@ {
        Some("Alabama"@)
    } else if a == "AK"@ {
        Some("Alaska"@)
    } else if a == "AZ"@ {
        Some("Arizona"@)
    } else if a == "AR"@ {
        Some("Arkansas"@)
    } else if a == "CA"@ {
        Some("California"@)
    } else if a == "CO"@ {
        Some("Colorado"@)
    } else if a == "CT"@ {
        Some("Connecticut"@)
    } else if a == "DE"@ {
        Some("Delaware"@)
    } else if a == "FL"@ {
        Some("Florida"@)
    } else if a == "GA"@ {
        Some("Georgia"@)
    } else if a == "HI"@ {
        Some("Hawaii"@)
    } else if a == "ID"@ {
        Some("Idaho"@)
    } else if a == "IL"@ {
        Some("Illinois"@)
    } else if a == "IN"@ {
        Some("Indiana"@)
    } else if a == "IA"@ {
        Some("Iowa"@)
    } else if a == "KS"@ {
        Some("Kansas"@)
    } else if a == "KY"@ {
        Some("Kentucky"@)
    } else if a == "LA"@ {
        Some("Louisiana"@)
    } else if a == "ME"@ {
        Some("Maine"@)
    } else if a == "MD"@ {
        Some("Maryland"@)
    } else if a == "MA"@ {
        Some("Massachusetts"@)
    } else if a == "MI"@ {
        Some("Michigan"@)
    } else if a == "MN"@ {
        Some("Minnesota"@)
    } else if a == "MS"@ {
        Some("Mississippi"@)
    } else if a == "MO"@ {
        Some("Missouri"@)
    } else if a == "MT"@ {
        Some("Montana"@)
    } else if a == "NE"@ {
        Some("Nebraska"@)
    } else if a == "NV"@ {
        Some("Nevada"@)
    } else if a == "NH"@ {
        Some("New Hampshire"@)
    } else if a == "NJ"@ {
        Some("New Jersey"@)
    } else if a == "NM"@ {
        Some("New Mexico"@)
    } else if a == "NY"@ {
        Some("New York"@)
    } else if a == "NC"@ {
        Some("North Carolina"@)
    } else if a == "ND"@ {
        Some("North Dakota"@)
    } else if a == "OH"@ {
        Some("Ohio"@)
    } else if a == "OK"@ {
        Some("Oklahoma"@)
    } else if a == "OR"@ {
        Some("Oregon"@)
    } else if a == "PA"@ {
        Some("Pennsylvania"@)
    } else if a == "RI"@ {
        Some("Rhode Island"@)
    } else if a == "SC"@ {
        Some("South Carolina"@)
    } else if a == "SD"@ {
        Some("South Dakota"@)
    } else if a == "TN"@ {
        Some("Tennessee"@)
    } else if a == "TX"@ {
        Some("Texas"@)
    } else if a == "UT"@ {
        Some("Utah"@)
    } else if a == "VT"@ {
        Some("Vermont"@)
    } else if a == "VA"@ {
        Some("Virginia"@)
    } else if a == "WA"@ {
        Some("Washington"@)
    } else if a == "WV"@ {
        Some("West Virginia"@)
    } else if a == "WI"@ {
        Some("Wisconsin"@)
    } else if a == "WY"@ {
        Some("Wyoming"@)
    } else {
        None
    }
}

/// Looks an abbreviation up in the state table.
pub fn state_abbreviation_lookup(abbrev: &str) -> (r: Option<String>)
    ensures
        r matches Some(f) ==> state_full_of(abbrev@) == Some(f@),
        r is None ==> state_full_of(abbrev@) is None,
{
    if str_eq(abbrev, "AL") {
        return Some("Alabama".to_owned());
    }
    if str_eq(abbrev, "AK") {
        return Some("Alaska".to_owned());
    }
    if str_eq(abbrev, "AZ") {
        return Some("Arizona".to_owned());
    }
    if str_eq(abbrev, "AR") {
        return Some("Arkansas".to_owned());
    }
    if str_eq(abbrev, "CA") {
        return Some("California".to_owned());
    }
    if str_eq(abbrev, "CO") {
        return Some("Colorado".to_owned());
    }
    if str_eq(abbrev, "CT") {
        return Some("Connecticut".to_owned());
    }
    if str_eq(abbrev, "DE") {
        return Some("Delaware".to_owned());
    }
    if str_eq(abbrev, "FL") {
        return Some("Florida".to_owned());
    }
    if str_eq(abbrev, "GA") {
        return Some("Georgia".to_owned());
    }
    if str_eq(abbrev, "HI") {
        return Some("Hawaii".to_owned());
    }
    if str_eq(abbrev, "ID") {
        return Some("Idaho".to_owned());
    }
    if str_eq(abbrev, "IL") {
        return Some("Illinois".to_owned());
    }
    if str_eq(abbrev, "IN") {
        return Some("Indiana".to_owned());
    }
    if str_eq(abbrev, "IA") {
        return Some("Iowa".to_owned());
    }
    if str_eq(abbrev, "KS") {
        return Some("Kansas".to_owned());
    }
    if str_eq(abbrev, "KY") {
        return Some("Kentucky".to_owned());
    }
    if str_eq(abbrev, "LA") {
        return Some("Louisiana".to_owned());
    }
    if str_eq(abbrev, "ME") {
        return Some("Maine".to_owned());
    }
    if str_eq(abbrev, "MD") {
        return Some("Maryland".to_owned());
    }
    if str_eq(abbrev, "MA") {
        return Some("Massachusetts".to_owned());
    }
    if str_eq(abbrev, "MI") {
        return Some("Michigan".to_owned());
    }
    if str_eq(abbrev, "MN") {
        return Some("Minnesota".to_owned());
    }
    if str_eq(abbrev, "MS") {
        return Some("Mississippi".to_owned());
    }
    if str_eq(abbrev, "MO") {
        return Some("Missouri".to_owned());
    }
    if str_eq(abbrev, "MT") {
        return Some("Montana".to_owned());
    }
    if str_eq(abbrev, "NE") {
        return Some("Nebraska".to_owned());
    }
    if str_eq(abbrev, "NV") {
        return Some("Nevada".to_owned());
    }
    if str_eq(abbrev, "NH") {
        return Some("New Hampshire".to_owned());
    }
    if str_eq(abbrev, "NJ") {
        return Some("New Jersey".to_owned());
    }
    if str_eq(abbrev, "NM") {
        return Some("New Mexico".to_owned());
    }
    if str_eq(abbrev, "NY") {
        return Some("New York".to_owned());
    }
    if str_eq(abbrev, "NC") {
        return Some("North Carolina".to_owned());
    }
    if str_eq(abbrev, "ND") {
        return Some("North Dakota".to_owned());
    }
    if str_eq(abbrev, "OH") {
        return Some("Ohio".to_owned());
    }
    if str_eq(abbrev, "OK") {
        return Some("Oklahoma".to_owned());
    }
    if str_eq(abbrev, "OR") {
        return Some("Oregon".to_owned());
    }
    if str_eq(abbrev, "PA") {
        return Some("Pennsylvania".to_owned());
    }
    if str_eq(abbrev, "RI") {
        return Some("Rhode Island".to_owned());
    }
    if str_eq(abbrev, "SC") {
        return Some("South Carolina".to_owned());
    }
    if str_eq(abbrev, "SD") {
        return Some("South Dakota".to_owned());
    }
    if str_eq(abbrev, "TN") {
        return Some("Tennessee".to_owned());
    }
    if str_eq(abbrev, "TX") {
        return Some("Texas".to_owned());
    }
    if str_eq(abbrev, "UT") {
        return Some("Utah".to_owned());
    }
    if str_eq(abbrev, "VT") {
        return Some("Vermont".to_owned());
    }
    if str_eq(abbrev, "VA") {
        return Some("Virginia".to_owned());
    }
    if str_eq(abbrev, "WA") {
        return Some("Washington".to_owned());
    }
    if str_eq(abbrev, "WV") {
        return Some("West Virginia".to_owned());
    }
    if str_eq(abbrev, "WI") {
        return Some("Wisconsin".to_owned());
    }
    if str_eq(abbrev, "WY") {
        return Some("Wyoming".to_owned());
    }
    None
}

} // verus!
