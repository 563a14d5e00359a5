//! Keeping the host's jurisdiction in the hosting directory in step with the
//! one registered with Holo's backend (HBS).
use vstd::prelude::*;
use crate::text::str_eq;

verus! {

broadcast use vstd::string::group_string_axioms;

/// What the host's hosting criteria say.
pub struct HostingCriteria {
    pub id: String,
    pub jurisdiction: String,
    pub kyc: String,
}

/// The request that records the host's jurisdiction in the directory.
pub struct SetHostJurisdictionInput {
    pub pubkey: Vec<u8>,
    pub jurisdiction: String,
}

/// The directory needs updating unless it already holds the backend's jurisdiction.
pub fn jurisdiction_needs_update(hha_jurisdiction: &Option<String>, hbs_jurisdiction: &str) -> (r: bool)
    ensures
        r == !(hha_jurisdiction matches Some(j) && j@ == hbs_jurisdiction@),
{
    match hha_jurisdiction {
        None => true,
        Some(j) => !str_eq(j.as_str(), hbs_jurisdiction),
    }
}

/// The update to send, if any: the backend's jurisdiction for the host's key,
/// when the directory does not hold it already.
pub fn jurisdiction_update(hha_jurisdiction: &Option<String>, hbs_jurisdiction: String, host_pubkey: Vec<u8>) -> (r: Option<SetHostJurisdictionInput>)
    ensures
        (hha_jurisdiction matches Some(j) && j@ == hbs_jurisdiction@) ==> r is None,
        !(hha_jurisdiction matches Some(j) && j@ == hbs_jurisdiction@) ==> (r matches Some(u)
            && u.pubkey == host_pubkey && u.jurisdiction == hbs_jurisdiction),
{
    if jurisdiction_needs_update(hha_jurisdiction, hbs_jurisdiction.as_str()) {
        Some(SetHostJurisdictionInput { pubkey: host_pubkey, jurisdiction: hbs_jurisdiction })
    } else {
        None
    }
}

/// Integration tests (`IS_INTEGRATION_TEST=TRUE`) skip the jurisdiction update.
pub fn skips_jurisdiction_update(is_integration_test: Option<&str>) -> (r: bool)
    ensures
        r == (is_integration_test matches Some(v) && v@ == "TRUE"@),
{
    match is_integration_test {
        Some(v) => str_eq(v, "TRUE"),
        None => false,
    }
}

} // verus!
