//! Provider statistics transfer records.

use vstd::prelude::*;

verus! {

/// Provider counts aggregated by country.
#[allow(dead_code)]
#[derive(Debug, Clone, PartialEq, Eq)]
pub struct ProviderByCountryStats {
    iso_code: String,
    name: String,
    geoname_id: String,
    total_active_ip: u32,
    total_active_user: u32,
    total_active_bandwidth: u64,
}

} // verus!
