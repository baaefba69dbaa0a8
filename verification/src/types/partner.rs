//! Partner-configuration transfer records.

use vstd::prelude::*;

verus! {

/// Path parameter naming one partner.
#[derive(Debug, Clone, PartialEq, Eq)]
pub struct PartnerConfigPath {
    pub partner: String,
}

} // verus!
