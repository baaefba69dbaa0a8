//! Authentication transfer records.

use vstd::prelude::*;

verus! {

/// Token pair presented for re-verification.
#[derive(Debug, Clone, PartialEq, Eq)]
pub struct VerifyAuthTokenReq {
    pub access_token: String,
    pub refresh_token: String,
}

} // verus!
