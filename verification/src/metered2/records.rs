//! Core records of the second metered API server: registrations and
//! stored API key rows.

use vstd::prelude::*;

verus! {

/// A registration under validation: the applicant's email address,
/// already folded to lower case by the decoding layer.
pub struct Registration {
    pub email: String,
}

impl Registration {
    pub fn email(&self) -> (r: &str)
        ensures
            r@ == self.email@,
    {
        self.email.as_str()
    }
}

/// One stored API key row.
pub struct ApiKeyRow {
    pub id: u32,
    pub email: String,
    pub api_key: String,
}

impl ApiKeyRow {
    pub fn id(&self) -> (r: u32)
        ensures
            r == self.id,
    {
        self.id
    }

    pub fn email(&self) -> (r: &str)
        ensures
            r@ == self.email@,
    {
        self.email.as_str()
    }

    pub fn api_key(&self) -> (r: &str)
        ensures
            r@ == self.api_key@,
    {
        self.api_key.as_str()
    }
}

/// One issued API key, as the server's own modules hand it back.
pub struct ApiKeyDto {
    pub api_key: String,
}

/// The fixed internal-error payload.
pub struct InternalServerErrorDto {
    pub error: String,
}

impl InternalServerErrorDto {
    pub fn new() -> (r: Self)
        ensures
            r.error@ == "Internal server error"@,
    {
        Self { error: String::from_str("Internal server error") }
    }
}

} // verus!
