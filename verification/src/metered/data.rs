//! Data-transfer records exchanged with the first metered API server.

use vstd::prelude::*;

verus! {

/// One issued API key row, as handed back to a caller.
pub struct ApiKeyDto {
    pub id: u32,
    pub email: String,
    pub api_key: String,
}

impl ApiKeyDto {
    pub fn new(id: u32, email: String, api_key: String) -> (r: Self)
        ensures
            r.id == id,
            r.email == email,
            r.api_key == api_key,
    {
        Self { id, email, api_key }
    }
}

/// The API key a caller hands in as a query parameter; absent until
/// validation has seen it.
pub struct ApiKeyQueryParamDto {
    pub api_key: Option<String>,
}

/// A registration request: the applicant's email address.
pub struct RegistrationInputDto {
    pub email: String,
}

impl RegistrationInputDto {
    pub fn email(&self) -> (r: &str)
        ensures
            r@ == self.email@,
    {
        self.email.as_str()
    }
}

} // verus!
