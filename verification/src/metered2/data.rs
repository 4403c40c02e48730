//! Data-transfer records exchanged with the second metered API server.

use vstd::prelude::*;

verus! {

/// One issued API key, as handed back to a caller.
pub struct ApiKeyDto {
    pub api_key: String,
}

impl ApiKeyDto {
    pub fn new(api_key: String) -> (r: Self)
        ensures
            r.api_key == api_key,
    {
        Self { api_key }
    }
}

/// A code-execution request. Fields stay absent until validation has
/// seen them; the accessors demand validated input.
pub struct CodeRunInputDto {
    pub api_key: Option<String>,
    pub code: Option<String>,
    pub language: Option<String>,
}

impl CodeRunInputDto {
    pub fn api_key(&self) -> (r: &str)
        requires
            self.api_key is Some,
        ensures
            r@ == self.api_key.unwrap()@,
    {
        self.api_key.as_ref().unwrap().as_str()
    }

    pub fn code(&self) -> (r: &str)
        requires
            self.code is Some,
        ensures
            r@ == self.code.unwrap()@,
    {
        self.code.as_ref().unwrap().as_str()
    }

    pub fn language(&self) -> (r: &str)
        requires
            self.language is Some,
        ensures
            r@ == self.language.unwrap()@,
    {
        self.language.as_ref().unwrap().as_str()
    }
}

/// The outcome of one code execution.
pub struct CodeRunResponseDto {
    pub error: String,
    pub info: Option<String>,
    pub language: String,
    pub output: String,
}

/// The fixed internal-error payload.
pub struct InternalServerErrorDto {
    pub error: String,
}

impl InternalServerErrorDto {
    pub fn new() -> (r: Self)
        ensures
            r.error@ == "Internal server error"@,
    {
        Self { error: String::from_str("Internal server error") }
    }
}

/// The payload answering a successful registration.
pub struct RegistrationResponseDto {
    pub api_key: String,
}

impl RegistrationResponseDto {
    pub fn new(api_key: String) -> (r: Self)
        ensures
            r.api_key == api_key,
    {
        Self { api_key }
    }
}

/// The fixed unauthorized payload.
pub struct UnauthorizedDto {
    pub error: String,
}

impl UnauthorizedDto {
    pub fn new() -> (r: Self)
        ensures
            r.error@ == "Unauthorized"@,
    {
        Self { error: String::from_str("Unauthorized") }
    }
}

} // verus!
