//! Settings of the web frontend.

use vstd::prelude::*;

verus! {

#[derive(Debug, Default)]
pub struct Settings {
    pub authentication: Authentication,
}

#[derive(Debug, Default)]
pub struct Authentication {
    pub issuer: String,
    pub client_id: String,
    pub client_secret: String,
    pub api_url: String,
    pub signin_policy: String,
    pub edit_profile_policy: String,
    pub reset_password_policy: String,
}

} // verus!
