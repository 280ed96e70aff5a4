//! The settings of one run.

use vstd::prelude::*;

verus! {

/// Where to sign in, as whom, and which URL to call.
#[derive(Debug)]
pub struct DemoSettings {
    pub region: String,
    pub client_id: String,
    pub user_pool: String,
    pub ident_pool: String,
    pub login: String,
    pub password: String,
    pub url: String,
}

} // verus!
