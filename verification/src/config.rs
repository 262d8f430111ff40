//! The account credentials the client signs its requests with.

use vstd::prelude::*;

verus! {

/// Credentials of an NBX API key, as read from the configuration file.
#[derive(Clone)]
pub struct Config {
    pub account_id: String,
    pub api_key: String,
    /// The API secret, encoded in standard base64.
    pub api_secret: String,
    pub api_passphrase: String,
}

} // verus!
