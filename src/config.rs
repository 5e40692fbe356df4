//! Where the API is and the credentials to use with it.

use vstd::prelude::*;

verus! {

/// API host base URL, bearer token and HMAC shared secret.
#[derive(Debug, Clone)]
pub struct Config {
    pub host: String,
    pub token: String,
    pub secret: String,
}

} // verus!
