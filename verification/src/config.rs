//! Settings of the service.
use vstd::prelude::*;

verus! {

/// Where the service finds its database and cache, and the key that signs
/// its tokens.
pub struct Config {
    pub database_url: String,
    pub hmac_key: String,
    pub redis_url: String,
}

} // verus!
