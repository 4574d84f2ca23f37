//! What a session token says about its holder.
use vstd::prelude::*;

verus! {

/// The claims of a session token.
#[derive(Debug, PartialEq)]
pub struct Claims {
    /// The holder: a user's id.
    pub sub: String,
    /// When the token expires, in seconds since the epoch.
    pub exp: usize,
    /// When it was issued, in seconds since the epoch.
    pub iat: usize,
    pub iss: String,
}

} // verus!
