use vstd::prelude::*;

verus! {

/// Lifetime of an access token, in minutes.
pub const ACCESS_TOKEN_EXPIRED: i64 = 1;

/// Lifetime of a refresh token, in minutes.
pub const REFRESH_TOKEN_EXPIRED: i64 = 2;

/// Lifetime of an access token, in seconds.
pub const ACCESS_TOKEN_SECONDS: i64 = 60 * ACCESS_TOKEN_EXPIRED;

/// Lifetime of a refresh token, in seconds: the age that the refresh cookie is
/// given at sign-in.
pub const REFRESH_TOKEN_SECONDS: i64 = 60 * REFRESH_TOKEN_EXPIRED;

} // verus!
