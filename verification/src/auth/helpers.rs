use argon2::password_hash::rand_core::OsRng;
use argon2::password_hash::SaltString;
use argon2::{Argon2, PasswordHash, PasswordHasher, PasswordVerifier};
use vstd::prelude::*;
use vstd::string::StringExecFns;

use crate::auth::clock::{clock_reading, Timestamp, CLOCK_LIMIT};
use crate::auth::store::{RequestView, StoreRequest};
use crate::errors::{failure, AppError, ErrorKind};

verus! {

/// What checking a password against a digest comes to: whether it matches,
/// or why the digest could not be read.
pub uninterp spec fn argon2_verdict(password: Seq<char>, digest: Seq<char>) -> Result<
    bool,
    Seq<char>,
>;

pub open spec fn verdict_view(verdict: Result<bool, String>) -> Result<bool, Seq<char>> {
    match verdict {
        Ok(matches) => Ok(matches),
        Err(text) => Err(text@),
    }
}

/// Parses the digest with `PasswordHash::new` and calls
/// `Argon2::default().verify_password` on the password's bytes.
///
/// A digest that does not parse gives the parser's words. One that parses
/// gives whether recomputing it from the password, with the salt and the
/// parameters that the digest names, yields the same output. Both depend on
/// the two strings alone.
#[verifier::external_body]
fn argon2_check(password: &str, digest: &str) -> (r: Result<bool, String>)
    ensures
        verdict_view(r) == argon2_verdict(password@, digest@),
{
    let parsed = PasswordHash::new(digest).map_err(|e| e.to_string())?;
    Ok(Argon2::default().verify_password(password.as_bytes(), &parsed).is_ok())
}

/// What hashing a password under a salt comes to: the digest as a PHC
/// string, or the hasher's words.
pub uninterp spec fn argon2_digest(password: Seq<char>, salt: Seq<char>) -> Result<
    Seq<char>,
    Seq<char>,
>;

/// Calls `SaltString::generate` on the operating system's random numbers
/// and gives the salt as its text. Nothing is known of the salt that comes
/// back.
#[verifier::external_body]
fn fresh_salt() -> (salt: String) {
    SaltString::generate(OsRng).as_str().to_owned()
}

/// Reads the salt with `SaltString::from_b64`, calls
/// `Argon2::default().hash_password` on the password's bytes and the salt,
/// and writes the hash out as a PHC string.
///
/// What comes out depends on the password and the salt alone. A digest that
/// comes out names its salt and its parameters, so checking the same password
/// against it recomputes the same output: it matches.
#[verifier::external_body]
fn argon2_hash(password: &str, salt: &str) -> (r: Result<String, String>)
    ensures
        crate::auth::flow::texts_view(r) == argon2_digest(password@, salt@),
        digest_matches(password@, crate::auth::flow::texts_view(r)),
{
    let salt = SaltString::from_b64(salt).map_err(|e| e.to_string())?;
    Argon2::default().hash_password(password.as_bytes(), &salt).map(|h| h.to_string()).map_err(
        |e| e.to_string(),
    )
}

/// The request that reads the credentials of an account.
pub fn get_user_credentials(username: &String) -> (request: StoreRequest)
    ensures
        request@ == (RequestView::FindByUsername { username: username@ }),
{
    StoreRequest::FindByUsername { username: username.clone() }
}

/// What hashing this password under some salt comes to: the digest, or the
/// hasher's words. The password matches whatever digest comes back.
pub fn hash_with_fresh_salt(password: &str) -> (r: Result<String, String>)
    ensures
        hashing(password@, crate::auth::flow::texts_view(r)),
        exists|salt: Seq<char>|
            crate::auth::flow::texts_view(r) == #[trigger] argon2_digest(password@, salt),
{
    let salt = fresh_salt();
    let r = argon2_hash(password, salt.as_str());
    assert(crate::auth::flow::texts_view(r) == argon2_digest(password@, salt@));
    r
}

/// If hashing came to a digest, the password matches it.
pub open spec fn digest_matches(password: Seq<char>, hashed: Result<Seq<char>, Seq<char>>) -> bool {
    hashed matches Ok(digest) ==> argon2_verdict(password, digest) == Ok::<bool, Seq<char>>(true)
}

/// What hashing a password may come to: what the hasher makes of the
/// password under some salt, which, if it is a digest, the password matches.
pub open spec fn hashing(password: Seq<char>, hashed: Result<Seq<char>, Seq<char>>) -> bool {
    &&& exists|salt: Seq<char>| hashed == #[trigger] argon2_digest(password, salt)
    &&& digest_matches(password, hashed)
}

pub open spec fn hash_failed_message(password: Seq<char>) -> Seq<char> {
    "failed to hash password: "@ + password
}

pub open spec fn hash_failed(password: Seq<char>, text: Seq<char>) -> crate::errors::ErrorView {
    failure(ErrorKind::InternalServerError, hash_failed_message(password), Some(text))
}

/// What hashing means to the caller: the digest, or an internal error with
/// the hasher's words.
pub fn password_hashed(outcome: Result<String, String>, password: &str) -> (r: Result<
    String,
    AppError,
>)
    ensures
        match outcome {
            Ok(digest) => r matches Ok(d) && d@ == digest@,
            Err(text) => r matches Err(e) && e@ == hash_failed(password@, text@),
        },
{
    match outcome {
        Ok(digest) => Ok(digest),
        Err(text) => {
            let message = String::from_str("failed to hash password: ").concat(password);
            Err(AppError::new(ErrorKind::InternalServerError, message, Some(text)))
        },
    }
}

/// Hashes a password under a fresh salt: the digest that the hasher makes of
/// the password under some salt, which the password matches, or an internal
/// error with the hasher's words.
pub fn hashing_password(user_payload_password: &str) -> (r: Result<String, AppError>)
    ensures
        r matches Ok(digest) ==> argon2_verdict(user_payload_password@, digest@) == Ok::<
            bool,
            Seq<char>,
        >(true),
        exists|salt: Seq<char>|
            match #[trigger] argon2_digest(user_payload_password@, salt) {
                Ok(digest) => r matches Ok(d) && d@ == digest,
                Err(text) => r matches Err(e) && e@ == hash_failed(user_payload_password@, text),
            },
{
    let outcome = hash_with_fresh_salt(user_payload_password);
    let ghost hashed = crate::auth::flow::texts_view(outcome);
    let ghost salt = choose|salt: Seq<char>|
        hashed == #[trigger] argon2_digest(user_payload_password@, salt);
    let r = password_hashed(outcome, user_payload_password);
    assert(match argon2_digest(user_payload_password@, salt) {
        Ok(digest) => r matches Ok(d) && d@ == digest,
        Err(text) => r matches Err(e) && e@ == hash_failed(user_payload_password@, text),
    });
    r
}

pub open spec fn digest_unreadable(text: Seq<char>) -> crate::errors::ErrorView {
    failure(ErrorKind::InternalServerError, "failed to parse hashed password."@, Some(text))
}

/// What a password check means to the caller: the answer, or an internal
/// error where the stored digest could not be read.
pub fn password_verdict(verdict: Result<bool, String>) -> (r: Result<bool, AppError>)
    ensures
        match verdict {
            Ok(matches) => r == Ok::<bool, AppError>(matches),
            Err(text) => r matches Err(e) && e@ == digest_unreadable(text@),
        },
{
    match verdict {
        Ok(matches) => Ok(matches),
        Err(text) => Err(
            AppError::detailed(
                ErrorKind::InternalServerError,
                "failed to parse hashed password.",
                text,
            ),
        ),
    }
}

/// Checks a presented password against a stored digest.
pub fn verify_password(user_payload_password: &str, stored_hashed_password: &str) -> (r: Result<
    bool,
    AppError,
>)
    ensures
        match argon2_verdict(user_payload_password@, stored_hashed_password@) {
            Ok(matches) => r == Ok::<bool, AppError>(matches),
            Err(text) => r matches Err(e) && e@ == digest_unreadable(text),
        },
{
    password_verdict(argon2_check(user_payload_password, stored_hashed_password))
}

/// The seconds from `now` to `timestamp`; negative once it has passed.
pub fn seconds_until(timestamp: i64, now: i64) -> (seconds: i64)
    requires
        i64::MIN <= timestamp - now <= i64::MAX,
    ensures
        seconds == timestamp - now,
{
    timestamp - now
}

/// The seconds left until `timestamp`, by the clock: the age to give a
/// cookie that should lapse then.
pub fn convert_timestamp_to_actix_duration(timestamp: i64) -> (seconds: i64)
    requires
        timestamp >= i64::MIN + CLOCK_LIMIT,
    ensures
        exists|now: int| clock_reading(now) && seconds == timestamp - now,
{
    let now = Timestamp::now().seconds();
    seconds_until(timestamp, now)
}

} // verus!
