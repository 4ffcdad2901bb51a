use jsonwebtoken::errors::ErrorKind as JwtErrorKind;
use jsonwebtoken::{Algorithm, DecodingKey, EncodingKey, Header, Validation};
use vstd::prelude::*;
use vstd::string::StringExecFns;

use crate::auth::types::{Claims, ClaimsView};
use crate::text::solid;

verus! {

/// The claims of a token as they were found in its payload: each of the three
/// members is there with the type it should have, or missing.
#[derive(Debug, PartialEq, Eq)]
pub struct RawClaims {
    pub username: Option<String>,
    pub iat: Option<i64>,
    pub exp: Option<i64>,
}

pub ghost struct WireClaims {
    pub username: Option<Seq<char>>,
    pub iat: Option<int>,
    pub exp: Option<int>,
}

impl View for RawClaims {
    type V = WireClaims;

    open spec fn view(&self) -> WireClaims {
        WireClaims {
            username: match self.username {
                Some(u) => Some(u@),
                None => None,
            },
            iat: match self.iat {
                Some(t) => Some(t as int),
                None => None,
            },
            exp: match self.exp {
                Some(t) => Some(t as int),
                None => None,
            },
        }
    }
}

/// Why a token was turned down.
#[derive(Debug, PartialEq, Eq)]
pub enum TokenFault {
    /// The signature holds, and the expiry lies more than the verifier's
    /// leeway in the past.
    Expired,
    /// Anything else: a wrong signature, a wrong shape, a claim that is
    /// missing. The text says which.
    Invalid(String),
}

pub ghost enum FaultView {
    Expired,
    Invalid(Seq<char>),
}

impl View for TokenFault {
    type V = FaultView;

    open spec fn view(&self) -> FaultView {
        match *self {
            TokenFault::Expired => FaultView::Expired,
            TokenFault::Invalid(text) => FaultView::Invalid(text@),
        }
    }
}

/// What verifying a token came to.
pub type Decoded = Result<RawClaims, TokenFault>;

pub type DecodedView = Result<WireClaims, FaultView>;

pub open spec fn decoded_view(decoded: Decoded) -> DecodedView {
    match decoded {
        Ok(raw) => Ok(raw@),
        Err(fault) => Err(fault@),
    }
}

/// The payload that a complete claim set is written as.
pub open spec fn on_wire(claims: ClaimsView) -> WireClaims {
    WireClaims {
        username: Some(claims.username),
        iat: Some(claims.iat),
        exp: Some(claims.exp),
    }
}

/// The HS256 token that signing a claim set with a secret gives.
pub uninterp spec fn jwt_encoded(username: Seq<char>, iat: int, exp: int, secret: Seq<char>) -> Seq<
    char,
>;

/// What a token carries for a holder of the secret, whatever the time: its
/// claims, where the token is an HS256 token that this secret signed and
/// whose payload names an expiry and no audience.
pub uninterp spec fn jwt_claims(token: Seq<char>, secret: Seq<char>) -> Option<WireClaims>;

/// This token is what signing these claims with this secret gives: it is
/// not empty and holds no white space, and, where the expiry is not negative,
/// it carries just these claims for a holder of the secret.
pub open spec fn sealed(token: Seq<char>, claims: ClaimsView, secret: Seq<char>) -> bool {
    &&& token == jwt_encoded(claims.username, claims.iat, claims.exp, secret)
    &&& solid(token)
    &&& claims.exp >= 0 ==> jwt_claims(token, secret) == Some(on_wire(claims))
}

/// What a verifier may answer for a token under a secret. The clock decides
/// between the claims and `Expired`; nothing else is left to it.
pub open spec fn decoding(token: Seq<char>, secret: Seq<char>, decoded: DecodedView) -> bool {
    match decoded {
        Ok(raw) => jwt_claims(token, secret) == Some(raw),
        Err(FaultView::Expired) => true,
        Err(FaultView::Invalid(_)) => jwt_claims(token, secret) is None,
    }
}

/// Calls `jsonwebtoken::encode` with the default header (HS256) on the claim
/// set, written as the object `{"username", "iat", "exp"}` in that order, and
/// the secret's bytes as the key.
///
/// `encode` fails where the key is of another family than the header's
/// algorithm, where the header or the claims do not serialise, and where
/// signing fails: none of these can happen with an HMAC key, the default
/// header, an object of two integers and a string, and HS256. The token is
/// three parts in the URL-safe base64 alphabet with a dot between each two,
/// so it is not empty and holds no white space. It is taken to depend on the
/// claims and the secret alone. With an expiry that is
/// not negative it is taken to carry exactly these claims for the same
/// secret: `jsonwebtoken::decode` recomputes the signature that `encode`
/// wrote, and reads an `exp` only where it fits 64 bits without a sign.
#[verifier::external_body]
fn encode_hs256(claims: &Claims, secret: &str) -> (r: Result<String, String>)
    ensures
        r is Ok,
        r->Ok_0@ == jwt_encoded(claims@.username, claims@.iat, claims@.exp, secret@),
        solid(r->Ok_0@),
        claims@.exp >= 0 ==> jwt_claims(r->Ok_0@, secret@) == Some(on_wire(claims@)),
{
    let mut payload = serde_json::Map::new();
    payload.insert("username".to_owned(), serde_json::Value::from(claims.username.as_str()));
    payload.insert("iat".to_owned(), serde_json::Value::from(claims.iat));
    payload.insert("exp".to_owned(), serde_json::Value::from(claims.exp));
    let key = EncodingKey::from_secret(secret.as_bytes());
    jsonwebtoken::encode(&Header::default(), &payload, &key).map_err(|e| e.to_string())
}

/// Calls `jsonwebtoken::decode` with `Validation::new(HS256)` and the
/// secret's bytes as the key, and reads the members `username`, `iat` and
/// `exp` out of the payload.
///
/// `decode` checks the shape, the algorithm and the signature, then that the
/// payload is JSON with a numeric `exp`, then `exp` against its own clock with
/// a leeway of 60 seconds, then that there is no audience. Only the clock
/// check depends on anything but the token and the secret, and it fails with
/// `ExpiredSignature`.
#[verifier::external_body]
fn decode_hs256(token: &str, secret: &str) -> (r: Decoded)
    ensures
        decoding(token@, secret@, decoded_view(r)),
{
    let key = DecodingKey::from_secret(secret.as_bytes());
    match jsonwebtoken::decode::<serde_json::Value>(token, &key, &Validation::new(Algorithm::HS256)) {
        Ok(data) => Ok(
            RawClaims {
                username: data.claims.get("username").and_then(|v| v.as_str()).map(|s| s.to_owned()),
                iat: data.claims.get("iat").and_then(|v| v.as_i64()),
                exp: data.claims.get("exp").and_then(|v| v.as_i64()),
            },
        ),
        Err(e) => match e.kind() {
            JwtErrorKind::ExpiredSignature => Err(TokenFault::Expired),
            _ => Err(TokenFault::Invalid(e.to_string())),
        },
    }
}

/// Signs a claim set with a secret.
pub fn sign(claims: &Claims, secret: &str) -> (r: Result<String, String>)
    ensures
        r matches Ok(token) && sealed(token@, claims@, secret@),
{
    encode_hs256(claims, secret)
}

/// What verifying a token came to, for a caller that needs all three claims.
pub type Verified = Result<Claims, TokenFault>;

pub type VerifiedView = Result<ClaimsView, FaultView>;

pub open spec fn verified_view(verified: Verified) -> VerifiedView {
    match verified {
        Ok(claims) => Ok(claims@),
        Err(fault) => Err(fault@),
    }
}

/// The complete claim set that a token carries for a holder of the secret,
/// whatever the time.
pub open spec fn token_claims(token: Seq<char>, secret: Seq<char>) -> Option<ClaimsView> {
    match jwt_claims(token, secret) {
        Some(raw) => complete(raw),
        None => None,
    }
}

pub open spec fn incomplete_message() -> Seq<char> {
    "the payload lacks one of the claims username, iat and exp"@
}

/// What verifying a token under a secret may come to. A token that carries no
/// complete claim set for the secret is never accepted; one that carries one
/// is accepted with just those claims, or turned down as expired.
pub open spec fn verification(token: Seq<char>, secret: Seq<char>, verified: VerifiedView) -> bool {
    match verified {
        Ok(claims) => token_claims(token, secret) == Some(claims),
        Err(FaultView::Expired) => true,
        Err(FaultView::Invalid(text)) => {
            &&& token_claims(token, secret) is None
            &&& jwt_claims(token, secret) is Some ==> text == incomplete_message()
        },
    }
}

/// What the verifier's answer means for a caller that needs all three
/// claims: a payload that lacks one is invalid.
pub fn completed(decoded: Decoded) -> (r: Verified)
    ensures
        match decoded {
            Ok(raw) => match complete(raw@) {
                Some(claims) => verified_view(r) == Ok::<ClaimsView, FaultView>(claims),
                None => verified_view(r) == Err::<ClaimsView, FaultView>(
                    FaultView::Invalid(incomplete_message()),
                ),
            },
            Err(fault) => verified_view(r) == Err::<ClaimsView, FaultView>(fault@),
        },
{
    match decoded {
        Ok(raw) => match raw.into_claims() {
            Some(claims) => Ok(claims),
            None => Err(
                TokenFault::Invalid(
                    String::from_str("the payload lacks one of the claims username, iat and exp"),
                ),
            ),
        },
        Err(fault) => Err(fault),
    }
}

/// Verifies a token against a secret and the clock.
pub fn verify(token: &str, secret: &str) -> (r: Verified)
    ensures
        verification(token@, secret@, verified_view(r)),
{
    completed(decode_hs256(token, secret))
}

/// The claim set that a payload holds when all three members are there.
pub open spec fn complete(raw: WireClaims) -> Option<ClaimsView> {
    if raw.username is Some && raw.iat is Some && raw.exp is Some {
        Some(ClaimsView { username: raw.username->0, iat: raw.iat->0, exp: raw.exp->0 })
    } else {
        None
    }
}

impl RawClaims {
    /// The claim set, if no member is missing.
    pub fn into_claims(self) -> (claims: Option<Claims>)
        ensures
            match claims {
                Some(c) => complete(self@) == Some(c@),
                None => complete(self@) is None,
            },
    {
        match (self.username, self.iat, self.exp) {
            (Some(username), Some(iat), Some(exp)) => Some(Claims { username, iat, exp }),
            _ => None,
        }
    }
}

} // verus!
