use vstd::prelude::*;
use vstd::string::StrSliceExecFns;
use vstd::string::StringExecFns;

use crate::auth::clock::{clock_reading, Timestamp};
use crate::auth::codec::{verification, verified_view, verify, FaultView, TokenFault, Verified, VerifiedView};
use crate::errors::{failure, AppError, ErrorKind, ErrorView};
use crate::text::{
    blank, chars_of, law_segments_solid, law_two_segments, segment_ranges, segments, solid,
};
use crate::types::{AppState, Secrets};

verus! {

/// The proof that a request carried a live access token. It says nothing of
/// who sent the request.
#[derive(Debug, PartialEq, Eq)]
pub struct JwtAuth;

/// The token of an authorization header: its second segment, where it has
/// exactly two.
pub open spec fn bearer(header: Seq<char>) -> Option<Seq<char>> {
    if segments(header).len() == 2 {
        Some(segments(header)[1])
    } else {
        None
    }
}

/// A header of a scheme and a token, with white space between them and
/// maybe around them, presents the token.
pub proof fn law_bearer_of_two_words(
    lead: Seq<char>,
    scheme: Seq<char>,
    gap: Seq<char>,
    token: Seq<char>,
    trail: Seq<char>,
)
    requires
        blank(lead),
        solid(scheme),
        blank(gap),
        gap.len() > 0,
        solid(token),
        blank(trail),
    ensures
        bearer(lead + scheme + gap + token + trail) == Some(token),
{
    law_two_segments(lead, scheme, gap, token, trail);
}

/// The header that is `Bearer`, one blank and a token presents the token.
pub proof fn law_bearer_header(token: Seq<char>)
    requires
        solid(token),
    ensures
        bearer("Bearer "@ + token) == Some(token),
{
    reveal_strlit("Bearer ");
    reveal_strlit("Bearer");
    reveal_strlit(" ");
    let none = Seq::<char>::empty();
    assert("Bearer "@ + token =~= none + "Bearer"@ + " "@ + token + none);
    law_bearer_of_two_words(none, "Bearer"@, " "@, token, none);
}

/// The token that a header presents is not empty and holds no white space.
pub proof fn law_bearer_is_solid(header: Seq<char>)
    ensures
        bearer(header) matches Some(token) ==> solid(token),
{
    if segments(header).len() == 2 {
        law_segments_solid(header, 1);
    }
}

/// Reads the token out of an authorization header.
pub fn bearer_token(header: &str) -> (token: Option<String>)
    ensures
        crate::auth::flow::text(token) == bearer(header@),
{
    let chars = chars_of(header);
    let ranges = segment_ranges(&chars);
    if ranges.len() == 2 {
        let (from, to) = ranges[1];
        Some(String::from_str(header.substring_char(from, to)))
    } else {
        None
    }
}

pub open spec fn token_missing() -> ErrorView {
    failure(
        ErrorKind::Unauthorized,
        "Unauthorized: missing or invalid authorization token."@,
        None,
    )
}

pub open spec fn access_signature_expired() -> ErrorView {
    failure(
        ErrorKind::Unauthorized,
        "Access token signature has expired. Please regenerate a new signature for the access token."@,
        None,
    )
}

pub open spec fn access_invalid(text: Seq<char>) -> ErrorView {
    failure(ErrorKind::Unauthorized, "Access token validation failed."@, Some(text))
}

pub open spec fn access_expired() -> ErrorView {
    failure(
        ErrorKind::Unauthorized,
        "Sorry, the access token expired token. Please obtain a new access token using the refresh token."@,
        None,
    )
}

/// What the guard makes of a token's verification: it lets the request pass
/// where the token verified and its expiry lies after `now`.
pub open spec fn guard_check(verified: VerifiedView, now: int) -> Result<(), ErrorView> {
    match verified {
        Err(FaultView::Expired) => Err(access_signature_expired()),
        Err(FaultView::Invalid(text)) => Err(access_invalid(text)),
        Ok(claims) => if now >= claims.exp {
            Err(access_expired())
        } else {
            Ok(())
        },
    }
}

pub open spec fn state_missing() -> ErrorView {
    failure(ErrorKind::InternalServerError, "failed to get app_state."@, None)
}

/// What the guard makes of a request: one without a header, or with a header
/// that is not two segments, is turned down; so is one that comes where the
/// secrets are not at hand; otherwise the token decides.
pub open spec fn guard_outcome(
    header: Option<Seq<char>>,
    secrets_at_hand: bool,
    verified: VerifiedView,
    now: int,
) -> Result<(), ErrorView> {
    match guard_token(header) {
        None => Err(token_missing()),
        Some(_) => if secrets_at_hand {
            guard_check(verified, now)
        } else {
            Err(state_missing())
        },
    }
}

/// The token that a request presents.
pub open spec fn guard_token(header: Option<Seq<char>>) -> Option<Seq<char>> {
    match header {
        None => None,
        Some(value) => bearer(value),
    }
}

pub open spec fn pass_view(result: Result<JwtAuth, AppError>) -> Result<(), ErrorView> {
    match result {
        Ok(_) => Ok(()),
        Err(e) => Err(e@),
    }
}

impl JwtAuth {
    /// Judges a request by what verifying its token came to and by the clock.
    pub fn judge(verified: Verified, now: Timestamp) -> (r: Result<JwtAuth, AppError>)
        ensures
            pass_view(r) == guard_check(verified_view(verified), now@),
    {
        match verified {
            Err(TokenFault::Expired) => Err(
                AppError::plain(
                    ErrorKind::Unauthorized,
                    "Access token signature has expired. Please regenerate a new signature for the access token.",
                ),
            ),
            Err(TokenFault::Invalid(text)) => Err(
                AppError::detailed(ErrorKind::Unauthorized, "Access token validation failed.", text),
            ),
            Ok(claims) => {
                if now.seconds() >= claims.exp {
                    Err(
                        AppError::plain(
                            ErrorKind::Unauthorized,
                            "Sorry, the access token expired token. Please obtain a new access token using the refresh token.",
                        ),
                    )
                } else {
                    Ok(JwtAuth)
                }
            },
        }
    }

    /// Judges a request by its authorization header, at a reading of the
    /// clock.
    pub fn from_header(authorization: Option<&str>, app_state: Option<&AppState>, now: Timestamp) -> (r:
        Result<JwtAuth, AppError>)
        ensures
            exists|verified: VerifiedView|
                {
                    &&& guard_verification(
                        header_view(authorization),
                        secrets_view(app_state),
                        verified,
                    )
                    &&& pass_view(r) == #[trigger] guard_outcome(
                        header_view(authorization),
                        app_state is Some,
                        verified,
                        now@,
                    )
                },
    {
        let token = match authorization {
            Some(value) => bearer_token(value),
            None => None,
        };
        let ghost header = header_view(authorization);
        match token {
            None => {
                let r = Err(
                    AppError::plain(
                        ErrorKind::Unauthorized,
                        "Unauthorized: missing or invalid authorization token.",
                    ),
                );
                assert(pass_view(r) == guard_outcome(
                    header,
                    app_state is Some,
                    Err(FaultView::Expired),
                    now@,
                ));
                r
            },
            Some(token) => match app_state {
                None => {
                    let r = Err(
                        AppError::plain(ErrorKind::InternalServerError, "failed to get app_state."),
                    );
                    assert(pass_view(r) == guard_outcome(
                        header,
                        false,
                        Err(FaultView::Expired),
                        now@,
                    ));
                    r
                },
                Some(state) => {
                    let verified = verify(token.as_str(), state.secret_access_token.as_str());
                    let r = JwtAuth::judge(verified, now);
                    assert(guard_verification(
                        header,
                        secrets_view(app_state),
                        verified_view(verified),
                    ));
                    assert(pass_view(r) == guard_outcome(
                        header,
                        true,
                        verified_view(verified),
                        now@,
                    ));
                    r
                },
            },
        }
    }

    /// Judges a request by its authorization header and the clock.
    pub fn from_request(authorization: Option<&str>, app_state: Option<&AppState>) -> (r: Result<
        JwtAuth,
        AppError,
    >)
        ensures
            exists|verified: VerifiedView, now: int|
                {
                    &&& guard_verification(
                        header_view(authorization),
                        secrets_view(app_state),
                        verified,
                    )
                    &&& clock_reading(now)
                    &&& pass_view(r) == #[trigger] guard_outcome(
                        header_view(authorization),
                        app_state is Some,
                        verified,
                        now,
                    )
                },
    {
        let now = Timestamp::now();
        let r = JwtAuth::from_header(authorization, app_state, now);
        proof {
            let verified = choose|verified: VerifiedView|
                {
                    &&& guard_verification(
                        header_view(authorization),
                        secrets_view(app_state),
                        verified,
                    )
                    &&& pass_view(r) == #[trigger] guard_outcome(
                        header_view(authorization),
                        app_state is Some,
                        verified,
                        now@,
                    )
                };
            assert(pass_view(r) == guard_outcome(
                header_view(authorization),
                app_state is Some,
                verified,
                now@,
            ));
        }
        r
    }
}

/// The secrets, where they are at hand.
pub open spec fn secrets_view(app_state: Option<&AppState>) -> Option<Secrets> {
    match app_state {
        Some(state) => Some(state@),
        None => None,
    }
}

/// Where a request presents a token and the secrets are at hand, `verified`
/// is what verifying the token against the access secret may come to.
pub open spec fn guard_verification(
    header: Option<Seq<char>>,
    secrets: Option<Secrets>,
    verified: VerifiedView,
) -> bool {
    match (guard_token(header), secrets) {
        (Some(token), Some(secrets)) => verification(token, secrets.access, verified),
        _ => true,
    }
}

/// The text of a header, where there is one.
pub open spec fn header_view(header: Option<&str>) -> Option<Seq<char>> {
    match header {
        Some(value) => Some(value@),
        None => None,
    }
}

} // verus!
