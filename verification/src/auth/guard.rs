//! The guard in front of protected operations: a request passes with a
//! bearer token that verifies, and is turned away otherwise.

use crate::auth::jwt::{verify_outcome, Claims, ClaimsView, JwtService, TokenError};
use crate::clock::unix_now;
use crate::errors::AuthError;
use crate::view::{option_view, result_view};
use vstd::prelude::*;
use vstd::string::StrSliceExecFns;

verus! {

/// The identity that a verified bearer token stands for.
#[derive(Debug, PartialEq, Eq)]
pub struct AuthenticatedUser {
    pub user_id: String,
}

/// What an `AuthenticatedUser` holds, as the contracts read it.
pub struct AuthenticatedUserView {
    pub user_id: Seq<char>,
}

impl View for AuthenticatedUser {
    type V = AuthenticatedUserView;

    open spec fn view(&self) -> AuthenticatedUserView {
        AuthenticatedUserView { user_id: self.user_id@ }
    }
}

/// The token in an `Authorization` header: what follows the scheme prefix
/// `"Bearer "`, or nothing where the header does not start with it.
pub open spec fn bearer_token(header: Seq<char>) -> Option<Seq<char>> {
    if header.len() >= 7 && header.subrange(0, 7) == "Bearer "@ {
        Some(header.subrange(7, header.len() as int))
    } else {
        None
    }
}

/// A header made of the scheme prefix and a token carries that token, whatever
/// the token's text.
pub proof fn lemma_bearer_header_carries_its_token(token: Seq<char>)
    ensures
        bearer_token("Bearer "@ + token) == Some(token),
{
    reveal_strlit("Bearer ");
    let header = "Bearer "@ + token;
    assert(header.subrange(0, 7) =~= "Bearer "@);
    assert(header.subrange(7, header.len() as int) =~= token);
}

/// What the guard makes of a verified or rejected token. Every rejection
/// becomes the same `Unauthenticated`: the cause is not passed on.
pub open spec fn identity_of(verified: Result<ClaimsView, TokenError>) -> Result<
    AuthenticatedUserView,
    AuthError,
> {
    match verified {
        Ok(claims) => Ok(AuthenticatedUserView { user_id: claims.sub }),
        Err(_) => Err(AuthError::Unauthenticated),
    }
}

/// What the guard decides for a request with this `Authorization` header, if
/// it has one, at `now`.
pub open spec fn guard_outcome(header: Option<Seq<char>>, secret: Seq<char>, now: u64) -> Result<
    AuthenticatedUserView,
    AuthError,
> {
    match header {
        None => Err(AuthError::Unauthenticated),
        Some(text) => match bearer_token(text) {
            None => Err(AuthError::Unauthenticated),
            Some(token) => identity_of(verify_outcome(token, secret, now)),
        },
    }
}

/// Strips the scheme prefix off an `Authorization` header.
pub fn strip_bearer(header: &str) -> (token: Option<&str>)
    ensures
        option_view(token) == bearer_token(header@),
{
    proof {
        reveal_strlit("Bearer ");
    }
    let prefix = "Bearer ";
    let len = header.unicode_len();
    if len < 7 {
        return None;
    }
    let mut i: usize = 0;
    while i < 7
        invariant
            i <= 7 <= len == header@.len(),
            prefix@ == "Bearer "@,
            prefix@.len() == 7,
            forall|j: int| 0 <= j < i ==> header@[j] == prefix@[j],
        decreases 7 - i,
    {
        if header.get_char(i) != prefix.get_char(i) {
            assert(header@.subrange(0, 7)[i as int] != prefix@[i as int]);
            return None;
        }
        i += 1;
    }
    assert(header@.subrange(0, 7) =~= prefix@);
    Some(header.substring_char(7, len))
}

impl AuthenticatedUser {
    /// The identity for a verification result.
    pub fn from_verified(verified: Result<Claims, TokenError>) -> (identity: Result<
        AuthenticatedUser,
        AuthError,
    >)
        ensures
            result_view(identity) == identity_of(result_view(verified)),
    {
        match verified {
            Ok(claims) => Ok(AuthenticatedUser { user_id: claims.sub }),
            Err(_) => Err(AuthError::Unauthenticated),
        }
    }

    /// Guards a request at `now`, given its `Authorization` header if it has
    /// one. No header, no `"Bearer "` prefix, or a token that does not verify:
    /// each is `Unauthenticated`.
    pub fn from_request_at(jwt: &JwtService, header: Option<&str>, now: u64) -> (identity: Result<
        AuthenticatedUser,
        AuthError,
    >)
        ensures
            result_view(identity) == guard_outcome(option_view(header), jwt.secret(), now),
    {
        match header {
            None => Err(AuthError::Unauthenticated),
            Some(text) => match strip_bearer(text) {
                None => Err(AuthError::Unauthenticated),
                Some(token) => AuthenticatedUser::from_verified(jwt.verify_token_at(token, now)),
            },
        }
    }

    /// Guards a request at the present second.
    pub fn from_request(jwt: &JwtService, header: Option<&str>) -> (identity: Result<
        AuthenticatedUser,
        AuthError,
    >)
        ensures
            exists|now: u64|
                now <= i64::MAX && result_view(identity) == #[trigger] guard_outcome(
                    option_view(header),
                    jwt.secret(),
                    now,
                ),
    {
        AuthenticatedUser::from_request_at(jwt, header, unix_now())
    }
}

} // verus!
