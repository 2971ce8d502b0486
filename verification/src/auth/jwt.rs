//! Session tokens: claims signed with the service's secret, valid for 24
//! hours from their issuance.

use crate::clock::{unix_now, SESSION_LIFETIME};
use crate::view::{option_view, result_view};
use vstd::prelude::*;

verus! {

/// What a session token states: who it was issued to, when, and until when.
/// Times are seconds since the Unix epoch.
#[derive(Debug, PartialEq, Eq)]
pub struct Claims {
    /// The user's id.
    pub sub: String,
    /// The first second at which the token is no longer valid.
    pub exp: u64,
    /// The second at which the token was issued.
    pub iat: u64,
}

/// What a `Claims` holds, as the contracts read it.
pub struct ClaimsView {
    pub sub: Seq<char>,
    pub exp: u64,
    pub iat: u64,
}

impl View for Claims {
    type V = ClaimsView;

    open spec fn view(&self) -> ClaimsView {
        ClaimsView { sub: self.sub@, exp: self.exp, iat: self.iat }
    }
}

/// What the payload of a token with a good signature holds under the names
/// `sub`, `exp` and `iat`: `None` where the member is missing or of another
/// type than a string, for `sub`, or a number that fits `u64`, for the others.
#[derive(Debug, PartialEq, Eq)]
pub struct DecodedClaims {
    pub sub: Option<String>,
    pub exp: Option<u64>,
    pub iat: Option<u64>,
}

/// What a `DecodedClaims` holds, as the contracts read it.
pub struct DecodedClaimsView {
    pub sub: Option<Seq<char>>,
    pub exp: Option<u64>,
    pub iat: Option<u64>,
}

impl View for DecodedClaims {
    type V = DecodedClaimsView;

    open spec fn view(&self) -> DecodedClaimsView {
        DecodedClaimsView { sub: option_view(self.sub), exp: self.exp, iat: self.iat }
    }
}

/// Why a token was rejected.
#[derive(Clone, Copy, Debug, PartialEq, Eq, Structural)]
pub enum TokenError {
    /// The signature does not belong to the token under this secret.
    InvalidSignature,
    /// The token's 24 hours are over.
    Expired,
    /// The token is not a token of this service: not three parts, another
    /// algorithm, a payload that is no JSON or lacks a claim.
    Malformed,
}

/// Signing failed.
#[derive(Clone, Copy, Debug, PartialEq, Eq, Structural)]
pub struct SigningError;

/// Declares `jsonwebtoken::errors::Error`, which is carried and never read.
#[verifier::external_type_specification]
#[verifier::external_body]
pub struct ExJwtError(jsonwebtoken::errors::Error);

/// What `jsonwebtoken::encode` returns for these claims under this secret,
/// with the default header (HS256): the token, or `None` where it reports an
/// error.
pub uninterp spec fn signed_token(sub: Seq<char>, exp: u64, iat: u64, secret: Seq<char>) -> Option<
    Seq<char>,
>;

/// What `jsonwebtoken::decode` returns for this token under this secret, with
/// the default validation (HS256) but without its test of `exp` against the
/// system clock: the three claims, or the reason for the rejection.
pub uninterp spec fn decoded_token(token: Seq<char>, secret: Seq<char>) -> Result<
    DecodedClaimsView,
    TokenError,
>;

/// The payload that holds exactly these claims.
pub open spec fn payload_of(claims: ClaimsView) -> DecodedClaimsView {
    DecodedClaimsView { sub: Some(claims.sub), exp: Some(claims.exp), iat: Some(claims.iat) }
}

/// Calls `jsonwebtoken::encode` with the default header, a JSON object of the
/// three claims and the secret's bytes as HMAC key.
///
/// Trusted: the outcome is a function of the claims and the secret alone
/// (HMAC-SHA256 over the serialised header and payload), and a token that
/// comes back decodes, under the same secret, to the claims it was made from:
/// `decode` signs the message again with the key and compares, and reads the
/// JSON that `encode` wrote.
#[verifier::external_body]
fn sign_claims(sub: &str, exp: u64, iat: u64, secret: &str) -> (signed: Result<
    String,
    jsonwebtoken::errors::Error,
>)
    ensures
        match signed {
            Ok(token) => {
                &&& signed_token(sub@, exp, iat, secret@) == Some(token@)
                &&& decoded_token(token@, secret@) == Ok::<DecodedClaimsView, TokenError>(
                    payload_of(ClaimsView { sub: sub@, exp, iat }),
                )
            },
            Err(_) => signed_token(sub@, exp, iat, secret@) is None,
        },
{
    let mut payload = serde_json::Map::new();
    payload.insert("sub".to_owned(), serde_json::Value::from(sub));
    payload.insert("exp".to_owned(), serde_json::Value::from(exp));
    payload.insert("iat".to_owned(), serde_json::Value::from(iat));
    let key = jsonwebtoken::EncodingKey::from_secret(secret.as_bytes());
    jsonwebtoken::encode(&jsonwebtoken::Header::default(), &payload, &key)
}

/// Calls `jsonwebtoken::decode` with the secret's bytes as HMAC key and the
/// default validation, in which the test of `exp` against the system clock is
/// switched off: expiry is decided by this library, against the time it is
/// given.
///
/// Trusted: the outcome is a function of the token and the secret alone. A
/// signature that does not match is reported as `InvalidSignature`, every
/// other rejection as `Malformed`. Of an accepted payload the three members
/// are handed out as `serde_json` reads them.
#[verifier::external_body]
fn decode_signed(token: &str, secret: &str) -> (decoded: Result<DecodedClaims, TokenError>)
    ensures
        result_view(decoded) == decoded_token(token@, secret@),
{
    let mut checks = jsonwebtoken::Validation::default();
    checks.validate_exp = false;
    let key = jsonwebtoken::DecodingKey::from_secret(secret.as_bytes());
    match jsonwebtoken::decode::<serde_json::Value>(token, &key, &checks) {
        Ok(data) => Ok(DecodedClaims {
            sub: data.claims["sub"].as_str().map(str::to_owned),
            exp: data.claims["exp"].as_u64(),
            iat: data.claims["iat"].as_u64(),
        }),
        Err(error) => match error.kind() {
            jsonwebtoken::errors::ErrorKind::InvalidSignature => Err(TokenError::InvalidSignature),
            _ => Err(TokenError::Malformed),
        },
    }
}

/// The claims of a token issued to `sub` at `now`.
pub open spec fn issued_claims(sub: Seq<char>, now: u64) -> ClaimsView {
    ClaimsView { sub, exp: (now + SESSION_LIFETIME) as u64, iat: now }
}

/// What verification makes of a decoded token at `now`. A rejection by the
/// signature check stands. A payload that lacks one of the three claims is
/// malformed. Claims are valid while `exp > now`, and expired from `exp` on.
pub open spec fn token_outcome(decoded: Result<DecodedClaimsView, TokenError>, now: u64) -> Result<
    ClaimsView,
    TokenError,
> {
    match decoded {
        Err(error) => Err(error),
        Ok(payload) => match (payload.sub, payload.exp, payload.iat) {
            (Some(sub), Some(exp), Some(iat)) => if exp > now {
                Ok(ClaimsView { sub, exp, iat })
            } else {
                Err(TokenError::Expired)
            },
            _ => Err(TokenError::Malformed),
        },
    }
}

/// What verifying `token` under `secret` at `now` gives.
pub open spec fn verify_outcome(token: Seq<char>, secret: Seq<char>, now: u64) -> Result<
    ClaimsView,
    TokenError,
> {
    token_outcome(decoded_token(token, secret), now)
}

/// What issuing a token to `sub` at `now` under `secret` gives.
pub open spec fn issue_outcome(sub: Seq<char>, now: u64, secret: Seq<char>) -> Result<
    Seq<char>,
    SigningError,
> {
    let claims = issued_claims(sub, now);
    match signed_token(claims.sub, claims.exp, claims.iat, secret) {
        Some(token) => Ok(token),
        None => Err(SigningError),
    }
}

/// Claims issued at `iat` are accepted, unchanged, at every second before
/// `iat` plus 24 hours, and rejected as expired at every second from then on.
pub proof fn lemma_issued_claims_valid_for_a_day(sub: Seq<char>, iat: u64, at: u64)
    requires
        iat + SESSION_LIFETIME <= u64::MAX,
    ensures
        at < iat + SESSION_LIFETIME ==> token_outcome(Ok(payload_of(issued_claims(sub, iat))), at)
            == Ok::<ClaimsView, TokenError>(issued_claims(sub, iat)),
        at >= iat + SESSION_LIFETIME ==> token_outcome(Ok(payload_of(issued_claims(sub, iat))), at)
            == Err::<ClaimsView, TokenError>(TokenError::Expired),
{
}

impl Claims {
    /// The claims of a token issued to `user_id` at `now`: valid for 24 hours.
    pub fn issued_at(user_id: String, now: u64) -> (claims: Claims)
        requires
            now + SESSION_LIFETIME <= u64::MAX,
        ensures
            claims@ == issued_claims(user_id@, now),
    {
        Claims { sub: user_id, exp: now + SESSION_LIFETIME, iat: now }
    }

    /// The claims of a token issued to `user_id` at the present second.
    pub fn new(user_id: String) -> (claims: Claims)
        ensures
            claims@ == issued_claims(user_id@, claims.iat),
            claims.exp == claims.iat + SESSION_LIFETIME,
            claims.iat <= i64::MAX,
    {
        Claims::issued_at(user_id, unix_now())
    }

    /// Decides on a decoded token at `now`: structure first, then expiry.
    pub fn from_decoded(decoded: Result<DecodedClaims, TokenError>, now: u64) -> (verified: Result<
        Claims,
        TokenError,
    >)
        ensures
            result_view(verified) == token_outcome(result_view(decoded), now),
    {
        match decoded {
            Err(error) => Err(error),
            Ok(payload) => match (payload.sub, payload.exp, payload.iat) {
                (Some(sub), Some(exp), Some(iat)) => if exp > now {
                    Ok(Claims { sub, exp, iat })
                } else {
                    Err(TokenError::Expired)
                },
                _ => Err(TokenError::Malformed),
            },
        }
    }
}

/// Issues and verifies session tokens under one secret, fixed when the
/// service is made.
pub struct JwtService {
    secret: String,
}

impl JwtService {
    /// The secret that this service signs with.
    pub closed spec fn secret(&self) -> Seq<char> {
        self.secret@
    }

    /// The service that signs with `secret`.
    pub fn new(secret: String) -> (service: JwtService)
        ensures
            service.secret() == secret@,
    {
        JwtService { secret }
    }

    /// A token for `user_id`, issued at `now`. Whether signing succeeds and
    /// what it gives is decided by the signer. A token that comes back is
    /// accepted by this service, with `user_id` as its subject, at every
    /// second before `now` plus 24 hours, and is expired from then on.
    pub fn generate_token_at(&self, user_id: String, now: u64) -> (issued: Result<
        String,
        SigningError,
    >)
        requires
            now + SESSION_LIFETIME <= u64::MAX,
        ensures
            result_view(issued) == issue_outcome(user_id@, now, self.secret()),
            issued matches Ok(token) ==> forall|at: u64|
                #[trigger] verify_outcome(token@, self.secret(), at) == if at < now
                    + SESSION_LIFETIME {
                    Ok::<ClaimsView, TokenError>(issued_claims(user_id@, now))
                } else {
                    Err::<ClaimsView, TokenError>(TokenError::Expired)
                },
    {
        let claims = Claims::issued_at(user_id, now);
        match sign_claims(claims.sub.as_str(), claims.exp, claims.iat, self.secret.as_str()) {
            Ok(token) => {
                assert forall|at: u64|
                    #[trigger] verify_outcome(token@, self.secret(), at) == if at < now
                        + SESSION_LIFETIME {
                        Ok::<ClaimsView, TokenError>(issued_claims(user_id@, now))
                    } else {
                        Err::<ClaimsView, TokenError>(TokenError::Expired)
                    } by {
                    lemma_issued_claims_valid_for_a_day(user_id@, now, at);
                }
                Ok(token)
            },
            Err(_) => Err(SigningError),
        }
    }

    /// A token for `user_id`, issued at the present second.
    pub fn generate_token(&self, user_id: String) -> (issued: Result<String, SigningError>)
        ensures
            exists|now: u64|
                {
                    &&& now <= i64::MAX
                    &&& result_view(issued) == #[trigger] issue_outcome(
                        user_id@,
                        now,
                        self.secret(),
                    )
                },
    {
        self.generate_token_at(user_id, unix_now())
    }

    /// Verifies `token` at `now`: the signature first, then the structure of
    /// the payload, then the expiry.
    pub fn verify_token_at(&self, token: &str, now: u64) -> (verified: Result<Claims, TokenError>)
        ensures
            result_view(verified) == verify_outcome(token@, self.secret(), now),
    {
        Claims::from_decoded(decode_signed(token, self.secret.as_str()), now)
    }

    /// Verifies `token` at the present second.
    pub fn verify_token(&self, token: &str) -> (verified: Result<Claims, TokenError>)
        ensures
            exists|now: u64|
                now <= i64::MAX && result_view(verified) == #[trigger] verify_outcome(
                    token@,
                    self.secret(),
                    now,
                ),
    {
        self.verify_token_at(token, unix_now())
    }
}

} // verus!
