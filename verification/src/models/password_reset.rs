//! Password-reset tokens: short-lived, redeemable once.

use crate::clock::RESET_LIFETIME;
use crate::view::{option_view, result_view};
use vstd::prelude::*;

verus! {

/// A reset token as the store holds it. Timestamps are seconds since the Unix
/// epoch.
#[derive(Debug, PartialEq, Eq)]
pub struct PasswordResetToken {
    pub id: String,
    pub user_id: String,
    pub token: String,
    pub expires_at: u64,
    pub used: bool,
    pub created_at: u64,
}

/// What a `PasswordResetToken` holds, as the contracts read it.
pub struct PasswordResetTokenView {
    pub id: Seq<char>,
    pub user_id: Seq<char>,
    pub token: Seq<char>,
    pub expires_at: u64,
    pub used: bool,
    pub created_at: u64,
}

impl View for PasswordResetToken {
    type V = PasswordResetTokenView;

    open spec fn view(&self) -> PasswordResetTokenView {
        PasswordResetTokenView {
            id: self.id@,
            user_id: self.user_id@,
            token: self.token@,
            expires_at: self.expires_at,
            used: self.used,
            created_at: self.created_at,
        }
    }
}

/// A reset token that has not been stored yet: the store adds its id and the
/// time of creation, and starts it unused.
#[derive(Debug, PartialEq, Eq)]
pub struct NewResetToken {
    pub user_id: String,
    pub token: String,
    pub expires_at: u64,
}

/// What a `NewResetToken` holds, as the contracts read it.
pub struct NewResetTokenView {
    pub user_id: Seq<char>,
    pub token: Seq<char>,
    pub expires_at: u64,
}

impl View for NewResetToken {
    type V = NewResetTokenView;

    open spec fn view(&self) -> NewResetTokenView {
        NewResetTokenView {
            user_id: self.user_id@,
            token: self.token@,
            expires_at: self.expires_at,
        }
    }
}

/// The body of a forgot-password request.
#[derive(Debug, PartialEq, Eq)]
pub struct RequestPasswordReset {
    pub email: String,
}

/// The body of a reset-password request.
#[derive(Debug, PartialEq, Eq)]
pub struct ResetPassword {
    pub token: String,
    pub new_password: String,
}

/// Why a reset token cannot be redeemed.
#[derive(Clone, Copy, Debug, PartialEq, Eq, Structural)]
pub enum ResetError {
    /// The store holds no such token.
    NotFound,
    /// The token's hour is over.
    Expired,
    /// The token was redeemed before.
    AlreadyUsed,
}

impl PasswordResetTokenView {
    /// The same token after it was redeemed.
    pub open spec fn marked_used(self) -> PasswordResetTokenView {
        PasswordResetTokenView { used: true, ..self }
    }

    /// Whether the token can be redeemed at `now`: it is live while
    /// `expires_at > now`, and must not have been used.
    pub open spec fn redeemable(self, now: u64) -> bool {
        self.expires_at > now && !self.used
    }
}

/// Whether a looked-up token may be redeemed at `now`. Expiry is tested
/// before use, so a token that is both expired and used reports `Expired`.
/// A token is live only while `expires_at > now`.
pub open spec fn redeem_outcome(found: Option<PasswordResetTokenView>, now: u64) -> Result<
    PasswordResetTokenView,
    ResetError,
> {
    match found {
        None => Err(ResetError::NotFound),
        Some(token) => if token.expires_at <= now {
            Err(ResetError::Expired)
        } else if token.used {
            Err(ResetError::AlreadyUsed)
        } else {
            Ok(token)
        },
    }
}

/// A token that was marked used is never redeemed again, at whatever time:
/// it reports `Expired` from its expiry on and `AlreadyUsed` before. Marking
/// it once more changes nothing.
pub proof fn lemma_marked_token_is_spent(token: PasswordResetTokenView, now: u64)
    ensures
        redeem_outcome(Some(token.marked_used()), now) == Err::<PasswordResetTokenView, ResetError>(
            if token.expires_at <= now {
                ResetError::Expired
            } else {
                ResetError::AlreadyUsed
            },
        ),
        token.marked_used().marked_used() == token.marked_used(),
{
}

/// A token is redeemed only before its expiry, and redeeming hands back the
/// token that was looked up, unchanged.
pub proof fn lemma_redeemed_token_is_live(found: Option<PasswordResetTokenView>, now: u64)
    ensures
        redeem_outcome(found, now) matches Ok(token) ==> found == Some(token) && token.expires_at
            > now && !token.used,
{
}

/// Calls `uuid::Uuid::new_v4` and writes the result with `to_string`.
///
/// Trusted: the text has 36 characters, the length of the hyphenated form
/// that `Display` writes. The value is random, so nothing else is said.
/// `new_v4` panics where the system has no random bytes to give.
#[verifier::external_body]
fn random_uuid_text() -> (text: String)
    ensures
        text@.len() == 36,
{
    uuid::Uuid::new_v4().to_string()
}

impl NewResetToken {
    /// A reset token for `user_id` with the given token text, live for one
    /// hour from `now`.
    pub fn with_token(user_id: String, token: String, now: u64) -> (fresh: NewResetToken)
        requires
            now + RESET_LIFETIME <= u64::MAX,
        ensures
            fresh@ == (NewResetTokenView {
                user_id: user_id@,
                token: token@,
                expires_at: (now + RESET_LIFETIME) as u64,
            }),
    {
        NewResetToken { user_id, token, expires_at: now + RESET_LIFETIME }
    }

    /// Random text for a token: a version-4 UUID in its hyphenated form.
    pub fn random_text() -> (text: String)
        ensures
            text@.len() == 36,
    {
        random_uuid_text()
    }

    /// A reset token for `user_id` with random token text, live for one hour
    /// from `now`.
    pub fn create(user_id: String, now: u64) -> (fresh: NewResetToken)
        requires
            now + RESET_LIFETIME <= u64::MAX,
        ensures
            exists|text: Seq<char>|
                text.len() == 36 && fresh@ == (NewResetTokenView {
                    user_id: user_id@,
                    token: text,
                    expires_at: (now + RESET_LIFETIME) as u64,
                }),
    {
        NewResetToken::with_token(user_id, NewResetToken::random_text(), now)
    }
}

impl PasswordResetToken {
    /// Whether this token can be redeemed at `now`.
    pub fn redeemable(&self, now: u64) -> (yes: bool)
        ensures
            yes == self@.redeemable(now),
            yes == (redeem_outcome(Some(self@), now) is Ok),
    {
        self.expires_at > now && !self.used
    }

    /// Validates a looked-up token for redemption at `now`. It does not
    /// consume the token: marking it used is a separate step.
    pub fn redeem(found: Option<PasswordResetToken>, now: u64) -> (outcome: Result<
        PasswordResetToken,
        ResetError,
    >)
        ensures
            result_view(outcome) == redeem_outcome(option_view(found), now),
    {
        match found {
            None => Err(ResetError::NotFound),
            Some(token) => if token.expires_at <= now {
                Err(ResetError::Expired)
            } else if token.used {
                Err(ResetError::AlreadyUsed)
            } else {
                Ok(token)
            },
        }
    }

    /// The token with its `used` flag set. Doing it twice changes nothing.
    pub fn mark_used(self) -> (marked: PasswordResetToken)
        ensures
            marked@ == self@.marked_used(),
    {
        PasswordResetToken { used: true, ..self }
    }
}

} // verus!
