//! The authentication flows, each as a step function.
//!
//! A flow starts in its `Init` state, where any reply is ignored. Every call
//! returns the next state and a `Step`: a request for the store, whose reply
//! goes into the next call, or the outcome, after which the flow is `Done`.
//! A reply that does not answer the request of the state it arrives in counts
//! as a failure of the store.
//!
//! Time is an argument, in seconds since the Unix epoch. Hashes and reset
//! tokens are drawn at random inside the flows; beside each such flow stands
//! the same step with the random value handed in.

use crate::auth::guard::AuthenticatedUser;
use crate::auth::jwt::{issue_outcome, JwtService, SigningError};
use crate::clock::{RESET_LIFETIME, SESSION_LIFETIME};
use crate::errors::{AuthError, ValidationError};
use crate::models::password_reset::{
    redeem_outcome,
    NewResetToken,
    NewResetTokenView,
    PasswordResetToken,
    RequestPasswordReset,
    ResetError,
    ResetPassword,
};
use crate::models::user::{
    check_email,
    check_password,
    default_cost_hash,
    hash_accepts,
    valid_email,
    valid_password,
    verdict_of,
    HashingError,
    LoginUser,
    NewUser,
    PublicUser,
    PublicUserView,
    User,
    UserView,
};
use crate::store::{Step, StepView, StoreReply, StoreReplyView, StoreRequest, StoreRequestView};
use crate::view::{option_view, result_view};
use vstd::prelude::*;

verus! {

/// What hashing `password` may have given: `None` where it failed, else a
/// hash at the fixed cost that the hasher accepts for that password.
pub open spec fn hash_made_for(password: Seq<char>, hashed: Option<Seq<char>>) -> bool {
    hashed matches Some(hash) ==> hash_accepts(password, hash) == Some(true) && default_cost_hash(
        hash,
    )
}

/// Hashes `password` for a flow: the hash that `User::hash_password` made, or
/// `None` where it failed. Whether it fails is the hasher's to decide.
fn hash_of(password: &str) -> (hashed: Option<String>)
    ensures
        hash_made_for(password@, option_view(hashed)),
{
    match User::hash_password(password) {
        Ok(hash) => Some(hash),
        Err(_) => None,
    }
}

// ---------------------------------------------------------------- register

/// Where a registration stands.
#[derive(Clone, Copy, Debug, PartialEq, Eq, Structural)]
pub enum RegisterState {
    Init,
    AfterEmailLookup,
    AfterInsert,
    Done,
}

/// One step of the registration flow. `hashed` is what hashing the password
/// gave; it is read only in the step that follows the email lookup.
///
/// The email is checked first, then the password's length, before anything is
/// looked up. An email that is found is a conflict. Only then is the password
/// hashed and the user inserted. An insert that hits the uniqueness
/// constraint, because another registration won the race, is a conflict too.
/// The outcome shows the user's public fields, never the hash.
pub open spec fn register_step(
    state: RegisterState,
    email: Seq<char>,
    password: Seq<char>,
    reply: Option<StoreReplyView>,
    hashed: Option<Seq<char>>,
) -> (RegisterState, StepView<PublicUserView>) {
    match state {
        RegisterState::Init => if !valid_email(email) {
            (
                RegisterState::Done,
                StepView::fail(AuthError::Validation(ValidationError::InvalidEmail)),
            )
        } else if !valid_password(password) {
            (
                RegisterState::Done,
                StepView::fail(AuthError::Validation(ValidationError::PasswordTooShort)),
            )
        } else {
            (
                RegisterState::AfterEmailLookup,
                StepView::ask(StoreRequestView::FindUserByEmail { email }),
            )
        },
        RegisterState::AfterEmailLookup => match reply {
            Some(StoreReplyView::User { found: Some(_) }) => (
                RegisterState::Done,
                StepView::fail(AuthError::Conflict),
            ),
            Some(StoreReplyView::User { found: None }) => match hashed {
                None => (RegisterState::Done, StepView::fail(AuthError::Hashing)),
                Some(password_hash) => (
                    RegisterState::AfterInsert,
                    StepView::ask(StoreRequestView::InsertUser { email, password_hash }),
                ),
            },
            _ => (RegisterState::Done, StepView::fail(AuthError::Persistence)),
        },
        RegisterState::AfterInsert => match reply {
            Some(StoreReplyView::UserInserted { user }) => (
                RegisterState::Done,
                StepView::done(user.public()),
            ),
            Some(StoreReplyView::Duplicate) => (
                RegisterState::Done,
                StepView::fail(AuthError::Conflict),
            ),
            _ => (RegisterState::Done, StepView::fail(AuthError::Persistence)),
        },
        RegisterState::Done => (RegisterState::Done, StepView::fail(AuthError::Persistence)),
    }
}

/// Whether this step of the registration flow reads the password's hash.
pub open spec fn register_hashes(state: RegisterState, reply: Option<StoreReplyView>) -> bool {
    state == RegisterState::AfterEmailLookup && reply == Some(
        StoreReplyView::User { found: None },
    )
}

fn register_needs_hash(state: RegisterState, reply: &Option<StoreReply>) -> (needed: bool)
    ensures
        needed == register_hashes(state, option_view(*reply)),
{
    match (state, reply) {
        (RegisterState::AfterEmailLookup, Some(StoreReply::User { found: None })) => true,
        _ => false,
    }
}

/// One step of the registration flow, with the outcome of hashing the
/// password handed in (`None`: hashing failed, or was not needed).
pub fn register_with_hash(
    state: RegisterState,
    new_user: &NewUser,
    reply: Option<StoreReply>,
    hashed: Option<String>,
) -> (next: (RegisterState, Step<PublicUser>))
    ensures
        (next.0, next.1@) == register_step(
            state,
            new_user.email@,
            new_user.password@,
            option_view(reply),
            option_view(hashed),
        ),
{
    match state {
        RegisterState::Init => if !check_email(new_user.email.as_str()) {
            (RegisterState::Done, Step::fail(AuthError::Validation(ValidationError::InvalidEmail)))
        } else if !check_password(new_user.password.as_str()) {
            (
                RegisterState::Done,
                Step::fail(AuthError::Validation(ValidationError::PasswordTooShort)),
            )
        } else {
            (
                RegisterState::AfterEmailLookup,
                Step::ask(StoreRequest::FindUserByEmail { email: new_user.email.clone() }),
            )
        },
        RegisterState::AfterEmailLookup => match reply {
            Some(StoreReply::User { found: Some(_) }) => (
                RegisterState::Done,
                Step::fail(AuthError::Conflict),
            ),
            Some(StoreReply::User { found: None }) => match hashed {
                None => (RegisterState::Done, Step::fail(AuthError::Hashing)),
                Some(password_hash) => (
                    RegisterState::AfterInsert,
                    Step::ask(
                        StoreRequest::InsertUser { email: new_user.email.clone(), password_hash },
                    ),
                ),
            },
            _ => (RegisterState::Done, Step::fail(AuthError::Persistence)),
        },
        RegisterState::AfterInsert => match reply {
            Some(StoreReply::UserInserted { user }) => (
                RegisterState::Done,
                Step::done(user.public()),
            ),
            Some(StoreReply::Duplicate) => (RegisterState::Done, Step::fail(AuthError::Conflict)),
            _ => (RegisterState::Done, Step::fail(AuthError::Persistence)),
        },
        RegisterState::Done => (RegisterState::Done, Step::fail(AuthError::Persistence)),
    }
}

/// One step of the registration flow. It hashes the password itself, after
/// the lookup has shown the email to be free and not before. The hash carries
/// a random salt, so the step is fixed up to that hash.
pub fn register(state: RegisterState, new_user: &NewUser, reply: Option<StoreReply>) -> (next: (
    RegisterState,
    Step<PublicUser>,
))
    ensures
        exists|hashed: Option<Seq<char>>|
            {
                &&& hash_made_for(new_user.password@, hashed)
                &&& (next.0, next.1@) == #[trigger] register_step(
                    state,
                    new_user.email@,
                    new_user.password@,
                    option_view(reply),
                    hashed,
                )
            },
{
    let hashed = if register_needs_hash(state, &reply) {
        hash_of(new_user.password.as_str())
    } else {
        None
    };
    register_with_hash(state, new_user, reply, hashed)
}

// ------------------------------------------------------------------- login

/// What a successful login hands out.
#[derive(Debug, PartialEq, Eq)]
pub struct LoggedIn {
    /// The session token.
    pub token: String,
    pub user: PublicUser,
}

/// What a `LoggedIn` holds, as the contracts read it.
pub struct LoggedInView {
    pub token: Seq<char>,
    pub user: PublicUserView,
}

impl View for LoggedIn {
    type V = LoggedInView;

    open spec fn view(&self) -> LoggedInView {
        LoggedInView { token: self.token@, user: self.user@ }
    }
}

/// Where a login stands.
#[derive(Clone, Copy, Debug, PartialEq, Eq, Structural)]
pub enum LoginState {
    Init,
    AfterUserLookup,
    Done,
}

/// What the password check lets through: a mismatch is the same
/// `InvalidCredentials` that an unknown email gives.
pub open spec fn password_verdict(checked: Result<bool, HashingError>) -> Result<(), AuthError> {
    match checked {
        Err(_) => Err(AuthError::Verification),
        Ok(false) => Err(AuthError::InvalidCredentials),
        Ok(true) => Ok(()),
    }
}

/// What a login with the right password returns, given the outcome of issuing
/// the token.
pub open spec fn session_for(user: UserView, issued: Result<Seq<char>, SigningError>) -> Result<
    LoggedInView,
    AuthError,
> {
    match issued {
        Err(_) => Err(AuthError::Signing),
        Ok(token) => Ok(LoggedInView { token, user: user.public() }),
    }
}

/// What a login at `now` makes of the user found under its email: the
/// password is checked against the stored hash, and with the right password a
/// session token is issued to the user's id.
pub open spec fn login_outcome(
    user: UserView,
    password: Seq<char>,
    secret: Seq<char>,
    now: u64,
) -> Result<LoggedInView, AuthError> {
    match password_verdict(verdict_of(hash_accepts(password, user.password_hash))) {
        Err(error) => Err(error),
        Ok(_) => session_for(user, issue_outcome(user.id, now, secret)),
    }
}

/// One step of the login flow at `now`, under the signing secret.
///
/// The user is looked up by email. No such user and a wrong password end in
/// the same `InvalidCredentials`.
pub open spec fn login_step(
    state: LoginState,
    email: Seq<char>,
    password: Seq<char>,
    reply: Option<StoreReplyView>,
    secret: Seq<char>,
    now: u64,
) -> (LoginState, StepView<LoggedInView>) {
    match state {
        LoginState::Init => (
            LoginState::AfterUserLookup,
            StepView::ask(StoreRequestView::FindUserByEmail { email }),
        ),
        LoginState::AfterUserLookup => match reply {
            Some(StoreReplyView::User { found: None }) => (
                LoginState::Done,
                StepView::fail(AuthError::InvalidCredentials),
            ),
            Some(StoreReplyView::User { found: Some(user) }) => (
                LoginState::Done,
                StepView::Finish { outcome: login_outcome(user, password, secret, now) },
            ),
            _ => (LoginState::Done, StepView::fail(AuthError::Persistence)),
        },
        LoginState::Done => (LoginState::Done, StepView::fail(AuthError::Persistence)),
    }
}

/// Turns the hasher's verdict on a password into the flow's.
pub fn check_verdict(checked: Result<bool, HashingError>) -> (verdict: Result<(), AuthError>)
    ensures
        verdict == password_verdict(checked),
{
    match checked {
        Err(_) => Err(AuthError::Verification),
        Ok(false) => Err(AuthError::InvalidCredentials),
        Ok(true) => Ok(()),
    }
}

/// The outcome of a login whose password was right, given the outcome of
/// issuing the token.
pub fn open_session(user: &User, issued: Result<String, SigningError>) -> (outcome: Result<
    LoggedIn,
    AuthError,
>)
    ensures
        result_view(outcome) == session_for(user@, result_view(issued)),
{
    match issued {
        Err(_) => Err(AuthError::Signing),
        Ok(token) => Ok(LoggedIn { token, user: user.public() }),
    }
}

/// One step of the login flow at `now`.
pub fn login(
    state: LoginState,
    credentials: &LoginUser,
    reply: Option<StoreReply>,
    jwt: &JwtService,
    now: u64,
) -> (next: (LoginState, Step<LoggedIn>))
    requires
        now + SESSION_LIFETIME <= u64::MAX,
    ensures
        (next.0, next.1@) == login_step(
            state,
            credentials.email@,
            credentials.password@,
            option_view(reply),
            jwt.secret(),
            now,
        ),
{
    match state {
        LoginState::Init => (
            LoginState::AfterUserLookup,
            Step::ask(StoreRequest::FindUserByEmail { email: credentials.email.clone() }),
        ),
        LoginState::AfterUserLookup => match reply {
            Some(StoreReply::User { found: None }) => (
                LoginState::Done,
                Step::fail(AuthError::InvalidCredentials),
            ),
            Some(StoreReply::User { found: Some(user) }) => {
                let checked = User::verify_password(
                    credentials.password.as_str(),
                    user.password_hash.as_str(),
                );
                let outcome = match check_verdict(checked) {
                    Err(error) => Err(error),
                    Ok(_) => open_session(&user, jwt.generate_token_at(user.id.clone(), now)),
                };
                (LoginState::Done, Step::finish(outcome))
            },
            _ => (LoginState::Done, Step::fail(AuthError::Persistence)),
        },
        LoginState::Done => (LoginState::Done, Step::fail(AuthError::Persistence)),
    }
}

// --------------------------------------------------------- forgot password

/// What a forgot-password request is answered with.
#[derive(Debug, PartialEq, Eq)]
pub struct ResetRequested {
    /// Always the same text, whether or not the email is known.
    pub message: String,
    /// The reset token. It is handed out only where the caller asked for it,
    /// a user was found and the token was stored: an aid for development, in
    /// place of the email that would carry the token.
    pub token: Option<String>,
}

/// What a `ResetRequested` holds, as the contracts read it.
pub struct ResetRequestedView {
    pub message: Seq<char>,
    pub token: Option<Seq<char>>,
}

impl View for ResetRequested {
    type V = ResetRequestedView;

    open spec fn view(&self) -> ResetRequestedView {
        ResetRequestedView { message: self.message@, token: option_view(self.token) }
    }
}

/// Where a forgot-password flow stands.
#[derive(Debug, PartialEq, Eq)]
pub enum ForgotPasswordState {
    Init,
    AfterUserLookup,
    /// The text of the token that was sent to the store.
    AfterTokenInsert { token: String },
    Done,
}

/// What a `ForgotPasswordState` holds, as the contracts read it.
pub enum ForgotPasswordStateView {
    Init,
    AfterUserLookup,
    AfterTokenInsert { token: Seq<char> },
    Done,
}

impl View for ForgotPasswordState {
    type V = ForgotPasswordStateView;

    open spec fn view(&self) -> ForgotPasswordStateView {
        match *self {
            ForgotPasswordState::Init => ForgotPasswordStateView::Init,
            ForgotPasswordState::AfterUserLookup => ForgotPasswordStateView::AfterUserLookup,
            ForgotPasswordState::AfterTokenInsert { token } =>
                ForgotPasswordStateView::AfterTokenInsert { token: token@ },
            ForgotPasswordState::Done => ForgotPasswordStateView::Done,
        }
    }
}

/// The one message that answers every forgot-password request.
pub open spec fn reset_requested_message() -> Seq<char> {
    "If the email exists, a password reset token has been sent."@
}

/// The answer to a forgot-password request, with or without a token.
pub open spec fn reset_requested(token: Option<Seq<char>>) -> StepView<ResetRequestedView> {
    StepView::done(ResetRequestedView { message: reset_requested_message(), token })
}

/// One step of the forgot-password flow at `now`. `fresh` is the random text
/// for a new token; it is read only in the step that follows the lookup.
///
/// Where the user is found a reset token is stored for them, live for one
/// hour. Whatever happens, the flow ends in success with the same message:
/// an unknown email, a failed lookup and a failed insert cannot be told from
/// a stored token, except by the token itself where `expose_token` asks for
/// it.
pub open spec fn forgot_password_step(
    state: ForgotPasswordStateView,
    email: Seq<char>,
    reply: Option<StoreReplyView>,
    now: u64,
    expose_token: bool,
    fresh: Seq<char>,
) -> (ForgotPasswordStateView, StepView<ResetRequestedView>) {
    match state {
        ForgotPasswordStateView::Init => (
            ForgotPasswordStateView::AfterUserLookup,
            StepView::ask(StoreRequestView::FindUserByEmail { email }),
        ),
        ForgotPasswordStateView::AfterUserLookup => match reply {
            Some(StoreReplyView::User { found: Some(user) }) => (
                ForgotPasswordStateView::AfterTokenInsert { token: fresh },
                StepView::ask(
                    StoreRequestView::InsertResetToken {
                        fresh: NewResetTokenView {
                            user_id: user.id,
                            token: fresh,
                            expires_at: (now + RESET_LIFETIME) as u64,
                        },
                    },
                ),
            ),
            _ => (ForgotPasswordStateView::Done, reset_requested(None)),
        },
        ForgotPasswordStateView::AfterTokenInsert { token } => match reply {
            Some(StoreReplyView::Done) if expose_token => (
                ForgotPasswordStateView::Done,
                reset_requested(Some(token)),
            ),
            _ => (ForgotPasswordStateView::Done, reset_requested(None)),
        },
        ForgotPasswordStateView::Done => (ForgotPasswordStateView::Done, reset_requested(None)),
    }
}

/// Whether this step of the forgot-password flow makes a new token.
pub open spec fn forgot_password_issues(
    state: ForgotPasswordStateView,
    reply: Option<StoreReplyView>,
) -> bool {
    &&& state == ForgotPasswordStateView::AfterUserLookup
    &&& reply matches Some(StoreReplyView::User { found: Some(_) })
}

fn forgot_password_needs_token(state: &ForgotPasswordState, reply: &Option<StoreReply>) -> (needed:
    bool)
    ensures
        needed == forgot_password_issues(state@, option_view(*reply)),
{
    match (state, reply) {
        (ForgotPasswordState::AfterUserLookup, Some(StoreReply::User { found: Some(_) })) => true,
        _ => false,
    }
}

fn answer_reset_request(token: Option<String>) -> (step: Step<ResetRequested>)
    ensures
        step@ == reset_requested(option_view(token)),
{
    let message = "If the email exists, a password reset token has been sent.".to_owned();
    Step::done(ResetRequested { message, token })
}

/// One step of the forgot-password flow at `now`, with the text for a new
/// token handed in.
pub fn forgot_password_with_token(
    state: ForgotPasswordState,
    request: &RequestPasswordReset,
    reply: Option<StoreReply>,
    now: u64,
    expose_token: bool,
    fresh: String,
) -> (next: (ForgotPasswordState, Step<ResetRequested>))
    requires
        now + RESET_LIFETIME <= u64::MAX,
    ensures
        (next.0@, next.1@) == forgot_password_step(
            state@,
            request.email@,
            option_view(reply),
            now,
            expose_token,
            fresh@,
        ),
{
    match state {
        ForgotPasswordState::Init => (
            ForgotPasswordState::AfterUserLookup,
            Step::ask(StoreRequest::FindUserByEmail { email: request.email.clone() }),
        ),
        ForgotPasswordState::AfterUserLookup => match reply {
            Some(StoreReply::User { found: Some(user) }) => {
                let token = fresh.clone();
                let fresh = NewResetToken::with_token(user.id, fresh, now);
                (
                    ForgotPasswordState::AfterTokenInsert { token },
                    Step::ask(StoreRequest::InsertResetToken { fresh }),
                )
            },
            _ => (ForgotPasswordState::Done, answer_reset_request(None)),
        },
        ForgotPasswordState::AfterTokenInsert { token } => match reply {
            Some(StoreReply::Done) if expose_token => (
                ForgotPasswordState::Done,
                answer_reset_request(Some(token)),
            ),
            _ => (ForgotPasswordState::Done, answer_reset_request(None)),
        },
        ForgotPasswordState::Done => (ForgotPasswordState::Done, answer_reset_request(None)),
    }
}

/// One step of the forgot-password flow at `now`. It draws the random token
/// itself, in the step that follows the lookup and only where a user was
/// found, so the step is fixed up to that token. Where the flow ends, it ends
/// in success with the one message.
pub fn forgot_password(
    state: ForgotPasswordState,
    request: &RequestPasswordReset,
    reply: Option<StoreReply>,
    now: u64,
    expose_token: bool,
) -> (next: (ForgotPasswordState, Step<ResetRequested>))
    requires
        now + RESET_LIFETIME <= u64::MAX,
    ensures
        exists|fresh: Seq<char>|
            {
                &&& forgot_password_issues(state@, option_view(reply)) ==> fresh.len() == 36
                &&& (next.0@, next.1@) == #[trigger] forgot_password_step(
                    state@,
                    request.email@,
                    option_view(reply),
                    now,
                    expose_token,
                    fresh,
                )
            },
        next.1 matches Step::Finish { outcome } ==> outcome matches Ok(answer) && answer.message@
            == reset_requested_message(),
{
    let fresh = if forgot_password_needs_token(&state, &reply) {
        NewResetToken::random_text()
    } else {
        String::new()
    };
    forgot_password_with_token(state, request, reply, now, expose_token, fresh)
}

// ---------------------------------------------------------- reset password

/// What a successful password reset reports.
#[derive(Clone, Copy, Debug, PartialEq, Eq, Structural)]
pub struct PasswordReset {
    /// Whether the token was marked used. The password is updated either way:
    /// where this is `false` the token can be redeemed again until it expires.
    pub token_consumed: bool,
}

impl View for PasswordReset {
    type V = PasswordReset;

    open spec fn view(&self) -> PasswordReset {
        *self
    }
}

/// Where a reset-password flow stands.
#[derive(Clone, Copy, Debug, PartialEq, Eq, Structural)]
pub enum ResetPasswordState {
    Init,
    AfterTokenLookup,
    AfterPasswordUpdate,
    AfterMarkUsed,
    Done,
}

/// The flow's error for a token that cannot be redeemed: an unknown and an
/// expired token are not told apart, a used one is.
pub open spec fn redeem_error(error: ResetError) -> AuthError {
    match error {
        ResetError::AlreadyUsed => AuthError::AlreadyUsedToken,
        ResetError::NotFound | ResetError::Expired => AuthError::InvalidOrExpiredToken,
    }
}

/// One step of the reset-password flow at `now`. `hashed` is what hashing the
/// new password gave; it is read only in the step that redeems the token.
///
/// The password's length is checked before anything is looked up. Then the
/// token is redeemed, the password of the token's user is updated, and only
/// then the token is marked used. A failure to mark it does not fail the
/// reset; the outcome says whether the token was consumed.
pub open spec fn reset_password_step(
    state: ResetPasswordState,
    token: Seq<char>,
    new_password: Seq<char>,
    reply: Option<StoreReplyView>,
    now: u64,
    hashed: Option<Seq<char>>,
) -> (ResetPasswordState, StepView<PasswordReset>) {
    match state {
        ResetPasswordState::Init => if !valid_password(new_password) {
            (
                ResetPasswordState::Done,
                StepView::fail(AuthError::Validation(ValidationError::PasswordTooShort)),
            )
        } else {
            (
                ResetPasswordState::AfterTokenLookup,
                StepView::ask(StoreRequestView::FindResetToken { token }),
            )
        },
        ResetPasswordState::AfterTokenLookup => match reply {
            Some(StoreReplyView::ResetToken { found_token }) => match (
                redeem_outcome(found_token, now),
                hashed,
            ) {
                (Err(error), _) => (ResetPasswordState::Done, StepView::fail(redeem_error(error))),
                (Ok(_), None) => (ResetPasswordState::Done, StepView::fail(AuthError::Hashing)),
                (Ok(redeemed), Some(password_hash)) => (
                    ResetPasswordState::AfterPasswordUpdate,
                    StepView::ask(
                        StoreRequestView::UpdatePassword {
                            user_id: redeemed.user_id,
                            password_hash,
                        },
                    ),
                ),
            },
            _ => (ResetPasswordState::Done, StepView::fail(AuthError::Persistence)),
        },
        ResetPasswordState::AfterPasswordUpdate => match reply {
            Some(StoreReplyView::Done) => (
                ResetPasswordState::AfterMarkUsed,
                StepView::ask(StoreRequestView::MarkResetTokenUsed { token }),
            ),
            _ => (ResetPasswordState::Done, StepView::fail(AuthError::Persistence)),
        },
        ResetPasswordState::AfterMarkUsed => (
            ResetPasswordState::Done,
            StepView::done(PasswordReset { token_consumed: reply == Some(StoreReplyView::Done) }),
        ),
        ResetPasswordState::Done => (
            ResetPasswordState::Done,
            StepView::fail(AuthError::Persistence),
        ),
    }
}

/// Whether this step of the reset-password flow reads the new hash.
pub open spec fn reset_password_hashes(
    state: ResetPasswordState,
    reply: Option<StoreReplyView>,
    now: u64,
) -> bool {
    &&& state == ResetPasswordState::AfterTokenLookup
    &&& reply matches Some(StoreReplyView::ResetToken { found_token })
    &&& redeem_outcome(found_token, now) is Ok
}

fn reset_password_needs_hash(
    state: ResetPasswordState,
    reply: &Option<StoreReply>,
    now: u64,
) -> (needed: bool)
    ensures
        needed == reset_password_hashes(state, option_view(*reply), now),
{
    match (state, reply) {
        (
            ResetPasswordState::AfterTokenLookup,
            Some(StoreReply::ResetToken { found_token: Some(token) }),
        ) => token.redeemable(now),
        _ => false,
    }
}

/// The flow's error for a token that cannot be redeemed.
pub fn redeem_failure(error: ResetError) -> (failure: AuthError)
    ensures
        failure == redeem_error(error),
{
    match error {
        ResetError::AlreadyUsed => AuthError::AlreadyUsedToken,
        ResetError::NotFound | ResetError::Expired => AuthError::InvalidOrExpiredToken,
    }
}

/// One step of the reset-password flow at `now`, with the outcome of hashing
/// the new password handed in (`None`: hashing failed, or was not needed).
pub fn reset_password_with_hash(
    state: ResetPasswordState,
    reset: &ResetPassword,
    reply: Option<StoreReply>,
    now: u64,
    hashed: Option<String>,
) -> (next: (ResetPasswordState, Step<PasswordReset>))
    ensures
        (next.0, next.1@) == reset_password_step(
            state,
            reset.token@,
            reset.new_password@,
            option_view(reply),
            now,
            option_view(hashed),
        ),
{
    match state {
        ResetPasswordState::Init => if !check_password(reset.new_password.as_str()) {
            (
                ResetPasswordState::Done,
                Step::fail(AuthError::Validation(ValidationError::PasswordTooShort)),
            )
        } else {
            (
                ResetPasswordState::AfterTokenLookup,
                Step::ask(StoreRequest::FindResetToken { token: reset.token.clone() }),
            )
        },
        ResetPasswordState::AfterTokenLookup => match reply {
            Some(StoreReply::ResetToken { found_token }) => match (
                PasswordResetToken::redeem(found_token, now),
                hashed,
            ) {
                (Err(error), _) => (ResetPasswordState::Done, Step::fail(redeem_failure(error))),
                (Ok(_), None) => (ResetPasswordState::Done, Step::fail(AuthError::Hashing)),
                (Ok(redeemed), Some(password_hash)) => (
                    ResetPasswordState::AfterPasswordUpdate,
                    Step::ask(
                        StoreRequest::UpdatePassword { user_id: redeemed.user_id, password_hash },
                    ),
                ),
            },
            _ => (ResetPasswordState::Done, Step::fail(AuthError::Persistence)),
        },
        ResetPasswordState::AfterPasswordUpdate => match reply {
            Some(StoreReply::Done) => (
                ResetPasswordState::AfterMarkUsed,
                Step::ask(StoreRequest::MarkResetTokenUsed { token: reset.token.clone() }),
            ),
            _ => (ResetPasswordState::Done, Step::fail(AuthError::Persistence)),
        },
        ResetPasswordState::AfterMarkUsed => {
            let token_consumed = match reply {
                Some(StoreReply::Done) => true,
                _ => false,
            };
            (ResetPasswordState::Done, Step::done(PasswordReset { token_consumed }))
        },
        ResetPasswordState::Done => (ResetPasswordState::Done, Step::fail(AuthError::Persistence)),
    }
}

/// One step of the reset-password flow at `now`. It hashes the new password
/// itself, in the step that redeems the token and only where the token is
/// redeemable. The hash carries a random salt, so the step is fixed up to
/// that hash.
pub fn reset_password(
    state: ResetPasswordState,
    reset: &ResetPassword,
    reply: Option<StoreReply>,
    now: u64,
) -> (next: (ResetPasswordState, Step<PasswordReset>))
    ensures
        exists|hashed: Option<Seq<char>>|
            {
                &&& hash_made_for(reset.new_password@, hashed)
                &&& (next.0, next.1@) == #[trigger] reset_password_step(
                    state,
                    reset.token@,
                    reset.new_password@,
                    option_view(reply),
                    now,
                    hashed,
                )
            },
{
    let hashed = if reset_password_needs_hash(state, &reply, now) {
        hash_of(reset.new_password.as_str())
    } else {
        None
    };
    reset_password_with_hash(state, reset, reply, now, hashed)
}

// ------------------------------------------------------------ current user

/// Where a current-user lookup stands.
#[derive(Clone, Copy, Debug, PartialEq, Eq, Structural)]
pub enum CurrentUserState {
    Init,
    AfterUserLookup,
    Done,
}

/// One step of the current-user flow for an authenticated subject: the user
/// is looked up by the subject's id, and a subject that no longer resolves is
/// `NotFound`.
pub open spec fn current_user_step(
    state: CurrentUserState,
    user_id: Seq<char>,
    reply: Option<StoreReplyView>,
) -> (CurrentUserState, StepView<PublicUserView>) {
    match state {
        CurrentUserState::Init => (
            CurrentUserState::AfterUserLookup,
            StepView::ask(StoreRequestView::FindUserById { id: user_id }),
        ),
        CurrentUserState::AfterUserLookup => match reply {
            Some(StoreReplyView::User { found: Some(user) }) => (
                CurrentUserState::Done,
                StepView::done(user.public()),
            ),
            Some(StoreReplyView::User { found: None }) => (
                CurrentUserState::Done,
                StepView::fail(AuthError::NotFound),
            ),
            _ => (CurrentUserState::Done, StepView::fail(AuthError::Persistence)),
        },
        CurrentUserState::Done => (CurrentUserState::Done, StepView::fail(AuthError::Persistence)),
    }
}

/// One step of the current-user flow, for the identity that the guard let
/// through.
pub fn get_current_user(
    state: CurrentUserState,
    user: &AuthenticatedUser,
    reply: Option<StoreReply>,
) -> (next: (CurrentUserState, Step<PublicUser>))
    ensures
        (next.0, next.1@) == current_user_step(state, user.user_id@, option_view(reply)),
{
    match state {
        CurrentUserState::Init => (
            CurrentUserState::AfterUserLookup,
            Step::ask(StoreRequest::FindUserById { id: user.user_id.clone() }),
        ),
        CurrentUserState::AfterUserLookup => match reply {
            Some(StoreReply::User { found: Some(found) }) => (
                CurrentUserState::Done,
                Step::done(found.public()),
            ),
            Some(StoreReply::User { found: None }) => (
                CurrentUserState::Done,
                Step::fail(AuthError::NotFound),
            ),
            _ => (CurrentUserState::Done, Step::fail(AuthError::Persistence)),
        },
        CurrentUserState::Done => (CurrentUserState::Done, Step::fail(AuthError::Persistence)),
    }
}

} // verus!
