//! An ideal store, the flows run against it, and the laws that hold of them.
//!
//! The store of this model never fails and keeps emails unique. It exists in
//! ghost code only: it says what the flows achieve where the store behind them
//! behaves.

use crate::auth::jwt::issue_outcome;
use crate::clock::RESET_LIFETIME;
use crate::errors::AuthError;
use crate::models::password_reset::PasswordResetTokenView;
use crate::models::user::{hash_accepts, valid_email, valid_password, PublicUserView, UserView};
use crate::routes::auth::{
    current_user_step,
    forgot_password_step,
    hash_made_for,
    login_step,
    register_step,
    reset_password_step,
    reset_requested_message,
    session_for,
    CurrentUserState,
    ForgotPasswordStateView,
    LoggedInView,
    LoginState,
    PasswordReset,
    RegisterState,
    ResetPasswordState,
    ResetRequestedView,
};
use crate::store::{StepView, StoreReplyView, StoreRequestView};
use vstd::prelude::*;

verus! {

/// The records of an ideal store: users by email, reset tokens by their text.
pub struct StoreModel {
    pub users: Map<Seq<char>, UserView>,
    pub reset_tokens: Map<Seq<char>, PasswordResetTokenView>,
}

/// What the store adds to a record that it creates: an id and the time.
pub struct Stamp {
    pub id: Seq<char>,
    pub at: u64,
}

impl StoreModel {
    /// The user with this id, if there is one.
    pub open spec fn user_by_id(self, id: Seq<char>) -> Option<UserView> {
        if exists|email: Seq<char>| self.users.contains_key(email) && self.users[email].id == id {
            Some(
                self.users[choose|email: Seq<char>|
                    self.users.contains_key(email) && self.users[email].id == id],
            )
        } else {
            None
        }
    }

    /// Performs one request: the store afterwards, and its reply.
    pub open spec fn serve(self, request: StoreRequestView, stamp: Stamp) -> (
        StoreModel,
        StoreReplyView,
    ) {
        match request {
            StoreRequestView::FindUserByEmail { email } => (
                self,
                StoreReplyView::User {
                    found: if self.users.contains_key(email) {
                        Some(self.users[email])
                    } else {
                        None
                    },
                },
            ),
            StoreRequestView::FindUserById { id } => (
                self,
                StoreReplyView::User { found: self.user_by_id(id) },
            ),
            StoreRequestView::InsertUser { email, password_hash } => if self.users.contains_key(
                email,
            ) {
                (self, StoreReplyView::Duplicate)
            } else {
                let user = UserView {
                    id: stamp.id,
                    email,
                    password_hash,
                    created_at: stamp.at,
                    updated_at: stamp.at,
                };
                (
                    StoreModel { users: self.users.insert(email, user), ..self },
                    StoreReplyView::UserInserted { user },
                )
            },
            StoreRequestView::UpdatePassword { user_id, password_hash } => (
                StoreModel {
                    users: self.users.map_values(
                        |user: UserView|
                            if user.id == user_id {
                                UserView { password_hash, updated_at: stamp.at, ..user }
                            } else {
                                user
                            },
                    ),
                    ..self
                },
                StoreReplyView::Done,
            ),
            StoreRequestView::InsertResetToken { fresh } => (
                StoreModel {
                    reset_tokens: self.reset_tokens.insert(
                        fresh.token,
                        PasswordResetTokenView {
                            id: stamp.id,
                            user_id: fresh.user_id,
                            token: fresh.token,
                            expires_at: fresh.expires_at,
                            used: false,
                            created_at: stamp.at,
                        },
                    ),
                    ..self
                },
                StoreReplyView::Done,
            ),
            StoreRequestView::FindResetToken { token } => (
                self,
                StoreReplyView::ResetToken {
                    found_token: if self.reset_tokens.contains_key(token) {
                        Some(self.reset_tokens[token])
                    } else {
                        None
                    },
                },
            ),
            StoreRequestView::MarkResetTokenUsed { token } => (
                if self.reset_tokens.contains_key(token) {
                    StoreModel {
                        reset_tokens: self.reset_tokens.insert(
                            token,
                            self.reset_tokens[token].marked_used(),
                        ),
                        ..self
                    }
                } else {
                    self
                },
                StoreReplyView::Done,
            ),
        }
    }
}

/// Runs a flow against the store from `state` on, for at most `steps`
/// requests: each request is served and its reply handed back, until the flow
/// ends. The store as the flow left it, and the flow's outcome.
pub open spec fn drive<S, V>(
    flow: spec_fn(S, Option<StoreReplyView>) -> (S, StepView<V>),
    state: S,
    reply: Option<StoreReplyView>,
    store: StoreModel,
    stamp: Stamp,
    steps: nat,
) -> (StoreModel, Result<V, AuthError>)
    decreases steps,
{
    match flow(state, reply).1 {
        StepView::Finish { outcome } => (store, outcome),
        StepView::Ask { request } => if steps == 0 {
            (store, Err(AuthError::Persistence))
        } else {
            let served = store.serve(request, stamp);
            drive(flow, flow(state, reply).0, Some(served.1), served.0, stamp, (steps - 1) as nat)
        },
    }
}

/// A whole registration against the store.
pub open spec fn run_register(
    store: StoreModel,
    email: Seq<char>,
    password: Seq<char>,
    hashed: Option<Seq<char>>,
    stamp: Stamp,
) -> (StoreModel, Result<PublicUserView, AuthError>) {
    drive(
        |state: RegisterState, reply: Option<StoreReplyView>|
            register_step(state, email, password, reply, hashed),
        RegisterState::Init,
        None,
        store,
        stamp,
        2,
    )
}

/// A whole login against the store, at `now`.
pub open spec fn run_login(
    store: StoreModel,
    email: Seq<char>,
    password: Seq<char>,
    secret: Seq<char>,
    now: u64,
    stamp: Stamp,
) -> (StoreModel, Result<LoggedInView, AuthError>) {
    drive(
        |state: LoginState, reply: Option<StoreReplyView>|
            login_step(state, email, password, reply, secret, now),
        LoginState::Init,
        None,
        store,
        stamp,
        1,
    )
}

/// A whole forgot-password request against the store, at `now`.
pub open spec fn run_forgot_password(
    store: StoreModel,
    email: Seq<char>,
    now: u64,
    expose_token: bool,
    fresh: Seq<char>,
    stamp: Stamp,
) -> (StoreModel, Result<ResetRequestedView, AuthError>) {
    drive(
        |state: ForgotPasswordStateView, reply: Option<StoreReplyView>|
            forgot_password_step(state, email, reply, now, expose_token, fresh),
        ForgotPasswordStateView::Init,
        None,
        store,
        stamp,
        2,
    )
}

/// A whole password reset against the store, at `now`.
pub open spec fn run_reset_password(
    store: StoreModel,
    token: Seq<char>,
    new_password: Seq<char>,
    now: u64,
    hashed: Option<Seq<char>>,
    stamp: Stamp,
) -> (StoreModel, Result<PasswordReset, AuthError>) {
    drive(
        |state: ResetPasswordState, reply: Option<StoreReplyView>|
            reset_password_step(state, token, new_password, reply, now, hashed),
        ResetPasswordState::Init,
        None,
        store,
        stamp,
        3,
    )
}

/// Every flow ends, whatever the store replies: a registration and a
/// forgot-password request with their third step at the latest, a login and a
/// current-user lookup with their second, a password reset with its fourth.
/// The step that ends a flow leaves it `Done`.
pub proof fn lemma_flows_end(
    email: Seq<char>,
    password: Seq<char>,
    token: Seq<char>,
    user_id: Seq<char>,
    secret: Seq<char>,
    now: u64,
    expose_token: bool,
    hashed: Option<Seq<char>>,
    first: Option<StoreReplyView>,
    second: Option<StoreReplyView>,
    third: Option<StoreReplyView>,
)
    ensures
        ({
            let a = register_step(RegisterState::Init, email, password, None, hashed);
            let b = register_step(a.0, email, password, first, hashed);
            let c = register_step(b.0, email, password, second, hashed);
            c.1 is Finish && c.0 == RegisterState::Done
        }),
        ({
            let a = login_step(LoginState::Init, email, password, None, secret, now);
            let b = login_step(a.0, email, password, first, secret, now);
            b.1 is Finish && b.0 == LoginState::Done
        }),
        ({
            let begin = ForgotPasswordStateView::Init;
            let a = forgot_password_step(begin, email, None, now, expose_token, token);
            let b = forgot_password_step(a.0, email, first, now, expose_token, token);
            let c = forgot_password_step(b.0, email, second, now, expose_token, token);
            c.1 is Finish && c.0 == ForgotPasswordStateView::Done
        }),
        ({
            let begin = ResetPasswordState::Init;
            let a = reset_password_step(begin, token, password, None, now, hashed);
            let b = reset_password_step(a.0, token, password, first, now, hashed);
            let c = reset_password_step(b.0, token, password, second, now, hashed);
            let d = reset_password_step(c.0, token, password, third, now, hashed);
            d.1 is Finish && d.0 == ResetPasswordState::Done
        }),
        ({
            let a = current_user_step(CurrentUserState::Init, user_id, None);
            let b = current_user_step(a.0, user_id, first);
            b.1 is Finish && b.0 == CurrentUserState::Done
        }),
{
}

/// No flow asks for more than its run allows: with more requests allowed, the
/// run is the same.
pub proof fn lemma_runs_are_long_enough(
    store: StoreModel,
    email: Seq<char>,
    password: Seq<char>,
    token: Seq<char>,
    secret: Seq<char>,
    now: u64,
    expose_token: bool,
    hashed: Option<Seq<char>>,
    stamp: Stamp,
    steps: nat,
)
    ensures
        steps >= 2 ==> drive(
            |state: RegisterState, reply: Option<StoreReplyView>|
                register_step(state, email, password, reply, hashed),
            RegisterState::Init,
            None,
            store,
            stamp,
            steps,
        ) == run_register(store, email, password, hashed, stamp),
        steps >= 1 ==> drive(
            |state: LoginState, reply: Option<StoreReplyView>|
                login_step(state, email, password, reply, secret, now),
            LoginState::Init,
            None,
            store,
            stamp,
            steps,
        ) == run_login(store, email, password, secret, now, stamp),
        steps >= 2 ==> drive(
            |state: ForgotPasswordStateView, reply: Option<StoreReplyView>|
                forgot_password_step(state, email, reply, now, expose_token, token),
            ForgotPasswordStateView::Init,
            None,
            store,
            stamp,
            steps,
        ) == run_forgot_password(store, email, now, expose_token, token, stamp),
        steps >= 3 ==> drive(
            |state: ResetPasswordState, reply: Option<StoreReplyView>|
                reset_password_step(state, token, password, reply, now, hashed),
            ResetPasswordState::Init,
            None,
            store,
            stamp,
            steps,
        ) == run_reset_password(store, token, password, now, hashed, stamp),
{
    reveal_with_fuel(drive, 4);
}

/// Registering an email that is free, with valid fields and a hash, creates
/// the user. Registering the same email again, whatever the password, fails
/// and leaves the store as it is: with a valid password the failure is
/// `Conflict`. So one email never gets two records.
pub proof fn lemma_register_twice(
    store: StoreModel,
    email: Seq<char>,
    password: Seq<char>,
    hashed: Option<Seq<char>>,
    stamp: Stamp,
    again_password: Seq<char>,
    again_hashed: Option<Seq<char>>,
    again_stamp: Stamp,
)
    ensures
        ({
            let first = run_register(store, email, password, hashed, stamp);
            let second = run_register(first.0, email, again_password, again_hashed, again_stamp);
            &&& valid_email(email) && valid_password(password) && !store.users.contains_key(email)
                && hashed is Some ==> first.1 is Ok
            &&& first.1 is Ok ==> {
                &&& first.0.users.contains_key(email)
                &&& first.1->Ok_0 == first.0.users[email].public()
                &&& second.1 is Err
                &&& valid_password(again_password) ==> second.1 == Err::<PublicUserView, AuthError>(
                    AuthError::Conflict,
                )
                &&& second.0 == first.0
            }
        }),
{
    reveal_with_fuel(drive, 3);
}

/// A login changes nothing in the store, and its failures look alike: an
/// email that the store does not know, and a known email with a password that
/// its hash does not accept, both end in `InvalidCredentials`. A known email
/// with a password that its hash accepts gets the session that signing gives.
pub proof fn lemma_login_failures_look_alike(
    store: StoreModel,
    email: Seq<char>,
    password: Seq<char>,
    secret: Seq<char>,
    now: u64,
    stamp: Stamp,
)
    ensures
        ({
            let attempt = run_login(store, email, password, secret, now, stamp);
            let user = store.users[email];
            &&& attempt.0 == store
            &&& !store.users.contains_key(email) ==> attempt.1 == Err::<LoggedInView, AuthError>(
                AuthError::InvalidCredentials,
            )
            &&& store.users.contains_key(email) && hash_accepts(password, user.password_hash)
                == Some(false) ==> attempt.1 == Err::<LoggedInView, AuthError>(
                AuthError::InvalidCredentials,
            )
            &&& store.users.contains_key(email) && hash_accepts(password, user.password_hash)
                == Some(true) ==> attempt.1 == session_for(
                user,
                issue_outcome(user.id, now, secret),
            )
        }),
{
    reveal_with_fuel(drive, 2);
}

/// Who has registered can log in: after a registration that succeeded with a
/// hash made for its password, a login with the same email and password gets
/// the session that signing gives, for the user that was created.
pub proof fn lemma_registered_user_logs_in(
    store: StoreModel,
    email: Seq<char>,
    password: Seq<char>,
    hashed: Option<Seq<char>>,
    stamp: Stamp,
    secret: Seq<char>,
    now: u64,
    login_stamp: Stamp,
)
    ensures
        ({
            let registered = run_register(store, email, password, hashed, stamp);
            let attempt = run_login(registered.0, email, password, secret, now, login_stamp);
            hash_made_for(password, hashed) ==> (registered.1 matches Ok(created) ==> {
                &&& attempt.1 == session_for(
                    registered.0.users[email],
                    issue_outcome(created.id, now, secret),
                )
                &&& attempt.1 matches Ok(session) ==> session.user == created
            })
        }),
{
    reveal_with_fuel(drive, 3);
}

/// Every forgot-password request is answered alike: with success and the one
/// message, whether or not the email is known. A token is part of the answer
/// only where the caller asked for it, and then only for a known email. So
/// without that, the answer is the same for every store and every email.
pub proof fn lemma_forgot_password_answers_alike(
    store: StoreModel,
    email: Seq<char>,
    now: u64,
    expose_token: bool,
    fresh: Seq<char>,
    stamp: Stamp,
)
    ensures
        ({
            let answered = run_forgot_password(store, email, now, expose_token, fresh, stamp).1;
            &&& answered matches Ok(answer)
            &&& answer.message == reset_requested_message()
            &&& answer.token == if expose_token && store.users.contains_key(email) {
                Some(fresh)
            } else {
                None
            }
        }),
{
    reveal_with_fuel(drive, 3);
}

/// A reset token lives for one hour. The token that a forgot-password request
/// at `issued` stores for a known email is redeemable at every second before
/// `issued` plus one hour, and is rejected as `InvalidOrExpiredToken` at every
/// second from then on, though it was never used.
pub proof fn lemma_reset_token_lives_one_hour(
    store: StoreModel,
    email: Seq<char>,
    issued: u64,
    expose_token: bool,
    fresh: Seq<char>,
    stamp: Stamp,
    new_password: Seq<char>,
    now: u64,
    hashed: Option<Seq<char>>,
    reset_stamp: Stamp,
)
    requires
        issued + RESET_LIFETIME <= u64::MAX,
    ensures
        ({
            let requested = run_forgot_password(store, email, issued, expose_token, fresh, stamp);
            let reset = run_reset_password(
                requested.0,
                fresh,
                new_password,
                now,
                hashed,
                reset_stamp,
            );
            store.users.contains_key(email) && valid_password(new_password) ==> {
                &&& now >= issued + RESET_LIFETIME ==> reset.1 == Err::<PasswordReset, AuthError>(
                    AuthError::InvalidOrExpiredToken,
                )
                &&& now < issued + RESET_LIFETIME && hashed is Some ==> reset.1 is Ok
            }
        }),
{
    reveal_with_fuel(drive, 4);
}

/// A reset token is redeemed at most once. A reset with a stored, unused,
/// unexpired token, a valid password and a hash succeeds, puts the hash on
/// the token's user and consumes the token. Every later reset with the same
/// token fails, at whatever time and with whatever password: with a valid
/// password the failure is `AlreadyUsedToken` while the token has not
/// expired, and `InvalidOrExpiredToken` from then on.
pub proof fn lemma_reset_token_redeemed_once(
    store: StoreModel,
    token: Seq<char>,
    new_password: Seq<char>,
    now: u64,
    hashed: Option<Seq<char>>,
    stamp: Stamp,
    again_password: Seq<char>,
    again_now: u64,
    again_hashed: Option<Seq<char>>,
    again_stamp: Stamp,
)
    ensures
        ({
            let first = run_reset_password(store, token, new_password, now, hashed, stamp);
            let second = run_reset_password(
                first.0,
                token,
                again_password,
                again_now,
                again_hashed,
                again_stamp,
            );
            let stored = store.reset_tokens[token];
            &&& valid_password(new_password) && store.reset_tokens.contains_key(token)
                && stored.expires_at > now && !stored.used && hashed is Some ==> first.1 is Ok
            &&& first.1 is Ok ==> {
                &&& first.1 == Ok::<PasswordReset, AuthError>(
                    PasswordReset { token_consumed: true },
                )
                &&& store.reset_tokens.contains_key(token) && hashed is Some
                &&& first.0.reset_tokens[token] == stored.marked_used()
                &&& forall|email: Seq<char>|
                    store.users.contains_key(email) && store.users[email].id == stored.user_id
                        ==> #[trigger] first.0.users[email].password_hash == hashed->Some_0
                &&& second.1 is Err
                &&& valid_password(again_password) ==> second.1 == Err::<PasswordReset, AuthError>(
                    if stored.expires_at > again_now {
                        AuthError::AlreadyUsedToken
                    } else {
                        AuthError::InvalidOrExpiredToken
                    },
                )
            }
        }),
{
    reveal_with_fuel(drive, 4);
}

/// A reset takes effect: after a reset that succeeded with a hash made for
/// the new password, the token's user logs in with the new password, and no
/// longer with a password that the new hash does not accept.
pub proof fn lemma_reset_password_takes_effect(
    store: StoreModel,
    token: Seq<char>,
    new_password: Seq<char>,
    now: u64,
    hashed: Option<Seq<char>>,
    stamp: Stamp,
    email: Seq<char>,
    password: Seq<char>,
    secret: Seq<char>,
    login_now: u64,
    login_stamp: Stamp,
)
    ensures
        ({
            let reset = run_reset_password(store, token, new_password, now, hashed, stamp);
            let attempt = run_login(reset.0, email, password, secret, login_now, login_stamp);
            let user = reset.0.users[email];
            hash_made_for(new_password, hashed) && reset.1 is Ok && store.users.contains_key(email)
                && store.users[email].id == store.reset_tokens[token].user_id ==> {
                &&& password == new_password ==> attempt.1 == session_for(
                    user,
                    issue_outcome(user.id, login_now, secret),
                )
                &&& hash_accepts(password, hashed->Some_0) == Some(false) ==> attempt.1 == Err::<
                    LoggedInView,
                    AuthError,
                >(AuthError::InvalidCredentials)
            }
        }),
{
    reveal_with_fuel(drive, 4);
}

} // verus!
