use auth_service::auth::guard::AuthenticatedUser;
use auth_service::auth::jwt::JwtService;
use auth_service::errors::{AuthError, ValidationError};
use auth_service::models::password_reset::{
    PasswordResetToken, RequestPasswordReset, ResetPassword,
};
use auth_service::models::user::{LoginUser, NewUser, PublicUser, User};
use auth_service::routes::auth::{
    forgot_password, get_current_user, login, register, reset_password, CurrentUserState,
    ForgotPasswordState, LoggedIn, LoginState, PasswordReset, RegisterState, ResetPasswordState,
    ResetRequested,
};
use auth_service::store::{Step, StoreReply, StoreRequest};

const GENERIC: &str = "If the email exists, a password reset token has been sent.";
const HOUR: u64 = 3_600;
const DAY: u64 = 86_400;

/// A store in memory that keeps emails unique, with a clock set by hand.
struct Store {
    users: Vec<User>,
    tokens: Vec<PasswordResetToken>,
    now: u64,
    requests: usize,
    fail_marking: bool,
}

fn copy_user(user: &User) -> User {
    User {
        id: user.id.clone(),
        email: user.email.clone(),
        password_hash: user.password_hash.clone(),
        created_at: user.created_at,
        updated_at: user.updated_at,
    }
}

fn copy_token(token: &PasswordResetToken) -> PasswordResetToken {
    PasswordResetToken {
        id: token.id.clone(),
        user_id: token.user_id.clone(),
        token: token.token.clone(),
        expires_at: token.expires_at,
        used: token.used,
        created_at: token.created_at,
    }
}

impl Store {
    fn new(now: u64) -> Store {
        Store { users: Vec::new(), tokens: Vec::new(), now, requests: 0, fail_marking: false }
    }

    fn serve(&mut self, request: StoreRequest) -> StoreReply {
        self.requests += 1;
        match request {
            StoreRequest::FindUserByEmail { email } => StoreReply::User {
                found: self.users.iter().find(|user| user.email == email).map(copy_user),
            },
            StoreRequest::FindUserById { id } => StoreReply::User {
                found: self.users.iter().find(|user| user.id == id).map(copy_user),
            },
            StoreRequest::InsertUser { email, password_hash } => {
                if self.users.iter().any(|user| user.email == email) {
                    return StoreReply::Duplicate;
                }
                let user = User {
                    id: format!("user-{}", self.users.len() + 1),
                    email,
                    password_hash,
                    created_at: self.now,
                    updated_at: self.now,
                };
                self.users.push(copy_user(&user));
                StoreReply::UserInserted { user }
            }
            StoreRequest::UpdatePassword { user_id, password_hash } => {
                for user in self.users.iter_mut().filter(|user| user.id == user_id) {
                    user.password_hash = password_hash.clone();
                    user.updated_at = self.now;
                }
                StoreReply::Done
            }
            StoreRequest::InsertResetToken { fresh } => {
                self.tokens.push(PasswordResetToken {
                    id: format!("token-{}", self.tokens.len() + 1),
                    user_id: fresh.user_id,
                    token: fresh.token,
                    expires_at: fresh.expires_at,
                    used: false,
                    created_at: self.now,
                });
                StoreReply::Done
            }
            StoreRequest::FindResetToken { token } => StoreReply::ResetToken {
                found_token: self
                    .tokens
                    .iter()
                    .find(|stored| stored.token == token)
                    .map(copy_token),
            },
            StoreRequest::MarkResetTokenUsed { token } => {
                if self.fail_marking {
                    return StoreReply::Failed;
                }
                for stored in self.tokens.iter_mut().filter(|stored| stored.token == token) {
                    stored.used = true;
                }
                StoreReply::Done
            }
        }
    }

    fn register(&mut self, email: &str, password: &str) -> Result<PublicUser, AuthError> {
        let request = NewUser { email: email.to_string(), password: password.to_string() };
        let mut state = RegisterState::Init;
        let mut reply = None;
        loop {
            let (next, step) = register(state, &request, reply);
            state = next;
            match step {
                Step::Ask { request } => reply = Some(self.serve(request)),
                Step::Finish { outcome } => {
                    assert_eq!(state, RegisterState::Done);
                    return outcome;
                }
            }
        }
    }

    fn login(
        &mut self,
        jwt: &JwtService,
        email: &str,
        password: &str,
    ) -> Result<LoggedIn, AuthError> {
        let request = LoginUser { email: email.to_string(), password: password.to_string() };
        let mut state = LoginState::Init;
        let mut reply = None;
        loop {
            let (next, step) = login(state, &request, reply, jwt, self.now);
            state = next;
            match step {
                Step::Ask { request } => reply = Some(self.serve(request)),
                Step::Finish { outcome } => {
                    assert_eq!(state, LoginState::Done);
                    return outcome;
                }
            }
        }
    }

    fn forgot_password(&mut self, email: &str, expose: bool) -> Result<ResetRequested, AuthError> {
        let request = RequestPasswordReset { email: email.to_string() };
        let mut state = ForgotPasswordState::Init;
        let mut reply = None;
        loop {
            let (next, step) = forgot_password(state, &request, reply, self.now, expose);
            state = next;
            match step {
                Step::Ask { request } => reply = Some(self.serve(request)),
                Step::Finish { outcome } => {
                    assert_eq!(state, ForgotPasswordState::Done);
                    return outcome;
                }
            }
        }
    }

    fn reset_password(&mut self, token: &str, password: &str) -> Result<PasswordReset, AuthError> {
        let request =
            ResetPassword { token: token.to_string(), new_password: password.to_string() };
        let mut state = ResetPasswordState::Init;
        let mut reply = None;
        loop {
            let (next, step) = reset_password(state, &request, reply, self.now);
            state = next;
            match step {
                Step::Ask { request } => reply = Some(self.serve(request)),
                Step::Finish { outcome } => {
                    assert_eq!(state, ResetPasswordState::Done);
                    return outcome;
                }
            }
        }
    }

    fn whoami(&mut self, jwt: &JwtService, header: Option<&str>) -> Result<PublicUser, AuthError> {
        let identity = AuthenticatedUser::from_request_at(jwt, header, self.now)?;
        let mut state = CurrentUserState::Init;
        let mut reply = None;
        loop {
            let (next, step) = get_current_user(state, &identity, reply);
            state = next;
            match step {
                Step::Ask { request } => reply = Some(self.serve(request)),
                Step::Finish { outcome } => {
                    assert_eq!(state, CurrentUserState::Done);
                    return outcome;
                }
            }
        }
    }
}

fn jwt() -> JwtService {
    JwtService::new("top-secret".to_string())
}

#[test]
fn register_login_whoami_end_to_end() {
    let jwt = jwt();
    let mut store = Store::new(1_700_000_000);

    let created = store.register("a@b.com", "secret1").unwrap();
    assert_eq!(
        created,
        PublicUser {
            id: "user-1".to_string(),
            email: "a@b.com".to_string(),
            created_at: 1_700_000_000
        }
    );

    let session = store.login(&jwt, "a@b.com", "secret1").unwrap();
    assert!(!session.token.is_empty());
    assert_eq!(session.user, created);

    let header = format!("Bearer {}", session.token);
    let me = store.whoami(&jwt, Some(&header)).unwrap();
    assert_eq!(me.email, "a@b.com");
    assert_eq!(me, created);

    let mut corrupted = header.clone().into_bytes();
    let middle = corrupted.len() / 2;
    corrupted[middle] = if corrupted[middle] == b'x' { b'y' } else { b'x' };
    let corrupted = String::from_utf8(corrupted).unwrap();
    assert_eq!(store.whoami(&jwt, Some(&corrupted)), Err(AuthError::Unauthenticated));

    store.now += DAY - 1;
    assert_eq!(store.whoami(&jwt, Some(&header)), Ok(me));
    store.now += 1;
    assert_eq!(store.whoami(&jwt, Some(&header)), Err(AuthError::Unauthenticated));
    store.now += DAY;
    assert_eq!(store.whoami(&jwt, Some(&header)), Err(AuthError::Unauthenticated));
}

#[test]
fn registering_an_email_twice_conflicts() {
    let mut store = Store::new(1_000);
    assert!(store.register("a@b.com", "secret1").is_ok());
    assert_eq!(store.register("a@b.com", "secret1"), Err(AuthError::Conflict));
    assert_eq!(store.register("a@b.com", "another-password"), Err(AuthError::Conflict));
    assert_eq!(store.users.len(), 1);
    assert_eq!(
        store.register("a@b.com", "short"),
        Err(AuthError::Validation(ValidationError::PasswordTooShort))
    );
    assert_eq!(store.users.len(), 1);
}

#[test]
fn emails_are_compared_exactly() {
    let mut store = Store::new(1_000);
    assert!(store.register("a@b.com", "secret1").is_ok());
    assert!(store.register("A@b.com", "secret1").is_ok());
    assert_eq!(store.users.len(), 2);
}

#[test]
fn invalid_registration_asks_the_store_nothing() {
    let mut store = Store::new(1_000);
    assert_eq!(
        store.register("ab.com", "secret1"),
        Err(AuthError::Validation(ValidationError::InvalidEmail))
    );
    assert_eq!(
        store.register("a@b.com", "12345"),
        Err(AuthError::Validation(ValidationError::PasswordTooShort))
    );
    assert_eq!(store.requests, 0);
    assert!(store.users.is_empty());
}

#[test]
fn conflicting_registration_stops_after_the_lookup() {
    let mut store = Store::new(1_000);
    store.register("a@b.com", "secret1").unwrap();
    store.requests = 0;
    assert_eq!(store.register("a@b.com", "secret1"), Err(AuthError::Conflict));
    assert_eq!(store.requests, 1);
}

#[test]
fn store_never_holds_the_password() {
    let mut store = Store::new(1_000);
    store.register("a@b.com", "secret1").unwrap();
    assert_ne!(store.users[0].password_hash, "secret1");
    assert_eq!(User::verify_password("secret1", &store.users[0].password_hash).unwrap(), true);
}

#[test]
fn unknown_email_and_wrong_password_look_alike() {
    let jwt = jwt();
    let mut store = Store::new(1_000);
    store.register("a@b.com", "secret1").unwrap();
    let unknown = store.login(&jwt, "nobody@b.com", "secret1");
    let wrong = store.login(&jwt, "a@b.com", "secret2");
    assert_eq!(unknown, Err(AuthError::InvalidCredentials));
    assert_eq!(wrong, unknown);
}

#[test]
fn whoami_without_a_token_is_unauthenticated() {
    let jwt = jwt();
    let mut store = Store::new(1_000);
    store.register("a@b.com", "secret1").unwrap();
    store.requests = 0;
    assert_eq!(store.whoami(&jwt, None), Err(AuthError::Unauthenticated));
    assert_eq!(store.whoami(&jwt, Some("Basic abc")), Err(AuthError::Unauthenticated));
    assert_eq!(store.requests, 0);
}

#[test]
fn whoami_of_a_deleted_user_is_not_found() {
    let jwt = jwt();
    let mut store = Store::new(1_000);
    store.register("a@b.com", "secret1").unwrap();
    let session = store.login(&jwt, "a@b.com", "secret1").unwrap();
    store.users.clear();
    let header = format!("Bearer {}", session.token);
    assert_eq!(store.whoami(&jwt, Some(&header)), Err(AuthError::NotFound));
}

#[test]
fn forgot_password_answers_known_and_unknown_emails_alike() {
    let mut store = Store::new(1_000);
    store.register("a@b.com", "secret1").unwrap();
    let known = store.forgot_password("a@b.com", false);
    let unknown = store.forgot_password("nobody@b.com", false);
    assert_eq!(known, Ok(ResetRequested { message: GENERIC.to_string(), token: None }));
    assert_eq!(unknown, known);
    assert_eq!(store.tokens.len(), 1);
}

#[test]
fn forgot_password_hands_the_token_out_only_where_asked() {
    let mut store = Store::new(1_000);
    store.register("a@b.com", "secret1").unwrap();
    let known = store.forgot_password("a@b.com", true).unwrap();
    assert_eq!(known.message, GENERIC);
    assert_eq!(known.token, Some(store.tokens[0].token.clone()));
    let unknown = store.forgot_password("nobody@b.com", true).unwrap();
    assert_eq!(unknown, ResetRequested { message: GENERIC.to_string(), token: None });
}

#[test]
fn forgot_password_stores_an_unused_token_for_one_hour() {
    let mut store = Store::new(1_000);
    let created = store.register("a@b.com", "secret1").unwrap();
    store.forgot_password("a@b.com", false).unwrap();
    assert_eq!(store.tokens.len(), 1);
    assert_eq!(store.tokens[0].user_id, created.id);
    assert_eq!(store.tokens[0].expires_at, 1_000 + HOUR);
    assert_eq!(store.tokens[0].used, false);
    assert_eq!(store.tokens[0].token.len(), 36);
}

#[test]
fn reset_token_is_redeemed_once() {
    let jwt = jwt();
    let mut store = Store::new(1_000);
    store.register("a@b.com", "secret1").unwrap();
    let token = store.forgot_password("a@b.com", true).unwrap().token.unwrap();

    assert_eq!(store.reset_password(&token, "secret2"), Ok(PasswordReset { token_consumed: true }));
    assert!(store.tokens[0].used);
    assert_eq!(store.reset_password(&token, "secret3"), Err(AuthError::AlreadyUsedToken));
    assert_eq!(store.reset_password(&token, "secret2"), Err(AuthError::AlreadyUsedToken));

    assert_eq!(store.login(&jwt, "a@b.com", "secret1"), Err(AuthError::InvalidCredentials));
    assert_eq!(store.login(&jwt, "a@b.com", "secret3"), Err(AuthError::InvalidCredentials));
    assert!(store.login(&jwt, "a@b.com", "secret2").is_ok());
}

#[test]
fn used_token_past_its_hour_reports_expiry() {
    let mut store = Store::new(1_000);
    store.register("a@b.com", "secret1").unwrap();
    let token = store.forgot_password("a@b.com", true).unwrap().token.unwrap();
    store.reset_password(&token, "secret2").unwrap();
    store.now += HOUR;
    assert_eq!(store.reset_password(&token, "secret3"), Err(AuthError::InvalidOrExpiredToken));
}

#[test]
fn reset_token_expires_after_one_hour_though_unused() {
    let jwt = jwt();
    let mut store = Store::new(1_000);
    store.register("a@b.com", "secret1").unwrap();
    let token = store.forgot_password("a@b.com", true).unwrap().token.unwrap();
    store.now = 1_000 + HOUR;
    assert_eq!(store.reset_password(&token, "secret2"), Err(AuthError::InvalidOrExpiredToken));
    store.now = 1_000 + HOUR + 1;
    assert_eq!(store.reset_password(&token, "secret2"), Err(AuthError::InvalidOrExpiredToken));
    assert!(!store.tokens[0].used);
    assert!(store.login(&jwt, "a@b.com", "secret1").is_ok());
}

#[test]
fn reset_token_is_good_in_its_last_second() {
    let mut store = Store::new(1_000);
    store.register("a@b.com", "secret1").unwrap();
    let token = store.forgot_password("a@b.com", true).unwrap().token.unwrap();
    store.now = 1_000 + HOUR - 1;
    assert_eq!(store.reset_password(&token, "secret2"), Ok(PasswordReset { token_consumed: true }));
}

#[test]
fn unknown_reset_token_is_invalid_or_expired() {
    let mut store = Store::new(1_000);
    store.register("a@b.com", "secret1").unwrap();
    store.forgot_password("a@b.com", false).unwrap();
    assert_eq!(
        store.reset_password("00000000-0000-4000-8000-000000000000", "secret2"),
        Err(AuthError::InvalidOrExpiredToken)
    );
    assert_eq!(store.reset_password("", "secret2"), Err(AuthError::InvalidOrExpiredToken));
}

#[test]
fn short_new_password_leaves_the_token_alone() {
    let mut store = Store::new(1_000);
    store.register("a@b.com", "secret1").unwrap();
    let token = store.forgot_password("a@b.com", true).unwrap().token.unwrap();
    store.requests = 0;
    assert_eq!(
        store.reset_password(&token, "12345"),
        Err(AuthError::Validation(ValidationError::PasswordTooShort))
    );
    assert_eq!(store.requests, 0);
    assert_eq!(store.reset_password(&token, "secret2"), Ok(PasswordReset { token_consumed: true }));
}

#[test]
fn reset_that_could_not_mark_the_token_says_so_and_can_be_replayed() {
    let jwt = jwt();
    let mut store = Store::new(1_000);
    store.register("a@b.com", "secret1").unwrap();
    let token = store.forgot_password("a@b.com", true).unwrap().token.unwrap();
    store.fail_marking = true;
    assert_eq!(
        store.reset_password(&token, "secret2"),
        Ok(PasswordReset { token_consumed: false })
    );
    assert!(store.login(&jwt, "a@b.com", "secret2").is_ok());
    assert_eq!(
        store.reset_password(&token, "secret3"),
        Ok(PasswordReset { token_consumed: false })
    );
    store.fail_marking = false;
    assert_eq!(store.reset_password(&token, "secret4"), Ok(PasswordReset { token_consumed: true }));
    assert_eq!(store.reset_password(&token, "secret5"), Err(AuthError::AlreadyUsedToken));
}

#[test]
fn session_token_outlives_a_password_reset() {
    // Tokens are not revoked: only time ends a session.
    let jwt = jwt();
    let mut store = Store::new(1_000);
    store.register("a@b.com", "secret1").unwrap();
    let session = store.login(&jwt, "a@b.com", "secret1").unwrap();
    let token = store.forgot_password("a@b.com", true).unwrap().token.unwrap();
    store.reset_password(&token, "secret2").unwrap();
    let header = format!("Bearer {}", session.token);
    assert!(store.whoami(&jwt, Some(&header)).is_ok());
}
