//! User records, the requests that carry credentials, and password hashing.

use vstd::prelude::*;
use vstd::utf8::encode_utf8;

verus! {

/// The least number of bytes a password may have.
pub const MIN_PASSWORD_LEN: usize = 6;

/// A user record as the store holds it. Timestamps are seconds since the Unix
/// epoch.
#[derive(Debug, PartialEq, Eq)]
pub struct User {
    pub id: String,
    pub email: String,
    pub password_hash: String,
    pub created_at: u64,
    pub updated_at: u64,
}

/// What a `User` holds, as the contracts read it.
pub struct UserView {
    pub id: Seq<char>,
    pub email: Seq<char>,
    pub password_hash: Seq<char>,
    pub created_at: u64,
    pub updated_at: u64,
}

impl View for User {
    type V = UserView;

    open spec fn view(&self) -> UserView {
        UserView {
            id: self.id@,
            email: self.email@,
            password_hash: self.password_hash@,
            created_at: self.created_at,
            updated_at: self.updated_at,
        }
    }
}

/// The fields of a user that may leave the service: never the hash.
#[derive(Debug, PartialEq, Eq)]
pub struct PublicUser {
    pub id: String,
    pub email: String,
    pub created_at: u64,
}

/// What a `PublicUser` holds, as the contracts read it.
pub struct PublicUserView {
    pub id: Seq<char>,
    pub email: Seq<char>,
    pub created_at: u64,
}

impl View for PublicUser {
    type V = PublicUserView;

    open spec fn view(&self) -> PublicUserView {
        PublicUserView { id: self.id@, email: self.email@, created_at: self.created_at }
    }
}

impl UserView {
    /// The public fields of a record.
    pub open spec fn public(self) -> PublicUserView {
        PublicUserView { id: self.id, email: self.email, created_at: self.created_at }
    }
}

/// The body of a registration request.
#[derive(Debug, PartialEq, Eq)]
pub struct NewUser {
    pub email: String,
    pub password: String,
}

/// The body of a login request.
#[derive(Debug, PartialEq, Eq)]
pub struct LoginUser {
    pub email: String,
    pub password: String,
}

/// An email is accepted when it holds an `@`; nothing more is asked of it.
pub open spec fn valid_email(email: Seq<char>) -> bool {
    email.contains('@')
}

/// A password is accepted when its UTF-8 encoding has at least six bytes.
pub open spec fn valid_password(password: Seq<char>) -> bool {
    encode_utf8(password).len() >= MIN_PASSWORD_LEN
}

/// Whether an email is accepted.
pub fn check_email(email: &str) -> (ok: bool)
    ensures
        ok == valid_email(email@),
{
    let mut found = false;
    for c in it: email.chars()
        invariant
            it.seq() == email@,
            found == (exists|j: int| 0 <= j < it.index() && email@[j] == '@'),
    {
        if c == '@' {
            found = true;
        }
    }
    found
}

/// Whether a password is accepted.
pub fn check_password(password: &str) -> (ok: bool)
    ensures
        ok == valid_password(password@),
{
    password.as_bytes().len() >= MIN_PASSWORD_LEN
}

/// Hashing a password failed, or a stored hash could not be read.
#[derive(Clone, Copy, Debug, PartialEq, Eq, Structural)]
pub struct HashingError;

/// Declares `bcrypt::BcryptError`, which is carried and never read.
#[verifier::external_type_specification]
#[verifier::external_body]
pub struct ExBcryptError(bcrypt::BcryptError);

/// What `bcrypt::verify` returns for a password and a stored hash: `Some` of
/// its verdict, or `None` where it reports an error (a hash it cannot read).
pub uninterp spec fn hash_accepts(password: Seq<char>, hash: Seq<char>) -> Option<bool>;

/// The result of a password check, given what the hasher made of it.
pub open spec fn verdict_of(accepted: Option<bool>) -> Result<bool, HashingError> {
    match accepted {
        Some(same) => Ok(same),
        None => Err(HashingError),
    }
}

/// Whether a hash has the shape that `bcrypt::hash` writes at its default
/// cost: 60 characters, of which the first seven name the version and the
/// cost, 12.
pub open spec fn default_cost_hash(hash: Seq<char>) -> bool {
    hash.len() == 60 && hash.subrange(0, 7) == "$2b$12$"@
}

/// Calls `bcrypt::hash` with the crate's default cost.
///
/// Trusted: a hash that it returns is one that `bcrypt::verify` accepts for
/// the same password, and has the shape of a hash at the default cost.
/// `verify` reads cost and salt back out of the hash and repeats the
/// computation that `hash` made; `hash` writes `$2b$`, the cost in two
/// digits, `$`, and 53 characters of salt and digest. The salt is random, so
/// nothing else is said of the hash, and nothing of when the call succeeds.
#[verifier::external_body]
fn bcrypt_hash(password: &str) -> (hashed: Result<String, bcrypt::BcryptError>)
    ensures
        hashed matches Ok(hash) ==> hash_accepts(password@, hash@) == Some(true)
            && default_cost_hash(hash@),
{
    bcrypt::hash(password, bcrypt::DEFAULT_COST)
}

/// Calls `bcrypt::verify`.
///
/// Trusted: the outcome is a function of the password and the hash alone.
#[verifier::external_body]
fn bcrypt_verify(password: &str, hash: &str) -> (verdict: Result<bool, bcrypt::BcryptError>)
    ensures
        match verdict {
            Ok(same) => hash_accepts(password@, hash@) == Some(same),
            Err(_) => hash_accepts(password@, hash@) is None,
        },
{
    bcrypt::verify(password, hash)
}

impl User {
    /// The public fields of this record.
    pub fn public(&self) -> (shown: PublicUser)
        ensures
            shown@ == self@.public(),
    {
        PublicUser { id: self.id.clone(), email: self.email.clone(), created_at: self.created_at }
    }

    /// Hashes a password with a fresh random salt, at the fixed cost of 12.
    /// Whether hashing succeeds is decided by the hasher and its source of
    /// randomness. A hash that comes back is accepted by `verify_password`
    /// for the same password.
    pub fn hash_password(password: &str) -> (hashed: Result<String, HashingError>)
        ensures
            hashed matches Ok(hash) ==> hash_accepts(password@, hash@) == Some(true)
                && default_cost_hash(hash@),
    {
        match bcrypt_hash(password) {
            Ok(hash) => Ok(hash),
            Err(_) => Err(HashingError),
        }
    }

    /// Checks a password against a stored hash: `Ok(false)` on a mismatch, an
    /// error only for a hash that cannot be read.
    pub fn verify_password(password: &str, hash: &str) -> (verdict: Result<bool, HashingError>)
        ensures
            verdict == verdict_of(hash_accepts(password@, hash@)),
    {
        match bcrypt_verify(password, hash) {
            Ok(same) => Ok(same),
            Err(_) => Err(HashingError),
        }
    }
}

} // verus!
