//! The records of the user table, and what is decided on them: the record
//! to persist at registration, and whether a login succeeds.

use vstd::prelude::*;
use vstd::string::StringSliceAdditionalSpecFns;
use crate::crypto::{
    hash_password, is_hash_of, password_matches, phc_salt, verify_password, MAX_PASSWORD_LEN,
    SALT_LEN,
};

verus! {

/// A registered user, as the store holds it.
#[derive(Debug, PartialEq, Eq)]
pub struct UserRecord {
    pub id: i64,
    pub username: String,
    pub password_hash: String,
}

/// A user to be persisted: the store assigns the identifier.
#[derive(Debug, PartialEq, Eq)]
pub struct NewUser {
    pub username: String,
    pub password_hash: String,
}

/// Why a registration or a login is turned down.
#[derive(Debug, Clone, Copy, PartialEq, Eq, Structural)]
pub enum AuthError {
    UsernameTaken,
    PasswordMismatch,
    InvalidCredentials,
}

impl AuthError {
    /// The message shown to the operator.
    pub open spec fn message_spec(self) -> Seq<char> {
        match self {
            AuthError::UsernameTaken => "Username already taken"@,
            AuthError::PasswordMismatch => "Passwords do not match"@,
            AuthError::InvalidCredentials => "Invalid credentials"@,
        }
    }

    /// The message shown to the operator.
    pub fn message(&self) -> (r: String)
        ensures
            r@ == self.message_spec(),
    {
        match self {
            AuthError::UsernameTaken => "Username already taken".to_owned(),
            AuthError::PasswordMismatch => "Passwords do not match".to_owned(),
            AuthError::InvalidCredentials => "Invalid credentials".to_owned(),
        }
    }
}

/// Registration, for the record found under the username (`None` where
/// there is none). A name that is taken is turned down. Else the record to
/// persist is given: the username, and the hash of the password under a
/// fresh salt, which the hash carries and against which the password
/// verifies.
pub fn register_user(existing: Option<&UserRecord>, username: &str, password: &str) -> (r: Result<
    NewUser,
    AuthError,
>)
    requires
        password.spec_bytes().len() <= MAX_PASSWORD_LEN,
    ensures
        existing is Some ==> r == Err::<NewUser, AuthError>(AuthError::UsernameTaken),
        existing is None ==> r is Ok && r->Ok_0.username@ == username@ && password_matches(
            r->Ok_0.password_hash@,
            password@,
        ),
        existing is None ==> is_hash_of(
            r->Ok_0.password_hash@,
            password@,
            phc_salt(r->Ok_0.password_hash@),
        ) && phc_salt(r->Ok_0.password_hash@).len() == SALT_LEN,
{
    match existing {
        Some(_) => Err(AuthError::UsernameTaken),
        None => {
            let (hash, _salt) = hash_password(password);
            Ok(NewUser { username: username.to_owned(), password_hash: hash })
        },
    }
}

/// What a login gives, for the record found under the username (`None`
/// where there is none): the user's identifier where the password verifies
/// against the stored hash.
pub open spec fn login_outcome(found: Option<UserRecord>, password: Seq<char>) -> Option<i64> {
    match found {
        Some(user) => if password_matches(user.password_hash@, password) {
            Some(user.id)
        } else {
            None
        },
        None => None,
    }
}

/// Login, for the record found under the username: the user's identifier
/// where the password verifies against the stored hash, else nothing.
pub fn login_user(found: Option<&UserRecord>, password: &str) -> (r: Option<i64>)
    ensures
        r == login_outcome(
            match found {
                Some(user) => Some(*user),
                None => None,
            },
            password@,
        ),
{
    match found {
        Some(user) => {
            if verify_password(user.password_hash.as_str(), password) {
                Some(user.id)
            } else {
                None
            }
        },
        None => None,
    }
}

/// Login as a result: the user's identifier, or why the login is turned
/// down.
pub fn authenticate(found: Option<&UserRecord>, password: &str) -> (r: Result<i64, AuthError>)
    ensures
        r == match login_outcome(
            match found {
                Some(user) => Some(*user),
                None => None,
            },
            password@,
        ) {
            Some(id) => Ok::<i64, AuthError>(id),
            None => Err::<i64, AuthError>(AuthError::InvalidCredentials),
        },
{
    match login_user(found, password) {
        Some(id) => Ok(id),
        None => Err(AuthError::InvalidCredentials),
    }
}

} // verus!
