//! The authentication gateway.
//!
//! A client presents a name and a password. If the name is registered, the
//! password is checked against the stored hash. If it is not, the client is
//! registered on the spot under a fresh hash of the password it presented.

use crate::db::DbUser;
use crate::hashing::{
    argon2_accepts, fresh_salt, hash_with_salt, is_phc_string, parses_as_hash, verifies,
};
use crate::messages::{Authenticate, AuthenticateView, Reject, RejectView, REJECT_WRONG_PASSWORD};
use vstd::prelude::*;

verus! {

/// The outcome of a login.
#[derive(Clone, Debug)]
pub enum AuthDecision {
    /// The client is let in under this name.
    Accepted { username: String },
    /// The client is turned away with this message.
    Rejected(Reject),
}

/// What a decision is, mathematically.
pub enum AuthDecisionView {
    Accepted { username: Seq<char> },
    Rejected(RejectView),
}

impl View for AuthDecision {
    type V = AuthDecisionView;

    open spec fn view(&self) -> AuthDecisionView {
        match *self {
            AuthDecision::Accepted { username } => AuthDecisionView::Accepted {
                username: username@,
            },
            AuthDecision::Rejected(reject) => AuthDecisionView::Rejected(reject@),
        }
    }
}

/// Why a login could not be judged. Either is fatal to the connection.
#[derive(Clone, Copy, Debug, PartialEq, Eq, Structural)]
pub enum AuthError {
    /// The hash stored for the user is not a password hash.
    InvalidStoredHash,
    /// The password of a new user could not be hashed.
    HashingFailed,
}

/// A name and a password.
#[derive(Clone, Debug)]
pub struct Credentials {
    pub username: String,
    pub password: String,
}

/// The name that a client logs in under: the one it gave, or `Unknown`.
pub open spec fn login_name(auth: AuthenticateView) -> Seq<char> {
    match auth.username {
        Some(name) => name,
        None => "Unknown"@,
    }
}

/// The password that a client logs in with: the one it gave, or none.
pub open spec fn login_password(auth: AuthenticateView) -> Seq<char> {
    match auth.password {
        Some(password) => password,
        None => Seq::empty(),
    }
}

/// The refusal that a wrong password is met with.
pub open spec fn wrong_password() -> RejectView {
    RejectView { reject_type: Some(REJECT_WRONG_PASSWORD), reason: Some("Invalid password"@) }
}

/// Reads the credentials out of a login message, with the defaults for
/// what it leaves out.
pub fn credentials(auth: Authenticate) -> (given: Credentials)
    ensures
        given.username@ == login_name(auth@),
        given.password@ == login_password(auth@),
{
    let username = match auth.username {
        Some(name) => name,
        None => "Unknown".to_owned(),
    };
    let password = match auth.password {
        Some(password) => password,
        None => String::new(),
    };
    Credentials { username, password }
}

/// What checking `password` against `stored_hash` comes to, for the user
/// `username`.
pub open spec fn judged(
    username: Seq<char>,
    password: Seq<char>,
    stored_hash: Seq<char>,
) -> Result<AuthDecisionView, AuthError> {
    if !is_phc_string(stored_hash) {
        Err(AuthError::InvalidStoredHash)
    } else if argon2_accepts(password, stored_hash) {
        Ok(AuthDecisionView::Accepted { username })
    } else {
        Ok(AuthDecisionView::Rejected(wrong_password()))
    }
}

/// A result by the view of what it holds.
pub open spec fn decision_view(r: Result<AuthDecision, AuthError>) -> Result<
    AuthDecisionView,
    AuthError,
> {
    match r {
        Ok(decision) => Ok(decision@),
        Err(error) => Err(error),
    }
}

/// Checks the password of a registered user against the stored hash.
///
/// A stored hash that is no hash is an error. Otherwise the user is
/// accepted if the password is the one that was hashed, and refused as
/// having given a wrong password if it is not.
pub fn check_password(username: String, password: &str, stored_hash: &str) -> (decision: Result<
    AuthDecision,
    AuthError,
>)
    ensures
        decision_view(decision) == judged(username@, password@, stored_hash@),
{
    if !parses_as_hash(stored_hash) {
        return Err(AuthError::InvalidStoredHash);
    }
    if verifies(password, stored_hash) {
        Ok(AuthDecision::Accepted { username })
    } else {
        let reject = Reject {
            reject_type: Some(REJECT_WRONG_PASSWORD),
            reason: Some("Invalid password".to_owned()),
        };
        Ok(AuthDecision::Rejected(reject))
    }
}

/// Hashes the password of a new user under a fresh random salt.
///
/// Which hash comes back depends on the salt, and whether one comes back
/// is the hashing crate's to say. A hash that does come back is one that
/// [`check_password`] accepts the same password against.
pub fn new_password_hash(password: &str) -> (hashed: Result<String, AuthError>)
    ensures
        match hashed {
            Ok(hash) => is_phc_string(hash@) && argon2_accepts(password@, hash@),
            Err(error) => error == AuthError::HashingFailed,
        },
{
    let salt = fresh_salt();
    match hash_with_salt(password, &salt) {
        Ok(hash) => Ok(hash),
        Err(_) => Err(AuthError::HashingFailed),
    }
}

/// What is to be done about a login.
#[derive(Clone, Debug)]
pub enum Login {
    /// The user is registered: this is the decision.
    Decided(AuthDecision),
    /// The user is unknown: it is to be created with this hash, and is
    /// accepted once that is done.
    Register { username: String, password_hash: String },
}

/// Whether `login` is what the credentials `auth` come to, given what the
/// user store holds under the name they give.
pub open spec fn login_judged(
    stored: Option<DbUser>,
    auth: AuthenticateView,
    login: Result<Login, AuthError>,
) -> bool {
    match stored {
        Some(user) => match judged(login_name(auth), login_password(auth), user.password_hash@) {
            Ok(decision) => login matches Ok(Login::Decided(made)) && made@ == decision,
            Err(error) => login == Err::<Login, AuthError>(error),
        },
        None => match login {
            Ok(Login::Register { username, password_hash }) => {
                &&& username@ == login_name(auth)
                &&& is_phc_string(password_hash@)
                &&& argon2_accepts(login_password(auth), password_hash@)
            },
            Ok(Login::Decided(_)) => false,
            Err(error) => error == AuthError::HashingFailed,
        },
    }
}

/// Judges a login, given the user that the store holds under the name the
/// client gave (see [`login_name`]), if it holds one.
///
/// A registered user is accepted or refused by its password. An unknown
/// user is to be registered: the password is hashed under a fresh salt, and
/// the caller creates the user and accepts it.
pub fn authenticate_or_register(stored: Option<&DbUser>, auth: Authenticate) -> (login: Result<
    Login,
    AuthError,
>)
    ensures
        login_judged(
            match stored {
                Some(user) => Some(*user),
                None => None,
            },
            auth@,
            login,
        ),
{
    let given = credentials(auth);
    match stored {
        Some(user) => {
            match check_password(
                given.username,
                given.password.as_str(),
                user.password_hash.as_str(),
            ) {
                Ok(decision) => Ok(Login::Decided(decision)),
                Err(error) => Err(error),
            }
        },
        None => {
            match new_password_hash(given.password.as_str()) {
                Ok(password_hash) => Ok(
                    Login::Register { username: given.username, password_hash },
                ),
                Err(error) => Err(error),
            }
        },
    }
}

/// Who registers can log in: a user created with the hash that a
/// registration hands out is accepted when it presents the same password
/// again.
pub proof fn lemma_registered_user_is_accepted(
    auth: AuthenticateView,
    registration: Result<Login, AuthError>,
    username: String,
    password_hash: String,
)
    requires
        login_judged(None, auth, registration),
        registration == Ok::<Login, AuthError>(Login::Register { username, password_hash }),
    ensures
        judged(login_name(auth), login_password(auth), password_hash@) == Ok::<
            AuthDecisionView,
            AuthError,
        >(AuthDecisionView::Accepted { username: username@ }),
{
}

} // verus!
