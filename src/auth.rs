use vstd::prelude::*;

use crate::config::JWT;
use crate::model::User;
use crate::time::{in_date_range, plus_millis_spec, Timestamp, MAX_TIMESTAMP, MIN_TIMESTAMP};
use crate::token::{encode, normalized, token_of, Claims};
use vstd::utf8::encode_utf8;

verus! {

/// A login attempt.
pub struct AuthenticationRequest {
    pub username: String,
    pub password: String,
}

/// The answer to a successful login: a fresh session token.
pub struct AuthenticationResponse {
    pub token: String,
}

impl AuthenticationResponse {
    pub fn new(token: &str) -> (r: AuthenticationResponse)
        ensures
            r.token@ == token@,
    {
        AuthenticationResponse { token: token.to_owned() }
    }
}

/// Why a login was refused.
#[derive(Clone, Copy, Debug, PartialEq, Eq, Structural)]
pub enum LoginError {
    EmptyUsername,
    EmptyPassword,
    /// Unknown user, disabled account or wrong password; which of them is
    /// not told.
    Unauthorized,
    /// The stored password hash could not be checked.
    HashFailure,
    /// No token could be made: the session would end outside the range of
    /// UTC date-times.
    TokenFailure,
}

/// What bcrypt's verification says of `password` against the stored
/// `hash`: `Some(true)` on a match, `None` when the hash cannot be read.
pub uninterp spec fn bcrypt_verdict(password: Seq<char>, hash: Seq<char>) -> Option<bool>;

/// Relies on bcrypt::verify: it rehashes the password with the cost and
/// salt read from `hash` and compares; an unreadable hash is an error.
#[verifier::external_body]
fn verify_password(password: &str, hash: &str) -> (r: Option<bool>)
    ensures
        r == bcrypt_verdict(password@, hash@),
{
    bcrypt::verify(password, hash).ok()
}

/// The checks on a login request made before any lookup.
pub open spec fn login_request_outcome(username: Seq<char>, password: Seq<char>) -> Result<
    (),
    LoginError,
> {
    if username.len() == 0 {
        Err(LoginError::EmptyUsername)
    } else if password.len() == 0 {
        Err(LoginError::EmptyPassword)
    } else {
        Ok(())
    }
}

/// The account checks given the user found under the login name and what
/// the password check said.
pub open spec fn account_outcome(user: Option<User>, verdict: Option<bool>) -> Result<(), LoginError> {
    match user {
        None => Err(LoginError::Unauthorized),
        Some(u) => if !u.enabled {
            Err(LoginError::Unauthorized)
        } else {
            match verdict {
                Some(true) => Ok(()),
                Some(false) => Err(LoginError::Unauthorized),
                None => Err(LoginError::HashFailure),
            }
        },
    }
}

pub open spec fn user_view(user: Option<&User>) -> Option<User> {
    match user {
        Some(u) => Some(*u),
        None => None,
    }
}

/// Refuses a login request with an empty username or password.
pub fn validate_login(request: &AuthenticationRequest) -> (r: Result<(), LoginError>)
    ensures
        r == login_request_outcome(request.username@, request.password@),
{
    if request.username.as_str().is_empty() {
        Err(LoginError::EmptyUsername)
    } else if request.password.as_str().is_empty() {
        Err(LoginError::EmptyPassword)
    } else {
        Ok(())
    }
}

/// Decides on the account found for a login, given the password check's
/// verdict (which only matters for an enabled account).
pub fn account_decision(user: Option<&User>, verdict: Option<bool>) -> (r: Result<(), LoginError>)
    ensures
        r == account_outcome(user_view(user), verdict),
{
    match user {
        None => Err(LoginError::Unauthorized),
        Some(u) => {
            if !u.enabled {
                Err(LoginError::Unauthorized)
            } else {
                match verdict {
                    Some(true) => Ok(()),
                    Some(false) => Err(LoginError::Unauthorized),
                    None => Err(LoginError::HashFailure),
                }
            }
        },
    }
}

/// Checks the account found for a login: it must exist, be enabled and
/// accept the password.
pub fn check_account(user: Option<&User>, password: &str) -> (r: Result<(), LoginError>)
    ensures
        r == account_outcome(
            user_view(user),
            match user {
                Some(u) => bcrypt_verdict(password@, u.password@),
                None => None,
            },
        ),
{
    match user {
        Some(u) => {
            if !u.enabled {
                return Err(LoginError::Unauthorized);
            }
            let verdict = verify_password(password, u.password.as_str());
            account_decision(user, verdict)
        },
        None => Err(LoginError::Unauthorized),
    }
}

/// When a session opened at `now` for `expires` milliseconds ends, if that
/// is a representable UTC date-time.
pub open spec fn session_expiry(now: Timestamp, expires: i64) -> Option<Timestamp> {
    match plus_millis_spec(now, expires) {
        Some(exp) => if in_date_range(exp.seconds) {
            Some(exp)
        } else {
            None
        },
        None => None,
    }
}

/// The claims of a session opened at `now` for `expires` milliseconds;
/// `None` when its end is no representable UTC date-time.
pub fn issue_claims(subject: &str, now: Timestamp, expires: i64) -> (r: Option<Claims>)
    ensures
        match session_expiry(now, expires) {
            Some(exp) => r matches Some(c) && c@ == normalized((subject@, now, exp)),
            None => r is None,
        },
{
    match now.plus_millis(expires) {
        Some(exp) => {
            if exp.seconds < MIN_TIMESTAMP || exp.seconds > MAX_TIMESTAMP {
                None
            } else {
                Some(Claims::new(subject.to_owned(), now, exp))
            }
        },
        None => None,
    }
}

/// The login decision once the user is looked up: checks the request and
/// the account, then signs a session token for the user, valid from `now`
/// for the configured lifetime.
pub fn authenticate(
    request: &AuthenticationRequest,
    user: Option<&User>,
    jwt: &JWT,
    now: Timestamp,
) -> (r: Result<AuthenticationResponse, LoginError>)
    ensures
        login_request_outcome(request.username@, request.password@) matches Err(e) ==> r == Err::<
            AuthenticationResponse,
            LoginError,
        >(e),
        login_request_outcome(request.username@, request.password@) is Ok ==> match user {
            Some(u) => {
                let verdict = bcrypt_verdict(request.password@, u.password@);
                &&& account_outcome(Some(*u), verdict) matches Err(e) ==> r == Err::<
                    AuthenticationResponse,
                    LoginError,
                >(e)
                &&& account_outcome(Some(*u), verdict) is Ok ==> match session_expiry(
                    now,
                    jwt.expires,
                ) {
                    Some(exp) => r matches Ok(resp) && resp.token@ == token_of(
                        normalized((u.id@, now, exp)),
                        encode_utf8(jwt.secret@),
                    ),
                    None => r == Err::<AuthenticationResponse, LoginError>(LoginError::TokenFailure),
                }
            },
            None => r == Err::<AuthenticationResponse, LoginError>(LoginError::Unauthorized),
        },
{
    if let Err(e) = validate_login(request) {
        return Err(e);
    }
    if let Err(e) = check_account(user, request.password.as_str()) {
        return Err(e);
    }
    let u = match user {
        Some(u) => u,
        None => {
            return Err(LoginError::Unauthorized);
        },
    };
    let claims = match issue_claims(u.id.as_str(), now, jwt.expires) {
        Some(c) => c,
        None => {
            return Err(LoginError::TokenFailure);
        },
    };
    let token = encode(&claims, jwt.secret.as_str().as_bytes());
    Ok(AuthenticationResponse::new(token.as_str()))
}

} // verus!
