use vstd::prelude::*;

use crate::text::same_text;

verus! {

/// The pattern an email address must match.
pub const EMAIL_REGEX_PATTERN: &'static str =
    r"^([a-z0-9_+]([a-z0-9_+.]*[a-z0-9_+])?)@([a-z0-9]+([\-.]{1}[a-z0-9]+)*\.[a-z]{2,6})";

/// Why a request to create or change a record was refused.
#[derive(Clone, Copy, Debug, PartialEq, Eq, Structural)]
pub enum RequestError {
    EmptyUsername,
    EmptyPassword,
    EmptyEmailAddress,
    InvalidEmailAddress,
    UsernameTaken,
    EmailAddressTaken,
    EmptyName,
    InvalidUuid,
    PasswordNotHashed,
}

/// The message the API gives for each refusal.
pub open spec fn message_text(e: RequestError) -> Seq<char> {
    match e {
        RequestError::EmptyUsername => "Username cannot be empty!"@,
        RequestError::EmptyPassword => "Password cannot be empty!"@,
        RequestError::EmptyEmailAddress => "Email address cannot be empty!"@,
        RequestError::InvalidEmailAddress => "Invalid email address!"@,
        RequestError::UsernameTaken => "Username is already taken!"@,
        RequestError::EmailAddressTaken => "Email address is already taken!"@,
        RequestError::EmptyName => "Name cannot be empty!"@,
        RequestError::InvalidUuid => "Invalid UUID"@,
        RequestError::PasswordNotHashed => "Unable to hash password!"@,
    }
}

impl RequestError {
    pub fn message(&self) -> (r: &'static str)
        ensures
            r@ == message_text(*self),
    {
        match self {
            RequestError::EmptyUsername => "Username cannot be empty!",
            RequestError::EmptyPassword => "Password cannot be empty!",
            RequestError::EmptyEmailAddress => "Email address cannot be empty!",
            RequestError::InvalidEmailAddress => "Invalid email address!",
            RequestError::UsernameTaken => "Username is already taken!",
            RequestError::EmailAddressTaken => "Email address is already taken!",
            RequestError::EmptyName => "Name cannot be empty!",
            RequestError::InvalidUuid => "Invalid UUID",
            RequestError::PasswordNotHashed => "Unable to hash password!",
        }
    }
}

/// What the regex engine says of `text` against `pattern`: whether it
/// matches anywhere in it, or `None` when the pattern does not compile.
pub uninterp spec fn regex_verdict(pattern: Seq<char>, text: Seq<char>) -> Option<bool>;

/// Relies on regex::Regex::new and Regex::is_match: compiles the pattern and
/// reports whether it matches somewhere in the text.
#[verifier::external_body]
fn regex_is_match(pattern: &str, text: &str) -> (r: Option<bool>)
    ensures
        r == regex_verdict(pattern@, text@),
{
    regex::Regex::new(pattern).ok().map(|re| re.is_match(text))
}

/// Whether an email address has the accepted shape.
pub open spec fn email_accepted(email_address: Seq<char>) -> bool {
    regex_verdict(EMAIL_REGEX_PATTERN@, email_address) == Some(true)
}

pub fn is_valid_email(email_address: &str) -> (r: bool)
    ensures
        r == email_accepted(email_address@),
{
    match regex_is_match(EMAIL_REGEX_PATTERN, email_address) {
        Some(b) => b,
        None => false,
    }
}

/// The checks on a new account, in order, given whether the email address
/// has the accepted shape.
pub open spec fn new_account_outcome(
    username: Seq<char>,
    password: Seq<char>,
    email_address: Seq<char>,
    email_ok: bool,
) -> Result<(), RequestError> {
    if username.len() == 0 {
        Err(RequestError::EmptyUsername)
    } else if password.len() == 0 {
        Err(RequestError::EmptyPassword)
    } else if email_address.len() == 0 {
        Err(RequestError::EmptyEmailAddress)
    } else if !email_ok {
        Err(RequestError::InvalidEmailAddress)
    } else {
        Ok(())
    }
}

/// The checks on changed account details, in order, given whether the
/// email address has the accepted shape.
pub open spec fn details_outcome(username: Seq<char>, email_address: Seq<char>, email_ok: bool) -> Result<
    (),
    RequestError,
> {
    if username.len() == 0 {
        Err(RequestError::EmptyUsername)
    } else if email_address.len() == 0 {
        Err(RequestError::EmptyEmailAddress)
    } else if !email_ok {
        Err(RequestError::InvalidEmailAddress)
    } else {
        Ok(())
    }
}

/// Decides on a new account's fields once the email address is checked.
pub fn new_account_decision(username: &str, password: &str, email_address: &str, email_ok: bool) -> (r:
    Result<(), RequestError>)
    ensures
        r == new_account_outcome(username@, password@, email_address@, email_ok),
{
    if username.is_empty() {
        Err(RequestError::EmptyUsername)
    } else if password.is_empty() {
        Err(RequestError::EmptyPassword)
    } else if email_address.is_empty() {
        Err(RequestError::EmptyEmailAddress)
    } else if !email_ok {
        Err(RequestError::InvalidEmailAddress)
    } else {
        Ok(())
    }
}

/// Checks the fields of a new account (registration or creation by an
/// administrator): username, password and email address must be given, and
/// the email address must have the accepted shape.
pub fn validate_new_account(username: &str, password: &str, email_address: &str) -> (r: Result<
    (),
    RequestError,
>)
    ensures
        r == new_account_outcome(
            username@,
            password@,
            email_address@,
            email_accepted(email_address@),
        ),
{
    if username.is_empty() || password.is_empty() || email_address.is_empty() {
        return new_account_decision(username, password, email_address, false);
    }
    let ok = is_valid_email(email_address);
    new_account_decision(username, password, email_address, ok)
}

/// Decides on changed details once the email address is checked.
pub fn details_decision(username: &str, email_address: &str, email_ok: bool) -> (r: Result<
    (),
    RequestError,
>)
    ensures
        r == details_outcome(username@, email_address@, email_ok),
{
    if username.is_empty() {
        Err(RequestError::EmptyUsername)
    } else if email_address.is_empty() {
        Err(RequestError::EmptyEmailAddress)
    } else if !email_ok {
        Err(RequestError::InvalidEmailAddress)
    } else {
        Ok(())
    }
}

/// Checks changed account details: username and email address must be
/// given, and the email address must have the accepted shape.
pub fn validate_details(username: &str, email_address: &str) -> (r: Result<(), RequestError>)
    ensures
        r == details_outcome(username@, email_address@, email_accepted(email_address@)),
{
    if username.is_empty() || email_address.is_empty() {
        return details_decision(username, email_address, false);
    }
    let ok = is_valid_email(email_address);
    details_decision(username, email_address, ok)
}

/// Checks that a role or permission name is given.
pub fn validate_name(name: &str) -> (r: Result<(), RequestError>)
    ensures
        r is Err <==> name@.len() == 0,
        r matches Err(e) ==> e == RequestError::EmptyName,
{
    if name.is_empty() {
        Err(RequestError::EmptyName)
    } else {
        Ok(())
    }
}

/// Checks that a new password is given.
pub fn validate_password(password: &str) -> (r: Result<(), RequestError>)
    ensures
        r is Err <==> password@.len() == 0,
        r matches Err(e) ==> e == RequestError::EmptyPassword,
{
    if password.is_empty() {
        Err(RequestError::EmptyPassword)
    } else {
        Ok(())
    }
}

/// Whether a unique value is taken: a record holding it was found and it
/// is not the record being changed (`own_id`, absent on creation).
pub fn is_taken(found_id: Option<&str>, own_id: Option<&str>) -> (r: bool)
    ensures
        r == match (found_id, own_id) {
            (None, _) => false,
            (Some(_), None) => true,
            (Some(f), Some(o)) => f@ != o@,
        },
{
    match (found_id, own_id) {
        (None, _) => false,
        (Some(_), None) => true,
        (Some(f), Some(o)) => !same_text(f, o),
    }
}

} // verus!
