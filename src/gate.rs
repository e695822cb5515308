use vstd::prelude::*;

use crate::bearer::{bearer_of, bearer_token, str_view};
use crate::directory::{user_lookup, Directory};
use crate::model::{Permission, Role, User};
use crate::resolver::{does_user_have_permission, holds_permission, scan_roles, scan_user_roles, Scan};
use crate::time::in_date_range;
use crate::token::{
    decode,
    decode_outcome,
    decode_spec,
    dot_count,
    hs256_token,
    normalized,
    token_of,
    Claims,
    TokenError,
};

verus! {

/// The outcome of an access check: who the caller is, when a user was found, and
/// whether the caller may go on.
#[derive(Debug)]
pub struct Authorization {
    pub identity: Option<String>,
    pub authorized: bool,
}

pub open spec fn text_view(t: Option<String>) -> Option<Seq<char>> {
    match t {
        Some(s) => Some(s@),
        None => None,
    }
}

impl View for Authorization {
    type V = (Option<Seq<char>>, bool);

    open spec fn view(&self) -> (Option<Seq<char>>, bool) {
        (text_view(self.identity), self.authorized)
    }
}

/// The subject that decoding a token signed over these claims yields.
pub open spec fn subject_outcome(
    sub: Seq<char>,
    iat: i64,
    exp: i64,
    signed_with: Seq<u8>,
    secret: Seq<u8>,
    now: i64,
) -> Option<Seq<char>> {
    match decode_outcome(sub, iat, exp, signed_with, secret, now) {
        Ok(c) => Some(c.0),
        Err(_) => None,
    }
}

/// Whether the header carries a bearer token that does not split into
/// three dot-separated parts.
pub open spec fn carries_malformed_token(header: Option<Seq<char>>) -> bool {
    bearer_of(header) matches Some(t) && dot_count(t) != 2
}

/// The subject that an extracted token yields when decoded with `secret`
/// at `now`: none without a token or when decoding refuses it.
pub open spec fn token_subject(token: Option<Seq<char>>, secret: Seq<u8>, now: i64) -> Option<
    Seq<char>,
> {
    match token {
        None => None,
        Some(t) => match decode_spec(t, secret, now) {
            Ok(c) => Some(c.0),
            Err(_) => None,
        },
    }
}

/// The outcome of the access check for a caller whose token named `subject`: no user, no
/// access; a disabled user, no access whatever the roles; otherwise what
/// the permission check decides.
pub open spec fn access_outcome(
    users: Seq<User>,
    roles: Seq<Role>,
    permissions: Seq<Permission>,
    subject: Option<Seq<char>>,
    name: Seq<char>,
) -> (Option<Seq<char>>, bool) {
    match subject {
        None => (None, false),
        Some(s) => match user_lookup(users, s) {
            None => (None, false),
            Some(u) => if !u.enabled {
                (Some(u.id@), false)
            } else {
                (Some(u.id@), holds_permission(u, roles, permissions, name))
            },
        },
    }
}

/// Whether the access check for `user` and the permission `name` reads
/// any role: only an enabled user asking for a non-empty name gets that far.
pub fn reads_roles(user: &User, permission_name: &str) -> (r: bool)
    ensures
        r == (user.enabled && permission_name@.len() > 0),
{
    user.enabled && !permission_name.is_empty()
}

/// Whether `identity` names an enabled user that holds the permission `name`.
pub open spec fn is_enabled_holder(
    users: Seq<User>,
    roles: Seq<Role>,
    permissions: Seq<Permission>,
    identity: Option<Seq<char>>,
    name: Seq<char>,
) -> bool {
    match identity {
        Some(id) => match user_lookup(users, id) {
            Some(u) => u.enabled && holds_permission(u, roles, permissions, name),
            None => false,
        },
        None => false,
    }
}

/// A user that a lookup finds carries the id it was looked up by.
pub proof fn lemma_user_lookup_id(users: Seq<User>, id: Seq<char>)
    ensures
        user_lookup(users, id) matches Some(u) ==> u.id@ == id,
    decreases users.len(),
{
    if users.len() > 0 && users[0].id@ != id {
        lemma_user_lookup_id(users.drop_first(), id);
    }
}

/// The subject of the bearer token in a credential header, if the token
/// verifies with `secret` and has not expired at `now`.
pub fn get_user_uuid_from_token(header: Option<&str>, secret: &[u8], now: i64) -> (r: Option<String>)
    ensures
        text_view(r) == token_subject(bearer_of(str_view(header)), secret@, now),
        carries_malformed_token(str_view(header)) ==> r is None,
        forall|sub: Seq<char>, iat: i64, exp: i64, key: Seq<u8>|
            bearer_of(str_view(header)) == Some(#[trigger] hs256_token(sub, iat, exp, key))
                ==> text_view(r) == subject_outcome(sub, iat, exp, key, secret@, now),
{
    let token = match bearer_token(header) {
        Some(t) => t,
        None => {
            return None;
        },
    };
    match decode(token.as_str(), secret, now) {
        Ok(claims) => Some(claims.sub),
        Err(_) => None,
    }
}

/// The outcome of the access check for the subject a token named.
pub fn authorize_subject(directory: &Directory, subject: Option<&str>, permission_name: &str) -> (r:
    Authorization)
    ensures
        r@ == access_outcome(
            directory.users@,
            directory.roles@,
            directory.permissions@,
            str_view(subject),
            permission_name@,
        ),
{
    let subject = match subject {
        Some(s) => s,
        None => {
            return Authorization { identity: None, authorized: false };
        },
    };
    let user = match directory.find_user(subject) {
        Some(u) => u,
        None => {
            return Authorization { identity: None, authorized: false };
        },
    };
    if !user.enabled {
        return Authorization { identity: Some(user.id.clone()), authorized: false };
    }
    let authorized = does_user_have_permission(directory, user, permission_name);
    Authorization { identity: Some(user.id.clone()), authorized }
}

/// The check in front of every protected operation: takes the bearer
/// token from the credential header, verifies it with `secret` at `now`,
/// finds the user it names, refuses a disabled account and otherwise asks
/// the permission check. Access is only ever granted to an enabled user
/// that holds the permission.
pub fn check_user_permissions(
    directory: &Directory,
    header: Option<&str>,
    secret: &[u8],
    now: i64,
    permission_name: &str,
) -> (r: Authorization)
    ensures
        r@ == access_outcome(
            directory.users@,
            directory.roles@,
            directory.permissions@,
            token_subject(bearer_of(str_view(header)), secret@, now),
            permission_name@,
        ),
        carries_malformed_token(str_view(header)) ==> r@ == (None::<Seq<char>>, false),
        forall|sub: Seq<char>, iat: i64, exp: i64, key: Seq<u8>|
            bearer_of(str_view(header)) == Some(#[trigger] hs256_token(sub, iat, exp, key))
                ==> r@ == access_outcome(
                directory.users@,
                directory.roles@,
                directory.permissions@,
                subject_outcome(sub, iat, exp, key, secret@, now),
                permission_name@,
            ),
        r.authorized ==> is_enabled_holder(
            directory.users@,
            directory.roles@,
            directory.permissions@,
            r@.0,
            permission_name@,
        ),
{
    let subject = get_user_uuid_from_token(header, secret, now);
    let r = match subject {
        Some(s) => authorize_subject(directory, Some(s.as_str()), permission_name),
        None => authorize_subject(directory, None, permission_name),
    };
    proof {
        if r.authorized {
            let s = text_view(subject)->Some_0;
            lemma_user_lookup_id(directory.users@, s);
        }
    }
    r
}

/// A disabled account is refused whatever its roles grant, and the
/// refusal still names it.
pub proof fn lemma_disabled_account_denied(
    users: Seq<User>,
    roles: Seq<Role>,
    permissions: Seq<Permission>,
    subject: Seq<char>,
    name: Seq<char>,
)
    requires
        user_lookup(users, subject) matches Some(u) && !u.enabled,
    ensures
        access_outcome(users, roles, permissions, Some(subject), name) == (Some(subject), false),
{
    lemma_user_lookup_id(users, subject);
}

/// Why access was denied. Callers see only that it was; the kind is for
/// the service's own records.
#[derive(Clone, Copy, Debug, PartialEq, Eq, Structural)]
pub enum AccessError {
    /// No bearer token in the credential header.
    TokenMissing,
    TokenMalformed,
    TokenSignatureInvalid,
    TokenExpired,
    /// The token's subject names no user.
    SubjectNotFound,
    AccountDisabled,
    /// A role or permission of the user could not be looked up.
    LookupFailure,
    /// Every lookup succeeded and none granted the permission.
    PermissionDenied,
}

/// The kind of refusal for a token that could not be decoded.
pub open spec fn token_refusal(e: TokenError) -> AccessError {
    match e {
        TokenError::SignatureInvalid => AccessError::TokenSignatureInvalid,
        TokenError::Expired => AccessError::TokenExpired,
        _ => AccessError::TokenMalformed,
    }
}

/// The access check with its reason, for the token extracted from the
/// credential header.
pub open spec fn access_reason(
    users: Seq<User>,
    roles: Seq<Role>,
    permissions: Seq<Permission>,
    token: Option<Seq<char>>,
    secret: Seq<u8>,
    now: i64,
    name: Seq<char>,
) -> Result<Seq<char>, AccessError> {
    match token {
        None => Err(AccessError::TokenMissing),
        Some(t) => match decode_spec(t, secret, now) {
            Err(e) => Err(token_refusal(e)),
            Ok(c) => access_check_outcome(users, roles, permissions, c.0, name),
        },
    }
}

pub open spec fn reason_view(r: Result<String, AccessError>) -> Result<Seq<char>, AccessError> {
    match r {
        Ok(id) => Ok(id@),
        Err(e) => Err(e),
    }
}

/// The access check with its reason, for a caller whose token decoded to
/// `subject`: the id of the user on success.
pub open spec fn access_check_outcome(
    users: Seq<User>,
    roles: Seq<Role>,
    permissions: Seq<Permission>,
    subject: Seq<char>,
    name: Seq<char>,
) -> Result<Seq<char>, AccessError> {
    match user_lookup(users, subject) {
        None => Err(AccessError::SubjectNotFound),
        Some(u) => if !u.enabled {
            Err(AccessError::AccountDisabled)
        } else if name.len() == 0 {
            Err(AccessError::PermissionDenied)
        } else {
            match scan_roles(u.roles@, roles, permissions, name) {
                Scan::Match => Ok(u.id@),
                Scan::Failed => Err(AccessError::LookupFailure),
                Scan::Exhausted => Err(AccessError::PermissionDenied),
            }
        },
    }
}

/// The access check for a subject, keeping the reason of a refusal.
pub fn check_subject(directory: &Directory, subject: &str, permission_name: &str) -> (r: Result<
    String,
    AccessError,
>)
    ensures
        match r {
            Ok(id) => access_check_outcome(
                directory.users@,
                directory.roles@,
                directory.permissions@,
                subject@,
                permission_name@,
            ) == Ok::<Seq<char>, AccessError>(id@),
            Err(e) => access_check_outcome(
                directory.users@,
                directory.roles@,
                directory.permissions@,
                subject@,
                permission_name@,
            ) == Err::<Seq<char>, AccessError>(e),
        },
{
    let user = match directory.find_user(subject) {
        Some(u) => u,
        None => {
            return Err(AccessError::SubjectNotFound);
        },
    };
    if !user.enabled {
        return Err(AccessError::AccountDisabled);
    }
    if permission_name.is_empty() {
        return Err(AccessError::PermissionDenied);
    }
    match scan_user_roles(directory, user, permission_name) {
        Scan::Match => Ok(user.id.clone()),
        Scan::Failed => Err(AccessError::LookupFailure),
        Scan::Exhausted => Err(AccessError::PermissionDenied),
    }
}

/// The same check as `check_user_permissions`, keeping why it refused:
/// missing or undecodable token, unknown subject, disabled account, failed
/// lookup, or no matching permission.
pub fn check_access(
    directory: &Directory,
    header: Option<&str>,
    secret: &[u8],
    now: i64,
    permission_name: &str,
) -> (r: Result<String, AccessError>)
    ensures
        reason_view(r) == access_reason(
            directory.users@,
            directory.roles@,
            directory.permissions@,
            bearer_of(str_view(header)),
            secret@,
            now,
            permission_name@,
        ),
        carries_malformed_token(str_view(header)) ==> r == Err::<String, AccessError>(
            AccessError::TokenMalformed,
        ),
        r matches Ok(id) ==> is_enabled_holder(
            directory.users@,
            directory.roles@,
            directory.permissions@,
            Some(id@),
            permission_name@,
        ),
{
    let token = match bearer_token(header) {
        Some(t) => t,
        None => {
            return Err(AccessError::TokenMissing);
        },
    };
    let claims = match decode(token.as_str(), secret, now) {
        Ok(c) => c,
        Err(TokenError::SignatureInvalid) => {
            return Err(AccessError::TokenSignatureInvalid);
        },
        Err(TokenError::Expired) => {
            return Err(AccessError::TokenExpired);
        },
        Err(_) => {
            return Err(AccessError::TokenMalformed);
        },
    };
    let r = check_subject(directory, claims.sub.as_str(), permission_name);
    proof {
        lemma_user_lookup_id(directory.users@, claims.sub@);
    }
    r
}

/// A token that `encode` made, sent as `Bearer ` and the token, is
/// extracted whole and, with the same secret and before its expiry, yields
/// the claims' subject.
pub proof fn lemma_bearer_round_trip(c: Claims, secret: Seq<u8>, token: Seq<char>, now: i64)
    requires
        token == token_of(normalized(c@), secret),
        dot_count(token) == 2,
        in_date_range(c.iat.seconds),
        in_date_range(c.exp.seconds),
        now < c.exp.seconds,
    ensures
        bearer_of(Some("Bearer "@ + token)) == Some(token),
        subject_outcome(c.sub@, c.iat.seconds, c.exp.seconds, secret, secret, now) == Some(c.sub@),
{
    reveal_strlit("Bearer ");
    let h = "Bearer "@ + token;
    assert(token.len() > 0);
    assert(h.subrange(0, 7) == "Bearer "@);
    assert(h.subrange(7, h.len() as int) == token);
}

/// The check with reasons matches the boolean decision: it succeeds exactly
/// when access is granted, and then names the same user.
pub proof fn lemma_reasons_match_decision(
    users: Seq<User>,
    roles: Seq<Role>,
    permissions: Seq<Permission>,
    subject: Seq<char>,
    name: Seq<char>,
)
    ensures
        access_check_outcome(users, roles, permissions, subject, name) is Ok <==> access_outcome(
            users,
            roles,
            permissions,
            Some(subject),
            name,
        ).1,
        access_check_outcome(users, roles, permissions, subject, name) matches Ok(id) ==> Some(id)
            == access_outcome(users, roles, permissions, Some(subject), name).0,
{
}

} // verus!
