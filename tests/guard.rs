use rbac_guard::bearer::bearer_token;
use rbac_guard::directory::Directory;
use rbac_guard::gate::{
    authorize_subject, check_access, check_subject, check_user_permissions, get_user_uuid_from_token,
    AccessError,
};
use rbac_guard::model::{Permission, Role, User};
use rbac_guard::resolver::does_user_have_permission;
use rbac_guard::time::Timestamp;
use rbac_guard::token::{encode, Claims};

const SECRET: &[u8] = b"server-secret";
const NOW: i64 = 1_000;

fn user(id: &str, enabled: bool, roles: &[&str]) -> User {
    User {
        id: id.to_string(),
        username: format!("{}-name", id),
        email_address: format!("{}@example.com", id),
        password: String::new(),
        first_name: String::new(),
        last_name: String::new(),
        enabled,
        roles: roles.iter().map(|r| r.to_string()).collect(),
        created_at: String::new(),
        last_active: String::new(),
    }
}

fn role(id: &str, permissions: &[&str]) -> Role {
    Role {
        id: id.to_string(),
        name: format!("{}-role", id),
        description: String::new(),
        permissions: permissions.iter().map(|p| p.to_string()).collect(),
    }
}

fn permission(id: &str, name: &str) -> Permission {
    Permission { id: id.to_string(), name: name.to_string(), description: String::new() }
}

/// Roles R1 = [A, B], R2 = [C], Rgood = [X]; Rbad is missing.
fn directory(users: Vec<User>) -> Directory {
    Directory::new(
        users,
        vec![role("r1", &["a", "b"]), role("r2", &["c"]), role("rgood", &["x"])],
        vec![
            permission("a", "A"),
            permission("b", "B"),
            permission("c", "C"),
            permission("x", "X"),
        ],
    )
}

fn header_for(subject: &str, exp: i64) -> String {
    let c = Claims {
        sub: subject.to_string(),
        iat: Timestamp { seconds: 0, nanos: 0 },
        exp: Timestamp { seconds: exp, nanos: 0 },
    };
    format!("Bearer {}", encode(&c, SECRET))
}

#[test]
fn bearer_header_yields_token() {
    assert_eq!(bearer_token(Some("Bearer abc")), Some("abc".to_string()));
    assert_eq!(bearer_token(Some("BEARER x.y.z")), Some("x.y.z".to_string()));
}

#[test]
fn bearer_prefix_is_case_insensitive() {
    assert_eq!(bearer_token(Some("bearer abc")), Some("abc".to_string()));
    assert_eq!(bearer_token(Some("bEaReR  two")), Some(" two".to_string()));
}

#[test]
fn bearer_failures() {
    assert_eq!(bearer_token(Some("Bearer")), None);
    assert_eq!(bearer_token(Some("Bearer ")), None);
    assert_eq!(bearer_token(Some("")), None);
    assert_eq!(bearer_token(None), None);
    assert_eq!(bearer_token(Some("Basic abcdef")), None);
    assert_eq!(bearer_token(Some("Bearerabc")), None);
}

#[test]
fn resolve_match_scenario() {
    let u = user("u", true, &["r1", "r2"]);
    let d = directory(vec![]);
    assert!(does_user_have_permission(&d, &u, "C"));
    assert!(does_user_have_permission(&d, &u, "A"));
    assert!(!does_user_have_permission(&d, &u, "D"));
}

#[test]
fn resolve_is_case_sensitive() {
    let u = user("u", true, &["r1"]);
    let d = directory(vec![]);
    assert!(!does_user_have_permission(&d, &u, "a"));
}

#[test]
fn resolve_fails_closed_on_missing_role() {
    let u = user("u", true, &["rbad", "rgood"]);
    let d = directory(vec![]);
    assert!(!does_user_have_permission(&d, &u, "X"));
    let reordered = user("v", true, &["rgood", "rbad"]);
    assert!(does_user_have_permission(&d, &reordered, "X"));
}

#[test]
fn resolve_fails_closed_on_missing_permission() {
    let d = Directory::new(
        vec![],
        vec![role("r", &["gone", "x"])],
        vec![permission("x", "X")],
    );
    let u = user("u", true, &["r"]);
    assert!(!does_user_have_permission(&d, &u, "X"));
}

#[test]
fn resolve_empty_permission_is_denied() {
    let d = directory(vec![]);
    assert!(!does_user_have_permission(&d, &user("u", true, &["r1", "r2"]), ""));
    assert!(!does_user_have_permission(&d, &user("w", true, &[]), ""));
}

#[test]
fn user_without_roles_holds_nothing() {
    let d = directory(vec![]);
    assert!(!does_user_have_permission(&d, &user("u", true, &[]), "A"));
}

#[test]
fn gate_grants_enabled_holder() {
    let d = directory(vec![user("alice", true, &["r1", "r2"])]);
    let h = header_for("alice", NOW + 60);
    let a = check_user_permissions(&d, Some(&h), SECRET, NOW, "C");
    assert!(a.authorized);
    assert_eq!(a.identity, Some("alice".to_string()));
    let b = check_user_permissions(&d, Some(&h), SECRET, NOW, "D");
    assert!(!b.authorized);
    assert_eq!(b.identity, Some("alice".to_string()));
}

#[test]
fn gate_denies_disabled_account() {
    let d = directory(vec![user("bob", false, &["r1", "r2"])]);
    let h = header_for("bob", NOW + 60);
    let a = check_user_permissions(&d, Some(&h), SECRET, NOW, "C");
    assert!(!a.authorized);
    assert_eq!(a.identity, Some("bob".to_string()));
    let direct = authorize_subject(&d, Some("bob"), "A");
    assert!(!direct.authorized);
}

#[test]
fn gate_denies_without_usable_token() {
    let d = directory(vec![user("alice", true, &["r1"])]);
    let none = check_user_permissions(&d, None, SECRET, NOW, "A");
    assert!(!none.authorized);
    assert_eq!(none.identity, None);
    let expired = header_for("alice", NOW - 1);
    assert!(!check_user_permissions(&d, Some(&expired), SECRET, NOW, "A").authorized);
    let fresh = header_for("alice", NOW + 60);
    assert!(!check_user_permissions(&d, Some(&fresh), b"other", NOW, "A").authorized);
    let garbage = check_user_permissions(&d, Some("Bearer not-a-token"), SECRET, NOW, "A");
    assert!(!garbage.authorized);
}

#[test]
fn gate_denies_unknown_subject() {
    let d = directory(vec![user("alice", true, &["r1"])]);
    let h = header_for("mallory", NOW + 60);
    let a = check_user_permissions(&d, Some(&h), SECRET, NOW, "A");
    assert!(!a.authorized);
    assert_eq!(a.identity, None);
}

#[test]
fn subject_needs_a_three_part_token() {
    assert_eq!(get_user_uuid_from_token(Some("bearer abc"), SECRET, NOW), None);
    assert_eq!(get_user_uuid_from_token(Some("Bearer abc"), SECRET, NOW), None);
    assert_eq!(get_user_uuid_from_token(Some("Bearer a.b.c.d"), SECRET, NOW), None);
}

#[test]
fn subject_from_token() {
    let h = header_for("carol", NOW + 5);
    assert_eq!(get_user_uuid_from_token(Some(&h), SECRET, NOW), Some("carol".to_string()));
    assert_eq!(get_user_uuid_from_token(Some(&h), SECRET, NOW + 5), None);
    assert_eq!(get_user_uuid_from_token(Some("Bearer"), SECRET, NOW), None);
}

#[test]
fn directory_lookups_find_first_record() {
    let d = Directory::new(
        vec![user("a", true, &[]), user("b", false, &[])],
        vec![role("r", &[]), role("r", &["x"])],
        vec![permission("p", "first"), permission("p", "second")],
    );
    assert!(!d.find_user("b").unwrap().enabled);
    assert!(d.find_user("c").is_none());
    assert!(d.find_role("r").unwrap().permissions.is_empty());
    assert_eq!(d.find_permission("p").unwrap().name, "first");
}

#[test]
fn resolved_roles_grant_in_any_order() {
    let d = directory(vec![]);
    for order in [["r1", "r2", "rgood"], ["rgood", "r2", "r1"], ["r2", "rgood", "r1"]] {
        let u = user("u", true, &order);
        assert!(does_user_have_permission(&d, &u, "B"));
        assert!(does_user_have_permission(&d, &u, "X"));
        assert!(!does_user_have_permission(&d, &u, "Y"));
    }
}

#[test]
fn refusal_reasons() {
    let d = Directory::new(
        vec![user("ok", true, &["r1"]), user("off", false, &["r1"]), user("broken", true, &["rbad"])],
        vec![role("r1", &["a"])],
        vec![permission("a", "A")],
    );
    let fresh = header_for("ok", NOW + 10);
    assert_eq!(check_access(&d, Some(&fresh), SECRET, NOW, "A"), Ok("ok".to_string()));
    assert_eq!(check_access(&d, Some(&fresh), SECRET, NOW, "Z"), Err(AccessError::PermissionDenied));
    assert_eq!(check_access(&d, Some(&fresh), SECRET, NOW, ""), Err(AccessError::PermissionDenied));
    assert_eq!(check_access(&d, None, SECRET, NOW, "A"), Err(AccessError::TokenMissing));
    assert_eq!(check_access(&d, Some("Bearer x"), SECRET, NOW, "A"), Err(AccessError::TokenMalformed));
    assert_eq!(check_access(&d, Some(&fresh), b"wrong", NOW, "A"), Err(AccessError::TokenSignatureInvalid));
    let stale = header_for("ok", NOW - 1);
    assert_eq!(check_access(&d, Some(&stale), SECRET, NOW, "A"), Err(AccessError::TokenExpired));
    let stranger = header_for("nobody", NOW + 10);
    assert_eq!(check_access(&d, Some(&stranger), SECRET, NOW, "A"), Err(AccessError::SubjectNotFound));
    assert_eq!(check_subject(&d, "off", "A"), Err(AccessError::AccountDisabled));
    assert_eq!(check_subject(&d, "broken", "A"), Err(AccessError::LookupFailure));
}
