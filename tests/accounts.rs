use rbac_guard::auth::{
    account_decision, authenticate, check_account, issue_claims, validate_login,
    AuthenticationRequest, AuthenticationResponse, LoginError,
};
use rbac_guard::config::{Config, MongoDB, ServerConfig, JWT};
use rbac_guard::directory::Directory;
use rbac_guard::dto::{
    convert_permission_to_dto, convert_role_to_dto, convert_user_to_dto, CreatePermission,
    CreateRole, CreateUser, RegisterRequest, UpdateRequest, UpdateRole, UpdateUser,
};
use rbac_guard::records::{
    apply_details_update, apply_role_update, apply_user_update, first_unknown_permission,
    first_unknown_role, hashed_password, new_permission_record, new_role_record, new_user_record,
    registered_user_record,
};
use rbac_guard::model::{Permission, Role, User};
use rbac_guard::requests::{
    is_taken, is_valid_email, new_account_decision, validate_details, validate_name,
    validate_new_account, validate_password, RequestError,
};
use rbac_guard::responses::{BadRequest, HealthResponse, InternalServerError};
use rbac_guard::store::{Repositories, Services, UserRepository, UserService};
use rbac_guard::time::Timestamp;
use rbac_guard::token::decode;

fn account(password_hash: &str, enabled: bool) -> User {
    User {
        id: "id-7".to_string(),
        username: "dave".to_string(),
        email_address: "dave@example.com".to_string(),
        password: password_hash.to_string(),
        first_name: "Dave".to_string(),
        last_name: "Doe".to_string(),
        enabled,
        roles: vec!["r".to_string(), "missing".to_string()],
        created_at: "then".to_string(),
        last_active: "now".to_string(),
    }
}

fn request(username: &str, password: &str) -> AuthenticationRequest {
    AuthenticationRequest { username: username.to_string(), password: password.to_string() }
}

fn jwt() -> JWT {
    JWT { secret: "login-secret".to_string(), expires: 3_600_500 }
}

#[test]
fn login_issues_token_for_the_user() {
    let hash = bcrypt::hash("hunter2", 4).unwrap();
    let user = account(&hash, true);
    let now = Timestamp { seconds: 1_000, nanos: 700_000_000 };
    let response = authenticate(&request("dave", "hunter2"), Some(&user), &jwt(), now).unwrap();
    let claims = decode(&response.token, b"login-secret", 1_000).unwrap();
    assert_eq!(claims.sub, "id-7");
    assert_eq!(claims.iat, Timestamp { seconds: 1_000, nanos: 0 });
    assert_eq!(claims.exp, Timestamp { seconds: 4_601, nanos: 0 });
}

#[test]
fn login_refusals() {
    let hash = bcrypt::hash("hunter2", 4).unwrap();
    let user = account(&hash, true);
    let now = Timestamp { seconds: 0, nanos: 0 };
    let wrong = authenticate(&request("dave", "nope"), Some(&user), &jwt(), now);
    assert_eq!(wrong.err(), Some(LoginError::Unauthorized));
    let unknown = authenticate(&request("dave", "hunter2"), None, &jwt(), now);
    assert_eq!(unknown.err(), Some(LoginError::Unauthorized));
    let disabled = account(&hash, false);
    let off = authenticate(&request("dave", "hunter2"), Some(&disabled), &jwt(), now);
    assert_eq!(off.err(), Some(LoginError::Unauthorized));
    let empty_name = authenticate(&request("", "hunter2"), Some(&user), &jwt(), now);
    assert_eq!(empty_name.err(), Some(LoginError::EmptyUsername));
    let empty_password = authenticate(&request("dave", ""), Some(&user), &jwt(), now);
    assert_eq!(empty_password.err(), Some(LoginError::EmptyPassword));
}

#[test]
fn login_with_unreadable_hash_fails() {
    let user = account("not-a-bcrypt-hash", true);
    assert_eq!(check_account(Some(&user), "x"), Err(LoginError::HashFailure));
}

#[test]
fn login_with_expiry_out_of_range_fails() {
    let hash = bcrypt::hash("pw", 4).unwrap();
    let user = account(&hash, true);
    let far = JWT { secret: "k".to_string(), expires: i64::MAX };
    let now = Timestamp { seconds: i64::MAX - 10, nanos: 0 };
    let r = authenticate(&request("dave", "pw"), Some(&user), &far, now);
    assert_eq!(r.err(), Some(LoginError::TokenFailure));
}

#[test]
fn login_with_session_end_beyond_the_date_range_fails() {
    let hash = bcrypt::hash("pw", 4).unwrap();
    let user = account(&hash, true);
    let now = Timestamp { seconds: 8_210_266_876_000, nanos: 0 };
    let r = authenticate(&request("dave", "pw"), Some(&user), &jwt(), now);
    assert_eq!(r.err(), Some(LoginError::TokenFailure));
}

#[test]
fn account_decisions() {
    let user = account("h", true);
    assert_eq!(account_decision(Some(&user), Some(true)), Ok(()));
    assert_eq!(account_decision(Some(&user), Some(false)), Err(LoginError::Unauthorized));
    assert_eq!(account_decision(Some(&user), None), Err(LoginError::HashFailure));
    assert_eq!(account_decision(None, Some(true)), Err(LoginError::Unauthorized));
    let off = account("h", false);
    assert_eq!(account_decision(Some(&off), Some(true)), Err(LoginError::Unauthorized));
    assert_eq!(validate_login(&request("a", "b")), Ok(()));
}

#[test]
fn claims_for_a_session() {
    let now = Timestamp { seconds: 10, nanos: 900_000_000 };
    let c = issue_claims("s", now, 250).unwrap();
    assert_eq!(c.iat, Timestamp { seconds: 10, nanos: 0 });
    assert_eq!(c.exp, Timestamp { seconds: 11, nanos: 0 });
    assert!(issue_claims("s", Timestamp { seconds: i64::MAX, nanos: 0 }, 1_000).is_none());
    assert_eq!(AuthenticationResponse::new("t").token, "t");
}

#[test]
fn email_shapes() {
    assert!(is_valid_email("john.doe@example.com"));
    assert!(is_valid_email("a+b@mail.co.uk"));
    assert!(!is_valid_email("not-an-email"));
    assert!(!is_valid_email("John@Example.com"));
    assert!(!is_valid_email("@example.com"));
}

#[test]
fn new_account_checks_in_order() {
    assert_eq!(validate_new_account("", "", ""), Err(RequestError::EmptyUsername));
    assert_eq!(validate_new_account("u", "", "x"), Err(RequestError::EmptyPassword));
    assert_eq!(validate_new_account("u", "p", ""), Err(RequestError::EmptyEmailAddress));
    assert_eq!(validate_new_account("u", "p", "bad"), Err(RequestError::InvalidEmailAddress));
    assert_eq!(validate_new_account("u", "p", "u@example.com"), Ok(()));
    assert_eq!(new_account_decision("u", "p", "e", true), Ok(()));
    assert_eq!(new_account_decision("u", "p", "e", false), Err(RequestError::InvalidEmailAddress));
}

#[test]
fn detail_and_name_checks() {
    assert_eq!(validate_details("", "u@example.com"), Err(RequestError::EmptyUsername));
    assert_eq!(validate_details("u", ""), Err(RequestError::EmptyEmailAddress));
    assert_eq!(validate_details("u", "nope"), Err(RequestError::InvalidEmailAddress));
    assert_eq!(validate_details("u", "u@example.com"), Ok(()));
    assert_eq!(validate_name(""), Err(RequestError::EmptyName));
    assert_eq!(validate_name("admins"), Ok(()));
    assert_eq!(validate_password(""), Err(RequestError::EmptyPassword));
    assert_eq!(validate_password("x"), Ok(()));
}

#[test]
fn taken_values() {
    assert!(!is_taken(None, Some("me")));
    assert!(is_taken(Some("other"), None));
    assert!(is_taken(Some("other"), Some("me")));
    assert!(!is_taken(Some("me"), Some("me")));
}

#[test]
fn refusal_messages() {
    assert_eq!(RequestError::EmptyUsername.message(), "Username cannot be empty!");
    assert_eq!(RequestError::EmailAddressTaken.message(), "Email address is already taken!");
    assert_eq!(RequestError::InvalidUuid.message(), "Invalid UUID");
    let bad = BadRequest::new(RequestError::EmptyName.message());
    assert_eq!(bad.message, "Name cannot be empty!");
    assert_eq!(bad.error_code, 400);
    assert!(!bad.timestamp.is_empty());
    let internal = InternalServerError::new("boom");
    assert_eq!(internal.error_code, 500);
    assert_eq!(internal.message, "boom");
    assert_eq!(HealthResponse::new("UP").status, "UP");
}

#[test]
fn dto_conversions_skip_missing_records() {
    let d = Directory::new(
        vec![],
        vec![Role {
            id: "r".to_string(),
            name: "readers".to_string(),
            description: "read".to_string(),
            permissions: vec!["p1".to_string(), "gone".to_string(), "p2".to_string()],
        }],
        vec![
            Permission { id: "p1".to_string(), name: "A".to_string(), description: "a".to_string() },
            Permission { id: "p2".to_string(), name: "B".to_string(), description: "b".to_string() },
        ],
    );
    let role_dto = convert_role_to_dto(&d, &d.roles[0]);
    assert_eq!(role_dto.name, "readers");
    let names: Vec<&str> = role_dto.permissions.iter().map(|p| p.name.as_str()).collect();
    assert_eq!(names, vec!["A", "B"]);
    let user_dto = convert_user_to_dto(&d, &account("secret-hash", true));
    assert_eq!(user_dto.id, "id-7");
    assert_eq!(user_dto.roles.len(), 1);
    assert_eq!(user_dto.roles[0].permissions.len(), 2);
    let p = convert_permission_to_dto(Permission {
        id: "i".to_string(),
        name: "n".to_string(),
        description: "d".to_string(),
    });
    assert_eq!((p.id.as_str(), p.name.as_str(), p.description.as_str()), ("i", "n", "d"));
}

#[test]
fn services_use_configured_collections() {
    let config = Config {
        server: ServerConfig { host: "localhost".to_string(), port: 8080 },
        mongodb: MongoDB {
            address: "db".to_string(),
            port: 27017,
            database: "admin".to_string(),
            user: "u".to_string(),
            password: "p".to_string(),
            ssl: false,
            auth_source: "admin".to_string(),
            permission_collection: "permissions".to_string(),
            role_collection: "roles".to_string(),
            user_collection: "users".to_string(),
        },
        jwt: jwt(),
    };
    let repositories = Repositories::new(&config);
    assert_eq!(repositories.role_repository.collection, "roles");
    let services = Services::new(&config);
    assert_eq!(services.user_service.repository.collection, "users");
    assert_eq!(services.role_service.repository.collection, "roles");
    assert_eq!(services.permission_service.repository.collection, "permissions");
    let single = UserService::new(UserRepository::new("people"));
    assert_eq!(single.repository.collection, "people");
}

#[test]
fn records_from_requests() {
    let create = CreateUser {
        username: "erin".to_string(),
        email_address: "erin@example.com".to_string(),
        password: "pw".to_string(),
        first_name: "Erin".to_string(),
        last_name: "Eve".to_string(),
        roles: vec!["r1".to_string()],
    };
    let u = new_user_record(&create).unwrap();
    assert!(u.enabled);
    assert_eq!(u.roles, vec!["r1".to_string()]);
    assert_eq!(u.last_active, "");
    assert_ne!(u.password, "pw");
    assert!(bcrypt::verify("pw", &u.password).unwrap());
    assert!(!u.id.is_empty());
    let reg = RegisterRequest {
        first_name: "F".to_string(),
        last_name: "L".to_string(),
        username: "fl".to_string(),
        email_address: "fl@example.com".to_string(),
        password: "secret".to_string(),
    };
    let r = registered_user_record(&reg).unwrap();
    assert!(r.roles.is_empty());
    assert_eq!(r.username, "fl");
    let role = new_role_record(&CreateRole {
        name: "n".to_string(),
        description: "d".to_string(),
        permissions: vec!["p".to_string(), "q".to_string()],
    });
    assert_eq!(role.permissions, vec!["p".to_string(), "q".to_string()]);
    let twin = new_role_record(&CreateRole {
        name: "n".to_string(),
        description: "d".to_string(),
        permissions: vec![],
    });
    assert_ne!(role.id, twin.id);
    let p = new_permission_record(&CreatePermission {
        name: "CAN_READ_USER".to_string(),
        description: "read".to_string(),
        permissions: vec![],
    });
    assert_eq!(p.name, "CAN_READ_USER");
    assert!(!p.id.is_empty());
}

#[test]
fn record_updates_and_reference_checks() {
    let mut u = account("hash", true);
    apply_user_update(&mut u, &UpdateUser {
        username: "new".to_string(),
        email_address: "new@example.com".to_string(),
        first_name: "N".to_string(),
        last_name: "M".to_string(),
        enabled: false,
        roles: vec![],
    });
    assert_eq!((u.username.as_str(), u.enabled, u.password.as_str()), ("new", false, "hash"));
    assert!(u.roles.is_empty());
    apply_details_update(&mut u, &UpdateRequest {
        username: "self".to_string(),
        email_address: "self@example.com".to_string(),
        first_name: "S".to_string(),
        last_name: "T".to_string(),
    });
    assert_eq!((u.username.as_str(), u.enabled), ("self", false));
    let mut role = Role {
        id: "r".to_string(),
        name: "old".to_string(),
        description: "".to_string(),
        permissions: vec![],
    };
    apply_role_update(&mut role, &UpdateRole {
        name: "fresh".to_string(),
        description: "d".to_string(),
        permissions: vec!["p1".to_string()],
    });
    assert_eq!((role.id.as_str(), role.name.as_str()), ("r", "fresh"));
    let d = Directory::new(vec![], vec![role], vec![Permission {
        id: "p1".to_string(),
        name: "A".to_string(),
        description: "".to_string(),
    }]);
    let ids = vec!["r".to_string(), "zz".to_string(), "yy".to_string()];
    assert_eq!(first_unknown_role(&d, &ids), Some(1));
    assert_eq!(first_unknown_role(&d, &vec!["r".to_string()]), None);
    assert_eq!(first_unknown_permission(&d, &vec!["p1".to_string(), "x".to_string()]), Some(1));
    assert_eq!(first_unknown_permission(&d, &vec![]), None);
    assert_eq!(hashed_password(""), Err(RequestError::EmptyPassword));
    let h = hashed_password("pw").unwrap();
    assert_ne!(h, "pw");
    assert!(bcrypt::verify("pw", &h).unwrap());
}
