use base64::Engine;
use secure_chat::auth::{
    authenticate_admin, authenticate_user, decode_basic_auth_header, hash_password,
    verify_password,
};
use secure_chat::models::{Credential, User};
use secure_chat::AppError;

fn basic_header(credentials: &str) -> String {
    let encoded = base64::engine::general_purpose::STANDARD.encode(credentials);
    format!("Basic {}", encoded)
}

fn user_with_password(password: &str) -> User {
    User {
        id: 1,
        username: "alice".to_string(),
        role: "user".to_string(),
        password_hash: hash_password(password).unwrap(),
        created_at: 1_700_000_000,
    }
}

#[test]
fn hash_then_verify_accepts_the_password() {
    let hash = hash_password("correct horse").unwrap();
    assert!(verify_password("correct horse", &hash).unwrap());
}

#[test]
fn verify_rejects_a_different_password() {
    let hash = hash_password("correct horse").unwrap();
    assert!(!verify_password("battery staple", &hash).unwrap());
}

#[test]
fn two_hashes_of_one_password_differ() {
    let first = hash_password("same password").unwrap();
    let second = hash_password("same password").unwrap();
    assert_ne!(first, second);
}

#[test]
fn verify_fails_on_malformed_hash() {
    assert!(matches!(
        verify_password("pw", "not a bcrypt hash"),
        Err(AppError::HashingError)
    ));
}

#[test]
fn decode_well_formed_header() {
    let header = basic_header("alice:secret");
    let credential = decode_basic_auth_header(Some(&header)).unwrap();
    assert_eq!(credential.username, "alice");
    assert_eq!(credential.password, "secret");
}

#[test]
fn decode_missing_header() {
    match decode_basic_auth_header(None) {
        Err(AppError::Unauthorized(m)) => assert_eq!(m, "Missing Authorization header"),
        other => panic!("expected Unauthorized, got {:?}", other),
    }
}

#[test]
fn decode_wrong_scheme() {
    match decode_basic_auth_header(Some("Bearer abcdef")) {
        Err(AppError::Unauthorized(m)) => assert_eq!(m, "Invalid authentication scheme"),
        other => panic!("expected Unauthorized, got {:?}", other),
    }
}

#[test]
fn decode_invalid_base64() {
    match decode_basic_auth_header(Some("Basic !!!not-base64!!!")) {
        Err(AppError::BadRequest(m)) => assert_eq!(m, "Invalid Base64 in credentials"),
        other => panic!("expected BadRequest, got {:?}", other),
    }
}

#[test]
fn decode_invalid_utf8() {
    let encoded = base64::engine::general_purpose::STANDARD.encode([0xffu8, 0xfe, 0xfd]);
    let header = format!("Basic {}", encoded);
    match decode_basic_auth_header(Some(&header)) {
        Err(AppError::BadRequest(m)) => assert_eq!(m, "Invalid UTF-8 in credentials"),
        other => panic!("expected BadRequest, got {:?}", other),
    }
}

#[test]
fn decode_without_separator() {
    let header = basic_header("noseparator");
    match decode_basic_auth_header(Some(&header)) {
        Err(AppError::BadRequest(m)) => assert_eq!(m, "Missing password"),
        other => panic!("expected BadRequest, got {:?}", other),
    }
}

#[test]
fn decode_empty_password_is_accepted() {
    let header = basic_header("alice:");
    let credential = decode_basic_auth_header(Some(&header)).unwrap();
    assert_eq!(credential.username, "alice");
    assert_eq!(credential.password, "");
}

#[test]
fn decode_empty_username_is_accepted() {
    let header = basic_header(":secret");
    let credential = decode_basic_auth_header(Some(&header)).unwrap();
    assert_eq!(credential.username, "");
    assert_eq!(credential.password, "secret");
}

#[test]
fn decode_splits_at_first_colon_only() {
    let header = basic_header("alice:se:cr:et");
    let credential = decode_basic_auth_header(Some(&header)).unwrap();
    assert_eq!(credential.username, "alice");
    assert_eq!(credential.password, "se:cr:et");
}

#[test]
fn authenticate_user_with_correct_password() {
    let user = user_with_password("secret");
    let credential = Credential {
        username: "alice".to_string(),
        password: "secret".to_string(),
    };
    let authenticated = authenticate_user(&credential, Some(user)).unwrap();
    assert_eq!(authenticated.username, "alice");
    assert_eq!(authenticated.id, 1);
}

#[test]
fn unknown_user_and_wrong_password_yield_identical_messages() {
    let user = user_with_password("right");
    let credential = Credential {
        username: "alice".to_string(),
        password: "wrong".to_string(),
    };
    let unknown = authenticate_user(&credential, None);
    let mismatched = authenticate_user(&credential, Some(user));
    let m1 = match unknown {
        Err(AppError::Unauthorized(m)) => m,
        other => panic!("expected Unauthorized, got {:?}", other),
    };
    let m2 = match mismatched {
        Err(AppError::Unauthorized(m)) => m,
        other => panic!("expected Unauthorized, got {:?}", other),
    };
    assert_eq!(m1, m2);
    assert_eq!(m1, "Invalid username or password");
}

#[test]
fn authenticate_user_with_malformed_stored_hash() {
    let user = User {
        id: 2,
        username: "bob".to_string(),
        role: "user".to_string(),
        password_hash: "corrupted".to_string(),
        created_at: 0,
    };
    let credential = Credential {
        username: "bob".to_string(),
        password: "anything".to_string(),
    };
    assert!(matches!(
        authenticate_user(&credential, Some(user)),
        Err(AppError::HashingError)
    ));
}

#[test]
fn admin_with_matching_credentials() {
    let header = basic_header("root:hunter2");
    assert!(authenticate_admin(Some(&header), "root", "hunter2").is_ok());
}

#[test]
fn admin_with_wrong_credentials_is_forbidden() {
    for creds in ["root:wrong", "impostor:hunter2", "impostor:wrong"] {
        let header = basic_header(creds);
        match authenticate_admin(Some(&header), "root", "hunter2") {
            Err(AppError::Forbidden(m)) => {
                assert_eq!(m, "You are not authorized to perform this action.")
            }
            other => panic!("expected Forbidden, got {:?}", other),
        }
    }
}

#[test]
fn admin_propagates_decoding_failures() {
    assert!(matches!(
        authenticate_admin(None, "root", "hunter2"),
        Err(AppError::Unauthorized(_))
    ));
    assert!(matches!(
        authenticate_admin(Some("Basic ???"), "root", "hunter2"),
        Err(AppError::BadRequest(_))
    ));
}

#[test]
fn status_codes_match_error_kinds() {
    assert_eq!(AppError::Unauthorized(String::new()).status_code(), 401);
    assert_eq!(AppError::BadRequest(String::new()).status_code(), 400);
    assert_eq!(AppError::Forbidden(String::new()).status_code(), 403);
    assert_eq!(AppError::CryptoError.status_code(), 500);
    assert_eq!(AppError::FormatError.status_code(), 500);
    assert_eq!(AppError::ConfigurationError.status_code(), 500);
    assert_eq!(AppError::HashingError.status_code(), 500);
    assert_eq!(AppError::EncodingError.status_code(), 500);
}
