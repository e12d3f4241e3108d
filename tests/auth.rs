use rust_web_app::auth::{create_ssid_cookie, hash_password, CredentialsFault, Error, Fault, HashFault};
use rust_web_app::controller::{parse_stock_id, GenericControllerError};
use rust_web_app::database;
use rust_web_app::password_hash::{check_password, PasswordCheck};
use rust_web_app::response::ErrorResponse;
use rust_web_app::session_token::{parse_session_token, session_token_text, SameSite, SessionCookie, SSID};
use rust_web_app::types::{
    ClientAuthenticationCredentials, ClientUser, DatabaseUser, ExtractClientAuthenticationCredentials,
};

#[test]
fn test_password_hash() {
    let password = "Password1!";
    let hash = hash_password(password).expect("Failed to hash password");

    assert!(hash.starts_with("$argon2id$"));
    assert_eq!(check_password(password, &hash), PasswordCheck::Verified);
    assert_eq!(check_password("WrongPassword", &hash), PasswordCheck::Mismatch);

    // Different salt
    let wrong_hash = hash_password(password).expect("Failed to hash password with different salt");
    assert_ne!(wrong_hash, hash);
    assert_eq!(check_password(password, &wrong_hash), PasswordCheck::Verified);
}

#[test]
fn malformed_hash_is_told_apart_from_a_mismatch() {
    assert_eq!(check_password("Password1!", "not a phc string"), PasswordCheck::Malformed);
    assert_eq!(check_password("Password1!", ""), PasswordCheck::Malformed);
}

#[test]
fn test_create_ssid_cookie_invalid_uuid() {
    assert!(create_ssid_cookie("invalid-uuid-string").is_err());
    let valid_size = "a".repeat(session_token_text(0x1234).len());
    assert!(create_ssid_cookie(&valid_size).is_err())
}

#[test]
fn test_create_ssid_cookie_valid_uuid() {
    let uuid = 0x550e8400_e29b_41d4_a716_446655440000u128;

    assert!(matches!(
        SessionCookie::for_token(uuid),
        SessionCookie { ref value, .. } if value == "550e8400-e29b-41d4-a716-446655440000"
    ));
    assert!(create_ssid_cookie(&session_token_text(uuid)).is_ok());
}

#[test]
fn ssid_cookie_has_the_session_attributes() {
    let cookie = create_ssid_cookie("550E8400-E29B-41D4-A716-446655440000").unwrap();
    assert_eq!(cookie.name, SSID);
    assert_eq!(cookie.name, "SSID");
    assert_eq!(cookie.value, "550e8400-e29b-41d4-a716-446655440000");
    assert!(cookie.http_only);
    assert!(cookie.secure);
    assert_eq!(cookie.path, "/");
    assert_eq!(cookie.same_site, SameSite::Strict);
    assert_eq!(cookie.max_age_seconds, 604800);
    match create_ssid_cookie("zzz") {
        Err(Error::InvalidSessionCookieWrongUuidFormat { ssid }) => assert_eq!(ssid, None),
        other => panic!("unexpected {:?}", other),
    }
}

#[test]
fn session_tokens_read_back_from_their_text() {
    let token = 0x0123_4567_89ab_cdef_0123_4567_89ab_cdefu128;
    let text = session_token_text(token);
    assert_eq!(text, "01234567-89ab-cdef-0123-456789abcdef");
    assert_eq!(parse_session_token(&text), Some(token));
    assert_eq!(parse_session_token("0123456789abcdef0123456789abcdef"), Some(token));
    assert_eq!(parse_session_token("invalid-uuid-format"), None);
}

#[test]
fn test_credentials_extractor_normalizes_email() {
    let credentials = ClientAuthenticationCredentials {
        email: "UPPERCASE_VALID_EMAIL@gmail.com".into(),
        password: "Password1!".into(),
    };
    let ExtractClientAuthenticationCredentials(response_credentials) =
        ExtractClientAuthenticationCredentials::from_credentials(credentials.clone());
    assert!(response_credentials.email == credentials.email.to_lowercase());
    assert_eq!(response_credentials.email, "uppercase_valid_email@gmail.com");
    assert_eq!(response_credentials.password, "Password1!");
}

#[test]
fn client_user_drops_the_secrets() {
    let user = DatabaseUser {
        id: 7,
        created_at: 11,
        account_id: 3,
        email: "a@example.com".into(),
        password_hash: "$argon2id$secret".into(),
    };
    let client = ClientUser::from(user);
    assert_eq!(client.id, 7);
    assert_eq!(client.email, "a@example.com");
    assert_eq!(client.created_at, 11);
}

fn check(e: Error, status: u16, message: &str) {
    assert_eq!(e.status(), status, "{:?}", e);
    assert_eq!(e.message(), message, "{:?}", e);
    let r = e.response();
    assert_eq!(r.status, status);
    assert_eq!(r.message, message);
}

#[test]
fn every_error_has_its_status_and_message() {
    check(Error::MissingSessionCookie, 401, "Missing ssid cookie");
    check(Error::MissingSessionInDatabase, 401, "Missing session for ssid cookie in database");
    check(Error::InvalidSessionCookieWrongUuidFormat { ssid: Some("x".into()) }, 401, "Invalid ssid cookie");
    check(Error::SessionExpired(0), 401, "Session expired at: 1970-01-01 00:00:00");
    check(Error::SessionExpired(1_500_000), 401, "Session expired at: 1970-01-01 00:00:01.500");
    check(Error::SessionExpired(i64::MAX), 401, "Session expired");
    check(Error::InvalidCredentials { cause: CredentialsFault::UnknownEmail }, 401, "Invalid email or password");
    check(Error::InvalidCredentials { cause: CredentialsFault::PasswordMismatch }, 401, "Invalid email or password");
    check(Error::PasswordRequirementsNotMet, 400, "Weak password does not meet the policy requirements");
    check(Error::AlreadyAuthenticated, 400, "Already authenticated");
    check(Error::ClientError { source: Some(Box::new(Error::MissingSessionCookie)) }, 400, "Bad Request");
    check(Error::ClientError { source: None }, 400, "Bad Request");
    check(Error::UserNotFound, 404, "User not found");
    check(Error::EmailTaken("a@example.com".into()), 409, "Email already taken: a@example.com");
    check(
        Error::DatabaseError(database::Error::ConnectionError("connection refused: secret".into())),
        500,
        "Internal Server Error",
    );
    check(Error::PasswordHashError(HashFault::MalformedHash), 500, "Internal Server Error");
    check(Error::PasswordHashError(HashFault::HashingFailed("salt".into())), 500, "Internal Server Error");
    check(Error::Other(Fault::UserMissingForValidSession), 500, "Internal Server Error");
    check(Error::Other(Fault::Message("boom".into())), 500, "Internal Server Error");
}

#[test]
fn default_error_response_is_internal_server_error() {
    let r = ErrorResponse::default();
    assert_eq!(r.status, 500);
    assert_eq!(r.message, "Internal Server Error");
    let top = rust_web_app::Error::from(Error::AlreadyAuthenticated);
    assert!(matches!(
        top,
        rust_web_app::Error::Controller(rust_web_app::controller::Error::Auth(Error::AlreadyAuthenticated))
    ));
    assert_eq!(top.response().status, 500);
}

#[test]
fn stock_ids_are_positive_i32() {
    assert_eq!(parse_stock_id("42".into()).unwrap(), 42);
    match parse_stock_id("abc".into()) {
        Err(GenericControllerError::IdNotInPostgresSerialRange { id }) => assert_eq!(id, "abc"),
        other => panic!("unexpected {:?}", other),
    }
    match parse_stock_id("-007".into()) {
        Err(GenericControllerError::IdNotInPostgresSerialRange { id }) => assert_eq!(id, "-7"),
        other => panic!("unexpected {:?}", other),
    }
    match parse_stock_id("0".into()) {
        Err(GenericControllerError::IdNotInPostgresSerialRange { id }) => assert_eq!(id, "0"),
        other => panic!("unexpected {:?}", other),
    }
    assert!(parse_stock_id("2147483648".into()).is_err());
}
