use auth_service::app_state::AppState;
use auth_service::auth::{SigningKey, TokenError};
use auth_service::data_stores::BannedTokenStore;
use auth_service::email::Email;
use auth_service::error::AuthAPIError;
use auth_service::hashmap_two_fa_code_store::HashmapTwoFACodeStore;
use auth_service::hashmap_user_store::HashmapUserStore;
use auth_service::hashset_banned_token_store::HashsetBannedTokenStore;
use auth_service::routes::{login, signup, verify_token, LoginRequest, SignupRequest, VerifyTokenRequest};

type InMemoryState = AppState<HashmapUserStore, HashsetBannedTokenStore, HashmapTwoFACodeStore>;

const NOW: u64 = 1_700_000_000;
const JTI: &str = "6f9619ff-8b86-d011-b42d-00c04fc964ff";

fn new_state(secret: &[u8]) -> InMemoryState {
    AppState::new(
        HashmapUserStore::default(),
        HashsetBannedTokenStore::default(),
        HashmapTwoFACodeStore::default(),
        SigningKey::new(secret.to_vec()).unwrap(),
    )
}

#[test]
fn should_return_200_valid_token() {
    let mut state = new_state(b"verify-test-secret");
    let random_email = "random@example.com";
    let request = SignupRequest { email: random_email.to_owned(), password: "password123".to_owned(), requires_2fa: false };
    assert_eq!(signup(&mut state, request), Ok(()));
    let mut jar = None;
    let _ = login(&mut state, &mut jar, LoginRequest { email: random_email.to_owned(), password: "password123".to_owned() }, NOW);
    let jwt_token = jar.expect("No auth cookie found");
    let output = verify_token(&state, VerifyTokenRequest { token: jwt_token }, NOW + 1);
    assert_eq!(output, Ok(random_email.to_owned()));
}

#[test]
fn verify_token_should_return_401_if_invalid_token() {
    let state = new_state(b"verify-test-secret");
    let output = verify_token(&state, VerifyTokenRequest { token: "invalid_token".to_owned() }, NOW);
    assert_eq!(output, Err(AuthAPIError::InvalidToken));
    assert_eq!(output.err().unwrap().status_code(), 401);
}

#[test]
fn should_return_401_if_banned_token() {
    let mut state = new_state(b"verify-test-secret");
    state.banned_token_store.add_token("banned_token".to_string(), NOW).unwrap();
    let output = verify_token(&state, VerifyTokenRequest { token: "banned_token".to_owned() }, NOW);
    assert_eq!(output, Err(AuthAPIError::InvalidToken));
}

#[test]
fn banned_valid_token_is_refused_until_entry_expires() {
    let mut state = new_state(b"verify-test-secret");
    let email = Email::parse("random@example.com".to_owned()).unwrap();
    let token = state.signing_key.issue(&JTI.to_owned(), &email, NOW);
    state.banned_token_store.add_token(token.clone(), NOW).unwrap();
    assert_eq!(state.banned_token_store.contains_token(&token, NOW + 3599), Ok(true));
    assert_eq!(state.banned_token_store.contains_token(&token, NOW + 3600), Ok(false));
    assert_eq!(verify_token(&state, VerifyTokenRequest { token }, NOW + 10), Err(AuthAPIError::InvalidToken));
}

#[test]
fn token_layout_and_expiry() {
    let state = new_state(b"verify-test-secret");
    let email = Email::parse("random@example.com".to_owned()).unwrap();
    let token = state.signing_key.issue(&JTI.to_owned(), &email, NOW);
    let parts: Vec<&str> = token.splitn(5, '.').collect();
    assert_eq!(parts.len(), 5);
    assert_eq!(parts[0].len(), 64);
    assert!(parts[0].chars().all(|c| c.is_ascii_hexdigit() && !c.is_ascii_uppercase()));
    assert_eq!(parts[1], JTI);
    assert_eq!(parts[2], "1700000000");
    assert_eq!(parts[3], "1700003600");
    assert_eq!(parts[4], "random@example.com");
    assert_eq!(state.signing_key.validate(&token, NOW + 3599), Ok("random@example.com".to_owned()));
    assert_eq!(state.signing_key.validate(&token, NOW + 3600), Err(TokenError::Expired));
}

#[test]
fn token_of_another_key_has_bad_signature() {
    let a = new_state(b"first-secret");
    let b = new_state(b"second-secret");
    let email = Email::parse("random@example.com".to_owned()).unwrap();
    let token = a.signing_key.issue(&JTI.to_owned(), &email, NOW);
    assert_eq!(b.signing_key.validate(&token, NOW), Err(TokenError::BadSignature));
    assert_eq!(verify_token(&b, VerifyTokenRequest { token: token.clone() }, NOW), Err(AuthAPIError::InvalidToken));
    let tampered = token.replacen("1700003600", "1800003600", 1);
    assert_eq!(a.signing_key.validate(&tampered, NOW), Err(TokenError::BadSignature));
}

#[test]
fn malformed_tokens() {
    let state = new_state(b"verify-test-secret");
    assert_eq!(state.signing_key.validate("", NOW), Err(TokenError::Malformed));
    assert_eq!(state.signing_key.validate("malformed_token_not_jwt", NOW), Err(TokenError::Malformed));
    assert_eq!(state.signing_key.validate("ab.cd.12x.34.a@b.c", NOW), Err(TokenError::Malformed));
    assert_eq!(state.signing_key.validate("ab.cd.12.34.not-an-email", NOW), Err(TokenError::Malformed));
    assert_eq!(state.signing_key.validate("ab.cd.12.34.a@b.c", NOW), Err(TokenError::BadSignature));
    let long = format!("ab.cd.12.34.{}", "x".repeat(2000));
    assert_eq!(state.signing_key.validate(&long, NOW), Err(TokenError::Malformed));
}
