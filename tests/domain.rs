use auth_service::data_stores::{LoginAttemptId, TwoFACode};
use auth_service::email::Email;
use auth_service::password::Password;
use auth_service::text::{parse_dec, render_dec, render_hex};

#[test]
fn email_is_lower_cased() {
    let e = Email::parse("Alice@Example.COM".to_owned()).unwrap();
    assert_eq!(e.as_ref(), "alice@example.com");
}

#[test]
fn email_shapes() {
    assert_eq!(Email::parse("".to_owned()).err(), Some("Invalid email".to_owned()));
    assert!(Email::parse("invalid_email".to_owned()).is_err());
    assert!(Email::parse("@example.com".to_owned()).is_err());
    assert!(Email::parse("bob@".to_owned()).is_err());
    assert!(Email::parse("a@b@c".to_owned()).is_err());
    assert!(Email::parse("a@x.com".to_owned()).is_ok());
    let longest = format!("{}@x.com", "a".repeat(248));
    assert_eq!(longest.len(), 254);
    assert!(Email::parse(longest.clone()).is_ok());
    assert!(Email::parse(format!("a{}", longest)).is_err());
}

#[test]
fn password_needs_eight_characters() {
    assert_eq!(Password::parse("invalid".to_owned()).err(), Some("Invalid password".to_owned()));
    assert!(Password::parse("".to_owned()).is_err());
    assert!(Password::parse("password".to_owned()).is_ok());
    assert_eq!(Password::parse("password123".to_owned()).unwrap().as_ref(), "password123");
}

#[test]
fn two_fa_code_is_six_digits() {
    assert!(TwoFACode::parse("123456".to_owned()).is_ok());
    assert!(TwoFACode::parse("12345".to_owned()).is_err());
    assert!(TwoFACode::parse("1234567".to_owned()).is_err());
    assert!(TwoFACode::parse("12a456".to_owned()).is_err());
    for bad in ["invalid_2fa_code", "12345", "1234567", "", "12a456"] {
        assert_eq!(TwoFACode::parse(bad.to_owned()), Err("Invalid 2FA code".to_owned()));
    }
}

#[test]
fn login_attempt_id_forms() {
    assert!(LoginAttemptId::parse("550e8400-e29b-41d4-a716-446655440000".to_owned()).is_ok());
    assert!(LoginAttemptId::parse("550E8400-E29B-41D4-A716-446655440000".to_owned()).is_ok());
    assert!(LoginAttemptId::parse("550e8400e29b41d4a716446655440000".to_owned()).is_ok());
    assert!(LoginAttemptId::parse("{550e8400-e29b-41d4-a716-446655440000}".to_owned()).is_ok());
    assert!(LoginAttemptId::parse("URN:uuid:550e8400-e29b-41d4-a716-446655440000".to_owned()).is_ok());
    for bad in ["invalid_login_attempt_id", "123456"] {
        assert_eq!(LoginAttemptId::parse(bad.to_owned()), Err("Invalid login attempt ID".to_owned()));
    }
    assert!(LoginAttemptId::parse("123456".to_owned()).is_err());
    assert!(LoginAttemptId::parse("550e8400-e29b-41d4-a716-44665544000g".to_owned()).is_err());
    assert!(LoginAttemptId::parse("550e8400+e29b-41d4-a716-446655440000".to_owned()).is_err());
}

#[test]
fn decimal_rendering_and_parsing() {
    assert_eq!(render_dec(0), "0");
    assert_eq!(render_dec(1700003600), "1700003600");
    assert_eq!(render_dec(u64::MAX), "18446744073709551615");
    assert_eq!(parse_dec("1700003600"), Some(1700003600));
    assert_eq!(parse_dec("18446744073709551615"), Some(u64::MAX));
    assert_eq!(parse_dec("18446744073709551616"), None);
    assert_eq!(parse_dec(""), None);
    assert_eq!(parse_dec("12a"), None);
}

#[test]
fn hex_rendering() {
    assert_eq!(render_hex(&vec![0x00, 0x0f, 0xa5, 0xff]), "000fa5ff");
    assert_eq!(render_hex(&vec![]), "");
}

#[test]
fn code_from_number_spells_it() {
    assert_eq!(TwoFACode::from_number(100000).as_ref(), "100000");
    assert_eq!(TwoFACode::from_number(999999).as_ref(), "999999");
    assert_eq!(TwoFACode::from_number(482913).as_ref(), "482913");
}
