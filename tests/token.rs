use ritw::{Sign, SignError, TOKEN_LIFETIME, Token, User, UserCreateInfo, token_cookie, token_from_cookie};

fn alice() -> User {
    User::from_info(UserCreateInfo {
        id: "u1".to_string(),
        name: "Alice".to_string(),
        password: "secret".to_string(),
    })
}

#[test]
fn token_expires_a_day_after_issue() {
    let t = Token::issued_at(&alice(), 1_700_000_000);
    assert_eq!(t.id(), "u1");
    assert_eq!(t.due(), 1_700_000_000 + 86_400);
    assert_eq!(TOKEN_LIFETIME, 86_400);
}

#[test]
fn expiry_boundary_one_hour_and_twenty_five_hours() {
    let t0: i64 = 1_700_000_000;
    let t = Token::issued_at(&alice(), t0);
    assert!(!t.expired_at(t0 + 3_600));
    assert!(t.expired_at(t0 + 25 * 3_600));
}

#[test]
fn expired_exactly_at_due() {
    let t = Token::issued_at(&alice(), 0);
    assert!(!t.expired_at(86_399));
    assert!(t.expired_at(86_400));
}

#[test]
fn due_is_held_at_the_largest_time() {
    let t = Token::issued_at(&alice(), i64::MAX - 10);
    assert_eq!(t.due(), i64::MAX);
}

#[test]
fn fresh_token_is_not_expired() {
    let t = Token::new(&alice());
    assert_eq!(t.id(), "u1");
    assert!(!t.expired());
}

#[test]
fn token_round_trip() {
    let sign = Sign::new("signing secret");
    let t = Token::issued_at(&alice(), 1_700_000_000);
    let blob = t.encode(&sign).unwrap();
    let back = Token::decode(&sign, &blob).unwrap();
    assert_eq!(back.id(), "u1");
    assert_eq!(back.due(), 1_700_000_000 + 86_400);
}

#[test]
fn token_payload_is_json_of_id_and_due() {
    let sign = Sign::new("signing secret");
    let t = Token::issued_at(&alice(), 5);
    let blob = t.encode(&sign).unwrap();
    let payload = sign.decrypt(&blob).unwrap();
    assert_eq!(payload, b"[\"u1\",86405]".to_vec());
}

#[test]
fn sealed_non_token_fails_decoding() {
    let sign = Sign::new("signing secret");
    let blob = sign.encrypt(b"not json").unwrap();
    assert!(matches!(Token::decode(&sign, &blob), Err(SignError)));
}

#[test]
fn token_under_other_key_fails_decoding() {
    let t = Token::issued_at(&alice(), 5);
    let blob = t.encode(&Sign::new("one")).unwrap();
    assert!(matches!(Token::decode(&Sign::new("two"), &blob), Err(SignError)));
    assert!(matches!(Token::decode(&Sign::new("one"), &blob[..11]), Err(SignError)));
}

#[test]
fn cookie_round_trip() {
    let sign = Sign::new("signing secret");
    let t = Token::issued_at(&alice(), 42);
    let value = token_cookie(&t, &sign).unwrap();
    assert!(value.ends_with('='));
    assert!(value.bytes().all(|c| c.is_ascii_alphanumeric() || c == b'+' || c == b'/' || c == b'='));
    let back = token_from_cookie(&sign, &value).unwrap();
    assert_eq!(back.id(), "u1");
    assert_eq!(back.due(), 42 + 86_400);
}

#[test]
fn cookie_that_is_not_base64_fails() {
    let sign = Sign::new("signing secret");
    assert!(matches!(token_from_cookie(&sign, "not base64!"), Err(SignError)));
    assert!(matches!(token_from_cookie(&sign, "AAAA"), Err(SignError)));
}

#[test]
fn signup_then_signin_scenario() {
    let sign = Sign::new("signing secret");
    let stored = alice();
    let now: i64 = 1_700_000_000;
    let cookie = token_cookie(&Token::issued_at(&stored, now), &sign).unwrap();
    let token = token_from_cookie(&sign, &cookie).unwrap();
    assert_eq!(token.id(), "u1");
    assert!(!token.expired_at(now));

    let wrong = User::from_info(UserCreateInfo {
        id: "u1".to_string(),
        name: String::new(),
        password: "wrong".to_string(),
    });
    assert_eq!(ritw::check_signin(&wrong, Some(&stored)), ritw::SigninOutcome::WrongPassword);
    let ghost = User::from_info(UserCreateInfo {
        id: "ghost".to_string(),
        name: String::new(),
        password: "secret".to_string(),
    });
    assert_eq!(ritw::check_signin(&ghost, None), ritw::SigninOutcome::UnknownUser);
}

#[test]
fn session_requires_unexpired_token() {
    let sign = Sign::new("signing secret");
    let t0: i64 = 1_700_000_000;
    let value = token_cookie(&Token::issued_at(&alice(), t0), &sign).unwrap();
    let live = ritw::session_at(&sign, &value, t0 + 3_600).unwrap();
    assert_eq!(live.id(), "u1");
    assert!(ritw::session_at(&sign, &value, t0 + 25 * 3_600).is_none());
    assert!(ritw::session_at(&sign, &value, t0 + 86_400).is_none());
    assert!(ritw::session_at(&sign, "garbage", t0).is_none());
    assert!(ritw::session_at(&Sign::new("other"), &value, t0).is_none());
}

#[test]
fn session_now_accepts_fresh_token() {
    let sign = Sign::new("signing secret");
    let value = token_cookie(&Token::new(&alice()), &sign).unwrap();
    assert_eq!(ritw::session(&sign, &value).unwrap().id(), "u1");
}
