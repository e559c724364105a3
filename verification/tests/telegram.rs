use e_signature_api::auth::validate_jwt;
use e_signature_api::otp::{verify_otp, OtpError, VerifyRequest};
use e_signature_api::state::AppState;
use e_signature_api::telegram::{
    confirm_link, confirm_link_at, create_link, create_link_with, plan_confirmation,
    plan_confirmation_now, ConfirmTelegramRequest, LinkError,
};
use e_signature_api::users::{create_user_with, CreateUser, Role};

const NOW: i64 = 1_700_000_000;

fn email_payload(email: &str) -> serde_json::Value {
    let mut map = serde_json::Map::new();
    map.insert("email".to_string(), serde_json::Value::from(email));
    serde_json::Value::Object(map)
}

fn admin(email: &str) -> CreateUser {
    CreateUser {
        email: email.to_string(),
        password: "pw".to_string(),
        role: Role::Admin,
        legal_name: None,
        tax_id: None,
        full_name: None,
        phone_number: None,
        is_verified: None,
        national_id: None,
    }
}

fn confirm(token: &str, chat_id: i64) -> ConfirmTelegramRequest {
    ConfirmTelegramRequest { token: token.to_string(), chat_id }
}

#[test]
fn link_is_confirmed_once() {
    let mut state = AppState::new();
    create_user_with(&mut state, &admin("a@x.com"), "hash", NOW).unwrap();
    let created = create_link_with(&mut state, &email_payload("a@x.com"), "T1", NOW).unwrap();
    assert_eq!(created.token, "T1");
    assert_eq!(created.link, "https://web.telegram.org/k/#@e_signature_bot?start=T1");

    let bundle = confirm_link_at(&mut state, &confirm("T1", 555), "secret", NOW + 5, 123_456).unwrap();
    assert_eq!(
        bundle.session_token,
        e_signature_api::auth::create_jwt_at("1", "secret", NOW + 5).unwrap()
    );
    assert_eq!(bundle.otp_code, "123456");
    assert_eq!(bundle.otp_expiry, "2023-11-14T22:18:25+00:00");

    let link = state.telegram_links.find("T1").unwrap();
    assert!(link.confirmed);
    assert_eq!(link.chat_id, Some(555));
    assert_eq!(link.confirmed_at, Some(NOW + 5));
    assert_eq!(link.created_at, Some(NOW));
    assert_eq!(link.id, 1);
    assert_eq!(link.email, "a@x.com");

    let again = confirm_link_at(&mut state, &confirm("T1", 555), "secret", NOW + 6, 654_321);
    assert_eq!(again.err(), Some(LinkError::UnknownOrAlreadyConfirmed));
    let row = state.otp_codes.find("a@x.com").unwrap();
    assert_eq!(row.code, "123456");
    assert_eq!(row.expires_at, NOW + 5 + 300);
}

#[test]
fn unknown_token_fails_and_changes_nothing() {
    let mut state = AppState::new();
    create_user_with(&mut state, &admin("a@x.com"), "hash", NOW).unwrap();
    create_link_with(&mut state, &email_payload("a@x.com"), "T1", NOW).unwrap();
    let outcome = confirm_link(&mut state, &confirm("T2", 555), "secret");
    assert_eq!(outcome.err(), Some(LinkError::UnknownOrAlreadyConfirmed));
    assert!(state.otp_codes.find("a@x.com").is_none());
    assert!(!state.telegram_links.find("T1").unwrap().confirmed);
    assert!(state.telegram_links.find("T2").is_none());
}

#[test]
fn confirmation_without_account_keeps_the_link_confirmed() {
    let mut state = AppState::new();
    create_link_with(&mut state, &email_payload("ghost@x.com"), "T1", NOW).unwrap();
    let outcome = confirm_link_at(&mut state, &confirm("T1", 7), "secret", NOW + 1, 123_456);
    assert_eq!(outcome.err(), Some(LinkError::AccountNotFound));
    assert!(state.telegram_links.find("T1").unwrap().confirmed);
    assert!(state.otp_codes.find("ghost@x.com").is_none());
    let again = confirm_link_at(&mut state, &confirm("T1", 7), "secret", NOW + 2, 123_456);
    assert_eq!(again.err(), Some(LinkError::UnknownOrAlreadyConfirmed));
}

#[test]
fn create_link_needs_an_email() {
    let mut state = AppState::new();
    let empty = serde_json::Value::Object(serde_json::Map::new());
    assert_eq!(create_link(&mut state, &empty).err(), Some(LinkError::MissingField));
    let mut map = serde_json::Map::new();
    map.insert("email".to_string(), serde_json::Value::from(5u64));
    let numeric = serde_json::Value::Object(map);
    assert_eq!(create_link(&mut state, &numeric).err(), Some(LinkError::MissingField));
    assert_eq!(state.telegram_links.len(), 0);
}

#[test]
fn duplicate_token_is_a_conflict() {
    let mut state = AppState::new();
    create_link_with(&mut state, &email_payload("a@x.com"), "T1", NOW).unwrap();
    let outcome = create_link_with(&mut state, &email_payload("b@x.com"), "T1", NOW);
    assert_eq!(outcome.err(), Some(LinkError::Conflict));
    assert_eq!(state.telegram_links.len(), 1);
}

#[test]
fn created_tokens_are_hyphenated_uuids() {
    let mut state = AppState::new();
    let first = create_link(&mut state, &email_payload("a@x.com")).unwrap();
    let second = create_link(&mut state, &email_payload("a@x.com")).unwrap();
    assert_ne!(first.token, second.token);
    for created in [&first, &second] {
        let chars: Vec<char> = created.token.chars().collect();
        assert_eq!(chars.len(), 36);
        for (i, c) in chars.iter().enumerate() {
            if i == 8 || i == 13 || i == 18 || i == 23 {
                assert_eq!(*c, '-');
            } else {
                assert!(c.is_ascii_digit() || ('a'..='f').contains(c));
            }
        }
        assert_eq!(chars[14], '4');
        assert!(['8', '9', 'a', 'b'].contains(&chars[19]));
        assert_eq!(
            created.link,
            format!("https://web.telegram.org/k/#@e_signature_bot?start={}", created.token)
        );
    }
    assert_eq!(state.telegram_links.len(), 2);
    assert_eq!(state.telegram_links.find(&second.token).unwrap().id, 2);
}

#[test]
fn confirmed_link_yields_session_and_passcode() {
    let mut state = AppState::new();
    create_user_with(&mut state, &admin("other@x.com"), "hash", NOW).unwrap();
    create_user_with(&mut state, &admin("a@x.com"), "hash", NOW).unwrap();
    let created = create_link(&mut state, &email_payload("a@x.com")).unwrap();
    let bundle = confirm_link(&mut state, &confirm(&created.token, 555), "secret").unwrap();
    let claims = validate_jwt(&bundle.session_token, "secret").unwrap();
    assert_eq!(claims.sub, "2");
    let good = VerifyRequest { email: "a@x.com".to_string(), code: bundle.otp_code.clone() };
    assert_eq!(verify_otp(&mut state, &good), Ok(()));
    assert_eq!(verify_otp(&mut state, &good), Err(OtpError::AlreadyUsed));
    let again = confirm_link(&mut state, &confirm(&created.token, 555), "secret");
    assert_eq!(again.err(), Some(LinkError::UnknownOrAlreadyConfirmed));
}

#[test]
fn passcode_is_withheld_at_the_end_of_time() {
    let mut state = AppState::new();
    create_user_with(&mut state, &admin("a@x.com"), "hash", NOW).unwrap();
    create_link_with(&mut state, &email_payload("a@x.com"), "T1", NOW).unwrap();
    let late = 253_402_300_799 - 100;
    let outcome = confirm_link_at(&mut state, &confirm("T1", 555), "secret", late, 123_456);
    assert_eq!(outcome.err(), Some(LinkError::OtpUnavailable));
    assert!(state.telegram_links.find("T1").unwrap().confirmed);
    assert!(state.otp_codes.find("a@x.com").is_none());
}

#[test]
fn confirmed_link_survives_later_operations() {
    let mut state = AppState::new();
    create_user_with(&mut state, &admin("a@x.com"), "hash", NOW).unwrap();
    create_link_with(&mut state, &email_payload("a@x.com"), "T1", NOW).unwrap();
    create_link_with(&mut state, &email_payload("a@x.com"), "T2", NOW).unwrap();
    confirm_link_at(&mut state, &confirm("T1", 555), "secret", NOW + 1, 123_456).unwrap();
    confirm_link_at(&mut state, &confirm("T2", 777), "secret", NOW + 2, 222_222).unwrap();
    create_link_with(&mut state, &email_payload("b@x.com"), "T3", NOW + 3).unwrap();
    let first = state.telegram_links.find("T1").unwrap();
    assert!(first.confirmed);
    assert_eq!(first.chat_id, Some(555));
    assert_eq!(first.confirmed_at, Some(NOW + 1));
    assert!(state.telegram_links.find_pending("T1").is_none());
    assert!(state.telegram_links.find_pending("T3").is_some());
}

#[test]
fn plan_decides_writes_and_answer() {
    let mut state = AppState::new();
    let user = create_user_with(&mut state, &admin("a@x.com"), "hash", NOW).unwrap();
    create_link_with(&mut state, &email_payload("a@x.com"), "T1", NOW).unwrap();
    let link = state.telegram_links.find_pending("T1");

    let nothing = plan_confirmation(&None, &Some(user.duplicate()), "secret", NOW, 123_456);
    assert!(!nothing.mark);
    assert!(nothing.passcode.is_none());
    assert_eq!(nothing.outcome.err(), Some(LinkError::UnknownOrAlreadyConfirmed));

    let orphan = plan_confirmation(&link, &None, "secret", NOW, 123_456);
    assert!(orphan.mark);
    assert!(orphan.passcode.is_none());
    assert_eq!(orphan.outcome.err(), Some(LinkError::AccountNotFound));

    let full = plan_confirmation(&link, &Some(user.duplicate()), "secret", NOW + 5, 123_456);
    assert!(full.mark);
    assert_eq!(full.confirmed_at, NOW + 5);
    let row = full.passcode.unwrap();
    assert_eq!(row.email, "a@x.com");
    assert_eq!(row.code, "123456");
    assert_eq!(row.expires_at, NOW + 5 + 300);
    assert!(!row.used);
    let bundle = full.outcome.unwrap();
    assert_eq!(
        bundle.session_token,
        e_signature_api::auth::create_jwt_at("1", "secret", NOW + 5).unwrap()
    );
    assert_eq!(bundle.otp_code, "123456");
    assert_eq!(bundle.otp_expiry, "2023-11-14T22:18:25+00:00");

    let late = plan_confirmation(&link, &Some(user), "secret", 253_402_300_799 - 100, 123_456);
    assert!(late.mark);
    assert!(late.passcode.is_none());
    assert_eq!(late.outcome.err(), Some(LinkError::OtpUnavailable));
}

#[test]
fn plan_at_the_current_time_draws_a_code() {
    let mut state = AppState::new();
    let user = create_user_with(&mut state, &admin("a@x.com"), "hash", NOW).unwrap();
    create_link_with(&mut state, &email_payload("a@x.com"), "T1", NOW).unwrap();
    let link = state.telegram_links.find_pending("T1");
    let plan = plan_confirmation_now(&link, &Some(user), "secret").unwrap();
    assert!(plan.mark);
    assert!(plan.confirmed_at > NOW);
    let row = plan.passcode.unwrap();
    let bundle = plan.outcome.unwrap();
    assert_eq!(row.code, bundle.otp_code);
    assert_eq!(row.expires_at, plan.confirmed_at + 300);
    let n: u32 = row.code.parse().unwrap();
    assert!((100_000..999_999).contains(&n));
    assert_eq!(validate_jwt(&bundle.session_token, "secret").unwrap().sub, "1");
}
