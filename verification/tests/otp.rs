use e_signature_api::clock::{checked_time, current_time};
use e_signature_api::otp::{
    check_code, conclude, generate_otp, generate_otp_with, issue_otp, verify_at, verify_otp,
    OtpCode, OtpError, OtpRequest, OtpTable, VerifyRequest,
};
use e_signature_api::state::AppState;

const NOW: i64 = 1_700_000_000;

#[test]
fn issued_code_verifies_once() {
    let mut table = OtpTable::new();
    let response = issue_otp(&mut table, "a@x.com", 123_456, NOW);
    assert_eq!(response.otp, "123456");
    assert_eq!(response.expires_at, "2023-11-14T22:18:20+00:00");
    assert_eq!(verify_at(&mut table, "a@x.com", "123456", NOW + 1), Ok(()));
    assert_eq!(
        verify_at(&mut table, "a@x.com", "123456", NOW + 2),
        Err(OtpError::AlreadyUsed)
    );
}

#[test]
fn second_issue_invalidates_first_code() {
    let mut table = OtpTable::new();
    issue_otp(&mut table, "a@x.com", 111_111, NOW);
    issue_otp(&mut table, "a@x.com", 222_222, NOW + 10);
    assert_eq!(
        verify_at(&mut table, "a@x.com", "111111", NOW + 20),
        Err(OtpError::InvalidCode)
    );
    assert_eq!(verify_at(&mut table, "a@x.com", "222222", NOW + 20), Ok(()));
}

#[test]
fn reissue_resets_a_used_code() {
    let mut table = OtpTable::new();
    issue_otp(&mut table, "a@x.com", 111_111, NOW);
    assert_eq!(verify_at(&mut table, "a@x.com", "111111", NOW), Ok(()));
    issue_otp(&mut table, "a@x.com", 333_333, NOW + 5);
    let row = table.find("a@x.com").unwrap();
    assert_eq!(row.code, "333333");
    assert!(!row.used);
    assert_eq!(row.expires_at, NOW + 5 + 300);
    assert_eq!(verify_at(&mut table, "a@x.com", "333333", NOW + 6), Ok(()));
}

#[test]
fn code_expires_after_five_minutes() {
    let mut table = OtpTable::new();
    issue_otp(&mut table, "a@x.com", 123_456, NOW);
    assert_eq!(
        verify_at(&mut table, "a@x.com", "123456", NOW + 301),
        Err(OtpError::Expired)
    );
    assert_eq!(verify_at(&mut table, "a@x.com", "123456", NOW + 300), Ok(()));
}

#[test]
fn unknown_email_is_not_found_and_surfaces_as_invalid() {
    let mut table = OtpTable::new();
    let outcome = verify_at(&mut table, "nobody@x.com", "123456", NOW);
    assert_eq!(outcome, Err(OtpError::NotFound));
    assert_eq!(OtpError::NotFound.surfaced(), OtpError::InvalidCode);
    assert_eq!(OtpError::Expired.surfaced(), OtpError::Expired);
}

#[test]
fn used_is_reported_before_expiry_and_mismatch() {
    let row = Some(OtpCode {
        email: "a@x.com".to_string(),
        code: "123456".to_string(),
        expires_at: NOW,
        used: true,
    });
    assert_eq!(check_code(&row, "000000", NOW + 1000), Err(OtpError::AlreadyUsed));
    let fresh = Some(OtpCode {
        email: "a@x.com".to_string(),
        code: "123456".to_string(),
        expires_at: NOW,
        used: false,
    });
    assert_eq!(check_code(&fresh, "000000", NOW + 1), Err(OtpError::Expired));
    assert_eq!(check_code(&fresh, "000000", NOW), Err(OtpError::InvalidCode));
    assert_eq!(check_code(&fresh, "123456", NOW), Ok(()));
    assert_eq!(check_code(&None, "123456", NOW), Err(OtpError::NotFound));
}

#[test]
fn conclude_reads_rows_affected() {
    assert_eq!(conclude(0), Err(OtpError::AlreadyUsed));
    assert_eq!(conclude(1), Ok(()));
}

#[test]
fn mark_used_changes_one_row_once() {
    let mut table = OtpTable::new();
    assert_eq!(table.mark_used("a@x.com"), 0);
    table.upsert("a@x.com", "123456", NOW);
    table.upsert("b@x.com", "654321", NOW);
    assert_eq!(table.mark_used("a@x.com"), 1);
    assert_eq!(table.mark_used("a@x.com"), 0);
    assert!(table.find("a@x.com").unwrap().used);
    assert!(!table.find("b@x.com").unwrap().used);
}

#[test]
fn otp_messages() {
    assert_eq!(OtpError::AlreadyUsed.message(), "Código já utilizado");
    assert_eq!(OtpError::Expired.message(), "Código expirado");
    assert_eq!(OtpError::InvalidCode.message(), "Código inválido");
    assert_eq!(OtpError::NotFound.message(), "Código inválido");
}

#[test]
fn generated_codes_have_six_digits_in_range() {
    let mut state = AppState::new();
    let req = OtpRequest { email: "a@x.com".to_string() };
    for _ in 0..200 {
        let response = generate_otp(&mut state, &req).unwrap();
        assert_eq!(response.otp.len(), 6);
        let n: u32 = response.otp.parse().unwrap();
        assert!((100_000..999_999).contains(&n));
        let row = state.otp_codes.find("a@x.com").unwrap();
        assert_eq!(row.code, response.otp);
        assert!(!row.used);
    }
}

#[test]
fn generated_codes_vary() {
    let mut state = AppState::new();
    let req = OtpRequest { email: "a@x.com".to_string() };
    let first = generate_otp(&mut state, &req).unwrap().otp;
    let mut differs = false;
    for _ in 0..50 {
        if generate_otp(&mut state, &req).unwrap().otp != first {
            differs = true;
        }
    }
    assert!(differs);
}

#[test]
fn generate_then_verify_through_the_state() {
    let mut state = AppState::new();
    let response = generate_otp(&mut state, &OtpRequest { email: "a@x.com".to_string() }).unwrap();
    let wrong = if response.otp == "100000" { "100001" } else { "100000" };
    let bad = VerifyRequest { email: "a@x.com".to_string(), code: wrong.to_string() };
    assert_eq!(verify_otp(&mut state, &bad), Err(OtpError::InvalidCode));
    let unknown = VerifyRequest { email: "b@x.com".to_string(), code: response.otp.clone() };
    assert_eq!(verify_otp(&mut state, &unknown), Err(OtpError::InvalidCode));
    let good = VerifyRequest { email: "a@x.com".to_string(), code: response.otp.clone() };
    assert_eq!(verify_otp(&mut state, &good), Ok(()));
    assert_eq!(verify_otp(&mut state, &good), Err(OtpError::AlreadyUsed));
}

#[test]
fn clock_readings_are_checked() {
    assert_eq!(checked_time(0), Some(0));
    assert_eq!(checked_time(NOW), Some(NOW));
    assert_eq!(checked_time(253_402_300_799), Some(253_402_300_799));
    assert_eq!(checked_time(253_402_300_800), None);
    assert_eq!(checked_time(-1), None);
    assert_eq!(checked_time(i64::MAX), None);
    assert_eq!(checked_time(i64::MIN), None);
    let now = current_time().unwrap();
    assert!(now > NOW);
}

#[test]
fn passcode_is_issued_for_each_usable_reading() {
    let mut state = AppState::new();
    let req = OtpRequest { email: "a@x.com".to_string() };
    let response = generate_otp_with(&mut state, &req, Some(NOW), 654_321).unwrap();
    assert_eq!(response.otp, "654321");
    assert_eq!(response.expires_at, "2023-11-14T22:18:20+00:00");
    let row = state.otp_codes.find("a@x.com").unwrap();
    assert_eq!(row.code, "654321");
    assert_eq!(row.expires_at, NOW + 300);
    assert!(!row.used);

    let last = 253_402_300_799 - 300;
    let response = generate_otp_with(&mut state, &req, Some(last), 100_000).unwrap();
    assert_eq!(response.expires_at, "9999-12-31T23:59:59+00:00");
    assert_eq!(state.otp_codes.find("a@x.com").unwrap().code, "100000");
}

#[test]
fn no_passcode_without_a_usable_reading() {
    let mut state = AppState::new();
    let req = OtpRequest { email: "a@x.com".to_string() };
    generate_otp_with(&mut state, &req, Some(NOW), 654_321).unwrap();
    for reading in [None, Some(-1), Some(253_402_300_799 - 299), Some(i64::MAX)] {
        assert!(generate_otp_with(&mut state, &req, reading, 111_111).is_none());
        assert_eq!(state.otp_codes.find("a@x.com").unwrap().code, "654321");
    }
}
