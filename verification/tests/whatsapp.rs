use e_signature_api::responses::{
    deletion_reply, link_status, login_status, lookup_reply, otp_status, session_status,
    user_status,
};
use e_signature_api::auth::AuthError;
use e_signature_api::otp::OtpError;
use e_signature_api::session::SessionError;
use e_signature_api::telegram::LinkError;
use e_signature_api::users::{LoginError, UserError};
use e_signature_api::whatsapp::{delivery_outcome, send_otp_via_whatsapp};

#[test]
fn whatsapp_message_is_addressed() {
    let message = send_otp_via_whatsapp("AC123", "+5511999990000", "123456");
    assert_eq!(message.url, "https://api.twilio.com/2010-04-01/Accounts/AC123/Messages.json");
    assert_eq!(message.to, "whatsapp:+5511999990000");
    assert_eq!(message.from, "whatsapp:+14155238886");
    assert_eq!(message.body, "Seu código de verificação e-Signature é: 123456");
}

#[test]
fn delivery_follows_the_status() {
    assert_eq!(delivery_outcome(true, "ignored"), Ok(()));
    assert_eq!(
        delivery_outcome(false, "invalid number"),
        Err("Falha no envio: invalid number".to_string())
    );
}

#[test]
fn lookups_and_deletions_are_answered() {
    let found = lookup_reply("Document", 4, true);
    assert_eq!((found.status, found.message.as_str()), (200, ""));
    let missing = lookup_reply("Document", 4, false);
    assert_eq!((missing.status, missing.message.as_str()), (404, "Document with ID 4 not found."));
    let user = lookup_reply("User", -2, false);
    assert_eq!(user.message, "User with ID -2 not found.");
    let none = deletion_reply("User", 9, 0);
    assert_eq!((none.status, none.message.as_str()), (404, "User with ID 9 not found."));
    let one = deletion_reply("User", 9, 1);
    assert_eq!((one.status, one.message.as_str()), (200, "User with ID 9 successfully deleted."));
}

#[test]
fn statuses_follow_the_errors() {
    assert_eq!(otp_status(&Ok(())), 200);
    assert_eq!(otp_status(&Err(OtpError::Expired)), 400);
    assert_eq!(otp_status(&Err(OtpError::InvalidCode)), 400);
    assert_eq!(link_status(LinkError::MissingField), 400);
    assert_eq!(link_status(LinkError::UnknownOrAlreadyConfirmed), 400);
    assert_eq!(link_status(LinkError::AccountNotFound), 500);
    assert_eq!(link_status(LinkError::Session(AuthError::SigningFailed)), 500);
    assert_eq!(login_status(LoginError::InvalidCredentials), 401);
    assert_eq!(login_status(LoginError::TokenFailed(AuthError::ClockOutOfRange)), 500);
    assert_eq!(user_status(UserError::Conflict), 409);
    assert_eq!(user_status(UserError::MissingTaxId), 500);
    assert_eq!(session_status(SessionError::MissingHeader), 401);
    assert_eq!(session_status(SessionError::InvalidFormat), 400);
    assert_eq!(session_status(SessionError::InvalidToken), 401);
    assert_eq!(session_status(SessionError::UserNotFound), 404);
}
