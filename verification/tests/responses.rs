use e_signature_api::auth::AuthError;
use e_signature_api::documents::RegistrationError;
use e_signature_api::otp::OtpError;
use e_signature_api::responses::{
    class_status, classify_auth, classify_link, classify_otp, classify_registration,
    classify_user, ErrorClass,
};
use e_signature_api::telegram::LinkError;
use e_signature_api::users::UserError;

#[test]
fn missing_passcode_reads_as_wrong_code() {
    assert_eq!(classify_otp(OtpError::NotFound), ErrorClass::NotFoundOrUnauthorized);
    assert_eq!(classify_otp(OtpError::InvalidCode), ErrorClass::NotFoundOrUnauthorized);
    assert_eq!(OtpError::NotFound.message(), OtpError::InvalidCode.message());
    assert_eq!(classify_otp(OtpError::Expired), ErrorClass::Expired);
    assert_eq!(classify_otp(OtpError::AlreadyUsed), ErrorClass::AlreadyUsed);
}

#[test]
fn failures_fall_into_classes() {
    assert_eq!(classify_link(LinkError::MissingField), ErrorClass::ValidationError);
    assert_eq!(
        classify_link(LinkError::UnknownOrAlreadyConfirmed),
        ErrorClass::NotFoundOrUnauthorized
    );
    assert_eq!(classify_link(LinkError::AccountNotFound), ErrorClass::NotFoundOrUnauthorized);
    assert_eq!(classify_link(LinkError::Conflict), ErrorClass::Conflict);
    assert_eq!(classify_link(LinkError::PersistenceError), ErrorClass::UpstreamUnavailable);
    assert_eq!(
        classify_link(LinkError::Session(AuthError::SigningFailed)),
        ErrorClass::UpstreamUnavailable
    );
    assert_eq!(classify_link(LinkError::OtpUnavailable), ErrorClass::UpstreamUnavailable);
    assert_eq!(classify_auth(AuthError::InvalidToken), ErrorClass::InvalidCredential);
    assert_eq!(classify_auth(AuthError::SigningFailed), ErrorClass::UpstreamUnavailable);
    assert_eq!(classify_auth(AuthError::ClockOutOfRange), ErrorClass::UpstreamUnavailable);
    assert_eq!(
        classify_registration(RegistrationError::ValidationError),
        ErrorClass::ValidationError
    );
    assert_eq!(
        classify_registration(RegistrationError::PersistenceError),
        ErrorClass::UpstreamUnavailable
    );
    assert_eq!(classify_user(UserError::Conflict), ErrorClass::Conflict);
    assert_eq!(classify_user(UserError::MissingFullName), ErrorClass::ValidationError);
    assert_eq!(classify_user(UserError::MissingTaxId), ErrorClass::ValidationError);
    assert_eq!(classify_user(UserError::HashingFailed), ErrorClass::UpstreamUnavailable);
    assert_eq!(classify_user(UserError::PersistenceError), ErrorClass::UpstreamUnavailable);
}

#[test]
fn classes_have_statuses() {
    assert_eq!(class_status(ErrorClass::ValidationError), 400);
    assert_eq!(class_status(ErrorClass::NotFoundOrUnauthorized), 400);
    assert_eq!(class_status(ErrorClass::Expired), 400);
    assert_eq!(class_status(ErrorClass::AlreadyUsed), 400);
    assert_eq!(class_status(ErrorClass::Conflict), 409);
    assert_eq!(class_status(ErrorClass::UpstreamUnavailable), 500);
    assert_eq!(class_status(ErrorClass::InvalidCredential), 401);
}
