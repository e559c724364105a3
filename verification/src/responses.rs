//! What the service answers: a status and a message for each outcome.

use vstd::prelude::*;
use crate::auth::AuthError;
use crate::documents::RegistrationError;
use crate::face::FaceError;
use crate::otp::OtpError;
use crate::session::SessionError;
use crate::telegram::LinkError;
use crate::text::{i64_to_string, signed_decimal};
use crate::users::{LoginError, UserError};

verus! {

/// The request was served.
pub const OK: u16 = 200;

/// The record was created.
pub const CREATED: u16 = 201;

/// The request is at fault.
pub const BAD_REQUEST: u16 = 400;

/// The requester is not who they claim to be.
pub const UNAUTHORIZED: u16 = 401;

/// The record does not exist.
pub const NOT_FOUND: u16 = 404;

/// The record collides with one on record.
pub const CONFLICT: u16 = 409;

/// The service is at fault.
pub const INTERNAL_ERROR: u16 = 500;

/// An answer: a status and a message.
pub struct Reply {
    pub status: u16,
    pub message: String,
}

/// The message that no record of `kind` has the number `id`.
pub open spec fn not_found_text(kind: Seq<char>, id: int) -> Seq<char> {
    kind + " with ID "@ + signed_decimal(id) + " not found."@
}

/// The message that the record of `kind` numbered `id` was deleted.
pub open spec fn deleted_text(kind: Seq<char>, id: int) -> Seq<char> {
    kind + " with ID "@ + signed_decimal(id) + " successfully deleted."@
}

/// The answer to a lookup or an update: found or not.
pub fn lookup_reply(kind: &str, id: i64, found: bool) -> (reply: Reply)
    ensures
        reply.status == (if found {
            OK
        } else {
            NOT_FOUND
        }),
        reply.message@ == (if found {
            Seq::empty()
        } else {
            not_found_text(kind@, id as int)
        }),
{
    if found {
        Reply { status: OK, message: String::new() }
    } else {
        let mut message = kind.to_owned();
        message.append(" with ID ");
        message.append(i64_to_string(id).as_str());
        message.append(" not found.");
        Reply { status: NOT_FOUND, message }
    }
}

/// The answer to a deletion that changed `changed` records: none means
/// that there was nothing to delete.
pub fn deletion_reply(kind: &str, id: i64, changed: u64) -> (reply: Reply)
    ensures
        reply.status == (if changed == 0 {
            NOT_FOUND
        } else {
            OK
        }),
        reply.message@ == (if changed == 0 {
            not_found_text(kind@, id as int)
        } else {
            deleted_text(kind@, id as int)
        }),
{
    if changed == 0 {
        lookup_reply(kind, id, false)
    } else {
        let mut message = kind.to_owned();
        message.append(" with ID ");
        message.append(i64_to_string(id).as_str());
        message.append(" successfully deleted.");
        Reply { status: OK, message }
    }
}

/// The status for a refused passcode: every refusal is the requester's
/// fault.
pub fn otp_status(outcome: &Result<(), OtpError>) -> (status: u16)
    ensures
        status == (if outcome.is_ok() {
            OK
        } else {
            BAD_REQUEST
        }),
{
    match outcome {
        Ok(()) => OK,
        Err(_) => BAD_REQUEST,
    }
}

/// The status for a failed link operation.
pub fn link_status(error: LinkError) -> (status: u16)
    ensures
        status == match error {
            LinkError::MissingField => BAD_REQUEST,
            LinkError::UnknownOrAlreadyConfirmed => BAD_REQUEST,
            _ => INTERNAL_ERROR,
        },
{
    match error {
        LinkError::MissingField => BAD_REQUEST,
        LinkError::UnknownOrAlreadyConfirmed => BAD_REQUEST,
        _ => INTERNAL_ERROR,
    }
}

/// The status for a failed login.
pub fn login_status(error: LoginError) -> (status: u16)
    ensures
        status == match error {
            LoginError::InvalidCredentials => UNAUTHORIZED,
            LoginError::TokenFailed(_) => INTERNAL_ERROR,
        },
{
    match error {
        LoginError::InvalidCredentials => UNAUTHORIZED,
        LoginError::TokenFailed(_) => INTERNAL_ERROR,
    }
}

/// The status for a failed account operation.
pub fn user_status(error: UserError) -> (status: u16)
    ensures
        status == match error {
            UserError::Conflict => CONFLICT,
            _ => INTERNAL_ERROR,
        },
{
    match error {
        UserError::Conflict => CONFLICT,
        _ => INTERNAL_ERROR,
    }
}

/// The status for a request whose account was not found.
pub fn session_status(error: SessionError) -> (status: u16)
    ensures
        status == match error {
            SessionError::MissingHeader => UNAUTHORIZED,
            SessionError::InvalidFormat => BAD_REQUEST,
            SessionError::InvalidToken => UNAUTHORIZED,
            SessionError::UserNotFound => NOT_FOUND,
        },
{
    match error {
        SessionError::MissingHeader => UNAUTHORIZED,
        SessionError::InvalidFormat => BAD_REQUEST,
        SessionError::InvalidToken => UNAUTHORIZED,
        SessionError::UserNotFound => NOT_FOUND,
    }
}

/// The answer to a finished face comparison: the verdict, an unknown
/// signer, or a failure with its message.
pub fn verify_signer_face_handler(outcome: &Result<Option<bool>, FaceError>) -> (reply: (
    u16,
    Option<bool>,
    String,
))
    ensures
        match *outcome {
            Ok(Some(matches)) => reply.0 == OK && reply.1 == Some(matches) && reply.2@ == Seq::<
                char,
            >::empty(),
            Ok(None) => reply.0 == NOT_FOUND && reply.1.is_none() && reply.2@ == "Signer not found"@,
            Err(e) => reply.0 == INTERNAL_ERROR && reply.1.is_none() && reply.2@ == e.message_text(),
        },
{
    match outcome {
        Ok(Some(matches)) => (OK, Some(*matches), String::new()),
        Ok(None) => (NOT_FOUND, None, "Signer not found".to_owned()),
        Err(e) => (INTERNAL_ERROR, None, e.message()),
    }
}

/// The kinds of failure that the service tells apart at its boundary.
#[derive(Clone, Copy, Debug, PartialEq, Eq, Structural)]
pub enum ErrorClass {
    /// A required field is missing or malformed; nothing was applied.
    ValidationError,
    /// The thing asked for is not there, or not for this requester; which
    /// of the two is not told.
    NotFoundOrUnauthorized,
    /// The credential was right but came too late.
    Expired,
    /// The credential was right but has been spent.
    AlreadyUsed,
    /// The record collides with one on record.
    Conflict,
    /// The store or a collaborator did not do its part; trying again may
    /// help.
    UpstreamUnavailable,
    /// A session token failed its check.
    InvalidCredential,
}

/// The kind of a refused passcode: a missing passcode and a wrong code are
/// one kind.
pub open spec fn otp_class(error: OtpError) -> ErrorClass {
    match error {
        OtpError::InvalidCode => ErrorClass::NotFoundOrUnauthorized,
        OtpError::NotFound => ErrorClass::NotFoundOrUnauthorized,
        OtpError::Expired => ErrorClass::Expired,
        OtpError::AlreadyUsed => ErrorClass::AlreadyUsed,
    }
}

/// The kind of a refused passcode.
pub fn classify_otp(error: OtpError) -> (class: ErrorClass)
    ensures
        class == otp_class(error),
{
    match error {
        OtpError::InvalidCode => ErrorClass::NotFoundOrUnauthorized,
        OtpError::NotFound => ErrorClass::NotFoundOrUnauthorized,
        OtpError::Expired => ErrorClass::Expired,
        OtpError::AlreadyUsed => ErrorClass::AlreadyUsed,
    }
}

/// The kind of a failed link operation.
pub open spec fn link_class(error: LinkError) -> ErrorClass {
    match error {
        LinkError::MissingField => ErrorClass::ValidationError,
        LinkError::UnknownOrAlreadyConfirmed => ErrorClass::NotFoundOrUnauthorized,
        LinkError::AccountNotFound => ErrorClass::NotFoundOrUnauthorized,
        LinkError::Conflict => ErrorClass::Conflict,
        LinkError::PersistenceError => ErrorClass::UpstreamUnavailable,
        LinkError::Session(_) => ErrorClass::UpstreamUnavailable,
        LinkError::OtpUnavailable => ErrorClass::UpstreamUnavailable,
    }
}

/// The kind of a failed link operation.
pub fn classify_link(error: LinkError) -> (class: ErrorClass)
    ensures
        class == link_class(error),
{
    match error {
        LinkError::MissingField => ErrorClass::ValidationError,
        LinkError::UnknownOrAlreadyConfirmed => ErrorClass::NotFoundOrUnauthorized,
        LinkError::AccountNotFound => ErrorClass::NotFoundOrUnauthorized,
        LinkError::Conflict => ErrorClass::Conflict,
        LinkError::PersistenceError => ErrorClass::UpstreamUnavailable,
        LinkError::Session(_) => ErrorClass::UpstreamUnavailable,
        LinkError::OtpUnavailable => ErrorClass::UpstreamUnavailable,
    }
}

/// The kind of a failure to issue or accept a session token.
pub open spec fn auth_class(error: AuthError) -> ErrorClass {
    match error {
        AuthError::InvalidToken => ErrorClass::InvalidCredential,
        AuthError::SigningFailed => ErrorClass::UpstreamUnavailable,
        AuthError::ClockOutOfRange => ErrorClass::UpstreamUnavailable,
    }
}

/// The kind of a failure to issue or accept a session token.
pub fn classify_auth(error: AuthError) -> (class: ErrorClass)
    ensures
        class == auth_class(error),
{
    match error {
        AuthError::InvalidToken => ErrorClass::InvalidCredential,
        AuthError::SigningFailed => ErrorClass::UpstreamUnavailable,
        AuthError::ClockOutOfRange => ErrorClass::UpstreamUnavailable,
    }
}

/// The kind of a failed registration.
pub open spec fn registration_class(error: RegistrationError) -> ErrorClass {
    match error {
        RegistrationError::ValidationError => ErrorClass::ValidationError,
        RegistrationError::PersistenceError => ErrorClass::UpstreamUnavailable,
    }
}

/// The kind of a failed registration.
pub fn classify_registration(error: RegistrationError) -> (class: ErrorClass)
    ensures
        class == registration_class(error),
{
    match error {
        RegistrationError::ValidationError => ErrorClass::ValidationError,
        RegistrationError::PersistenceError => ErrorClass::UpstreamUnavailable,
    }
}

/// The kind of a failed account operation.
pub open spec fn user_class(error: UserError) -> ErrorClass {
    match error {
        UserError::Conflict => ErrorClass::Conflict,
        UserError::HashingFailed => ErrorClass::UpstreamUnavailable,
        UserError::PersistenceError => ErrorClass::UpstreamUnavailable,
        _ => ErrorClass::ValidationError,
    }
}

/// The kind of a failed account operation.
pub fn classify_user(error: UserError) -> (class: ErrorClass)
    ensures
        class == user_class(error),
{
    match error {
        UserError::Conflict => ErrorClass::Conflict,
        UserError::HashingFailed => ErrorClass::UpstreamUnavailable,
        UserError::PersistenceError => ErrorClass::UpstreamUnavailable,
        _ => ErrorClass::ValidationError,
    }
}

/// The status that answers a failure of the given kind.
pub fn class_status(class: ErrorClass) -> (status: u16)
    ensures
        status == match class {
            ErrorClass::ValidationError => BAD_REQUEST,
            ErrorClass::NotFoundOrUnauthorized => BAD_REQUEST,
            ErrorClass::Expired => BAD_REQUEST,
            ErrorClass::AlreadyUsed => BAD_REQUEST,
            ErrorClass::Conflict => CONFLICT,
            ErrorClass::UpstreamUnavailable => INTERNAL_ERROR,
            ErrorClass::InvalidCredential => UNAUTHORIZED,
        },
{
    match class {
        ErrorClass::ValidationError => BAD_REQUEST,
        ErrorClass::NotFoundOrUnauthorized => BAD_REQUEST,
        ErrorClass::Expired => BAD_REQUEST,
        ErrorClass::AlreadyUsed => BAD_REQUEST,
        ErrorClass::Conflict => CONFLICT,
        ErrorClass::UpstreamUnavailable => INTERNAL_ERROR,
        ErrorClass::InvalidCredential => UNAUTHORIZED,
    }
}

/// A requester cannot tell a missing passcode from a wrong code: the two
/// failures are shown as the same failure, with the same message, of the
/// same kind.
pub proof fn law_missing_reads_as_wrong()
    ensures
        OtpError::NotFound.surfaced_spec() == OtpError::InvalidCode.surfaced_spec(),
        OtpError::NotFound.message_text() == OtpError::InvalidCode.message_text(),
        otp_class(OtpError::NotFound) == otp_class(OtpError::InvalidCode),
{
}

} // verus!
