//! The account behind a request: from the `Authorization` header to the
//! account that the session token names.

use vstd::prelude::*;
use crate::auth::{token_claims, validate_jwt, Claims};
use crate::state::AppState;
use crate::text::{chars_of, has_prefix, integer_within, parse_integer, starts_with};
use crate::users::{account_by_id, User, UserView};

verus! {

/// The word and the space that precede a session token in the header.
pub const BEARER_PREFIX: &'static str = "Bearer ";

/// Why no account was found behind a request.
#[derive(Clone, Copy, Debug, PartialEq, Eq, Structural)]
pub enum SessionError {
    /// The request carries no `Authorization` header.
    MissingHeader,
    /// The header does not begin with `Bearer `.
    InvalidFormat,
    /// The session token is invalid or has expired.
    InvalidToken,
    /// The token names no account on record.
    UserNotFound,
}

impl SessionError {
    /// The text of the message for this failure.
    pub open spec fn message_text(self) -> Seq<char> {
        match self {
            SessionError::MissingHeader => "Token de autorização não fornecido."@,
            SessionError::InvalidFormat => "Formato de token inválido. Use: Bearer <token>"@,
            SessionError::InvalidToken => "Token inválido ou expirado."@,
            SessionError::UserNotFound => "Usuário não encontrado."@,
        }
    }

    /// The message sent back for this failure.
    pub fn message(self) -> (text: String)
        ensures
            text@ == self.message_text(),
    {
        match self {
            SessionError::MissingHeader => "Token de autorização não fornecido.".to_owned(),
            SessionError::InvalidFormat => "Formato de token inválido. Use: Bearer <token>".to_owned(),
            SessionError::InvalidToken => "Token inválido ou expirado.".to_owned(),
            SessionError::UserNotFound => "Usuário não encontrado.".to_owned(),
        }
    }
}

/// The token that a header value carries after `Bearer `.
pub open spec fn bearer_of(header: Seq<char>) -> Option<Seq<char>> {
    if starts_with(header, BEARER_PREFIX@) {
        Some(header.subrange(BEARER_PREFIX@.len() as int, header.len() as int))
    } else {
        None
    }
}

/// Takes the session token out of a header value.
pub fn bearer_token<'a>(header: &'a str) -> (token: Option<&'a str>)
    ensures
        match token {
            Some(t) => bearer_of(header@) == Some(t@),
            None => bearer_of(header@).is_none(),
        },
{
    let chars = chars_of(header);
    let prefix = chars_of(BEARER_PREFIX);
    if has_prefix(&chars, &prefix) {
        Some(header.substring_char(prefix.len(), chars.len()))
    } else {
        None
    }
}

/// The account number that a token's subject writes; a subject that writes
/// none stands for 0, which no account has.
pub open spec fn subject_id(sub: Seq<char>) -> int {
    match integer_within(sub, i64::MIN as int, i64::MAX as int) {
        Some(id) => id,
        None => 0,
    }
}

/// Reads the account number out of a token's subject.
pub fn subject_number(claims: &Claims) -> (id: i64)
    ensures
        id == subject_id(claims.sub@),
{
    match parse_integer(claims.sub.as_str(), i64::MIN, i64::MAX) {
        Some(id) => id,
        None => 0,
    }
}

/// The account that the claims of a valid token name.
pub fn user_for_claims(data: &AppState, claims: &Claims) -> (found: Result<User, SessionError>)
    ensures
        match found {
            Ok(user) => account_by_id(data.users@, subject_id(claims.sub@)) == Some(user@),
            Err(e) => e == SessionError::UserNotFound && account_by_id(
                data.users@,
                subject_id(claims.sub@),
            ).is_none(),
        },
{
    match data.users.get(subject_number(claims)) {
        Some(user) => Ok(user),
        None => Err(SessionError::UserNotFound),
    }
}

/// The account that `token` names under `secret`: `None` where the token
/// carries no claims, and otherwise the account on record, if any, under the
/// number that the token's subject writes.
pub open spec fn named_account(users: Seq<UserView>, token: Seq<char>, secret: Seq<char>) -> Option<
    Option<UserView>,
> {
    match token_claims(token, secret) {
        Some(claims) => Some(account_by_id(users, subject_id(claims.0))),
        None => None,
    }
}

/// The account behind a request with the given `Authorization` header. A
/// missing header fails with `MissingHeader`, a header without the bearer
/// prefix with `InvalidFormat`. A token that is accepted names, by the
/// number its subject writes, the account that is given back; where no
/// account on record has that number the request fails with `UserNotFound`.
/// Whether a token is accepted is for its check to decide.
pub fn current_user(data: &AppState, header: Option<&str>, secret: &str) -> (found: Result<
    User,
    SessionError,
>)
    ensures
        match header {
            None => found == Err::<User, SessionError>(SessionError::MissingHeader),
            Some(h) => match bearer_of(h@) {
                None => found == Err::<User, SessionError>(SessionError::InvalidFormat),
                Some(token) => match found {
                    Ok(user) => named_account(data.users@, token, secret@) == Some(Some(user@)),
                    Err(e) => e == SessionError::InvalidToken || (e == SessionError::UserNotFound
                        && named_account(data.users@, token, secret@) == Some(None::<UserView>)),
                },
            },
        },
{
    let header = match header {
        Some(h) => h,
        None => {
            return Err(SessionError::MissingHeader);
        },
    };
    let token = match bearer_token(header) {
        Some(t) => t,
        None => {
            return Err(SessionError::InvalidFormat);
        },
    };
    match validate_jwt(token, secret) {
        Ok(claims) => user_for_claims(data, &claims),
        Err(_) => Err(SessionError::InvalidToken),
    }
}

} // verus!
