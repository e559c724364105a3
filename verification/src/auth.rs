//! Session credentials: signed tokens that carry an account identifier.

use vstd::prelude::*;
use crate::clock::{current_time, valid_timestamp};
use crate::json::{json_numbers, json_texts, number_member, text_member};

verus! {

/// Seconds for which a session token stays valid.
pub const TOKEN_TTL: i64 = 3600;

/// What a session token carries: the subject, and the seconds since the
/// Unix epoch at which it was issued and at which it expires.
pub struct Claims {
    pub sub: String,
    pub exp: usize,
    pub iat: usize,
}

/// Why no session token was issued or accepted.
#[derive(Clone, Copy, Debug, PartialEq, Eq, Structural)]
pub enum AuthError {
    /// The token is malformed, wrongly signed, incomplete or expired.
    InvalidToken,
    /// The signing library did not produce a token.
    SigningFailed,
    /// The clock lies outside the instants a token can carry.
    ClockOutOfRange,
}

/// `jsonwebtoken::errors::Error`, the reason a token was not made or not
/// accepted, carried without looking inside.
#[verifier::external_type_specification]
#[verifier::external_body]
pub struct ExJwtError(jsonwebtoken::errors::Error);

/// The compact HS256 token that `jsonwebtoken` makes of the three claims
/// under `secret`, or `None` where it makes none.
pub uninterp spec fn hs256_token(sub: Seq<char>, exp: int, iat: int, secret: Seq<char>) -> Option<
    Seq<char>,
>;

/// Signs the claims with `jsonwebtoken::encode`, under an HS256 header and
/// the key that `EncodingKey::from_secret` makes of the secret's bytes. The
/// claims are handed over as a JSON object with the members `sub`, `exp`
/// and `iat`. The token depends on the claims and the secret alone.
#[verifier::external_body]
fn encode_hs256(claims: &Claims, secret: &str) -> (signed: Result<
    String,
    jsonwebtoken::errors::Error,
>)
    ensures
        match signed {
            Ok(token) => hs256_token(claims.sub@, claims.exp as int, claims.iat as int, secret@)
                == Some(token@),
            Err(_) => hs256_token(claims.sub@, claims.exp as int, claims.iat as int, secret@)
                .is_none(),
        },
{
    let mut body = serde_json::Map::new();
    body.insert("sub".to_string(), serde_json::Value::from(claims.sub.as_str()));
    body.insert("exp".to_string(), serde_json::Value::from(claims.exp));
    body.insert("iat".to_string(), serde_json::Value::from(claims.iat));
    let header = jsonwebtoken::Header::new(jsonwebtoken::Algorithm::HS256);
    jsonwebtoken::encode(&header, &body, &jsonwebtoken::EncodingKey::from_secret(secret.as_bytes()))
}

/// The body that `jsonwebtoken::decode` reads out of `token` where it
/// accepts the token under `secret`: the body's string members and its
/// unsigned integer members, by their keys.
pub uninterp spec fn hs256_body(token: Seq<char>, secret: Seq<char>) -> (
    Map<Seq<char>, Seq<char>>,
    Map<Seq<char>, int>,
);

/// Checks a token with `jsonwebtoken::decode` against the key that
/// `DecodingKey::from_secret` makes of the secret's bytes, under
/// `Validation::new(Algorithm::HS256)` with the expiry check switched on,
/// and gives the claims as a JSON value. The library reads the clock
/// itself, so nothing is claimed of when a token is accepted. A body that
/// is given back has passed the check of the signature and is what the
/// token's second part decodes to, which depends on the token and the secret
/// alone.
#[verifier::external_body]
fn decode_hs256(token: &str, secret: &str) -> (decoded: Result<
    serde_json::Value,
    jsonwebtoken::errors::Error,
>)
    ensures
        decoded matches Ok(body) ==> (json_texts(body), json_numbers(body)) == hs256_body(
            token@,
            secret@,
        ),
{
    let mut validation = jsonwebtoken::Validation::new(jsonwebtoken::Algorithm::HS256);
    validation.validate_exp = true;
    let key = jsonwebtoken::DecodingKey::from_secret(secret.as_bytes());
    jsonwebtoken::decode::<serde_json::Value>(token, &key, &validation).map(|data| data.claims)
}

/// The outcome of issuing a token for `user_id` at `now`: the token carries
/// the subject, `now` as its issue time and `now + TOKEN_TTL` as its expiry.
pub open spec fn issued_token(user_id: Seq<char>, secret: Seq<char>, now: int) -> Result<
    Seq<char>,
    AuthError,
> {
    if now + TOKEN_TTL > usize::MAX {
        Err(AuthError::ClockOutOfRange)
    } else {
        match hs256_token(user_id, now + TOKEN_TTL, now, secret) {
            Some(token) => Ok(token),
            None => Err(AuthError::SigningFailed),
        }
    }
}

/// Whether `outcome` is the outcome `expected`, text for text.
pub open spec fn token_outcome_is(
    outcome: Result<String, AuthError>,
    expected: Result<Seq<char>, AuthError>,
) -> bool {
    match (outcome, expected) {
        (Ok(token), Ok(text)) => token@ == text,
        (Err(e), Err(f)) => e == f,
        _ => false,
    }
}

/// Issues a session token for `user_id` as of the instant `now`.
pub fn create_jwt_at(user_id: &str, secret: &str, now: i64) -> (outcome: Result<String, AuthError>)
    requires
        valid_timestamp(now as int),
    ensures
        token_outcome_is(outcome, issued_token(user_id@, secret@, now as int)),
{
    let expiry: i64 = now + TOKEN_TTL;
    if expiry as u64 > usize::MAX as u64 {
        return Err(AuthError::ClockOutOfRange);
    }
    let claims = Claims { sub: user_id.to_owned(), exp: expiry as usize, iat: now as usize };
    match encode_hs256(&claims, secret) {
        Ok(token) => Ok(token),
        Err(_) => Err(AuthError::SigningFailed),
    }
}

/// Issues a session token for `user_id`, valid for one hour from the
/// current time. Fails with `ClockOutOfRange` when the clock lies outside
/// the instants the service handles.
pub fn create_jwt(user_id: &str, secret: &str) -> (outcome: Result<String, AuthError>)
    ensures
        (exists|now: int|
            valid_timestamp(now) && token_outcome_is(
                outcome,
                #[trigger] issued_token(user_id@, secret@, now),
            )) || outcome == Err::<String, AuthError>(AuthError::ClockOutOfRange),
{
    match current_time() {
        Some(now) => {
            let outcome = create_jwt_at(user_id, secret, now);
            assert(token_outcome_is(outcome, issued_token(user_id@, secret@, now as int)));
            outcome
        },
        None => Err(AuthError::ClockOutOfRange),
    }
}

/// The claims that a decoded token body holds: its `sub` text and its
/// `exp` and `iat` numbers, where all three are there and the numbers fit.
pub open spec fn claims_in(
    texts: Map<Seq<char>, Seq<char>>,
    numbers: Map<Seq<char>, int>,
) -> Option<(Seq<char>, int, int)> {
    if texts.dom().contains("sub"@) && numbers.dom().contains("exp"@) && numbers.dom().contains(
        "iat"@,
    ) && numbers["exp"@] <= usize::MAX && numbers["iat"@] <= usize::MAX {
        Some((texts["sub"@], numbers["exp"@], numbers["iat"@]))
    } else {
        None
    }
}

/// Reads the claims out of a decoded token body.
pub fn claims_from_json(body: &serde_json::Value) -> (claims: Option<Claims>)
    ensures
        match claims {
            Some(c) => claims_in(json_texts(*body), json_numbers(*body)) == Some(
                (c.sub@, c.exp as int, c.iat as int),
            ),
            None => claims_in(json_texts(*body), json_numbers(*body)).is_none(),
        },
{
    let sub = text_member(body, "sub");
    let exp = number_member(body, "exp");
    let iat = number_member(body, "iat");
    match (sub, exp, iat) {
        (Some(sub), Some(exp), Some(iat)) => {
            if exp <= usize::MAX as u64 && iat <= usize::MAX as u64 {
                Some(Claims { sub, exp: exp as usize, iat: iat as usize })
            } else {
                None
            }
        },
        _ => None,
    }
}

/// The claims that `token` carries under `secret`, where it carries all
/// three.
pub open spec fn token_claims(token: Seq<char>, secret: Seq<char>) -> Option<(Seq<char>, int, int)> {
    claims_in(hs256_body(token, secret).0, hs256_body(token, secret).1)
}

/// Checks a session token and gives its claims: the subject, the expiry
/// and the issue time that the token carries under `secret`. Every failure,
/// of the signature, the structure, the expiry or the claims, is
/// `InvalidToken`. Whether a well-signed token is still accepted is for the
/// clock to decide.
pub fn validate_jwt(token: &str, secret: &str) -> (outcome: Result<Claims, AuthError>)
    ensures
        match outcome {
            Ok(claims) => token_claims(token@, secret@) == Some(
                (claims.sub@, claims.exp as int, claims.iat as int),
            ),
            Err(e) => e == AuthError::InvalidToken,
        },
{
    match decode_hs256(token, secret) {
        Ok(body) => match claims_from_json(&body) {
            Some(claims) => Ok(claims),
            None => Err(AuthError::InvalidToken),
        },
        Err(_) => Err(AuthError::InvalidToken),
    }
}

} // verus!
