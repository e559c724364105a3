use e_signature_api::auth::{create_jwt, Claims};
use e_signature_api::session::{bearer_token, current_user, user_for_claims, SessionError};
use e_signature_api::state::AppState;
use e_signature_api::users::{create_user_with, CreateUser, Role};

fn admin(email: &str) -> CreateUser {
    CreateUser {
        email: email.to_string(),
        password: "pw".to_string(),
        role: Role::Admin,
        legal_name: None,
        tax_id: None,
        full_name: None,
        phone_number: None,
        is_verified: None,
        national_id: None,
    }
}

#[test]
fn bearer_prefix_is_required() {
    assert_eq!(bearer_token("Bearer abc.def"), Some("abc.def"));
    assert_eq!(bearer_token("Bearer "), Some(""));
    assert_eq!(bearer_token("Bearer"), None);
    assert_eq!(bearer_token("bearer abc"), None);
    assert_eq!(bearer_token("Basic abc"), None);
    assert_eq!(bearer_token(""), None);
    assert_eq!(bearer_token("Bearer çé"), Some("çé"));
}

#[test]
fn subject_names_the_account() {
    let mut state = AppState::new();
    create_user_with(&mut state, &admin("a@x.com"), "hash", 1).unwrap();
    create_user_with(&mut state, &admin("b@x.com"), "hash", 1).unwrap();
    let claims = Claims { sub: "2".to_string(), exp: 10, iat: 1 };
    assert_eq!(user_for_claims(&state, &claims).unwrap().email, "b@x.com");
    let padded = Claims { sub: "+002".to_string(), exp: 10, iat: 1 };
    assert_eq!(user_for_claims(&state, &padded).unwrap().email, "b@x.com");
    for sub in ["x", "", "3", "0", "-1", " 1", "1 ", "99999999999999999999999"] {
        let claims = Claims { sub: sub.to_string(), exp: 10, iat: 1 };
        assert_eq!(user_for_claims(&state, &claims).err(), Some(SessionError::UserNotFound));
    }
}

#[test]
fn current_user_walks_through_the_checks() {
    let mut state = AppState::new();
    create_user_with(&mut state, &admin("a@x.com"), "hash", 1).unwrap();
    assert_eq!(current_user(&state, None, "secret").err(), Some(SessionError::MissingHeader));
    assert_eq!(
        current_user(&state, Some("Token abc"), "secret").err(),
        Some(SessionError::InvalidFormat)
    );
    assert_eq!(
        current_user(&state, Some("Bearer abc"), "secret").err(),
        Some(SessionError::InvalidToken)
    );
    let token = create_jwt("1", "secret").unwrap();
    let header = format!("Bearer {}", token);
    assert_eq!(current_user(&state, Some(&header), "secret").unwrap().email, "a@x.com");
    assert_eq!(
        current_user(&state, Some(&header), "other").err(),
        Some(SessionError::InvalidToken)
    );
    let stranger = format!("Bearer {}", create_jwt("5", "secret").unwrap());
    assert_eq!(
        current_user(&state, Some(&stranger), "secret").err(),
        Some(SessionError::UserNotFound)
    );
}

#[test]
fn session_messages() {
    assert_eq!(SessionError::MissingHeader.message(), "Token de autorização não fornecido.");
    assert_eq!(
        SessionError::InvalidFormat.message(),
        "Formato de token inválido. Use: Bearer <token>"
    );
    assert_eq!(SessionError::InvalidToken.message(), "Token inválido ou expirado.");
    assert_eq!(SessionError::UserNotFound.message(), "Usuário não encontrado.");
}
