use e_signature_api::bot::{
    get_user_and_generate_otp, handle_command, ApiRequest, BotEvent, BotState, BotStep,
    HttpOutcome,
};

const API: &str = "http://localhost:8080";

fn json(text: &str) -> Option<serde_json::Value> {
    Some(serde_json::from_str(text).unwrap())
}

fn texts(step: &BotStep) -> Vec<(String, bool)> {
    step.messages.iter().map(|m| (m.text.clone(), m.markdown)).collect()
}

fn respond(state: BotState, outcome: HttpOutcome) -> BotStep {
    handle_command(state, &BotEvent::Response(outcome), API, 555)
}

#[test]
fn start_without_token_greets() {
    let step = handle_command(BotState::Idle, &BotEvent::Start(String::new()), API, 555);
    assert_eq!(step.state, BotState::Idle);
    assert!(step.request.is_none());
    assert_eq!(
        texts(&step),
        vec![(
            "Olá! Para vincular sua conta, acesse o painel e clique em *Conectar Telegram*."
                .to_string(),
            true
        )]
    );
}

#[test]
fn start_with_token_asks_for_confirmation() {
    let step = handle_command(BotState::GeneratingOtp, &BotEvent::Start("T1".to_string()), API, 555);
    assert_eq!(step.state, BotState::Confirming);
    assert!(step.messages.is_empty());
    match step.request {
        Some(ApiRequest::Confirm { url, token, chat_id }) => {
            assert_eq!(url, "http://localhost:8080/telegram/confirm");
            assert_eq!(token, "T1");
            assert_eq!(chat_id, 555);
        }
        _ => panic!("a confirmation is to be requested"),
    }
}

#[test]
fn confirmation_with_session_fetches_the_user() {
    let step = respond(BotState::Confirming, HttpOutcome::Success(json("{\"jwt\": \"J\"}")));
    assert_eq!(step.state, BotState::FetchingUser);
    assert_eq!(
        texts(&step),
        vec![("✅ Seu Telegram foi vinculado com sucesso!".to_string(), false)]
    );
    match step.request {
        Some(ApiRequest::CurrentUser { url, jwt }) => {
            assert_eq!(url, "http://localhost:8080/api/users/me");
            assert_eq!(jwt, "J");
        }
        _ => panic!("the user is to be requested"),
    }
}

#[test]
fn confirmation_failures_end_the_conversation() {
    let cases = vec![
        (
            HttpOutcome::Success(json("{\"status\": \"success\"}")),
            "⚠️ JWT do usuário não disponível. OTP não pode ser gerado.".to_string(),
        ),
        (
            HttpOutcome::Success(None),
            "⚠️ JWT do usuário não disponível. OTP não pode ser gerado.".to_string(),
        ),
        (
            HttpOutcome::Failure("bad token".to_string()),
            "❌ Erro ao confirmar link: bad token".to_string(),
        ),
        (
            HttpOutcome::Unreachable("timeout".to_string()),
            "Erro de comunicação: timeout".to_string(),
        ),
    ];
    for (outcome, expected) in cases {
        let step = respond(BotState::Confirming, outcome);
        assert_eq!(step.state, BotState::Idle);
        assert!(step.request.is_none());
        assert_eq!(texts(&step), vec![(expected, false)]);
    }
}

#[test]
fn user_with_email_requests_a_passcode() {
    let step = respond(
        BotState::FetchingUser,
        HttpOutcome::Success(json("{\"email\": \"a@x.com\", \"user_id\": 1}")),
    );
    assert_eq!(step.state, BotState::GeneratingOtp);
    assert_eq!(texts(&step), vec![("🔐 Gerando seu código OTP...".to_string(), false)]);
    match step.request {
        Some(ApiRequest::GenerateOtp { url, email }) => {
            assert_eq!(url, "http://localhost:8080/otp/generate");
            assert_eq!(email, "a@x.com");
        }
        _ => panic!("a passcode is to be requested"),
    }
}

#[test]
fn user_failures_end_the_conversation() {
    let silent = get_user_and_generate_otp(&HttpOutcome::Success(json("{\"user_id\": 1}")), API, 555);
    assert_eq!(silent.state, BotState::Idle);
    assert!(silent.messages.is_empty());
    assert!(silent.request.is_none());
    let silent = get_user_and_generate_otp(&HttpOutcome::Success(None), API, 555);
    assert!(silent.messages.is_empty());
    let failed = respond(BotState::FetchingUser, HttpOutcome::Failure("nope".to_string()));
    assert_eq!(texts(&failed), vec![("❌ Erro ao recuperar usuário: nope".to_string(), false)]);
    let lost = respond(BotState::FetchingUser, HttpOutcome::Unreachable("dns".to_string()));
    assert_eq!(texts(&lost), vec![("Erro de comunicação: dns".to_string(), false)]);
}

#[test]
fn passcode_is_shown_in_markdown() {
    let step = respond(BotState::GeneratingOtp, HttpOutcome::Success(json("{\"otp\": \"123456\"}")));
    assert_eq!(step.state, BotState::Idle);
    assert!(step.request.is_none());
    assert_eq!(texts(&step), vec![("🔑 Seu código OTP é: 123456".to_string(), true)]);
}

#[test]
fn passcode_failures_are_told_apart() {
    let cases = vec![
        (HttpOutcome::Success(json("{\"code\": 1}")), "Erro ao interpretar o código OTP."),
        (HttpOutcome::Success(json("{\"otp\": 123456}")), "Erro ao interpretar o código OTP."),
        (HttpOutcome::Success(None), "Erro ao processar resposta da API."),
        (HttpOutcome::Failure("x".to_string()), "Erro ao processar resposta da API."),
        (HttpOutcome::Unreachable("x".to_string()), "Erro de comunicação com a API."),
    ];
    for (outcome, expected) in cases {
        let step = respond(BotState::GeneratingOtp, outcome);
        assert_eq!(step.state, BotState::Idle);
        assert_eq!(texts(&step), vec![(expected.to_string(), false)]);
    }
}

#[test]
fn unexpected_response_is_passed_over() {
    let step = respond(BotState::Idle, HttpOutcome::Success(json("{\"jwt\": \"J\"}")));
    assert_eq!(step.state, BotState::Idle);
    assert!(step.messages.is_empty());
    assert!(step.request.is_none());
}
