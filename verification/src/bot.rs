//! The conversation of the messaging bot: a `start` command with a link
//! token is confirmed with the service, the linked account is fetched, and a
//! passcode is requested for it. The bot's owner sends the messages and
//! makes the requests; this module decides which.

use vstd::prelude::*;
use crate::json::{json_texts, text_member};
use crate::text::join;

verus! {

/// The reply to a `start` command without a link token.
pub const GREETING: &'static str =
    "Olá! Para vincular sua conta, acesse o painel e clique em *Conectar Telegram*.";

/// The reply to a confirmed link.
pub const LINKED: &'static str = "✅ Seu Telegram foi vinculado com sucesso!";

/// The reply to a confirmation that brought no session token.
pub const NO_SESSION: &'static str = "⚠️ JWT do usuário não disponível. OTP não pode ser gerado.";

/// The notice that a passcode is being requested.
pub const GENERATING: &'static str = "🔐 Gerando seu código OTP...";

/// The reply to a passcode response without a passcode.
pub const NO_CODE: &'static str = "Erro ao interpretar o código OTP.";

/// The reply to a passcode response that is no JSON text.
pub const BAD_RESPONSE: &'static str = "Erro ao processar resposta da API.";

/// The reply to a passcode request that did not reach the service.
pub const API_UNREACHABLE: &'static str = "Erro de comunicação com a API.";

/// What the bot is waiting for.
#[derive(Clone, Copy, Debug, PartialEq, Eq, Structural)]
pub enum BotState {
    /// A command.
    Idle,
    /// The answer to the confirmation of a link token.
    Confirming,
    /// The answer to the request for the linked account.
    FetchingUser,
    /// The answer to the request for a passcode.
    GeneratingOtp,
}

/// How a request to the service ended.
pub enum HttpOutcome {
    /// The service answered with success; the body, where it is JSON.
    Success(Option<serde_json::Value>),
    /// The service answered with an error status; the body as text.
    Failure(String),
    /// The request did not reach the service; the error as text.
    Unreachable(String),
}

/// What happened.
pub enum BotEvent {
    /// The user sent `start` with this link token, possibly empty.
    Start(String),
    /// The request that the bot had asked for has ended.
    Response(HttpOutcome),
}

/// A message for the user; `markdown` asks for Markdown formatting.
pub struct Outgoing {
    pub text: String,
    pub markdown: bool,
}

/// A request to the service.
pub enum ApiRequest {
    /// Post the link token and the chat to the confirmation endpoint.
    Confirm { url: String, token: String, chat_id: i64 },
    /// Get the account behind the session token.
    CurrentUser { url: String, jwt: String },
    /// Post the email to the passcode endpoint.
    GenerateOtp { url: String, email: String },
}

/// A request as a value.
pub enum ApiRequestView {
    Confirm { url: Seq<char>, token: Seq<char>, chat_id: int },
    CurrentUser { url: Seq<char>, jwt: Seq<char> },
    GenerateOtp { url: Seq<char>, email: Seq<char> },
}

impl View for ApiRequest {
    type V = ApiRequestView;

    open spec fn view(&self) -> ApiRequestView {
        match *self {
            ApiRequest::Confirm { url, token, chat_id } => ApiRequestView::Confirm {
                url: url@,
                token: token@,
                chat_id: chat_id as int,
            },
            ApiRequest::CurrentUser { url, jwt } => ApiRequestView::CurrentUser {
                url: url@,
                jwt: jwt@,
            },
            ApiRequest::GenerateOtp { url, email } => ApiRequestView::GenerateOtp {
                url: url@,
                email: email@,
            },
        }
    }
}

/// The outcome of one step: the next state, the messages to send in
/// order, and the request to make, if any.
pub struct BotStep {
    pub state: BotState,
    pub messages: Vec<Outgoing>,
    pub request: Option<ApiRequest>,
}

/// A step as a value; a message is its text and whether it is Markdown.
pub struct BotStepView {
    pub state: BotState,
    pub messages: Seq<(Seq<char>, bool)>,
    pub request: Option<ApiRequestView>,
}

impl View for BotStep {
    type V = BotStepView;

    open spec fn view(&self) -> BotStepView {
        BotStepView {
            state: self.state,
            messages: self.messages@.map_values(|m: Outgoing| (m.text@, m.markdown)),
            request: match self.request {
                Some(request) => Some(request@),
                None => None,
            },
        }
    }
}

/// The text under `key` in a response body.
pub open spec fn body_text(body: Option<serde_json::Value>, key: Seq<char>) -> Option<Seq<char>> {
    match body {
        Some(value) => if json_texts(value).dom().contains(key) {
            Some(json_texts(value)[key])
        } else {
            None
        },
        None => None,
    }
}

/// A step that ends the conversation with one plain message.
pub open spec fn ending(text: Seq<char>) -> BotStepView {
    BotStepView { state: BotState::Idle, messages: seq![(text, false)], request: None }
}

/// The step that the bot takes in `state` on `event`. A `start` command
/// begins anew in any state; a response that the state does not await is
/// passed over.
pub open spec fn bot_transition(
    state: BotState,
    event: BotEvent,
    api_url: Seq<char>,
    chat_id: int,
) -> BotStepView {
    match event {
        BotEvent::Start(token) => if token@.len() == 0 {
            BotStepView { state: BotState::Idle, messages: seq![(GREETING@, true)], request: None }
        } else {
            BotStepView {
                state: BotState::Confirming,
                messages: Seq::empty(),
                request: Some(
                    ApiRequestView::Confirm {
                        url: api_url + "/telegram/confirm"@,
                        token: token@,
                        chat_id,
                    },
                ),
            }
        },
        BotEvent::Response(outcome) => match state {
            BotState::Idle => BotStepView {
                state: BotState::Idle,
                messages: Seq::empty(),
                request: None,
            },
            BotState::Confirming => match outcome {
                HttpOutcome::Success(body) => match body_text(body, "jwt"@) {
                    Some(jwt) => BotStepView {
                        state: BotState::FetchingUser,
                        messages: seq![(LINKED@, false)],
                        request: Some(
                            ApiRequestView::CurrentUser { url: api_url + "/api/users/me"@, jwt },
                        ),
                    },
                    None => ending(NO_SESSION@),
                },
                HttpOutcome::Failure(body) => ending("❌ Erro ao confirmar link: "@ + body@),
                HttpOutcome::Unreachable(error) => ending("Erro de comunicação: "@ + error@),
            },
            BotState::FetchingUser => match outcome {
                HttpOutcome::Success(body) => match body_text(body, "email"@) {
                    Some(email) => BotStepView {
                        state: BotState::GeneratingOtp,
                        messages: seq![(GENERATING@, false)],
                        request: Some(
                            ApiRequestView::GenerateOtp { url: api_url + "/otp/generate"@, email },
                        ),
                    },
                    None => BotStepView {
                        state: BotState::Idle,
                        messages: Seq::empty(),
                        request: None,
                    },
                },
                HttpOutcome::Failure(body) => ending("❌ Erro ao recuperar usuário: "@ + body@),
                HttpOutcome::Unreachable(error) => ending("Erro de comunicação: "@ + error@),
            },
            BotState::GeneratingOtp => match outcome {
                HttpOutcome::Success(Some(value)) => match body_text(Some(value), "otp"@) {
                    Some(code) => BotStepView {
                        state: BotState::Idle,
                        messages: seq![("🔑 Seu código OTP é: "@ + code, true)],
                        request: None,
                    },
                    None => ending(NO_CODE@),
                },
                HttpOutcome::Success(None) => ending(BAD_RESPONSE@),
                HttpOutcome::Failure(_) => ending(BAD_RESPONSE@),
                HttpOutcome::Unreachable(_) => ending(API_UNREACHABLE@),
            },
        },
    }
}

fn member(body: &Option<serde_json::Value>, key: &str) -> (text: Option<String>)
    ensures
        match text {
            Some(t) => body_text(*body, key@) == Some(t@),
            None => body_text(*body, key@).is_none(),
        },
{
    match body {
        Some(value) => text_member(value, key),
        None => None,
    }
}

fn finish(text: String) -> (step: BotStep)
    ensures
        step@ == ending(text@),
{
    let mut messages: Vec<Outgoing> = Vec::new();
    messages.push(Outgoing { text, markdown: false });
    let step = BotStep { state: BotState::Idle, messages, request: None };
    assert(step@.messages =~= seq![(text@, false)]);
    step
}

fn proceed(state: BotState, text: Option<Outgoing>, request: Option<ApiRequest>) -> (step: BotStep)
    ensures
        step.state == state,
        step.request == request,
        step@.messages == match text {
            Some(m) => seq![(m.text@, m.markdown)],
            None => Seq::empty(),
        },
{
    let mut messages: Vec<Outgoing> = Vec::new();
    match text {
        Some(m) => {
            messages.push(m);
        },
        None => {},
    }
    let step = BotStep { state, messages, request };
    assert(step@.messages =~= match text {
        Some(m) => seq![(m.text@, m.markdown)],
        None => Seq::empty(),
    });
    step
}

/// Takes one step of the conversation in the chat `chat_id`, against the
/// service at `api_url`.
pub fn handle_command(state: BotState, event: &BotEvent, api_url: &str, chat_id: i64) -> (step:
    BotStep)
    ensures
        step@ == bot_transition(state, *event, api_url@, chat_id as int),
{
    match event {
        BotEvent::Start(token) => {
            if token.as_str().unicode_len() == 0 {
                proceed(
                    BotState::Idle,
                    Some(Outgoing { text: GREETING.to_owned(), markdown: true }),
                    None,
                )
            } else {
                proceed(
                    BotState::Confirming,
                    None,
                    Some(
                        ApiRequest::Confirm {
                            url: join(api_url, "/telegram/confirm"),
                            token: token.clone(),
                            chat_id,
                        },
                    ),
                )
            }
        },
        BotEvent::Response(outcome) => match state {
            BotState::Idle => proceed(BotState::Idle, None, None),
            BotState::Confirming => match outcome {
                HttpOutcome::Success(body) => match member(body, "jwt") {
                    Some(jwt) => proceed(
                        BotState::FetchingUser,
                        Some(Outgoing { text: LINKED.to_owned(), markdown: false }),
                        Some(ApiRequest::CurrentUser { url: join(api_url, "/api/users/me"), jwt }),
                    ),
                    None => finish(NO_SESSION.to_owned()),
                },
                HttpOutcome::Failure(body) => finish(
                    join("❌ Erro ao confirmar link: ", body.as_str()),
                ),
                HttpOutcome::Unreachable(error) => finish(
                    join("Erro de comunicação: ", error.as_str()),
                ),
            },
            BotState::FetchingUser => get_user_and_generate_otp(outcome, api_url, chat_id),
            BotState::GeneratingOtp => match outcome {
                HttpOutcome::Success(Some(value)) => match text_member(value, "otp") {
                    Some(code) => proceed(
                        BotState::Idle,
                        Some(
                            Outgoing {
                                text: join("🔑 Seu código OTP é: ", code.as_str()),
                                markdown: true,
                            },
                        ),
                        None,
                    ),
                    None => finish(NO_CODE.to_owned()),
                },
                HttpOutcome::Success(None) => finish(BAD_RESPONSE.to_owned()),
                HttpOutcome::Failure(_) => finish(BAD_RESPONSE.to_owned()),
                HttpOutcome::Unreachable(_) => finish(API_UNREACHABLE.to_owned()),
            },
        },
    }
}

/// The step after the answer to the request for the linked account: with
/// the account's email a passcode is requested for it.
pub fn get_user_and_generate_otp(outcome: &HttpOutcome, api_url: &str, chat_id: i64) -> (step:
    BotStep)
    ensures
        step@ == bot_transition(
            BotState::FetchingUser,
            BotEvent::Response(*outcome),
            api_url@,
            chat_id as int,
        ),
{
    match outcome {
        HttpOutcome::Success(body) => match member(body, "email") {
            Some(email) => proceed(
                BotState::GeneratingOtp,
                Some(Outgoing { text: GENERATING.to_owned(), markdown: false }),
                Some(ApiRequest::GenerateOtp { url: join(api_url, "/otp/generate"), email }),
            ),
            None => proceed(BotState::Idle, None, None),
        },
        HttpOutcome::Failure(body) => finish(join("❌ Erro ao recuperar usuário: ", body.as_str())),
        HttpOutcome::Unreachable(error) => finish(join("Erro de comunicação: ", error.as_str())),
    }
}

} // verus!
