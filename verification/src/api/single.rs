//! The single-model server: one model, loaded when the server starts,
//! behind a chat endpoint, a completion endpoint and a health endpoint.

use crate::api::error::{status_code, status_of, ErrorKind, GatewayError, Outcome, STATUS_OK};
use crate::api::native::number_or;
use crate::api::openai::{
    chat_completion_envelope, chat_turns, is_chat_completion, scalar_or_spec,
    ChatCompletionRequest, ChatCompletionResponse,
};
use crate::chat::DEFAULT_SYSTEM_PROMPT;
use crate::engine::{scalar_or, EngineConfig, Scalar, EIGHT_TENTHS, ELEVEN_TENTHS, NINE_TENTHS};
use crate::model::text_view;
use crate::template::{message_views, Message, TemplateData};
use crate::text::concat;
use vstd::prelude::*;

verus! {

/// The identifier that every chat reply of this server carries.
pub const CHAT_ID: &'static str = "chatcmpl-123";

/// The number of tokens generated where a request names none.
pub const DEFAULT_LENGTH: u32 = 2048;

/// A request for the completion of a prompt.
#[derive(Debug, Clone, PartialEq, Eq)]
pub struct RllamaRequest {
    pub prompt: String,
    pub temperature: Option<Scalar>,
    pub max_tokens: Option<u32>,
    pub top_k: Option<i32>,
    pub top_p: Option<Scalar>,
    pub repeat_penalty: Option<Scalar>,
}

/// The body of a reply.
#[derive(Debug, Clone, PartialEq, Eq)]
pub enum SingleBody {
    /// The envelope of a chat turn.
    Chat(ChatCompletionResponse),
    /// The text of a completion.
    Completion(String),
    /// Plain text.
    Plain(String),
}

/// A reply: its HTTP status and its body.
#[derive(Debug, Clone, PartialEq, Eq)]
pub struct SingleReply {
    pub status: u16,
    pub body: SingleBody,
}

/// What a request asks of the template and the backend.
#[derive(Debug, Clone, PartialEq)]
pub struct SingleCall {
    pub data: TemplateData,
    pub config: EngineConfig,
}

/// `given`, or the default length.
pub open spec fn length_or_default(given: Option<u32>) -> Option<u32> {
    match given {
        Some(n) => Some(n),
        None => Some(DEFAULT_LENGTH),
    }
}

/// The settings of a request: what it names, and for the rest a context
/// of 2048 tokens, 2048 generated tokens, a temperature of eight tenths,
/// the best 40 candidates, a top-p of nine tenths and a repeat penalty of
/// eleven tenths.
pub open spec fn single_config(
    max_tokens: Option<u32>,
    temperature: Option<Scalar>,
    top_k: Option<i32>,
    top_p: Option<Scalar>,
    repeat_penalty: Option<Scalar>,
) -> EngineConfig {
    EngineConfig {
        n_ctx: 2048,
        n_len: length_or_default(max_tokens),
        temperature: scalar_or_spec(temperature, EIGHT_TENTHS),
        top_k: number_or(top_k, 40),
        top_p: scalar_or_spec(top_p, NINE_TENTHS),
        repeat_penalty: scalar_or_spec(repeat_penalty, ELEVEN_TENTHS),
    }
}

fn config_of(
    max_tokens: Option<u32>,
    temperature: Option<Scalar>,
    top_k: Option<i32>,
    top_p: Option<Scalar>,
    repeat_penalty: Option<Scalar>,
) -> (config: EngineConfig)
    ensures
        config == single_config(max_tokens, temperature, top_k, top_p, repeat_penalty),
{
    EngineConfig {
        n_ctx: 2048,
        n_len: Some(
            match max_tokens {
                Some(n) => n,
                None => DEFAULT_LENGTH,
            },
        ),
        temperature: scalar_or(temperature, EIGHT_TENTHS),
        top_k: match top_k {
            Some(k) => k,
            None => 40,
        },
        top_p: scalar_or(top_p, NINE_TENTHS),
        repeat_penalty: scalar_or(repeat_penalty, ELEVEN_TENTHS),
    }
}

/// The system prompt of the server: the one it was started with, else the
/// default.
pub fn system_prompt(given: Option<String>) -> (prompt: String)
    ensures
        prompt@ == (match given {
            Some(p) => p@,
            None => DEFAULT_SYSTEM_PROMPT@,
        }),
{
    match given {
        Some(p) => p,
        None => DEFAULT_SYSTEM_PROMPT.to_owned(),
    }
}

/// Reads a chat request: the data for the template are the system prompt
/// of the server and the turns of the request; the settings are those of
/// the request, with the server's defaults.
pub fn openai_chat(request: &ChatCompletionRequest, system_prompt: &str) -> (call: SingleCall)
    ensures
        text_view(call.data.system) == Some(system_prompt@),
        call.data.messages matches Some(messages) && message_views(messages@) == chat_turns(
            request.messages@,
        ),
        call.data == (TemplateData {
            system: call.data.system,
            messages: call.data.messages,
            ..TemplateData {
                system: None,
                tools: None,
                messages: None,
                prompt: None,
                response: None,
                suffix: None,
                think: None,
                think_level: None,
                is_think_set: None,
                force_legacy: false,
            }
        }),
        call.config == single_config(request.max_tokens, request.temperature, None, None, None),
{
    let mut messages: Vec<Message> = Vec::new();
    let mut i: usize = 0;
    while i < request.messages.len()
        invariant
            0 <= i <= request.messages.len(),
            message_views(messages@) == chat_turns(request.messages@.take(i as int)),
        decreases request.messages.len() - i,
    {
        let turn = &request.messages[i];
        let message = Message {
            role: turn.role.clone(),
            content: Some(turn.content.clone()),
            tool_calls: None,
            name: None,
        };
        let ghost before = message_views(messages@);
        messages.push(message);
        i += 1;
        assert(message_views(messages@) =~= before.push(message@));
        assert(message_views(messages@) =~= chat_turns(request.messages@.take(i as int)));
    }
    assert(request.messages@.take(request.messages.len() as int) =~= request.messages@);
    SingleCall {
        data: TemplateData::new().with_system(Some(system_prompt.to_owned())).with_messages(
            Some(messages),
        ),
        config: config_of(request.max_tokens, request.temperature, None, None, None),
    }
}

/// Reads a completion request: the settings are those of the request, with
/// the server's defaults. The prompt is taken as it is.
pub fn rllama_complete(request: &RllamaRequest) -> (config: EngineConfig)
    ensures
        config == single_config(
            request.max_tokens,
            request.temperature,
            request.top_k,
            request.top_p,
            request.repeat_penalty,
        ),
{
    config_of(
        request.max_tokens,
        request.temperature,
        request.top_k,
        request.top_p,
        request.repeat_penalty,
    )
}

/// What stands before the message of a failure in a plain-text reply.
pub open spec fn plain_prefix(kind: ErrorKind) -> Seq<char> {
    match kind {
        ErrorKind::Render => "Template error: "@,
        ErrorKind::Infer => "Inference error: "@,
        ErrorKind::NotFound => "Model not found: "@,
        ErrorKind::Load => "Load error: "@,
        ErrorKind::Lock => "Lock error: "@,
    }
}

/// The reply that reports a failure in plain text, with the status of its
/// kind.
pub fn plain_failure(error: &GatewayError) -> (reply: SingleReply)
    ensures
        reply.status == status_of(error.kind),
        reply.body matches SingleBody::Plain(text) && text@ == plain_prefix(error.kind)
            + error.message@,
{
    let prefix = match error.kind {
        ErrorKind::Render => "Template error: ",
        ErrorKind::Infer => "Inference error: ",
        ErrorKind::NotFound => "Model not found: ",
        ErrorKind::Load => "Load error: ",
        ErrorKind::Lock => "Lock error: ",
    };
    SingleReply {
        status: status_code(error.kind),
        body: SingleBody::Plain(concat(prefix, error.message.as_str())),
    }
}

/// The reply to a chat request: the envelope of the assistant's turn under
/// the identifier of this server, or the failure in plain text.
pub fn openai_chat_reply(model: &str, outcome: Outcome, created: u64) -> (reply: SingleReply)
    ensures
        match outcome {
            Outcome::Text(text) => {
                &&& reply.status == 200
                &&& reply.body matches SingleBody::Chat(r)
                &&& is_chat_completion(r, CHAT_ID@, created, model@, text@)
            },
            Outcome::Failed(error) => {
                &&& reply.status == status_of(error.kind)
                &&& reply.body matches SingleBody::Plain(text)
                &&& text@ == plain_prefix(error.kind) + error.message@
            },
        },
{
    match outcome {
        Outcome::Failed(error) => plain_failure(&error),
        Outcome::Text(text) => SingleReply {
            status: STATUS_OK,
            body: SingleBody::Chat(
                chat_completion_envelope(model, text, CHAT_ID.to_owned(), created),
            ),
        },
    }
}

/// The reply to a completion request: the text, or the failure in plain
/// text.
pub fn rllama_complete_reply(outcome: Outcome) -> (reply: SingleReply)
    ensures
        match outcome {
            Outcome::Text(text) => reply.status == 200 && reply.body == SingleBody::Completion(
                text,
            ),
            Outcome::Failed(error) => {
                &&& reply.status == status_of(error.kind)
                &&& reply.body matches SingleBody::Plain(text)
                &&& text@ == plain_prefix(error.kind) + error.message@
            },
        },
{
    match outcome {
        Outcome::Text(text) => SingleReply {
            status: STATUS_OK,
            body: SingleBody::Completion(text),
        },
        Outcome::Failed(error) => plain_failure(&error),
    }
}

/// The reply of the health endpoint: status 200 and the text `OK`.
pub fn health() -> (reply: SingleReply)
    ensures
        reply.status == 200,
        reply.body matches SingleBody::Plain(text) && text@ == "OK"@,
{
    SingleReply { status: STATUS_OK, body: SingleBody::Plain("OK".to_owned()) }
}

} // verus!
