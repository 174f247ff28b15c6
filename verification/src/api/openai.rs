//! The OpenAI-compatible dialect: requests, reply envelopes and stream
//! frames.

use crate::api::ident::{is_random_uuid, random_id};
use crate::api::error::{
    is_client_error, status_code, status_of, ErrorKind, GatewayError, Outcome, STATUS_OK,
};
use crate::engine::{
    concat_all, generated, lemma_concat_append, lemma_concat_one, scalar_or, tokens_taken,
    Collector, EngineConfig, Generation, Scalar, DEFAULT_CONTEXT, DEFAULT_TOP_K, EIGHT_TENTHS,
    ELEVEN_TENTHS, NINETEEN_TENTHS, ONE,
};
use crate::model::{text_view, Model};
use crate::template::{message_views, Message, MessageView};
use crate::text::{concat, views};
use vstd::prelude::*;

verus! {

/// A request for the completion of a prompt.
#[derive(Debug, Clone, PartialEq)]
pub struct CompletionRequest {
    pub model: String,
    pub prompt: String,
    pub max_tokens: Option<u32>,
    pub temperature: Option<Scalar>,
    pub top_p: Option<Scalar>,
    pub n: Option<u32>,
    pub stream: Option<bool>,
    pub stop: Option<Vec<String>>,
    pub presence_penalty: Option<Scalar>,
    pub frequency_penalty: Option<Scalar>,
    pub logprobs: Option<u32>,
    pub echo: Option<bool>,
    pub suffix: Option<String>,
    pub best_of: Option<u32>,
}

/// A request for the next turn of a conversation.
#[derive(Debug, Clone, PartialEq)]
pub struct ChatCompletionRequest {
    pub model: String,
    pub messages: Vec<ChatMessage>,
    pub max_tokens: Option<u32>,
    pub temperature: Option<Scalar>,
    pub top_p: Option<Scalar>,
    pub n: Option<u32>,
    pub stream: Option<bool>,
    pub stop: Option<Vec<String>>,
    pub presence_penalty: Option<Scalar>,
    pub frequency_penalty: Option<Scalar>,
    pub logit_bias: Option<serde_json::Value>,
}

/// One turn of a conversation on the wire.
#[derive(Debug, Clone, PartialEq, Eq)]
pub struct ChatMessage {
    pub role: String,
    pub content: String,
    pub name: Option<String>,
}

/// The list of the models that can be asked for.
#[derive(Debug, Clone, PartialEq, Eq)]
pub struct ListModelsResponse {
    pub object: String,
    pub data: Vec<ModelData>,
}

/// One model of the list.
#[derive(Debug, Clone, PartialEq, Eq)]
pub struct ModelData {
    pub id: String,
    pub object: String,
    pub created: u64,
    pub owned_by: String,
}

/// The reply to a completion request that was not streamed.
#[derive(Debug, Clone, PartialEq)]
pub struct CompletionResponse {
    pub id: String,
    pub object: String,
    pub created: u64,
    pub model: String,
    pub choices: Vec<CompletionChoice>,
    pub usage: Usage,
}

/// The one completion of a reply.
#[derive(Debug, Clone, PartialEq)]
pub struct CompletionChoice {
    pub text: String,
    pub index: u32,
    pub logprobs: Option<serde_json::Value>,
    pub finish_reason: String,
}

/// The reply to a chat request that was not streamed.
#[derive(Debug, Clone, PartialEq, Eq)]
pub struct ChatCompletionResponse {
    pub id: String,
    pub object: String,
    pub created: u64,
    pub model: String,
    pub choices: Vec<ChatCompletionChoice>,
    pub usage: Usage,
}

/// The one turn of a chat reply.
#[derive(Debug, Clone, PartialEq, Eq)]
pub struct ChatCompletionChoice {
    pub index: u32,
    pub message: ChatMessage,
    pub finish_reason: String,
}

/// Token counts. They are not computed: every count is zero.
#[derive(Debug, Clone, Copy, PartialEq, Eq, Structural)]
pub struct Usage {
    pub prompt_tokens: u32,
    pub completion_tokens: u32,
    pub total_tokens: u32,
}

/// One frame of a streamed completion.
#[derive(Debug, Clone, PartialEq)]
pub struct StreamCompletionResponse {
    pub id: String,
    pub object: String,
    pub created: u64,
    pub model: String,
    pub choices: Vec<StreamCompletionChoice>,
}

/// The one piece of text of a frame.
#[derive(Debug, Clone, PartialEq)]
pub struct StreamCompletionChoice {
    pub text: String,
    pub index: u32,
    pub logprobs: Option<serde_json::Value>,
    pub finish_reason: Option<String>,
}

/// One frame of a streamed chat reply.
#[derive(Debug, Clone, PartialEq, Eq)]
pub struct StreamChatCompletionResponse {
    pub id: String,
    pub object: String,
    pub created: u64,
    pub model: String,
    pub choices: Vec<StreamChatCompletionChoice>,
}

/// The one piece of a chat frame.
#[derive(Debug, Clone, PartialEq, Eq)]
pub struct StreamChatCompletionChoice {
    pub index: u32,
    pub delta: ChatMessage,
    pub finish_reason: Option<String>,
}

/// The body of a reply that reports a failure.
#[derive(Debug, Clone, PartialEq, Eq)]
pub struct ErrorResponse {
    pub error: ErrorInfo,
}

/// What failed, for the requester.
#[derive(Debug, Clone, PartialEq, Eq)]
pub struct ErrorInfo {
    pub message: String,
    pub error_type: String,
    pub code: Option<String>,
}

/// A reply: its HTTP status and its body.
#[derive(Debug, Clone, PartialEq)]
pub struct Reply<B> {
    pub status: u16,
    pub body: B,
}

/// The body of the reply to a completion request.
#[derive(Debug, Clone, PartialEq)]
pub enum CompletionBody {
    Completion(CompletionResponse),
    Error(ErrorResponse),
}

/// The body of the reply to a chat request.
#[derive(Debug, Clone, PartialEq, Eq)]
pub enum ChatCompletionBody {
    Completion(ChatCompletionResponse),
    Error(ErrorResponse),
}

/// What a completion request asks of the pool and the backend.
#[derive(Debug, Clone, PartialEq, Eq)]
pub struct CompletionCall {
    pub model: String,
    pub prompt: String,
    pub config: EngineConfig,
    pub stream: bool,
}

/// What a chat request asks of the pool, the template and the backend.
#[derive(Debug, Clone, PartialEq)]
pub struct ChatCall {
    pub model: String,
    pub messages: Vec<Message>,
    pub config: EngineConfig,
    pub stream: bool,
}

/// `given`, or the scalar with the bit pattern `fallback`.
pub open spec fn scalar_or_spec(given: Option<Scalar>, fallback: u32) -> Scalar {
    match given {
        Some(s) => s,
        None => Scalar { bits: fallback },
    }
}

/// The settings of a completion: temperature and top-p as asked for, one
/// where the request is silent; no repeat penalty.
pub open spec fn completion_config(request: CompletionRequest) -> EngineConfig {
    EngineConfig {
        n_ctx: 4096,
        n_len: request.max_tokens,
        temperature: scalar_or_spec(request.temperature, ONE),
        top_k: 40,
        top_p: scalar_or_spec(request.top_p, ONE),
        repeat_penalty: Scalar { bits: ONE },
    }
}

/// The settings of a chat turn: temperature and top-p as asked for, eight
/// tenths and nineteen tenths where the request is silent.
pub open spec fn chat_config(request: ChatCompletionRequest) -> EngineConfig {
    EngineConfig {
        n_ctx: 4096,
        n_len: request.max_tokens,
        temperature: scalar_or_spec(request.temperature, EIGHT_TENTHS),
        top_k: 40,
        top_p: scalar_or_spec(request.top_p, NINETEEN_TENTHS),
        repeat_penalty: Scalar { bits: ELEVEN_TENTHS },
    }
}

/// A turn on the wire as the template reads it: role and content, no tool
/// calls and no name.
pub open spec fn chat_turn(m: ChatMessage) -> MessageView {
    MessageView { role: m.role@, content: Some(m.content@), tool_calls: None, name: None }
}

/// The turns of a request as the template reads them.
pub open spec fn chat_turns(messages: Seq<ChatMessage>) -> Seq<MessageView> {
    messages.map_values(|m: ChatMessage| chat_turn(m))
}

/// Reads a completion request: which model, which prompt, which settings,
/// and whether the reply is streamed (it is not unless the request says so).
pub fn create_completion(request: &CompletionRequest) -> (call: CompletionCall)
    ensures
        call.model@ == request.model@,
        call.prompt@ == request.prompt@,
        call.config == completion_config(*request),
        call.stream == (request.stream == Some(true)),
{
    CompletionCall {
        model: request.model.clone(),
        prompt: request.prompt.clone(),
        config: EngineConfig {
            n_ctx: DEFAULT_CONTEXT,
            n_len: request.max_tokens,
            temperature: scalar_or(request.temperature, ONE),
            top_k: DEFAULT_TOP_K,
            top_p: scalar_or(request.top_p, ONE),
            repeat_penalty: Scalar { bits: ONE },
        },
        stream: match request.stream {
            Some(s) => s,
            None => false,
        },
    }
}

/// Reads a chat request: which model, which conversation, which settings,
/// and whether the reply is streamed (it is not unless the request says so).
pub fn create_chat_completion(request: &ChatCompletionRequest) -> (call: ChatCall)
    ensures
        call.model@ == request.model@,
        message_views(call.messages@) == chat_turns(request.messages@),
        call.config == chat_config(*request),
        call.stream == (request.stream == Some(true)),
{
    let mut messages: Vec<Message> = Vec::new();
    let mut i: usize = 0;
    while i < request.messages.len()
        invariant
            0 <= i <= request.messages.len(),
            message_views(messages@) == chat_turns(request.messages@.take(i as int)),
        decreases request.messages.len() - i,
    {
        let turn = &request.messages[i];
        let message = Message {
            role: turn.role.clone(),
            content: Some(turn.content.clone()),
            tool_calls: None,
            name: None,
        };
        let ghost before = message_views(messages@);
        messages.push(message);
        i += 1;
        assert(message_views(messages@) =~= before.push(message@));
        assert(message_views(messages@) =~= chat_turns(request.messages@.take(i as int)));
    }
    assert(request.messages@.take(request.messages.len() as int) =~= request.messages@);
    ChatCall {
        model: request.model.clone(),
        messages,
        config: EngineConfig {
            n_ctx: DEFAULT_CONTEXT,
            n_len: request.max_tokens,
            temperature: scalar_or(request.temperature, EIGHT_TENTHS),
            top_k: DEFAULT_TOP_K,
            top_p: scalar_or(request.top_p, NINETEEN_TENTHS),
            repeat_penalty: Scalar { bits: ELEVEN_TENTHS },
        },
        stream: match request.stream {
            Some(s) => s,
            None => false,
        },
    }
}

/// What stands before the message of a failure of each kind. A load failure
/// is reported with the backend's message alone.
pub open spec fn error_prefix(kind: ErrorKind) -> Seq<char> {
    match kind {
        ErrorKind::NotFound => "Model not found: "@,
        ErrorKind::Render => "Template rendering error: "@,
        ErrorKind::Infer => "Inference error: "@,
        ErrorKind::Lock => "Failed to acquire model discoverer lock: "@,
        ErrorKind::Load => Seq::empty(),
    }
}

/// The class of a failure for the requester.
pub open spec fn error_type(kind: ErrorKind) -> Seq<char> {
    if is_client_error(kind) {
        "invalid_request_error"@
    } else {
        "internal_error"@
    }
}

/// The code of a failure, where it has one.
pub open spec fn error_code(kind: ErrorKind) -> Option<Seq<char>> {
    match kind {
        ErrorKind::NotFound => Some("model_not_found"@),
        ErrorKind::Render => Some("template_error"@),
        ErrorKind::Infer => Some("inference_error"@),
        ErrorKind::Lock => Some("lock_error"@),
        ErrorKind::Load => None,
    }
}

/// Whether `info` reports a failure of the given kind and message.
pub open spec fn reports(info: ErrorInfo, kind: ErrorKind, message: Seq<char>) -> bool {
    &&& info.message@ == error_prefix(kind) + message
    &&& info.error_type@ == error_type(kind)
    &&& text_view(info.code) == error_code(kind)
}

impl ErrorInfo {
    /// A failure on the server's side without a code, with the message as
    /// it came.
    pub fn from(message: String) -> (info: ErrorInfo)
        ensures
            info.message == message,
            info.error_type@ == "internal_error"@,
            info.code is None,
    {
        ErrorInfo { message, error_type: "internal_error".to_owned(), code: None }
    }

    /// The report of a failure: its message behind the words for its kind,
    /// its class and its code.
    pub fn report(error: &GatewayError) -> (info: ErrorInfo)
        ensures
            reports(info, error.kind, error.message@),
    {
        let message = error.message.as_str();
        match error.kind {
            ErrorKind::NotFound => ErrorInfo {
                message: concat("Model not found: ", message),
                error_type: "invalid_request_error".to_owned(),
                code: Some("model_not_found".to_owned()),
            },
            ErrorKind::Render => ErrorInfo {
                message: concat("Template rendering error: ", message),
                error_type: "invalid_request_error".to_owned(),
                code: Some("template_error".to_owned()),
            },
            ErrorKind::Infer => ErrorInfo {
                message: concat("Inference error: ", message),
                error_type: "internal_error".to_owned(),
                code: Some("inference_error".to_owned()),
            },
            ErrorKind::Lock => ErrorInfo {
                message: concat("Failed to acquire model discoverer lock: ", message),
                error_type: "internal_error".to_owned(),
                code: Some("lock_error".to_owned()),
            },
            ErrorKind::Load => {
                let info = ErrorInfo::from(error.message.clone());
                assert(info.message@ =~= error_prefix(ErrorKind::Load) + error.message@);
                info
            },
        }
    }
}

/// The reply that reports a failure: the status of its kind, and its report.
pub fn error_reply(error: &GatewayError) -> (reply: Reply<ErrorResponse>)
    ensures
        reply.status == status_of(error.kind),
        reports(reply.body.error, error.kind, error.message@),
{
    Reply {
        status: status_code(error.kind),
        body: ErrorResponse { error: ErrorInfo::report(error) },
    }
}

/// No tokens counted.
pub open spec fn no_usage() -> Usage {
    Usage { prompt_tokens: 0, completion_tokens: 0, total_tokens: 0 }
}

/// Whether `r` is the envelope of the completion `text` under the given
/// identifier, time and model name: one choice, ended by `stop`, no usage.
pub open spec fn is_completion(
    r: CompletionResponse,
    id: Seq<char>,
    created: u64,
    model: Seq<char>,
    text: Seq<char>,
) -> bool {
    &&& r.id@ == id
    &&& r.object@ == "text_completion"@
    &&& r.created == created
    &&& r.model@ == model
    &&& r.choices@.len() == 1
    &&& r.choices@[0].text@ == text
    &&& r.choices@[0].index == 0
    &&& r.choices@[0].logprobs is None
    &&& r.choices@[0].finish_reason@ == "stop"@
    &&& r.usage == no_usage()
}

/// Whether `m` is a turn of the assistant with the given content.
pub open spec fn is_assistant_turn(m: ChatMessage, content: Seq<char>) -> bool {
    &&& m.role@ == "assistant"@
    &&& m.content@ == content
    &&& m.name is None
}

/// Whether `r` is the envelope of the chat turn `text` under the given
/// identifier, time and model name: one choice, ended by `stop`, no usage.
pub open spec fn is_chat_completion(
    r: ChatCompletionResponse,
    id: Seq<char>,
    created: u64,
    model: Seq<char>,
    text: Seq<char>,
) -> bool {
    &&& r.id@ == id
    &&& r.object@ == "chat.completion"@
    &&& r.created == created
    &&& r.model@ == model
    &&& r.choices@.len() == 1
    &&& r.choices@[0].index == 0
    &&& is_assistant_turn(r.choices@[0].message, text)
    &&& r.choices@[0].finish_reason@ == "stop"@
    &&& r.usage == no_usage()
}

/// A turn of the assistant.
pub fn assistant_turn(content: String) -> (m: ChatMessage)
    ensures
        is_assistant_turn(m, content@),
        m.content == content,
{
    ChatMessage { role: "assistant".to_owned(), content, name: None }
}

/// The envelope of a completion.
pub fn completion_envelope(model: &str, text: String, id: String, created: u64) -> (r:
    CompletionResponse)
    ensures
        is_completion(r, id@, created, model@, text@),
{
    let mut choices: Vec<CompletionChoice> = Vec::new();
    choices.push(
        CompletionChoice { text, index: 0, logprobs: None, finish_reason: "stop".to_owned() },
    );
    CompletionResponse {
        id,
        object: "text_completion".to_owned(),
        created,
        model: model.to_owned(),
        choices,
        usage: Usage { prompt_tokens: 0, completion_tokens: 0, total_tokens: 0 },
    }
}

/// The envelope of a chat turn of the assistant.
pub fn chat_completion_envelope(model: &str, text: String, id: String, created: u64) -> (r:
    ChatCompletionResponse)
    ensures
        is_chat_completion(r, id@, created, model@, text@),
{
    let mut choices: Vec<ChatCompletionChoice> = Vec::new();
    choices.push(
        ChatCompletionChoice {
            index: 0,
            message: assistant_turn(text),
            finish_reason: "stop".to_owned(),
        },
    );
    ChatCompletionResponse {
        id,
        object: "chat.completion".to_owned(),
        created,
        model: model.to_owned(),
        choices,
        usage: Usage { prompt_tokens: 0, completion_tokens: 0, total_tokens: 0 },
    }
}

/// The reply to a completion request that was not streamed: the envelope of
/// the text with status 200, or the report of the failure with its status.
pub fn completion_reply(model: &str, outcome: Outcome, id: String, created: u64) -> (reply: Reply<
    CompletionBody,
>)
    ensures
        match outcome {
            Outcome::Text(text) => {
                &&& reply.status == 200
                &&& reply.body matches CompletionBody::Completion(r)
                &&& is_completion(r, id@, created, model@, text@)
            },
            Outcome::Failed(error) => {
                &&& reply.status == status_of(error.kind)
                &&& reply.body matches CompletionBody::Error(e)
                &&& reports(e.error, error.kind, error.message@)
            },
        },
{
    match outcome {
        Outcome::Text(text) => Reply {
            status: STATUS_OK,
            body: CompletionBody::Completion(completion_envelope(model, text, id, created)),
        },
        Outcome::Failed(error) => {
            let failed = error_reply(&error);
            Reply { status: failed.status, body: CompletionBody::Error(failed.body) }
        },
    }
}

/// The reply to a chat request that was not streamed: the envelope of the
/// assistant's turn with status 200, or the report of the failure with its
/// status.
pub fn chat_completion_reply(model: &str, outcome: Outcome, id: String, created: u64) -> (reply:
    Reply<ChatCompletionBody>)
    ensures
        match outcome {
            Outcome::Text(text) => {
                &&& reply.status == 200
                &&& reply.body matches ChatCompletionBody::Completion(r)
                &&& is_chat_completion(r, id@, created, model@, text@)
            },
            Outcome::Failed(error) => {
                &&& reply.status == status_of(error.kind)
                &&& reply.body matches ChatCompletionBody::Error(e)
                &&& reports(e.error, error.kind, error.message@)
            },
        },
{
    match outcome {
        Outcome::Text(text) => Reply {
            status: STATUS_OK,
            body: ChatCompletionBody::Completion(
                chat_completion_envelope(model, text, id, created),
            ),
        },
        Outcome::Failed(error) => {
            let failed = error_reply(&error);
            Reply { status: failed.status, body: ChatCompletionBody::Error(failed.body) }
        },
    }
}

/// The reply to a completion request that was not streamed, under a new
/// identifier.
pub fn answer_completion(model: &str, outcome: Outcome, created: u64) -> (reply: Reply<
    CompletionBody,
>)
    ensures
        match outcome {
            Outcome::Text(text) => {
                &&& reply.status == 200
                &&& reply.body matches CompletionBody::Completion(r)
                &&& is_completion(r, r.id@, created, model@, text@)
                &&& is_random_uuid(r.id@)
            },
            Outcome::Failed(error) => {
                &&& reply.status == status_of(error.kind)
                &&& reply.body matches CompletionBody::Error(e)
                &&& reports(e.error, error.kind, error.message@)
            },
        },
{
    completion_reply(model, outcome, random_id(), created)
}

/// The reply to a chat request that was not streamed, under a new
/// identifier.
pub fn answer_chat_completion(model: &str, outcome: Outcome, created: u64) -> (reply: Reply<
    ChatCompletionBody,
>)
    ensures
        match outcome {
            Outcome::Text(text) => {
                &&& reply.status == 200
                &&& reply.body matches ChatCompletionBody::Completion(r)
                &&& is_chat_completion(r, r.id@, created, model@, text@)
                &&& is_random_uuid(r.id@)
            },
            Outcome::Failed(error) => {
                &&& reply.status == status_of(error.kind)
                &&& reply.body matches ChatCompletionBody::Error(e)
                &&& reports(e.error, error.kind, error.message@)
            },
        },
{
    chat_completion_reply(model, outcome, random_id(), created)
}

/// A streamed completion: the identifier, time and model name that every
/// frame of it carries.
#[derive(Debug, Clone, PartialEq, Eq)]
pub struct CompletionStream {
    pub id: String,
    pub created: u64,
    pub model: String,
}

/// Whether `f` is a frame of `stream` with the given text and finish reason.
pub open spec fn is_completion_frame(
    f: StreamCompletionResponse,
    stream: CompletionStream,
    text: Seq<char>,
    finish: Option<Seq<char>>,
) -> bool {
    &&& f.id@ == stream.id@
    &&& f.object@ == "text_completion"@
    &&& f.created == stream.created
    &&& f.model@ == stream.model@
    &&& f.choices@.len() == 1
    &&& f.choices@[0].text@ == text
    &&& f.choices@[0].index == 0
    &&& f.choices@[0].logprobs is None
    &&& text_view(f.choices@[0].finish_reason) == finish
}

/// Whether `frames` is the whole stream for `fragments`: an opening frame
/// without text, one frame for each fragment in order, and a last frame
/// without text that is marked `stop`. No other frame is marked.
pub open spec fn is_completion_run(
    frames: Seq<StreamCompletionResponse>,
    stream: CompletionStream,
    fragments: Seq<Seq<char>>,
) -> bool {
    &&& frames.len() == fragments.len() + 2
    &&& is_completion_frame(frames[0], stream, Seq::empty(), None)
    &&& forall|i: int|
        0 <= i < fragments.len() ==> is_completion_frame(
            #[trigger] frames[i + 1],
            stream,
            fragments[i],
            None,
        )
    &&& is_completion_frame(frames.last(), stream, Seq::empty(), Some("stop"@))
}

/// The text that a frame carries.
pub open spec fn frame_text(f: StreamCompletionResponse) -> Seq<char> {
    f.choices@[0].text@
}

/// The texts of all frames, one after another.
pub open spec fn streamed_text(frames: Seq<StreamCompletionResponse>) -> Seq<char> {
    concat_all(frames.map_values(|f: StreamCompletionResponse| frame_text(f)))
}

impl CompletionStream {
    /// Opens a stream for a model at the time `created`, under a new
    /// identifier.
    pub fn begin(model: String, created: u64) -> (stream: CompletionStream)
        ensures
            stream.model == model,
            stream.created == created,
            is_random_uuid(stream.id@),
    {
        CompletionStream { id: random_id(), created, model }
    }

    fn frame(&self, text: String, finish_reason: Option<String>) -> (f: StreamCompletionResponse)
        ensures
            is_completion_frame(f, *self, text@, text_view(finish_reason)),
    {
        let mut choices: Vec<StreamCompletionChoice> = Vec::new();
        choices.push(StreamCompletionChoice { text, index: 0, logprobs: None, finish_reason });
        StreamCompletionResponse {
            id: self.id.clone(),
            object: "text_completion".to_owned(),
            created: self.created,
            model: self.model.clone(),
            choices,
        }
    }

    /// The frame that opens the stream: no text, no finish reason.
    pub fn opening(&self) -> (f: StreamCompletionResponse)
        ensures
            is_completion_frame(f, *self, Seq::empty(), None),
    {
        self.frame(String::new(), None)
    }

    /// The frame that carries one fragment.
    pub fn token(&self, fragment: String) -> (f: StreamCompletionResponse)
        ensures
            is_completion_frame(f, *self, fragment@, None),
    {
        self.frame(fragment, None)
    }

    /// The frame that ends the stream: no text, finish reason `stop`. It is
    /// sent however the generation ended.
    pub fn closing(&self) -> (f: StreamCompletionResponse)
        ensures
            is_completion_frame(f, *self, Seq::empty(), Some("stop"@)),
    {
        self.frame(String::new(), Some("stop".to_owned()))
    }

    /// Every frame of the stream for the given fragments, in order.
    pub fn frames(&self, fragments: Vec<String>) -> (frames: Vec<StreamCompletionResponse>)
        ensures
            is_completion_run(frames@, *self, views(fragments@)),
            streamed_text(frames@) == concat_all(views(fragments@)),
    {
        let mut frames: Vec<StreamCompletionResponse> = Vec::new();
        frames.push(self.opening());
        let ghost all = views(fragments@);
        for fragment in it: fragments
            invariant
                all == views(it.seq()),
                frames@.len() == it.index() + 1,
                is_completion_frame(frames@[0], *self, Seq::empty(), None),
                forall|i: int|
                    0 <= i < it.index() ==> is_completion_frame(
                        #[trigger] frames@[i + 1],
                        *self,
                        all[i],
                        None,
                    ),
        {
            frames.push(self.token(fragment));
        }
        frames.push(self.closing());
        proof {
            lemma_streamed_completion(frames@, *self, all);
        }
        frames
    }

    /// Streams a generation over `tokens`, the bytes of the tokens that a
    /// model samples one after another: every fragment goes to a sink as
    /// it is decoded, and each fragment that the sink has received becomes
    /// a frame. The texts of the frames, one after another, are the text
    /// that the same generation returns in one piece.
    pub fn stream(&self, tokens: &[Vec<u8>], max_tokens: Option<u32>) -> (frames: Vec<
        StreamCompletionResponse,
    >)
        ensures
            frames@.len() == tokens_taken(tokens@.len(), max_tokens) + 2,
            streamed_text(frames@) == generated(tokens@, max_tokens),
    {
        let mut sink = Collector::new();
        let _ = Generation::streamed(tokens, max_tokens, &mut sink);
        assert(sink.fragments@.skip(0) =~= sink.fragments@);
        self.frames(sink.fragments)
    }
}

/// The texts of a whole stream, one after another, are the fragments one
/// after another: streaming hands over the same text as a reply in one
/// piece does.
pub proof fn lemma_streamed_completion(
    frames: Seq<StreamCompletionResponse>,
    stream: CompletionStream,
    fragments: Seq<Seq<char>>,
)
    requires
        is_completion_run(frames, stream, fragments),
    ensures
        streamed_text(frames) == concat_all(fragments),
{
    let texts = frames.map_values(|f: StreamCompletionResponse| frame_text(f));
    let none = Seq::<char>::empty();
    assert(texts =~= seq![none] + fragments + seq![none]) by {
        assert forall|k: int| 0 <= k < texts.len() implies texts[k] == (seq![none] + fragments
            + seq![none])[k] by {
            if 0 < k <= fragments.len() {
                assert(is_completion_frame(frames[(k - 1) + 1], stream, fragments[k - 1], None));
            }
        }
    }
    lemma_concat_append(seq![none] + fragments, seq![none]);
    lemma_concat_append(seq![none], fragments);
    lemma_concat_one(none);
    assert(concat_all(texts) =~= concat_all(fragments));
}

/// A generation that its sink let run to the end arrives as the same text
/// whether it is streamed or sent in one piece: the texts of the frames of
/// the fragments that the sink received add up to the text that the
/// generation returns.
pub proof fn lemma_streaming_equals_whole(
    generation: Generation,
    frames: Seq<StreamCompletionResponse>,
    stream: CompletionStream,
)
    requires
        generation.wf(),
        !generation.cancelled(),
        is_completion_run(frames, stream, generation.delivered()),
    ensures
        streamed_text(frames) == generation.text(),
{
    generation.lemma_text_is_what_was_delivered();
    lemma_streamed_completion(frames, stream, generation.delivered());
}

/// A streamed chat reply: the identifier, time and model name that every
/// frame of it carries.
#[derive(Debug, Clone, PartialEq, Eq)]
pub struct ChatStream {
    pub id: String,
    pub created: u64,
    pub model: String,
}

/// Whether `f` is a frame of `stream` whose delta is a turn of the
/// assistant with the given content, with the given finish reason.
pub open spec fn is_chat_frame(
    f: StreamChatCompletionResponse,
    stream: ChatStream,
    content: Seq<char>,
    finish: Option<Seq<char>>,
) -> bool {
    &&& f.id@ == stream.id@
    &&& f.object@ == "chat.completion.chunk"@
    &&& f.created == stream.created
    &&& f.model@ == stream.model@
    &&& f.choices@.len() == 1
    &&& f.choices@[0].index == 0
    &&& is_assistant_turn(f.choices@[0].delta, content)
    &&& text_view(f.choices@[0].finish_reason) == finish
}

/// Whether `frames` is the whole stream for `fragments`: one frame for each
/// fragment in order and, where the generation ended well, a last frame
/// without content that is marked `stop`. After a generation that failed
/// the stream ends without that frame.
pub open spec fn is_chat_run(
    frames: Seq<StreamChatCompletionResponse>,
    stream: ChatStream,
    fragments: Seq<Seq<char>>,
    ended_well: bool,
) -> bool {
    &&& frames.len() == fragments.len() + if ended_well {
        1int
    } else {
        0int
    }
    &&& forall|i: int|
        0 <= i < fragments.len() ==> is_chat_frame(#[trigger] frames[i], stream, fragments[i], None)
    &&& ended_well ==> is_chat_frame(frames.last(), stream, Seq::empty(), Some("stop"@))
}

/// The content that a chat frame carries.
pub open spec fn delta_text(f: StreamChatCompletionResponse) -> Seq<char> {
    f.choices@[0].delta.content@
}

/// The contents of all chat frames, one after another.
pub open spec fn streamed_chat_text(frames: Seq<StreamChatCompletionResponse>) -> Seq<char> {
    concat_all(frames.map_values(|f: StreamChatCompletionResponse| delta_text(f)))
}

impl ChatStream {
    /// Opens a stream for a model at the time `created`, under a new
    /// identifier.
    pub fn begin(model: String, created: u64) -> (stream: ChatStream)
        ensures
            stream.model == model,
            stream.created == created,
            is_random_uuid(stream.id@),
    {
        ChatStream { id: random_id(), created, model }
    }

    fn frame(&self, content: String, finish_reason: Option<String>) -> (f:
        StreamChatCompletionResponse)
        ensures
            is_chat_frame(f, *self, content@, text_view(finish_reason)),
    {
        let mut choices: Vec<StreamChatCompletionChoice> = Vec::new();
        choices.push(
            StreamChatCompletionChoice { index: 0, delta: assistant_turn(content), finish_reason },
        );
        StreamChatCompletionResponse {
            id: self.id.clone(),
            object: "chat.completion.chunk".to_owned(),
            created: self.created,
            model: self.model.clone(),
            choices,
        }
    }

    /// The frame that carries one fragment.
    pub fn token(&self, fragment: String) -> (f: StreamChatCompletionResponse)
        ensures
            is_chat_frame(f, *self, fragment@, None),
    {
        self.frame(fragment, None)
    }

    /// The frame that ends the stream, where there is one: after a
    /// generation that ended well, a frame without content and with finish
    /// reason `stop`; after one that failed, none.
    pub fn closing(&self, ended_well: bool) -> (last: Option<StreamChatCompletionResponse>)
        ensures
            last is Some == ended_well,
            last matches Some(f) ==> is_chat_frame(f, *self, Seq::empty(), Some("stop"@)),
    {
        if ended_well {
            Some(self.frame(String::new(), Some("stop".to_owned())))
        } else {
            None
        }
    }

    /// Every frame of the stream for the given fragments, in order.
    pub fn frames(&self, fragments: Vec<String>, ended_well: bool) -> (frames: Vec<
        StreamChatCompletionResponse,
    >)
        ensures
            is_chat_run(frames@, *self, views(fragments@), ended_well),
            streamed_chat_text(frames@) == concat_all(views(fragments@)),
    {
        let mut frames: Vec<StreamChatCompletionResponse> = Vec::new();
        let ghost all = views(fragments@);
        for fragment in it: fragments
            invariant
                all == views(it.seq()),
                frames@.len() == it.index(),
                forall|i: int|
                    0 <= i < it.index() ==> is_chat_frame(
                        #[trigger] frames@[i],
                        *self,
                        all[i],
                        None,
                    ),
        {
            frames.push(self.token(fragment));
        }
        match self.closing(ended_well) {
            Some(last) => frames.push(last),
            None => {},
        }
        proof {
            lemma_streamed_chat(frames@, *self, all, ended_well);
        }
        frames
    }

    /// Streams a generation over `tokens` that ends well: every fragment
    /// goes to a sink as it is decoded, and each fragment that the sink has
    /// received becomes a frame. The contents of the frames, one after
    /// another, are the text that the same generation returns in one piece.
    pub fn stream(&self, tokens: &[Vec<u8>], max_tokens: Option<u32>) -> (frames: Vec<
        StreamChatCompletionResponse,
    >)
        ensures
            frames@.len() == tokens_taken(tokens@.len(), max_tokens) + 1,
            streamed_chat_text(frames@) == generated(tokens@, max_tokens),
    {
        let mut sink = Collector::new();
        let _ = Generation::streamed(tokens, max_tokens, &mut sink);
        assert(sink.fragments@.skip(0) =~= sink.fragments@);
        self.frames(sink.fragments, true)
    }
}

/// The contents of a whole chat stream, one after another, are the
/// fragments one after another, whether or not the last frame was sent.
pub proof fn lemma_streamed_chat(
    frames: Seq<StreamChatCompletionResponse>,
    stream: ChatStream,
    fragments: Seq<Seq<char>>,
    ended_well: bool,
)
    requires
        is_chat_run(frames, stream, fragments, ended_well),
    ensures
        streamed_chat_text(frames) == concat_all(fragments),
{
    let texts = frames.map_values(|f: StreamChatCompletionResponse| delta_text(f));
    let none = Seq::<char>::empty();
    if ended_well {
        assert(texts =~= fragments + seq![none]) by {
            assert forall|k: int| 0 <= k < texts.len() implies texts[k] == (fragments + seq![
                none,
            ])[k] by {
                if k < fragments.len() {
                    assert(is_chat_frame(frames[k], stream, fragments[k], None));
                }
            }
        }
        lemma_concat_append(fragments, seq![none]);
        lemma_concat_one(none);
        assert(concat_all(texts) =~= concat_all(fragments));
    } else {
        assert(texts =~= fragments) by {
            assert forall|k: int| 0 <= k < texts.len() implies texts[k] == fragments[k] by {
                assert(is_chat_frame(frames[k], stream, fragments[k], None));
            }
        }
    }
}

/// A chat generation that its sink let run to the end arrives as the same
/// text whether it is streamed or sent in one piece.
pub proof fn lemma_chat_streaming_equals_whole(
    generation: Generation,
    frames: Seq<StreamChatCompletionResponse>,
    stream: ChatStream,
    ended_well: bool,
)
    requires
        generation.wf(),
        !generation.cancelled(),
        is_chat_run(frames, stream, generation.delivered(), ended_well),
    ensures
        streamed_chat_text(frames) == generation.text(),
{
    generation.lemma_text_is_what_was_delivered();
    lemma_streamed_chat(frames, stream, generation.delivered(), ended_well);
}

/// A completion arrives as the same text whether it is streamed or sent
/// in one piece: where `reply` is the envelope of the text of a generation
/// over some tokens, and `frames` are the frames of a stream of a
/// generation over the same tokens with the same limit, the texts of the
/// frames, one after another, are the text of the reply's choice.
pub proof fn lemma_streamed_completion_is_the_reply(
    tokens: Seq<Vec<u8>>,
    max_tokens: Option<u32>,
    reply: CompletionResponse,
    frames: Seq<StreamCompletionResponse>,
)
    requires
        is_completion(
            reply,
            reply.id@,
            reply.created,
            reply.model@,
            generated(tokens, max_tokens),
        ),
        streamed_text(frames) == generated(tokens, max_tokens),
    ensures
        streamed_text(frames) == reply.choices@[0].text@,
{
}

/// A chat turn arrives as the same text whether it is streamed or sent in
/// one piece: the contents of the frames of the stream, one after another,
/// are the content of the turn in the reply.
pub proof fn lemma_streamed_chat_is_the_reply(
    tokens: Seq<Vec<u8>>,
    max_tokens: Option<u32>,
    reply: ChatCompletionResponse,
    frames: Seq<StreamChatCompletionResponse>,
)
    requires
        is_chat_completion(
            reply,
            reply.id@,
            reply.created,
            reply.model@,
            generated(tokens, max_tokens),
        ),
        streamed_chat_text(frames) == generated(tokens, max_tokens),
    ensures
        streamed_chat_text(frames) == reply.choices@[0].message.content@,
{
}

/// Whether `d` is the list entry of the model with the given name.
pub open spec fn is_model_entry(d: ModelData, name: Seq<char>, created: u64) -> bool {
    &&& d.id@ == name
    &&& d.object@ == "model"@
    &&& d.created == created
    &&& d.owned_by@ == "tllama"@
}

/// The list of the discovered models: one entry for each record, in the
/// order of the discovery list, named as the record is.
pub fn list_models(models: &Vec<Model>, created: u64) -> (list: ListModelsResponse)
    ensures
        list.object@ == "list"@,
        list.data@.len() == models@.len(),
        forall|i: int|
            0 <= i < models@.len() ==> is_model_entry(
                #[trigger] list.data@[i],
                models@[i].name@,
                created,
            ),
{
    let mut data: Vec<ModelData> = Vec::new();
    let mut i: usize = 0;
    while i < models.len()
        invariant
            0 <= i <= models.len(),
            data@.len() == i,
            forall|k: int|
                0 <= k < i ==> is_model_entry(#[trigger] data@[k], models@[k].name@, created),
        decreases models.len() - i,
    {
        data.push(
            ModelData {
                id: models[i].name.clone(),
                object: "model".to_owned(),
                created,
                owned_by: "tllama".to_owned(),
            },
        );
        i += 1;
    }
    ListModelsResponse { object: "list".to_owned(), data }
}

/// The body of the health endpoint.
#[derive(Debug, Clone, PartialEq, Eq)]
pub struct HealthStatus {
    pub status: String,
    pub version: String,
}

/// The health of the server: `ok`, with the version that is running.
pub fn health_check(version: &str) -> (health: HealthStatus)
    ensures
        health.status@ == "ok"@,
        health.version@ == version@,
{
    HealthStatus { status: "ok".to_owned(), version: version.to_owned() }
}

} // verus!
