//! The native dialect: flat query parameters in, plain JSON bodies out.

use crate::api::error::{status_code, status_of, ErrorKind, GatewayError, Outcome, STATUS_OK};
use crate::engine::{
    concat_all, generated, lemma_concat_append, lemma_concat_one, scalar_or, tokens_taken,
    Collector, EngineConfig, Generation, Scalar, EIGHT_TENTHS, ELEVEN_TENTHS,
    NINETY_FIVE_HUNDREDTHS,
};
use crate::api::ident::{is_random_uuid, random_id};
use crate::api::openai::scalar_or_spec;
use crate::model::{text_view, Model};
use crate::template::{Message, TemplateData};
use crate::text::{concat, views};
use vstd::prelude::*;

verus! {

/// How the handles of the pool are shared, which decides how the settings
/// of a request reach the backend.
#[derive(Clone, Copy, Debug, PartialEq, Eq, Structural)]
pub enum Sharing {
    /// One handle serves any number of generations at once. The settings
    /// travel with each call.
    Shared,
    /// A handle serves one generation at a time, behind a guard. The
    /// settings are set on the handle before the call.
    Exclusive,
}

/// The parameters of a request for the completion of a prompt.
#[derive(Debug, Clone, PartialEq, Eq)]
pub struct InferArgs {
    pub model: String,
    pub prompt: String,
    pub n_len: Option<u32>,
    pub temperature: Option<Scalar>,
    pub top_k: Option<i32>,
    pub top_p: Option<Scalar>,
    pub repeat_penalty: Option<Scalar>,
    pub n_ctx: Option<i32>,
    pub stream: Option<bool>,
}

/// The parameters of a request for the next turn of a conversation.
#[derive(Debug, Clone, PartialEq)]
pub struct ChatArgs {
    pub model: String,
    pub messages: Vec<Message>,
    pub n_len: Option<u32>,
    pub temperature: Option<Scalar>,
    pub top_k: Option<i32>,
    pub top_p: Option<Scalar>,
    pub repeat_penalty: Option<Scalar>,
    pub n_ctx: Option<i32>,
    pub stream: Option<bool>,
}

/// One frame of a streamed reply.
#[derive(Debug, Clone, PartialEq, Eq)]
pub struct StreamChunk {
    pub id: String,
    pub content: String,
    pub created: u64,
    pub model: String,
    pub finished: bool,
    pub finish_reason: Option<String>,
}

/// The body of a reply.
#[derive(Debug, Clone, PartialEq, Eq)]
pub enum NativeBody {
    /// The whole generated text.
    Response(String),
    /// The message of a failure.
    Error(String),
    /// A notice.
    Message(String),
    /// The record of one model.
    Model(Model),
    /// The discovery list.
    Models(Vec<Model>),
}

/// A reply: its HTTP status and its body.
#[derive(Debug, Clone, PartialEq, Eq)]
pub struct NativeReply {
    pub status: u16,
    pub body: NativeBody,
}

/// What a request asks of the pool and the backend.
#[derive(Debug, Clone, PartialEq, Eq)]
pub struct NativeCall {
    pub model: String,
    pub prompt: String,
    pub config: EngineConfig,
    pub stream: bool,
}

/// What a chat request asks of the pool, the template and the backend.
#[derive(Debug, Clone, PartialEq)]
pub struct NativeChatCall {
    pub model: String,
    pub data: TemplateData,
    pub config: EngineConfig,
    pub stream: bool,
}

/// `given`, or `fallback`.
pub open spec fn number_or(given: Option<i32>, fallback: i32) -> i32 {
    match given {
        Some(n) => n,
        None => fallback,
    }
}

/// The settings of a request: what it names, and for the rest a context of
/// 4096 tokens, no limit on the length, a temperature of eight tenths, the
/// best 40 candidates, a top-p of ninety-five hundredths and a repeat
/// penalty of eleven tenths.
pub open spec fn native_config(
    n_ctx: Option<i32>,
    n_len: Option<u32>,
    temperature: Option<Scalar>,
    top_k: Option<i32>,
    top_p: Option<Scalar>,
    repeat_penalty: Option<Scalar>,
) -> EngineConfig {
    EngineConfig {
        n_ctx: number_or(n_ctx, 4096),
        n_len,
        temperature: scalar_or_spec(temperature, EIGHT_TENTHS),
        top_k: number_or(top_k, 40),
        top_p: scalar_or_spec(top_p, NINETY_FIVE_HUNDREDTHS),
        repeat_penalty: scalar_or_spec(repeat_penalty, ELEVEN_TENTHS),
    }
}

/// The settings of a request.
pub fn request_config(
    n_ctx: Option<i32>,
    n_len: Option<u32>,
    temperature: Option<Scalar>,
    top_k: Option<i32>,
    top_p: Option<Scalar>,
    repeat_penalty: Option<Scalar>,
) -> (config: EngineConfig)
    ensures
        config == native_config(n_ctx, n_len, temperature, top_k, top_p, repeat_penalty),
{
    EngineConfig {
        n_ctx: match n_ctx {
            Some(n) => n,
            None => 4096,
        },
        n_len,
        temperature: scalar_or(temperature, EIGHT_TENTHS),
        top_k: match top_k {
            Some(k) => k,
            None => 40,
        },
        top_p: scalar_or(top_p, NINETY_FIVE_HUNDREDTHS),
        repeat_penalty: scalar_or(repeat_penalty, ELEVEN_TENTHS),
    }
}

/// The settings that go with the call to the backend: those of the request
/// for a shared handle, none for a guarded one, which got them before.
pub fn config_override(sharing: Sharing, config: &EngineConfig) -> (given: Option<EngineConfig>)
    ensures
        given == (match sharing {
            Sharing::Shared => Some(*config),
            Sharing::Exclusive => None,
        }),
{
    match sharing {
        Sharing::Shared => Some(*config),
        Sharing::Exclusive => None,
    }
}

/// Reads a request for the completion of a prompt: which model, which
/// prompt, which settings, and whether the reply is streamed (it is not
/// unless the request says so).
pub fn infer(args: &InferArgs) -> (call: NativeCall)
    ensures
        call.model@ == args.model@,
        call.prompt@ == args.prompt@,
        call.config == native_config(
            args.n_ctx,
            args.n_len,
            args.temperature,
            args.top_k,
            args.top_p,
            args.repeat_penalty,
        ),
        call.stream == (args.stream == Some(true)),
{
    NativeCall {
        model: args.model.clone(),
        prompt: args.prompt.clone(),
        config: request_config(
            args.n_ctx,
            args.n_len,
            args.temperature,
            args.top_k,
            args.top_p,
            args.repeat_penalty,
        ),
        stream: match args.stream {
            Some(s) => s,
            None => false,
        },
    }
}

/// Reads a chat request: which model, which settings, whether the reply is
/// streamed, and the data for the template, which are the messages of the
/// request and nothing else.
pub fn chat(args: ChatArgs) -> (call: NativeChatCall)
    ensures
        call.model == args.model,
        call.data == (TemplateData {
            system: None,
            tools: None,
            messages: Some(args.messages),
            prompt: None,
            response: None,
            suffix: None,
            think: None,
            think_level: None,
            is_think_set: None,
            force_legacy: false,
        }),
        call.config == native_config(
            args.n_ctx,
            args.n_len,
            args.temperature,
            args.top_k,
            args.top_p,
            args.repeat_penalty,
        ),
        call.stream == (args.stream == Some(true)),
{
    NativeChatCall {
        config: request_config(
            args.n_ctx,
            args.n_len,
            args.temperature,
            args.top_k,
            args.top_p,
            args.repeat_penalty,
        ),
        stream: match args.stream {
            Some(s) => s,
            None => false,
        },
        model: args.model,
        data: TemplateData::new().with_messages(Some(args.messages)),
    }
}

/// The reply that reports a failure: the status of its kind, and its
/// message as it came.
pub fn failure_reply(error: GatewayError) -> (reply: NativeReply)
    ensures
        reply.status == status_of(error.kind),
        reply.body == NativeBody::Error(error.message),
{
    NativeReply { status: status_code(error.kind), body: NativeBody::Error(error.message) }
}

/// The reply to a request that was not streamed: the text with status 200,
/// or the report of the failure with its status.
pub fn common_inference(outcome: Outcome) -> (reply: NativeReply)
    ensures
        match outcome {
            Outcome::Text(text) => reply.status == 200 && reply.body == NativeBody::Response(text),
            Outcome::Failed(error) => reply.status == status_of(error.kind) && reply.body
                == NativeBody::Error(error.message),
        },
{
    match outcome {
        Outcome::Text(text) => NativeReply { status: STATUS_OK, body: NativeBody::Response(text) },
        Outcome::Failed(error) => failure_reply(error),
    }
}

/// The reply to a request to load a model: the record of the model that
/// the handle serves, or the report of the failure.
pub fn load_model(loaded: Result<Model, GatewayError>) -> (reply: NativeReply)
    ensures
        match loaded {
            Ok(model) => reply.status == 200 && reply.body == NativeBody::Model(model),
            Err(error) => reply.status == status_of(error.kind) && reply.body
                == NativeBody::Error(error.message),
        },
{
    match loaded {
        Ok(model) => NativeReply { status: STATUS_OK, body: NativeBody::Model(model) },
        Err(error) => failure_reply(error),
    }
}

/// The reply to a request to unload a model. It is the same whether or not
/// the model was loaded.
pub fn unload_model() -> (reply: NativeReply)
    ensures
        reply.status == 200,
        reply.body matches NativeBody::Message(m) && m@ == "Model unloaded."@,
{
    NativeReply { status: STATUS_OK, body: NativeBody::Message("Model unloaded.".to_owned()) }
}

/// The reply that lists the discovered models, or reports that the lock of
/// the discovery was left broken.
pub fn list_models(models: Result<Vec<Model>, String>) -> (reply: NativeReply)
    ensures
        match models {
            Ok(list) => reply.status == 200 && reply.body == NativeBody::Models(list),
            Err(cause) => {
                &&& reply.status == 500
                &&& reply.body matches NativeBody::Error(m)
                &&& m@ == "Failed to acquire model discoverer lock: "@ + cause@
            },
        },
{
    match models {
        Ok(list) => NativeReply { status: STATUS_OK, body: NativeBody::Models(list) },
        Err(cause) => NativeReply {
            status: status_code(ErrorKind::Lock),
            body: NativeBody::Error(
                concat("Failed to acquire model discoverer lock: ", cause.as_str()),
            ),
        },
    }
}

/// The reply to a request for the result of the discovery: the list, as
/// `list_models` gives it.
pub fn discover(models: Result<Vec<Model>, String>) -> (reply: NativeReply)
    ensures
        match models {
            Ok(list) => reply.status == 200 && reply.body == NativeBody::Models(list),
            Err(cause) => {
                &&& reply.status == 500
                &&& reply.body matches NativeBody::Error(m)
                &&& m@ == "Failed to acquire model discoverer lock: "@ + cause@
            },
        },
{
    list_models(models)
}

/// A streamed reply: the identifier and model name that every frame of it
/// carries.
#[derive(Debug, Clone, PartialEq, Eq)]
pub struct NativeStream {
    pub id: String,
    pub model: String,
}

/// Whether `chunk` is a frame of `stream` that carries a fragment.
pub open spec fn is_token_chunk(
    chunk: StreamChunk,
    stream: NativeStream,
    fragment: Seq<char>,
) -> bool {
    &&& chunk.id@ == stream.id@
    &&& chunk.model@ == stream.model@
    &&& chunk.content@ == fragment
    &&& !chunk.finished
    &&& chunk.finish_reason is None
}

/// Whether `chunk` is the last frame of `stream`: no content, finished,
/// with finish reason `stop`.
pub open spec fn is_last_chunk(chunk: StreamChunk, stream: NativeStream) -> bool {
    &&& chunk.id@ == stream.id@
    &&& chunk.model@ == stream.model@
    &&& chunk.content@ == Seq::<char>::empty()
    &&& chunk.finished
    &&& text_view(chunk.finish_reason) == Some("stop"@)
}

/// Whether `chunks` is the whole stream for `fragments`: one frame for each
/// fragment in order, then the last frame.
pub open spec fn is_native_run(
    chunks: Seq<StreamChunk>,
    stream: NativeStream,
    fragments: Seq<Seq<char>>,
) -> bool {
    &&& chunks.len() == fragments.len() + 1
    &&& forall|i: int|
        0 <= i < fragments.len() ==> is_token_chunk(#[trigger] chunks[i], stream, fragments[i])
    &&& is_last_chunk(chunks.last(), stream)
}

/// The contents of all frames, one after another.
pub open spec fn streamed_content(chunks: Seq<StreamChunk>) -> Seq<char> {
    concat_all(chunks.map_values(|c: StreamChunk| c.content@))
}

impl NativeStream {
    /// Opens a stream for a model, under a new identifier.
    pub fn begin(model: String) -> (stream: NativeStream)
        ensures
            stream.model == model,
            is_random_uuid(stream.id@),
    {
        NativeStream { id: random_id(), model }
    }

    /// The frame that carries one fragment, made at the time `created`.
    pub fn token(&self, fragment: String, created: u64) -> (chunk: StreamChunk)
        ensures
            is_token_chunk(chunk, *self, fragment@),
            chunk.created == created,
    {
        StreamChunk {
            id: self.id.clone(),
            content: fragment,
            created,
            model: self.model.clone(),
            finished: false,
            finish_reason: None,
        }
    }

    /// The frame that ends the stream, made at the time `created`. It is
    /// sent however the generation ended.
    pub fn closing(&self, created: u64) -> (chunk: StreamChunk)
        ensures
            is_last_chunk(chunk, *self),
            chunk.created == created,
    {
        StreamChunk {
            id: self.id.clone(),
            content: String::new(),
            created,
            model: self.model.clone(),
            finished: true,
            finish_reason: Some("stop".to_owned()),
        }
    }

    /// Every frame of the stream for the given fragments, in order, all
    /// made at the time `created`.
    pub fn chunks(&self, fragments: Vec<String>, created: u64) -> (chunks: Vec<StreamChunk>)
        ensures
            is_native_run(chunks@, *self, views(fragments@)),
            streamed_content(chunks@) == concat_all(views(fragments@)),
    {
        let mut chunks: Vec<StreamChunk> = Vec::new();
        let ghost all = views(fragments@);
        for fragment in it: fragments
            invariant
                all == views(it.seq()),
                chunks@.len() == it.index(),
                forall|i: int|
                    0 <= i < it.index() ==> is_token_chunk(#[trigger] chunks@[i], *self, all[i]),
        {
            chunks.push(self.token(fragment, created));
        }
        chunks.push(self.closing(created));
        proof {
            lemma_streamed_content(chunks@, *self, all);
        }
        chunks
    }

    /// Streams a generation over `tokens`, the bytes of the tokens that a
    /// model samples one after another: every fragment goes to a sink as
    /// it is decoded, and each fragment that the sink has received becomes
    /// a frame. The contents of the frames, one after another, are the text
    /// that the same generation returns in one piece.
    pub fn stream(&self, tokens: &[Vec<u8>], max_tokens: Option<u32>, created: u64) -> (chunks:
        Vec<StreamChunk>)
        ensures
            chunks@.len() == tokens_taken(tokens@.len(), max_tokens) + 1,
            streamed_content(chunks@) == generated(tokens@, max_tokens),
    {
        let mut sink = Collector::new();
        let _ = Generation::streamed(tokens, max_tokens, &mut sink);
        assert(sink.fragments@.skip(0) =~= sink.fragments@);
        self.chunks(sink.fragments, created)
    }
}

/// The contents of a whole stream, one after another, are the fragments
/// one after another: streaming hands over the same text as a reply in one
/// piece does.
pub proof fn lemma_streamed_content(
    chunks: Seq<StreamChunk>,
    stream: NativeStream,
    fragments: Seq<Seq<char>>,
)
    requires
        is_native_run(chunks, stream, fragments),
    ensures
        streamed_content(chunks) == concat_all(fragments),
{
    let texts = chunks.map_values(|c: StreamChunk| c.content@);
    let none = Seq::<char>::empty();
    assert(texts =~= fragments + seq![none]) by {
        assert forall|k: int| 0 <= k < texts.len() implies texts[k] == (fragments + seq![
            none,
        ])[k] by {
            if k < fragments.len() {
                assert(is_token_chunk(chunks[k], stream, fragments[k]));
            }
        }
    }
    lemma_concat_append(fragments, seq![none]);
    lemma_concat_one(none);
    assert(concat_all(texts) =~= concat_all(fragments));
}

/// A generation that its sink let run to the end arrives as the same text
/// whether it is streamed or sent in one piece.
pub proof fn lemma_native_streaming_equals_whole(
    generation: Generation,
    chunks: Seq<StreamChunk>,
    stream: NativeStream,
)
    requires
        generation.wf(),
        !generation.cancelled(),
        is_native_run(chunks, stream, generation.delivered()),
    ensures
        streamed_content(chunks) == generation.text(),
{
    generation.lemma_text_is_what_was_delivered();
    lemma_streamed_content(chunks, stream, generation.delivered());
}

} // verus!
