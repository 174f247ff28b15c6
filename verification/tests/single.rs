use tllama::api::error::{ErrorKind, GatewayError, Outcome};
use tllama::api::openai::{ChatCompletionRequest, ChatMessage};
use tllama::api::single::{
    health, openai_chat, openai_chat_reply, plain_failure, rllama_complete,
    rllama_complete_reply, system_prompt, RllamaRequest, SingleBody, SingleReply, CHAT_ID,
};
use tllama::engine::{EngineConfig, Scalar};
use tllama::template::{Message, TemplateData};

fn scalar(x: f32) -> Scalar {
    Scalar { bits: x.to_bits() }
}

fn request() -> ChatCompletionRequest {
    ChatCompletionRequest {
        model: "m".to_string(),
        messages: vec![ChatMessage { role: "user".to_string(), content: "Hi".to_string(), name: None }],
        max_tokens: None,
        temperature: None,
        top_p: Some(scalar(0.1)),
        n: None,
        stream: None,
        stop: None,
        presence_penalty: None,
        frequency_penalty: None,
        logit_bias: None,
    }
}

#[test]
fn single_server_system_prompt() {
    assert_eq!(system_prompt(None), "You are a helpful, respectful and honest AI assistant.");
    assert_eq!(system_prompt(Some("Be terse.".to_string())), "Be terse.");
}

#[test]
fn single_server_chat_call() {
    let call = openai_chat(&request(), "Be terse.");
    assert_eq!(
        call.data,
        TemplateData::new().with_system(Some("Be terse.".to_string())).with_messages(Some(vec![
            Message {
                role: "user".to_string(),
                content: Some("Hi".to_string()),
                tool_calls: None,
                name: None,
            }
        ]))
    );
    assert_eq!(
        call.config,
        EngineConfig {
            n_ctx: 2048,
            n_len: Some(2048),
            temperature: scalar(0.8),
            top_k: 40,
            top_p: scalar(0.9),
            repeat_penalty: scalar(1.1),
        }
    );
    let mut named = request();
    named.max_tokens = Some(9);
    named.temperature = Some(scalar(0.3));
    let call = openai_chat(&named, "s");
    assert_eq!(call.config.n_len, Some(9));
    assert_eq!(call.config.temperature, scalar(0.3));
}

#[test]
fn single_server_completion_settings() {
    let mut r = RllamaRequest {
        prompt: "p".to_string(),
        temperature: None,
        max_tokens: None,
        top_k: None,
        top_p: None,
        repeat_penalty: None,
    };
    assert_eq!(
        rllama_complete(&r),
        EngineConfig {
            n_ctx: 2048,
            n_len: Some(2048),
            temperature: scalar(0.8),
            top_k: 40,
            top_p: scalar(0.9),
            repeat_penalty: scalar(1.1),
        }
    );
    r.temperature = Some(scalar(0.0));
    r.max_tokens = Some(1);
    r.top_k = Some(3);
    r.top_p = Some(scalar(0.5));
    r.repeat_penalty = Some(scalar(1.0));
    assert_eq!(
        rllama_complete(&r),
        EngineConfig {
            n_ctx: 2048,
            n_len: Some(1),
            temperature: scalar(0.0),
            top_k: 3,
            top_p: scalar(0.5),
            repeat_penalty: scalar(1.0),
        }
    );
}

#[test]
fn single_server_replies() {
    let reply = openai_chat_reply("m", Outcome::Text("Hello".to_string()), 77);
    assert_eq!(reply.status, 200);
    match reply.body {
        SingleBody::Chat(r) => {
            assert_eq!(r.id, CHAT_ID);
            assert_eq!(r.id, "chatcmpl-123");
            assert_eq!((r.object.as_str(), r.created, r.model.as_str()), ("chat.completion", 77, "m"));
            assert_eq!(r.choices[0].message.content, "Hello");
            assert_eq!(r.choices[0].message.role, "assistant");
            assert_eq!(r.choices[0].finish_reason, "stop");
            assert_eq!(r.usage.total_tokens, 0);
        }
        other => panic!("{:?}", other),
    }
    assert_eq!(
        rllama_complete_reply(Outcome::Text("t".to_string())),
        SingleReply { status: 200, body: SingleBody::Completion("t".to_string()) }
    );
    assert_eq!(health(), SingleReply { status: 200, body: SingleBody::Plain("OK".to_string()) });
}

#[test]
fn single_server_failures_are_plain_text() {
    let cases = [
        (ErrorKind::Render, 400, "Template error: why"),
        (ErrorKind::Infer, 500, "Inference error: why"),
        (ErrorKind::NotFound, 400, "Model not found: why"),
        (ErrorKind::Load, 500, "Load error: why"),
        (ErrorKind::Lock, 500, "Lock error: why"),
    ];
    for (kind, status, text) in cases {
        let error = GatewayError { kind, message: "why".to_string() };
        let expected = SingleReply { status, body: SingleBody::Plain(text.to_string()) };
        assert_eq!(plain_failure(&error), expected);
        assert_eq!(openai_chat_reply("m", Outcome::Failed(error.clone()), 1), expected);
        assert_eq!(rllama_complete_reply(Outcome::Failed(error)), expected);
    }
}
