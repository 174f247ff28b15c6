use tllama::api::error::{ErrorKind, GatewayError, Outcome};
use tllama::api::native::{
    chat, common_inference, config_override, discover, failure_reply, infer, list_models,
    load_model, request_config, unload_model, ChatArgs, InferArgs, NativeBody, NativeReply,
    NativeStream, Sharing, StreamChunk,
};
use tllama::engine::{EngineConfig, Scalar};
use tllama::model::Model;
use tllama::template::{Message, TemplateData};

fn scalar(x: f32) -> Scalar {
    Scalar { bits: x.to_bits() }
}

fn args() -> InferArgs {
    InferArgs {
        model: "big".to_string(),
        prompt: "2+2=".to_string(),
        n_len: None,
        temperature: None,
        top_k: None,
        top_p: None,
        repeat_penalty: None,
        n_ctx: None,
        stream: None,
    }
}

fn user(content: &str) -> Message {
    Message {
        role: "user".to_string(),
        content: Some(content.to_string()),
        tool_calls: None,
        name: None,
    }
}

#[test]
fn native_defaults() {
    let call = infer(&args());
    assert_eq!((call.model.as_str(), call.prompt.as_str(), call.stream), ("big", "2+2=", false));
    assert_eq!(
        call.config,
        EngineConfig {
            n_ctx: 4096,
            n_len: None,
            temperature: scalar(0.8),
            top_k: 40,
            top_p: scalar(0.95),
            repeat_penalty: scalar(1.1),
        }
    );
}

#[test]
fn native_takes_what_the_request_names() {
    let mut a = args();
    a.n_len = Some(16);
    a.temperature = Some(scalar(0.0));
    a.top_k = Some(1);
    a.top_p = Some(scalar(0.1));
    a.repeat_penalty = Some(scalar(1.0));
    a.n_ctx = Some(512);
    a.stream = Some(true);
    let call = infer(&a);
    assert!(call.stream);
    assert_eq!(
        call.config,
        EngineConfig {
            n_ctx: 512,
            n_len: Some(16),
            temperature: scalar(0.0),
            top_k: 1,
            top_p: scalar(0.1),
            repeat_penalty: scalar(1.0),
        }
    );
    assert_eq!(
        request_config(Some(512), Some(16), Some(scalar(0.0)), Some(1), Some(scalar(0.1)), Some(scalar(1.0))),
        call.config
    );
}

#[test]
fn settings_travel_with_the_call_only_for_shared_handles() {
    let config = infer(&args()).config;
    assert_eq!(config_override(Sharing::Shared, &config), Some(config));
    assert_eq!(config_override(Sharing::Exclusive, &config), None);
}

#[test]
fn native_chat_renders_from_the_messages_alone() {
    let call = chat(ChatArgs {
        model: "big".to_string(),
        messages: vec![user("Hi"), user("there")],
        n_len: Some(3),
        temperature: None,
        top_k: None,
        top_p: None,
        repeat_penalty: None,
        n_ctx: None,
        stream: Some(true),
    });
    assert_eq!(call.model, "big");
    assert!(call.stream);
    assert_eq!(call.config.n_len, Some(3));
    assert_eq!(call.config.n_ctx, 4096);
    assert_eq!(
        call.data,
        TemplateData::new().with_messages(Some(vec![user("Hi"), user("there")]))
    );
    assert_eq!(call.data.system, None);
    assert_eq!(call.data.prompt, None);
}

#[test]
fn native_reply_wraps_the_text() {
    assert_eq!(
        common_inference(Outcome::Text("4".to_string())),
        NativeReply { status: 200, body: NativeBody::Response("4".to_string()) }
    );
}

#[test]
fn native_reply_reports_each_failure_with_its_status() {
    for (kind, status) in [
        (ErrorKind::NotFound, 400),
        (ErrorKind::Render, 400),
        (ErrorKind::Load, 500),
        (ErrorKind::Infer, 500),
        (ErrorKind::Lock, 500),
    ] {
        let error = GatewayError { kind, message: "as it came".to_string() };
        let expected = NativeReply { status, body: NativeBody::Error("as it came".to_string()) };
        assert_eq!(common_inference(Outcome::Failed(error.clone())), expected);
        assert_eq!(failure_reply(error.clone()), expected);
        assert_eq!(load_model(Err(error)), expected);
    }
}

#[test]
fn load_and_unload_replies() {
    let record = Model::from_path(&"./m.gguf".to_string());
    assert_eq!(
        load_model(Ok(record.clone())),
        NativeReply { status: 200, body: NativeBody::Model(record) }
    );
    assert_eq!(
        unload_model(),
        NativeReply { status: 200, body: NativeBody::Message("Model unloaded.".to_string()) }
    );
}

#[test]
fn list_and_discover_replies() {
    let models = vec![Model::from_path(&"./m.gguf".to_string())];
    assert_eq!(
        list_models(Ok(models.clone())),
        NativeReply { status: 200, body: NativeBody::Models(models.clone()) }
    );
    assert_eq!(discover(Ok(models.clone())), list_models(Ok(models)));
    assert_eq!(
        list_models(Err("poisoned".to_string())),
        NativeReply {
            status: 500,
            body: NativeBody::Error("Failed to acquire model discoverer lock: poisoned".to_string()),
        }
    );
    assert_eq!(discover(Err("p".to_string())).status, 500);
}

#[test]
fn native_stream_carries_and_closes() {
    let stream = NativeStream { id: "n1".to_string(), model: "big".to_string() };
    assert_eq!(
        stream.token("ab".to_string(), 7),
        StreamChunk {
            id: "n1".to_string(),
            content: "ab".to_string(),
            created: 7,
            model: "big".to_string(),
            finished: false,
            finish_reason: None,
        }
    );
    assert_eq!(
        stream.closing(8),
        StreamChunk {
            id: "n1".to_string(),
            content: "".to_string(),
            created: 8,
            model: "big".to_string(),
            finished: true,
            finish_reason: Some("stop".to_string()),
        }
    );
    let chunks = stream.chunks(vec!["a".to_string(), "".to_string(), "bc".to_string()], 9);
    assert_eq!(chunks.len(), 4);
    assert_eq!(chunks[3], stream.closing(9));
    assert_eq!(chunks[2], stream.token("bc".to_string(), 9));
    let streamed: String = chunks.iter().map(|c| c.content.as_str()).collect();
    assert_eq!(streamed, "abc");
    assert_eq!(chunks.iter().filter(|c| c.finished).count(), 1);
    assert_eq!(stream.chunks(vec![], 1), vec![stream.closing(1)]);
}

#[test]
fn native_stream_begins_under_a_new_identifier() {
    let a = NativeStream::begin("big".to_string());
    let b = NativeStream::begin("big".to_string());
    assert_eq!(a.model, "big");
    assert_eq!(a.id.len(), 36);
    assert_ne!(a.id, b.id);
}

#[test]
fn a_streamed_native_generation_is_the_reply_in_one_piece() {
    let sampled: Vec<Vec<u8>> = vec![b"ab".to_vec(), vec![0xC3], vec![0xB6], b"c".to_vec()];
    let whole = tllama::engine::Generation::whole(&sampled, None);
    assert_eq!(whole, "ab\u{f6}c");
    let stream = NativeStream::begin("big".to_string());
    let chunks = stream.stream(&sampled, None, 11);
    let contents: Vec<&str> = chunks.iter().map(|c| c.content.as_str()).collect();
    assert_eq!(contents, vec!["ab", "", "\u{f6}", "c", ""]);
    assert_eq!(contents.concat(), whole);
    assert!(chunks[..4].iter().all(|c| !c.finished && c.finish_reason.is_none()));
    assert!(chunks[4].finished);
    assert_eq!(chunks[4].finish_reason.as_deref(), Some("stop"));
    assert!(chunks.iter().all(|c| c.id == stream.id && c.created == 11));
}
