use tllama::chat::{read_command, Command};
use tllama::engine::{EngineBackend, EngineConfig, EngineError, Guarded, Scalar, TokenSink};
use tllama::env::{
    flash_attention, kv_cache_of, kv_cache_type, threads, KvCacheType, DEFAULT_RPC_HOST,
    DEFAULT_THREADS,
};
use tllama::hub::{effective_chat_template, model_of_snapshot};
use tllama::model::{Model, ModelType};
use tllama::ollama::{model_of_layers, Layer};
use tllama::template::GO_DEFAULT_TEMPLATE;

#[test]
fn threads_prefer_the_configured_number() {
    assert_eq!(threads(Some(3), Some(16)), 3);
    assert_eq!(threads(Some(-1), None), -1);
    assert_eq!(threads(None, Some(16)), 16);
    assert_eq!(threads(None, None), 4);
    assert_eq!(DEFAULT_THREADS, 4);
    assert_eq!(threads(None, Some(i32::MAX as usize)), i32::MAX);
    assert_eq!(threads(None, Some(i32::MAX as usize + 1)), i32::MAX);
}

#[test]
fn flash_attention_has_three_settings() {
    assert_eq!(flash_attention(None), Some(-1));
    assert_eq!(flash_attention(Some(-1)), Some(-1));
    assert_eq!(flash_attention(Some(0)), Some(0));
    assert_eq!(flash_attention(Some(1)), Some(1));
    assert_eq!(flash_attention(Some(2)), None);
    assert_eq!(flash_attention(Some(-2)), None);
    assert_eq!(flash_attention(Some(i32::MIN)), None);
}

#[test]
fn kv_cache_names() {
    let cases = [
        ("f32", KvCacheType::F32),
        ("f16", KvCacheType::F16),
        ("q4_0", KvCacheType::Q40),
        ("q4_1", KvCacheType::Q41),
        ("q5_0", KvCacheType::Q50),
        ("q5_1", KvCacheType::Q51),
        ("q8_0", KvCacheType::Q80),
        ("q8_1", KvCacheType::Q81),
        ("q2_k", KvCacheType::Q2K),
        ("q3_k", KvCacheType::Q3K),
        ("q4_k", KvCacheType::Q4K),
        ("q5_k", KvCacheType::Q5K),
        ("q6_k", KvCacheType::Q6K),
        ("q8_k", KvCacheType::Q8K),
        ("iq2_xxs", KvCacheType::Iq2Xxs),
        ("iq2_xs", KvCacheType::Iq2Xs),
        ("iq3_xxs", KvCacheType::Iq3Xxs),
        ("iq1_s", KvCacheType::Iq1S),
        ("iq4_nl", KvCacheType::Iq4Nl),
        ("iq3_s", KvCacheType::Iq3S),
        ("iq2_s", KvCacheType::Iq2S),
        ("iq4_xs", KvCacheType::Iq4Xs),
        ("i8", KvCacheType::I8),
        ("i16", KvCacheType::I16),
        ("i32", KvCacheType::I32),
        ("i64", KvCacheType::I64),
        ("f64", KvCacheType::F64),
        ("iq1_m", KvCacheType::Iq1M),
        ("bf16", KvCacheType::Bf16),
        ("tq1_0", KvCacheType::Tq10),
        ("tq2_0", KvCacheType::Tq20),
        ("mxfp4", KvCacheType::Mxfp4),
    ];
    for (name, format) in cases {
        assert_eq!(kv_cache_of(name), format, "{}", name);
        assert_eq!(kv_cache_type(Some(&name.to_uppercase())), format, "{}", name);
    }
}

#[test]
fn kv_cache_defaults_to_half_precision() {
    assert_eq!(kv_cache_type(None), KvCacheType::F16);
    assert_eq!(kv_cache_type(Some("")), KvCacheType::F16);
    assert_eq!(kv_cache_type(Some("q4")), KvCacheType::F16);
    assert_eq!(kv_cache_of("Q8_0"), KvCacheType::F16);
    assert_eq!(kv_cache_type(Some("Q8_0")), KvCacheType::Q80);
    assert_eq!(DEFAULT_RPC_HOST, "http://127.0.0.1:12186");
}

#[test]
fn layers_give_the_record() {
    let layers = vec![
        Layer {
            media_type: Some("application/vnd.ollama.image.model".to_string()),
            digest: Some("sha256:w".to_string()),
            size: Some(10),
        },
        Layer {
            media_type: Some("application/vnd.ollama.image.template".to_string()),
            digest: None,
            size: Some(1),
        },
    ];
    let model =
        model_of_layers("/s", "n:t".to_string(), &layers, &Some("T".to_string()), true).unwrap();
    assert_eq!(
        model,
        Model {
            format: ModelType::Gguf,
            path: "/s/blobs/sha256-w".to_string(),
            name: "n:t".to_string(),
            size: 11,
            template: None,
        }
    );
    assert_eq!(model_of_layers("/s", "n:t".to_string(), &layers, &None, false), None);
    assert_eq!(model_of_layers("/s", "n:t".to_string(), &[], &None, true), None);
}

#[test]
fn sizes_give_the_snapshot_record() {
    let model =
        model_of_snapshot("/h/models--o--r", "o/r", "rev", true, &[52_428_800], "T".to_string())
            .unwrap();
    assert_eq!(
        model,
        Model {
            format: ModelType::Transformers,
            path: "/h/models--o--r/snapshots/rev".to_string(),
            name: "o/r".to_string(),
            size: 52_428_800,
            template: Some("T".to_string()),
        }
    );
    assert_eq!(model_of_snapshot("/d", "n", "s", true, &[52_428_799], "T".to_string()), None);
    assert_eq!(model_of_snapshot("/d", "n", "s", false, &[52_428_800], "T".to_string()), None);
    assert_eq!(effective_chat_template(None), GO_DEFAULT_TEMPLATE);
    assert_eq!(effective_chat_template(Some("X".to_string())), "X");
}

#[test]
fn commands_are_read_from_a_trimmed_line() {
    assert_eq!(read_command(".exit"), Command::Exit);
    assert_eq!(read_command(" .exit"), Command::Unknown);
    assert_eq!(read_command(".system a b"), Command::System(Some("a b".to_string())));
    assert_eq!(read_command(".system "), Command::System(Some(String::new())));
}

struct Fixed {
    seen: std::cell::RefCell<Vec<Option<EngineConfig>>>,
}

impl EngineBackend for Fixed {
    fn new(_args: &EngineConfig, _model: &Model) -> Result<Self, EngineError> {
        Ok(Fixed { seen: std::cell::RefCell::new(Vec::new()) })
    }

    fn infer<S: TokenSink>(
        &self,
        prompt: &str,
        option: Option<&EngineConfig>,
        _callback: Option<&mut S>,
    ) -> Result<String, EngineError> {
        self.seen.borrow_mut().push(option.copied());
        Ok(prompt.to_uppercase())
    }

    fn get_model_info(&self) -> Model {
        Model::from_path(&"./fixed".to_string())
    }
}

#[test]
fn guarded_handle_carries_its_settings() {
    let first = EngineConfig::default();
    let mut second = first;
    second.n_ctx = 512;
    second.temperature = Scalar { bits: 0.0f32.to_bits() };
    let model = Model::from_path(&"./fixed".to_string());
    let mut handle: Guarded<Fixed> = Guarded::new(&first, &model).ok().unwrap();
    assert_eq!(handle.config, first);
    assert_eq!(handle.infer::<tllama::engine::Collector>("a", None).unwrap(), "A");
    handle.set_config(&second);
    assert_eq!(handle.config, second);
    assert_eq!(handle.infer::<tllama::engine::Collector>("b", None).unwrap(), "B");
    assert_eq!(*handle.backend.seen.borrow(), vec![Some(first), Some(second)]);
    assert_eq!(handle.get_model_info().name, "./fixed");
}
