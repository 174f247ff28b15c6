use tllama::api::error::ErrorKind;
use tllama::api::pool::{get_or_load, load_failure, load_request, lock_failure, ModelPool};
use tllama::discover::{Contents, DirectoryScan, FileScan, ModelDiscover};
use tllama::engine::{EngineConfig, Scalar};
use tllama::features::DirectoryProbe;

fn discovered() -> ModelDiscover {
    let mut engine = ModelDiscover::new();
    engine.discover(&[DirectoryScan {
        path: "./models".to_string(),
        probe: DirectoryProbe { is_dir: true, names: vec!["big.gguf".to_string()], globs: vec![] },
        contents: Contents::Files(vec![FileScan {
            path: "./models/big.gguf".to_string(),
            size: Some(80 * 1024 * 1024),
            head: b"GGUF".to_vec(),
        }]),
    }]);
    engine
}

#[test]
fn new_pool_is_empty() {
    let pool: ModelPool<&str> = ModelPool::new();
    assert_eq!(pool.len(), 0);
    assert!(pool.get_model("a").is_none());
}

#[test]
fn miss_then_insert_then_hit() {
    let mut pool: ModelPool<String> = ModelPool::new();
    assert!(pool.get_model("llama").is_none());
    let id = pool.insert("llama".to_string(), "handle-1".to_string()).unwrap();
    assert_eq!(id, 0);
    let entry = pool.get_model("llama").unwrap();
    assert_eq!((entry.name.as_str(), entry.id, entry.handle.as_str()), ("llama", 0, "handle-1"));
    assert!(pool.get_model("Llama").is_none());
    assert_eq!(pool.len(), 1);
}

#[test]
fn insert_overwrites_and_keeps_one_entry_per_name() {
    let mut pool = ModelPool::new();
    assert_eq!(pool.insert("a".to_string(), 'x'), Ok(0));
    assert_eq!(pool.insert("b".to_string(), 'y'), Ok(1));
    assert_eq!(pool.insert("a".to_string(), 'z'), Ok(2));
    assert_eq!(pool.len(), 2);
    let a = pool.get_model("a").unwrap();
    assert_eq!((a.id, a.handle), (2, 'z'));
    let b = pool.get_model("b").unwrap();
    assert_eq!((b.id, b.handle), (1, 'y'));
}

#[test]
fn concurrent_first_use_leaves_one_entry() {
    let callers = 5;
    let mut pool: ModelPool<usize> = ModelPool::new();
    let misses: Vec<usize> = (0..callers).filter(|_| pool.get_model("fresh").is_none()).collect();
    assert_eq!(misses.len(), callers);
    let mut loads = 0;
    let mut ids = Vec::new();
    for caller in misses {
        loads += 1;
        ids.push(pool.insert("fresh".to_string(), caller).unwrap());
    }
    assert!(loads <= callers);
    assert_eq!(pool.len(), 1);
    let survivor = pool.get_model("fresh").unwrap();
    assert_eq!(survivor.id, *ids.last().unwrap());
    let late = pool.get_model("fresh").is_none();
    assert!(!late);
}

#[test]
fn interleaved_first_use_loads_at_most_once_per_caller() {
    let mut pool: ModelPool<u8> = ModelPool::new();
    let mut loads = 0;
    let first_misses = pool.get_model("m").is_none();
    let second_misses = pool.get_model("m").is_none();
    assert!(first_misses && second_misses);
    loads += 1;
    pool.insert("m".to_string(), 1).unwrap();
    let third_misses = pool.get_model("m").is_none();
    assert!(!third_misses);
    loads += 1;
    pool.insert("m".to_string(), 2).unwrap();
    assert_eq!(loads, 2);
    assert_eq!(pool.len(), 1);
    assert_eq!(pool.get_model("m").unwrap().handle, 2);
}

#[test]
fn reload_after_unload_has_a_new_identity() {
    let mut pool = ModelPool::new();
    let mut seen = Vec::new();
    seen.push(pool.insert("a".to_string(), "first").unwrap());
    seen.push(pool.insert("b".to_string(), "other").unwrap());
    seen.push(pool.insert("a".to_string(), "second").unwrap());
    seen.push(pool.get_model("a").unwrap().id);
    let removed = pool.unload_model("a").unwrap();
    assert_eq!((removed.name.as_str(), removed.handle, removed.id), ("a", "second", 2));
    assert!(pool.get_model("a").is_none());
    let fresh = pool.insert("a".to_string(), "third").unwrap();
    assert!(seen.iter().all(|old| *old != fresh));
    assert_eq!(pool.get_model("a").unwrap().id, fresh);
    assert_eq!(fresh, 3);
}

#[test]
fn unload_of_an_unknown_name_changes_nothing() {
    let mut pool = ModelPool::new();
    pool.insert("a".to_string(), 1u8).unwrap();
    assert!(pool.unload_model("b").is_none());
    assert_eq!(pool.len(), 1);
    assert!(pool.unload_model("a").is_some());
    assert!(pool.unload_model("a").is_none());
    assert_eq!(pool.len(), 0);
}

#[test]
fn removed_handle_outlives_the_pool_entry() {
    let mut pool = ModelPool::new();
    let handle = std::sync::Arc::new("engine".to_string());
    pool.insert("a".to_string(), handle.clone()).unwrap();
    let in_flight = pool.get_model("a").unwrap().handle.clone();
    let removed = pool.unload_model("a").unwrap();
    drop(removed);
    assert_eq!(in_flight.as_str(), "engine");
    assert_eq!(std::sync::Arc::strong_count(&handle), 2);
}

#[test]
fn load_request_resolves_through_discovery() {
    let engine = discovered();
    let request = load_request(&engine, "big").unwrap();
    assert_eq!(request.model.name, "big");
    assert_eq!(
        request.config,
        EngineConfig {
            n_ctx: 4096,
            n_len: None,
            temperature: Scalar { bits: 0.8f32.to_bits() },
            top_k: 40,
            top_p: Scalar { bits: 0.9f32.to_bits() },
            repeat_penalty: Scalar { bits: 1.1f32.to_bits() },
        }
    );
}

#[test]
fn load_request_for_an_unknown_name_is_not_found() {
    let engine = discovered();
    let error = load_request(&engine, "small").unwrap_err();
    assert_eq!(error.kind, ErrorKind::NotFound);
    assert_eq!(error.message, "Model 'small' not found: Model small not found");
}

#[test]
fn load_failure_keeps_the_backend_message() {
    let error = load_failure("big", "unable to mmap: out of memory");
    assert_eq!(error.kind, ErrorKind::Load);
    assert_eq!(error.message, "Failed to load model 'big': unable to mmap: out of memory");
    let lock = lock_failure("poisoned lock: another task failed inside");
    assert_eq!(lock.kind, ErrorKind::Lock);
    assert_eq!(lock.message, "poisoned lock: another task failed inside");
}

struct Loaded {
    record: tllama::model::Model,
}

impl tllama::engine::EngineBackend for Loaded {
    fn new(
        _args: &EngineConfig,
        model: &tllama::model::Model,
    ) -> Result<Self, tllama::engine::EngineError> {
        if model.size > 100 * 1024 * 1024 {
            Err(tllama::engine::EngineError { message: "out of memory".to_string() })
        } else {
            Ok(Loaded { record: model.clone() })
        }
    }

    fn infer<S: tllama::engine::TokenSink>(
        &self,
        prompt: &str,
        _option: Option<&EngineConfig>,
        _callback: Option<&mut S>,
    ) -> Result<String, tllama::engine::EngineError> {
        Ok(prompt.to_string())
    }

    fn get_model_info(&self) -> tllama::model::Model {
        self.record.clone()
    }
}

#[test]
fn get_or_load_loads_once_and_then_hits() {
    let engine = discovered();
    let mut pool: ModelPool<Loaded> = ModelPool::new();
    assert_eq!(get_or_load(&mut pool, &engine, "big"), Ok(0));
    assert_eq!(get_or_load(&mut pool, &engine, "big"), Ok(0));
    assert_eq!(pool.len(), 1);
    assert_eq!(pool.get_model("big").unwrap().handle.record.name, "big");
    pool.unload_model("big");
    assert_eq!(get_or_load(&mut pool, &engine, "big"), Ok(1));
}

#[test]
fn get_or_load_reports_what_went_wrong() {
    let mut engine = discovered();
    let mut pool: ModelPool<Loaded> = ModelPool::new();
    let missing = get_or_load(&mut pool, &engine, "small").unwrap_err();
    assert_eq!(missing.kind, ErrorKind::NotFound);
    assert_eq!(missing.message, "Model 'small' not found: Model small not found");
    engine.discover(&[DirectoryScan {
        path: "/m".to_string(),
        probe: DirectoryProbe { is_dir: true, names: vec![], globs: vec![] },
        contents: Contents::Files(vec![FileScan {
            path: "/m/huge.gguf".to_string(),
            size: Some(200 * 1024 * 1024),
            head: b"GGUF".to_vec(),
        }]),
    }]);
    let failed = get_or_load(&mut pool, &engine, "huge").unwrap_err();
    assert_eq!(failed.kind, ErrorKind::Load);
    assert_eq!(failed.message, "Failed to load model 'huge': out of memory");
    assert_eq!(pool.len(), 0);
}
