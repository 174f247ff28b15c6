use tllama::discover::{
    discover_directory, file_model, Contents, DirectoryScan, FileScan, ModelDiscover,
    ModelNotFound,
};
use tllama::exclude::{excluded, PlatformFamily};
use tllama::features::{DirectoryProbe, GlobAnswer};
use tllama::hub::{HubEntryScan, SnapshotScan};
use tllama::model::{Model, ModelType};
use tllama::ollama::{ManifestScan, OllamaStore};

const MIB: u64 = 1024 * 1024;

fn gguf_head() -> Vec<u8> {
    b"GGUF\x03\x00\x00\x00".to_vec()
}

fn container_head() -> Vec<u8> {
    let mut head = 2u64.to_le_bytes().to_vec();
    head.extend_from_slice(b"{}");
    head
}

fn file(path: &str, size: u64, head: Vec<u8>) -> FileScan {
    FileScan { path: path.to_string(), size: Some(size), head }
}

fn plain_probe(names: &[&str]) -> DirectoryProbe {
    DirectoryProbe {
        is_dir: true,
        names: names.iter().map(|s| s.to_string()).collect(),
        globs: vec![],
    }
}

fn models_directory() -> DirectoryScan {
    DirectoryScan {
        path: "./models".to_string(),
        probe: plain_probe(&["llama.bin", "big.gguf"]),
        contents: Contents::Files(vec![
            file("./models/llama.bin", 10 * MIB, vec![0u8; 16]),
            file("./models/big.gguf", 80 * MIB, gguf_head()),
        ]),
    }
}

fn ollama_directory() -> DirectoryScan {
    DirectoryScan {
        path: "/o".to_string(),
        probe: DirectoryProbe {
            is_dir: true,
            names: vec!["manifests".to_string(), "blobs".to_string()],
            globs: vec![GlobAnswer { pattern: "/o/blobs/sha256-*".to_string(), found: true }],
        },
        contents: Contents::Ollama(OllamaStore {
            has_manifests: true,
            manifests: vec![ManifestScan {
                components: vec![
                    "registry.ollama.ai".to_string(),
                    "library".to_string(),
                    "qwen".to_string(),
                    "7b".to_string(),
                ],
                body: Some(
                    r#"{"layers":[{"mediaType":"application/vnd.ollama.image.model","digest":"sha256:w","size":77}]}"#
                        .to_string(),
                ),
                template: None,
                weights_present: true,
            }],
        }),
    }
}

fn hub_directory() -> DirectoryScan {
    DirectoryScan {
        path: "/h".to_string(),
        probe: DirectoryProbe {
            is_dir: true,
            names: vec!["models--o--r".to_string()],
            globs: vec![
                GlobAnswer { pattern: "/h/*/blobs".to_string(), found: true },
                GlobAnswer { pattern: "/h/*/refs".to_string(), found: true },
                GlobAnswer { pattern: "/h/*/snapshots".to_string(), found: true },
            ],
        },
        contents: Contents::HubCache(vec![HubEntryScan {
            file_name: "models--o--r".to_string(),
            is_dir: true,
            probe: DirectoryProbe {
                is_dir: true,
                names: vec!["blobs".to_string(), "refs".to_string(), "snapshots".to_string()],
                globs: vec![
                    GlobAnswer {
                        pattern: "/h/models--o--r/snapshots/*/config.json".to_string(),
                        found: true,
                    },
                    GlobAnswer {
                        pattern: "/h/models--o--r/snapshots/*/tokenizer_config.json".to_string(),
                        found: true,
                    },
                ],
            },
            has_snapshots: true,
            snapshots: vec![SnapshotScan {
                name: "rev1".to_string(),
                is_dir: true,
                tokenizer_config: Some(r#"{"chat_template": "T"}"#.to_string()),
                file_sizes: vec![64 * MIB],
            }],
        }]),
    }
}

fn summary(list: &[Model]) -> Vec<(String, u64, ModelType)> {
    list.iter().map(|m| (m.name.clone(), m.size, m.format)).collect()
}

#[test]
fn from_path_names_the_model_by_its_path() {
    let model = Model::from_path(&"./weights/tiny.gguf".to_string());
    assert_eq!(
        model,
        Model {
            format: ModelType::Gguf,
            path: "./weights/tiny.gguf".to_string(),
            name: "./weights/tiny.gguf".to_string(),
            size: 0,
            template: None,
        }
    );
    assert_eq!(model.clone(), model);
}

#[test]
fn new_engine_is_empty_and_curated() {
    let engine = ModelDiscover::new();
    assert!(engine.get_model_list().is_empty());
    assert!(!engine.is_scanning_all());
    assert_eq!(engine.platform_family(), PlatformFamily::Posix);
}

#[test]
fn end_to_end_one_big_gguf() {
    let mut engine = ModelDiscover::new();
    engine.discover(&[models_directory()]);
    assert_eq!(
        engine.get_model_list(),
        &vec![Model {
            format: ModelType::Gguf,
            path: "./models/big.gguf".to_string(),
            name: "big".to_string(),
            size: 80 * MIB,
            template: None,
        }]
    );
}

#[test]
fn discover_is_idempotent() {
    let scans = vec![ollama_directory(), hub_directory(), models_directory()];
    let mut engine = ModelDiscover::new();
    engine.discover(&scans);
    let first = summary(engine.get_model_list());
    engine.discover(&scans);
    let second = summary(engine.get_model_list());
    assert_eq!(first, second);
    assert_eq!(
        first,
        vec![
            ("qwen:7b".to_string(), 77, ModelType::Gguf),
            ("o/r".to_string(), 64 * MIB, ModelType::Transformers),
            ("big".to_string(), 80 * MIB, ModelType::Gguf),
        ]
    );
    let mut fresh = ModelDiscover::new();
    fresh.discover(&scans);
    assert_eq!(fresh.get_model_list(), engine.get_model_list());
}

#[test]
fn discover_replaces_the_list() {
    let mut engine = ModelDiscover::new();
    engine.discover(&[models_directory()]);
    assert_eq!(engine.get_model_list().len(), 1);
    engine.discover(&[]);
    assert!(engine.get_model_list().is_empty());
    engine.discover(&[ollama_directory()]);
    assert_eq!(summary(engine.get_model_list()), vec![("qwen:7b".to_string(), 77, ModelType::Gguf)]);
}

#[test]
fn contents_of_another_layout_are_ignored() {
    let mut mismatched = models_directory();
    mismatched.probe = ollama_directory().probe;
    mismatched.probe.globs[0].pattern = "./models/blobs/sha256-*".to_string();
    let mut list = Vec::new();
    discover_directory(&mut list, false, PlatformFamily::Posix, &mismatched);
    assert!(list.is_empty());
    let mut as_files = ollama_directory();
    as_files.contents = Contents::Files(vec![file("/o/big.gguf", 80 * MIB, gguf_head())]);
    discover_directory(&mut list, false, PlatformFamily::Posix, &as_files);
    assert!(list.is_empty());
}

#[test]
fn files_below_the_floor_are_skipped() {
    assert_eq!(
        file_model(false, PlatformFamily::Posix, &file("/r/a.gguf", 50 * MIB - 1, gguf_head())),
        None
    );
    assert_eq!(
        file_model(false, PlatformFamily::Posix, &file("/r/a.gguf", 50 * MIB, gguf_head()))
            .map(|m| m.size),
        Some(50 * MIB)
    );
    let unreadable = FileScan { path: "/r/a.gguf".to_string(), size: None, head: gguf_head() };
    assert_eq!(file_model(false, PlatformFamily::Posix, &unreadable), None);
}

#[test]
fn files_are_classified_by_content_not_by_extension() {
    let model =
        file_model(false, PlatformFamily::Posix, &file("/r/sub/weights.bin", 60 * MIB, gguf_head()))
            .unwrap();
    assert_eq!(
        (model.name.as_str(), model.format, model.path.as_str()),
        ("weights", ModelType::Gguf, "/r/sub/weights.bin")
    );
    let model = file_model(
        false,
        PlatformFamily::Posix,
        &file("/r/model.safetensors", 60 * MIB, container_head()),
    )
    .unwrap();
    assert_eq!((model.name.as_str(), model.format), ("model", ModelType::Transformers));
    assert_eq!(
        file_model(false, PlatformFamily::Posix, &file("/r/fake.gguf", 60 * MIB, vec![0u8; 64])),
        None
    );
}

#[test]
fn excluded_files_are_skipped_only_in_a_whole_file_system_search() {
    let hidden = file("/home/u/project/node_modules/x/big.gguf", 60 * MIB, gguf_head());
    assert!(file_model(true, PlatformFamily::Posix, &hidden).is_none());
    assert!(file_model(false, PlatformFamily::Posix, &hidden).is_some());
}

#[test]
fn exclusion_is_off_in_the_curated_search() {
    let engine = ModelDiscover::new();
    assert!(!engine.check_exclude("/proc/1/mem"));
    assert!(!engine.check_exclude("/home/u/.git/objects/x"));
}

#[test]
fn exclusion_names_are_case_insensitive() {
    let mut engine = ModelDiscover::new();
    engine.scan_all_paths(true);
    assert!(engine.is_scanning_all());
    assert!(engine.check_exclude("/home/u/.git/objects/x"));
    assert!(engine.check_exclude("/home/u/.GIT/objects/x"));
    assert!(engine.check_exclude("/home/u/Node_Modules/p/model.gguf"));
    assert!(engine.check_exclude("/srv/VENV/lib/model.bin"));
    assert!(engine.check_exclude("a/__PyCache__/b"));
    assert!(!engine.check_exclude("/home/u/.github/x"));
    assert!(!engine.check_exclude("/home/u/venv2/x"));
    assert!(!engine.check_exclude("/home/u/models/big.gguf"));
}

#[test]
fn reserved_directories_are_excluded_by_component() {
    for path in ["/proc/1/mem", "/sys/kernel", "/boot/vmlinuz", "/var/lib/x", "/lib64/a", "/dev", "//run/x", "/./snap/y", "/lib"] {
        assert!(excluded(true, PlatformFamily::Posix, path), "{}", path);
    }
    for path in ["/process/x", "/home/proc/x", "proc/x", "/variable", "/libs/x", "/home/u/boot/x", "/"] {
        assert!(!excluded(true, PlatformFamily::Posix, path), "{}", path);
    }
}

#[test]
fn windows_family_reserves_its_system_directories() {
    for path in [
        "C:\\Windows\\System32\\x.dll",
        "C:\\Program Files\\App\\m.gguf",
        "C:\\Program Files (x86)\\App",
        "C:/ProgramData/x",
    ] {
        assert!(excluded(true, PlatformFamily::Windows, path), "{}", path);
    }
    for path in ["C:\\Users\\u\\models\\m.gguf", "D:\\Windows\\x", "C:\\WindowsOld\\x"] {
        assert!(!excluded(true, PlatformFamily::Windows, path), "{}", path);
    }
    assert!(excluded(true, PlatformFamily::Windows, "C:\\Users\\u\\proj\\.git\\x"));
    assert!(!excluded(true, PlatformFamily::Posix, "C:\\Windows\\System32\\x.dll"));
    assert!(!excluded(false, PlatformFamily::Windows, "C:\\Windows\\System32\\x.dll"));
}

#[test]
fn platform_can_be_chosen() {
    let mut engine = ModelDiscover::new();
    engine.set_platform(PlatformFamily::Windows);
    engine.scan_all_paths(true);
    assert_eq!(engine.platform_family(), PlatformFamily::Windows);
    assert!(engine.check_exclude("C:\\Windows\\x"));
    assert!(!engine.check_exclude("/proc/x"));
}

#[test]
fn find_model_returns_the_first_match() {
    let mut engine = ModelDiscover::new();
    let mut second = models_directory();
    second.path = "/elsewhere".to_string();
    second.contents = Contents::Files(vec![file("/elsewhere/big.bin", 90 * MIB, gguf_head())]);
    engine.discover(&[models_directory(), second]);
    assert_eq!(engine.get_model_list().len(), 2);
    let found = engine.find_model("big").unwrap();
    assert_eq!((found.path.as_str(), found.size), ("./models/big.gguf", 80 * MIB));
}

#[test]
fn find_model_fails_on_an_unknown_name() {
    let mut engine = ModelDiscover::new();
    assert_eq!(engine.find_model("big"), Err(ModelNotFound { name: "big".to_string() }));
    engine.discover(&[models_directory()]);
    let missing = engine.find_model("Big").unwrap_err();
    assert_eq!(missing.name, "Big");
    assert_eq!(missing.message(), "Model Big not found");
    assert!(engine.find_model("bi").is_err());
    assert!(engine.find_model("").is_err());
}

#[test]
fn resolve_takes_paths_as_they_are() {
    let mut engine = ModelDiscover::new();
    engine.discover(&[models_directory()]);
    assert_eq!(
        engine.resolve(&"./x.gguf".to_string()),
        Ok(Model::from_path(&"./x.gguf".to_string()))
    );
    assert_eq!(engine.resolve(&"/abs/x".to_string()).unwrap().name, "/abs/x");
    assert_eq!(engine.resolve(&"big".to_string()).unwrap().size, 80 * MIB);
    assert_eq!(
        engine.resolve(&"nope".to_string()),
        Err(ModelNotFound { name: "nope".to_string() })
    );
    assert!(engine.resolve(&"".to_string()).is_err());
}

#[test]
fn sizes_are_shown_in_megabytes_below_a_gigabyte() {
    assert_eq!(tllama::model::size_unit(0), tllama::model::SizeUnit::Megabytes);
    assert_eq!(tllama::model::size_unit((1 << 30) - 1), tllama::model::SizeUnit::Megabytes);
    assert_eq!(tllama::model::size_unit(1 << 30), tllama::model::SizeUnit::Gigabytes);
    assert_eq!(tllama::model::size_unit(u64::MAX), tllama::model::SizeUnit::Gigabytes);
    assert_eq!(tllama::model::GIGABYTE, 1024 * 1024 * 1024);
    assert_eq!(tllama::model::format_label(ModelType::Gguf), "GGUF");
    assert_eq!(tllama::model::format_label(ModelType::Transformers), "Transformers");
}

#[test]
fn a_path_that_names_no_file_has_no_record() {
    for path in ["/models/..", "/", "", "."] {
        let file = FileScan { path: path.to_string(), size: Some(80 * MIB), head: b"GGUF".to_vec() };
        assert_eq!(file_model(false, PlatformFamily::Posix, &file), None, "{:?}", path);
    }
    let named = FileScan {
        path: "/models/big.gguf/".to_string(),
        size: Some(80 * MIB),
        head: b"GGUF".to_vec(),
    };
    let model = file_model(false, PlatformFamily::Posix, &named).unwrap();
    assert_eq!((model.name.as_str(), model.path.as_str()), ("big", "/models/big.gguf/"));
}
