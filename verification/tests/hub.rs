use tllama::features::{DirectoryProbe, GlobAnswer};
use tllama::hub::{
    discover_hf_models, name_of_repository, read_chat_template, slash_pairs, snapshot_model,
    sum_file_sizes, template_of_snapshot, HubEntryScan, SnapshotScan,
};
use tllama::model::{Model, ModelType};
use tllama::template::{get_default_template, GO_DEFAULT_TEMPLATE};

const MIB: u64 = 1024 * 1024;

fn snapshot(name: &str, settings: Option<&str>, sizes: &[u64]) -> SnapshotScan {
    SnapshotScan {
        name: name.to_string(),
        is_dir: true,
        tokenizer_config: settings.map(|s| s.to_string()),
        file_sizes: sizes.to_vec(),
    }
}

fn probe_for(dir: &str, config: bool, tokenizer: bool) -> DirectoryProbe {
    DirectoryProbe {
        is_dir: true,
        names: vec!["blobs".to_string(), "refs".to_string(), "snapshots".to_string()],
        globs: vec![
            GlobAnswer { pattern: format!("{}/snapshots/*/config.json", dir), found: config },
            GlobAnswer {
                pattern: format!("{}/snapshots/*/tokenizer_config.json", dir),
                found: tokenizer,
            },
        ],
    }
}

fn entry(root: &str, file_name: &str, snapshots: Vec<SnapshotScan>) -> HubEntryScan {
    HubEntryScan {
        file_name: file_name.to_string(),
        is_dir: true,
        probe: probe_for(&format!("{}/{}", root, file_name), true, true),
        has_snapshots: true,
        snapshots,
    }
}

#[test]
fn repository_name_is_decoded() {
    assert_eq!(
        name_of_repository("models--meta-llama--Llama-3.1-8B"),
        Some("meta-llama/Llama-3.1-8B".to_string())
    );
    assert_eq!(name_of_repository("models--gpt2"), Some("gpt2".to_string()));
    assert_eq!(name_of_repository("models--a--b--c"), Some("a/b/c".to_string()));
    assert_eq!(name_of_repository("models--"), Some("".to_string()));
}

#[test]
fn repository_name_reads_hyphens_from_the_left() {
    assert_eq!(name_of_repository("models--a---b"), Some("a/-b".to_string()));
    assert_eq!(name_of_repository("models--a----b"), Some("a//b".to_string()));
    assert_eq!(name_of_repository("models--a-b"), Some("a-b".to_string()));
    let chars: Vec<char> = "x--y-".chars().collect();
    assert_eq!(slash_pairs(&chars), vec!['x', '/', 'y', '-']);
}

#[test]
fn directories_without_the_prefix_are_no_repositories() {
    assert_eq!(name_of_repository("datasets--a--b"), None);
    assert_eq!(name_of_repository("models-a"), None);
    assert_eq!(name_of_repository(""), None);
    assert_eq!(name_of_repository(".locks"), None);
}

#[test]
fn chat_template_is_taken_from_the_top_level_first() {
    assert_eq!(
        read_chat_template(r#"{"chat_template": "TOP", "tokenizer": {"chat_template": "NESTED"}}"#),
        Some("TOP".to_string())
    );
    assert_eq!(
        read_chat_template(r#"{"tokenizer": {"chat_template": "NESTED"}}"#),
        Some("NESTED".to_string())
    );
    assert_eq!(
        read_chat_template(r#"{"chat_template": ["not", "text"], "tokenizer": {"chat_template": "NESTED"}}"#),
        Some("NESTED".to_string())
    );
}

#[test]
fn chat_template_may_be_missing() {
    assert_eq!(read_chat_template(r#"{"bos_token": "<s>"}"#), None);
    assert_eq!(read_chat_template(r#"{"tokenizer": "x"}"#), None);
    assert_eq!(read_chat_template(r#"{"tokenizer": {"chat_template": 3}}"#), None);
    assert_eq!(read_chat_template("not json"), None);
    assert_eq!(read_chat_template("[]"), None);
}

#[test]
fn snapshot_without_chat_template_uses_the_default() {
    assert_eq!(template_of_snapshot(r#"{"bos_token": "<s>"}"#), GO_DEFAULT_TEMPLATE);
    assert_eq!(template_of_snapshot("{}"), get_default_template());
    assert_eq!(template_of_snapshot("garbage"), GO_DEFAULT_TEMPLATE);
    assert_eq!(template_of_snapshot(r#"{"chat_template": "T"}"#), "T");
}

#[test]
fn file_sizes_add_up() {
    assert_eq!(sum_file_sizes(&[]), 0);
    assert_eq!(sum_file_sizes(&[1, 2, 3]), 6);
    assert_eq!(sum_file_sizes(&[u64::MAX, u64::MAX]), 2 * (u64::MAX as u128));
}

#[test]
fn snapshot_becomes_a_transformers_record() {
    let model = snapshot_model(
        "/cache/hub/models--o--r",
        "o/r",
        &snapshot("abc123", Some(r#"{"chat_template": "T"}"#), &[40 * MIB, 10 * MIB, 5]),
    );
    assert_eq!(
        model,
        Some(Model {
            format: ModelType::Transformers,
            path: "/cache/hub/models--o--r/snapshots/abc123".to_string(),
            name: "o/r".to_string(),
            size: 50 * MIB + 5,
            template: Some("T".to_string()),
        })
    );
}

#[test]
fn snapshot_below_the_floor_or_without_files_is_excluded() {
    assert_eq!(snapshot_model("/d", "n", &snapshot("s", Some("{}"), &[])), None);
    assert_eq!(snapshot_model("/d", "n", &snapshot("s", Some("{}"), &[50 * MIB - 1])), None);
    assert_eq!(
        snapshot_model("/d", "n", &snapshot("s", Some("{}"), &[50 * MIB])).map(|m| m.size),
        Some(50 * MIB)
    );
    assert_eq!(snapshot_model("/d", "n", &snapshot("s", Some("{}"), &[u64::MAX, 1])), None);
    let mut file = snapshot("s", Some("{}"), &[80 * MIB]);
    file.is_dir = false;
    assert_eq!(snapshot_model("/d", "n", &file), None);
}

#[test]
fn snapshot_without_tokenizer_config_is_excluded() {
    assert_eq!(snapshot_model("/d", "n", &snapshot("s1", None, &[80 * MIB])), None);
    assert_eq!(snapshot_model("/d", "n", &snapshot("s1", None, &[50 * MIB, 50 * MIB])), None);
    let with_settings = snapshot_model("/d", "n", &snapshot("s1", Some("{}"), &[80 * MIB]));
    assert_eq!(with_settings.map(|m| m.path), Some("/d/snapshots/s1".to_string()));
    let unreadable_json = snapshot_model("/d", "n", &snapshot("s1", Some("\u{0}"), &[80 * MIB]));
    assert_eq!(
        unreadable_json.and_then(|m| m.template),
        Some(GO_DEFAULT_TEMPLATE.to_string())
    );
}

#[test]
fn snapshot_without_tokenizer_config_is_excluded_beside_one_that_has_it() {
    let mut list = Vec::new();
    discover_hf_models(
        &mut list,
        "/hub",
        &[entry(
            "/hub",
            "models--o--r",
            vec![
                snapshot("s1", None, &[80 * MIB]),
                snapshot("s2", Some(r#"{"chat_template": "T"}"#), &[80 * MIB]),
            ],
        )],
    );
    let paths: Vec<&str> = list.iter().map(|m| m.path.as_str()).collect();
    assert_eq!(paths, vec!["/hub/models--o--r/snapshots/s2"]);
}

#[test]
fn repository_without_tokenizer_config_is_excluded() {
    let mut lacking = entry("/hub", "models--o--r", vec![snapshot("s", Some("{}"), &[80 * MIB])]);
    lacking.probe = probe_for("/hub/models--o--r", true, false);
    let mut list = Vec::new();
    discover_hf_models(&mut list, "/hub", &[lacking]);
    assert!(list.is_empty());
}

#[test]
fn repository_without_config_or_snapshots_is_excluded() {
    let mut no_config = entry("/hub", "models--o--r", vec![snapshot("s", Some("{}"), &[80 * MIB])]);
    no_config.probe = probe_for("/hub/models--o--r", false, true);
    let mut no_snapshots = entry("/hub", "models--o--r", vec![snapshot("s", Some("{}"), &[80 * MIB])]);
    no_snapshots.has_snapshots = false;
    let mut file = entry("/hub", "models--o--r", vec![snapshot("s", Some("{}"), &[80 * MIB])]);
    file.is_dir = false;
    let mut unasked = entry("/hub", "models--o--r", vec![snapshot("s", Some("{}"), &[80 * MIB])]);
    unasked.probe.globs.clear();
    let mut list = Vec::new();
    discover_hf_models(&mut list, "/hub", &[no_config, no_snapshots, file, unasked]);
    assert!(list.is_empty());
}

#[test]
fn tokenizer_config_without_chat_template_yields_the_default_template() {
    let mut list = Vec::new();
    discover_hf_models(
        &mut list,
        "/hub",
        &[entry(
            "/hub",
            "models--o--r",
            vec![snapshot("s", Some(r#"{"model_max_length": 4096}"#), &[80 * MIB])],
        )],
    );
    assert_eq!(
        list,
        vec![Model {
            format: ModelType::Transformers,
            path: "/hub/models--o--r/snapshots/s".to_string(),
            name: "o/r".to_string(),
            size: 80 * MIB,
            template: Some(GO_DEFAULT_TEMPLATE.to_string()),
        }]
    );
}

#[test]
fn every_snapshot_of_a_repository_is_a_record() {
    let mut list = Vec::new();
    discover_hf_models(
        &mut list,
        "/hub",
        &[
            entry(
                "/hub",
                "models--o--r",
                vec![
                    snapshot("one", Some(r#"{"chat_template": "A"}"#), &[60 * MIB]),
                    snapshot("small", Some(r#"{"chat_template": "B"}"#), &[MIB]),
                    snapshot("two", Some("{}"), &[30 * MIB, 30 * MIB]),
                    snapshot("three", None, &[30 * MIB, 30 * MIB]),
                ],
            ),
            entry("/hub", "datasets--o--d", vec![snapshot("x", Some("{}"), &[90 * MIB])]),
            entry("/hub", "models--p", vec![snapshot("z", Some("[]"), &[90 * MIB])]),
        ],
    );
    let seen: Vec<(&str, &str, u64)> =
        list.iter().map(|m| (m.name.as_str(), m.path.as_str(), m.size)).collect();
    assert_eq!(
        seen,
        vec![
            ("o/r", "/hub/models--o--r/snapshots/one", 60 * MIB),
            ("o/r", "/hub/models--o--r/snapshots/two", 60 * MIB),
            ("p", "/hub/models--p/snapshots/z", 90 * MIB),
        ]
    );
    assert_eq!(list[0].template.as_deref(), Some("A"));
    assert_eq!(list[1].template.as_deref(), Some(GO_DEFAULT_TEMPLATE));
}
