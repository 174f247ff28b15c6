use tllama::model::{Model, ModelType};
use tllama::ollama::{
    blob_plan, discover_ollama_models, find_blob, name_of_manifest, ollama_model, read_manifest,
    sum_sizes, BlobPlan, Layer, ManifestScan, OllamaStore, MODEL_MEDIA_TYPE, REGISTRY_DOMAIN,
    TEMPLATE_MEDIA_TYPE,
};

fn strings(list: &[&str]) -> Vec<String> {
    list.iter().map(|s| s.to_string()).collect()
}

fn layer(media_type: &str, digest: &str, size: i64) -> Layer {
    Layer {
        media_type: Some(media_type.to_string()),
        digest: Some(digest.to_string()),
        size: Some(size),
    }
}

const MANIFEST: &str = r#"{
  "schemaVersion": 2,
  "config": {"mediaType": "application/vnd.docker.container.image.v1+json", "digest": "sha256:cfg", "size": 485},
  "layers": [
    {"mediaType": "application/vnd.ollama.image.model", "digest": "sha256:aaa111", "size": 4661211808},
    {"mediaType": "application/vnd.ollama.image.template", "digest": "sha256:bbb222", "size": 254},
    {"mediaType": "application/vnd.ollama.image.license", "digest": "sha256:ccc333", "size": 12403}
  ]
}"#;

fn scan(components: &[&str], body: Option<&str>) -> ManifestScan {
    ManifestScan {
        components: strings(components),
        body: body.map(|b| b.to_string()),
        template: Some("{{ .Prompt }}".to_string()),
        weights_present: true,
    }
}

#[test]
fn official_registry_and_library_are_dropped_from_the_name() {
    assert_eq!(
        name_of_manifest(&strings(&["registry.ollama.ai", "library", "llama3", "latest"])),
        Some("llama3:latest".to_string())
    );
    assert_eq!(REGISTRY_DOMAIN, "registry.ollama.ai");
}

#[test]
fn official_registry_keeps_other_owners() {
    assert_eq!(
        name_of_manifest(&strings(&["registry.ollama.ai", "someone", "model", "7b"])),
        Some("someone/model:7b".to_string())
    );
}

#[test]
fn other_registries_keep_their_domain() {
    assert_eq!(
        name_of_manifest(&strings(&["localhost", "library", "llama3", "latest"])),
        Some("localhost/library/llama3:latest".to_string())
    );
    assert_eq!(name_of_manifest(&strings(&["hf.co", "x"])), Some("hf.co:x".to_string()));
}

#[test]
fn fewer_than_two_naming_segments_give_no_name() {
    assert_eq!(name_of_manifest(&strings(&[])), None);
    assert_eq!(name_of_manifest(&strings(&["latest"])), None);
    assert_eq!(name_of_manifest(&strings(&["registry.ollama.ai", "library", "llama3"])), None);
    assert_eq!(name_of_manifest(&strings(&["registry.ollama.ai", "llama3"])), None);
    assert_eq!(name_of_manifest(&strings(&["registry.ollama.ai", "library"])), None);
    assert_eq!(name_of_manifest(&strings(&["registry.ollama.ai"])), None);
}

#[test]
fn library_is_dropped_only_behind_the_official_domain() {
    assert_eq!(
        name_of_manifest(&strings(&["registry.ollama.ai", "a", "library", "t"])),
        Some("a/library:t".to_string())
    );
}

#[test]
fn manifest_layers_are_read_in_order() {
    let layers = read_manifest(MANIFEST).unwrap();
    assert_eq!(
        layers,
        vec![
            layer(MODEL_MEDIA_TYPE, "sha256:aaa111", 4661211808),
            layer(TEMPLATE_MEDIA_TYPE, "sha256:bbb222", 254),
            layer("application/vnd.ollama.image.license", "sha256:ccc333", 12403),
        ]
    );
}

#[test]
fn manifest_fields_of_the_wrong_type_are_missing() {
    let layers = read_manifest(
        r#"{"layers":[{"mediaType":7,"digest":null,"size":"12"},{"size":1.5},{"size":18446744073709551615},"x",{"size":-3}]}"#,
    )
    .unwrap();
    let none = Layer { media_type: None, digest: None, size: None };
    assert_eq!(
        layers,
        vec![
            none.clone(),
            none.clone(),
            none.clone(),
            none.clone(),
            Layer { media_type: None, digest: None, size: Some(-3) },
        ]
    );
}

#[test]
fn manifest_without_layers_array_has_no_layers() {
    assert_eq!(read_manifest("{}"), Some(vec![]));
    assert_eq!(read_manifest(r#"{"layers": {"a": 1}}"#), Some(vec![]));
    assert_eq!(read_manifest(r#"{"layers": []}"#), Some(vec![]));
    assert_eq!(read_manifest("[1, 2]"), Some(vec![]));
    assert_eq!(read_manifest("null"), Some(vec![]));
}

#[test]
fn manifest_that_is_no_json_is_not_read() {
    assert_eq!(read_manifest(""), None);
    assert_eq!(read_manifest("{\"layers\": ["), None);
    assert_eq!(read_manifest("layers"), None);
}

#[test]
fn sizes_add_up_without_overflow() {
    assert_eq!(sum_sizes(&[]), 0);
    assert_eq!(
        sum_sizes(&[layer("a", "d", 4661211808), layer("b", "e", 254), layer("c", "f", 12403)]),
        4661224465
    );
    assert_eq!(
        sum_sizes(&[layer("a", "d", i64::MAX), layer("b", "e", i64::MAX), layer("c", "f", 2)]),
        2 * (i64::MAX as i128) + 2
    );
    assert_eq!(sum_sizes(&[layer("a", "d", i64::MIN), layer("b", "e", -1)]), (i64::MIN as i128) - 1);
    assert_eq!(
        sum_sizes(&[Layer { media_type: None, digest: None, size: None }, layer("a", "d", 5)]),
        5
    );
}

#[test]
fn blob_is_the_digest_with_a_hyphen() {
    let layers = read_manifest(MANIFEST).unwrap();
    assert_eq!(find_blob(&layers, MODEL_MEDIA_TYPE), Some("sha256-aaa111".to_string()));
    assert_eq!(find_blob(&layers, TEMPLATE_MEDIA_TYPE), Some("sha256-bbb222".to_string()));
    assert_eq!(find_blob(&layers, "application/vnd.ollama.image.params"), None);
    assert_eq!(
        blob_plan(&layers),
        BlobPlan {
            template: Some("sha256-bbb222".to_string()),
            weights: Some("sha256-aaa111".to_string()),
        }
    );
}

#[test]
fn only_the_first_layer_of_a_type_counts() {
    let layers = vec![
        Layer { media_type: Some(MODEL_MEDIA_TYPE.to_string()), digest: None, size: Some(1) },
        layer(MODEL_MEDIA_TYPE, "sha256:later", 1),
    ];
    assert_eq!(find_blob(&layers, MODEL_MEDIA_TYPE), None);
    let layers = vec![layer(MODEL_MEDIA_TYPE, "a:b:c", 1), layer(MODEL_MEDIA_TYPE, "x:y", 1)];
    assert_eq!(find_blob(&layers, MODEL_MEDIA_TYPE), Some("a-b-c".to_string()));
}

#[test]
fn manifest_becomes_a_gguf_record() {
    let model = ollama_model(
        "/home/u/.ollama/models",
        &scan(&["registry.ollama.ai", "library", "llama3", "latest"], Some(MANIFEST)),
    );
    assert_eq!(
        model,
        Some(Model {
            format: ModelType::Gguf,
            path: "/home/u/.ollama/models/blobs/sha256-aaa111".to_string(),
            name: "llama3:latest".to_string(),
            size: 4661224465,
            template: Some("{{ .Prompt }}".to_string()),
        })
    );
}

#[test]
fn manifest_with_zero_total_size_is_excluded() {
    let body = r#"{"layers":[{"mediaType":"application/vnd.ollama.image.model","digest":"sha256:a","size":0},{"mediaType":"application/vnd.ollama.image.template","digest":"sha256:b","size":0}]}"#;
    assert_eq!(ollama_model("/r", &scan(&["h", "m", "t"], Some(body))), None);
    let cancelling = r#"{"layers":[{"mediaType":"application/vnd.ollama.image.model","digest":"sha256:a","size":5},{"size":-5}]}"#;
    assert_eq!(ollama_model("/r", &scan(&["h", "m", "t"], Some(cancelling))), None);
    assert_eq!(ollama_model("/r", &scan(&["h", "m", "t"], Some("{}"))), None);
    let unsized_layers = r#"{"layers":[{"mediaType":"application/vnd.ollama.image.model","digest":"sha256:a"}]}"#;
    assert_eq!(ollama_model("/r", &scan(&["h", "m", "t"], Some(unsized_layers))), None);
}

#[test]
fn manifest_with_a_total_that_is_no_size_is_excluded() {
    let negative = r#"{"layers":[{"mediaType":"application/vnd.ollama.image.model","digest":"sha256:a","size":-7}]}"#;
    assert_eq!(ollama_model("/r", &scan(&["h", "m", "t"], Some(negative))), None);
    let huge = r#"{"layers":[{"mediaType":"application/vnd.ollama.image.model","digest":"sha256:a","size":9223372036854775807},{"size":9223372036854775807},{"size":2}]}"#;
    assert_eq!(ollama_model("/r", &scan(&["h", "m", "t"], Some(huge))), None);
    let largest = r#"{"layers":[{"mediaType":"application/vnd.ollama.image.model","digest":"sha256:a","size":9223372036854775807},{"size":9223372036854775807},{"size":1}]}"#;
    assert_eq!(
        ollama_model("/r", &scan(&["h", "m", "t"], Some(largest))).map(|m| m.size),
        Some(u64::MAX)
    );
}

#[test]
fn manifest_without_weights_on_disk_is_excluded() {
    let mut partial = scan(&["h", "m", "t"], Some(MANIFEST));
    partial.weights_present = false;
    assert_eq!(ollama_model("/r", &partial), None);
    let no_model_layer = r#"{"layers":[{"mediaType":"application/vnd.ollama.image.template","digest":"sha256:b","size":9}]}"#;
    assert_eq!(ollama_model("/r", &scan(&["h", "m", "t"], Some(no_model_layer))), None);
}

#[test]
fn manifest_that_cannot_be_read_or_named_is_excluded() {
    assert_eq!(ollama_model("/r", &scan(&["h", "m", "t"], None)), None);
    assert_eq!(ollama_model("/r", &scan(&["h", "m", "t"], Some("not json"))), None);
    assert_eq!(ollama_model("/r", &scan(&["t"], Some(MANIFEST))), None);
}

#[test]
fn template_is_taken_only_where_a_template_layer_names_a_blob() {
    let body = r#"{"layers":[{"mediaType":"application/vnd.ollama.image.model","digest":"sha256:a","size":9}]}"#;
    let model = ollama_model("/r", &scan(&["h", "m", "t"], Some(body))).unwrap();
    assert_eq!(model.template, None);
    assert_eq!(model.path, "/r/blobs/sha256-a");
    assert_eq!(model.name, "h/m:t");
    let mut unread = scan(&["h", "m", "t"], Some(MANIFEST));
    unread.template = None;
    assert_eq!(ollama_model("/r", &unread).unwrap().template, None);
}

#[test]
fn store_yields_its_models_in_order() {
    let store = OllamaStore {
        has_manifests: true,
        manifests: vec![
            scan(&["registry.ollama.ai", "library", "a", "1"], Some(MANIFEST)),
            scan(&["registry.ollama.ai", "library", "b", "1"], Some("{}")),
            scan(&["registry.ollama.ai", "library", "c", "1"], Some(MANIFEST)),
        ],
    };
    let mut list = vec![Model::from_path(&"./first.gguf".to_string())];
    discover_ollama_models(&mut list, "/s", &store);
    let names: Vec<&str> = list.iter().map(|m| m.name.as_str()).collect();
    assert_eq!(names, vec!["./first.gguf", "a:1", "c:1"]);
}

#[test]
fn store_without_manifests_directory_yields_nothing() {
    let store = OllamaStore {
        has_manifests: false,
        manifests: vec![scan(&["registry.ollama.ai", "library", "a", "1"], Some(MANIFEST))],
    };
    let mut list = Vec::new();
    discover_ollama_models(&mut list, "/s", &store);
    assert!(list.is_empty());
}
