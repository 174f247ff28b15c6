use tllama::api::routes::{is_openai, resolve, Endpoint, Method, Route};
use tllama::api::sse::{sse_frame, stop_requested, stream_headers, Header, EVENT_STREAM};

fn plain(endpoint: Endpoint) -> Option<Route> {
    Some(Route { endpoint, model: None })
}

fn header(name: &str, value: &str) -> Header {
    Header { name: name.to_string(), value: value.to_string() }
}

#[test]
fn openai_surface() {
    assert_eq!(resolve(Method::Get, "/v1/models"), plain(Endpoint::Models));
    assert_eq!(resolve(Method::Post, "/v1/completions"), plain(Endpoint::Completions));
    assert_eq!(resolve(Method::Post, "/v1/chat/completions"), plain(Endpoint::ChatCompletions));
    assert_eq!(resolve(Method::Get, "/v1/health"), plain(Endpoint::Health));
}

#[test]
fn native_surface() {
    assert_eq!(resolve(Method::Get, "/list"), plain(Endpoint::List));
    assert_eq!(resolve(Method::Get, "/discover"), plain(Endpoint::Discover));
    assert_eq!(resolve(Method::Post, "/infer"), plain(Endpoint::Infer));
    assert_eq!(resolve(Method::Post, "/chat"), plain(Endpoint::Chat));
}

#[test]
fn load_and_unload_name_the_model_in_the_path() {
    assert_eq!(
        resolve(Method::Get, "/load/llama3:latest"),
        Some(Route { endpoint: Endpoint::Load, model: Some("llama3:latest".to_string()) })
    );
    assert_eq!(
        resolve(Method::Get, "/load/meta-llama/Llama-3.1-8B"),
        Some(Route { endpoint: Endpoint::Load, model: Some("meta-llama/Llama-3.1-8B".to_string()) })
    );
    assert_eq!(
        resolve(Method::Get, "/unload/big"),
        Some(Route { endpoint: Endpoint::Unload, model: Some("big".to_string()) })
    );
    assert_eq!(
        resolve(Method::Get, "/load/"),
        Some(Route { endpoint: Endpoint::Load, model: Some(String::new()) })
    );
}

#[test]
fn other_methods_and_paths_lead_nowhere() {
    assert_eq!(resolve(Method::Post, "/v1/models"), None);
    assert_eq!(resolve(Method::Get, "/v1/completions"), None);
    assert_eq!(resolve(Method::Get, "/infer"), None);
    assert_eq!(resolve(Method::Post, "/load/big"), None);
    assert_eq!(resolve(Method::Get, "/load"), None);
    assert_eq!(resolve(Method::Get, "/v1/models/"), None);
    assert_eq!(resolve(Method::Get, "/"), None);
    assert_eq!(resolve(Method::Get, ""), None);
    assert_eq!(resolve(Method::Get, "/List"), None);
}

#[test]
fn dialect_of_each_endpoint() {
    for endpoint in [Endpoint::Models, Endpoint::Completions, Endpoint::ChatCompletions, Endpoint::Health] {
        assert!(is_openai(endpoint));
    }
    for endpoint in [
        Endpoint::List,
        Endpoint::Discover,
        Endpoint::Load,
        Endpoint::Unload,
        Endpoint::Infer,
        Endpoint::Chat,
    ] {
        assert!(!is_openai(endpoint));
    }
}

#[test]
fn events_are_framed() {
    assert_eq!(sse_frame("{\"a\":1}"), "data: {\"a\":1}\n\n");
    assert_eq!(sse_frame(""), "data: \n\n");
    assert_eq!(EVENT_STREAM, "text/event-stream");
}

#[test]
fn stream_headers_by_dialect() {
    assert_eq!(
        stream_headers(true),
        vec![
            header("Content-Type", "text/event-stream"),
            header("Cache-Control", "no-cache"),
            header("Access-Control-Allow-Origin", "*"),
        ]
    );
    assert_eq!(
        stream_headers(false),
        vec![header("Content-Type", "text/event-stream"), header("Cache-Control", "no-cache")]
    );
}

#[test]
fn a_consumer_that_went_away_stops_the_generation() {
    assert!(stop_requested(false));
    assert!(!stop_requested(true));
}

#[test]
fn route_tables_agree_with_the_routes() {
    let openai = tllama::api::routes::openai_config();
    let native = tllama::api::routes::tlama_config();
    assert_eq!(openai.len(), 4);
    assert_eq!(native.len(), 6);
    for line in openai.iter().chain(native.iter()) {
        let route = resolve(line.method, &line.path).unwrap();
        assert_eq!(route.endpoint, line.endpoint, "{}", line.path);
        assert_eq!(is_openai(line.endpoint), line.path.starts_with("/v1/"));
    }
    let paths: Vec<&str> = openai.iter().map(|l| l.path.as_str()).collect();
    assert_eq!(paths, vec!["/v1/models", "/v1/completions", "/v1/chat/completions", "/v1/health"]);
    let paths: Vec<&str> = native.iter().map(|l| l.path.as_str()).collect();
    assert_eq!(paths, vec!["/load/", "/unload/", "/list", "/infer", "/chat", "/discover"]);
}

#[test]
fn both_native_tables_have_the_same_lines() {
    let locked = tllama::api::routes::rllama_config();
    let shared = tllama::api::routes::tlama_config();
    assert_eq!(locked, shared);
    let lines: Vec<(Method, &str, Endpoint)> =
        locked.iter().map(|l| (l.method, l.path.as_str(), l.endpoint)).collect();
    assert_eq!(
        lines,
        vec![
            (Method::Get, "/load/", Endpoint::Load),
            (Method::Get, "/unload/", Endpoint::Unload),
            (Method::Get, "/list", Endpoint::List),
            (Method::Post, "/infer", Endpoint::Infer),
            (Method::Post, "/chat", Endpoint::Chat),
            (Method::Get, "/discover", Endpoint::Discover),
        ]
    );
}

#[test]
fn openai_table_line_by_line() {
    let table = tllama::api::routes::openai_config();
    let lines: Vec<(Method, &str, Endpoint)> =
        table.iter().map(|l| (l.method, l.path.as_str(), l.endpoint)).collect();
    assert_eq!(
        lines,
        vec![
            (Method::Get, "/v1/models", Endpoint::Models),
            (Method::Post, "/v1/completions", Endpoint::Completions),
            (Method::Post, "/v1/chat/completions", Endpoint::ChatCompletions),
            (Method::Get, "/v1/health", Endpoint::Health),
        ]
    );
}
