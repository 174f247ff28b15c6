use tllama::daemon::{
    read_line, signal, Correlation, DaemonMessage, Delivery, Signal, SlotKind,
};

fn line(text: &str) -> DaemonMessage {
    read_line(text).unwrap()
}

#[test]
fn lines_are_read_field_by_field() {
    assert_eq!(
        line(r#"{"req_id": "r1", "token": "Hel"}"#),
        DaemonMessage {
            req_id: Some("r1".to_string()),
            done: false,
            error: false,
            loaded: false,
            unloaded: false,
            token: Some("Hel".to_string()),
        }
    );
    assert_eq!(
        line(r#"{"req_id": "r1", "done": true, "error": null, "loaded": 1, "unloaded": false}"#),
        DaemonMessage {
            req_id: Some("r1".to_string()),
            done: true,
            error: true,
            loaded: true,
            unloaded: true,
            token: None,
        }
    );
    assert_eq!(line(r#"{"req_id": 7, "token": 8}"#).req_id, None);
    assert_eq!(line(r#"{"req_id": 7, "token": 8}"#).token, None);
    assert_eq!(line("[]").req_id, None);
}

#[test]
fn lines_that_are_no_json_are_not_read() {
    assert_eq!(read_line("Loading checkpoint shards: 100%"), None);
    assert_eq!(read_line(""), None);
    assert_eq!(read_line("{\"req_id\": "), None);
}

#[test]
fn signals_depend_on_what_the_request_waits_for() {
    let token = line(r#"{"req_id": "r", "token": "x"}"#);
    let silent = line(r#"{"req_id": "r"}"#);
    let done = line(r#"{"req_id": "r", "done": true}"#);
    let error = line(r#"{"req_id": "r", "error": "boom"}"#);
    let loaded = line(r#"{"req_id": "r", "loaded": true}"#);
    let unloaded = line(r#"{"req_id": "r", "unloaded": true}"#);

    assert_eq!(signal(SlotKind::Infer, &token), Signal::Token("x".to_string()));
    assert_eq!(signal(SlotKind::Infer, &silent), Signal::Token(String::new()));
    assert_eq!(signal(SlotKind::Infer, &loaded), Signal::Token(String::new()));
    assert_eq!(signal(SlotKind::Infer, &done), Signal::Complete);
    assert_eq!(signal(SlotKind::Infer, &error), Signal::Complete);

    assert_eq!(signal(SlotKind::Load, &loaded), Signal::Complete);
    assert_eq!(signal(SlotKind::Load, &error), Signal::Complete);
    assert_eq!(signal(SlotKind::Load, &done), Signal::Nothing);
    assert_eq!(signal(SlotKind::Load, &unloaded), Signal::Nothing);
    assert_eq!(signal(SlotKind::Load, &token), Signal::Nothing);

    assert_eq!(signal(SlotKind::Unload, &unloaded), Signal::Complete);
    assert_eq!(signal(SlotKind::Unload, &error), Signal::Complete);
    assert_eq!(signal(SlotKind::Unload, &loaded), Signal::Nothing);
}

#[test]
fn answers_reach_the_request_that_waits() {
    let mut table = Correlation::new();
    table.register("a".to_string(), SlotKind::Infer);
    table.register("b".to_string(), SlotKind::Load);
    assert_eq!(table.len(), 2);
    assert_eq!(table.waiting("a"), Some(SlotKind::Infer));
    assert_eq!(table.waiting("c"), None);
    assert_eq!(
        table.dispatch(&line(r#"{"req_id": "a", "token": "x"}"#)),
        Delivery { kind: Some(SlotKind::Infer), signal: Signal::Token("x".to_string()) }
    );
    assert_eq!(
        table.dispatch(&line(r#"{"req_id": "b", "loaded": true}"#)),
        Delivery { kind: Some(SlotKind::Load), signal: Signal::Complete }
    );
    assert_eq!(table.len(), 2);
}

#[test]
fn done_frees_the_slot() {
    let mut table = Correlation::new();
    table.register("a".to_string(), SlotKind::Infer);
    table.register("b".to_string(), SlotKind::Infer);
    assert_eq!(
        table.dispatch(&line(r#"{"req_id": "a", "done": true}"#)),
        Delivery { kind: Some(SlotKind::Infer), signal: Signal::Complete }
    );
    assert_eq!(table.waiting("a"), None);
    assert_eq!(table.waiting("b"), Some(SlotKind::Infer));
    assert_eq!(
        table.dispatch(&line(r#"{"req_id": "a", "token": "late"}"#)),
        Delivery { kind: None, signal: Signal::Nothing }
    );
    assert_eq!(
        table.dispatch(&line(r#"{"req_id": "b", "error": "x"}"#)),
        Delivery { kind: Some(SlotKind::Infer), signal: Signal::Complete }
    );
    assert_eq!(table.len(), 1);
}

#[test]
fn lines_without_a_request_change_nothing() {
    let mut table = Correlation::new();
    table.register("a".to_string(), SlotKind::Unload);
    assert_eq!(
        table.dispatch(&line(r#"{"done": true}"#)),
        Delivery { kind: None, signal: Signal::Nothing }
    );
    assert_eq!(
        table.dispatch(&line(r#"{"req_id": "zz", "done": true}"#)),
        Delivery { kind: None, signal: Signal::Nothing }
    );
    assert_eq!(table.len(), 1);
}

#[test]
fn registering_again_replaces_the_slot() {
    let mut table = Correlation::new();
    table.register("a".to_string(), SlotKind::Load);
    table.register("a".to_string(), SlotKind::Infer);
    assert_eq!(table.len(), 1);
    assert_eq!(table.waiting("a"), Some(SlotKind::Infer));
    table.clear();
    assert_eq!(table.len(), 0);
    assert_eq!(table.waiting("a"), None);
}
