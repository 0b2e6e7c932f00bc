use escargot::json::Json;
use escargot::Message;

fn to_value(json: &Json) -> serde_json::Value {
    match json {
        Json::Null => serde_json::Value::Null,
        Json::Bool(b) => serde_json::Value::Bool(*b),
        Json::Unsigned(n) => serde_json::Value::from(*n),
        Json::Number => unreachable!("no message is written with such a number"),
        Json::Str(s) => serde_json::Value::String(s.clone()),
        Json::Array(items) => serde_json::Value::Array(items.iter().map(to_value).collect()),
        Json::Object(entries) => {
            let mut map = serde_json::Map::new();
            for (key, value) in entries {
                map.insert(key.clone(), to_value(value));
            }
            serde_json::Value::Object(map)
        }
    }
}

fn round_trip(text: &str) {
    let decoded = Message::new(String::from(text)).decode().unwrap();
    let json = decoded.to_json();
    assert_eq!(escargot::format::Message::from_json(&json).unwrap(), decoded);
    let mut line = serde_json::to_string(&to_value(&json)).unwrap();
    line.push('\n');
    let again = Message::new(line).decode().unwrap();
    assert_eq!(again, decoded);
    assert_eq!(again.to_json(), json);
}

#[test]
fn build_finished_round_trips() {
    round_trip("{\"reason\":\"build-finished\",\"success\":true}");
    round_trip("{\"reason\":\"build-finished\",\"success\":false}");
}

#[test]
fn build_finished_is_written_with_its_reason_first() {
    let decoded = Message::new(String::from("{\"success\":true,\"reason\":\"build-finished\"}")).decode().unwrap();
    assert_eq!(
        decoded.to_json(),
        Json::Object(vec![
            (String::from("reason"), Json::Str(String::from("build-finished"))),
            (String::from("success"), Json::Bool(true)),
        ])
    );
}

#[test]
fn compiler_artifact_round_trips() {
    round_trip(
        "{\"reason\":\"compiler-artifact\",\"package_id\":\"pkg 0.1.0 (path+file:///tmp/x)\",\
         \"manifest_path\":\"/tmp/x/Cargo.toml\",\
         \"target\":{\"kind\":[\"bin\"],\"crate_types\":[\"bin\"],\"name\":\"bin1\",\
         \"src_path\":\"/tmp/x/src/main.rs\",\"edition\":\"2018\",\"doc\":true,\"doctest\":false,\
         \"test\":true,\"required-features\":[\"a\",\"b\"]},\
         \"profile\":{\"opt_level\":\"0\",\"debuginfo\":2,\"debug_assertions\":true,\
         \"overflow_checks\":true,\"test\":false},\
         \"features\":[\"default\",\"\\\"quoted\\\"\"],\"filenames\":[\"/tmp/x/bin1\",\"/tmp/x/bin1.d\"],\
         \"executable\":\"/tmp/x/bin1\",\"fresh\":false}",
    );
    round_trip(
        "{\"reason\":\"compiler-artifact\",\"package_id\":\"p\",\
         \"target\":{\"kind\":[],\"name\":\"\",\"src_path\":\"\"},\
         \"profile\":{\"opt_level\":\"s\",\"debug_assertions\":false,\
         \"overflow_checks\":false,\"test\":true},\
         \"features\":[],\"filenames\":[],\"fresh\":true}",
    );
}

#[test]
fn compiler_message_round_trips() {
    for level in ["error: internal compiler error", "error", "warning", "note", "help", "unknown"] {
        round_trip(&format!(
            "{{\"reason\":\"compiler-message\",\"package_id\":\"warn 0.1.0\",\
             \"manifest_path\":null,\
             \"target\":{{\"kind\":[\"bin\"],\"crate_types\":[\"bin\"],\"name\":\"warn\",\
             \"src_path\":\"/w/src/main.rs\",\"edition\":\"2021\"}},\
             \"message\":{{\"message\":\"unused variable: `x`\",\
             \"code\":{{\"code\":\"unused_variables\",\"explanation\":\"long \\u00e9 text\\n\"}},\
             \"level\":\"{}\",\"rendered\":\"warning: unused variable\\n\"}}}}",
            level
        ));
    }
    round_trip(
        "{\"reason\":\"compiler-message\",\"package_id\":\"p\",\
         \"target\":{\"kind\":[\"lib\"],\"name\":\"p\",\"src_path\":\"/p/lib.rs\"},\
         \"message\":{\"message\":\"m\",\"level\":\"note\"}}",
    );
}

#[test]
fn build_script_round_trips() {
    round_trip(
        "{\"reason\":\"build-script-executed\",\"package_id\":\"script 0.1.0\",\
         \"out_dir\":\"/s/out\",\"linked_libs\":[\"z\"],\"linked_paths\":[\"/usr/lib\",\"/lib\"],\
         \"cfgs\":[\"has_foo\"],\"env\":[[\"KEY\",\"value\"],[\"A\",\"\"]]}",
    );
    round_trip(
        "{\"reason\":\"build-script-executed\",\"package_id\":\"s\",\
         \"linked_libs\":[],\"linked_paths\":[],\"cfgs\":[],\"env\":[]}",
    );
}

#[test]
fn unknown_message_round_trips() {
    round_trip("{\"reason\":\"something-new\",\"payload\":[1,2,3]}");
}

fn event_round_trip(text: &str) {
    let decoded = Message::new(String::from(text)).decode_event().unwrap();
    let json = decoded.to_json();
    assert_eq!(escargot::format::test::Event::from_json(&json).unwrap(), decoded);
    let line = serde_json::to_string(&to_value(&json)).unwrap();
    let again = Message::new(line).decode_event().unwrap();
    assert_eq!(again, decoded);
    assert_eq!(again.to_json(), json);
}

#[test]
fn suite_events_round_trip() {
    event_round_trip(r#"{ "type": "suite", "event": "started", "test_count": 10 }"#);
    event_round_trip(
        r#"{ "type": "suite", "event": "ok", "passed": 6, "failed": 5, "allowed_fail": 4, "ignored": 3, "measured": 2, "filtered_out": 1 }"#,
    );
    event_round_trip(
        r#"{ "type": "suite", "event": "failed", "passed": 0, "failed": 1, "allowed_fail": 0, "ignored": 0, "measured": 0, "filtered_out": 7 }"#,
    );
    event_round_trip(r#"{ "type": "suite", "event": "paused" }"#);
}

#[test]
fn test_events_round_trip() {
    for event in ["started", "ok", "ignored", "allowed_failure", "timeout"] {
        event_round_trip(&format!("{{ \"type\": \"test\", \"event\": \"{}\", \"name\": \"a::b\" }}", event));
    }
    event_round_trip(r#"{ "type": "test", "event": "failed", "name": "foo", "stdout": "out\n", "message": "boom" }"#);
    event_round_trip(r#"{ "type": "test", "event": "failed", "name": "foo" }"#);
    event_round_trip(r#"{ "type": "test", "event": "skipped", "name": "foo" }"#);
}

#[test]
fn bench_events_round_trip() {
    event_round_trip(r#"{ "type": "bench", "name": "foo", "median": 10, "deviation": 2 }"#);
    event_round_trip(r#"{ "type": "bench", "name": "foo", "median": 10, "deviation": 2, "mib_per_second": 1 }"#);
    event_round_trip(r#"{ "type": "doctest" }"#);
}

#[test]
fn suite_start_is_written_with_its_words_first() {
    let decoded = Message::new(String::from(r#"{ "test_count": 3, "event": "started", "type": "suite" }"#))
        .decode_event()
        .unwrap();
    assert_eq!(
        decoded.to_json(),
        Json::Object(vec![
            (String::from("type"), Json::Str(String::from("suite"))),
            (String::from("event"), Json::Str(String::from("started"))),
            (String::from("test_count"), Json::Unsigned(3)),
        ])
    );
}
