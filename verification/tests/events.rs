use escargot::error::ErrorKind;
use escargot::format::test::{Bench, Event, Suite, SuiteFailed, SuiteOk, SuiteStarted, Test};
use escargot::Message;

fn decode(input: &str) -> Result<Event, escargot::error::CargoError> {
    Message::new(String::from(input)).decode_event()
}

#[test]
fn suite_started() {
    let input = r#"{ "type": "suite", "event": "started", "test_count": 10 }"#;
    let _data: Event = decode(input).unwrap();
    match _data {
        Event::Suite(Suite::Started(SuiteStarted { test_count, .. })) => assert_eq!(test_count, 10),
        other => panic!("unexpected event {:?}", other),
    }
}

#[test]
fn suite_ok() {
    let input = "{ \"type\": \"suite\", \
                 \"event\": \"ok\", \
                 \"passed\": 6, \
                 \"failed\": 5, \
                 \"allowed_fail\": 4, \
                 \"ignored\": 3, \
                 \"measured\": 2, \
                 \"filtered_out\": 1 }";
    let _data: Event = decode(input).unwrap();
    match _data {
        Event::Suite(Suite::Passed(SuiteOk {
            passed,
            failed,
            allowed_fail,
            ignored,
            measured,
            filtered_out,
            ..
        })) => {
            assert_eq!(
                (passed, failed, allowed_fail, ignored, measured, filtered_out),
                (6, 5, 4, 3, 2, 1)
            );
        }
        other => panic!("unexpected event {:?}", other),
    }
}

#[test]
fn suite_failed() {
    let input = "{ \"type\": \"suite\", \
                 \"event\": \"failed\", \
                 \"passed\": 6, \
                 \"failed\": 5, \
                 \"allowed_fail\": 4, \
                 \"ignored\": 3, \
                 \"measured\": 2, \
                 \"filtered_out\": 1 }";
    let _data: Event = decode(input).unwrap();
    match _data {
        Event::Suite(Suite::Failed(SuiteFailed {
            passed,
            failed,
            allowed_fail,
            ignored,
            measured,
            filtered_out,
            ..
        })) => {
            assert_eq!(
                (passed, failed, allowed_fail, ignored, measured, filtered_out),
                (6, 5, 4, 3, 2, 1)
            );
        }
        other => panic!("unexpected event {:?}", other),
    }
}

#[test]
fn test_started() {
    let input = r#"{ "type": "test", "event": "started", "name": "foo" }"#;
    let _data: Event = decode(input).unwrap();
    match _data {
        Event::Test(Test::Started(t)) => assert_eq!(t.name, "foo"),
        other => panic!("unexpected event {:?}", other),
    }
}

#[test]
fn test_timeout() {
    let input = r#"{ "type": "test", "event": "timeout", "name": "foo" }"#;
    let _data: Event = decode(input).unwrap();
    match _data {
        Event::Test(Test::Timeout(t)) => assert_eq!(t.name, "foo"),
        other => panic!("unexpected event {:?}", other),
    }
}

#[test]
fn bench() {
    let input = "{ \"type\": \"bench\", \
                 \"name\": \"foo\", \
                 \"median\": 10, \
                 \"deviation\": 2 }";
    let _data: Event = decode(input).unwrap();
    match _data {
        Event::Bench(Bench { name, median, deviation, mib_per_second, .. }) => {
            assert_eq!(name, "foo");
            assert_eq!(median, 10);
            assert_eq!(deviation, 2);
            assert_eq!(mib_per_second, None);
        }
        other => panic!("unexpected event {:?}", other),
    }
}

#[test]
fn bench_full() {
    let input = "{ \"type\": \"bench\", \
                 \"name\": \"foo\", \
                 \"median\": 10, \
                 \"deviation\": 2, \
                 \"mib_per_second\": 1 }";
    let _data: Event = decode(input).unwrap();
    match _data {
        Event::Bench(Bench { name, median, deviation, mib_per_second, .. }) => {
            assert_eq!(name, "foo");
            assert_eq!(median, 10);
            assert_eq!(deviation, 2);
            assert_eq!(mib_per_second, Some(1));
        }
        other => panic!("unexpected event {:?}", other),
    }
}

#[test]
fn test_events_by_word() {
    let name_of = |event: &str| {
        let input = format!("{{ \"type\": \"test\", \"event\": \"{}\", \"name\": \"case\" }}", event);
        decode(&input).unwrap()
    };
    assert!(matches!(name_of("ok"), Event::Test(Test::Passed(t)) if t.name == "case"));
    assert!(matches!(name_of("ignored"), Event::Test(Test::Ignored(t)) if t.name == "case"));
    assert!(matches!(name_of("allowed_failure"), Event::Test(Test::AllowedFailure(t)) if t.name == "case"));
    assert!(matches!(name_of("started"), Event::Test(Test::Started(t)) if t.name == "case"));
    assert!(matches!(name_of("timeout"), Event::Test(Test::Timeout(t)) if t.name == "case"));
    assert!(matches!(name_of("skipped"), Event::Test(Test::Unknown)));
}

#[test]
fn test_failed_keeps_what_was_printed() {
    let input = r#"{ "type": "test", "event": "failed", "name": "foo", "stdout": "out", "message": "boom" }"#;
    match decode(input).unwrap() {
        Event::Test(Test::Failed(t)) => {
            assert_eq!(t.name, "foo");
            assert_eq!(t.stdout.as_deref(), Some("out"));
            assert_eq!(t.message.as_deref(), Some("boom"));
        }
        other => panic!("unexpected event {:?}", other),
    }
    let input = r#"{ "type": "test", "event": "failed", "name": "foo" }"#;
    match decode(input).unwrap() {
        Event::Test(Test::Failed(t)) => {
            assert_eq!(t.stdout, None);
            assert_eq!(t.message, None);
        }
        other => panic!("unexpected event {:?}", other),
    }
}

#[test]
fn unknown_events_are_unknown() {
    assert_eq!(decode(r#"{ "type": "doctest" }"#).unwrap(), Event::Unknown);
    assert_eq!(decode(r#"{ "type": "suite", "event": "paused" }"#).unwrap(), Event::Suite(Suite::Unknown));
}

#[test]
fn events_need_their_fields() {
    for input in [
        r#"{ "event": "started", "test_count": 10 }"#,
        r#"{ "type": "suite", "test_count": 10 }"#,
        r#"{ "type": "suite", "event": "started" }"#,
        r#"{ "type": "suite", "event": "started", "test_count": -1 }"#,
        r#"{ "type": "suite", "event": "ok", "passed": 6 }"#,
        r#"{ "type": "test", "event": "started" }"#,
        r#"{ "type": "test", "event": "failed", "name": "foo", "stdout": 3 }"#,
        r#"{ "type": "bench", "name": "foo", "median": 10 }"#,
        r#"{ "type": "bench", "name": "foo", "median": 10, "deviation": 2, "mib_per_second": "fast" }"#,
        r#"{ "type": "suite", "#,
    ] {
        let err = decode(input).unwrap_err();
        assert_eq!(err.kind(), ErrorKind::InvalidOutput, "{}", input);
    }
}

#[test]
fn event_failure_names_the_member_at_fault() {
    let cause = |text: &str| String::from(decode(text).unwrap_err().cause().unwrap());
    assert_eq!(cause("{}"), "missing or invalid field `type`");
    assert_eq!(cause(r#"{ "type": "suite" }"#), "missing or invalid field `event`");
    assert_eq!(cause(r#"{ "type": "suite", "event": "started" }"#), "missing or invalid field `test_count`");
    assert_eq!(
        cause(r#"{ "type": "suite", "event": "ok", "passed": 1, "failed": 0 }"#),
        "missing or invalid field `allowed_fail`"
    );
    assert_eq!(cause(r#"{ "type": "test", "event": "ok" }"#), "missing or invalid field `name`");
    assert_eq!(
        cause(r#"{ "type": "test", "event": "failed", "name": "n", "message": 3 }"#),
        "missing or invalid field `message`"
    );
    assert_eq!(
        cause(r#"{ "type": "bench", "name": "n", "median": 1, "deviation": "x" }"#),
        "missing or invalid field `deviation`"
    );
}

#[test]
fn strict_reading_of_events_has_no_catch_all() {
    let strict = |text: &str| Message::new(String::from(text)).decode_event_strict();
    assert!(strict(r#"{ "type": "suite", "event": "started", "test_count": 10 }"#).is_ok());
    assert!(strict(r#"{ "type": "test", "event": "ok", "name": "a" }"#).is_ok());
    assert!(strict(r#"{ "type": "bench", "name": "foo", "median": 10, "deviation": 2 }"#).is_ok());
    let err = strict(r#"{ "type": "doctest" }"#).unwrap_err();
    assert_eq!(err.kind(), ErrorKind::InvalidOutput);
    assert_eq!(err.cause(), Some("missing or invalid field `type`"));
    let err = strict(r#"{ "type": "suite", "event": "paused" }"#).unwrap_err();
    assert_eq!(err.cause(), Some("missing or invalid field `event`"));
    let err = strict(r#"{ "type": "test", "event": "skipped", "name": "a" }"#).unwrap_err();
    assert_eq!(err.cause(), Some("missing or invalid field `event`"));
    let err = strict(r#"{ "type": "test", "event": "ok" }"#).unwrap_err();
    assert_eq!(err.cause(), Some("missing or invalid field `name`"));
}
