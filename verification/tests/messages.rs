use escargot::error::ErrorKind;
use escargot::format::diagnostic::DiagnosticLevel;
use escargot::format::field::{bad_field, same_text};
use escargot::format::{log_message, LogLevel, LogText, WorkspaceMember};
use escargot::json::Json;
use escargot::Message;

fn line(text: &str) -> Message {
    Message::new(String::from(text))
}

fn artifact_line(kind: &str, crate_type: &str, test: bool, name: &str, file: &str) -> String {
    format!(
        "{{\"reason\":\"compiler-artifact\",\"package_id\":\"pkg 0.1.0 (path+file:///tmp/x)\",\
         \"manifest_path\":\"/tmp/x/Cargo.toml\",\
         \"target\":{{\"kind\":[\"{}\"],\"crate_types\":[\"{}\"],\"name\":\"{}\",\
         \"src_path\":\"/tmp/x/src/main.rs\",\"edition\":\"2018\",\"doc\":true,\"doctest\":false,\"test\":true}},\
         \"profile\":{{\"opt_level\":\"0\",\"debuginfo\":2,\"debug_assertions\":true,\
         \"overflow_checks\":true,\"test\":{}}},\
         \"features\":[\"default\"],\"filenames\":[\"{}\"],\"executable\":null,\"fresh\":false}}\n",
        kind, crate_type, name, test, file
    )
}

#[test]
fn decodes_build_finished() {
    let raw = line("{\"reason\":\"build-finished\",\"success\":true}\n");
    match raw.decode().unwrap() {
        escargot::format::Message::BuildFinished(done) => assert!(done.success()),
        other => panic!("unexpected message {:?}", other),
    }
    let raw = line("{\"reason\":\"build-finished\",\"success\":false}\n");
    match raw.decode().unwrap() {
        escargot::format::Message::BuildFinished(done) => assert!(!done.success()),
        other => panic!("unexpected message {:?}", other),
    }
}

#[test]
fn build_finished_needs_its_flag() {
    let err = line("{\"reason\":\"build-finished\"}\n").decode().unwrap_err();
    assert_eq!(err.kind(), ErrorKind::InvalidOutput);
    assert_eq!(err.cause(), Some("missing or invalid field `success`"));
    assert_eq!(err.context(), None);
    let err = line("{\"reason\":\"build-finished\",\"success\":\"yes\"}\n").decode().unwrap_err();
    assert_eq!(err.kind(), ErrorKind::InvalidOutput);
}

#[test]
fn decodes_compiler_artifact() {
    let raw = line(&artifact_line("bin", "bin", false, "bin1", "/tmp/x/bin1"));
    match raw.decode().unwrap() {
        escargot::format::Message::CompilerArtifact(art) => {
            assert_eq!(art.package_id.raw(), "pkg 0.1.0 (path+file:///tmp/x)");
            assert_eq!(art.manifest_path.as_deref(), Some("/tmp/x/Cargo.toml"));
            assert_eq!(art.target.name, "bin1");
            assert_eq!(art.target.kind, vec![String::from("bin")]);
            assert_eq!(art.target.crate_types, vec![String::from("bin")]);
            assert_eq!(art.target.doctest, Some(false));
            assert_eq!(art.target.doc, Some(true));
            assert!(art.target.test);
            assert!(art.target.required_features.is_empty());
            assert_eq!(art.target.src_path, "/tmp/x/src/main.rs");
            assert_eq!(art.target.edition, "2018");
            assert_eq!(art.profile.opt_level, "0");
            assert_eq!(art.profile.debuginfo, Some(2));
            assert!(art.profile.debug_assertions);
            assert!(art.profile.overflow_checks);
            assert!(!art.profile.test);
            assert_eq!(art.features, vec![String::from("default")]);
            assert_eq!(art.filenames, vec![String::from("/tmp/x/bin1")]);
            assert_eq!(art.executable, None);
            assert!(!art.fresh);
        }
        other => panic!("unexpected message {:?}", other),
    }
}

#[test]
fn target_without_edition_has_the_oldest() {
    let text = "{\"reason\":\"compiler-artifact\",\"package_id\":\"p\",\
        \"target\":{\"kind\":[\"lib\"],\"name\":\"p\",\"src_path\":\"/p/src/lib.rs\"},\
        \"profile\":{\"opt_level\":\"3\",\"debuginfo\":null,\"debug_assertions\":false,\
        \"overflow_checks\":false,\"test\":false},\
        \"features\":[],\"filenames\":[],\"fresh\":true}";
    match line(text).decode().unwrap() {
        escargot::format::Message::CompilerArtifact(art) => {
            assert_eq!(art.target.edition, "2015");
            assert_eq!(escargot::format::edition_default(), "2015");
            assert!(art.target.crate_types.is_empty());
            assert!(art.target.required_features.is_empty());
            assert_eq!(art.target.doctest, None);
            assert_eq!(art.target.doc, None);
            assert!(!art.target.test);
            assert_eq!(art.manifest_path, None);
            assert_eq!(art.executable, None);
            assert_eq!(art.profile.debuginfo, None);
            assert!(art.fresh);
        }
        other => panic!("unexpected message {:?}", other),
    }
}

#[test]
fn artifact_needs_every_required_field() {
    let whole = artifact_line("bin", "bin", false, "bin1", "/tmp/x/bin1");
    assert!(line(&whole).decode().is_ok());
    for field in ["\"package_id\"", "\"target\"", "\"profile\"", "\"features\"", "\"filenames\"", "\"fresh\"", "\"name\"", "\"kind\"", "\"src_path\"", "\"opt_level\"", "\"debug_assertions\"", "\"overflow_checks\""] {
        let broken = whole.replacen(field, "\"other\"", 1);
        let err = line(&broken).decode().unwrap_err();
        assert_eq!(err.kind(), ErrorKind::InvalidOutput, "without {}", field);
        let named = format!("missing or invalid field `{}`", field.trim_matches('"'));
        assert_eq!(err.cause(), Some(named.as_str()));
        assert!(err.context().is_none());
    }
}

#[test]
fn debuginfo_must_fit_32_bits() {
    let whole = artifact_line("bin", "bin", false, "bin1", "/tmp/x/bin1");
    let large = whole.replacen("\"debuginfo\":2", "\"debuginfo\":4294967295", 1);
    match line(&large).decode().unwrap() {
        escargot::format::Message::CompilerArtifact(art) => {
            assert_eq!(art.profile.debuginfo, Some(4294967295))
        }
        other => panic!("unexpected message {:?}", other),
    }
    let too_large = whole.replacen("\"debuginfo\":2", "\"debuginfo\":4294967296", 1);
    assert_eq!(line(&too_large).decode().unwrap_err().kind(), ErrorKind::InvalidOutput);
    let negative = whole.replacen("\"debuginfo\":2", "\"debuginfo\":-1", 1);
    assert_eq!(line(&negative).decode().unwrap_err().kind(), ErrorKind::InvalidOutput);
    let fraction = whole.replacen("\"debuginfo\":2", "\"debuginfo\":1.5", 1);
    assert_eq!(line(&fraction).decode().unwrap_err().kind(), ErrorKind::InvalidOutput);
}

#[test]
fn decodes_compiler_message() {
    let text = "{\"reason\":\"compiler-message\",\"package_id\":\"warn 0.1.0\",\
        \"manifest_path\":\"/w/Cargo.toml\",\
        \"target\":{\"kind\":[\"bin\"],\"crate_types\":[\"bin\"],\"name\":\"warn\",\
        \"src_path\":\"/w/src/main.rs\",\"edition\":\"2021\"},\
        \"message\":{\"message\":\"unused variable: `x`\",\
        \"code\":{\"code\":\"unused_variables\",\"explanation\":null},\
        \"level\":\"warning\",\"spans\":[],\"children\":[],\
        \"rendered\":\"warning: unused variable: `x`\\n\"}}";
    match line(text).decode().unwrap() {
        escargot::format::Message::CompilerMessage(comp) => {
            assert_eq!(comp.package_id.raw(), "warn 0.1.0");
            assert_eq!(comp.target.name, "warn");
            assert_eq!(comp.message.message, "unused variable: `x`");
            assert_eq!(comp.message.level, DiagnosticLevel::Warning);
            let code = comp.message.code.as_ref().unwrap();
            assert_eq!(code.code, "unused_variables");
            assert_eq!(code.explanation, None);
            assert_eq!(comp.message.rendered.as_deref(), Some("warning: unused variable: `x`\n"));
        }
        other => panic!("unexpected message {:?}", other),
    }
}

#[test]
fn diagnostic_levels_by_word() {
    assert_eq!(DiagnosticLevel::from_word("error: internal compiler error"), DiagnosticLevel::Ice);
    assert_eq!(DiagnosticLevel::from_word("error"), DiagnosticLevel::Error);
    assert_eq!(DiagnosticLevel::from_word("warning"), DiagnosticLevel::Warning);
    assert_eq!(DiagnosticLevel::from_word("note"), DiagnosticLevel::Note);
    assert_eq!(DiagnosticLevel::from_word("help"), DiagnosticLevel::Help);
    assert_eq!(DiagnosticLevel::from_word("failure-note"), DiagnosticLevel::Unknown);
    assert_eq!(DiagnosticLevel::Ice.word(), "error: internal compiler error");
    assert_eq!(DiagnosticLevel::Unknown.word(), "unknown");
}

#[test]
fn decodes_build_script() {
    let text = "{\"reason\":\"build-script-executed\",\"package_id\":\"script 0.1.0\",\
        \"out_dir\":\"/s/out\",\"linked_libs\":[\"z\"],\"linked_paths\":[\"/usr/lib\"],\
        \"cfgs\":[\"has_foo\"],\"env\":[[\"KEY\",\"value\"],[\"A\",\"b\"]]}";
    match line(text).decode().unwrap() {
        escargot::format::Message::BuildScriptExecuted(script) => {
            assert_eq!(script.package_id.raw(), "script 0.1.0");
            assert_eq!(script.out_dir.as_deref(), Some("/s/out"));
            assert_eq!(script.linked_libs, vec![String::from("z")]);
            assert_eq!(script.linked_paths, vec![String::from("/usr/lib")]);
            assert_eq!(script.cfgs, vec![String::from("has_foo")]);
            assert_eq!(
                script.env,
                vec![
                    (String::from("KEY"), String::from("value")),
                    (String::from("A"), String::from("b"))
                ]
            );
        }
        other => panic!("unexpected message {:?}", other),
    }
}

#[test]
fn env_must_hold_pairs() {
    let whole = "{\"reason\":\"build-script-executed\",\"package_id\":\"s\",\
        \"linked_libs\":[],\"linked_paths\":[],\"cfgs\":[],\"env\":[[\"KEY\",\"value\"]]}";
    assert!(line(whole).decode().is_ok());
    for env in ["[[\"KEY\"]]", "[[\"KEY\",\"a\",\"b\"]]", "[[\"KEY\",1]]", "[\"KEY\"]", "{}"] {
        let broken = whole.replacen("[[\"KEY\",\"value\"]]", env, 1);
        assert_eq!(line(&broken).decode().unwrap_err().kind(), ErrorKind::InvalidOutput, "{}", env);
    }
}

#[test]
fn unknown_reason_is_unknown() {
    let decoded = line("{\"reason\":\"timing-info\",\"mode\":\"build\"}").decode().unwrap();
    assert_eq!(decoded, escargot::format::Message::Unknown);
}

#[test]
fn reason_must_be_a_string() {
    assert_eq!(line("{\"success\":true}").decode().unwrap_err().kind(), ErrorKind::InvalidOutput);
    assert_eq!(line("{\"reason\":3}").decode().unwrap_err().kind(), ErrorKind::InvalidOutput);
    assert_eq!(line("[\"build-finished\"]").decode().unwrap_err().kind(), ErrorKind::InvalidOutput);
    assert_eq!(line("null").decode().unwrap_err().kind(), ErrorKind::InvalidOutput);
}

#[test]
fn rejects_text_that_is_no_json() {
    for text in ["not json\n", "", "\n", "{\"reason\":\"build-finished\",\"success\":true} trailing", "{\"reason\":"] {
        let err = line(text).decode().unwrap_err();
        assert_eq!(err.kind(), ErrorKind::InvalidOutput);
        assert!(err.context().is_none());
        assert!(!err.cause().unwrap().is_empty());
    }
}

#[test]
fn parse_keeps_the_shape_of_the_value() {
    let json = Json::parse("{\"a\":[1,true,null,\"s\",-2,1.5],\"b\":{\"c\":18446744073709551615}}").unwrap();
    let a = json.get("a").unwrap().as_array().unwrap();
    assert_eq!(a.len(), 6);
    assert_eq!(a[0], Json::Unsigned(1));
    assert_eq!(a[1], Json::Bool(true));
    assert_eq!(a[2], Json::Null);
    assert_eq!(a[3], Json::Str(String::from("s")));
    assert_eq!(a[4], Json::Number);
    assert_eq!(a[5], Json::Number);
    assert!(a[2].is_null());
    assert_eq!(a[1].as_bool(), Some(true));
    assert_eq!(a[3].as_str(), Some("s"));
    assert_eq!(a[0].as_u64(), Some(1));
    assert_eq!(a[4].as_u64(), None);
    let b = json.get("b").unwrap();
    assert_eq!(b.get("c").unwrap().as_u64(), Some(u64::MAX));
    assert!(b.get("d").is_none());
    assert!(a[0].get("a").is_none());
    assert_eq!(json.as_str(), None);
}

#[test]
fn message_keeps_its_line() {
    let raw = line("{\"reason\":\"build-finished\",\"success\":true}\n");
    assert_eq!(raw.as_str(), "{\"reason\":\"build-finished\",\"success\":true}\n");
    assert_eq!(raw.clone(), raw);
}

#[test]
fn log_records_follow_the_message() {
    let done = line("{\"reason\":\"build-finished\",\"success\":true}").decode().unwrap();
    let record = log_message(&done);
    assert_eq!(record.level, LogLevel::Trace);
    assert_eq!(record.text, LogText::Plain(String::from("Build Finished: true")));
    let failed = line("{\"reason\":\"build-finished\",\"success\":false}").decode().unwrap();
    assert_eq!(log_message(&failed).text, LogText::Plain(String::from("Build Finished: false")));

    let art = line(&artifact_line("bin", "bin", false, "bin1", "/tmp/x/bin1")).decode().unwrap();
    let record = log_message(&art);
    assert_eq!(record.level, LogLevel::Trace);
    let member = WorkspaceMember::new(String::from("pkg 0.1.0 (path+file:///tmp/x)"));
    assert_eq!(record.text, LogText::Member(String::from("Building "), member.clone()));
    assert_eq!(
        format!("Building {:#?}", member),
        "Building WorkspaceMember {\n    raw: \"pkg 0.1.0 (path+file:///tmp/x)\",\n}"
    );

    let unknown = line("{\"reason\":\"other\"}").decode().unwrap();
    let record = log_message(&unknown);
    assert_eq!(record.level, LogLevel::Warn);
    assert_eq!(record.text, LogText::Whole(String::from("Unknown message: ")));
    assert_eq!(format!("Unknown message: {:#?}", unknown), "Unknown message: Unknown");

    let script = line("{\"reason\":\"build-script-executed\",\"package_id\":\"s 1\",\
        \"linked_libs\":[],\"linked_paths\":[],\"cfgs\":[],\"env\":[]}").decode().unwrap();
    let record = log_message(&script);
    assert_eq!(record.level, LogLevel::Trace);
    assert_eq!(
        record.text,
        LogText::Member(String::from("Ran script from "), WorkspaceMember::new(String::from("s 1")))
    );
}

fn compiler_message(level: &str, rendered: &str) -> escargot::format::Message {
    let text = format!(
        "{{\"reason\":\"compiler-message\",\"package_id\":\"p\",\
         \"target\":{{\"kind\":[\"bin\"],\"name\":\"p\",\"src_path\":\"/p/main.rs\"}},\
         \"message\":{{\"message\":\"bare\",\"code\":null,\"level\":\"{}\",\"rendered\":{}}}}}",
        level, rendered
    );
    line(&text).decode().unwrap()
}

#[test]
fn log_records_follow_the_level() {
    let cases = [
        ("error: internal compiler error", LogLevel::Error),
        ("error", LogLevel::Error),
        ("warning", LogLevel::Warn),
        ("note", LogLevel::Info),
        ("help", LogLevel::Info),
    ];
    for (word, level) in cases {
        let record = log_message(&compiler_message(word, "\"shown\""));
        assert_eq!(record.level, level);
        assert_eq!(record.text, LogText::Plain(String::from("shown")));
        let record = log_message(&compiler_message(word, "null"));
        assert_eq!(record.level, level);
        assert_eq!(record.text, LogText::Plain(String::from("bare")));
    }
    let record = log_message(&compiler_message("odd", "\"shown\""));
    assert_eq!(record.level, LogLevel::Warn);
    assert_eq!(record.text, LogText::Whole(String::from("Unknown message: ")));
}

#[test]
fn failure_names_the_field() {
    let e = bad_field("kind");
    assert_eq!(e.kind(), ErrorKind::InvalidOutput);
    assert_eq!(e.context(), None);
    assert_eq!(e.cause(), Some("missing or invalid field `kind`"));
    assert_eq!(
        e.render(),
        "Cargo command failed: Parsing the cargo subcommand's output failed.\nCause: missing or invalid field `kind`\n"
    );
}

#[test]
fn texts_are_compared_by_their_characters() {
    assert!(same_text("bin", "bin"));
    assert!(same_text("", ""));
    assert!(!same_text("bin", "bins"));
    assert!(!same_text("bin", "Bin"));
}

#[test]
fn failure_names_the_first_member_at_fault() {
    let cause = |text: &str| String::from(line(text).decode().unwrap_err().cause().unwrap());
    assert_eq!(cause("{}"), "missing or invalid field `reason`");
    assert_eq!(cause("{\"reason\":\"compiler-artifact\"}"), "missing or invalid field `package_id`");
    assert_eq!(
        cause("{\"reason\":\"compiler-artifact\",\"package_id\":\"p\",\"manifest_path\":3}"),
        "missing or invalid field `manifest_path`"
    );
    assert_eq!(
        cause("{\"reason\":\"compiler-artifact\",\"package_id\":\"p\"}"),
        "missing or invalid field `target`"
    );
    assert_eq!(
        cause("{\"reason\":\"compiler-artifact\",\"package_id\":\"p\",\"target\":{\"name\":\"t\",\"kind\":[1]}}"),
        "missing or invalid field `kind`"
    );
    assert_eq!(
        cause("{\"reason\":\"compiler-message\",\"package_id\":\"p\",\
               \"target\":{\"name\":\"t\",\"kind\":[],\"src_path\":\"s\"},\
               \"message\":{\"message\":\"m\",\"level\":\"note\",\"code\":{\"explanation\":\"e\"}}}"),
        "missing or invalid field `code`"
    );
    assert_eq!(
        cause("{\"reason\":\"compiler-message\",\"package_id\":\"p\",\
               \"target\":{\"name\":\"t\",\"kind\":[],\"src_path\":\"s\"}}"),
        "missing or invalid field `message`"
    );
    assert_eq!(
        cause("{\"reason\":\"build-script-executed\",\"package_id\":\"p\",\"linked_libs\":[],\
               \"linked_paths\":[],\"cfgs\":[],\"env\":[[\"a\"]]}"),
        "missing or invalid field `env`"
    );
}

#[test]
fn cause_of_a_line_that_is_no_json_is_the_word_of_the_parser() {
    for text in ["not json\n", "\n", "", "{\"reason\":\"build-finished\"", "[1,2", "{\"a\":1} x"] {
        let words = serde_json::from_str::<serde_json::Value>(text).unwrap_err().to_string();
        let err = line(text).decode().unwrap_err();
        assert_eq!(err.kind(), ErrorKind::InvalidOutput);
        assert_eq!(err.context(), None);
        assert_eq!(err.cause(), Some(words.as_str()));
        let err = Json::parse(text).unwrap_err();
        assert_eq!(err.cause(), Some(words.as_str()));
        let err = line(text).decode_strict().unwrap_err();
        assert_eq!(err.cause(), Some(words.as_str()));
        let err = line(text).decode_event().unwrap_err();
        assert_eq!(err.cause(), Some(words.as_str()));
    }
    let err = line("not json").decode().unwrap_err();
    assert_eq!(err.cause(), Some("expected ident at line 1 column 2"));
}

#[test]
fn strict_reading_has_no_catch_all() {
    let unknown = line("{\"reason\":\"timing-info\",\"mode\":\"build\"}");
    assert_eq!(unknown.decode().unwrap(), escargot::format::Message::Unknown);
    let err = unknown.decode_strict().unwrap_err();
    assert_eq!(err.kind(), ErrorKind::InvalidOutput);
    assert_eq!(err.context(), None);
    assert_eq!(err.cause(), Some("missing or invalid field `reason`"));

    let odd = format!(
        "{{\"reason\":\"compiler-message\",\"package_id\":\"p\",\
         \"target\":{{\"kind\":[\"bin\"],\"name\":\"p\",\"src_path\":\"/p/main.rs\"}},\
         \"message\":{{\"message\":\"bare\",\"level\":\"{}\"}}}}",
        "failure-note"
    );
    assert!(line(&odd).decode().is_ok());
    let err = line(&odd).decode_strict().unwrap_err();
    assert_eq!(err.kind(), ErrorKind::InvalidOutput);
    assert_eq!(err.cause(), Some("missing or invalid field `level`"));
}

#[test]
fn strict_reading_reads_known_messages_as_before() {
    let texts = [
        String::from("{\"reason\":\"build-finished\",\"success\":true}"),
        artifact_line("bin", "bin", false, "bin1", "/tmp/x/bin1"),
        String::from(
            "{\"reason\":\"build-script-executed\",\"package_id\":\"s\",\
             \"linked_libs\":[],\"linked_paths\":[],\"cfgs\":[],\"env\":[]}",
        ),
    ];
    for text in texts {
        assert_eq!(line(&text).decode_strict().unwrap(), line(&text).decode().unwrap());
    }
    let err = line("{\"reason\":\"build-finished\"}").decode_strict().unwrap_err();
    assert_eq!(err.cause(), Some("missing or invalid field `success`"));
    let err = line("{}").decode_strict().unwrap_err();
    assert_eq!(err.cause(), Some("missing or invalid field `reason`"));
}
