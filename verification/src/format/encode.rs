//! The JSON value that each message is written as, and the proof that
//! reading it back gives the message again.

use vstd::prelude::*;
use vstd::string::*;
use crate::format::diagnostic::{
    decode_code, decode_diagnostic, level_of, opt_code_at, Diagnostic, DiagnosticCode,
    DiagnosticCodeView, DiagnosticLevel, DiagnosticView,
};
use crate::format::field::{
    flag_at, flag_or_false_at, opt_flag_at, opt_text_at, opt_u32_at, present, text_at, text_or_at,
    texts_at, texts_of, texts_or_empty_at, u32_of,
};
use crate::format::{
    Artifact, ArtifactProfile, BuildFinished, BuildScript, FromCompiler, Message, Target,
};
use crate::format::{decode_message_strict, holds_unknown};
use crate::format::{
    decode_artifact, decode_build_script, decode_from_compiler, decode_message, decode_profile,
    decode_target, default_edition, diagnostic_at, env_at, is_pair, pairs_of, profile_at,
    target_at, ArtifactProfileView, ArtifactView, BuildScriptView, FromCompilerView, MessageView,
    TargetView,
};
use crate::json::{
    find, lemma_array_view, lemma_find_first, lemma_object_view, Json, JsonView,
};

verus! {

/// A list of strings as an array of strings.
pub open spec fn texts_value(ts: Seq<Seq<char>>) -> JsonView {
    JsonView::Array(Seq::new(ts.len(), |i: int| JsonView::Str(ts[i])))
}

/// A string that may be missing: the string, or `null`.
pub open spec fn opt_text_value(t: Option<Seq<char>>) -> JsonView {
    match t {
        Some(s) => JsonView::Str(s),
        None => JsonView::Null,
    }
}

/// A boolean that may be missing: the boolean, or `null`.
pub open spec fn opt_flag_value(b: Option<bool>) -> JsonView {
    match b {
        Some(b) => JsonView::Bool(b),
        None => JsonView::Null,
    }
}

/// A number that may be missing: the number, or `null`.
pub open spec fn opt_u32_value(n: Option<u32>) -> JsonView {
    match n {
        Some(n) => JsonView::Unsigned(n as u64),
        None => JsonView::Null,
    }
}

/// A pair of strings as an array of two strings.
pub open spec fn pair_value(p: (Seq<char>, Seq<char>)) -> JsonView {
    JsonView::Array(seq![JsonView::Str(p.0), JsonView::Str(p.1)])
}

/// A list of pairs of strings as an array of such arrays.
pub open spec fn pairs_value(ps: Seq<(Seq<char>, Seq<char>)>) -> JsonView {
    JsonView::Array(Seq::new(ps.len(), |i: int| pair_value(ps[i])))
}

/// The word that names a level.
pub open spec fn level_word(level: DiagnosticLevel) -> Seq<char> {
    match level {
        DiagnosticLevel::Ice => "error: internal compiler error"@,
        DiagnosticLevel::Error => "error"@,
        DiagnosticLevel::Warning => "warning"@,
        DiagnosticLevel::Note => "note"@,
        DiagnosticLevel::Help => "help"@,
        DiagnosticLevel::Unknown => "unknown"@,
    }
}

/// A diagnostic code as an object.
pub open spec fn code_value(c: DiagnosticCodeView) -> JsonView {
    JsonView::Object(
        seq![
            ("code"@, JsonView::Str(c.code)),
            ("explanation"@, opt_text_value(c.explanation)),
        ],
    )
}

/// A diagnostic code that may be missing: the object, or `null`.
pub open spec fn opt_code_value(c: Option<DiagnosticCodeView>) -> JsonView {
    match c {
        Some(c) => code_value(c),
        None => JsonView::Null,
    }
}

/// A diagnostic as an object.
pub open spec fn diagnostic_value(d: DiagnosticView) -> JsonView {
    JsonView::Object(
        seq![
            ("message"@, JsonView::Str(d.message)),
            ("code"@, opt_code_value(d.code)),
            ("level"@, JsonView::Str(level_word(d.level))),
            ("rendered"@, opt_text_value(d.rendered)),
        ],
    )
}

/// A target as an object.
pub open spec fn target_value(t: TargetView) -> JsonView {
    JsonView::Object(
        seq![
            ("name"@, JsonView::Str(t.name)),
            ("kind"@, texts_value(t.kind)),
            ("crate_types"@, texts_value(t.crate_types)),
            ("doctest"@, opt_flag_value(t.doctest)),
            ("doc"@, opt_flag_value(t.doc)),
            ("test"@, JsonView::Bool(t.test)),
            ("required-features"@, texts_value(t.required_features)),
            ("src_path"@, JsonView::Str(t.src_path)),
            ("edition"@, JsonView::Str(t.edition)),
        ],
    )
}

/// A profile as an object.
pub open spec fn profile_value(p: ArtifactProfileView) -> JsonView {
    JsonView::Object(
        seq![
            ("opt_level"@, JsonView::Str(p.opt_level)),
            ("debuginfo"@, opt_u32_value(p.debuginfo)),
            ("debug_assertions"@, JsonView::Bool(p.debug_assertions)),
            ("overflow_checks"@, JsonView::Bool(p.overflow_checks)),
            ("test"@, JsonView::Bool(p.test)),
        ],
    )
}

/// The message that ends a build, as an object.
pub open spec fn build_finished_value(success: bool) -> JsonView {
    JsonView::Object(
        seq![
            ("reason"@, JsonView::Str("build-finished"@)),
            ("success"@, JsonView::Bool(success)),
        ],
    )
}

/// An artifact as an object, the reason first.
pub open spec fn artifact_value(a: ArtifactView) -> JsonView {
    JsonView::Object(
        seq![
            ("reason"@, JsonView::Str("compiler-artifact"@)),
            ("package_id"@, JsonView::Str(a.package_id)),
            ("manifest_path"@, opt_text_value(a.manifest_path)),
            ("target"@, target_value(a.target)),
            ("profile"@, profile_value(a.profile)),
            ("features"@, texts_value(a.features)),
            ("filenames"@, texts_value(a.filenames)),
            ("executable"@, opt_text_value(a.executable)),
            ("fresh"@, JsonView::Bool(a.fresh)),
        ],
    )
}

/// A message of the compiler as an object, the reason first.
pub open spec fn from_compiler_value(m: FromCompilerView) -> JsonView {
    JsonView::Object(
        seq![
            ("reason"@, JsonView::Str("compiler-message"@)),
            ("package_id"@, JsonView::Str(m.package_id)),
            ("manifest_path"@, opt_text_value(m.manifest_path)),
            ("target"@, target_value(m.target)),
            ("message"@, diagnostic_value(m.message)),
        ],
    )
}

/// The output of a build script as an object, the reason first.
pub open spec fn build_script_value(s: BuildScriptView) -> JsonView {
    JsonView::Object(
        seq![
            ("reason"@, JsonView::Str("build-script-executed"@)),
            ("package_id"@, JsonView::Str(s.package_id)),
            ("out_dir"@, opt_text_value(s.out_dir)),
            ("linked_libs"@, texts_value(s.linked_libs)),
            ("linked_paths"@, texts_value(s.linked_paths)),
            ("cfgs"@, texts_value(s.cfgs)),
            ("env"@, pairs_value(s.env)),
        ],
    )
}

/// The JSON value that a message is written as: an object whose member
/// `reason` names the variant and whose other members are the variant's
/// fields. A field that holds nothing is written as `null`.
pub open spec fn encode_message(m: MessageView) -> JsonView {
    match m {
        MessageView::BuildFinished(success) => build_finished_value(success),
        MessageView::CompilerArtifact(a) => artifact_value(a),
        MessageView::CompilerMessage(m) => from_compiler_value(m),
        MessageView::BuildScriptExecuted(s) => build_script_value(s),
        MessageView::Unknown => JsonView::Object(seq![("reason"@, JsonView::Str("unknown"@))]),
    }
}

/// An array of strings reads back as the strings.
pub proof fn lemma_texts_round_trip(ts: Seq<Seq<char>>)
    ensures
        texts_of(texts_value(ts)) == Some(ts),
{
    assert(texts_of(texts_value(ts))->Some_0 =~= ts);
}

/// An array of pairs reads back as the pairs.
pub proof fn lemma_pairs_round_trip(ps: Seq<(Seq<char>, Seq<char>)>)
    ensures
        pairs_of(pairs_value(ps)) == Some(ps),
{
    let items = pairs_value(ps)->Array_0;
    assert forall|i: int| 0 <= i < items.len() implies is_pair(items[i]) by {
        assert(items[i] == pair_value(ps[i]));
    }
    assert(pairs_of(pairs_value(ps))->Some_0 =~= ps);
}

/// The word of a level names that level.
pub proof fn lemma_level_round_trip(level: DiagnosticLevel)
    ensures
        level_of(level_word(level)) == level,
{
    reveal_strlit("error: internal compiler error");
    reveal_strlit("error");
    reveal_strlit("warning");
    reveal_strlit("note");
    reveal_strlit("help");
    reveal_strlit("unknown");
    assert("error: internal compiler error"@.len() == 30);
    assert("error"@.len() == 5);
    assert("warning"@.len() == 7 && "warning"@[0] == 'w');
    assert("note"@.len() == 4 && "note"@[0] == 'n');
    assert("help"@.len() == 4 && "help"@[0] == 'h');
    assert("unknown"@.len() == 7 && "unknown"@[0] == 'u');
}

/// In an object whose first `at` keys differ from the key at `at`, that key
/// names the value at `at`.
pub proof fn lemma_member_at(entries: Seq<(Seq<char>, JsonView)>, at: int)
    requires
        0 <= at < entries.len(),
        forall|k: int| 0 <= k < at ==> (#[trigger] entries[k]).0 != entries[at].0,
    ensures
        JsonView::Object(entries).member(entries[at].0) == Some(entries[at].1),
{
    lemma_find_first(entries, entries[at].0, 0, at);
}

/// A diagnostic code reads back as itself.
pub proof fn lemma_code_round_trip(c: DiagnosticCodeView)
    ensures
        decode_code(code_value(c)) == Some(c),
{
    reveal_strlit("code");
    reveal_strlit("explanation");
    assert("code"@.len() == 4);
    assert("explanation"@.len() == 11);
    let entries = code_value(c)->Object_0;
    lemma_member_at(entries, 0);
    lemma_member_at(entries, 1);
}

/// A diagnostic reads back as itself.
pub proof fn lemma_diagnostic_round_trip(d: DiagnosticView)
    ensures
        decode_diagnostic(diagnostic_value(d)) == Some(d),
{
    reveal_strlit("message");
    reveal_strlit("code");
    reveal_strlit("level");
    reveal_strlit("rendered");
    assert("message"@.len() == 7);
    assert("code"@.len() == 4);
    assert("level"@.len() == 5);
    assert("rendered"@.len() == 8);
    let entries = diagnostic_value(d)->Object_0;
    lemma_member_at(entries, 0);
    lemma_member_at(entries, 1);
    lemma_member_at(entries, 2);
    lemma_member_at(entries, 3);
    if d.code is Some {
        lemma_code_round_trip(d.code->Some_0);
    }
    lemma_level_round_trip(d.level);
}

/// A target reads back as itself.
pub proof fn lemma_target_round_trip(t: TargetView)
    ensures
        decode_target(target_value(t)) == Some(t),
{
    reveal_strlit("name");
    reveal_strlit("kind");
    reveal_strlit("crate_types");
    reveal_strlit("doctest");
    reveal_strlit("doc");
    reveal_strlit("test");
    reveal_strlit("required-features");
    reveal_strlit("src_path");
    reveal_strlit("edition");
    assert("name"@.len() == 4 && "name"@[0] == 'n');
    assert("kind"@.len() == 4 && "kind"@[0] == 'k');
    assert("crate_types"@.len() == 11 && "crate_types"@[0] == 'c');
    assert("doctest"@.len() == 7 && "doctest"@[0] == 'd');
    assert("doc"@.len() == 3 && "doc"@[0] == 'd');
    assert("test"@.len() == 4 && "test"@[0] == 't');
    assert("required-features"@.len() == 17 && "required-features"@[0] == 'r');
    assert("src_path"@.len() == 8 && "src_path"@[0] == 's');
    assert("edition"@.len() == 7 && "edition"@[0] == 'e');
    let entries = target_value(t)->Object_0;
    lemma_member_at(entries, 0);
    lemma_member_at(entries, 1);
    lemma_member_at(entries, 2);
    lemma_member_at(entries, 3);
    lemma_member_at(entries, 4);
    lemma_member_at(entries, 5);
    lemma_member_at(entries, 6);
    lemma_member_at(entries, 7);
    lemma_member_at(entries, 8);
    lemma_texts_round_trip(t.kind);
    lemma_texts_round_trip(t.crate_types);
    lemma_texts_round_trip(t.required_features);
}

/// A profile reads back as itself.
pub proof fn lemma_profile_round_trip(p: ArtifactProfileView)
    ensures
        decode_profile(profile_value(p)) == Some(p),
{
    reveal_strlit("opt_level");
    reveal_strlit("debuginfo");
    reveal_strlit("debug_assertions");
    reveal_strlit("overflow_checks");
    reveal_strlit("test");
    assert("opt_level"@.len() == 9 && "opt_level"@[0] == 'o');
    assert("debuginfo"@.len() == 9 && "debuginfo"@[0] == 'd');
    assert("debug_assertions"@.len() == 16 && "debug_assertions"@[0] == 'd');
    assert("overflow_checks"@.len() == 15 && "overflow_checks"@[0] == 'o');
    assert("test"@.len() == 4 && "test"@[0] == 't');
    let entries = profile_value(p)->Object_0;
    lemma_member_at(entries, 0);
    lemma_member_at(entries, 1);
    lemma_member_at(entries, 2);
    lemma_member_at(entries, 3);
    lemma_member_at(entries, 4);
}

/// An artifact reads back as itself.
pub proof fn lemma_artifact_round_trip(a: ArtifactView)
    ensures
        decode_artifact(artifact_value(a)) == Some(a),
        text_at(artifact_value(a), "reason"@) == Some("compiler-artifact"@),
{
    reveal_strlit("reason");
    reveal_strlit("package_id");
    reveal_strlit("manifest_path");
    reveal_strlit("target");
    reveal_strlit("profile");
    reveal_strlit("features");
    reveal_strlit("filenames");
    reveal_strlit("executable");
    reveal_strlit("fresh");
    assert("reason"@.len() == 6 && "reason"@[0] == 'r');
    assert("package_id"@.len() == 10 && "package_id"@[0] == 'p');
    assert("manifest_path"@.len() == 13 && "manifest_path"@[0] == 'm');
    assert("target"@.len() == 6 && "target"@[0] == 't');
    assert("profile"@.len() == 7 && "profile"@[0] == 'p');
    assert("features"@.len() == 8 && "features"@[0] == 'f');
    assert("filenames"@.len() == 9 && "filenames"@[0] == 'f');
    assert("executable"@.len() == 10 && "executable"@[0] == 'e');
    assert("fresh"@.len() == 5 && "fresh"@[0] == 'f');
    let entries = artifact_value(a)->Object_0;
    lemma_member_at(entries, 0);
    lemma_member_at(entries, 1);
    lemma_member_at(entries, 2);
    lemma_member_at(entries, 3);
    lemma_member_at(entries, 4);
    lemma_member_at(entries, 5);
    lemma_member_at(entries, 6);
    lemma_member_at(entries, 7);
    lemma_member_at(entries, 8);
    lemma_target_round_trip(a.target);
    lemma_profile_round_trip(a.profile);
    lemma_texts_round_trip(a.features);
    lemma_texts_round_trip(a.filenames);
}

/// A message of the compiler reads back as itself.
pub proof fn lemma_from_compiler_round_trip(m: FromCompilerView)
    ensures
        decode_from_compiler(from_compiler_value(m)) == Some(m),
        text_at(from_compiler_value(m), "reason"@) == Some("compiler-message"@),
{
    reveal_strlit("reason");
    reveal_strlit("package_id");
    reveal_strlit("manifest_path");
    reveal_strlit("target");
    reveal_strlit("message");
    assert("reason"@.len() == 6 && "reason"@[0] == 'r');
    assert("package_id"@.len() == 10 && "package_id"@[0] == 'p');
    assert("manifest_path"@.len() == 13 && "manifest_path"@[0] == 'm');
    assert("target"@.len() == 6 && "target"@[0] == 't');
    assert("message"@.len() == 7 && "message"@[0] == 'm');
    let entries = from_compiler_value(m)->Object_0;
    lemma_member_at(entries, 0);
    lemma_member_at(entries, 1);
    lemma_member_at(entries, 2);
    lemma_member_at(entries, 3);
    lemma_member_at(entries, 4);
    lemma_target_round_trip(m.target);
    lemma_diagnostic_round_trip(m.message);
}

/// The output of a build script reads back as itself.
pub proof fn lemma_build_script_round_trip(b: BuildScriptView)
    ensures
        decode_build_script(build_script_value(b)) == Some(b),
        text_at(build_script_value(b), "reason"@) == Some("build-script-executed"@),
{
    reveal_strlit("reason");
    reveal_strlit("package_id");
    reveal_strlit("out_dir");
    reveal_strlit("linked_libs");
    reveal_strlit("linked_paths");
    reveal_strlit("cfgs");
    reveal_strlit("env");
    assert("reason"@.len() == 6 && "reason"@[0] == 'r');
    assert("package_id"@.len() == 10 && "package_id"@[0] == 'p');
    assert("out_dir"@.len() == 7 && "out_dir"@[0] == 'o');
    assert("linked_libs"@.len() == 11 && "linked_libs"@[0] == 'l');
    assert("linked_paths"@.len() == 12 && "linked_paths"@[0] == 'l');
    assert("cfgs"@.len() == 4 && "cfgs"@[0] == 'c');
    assert("env"@.len() == 3 && "env"@[0] == 'e');
    let entries = build_script_value(b)->Object_0;
    lemma_member_at(entries, 0);
    lemma_member_at(entries, 1);
    lemma_member_at(entries, 2);
    lemma_member_at(entries, 3);
    lemma_member_at(entries, 4);
    lemma_member_at(entries, 5);
    lemma_member_at(entries, 6);
    lemma_texts_round_trip(b.linked_libs);
    lemma_texts_round_trip(b.linked_paths);
    lemma_texts_round_trip(b.cfgs);
    lemma_pairs_round_trip(b.env);
}

/// Every message, written as a JSON value and read back, is the same
/// message again.
pub proof fn lemma_message_round_trip(m: MessageView)
    ensures
        decode_message(encode_message(m)) == Some(m),
{
    reveal_strlit("build-finished");
    reveal_strlit("compiler-artifact");
    reveal_strlit("compiler-message");
    reveal_strlit("build-script-executed");
    reveal_strlit("unknown");
    assert("build-finished"@.len() == 14 && "build-finished"@[0] == 'b');
    assert("compiler-artifact"@.len() == 17 && "compiler-artifact"@[0] == 'c');
    assert("compiler-message"@.len() == 16 && "compiler-message"@[0] == 'c');
    assert("build-script-executed"@.len() == 21 && "build-script-executed"@[0] == 'b');
    assert("unknown"@.len() == 7 && "unknown"@[0] == 'u');
    match m {
        MessageView::BuildFinished(success) => {
            reveal_strlit("reason");
            reveal_strlit("success");
            assert("reason"@.len() == 6);
            assert("success"@.len() == 7);
            let entries = build_finished_value(success)->Object_0;
            lemma_member_at(entries, 0);
            lemma_member_at(entries, 1);
        },
        MessageView::CompilerArtifact(a) => {
            lemma_artifact_round_trip(a);
        },
        MessageView::CompilerMessage(c) => {
            lemma_from_compiler_round_trip(c);
        },
        MessageView::BuildScriptExecuted(b) => {
            lemma_build_script_round_trip(b);
        },
        MessageView::Unknown => {
            let entries = encode_message(m)->Object_0;
            lemma_member_at(entries, 0);
        },
    }
}

/// Every message that holds no catch-all, written as a JSON value and read
/// back in the strict reading, is the same message again.
pub proof fn lemma_message_round_trip_strict(m: MessageView)
    requires
        !holds_unknown(m),
    ensures
        decode_message_strict(encode_message(m)) == Some(m),
{
    lemma_message_round_trip(m);
}

/// An entry of an object.
pub fn entry(key: &str, value: Json) -> (e: (String, Json))
    ensures
        e.0@ == key@,
        e.1 == value,
{
    (key.to_owned(), value)
}

/// A string as a JSON string.
pub fn text_to_json(t: &String) -> (j: Json)
    ensures
        j@ == JsonView::Str(t@),
{
    Json::Str(t.clone())
}

/// A list of strings as an array of strings.
fn texts_to_json(ts: &Vec<String>) -> (j: Json)
    ensures
        j@ == texts_value(ts.deep_view()),
{
    let mut items: Vec<Json> = Vec::new();
    let mut i: usize = 0;
    while i < ts.len()
        invariant
            i <= ts@.len(),
            items@.len() == i,
            forall|k: int| 0 <= k < i ==> (#[trigger] items@[k])@ == JsonView::Str(ts@[k]@),
        decreases ts@.len() - i,
    {
        items.push(text_to_json(&ts[i]));
        i += 1;
    }
    let j = Json::Array(items);
    proof {
        lemma_array_view(j);
        assert(j@->Array_0 =~= texts_value(ts.deep_view())->Array_0);
    }
    j
}

/// A string that may be missing: the string, or `null`.
pub fn opt_text_to_json(t: &Option<String>) -> (j: Json)
    ensures
        j@ == opt_text_value(t.deep_view()),
{
    match t {
        Some(s) => text_to_json(s),
        None => Json::Null,
    }
}

/// A boolean that may be missing: the boolean, or `null`.
fn opt_flag_to_json(b: Option<bool>) -> (j: Json)
    ensures
        j@ == opt_flag_value(b),
{
    match b {
        Some(b) => Json::Bool(b),
        None => Json::Null,
    }
}

/// A number that may be missing: the number, or `null`.
fn opt_u32_to_json(n: Option<u32>) -> (j: Json)
    ensures
        j@ == opt_u32_value(n),
{
    match n {
        Some(n) => Json::Unsigned(n as u64),
        None => Json::Null,
    }
}

/// A list of pairs of strings as an array of arrays of two strings.
fn pairs_to_json(ps: &Vec<(String, String)>) -> (j: Json)
    ensures
        j@ == pairs_value(ps.deep_view()),
{
    let mut items: Vec<Json> = Vec::new();
    let mut i: usize = 0;
    while i < ps.len()
        invariant
            i <= ps@.len(),
            items@.len() == i,
            forall|k: int|
                0 <= k < i ==> (#[trigger] items@[k])@ == pair_value((ps@[k].0@, ps@[k].1@)),
        decreases ps@.len() - i,
    {
        let mut parts: Vec<Json> = Vec::new();
        parts.push(text_to_json(&ps[i].0));
        parts.push(text_to_json(&ps[i].1));
        let pair = Json::Array(parts);
        proof {
            lemma_array_view(pair);
            assert(pair@->Array_0 =~= pair_value((ps@[i as int].0@, ps@[i as int].1@))->Array_0);
        }
        items.push(pair);
        i += 1;
    }
    let j = Json::Array(items);
    proof {
        lemma_array_view(j);
        assert(j@->Array_0 =~= pairs_value(ps.deep_view())->Array_0);
    }
    j
}

impl DiagnosticLevel {
    /// The word that names this level.
    pub fn word(&self) -> (word: &'static str)
        ensures
            word@ == level_word(*self),
    {
        match self {
            DiagnosticLevel::Ice => "error: internal compiler error",
            DiagnosticLevel::Error => "error",
            DiagnosticLevel::Warning => "warning",
            DiagnosticLevel::Note => "note",
            DiagnosticLevel::Help => "help",
            DiagnosticLevel::Unknown => "unknown",
        }
    }
}

impl DiagnosticCode {
    /// The diagnostic code as a JSON value.
    pub fn to_json(&self) -> (j: Json)
        ensures
            j@ == code_value(self.deep_view()),
    {
        let mut entries: Vec<(String, Json)> = Vec::new();
        entries.push(entry("code", text_to_json(&self.code)));
        entries.push(entry("explanation", opt_text_to_json(&self.explanation)));
        let j = Json::Object(entries);
        proof {
            lemma_object_view(j);
            assert(j@->Object_0 =~= code_value(self.deep_view())->Object_0);
        }
        j
    }
}

/// A diagnostic code that may be missing: the object, or `null`.
fn opt_code_to_json(c: &Option<DiagnosticCode>) -> (j: Json)
    ensures
        j@ == opt_code_value(c.deep_view()),
{
    match c {
        Some(c) => c.to_json(),
        None => Json::Null,
    }
}

impl Diagnostic {
    /// The diagnostic as a JSON value.
    pub fn to_json(&self) -> (j: Json)
        ensures
            j@ == diagnostic_value(self.deep_view()),
    {
        let mut entries: Vec<(String, Json)> = Vec::new();
        entries.push(entry("message", text_to_json(&self.message)));
        entries.push(entry("code", opt_code_to_json(&self.code)));
        entries.push(entry("level", Json::Str(self.level.word().to_owned())));
        entries.push(entry("rendered", opt_text_to_json(&self.rendered)));
        let j = Json::Object(entries);
        proof {
            lemma_object_view(j);
            assert(j@->Object_0 =~= diagnostic_value(self.deep_view())->Object_0);
        }
        j
    }
}

impl Target {
    /// The target as a JSON value.
    pub fn to_json(&self) -> (j: Json)
        ensures
            j@ == target_value(self.deep_view()),
    {
        let mut entries: Vec<(String, Json)> = Vec::new();
        entries.push(entry("name", text_to_json(&self.name)));
        entries.push(entry("kind", texts_to_json(&self.kind)));
        entries.push(entry("crate_types", texts_to_json(&self.crate_types)));
        entries.push(entry("doctest", opt_flag_to_json(self.doctest)));
        entries.push(entry("doc", opt_flag_to_json(self.doc)));
        entries.push(entry("test", Json::Bool(self.test)));
        entries.push(entry("required-features", texts_to_json(&self.required_features)));
        entries.push(entry("src_path", text_to_json(&self.src_path)));
        entries.push(entry("edition", text_to_json(&self.edition)));
        let j = Json::Object(entries);
        proof {
            lemma_object_view(j);
            assert(j@->Object_0 =~= target_value(self.deep_view())->Object_0);
        }
        j
    }
}

impl ArtifactProfile {
    /// The profile as a JSON value.
    pub fn to_json(&self) -> (j: Json)
        ensures
            j@ == profile_value(self.deep_view()),
    {
        let mut entries: Vec<(String, Json)> = Vec::new();
        entries.push(entry("opt_level", text_to_json(&self.opt_level)));
        entries.push(entry("debuginfo", opt_u32_to_json(self.debuginfo)));
        entries.push(entry("debug_assertions", Json::Bool(self.debug_assertions)));
        entries.push(entry("overflow_checks", Json::Bool(self.overflow_checks)));
        entries.push(entry("test", Json::Bool(self.test)));
        let j = Json::Object(entries);
        proof {
            lemma_object_view(j);
            assert(j@->Object_0 =~= profile_value(self.deep_view())->Object_0);
        }
        j
    }
}

impl BuildFinished {
    /// The message as a JSON value, the reason first.
    pub fn to_json(&self) -> (j: Json)
        ensures
            j@ == build_finished_value(self.deep_view()),
    {
        let mut entries: Vec<(String, Json)> = Vec::new();
        entries.push(entry("reason", Json::Str("build-finished".to_owned())));
        entries.push(entry("success", Json::Bool(self.success())));
        let j = Json::Object(entries);
        proof {
            lemma_object_view(j);
            assert(j@->Object_0 =~= build_finished_value(self.deep_view())->Object_0);
        }
        j
    }
}

impl Artifact {
    /// The message as a JSON value, the reason first.
    pub fn to_json(&self) -> (j: Json)
        ensures
            j@ == artifact_value(self.deep_view()),
    {
        let mut entries: Vec<(String, Json)> = Vec::new();
        entries.push(entry("reason", Json::Str("compiler-artifact".to_owned())));
        entries.push(entry("package_id", Json::Str(self.package_id.raw().to_owned())));
        entries.push(entry("manifest_path", opt_text_to_json(&self.manifest_path)));
        entries.push(entry("target", self.target.to_json()));
        entries.push(entry("profile", self.profile.to_json()));
        entries.push(entry("features", texts_to_json(&self.features)));
        entries.push(entry("filenames", texts_to_json(&self.filenames)));
        entries.push(entry("executable", opt_text_to_json(&self.executable)));
        entries.push(entry("fresh", Json::Bool(self.fresh)));
        let j = Json::Object(entries);
        proof {
            lemma_object_view(j);
            assert(j@->Object_0 =~= artifact_value(self.deep_view())->Object_0);
        }
        j
    }
}

impl FromCompiler {
    /// The message as a JSON value, the reason first.
    pub fn to_json(&self) -> (j: Json)
        ensures
            j@ == from_compiler_value(self.deep_view()),
    {
        let mut entries: Vec<(String, Json)> = Vec::new();
        entries.push(entry("reason", Json::Str("compiler-message".to_owned())));
        entries.push(entry("package_id", Json::Str(self.package_id.raw().to_owned())));
        entries.push(entry("manifest_path", opt_text_to_json(&self.manifest_path)));
        entries.push(entry("target", self.target.to_json()));
        entries.push(entry("message", self.message.to_json()));
        let j = Json::Object(entries);
        proof {
            lemma_object_view(j);
            assert(j@->Object_0 =~= from_compiler_value(self.deep_view())->Object_0);
        }
        j
    }
}

impl BuildScript {
    /// The message as a JSON value, the reason first.
    pub fn to_json(&self) -> (j: Json)
        ensures
            j@ == build_script_value(self.deep_view()),
    {
        let mut entries: Vec<(String, Json)> = Vec::new();
        entries.push(entry("reason", Json::Str("build-script-executed".to_owned())));
        entries.push(entry("package_id", Json::Str(self.package_id.raw().to_owned())));
        entries.push(entry("out_dir", opt_text_to_json(&self.out_dir)));
        entries.push(entry("linked_libs", texts_to_json(&self.linked_libs)));
        entries.push(entry("linked_paths", texts_to_json(&self.linked_paths)));
        entries.push(entry("cfgs", texts_to_json(&self.cfgs)));
        entries.push(entry("env", pairs_to_json(&self.env)));
        let j = Json::Object(entries);
        proof {
            lemma_object_view(j);
            assert(j@->Object_0 =~= build_script_value(self.deep_view())->Object_0);
        }
        j
    }
}

impl Message {
    /// The JSON value that this message is written as. Read back with
    /// `from_json`, it is this message again.
    pub fn to_json(&self) -> (j: Json)
        ensures
            j@ == encode_message(self.deep_view()),
            decode_message(j@) == Some(self.deep_view()),
    {
        proof {
            lemma_message_round_trip(self.deep_view());
        }
        match self {
            Message::BuildFinished(b) => b.to_json(),
            Message::CompilerArtifact(a) => a.to_json(),
            Message::CompilerMessage(m) => m.to_json(),
            Message::BuildScriptExecuted(s) => s.to_json(),
            Message::Unknown => {
                let mut entries: Vec<(String, Json)> = Vec::new();
                entries.push(entry("reason", Json::Str("unknown".to_owned())));
                let j = Json::Object(entries);
                proof {
                    lemma_object_view(j);
                    assert(j@->Object_0 =~= encode_message(self.deep_view())->Object_0);
                }
                j
            },
        }
    }
}

} // verus!
