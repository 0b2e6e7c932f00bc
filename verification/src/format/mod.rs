//! Serialization formats for cargo messages.

use vstd::prelude::*;
use vstd::string::*;
use crate::error::CargoError;
use crate::format::diagnostic::{
    decode_diagnostic, diagnostic_fault, Diagnostic, DiagnosticLevel, DiagnosticView,
};
use crate::format::field::{
    bad_field, field_failure, flag_at, flag_field, flag_or_false_at, flag_or_false_field,
    opt_flag_at, opt_flag_field, opt_text_at, opt_text_field, opt_u32_at, opt_u32_field,
    same_text, text_at, text_field, text_or_at, text_or_field, texts_at, texts_field, texts_or_empty_at,
    texts_or_empty_field,
};
use crate::json::{lemma_array_view, Json, JsonView};

pub mod diagnostic;
pub mod encode;
pub mod field;

verus! {

/// A workspace member: the package id, as cargo gives it.
#[derive(Debug, Clone, PartialEq, Eq)]
pub struct WorkspaceMember {
    /// The raw package id as given by cargo
    raw: String,
}

impl DeepView for WorkspaceMember {
    type V = Seq<char>;

    closed spec fn deep_view(&self) -> Seq<char> {
        self.raw@
    }
}

impl WorkspaceMember {
    /// The workspace member with the package id `raw`.
    pub fn new(raw: String) -> (m: WorkspaceMember)
        ensures
            m.deep_view() == raw@,
    {
        WorkspaceMember { raw }
    }

    /// The raw package id as given by cargo.
    pub fn raw(&self) -> (raw: &str)
        ensures
            raw@ == self.deep_view(),
    {
        self.raw.as_str()
    }
}

/// Build completed, all further output should not be parsed
#[derive(Debug, Clone, PartialEq, Eq)]
#[non_exhaustive]
pub struct BuildFinished {
    success: bool,
}

impl DeepView for BuildFinished {
    type V = bool;

    closed spec fn deep_view(&self) -> bool {
        self.success
    }
}

impl BuildFinished {
    /// The end of a build that succeeded or did not.
    pub fn new(success: bool) -> (b: BuildFinished)
        ensures
            b.deep_view() == success,
    {
        BuildFinished { success }
    }

    /// Whether the build succeeded.
    pub fn success(&self) -> (success: bool)
        ensures
            success == self.deep_view(),
    {
        self.success
    }
}

/// A single target (lib, bin, example, ...) provided by a crate
#[derive(Debug, Clone, PartialEq, Eq)]
#[non_exhaustive]
pub struct Target {
    /// Name as given in the `Cargo.toml` or generated from the file name
    pub name: String,
    /// Kind of target ("bin", "example", "test", "bench", "lib")
    pub kind: Vec<String>,
    /// Almost the same as `kind`, except when an example is a library instead of an executable.
    /// In that case `crate_types` contains things like `rlib` and `dylib` while `kind` is `example`
    pub crate_types: Vec<String>,
    /// Whether this is a doctest or not
    pub doctest: Option<bool>,
    /// Whether this is documentation or not
    pub doc: Option<bool>,
    /// Whether this is a test file
    pub test: bool,
    /// This target is built only if these features are enabled.
    /// It doesn't apply to `lib` targets.
    pub required_features: Vec<String>,
    /// Path to the main source file of the target
    pub src_path: String,
    /// Rust edition for this target
    pub edition: String,
}

/// What a target holds.
pub struct TargetView {
    pub name: Seq<char>,
    pub kind: Seq<Seq<char>>,
    pub crate_types: Seq<Seq<char>>,
    pub doctest: Option<bool>,
    pub doc: Option<bool>,
    pub test: bool,
    pub required_features: Seq<Seq<char>>,
    pub src_path: Seq<char>,
    pub edition: Seq<char>,
}

impl DeepView for Target {
    type V = TargetView;

    open spec fn deep_view(&self) -> TargetView {
        TargetView {
            name: self.name.deep_view(),
            kind: self.kind.deep_view(),
            crate_types: self.crate_types.deep_view(),
            doctest: self.doctest,
            doc: self.doc,
            test: self.test,
            required_features: self.required_features.deep_view(),
            src_path: self.src_path.deep_view(),
            edition: self.edition.deep_view(),
        }
    }
}

/// The edition of a target that names none: the oldest one.
pub open spec fn default_edition() -> Seq<char> {
    "2015"@
}

/// The edition of a target that names none.
pub fn edition_default() -> (edition: String)
    ensures
        edition@ == default_edition(),
{
    String::from_str("2015")
}

/// Profile settings used to determine which compiler flags to use for a
/// target.
#[derive(Debug, Clone, PartialEq, Eq)]
#[non_exhaustive]
pub struct ArtifactProfile {
    /// Optimization level. Possible values are 0-3, s or z.
    pub opt_level: String,
    /// The amount of debug info. 0 for none, 1 for limited, 2 for full
    pub debuginfo: Option<u32>,
    /// State of the `cfg(debug_assertions)` directive, enabling macros like
    /// `debug_assert!`
    pub debug_assertions: bool,
    /// State of the overflow checks.
    pub overflow_checks: bool,
    /// Whether this profile is a test
    pub test: bool,
}

/// What a profile holds.
pub struct ArtifactProfileView {
    pub opt_level: Seq<char>,
    pub debuginfo: Option<u32>,
    pub debug_assertions: bool,
    pub overflow_checks: bool,
    pub test: bool,
}

impl DeepView for ArtifactProfile {
    type V = ArtifactProfileView;

    open spec fn deep_view(&self) -> ArtifactProfileView {
        ArtifactProfileView {
            opt_level: self.opt_level.deep_view(),
            debuginfo: self.debuginfo,
            debug_assertions: self.debug_assertions,
            overflow_checks: self.overflow_checks,
            test: self.test,
        }
    }
}

/// A compiler-generated file.
#[derive(Debug, Clone, PartialEq, Eq)]
#[non_exhaustive]
pub struct Artifact {
    /// The workspace member this artifact belongs to
    pub package_id: WorkspaceMember,
    /// The full path to the artifact's manifest
    pub manifest_path: Option<String>,
    /// The target this artifact was compiled for
    pub target: Target,
    /// The profile this artifact was compiled with
    pub profile: ArtifactProfile,
    /// The enabled features for this artifact
    pub features: Vec<String>,
    /// The full paths to the generated artifacts
    pub filenames: Vec<String>,
    /// The full path to the executable, where one was generated
    pub executable: Option<String>,
    /// If true, then the files were already generated
    pub fresh: bool,
}

/// What an artifact holds.
pub struct ArtifactView {
    pub package_id: Seq<char>,
    pub manifest_path: Option<Seq<char>>,
    pub target: TargetView,
    pub profile: ArtifactProfileView,
    pub features: Seq<Seq<char>>,
    pub filenames: Seq<Seq<char>>,
    pub executable: Option<Seq<char>>,
    pub fresh: bool,
}

impl DeepView for Artifact {
    type V = ArtifactView;

    open spec fn deep_view(&self) -> ArtifactView {
        ArtifactView {
            package_id: self.package_id.deep_view(),
            manifest_path: self.manifest_path.deep_view(),
            target: self.target.deep_view(),
            profile: self.profile.deep_view(),
            features: self.features.deep_view(),
            filenames: self.filenames.deep_view(),
            executable: self.executable.deep_view(),
            fresh: self.fresh,
        }
    }
}

/// Message left by the compiler
#[derive(Debug, Clone, PartialEq, Eq)]
#[non_exhaustive]
pub struct FromCompiler {
    /// The workspace member this message belongs to
    pub package_id: WorkspaceMember,
    /// The full path to the artifact's manifest
    pub manifest_path: Option<String>,
    /// The target this message is aimed at
    pub target: Target,
    /// The message the compiler sent.
    pub message: Diagnostic,
}

/// What a message of the compiler holds.
pub struct FromCompilerView {
    pub package_id: Seq<char>,
    pub manifest_path: Option<Seq<char>>,
    pub target: TargetView,
    pub message: DiagnosticView,
}

impl DeepView for FromCompiler {
    type V = FromCompilerView;

    open spec fn deep_view(&self) -> FromCompilerView {
        FromCompilerView {
            package_id: self.package_id.deep_view(),
            manifest_path: self.manifest_path.deep_view(),
            target: self.target.deep_view(),
            message: self.message.deep_view(),
        }
    }
}

/// Output of a Build Script execution.
#[derive(Debug, Clone, PartialEq, Eq)]
#[non_exhaustive]
pub struct BuildScript {
    /// The workspace member this build script execution belongs to
    pub package_id: WorkspaceMember,
    /// The outdir used.
    pub out_dir: Option<String>,
    /// The libs to link
    pub linked_libs: Vec<String>,
    /// The paths to search when resolving libs
    pub linked_paths: Vec<String>,
    /// The configuration flags to set
    pub cfgs: Vec<String>,
    /// The environment variables to add to the compilation
    pub env: Vec<(String, String)>,
}

/// What the output of a build script holds.
pub struct BuildScriptView {
    pub package_id: Seq<char>,
    pub out_dir: Option<Seq<char>>,
    pub linked_libs: Seq<Seq<char>>,
    pub linked_paths: Seq<Seq<char>>,
    pub cfgs: Seq<Seq<char>>,
    pub env: Seq<(Seq<char>, Seq<char>)>,
}

impl DeepView for BuildScript {
    type V = BuildScriptView;

    open spec fn deep_view(&self) -> BuildScriptView {
        BuildScriptView {
            package_id: self.package_id.deep_view(),
            out_dir: self.out_dir.deep_view(),
            linked_libs: self.linked_libs.deep_view(),
            linked_paths: self.linked_paths.deep_view(),
            cfgs: self.cfgs.deep_view(),
            env: self.env.deep_view(),
        }
    }
}

/// A cargo message
#[derive(Debug, Clone, PartialEq, Eq)]
pub enum Message {
    /// Build completed, all further output should not be parsed
    BuildFinished(BuildFinished),
    /// The compiler generated an artifact
    CompilerArtifact(Artifact),
    /// The compiler wants to display a message
    CompilerMessage(FromCompiler),
    /// A build script successfully executed.
    BuildScriptExecuted(BuildScript),
    /// A message of a kind that this library does not know.
    Unknown,
}

/// What a cargo message holds.
pub enum MessageView {
    BuildFinished(bool),
    CompilerArtifact(ArtifactView),
    CompilerMessage(FromCompilerView),
    BuildScriptExecuted(BuildScriptView),
    Unknown,
}

impl DeepView for Message {
    type V = MessageView;

    open spec fn deep_view(&self) -> MessageView {
        match self {
            Message::BuildFinished(b) => MessageView::BuildFinished(b.deep_view()),
            Message::CompilerArtifact(a) => MessageView::CompilerArtifact(a.deep_view()),
            Message::CompilerMessage(m) => MessageView::CompilerMessage(m.deep_view()),
            Message::BuildScriptExecuted(s) => MessageView::BuildScriptExecuted(s.deep_view()),
            Message::Unknown => MessageView::Unknown,
        }
    }
}

/// The target that a JSON value stands for.
pub open spec fn decode_target(j: JsonView) -> Option<TargetView> {
    if text_at(j, "name"@) is Some && texts_at(j, "kind"@) is Some && texts_or_empty_at(
        j,
        "crate_types"@,
    ) is Some && opt_flag_at(j, "doctest"@) is Some && opt_flag_at(j, "doc"@) is Some
        && flag_or_false_at(j, "test"@) is Some && texts_or_empty_at(j, "required-features"@) is Some
        && text_at(j, "src_path"@) is Some && text_or_at(j, "edition"@, default_edition()) is Some {
        Some(
            TargetView {
                name: text_at(j, "name"@)->Some_0,
                kind: texts_at(j, "kind"@)->Some_0,
                crate_types: texts_or_empty_at(j, "crate_types"@)->Some_0,
                doctest: opt_flag_at(j, "doctest"@)->Some_0,
                doc: opt_flag_at(j, "doc"@)->Some_0,
                test: flag_or_false_at(j, "test"@)->Some_0,
                required_features: texts_or_empty_at(j, "required-features"@)->Some_0,
                src_path: text_at(j, "src_path"@)->Some_0,
                edition: text_or_at(j, "edition"@, default_edition())->Some_0,
            },
        )
    } else {
        None
    }
}

/// The profile that a JSON value stands for.
pub open spec fn decode_profile(j: JsonView) -> Option<ArtifactProfileView> {
    if text_at(j, "opt_level"@) is Some && opt_u32_at(j, "debuginfo"@) is Some && flag_at(
        j,
        "debug_assertions"@,
    ) is Some && flag_at(j, "overflow_checks"@) is Some && flag_at(j, "test"@) is Some {
        Some(
            ArtifactProfileView {
                opt_level: text_at(j, "opt_level"@)->Some_0,
                debuginfo: opt_u32_at(j, "debuginfo"@)->Some_0,
                debug_assertions: flag_at(j, "debug_assertions"@)->Some_0,
                overflow_checks: flag_at(j, "overflow_checks"@)->Some_0,
                test: flag_at(j, "test"@)->Some_0,
            },
        )
    } else {
        None
    }
}

/// The target of the member `target`, which must be there.
pub open spec fn target_at(j: JsonView) -> Option<TargetView> {
    match j.member("target"@) {
        Some(v) => decode_target(v),
        None => None,
    }
}

/// The profile of the member `profile`, which must be there.
pub open spec fn profile_at(j: JsonView) -> Option<ArtifactProfileView> {
    match j.member("profile"@) {
        Some(v) => decode_profile(v),
        None => None,
    }
}

/// The diagnostic of the member `message`, which must be there.
pub open spec fn diagnostic_at(j: JsonView) -> Option<DiagnosticView> {
    match j.member("message"@) {
        Some(v) => decode_diagnostic(v),
        None => None,
    }
}

/// The artifact that a JSON value stands for.
pub open spec fn decode_artifact(j: JsonView) -> Option<ArtifactView> {
    if text_at(j, "package_id"@) is Some && opt_text_at(j, "manifest_path"@) is Some && target_at(
        j,
    ) is Some && profile_at(j) is Some && texts_at(j, "features"@) is Some && texts_at(
        j,
        "filenames"@,
    ) is Some && opt_text_at(j, "executable"@) is Some && flag_at(j, "fresh"@) is Some {
        Some(
            ArtifactView {
                package_id: text_at(j, "package_id"@)->Some_0,
                manifest_path: opt_text_at(j, "manifest_path"@)->Some_0,
                target: target_at(j)->Some_0,
                profile: profile_at(j)->Some_0,
                features: texts_at(j, "features"@)->Some_0,
                filenames: texts_at(j, "filenames"@)->Some_0,
                executable: opt_text_at(j, "executable"@)->Some_0,
                fresh: flag_at(j, "fresh"@)->Some_0,
            },
        )
    } else {
        None
    }
}

/// The message of the compiler that a JSON value stands for.
pub open spec fn decode_from_compiler(j: JsonView) -> Option<FromCompilerView> {
    if text_at(j, "package_id"@) is Some && opt_text_at(j, "manifest_path"@) is Some && target_at(
        j,
    ) is Some && diagnostic_at(j) is Some {
        Some(
            FromCompilerView {
                package_id: text_at(j, "package_id"@)->Some_0,
                manifest_path: opt_text_at(j, "manifest_path"@)->Some_0,
                target: target_at(j)->Some_0,
                message: diagnostic_at(j)->Some_0,
            },
        )
    } else {
        None
    }
}

/// Whether a JSON value is a pair of strings: an array of two strings.
pub open spec fn is_pair(v: JsonView) -> bool {
    v is Array && v->Array_0.len() == 2 && v->Array_0[0] is Str && v->Array_0[1] is Str
}

/// The pairs of an array of pairs of strings; `None` for every other value.
pub open spec fn pairs_of(v: JsonView) -> Option<Seq<(Seq<char>, Seq<char>)>> {
    match v {
        JsonView::Array(items) => if forall|i: int| 0 <= i < items.len() ==> is_pair(items[i]) {
            Some(
                Seq::new(
                    items.len(),
                    |i: int| (items[i]->Array_0[0]->Str_0, items[i]->Array_0[1]->Str_0),
                ),
            )
        } else {
            None
        },
        _ => None,
    }
}

/// The pairs of the member `env`, which must be there.
pub open spec fn env_at(j: JsonView) -> Option<Seq<(Seq<char>, Seq<char>)>> {
    match j.member("env"@) {
        Some(v) => pairs_of(v),
        None => None,
    }
}

/// The output of a build script that a JSON value stands for.
pub open spec fn decode_build_script(j: JsonView) -> Option<BuildScriptView> {
    if text_at(j, "package_id"@) is Some && opt_text_at(j, "out_dir"@) is Some && texts_at(
        j,
        "linked_libs"@,
    ) is Some && texts_at(j, "linked_paths"@) is Some && texts_at(j, "cfgs"@) is Some && env_at(
        j,
    ) is Some {
        Some(
            BuildScriptView {
                package_id: text_at(j, "package_id"@)->Some_0,
                out_dir: opt_text_at(j, "out_dir"@)->Some_0,
                linked_libs: texts_at(j, "linked_libs"@)->Some_0,
                linked_paths: texts_at(j, "linked_paths"@)->Some_0,
                cfgs: texts_at(j, "cfgs"@)->Some_0,
                env: env_at(j)->Some_0,
            },
        )
    } else {
        None
    }
}

/// The message that a JSON value stands for. The string member `reason`
/// selects the variant; a reason that names none of them stands for
/// `Unknown`. A value without a string `reason`, or without a member that the
/// variant requires, stands for no message.
pub open spec fn decode_message(j: JsonView) -> Option<MessageView> {
    match text_at(j, "reason"@) {
        None => None,
        Some(reason) => if reason == "build-finished"@ {
            match flag_at(j, "success"@) {
                Some(success) => Some(MessageView::BuildFinished(success)),
                None => None,
            }
        } else if reason == "compiler-artifact"@ {
            match decode_artifact(j) {
                Some(a) => Some(MessageView::CompilerArtifact(a)),
                None => None,
            }
        } else if reason == "compiler-message"@ {
            match decode_from_compiler(j) {
                Some(m) => Some(MessageView::CompilerMessage(m)),
                None => None,
            }
        } else if reason == "build-script-executed"@ {
            match decode_build_script(j) {
                Some(s) => Some(MessageView::BuildScriptExecuted(s)),
                None => None,
            }
        } else {
            Some(MessageView::Unknown)
        },
    }
}

/// The member that keeps a JSON value from being a target: the first one, in
/// the order of the fields, that is missing or holds the wrong kind of value.
pub open spec fn target_fault(j: JsonView) -> Seq<char> {
    if text_at(j, "name"@) is None {
        "name"@
    } else if texts_at(j, "kind"@) is None {
        "kind"@
    } else if texts_or_empty_at(j, "crate_types"@) is None {
        "crate_types"@
    } else if opt_flag_at(j, "doctest"@) is None {
        "doctest"@
    } else if opt_flag_at(j, "doc"@) is None {
        "doc"@
    } else if flag_or_false_at(j, "test"@) is None {
        "test"@
    } else if texts_or_empty_at(j, "required-features"@) is None {
        "required-features"@
    } else if text_at(j, "src_path"@) is None {
        "src_path"@
    } else {
        "edition"@
    }
}

/// The member that keeps a JSON value from being a profile: the first one, in
/// the order of the fields, that is missing or holds the wrong kind of value.
pub open spec fn profile_fault(j: JsonView) -> Seq<char> {
    if text_at(j, "opt_level"@) is None {
        "opt_level"@
    } else if opt_u32_at(j, "debuginfo"@) is None {
        "debuginfo"@
    } else if flag_at(j, "debug_assertions"@) is None {
        "debug_assertions"@
    } else if flag_at(j, "overflow_checks"@) is None {
        "overflow_checks"@
    } else {
        "test"@
    }
}

/// The member at fault where the member `target` is no target: `target`
/// itself where it is missing, the member at fault inside it otherwise.
pub open spec fn target_member_fault(j: JsonView) -> Seq<char> {
    match j.member("target"@) {
        Some(v) => target_fault(v),
        None => "target"@,
    }
}

/// The member at fault where the member `profile` is no profile.
pub open spec fn profile_member_fault(j: JsonView) -> Seq<char> {
    match j.member("profile"@) {
        Some(v) => profile_fault(v),
        None => "profile"@,
    }
}

/// The member at fault where the member `message` is no diagnostic.
pub open spec fn diagnostic_member_fault(j: JsonView) -> Seq<char> {
    match j.member("message"@) {
        Some(v) => diagnostic_fault(v),
        None => "message"@,
    }
}

/// The member that keeps a JSON value from being an artifact: the first one, in
/// the order of the fields, that is missing or holds the wrong kind of value.
pub open spec fn artifact_fault(j: JsonView) -> Seq<char> {
    if text_at(j, "package_id"@) is None {
        "package_id"@
    } else if opt_text_at(j, "manifest_path"@) is None {
        "manifest_path"@
    } else if target_at(j) is None {
        target_member_fault(j)
    } else if profile_at(j) is None {
        profile_member_fault(j)
    } else if texts_at(j, "features"@) is None {
        "features"@
    } else if texts_at(j, "filenames"@) is None {
        "filenames"@
    } else if opt_text_at(j, "executable"@) is None {
        "executable"@
    } else {
        "fresh"@
    }
}

/// The member that keeps a JSON value from being a message of the compiler: the first one, in
/// the order of the fields, that is missing or holds the wrong kind of value.
pub open spec fn from_compiler_fault(j: JsonView) -> Seq<char> {
    if text_at(j, "package_id"@) is None {
        "package_id"@
    } else if opt_text_at(j, "manifest_path"@) is None {
        "manifest_path"@
    } else if target_at(j) is None {
        target_member_fault(j)
    } else {
        diagnostic_member_fault(j)
    }
}

/// The member that keeps a JSON value from being the output of a build script: the first one, in
/// the order of the fields, that is missing or holds the wrong kind of value.
pub open spec fn build_script_fault(j: JsonView) -> Seq<char> {
    if text_at(j, "package_id"@) is None {
        "package_id"@
    } else if opt_text_at(j, "out_dir"@) is None {
        "out_dir"@
    } else if texts_at(j, "linked_libs"@) is None {
        "linked_libs"@
    } else if texts_at(j, "linked_paths"@) is None {
        "linked_paths"@
    } else if texts_at(j, "cfgs"@) is None {
        "cfgs"@
    } else {
        "env"@
    }
}

/// The member that keeps a JSON value from being a message: `reason` where
/// that is missing or no string, and otherwise the first member of the
/// variant, in the order of its fields, that is missing or holds the wrong
/// kind of value.
pub open spec fn message_fault(j: JsonView) -> Seq<char> {
    match text_at(j, "reason"@) {
        None => "reason"@,
        Some(reason) => if reason == "build-finished"@ {
            "success"@
        } else if reason == "compiler-artifact"@ {
            artifact_fault(j)
        } else if reason == "compiler-message"@ {
            from_compiler_fault(j)
        } else {
            build_script_fault(j)
        },
    }
}

impl Target {
    /// Decodes a target.
    pub fn from_json(j: &Json) -> (r: Result<Target, CargoError>)
        ensures
            match decode_target(j@) {
                Some(t) => r is Ok && r->Ok_0.deep_view() == t,
                None => r is Err && r->Err_0@ == field_failure(target_fault(j@)),
            },
    {
        let name = text_field(j, "name")?;
        let kind = texts_field(j, "kind")?;
        let crate_types = texts_or_empty_field(j, "crate_types")?;
        let doctest = opt_flag_field(j, "doctest")?;
        let doc = opt_flag_field(j, "doc")?;
        let test = flag_or_false_field(j, "test")?;
        let required_features = texts_or_empty_field(j, "required-features")?;
        let src_path = text_field(j, "src_path")?;
        let edition = text_or_field(j, "edition", "2015")?;
        Ok(
            Target {
                name,
                kind,
                crate_types,
                doctest,
                doc,
                test,
                required_features,
                src_path,
                edition,
            },
        )
    }
}

impl ArtifactProfile {
    /// Decodes a profile.
    pub fn from_json(j: &Json) -> (r: Result<ArtifactProfile, CargoError>)
        ensures
            match decode_profile(j@) {
                Some(p) => r is Ok && r->Ok_0.deep_view() == p,
                None => r is Err && r->Err_0@ == field_failure(profile_fault(j@)),
            },
    {
        let opt_level = text_field(j, "opt_level")?;
        let debuginfo = opt_u32_field(j, "debuginfo")?;
        let debug_assertions = flag_field(j, "debug_assertions")?;
        let overflow_checks = flag_field(j, "overflow_checks")?;
        let test = flag_field(j, "test")?;
        Ok(ArtifactProfile { opt_level, debuginfo, debug_assertions, overflow_checks, test })
    }
}

/// Reads the member `target`.
fn target_field(j: &Json) -> (r: Result<Target, CargoError>)
    ensures
        match target_at(j@) {
            Some(t) => r is Ok && r->Ok_0.deep_view() == t,
            None => r is Err && r->Err_0@ == field_failure(target_member_fault(j@)),
        },
{
    match j.get("target") {
        Some(v) => Target::from_json(v),
        None => Err(bad_field("target")),
    }
}

impl Artifact {
    /// Decodes an artifact.
    pub fn from_json(j: &Json) -> (r: Result<Artifact, CargoError>)
        ensures
            match decode_artifact(j@) {
                Some(a) => r is Ok && r->Ok_0.deep_view() == a,
                None => r is Err && r->Err_0@ == field_failure(artifact_fault(j@)),
            },
    {
        let package_id = WorkspaceMember::new(text_field(j, "package_id")?);
        let manifest_path = opt_text_field(j, "manifest_path")?;
        let target = target_field(j)?;
        let profile = match j.get("profile") {
            Some(v) => ArtifactProfile::from_json(v)?,
            None => {
                return Err(bad_field("profile"));
            },
        };
        let features = texts_field(j, "features")?;
        let filenames = texts_field(j, "filenames")?;
        let executable = opt_text_field(j, "executable")?;
        let fresh = flag_field(j, "fresh")?;
        Ok(
            Artifact {
                package_id,
                manifest_path,
                target,
                profile,
                features,
                filenames,
                executable,
                fresh,
            },
        )
    }
}

impl FromCompiler {
    /// Decodes a message of the compiler.
    pub fn from_json(j: &Json) -> (r: Result<FromCompiler, CargoError>)
        ensures
            match decode_from_compiler(j@) {
                Some(m) => r is Ok && r->Ok_0.deep_view() == m,
                None => r is Err && r->Err_0@ == field_failure(from_compiler_fault(j@)),
            },
    {
        let package_id = WorkspaceMember::new(text_field(j, "package_id")?);
        let manifest_path = opt_text_field(j, "manifest_path")?;
        let target = target_field(j)?;
        let message = match j.get("message") {
            Some(v) => Diagnostic::from_json(v)?,
            None => {
                return Err(bad_field("message"));
            },
        };
        Ok(FromCompiler { package_id, manifest_path, target, message })
    }
}

/// Reads an array of pairs of strings.
fn read_pairs(v: &Json, key: &str) -> (r: Result<Vec<(String, String)>, CargoError>)
    ensures
        match pairs_of(v@) {
            Some(p) => r is Ok && r->Ok_0.deep_view() == p,
            None => r is Err && r->Err_0@ == field_failure(key@),
        },
{
    match v {
        Json::Array(items) => {
            proof {
                lemma_array_view(*v);
            }
            let mut pairs: Vec<(String, String)> = Vec::new();
            let mut i: usize = 0;
            while i < items.len()
                invariant
                    i <= items@.len(),
                    v@ is Array,
                    v@->Array_0.len() == items@.len(),
                    forall|k: int|
                        0 <= k < items@.len() ==> (#[trigger] v@->Array_0[k]) == items@[k]@,
                    pairs@.len() == i,
                    forall|k: int| 0 <= k < i ==> is_pair(#[trigger] v@->Array_0[k]),
                    forall|k: int|
                        0 <= k < i ==> (#[trigger] pairs@[k]).0@ == v@->Array_0[k]->Array_0[0]->Str_0
                            && pairs@[k].1@ == v@->Array_0[k]->Array_0[1]->Str_0,
                decreases items@.len() - i,
            {
                let ghost item = v@->Array_0[i as int];
                let pair = match &items[i] {
                    Json::Array(parts) => {
                        proof {
                            lemma_array_view(items@[i as int]);
                        }
                        if parts.len() != 2 {
                            proof {
                                assert(!is_pair(item));
                            }
                            return Err(bad_field(key));
                        }
                        match (parts[0].as_str(), parts[1].as_str()) {
                            (Some(name), Some(value)) => (name.to_owned(), value.to_owned()),
                            _ => {
                                proof {
                                    assert(!is_pair(item));
                                }
                                return Err(bad_field(key));
                            },
                        }
                    },
                    _ => {
                        proof {
                            assert(!is_pair(item));
                        }
                        return Err(bad_field(key));
                    },
                };
                pairs.push(pair);
                i += 1;
            }
            proof {
                assert(pairs.deep_view() =~= pairs_of(v@)->Some_0);
            }
            Ok(pairs)
        },
        _ => Err(bad_field(key)),
    }
}

impl BuildScript {
    /// Decodes the output of a build script.
    pub fn from_json(j: &Json) -> (r: Result<BuildScript, CargoError>)
        ensures
            match decode_build_script(j@) {
                Some(s) => r is Ok && r->Ok_0.deep_view() == s,
                None => r is Err && r->Err_0@ == field_failure(build_script_fault(j@)),
            },
    {
        let package_id = WorkspaceMember::new(text_field(j, "package_id")?);
        let out_dir = opt_text_field(j, "out_dir")?;
        let linked_libs = texts_field(j, "linked_libs")?;
        let linked_paths = texts_field(j, "linked_paths")?;
        let cfgs = texts_field(j, "cfgs")?;
        let env = match j.get("env") {
            Some(v) => read_pairs(v, "env")?,
            None => {
                return Err(bad_field("env"));
            },
        };
        Ok(BuildScript { package_id, out_dir, linked_libs, linked_paths, cfgs, env })
    }
}

impl Message {
    /// Decodes a message: the member `reason` selects the variant, and the
    /// other members of the same object are the variant's fields. A reason
    /// that names no variant gives `Unknown`.
    pub fn from_json(j: &Json) -> (r: Result<Message, CargoError>)
        ensures
            match decode_message(j@) {
                Some(m) => r is Ok && r->Ok_0.deep_view() == m,
                None => r is Err && r->Err_0@ == field_failure(message_fault(j@)),
            },
    {
        let reason = text_field(j, "reason")?;
        if same_text(reason.as_str(), "build-finished") {
            let success = flag_field(j, "success")?;
            Ok(Message::BuildFinished(BuildFinished::new(success)))
        } else if same_text(reason.as_str(), "compiler-artifact") {
            Ok(Message::CompilerArtifact(Artifact::from_json(j)?))
        } else if same_text(reason.as_str(), "compiler-message") {
            Ok(Message::CompilerMessage(FromCompiler::from_json(j)?))
        } else if same_text(reason.as_str(), "build-script-executed") {
            Ok(Message::BuildScriptExecuted(BuildScript::from_json(j)?))
        } else {
            Ok(Message::Unknown)
        }
    }
}

/// Whether a message holds a catch-all: it is `Unknown`, or it is a
/// diagnostic of a level that this library does not know.
pub open spec fn holds_unknown(m: MessageView) -> bool {
    match m {
        MessageView::Unknown => true,
        MessageView::CompilerMessage(c) => c.message.level == DiagnosticLevel::Unknown,
        _ => false,
    }
}

/// The message that a JSON value stands for in the strict reading, which
/// has no catch-all: a reason that names no variant, or a level that names
/// none, stands for no message. Everything else is read as `decode_message`
/// reads it.
pub open spec fn decode_message_strict(j: JsonView) -> Option<MessageView> {
    match decode_message(j) {
        Some(m) => if holds_unknown(m) {
            None
        } else {
            Some(m)
        },
        None => None,
    }
}

/// The member that keeps a JSON value from being a message in the strict
/// reading: the one that keeps it from being a message at all, or `reason`
/// or `level` where that names nothing known.
pub open spec fn strict_fault(j: JsonView) -> Seq<char> {
    match decode_message(j) {
        None => message_fault(j),
        Some(MessageView::Unknown) => "reason"@,
        Some(_) => "level"@,
    }
}

impl Message {
    /// Decodes a message in the strict reading: as `from_json` does, but a
    /// reason or a level that names nothing known is a failure.
    pub fn from_json_strict(j: &Json) -> (r: Result<Message, CargoError>)
        ensures
            match decode_message_strict(j@) {
                Some(m) => r is Ok && r->Ok_0.deep_view() == m,
                None => r is Err && r->Err_0@ == field_failure(strict_fault(j@)),
            },
    {
        let msg = Message::from_json(j)?;
        let unknown = match &msg {
            Message::Unknown => Some("reason"),
            Message::CompilerMessage(comp) => match comp.message.level {
                DiagnosticLevel::Unknown => Some("level"),
                _ => None,
            },
            _ => None,
        };
        match unknown {
            Some(key) => Err(bad_field(key)),
            None => Ok(msg),
        }
    }
}

/// How loudly a message is to be reported.
#[derive(Debug, Copy, Clone, PartialEq, Eq, Structural)]
pub enum LogLevel {
    /// Something failed.
    Error,
    /// Something is doubtful.
    Warn,
    /// Something worth telling.
    Info,
    /// The steps of the build.
    Trace,
}

/// The words of a report. Where they hold the debug form of a value, the
/// one who writes the report writes that form.
#[derive(Debug, Clone, PartialEq, Eq)]
pub enum LogText {
    /// These words, as they stand.
    Plain(String),
    /// These words, then the workspace member in its pretty debug form.
    Member(String, WorkspaceMember),
    /// These words, then the whole message in its pretty debug form.
    Whole(String),
}

/// What the words of a report hold.
pub enum LogTextView {
    Plain(Seq<char>),
    Member(Seq<char>, Seq<char>),
    Whole(Seq<char>),
}

impl DeepView for LogText {
    type V = LogTextView;

    open spec fn deep_view(&self) -> LogTextView {
        match self {
            LogText::Plain(words) => LogTextView::Plain(words@),
            LogText::Member(lead, member) => LogTextView::Member(lead@, member.deep_view()),
            LogText::Whole(lead) => LogTextView::Whole(lead@),
        }
    }
}

/// What is to be reported of a message: how loudly, and in which words.
#[derive(Debug, Clone, PartialEq, Eq)]
pub struct LogRecord {
    /// How loudly.
    pub level: LogLevel,
    /// In which words.
    pub text: LogText,
}

/// What the compiler would show of a diagnostic: the rendered message where
/// there is one, the bare message otherwise.
pub open spec fn shown(d: DiagnosticView) -> Seq<char> {
    match d.rendered {
        Some(rendered) => rendered,
        None => d.message,
    }
}

/// How loudly a message is to be reported: the compiler's errors as errors,
/// its warnings as warnings, its notes and hints as information, the steps
/// of the build as traces, and whatever is unknown as a warning.
pub open spec fn log_level(m: MessageView) -> LogLevel {
    match m {
        MessageView::BuildFinished(_) => LogLevel::Trace,
        MessageView::CompilerArtifact(_) => LogLevel::Trace,
        MessageView::CompilerMessage(c) => match c.message.level {
            DiagnosticLevel::Ice => LogLevel::Error,
            DiagnosticLevel::Error => LogLevel::Error,
            DiagnosticLevel::Warning => LogLevel::Warn,
            DiagnosticLevel::Note => LogLevel::Info,
            DiagnosticLevel::Help => LogLevel::Info,
            DiagnosticLevel::Unknown => LogLevel::Warn,
        },
        MessageView::BuildScriptExecuted(_) => LogLevel::Trace,
        MessageView::Unknown => LogLevel::Warn,
    }
}

/// The words in which a message is to be reported: the end of a build with
/// its outcome, an artifact and a build script with the debug form of their
/// workspace member, a diagnostic of a known level as the compiler would show
/// it, and whatever is unknown with the debug form of the whole message.
pub open spec fn log_text(m: MessageView) -> LogTextView {
    match m {
        MessageView::BuildFinished(success) => LogTextView::Plain(
            "Build Finished: "@ + (if success {
                "true"@
            } else {
                "false"@
            }),
        ),
        MessageView::CompilerArtifact(a) => LogTextView::Member("Building "@, a.package_id),
        MessageView::CompilerMessage(c) => match c.message.level {
            DiagnosticLevel::Unknown => LogTextView::Whole("Unknown message: "@),
            _ => LogTextView::Plain(shown(c.message)),
        },
        MessageView::BuildScriptExecuted(s) => LogTextView::Member(
            "Ran script from "@,
            s.package_id,
        ),
        MessageView::Unknown => LogTextView::Whole("Unknown message: "@),
    }
}

/// What is to be reported of a message as it passes.
pub fn log_message(msg: &Message) -> (record: LogRecord)
    ensures
        record.level == log_level(msg.deep_view()),
        record.text.deep_view() == log_text(msg.deep_view()),
{
    match msg {
        Message::BuildFinished(finished) => {
            let outcome = if finished.success() {
                "true"
            } else {
                "false"
            };
            LogRecord {
                level: LogLevel::Trace,
                text: LogText::Plain(String::from_str("Build Finished: ").concat(outcome)),
            }
        },
        Message::CompilerArtifact(art) => LogRecord {
            level: LogLevel::Trace,
            text: LogText::Member(
                String::from_str("Building "),
                WorkspaceMember::new(art.package_id.raw().to_owned()),
            ),
        },
        Message::CompilerMessage(comp) => {
            let content: &str = match &comp.message.rendered {
                Some(rendered) => rendered.as_str(),
                None => comp.message.message.as_str(),
            };
            match comp.message.level {
                DiagnosticLevel::Ice => LogRecord {
                    level: LogLevel::Error,
                    text: LogText::Plain(content.to_owned()),
                },
                DiagnosticLevel::Error => LogRecord {
                    level: LogLevel::Error,
                    text: LogText::Plain(content.to_owned()),
                },
                DiagnosticLevel::Warning => LogRecord {
                    level: LogLevel::Warn,
                    text: LogText::Plain(content.to_owned()),
                },
                DiagnosticLevel::Note => LogRecord {
                    level: LogLevel::Info,
                    text: LogText::Plain(content.to_owned()),
                },
                DiagnosticLevel::Help => LogRecord {
                    level: LogLevel::Info,
                    text: LogText::Plain(content.to_owned()),
                },
                DiagnosticLevel::Unknown => LogRecord {
                    level: LogLevel::Warn,
                    text: LogText::Whole(String::from_str("Unknown message: ")),
                },
            }
        },
        Message::BuildScriptExecuted(script) => LogRecord {
            level: LogLevel::Trace,
            text: LogText::Member(
                String::from_str("Ran script from "),
                WorkspaceMember::new(script.package_id.raw().to_owned()),
            ),
        },
        Message::Unknown => LogRecord {
            level: LogLevel::Warn,
            text: LogText::Whole(String::from_str("Unknown message: ")),
        },
    }
}

} // verus!
