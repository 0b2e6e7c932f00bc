//! The diagnostics that the compiler sends through cargo.

use vstd::prelude::*;
use vstd::string::*;
use crate::error::CargoError;
use crate::format::field::{
    field_failure, get_present, opt_text_at, opt_text_field, present, same_text, text_at,
    text_field,
};
use crate::json::{Json, JsonView};

verus! {

/// How severe a diagnostic is.
#[derive(Debug, Copy, Clone, PartialEq, Eq, Structural)]
pub enum DiagnosticLevel {
    /// Internal compiler error
    Ice,
    /// Error
    Error,
    /// Warning
    Warning,
    /// Note
    Note,
    /// Help
    Help,
    /// A level that this library does not know.
    Unknown,
}

/// The level that a word names; a word that names no known level stands for
/// `Unknown`.
pub open spec fn level_of(word: Seq<char>) -> DiagnosticLevel {
    if word == "error: internal compiler error"@ {
        DiagnosticLevel::Ice
    } else if word == "error"@ {
        DiagnosticLevel::Error
    } else if word == "warning"@ {
        DiagnosticLevel::Warning
    } else if word == "note"@ {
        DiagnosticLevel::Note
    } else if word == "help"@ {
        DiagnosticLevel::Help
    } else {
        DiagnosticLevel::Unknown
    }
}

impl DiagnosticLevel {
    /// The level that `word` names.
    pub fn from_word(word: &str) -> (level: DiagnosticLevel)
        ensures
            level == level_of(word@),
    {
        if same_text(word, "error: internal compiler error") {
            DiagnosticLevel::Ice
        } else if same_text(word, "error") {
            DiagnosticLevel::Error
        } else if same_text(word, "warning") {
            DiagnosticLevel::Warning
        } else if same_text(word, "note") {
            DiagnosticLevel::Note
        } else if same_text(word, "help") {
            DiagnosticLevel::Help
        } else {
            DiagnosticLevel::Unknown
        }
    }
}

/// The code of a diagnostic.
#[derive(Debug, Clone, PartialEq, Eq)]
#[non_exhaustive]
pub struct DiagnosticCode {
    /// The code itself.
    pub code: String,
    /// An explanation for the code.
    pub explanation: Option<String>,
}

/// What a diagnostic code holds.
pub struct DiagnosticCodeView {
    pub code: Seq<char>,
    pub explanation: Option<Seq<char>>,
}

impl DeepView for DiagnosticCode {
    type V = DiagnosticCodeView;

    open spec fn deep_view(&self) -> DiagnosticCodeView {
        DiagnosticCodeView {
            code: self.code.deep_view(),
            explanation: self.explanation.deep_view(),
        }
    }
}

/// A diagnostic message generated by the compiler.
#[derive(Debug, Clone, PartialEq, Eq)]
#[non_exhaustive]
pub struct Diagnostic {
    /// The error message of this diagnostic.
    pub message: String,
    /// The associated error code for this diagnostic.
    pub code: Option<DiagnosticCode>,
    /// The severity of the diagnostic.
    pub level: DiagnosticLevel,
    /// The message as the compiler would render it.
    pub rendered: Option<String>,
}

/// What a diagnostic holds.
pub struct DiagnosticView {
    pub message: Seq<char>,
    pub code: Option<DiagnosticCodeView>,
    pub level: DiagnosticLevel,
    pub rendered: Option<Seq<char>>,
}

impl DeepView for Diagnostic {
    type V = DiagnosticView;

    open spec fn deep_view(&self) -> DiagnosticView {
        DiagnosticView {
            message: self.message.deep_view(),
            code: self.code.deep_view(),
            level: self.level,
            rendered: self.rendered.deep_view(),
        }
    }
}

/// The diagnostic code that a JSON value stands for: an object with a string
/// `code` and, where it has one, a string `explanation`.
pub open spec fn decode_code(j: JsonView) -> Option<DiagnosticCodeView> {
    if text_at(j, "code"@) is Some && opt_text_at(j, "explanation"@) is Some {
        Some(
            DiagnosticCodeView {
                code: text_at(j, "code"@)->Some_0,
                explanation: opt_text_at(j, "explanation"@)->Some_0,
            },
        )
    } else {
        None
    }
}

/// The diagnostic code of the member `code`, which may be missing or `null`.
pub open spec fn opt_code_at(j: JsonView) -> Option<Option<DiagnosticCodeView>> {
    match present(j, "code"@) {
        Some(v) => match decode_code(v) {
            Some(c) => Some(Some(c)),
            None => None,
        },
        None => Some(None),
    }
}

/// The diagnostic that a JSON value stands for: an object with a string
/// `message`, a string `level`, and, where it has them, a `code` and a string
/// `rendered`.
pub open spec fn decode_diagnostic(j: JsonView) -> Option<DiagnosticView> {
    if text_at(j, "message"@) is Some && opt_code_at(j) is Some && text_at(j, "level"@) is Some
        && opt_text_at(j, "rendered"@) is Some {
        Some(
            DiagnosticView {
                message: text_at(j, "message"@)->Some_0,
                code: opt_code_at(j)->Some_0,
                level: level_of(text_at(j, "level"@)->Some_0),
                rendered: opt_text_at(j, "rendered"@)->Some_0,
            },
        )
    } else {
        None
    }
}

/// The member that keeps a JSON value from being a diagnostic code: the first
/// one, in the order of the fields, that is missing or holds the wrong kind
/// of value.
pub open spec fn code_fault(j: JsonView) -> Seq<char> {
    if text_at(j, "code"@) is None {
        "code"@
    } else {
        "explanation"@
    }
}

/// The member that keeps a JSON value from being a diagnostic: the first one,
/// in the order of the fields, that is missing or holds the wrong kind of
/// value.
pub open spec fn diagnostic_fault(j: JsonView) -> Seq<char> {
    if text_at(j, "message"@) is None {
        "message"@
    } else if opt_code_at(j) is None {
        code_fault(present(j, "code"@)->Some_0)
    } else if text_at(j, "level"@) is None {
        "level"@
    } else {
        "rendered"@
    }
}

impl DiagnosticCode {
    /// Decodes a diagnostic code.
    pub fn from_json(j: &Json) -> (r: Result<DiagnosticCode, CargoError>)
        ensures
            match decode_code(j@) {
                Some(c) => r is Ok && r->Ok_0.deep_view() == c,
                None => r is Err && r->Err_0@ == field_failure(code_fault(j@)),
            },
    {
        let code = text_field(j, "code")?;
        let explanation = opt_text_field(j, "explanation")?;
        Ok(DiagnosticCode { code, explanation })
    }
}

impl Diagnostic {
    /// Decodes a diagnostic.
    pub fn from_json(j: &Json) -> (r: Result<Diagnostic, CargoError>)
        ensures
            match decode_diagnostic(j@) {
                Some(d) => r is Ok && r->Ok_0.deep_view() == d,
                None => r is Err && r->Err_0@ == field_failure(diagnostic_fault(j@)),
            },
    {
        let message = text_field(j, "message")?;
        let code = match get_present(j, "code") {
            Some(v) => Some(DiagnosticCode::from_json(v)?),
            None => None,
        };
        let level_word = text_field(j, "level")?;
        let level = DiagnosticLevel::from_word(level_word.as_str());
        let rendered = opt_text_field(j, "rendered")?;
        Ok(Diagnostic { message, code, level, rendered })
    }
}

} // verus!
