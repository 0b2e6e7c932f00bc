//! Error reporting API.

use vstd::prelude::*;
use vstd::string::*;

verus! {

/// For programmatically processing failures.
#[derive(Debug, Copy, Clone, PartialEq, Eq, Structural)]
pub enum ErrorKind {
    /// Spawning the cargo subcommand failed.
    InvalidCommand,
    /// The cargo subcommand returned an error.
    CommandFailed,
    /// Parsing the cargo subcommand's output failed.
    InvalidOutput,
}

/// The summary sentence of each kind of failure.
pub open spec fn kind_text(kind: ErrorKind) -> Seq<char> {
    match kind {
        ErrorKind::InvalidCommand => "Spawning the cargo subommand failed."@,
        ErrorKind::CommandFailed => "The cargo subcommand returned an error."@,
        ErrorKind::InvalidOutput => "Parsing the cargo subcommand's output failed."@,
    }
}

impl ErrorKind {
    /// The summary sentence of this kind of failure.
    pub fn describe(&self) -> (text: &'static str)
        ensures
            text@ == kind_text(*self),
    {
        match self {
            ErrorKind::InvalidCommand => "Spawning the cargo subommand failed.",
            ErrorKind::CommandFailed => "The cargo subcommand returned an error.",
            ErrorKind::InvalidOutput => "Parsing the cargo subcommand's output failed.",
        }
    }
}

/// Cargo command failure information.
#[derive(Debug)]
pub struct CargoError {
    kind: ErrorKind,
    context: Option<String>,
    cause: Option<String>,
}

/// What a failure holds: its kind, the context it was given, and the text of
/// the underlying error that caused it.
pub struct CargoErrorView {
    pub kind: ErrorKind,
    pub context: Option<Seq<char>>,
    pub cause: Option<Seq<char>>,
}

/// The view of an optional string.
pub open spec fn opt_text(s: Option<String>) -> Option<Seq<char>> {
    match s {
        Some(t) => Some(t@),
        None => None,
    }
}

/// The text that opens the rendering of every failure.
pub open spec fn failure_prefix() -> Seq<char> {
    "Cargo command failed: "@
}

/// The text that introduces the underlying error in a rendered failure.
pub open spec fn cause_prefix() -> Seq<char> {
    "Cause: "@
}

/// The line break that ends each line of a rendered failure.
pub open spec fn line_end() -> Seq<char> {
    "\n"@
}

/// The rendering of a failure: a summary line naming the kind, then the
/// context on a line of its own if there is one, then the cause if there is
/// one.
pub open spec fn render_error(e: CargoErrorView) -> Seq<char> {
    let summary = failure_prefix() + kind_text(e.kind) + line_end();
    let context = match e.context {
        Some(c) => c + line_end(),
        None => Seq::<char>::empty(),
    };
    let cause = match e.cause {
        Some(c) => cause_prefix() + c + line_end(),
        None => Seq::<char>::empty(),
    };
    summary + context + cause
}

impl View for CargoError {
    type V = CargoErrorView;

    closed spec fn view(&self) -> CargoErrorView {
        CargoErrorView {
            kind: self.kind,
            context: opt_text(self.context),
            cause: opt_text(self.cause),
        }
    }
}

impl CargoError {
    /// A failure of the given kind, without context and without cause.
    pub fn new(kind: ErrorKind) -> (e: Self)
        ensures
            e@ == (CargoErrorView { kind, context: None, cause: None }),
    {
        Self { kind, context: None, cause: None }
    }

    /// The same failure with `context` as its context.
    pub fn set_context(self, context: String) -> (e: Self)
        ensures
            e@ == (CargoErrorView { context: Some(context@), ..self@ }),
    {
        let mut e = self;
        e.context = Some(context);
        e
    }

    /// The same failure with `cause`, the text of the underlying error, as
    /// its cause.
    pub fn set_cause(self, cause: String) -> (e: Self)
        ensures
            e@ == (CargoErrorView { cause: Some(cause@), ..self@ }),
    {
        let mut e = self;
        e.cause = Some(cause);
        e
    }

    /// A copy of this failure.
    pub fn duplicate(&self) -> (e: Self)
        ensures
            e@ == self@,
    {
        Self { kind: self.kind, context: self.context.clone(), cause: self.cause.clone() }
    }

    /// For programmatically processing failures.
    pub fn kind(&self) -> (k: ErrorKind)
        ensures
            k == self@.kind,
    {
        self.kind
    }

    /// The context this failure carries, if any.
    pub fn context(&self) -> (c: Option<&str>)
        ensures
            c is Some <==> self@.context is Some,
            c is Some ==> c->Some_0@ == self@.context->Some_0,
    {
        match &self.context {
            Some(s) => Some(s.as_str()),
            None => None,
        }
    }

    /// The text of the underlying error, if any.
    pub fn cause(&self) -> (c: Option<&str>)
        ensures
            c is Some <==> self@.cause is Some,
            c is Some ==> c->Some_0@ == self@.cause->Some_0,
    {
        match &self.cause {
            Some(s) => Some(s.as_str()),
            None => None,
        }
    }

    /// Renders the failure as human-readable text of several lines.
    pub fn render(&self) -> (text: String)
        ensures
            text@ == render_error(self@),
    {
        let mut text = String::from_str("Cargo command failed: ");
        text.append(self.kind.describe());
        text.append("\n");
        if let Some(context) = &self.context {
            text.append(context.as_str());
            text.append("\n");
        }
        if let Some(cause) = &self.cause {
            text.append("Cause: ");
            text.append(cause.as_str());
            text.append("\n");
        }
        text
    }
}

} // verus!
