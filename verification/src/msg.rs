//! The messages that a cargo sub-command streams, and the decisions of the
//! stream that reads them from the running process.

use vstd::prelude::*;
use vstd::string::*;
use crate::error::{CargoError, CargoErrorView, ErrorKind};
use crate::format::field::field_failure;
use crate::format::{
    decode_message, decode_message_strict, message_fault, strict_fault, MessageView,
};
use crate::json::{parse_failure, text_json, Json};

verus! {

/// An individual message from a cargo sub-command: one line of its output.
#[derive(Debug, Clone, PartialEq, Eq)]
pub struct Message(String);

impl View for Message {
    type V = Seq<char>;

    closed spec fn view(&self) -> Seq<char> {
        self.0@
    }
}

/// The message that a line of output stands for: what the schema makes of
/// the JSON value that the line holds. `None` where the line holds no JSON
/// value, or one that is no message.
pub open spec fn decode_text(text: Seq<char>) -> Option<MessageView> {
    match text_json(text) {
        Some(j) => decode_message(j),
        None => None,
    }
}

/// The failure to decode a line as a message: for a line that holds no
/// JSON value, the failure to parse it, with the parser's words as the
/// cause; for a JSON value that is no message, the failure that names the
/// member at fault.
pub open spec fn decode_error(text: Seq<char>) -> CargoErrorView {
    match text_json(text) {
        None => parse_failure(text),
        Some(j) => field_failure(message_fault(j)),
    }
}

/// The failure to decode a line as an event of the test runner.
pub open spec fn decode_event_error(text: Seq<char>) -> CargoErrorView {
    match text_json(text) {
        None => parse_failure(text),
        Some(j) => field_failure(crate::format::test::event_fault(j)),
    }
}

/// The message that a line of output stands for in the strict reading.
pub open spec fn decode_text_strict(text: Seq<char>) -> Option<MessageView> {
    match text_json(text) {
        Some(j) => decode_message_strict(j),
        None => None,
    }
}

/// The failure to decode a line as a message in the strict reading.
pub open spec fn decode_strict_error(text: Seq<char>) -> CargoErrorView {
    match text_json(text) {
        None => parse_failure(text),
        Some(j) => field_failure(strict_fault(j)),
    }
}

/// The event of the test runner that a line of output stands for in the
/// strict reading.
pub open spec fn decode_event_text_strict(text: Seq<char>) -> Option<
    crate::format::test::RunnerEventView,
> {
    match text_json(text) {
        Some(j) => crate::format::test::decode_event_strict(j),
        None => None,
    }
}

/// The failure to decode a line as an event of the test runner in the
/// strict reading.
pub open spec fn decode_event_strict_error(text: Seq<char>) -> CargoErrorView {
    match text_json(text) {
        None => parse_failure(text),
        Some(j) => field_failure(crate::format::test::strict_event_fault(j)),
    }
}

impl Message {
    /// The message that is the line `content`.
    pub fn new(content: String) -> (m: Message)
        ensures
            m@ == content@,
    {
        Message(content)
    }

    /// The line itself.
    pub fn as_str(&self) -> (text: &str)
        ensures
            text@ == self@,
    {
        self.0.as_str()
    }

    /// Deserialize the message. Succeeds exactly on the lines that stand for
    /// a message; every other line is `InvalidOutput`.
    pub fn decode(&self) -> (r: Result<crate::format::Message, CargoError>)
        ensures
            match decode_text(self@) {
                Some(m) => r is Ok && r->Ok_0.deep_view() == m,
                None => r is Err && r->Err_0@ == decode_error(self@),
            },
    {
        let json = Json::parse(self.0.as_str())?;
        crate::format::Message::from_json(&json)
    }

    /// Deserialize the message in the strict reading: a reason or a level
    /// that names nothing known is `InvalidOutput` too.
    pub fn decode_strict(&self) -> (r: Result<crate::format::Message, CargoError>)
        ensures
            match decode_text_strict(self@) {
                Some(m) => r is Ok && r->Ok_0.deep_view() == m,
                None => r is Err && r->Err_0@ == decode_strict_error(self@),
            },
    {
        let json = Json::parse(self.0.as_str())?;
        crate::format::Message::from_json_strict(&json)
    }

    /// Deserialize the message as an event of the test runner in the strict
    /// reading: a type or an event that names nothing known is
    /// `InvalidOutput` too.
    pub fn decode_event_strict(&self) -> (r: Result<crate::format::test::Event, CargoError>)
        ensures
            match decode_event_text_strict(self@) {
                Some(e) => r is Ok && r->Ok_0.deep_view() == e,
                None => r is Err && r->Err_0@ == decode_event_strict_error(self@),
            },
    {
        let json = Json::parse(self.0.as_str())?;
        crate::format::test::Event::from_json_strict(&json)
    }

    /// Deserialize the message as an event of the test runner. Succeeds
    /// exactly on the lines that stand for an event; every other line is
    /// `InvalidOutput`.
    pub fn decode_event(&self) -> (r: Result<crate::format::test::Event, CargoError>)
        ensures
            match decode_event_text(self@) {
                Some(e) => r is Ok && r->Ok_0.deep_view() == e,
                None => r is Err && r->Err_0@ == decode_event_error(self@),
            },
    {
        let json = Json::parse(self.0.as_str())?;
        crate::format::test::Event::from_json(&json)
    }
}

/// The event of the test runner that a line of output stands for: what the
/// schema of events makes of the JSON value that the line holds.
pub open spec fn decode_event_text(text: Seq<char>) -> Option<crate::format::test::RunnerEventView> {
    match text_json(text) {
        Some(j) => crate::format::test::decode_event(j),
        None => None,
    }
}

/// What a stream hands to its caller at one position: a line, or a failure.
pub open spec fn item_view(item: Result<Message, CargoError>) -> Result<Seq<char>, CargoErrorView> {
    match item {
        Ok(m) => Ok(m@),
        Err(e) => Err(e@),
    }
}

/// What a stream hands to its caller, position by position.
pub open spec fn items_view(items: Seq<Result<Message, CargoError>>) -> Seq<
    Result<Seq<char>, CargoErrorView>,
> {
    Seq::new(items.len(), |i: int| item_view(items[i]))
}

/// What an item of a stream is once it is decoded: the message that its
/// line stands for, the failure to decode the line, or the stream's own
/// failure unchanged.
pub open spec fn decoded(item: Result<Seq<char>, CargoErrorView>) -> Result<
    MessageView,
    CargoErrorView,
> {
    match item {
        Err(e) => Err(e),
        Ok(text) => match decode_text(text) {
            Some(m) => Ok(m),
            None => Err(decode_error(text)),
        },
    }
}

/// The view of a decoded item.
pub open spec fn decoded_view(d: Result<crate::format::Message, CargoError>) -> Result<
    MessageView,
    CargoErrorView,
> {
    match d {
        Ok(m) => Ok(m.deep_view()),
        Err(e) => Err(e@),
    }
}

/// Decodes an item of a stream: the message of its line, or the failure
/// that the item gives rise to.
pub fn decode_item(item: &Result<Message, CargoError>) -> (d: Result<
    crate::format::Message,
    CargoError,
>)
    ensures
        decoded_view(d) == decoded(item_view(*item)),
{
    match item {
        Ok(raw) => raw.decode(),
        Err(e) => Err(e.duplicate()),
    }
}

/// What a stream waits for from its process.
#[derive(Debug, Copy, Clone, PartialEq, Eq, Structural)]
pub enum Stage {
    /// The next line of the process's output.
    Line,
    /// The process's exit.
    Exit,
    /// All that the process wrote to its error output.
    Errors,
}

/// The decisions of a stream of messages. The stream's owner holds the
/// process; it does what `pending` or `step` asks for and hands `step` what
/// came of it, until `step` asks it to hand something to its caller.
#[derive(Debug, Copy, Clone, PartialEq, Eq, Structural)]
pub struct StreamState {
    /// Whether the stream has ended: its process's exit has been reported.
    pub done: bool,
    /// What the stream waits for.
    pub stage: Stage,
}

/// What the process did in answer to the stream's last request.
#[derive(Debug)]
pub enum StreamEvent {
    /// A line was read: the line with its line break, or nothing at the end
    /// of the output.
    Line(String),
    /// Reading a line failed; the text of the failure.
    LineFailed(String),
    /// The process has exited, with success or without.
    Exited(bool),
    /// Waiting for the process failed; the text of the failure.
    ExitFailed(String),
    /// The error output was read to its end.
    Errors(Vec<u8>),
    /// Reading the error output failed; the text of the failure.
    ErrorsFailed(String),
}

/// What a stream asks its owner to do next.
#[derive(Debug)]
pub enum StreamAction {
    /// Read one line of the process's output.
    ReadLine,
    /// Wait for the process to exit.
    Wait,
    /// Read the process's error output to its end.
    ReadErrors,
    /// Hand this message to the caller.
    Yield(Message),
    /// Hand this failure to the caller.
    Fail(CargoError),
    /// Tell the caller that there are no more messages.
    End,
}

/// What an event holds.
pub enum EventView {
    Line(Seq<char>),
    LineFailed(Seq<char>),
    Exited(bool),
    ExitFailed(Seq<char>),
    Errors(Seq<u8>),
    ErrorsFailed(Seq<char>),
}

/// What an action holds.
pub enum ActionView {
    ReadLine,
    Wait,
    ReadErrors,
    Yield(Seq<char>),
    Fail(CargoErrorView),
    End,
}

impl View for StreamEvent {
    type V = EventView;

    open spec fn view(&self) -> EventView {
        match self {
            StreamEvent::Line(s) => EventView::Line(s@),
            StreamEvent::LineFailed(s) => EventView::LineFailed(s@),
            StreamEvent::Exited(ok) => EventView::Exited(*ok),
            StreamEvent::ExitFailed(s) => EventView::ExitFailed(s@),
            StreamEvent::Errors(data) => EventView::Errors(data@),
            StreamEvent::ErrorsFailed(s) => EventView::ErrorsFailed(s@),
        }
    }
}

impl View for StreamAction {
    type V = ActionView;

    open spec fn view(&self) -> ActionView {
        match self {
            StreamAction::ReadLine => ActionView::ReadLine,
            StreamAction::Wait => ActionView::Wait,
            StreamAction::ReadErrors => ActionView::ReadErrors,
            StreamAction::Yield(m) => ActionView::Yield(m@),
            StreamAction::Fail(e) => ActionView::Fail(e@),
            StreamAction::End => ActionView::End,
        }
    }
}

/// The text that `String::from_utf8_lossy` makes of bytes.
pub uninterp spec fn utf8_lossy(bytes: Seq<u8>) -> Seq<char>;

/// `String::from_utf8_lossy`, and `Cow::into_owned` on what it returns. Not
/// proved: that the text depends on the bytes alone.
#[verifier::external_body]
fn lossy_text(bytes: &Vec<u8>) -> (text: String)
    ensures
        text@ == utf8_lossy(bytes@),
{
    String::from_utf8_lossy(bytes).into_owned()
}

/// The failure of a stream whose process could not be read or waited for.
pub open spec fn broken(cause: Seq<char>) -> CargoErrorView {
    CargoErrorView { kind: ErrorKind::InvalidOutput, context: None, cause: Some(cause) }
}

/// The failure of a stream whose process exited without success, having
/// written `errors` to its error output.
pub open spec fn command_failed(errors: Seq<u8>) -> CargoErrorView {
    CargoErrorView {
        kind: ErrorKind::CommandFailed,
        context: Some(utf8_lossy(errors)),
        cause: None,
    }
}

/// What a stream that waits for `stage` asks of its owner.
pub open spec fn request(stage: Stage) -> ActionView {
    match stage {
        Stage::Line => ActionView::ReadLine,
        Stage::Exit => ActionView::Wait,
        Stage::Errors => ActionView::ReadErrors,
    }
}

/// The state in which a stream waits for the next line.
pub open spec fn resting(done: bool) -> StreamState {
    StreamState { done, stage: Stage::Line }
}

/// One step of a stream: the state it goes to and what it asks for.
///
/// A line that is not empty is a message. An empty line is the end of the
/// output: the stream waits for the process's exit. An exit without success
/// that has not been reported yet makes the stream read the error output and
/// fail with it as context; any other exit ends the stream. Once the exit
/// has been reported the stream is done, whatever it was. Whatever cannot be
/// read or waited for is a failure of its own. An event that does not answer
/// what the stream waits for changes nothing: the stream asks again.
pub open spec fn next(s: StreamState, e: EventView) -> (StreamState, ActionView) {
    match (s.stage, e) {
        (Stage::Line, EventView::Line(line)) => if line.len() > 0 {
            (s, ActionView::Yield(line))
        } else {
            (StreamState { done: s.done, stage: Stage::Exit }, ActionView::Wait)
        },
        (Stage::Line, EventView::LineFailed(cause)) => (s, ActionView::Fail(broken(cause))),
        (Stage::Exit, EventView::Exited(success)) => if !success && !s.done {
            (StreamState { done: true, stage: Stage::Errors }, ActionView::ReadErrors)
        } else {
            (resting(true), ActionView::End)
        },
        (Stage::Exit, EventView::ExitFailed(cause)) => (
            resting(s.done),
            ActionView::Fail(broken(cause)),
        ),
        (Stage::Errors, EventView::Errors(errors)) => (
            resting(s.done),
            ActionView::Fail(command_failed(errors)),
        ),
        (Stage::Errors, EventView::ErrorsFailed(cause)) => (
            resting(s.done),
            ActionView::Fail(broken(cause)),
        ),
        _ => (s, request(s.stage)),
    }
}

impl StreamState {
    /// The state of a stream whose process has just been started.
    pub fn new() -> (s: StreamState)
        ensures
            s == resting(false),
    {
        StreamState { done: false, stage: Stage::Line }
    }

    /// What the stream asks of its owner in this state.
    pub fn pending(&self) -> (action: StreamAction)
        ensures
            action@ == request(self.stage),
    {
        match self.stage {
            Stage::Line => StreamAction::ReadLine,
            Stage::Exit => StreamAction::Wait,
            Stage::Errors => StreamAction::ReadErrors,
        }
    }

    /// Takes what the process did and decides what comes next.
    pub fn step(&mut self, event: StreamEvent) -> (action: StreamAction)
        ensures
            (*final(self), action@) == next(*old(self), event@),
    {
        match (self.stage, event) {
            (Stage::Line, StreamEvent::Line(line)) => {
                if line.as_str().is_empty() {
                    self.stage = Stage::Exit;
                    StreamAction::Wait
                } else {
                    StreamAction::Yield(Message::new(line))
                }
            },
            (Stage::Line, StreamEvent::LineFailed(cause)) => StreamAction::Fail(
                CargoError::new(ErrorKind::InvalidOutput).set_cause(cause),
            ),
            (Stage::Exit, StreamEvent::Exited(success)) => {
                if !success && !self.done {
                    self.done = true;
                    self.stage = Stage::Errors;
                    StreamAction::ReadErrors
                } else {
                    self.done = true;
                    self.stage = Stage::Line;
                    StreamAction::End
                }
            },
            (Stage::Exit, StreamEvent::ExitFailed(cause)) => {
                self.stage = Stage::Line;
                StreamAction::Fail(CargoError::new(ErrorKind::InvalidOutput).set_cause(cause))
            },
            (Stage::Errors, StreamEvent::Errors(errors)) => {
                self.stage = Stage::Line;
                StreamAction::Fail(
                    CargoError::new(ErrorKind::CommandFailed).set_context(lossy_text(&errors)),
                )
            },
            (Stage::Errors, StreamEvent::ErrorsFailed(cause)) => {
                self.stage = Stage::Line;
                StreamAction::Fail(CargoError::new(ErrorKind::InvalidOutput).set_cause(cause))
            },
            _ => self.pending(),
        }
    }

    /// What the owner of a stream must do when the stream is discarded: wait
    /// for the process unless its exit has been reported. Whatever comes of
    /// that wait is dropped.
    pub fn discard(self) -> (action: StreamAction)
        ensures
            action@ == (if self.done {
                ActionView::End
            } else {
                ActionView::Wait
            }),
    {
        if self.done {
            StreamAction::End
        } else {
            StreamAction::Wait
        }
    }
}

/// How many lines of a recorded output are messages: those before the first
/// empty line at or after `from`, which stands for the end of the output.
pub open spec fn written(lines: Seq<Seq<char>>, from: int) -> int
    decreases lines.len() - from,
{
    if from < 0 || from >= lines.len() || lines[from].len() == 0 {
        from
    } else {
        written(lines, from + 1)
    }
}

/// The count of messages lies between `from` and the number of lines.
pub proof fn lemma_written_bounds(lines: Seq<Seq<char>>, from: int)
    requires
        0 <= from <= lines.len(),
    ensures
        from <= written(lines, from) <= lines.len(),
    decreases lines.len() - from,
{
    if from < lines.len() && lines[from].len() != 0 {
        lemma_written_bounds(lines, from + 1);
    }
}

/// Runs a stream over the recorded output of a process that has exited:
/// the lines it wrote, whether it exited with success, and what it wrote to
/// its error output. Returns what the stream hands to its caller, in order,
/// up to the end of the stream.
///
/// Every line is a message, in the order written. After them the stream ends
/// if the process exited with success, and fails once more with
/// `CommandFailed` otherwise, the error output being the context.
pub fn replay(lines: &Vec<String>, success: bool, errors: Vec<u8>) -> (out: Vec<
    Result<Message, CargoError>,
>)
    ensures
        out@.len() == written(lines.deep_view(), 0) + (if success {
            0int
        } else {
            1int
        }),
        forall|i: int|
            0 <= i < written(lines.deep_view(), 0) ==> (#[trigger] out@[i]) is Ok && out@[i]->Ok_0@
                == lines@[i]@,
        !success ==> out@[written(lines.deep_view(), 0)] is Err && out@[written(
            lines.deep_view(),
            0,
        )]->Err_0@ == command_failed(errors@),
{
    let ghost texts = lines.deep_view();
    let mut state = StreamState::new();
    let mut out: Vec<Result<Message, CargoError>> = Vec::new();
    let mut i: usize = 0;
    proof {
        lemma_written_bounds(texts, 0);
    }
    while i < lines.len() && state.stage == Stage::Line
        invariant
            i <= lines@.len(),
            texts == lines.deep_view(),
            !state.done,
            state.stage == Stage::Line ==> written(texts, 0) == written(texts, i as int),
            state.stage != Stage::Line ==> state.stage == Stage::Exit && written(texts, 0) == i,
            out@.len() == (if state.stage == Stage::Line {
                i as int
            } else {
                written(texts, 0)
            }),
            out@.len() <= written(texts, 0),
            forall|k: int|
                0 <= k < out@.len() ==> (#[trigger] out@[k]) is Ok && out@[k]->Ok_0@ == lines@[k]@,
        decreases lines@.len() - i + (if state.stage == Stage::Line { 1int } else { 0int }),
    {
        proof {
            assert(texts[i as int] == lines@[i as int]@);
            lemma_written_bounds(texts, i as int + 1);
        }
        let line = lines[i].clone();
        match state.step(StreamEvent::Line(line)) {
            StreamAction::Yield(message) => {
                out.push(Ok(message));
                i += 1;
            },
            _ => {},
        }
    }
    if state.stage == Stage::Line {
        let _ = state.step(StreamEvent::Line(String::new()));
    }
    match state.step(StreamEvent::Exited(success)) {
        StreamAction::ReadErrors => {
            match state.step(StreamEvent::Errors(errors)) {
                StreamAction::Fail(e) => {
                    out.push(Err(e));
                },
                _ => {},
            }
        },
        _ => {},
    }
    out
}

/// The state that a stream reaches from `s` over `events`, in their order.
pub open spec fn run(s: StreamState, events: Seq<EventView>) -> StreamState
    decreases events.len(),
{
    if events.len() == 0 {
        s
    } else {
        next(run(s, events.drop_last()), events.last()).0
    }
}

/// A stream that has ended stays ended: asked for another message, it finds
/// the end of the output, waits for the process, and signals the end again
/// whatever the exit was. It never reads the error output a second time.
pub proof fn lemma_ended_stream_ends_again(line: Seq<char>, success: bool)
    requires
        line.len() == 0,
    ensures
        next(resting(true), EventView::Line(line)).1 == ActionView::Wait,
        next(next(resting(true), EventView::Line(line)).0, EventView::Exited(success)) == (
            resting(true),
            ActionView::End,
        ),
{
}

/// No step takes a stream back from done.
pub proof fn lemma_done_is_kept(s: StreamState, e: EventView)
    requires
        s.done,
    ensures
        next(s, e).0.done,
{
}

/// A stream is done only once its process's exit has been reported to it.
/// So whatever events a stream has seen since its start, when it is
/// discarded its process has exited and been waited for, or `discard` asks
/// for that wait.
pub proof fn lemma_done_only_after_exit(events: Seq<EventView>)
    ensures
        run(resting(false), events).done ==> exists|i: int|
            0 <= i < events.len() && #[trigger] events[i] is Exited,
    decreases events.len(),
{
    if events.len() > 0 {
        let before = events.drop_last();
        lemma_done_only_after_exit(before);
        if run(resting(false), before).done {
            let i = choose|i: int| 0 <= i < before.len() && #[trigger] before[i] is Exited;
            assert(events[i] is Exited);
        } else if run(resting(false), events).done {
            assert(events[events.len() - 1] is Exited);
        }
    }
}

} // verus!
