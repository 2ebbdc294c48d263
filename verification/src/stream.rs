//! A command whose output is passed on line by line. Each completed line
//! becomes one stream event, at once and in the order in which the lines
//! were written. The stream ends when the output ends, when reading
//! fails, or when the content navigates away; after that nothing is passed on.

use vstd::prelude::*;
use vstd::string::*;
use crate::script::{console_script, console_script_text, stream_script, stream_script_text};

verus! {

/// Something that happened to a stream.
#[derive(Debug, Clone, PartialEq, Eq)]
pub enum StreamInput {
    /// The process completed a line (given without its line end).
    Line(String),
    /// The process closed its output.
    EndOfOutput,
    /// Reading the output failed.
    ReadFailed(String),
    /// The content navigated away.
    Navigated,
}

/// One completed line of output, for the stream it belongs to.
#[derive(Debug, Clone, PartialEq, Eq)]
pub struct StreamEvent {
    pub stream_id: u64,
    pub line: String,
}

impl StreamEvent {
    /// The script that delivers this line to its stream in the content.
    pub fn script(&self) -> (s: String)
        ensures
            s@ == stream_script_text(self.stream_id as nat, self.line@),
    {
        stream_script(self.stream_id, self.line.as_str())
    }
}

/// What the caller has to do after an input.
#[derive(Debug, Clone, PartialEq, Eq)]
pub enum StreamAction {
    /// Deliver this event through the content gate.
    Deliver(StreamEvent),
    /// The stream is over. End the process by force if `kill` is set, write
    /// `message` to the host's log (as a warning if `warning` is set, as
    /// information otherwise) and hand `script` to the content gate.
    Close { kill: bool, warning: bool, message: String, script: String },
    /// The stream was over before: do nothing.
    Ignore,
}

/// The mathematical value of a [`StreamAction`].
pub enum StreamStep {
    Deliver { stream_id: u64, line: Seq<char> },
    Close { kill: bool, warning: bool, message: Seq<char>, script: Seq<char> },
    Ignore,
}

impl View for StreamAction {
    type V = StreamStep;

    open spec fn view(&self) -> StreamStep {
        match *self {
            StreamAction::Deliver(event) => StreamStep::Deliver {
                stream_id: event.stream_id,
                line: event.line@,
            },
            StreamAction::Close { kill, warning, message, script } => StreamStep::Close {
                kill,
                warning,
                message: message@,
                script: script@,
            },
            StreamAction::Ignore => StreamStep::Ignore,
        }
    }
}

/// One streaming command: the stream id that the content chose, a
/// description of the command for messages, and whether the stream is still
/// open.
#[derive(Debug, Clone, PartialEq, Eq)]
pub struct Stream {
    pub stream_id: u64,
    pub description: String,
    pub open: bool,
}

/// The message that reports a stream that ended by itself.
pub open spec fn ended_message(description: Seq<char>) -> Seq<char> {
    "Streaming command ["@ + description + "] exited normally"@
}

/// The message that reports a stream that was cut short.
pub open spec fn failed_message(description: Seq<char>, reason: Seq<char>) -> Seq<char> {
    "Streaming command ["@ + description + "] failed with error: "@ + reason
}

/// The reason given for a stream that navigation cut short.
pub open spec fn navigation_reason() -> Seq<char> {
    "Navigation occurred"@
}

/// The reason given for a stream whose output could not be read.
pub open spec fn read_failure_reason(detail: Seq<char>) -> Seq<char> {
    "Error reading lines: "@ + detail
}

/// The closing step that reports `message`.
pub open spec fn closing(kill: bool, warning: bool, message: Seq<char>) -> StreamStep {
    StreamStep::Close { kill, warning, message, script: console_script_text(message) }
}

/// What an input leads to on a stream with the given id and description.
pub open spec fn stream_step(
    open: bool,
    stream_id: u64,
    description: Seq<char>,
    input: StreamInput,
) -> StreamStep {
    if !open {
        StreamStep::Ignore
    } else {
        match input {
            StreamInput::Line(line) => StreamStep::Deliver { stream_id, line: line@ },
            StreamInput::EndOfOutput => closing(false, false, ended_message(description)),
            StreamInput::ReadFailed(detail) => closing(
                false,
                true,
                failed_message(description, read_failure_reason(detail@)),
            ),
            StreamInput::Navigated => closing(
                true,
                true,
                failed_message(description, navigation_reason()),
            ),
        }
    }
}

/// Whether the stream is open after an input: a line keeps it open,
/// everything else closes it.
pub open spec fn open_after(open: bool, input: StreamInput) -> bool {
    open && input is Line
}

fn close_with(kill: bool, warning: bool, message: String) -> (action: StreamAction)
    ensures
        action@ == closing(kill, warning, message@),
{
    let script = console_script(message.as_str());
    StreamAction::Close { kill, warning, message, script }
}

fn failed_text(description: &str, reason: &str) -> (message: String)
    ensures
        message@ == failed_message(description@, reason@),
{
    let mut message = String::from_str("Streaming command [");
    message.append(description);
    message.append("] failed with error: ");
    message.append(reason);
    message
}

impl Stream {
    /// A stream that has just been started.
    pub fn new(stream_id: u64, description: String) -> (stream: Stream)
        ensures
            stream == (Stream { stream_id, description, open: true }),
    {
        Stream { stream_id, description, open: true }
    }

    /// Feeds one input to the stream.
    pub fn feed(&mut self, input: StreamInput) -> (action: StreamAction)
        ensures
            action@ == stream_step(
                old(self).open,
                old(self).stream_id,
                old(self).description@,
                input,
            ),
            final(self).open == open_after(old(self).open, input),
            final(self).stream_id == old(self).stream_id,
            final(self).description == old(self).description,
    {
        if !self.open {
            return StreamAction::Ignore;
        }
        match input {
            StreamInput::Line(line) => StreamAction::Deliver(
                StreamEvent { stream_id: self.stream_id, line },
            ),
            StreamInput::EndOfOutput => {
                self.open = false;
                let mut message = String::from_str("Streaming command [");
                message.append(self.description.as_str());
                message.append("] exited normally");
                close_with(false, false, message)
            },
            StreamInput::ReadFailed(detail) => {
                self.open = false;
                let reason = String::from_str("Error reading lines: ").concat(detail.as_str());
                close_with(false, true, failed_text(self.description.as_str(), reason.as_str()))
            },
            StreamInput::Navigated => {
                self.open = false;
                close_with(
                    true,
                    true,
                    failed_text(self.description.as_str(), "Navigation occurred"),
                )
            },
        }
    }
}

/// The stream events that a stream gives over a series of inputs, in the
/// order in which it gives them: the stream id and the line of each.
pub open spec fn delivered(
    open: bool,
    stream_id: u64,
    description: Seq<char>,
    inputs: Seq<StreamInput>,
) -> Seq<(u64, Seq<char>)>
    decreases inputs.len(),
{
    if inputs.len() == 0 {
        Seq::<(u64, Seq<char>)>::empty()
    } else {
        let now = match stream_step(open, stream_id, description, inputs.first()) {
            StreamStep::Deliver { stream_id: to, line } => seq![(to, line)],
            _ => Seq::<(u64, Seq<char>)>::empty(),
        };
        now + delivered(
            open_after(open, inputs.first()),
            stream_id,
            description,
            inputs.drop_first(),
        )
    }
}

/// The inputs that report the given lines, one each, in order.
pub open spec fn line_inputs(lines: Seq<String>) -> Seq<StreamInput> {
    Seq::new(lines.len(), |i: int| StreamInput::Line(lines[i]))
}

/// The events for the given lines on one stream, one each, in order.
pub open spec fn line_events(stream_id: u64, lines: Seq<String>) -> Seq<(u64, Seq<char>)> {
    Seq::new(lines.len(), |i: int| (stream_id, lines[i]@))
}

/// An open stream passes on every line, one event per line, under its own
/// stream id and in the order in which the lines were written: nothing is
/// left out, joined or reordered.
pub proof fn lemma_lines_keep_order(stream_id: u64, description: Seq<char>, lines: Seq<String>)
    ensures
        delivered(true, stream_id, description, line_inputs(lines)) == line_events(
            stream_id,
            lines,
        ),
    decreases lines.len(),
{
    let inputs = line_inputs(lines);
    if lines.len() > 0 {
        assert(inputs.first() == StreamInput::Line(lines.first()));
        assert(inputs.drop_first() =~= line_inputs(lines.drop_first()));
        lemma_lines_keep_order(stream_id, description, lines.drop_first());
        assert(delivered(true, stream_id, description, inputs) =~= line_events(stream_id, lines));
    } else {
        assert(delivered(true, stream_id, description, inputs) =~= line_events(stream_id, lines));
    }
}

/// A stream that is over passes nothing on, whatever comes after.
pub proof fn lemma_closed_stream_is_silent(
    stream_id: u64,
    description: Seq<char>,
    inputs: Seq<StreamInput>,
)
    ensures
        delivered(false, stream_id, description, inputs) == Seq::<(u64, Seq<char>)>::empty(),
    decreases inputs.len(),
{
    if inputs.len() > 0 {
        lemma_closed_stream_is_silent(stream_id, description, inputs.drop_first());
        assert(delivered(false, stream_id, description, inputs) =~= Seq::<
            (u64, Seq<char>),
        >::empty());
    }
}

} // verus!
