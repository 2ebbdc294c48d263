//! The requests that the content can make of the host, and the dispatcher
//! that turns each decoded message into the work one handler has to do.

use vstd::prelude::*;
use vstd::string::*;
use crate::error::HandlerError;
use crate::process::{effective_timeout_secs, timeout_or_default};
use crate::reply::{body_text, Reply, Response};
use crate::script::response_script_text;

verus! {

/// A command line with the surroundings it is to run in. The working
/// directory defaults to the host's own; the environment is the host's with
/// these entries on top.
#[derive(Debug, Clone, PartialEq, Eq)]
pub struct CommandSpec {
    pub command: Vec<String>,
    pub working_dir: Option<String>,
    pub environment: Vec<(String, String)>,
}

/// The closed set of requests.
#[derive(Debug, Clone, PartialEq, Eq)]
pub enum RequestVariant {
    Log(String),
    ListDirectory(String),
    FileExists(String),
    ReadFile(String),
    RunCommand { command: CommandSpec, timeout_secs: Option<u64> },
    RunDetached { command: CommandSpec },
    RunStreaming { stream_id: u64, command: CommandSpec },
}

/// One complete message from the content: a request and the id under which
/// its answer is expected.
#[derive(Debug, Clone, PartialEq, Eq)]
pub struct Envelope {
    pub correlation_id: u64,
    pub variant: RequestVariant,
}

/// A command line taken apart: the program, and the arguments after it.
#[derive(Debug, Clone, PartialEq, Eq)]
pub struct Launch {
    pub program: String,
    pub arguments: Vec<String>,
    pub working_dir: Option<String>,
    pub environment: Vec<(String, String)>,
}

/// What one handler has to do.
#[derive(Debug, Clone, PartialEq, Eq)]
pub enum Work {
    /// Write the message to the host's log, then answer with nothing.
    Log { message: String },
    ListDirectory { path: String },
    FileExists { path: String },
    ReadFile { path: String },
    /// Run to the end, or to the timeout, or to the next navigation.
    Run { launch: Launch, timeout_secs: u64 },
    /// Start, and answer with the process identifier.
    Detach { launch: Launch },
    /// Start, acknowledge, and pass each output line on as it completes.
    Stream { stream_id: u64, launch: Launch },
    /// Nothing can be done: answer with this failure.
    Fail(HandlerError),
}

/// Work, with the correlation id of the request that asked for it.
#[derive(Debug, Clone, PartialEq, Eq)]
pub struct Assignment {
    pub correlation_id: u64,
    pub work: Work,
}

/// What the dispatcher makes of one inbound message.
#[derive(Debug, Clone, PartialEq, Eq)]
pub enum Dispatch {
    /// The message could not be decoded. It carries no id that could be
    /// trusted, so it is logged and nothing is answered.
    Dropped,
    /// The message is a request; an independent unit of work takes it on.
    Assigned(Assignment),
}

/// `launch` is `command` taken apart: its first word is the program, the rest
/// are the arguments in their order, and the surroundings are unchanged.
pub open spec fn launches(command: CommandSpec, launch: Launch) -> bool {
    &&& command.command@.len() > 0
    &&& launch.program == command.command@[0]
    &&& launch.arguments@ == command.command@.subrange(1, command.command@.len() as int)
    &&& launch.working_dir == command.working_dir
    &&& launch.environment == command.environment
}

/// `work` is what the request `variant` asks for. A command line without a
/// program is answered with a failure instead of being run.
pub open spec fn assigns(variant: RequestVariant, work: Work) -> bool {
    match variant {
        RequestVariant::Log(message) => work == (Work::Log { message }),
        RequestVariant::ListDirectory(path) => work == (Work::ListDirectory { path }),
        RequestVariant::FileExists(path) => work == (Work::FileExists { path }),
        RequestVariant::ReadFile(path) => work == (Work::ReadFile { path }),
        RequestVariant::RunCommand { command, timeout_secs } => if command.command@.len() == 0 {
            work == Work::Fail(HandlerError::EmptyCommand)
        } else {
            &&& work matches Work::Run { launch, timeout_secs: limit }
            &&& launches(command, launch)
            &&& limit == timeout_or_default(timeout_secs)
        },
        RequestVariant::RunDetached { command } => if command.command@.len() == 0 {
            work == Work::Fail(HandlerError::EmptyCommand)
        } else {
            work matches Work::Detach { launch } && launches(command, launch)
        },
        RequestVariant::RunStreaming { stream_id, command } => if command.command@.len() == 0 {
            work == Work::Fail(HandlerError::EmptyCommand)
        } else {
            &&& work matches Work::Stream { stream_id: to, launch }
            &&& to == stream_id
            &&& launches(command, launch)
        },
    }
}

/// The variables that a list of entries sets, name to value. A later entry
/// for a name replaces an earlier one.
pub open spec fn variables(entries: Seq<(String, String)>) -> Map<Seq<char>, Seq<char>>
    decreases entries.len(),
{
    if entries.len() == 0 {
        Map::empty()
    } else {
        variables(entries.drop_last()).insert(entries.last().0@, entries.last().1@)
    }
}

/// Entries put behind others set what the others set, except where they set
/// a name themselves: there the later entries win.
pub proof fn lemma_later_entries_win(first: Seq<(String, String)>, then: Seq<(String, String)>)
    ensures
        variables(first + then) == variables(first).union_prefer_right(variables(then)),
        forall|name: Seq<char>| #[trigger]
            variables(then).contains_key(name) ==> variables(first + then)[name] == variables(
                then,
            )[name],
        forall|name: Seq<char>|
            !variables(then).contains_key(name) && #[trigger] variables(first).contains_key(name)
                ==> variables(first + then)[name] == variables(first)[name],
    decreases then.len(),
{
    if then.len() == 0 {
        assert(first + then =~= first);
        assert(variables(first + then) =~= variables(first).union_prefer_right(variables(then)));
    } else {
        lemma_later_entries_win(first, then.drop_last());
        assert((first + then).drop_last() =~= first + then.drop_last());
        assert((first + then).last() == then.last());
        assert(variables(first + then) =~= variables(first).union_prefer_right(variables(then)));
    }
}

impl Launch {
    /// The environment that the process runs in: the host's own, with the
    /// entries of the request on top. Where both set a name, the request's
    /// value holds.
    pub fn environment_over(&self, host: Vec<(String, String)>) -> (full: Vec<(String, String)>)
        ensures
            full@ == host@ + self.environment@,
            variables(full@) == variables(host@).union_prefer_right(
                variables(self.environment@),
            ),
    {
        let mut full = host;
        let n = self.environment.len();
        let mut i: usize = 0;
        while i < n
            invariant
                n == self.environment@.len(),
                i <= n,
                full@ == host@ + self.environment@.take(i as int),
            decreases n - i,
        {
            let entry = &self.environment[i];
            full.push((entry.0.clone(), entry.1.clone()));
            proof {
                assert(self.environment@.take(i + 1) =~= self.environment@.take(i as int).push(
                    self.environment@[i as int],
                ));
                assert(full@ =~= host@ + self.environment@.take(i + 1));
            }
            i = i + 1;
        }
        proof {
            assert(self.environment@.take(n as int) =~= self.environment@);
            lemma_later_entries_win(host@, self.environment@);
        }
        full
    }
}

/// Takes a command line apart. It fails exactly when there is no program.
pub fn plan_launch(command: CommandSpec) -> (r: Result<Launch, HandlerError>)
    ensures
        match r {
            Ok(launch) => launches(command, launch),
            Err(e) => command.command@.len() == 0 && e == HandlerError::EmptyCommand,
        },
{
    let CommandSpec { command: words, working_dir, environment } = command;
    let mut words = words;
    if words.len() == 0 {
        return Err(HandlerError::EmptyCommand);
    }
    let ghost all = words@;
    let program = words.remove(0);
    proof {
        assert(words@ =~= all.subrange(1, all.len() as int));
    }
    Ok(Launch { program, arguments: words, working_dir, environment })
}

/// Decides what is to be done for a request.
pub fn assign(variant: RequestVariant) -> (work: Work)
    ensures
        assigns(variant, work),
{
    match variant {
        RequestVariant::Log(message) => Work::Log { message },
        RequestVariant::ListDirectory(path) => Work::ListDirectory { path },
        RequestVariant::FileExists(path) => Work::FileExists { path },
        RequestVariant::ReadFile(path) => Work::ReadFile { path },
        RequestVariant::RunCommand { command, timeout_secs } => match plan_launch(command) {
            Ok(launch) => Work::Run { launch, timeout_secs: effective_timeout_secs(timeout_secs) },
            Err(e) => Work::Fail(e),
        },
        RequestVariant::RunDetached { command } => match plan_launch(command) {
            Ok(launch) => Work::Detach { launch },
            Err(e) => Work::Fail(e),
        },
        RequestVariant::RunStreaming { stream_id, command } => match plan_launch(command) {
            Ok(launch) => Work::Stream { stream_id, launch },
            Err(e) => Work::Fail(e),
        },
    }
}

/// `d` is what the dispatcher makes of a message that was decoded to
/// `decoded`, or could not be decoded.
pub open spec fn dispatched(decoded: Option<Envelope>, d: Dispatch) -> bool {
    match decoded {
        None => d == Dispatch::Dropped,
        Some(envelope) => {
            &&& d matches Dispatch::Assigned(assignment)
            &&& assignment.correlation_id == envelope.correlation_id
            &&& assigns(envelope.variant, assignment.work)
        },
    }
}

/// Takes one inbound message, as far as it could be decoded, and routes it.
/// A message that could not be decoded is dropped; every other one becomes an
/// assignment under the id it came with.
pub fn accept(decoded: Option<Envelope>) -> (d: Dispatch)
    ensures
        dispatched(decoded, d),
{
    match decoded {
        None => Dispatch::Dropped,
        Some(envelope) => {
            let Envelope { correlation_id, variant } = envelope;
            Dispatch::Assigned(Assignment { correlation_id, work: assign(variant) })
        },
    }
}

impl Assignment {
    /// The response that ties `body` to this assignment.
    pub open spec fn response_to(self, body: Result<Reply, HandlerError>) -> Response {
        Response { correlation_id: self.correlation_id, body }
    }

    /// Ties what the handler came to back to the request.
    pub fn respond(&self, body: Result<Reply, HandlerError>) -> (r: Response)
        ensures
            r == self.response_to(body),
    {
        Response { correlation_id: self.correlation_id, body }
    }
}

/// Whatever the handler comes to, the response to a request carries the
/// correlation id that the request came with, and the script that delivers it
/// looks the request up under that id.
pub proof fn lemma_response_carries_request_id(
    envelope: Envelope,
    d: Dispatch,
    body: Result<Reply, HandlerError>,
)
    requires
        dispatched(Some(envelope), d),
    ensures
        d is Assigned,
        d->Assigned_0.response_to(body).correlation_id == envelope.correlation_id,
        response_script_text(
            d->Assigned_0.response_to(body).correlation_id as nat,
            body_text(d->Assigned_0.response_to(body).body),
        ) == response_script_text(envelope.correlation_id as nat, body_text(body)),
{
}

/// The line that a `Log` request writes to the host's log.
pub open spec fn log_line_text(message: Seq<char>) -> Seq<char> {
    "wongus.log: "@ + message
}

/// Builds the line that a `Log` request writes to the host's log.
pub fn log_line(message: &str) -> (line: String)
    ensures
        line@ == log_line_text(message@),
{
    String::from_str("wongus.log: ").concat(message)
}

} // verus!
