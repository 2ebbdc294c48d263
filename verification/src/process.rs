//! Running a command for the content: what one invocation goes through, and
//! the single answer it gives.
//!
//! An invocation starts in [`RunPhase::Spawning`], moves to
//! [`RunPhase::Running`] once the process is there, and settles in one of
//! four final phases. Normal exit, the timeout and a navigation of the
//! content race; the first to arrive settles the invocation, and whatever
//! arrives afterwards is ignored.

use vstd::prelude::*;
use vstd::utf8::*;
use crate::error::{capture, capture_of, Failure, HandlerError, TextSource};
use crate::text::decode_text;

verus! {

/// Seconds a command may run when the request names no timeout.
pub const DEFAULT_TIMEOUT_SECS: u64 = 10;

/// What a finished process left behind, as the operating system reported it.
/// `exit_code` is `None` where the process was ended by a signal.
#[derive(Debug, Clone, PartialEq, Eq)]
pub struct ProcessOutput {
    pub exit_code: Option<i32>,
    pub stdout: Vec<u8>,
    pub stderr: Vec<u8>,
}

/// The mathematical value of a [`ProcessOutput`].
pub struct Output {
    pub exit_code: Option<i32>,
    pub stdout: Seq<u8>,
    pub stderr: Seq<u8>,
}

impl View for ProcessOutput {
    type V = Output;

    open spec fn view(&self) -> Output {
        Output { exit_code: self.exit_code, stdout: self.stdout@, stderr: self.stderr@ }
    }
}

/// The result of a command that ran to a successful end.
#[derive(Debug, Clone, PartialEq, Eq)]
pub struct ProcessRunResult {
    pub exit_status: i32,
    pub stdout: String,
    pub stderr: String,
}

/// The mathematical value of a [`ProcessRunResult`].
pub struct RunResult {
    pub exit_status: i32,
    pub stdout: Seq<char>,
    pub stderr: Seq<char>,
}

impl View for ProcessRunResult {
    type V = RunResult;

    open spec fn view(&self) -> RunResult {
        RunResult { exit_status: self.exit_status, stdout: self.stdout@, stderr: self.stderr@ }
    }
}

/// The value of an answer, success or failure.
pub open spec fn answer_view(a: Result<ProcessRunResult, HandlerError>) -> Result<
    RunResult,
    Failure,
> {
    match a {
        Ok(r) => Ok(r@),
        Err(e) => Err(e@),
    }
}

/// The timeout that applies to a command: the requested one, else the default.
pub open spec fn timeout_or_default(requested: Option<u64>) -> u64 {
    match requested {
        Some(t) => t,
        None => DEFAULT_TIMEOUT_SECS,
    }
}

/// The timeout, in seconds, that applies to a command.
pub fn effective_timeout_secs(requested: Option<u64>) -> (t: u64)
    ensures
        t == timeout_or_default(requested),
{
    match requested {
        Some(t) => t,
        None => DEFAULT_TIMEOUT_SECS,
    }
}

/// The answer owed for a process that ended by itself. An unsuccessful status
/// is a failure that keeps what was captured; after that, stdout and then
/// stderr must be well-formed UTF-8, and the text is exactly what they encode.
pub open spec fn verdict(out: Output) -> Result<RunResult, Failure> {
    if out.exit_code != Some(0i32) {
        Err(
            Failure::ExitFailure {
                exit_code: out.exit_code,
                stdout: capture_of(out.stdout),
                stderr: capture_of(out.stderr),
            },
        )
    } else if !valid_utf8(out.stdout) {
        Err(Failure::Encoding(TextSource::Stdout))
    } else if !valid_utf8(out.stderr) {
        Err(Failure::Encoding(TextSource::Stderr))
    } else {
        Ok(
            RunResult {
                exit_status: 0,
                stdout: decode_utf8(out.stdout),
                stderr: decode_utf8(out.stderr),
            },
        )
    }
}

/// Turns what a finished process left behind into the answer for the content.
pub fn conclude(out: ProcessOutput) -> (r: Result<ProcessRunResult, HandlerError>)
    ensures
        answer_view(r) == verdict(out@),
{
    let succeeded = match out.exit_code {
        Some(code) => code == 0,
        None => false,
    };
    if !succeeded {
        return Err(
            HandlerError::ExitFailure {
                exit_code: out.exit_code,
                stdout: capture(out.stdout),
                stderr: capture(out.stderr),
            },
        );
    }
    let stdout = match decode_text(out.stdout) {
        Ok(text) => text,
        Err(_) => {
            return Err(HandlerError::Encoding(TextSource::Stdout));
        },
    };
    let stderr = match decode_text(out.stderr) {
        Ok(text) => text,
        Err(_) => {
            return Err(HandlerError::Encoding(TextSource::Stderr));
        },
    };
    Ok(ProcessRunResult { exit_status: 0, stdout, stderr })
}

/// Where one invocation stands.
#[derive(Debug, Clone, Copy, PartialEq, Eq)]
pub enum RunPhase {
    Spawning,
    Running,
    Completed,
    TimedOut,
    Cancelled,
    SpawnFailed,
}

impl RunPhase {
    /// A settled invocation has given its answer and gives no other.
    pub open spec fn is_settled(self) -> bool {
        !(self is Spawning) && !(self is Running)
    }

    /// `true` once the invocation has given its answer.
    pub fn settled(&self) -> (r: bool)
        ensures
            r == self.is_settled(),
    {
        match self {
            RunPhase::Spawning => false,
            RunPhase::Running => false,
            _ => true,
        }
    }
}

/// Something that happened to an invocation.
#[derive(Debug, Clone, PartialEq, Eq)]
pub enum RunEvent {
    /// The process was started.
    Spawned,
    /// The process could not be started or awaited.
    Failed(String),
    /// The process ended by itself.
    Exited(ProcessOutput),
    /// The timeout elapsed.
    TimeoutElapsed,
    /// The content navigated away.
    Navigated,
}

/// The mathematical value of a [`RunEvent`].
pub enum Happening {
    Spawned,
    Failed(Seq<char>),
    Exited(Output),
    TimeoutElapsed,
    Navigated,
}

impl View for RunEvent {
    type V = Happening;

    open spec fn view(&self) -> Happening {
        match *self {
            RunEvent::Spawned => Happening::Spawned,
            RunEvent::Failed(detail) => Happening::Failed(detail@),
            RunEvent::Exited(out) => Happening::Exited(out@),
            RunEvent::TimeoutElapsed => Happening::TimeoutElapsed,
            RunEvent::Navigated => Happening::Navigated,
        }
    }
}

/// What the caller has to do after an event.
#[derive(Debug, PartialEq, Eq)]
pub enum RunAction {
    /// Keep waiting for the process, the timeout and navigation.
    Wait,
    /// Send this answer.
    Respond(Result<ProcessRunResult, HandlerError>),
    /// End the process by force, then send this failure.
    KillAndRespond(HandlerError),
    /// The invocation had settled before: do nothing.
    Ignore,
}

/// The mathematical value of a [`RunAction`].
pub enum Step {
    Wait,
    Respond(Result<RunResult, Failure>),
    KillAndRespond(Failure),
    Ignore,
}

impl View for RunAction {
    type V = Step;

    open spec fn view(&self) -> Step {
        match *self {
            RunAction::Wait => Step::Wait,
            RunAction::Respond(a) => Step::Respond(answer_view(a)),
            RunAction::KillAndRespond(e) => Step::KillAndRespond(e@),
            RunAction::Ignore => Step::Ignore,
        }
    }
}

/// The transition of one invocation: the phase after the event, and what to do.
pub open spec fn next_step(phase: RunPhase, event: Happening) -> (RunPhase, Step) {
    if phase.is_settled() {
        (phase, Step::Ignore)
    } else {
        match event {
            Happening::Spawned => if phase is Spawning {
                (RunPhase::Running, Step::Wait)
            } else {
                (phase, Step::Ignore)
            },
            Happening::Failed(detail) => (
                RunPhase::SpawnFailed,
                Step::Respond(Err(Failure::SpawnFailure(detail))),
            ),
            Happening::Exited(out) => (RunPhase::Completed, Step::Respond(verdict(out))),
            Happening::TimeoutElapsed => (RunPhase::TimedOut, Step::KillAndRespond(Failure::Timeout)),
            Happening::Navigated => (RunPhase::Cancelled, Step::KillAndRespond(Failure::Cancelled)),
        }
    }
}

/// Feeds one event to an invocation.
pub fn advance(phase: RunPhase, event: RunEvent) -> (r: (RunPhase, RunAction))
    ensures
        (r.0, r.1@) == next_step(phase, event@),
{
    if phase.settled() {
        return (phase, RunAction::Ignore);
    }
    match event {
        RunEvent::Spawned => match phase {
            RunPhase::Spawning => (RunPhase::Running, RunAction::Wait),
            _ => (phase, RunAction::Ignore),
        },
        RunEvent::Failed(detail) => (
            RunPhase::SpawnFailed,
            RunAction::Respond(Err(HandlerError::SpawnFailure(detail))),
        ),
        RunEvent::Exited(out) => (RunPhase::Completed, RunAction::Respond(conclude(out))),
        RunEvent::TimeoutElapsed => (
            RunPhase::TimedOut,
            RunAction::KillAndRespond(HandlerError::Timeout),
        ),
        RunEvent::Navigated => (
            RunPhase::Cancelled,
            RunAction::KillAndRespond(HandlerError::Cancelled),
        ),
    }
}

/// The answers that a step sends: one or none.
pub open spec fn answers_of(step: Step) -> Seq<Result<RunResult, Failure>> {
    match step {
        Step::Respond(a) => seq![a],
        Step::KillAndRespond(f) => seq![Err(f)],
        _ => seq![],
    }
}

/// The phase of an invocation after a series of events.
pub open spec fn phase_after(phase: RunPhase, events: Seq<Happening>) -> RunPhase
    decreases events.len(),
{
    if events.len() == 0 {
        phase
    } else {
        phase_after(next_step(phase, events.first()).0, events.drop_first())
    }
}

/// All the answers that an invocation sends over a series of events, in order.
pub open spec fn answers(phase: RunPhase, events: Seq<Happening>) -> Seq<Result<RunResult, Failure>>
    decreases events.len(),
{
    if events.len() == 0 {
        seq![]
    } else {
        let (next, step) = next_step(phase, events.first());
        answers_of(step) + answers(next, events.drop_first())
    }
}

/// A settled invocation stays where it is and sends nothing more, whatever
/// happens afterwards.
pub proof fn lemma_settled_is_silent(phase: RunPhase, events: Seq<Happening>)
    requires
        phase.is_settled(),
    ensures
        answers(phase, events) == Seq::<Result<RunResult, Failure>>::empty(),
        phase_after(phase, events) == phase,
    decreases events.len(),
{
    if events.len() > 0 {
        lemma_settled_is_silent(phase, events.drop_first());
        assert(answers(phase, events) =~= Seq::<Result<RunResult, Failure>>::empty());
    }
}

/// An invocation answers at most once, and it has answered exactly when it has
/// settled.
pub proof fn lemma_one_answer(phase: RunPhase, events: Seq<Happening>)
    requires
        !phase.is_settled(),
    ensures
        answers(phase, events).len() <= 1,
        answers(phase, events).len() == 1 <==> phase_after(phase, events).is_settled(),
    decreases events.len(),
{
    if events.len() > 0 {
        let (next, step) = next_step(phase, events.first());
        if next.is_settled() {
            lemma_settled_is_silent(next, events.drop_first());
        } else {
            lemma_one_answer(next, events.drop_first());
        }
    }
}

/// Once the timeout has elapsed on an invocation that had not settled, its one
/// answer is the timeout failure: nothing that happens later, not even a
/// successful exit, adds or changes an answer.
pub proof fn lemma_timeout_is_final(phase: RunPhase, later: Seq<Happening>)
    requires
        !phase.is_settled(),
    ensures
        answers(phase, seq![Happening::TimeoutElapsed] + later) == seq![
            Err::<RunResult, Failure>(Failure::Timeout),
        ],
        phase_after(phase, seq![Happening::TimeoutElapsed] + later) == RunPhase::TimedOut,
{
    let events = seq![Happening::TimeoutElapsed] + later;
    assert(events.first() == Happening::TimeoutElapsed);
    assert(events.drop_first() =~= later);
    lemma_settled_is_silent(RunPhase::TimedOut, later);
    assert(answers(phase, events) =~= seq![Err::<RunResult, Failure>(Failure::Timeout)]);
}

/// Once the content has navigated away from an invocation that had not
/// settled, its one answer is the cancellation: no success follows.
pub proof fn lemma_navigation_is_final(phase: RunPhase, later: Seq<Happening>)
    requires
        !phase.is_settled(),
    ensures
        answers(phase, seq![Happening::Navigated] + later) == seq![
            Err::<RunResult, Failure>(Failure::Cancelled),
        ],
        phase_after(phase, seq![Happening::Navigated] + later) == RunPhase::Cancelled,
{
    let events = seq![Happening::Navigated] + later;
    assert(events.first() == Happening::Navigated);
    assert(events.drop_first() =~= later);
    lemma_settled_is_silent(RunPhase::Cancelled, later);
    assert(answers(phase, events) =~= seq![Err::<RunResult, Failure>(Failure::Cancelled)]);
}

/// The answers to a series of events are the answers to its first part,
/// followed by those that the rest draws from the phase the first part led to.
pub proof fn lemma_answers_split(phase: RunPhase, before: Seq<Happening>, after: Seq<Happening>)
    ensures
        answers(phase, before + after) == answers(phase, before) + answers(
            phase_after(phase, before),
            after,
        ),
        phase_after(phase, before + after) == phase_after(phase_after(phase, before), after),
    decreases before.len(),
{
    if before.len() == 0 {
        assert(before + after =~= after);
        assert(answers(phase, before + after) =~= answers(phase, before) + answers(
            phase_after(phase, before),
            after,
        ));
    } else {
        let next = next_step(phase, before.first()).0;
        assert((before + after).first() == before.first());
        assert((before + after).drop_first() =~= before.drop_first() + after);
        lemma_answers_split(next, before.drop_first(), after);
        assert(answers(phase, before + after) =~= answers(phase, before) + answers(
            phase_after(phase, before),
            after,
        ));
    }
}

/// A command that exceeds its timeout gives exactly one answer, the timeout
/// failure, whatever happened before without settling it and whatever
/// happens afterwards.
pub proof fn lemma_timeout_yields_one_timeout(before: Seq<Happening>, later: Seq<Happening>)
    requires
        !phase_after(RunPhase::Spawning, before).is_settled(),
    ensures
        answers(RunPhase::Spawning, before + seq![Happening::TimeoutElapsed] + later) == seq![
            Err::<RunResult, Failure>(Failure::Timeout),
        ],
{
    let rest = seq![Happening::TimeoutElapsed] + later;
    lemma_one_answer(RunPhase::Spawning, before);
    lemma_answers_split(RunPhase::Spawning, before, rest);
    lemma_timeout_is_final(phase_after(RunPhase::Spawning, before), later);
    assert(before + seq![Happening::TimeoutElapsed] + later =~= before + rest);
    assert(answers(RunPhase::Spawning, before) =~= Seq::<Result<RunResult, Failure>>::empty());
    assert(answers(RunPhase::Spawning, before + rest) =~= seq![
        Err::<RunResult, Failure>(Failure::Timeout),
    ]);
}

/// A command that navigation cancels gives exactly one answer, the
/// cancellation, whatever happened before without settling it and whatever
/// happens afterwards.
pub proof fn lemma_navigation_yields_one_cancellation(
    before: Seq<Happening>,
    later: Seq<Happening>,
)
    requires
        !phase_after(RunPhase::Spawning, before).is_settled(),
    ensures
        answers(RunPhase::Spawning, before + seq![Happening::Navigated] + later) == seq![
            Err::<RunResult, Failure>(Failure::Cancelled),
        ],
{
    let rest = seq![Happening::Navigated] + later;
    lemma_one_answer(RunPhase::Spawning, before);
    lemma_answers_split(RunPhase::Spawning, before, rest);
    lemma_navigation_is_final(phase_after(RunPhase::Spawning, before), later);
    assert(before + seq![Happening::Navigated] + later =~= before + rest);
    assert(answers(RunPhase::Spawning, before) =~= Seq::<Result<RunResult, Failure>>::empty());
    assert(answers(RunPhase::Spawning, before + rest) =~= seq![
        Err::<RunResult, Failure>(Failure::Cancelled),
    ]);
}

/// The events of a joint run that belong to the invocation looked at. In a
/// joint run each event is marked: `true` for the invocation looked at,
/// `false` for another one that is in flight beside it.
pub open spec fn own_events(joint: Seq<(bool, Happening)>) -> Seq<Happening>
    decreases joint.len(),
{
    if joint.len() == 0 {
        seq![]
    } else if joint.first().0 {
        seq![joint.first().1] + own_events(joint.drop_first())
    } else {
        own_events(joint.drop_first())
    }
}

/// The answers that an invocation sends while another one is in flight beside
/// it and their events arrive interleaved.
pub open spec fn answers_beside(
    own: RunPhase,
    other: RunPhase,
    joint: Seq<(bool, Happening)>,
) -> Seq<Result<RunResult, Failure>>
    decreases joint.len(),
{
    if joint.len() == 0 {
        seq![]
    } else if joint.first().0 {
        let (next, step) = next_step(own, joint.first().1);
        answers_of(step) + answers_beside(next, other, joint.drop_first())
    } else {
        answers_beside(own, next_step(other, joint.first().1).0, joint.drop_first())
    }
}

/// Two invocations in flight together do not touch each other: what one of
/// them answers is what it would answer alone to its own events, wherever
/// the other stands and whatever happens to the other in between.
pub proof fn lemma_runs_are_independent(
    own: RunPhase,
    other: RunPhase,
    joint: Seq<(bool, Happening)>,
)
    ensures
        answers_beside(own, other, joint) == answers(own, own_events(joint)),
    decreases joint.len(),
{
    if joint.len() > 0 {
        let rest = joint.drop_first();
        if joint.first().0 {
            let event = joint.first().1;
            let next = next_step(own, event).0;
            lemma_runs_are_independent(next, other, rest);
            let mine = own_events(joint);
            assert(mine.first() == event);
            assert(mine.drop_first() =~= own_events(rest));
        } else {
            lemma_runs_are_independent(own, next_step(other, joint.first().1).0, rest);
        }
    }
}

/// Invalid text in the output of a successful process is an encoding failure:
/// no text is made up for it.
pub proof fn lemma_invalid_output_is_refused(out: Output)
    requires
        out.exit_code == Some(0i32),
        !valid_utf8(out.stdout) || !valid_utf8(out.stderr),
    ensures
        verdict(out) == Err::<RunResult, Failure>(
            Failure::Encoding(
                if !valid_utf8(out.stdout) {
                    TextSource::Stdout
                } else {
                    TextSource::Stderr
                },
            ),
        ),
{
}

} // verus!
