//! The content gate: the one place from which scripts are evaluated in the content.
//!
//! Every producer sends its script as an event to the loop that owns the
//! content surface. For each event the content gate decides what the loop does with
//! it and whether the loop goes on. Evaluation is best effort: a script that
//! the surface refuses is logged and forgotten.

use vstd::prelude::*;
use vstd::string::*;

verus! {

/// An event that reaches the loop.
#[derive(Debug, Clone, PartialEq, Eq)]
pub enum GateEvent {
    /// A script to evaluate; nobody waits for what it returns.
    Script(String),
    /// A script to evaluate for the outside request `id`, which waits for
    /// what it returns.
    ExternalScript { id: u64, script: String },
    /// A background task failed in a way that ends the program.
    Fatal(String),
    /// The program was asked to end.
    Exit,
    /// The window was asked to close.
    CloseRequested,
    /// The window is gone.
    Destroyed,
    /// Any other event of the toolkit.
    Other,
}

/// What the loop does with an event.
#[derive(Debug, Clone, PartialEq, Eq)]
pub enum GateAction {
    Nothing,
    Evaluate(String),
    EvaluateForAnswer { id: u64, script: String },
}

/// Whether the loop goes on.
#[derive(Debug, Clone, Copy, PartialEq, Eq)]
pub enum Flow {
    /// Sleep until the next event, of whatever source.
    Wait,
    /// Leave the loop.
    Exit,
}

/// The state of the content gate: whether the loop was told to end, and the failure
/// that ended it, if one did.
#[derive(Debug, Clone, PartialEq, Eq)]
pub struct Gate {
    pub closed: bool,
    pub failure: Option<String>,
}

/// The state after an event.
pub open spec fn gate_after(gate: Gate, event: GateEvent) -> Gate {
    if gate.closed {
        gate
    } else {
        match event {
            GateEvent::Fatal(message) => Gate { closed: true, failure: Some(message) },
            GateEvent::Exit | GateEvent::CloseRequested | GateEvent::Destroyed => Gate {
                closed: true,
                failure: gate.failure,
            },
            _ => gate,
        }
    }
}

/// What the loop does with an event. A closed gate evaluates nothing.
pub open spec fn gate_action(gate: Gate, event: GateEvent) -> GateAction {
    if gate.closed {
        GateAction::Nothing
    } else {
        match event {
            GateEvent::Script(script) => GateAction::Evaluate(script),
            GateEvent::ExternalScript { id, script } => GateAction::EvaluateForAnswer {
                id,
                script,
            },
            _ => GateAction::Nothing,
        }
    }
}

/// Whether the loop goes on in the state `gate`.
pub open spec fn gate_flow(gate: Gate) -> Flow {
    if gate.closed {
        Flow::Exit
    } else {
        Flow::Wait
    }
}

impl Gate {
    /// An open gate.
    pub fn new() -> (gate: Gate)
        ensures
            gate == (Gate { closed: false, failure: None }),
    {
        Gate { closed: false, failure: None }
    }

    /// Takes one event. The loop waits for the next event unless this one
    /// ends it; once the content gate is closed it stays closed and evaluates nothing.
    pub fn handle(&mut self, event: GateEvent) -> (r: (Flow, GateAction))
        ensures
            *final(self) == gate_after(*old(self), event),
            r.0 == gate_flow(*final(self)),
            r.1 == gate_action(*old(self), event),
    {
        if self.closed {
            return (Flow::Exit, GateAction::Nothing);
        }
        match event {
            GateEvent::Script(script) => (Flow::Wait, GateAction::Evaluate(script)),
            GateEvent::ExternalScript { id, script } => (
                Flow::Wait,
                GateAction::EvaluateForAnswer { id, script },
            ),
            GateEvent::Fatal(message) => {
                self.closed = true;
                self.failure = Some(message);
                (Flow::Exit, GateAction::Nothing)
            },
            GateEvent::Exit => {
                self.closed = true;
                (Flow::Exit, GateAction::Nothing)
            },
            GateEvent::CloseRequested => {
                self.closed = true;
                (Flow::Exit, GateAction::Nothing)
            },
            GateEvent::Destroyed => {
                self.closed = true;
                (Flow::Exit, GateAction::Nothing)
            },
            GateEvent::Other => (Flow::Wait, GateAction::Nothing),
        }
    }

    /// How the program ends once the loop has been left: with the failure
    /// that ended the loop, if one did.
    pub fn finish(self) -> (r: Result<(), String>)
        ensures
            match self.failure {
                Some(message) => r == Err::<(), String>(message),
                None => r is Ok,
            },
    {
        match self.failure {
            Some(message) => Err(message),
            None => Ok(()),
        }
    }
}

/// The scripts that the content gate evaluates over a series of events, in the order
/// in which it evaluates them.
pub open spec fn evaluated(gate: Gate, events: Seq<GateEvent>) -> Seq<String>
    decreases events.len(),
{
    if events.len() == 0 {
        Seq::<String>::empty()
    } else {
        let now = match gate_action(gate, events.first()) {
            GateAction::Nothing => Seq::<String>::empty(),
            GateAction::Evaluate(script) => seq![script],
            GateAction::EvaluateForAnswer { id, script } => seq![script],
        };
        now + evaluated(gate_after(gate, events.first()), events.drop_first())
    }
}

/// The events that hand over the given scripts, one each, in order.
pub open spec fn script_events(scripts: Seq<String>) -> Seq<GateEvent> {
    Seq::new(scripts.len(), |i: int| GateEvent::Script(scripts[i]))
}

/// An open gate evaluates the scripts it is sent in the order in which they
/// were sent, each once.
pub proof fn lemma_gate_keeps_order(gate: Gate, scripts: Seq<String>)
    requires
        !gate.closed,
    ensures
        evaluated(gate, script_events(scripts)) == scripts,
    decreases scripts.len(),
{
    let events = script_events(scripts);
    if scripts.len() > 0 {
        assert(events.first() == GateEvent::Script(scripts.first()));
        assert(events.drop_first() =~= script_events(scripts.drop_first()));
        lemma_gate_keeps_order(gate, scripts.drop_first());
        assert(evaluated(gate, events) =~= seq![scripts.first()] + scripts.drop_first());
        assert(seq![scripts.first()] + scripts.drop_first() =~= scripts);
    } else {
        assert(evaluated(gate, events) =~= scripts);
    }
}

/// A closed gate evaluates nothing, whatever it is sent.
pub proof fn lemma_closed_gate_is_silent(gate: Gate, events: Seq<GateEvent>)
    requires
        gate.closed,
    ensures
        evaluated(gate, events) == Seq::<String>::empty(),
    decreases events.len(),
{
    if events.len() > 0 {
        lemma_closed_gate_is_silent(gate, events.drop_first());
        assert(evaluated(gate, events) =~= Seq::<String>::empty());
    }
}

} // verus!
