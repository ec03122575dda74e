//! Lifecycle supervision: each pipeline graph is driven on its own
//! thread of control — play, drain the event stream to a terminal
//! condition, stop — and failures stay local to the one pipeline that
//! raised them. The blocking event pump of the live system feeds the
//! same step logic one event at a time.

use vstd::prelude::*;

use crate::graph::{EngineEvent, PipelineGraph, TerminalOutcome, TransitionError};

verus! {

/// What the supervisor records for one finished pipeline run.
#[derive(Clone, PartialEq, Eq, Debug)]
pub enum RunReport {
    /// The engine refused the transition to the running state; the
    /// pipeline never played.
    NeverPlayed(TransitionError),
    /// The event stream reached a terminal condition.
    Completed(TerminalOutcome),
    /// An external stop request ended the run before any terminal
    /// event; the pipeline was force-stopped while playing.
    ForcedStop,
}

/// The first terminal condition in an event stream, if any.
pub open spec fn first_terminal(events: Seq<EngineEvent>) -> Option<TerminalOutcome>
    decreases events.len(),
{
    if events.len() == 0 {
        None
    } else {
        match events[0] {
            EngineEvent::EndOfStream => Some(TerminalOutcome::Eos),
            EngineEvent::Error(e) => Some(TerminalOutcome::Errored(e)),
            EngineEvent::Other => first_terminal(events.drop_first()),
        }
    }
}

/// Pumps a playing graph through a stream of engine events, stopping at
/// the first terminal condition. A stream with no terminal event leaves
/// the graph playing: a pipeline that never hears end-of-stream or an
/// error keeps running indefinitely.
pub fn run_events(g: &mut PipelineGraph, events: Vec<EngineEvent>) -> (r: Option<TerminalOutcome>)
    requires
        old(g).state is Playing,
    ensures
        final(g).stages@ == old(g).stages@,
        final(g).links@ == old(g).links@,
        r == first_terminal(events@),
        r is None ==> final(g).state is Playing,
        r == Some(TerminalOutcome::Eos) ==> final(g).state is Eos,
        (r matches Some(TerminalOutcome::Errored(_))) ==> final(g).state is Errored,
{
    let mut pending = events;
    while pending.len() > 0
        invariant
            g.state is Playing,
            g.stages@ == old(g).stages@,
            g.links@ == old(g).links@,
            first_terminal(events@) == first_terminal(pending@),
        decreases pending@.len(),
    {
        let ghost before = pending@;
        let ev = pending.remove(0);
        proof {
            assert(pending@ =~= before.drop_first());
        }
        match g.pump_step(ev) {
            Some(outcome) => {
                return Some(outcome);
            },
            None => {},
        }
    }
    None
}

/// The whole run a supervisor performs for one graph on its thread:
/// request play, drain events to completion, then orderly shutdown.
/// Whatever happens — engine refusal, end-of-stream, a stage error, or
/// an external stop — the graph ends stopped, and the report says which
/// of those it was.
pub fn supervise(g: &mut PipelineGraph, engine_accepted: bool, events: Vec<EngineEvent>) -> (r:
    RunReport)
    requires
        old(g).state is Built,
    ensures
        final(g).stages@ == old(g).stages@,
        final(g).links@ == old(g).links@,
        final(g).state is Stopped,
        !engine_accepted ==> r is NeverPlayed,
        engine_accepted ==> r == (match first_terminal(events@) {
            Some(t) => RunReport::Completed(t),
            None => RunReport::ForcedStop,
        }),
{
    match g.play(engine_accepted) {
        Err(e) => {
            g.stop();
            RunReport::NeverPlayed(e)
        },
        Ok(()) => {
            let outcome = run_events(g, events);
            g.stop();
            match outcome {
                Some(t) => RunReport::Completed(t),
                None => RunReport::ForcedStop,
            }
        },
    }
}

/// Delivers one engine event to pipeline `i` of a set of independently
/// owned graphs. Every other pipeline is left exactly as it was:
/// failures never propagate across pipelines.
pub fn deliver_event(graphs: &mut Vec<PipelineGraph>, i: usize, event: EngineEvent) -> (r: Option<
    TerminalOutcome,
>)
    requires
        i < old(graphs)@.len(),
        old(graphs)@[i as int].state is Playing,
    ensures
        final(graphs)@.len() == old(graphs)@.len(),
        forall|j: int| 0 <= j < old(graphs)@.len() && j != i ==> final(graphs)@[j] == old(
            graphs,
        )@[j],
        final(graphs)@[i as int].stages@ == old(graphs)@[i as int].stages@,
        final(graphs)@[i as int].links@ == old(graphs)@[i as int].links@,
        event is EndOfStream ==> final(graphs)@[i as int].state is Eos && r == Some(
            TerminalOutcome::Eos,
        ),
        event matches EngineEvent::Error(e) ==> final(graphs)@[i as int].state is Errored
            && r == Some(TerminalOutcome::Errored(e)),
        event is Other ==> final(graphs)@[i as int] == old(graphs)@[i as int] && r is None,
{
    let mut g = graphs.remove(i);
    let r = g.pump_step(event);
    graphs.insert(i, g);
    proof {
        assert forall|j: int| 0 <= j < old(graphs)@.len() && j != i implies final(graphs)@[j]
            == old(graphs)@[j] by {
        }
    }
    r
}

} // verus!
