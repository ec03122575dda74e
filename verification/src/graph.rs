//! A pipeline graph: an ordered set of stages owned exclusively by one
//! graph, explicit links forming a single DAG, and a forward-only
//! lifecycle `Built -> Playing -> (Eos | Errored) -> Stopped`. Once
//! stopped, a graph is not reusable.

use vstd::prelude::*;

use crate::stage::{StageDescriptor, StageKind, check_compatible, check_options, compatible,
    options_ok};

verus! {

/// Lifecycle states of a pipeline graph; transitions only move forward.
#[derive(Clone, Copy, PartialEq, Eq, Structural, Debug)]
pub enum GraphState {
    Built,
    Playing,
    Eos,
    Errored,
    Stopped,
}

/// How far along the forward-only lifecycle a state is.
pub open spec fn state_rank(s: GraphState) -> int {
    match s {
        GraphState::Built => 0,
        GraphState::Playing => 1,
        GraphState::Eos => 2,
        GraphState::Errored => 2,
        GraphState::Stopped => 3,
    }
}

/// Why a stage could not be constructed.
#[derive(Clone, Copy, PartialEq, Eq, Structural, Debug)]
pub enum ConstructReason {
    /// The media engine does not support the requested stage kind.
    UnsupportedKind,
    /// The engine rejected the option at this index at bind time.
    RejectedOption { option_index: usize },
}

/// Construction failed at one stage; nothing was instantiated.
#[derive(Clone, Copy, PartialEq, Eq, Structural, Debug)]
pub struct ConstructionError {
    pub stage_index: usize,
    pub reason: ConstructReason,
}

/// The engine refused to connect two neighboring stages.
#[derive(Clone, Copy, PartialEq, Eq, Structural, Debug)]
pub struct LinkError {
    pub from: usize,
    pub to: usize,
}

/// The engine refused a state change.
#[derive(Clone, Copy, PartialEq, Eq, Structural, Debug)]
pub struct TransitionError {
    pub requested: GraphState,
}

/// A fatal stage error surfaced by the engine's event stream.
#[derive(Clone, PartialEq, Eq, Debug)]
pub struct StreamError {
    /// Path of the stage the error originated at.
    pub source_path: String,
    pub message: String,
    pub debug_info: Option<String>,
}

/// An event drained from the engine's blocking event stream.
#[derive(Clone, PartialEq, Eq, Debug)]
pub enum EngineEvent {
    EndOfStream,
    Error(StreamError),
    /// Any event that is neither terminal condition.
    Other,
}

/// The final state of one pipeline run.
#[derive(Clone, PartialEq, Eq, Debug)]
pub enum TerminalOutcome {
    /// Normal termination; not an error.
    Eos,
    /// A fatal stage error was observed.
    Errored(StreamError),
}

/// A directed link: stage `from`'s output feeds stage `to`'s input.
#[derive(Clone, Copy, PartialEq, Eq, Structural, Debug)]
pub struct Link {
    pub from: usize,
    pub to: usize,
}

/// Whether every stage of the sequence can be constructed against an
/// engine that supports exactly the kinds in `supported`.
pub open spec fn seq_constructible(supported: Seq<StageKind>, descs: Seq<StageDescriptor>) -> bool {
    forall|i: int| 0 <= i < descs.len() ==> stage_constructible(supported, #[trigger] descs[i])
}

/// Whether one stage can be constructed: its kind is in the engine's
/// supported set and every option binds.
pub open spec fn stage_constructible(supported: Seq<StageKind>, d: StageDescriptor) -> bool {
    supported.contains(d.kind) && options_ok(d)
}

/// Whether every adjacent pair of the sequence can be linked in order.
pub open spec fn linear_links_ok(descs: Seq<StageDescriptor>) -> bool {
    forall|i: int| 0 <= i < descs.len() - 1 ==> compatible(
        #[trigger] descs[i],
        descs[i + 1],
    )
}

/// The links of a linear chain over `n` stages.
pub open spec fn linear_link_seq(n: int) -> Seq<Link> {
    if n <= 1 {
        Seq::empty()
    } else {
        Seq::new((n - 1) as nat, |i: int| Link { from: i as usize, to: (i + 1) as usize })
    }
}

/// Whether every link of a plan connects valid, compatible endpoints of
/// the stage sequence.
pub open spec fn plan_ok(descs: Seq<StageDescriptor>, plan: Seq<Link>) -> bool {
    forall|i: int| 0 <= i < plan.len() ==> link_ok(descs, #[trigger] plan[i])
}

/// One planned link is within bounds and joins compatible stages.
pub open spec fn link_ok(descs: Seq<StageDescriptor>, l: Link) -> bool {
    l.from < descs.len() && l.to < descs.len() && compatible(descs[l.from as int], descs[l.to as int])
}

/// An ordered chain of stages owned exclusively by this graph, its
/// links, and its lifecycle state.
pub struct PipelineGraph {
    pub stages: Vec<StageDescriptor>,
    pub links: Vec<Link>,
    pub state: GraphState,
}

impl PipelineGraph {
    /// Every recorded link connects existing, format-compatible stages.
    pub open spec fn wf(self) -> bool {
        plan_ok(self.stages@, self.links@)
    }

    /// Whether frames can be observed flowing from stage `i` to stage
    /// `j`: only over a recorded link, and only while playing.
    pub open spec fn frames_flow(self, i: int, j: int) -> bool {
        self.state is Playing && self.links@.contains(
            Link { from: i as usize, to: j as usize },
        )
    }

    /// Instantiates each descriptor against an engine supporting exactly
    /// the kinds in `supported`. All-or-nothing: the first stage whose
    /// kind is unsupported or whose options are rejected at bind time
    /// fails the whole construction, and no graph is returned.
    pub fn build(supported: &Vec<StageKind>, descriptors: Vec<StageDescriptor>) -> (r: Result<
        PipelineGraph,
        ConstructionError,
    >)
        ensures
            r is Ok <==> seq_constructible(supported@, descriptors@),
            r matches Ok(g) ==> g.stages@ == descriptors@ && g.links@.len() == 0
                && g.state is Built && g.wf(),
            r matches Err(e) ==> {
                &&& e.stage_index < descriptors@.len()
                &&& !stage_constructible(supported@, descriptors@[e.stage_index as int])
                &&& forall|k: int| 0 <= k < e.stage_index ==> stage_constructible(
                    supported@,
                    #[trigger] descriptors@[k],
                )
                &&& (e.reason is UnsupportedKind <==> !supported@.contains(
                    descriptors@[e.stage_index as int].kind,
                ))
            },
    {
        let n = descriptors.len();
        let mut i: usize = 0;
        while i < n
            invariant
                n == descriptors@.len(),
                i <= n,
                forall|k: int| 0 <= k < i ==> stage_constructible(
                    supported@,
                    #[trigger] descriptors@[k],
                ),
            decreases n - i,
        {
            let d = &descriptors[i];
            if !kind_supported(supported, d.kind) {
                return Err(
                    ConstructionError { stage_index: i, reason: ConstructReason::UnsupportedKind },
                );
            }
            match check_options(d) {
                Some(option_index) => {
                    return Err(
                        ConstructionError {
                            stage_index: i,
                            reason: ConstructReason::RejectedOption { option_index },
                        },
                    );
                },
                None => {},
            }
            i = i + 1;
        }
        Ok(PipelineGraph { stages: descriptors, links: Vec::new(), state: GraphState::Built })
    }

    /// Links stage `i` to stage `i + 1` in sequence order. Atomic: on
    /// the first incompatible pair the error names both sides and no
    /// link at all is recorded, so no frames can ever flow between the
    /// rejected pair.
    pub fn link_linear(&mut self) -> (r: Result<(), LinkError>)
        requires
            old(self).state is Built,
            old(self).links@.len() == 0,
        ensures
            final(self).stages@ == old(self).stages@,
            final(self).state == old(self).state,
            final(self).wf(),
            r is Ok <==> linear_links_ok(old(self).stages@),
            r is Ok ==> final(self).links@ == linear_link_seq(old(self).stages@.len() as int),
            r matches Err(e) ==> {
                &&& final(self).links@.len() == 0
                &&& e.from + 1 == e.to
                &&& e.to < old(self).stages@.len()
                &&& !compatible(old(self).stages@[e.from as int], old(self).stages@[e.to as int])
                &&& forall|k: int| 0 <= k < e.from ==> compatible(
                    #[trigger] old(self).stages@[k],
                    old(self).stages@[k + 1],
                )
                &&& forall|i: int, j: int| !final(self).frames_flow(i, j)
            },
    {
        let n = self.stages.len();
        if n <= 1 {
            proof {
                assert(self.links@ =~= linear_link_seq(self.stages@.len() as int));
            }
            return Ok(());
        }
        let mut i: usize = 0;
        while i < n - 1
            invariant
                n == self.stages@.len(),
                1 <= n,
                i <= n - 1,
                self.links@.len() == 0,
                self.state is Built,
                forall|k: int| 0 <= k < i ==> compatible(
                    #[trigger] self.stages@[k],
                    self.stages@[k + 1],
                ),
            decreases n - 1 - i,
        {
            if !check_compatible(&self.stages[i], &self.stages[i + 1]) {
                return Err(LinkError { from: i, to: i + 1 });
            }
            i = i + 1;
        }
        let mut links: Vec<Link> = Vec::new();
        let mut j: usize = 0;
        while j < n - 1
            invariant
                n == self.stages@.len(),
                1 <= n,
                j <= n - 1,
                links@.len() == j,
                linear_links_ok(self.stages@),
                forall|k: int| 0 <= k < j ==> links@[k] == (Link {
                    from: k as usize,
                    to: (k + 1) as usize,
                }),
            decreases n - 1 - j,
        {
            links.push(Link { from: j, to: j + 1 });
            j = j + 1;
        }
        proof {
            assert(links@ =~= linear_link_seq(self.stages@.len() as int));
        }
        self.links = links;
        Ok(())
    }

    /// Connects each planned link in order; the mixer topology hands in
    /// a plan that joins every subscriber-side branch into the shared
    /// mixer as one more input, then the mixer into the output stage.
    /// Atomic like `link_linear`: on the first refused connection no
    /// link at all is recorded.
    pub fn link_plan(&mut self, plan: &Vec<Link>) -> (r: Result<(), LinkError>)
        requires
            old(self).state is Built,
            old(self).links@.len() == 0,
            forall|i: int| 0 <= i < plan@.len() ==> (#[trigger] plan@[i]).from
                < old(self).stages@.len() && plan@[i].to < old(self).stages@.len(),
        ensures
            final(self).stages@ == old(self).stages@,
            final(self).state == old(self).state,
            final(self).wf(),
            r is Ok <==> plan_ok(old(self).stages@, plan@),
            r is Ok ==> final(self).links@ == plan@,
            r matches Err(e) ==> {
                &&& final(self).links@.len() == 0
                &&& exists|i: int| 0 <= i < plan@.len() && #[trigger] plan@[i] == (Link {
                    from: e.from,
                    to: e.to,
                })
                &&& !compatible(old(self).stages@[e.from as int], old(self).stages@[e.to as int])
                &&& forall|i: int, j: int| !final(self).frames_flow(i, j)
            },
    {
        let n = plan.len();
        let mut i: usize = 0;
        while i < n
            invariant
                n == plan@.len(),
                i <= n,
                *self == *old(self),
                self.links@.len() == 0,
                self.state is Built,
                forall|i: int| 0 <= i < plan@.len() ==> (#[trigger] plan@[i]).from
                    < self.stages@.len() && plan@[i].to < self.stages@.len(),
                forall|k: int| 0 <= k < i ==> link_ok(self.stages@, #[trigger] plan@[k]),
            decreases n - i,
        {
            let l = plan[i];
            if !check_compatible(&self.stages[l.from], &self.stages[l.to]) {
                return Err(LinkError { from: l.from, to: l.to });
            }
            i = i + 1;
        }
        let mut links: Vec<Link> = Vec::new();
        let mut j: usize = 0;
        while j < n
            invariant
                n == plan@.len(),
                j <= n,
                links@ =~= plan@.subrange(0, j as int),
            decreases n - j,
        {
            links.push(plan[j]);
            j = j + 1;
        }
        proof {
            assert(links@ =~= plan@);
        }
        self.links = links;
        Ok(())
    }

    /// Requests the engine transition every owned stage to the running
    /// state, as one atomic intent. `engine_accepted` is the engine's
    /// answer to that request; on refusal (or on a graph not freshly
    /// built) the graph is left exactly as it was.
    pub fn play(&mut self, engine_accepted: bool) -> (r: Result<(), TransitionError>)
        ensures
            final(self).stages@ == old(self).stages@,
            final(self).links@ == old(self).links@,
            r is Ok <==> (old(self).state is Built && engine_accepted),
            r is Ok ==> final(self).state is Playing,
            r is Err ==> *final(self) == *old(self),
            state_rank(final(self).state) >= state_rank(old(self).state),
    {
        match self.state {
            GraphState::Built => {
                if engine_accepted {
                    self.state = GraphState::Playing;
                    Ok(())
                } else {
                    Err(TransitionError { requested: GraphState::Playing })
                }
            },
            _ => Err(TransitionError { requested: GraphState::Playing }),
        }
    }

    /// Observes one event drained from the engine's stream while the
    /// graph is playing: end-of-stream and errors are terminal, anything
    /// else leaves the graph running. This is the sole place the core
    /// learns about stage-level failures.
    pub fn pump_step(&mut self, event: EngineEvent) -> (r: Option<TerminalOutcome>)
        requires
            old(self).state is Playing,
        ensures
            final(self).stages@ == old(self).stages@,
            final(self).links@ == old(self).links@,
            event is EndOfStream ==> final(self).state is Eos && r == Some(TerminalOutcome::Eos),
            event matches EngineEvent::Error(e) ==> final(self).state is Errored && r == Some(
                TerminalOutcome::Errored(e),
            ),
            event is Other ==> *final(self) == *old(self) && r is None,
            state_rank(final(self).state) >= state_rank(old(self).state),
    {
        match event {
            EngineEvent::EndOfStream => {
                self.state = GraphState::Eos;
                Some(TerminalOutcome::Eos)
            },
            EngineEvent::Error(e) => {
                self.state = GraphState::Errored;
                Some(TerminalOutcome::Errored(e))
            },
            EngineEvent::Other => None,
        }
    }

    /// Transitions the graph to the idle state releasing its engine-side
    /// resources. Safe after end-of-stream, after an error, or while
    /// playing (forced shutdown); idempotent: stopping an
    /// already-stopped graph changes nothing and is not an error.
    pub fn stop(&mut self)
        ensures
            final(self).stages@ == old(self).stages@,
            final(self).links@ == old(self).links@,
            final(self).state is Stopped,
            old(self).state is Stopped ==> *final(self) == *old(self),
            state_rank(final(self).state) >= state_rank(old(self).state),
    {
        match self.state {
            GraphState::Stopped => {},
            _ => {
                self.state = GraphState::Stopped;
            },
        }
    }

    /// The number of stages this graph owns.
    pub fn stage_count(&self) -> (r: usize)
        ensures
            r == self.stages@.len(),
    {
        self.stages.len()
    }

    /// The current lifecycle state.
    pub fn current_state(&self) -> (r: GraphState)
        ensures
            r == self.state,
    {
        self.state
    }
}

/// Whether the engine's supported set contains `kind`.
pub fn kind_supported(supported: &Vec<StageKind>, kind: StageKind) -> (r: bool)
    ensures
        r == supported@.contains(kind),
{
    let n = supported.len();
    let mut i: usize = 0;
    while i < n
        invariant
            n == supported@.len(),
            i <= n,
            forall|k: int| 0 <= k < i ==> supported@[k] != kind,
        decreases n - i,
    {
        if supported[i] == kind {
            return true;
        }
        i = i + 1;
    }
    false
}

} // verus!
