//! Building a program as a state machine: compile the vertex stage, compile
//! the fragment stage, link, and release every stage object on every path.

use vstd::prelude::*;

use crate::error::{ErrorModel, ShaderError};
use crate::info_log::{diagnostic, info_log_text, status_ok, STATUS_FAILED};
use crate::shader::{Shader, Stage};

verus! {

/// The pipeline role a stage is compiled for.
#[derive(Debug, Clone, Copy, PartialEq, Eq, Structural)]
pub enum StageKind {
    Vertex,
    Fragment,
}

/// Where the assembly of one program stands.
#[derive(Debug, PartialEq, Eq)]
pub enum BuildState {
    /// The vertex stage is being compiled; the fragment source waits its turn.
    CompilingVertex { fragment_source: String },
    /// The vertex stage compiled; the fragment stage is being compiled.
    CompilingFragment { vertex: Stage },
    /// Both stages compiled; the program is being linked.
    Linking { vertex: Stage, fragment: Stage },
    /// The outcome has been handed out; nothing more is accepted.
    Done,
}

/// A `BuildState` with its text as a character sequence.
pub enum StateModel {
    CompilingVertex { fragment_source: Seq<char> },
    CompilingFragment { vertex: Stage },
    Linking { vertex: Stage, fragment: Stage },
    Done,
}

/// What the driver reports once it has performed the last action.
#[derive(Debug, PartialEq, Eq)]
pub enum BuildEvent {
    /// A stage object was created and compiled: its handle, its compile
    /// status and the raw bytes of its info log.
    Compiled { stage: Stage, status: i32, log: Vec<u8> },
    /// A program object was created from the two stages and linked: its
    /// handle, its link status and the raw bytes of its info log.
    Linked { program: u32, status: i32, log: Vec<u8> },
}

/// A `BuildEvent` with its log as a byte sequence.
pub enum EventModel {
    Compiled { stage: Stage, status: i32, log: Seq<u8> },
    Linked { program: u32, status: i32, log: Seq<u8> },
}

/// What the driver is asked to do next.
#[derive(Debug, PartialEq, Eq)]
pub enum BuildAction {
    /// Create a stage object of this kind, load the source and compile it.
    Compile { kind: StageKind, source: String },
    /// Create a program object, attach both stages and link it.
    Link { vertex: Stage, fragment: Stage },
    /// Delete the listed stage objects and, where one is given, the program
    /// object; then hand out the result.
    Finish {
        release_stages: Vec<Stage>,
        release_program: Option<u32>,
        result: Result<Shader, ShaderError>,
    },
}

/// A `BuildAction` over sequences, with a program named by its handle.
pub enum ActionModel {
    Compile { kind: StageKind, source: Seq<char> },
    Link { vertex: Stage, fragment: Stage },
    Finish {
        release_stages: Seq<Stage>,
        release_program: Option<u32>,
        result: Result<u32, ErrorModel>,
    },
}

impl View for BuildState {
    type V = StateModel;

    open spec fn view(&self) -> StateModel {
        match self {
            BuildState::CompilingVertex { fragment_source } => StateModel::CompilingVertex {
                fragment_source: fragment_source@,
            },
            BuildState::CompilingFragment { vertex } => StateModel::CompilingFragment {
                vertex: *vertex,
            },
            BuildState::Linking { vertex, fragment } => StateModel::Linking {
                vertex: *vertex,
                fragment: *fragment,
            },
            BuildState::Done => StateModel::Done,
        }
    }
}

impl View for BuildEvent {
    type V = EventModel;

    open spec fn view(&self) -> EventModel {
        match self {
            BuildEvent::Compiled { stage, status, log } => EventModel::Compiled {
                stage: *stage,
                status: *status,
                log: log@,
            },
            BuildEvent::Linked { program, status, log } => EventModel::Linked {
                program: *program,
                status: *status,
                log: log@,
            },
        }
    }
}

/// The outcome of a build, with a program named by its handle.
pub open spec fn result_model(r: Result<Shader, ShaderError>) -> Result<u32, ErrorModel> {
    match r {
        Ok(s) => Ok(s.id),
        Err(e) => Err(e@),
    }
}

impl View for BuildAction {
    type V = ActionModel;

    open spec fn view(&self) -> ActionModel {
        match self {
            BuildAction::Compile { kind, source } => ActionModel::Compile {
                kind: *kind,
                source: source@,
            },
            BuildAction::Link { vertex, fragment } => ActionModel::Link {
                vertex: *vertex,
                fragment: *fragment,
            },
            BuildAction::Finish { release_stages, release_program, result } => ActionModel::Finish {
                release_stages: release_stages@,
                release_program: *release_program,
                result: result_model(*result),
            },
        }
    }
}

/// The state a build starts in.
pub open spec fn initial(fragment_source: Seq<char>) -> StateModel {
    StateModel::CompilingVertex { fragment_source }
}

/// Whether a state can take an event: a compile report while a stage is
/// compiling, a link report while linking, nothing once done.
pub open spec fn accepts_event(s: StateModel, e: EventModel) -> bool {
    match s {
        StateModel::CompilingVertex { .. } => e is Compiled,
        StateModel::CompilingFragment { .. } => e is Compiled,
        StateModel::Linking { .. } => e is Linked,
        StateModel::Done => false,
    }
}

/// One transition: the state after an accepted event and the action it asks for.
///
/// A failed compile ends the build at once, releasing every stage compiled so
/// far; no program object exists yet. A failed link releases both stages and
/// the program object. A successful link releases both stages and hands out
/// the program.
pub open spec fn next(s: StateModel, e: EventModel) -> (StateModel, ActionModel) {
    match (s, e) {
        (
            StateModel::CompilingVertex { fragment_source },
            EventModel::Compiled { stage, status, log },
        ) => if status_ok(status) {
            (
                StateModel::CompilingFragment { vertex: stage },
                ActionModel::Compile { kind: StageKind::Fragment, source: fragment_source },
            )
        } else {
            (
                StateModel::Done,
                ActionModel::Finish {
                    release_stages: seq![stage],
                    release_program: None,
                    result: Err(ErrorModel::VertexCompile(diagnostic(log))),
                },
            )
        },
        (StateModel::CompilingFragment { vertex }, EventModel::Compiled { stage, status, log }) => {
            if status_ok(status) {
                (
                    StateModel::Linking { vertex, fragment: stage },
                    ActionModel::Link { vertex, fragment: stage },
                )
            } else {
                (
                    StateModel::Done,
                    ActionModel::Finish {
                        release_stages: seq![vertex, stage],
                        release_program: None,
                        result: Err(ErrorModel::FragmentCompile(diagnostic(log))),
                    },
                )
            }
        },
        (StateModel::Linking { vertex, fragment }, EventModel::Linked { program, status, log }) => {
            if status_ok(status) {
                (
                    StateModel::Done,
                    ActionModel::Finish {
                        release_stages: seq![vertex, fragment],
                        release_program: None,
                        result: Ok(program),
                    },
                )
            } else {
                (
                    StateModel::Done,
                    ActionModel::Finish {
                        release_stages: seq![vertex, fragment],
                        release_program: Some(program),
                        result: Err(ErrorModel::Link(diagnostic(log))),
                    },
                )
            }
        },
        _ => (s, arbitrary()),
    }
}

impl BuildState {
    /// Begins building a program from two stage sources: the first action
    /// compiles the vertex stage.
    pub fn start(vertex_source: String, fragment_source: String) -> (r: (BuildState, BuildAction))
        ensures
            r.0@ == initial(fragment_source@),
            r.1@ == (ActionModel::Compile { kind: StageKind::Vertex, source: vertex_source@ }),
    {
        (
            BuildState::CompilingVertex { fragment_source },
            BuildAction::Compile { kind: StageKind::Vertex, source: vertex_source },
        )
    }

    /// Begins building a program from two stage sources read from files:
    /// `None` stands for a file that could not be read. The vertex file is
    /// looked at first; the first unreadable file is the error.
    pub fn start_from_files(
        vertex_path: String,
        vertex_source: Option<String>,
        fragment_path: String,
        fragment_source: Option<String>,
    ) -> (r: Result<(BuildState, BuildAction), ShaderError>)
        ensures
            match (vertex_source, fragment_source) {
                (None, _) => r matches Err(e) && e@ == ErrorModel::Io(vertex_path@),
                (Some(_), None) => r matches Err(e) && e@ == ErrorModel::Io(fragment_path@),
                (Some(v), Some(f)) => r matches Ok(p) && p.0@ == initial(f@) && p.1@ == (
                ActionModel::Compile { kind: StageKind::Vertex, source: v@ }),
            },
    {
        match vertex_source {
            None => Err(ShaderError::Io { path: vertex_path }),
            Some(v) => match fragment_source {
                None => Err(ShaderError::Io { path: fragment_path }),
                Some(f) => Ok(BuildState::start(v, f)),
            },
        }
    }

    /// Whether this state can take the event.
    pub fn accepts(&self, event: &BuildEvent) -> (r: bool)
        ensures
            r == accepts_event(self@, event@),
    {
        match self {
            BuildState::CompilingVertex { .. } => matches!(event, BuildEvent::Compiled { .. }),
            BuildState::CompilingFragment { .. } => matches!(event, BuildEvent::Compiled { .. }),
            BuildState::Linking { .. } => matches!(event, BuildEvent::Linked { .. }),
            BuildState::Done => false,
        }
    }

    /// Takes the driver's report on the last action; returns the next state
    /// and the next action.
    pub fn step(self, event: BuildEvent) -> (r: (BuildState, BuildAction))
        requires
            accepts_event(self@, event@),
        ensures
            (r.0@, r.1@) == next(self@, event@),
    {
        match self {
            BuildState::CompilingVertex { fragment_source } => match event {
                BuildEvent::Compiled { stage, status, log } => {
                    if status != STATUS_FAILED {
                        (
                            BuildState::CompilingFragment { vertex: stage },
                            BuildAction::Compile { kind: StageKind::Fragment, source: fragment_source },
                        )
                    } else {
                        let log = info_log_text(&log);
                        let release_stages = vec![stage];
                        assert(release_stages@ =~= seq![stage]);
                        (
                            BuildState::Done,
                            BuildAction::Finish {
                                release_stages,
                                release_program: None,
                                result: Err(ShaderError::VertexCompile { log }),
                            },
                        )
                    }
                },
                BuildEvent::Linked { .. } => {
                    proof {
                        assert(false);
                    }
                    (BuildState::Done, BuildAction::Link { vertex: Stage { id: 0 }, fragment: Stage { id: 0 } })
                },
            },
            BuildState::CompilingFragment { vertex } => match event {
                BuildEvent::Compiled { stage, status, log } => {
                    if status != STATUS_FAILED {
                        (
                            BuildState::Linking { vertex, fragment: stage },
                            BuildAction::Link { vertex, fragment: stage },
                        )
                    } else {
                        let log = info_log_text(&log);
                        let release_stages = vec![vertex, stage];
                        assert(release_stages@ =~= seq![vertex, stage]);
                        (
                            BuildState::Done,
                            BuildAction::Finish {
                                release_stages,
                                release_program: None,
                                result: Err(ShaderError::FragmentCompile { log }),
                            },
                        )
                    }
                },
                BuildEvent::Linked { .. } => {
                    proof {
                        assert(false);
                    }
                    (BuildState::Done, BuildAction::Link { vertex: Stage { id: 0 }, fragment: Stage { id: 0 } })
                },
            },
            BuildState::Linking { vertex, fragment } => match event {
                BuildEvent::Linked { program, status, log } => {
                    let release_stages = vec![vertex, fragment];
                    assert(release_stages@ =~= seq![vertex, fragment]);
                    if status != STATUS_FAILED {
                        (
                            BuildState::Done,
                            BuildAction::Finish {
                                release_stages,
                                release_program: None,
                                result: Ok(Shader { id: program }),
                            },
                        )
                    } else {
                        let log = info_log_text(&log);
                        (
                            BuildState::Done,
                            BuildAction::Finish {
                                release_stages,
                                release_program: Some(program),
                                result: Err(ShaderError::Link { log }),
                            },
                        )
                    }
                },
                BuildEvent::Compiled { .. } => {
                    proof {
                        assert(false);
                    }
                    (BuildState::Done, BuildAction::Link { vertex: Stage { id: 0 }, fragment: Stage { id: 0 } })
                },
            },
            BuildState::Done => {
                proof {
                    assert(false);
                }
                (BuildState::Done, BuildAction::Link { vertex: Stage { id: 0 }, fragment: Stage { id: 0 } })
            },
        }
    }
}

/// The state reached, and the actions asked for, when a state takes the
/// events in order.
pub open spec fn run(s: StateModel, events: Seq<EventModel>) -> (StateModel, Seq<ActionModel>)
    decreases events.len(),
{
    if events.len() == 0 {
        (s, Seq::empty())
    } else {
        let (mid, actions) = run(s, events.drop_last());
        let (t, a) = next(mid, events.last());
        (t, actions.push(a))
    }
}

/// Whether each event of the sequence is accepted by the state it meets.
pub open spec fn accepted_run(s: StateModel, events: Seq<EventModel>) -> bool
    decreases events.len(),
{
    events.len() == 0 || (accepted_run(s, events.drop_last()) && accepts_event(
        run(s, events.drop_last()).0,
        events.last(),
    ))
}

/// The handles of the stages that the events report compiled, in order,
/// whatever their status.
pub open spec fn compiled_stages(events: Seq<EventModel>) -> Seq<Stage>
    decreases events.len(),
{
    if events.len() == 0 {
        Seq::empty()
    } else {
        match events.last() {
            EventModel::Compiled { stage, .. } => compiled_stages(events.drop_last()).push(stage),
            EventModel::Linked { .. } => compiled_stages(events.drop_last()),
        }
    }
}

/// When both stages compile and the program links, the build hands out that
/// program, releases both stages and keeps the program object.
pub proof fn lemma_successful_build(
    fragment_source: Seq<char>,
    vertex: Stage,
    fragment: Stage,
    program: u32,
    vertex_status: i32,
    fragment_status: i32,
    link_status: i32,
    vertex_log: Seq<u8>,
    fragment_log: Seq<u8>,
    link_log: Seq<u8>,
    events: Seq<EventModel>,
)
    requires
        status_ok(vertex_status),
        status_ok(fragment_status),
        status_ok(link_status),
        events == seq![
            EventModel::Compiled { stage: vertex, status: vertex_status, log: vertex_log },
            EventModel::Compiled { stage: fragment, status: fragment_status, log: fragment_log },
            EventModel::Linked { program, status: link_status, log: link_log },
        ],
    ensures
        accepted_run(initial(fragment_source), events),
        run(initial(fragment_source), events).0 == StateModel::Done,
        run(initial(fragment_source), events).1 == seq![
            ActionModel::Compile { kind: StageKind::Fragment, source: fragment_source },
            ActionModel::Link { vertex, fragment },
            ActionModel::Finish {
                release_stages: seq![vertex, fragment],
                release_program: None,
                result: Ok(program),
            },
        ],
{
    let s0 = initial(fragment_source);
    assert(events.drop_last() =~= events.take(2));
    assert(events.take(2).drop_last() =~= events.take(1));
    assert(events.take(1).drop_last() =~= events.take(0));
    assert(events.last() == events[2]);
    assert(events.take(2).last() == events[1]);
    assert(events.take(1).last() == events[0]);
    assert(run(s0, events.take(0)).1 =~= Seq::empty());
    assert(run(s0, events.take(0)).0 == s0);
    assert(accepted_run(s0, events.take(0)));
    assert(accepted_run(s0, events.take(1)));
    assert(accepted_run(s0, events.take(2)));
    assert(run(s0, events.take(1)).1 =~= seq![
        ActionModel::Compile { kind: StageKind::Fragment, source: fragment_source },
    ]);
    assert(run(s0, events.take(2)).1 =~= seq![
        ActionModel::Compile { kind: StageKind::Fragment, source: fragment_source },
        ActionModel::Link { vertex, fragment },
    ]);
    assert(run(initial(fragment_source), events).1 =~= seq![
        ActionModel::Compile { kind: StageKind::Fragment, source: fragment_source },
        ActionModel::Link { vertex, fragment },
        ActionModel::Finish {
            release_stages: seq![vertex, fragment],
            release_program: None,
            result: Ok(program),
        },
    ]);
}

/// When the vertex stage fails to compile, the build ends at once with the
/// compiler's diagnostic, releasing that stage; no link is asked for, no
/// program object exists, and no further event is accepted.
pub proof fn lemma_vertex_failure_ends_build(
    fragment_source: Seq<char>,
    vertex: Stage,
    vertex_status: i32,
    vertex_log: Seq<u8>,
    events: Seq<EventModel>,
)
    requires
        !status_ok(vertex_status),
        events == seq![EventModel::Compiled { stage: vertex, status: vertex_status, log: vertex_log }],
    ensures
        accepted_run(initial(fragment_source), events),
        run(initial(fragment_source), events).1 == seq![
            ActionModel::Finish {
                release_stages: seq![vertex],
                release_program: None,
                result: Err(ErrorModel::VertexCompile(diagnostic(vertex_log))),
            },
        ],
        forall|e: EventModel| !accepts_event(#[trigger] run(initial(fragment_source), events).0, e),
{
    let s0 = initial(fragment_source);
    assert(events.drop_last() =~= events.take(0));
    assert(events.last() == events[0]);
    assert(run(s0, events.take(0)).1 =~= Seq::empty());
    assert(run(s0, events.take(0)).0 == s0);
    assert(accepted_run(s0, events.take(0)));
    assert(run(initial(fragment_source), events).1 =~= seq![
        ActionModel::Finish {
            release_stages: seq![vertex],
            release_program: None,
            result: Err(ErrorModel::VertexCompile(diagnostic(vertex_log))),
        },
    ]);
}

/// When both stages compile but the program does not link, the build fails
/// with the linker's diagnostic and releases both stages and the program object.
pub proof fn lemma_link_failure(
    fragment_source: Seq<char>,
    vertex: Stage,
    fragment: Stage,
    program: u32,
    vertex_status: i32,
    fragment_status: i32,
    link_status: i32,
    vertex_log: Seq<u8>,
    fragment_log: Seq<u8>,
    link_log: Seq<u8>,
    events: Seq<EventModel>,
)
    requires
        status_ok(vertex_status),
        status_ok(fragment_status),
        !status_ok(link_status),
        events == seq![
            EventModel::Compiled { stage: vertex, status: vertex_status, log: vertex_log },
            EventModel::Compiled { stage: fragment, status: fragment_status, log: fragment_log },
            EventModel::Linked { program, status: link_status, log: link_log },
        ],
    ensures
        accepted_run(initial(fragment_source), events),
        run(initial(fragment_source), events).0 == StateModel::Done,
        run(initial(fragment_source), events).1.last() == (ActionModel::Finish {
            release_stages: seq![vertex, fragment],
            release_program: Some(program),
            result: Err(ErrorModel::Link(diagnostic(link_log))),
        }),
{
    let s0 = initial(fragment_source);
    assert(events.drop_last() =~= events.take(2));
    assert(events.take(2).drop_last() =~= events.take(1));
    assert(events.take(1).drop_last() =~= events.take(0));
    assert(events.last() == events[2]);
    assert(events.take(2).last() == events[1]);
    assert(events.take(1).last() == events[0]);
    assert(run(s0, events.take(0)).1 =~= Seq::empty());
    assert(run(s0, events.take(0)).0 == s0);
    assert(accepted_run(s0, events.take(0)));
    assert(accepted_run(s0, events.take(1)));
    assert(accepted_run(s0, events.take(2)));
}

/// What holds in each state of a build that began with `initial`.
proof fn lemma_run_invariant(fragment_source: Seq<char>, events: Seq<EventModel>)
    requires
        accepted_run(initial(fragment_source), events),
    ensures
        match run(initial(fragment_source), events).0 {
            StateModel::CompilingVertex { fragment_source: f } => events.len() == 0
                && f == fragment_source,
            StateModel::CompilingFragment { vertex } => compiled_stages(events) == seq![vertex],
            StateModel::Linking { vertex, fragment } => compiled_stages(events) == seq![
                vertex,
                fragment,
            ],
            StateModel::Done => {
                let last = run(initial(fragment_source), events).1.last();
                &&& run(initial(fragment_source), events).1.len() > 0
                &&& last is Finish
                &&& last->release_stages == compiled_stages(events)
                &&& (last->release_program is Some <==> last->result matches Err(
                    ErrorModel::Link(_),
                ))
            },
        },
    decreases events.len(),
{
    if events.len() > 0 {
        lemma_run_invariant(fragment_source, events.drop_last());
        let prior = compiled_stages(events.drop_last());
        match events.last() {
            EventModel::Compiled { stage, .. } => {
                if prior.len() == 0 {
                    assert(prior.push(stage) =~= seq![stage]);
                } else if prior.len() == 1 {
                    assert(prior.push(stage) =~= seq![prior[0], stage]);
                }
            },
            EventModel::Linked { .. } => {},
        }
    }
}

/// A build that has ended releases every stage it compiled, whichever way
/// it ended, and releases a program object exactly when linking failed.
pub proof fn lemma_finished_build_releases_stages(
    fragment_source: Seq<char>,
    events: Seq<EventModel>,
)
    requires
        accepted_run(initial(fragment_source), events),
        run(initial(fragment_source), events).0 == StateModel::Done,
    ensures
        run(initial(fragment_source), events).1.last() matches ActionModel::Finish {
            release_stages,
            release_program,
            result,
        } && release_stages == compiled_stages(events) && (release_program is Some <==> result matches Err(ErrorModel::Link(_))),
{
    lemma_run_invariant(fragment_source, events);
}

} // verus!
