use vstd::prelude::*;

use crate::shader::LoadError;
use crate::shader::StageKind;

verus! {

/// One request the loader asks its driver to perform.
///
/// The driver owns the filesystem and the graphics context; the loader
/// only decides. Every command but `ReadFile` and `Idle` is a call on
/// the graphics context:
/// - `CreateShader`: create a stage object of the given kind.
/// - `CompileShader`: set the stage object's source, compile it, and
///   query its compile status (fetching the log only on failure).
/// - `CreateProgram`: create a program object.
/// - `AttachShader` / `DetachShader`: attach or detach a stage object.
/// - `LinkProgram`: link the program and query its link status
///   (fetching the log only on failure).
/// - `DeleteShader`: release a stage object.
/// - `UseProgram`: make the program the active one for draw calls.
/// - `Idle`: nothing left to do.
#[derive(Debug, PartialEq, Eq)]
pub enum Command {
    ReadFile { path: String },
    CreateShader { stage: StageKind },
    CompileShader { shader: u32, source: String },
    CreateProgram,
    AttachShader { program: u32, shader: u32 },
    LinkProgram { program: u32 },
    DetachShader { program: u32, shader: u32 },
    DeleteShader { shader: u32 },
    UseProgram { program: u32 },
    Idle,
}

/// What came back from the last command.
///
/// - `FileRead` answers `ReadFile`, echoing the path; `content` is
///   `None` when the file could not be read.
/// - `ObjectCreated` answers `CreateShader` and `CreateProgram` with the
///   handle the context assigned.
/// - `CompileChecked` / `LinkChecked` answer `CompileShader` /
///   `LinkProgram`; `log` is the diagnostic text, empty on success.
/// - `Performed` answers the commands that report nothing.
#[derive(Debug, PartialEq, Eq)]
pub enum LoadEvent {
    FileRead { path: String, content: Option<String> },
    ObjectCreated { id: u32 },
    CompileChecked { ok: bool, log: String },
    LinkChecked { ok: bool, log: String },
    Performed,
}

/// Where a load stands. Each non-terminal state is waiting for the
/// answer to the command issued on entering it, and carries exactly the
/// data still needed to finish.
#[derive(Debug, PartialEq, Eq)]
pub enum LoadState {
    /// Waiting for the vertex source; `frag_path` is read next.
    ReadingVertex { frag_path: String },
    /// Waiting for the fragment source.
    ReadingFragment { vert_src: String },
    /// Waiting for the vertex stage object.
    CreatingVertexStage { vert_src: String, frag_src: String },
    /// Waiting for the vertex compile status.
    CompilingVertex { vert_id: u32, frag_src: String },
    /// Waiting for the fragment stage object.
    CreatingFragmentStage { vert_id: u32, frag_src: String },
    /// Waiting for the fragment compile status.
    CompilingFragment { vert_id: u32, frag_id: u32 },
    /// Waiting for the program object.
    CreatingProgram { vert_id: u32, frag_id: u32 },
    /// Waiting for the vertex stage to be attached.
    AttachingVertex { program: u32, vert_id: u32, frag_id: u32 },
    /// Waiting for the fragment stage to be attached.
    AttachingFragment { program: u32, vert_id: u32, frag_id: u32 },
    /// Waiting for the link status.
    Linking { program: u32, vert_id: u32, frag_id: u32 },
    /// Linked; waiting for the vertex stage to be detached.
    DetachingVertex { program: u32, vert_id: u32, frag_id: u32 },
    /// Waiting for the fragment stage to be detached.
    DetachingFragment { program: u32, vert_id: u32, frag_id: u32 },
    /// Waiting for the vertex stage to be released.
    DeletingVertex { program: u32, frag_id: u32 },
    /// Waiting for the fragment stage to be released.
    DeletingFragment { program: u32 },
    /// The program linked and the transient stages are gone.
    Done { program: u32 },
    /// The load failed; nothing more will be asked of the context.
    Failed { error: LoadError },
}

/// The whole load protocol as one transition function: from the current
/// state and the answer to the last command, to the next state and the
/// next command. Terminal states absorb every event and ask nothing
/// more; an answer that does not fit the question leaves the state
/// unchanged.
pub open spec fn spec_step(state: LoadState, event: LoadEvent) -> (LoadState, Command) {
    match (state, event) {
        (LoadState::ReadingVertex { frag_path }, LoadEvent::FileRead { path, content }) => {
            match content {
                Some(src) => (
                    LoadState::ReadingFragment { vert_src: src },
                    Command::ReadFile { path: frag_path },
                ),
                None => (
                    LoadState::Failed { error: LoadError::SourceNotFound { path } },
                    Command::Idle,
                ),
            }
        },
        (LoadState::ReadingFragment { vert_src }, LoadEvent::FileRead { path, content }) => {
            match content {
                Some(src) => (
                    LoadState::CreatingVertexStage { vert_src, frag_src: src },
                    Command::CreateShader { stage: StageKind::Vertex },
                ),
                None => (
                    LoadState::Failed { error: LoadError::SourceNotFound { path } },
                    Command::Idle,
                ),
            }
        },
        (
            LoadState::CreatingVertexStage { vert_src, frag_src },
            LoadEvent::ObjectCreated { id },
        ) => (
            LoadState::CompilingVertex { vert_id: id, frag_src },
            Command::CompileShader { shader: id, source: vert_src },
        ),
        (
            LoadState::CompilingVertex { vert_id, frag_src },
            LoadEvent::CompileChecked { ok, log },
        ) => {
            if ok {
                (
                    LoadState::CreatingFragmentStage { vert_id, frag_src },
                    Command::CreateShader { stage: StageKind::Fragment },
                )
            } else {
                (
                    LoadState::Failed {
                        error: LoadError::CompileError { stage: StageKind::Vertex, log },
                    },
                    Command::Idle,
                )
            }
        },
        (
            LoadState::CreatingFragmentStage { vert_id, frag_src },
            LoadEvent::ObjectCreated { id },
        ) => (
            LoadState::CompilingFragment { vert_id, frag_id: id },
            Command::CompileShader { shader: id, source: frag_src },
        ),
        (
            LoadState::CompilingFragment { vert_id, frag_id },
            LoadEvent::CompileChecked { ok, log },
        ) => {
            if ok {
                (LoadState::CreatingProgram { vert_id, frag_id }, Command::CreateProgram)
            } else {
                (
                    LoadState::Failed {
                        error: LoadError::CompileError { stage: StageKind::Fragment, log },
                    },
                    Command::Idle,
                )
            }
        },
        (LoadState::CreatingProgram { vert_id, frag_id }, LoadEvent::ObjectCreated { id }) => (
            LoadState::AttachingVertex { program: id, vert_id, frag_id },
            Command::AttachShader { program: id, shader: vert_id },
        ),
        (
            LoadState::AttachingVertex { program, vert_id, frag_id },
            LoadEvent::Performed,
        ) => (
            LoadState::AttachingFragment { program, vert_id, frag_id },
            Command::AttachShader { program, shader: frag_id },
        ),
        (
            LoadState::AttachingFragment { program, vert_id, frag_id },
            LoadEvent::Performed,
        ) => (
            LoadState::Linking { program, vert_id, frag_id },
            Command::LinkProgram { program },
        ),
        (LoadState::Linking { program, vert_id, frag_id }, LoadEvent::LinkChecked { ok, log }) => {
            if ok {
                (
                    LoadState::DetachingVertex { program, vert_id, frag_id },
                    Command::DetachShader { program, shader: vert_id },
                )
            } else {
                (LoadState::Failed { error: LoadError::LinkError { log } }, Command::Idle)
            }
        },
        (
            LoadState::DetachingVertex { program, vert_id, frag_id },
            LoadEvent::Performed,
        ) => (
            LoadState::DetachingFragment { program, vert_id, frag_id },
            Command::DetachShader { program, shader: frag_id },
        ),
        (
            LoadState::DetachingFragment { program, vert_id, frag_id },
            LoadEvent::Performed,
        ) => (
            LoadState::DeletingVertex { program, frag_id },
            Command::DeleteShader { shader: vert_id },
        ),
        (LoadState::DeletingVertex { program, frag_id }, LoadEvent::Performed) => (
            LoadState::DeletingFragment { program },
            Command::DeleteShader { shader: frag_id },
        ),
        (LoadState::DeletingFragment { program }, LoadEvent::Performed) => (
            LoadState::Done { program },
            Command::Idle,
        ),
        (s, _) => (s, Command::Idle),
    }
}

/// Start a load: the first state waits for the vertex source, and the
/// first command asks the driver to read it.
pub fn begin(vert_path: String, frag_path: String) -> (r: (LoadState, Command))
    ensures
        r.0 == (LoadState::ReadingVertex { frag_path }),
        r.1 == (Command::ReadFile { path: vert_path }),
{
    (LoadState::ReadingVertex { frag_path }, Command::ReadFile { path: vert_path })
}

/// Advance the load by one answered command. The result is exactly the
/// transition `spec_step` describes, for every state and every event.
pub fn step(state: LoadState, event: LoadEvent) -> (r: (LoadState, Command))
    ensures
        r == spec_step(state, event),
{
    match (state, event) {
        (LoadState::ReadingVertex { frag_path }, LoadEvent::FileRead { path, content }) => {
            match content {
                Some(src) => (
                    LoadState::ReadingFragment { vert_src: src },
                    Command::ReadFile { path: frag_path },
                ),
                None => (
                    LoadState::Failed { error: LoadError::SourceNotFound { path } },
                    Command::Idle,
                ),
            }
        },
        (LoadState::ReadingFragment { vert_src }, LoadEvent::FileRead { path, content }) => {
            match content {
                Some(src) => (
                    LoadState::CreatingVertexStage { vert_src, frag_src: src },
                    Command::CreateShader { stage: StageKind::Vertex },
                ),
                None => (
                    LoadState::Failed { error: LoadError::SourceNotFound { path } },
                    Command::Idle,
                ),
            }
        },
        (
            LoadState::CreatingVertexStage { vert_src, frag_src },
            LoadEvent::ObjectCreated { id },
        ) => (
            LoadState::CompilingVertex { vert_id: id, frag_src },
            Command::CompileShader { shader: id, source: vert_src },
        ),
        (
            LoadState::CompilingVertex { vert_id, frag_src },
            LoadEvent::CompileChecked { ok, log },
        ) => {
            if ok {
                (
                    LoadState::CreatingFragmentStage { vert_id, frag_src },
                    Command::CreateShader { stage: StageKind::Fragment },
                )
            } else {
                (
                    LoadState::Failed {
                        error: LoadError::CompileError { stage: StageKind::Vertex, log },
                    },
                    Command::Idle,
                )
            }
        },
        (
            LoadState::CreatingFragmentStage { vert_id, frag_src },
            LoadEvent::ObjectCreated { id },
        ) => (
            LoadState::CompilingFragment { vert_id, frag_id: id },
            Command::CompileShader { shader: id, source: frag_src },
        ),
        (
            LoadState::CompilingFragment { vert_id, frag_id },
            LoadEvent::CompileChecked { ok, log },
        ) => {
            if ok {
                (LoadState::CreatingProgram { vert_id, frag_id }, Command::CreateProgram)
            } else {
                (
                    LoadState::Failed {
                        error: LoadError::CompileError { stage: StageKind::Fragment, log },
                    },
                    Command::Idle,
                )
            }
        },
        (LoadState::CreatingProgram { vert_id, frag_id }, LoadEvent::ObjectCreated { id }) => (
            LoadState::AttachingVertex { program: id, vert_id, frag_id },
            Command::AttachShader { program: id, shader: vert_id },
        ),
        (
            LoadState::AttachingVertex { program, vert_id, frag_id },
            LoadEvent::Performed,
        ) => (
            LoadState::AttachingFragment { program, vert_id, frag_id },
            Command::AttachShader { program, shader: frag_id },
        ),
        (
            LoadState::AttachingFragment { program, vert_id, frag_id },
            LoadEvent::Performed,
        ) => (
            LoadState::Linking { program, vert_id, frag_id },
            Command::LinkProgram { program },
        ),
        (LoadState::Linking { program, vert_id, frag_id }, LoadEvent::LinkChecked { ok, log }) => {
            if ok {
                (
                    LoadState::DetachingVertex { program, vert_id, frag_id },
                    Command::DetachShader { program, shader: vert_id },
                )
            } else {
                (LoadState::Failed { error: LoadError::LinkError { log } }, Command::Idle)
            }
        },
        (
            LoadState::DetachingVertex { program, vert_id, frag_id },
            LoadEvent::Performed,
        ) => (
            LoadState::DetachingFragment { program, vert_id, frag_id },
            Command::DetachShader { program, shader: frag_id },
        ),
        (
            LoadState::DetachingFragment { program, vert_id, frag_id },
            LoadEvent::Performed,
        ) => (
            LoadState::DeletingVertex { program, frag_id },
            Command::DeleteShader { shader: vert_id },
        ),
        (LoadState::DeletingVertex { program, frag_id }, LoadEvent::Performed) => (
            LoadState::DeletingFragment { program },
            Command::DeleteShader { shader: frag_id },
        ),
        (LoadState::DeletingFragment { program }, LoadEvent::Performed) => (
            LoadState::Done { program },
            Command::Idle,
        ),
        (s, _) => (s, Command::Idle),
    }
}

/// Read a finished load off as a typed result: the linked program's
/// handle, or exactly the error the protocol failed with. Whether to
/// abort on an error is the caller's decision, not this crate's.
pub fn finish(state: LoadState) -> (r: Result<u32, LoadError>)
    requires
        is_terminal(state),
    ensures
        state matches LoadState::Done { program } ==> r == Ok::<u32, LoadError>(program),
        state matches LoadState::Failed { error } ==> r == Err::<u32, LoadError>(error),
{
    match state {
        LoadState::Done { program } => Ok(program),
        LoadState::Failed { error } => Err(error),
        _ => unreached(),
    }
}

/// A command that touches the graphics context. Reading a source file
/// and having nothing to do are the only commands that do not.
pub open spec fn is_context_command(c: Command) -> bool {
    !(c is ReadFile || c is Idle)
}

/// A state the protocol never leaves.
pub open spec fn is_terminal(s: LoadState) -> bool {
    s is Done || s is Failed
}

/// The whole run of a load: starting from `state`, answer the pending
/// command with each event in turn, collecting the commands issued.
pub open spec fn spec_run(state: LoadState, events: Seq<LoadEvent>) -> (LoadState, Seq<Command>)
    decreases events.len(),
{
    if events.len() == 0 {
        (state, Seq::empty())
    } else {
        let (next, cmd) = spec_step(state, events[0]);
        let (last, rest) = spec_run(next, events.drop_first());
        (last, seq![cmd] + rest)
    }
}

/// A run issues exactly one command per event.
pub proof fn lemma_run_len(state: LoadState, events: Seq<LoadEvent>)
    ensures
        spec_run(state, events).1.len() == events.len(),
    decreases events.len(),
{
    if events.len() > 0 {
        let (next, cmd) = spec_step(state, events[0]);
        lemma_run_len(next, events.drop_first());
    }
}

/// Once a load is done or has failed, every further event is absorbed:
/// the state never changes again and nothing but `Idle` is issued.
pub proof fn lemma_terminal_stays(state: LoadState, events: Seq<LoadEvent>)
    requires
        is_terminal(state),
    ensures
        spec_run(state, events).0 == state,
        forall|i: int|
            0 <= i < spec_run(state, events).1.len() ==> spec_run(state, events).1[i]
                == Command::Idle,
    decreases events.len(),
{
    if events.len() > 0 {
        let (next, cmd) = spec_step(state, events[0]);
        assert(next == state && cmd == Command::Idle);
        lemma_terminal_stays(state, events.drop_first());
        let rest = spec_run(state, events.drop_first()).1;
        let cmds = spec_run(state, events).1;
        assert(cmds == seq![cmd] + rest);
        assert forall|i: int| 0 <= i < cmds.len() implies cmds[i] == Command::Idle by {
            if i > 0 {
                assert(cmds[i] == rest[i - 1]);
            }
        }
    }
}

/// If the vertex source file cannot be read, the load fails at once
/// with a source-not-found error naming that file, and no command is
/// ever issued against the graphics context.
pub proof fn lemma_missing_vertex_source(
    frag_path: String,
    vert_path: String,
    events: Seq<LoadEvent>,
)
    requires
        events.len() >= 1,
        events[0] == (LoadEvent::FileRead { path: vert_path, content: None }),
    ensures
        spec_run(LoadState::ReadingVertex { frag_path }, events).0 == (LoadState::Failed {
            error: LoadError::SourceNotFound { path: vert_path },
        }),
        forall|i: int|
            0 <= i < spec_run(LoadState::ReadingVertex { frag_path }, events).1.len()
                ==> !is_context_command(
                spec_run(LoadState::ReadingVertex { frag_path }, events).1[i],
            ),
{
    let failed = LoadState::Failed { error: LoadError::SourceNotFound { path: vert_path } };
    let (next, cmd) = spec_step(LoadState::ReadingVertex { frag_path }, events[0]);
    assert(next == failed && cmd == Command::Idle);
    lemma_terminal_stays(failed, events.drop_first());
    let rest = spec_run(failed, events.drop_first()).1;
    let cmds = spec_run(LoadState::ReadingVertex { frag_path }, events).1;
    assert(cmds == seq![cmd] + rest);
    assert forall|i: int| 0 <= i < cmds.len() implies !is_context_command(cmds[i]) by {
        if i > 0 {
            assert(cmds[i] == rest[i - 1]);
        }
    }
}

/// If the vertex source is read but the fragment source file cannot be,
/// the load fails with a source-not-found error naming the fragment
/// file, and the only command issued before that was reading it: the
/// graphics context is never touched.
pub proof fn lemma_missing_fragment_source(
    frag_path: String,
    vert_path: String,
    vert_src: String,
    events: Seq<LoadEvent>,
)
    requires
        events.len() >= 2,
        events[0] == (LoadEvent::FileRead { path: vert_path, content: Some(vert_src) }),
        events[1] == (LoadEvent::FileRead { path: frag_path, content: None }),
    ensures
        spec_run(LoadState::ReadingVertex { frag_path }, events).0 == (LoadState::Failed {
            error: LoadError::SourceNotFound { path: frag_path },
        }),
        forall|i: int|
            0 <= i < spec_run(LoadState::ReadingVertex { frag_path }, events).1.len()
                ==> !is_context_command(
                spec_run(LoadState::ReadingVertex { frag_path }, events).1[i],
            ),
{
    let failed = LoadState::Failed { error: LoadError::SourceNotFound { path: frag_path } };
    let s0 = LoadState::ReadingVertex { frag_path };
    let (s1, c0) = spec_step(s0, events[0]);
    assert(s1 == (LoadState::ReadingFragment { vert_src }));
    assert(c0 == (Command::ReadFile { path: frag_path }));
    let events1 = events.drop_first();
    assert(events1[0] == events[1]);
    let (s2, c1) = spec_step(s1, events1[0]);
    assert(s2 == failed && c1 == Command::Idle);
    lemma_terminal_stays(failed, events1.drop_first());
    let rest = spec_run(failed, events1.drop_first()).1;
    let cmds1 = spec_run(s1, events1).1;
    assert(cmds1 == seq![c1] + rest);
    let cmds = spec_run(s0, events).1;
    assert(cmds == seq![c0] + cmds1);
    assert forall|i: int| 0 <= i < cmds.len() implies !is_context_command(cmds[i]) by {
        if i > 0 {
            assert(cmds[i] == cmds1[i - 1]);
            if i > 1 {
                assert(cmds1[i - 1] == rest[i - 2]);
            }
        }
    }
}

/// If the vertex stage fails to compile, the load fails with a
/// compile-failure error that names the vertex stage and carries the
/// compiler's diagnostic exactly as reported, and after creating and
/// compiling that one stage nothing more is asked of the context.
pub proof fn lemma_vertex_compile_failure(
    vert_path: String,
    frag_path: String,
    vert_src: String,
    frag_src: String,
    vert_id: u32,
    log: String,
    events: Seq<LoadEvent>,
)
    requires
        events.len() >= 4,
        events[0] == (LoadEvent::FileRead { path: vert_path, content: Some(vert_src) }),
        events[1] == (LoadEvent::FileRead { path: frag_path, content: Some(frag_src) }),
        events[2] == (LoadEvent::ObjectCreated { id: vert_id }),
        events[3] == (LoadEvent::CompileChecked { ok: false, log }),
    ensures
        ({
            let (t, cmds) = spec_run(LoadState::ReadingVertex { frag_path }, events);
            &&& t == (LoadState::Failed {
                error: LoadError::CompileError { stage: StageKind::Vertex, log },
            })
            &&& cmds[0] == (Command::ReadFile { path: frag_path })
            &&& cmds[1] == (Command::CreateShader { stage: StageKind::Vertex })
            &&& cmds[2] == (Command::CompileShader { shader: vert_id, source: vert_src })
            &&& forall|i: int| 3 <= i < cmds.len() ==> cmds[i] == Command::Idle
        }),
{
    let s0 = LoadState::ReadingVertex { frag_path };
    let (s1, c0) = spec_step(s0, events[0]);
    let ev1 = events.drop_first();
    assert(ev1[0] == events[1]);
    let (s2, c1) = spec_step(s1, ev1[0]);
    let ev2 = ev1.drop_first();
    assert(ev2[0] == ev1[1] && ev1[1] == events[2]);
    let (s3, c2) = spec_step(s2, ev2[0]);
    let ev3 = ev2.drop_first();
    assert(ev3[0] == ev2[1] && ev2[1] == ev1[2] && ev1[2] == events[3]);
    let (s4, c3) = spec_step(s3, ev3[0]);
    let ev4 = ev3.drop_first();
    lemma_terminal_stays(s4, ev4);
    let rest = spec_run(s4, ev4).1;
    let cmds3 = spec_run(s3, ev3).1;
    let cmds2 = spec_run(s2, ev2).1;
    let cmds1 = spec_run(s1, ev1).1;
    let cmds = spec_run(s0, events).1;
    assert(cmds3 == seq![c3] + rest);
    assert(cmds2 == seq![c2] + cmds3);
    assert(cmds1 == seq![c1] + cmds2);
    assert(cmds == seq![c0] + cmds1);
    assert(cmds =~= seq![c0, c1, c2, c3] + rest);
    assert forall|i: int| 3 <= i < cmds.len() implies cmds[i] == Command::Idle by {
        if i > 3 {
            assert(cmds[i] == rest[i - 4]);
        }
    }
}

/// If the vertex stage compiles but the fragment stage does not, the
/// load fails with a compile-failure error that names the fragment
/// stage and carries the compiler's diagnostic exactly as reported, and
/// nothing more is asked of the context.
pub proof fn lemma_fragment_compile_failure(
    vert_path: String,
    frag_path: String,
    vert_src: String,
    frag_src: String,
    vert_id: u32,
    frag_id: u32,
    clog: String,
    log: String,
    events: Seq<LoadEvent>,
)
    requires
        events.len() >= 6,
        events[0] == (LoadEvent::FileRead { path: vert_path, content: Some(vert_src) }),
        events[1] == (LoadEvent::FileRead { path: frag_path, content: Some(frag_src) }),
        events[2] == (LoadEvent::ObjectCreated { id: vert_id }),
        events[3] == (LoadEvent::CompileChecked { ok: true, log: clog }),
        events[4] == (LoadEvent::ObjectCreated { id: frag_id }),
        events[5] == (LoadEvent::CompileChecked { ok: false, log }),
    ensures
        ({
            let (t, cmds) = spec_run(LoadState::ReadingVertex { frag_path }, events);
            &&& t == (LoadState::Failed {
                error: LoadError::CompileError { stage: StageKind::Fragment, log },
            })
            &&& cmds[0] == (Command::ReadFile { path: frag_path })
            &&& cmds[1] == (Command::CreateShader { stage: StageKind::Vertex })
            &&& cmds[2] == (Command::CompileShader { shader: vert_id, source: vert_src })
            &&& cmds[3] == (Command::CreateShader { stage: StageKind::Fragment })
            &&& cmds[4] == (Command::CompileShader { shader: frag_id, source: frag_src })
            &&& forall|i: int| 5 <= i < cmds.len() ==> cmds[i] == Command::Idle
        }),
{
    let s0 = LoadState::ReadingVertex { frag_path };
    let (s1, c0) = spec_step(s0, events[0]);
    let ev1 = events.drop_first();
    assert(ev1[0] == events[1]);
    let (s2, c1) = spec_step(s1, ev1[0]);
    let ev2 = ev1.drop_first();
    assert(ev2[0] == ev1[1] && ev1[1] == events[2]);
    let (s3, c2) = spec_step(s2, ev2[0]);
    let ev3 = ev2.drop_first();
    assert(ev3[0] == ev2[1] && ev2[1] == ev1[2] && ev1[2] == events[3]);
    let (s4, c3) = spec_step(s3, ev3[0]);
    let ev4 = ev3.drop_first();
    assert(ev4[0] == ev3[1] && ev3[1] == ev2[2] && ev2[2] == ev1[3] && ev1[3] == events[4]);
    let (s5, c4) = spec_step(s4, ev4[0]);
    let ev5 = ev4.drop_first();
    assert(ev5[0] == ev4[1] && ev4[1] == ev3[2] && ev3[2] == ev2[3] && ev2[3] == ev1[4] && ev1[4]
        == events[5]);
    let (s6, c5) = spec_step(s5, ev5[0]);
    let ev6 = ev5.drop_first();
    lemma_terminal_stays(s6, ev6);
    let rest = spec_run(s6, ev6).1;
    let cmds5 = spec_run(s5, ev5).1;
    let cmds4 = spec_run(s4, ev4).1;
    let cmds3 = spec_run(s3, ev3).1;
    let cmds2 = spec_run(s2, ev2).1;
    let cmds1 = spec_run(s1, ev1).1;
    let cmds = spec_run(s0, events).1;
    assert(cmds5 == seq![c5] + rest);
    assert(cmds4 == seq![c4] + cmds5);
    assert(cmds3 == seq![c3] + cmds4);
    assert(cmds2 == seq![c2] + cmds3);
    assert(cmds1 == seq![c1] + cmds2);
    assert(cmds == seq![c0] + cmds1);
    assert(cmds =~= seq![c0, c1, c2, c3, c4, c5] + rest);
    assert forall|i: int| 5 <= i < cmds.len() implies cmds[i] == Command::Idle by {
        if i > 5 {
            assert(cmds[i] == rest[i - 6]);
        }
    }
}

/// The shared prefix of every load in which both stages compile: after
/// the driver has answered the first nine commands, the protocol is
/// waiting on the link status, and the commands issued so far are
/// exactly the textbook sequence.
pub proof fn lemma_reaches_linking(
    vert_path: String,
    frag_path: String,
    vert_src: String,
    frag_src: String,
    vert_id: u32,
    frag_id: u32,
    program: u32,
    clog1: String,
    clog2: String,
    events: Seq<LoadEvent>,
)
    requires
        events.len() >= 9,
        events[0] == (LoadEvent::FileRead { path: vert_path, content: Some(vert_src) }),
        events[1] == (LoadEvent::FileRead { path: frag_path, content: Some(frag_src) }),
        events[2] == (LoadEvent::ObjectCreated { id: vert_id }),
        events[3] == (LoadEvent::CompileChecked { ok: true, log: clog1 }),
        events[4] == (LoadEvent::ObjectCreated { id: frag_id }),
        events[5] == (LoadEvent::CompileChecked { ok: true, log: clog2 }),
        events[6] == (LoadEvent::ObjectCreated { id: program }),
        events[7] == LoadEvent::Performed,
        events[8] == LoadEvent::Performed,
    ensures
        ({
            let (t, cmds) = spec_run(LoadState::ReadingVertex { frag_path }, events);
            let (t2, rest) = spec_run(
                LoadState::Linking { program, vert_id, frag_id },
                events.skip(9),
            );
            &&& t == t2
            &&& cmds =~= seq![
                Command::ReadFile { path: frag_path },
                Command::CreateShader { stage: StageKind::Vertex },
                Command::CompileShader { shader: vert_id, source: vert_src },
                Command::CreateShader { stage: StageKind::Fragment },
                Command::CompileShader { shader: frag_id, source: frag_src },
                Command::CreateProgram,
                Command::AttachShader { program, shader: vert_id },
                Command::AttachShader { program, shader: frag_id },
                Command::LinkProgram { program },
            ] + rest
        }),
{
    let s0 = LoadState::ReadingVertex { frag_path };
    let (s1, c0) = spec_step(s0, events[0]);
    let ev1 = events.drop_first();
    assert(ev1[0] == events[1]);
    let (s2, c1) = spec_step(s1, ev1[0]);
    let ev2 = ev1.drop_first();
    assert(ev2[0] == ev1[1] && ev1[1] == events[2]);
    let (s3, c2) = spec_step(s2, ev2[0]);
    let ev3 = ev2.drop_first();
    assert(ev3[0] == ev2[1] && ev2[1] == ev1[2] && ev1[2] == events[3]);
    let (s4, c3) = spec_step(s3, ev3[0]);
    let ev4 = ev3.drop_first();
    assert(ev4[0] == ev3[1] && ev3[1] == ev2[2] && ev2[2] == ev1[3] && ev1[3] == events[4]);
    let (s5, c4) = spec_step(s4, ev4[0]);
    let ev5 = ev4.drop_first();
    assert(ev5[0] == ev4[1] && ev4[1] == ev3[2] && ev3[2] == ev2[3] && ev2[3] == ev1[4] && ev1[4]
        == events[5]);
    let (s6, c5) = spec_step(s5, ev5[0]);
    let ev6 = ev5.drop_first();
    assert(ev6[0] == ev5[1] && ev5[1] == ev4[2] && ev4[2] == ev3[3] && ev3[3] == ev2[4] && ev2[4]
        == ev1[5] && ev1[5] == events[6]);
    let (s7, c6) = spec_step(s6, ev6[0]);
    let ev7 = ev6.drop_first();
    assert(ev7[0] == ev6[1] && ev6[1] == ev5[2] && ev5[2] == ev4[3] && ev4[3] == ev3[4] && ev3[4]
        == ev2[5] && ev2[5] == ev1[6] && ev1[6] == events[7]);
    let (s8, c7) = spec_step(s7, ev7[0]);
    let ev8 = ev7.drop_first();
    assert(ev8[0] == ev7[1] && ev7[1] == ev6[2] && ev6[2] == ev5[3] && ev5[3] == ev4[4] && ev4[4]
        == ev3[5] && ev3[5] == ev2[6] && ev2[6] == ev1[7] && ev1[7] == events[8]);
    let (s9, c8) = spec_step(s8, ev8[0]);
    let ev9 = ev8.drop_first();
    assert(s9 == (LoadState::Linking { program, vert_id, frag_id }));
    assert(ev9 =~= events.skip(9));
    let rest = spec_run(s9, ev9).1;
    let cmds8 = spec_run(s8, ev8).1;
    let cmds7 = spec_run(s7, ev7).1;
    let cmds6 = spec_run(s6, ev6).1;
    let cmds5 = spec_run(s5, ev5).1;
    let cmds4 = spec_run(s4, ev4).1;
    let cmds3 = spec_run(s3, ev3).1;
    let cmds2 = spec_run(s2, ev2).1;
    let cmds1 = spec_run(s1, ev1).1;
    let cmds = spec_run(s0, events).1;
    assert(cmds8 == seq![c8] + rest);
    assert(cmds7 == seq![c7] + cmds8);
    assert(cmds6 == seq![c6] + cmds7);
    assert(cmds5 == seq![c5] + cmds6);
    assert(cmds4 == seq![c4] + cmds5);
    assert(cmds3 == seq![c3] + cmds4);
    assert(cmds2 == seq![c2] + cmds3);
    assert(cmds1 == seq![c1] + cmds2);
    assert(cmds == seq![c0] + cmds1);
    assert(cmds =~= seq![c0, c1, c2, c3, c4, c5, c6, c7, c8] + rest);
}

/// If both stages compile but the program fails to link, the load fails
/// with a link-failure error carrying the linker's diagnostic exactly
/// as reported, and after the link check nothing more is asked of the
/// context.
pub proof fn lemma_link_failure(
    vert_path: String,
    frag_path: String,
    vert_src: String,
    frag_src: String,
    vert_id: u32,
    frag_id: u32,
    program: u32,
    clog1: String,
    clog2: String,
    log: String,
    events: Seq<LoadEvent>,
)
    requires
        events.len() >= 10,
        events[0] == (LoadEvent::FileRead { path: vert_path, content: Some(vert_src) }),
        events[1] == (LoadEvent::FileRead { path: frag_path, content: Some(frag_src) }),
        events[2] == (LoadEvent::ObjectCreated { id: vert_id }),
        events[3] == (LoadEvent::CompileChecked { ok: true, log: clog1 }),
        events[4] == (LoadEvent::ObjectCreated { id: frag_id }),
        events[5] == (LoadEvent::CompileChecked { ok: true, log: clog2 }),
        events[6] == (LoadEvent::ObjectCreated { id: program }),
        events[7] == LoadEvent::Performed,
        events[8] == LoadEvent::Performed,
        events[9] == (LoadEvent::LinkChecked { ok: false, log }),
    ensures
        ({
            let (t, cmds) = spec_run(LoadState::ReadingVertex { frag_path }, events);
            &&& t == (LoadState::Failed { error: LoadError::LinkError { log } })
            &&& forall|i: int| 9 <= i < cmds.len() ==> cmds[i] == Command::Idle
        }),
{
    lemma_reaches_linking(
        vert_path,
        frag_path,
        vert_src,
        frag_src,
        vert_id,
        frag_id,
        program,
        clog1,
        clog2,
        events,
    );
    let linking = LoadState::Linking { program, vert_id, frag_id };
    let tail = events.skip(9);
    assert(tail[0] == events[9]);
    let (f, c9) = spec_step(linking, tail[0]);
    assert(f == (LoadState::Failed { error: LoadError::LinkError { log } }));
    let tail1 = tail.drop_first();
    lemma_terminal_stays(f, tail1);
    let restf = spec_run(f, tail1).1;
    let rest = spec_run(linking, tail).1;
    assert(rest == seq![c9] + restf);
    let cmds = spec_run(LoadState::ReadingVertex { frag_path }, events).1;
    assert forall|i: int| 9 <= i < cmds.len() implies cmds[i] == Command::Idle by {
        assert(cmds[i] == rest[i - 9]);
        if i > 9 {
            assert(rest[i - 9] == restf[i - 10]);
        }
    }
}

/// A state the protocol can only be in once the context has reported a
/// successful link.
pub open spec fn link_confirmed(s: LoadState) -> bool {
    match s {
        LoadState::DetachingVertex { .. }
        | LoadState::DetachingFragment { .. }
        | LoadState::DeletingVertex { .. }
        | LoadState::DeletingFragment { .. }
        | LoadState::Done { .. } => true,
        _ => false,
    }
}

/// The only way into the states past linking is the link check itself
/// coming back successful.
pub proof fn lemma_only_link_success_confirms(s: LoadState, e: LoadEvent)
    requires
        !link_confirmed(s),
        link_confirmed(spec_step(s, e).0),
    ensures
        s is Linking,
        e matches (LoadEvent::LinkChecked { ok, log }) && ok,
{
}

/// The context reported a successful link.
pub open spec fn is_link_success(e: LoadEvent) -> bool {
    e matches (LoadEvent::LinkChecked { ok, log }) && ok
}

/// The protocol never reports a handle it was not given: a run that
/// ends done heard the context confirm the link somewhere along the
/// way.
pub proof fn lemma_done_needs_link_confirmation(s: LoadState, events: Seq<LoadEvent>)
    requires
        !link_confirmed(s),
        link_confirmed(spec_run(s, events).0),
    ensures
        exists|i: int| 0 <= i < events.len() && is_link_success(#[trigger] events[i]),
    decreases events.len(),
{
    let (s1, c) = spec_step(s, events[0]);
    if link_confirmed(s1) {
        lemma_only_link_success_confirms(s, events[0]);
        assert(0 <= 0 < events.len() && is_link_success(events[0]));
    } else {
        lemma_done_needs_link_confirmation(s1, events.drop_first());
        let j = choose|j: int|
            0 <= j < events.drop_first().len() && is_link_success(#[trigger] events.drop_first()[j]);
        assert(events[j + 1] == events.drop_first()[j]);
        assert(0 <= j + 1 < events.len() && is_link_success(events[j + 1]));
    }
}

/// A load in which the context answers every request favourably runs
/// the whole protocol: it issues exactly the textbook command sequence,
/// ends with the linked program's handle, and its last context commands
/// detach and release the two transient stages.
pub proof fn lemma_successful_load(
    vert_path: String,
    frag_path: String,
    vert_src: String,
    frag_src: String,
    vert_id: u32,
    frag_id: u32,
    program: u32,
    clog1: String,
    clog2: String,
    llog: String,
    events: Seq<LoadEvent>,
)
    requires
        events.len() >= 14,
        events[0] == (LoadEvent::FileRead { path: vert_path, content: Some(vert_src) }),
        events[1] == (LoadEvent::FileRead { path: frag_path, content: Some(frag_src) }),
        events[2] == (LoadEvent::ObjectCreated { id: vert_id }),
        events[3] == (LoadEvent::CompileChecked { ok: true, log: clog1 }),
        events[4] == (LoadEvent::ObjectCreated { id: frag_id }),
        events[5] == (LoadEvent::CompileChecked { ok: true, log: clog2 }),
        events[6] == (LoadEvent::ObjectCreated { id: program }),
        events[7] == LoadEvent::Performed,
        events[8] == LoadEvent::Performed,
        events[9] == (LoadEvent::LinkChecked { ok: true, log: llog }),
        events[10] == LoadEvent::Performed,
        events[11] == LoadEvent::Performed,
        events[12] == LoadEvent::Performed,
        events[13] == LoadEvent::Performed,
    ensures
        ({
            let (t, cmds) = spec_run(LoadState::ReadingVertex { frag_path }, events);
            &&& t == (LoadState::Done { program })
            &&& cmds[0] == (Command::ReadFile { path: frag_path })
            &&& cmds[1] == (Command::CreateShader { stage: StageKind::Vertex })
            &&& cmds[2] == (Command::CompileShader { shader: vert_id, source: vert_src })
            &&& cmds[3] == (Command::CreateShader { stage: StageKind::Fragment })
            &&& cmds[4] == (Command::CompileShader { shader: frag_id, source: frag_src })
            &&& cmds[5] == Command::CreateProgram
            &&& cmds[6] == (Command::AttachShader { program, shader: vert_id })
            &&& cmds[7] == (Command::AttachShader { program, shader: frag_id })
            &&& cmds[8] == (Command::LinkProgram { program })
            &&& cmds[9] == (Command::DetachShader { program, shader: vert_id })
            &&& cmds[10] == (Command::DetachShader { program, shader: frag_id })
            &&& cmds[11] == (Command::DeleteShader { shader: vert_id })
            &&& cmds[12] == (Command::DeleteShader { shader: frag_id })
            &&& forall|i: int| 13 <= i < cmds.len() ==> cmds[i] == Command::Idle
        }),
{
    lemma_reaches_linking(
        vert_path,
        frag_path,
        vert_src,
        frag_src,
        vert_id,
        frag_id,
        program,
        clog1,
        clog2,
        events,
    );
    let linking = LoadState::Linking { program, vert_id, frag_id };
    let tail = events.skip(9);
    assert(tail[0] == events[9]);
    let (t10, c9) = spec_step(linking, tail[0]);
    let tail1 = tail.drop_first();
    assert(tail1[0] == tail[1] && tail[1] == events[10]);
    let (t11, c10) = spec_step(t10, tail1[0]);
    let tail2 = tail1.drop_first();
    assert(tail2[0] == tail1[1] && tail1[1] == tail[2] && tail[2] == events[11]);
    let (t12, c11) = spec_step(t11, tail2[0]);
    let tail3 = tail2.drop_first();
    assert(tail3[0] == tail2[1] && tail2[1] == tail1[2] && tail1[2] == tail[3] && tail[3]
        == events[12]);
    let (t13, c12) = spec_step(t12, tail3[0]);
    let tail4 = tail3.drop_first();
    assert(tail4[0] == tail3[1] && tail3[1] == tail2[2] && tail2[2] == tail1[3] && tail1[3]
        == tail[4] && tail[4] == events[13]);
    let (t14, c13) = spec_step(t13, tail4[0]);
    let tail5 = tail4.drop_first();
    assert(t14 == (LoadState::Done { program }));
    lemma_terminal_stays(t14, tail5);
    let restd = spec_run(t14, tail5).1;
    let rest4 = spec_run(t13, tail4).1;
    let rest3 = spec_run(t12, tail3).1;
    let rest2 = spec_run(t11, tail2).1;
    let rest1 = spec_run(t10, tail1).1;
    let rest = spec_run(linking, tail).1;
    assert(rest4 == seq![c13] + restd);
    assert(rest3 == seq![c12] + rest4);
    assert(rest2 == seq![c11] + rest3);
    assert(rest1 == seq![c10] + rest2);
    assert(rest == seq![c9] + rest1);
    assert(rest =~= seq![c9, c10, c11, c12, c13] + restd);
    let cmds = spec_run(LoadState::ReadingVertex { frag_path }, events).1;
    assert forall|i: int| 13 <= i < cmds.len() implies cmds[i] == Command::Idle by {
        assert(cmds[i] == rest[i - 9]);
        if i > 13 {
            assert(rest[i - 9] == restd[i - 14]);
        }
    }
}

} // verus!
