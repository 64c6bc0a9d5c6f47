use vstd::prelude::*;

use crate::loader::Command;
use crate::loader::LoadEvent;
use crate::loader::LoadState;
use crate::loader::spec_run;
use crate::loader::spec_step;
use crate::shader::Shader;

verus! {

/// The observable effect of the loader's commands on the graphics
/// context: which stage objects are attached to which program, and
/// which program is active for draw calls. The context itself is an
/// external resource; this model states only what the commands this
/// crate issues do to those two observations.
pub struct ContextModel {
    pub active_program: u32,
    pub attachments: Map<u32, Set<u32>>,
}

/// The stage objects attached to `program`; none, if the program has
/// never been touched.
pub open spec fn attached_of(c: ContextModel, program: u32) -> Set<u32> {
    if c.attachments.dom().contains(program) {
        c.attachments[program]
    } else {
        Set::empty()
    }
}

/// No stage object is attached to any program.
pub open spec fn no_attachments(c: ContextModel) -> bool {
    forall|q: u32| attached_of(c, q) == Set::<u32>::empty()
}

/// What one command does to the context: attaching and detaching edit
/// the attachment sets, activating a program replaces the active one,
/// and every other command leaves both observations alone.
pub open spec fn apply_command(c: ContextModel, cmd: Command) -> ContextModel {
    match cmd {
        Command::AttachShader { program, shader } => ContextModel {
            active_program: c.active_program,
            attachments: c.attachments.insert(program, attached_of(c, program).insert(shader)),
        },
        Command::DetachShader { program, shader } => ContextModel {
            active_program: c.active_program,
            attachments: c.attachments.insert(program, attached_of(c, program).remove(shader)),
        },
        Command::UseProgram { program } => ContextModel {
            active_program: program,
            attachments: c.attachments,
        },
        _ => c,
    }
}

/// The context after a whole command sequence, applied in order.
pub open spec fn apply_all(c: ContextModel, cmds: Seq<Command>) -> ContextModel
    decreases cmds.len(),
{
    if cmds.len() == 0 {
        c
    } else {
        apply_all(apply_command(c, cmds[0]), cmds.drop_first())
    }
}

/// What the load protocol has attached so far, by state: starting from
/// a context with no attachments, the program under construction holds
/// exactly the stages attached and not yet detached, every other
/// program holds nothing, and the active program is never changed.
pub open spec fn load_inv(s: LoadState, c: ContextModel, active0: u32) -> bool {
    &&& c.active_program == active0
    &&& match s {
        LoadState::AttachingVertex { program, vert_id, frag_id } => {
            &&& attached_of(c, program) == Set::<u32>::empty().insert(vert_id)
            &&& forall|q: u32| q != program ==> attached_of(c, q) == Set::<u32>::empty()
        },
        LoadState::AttachingFragment { program, vert_id, frag_id }
        | LoadState::Linking { program, vert_id, frag_id } => {
            &&& attached_of(c, program) == Set::<u32>::empty().insert(vert_id).insert(frag_id)
            &&& forall|q: u32| q != program ==> attached_of(c, q) == Set::<u32>::empty()
        },
        LoadState::DetachingVertex { program, vert_id, frag_id } => {
            &&& attached_of(c, program) == Set::<u32>::empty().insert(vert_id).insert(
                frag_id,
            ).remove(vert_id)
            &&& forall|q: u32| q != program ==> attached_of(c, q) == Set::<u32>::empty()
        },
        LoadState::Failed { .. } => true,
        _ => no_attachments(c),
    }
}

/// One protocol step keeps the attachment invariant.
pub proof fn lemma_step_preserves_inv(s: LoadState, e: LoadEvent, c: ContextModel, active0: u32)
    requires
        load_inv(s, c, active0),
    ensures
        ({
            let (s1, cmd) = spec_step(s, e);
            load_inv(s1, apply_command(c, cmd), active0)
        }),
{
    let (s1, cmd) = spec_step(s, e);
    let c1 = apply_command(c, cmd);
    match s {
        LoadState::CreatingProgram { vert_id, frag_id } => match e {
            LoadEvent::ObjectCreated { id } => {
                assert(attached_of(c, id) == Set::<u32>::empty());
                assert(attached_of(c1, id) == Set::<u32>::empty().insert(vert_id));
                assert forall|q: u32| q != id implies attached_of(c1, q) == Set::<u32>::empty() by {
                    assert(attached_of(c1, q) == attached_of(c, q));
                }
            },
            _ => {},
        },
        LoadState::AttachingVertex { program, vert_id, frag_id } => match e {
            LoadEvent::Performed => {
                assert(attached_of(c1, program) == Set::<u32>::empty().insert(vert_id).insert(
                    frag_id,
                ));
                assert forall|q: u32| q != program implies attached_of(c1, q) == Set::<
                    u32,
                >::empty() by {
                    assert(attached_of(c1, q) == attached_of(c, q));
                }
            },
            _ => {},
        },
        LoadState::Linking { program, vert_id, frag_id } => match e {
            LoadEvent::LinkChecked { ok, log } => {
                if ok {
                    assert(attached_of(c1, program) == Set::<u32>::empty().insert(vert_id).insert(
                        frag_id,
                    ).remove(vert_id));
                    assert forall|q: u32| q != program implies attached_of(c1, q) == Set::<
                        u32,
                    >::empty() by {
                        assert(attached_of(c1, q) == attached_of(c, q));
                    }
                }
            },
            _ => {},
        },
        LoadState::DetachingVertex { program, vert_id, frag_id } => match e {
            LoadEvent::Performed => {
                assert(attached_of(c1, program) =~= Set::<u32>::empty());
                assert forall|q: u32| attached_of(c1, q) == Set::<u32>::empty() by {
                    if q != program {
                        assert(attached_of(c1, q) == attached_of(c, q));
                    }
                }
            },
            _ => {},
        },
        _ => {},
    }
}

/// A whole run keeps the attachment invariant.
pub proof fn lemma_run_preserves_inv(
    s: LoadState,
    c: ContextModel,
    active0: u32,
    events: Seq<LoadEvent>,
)
    requires
        load_inv(s, c, active0),
    ensures
        load_inv(spec_run(s, events).0, apply_all(c, spec_run(s, events).1), active0),
    decreases events.len(),
{
    if events.len() > 0 {
        let (s1, cmd) = spec_step(s, events[0]);
        lemma_step_preserves_inv(s, events[0], c, active0);
        let c1 = apply_command(c, cmd);
        let rest = spec_run(s1, events.drop_first()).1;
        lemma_run_preserves_inv(s1, c1, active0, events.drop_first());
        lemma_apply_all_cons(c, cmd, rest);
        assert(spec_run(s, events).1 == seq![cmd] + rest);
    }
}

/// Applying a command sequence one head at a time.
pub proof fn lemma_apply_all_cons(c: ContextModel, cmd: Command, rest: Seq<Command>)
    ensures
        apply_all(c, seq![cmd] + rest) == apply_all(apply_command(c, cmd), rest),
{
    let s = seq![cmd] + rest;
    assert(s[0] == cmd);
    assert(s.drop_first() =~= rest);
}

/// After a load that ran to completion, no stage object is attached to
/// any program: the two transient stages were attached for linking and
/// detached again before the load reported its handle.
pub proof fn lemma_success_leaves_stages_detached(
    frag_path: String,
    events: Seq<LoadEvent>,
    c: ContextModel,
)
    requires
        no_attachments(c),
        spec_run(LoadState::ReadingVertex { frag_path }, events).0 is Done,
    ensures
        no_attachments(apply_all(c, spec_run(LoadState::ReadingVertex { frag_path }, events).1)),
{
    lemma_run_preserves_inv(
        LoadState::ReadingVertex { frag_path },
        c,
        c.active_program,
        events,
    );
}

/// The load protocol never issues a command that changes which program
/// is active.
pub proof fn lemma_step_never_activates(s: LoadState, e: LoadEvent)
    ensures
        !(spec_step(s, e).1 is UseProgram),
{
}

/// Whatever the context held before, a load leaves the active program
/// exactly as it found it: only `Shader::use_command` changes it.
pub proof fn lemma_load_keeps_active_program(
    s: LoadState,
    events: Seq<LoadEvent>,
    c: ContextModel,
)
    ensures
        apply_all(c, spec_run(s, events).1).active_program == c.active_program,
    decreases events.len(),
{
    if events.len() > 0 {
        let (s1, cmd) = spec_step(s, events[0]);
        lemma_step_never_activates(s, events[0]);
        let c1 = apply_command(c, cmd);
        let rest = spec_run(s1, events.drop_first()).1;
        lemma_load_keeps_active_program(s1, events.drop_first(), c1);
        lemma_apply_all_cons(c, cmd, rest);
        assert(spec_run(s, events).1 == seq![cmd] + rest);
    }
}

/// Making a loaded shader current activates exactly its stored handle,
/// and touches nothing else.
pub proof fn lemma_use_command_activates(sh: Shader, c: ContextModel)
    requires
        sh.loaded(),
    ensures
        apply_command(c, Command::UseProgram { program: sh.id }).active_program == sh.id,
        forall|q: u32|
            attached_of(apply_command(c, Command::UseProgram { program: sh.id }), q)
                == attached_of(c, q),
{
}

/// End to end: a load that ran to completion followed by making its
/// program current leaves the context with that program active and with
/// no stage attached anywhere.
pub proof fn lemma_load_then_use(
    frag_path: String,
    events: Seq<LoadEvent>,
    c: ContextModel,
    program: u32,
)
    requires
        no_attachments(c),
        spec_run(LoadState::ReadingVertex { frag_path }, events).0 == (LoadState::Done {
            program,
        }),
    ensures
        ({
            let loaded = apply_all(c, spec_run(LoadState::ReadingVertex { frag_path }, events).1);
            let used = apply_command(loaded, Command::UseProgram { program });
            &&& used.active_program == program
            &&& no_attachments(used)
        }),
{
    lemma_success_leaves_stages_detached(frag_path, events, c);
    let loaded = apply_all(c, spec_run(LoadState::ReadingVertex { frag_path }, events).1);
    let used = apply_command(loaded, Command::UseProgram { program });
    assert forall|q: u32| attached_of(used, q) == Set::<u32>::empty() by {
        assert(attached_of(used, q) == attached_of(loaded, q));
    }
}

} // verus!
