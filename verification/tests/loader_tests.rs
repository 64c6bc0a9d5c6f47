use shader_loader::loader::begin;
use shader_loader::loader::finish;
use shader_loader::loader::step;
use shader_loader::loader::Command;
use shader_loader::loader::LoadEvent;
use shader_loader::loader::LoadState;
use shader_loader::shader::LoadError;
use shader_loader::shader::StageKind;

fn file_read(path: &str, content: Option<&str>) -> LoadEvent {
    LoadEvent::FileRead { path: path.to_string(), content: content.map(|s| s.to_string()) }
}

fn compile_checked(ok: bool, log: &str) -> LoadEvent {
    LoadEvent::CompileChecked { ok, log: log.to_string() }
}

fn link_checked(ok: bool, log: &str) -> LoadEvent {
    LoadEvent::LinkChecked { ok, log: log.to_string() }
}

fn is_context_command(c: &Command) -> bool {
    !matches!(c, Command::ReadFile { .. } | Command::Idle)
}

#[test]
fn successful_load_issues_textbook_sequence() {
    let (state, cmd) = begin("basic.vert".to_string(), "basic.frag".to_string());
    assert_eq!(cmd, Command::ReadFile { path: "basic.vert".to_string() });

    let (state, cmd) = step(state, file_read("basic.vert", Some("void vmain(){}")));
    assert_eq!(cmd, Command::ReadFile { path: "basic.frag".to_string() });

    let (state, cmd) = step(state, file_read("basic.frag", Some("void fmain(){}")));
    assert_eq!(cmd, Command::CreateShader { stage: StageKind::Vertex });

    let (state, cmd) = step(state, LoadEvent::ObjectCreated { id: 11 });
    assert_eq!(cmd, Command::CompileShader { shader: 11, source: "void vmain(){}".to_string() });

    let (state, cmd) = step(state, compile_checked(true, ""));
    assert_eq!(cmd, Command::CreateShader { stage: StageKind::Fragment });

    let (state, cmd) = step(state, LoadEvent::ObjectCreated { id: 12 });
    assert_eq!(cmd, Command::CompileShader { shader: 12, source: "void fmain(){}".to_string() });

    let (state, cmd) = step(state, compile_checked(true, ""));
    assert_eq!(cmd, Command::CreateProgram);

    let (state, cmd) = step(state, LoadEvent::ObjectCreated { id: 42 });
    assert_eq!(cmd, Command::AttachShader { program: 42, shader: 11 });

    let (state, cmd) = step(state, LoadEvent::Performed);
    assert_eq!(cmd, Command::AttachShader { program: 42, shader: 12 });

    let (state, cmd) = step(state, LoadEvent::Performed);
    assert_eq!(cmd, Command::LinkProgram { program: 42 });

    let (state, cmd) = step(state, link_checked(true, ""));
    assert_eq!(cmd, Command::DetachShader { program: 42, shader: 11 });

    let (state, cmd) = step(state, LoadEvent::Performed);
    assert_eq!(cmd, Command::DetachShader { program: 42, shader: 12 });

    let (state, cmd) = step(state, LoadEvent::Performed);
    assert_eq!(cmd, Command::DeleteShader { shader: 11 });

    let (state, cmd) = step(state, LoadEvent::Performed);
    assert_eq!(cmd, Command::DeleteShader { shader: 12 });

    let (state, cmd) = step(state, LoadEvent::Performed);
    assert_eq!(cmd, Command::Idle);
    assert_eq!(state, LoadState::Done { program: 42 });
    assert_eq!(finish(state), Ok(42));
}

#[test]
fn stages_detached_and_deleted_after_link() {
    // Drive a full successful load and record every command issued.
    let mut commands: Vec<Command> = Vec::new();
    let events = vec![
        file_read("a.vert", Some("v")),
        file_read("a.frag", Some("f")),
        LoadEvent::ObjectCreated { id: 3 },
        compile_checked(true, ""),
        LoadEvent::ObjectCreated { id: 4 },
        compile_checked(true, ""),
        LoadEvent::ObjectCreated { id: 9 },
        LoadEvent::Performed,
        LoadEvent::Performed,
        link_checked(true, ""),
        LoadEvent::Performed,
        LoadEvent::Performed,
        LoadEvent::Performed,
        LoadEvent::Performed,
    ];
    let (mut state, first) = begin("a.vert".to_string(), "a.frag".to_string());
    commands.push(first);
    for event in events {
        let (next, cmd) = step(state, event);
        state = next;
        commands.push(cmd);
    }
    assert_eq!(state, LoadState::Done { program: 9 });
    // Every stage attached to the program was detached again, and both
    // transient stages were deleted.
    let attaches: Vec<u32> = commands
        .iter()
        .filter_map(|c| match c {
            Command::AttachShader { program: 9, shader } => Some(*shader),
            _ => None,
        })
        .collect();
    let detaches: Vec<u32> = commands
        .iter()
        .filter_map(|c| match c {
            Command::DetachShader { program: 9, shader } => Some(*shader),
            _ => None,
        })
        .collect();
    let deletes: Vec<u32> = commands
        .iter()
        .filter_map(|c| match c {
            Command::DeleteShader { shader } => Some(*shader),
            _ => None,
        })
        .collect();
    assert_eq!(attaches, vec![3, 4]);
    assert_eq!(detaches, vec![3, 4]);
    assert_eq!(deletes, vec![3, 4]);
    // The link came before any detach.
    let link_at = commands.iter().position(|c| matches!(c, Command::LinkProgram { .. })).unwrap();
    let detach_at =
        commands.iter().position(|c| matches!(c, Command::DetachShader { .. })).unwrap();
    assert!(link_at < detach_at);
}

#[test]
fn missing_vertex_source_fails_before_any_context_call() {
    let (state, first) = begin("gone.vert".to_string(), "basic.frag".to_string());
    assert!(!is_context_command(&first));
    let (state, cmd) = step(state, file_read("gone.vert", None));
    assert_eq!(cmd, Command::Idle);
    assert_eq!(
        state,
        LoadState::Failed { error: LoadError::SourceNotFound { path: "gone.vert".to_string() } }
    );
    assert_eq!(
        finish(state),
        Err(LoadError::SourceNotFound { path: "gone.vert".to_string() })
    );
}

#[test]
fn missing_fragment_source_fails_before_any_context_call() {
    let (state, _) = begin("basic.vert".to_string(), "gone.frag".to_string());
    let (state, cmd) = step(state, file_read("basic.vert", Some("v")));
    // The only command so far reads the other file; the context is untouched.
    assert!(!is_context_command(&cmd));
    let (state, cmd) = step(state, file_read("gone.frag", None));
    assert_eq!(cmd, Command::Idle);
    assert_eq!(
        state,
        LoadState::Failed { error: LoadError::SourceNotFound { path: "gone.frag".to_string() } }
    );
}

#[test]
fn vertex_compile_error_carries_the_log() {
    let (state, _) = begin("bad.vert".to_string(), "basic.frag".to_string());
    let (state, _) = step(state, file_read("bad.vert", Some("void vmain( {")));
    let (state, _) = step(state, file_read("basic.frag", Some("void fmain(){}")));
    let (state, _) = step(state, LoadEvent::ObjectCreated { id: 7 });
    let (state, cmd) = step(state, compile_checked(false, "0:1: syntax error"));
    assert_eq!(cmd, Command::Idle);
    match state {
        LoadState::Failed { error: LoadError::CompileError { stage, log } } => {
            assert_eq!(stage, StageKind::Vertex);
            assert_eq!(log, "0:1: syntax error");
            assert!(!log.is_empty());
        }
        other => panic!("expected a vertex compile failure, got {:?}", other),
    }
}

#[test]
fn fragment_compile_error_carries_the_log() {
    let (state, _) = begin("basic.vert".to_string(), "bad.frag".to_string());
    let (state, _) = step(state, file_read("basic.vert", Some("void vmain(){}")));
    let (state, _) = step(state, file_read("bad.frag", Some("void fmain( {")));
    let (state, _) = step(state, LoadEvent::ObjectCreated { id: 7 });
    let (state, _) = step(state, compile_checked(true, ""));
    let (state, _) = step(state, LoadEvent::ObjectCreated { id: 8 });
    let (state, cmd) = step(state, compile_checked(false, "0:1: unexpected '{'"));
    assert_eq!(cmd, Command::Idle);
    match state {
        LoadState::Failed { error: LoadError::CompileError { stage, log } } => {
            assert_eq!(stage, StageKind::Fragment);
            assert_eq!(log, "0:1: unexpected '{'");
        }
        other => panic!("expected a fragment compile failure, got {:?}", other),
    }
}

#[test]
fn link_error_carries_the_log() {
    let (state, _) = begin("a.vert".to_string(), "b.frag".to_string());
    let (state, _) = step(state, file_read("a.vert", Some("out vec3 x;")));
    let (state, _) = step(state, file_read("b.frag", Some("in vec4 x;")));
    let (state, _) = step(state, LoadEvent::ObjectCreated { id: 1 });
    let (state, _) = step(state, compile_checked(true, ""));
    let (state, _) = step(state, LoadEvent::ObjectCreated { id: 2 });
    let (state, _) = step(state, compile_checked(true, ""));
    let (state, _) = step(state, LoadEvent::ObjectCreated { id: 3 });
    let (state, _) = step(state, LoadEvent::Performed);
    let (state, _) = step(state, LoadEvent::Performed);
    let (state, cmd) = step(state, link_checked(false, "interface mismatch on x"));
    assert_eq!(cmd, Command::Idle);
    assert_eq!(
        state,
        LoadState::Failed {
            error: LoadError::LinkError { log: "interface mismatch on x".to_string() }
        }
    );
}

#[test]
fn failed_load_absorbs_further_events() {
    let (state, _) = begin("gone.vert".to_string(), "basic.frag".to_string());
    let (state, _) = step(state, file_read("gone.vert", None));
    let failed = LoadState::Failed {
        error: LoadError::SourceNotFound { path: "gone.vert".to_string() },
    };
    assert_eq!(state, failed);
    let (state, cmd) = step(state, LoadEvent::Performed);
    assert_eq!(cmd, Command::Idle);
    assert_eq!(state, failed);
    let (state, cmd) = step(state, LoadEvent::ObjectCreated { id: 5 });
    assert_eq!(cmd, Command::Idle);
    assert_eq!(state, failed);
}

#[test]
fn mismatched_event_leaves_the_state_alone() {
    let (state, _) = begin("a.vert".to_string(), "a.frag".to_string());
    // The protocol asked for a file, not for an object.
    let (state, cmd) = step(state, LoadEvent::ObjectCreated { id: 5 });
    assert_eq!(cmd, Command::Idle);
    assert_eq!(state, LoadState::ReadingVertex { frag_path: "a.frag".to_string() });
    // The right answer still advances it afterwards.
    let (_, cmd) = step(state, file_read("a.vert", Some("v")));
    assert_eq!(cmd, Command::ReadFile { path: "a.frag".to_string() });
}
