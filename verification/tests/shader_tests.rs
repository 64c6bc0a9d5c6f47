use shader_loader::loader::Command;
use shader_loader::shader::Shader;

#[test]
fn new_slot_holds_no_program() {
    let shader = Shader::new();
    assert_eq!(shader.id, 0);
    assert!(!shader.is_loaded());
}

#[test]
fn install_stores_the_linked_handle() {
    let mut shader = Shader::new();
    shader.install(42);
    assert_eq!(shader.id, 42);
    assert!(shader.is_loaded());
}

#[test]
fn use_command_activates_the_stored_handle() {
    let mut shader = Shader::new();
    shader.install(7);
    assert_eq!(shader.use_command(), Command::UseProgram { program: 7 });
}

#[test]
fn install_replaces_an_earlier_handle() {
    let mut shader = Shader::new();
    shader.install(7);
    shader.install(9);
    assert_eq!(shader.id, 9);
    assert_eq!(shader.use_command(), Command::UseProgram { program: 9 });
}
