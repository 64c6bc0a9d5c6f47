use vstd::prelude::*;

use crate::loader::Command;

verus! {

/// The two programmable pipeline stages a program is linked from.
#[derive(Clone, Copy, Debug, PartialEq, Eq)]
pub enum StageKind {
    Vertex,
    Fragment,
}

/// Why a load did not produce a linked program.
///
/// Exactly three things can go wrong: a source file is missing, a stage
/// fails to compile, or the program fails to link. The compile and link
/// variants carry the diagnostic log the context reported.
#[derive(Debug, PartialEq, Eq)]
pub enum LoadError {
    SourceNotFound { path: String },
    CompileError { stage: StageKind, log: String },
    LinkError { log: String },
}

/// A shader program slot.
///
/// `id` is the context-assigned handle of a linked program, or `0` while
/// no load has succeeded: there is no partially loaded state in between.
pub struct Shader {
    pub id: u32,
}

impl Shader {
    /// Whether a linked program handle has been installed.
    pub open spec fn loaded(self) -> bool {
        self.id != 0
    }

    /// A fresh slot, holding no program.
    pub fn new() -> (s: Shader)
        ensures
            s.id == 0,
            !s.loaded(),
    {
        Shader { id: 0 }
    }

    /// Record the handle of a program the context linked successfully.
    /// The context never assigns `0` to a real object, so an installed
    /// slot is distinguishable from an empty one.
    pub fn install(&mut self, handle: u32)
        requires
            handle != 0,
        ensures
            final(self).id == handle,
            final(self).loaded(),
    {
        self.id = handle;
    }

    /// Whether this slot holds a program.
    pub fn is_loaded(&self) -> (r: bool)
        ensures
            r == self.loaded(),
    {
        self.id != 0
    }

    /// The command that makes this program the context's active one for
    /// subsequent draw calls.
    pub fn use_command(&self) -> (c: Command)
        requires
            self.loaded(),
        ensures
            c == (Command::UseProgram { program: self.id }),
    {
        Command::UseProgram { program: self.id }
    }
}

} // verus!
