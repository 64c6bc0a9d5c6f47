//! A verified shader-program loader.
//!
//! Turning two shader source files into one linked, ready-to-bind program
//! handle is a fixed protocol against the graphics context: read both
//! sources, create and compile the two stages, create a program, attach,
//! link, then detach and delete the transient stages. The context itself
//! (an exclusively owned external resource) answers each request; this
//! crate pins down every decision of the protocol as a deterministic,
//! fully specified transition function, so that a driver only performs
//! the commands it is handed and feeds the outcomes back.

pub mod loader;
pub mod model;
pub mod shader;
