//! Lifecycle of a GPU shader program: compiling a vertex and a fragment stage,
//! linking them, binding the program and setting its uniforms.
//!
//! The graphics context itself lives outside this crate. The library decides
//! what to ask of it next and what the answers mean; a driver performs the
//! requested calls and reports back.

pub mod error;
pub mod info_log;
pub mod shader;
pub mod assembly;
pub mod context;
