//! Errors that building a shader program can end in.

use vstd::prelude::*;

verus! {

/// Why a shader program could not be made.
#[derive(Debug, PartialEq, Eq)]
pub enum ShaderError {
    /// The vertex stage did not compile; the compiler's diagnostic.
    VertexCompile { log: String },
    /// The fragment stage did not compile; the compiler's diagnostic.
    FragmentCompile { log: String },
    /// The stages compiled but did not link; the linker's diagnostic.
    Link { log: String },
    /// A stage's source file could not be read.
    Io { path: String },
}

/// A `ShaderError` with its texts as character sequences.
pub enum ErrorModel {
    VertexCompile(Seq<char>),
    FragmentCompile(Seq<char>),
    Link(Seq<char>),
    Io(Seq<char>),
}

impl View for ShaderError {
    type V = ErrorModel;

    open spec fn view(&self) -> ErrorModel {
        match self {
            ShaderError::VertexCompile { log } => ErrorModel::VertexCompile(log@),
            ShaderError::FragmentCompile { log } => ErrorModel::FragmentCompile(log@),
            ShaderError::Link { log } => ErrorModel::Link(log@),
            ShaderError::Io { path } => ErrorModel::Io(path@),
        }
    }
}

} // verus!
