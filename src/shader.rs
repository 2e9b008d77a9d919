//! Program and stage handles, and the calls that bind a program and set its uniforms.

use vstd::prelude::*;

verus! {

/// A linked shader program, named by the handle the graphics context gave it.
///
/// A value of this type is only ever made from a successful link; it is
/// consumed by `destroy`, so a program is released at most once.
#[derive(Debug, PartialEq, Eq, Structural)]
pub struct Shader {
    pub id: u32,
}

/// A compiled stage object, named by the handle the graphics context gave it.
#[derive(Debug, Clone, Copy, PartialEq, Eq, Structural)]
pub struct Stage {
    pub id: u32,
}

/// A value a uniform can be given. A boolean travels as an integer; a float
/// as its IEEE-754 bit pattern; a 4x4 matrix as sixteen such patterns in
/// column-major order.
#[derive(Debug, Clone, Copy, PartialEq, Eq)]
pub enum UniformValue {
    Int(i32),
    Float(u32),
    Mat4([u32; 16]),
}

/// A call the library asks of the graphics context.
#[derive(Debug, Clone, Copy, PartialEq, Eq)]
pub enum ContextCall {
    /// Make the program the one that later draw calls use.
    UseProgram { program: u32 },
    /// Give the uniform at this location of the current program a value.
    SetUniform { location: i32, value: UniformValue },
    /// Release the program object.
    DeleteProgram { program: u32 },
}

/// Whether a location that a uniform lookup returned names a uniform: a lookup
/// of a name that the program does not declare returns -1.
pub open spec fn names_uniform(location: i32) -> bool {
    location >= 0
}

/// The call that sets a uniform: none where the location names no uniform,
/// which makes setting an undeclared uniform a silent no-op.
pub open spec fn uniform_call(location: i32, value: UniformValue) -> Option<ContextCall> {
    if names_uniform(location) {
        Some(ContextCall::SetUniform { location, value })
    } else {
        None
    }
}

/// The integer that stands for a boolean uniform.
pub open spec fn bool_as_int(val: bool) -> i32 {
    if val {
        1
    } else {
        0
    }
}

impl Shader {
    /// The call that makes this program current.
    pub fn use_program(&self) -> (r: ContextCall)
        ensures
            r == (ContextCall::UseProgram { program: self.id }),
    {
        ContextCall::UseProgram { program: self.id }
    }

    /// The call, if any, that sets the uniform found at `location` of this
    /// program to a value of the given kind.
    fn set_uniform(&self, location: i32, value: UniformValue) -> (r: Option<ContextCall>)
        ensures
            r == uniform_call(location, value),
    {
        if location >= 0 {
            Some(ContextCall::SetUniform { location, value })
        } else {
            None
        }
    }

    /// The call, if any, that sets a boolean uniform (sent as 1 or 0).
    pub fn set_bool(&self, location: i32, val: bool) -> (r: Option<ContextCall>)
        ensures
            r == uniform_call(location, UniformValue::Int(bool_as_int(val))),
    {
        let v: i32 = if val {
            1
        } else {
            0
        };
        self.set_uniform(location, UniformValue::Int(v))
    }

    /// The call, if any, that sets an integer uniform.
    pub fn set_int(&self, location: i32, val: i32) -> (r: Option<ContextCall>)
        ensures
            r == uniform_call(location, UniformValue::Int(val)),
    {
        self.set_uniform(location, UniformValue::Int(val))
    }

    /// The call, if any, that sets a float uniform, given the float's bit pattern.
    pub fn set_float(&self, location: i32, bits: u32) -> (r: Option<ContextCall>)
        ensures
            r == uniform_call(location, UniformValue::Float(bits)),
    {
        self.set_uniform(location, UniformValue::Float(bits))
    }

    /// The call, if any, that sets a 4x4 matrix uniform, given the bit
    /// patterns of its sixteen floats in column-major order.
    pub fn set_mat4f(&self, location: i32, columns: [u32; 16]) -> (r: Option<ContextCall>)
        ensures
            r == uniform_call(location, UniformValue::Mat4(columns)),
    {
        self.set_uniform(location, UniformValue::Mat4(columns))
    }

    /// The call that releases this program; the handle is used up.
    pub fn destroy(self) -> (r: ContextCall)
        ensures
            r == (ContextCall::DeleteProgram { program: self.id }),
    {
        ContextCall::DeleteProgram { program: self.id }
    }
}

} // verus!
