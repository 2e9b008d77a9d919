use gl_shader::context::ContextState;
use gl_shader::shader::{ContextCall, Shader, UniformValue};

#[test]
fn use_program_twice_is_not_a_toggle() {
    let shader = Shader { id: 4 };
    let mut ctx = ContextState::new();
    ctx.apply(&shader.use_program());
    let once = ctx.current_program();
    ctx.apply(&shader.use_program());
    assert_eq!(once, Some(4));
    assert_eq!(ctx.current_program(), once);
}

#[test]
fn new_context_is_empty() {
    let ctx = ContextState::new();
    assert_eq!(ctx.current_program(), None);
    assert_eq!(ctx.uniform(1, 0), None);
}

#[test]
fn switching_programs_rebinds() {
    let a = Shader { id: 1 };
    let b = Shader { id: 2 };
    let mut ctx = ContextState::new();
    ctx.apply(&a.use_program());
    ctx.apply(&b.use_program());
    assert_eq!(ctx.current_program(), Some(2));
    ctx.apply(&a.set_int(0, 9).unwrap());
    assert_eq!(ctx.uniform(2, 0), Some(UniformValue::Int(9)));
    assert_eq!(ctx.uniform(1, 0), None);
}

#[test]
fn uniform_without_bound_program_is_ignored() {
    let mut ctx = ContextState::new();
    ctx.apply(&ContextCall::SetUniform { location: 0, value: UniformValue::Int(1) });
    assert_eq!(ctx.uniform(0, 0), None);
    assert_eq!(ctx.current_program(), None);
}

#[test]
fn set_bool_sends_one_or_zero() {
    let s = Shader { id: 1 };
    assert_eq!(
        s.set_bool(2, true),
        Some(ContextCall::SetUniform { location: 2, value: UniformValue::Int(1) })
    );
    assert_eq!(
        s.set_bool(2, false),
        Some(ContextCall::SetUniform { location: 2, value: UniformValue::Int(0) })
    );
    assert_eq!(s.set_bool(-1, true), None);
}

#[test]
fn set_int_and_float_calls() {
    let s = Shader { id: 1 };
    assert_eq!(
        s.set_int(0, -7),
        Some(ContextCall::SetUniform { location: 0, value: UniformValue::Int(-7) })
    );
    assert_eq!(s.set_int(-1, 3), None);
    assert_eq!(
        s.set_float(5, 0.25f32.to_bits()),
        Some(ContextCall::SetUniform { location: 5, value: UniformValue::Float(0x3e80_0000) })
    );
}

#[test]
fn set_mat4f_keeps_column_order() {
    let s = Shader { id: 1 };
    let mut cols = [0u32; 16];
    for (i, c) in cols.iter_mut().enumerate() {
        *c = (i as f32).to_bits();
    }
    let call = s.set_mat4f(1, cols).unwrap();
    assert_eq!(call, ContextCall::SetUniform { location: 1, value: UniformValue::Mat4(cols) });
    let mut ctx = ContextState::new();
    ctx.apply(&s.use_program());
    ctx.apply(&call);
    match ctx.uniform(1, 1) {
        Some(UniformValue::Mat4(m)) => assert_eq!(f32::from_bits(m[3]), 3.0),
        _ => panic!("matrix was not set"),
    }
}

#[test]
fn setting_again_overwrites() {
    let s = Shader { id: 3 };
    let mut ctx = ContextState::new();
    ctx.apply(&s.use_program());
    ctx.apply(&s.set_int(2, 1).unwrap());
    ctx.apply(&s.set_int(2, 8).unwrap());
    assert_eq!(ctx.uniform(3, 2), Some(UniformValue::Int(8)));
}

#[test]
fn destroy_forgets_uniforms() {
    let a = Shader { id: 1 };
    let b = Shader { id: 2 };
    let mut ctx = ContextState::new();
    ctx.apply(&a.use_program());
    ctx.apply(&a.set_int(0, 5).unwrap());
    ctx.apply(&b.use_program());
    ctx.apply(&b.set_int(0, 6).unwrap());
    let call = a.destroy();
    assert_eq!(call, ContextCall::DeleteProgram { program: 1 });
    ctx.apply(&call);
    assert_eq!(ctx.uniform(1, 0), None);
    assert_eq!(ctx.uniform(2, 0), Some(UniformValue::Int(6)));
    assert_eq!(ctx.current_program(), Some(2));
}
