use gl_shader::assembly::{BuildAction, BuildEvent, BuildState, StageKind};
use gl_shader::context::ContextState;
use gl_shader::error::ShaderError;
use gl_shader::info_log::{info_log_text, INFO_LOG_CAPACITY};
use gl_shader::shader::{ContextCall, Shader, Stage, UniformValue};

/// A stand-in for a graphics context: it "compiles" a stage when its source
/// has a `main` with balanced braces, and "links" when the fragment stage
/// writes an output. Handles are handed out from 1 upwards.
struct FakeGl {
    next_handle: u32,
    stages: Vec<(u32, StageKind, String)>,
    programs: Vec<(u32, Vec<String>)>,
    deleted_stages: Vec<u32>,
    deleted_programs: Vec<u32>,
    links: usize,
    state: ContextState,
}

impl FakeGl {
    fn new() -> FakeGl {
        FakeGl {
            next_handle: 1,
            stages: Vec::new(),
            programs: Vec::new(),
            deleted_stages: Vec::new(),
            deleted_programs: Vec::new(),
            links: 0,
            state: ContextState::new(),
        }
    }

    fn handle(&mut self) -> u32 {
        let h = self.next_handle;
        self.next_handle += 1;
        h
    }

    fn compile(&mut self, kind: StageKind, source: &str) -> BuildEvent {
        let stage = self.handle();
        self.stages.push((stage, kind, source.to_string()));
        let opens = source.matches('{').count();
        let closes = source.matches('}').count();
        if source.contains("void main()") && opens == closes {
            BuildEvent::Compiled { stage: Stage { id: stage }, status: 1, log: Vec::new() }
        } else {
            let mut log = b"0:1(1): error: syntax error".to_vec();
            log.push(0);
            log.extend_from_slice(b"leftover bytes");
            BuildEvent::Compiled { stage: Stage { id: stage }, status: 0, log }
        }
    }

    fn source_of(&self, stage: u32) -> String {
        self.stages.iter().find(|s| s.0 == stage).unwrap().2.clone()
    }

    fn link(&mut self, vertex: Stage, fragment: Stage) -> BuildEvent {
        self.links += 1;
        let program = self.handle();
        let fragment_source = self.source_of(fragment.id);
        let mut uniforms = Vec::new();
        for src in [self.source_of(vertex.id), fragment_source.clone()] {
            for part in src.split(';') {
                let words: Vec<&str> = part.split_whitespace().collect();
                if words.len() == 3 && words[0] == "uniform" {
                    uniforms.push(words[2].to_string());
                }
            }
        }
        self.programs.push((program, uniforms));
        if fragment_source.contains("out_color =") {
            BuildEvent::Linked { program, status: 1, log: Vec::new() }
        } else {
            BuildEvent::Linked { program, status: 0, log: b"error: no output written".to_vec() }
        }
    }

    fn location(&self, program: u32, name: &str) -> i32 {
        let uniforms = &self.programs.iter().find(|p| p.0 == program).unwrap().1;
        match uniforms.iter().position(|u| u == name) {
            Some(i) => i as i32,
            None => -1,
        }
    }

    fn create(&mut self, vertex: &str, fragment: &str) -> Result<Shader, ShaderError> {
        let (mut state, mut action) = BuildState::start(vertex.to_string(), fragment.to_string());
        loop {
            let event = match action {
                BuildAction::Compile { kind, source } => self.compile(kind, &source),
                BuildAction::Link { vertex, fragment } => self.link(vertex, fragment),
                BuildAction::Finish { release_stages, release_program, result } => {
                    self.deleted_stages.extend(release_stages.iter().map(|s| s.id));
                    self.deleted_programs.extend(release_program);
                    return result;
                }
            };
            assert!(state.accepts(&event));
            let (s, a) = state.step(event);
            state = s;
            action = a;
        }
    }

    fn run(&mut self, call: Option<ContextCall>) {
        if let Some(c) = call {
            self.state.apply(&c);
        }
    }
}

const VERTEX: &str = "void main(){ gl_Position = vec4(pos,1.0); }";
const FRAGMENT: &str = "void main(){ out_color = vec4(1,0.5,0.2,1); }";

#[test]
fn valid_sources_make_a_program() {
    let mut gl = FakeGl::new();
    let shader = gl.create(VERTEX, FRAGMENT).unwrap();
    assert_eq!(shader, Shader { id: 3 });
    assert_eq!(gl.deleted_stages, vec![1, 2]);
    assert!(gl.deleted_programs.is_empty());
}

#[test]
fn vertex_syntax_error_stops_before_link() {
    let mut gl = FakeGl::new();
    let r = gl.create("void main(){ gl_Position = ", FRAGMENT);
    assert_eq!(
        r,
        Err(ShaderError::VertexCompile { log: "0:1(1): error: syntax error".to_string() })
    );
    assert_eq!(gl.links, 0);
    assert!(gl.programs.is_empty());
    assert_eq!(gl.stages.len(), 1);
    assert_eq!(gl.deleted_stages, vec![1]);
    assert!(gl.deleted_programs.is_empty());
}

#[test]
fn fragment_syntax_error_releases_both_stages() {
    let mut gl = FakeGl::new();
    let r = gl.create(VERTEX, "void main(){ out_color = ");
    assert_eq!(
        r,
        Err(ShaderError::FragmentCompile { log: "0:1(1): error: syntax error".to_string() })
    );
    assert_eq!(gl.links, 0);
    assert_eq!(gl.deleted_stages, vec![1, 2]);
}

#[test]
fn silent_fragment_fails_to_link() {
    let mut gl = FakeGl::new();
    let r = gl.create(VERTEX, "void main(){ }");
    assert_eq!(r, Err(ShaderError::Link { log: "error: no output written".to_string() }));
    assert_eq!(gl.links, 1);
    assert_eq!(gl.deleted_stages, vec![1, 2]);
    assert_eq!(gl.deleted_programs, vec![3]);
}

#[test]
fn step_by_step_success() {
    let (state, action) = BuildState::start("v".to_string(), "f".to_string());
    assert_eq!(action, BuildAction::Compile { kind: StageKind::Vertex, source: "v".to_string() });
    let (state, action) = state.step(BuildEvent::Compiled { stage: Stage { id: 10 }, status: 1, log: Vec::new() });
    assert_eq!(state, BuildState::CompilingFragment { vertex: Stage { id: 10 } });
    assert_eq!(action, BuildAction::Compile { kind: StageKind::Fragment, source: "f".to_string() });
    let (state, action) = state.step(BuildEvent::Compiled { stage: Stage { id: 11 }, status: 1, log: Vec::new() });
    assert_eq!(state, BuildState::Linking { vertex: Stage { id: 10 }, fragment: Stage { id: 11 } });
    assert_eq!(action, BuildAction::Link { vertex: Stage { id: 10 }, fragment: Stage { id: 11 } });
    let (state, action) = state.step(BuildEvent::Linked { program: 12, status: 1, log: Vec::new() });
    assert_eq!(state, BuildState::Done);
    assert_eq!(
        action,
        BuildAction::Finish {
            release_stages: vec![Stage { id: 10 }, Stage { id: 11 }],
            release_program: None,
            result: Ok(Shader { id: 12 }),
        }
    );
}

#[test]
fn finished_build_accepts_nothing() {
    let (state, _) = BuildState::start("v".to_string(), "f".to_string());
    let (state, _) = state.step(BuildEvent::Compiled { stage: Stage { id: 1 }, status: 0, log: Vec::new() });
    assert_eq!(state, BuildState::Done);
    assert!(!state.accepts(&BuildEvent::Compiled { stage: Stage { id: 2 }, status: 1, log: Vec::new() }));
    assert!(!state.accepts(&BuildEvent::Linked { program: 3, status: 1, log: Vec::new() }));
}

#[test]
fn events_out_of_turn_are_refused() {
    let (state, _) = BuildState::start("v".to_string(), "f".to_string());
    assert!(!state.accepts(&BuildEvent::Linked { program: 3, status: 1, log: Vec::new() }));
    let linking = BuildState::Linking { vertex: Stage { id: 1 }, fragment: Stage { id: 2 } };
    assert!(!linking.accepts(&BuildEvent::Compiled { stage: Stage { id: 3 }, status: 1, log: Vec::new() }));
    assert!(linking.accepts(&BuildEvent::Linked { program: 3, status: 1, log: Vec::new() }));
}

#[test]
fn unreadable_vertex_file_is_reported_first() {
    let r = BuildState::start_from_files(
        "shaders/vertex.glsl".to_string(),
        None,
        "shaders/fragment.glsl".to_string(),
        None,
    );
    assert_eq!(r, Err(ShaderError::Io { path: "shaders/vertex.glsl".to_string() }));
}

#[test]
fn unreadable_fragment_file_is_reported() {
    let r = BuildState::start_from_files(
        "shaders/vertex.glsl".to_string(),
        Some(VERTEX.to_string()),
        "shaders/fragment.glsl".to_string(),
        None,
    );
    assert_eq!(r, Err(ShaderError::Io { path: "shaders/fragment.glsl".to_string() }));
}

#[test]
fn readable_files_start_the_build() {
    let (state, action) = BuildState::start_from_files(
        "a".to_string(),
        Some(VERTEX.to_string()),
        "b".to_string(),
        Some(FRAGMENT.to_string()),
    )
    .unwrap();
    assert_eq!(state, BuildState::CompilingVertex { fragment_source: FRAGMENT.to_string() });
    assert_eq!(action, BuildAction::Compile { kind: StageKind::Vertex, source: VERTEX.to_string() });
}

#[test]
fn log_stops_at_first_nul() {
    assert_eq!(info_log_text(&b"bad token\0junk".to_vec()), "bad token");
}

#[test]
fn log_empty() {
    assert_eq!(info_log_text(&Vec::new()), "");
    assert_eq!(info_log_text(&vec![0, 65, 66]), "");
}

#[test]
fn log_is_bounded_by_buffer() {
    let raw = vec![b'x'; 5000];
    let text = info_log_text(&raw);
    assert_eq!(text.len(), INFO_LOG_CAPACITY - 1);
    assert_eq!(text.len(), 1023);
    assert!(text.chars().all(|c| c == 'x'));
}

#[test]
fn log_invalid_utf8_is_replaced() {
    let text = info_log_text(&vec![b'e', 0xff, b'!']);
    assert_eq!(text, "e\u{FFFD}!");
}

#[test]
fn undeclared_uniform_is_a_no_op() {
    let mut gl = FakeGl::new();
    let shader = gl.create(VERTEX, FRAGMENT).unwrap();
    gl.run(Some(shader.use_program()));
    let location = gl.location(shader.id, "doesNotExist");
    assert_eq!(location, -1);
    let call = shader.set_float(location, 1.0f32.to_bits());
    assert_eq!(call, None);
    gl.run(call);
    assert_eq!(gl.state.uniform(shader.id, -1), None);
    assert_eq!(gl.state.uniform(shader.id, 0), None);
    assert_eq!(gl.state.current_program(), Some(shader.id));
}

#[test]
fn end_to_end_percent_uniform() {
    let mut gl = FakeGl::new();
    let shader = gl.create(VERTEX, FRAGMENT).unwrap();
    gl.run(Some(shader.use_program()));
    let offset = gl.location(shader.id, "offset");
    gl.run(shader.set_float(offset, 0.5f32.to_bits()));
    assert_eq!(gl.state.uniform(shader.id, offset), None);

    let fragment = "uniform float percent; void main(){ out_color = vec4(1,0.5,0.2,percent); }";
    let shader2 = gl.create(VERTEX, fragment).unwrap();
    gl.run(Some(shader2.use_program()));
    let percent = gl.location(shader2.id, "percent");
    assert_eq!(percent, 0);
    gl.run(shader2.set_float(percent, 0.5f32.to_bits()));
    let read = gl.state.uniform(shader2.id, percent);
    assert_eq!(read, Some(UniformValue::Float(0.5f32.to_bits())));
    match read {
        Some(UniformValue::Float(bits)) => assert_eq!(f32::from_bits(bits), 0.5),
        _ => panic!("percent was not set"),
    }
    assert_eq!(gl.state.uniform(shader.id, percent), None);
}
