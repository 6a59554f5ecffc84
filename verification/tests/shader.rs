use r3d3::render_gl::context::{Command, Context};
use r3d3::render_gl::shader::{
    CompileError, CompileReport, CompiledShader, LinkError, LinkReport, LinkedProgram, ShaderKind,
};

fn good_compile(handle: u32) -> CompileReport {
    CompileReport { handle, success: true, log: String::new() }
}

fn good_link(handle: u32) -> LinkReport {
    LinkReport { handle, success: true, log: String::new() }
}

fn shader(ctx: &mut Context, kind: ShaderKind, handle: u32) -> CompiledShader {
    match CompiledShader::compile(ctx, kind, good_compile(handle)) {
        Ok(s) => s,
        Err(e) => panic!("shader {} was refused: {}", handle, e.log),
    }
}

fn program(ctx: &mut Context, vertex: u32, fragment: u32, handle: u32) -> LinkedProgram {
    let shaders = vec![
        shader(ctx, ShaderKind::Vertex, vertex),
        shader(ctx, ShaderKind::Fragment, fragment),
    ];
    match LinkedProgram::link(ctx, shaders, good_link(handle)) {
        Ok(p) => p,
        Err(e) => panic!("program {} was refused: {}", handle, e.log),
    }
}

#[test]
fn new_context_holds_nothing() {
    let ctx = Context::new();
    assert!(ctx.holds_nothing());
    assert_eq!(ctx.active_program(), None);
    assert_eq!(ctx.viewport(), None);
    assert_eq!(ctx.queued(), 0);
    assert!(!ctx.is_live_shader(1));
    assert!(!ctx.is_live_program(1));
}

#[test]
fn invalid_source_yields_the_compilers_log() {
    let mut ctx = Context::new();
    let bound = program(&mut ctx, 1, 2, 3);
    bound.set_used(&mut ctx);
    ctx.take_commands();
    let log = "0:1(1): error: syntax error, unexpected IDENTIFIER";
    let report = CompileReport { handle: 7, success: false, log: log.to_string() };
    let r = CompiledShader::compile(&mut ctx, ShaderKind::Fragment, report);
    match r {
        Ok(_) => panic!("a failed compilation gave a shader"),
        Err(e) => {
            assert!(!e.log.is_empty());
            assert_eq!(e, CompileError { log: log.to_string() });
        },
    }
    assert!(!ctx.is_live_shader(7));
    assert_eq!(ctx.active_program(), Some(3));
    assert!(ctx.is_live_program(3));
    assert_eq!(ctx.take_commands(), vec![Command::DeleteShader { handle: 7 }]);
}

#[test]
fn failed_compilation_on_a_new_context_leaves_it_empty() {
    let mut ctx = Context::new();
    let report = CompileReport { handle: 1, success: false, log: "error".to_string() };
    assert!(CompiledShader::compile(&mut ctx, ShaderKind::Vertex, report).is_err());
    assert!(ctx.holds_nothing());
    assert_eq!(ctx.active_program(), None);
}

#[test]
fn good_compilation_yields_a_shader() {
    let mut ctx = Context::new();
    let s = shader(&mut ctx, ShaderKind::Geometry, 9);
    assert_eq!(s.handle(), 9);
    assert_eq!(s.kind(), ShaderKind::Geometry);
    assert!(ctx.is_live_shader(9));
    assert!(!ctx.holds_nothing());
    assert_eq!(ctx.queued(), 0);
    s.release(&mut ctx);
    assert!(!ctx.is_live_shader(9));
    assert!(ctx.holds_nothing());
    assert_eq!(ctx.take_commands(), vec![Command::DeleteShader { handle: 9 }]);
}

#[test]
fn compile_log_comes_back_unchanged() {
    let mut ctx = Context::new();
    let log = "  línea 3\n\twarning: \u{0}odd\r\n";
    let report = CompileReport { handle: 4, success: false, log: log.to_string() };
    match CompiledShader::compile(&mut ctx, ShaderKind::Vertex, report) {
        Ok(_) => panic!("a failed compilation gave a shader"),
        Err(e) => assert_eq!(e.log, log),
    }
}

#[test]
fn zero_is_no_shader() {
    let mut ctx = Context::new();
    let r = CompiledShader::compile(&mut ctx, ShaderKind::Vertex, good_compile(0));
    assert!(r.is_err());
    assert!(ctx.holds_nothing());
    assert_eq!(ctx.queued(), 0);
}

#[test]
fn a_live_handle_is_not_taken_twice() {
    let mut ctx = Context::new();
    let first = shader(&mut ctx, ShaderKind::Vertex, 5);
    let report = CompileReport { handle: 5, success: true, log: "again".to_string() };
    match CompiledShader::compile(&mut ctx, ShaderKind::Fragment, report) {
        Ok(_) => panic!("a live handle gave a second shader"),
        Err(e) => assert_eq!(e.log, "again"),
    }
    assert!(ctx.is_live_shader(5));
    assert_eq!(ctx.queued(), 0);
    first.release(&mut ctx);
    assert!(ctx.holds_nothing());
}

#[test]
fn link_of_vertex_and_fragment_yields_a_program() {
    let mut ctx = Context::new();
    let p = program(&mut ctx, 1, 2, 3);
    assert_eq!(p.handle(), 3);
    assert!(ctx.is_live_program(3));
    assert!(!ctx.is_live_shader(1));
    assert!(!ctx.is_live_shader(2));
    assert_eq!(ctx.active_program(), None);
    assert_eq!(
        ctx.take_commands(),
        vec![Command::DeleteShader { handle: 1 }, Command::DeleteShader { handle: 2 }]
    );
}

#[test]
fn link_accepts_more_stages_in_any_order() {
    let mut ctx = Context::new();
    let shaders = vec![
        shader(&mut ctx, ShaderKind::Geometry, 30),
        shader(&mut ctx, ShaderKind::Fragment, 20),
        shader(&mut ctx, ShaderKind::Vertex, 10),
    ];
    let p = LinkedProgram::link(&mut ctx, shaders, good_link(1));
    assert!(p.is_ok());
    assert_eq!(
        ctx.take_commands(),
        vec![
            Command::DeleteShader { handle: 30 },
            Command::DeleteShader { handle: 20 },
            Command::DeleteShader { handle: 10 }
        ]
    );
}

#[test]
fn link_without_a_fragment_stage_fails() {
    let mut ctx = Context::new();
    let shaders = vec![shader(&mut ctx, ShaderKind::Vertex, 1)];
    let report = LinkReport { handle: 8, success: true, log: "no fragment".to_string() };
    match LinkedProgram::link(&mut ctx, shaders, report) {
        Ok(_) => panic!("a program without a fragment stage was linked"),
        Err(e) => assert_eq!(e, LinkError { log: "no fragment".to_string() }),
    }
    assert!(ctx.holds_nothing());
    assert_eq!(
        ctx.take_commands(),
        vec![Command::DeleteShader { handle: 1 }, Command::DeleteProgram { handle: 8 }]
    );
}

#[test]
fn link_without_a_vertex_stage_fails() {
    let mut ctx = Context::new();
    let shaders = vec![
        shader(&mut ctx, ShaderKind::Fragment, 1),
        shader(&mut ctx, ShaderKind::Geometry, 2),
    ];
    assert!(LinkedProgram::link(&mut ctx, shaders, good_link(8)).is_err());
    assert!(ctx.holds_nothing());
}

#[test]
fn link_of_no_shaders_fails() {
    let mut ctx = Context::new();
    let report = LinkReport { handle: 0, success: false, log: "nothing to link".to_string() };
    match LinkedProgram::link(&mut ctx, Vec::new(), report) {
        Ok(_) => panic!("a program of no shaders was linked"),
        Err(e) => assert_eq!(e.log, "nothing to link"),
    }
    assert!(ctx.holds_nothing());
    assert_eq!(ctx.queued(), 0);
}

#[test]
fn failed_link_yields_the_linkers_log() {
    let mut ctx = Context::new();
    let kept = program(&mut ctx, 1, 2, 3);
    kept.set_used(&mut ctx);
    ctx.take_commands();
    let shaders = vec![
        shader(&mut ctx, ShaderKind::Vertex, 4),
        shader(&mut ctx, ShaderKind::Fragment, 5),
    ];
    let log = "error: vertex shader lacks `main'";
    let report = LinkReport { handle: 6, success: false, log: log.to_string() };
    match LinkedProgram::link(&mut ctx, shaders, report) {
        Ok(_) => panic!("a failed link gave a program"),
        Err(e) => {
            assert!(!e.log.is_empty());
            assert_eq!(e.log, log);
        },
    }
    assert!(!ctx.is_live_program(6));
    assert!(!ctx.is_live_shader(4));
    assert!(!ctx.is_live_shader(5));
    assert!(ctx.is_live_program(3));
    assert_eq!(ctx.active_program(), Some(3));
    assert_eq!(
        ctx.take_commands(),
        vec![
            Command::DeleteShader { handle: 4 },
            Command::DeleteShader { handle: 5 },
            Command::DeleteProgram { handle: 6 }
        ]
    );
}

#[test]
fn a_live_program_handle_is_not_taken_twice() {
    let mut ctx = Context::new();
    let first = program(&mut ctx, 1, 2, 3);
    ctx.take_commands();
    let shaders = vec![
        shader(&mut ctx, ShaderKind::Vertex, 4),
        shader(&mut ctx, ShaderKind::Fragment, 5),
    ];
    assert!(LinkedProgram::link(&mut ctx, shaders, good_link(3)).is_err());
    assert!(ctx.is_live_program(3));
    assert_eq!(
        ctx.take_commands(),
        vec![Command::DeleteShader { handle: 4 }, Command::DeleteShader { handle: 5 }]
    );
    first.release(&mut ctx);
    assert!(ctx.holds_nothing());
}

#[test]
fn set_used_binds_one_program_at_a_time() {
    let mut ctx = Context::new();
    let a = program(&mut ctx, 1, 2, 10);
    let b = program(&mut ctx, 3, 4, 20);
    ctx.take_commands();
    assert!(!a.is_used(&ctx) && !b.is_used(&ctx));
    a.set_used(&mut ctx);
    assert_eq!(ctx.active_program(), Some(10));
    assert!(a.is_used(&ctx) && !b.is_used(&ctx));
    b.set_used(&mut ctx);
    assert_eq!(ctx.active_program(), Some(20));
    assert!(!a.is_used(&ctx) && b.is_used(&ctx));
    a.set_used(&mut ctx);
    assert_eq!(ctx.active_program(), Some(10));
    assert_eq!(
        ctx.take_commands(),
        vec![
            Command::UseProgram { handle: 10 },
            Command::UseProgram { handle: 20 },
            Command::UseProgram { handle: 10 }
        ]
    );
}

#[test]
fn set_used_on_another_context_changes_nothing() {
    let mut home = Context::new();
    let mut other = Context::new();
    let p = program(&mut home, 1, 2, 3);
    p.set_used(&mut other);
    assert_eq!(other.active_program(), None);
    assert_eq!(other.queued(), 0);
    p.release(&mut other);
    assert_eq!(other.queued(), 0);
    assert!(home.is_live_program(3));
}

#[test]
fn releasing_the_bound_program_unbinds_it() {
    let mut ctx = Context::new();
    let a = program(&mut ctx, 1, 2, 10);
    let b = program(&mut ctx, 3, 4, 20);
    a.set_used(&mut ctx);
    ctx.take_commands();
    b.release(&mut ctx);
    assert_eq!(ctx.active_program(), Some(10));
    a.release(&mut ctx);
    assert_eq!(ctx.active_program(), None);
    assert!(ctx.holds_nothing());
    assert_eq!(
        ctx.take_commands(),
        vec![Command::DeleteProgram { handle: 20 }, Command::DeleteProgram { handle: 10 }]
    );
}

#[test]
fn take_commands_empties_the_queue_and_keeps_the_books() {
    let mut ctx = Context::new();
    let p = program(&mut ctx, 1, 2, 3);
    p.set_used(&mut ctx);
    assert_eq!(ctx.queued(), 3);
    let taken = ctx.take_commands();
    assert_eq!(taken.len(), 3);
    assert_eq!(ctx.queued(), 0);
    assert!(ctx.take_commands().is_empty());
    assert!(ctx.is_live_program(3));
    assert_eq!(ctx.active_program(), Some(3));
}
