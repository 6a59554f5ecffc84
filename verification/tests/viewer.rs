use r3d3::camera::{Aspect, Movement};
use r3d3::render_gl::context::{Capability, Color, Command, Context};
use r3d3::render_gl::debug_lines::Marker;
use r3d3::events::{Event, Key};
use r3d3::render_gl::shader::{CompileReport, CompiledShader, LinkReport, LinkedProgram, ShaderKind};
use r3d3::units::{Vec3, WORLD_UNIT};
use r3d3::viewer::{FrameOutcome, Viewer, TARGET_MARKER_SIZE};

const MESH: u32 = 3;
const LINES: u32 = 6;

fn linked(ctx: &mut Context, vertex: u32, fragment: u32, handle: u32) -> LinkedProgram {
    let mut shaders = Vec::new();
    for (kind, h) in [(ShaderKind::Vertex, vertex), (ShaderKind::Fragment, fragment)] {
        let report = CompileReport { handle: h, success: true, log: String::new() };
        match CompiledShader::compile(ctx, kind, report) {
            Ok(s) => shaders.push(s),
            Err(e) => panic!("shader {} was refused: {}", h, e.log),
        }
    }
    let report = LinkReport { handle, success: true, log: String::new() };
    match LinkedProgram::link(ctx, shaders, report) {
        Ok(p) => p,
        Err(e) => panic!("program {} was refused: {}", handle, e.log),
    }
}

fn started() -> (Context, Viewer) {
    let mut ctx = Context::new();
    let mesh = linked(&mut ctx, 1, 2, MESH);
    let lines = linked(&mut ctx, 4, 5, LINES);
    ctx.take_commands();
    let viewer = Viewer::new(&mut ctx, 800, 600, mesh, lines);
    (ctx, viewer)
}

fn cross(c: Vec3, h: i64) -> Vec<Vec3> {
    vec![
        Vec3::new(c.x - h, c.y, c.z),
        Vec3::new(c.x + h, c.y, c.z),
        Vec3::new(c.x, c.y - h, c.z),
        Vec3::new(c.x, c.y + h, c.z),
        Vec3::new(c.x, c.y, c.z - h),
        Vec3::new(c.x, c.y, c.z + h),
    ]
}

fn draws(upload: Option<Vec<Vec3>>) -> Vec<Command> {
    let mut c = vec![
        Command::Enable { capability: Capability::CullFace },
        Command::Clear { depth: true },
        Command::Enable { capability: Capability::DepthTest },
        Command::Clear { depth: false },
        Command::UseProgram { handle: MESH },
        Command::DrawMesh,
        Command::UseProgram { handle: LINES },
    ];
    if let Some(vertices) = upload {
        c.push(Command::UploadLines { vertices });
    }
    c.push(Command::DrawLines { count: 6 });
    c
}

#[test]
fn start_applies_viewport_and_clear_colour() {
    let (mut ctx, viewer) = started();
    let colour = Color { r: 300_000, g: 300_000, b: 500_000 };
    assert_eq!(
        ctx.take_commands(),
        vec![
            Command::SetViewport { width: 800, height: 600 },
            Command::SetClearColor { color: colour }
        ]
    );
    assert_eq!(ctx.viewport(), Some((800, 600)));
    assert_eq!(ctx.clear_color(), colour);
    assert_eq!(viewer.color_buffer().color(), colour);
    assert_eq!((viewer.viewport().width(), viewer.viewport().height()), (800, 600));
    assert!(!viewer.side_cam());
}

#[test]
fn start_sets_up_the_scene_camera_and_its_marker() {
    let (_, viewer) = started();
    let cam = viewer.camera();
    assert_eq!(cam.target(), Vec3::origin());
    assert_eq!((cam.yaw(), cam.pitch(), cam.distance()), (0, 785_000, 2_000_000));
    let p = cam.projection();
    assert_eq!(p.aspect, Aspect { width: 800, height: 600 });
    assert_eq!((p.fov, p.near, p.far), (1_570_000, 10_000, 1_000_000_000));
    assert_eq!(TARGET_MARKER_SIZE, WORLD_UNIT / 4);
    assert_eq!(viewer.debug_lines().marker_count(), 1);
    assert_eq!(
        viewer.debug_lines().get(viewer.target_marker()),
        Some(Marker { center: Vec3::origin(), size: TARGET_MARKER_SIZE })
    );
}

#[test]
fn first_frame_uploads_and_draws_in_order() {
    let (mut ctx, mut viewer) = started();
    ctx.take_commands();
    let outcome = viewer.frame(&mut ctx, &Vec::new(), 16_667);
    assert_eq!(outcome, FrameOutcome { running: true, events_handled: 0 });
    assert_eq!(ctx.active_program(), Some(LINES));
    assert_eq!(ctx.take_commands(), draws(Some(cross(Vec3::origin(), 125_000_000_000))));
    assert_eq!(viewer.debug_lines().upload_count(), 1);
}

#[test]
fn idle_frames_upload_nothing() {
    let (mut ctx, mut viewer) = started();
    viewer.frame(&mut ctx, &Vec::new(), 16_667);
    ctx.take_commands();
    let events = vec![Event::Other, Event::MouseMotion { xrel: 3, yrel: 3, right_button: false }];
    let mut i = 0;
    while i < 5 {
        let outcome = viewer.frame(&mut ctx, &events, 16_667);
        assert_eq!(outcome, FrameOutcome { running: true, events_handled: 2 });
        assert_eq!(ctx.take_commands(), draws(None));
        i += 1;
    }
    assert_eq!(viewer.debug_lines().upload_count(), 1);
    assert_eq!(viewer.camera().target(), Vec3::origin());
}

#[test]
fn quit_stops_the_frame_at_once() {
    let (mut ctx, mut viewer) = started();
    ctx.take_commands();
    let events = vec![
        Event::KeyDown { key: Key::W },
        Event::Quit,
        Event::KeyDown { key: Key::C },
        Event::Resized { width: 10, height: 10 },
    ];
    let outcome = viewer.frame(&mut ctx, &events, 1_000_000);
    assert_eq!(outcome, FrameOutcome { running: false, events_handled: 1 });
    assert!(viewer.camera().movement().forward);
    assert!(!viewer.side_cam());
    assert_eq!(viewer.camera().target(), Vec3::origin());
    assert_eq!((viewer.viewport().width(), viewer.viewport().height()), (800, 600));
    assert_eq!(ctx.queued(), 0);
    assert_eq!(viewer.debug_lines().upload_count(), 0);
}

#[test]
fn quit_as_the_first_event() {
    let (mut ctx, mut viewer) = started();
    ctx.take_commands();
    let outcome = viewer.frame(&mut ctx, &vec![Event::Quit], 5);
    assert_eq!(outcome, FrameOutcome { running: false, events_handled: 0 });
    assert!(viewer.handle_event(&mut ctx, &Event::Quit));
    assert_eq!(ctx.queued(), 0);
}

#[test]
fn resize_replaces_viewport_and_aspect_before_the_draws() {
    let (mut ctx, mut viewer) = started();
    viewer.frame(&mut ctx, &Vec::new(), 0);
    ctx.take_commands();
    let frame_before = viewer.camera().view_frame();
    let events = vec![Event::Resized { width: 1024, height: 768 }];
    let outcome = viewer.frame(&mut ctx, &events, 0);
    assert!(outcome.running);
    assert_eq!((viewer.viewport().width(), viewer.viewport().height()), (1024, 768));
    assert_eq!(viewer.camera().projection().aspect, Aspect { width: 1024, height: 768 });
    assert_eq!(viewer.camera().view_frame(), frame_before);
    assert_eq!(ctx.viewport(), Some((1024, 768)));
    let mut expected = vec![Command::SetViewport { width: 1024, height: 768 }];
    expected.extend(draws(None));
    assert_eq!(ctx.take_commands(), expected);
}

#[test]
fn resize_to_no_area_is_ignored() {
    let (mut ctx, mut viewer) = started();
    ctx.take_commands();
    for (width, height) in [(0, 600), (800, 0), (-1, 600), (800, i32::MIN), (0, 0)] {
        let quit = viewer.handle_event(&mut ctx, &Event::Resized { width, height });
        assert!(!quit);
    }
    assert_eq!((viewer.viewport().width(), viewer.viewport().height()), (800, 600));
    assert_eq!(viewer.camera().projection().aspect, Aspect { width: 800, height: 600 });
    assert_eq!(ctx.queued(), 0);
}

#[test]
fn c_toggles_the_side_camera_and_nothing_else() {
    let (mut ctx, mut viewer) = started();
    assert!(!viewer.handle_event(&mut ctx, &Event::KeyDown { key: Key::C }));
    assert!(viewer.side_cam());
    assert_eq!(viewer.camera().movement(), Movement::none());
    viewer.handle_event(&mut ctx, &Event::KeyUp { key: Key::C });
    assert!(viewer.side_cam());
    viewer.handle_event(&mut ctx, &Event::KeyDown { key: Key::C });
    assert!(!viewer.side_cam());
}

#[test]
fn target_marker_follows_the_target() {
    let (mut ctx, mut viewer) = started();
    viewer.frame(&mut ctx, &Vec::new(), 0);
    ctx.take_commands();
    let outcome = viewer.frame(&mut ctx, &vec![Event::KeyDown { key: Key::W }], 1_000_000);
    assert_eq!(outcome, FrameOutcome { running: true, events_handled: 1 });
    let target = Vec3::new(0, -2 * WORLD_UNIT, 0);
    assert_eq!(viewer.camera().target(), target);
    assert_eq!(
        viewer.debug_lines().get(viewer.target_marker()),
        Some(Marker { center: target, size: TARGET_MARKER_SIZE })
    );
    assert_eq!(ctx.take_commands(), draws(Some(cross(target, 125_000_000_000))));
    assert_eq!(viewer.debug_lines().upload_count(), 2);
    viewer.frame(&mut ctx, &vec![Event::KeyUp { key: Key::W }], 1_000_000);
    assert_eq!(viewer.camera().target(), target);
    assert_eq!(ctx.take_commands(), draws(None));
    assert_eq!(viewer.debug_lines().upload_count(), 2);
}

#[test]
fn events_of_one_frame_apply_in_order() {
    let (mut ctx, mut viewer) = started();
    let events = vec![
        Event::MouseWheel { y: 2 },
        Event::MouseMotion { xrel: 20, yrel: -10, right_button: true },
        Event::KeyDown { key: Key::LShift },
        Event::KeyDown { key: Key::Space },
        Event::KeyUp { key: Key::LShift },
    ];
    let outcome = viewer.frame(&mut ctx, &events, 500_000);
    assert_eq!(outcome, FrameOutcome { running: true, events_handled: 5 });
    let cam = viewer.camera();
    assert_eq!(cam.distance(), 1_600_000);
    assert_eq!(cam.yaw(), 100_000);
    assert_eq!(cam.pitch(), 835_000);
    assert_eq!(cam.target(), Vec3::new(0, 0, WORLD_UNIT));
    assert!(cam.movement().up && !cam.movement().faster);
    viewer.advance(500_000);
    assert_eq!(viewer.camera().target(), Vec3::new(0, 0, 2 * WORLD_UNIT));
    assert!(viewer.debug_lines().is_dirty());
    viewer.draw(&mut ctx);
    assert!(!viewer.debug_lines().is_dirty());
}

#[test]
fn shutdown_releases_both_programs() {
    let (mut ctx, mut viewer) = started();
    viewer.frame(&mut ctx, &Vec::new(), 0);
    ctx.take_commands();
    assert_eq!(ctx.active_program(), Some(LINES));
    viewer.shutdown(&mut ctx);
    assert!(ctx.holds_nothing());
    assert_eq!(ctx.active_program(), None);
    assert_eq!(
        ctx.take_commands(),
        vec![Command::DeleteProgram { handle: MESH }, Command::DeleteProgram { handle: LINES }]
    );
}
