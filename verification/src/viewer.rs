//! The decisions of the frame loop.
//!
//! Whoever runs the loop polls the window system, hands the events of one
//! frame and the time since the last one to [`Viewer::frame`], and performs
//! what the context has queued. A frame handles the events in order and
//! stops at a request to leave; otherwise it advances the camera, lets the
//! target marker follow the target, and queues the draws in their fixed
//! order: switches and clears first, then the mesh, then the debug lines.

use vstd::prelude::*;
use crate::camera::{Aspect, CameraModel, TargetCamera};
use crate::render_gl::context::{Capability, Color, Command, CommandModel, Context, ContextModel};
use crate::render_gl::debug_lines::{DebugLines, DebugLinesModel, Marker, MarkerHandle};
use crate::events::{camera_after, handle_camera_event, Event, Key};
use crate::render_gl::shader::LinkedProgram;
use crate::units::Vec3;
use crate::render_gl::viewport::{ColorBuffer, Viewport};

verus! {

/// Vertical field of view of the scene's camera, in microradians.
pub const SCENE_FOV: u32 = 1_570_000;

/// Near plane of the scene's camera.
pub const SCENE_NEAR: u32 = 10_000;

/// Far plane of the scene's camera.
pub const SCENE_FAR: u32 = 1_000_000_000;

/// Pitch that the scene's camera starts with, in microradians.
pub const SCENE_PITCH: i64 = 785_000;

/// Distance that the scene's camera starts at.
pub const SCENE_DISTANCE: i64 = 2_000_000;

/// Size of the marker at the camera's target: a quarter of a world unit.
pub const TARGET_MARKER_SIZE: i64 = 250_000_000_000;

/// The clear colour of the scene.
pub open spec fn scene_clear_color() -> Color {
    Color { r: 300_000, g: 300_000, b: 500_000 }
}

/// What one call of [`Viewer::frame`] did.
#[derive(Clone, Copy, Debug, PartialEq, Eq, Structural)]
pub struct FrameOutcome {
    /// Whether the loop goes on: no event asked to leave.
    pub running: bool,
    /// How many events were handled before the frame stopped or drew.
    pub events_handled: usize,
}

/// Event `k` is the first request to leave, or `k` is the number of events
/// and none asks to leave.
pub open spec fn stops_at(events: Seq<Event>, k: int) -> bool {
    &&& 0 <= k <= events.len()
    &&& forall|j: int| 0 <= j < k ==> events[j] != Event::Quit
    &&& k < events.len() ==> events[k] == Event::Quit
}

/// The mathematical state of a [`Viewer`].
pub struct ViewerModel {
    pub viewport: (i32, i32),
    pub clear_color: Color,
    pub lines: DebugLinesModel,
    pub camera: CameraModel,
    /// The index of the marker that shows the camera's target.
    pub target_marker: int,
    pub side_cam: bool,
    /// The program that draws the mesh.
    pub mesh_program: u32,
    /// The program that draws the debug lines.
    pub line_program: u32,
}

impl ViewerModel {
    /// The viewer for a window of `width` by `height` pixels: the scene's
    /// camera, and one marker at its target.
    pub open spec fn initial(
        width: i32,
        height: i32,
        mesh_program: u32,
        line_program: u32,
    ) -> ViewerModel {
        let camera = CameraModel::initial(
            Aspect { width: width as u32, height: height as u32 },
            SCENE_FOV,
            SCENE_NEAR,
            SCENE_FAR,
            SCENE_PITCH as int,
            SCENE_DISTANCE as int,
        );
        ViewerModel {
            viewport: (width, height),
            clear_color: scene_clear_color(),
            lines: DebugLinesModel::empty().with_marker(
                Marker { center: Vec3 { x: 0, y: 0, z: 0 }, size: TARGET_MARKER_SIZE },
            ),
            camera,
            target_marker: 0,
            side_cam: false,
            mesh_program,
            line_program,
        }
    }

    /// What the start queues: the viewport, then the clear colour.
    pub open spec fn startup_into(c: ContextModel, width: i32, height: i32) -> ContextModel {
        c.with_viewport(width, height).with_clear_color(scene_clear_color())
    }

    /// The target marker exists and stands at the camera's target.
    pub open spec fn marker_on_target(self) -> bool {
        &&& self.lines.has_marker(self.target_marker)
        &&& self.lines.markers[self.target_marker].center@ == self.camera.target
    }

    /// The viewer after one event. The `C` key toggles the side camera; a
    /// new window size with positive lengths replaces the viewport and the
    /// camera's aspect ratio, any other size is ignored; a request to leave
    /// changes nothing; everything else goes to the camera.
    pub open spec fn after_event(self, e: Event) -> ViewerModel {
        match e {
            Event::Quit => self,
            Event::KeyDown { key: Key::C } => ViewerModel { side_cam: !self.side_cam, ..self },
            Event::Resized { width, height } => if width > 0 && height > 0 {
                ViewerModel {
                    viewport: (width, height),
                    camera: self.camera.with_aspect(
                        Aspect { width: width as u32, height: height as u32 },
                    ),
                    ..self
                }
            } else {
                self
            },
            _ => ViewerModel { camera: camera_after(self.camera, e), ..self },
        }
    }

    /// What one event queues: a new window size with positive lengths is
    /// applied as the viewport at once; nothing else queues anything.
    pub open spec fn event_into(c: ContextModel, e: Event) -> ContextModel {
        match e {
            Event::Resized { width, height } => if width > 0 && height > 0 {
                c.with_viewport(width, height)
            } else {
                c
            },
            _ => c,
        }
    }

    /// The viewer after each of the events, first to last.
    pub open spec fn after_events(self, events: Seq<Event>) -> ViewerModel
        decreases events.len(),
    {
        if events.len() == 0 {
            self
        } else {
            self.after_events(events.drop_last()).after_event(events.last())
        }
    }

    /// What the events queue, first to last.
    pub open spec fn events_into(c: ContextModel, events: Seq<Event>) -> ContextModel
        decreases events.len(),
    {
        if events.len() == 0 {
            c
        } else {
            Self::event_into(Self::events_into(c, events.drop_last()), events.last())
        }
    }

    /// The viewer after `dt` microseconds: the camera is updated, and if
    /// its target moved, the target marker moves there.
    pub open spec fn advanced(self, dt: int) -> ViewerModel {
        let camera = self.camera.update(dt);
        ViewerModel {
            camera,
            lines: if camera.target != self.camera.target {
                self.lines.with_center(self.target_marker, camera.target.to_vec3())
            } else {
                self.lines
            },
            ..self
        }
    }

    /// The viewer after it drew: the debug lines were rendered.
    pub open spec fn drawn(self) -> ViewerModel {
        ViewerModel { lines: self.lines.rendered(), ..self }
    }

    /// What drawing queues, in this order: face culling on, colour and
    /// depth cleared, depth test on, colour cleared, the mesh drawn with its
    /// program, the debug lines rendered with theirs.
    pub open spec fn draw_into(self, c: ContextModel) -> ContextModel {
        let prepared = c.queue(CommandModel::Enable { capability: Capability::CullFace }).queue(
            CommandModel::Clear { depth: true },
        ).queue(CommandModel::Enable { capability: Capability::DepthTest }).queue(
            CommandModel::Clear { depth: false },
        );
        let mesh_drawn = prepared.using(self.mesh_program).queue(CommandModel::DrawMesh);
        self.lines.render_into(mesh_drawn.using(self.line_program))
    }

    /// The viewer after a frame that handled `handled` of the events: one
    /// that stopped at a request to leave did no more; one that ran through
    /// advanced by `dt` and drew.
    pub open spec fn after_frame(self, events: Seq<Event>, handled: int, dt: int) -> ViewerModel {
        let v = self.after_events(events.take(handled));
        if handled < events.len() {
            v
        } else {
            v.advanced(dt).drawn()
        }
    }

    /// What such a frame queues.
    pub open spec fn frame_into(
        self,
        c: ContextModel,
        events: Seq<Event>,
        handled: int,
        dt: int,
    ) -> ContextModel {
        let v = self.after_events(events.take(handled));
        let queued = Self::events_into(c, events.take(handled));
        if handled < events.len() {
            queued
        } else {
            v.advanced(dt).draw_into(queued)
        }
    }
}

/// The state that the frame loop carries from frame to frame.
#[derive(Debug)]
pub struct Viewer {
    viewport: Viewport,
    color_buffer: ColorBuffer,
    debug_lines: DebugLines,
    camera: TargetCamera,
    target_marker: MarkerHandle,
    side_cam: bool,
    mesh_program: LinkedProgram,
    line_program: LinkedProgram,
}

impl View for Viewer {
    type V = ViewerModel;

    closed spec fn view(&self) -> ViewerModel {
        ViewerModel {
            viewport: self.viewport@,
            clear_color: self.color_buffer@,
            lines: self.debug_lines@,
            camera: self.camera@,
            target_marker: self.target_marker@,
            side_cam: self.side_cam,
            mesh_program: self.mesh_program@,
            line_program: self.line_program@,
        }
    }
}

impl Viewer {
    /// Sets the scene up for a window of `width` by `height` pixels and
    /// applies viewport and clear colour to the context.
    pub fn new(
        ctx: &mut Context,
        width: i32,
        height: i32,
        mesh_program: LinkedProgram,
        line_program: LinkedProgram,
    ) -> (v: Viewer)
        requires
            width > 0,
            height > 0,
        ensures
            v@ == ViewerModel::initial(width, height, mesh_program@, line_program@),
            v@.marker_on_target(),
            v@.camera.wf(),
            final(ctx)@ == ViewerModel::startup_into(old(ctx)@, width, height),
            final(ctx)@.wf(),
    {
        let viewport = Viewport::for_window(width, height);
        let mut color_buffer = ColorBuffer::new();
        let mut debug_lines = DebugLines::new();
        let camera = TargetCamera::new(
            viewport.aspect(),
            SCENE_FOV,
            SCENE_NEAR,
            SCENE_FAR,
            SCENE_PITCH,
            SCENE_DISTANCE,
        );
        let target_marker = debug_lines.marker(camera.target(), TARGET_MARKER_SIZE);
        viewport.set_used(ctx);
        color_buffer.set_clear_color(Color { r: 300_000, g: 300_000, b: 500_000 });
        color_buffer.set_used(ctx);
        Viewer {
            viewport,
            color_buffer,
            debug_lines,
            camera,
            target_marker,
            side_cam: false,
            mesh_program,
            line_program,
        }
    }

    pub fn camera(&self) -> (c: &TargetCamera)
        ensures
            c@ == self@.camera,
    {
        &self.camera
    }

    pub fn viewport(&self) -> (v: &Viewport)
        ensures
            v@ == self@.viewport,
    {
        &self.viewport
    }

    pub fn color_buffer(&self) -> (b: &ColorBuffer)
        ensures
            b@ == self@.clear_color,
    {
        &self.color_buffer
    }

    pub fn debug_lines(&self) -> (l: &DebugLines)
        ensures
            l@ == self@.lines,
    {
        &self.debug_lines
    }

    /// The marker that shows the camera's target.
    pub fn target_marker(&self) -> (h: MarkerHandle)
        ensures
            h@ == self@.target_marker,
    {
        self.target_marker
    }

    /// Whether the side camera is switched on.
    pub fn side_cam(&self) -> (b: bool)
        ensures
            b == self@.side_cam,
    {
        self.side_cam
    }

    /// Handles one event and says whether it asks to leave.
    pub fn handle_event(&mut self, ctx: &mut Context, e: &Event) -> (quit: bool)
        ensures
            quit == (*e == Event::Quit),
            final(self)@ == old(self)@.after_event(*e),
            final(ctx)@ == ViewerModel::event_into(old(ctx)@, *e),
            final(ctx)@.wf(),
    {
        proof {
            use_type_invariant(&*ctx);
        }
        match *e {
            Event::Quit => true,
            Event::KeyDown { key: Key::C } => {
                self.side_cam = !self.side_cam;
                false
            },
            Event::Resized { width, height } => {
                if width > 0 && height > 0 {
                    self.viewport.update_size(width, height);
                    self.viewport.set_used(ctx);
                    self.camera.update_aspect(self.viewport.aspect());
                }
                false
            },
            _ => {
                handle_camera_event(&mut self.camera, e);
                false
            },
        }
    }

    /// Advances the camera by `dt` microseconds and lets the target marker
    /// follow the target.
    pub fn advance(&mut self, dt: u32)
        ensures
            final(self)@ == old(self)@.advanced(dt as int),
    {
        let moved = self.camera.update(dt);
        if moved {
            let t = self.camera.target();
            let marker = self.target_marker;
            marker.update_position(&mut self.debug_lines, t);
        }
    }

    /// Queues the draws of one frame.
    pub fn draw(&mut self, ctx: &mut Context)
        ensures
            final(self)@ == old(self)@.drawn(),
            final(ctx)@ == old(self)@.draw_into(old(ctx)@),
            final(ctx)@.wf(),
    {
        ctx.queue(Command::Enable { capability: Capability::CullFace });
        ctx.queue(Command::Clear { depth: true });
        ctx.queue(Command::Enable { capability: Capability::DepthTest });
        self.color_buffer.clear(ctx);
        self.mesh_program.set_used(ctx);
        ctx.queue(Command::DrawMesh);
        self.line_program.set_used(ctx);
        self.debug_lines.render(ctx);
    }

    /// One turn of the frame loop: the events in order up to the first
    /// request to leave; if there was none, `dt` microseconds of camera
    /// time and the draws.
    pub fn frame(&mut self, ctx: &mut Context, events: &Vec<Event>, dt: u32) -> (outcome:
        FrameOutcome)
        ensures
            stops_at(events@, outcome.events_handled as int),
            outcome.running == (outcome.events_handled == events@.len()),
            final(self)@ == old(self)@.after_frame(
                events@,
                outcome.events_handled as int,
                dt as int,
            ),
            final(ctx)@ == old(self)@.frame_into(
                old(ctx)@,
                events@,
                outcome.events_handled as int,
                dt as int,
            ),
            final(ctx)@.wf(),
    {
        proof {
            use_type_invariant(&*ctx);
        }
        let ghost v0 = self@;
        let ghost c0 = ctx@;
        let mut i: usize = 0;
        assert(events@.take(0) =~= Seq::<Event>::empty());
        while i < events.len()
            invariant
                i <= events.len(),
                v0 == old(self)@,
                c0 == old(ctx)@,
                forall|j: int| 0 <= j < i ==> events@[j] != Event::Quit,
                self@ == v0.after_events(events@.take(i as int)),
                ctx@ == ViewerModel::events_into(c0, events@.take(i as int)),
                ctx@.wf(),
            decreases events.len() - i,
        {
            let e = events[i];
            proof {
                assert(events@.take(i as int + 1).drop_last() =~= events@.take(i as int));
                assert(events@.take(i as int + 1).last() == e);
            }
            if self.handle_event(ctx, &e) {
                return FrameOutcome { running: false, events_handled: i };
            }
            i = i + 1;
        }
        self.advance(dt);
        self.draw(ctx);
        FrameOutcome { running: true, events_handled: i }
    }

    /// Ends the viewer: both programs are released.
    pub fn shutdown(self, ctx: &mut Context)
        ensures
            final(ctx)@ == old(ctx)@.without_program(self@.mesh_program).without_program(
                self@.line_program,
            ),
            final(ctx)@.wf(),
    {
        let Viewer { mesh_program, line_program, .. } = self;
        mesh_program.release(ctx);
        line_program.release(ctx);
    }
}

/// Events keep the target marker at the camera's target, and so does the
/// passing of time: once it stands there, it follows.
pub proof fn lemma_marker_follows_target(v: ViewerModel, e: Event, dt: int)
    requires
        v.marker_on_target(),
        v.camera.wf(),
    ensures
        v.after_event(e).marker_on_target(),
        v.after_event(e).camera.wf(),
        v.advanced(dt).marker_on_target(),
        v.advanced(dt).camera.wf(),
        v.drawn().marker_on_target(),
{
}

/// A frame without movement and without a change to the markers uploads
/// nothing: a clean buffer stays clean and the count of uploads stays.
pub proof fn lemma_clean_frame_uploads_nothing(v: ViewerModel, dt: int)
    requires
        !v.lines.dirty,
        v.camera.update(dt).target == v.camera.target,
    ensures
        v.advanced(dt).drawn().lines == v.lines,
{
}

/// Any run of events keeps the target marker at the camera's target.
pub proof fn lemma_events_keep_marker_on_target(v: ViewerModel, events: Seq<Event>)
    requires
        v.marker_on_target(),
        v.camera.wf(),
    ensures
        v.after_events(events).marker_on_target(),
        v.after_events(events).camera.wf(),
    decreases events.len(),
{
    if events.len() > 0 {
        lemma_events_keep_marker_on_target(v, events.drop_last());
        lemma_marker_follows_target(v.after_events(events.drop_last()), events.last(), 0);
    }
}

/// A whole frame keeps the target marker at the camera's target, whether
/// it stopped or drew.
pub proof fn lemma_frame_keeps_marker_on_target(
    v: ViewerModel,
    events: Seq<Event>,
    handled: int,
    dt: int,
)
    requires
        v.marker_on_target(),
        v.camera.wf(),
        0 <= handled <= events.len(),
    ensures
        v.after_frame(events, handled, dt).marker_on_target(),
        v.after_frame(events, handled, dt).camera.wf(),
{
    let u = v.after_events(events.take(handled));
    lemma_events_keep_marker_on_target(v, events.take(handled));
    lemma_marker_follows_target(u, Event::Other, dt);
    lemma_marker_follows_target(u.advanced(dt), Event::Other, dt);
}

/// A frame that stops at a request to leave draws nothing: it queues what
/// its events queued and no more.
pub proof fn lemma_stopped_frame_draws_nothing(
    v: ViewerModel,
    c: ContextModel,
    events: Seq<Event>,
    handled: int,
    dt: int,
)
    requires
        stops_at(events, handled),
        handled < events.len(),
    ensures
        v.frame_into(c, events, handled, dt) == ViewerModel::events_into(c, events.take(handled)),
        v.after_frame(events, handled, dt).lines == v.after_events(events.take(handled)).lines,
{
}

} // verus!
