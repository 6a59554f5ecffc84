//! The graphics context as the library sees it.
//!
//! A [`Context`] is handed to every operation that reads or changes state of
//! the rendering context. It records which shader and program objects are
//! alive, which program is bound, which viewport and clear colour were
//! applied, and it queues the operations that the driver has yet to carry
//! out. Whoever owns the real context takes the queue with
//! [`Context::take_commands`] and performs it in order.

use vstd::prelude::*;
use crate::units::{Vec3, UNIT};

verus! {

/// A colour of three components, each scaled by [`UNIT`] and at most one
/// whole.
#[derive(Clone, Copy, Debug, PartialEq, Eq, Structural)]
pub struct Color {
    pub r: u32,
    pub g: u32,
    pub b: u32,
}

/// `v`, or one whole where `v` is more.
pub open spec fn at_most_one(v: u32) -> u32 {
    if v > UNIT {
        1_000_000u32
    } else {
        v
    }
}

impl Color {
    /// Every component is at most one whole.
    pub open spec fn is_valid(self) -> bool {
        self.r <= UNIT && self.g <= UNIT && self.b <= UNIT
    }

    /// This colour with each component brought down to at most one whole.
    pub open spec fn normalized(self) -> Color {
        Color { r: at_most_one(self.r), g: at_most_one(self.g), b: at_most_one(self.b) }
    }

    /// The colour with each component brought down to at most one whole.
    pub fn new(r: u32, g: u32, b: u32) -> (c: Color)
        ensures
            c == (Color { r, g, b }).normalized(),
            c.is_valid(),
    {
        Color { r: saturate(r), g: saturate(g), b: saturate(b) }
    }
}

fn saturate(v: u32) -> (r: u32)
    ensures
        r == at_most_one(v),
{
    if v > 1_000_000 {
        1_000_000
    } else {
        v
    }
}

/// A switch of the rendering context.
#[derive(Clone, Copy, Debug, PartialEq, Eq, Structural)]
pub enum Capability {
    CullFace,
    DepthTest,
}

/// One operation for the driver.
#[derive(Clone, Debug, PartialEq, Eq)]
pub enum Command {
    DeleteShader { handle: u32 },
    DeleteProgram { handle: u32 },
    UseProgram { handle: u32 },
    SetViewport { width: i32, height: i32 },
    SetClearColor { color: Color },
    Enable { capability: Capability },
    /// Clears the colour buffer, and the depth buffer too if `depth` is set.
    Clear { depth: bool },
    /// Replaces the debug-line vertex buffer with these vertices.
    UploadLines { vertices: Vec<Vec3> },
    /// Draws the first `count` vertices of the debug-line buffer as line
    /// segments.
    DrawLines { count: usize },
    /// Draws the scene's mesh.
    DrawMesh,
}

/// The model of a [`Command`].
pub enum CommandModel {
    DeleteShader { handle: u32 },
    DeleteProgram { handle: u32 },
    UseProgram { handle: u32 },
    SetViewport { width: i32, height: i32 },
    SetClearColor { color: Color },
    Enable { capability: Capability },
    Clear { depth: bool },
    UploadLines { vertices: Seq<Vec3> },
    DrawLines { count: usize },
    DrawMesh,
}

impl View for Command {
    type V = CommandModel;

    open spec fn view(&self) -> CommandModel {
        match *self {
            Command::DeleteShader { handle } => CommandModel::DeleteShader { handle },
            Command::DeleteProgram { handle } => CommandModel::DeleteProgram { handle },
            Command::UseProgram { handle } => CommandModel::UseProgram { handle },
            Command::SetViewport { width, height } => CommandModel::SetViewport { width, height },
            Command::SetClearColor { color } => CommandModel::SetClearColor { color },
            Command::Enable { capability } => CommandModel::Enable { capability },
            Command::Clear { depth } => CommandModel::Clear { depth },
            Command::UploadLines { vertices } => CommandModel::UploadLines { vertices: vertices@ },
            Command::DrawLines { count } => CommandModel::DrawLines { count },
            Command::DrawMesh => CommandModel::DrawMesh,
        }
    }
}

/// The models of a sequence of commands, in order.
pub open spec fn models_of(commands: Seq<Command>) -> Seq<CommandModel> {
    commands.map_values(|c: Command| c@)
}

/// The mathematical state of a [`Context`].
pub struct ContextModel {
    /// The shader objects that are alive.
    pub shaders: Set<u32>,
    /// The program objects that are alive.
    pub programs: Set<u32>,
    /// The program that is bound, if any.
    pub active_program: Option<u32>,
    /// The viewport that was applied last, if any.
    pub viewport: Option<(i32, i32)>,
    /// The clear colour that was applied last.
    pub clear_color: Color,
    /// The operations queued for the driver, oldest first.
    pub commands: Seq<CommandModel>,
}

impl ContextModel {
    /// Nothing alive, nothing bound, nothing applied, nothing queued.
    pub open spec fn empty() -> ContextModel {
        ContextModel {
            shaders: Set::empty(),
            programs: Set::empty(),
            active_program: None,
            viewport: None,
            clear_color: Color { r: 0, g: 0, b: 0 },
            commands: Seq::empty(),
        }
    }

    /// Zero names no object, and the bound program is alive.
    pub open spec fn wf(self) -> bool {
        &&& !self.shaders.contains(0)
        &&& !self.programs.contains(0)
        &&& self.active_program matches Some(h) ==> self.programs.contains(h)
    }

    /// No shader or program object is alive.
    pub open spec fn holds_nothing(self) -> bool {
        self.shaders =~= Set::<u32>::empty() && self.programs =~= Set::<u32>::empty()
    }

    /// `handle` can become the name of a new shader object.
    pub open spec fn is_new_shader(self, handle: u32) -> bool {
        handle != 0 && !self.shaders.contains(handle)
    }

    /// `handle` can become the name of a new program object.
    pub open spec fn is_new_program(self, handle: u32) -> bool {
        handle != 0 && !self.programs.contains(handle)
    }

    /// One more command at the end of the queue.
    pub open spec fn queue(self, command: CommandModel) -> ContextModel {
        ContextModel { commands: self.commands.push(command), ..self }
    }

    /// The shader object `handle` is alive from now on.
    pub open spec fn with_shader(self, handle: u32) -> ContextModel {
        ContextModel { shaders: self.shaders.insert(handle), ..self }
    }

    /// The program object `handle` is alive from now on.
    pub open spec fn with_program(self, handle: u32) -> ContextModel {
        ContextModel { programs: self.programs.insert(handle), ..self }
    }

    /// The shader object `handle`, if it is alive, is deleted; otherwise
    /// nothing changes.
    pub open spec fn without_shader(self, handle: u32) -> ContextModel {
        if self.shaders.contains(handle) {
            ContextModel { shaders: self.shaders.remove(handle), ..self }.queue(
                CommandModel::DeleteShader { handle },
            )
        } else {
            self
        }
    }

    /// The program object `handle`, if it is alive, is deleted, and unbound
    /// if it was bound; otherwise nothing changes.
    pub open spec fn without_program(self, handle: u32) -> ContextModel {
        if self.programs.contains(handle) {
            ContextModel {
                programs: self.programs.remove(handle),
                active_program: if self.active_program == Some(handle) {
                    None
                } else {
                    self.active_program
                },
                ..self
            }.queue(CommandModel::DeleteProgram { handle })
        } else {
            self
        }
    }

    /// The program object `handle`, if it is alive, becomes the one bound
    /// program; otherwise nothing changes.
    pub open spec fn using(self, handle: u32) -> ContextModel {
        if self.programs.contains(handle) {
            ContextModel { active_program: Some(handle), ..self }.queue(
                CommandModel::UseProgram { handle },
            )
        } else {
            self
        }
    }

    /// The viewport becomes `width` by `height`.
    pub open spec fn with_viewport(self, width: i32, height: i32) -> ContextModel {
        ContextModel { viewport: Some((width, height)), ..self }.queue(
            CommandModel::SetViewport { width, height },
        )
    }

    /// The clear colour becomes `color`.
    pub open spec fn with_clear_color(self, color: Color) -> ContextModel {
        ContextModel { clear_color: color, ..self }.queue(CommandModel::SetClearColor { color })
    }
}

/// The state of the rendering context and the operations queued for it.
#[derive(Debug)]
pub struct Context {
    shaders: Vec<u32>,
    programs: Vec<u32>,
    active_program: Option<u32>,
    viewport: Option<(i32, i32)>,
    clear_color: Color,
    commands: Vec<Command>,
}

impl View for Context {
    type V = ContextModel;

    closed spec fn view(&self) -> ContextModel {
        ContextModel {
            shaders: self.shaders@.to_set(),
            programs: self.programs@.to_set(),
            active_program: self.active_program,
            viewport: self.viewport,
            clear_color: self.clear_color,
            commands: models_of(self.commands@),
        }
    }
}

/// Removing one element of a sequence without repetitions removes exactly
/// that element from its set.
proof fn lemma_remove_unique(s: Seq<u32>, i: int)
    requires
        s.no_duplicates(),
        0 <= i < s.len(),
    ensures
        s.remove(i).no_duplicates(),
        s.remove(i).to_set() =~= s.to_set().remove(s[i]),
{
    let r = s.remove(i);
    assert forall|j: int| 0 <= j < r.len() implies #[trigger] r[j] == (if j < i {
        s[j]
    } else {
        s[j + 1]
    }) by {}
    assert forall|y: u32| r.to_set().contains(y) <==> s.to_set().remove(s[i]).contains(y) by {
        if r.contains(y) {
            let j = choose|j: int| 0 <= j < r.len() && r[j] == y;
            let k = if j < i {
                j
            } else {
                j + 1
            };
            assert(s[k] == y);
        }
        if s.contains(y) && y != s[i] {
            let k = choose|k: int| 0 <= k < s.len() && s[k] == y;
            let j = if k < i {
                k
            } else {
                k - 1
            };
            assert(r[j] == y);
        }
    }
}

/// Appending an element that a sequence without repetitions does not hold
/// adds exactly that element to its set.
proof fn lemma_push_unique(s: Seq<u32>, x: u32)
    requires
        s.no_duplicates(),
        !s.contains(x),
    ensures
        s.push(x).no_duplicates(),
        s.push(x).to_set() =~= s.to_set().insert(x),
{
    let r = s.push(x);
    assert forall|y: u32| r.to_set().contains(y) <==> s.to_set().insert(x).contains(y) by {
        if r.contains(y) {
            let j = choose|j: int| 0 <= j < r.len() && r[j] == y;
            if j < s.len() {
                assert(s[j] == y);
            }
        }
        if s.contains(y) {
            let k = choose|k: int| 0 <= k < s.len() && s[k] == y;
            assert(r[k] == y);
        }
        if y == x {
            assert(r[s.len() as int] == x);
        }
    }
}

/// The position of `x` in `v`, if it is there.
fn position_of(v: &Vec<u32>, x: u32) -> (p: Option<usize>)
    ensures
        match p {
            Some(i) => i < v.len() && v@[i as int] == x,
            None => !v@.contains(x),
        },
{
    let mut i: usize = 0;
    while i < v.len()
        invariant
            i <= v.len(),
            forall|j: int| 0 <= j < i ==> v@[j] != x,
        decreases v.len() - i,
    {
        if v[i] == x {
            return Some(i);
        }
        i = i + 1;
    }
    None
}

impl Context {
    /// The books are consistent: no handle is listed twice, zero names no
    /// object, and the bound program is alive. This holds of every context.
    #[verifier::type_invariant]
    pub open spec fn consistent(self) -> bool {
        self.lists_each_once() && self@.wf()
    }

    /// No handle is listed twice.
    pub closed spec fn lists_each_once(self) -> bool {
        self.shaders@.no_duplicates() && self.programs@.no_duplicates()
    }

    /// A context with nothing alive, bound, applied or queued.
    pub fn new() -> (ctx: Context)
        ensures
            ctx@ == ContextModel::empty(),
    {
        let ctx = Context {
            shaders: Vec::new(),
            programs: Vec::new(),
            active_program: None,
            viewport: None,
            clear_color: Color { r: 0, g: 0, b: 0 },
            commands: Vec::new(),
        };
        assert(ctx@.shaders =~= Set::<u32>::empty());
        assert(ctx@.programs =~= Set::<u32>::empty());
        assert(ctx@.commands =~= Seq::<CommandModel>::empty());
        ctx
    }

    /// The program that is bound, if any.
    pub fn active_program(&self) -> (p: Option<u32>)
        ensures
            p == self@.active_program,
    {
        self.active_program
    }

    /// The viewport that was applied last, if any.
    pub fn viewport(&self) -> (v: Option<(i32, i32)>)
        ensures
            v == self@.viewport,
    {
        self.viewport
    }

    /// The clear colour that was applied last.
    pub fn clear_color(&self) -> (c: Color)
        ensures
            c == self@.clear_color,
    {
        self.clear_color
    }

    /// Whether the shader object `handle` is alive.
    pub fn is_live_shader(&self, handle: u32) -> (b: bool)
        ensures
            b == self@.shaders.contains(handle),
    {
        position_of(&self.shaders, handle).is_some()
    }

    /// Whether the program object `handle` is alive.
    pub fn is_live_program(&self, handle: u32) -> (b: bool)
        ensures
            b == self@.programs.contains(handle),
    {
        position_of(&self.programs, handle).is_some()
    }

    /// Whether no shader or program object is alive: nothing is left to
    /// release.
    pub fn holds_nothing(&self) -> (b: bool)
        ensures
            b == self@.holds_nothing(),
    {
        proof {
            if self.shaders@.len() > 0 {
                assert(self.shaders@.to_set().contains(self.shaders@[0]));
            }
            if self.programs@.len() > 0 {
                assert(self.programs@.to_set().contains(self.programs@[0]));
            }
        }
        self.shaders.len() == 0 && self.programs.len() == 0
    }

    /// The number of operations queued for the driver.
    pub fn queued(&self) -> (n: usize)
        ensures
            n == self@.commands.len(),
    {
        self.commands.len()
    }

    /// Hands out the queued operations, oldest first, and leaves the queue
    /// empty. The books stay as they are.
    pub fn take_commands(&mut self) -> (commands: Vec<Command>)
        ensures
            models_of(commands@) == old(self)@.commands,
            final(self)@ == (ContextModel { commands: Seq::empty(), ..old(self)@ }),
            final(self)@.wf(),
    {
        proof {
            use_type_invariant(&*self);
        }
        let Context { shaders, programs, active_program, viewport, clear_color, commands } =
            self.take();
        *self = Context {
            shaders,
            programs,
            active_program,
            viewport,
            clear_color,
            commands: Vec::new(),
        };
        assert(models_of(self.commands@) =~= Seq::<CommandModel>::empty());
        commands
    }

    /// Queues one operation.
    pub(crate) fn queue(&mut self, command: Command)
        ensures
            final(self)@ == old(self)@.queue(command@),
            final(self)@.wf(),
    {
        proof {
            use_type_invariant(&*self);
        }
        let Context { shaders, programs, active_program, viewport, clear_color, mut commands } =
            self.take();
        commands.push(command);
        *self = Context { shaders, programs, active_program, viewport, clear_color, commands };
        assert(models_of(self.commands@) =~= models_of(old(self).commands@).push(command@));
    }

    /// Moves the state out and leaves an empty context behind.
    fn take(&mut self) -> (taken: Context)
        ensures
            taken == *old(self),
            final(self)@ == ContextModel::empty(),
    {
        let mut taken = Context::new();
        core::mem::swap(self, &mut taken);
        taken
    }

    /// Enters a new shader object in the books.
    pub(crate) fn adopt_shader(&mut self, handle: u32)
        requires
            old(self)@.is_new_shader(handle),
        ensures
            final(self)@ == old(self)@.with_shader(handle),
            final(self)@.wf(),
    {
        proof {
            use_type_invariant(&*self);
        }
        proof {
            lemma_push_unique(self.shaders@, handle);
        }
        let Context { mut shaders, programs, active_program, viewport, clear_color, commands } =
            self.take();
        shaders.push(handle);
        *self = Context { shaders, programs, active_program, viewport, clear_color, commands };
    }

    /// Enters a new program object in the books.
    pub(crate) fn adopt_program(&mut self, handle: u32)
        requires
            old(self)@.is_new_program(handle),
        ensures
            final(self)@ == old(self)@.with_program(handle),
            final(self)@.wf(),
    {
        proof {
            use_type_invariant(&*self);
        }
        proof {
            lemma_push_unique(self.programs@, handle);
        }
        let Context { shaders, mut programs, active_program, viewport, clear_color, commands } =
            self.take();
        programs.push(handle);
        *self = Context { shaders, programs, active_program, viewport, clear_color, commands };
    }

    /// Deletes a shader object, if it is alive.
    pub(crate) fn delete_shader(&mut self, handle: u32)
        ensures
            final(self)@ == old(self)@.without_shader(handle),
            final(self)@.wf(),
    {
        proof {
            use_type_invariant(&*self);
        }
        match position_of(&self.shaders, handle) {
            Some(i) => {
                proof {
                    lemma_remove_unique(self.shaders@, i as int);
                }
                let Context {
                    mut shaders,
                    programs,
                    active_program,
                    viewport,
                    clear_color,
                    commands,
                } = self.take();
                shaders.remove(i);
                *self = Context {
                    shaders,
                    programs,
                    active_program,
                    viewport,
                    clear_color,
                    commands,
                };
                self.queue(Command::DeleteShader { handle });
            },
            None => {},
        }
    }

    /// Deletes a program object, if it is alive, and unbinds it if it was
    /// bound.
    pub(crate) fn delete_program(&mut self, handle: u32)
        ensures
            final(self)@ == old(self)@.without_program(handle),
            final(self)@.wf(),
    {
        proof {
            use_type_invariant(&*self);
        }
        match position_of(&self.programs, handle) {
            Some(i) => {
                proof {
                    lemma_remove_unique(self.programs@, i as int);
                }
                let Context {
                    shaders,
                    mut programs,
                    active_program,
                    viewport,
                    clear_color,
                    commands,
                } = self.take();
                programs.remove(i);
                let still_bound = match active_program {
                    Some(h) => if h == handle {
                        None
                    } else {
                        Some(h)
                    },
                    None => None,
                };
                *self = Context {
                    shaders,
                    programs,
                    active_program: still_bound,
                    viewport,
                    clear_color,
                    commands,
                };
                self.queue(Command::DeleteProgram { handle });
            },
            None => {},
        }
    }

    /// Binds a program object, if it is alive.
    pub(crate) fn bind_program(&mut self, handle: u32)
        ensures
            final(self)@ == old(self)@.using(handle),
            final(self)@.wf(),
    {
        proof {
            use_type_invariant(&*self);
        }
        if self.is_live_program(handle) {
            self.active_program = Some(handle);
            self.queue(Command::UseProgram { handle });
        }
    }

    /// Applies a viewport.
    pub(crate) fn apply_viewport(&mut self, width: i32, height: i32)
        ensures
            final(self)@ == old(self)@.with_viewport(width, height),
            final(self)@.wf(),
    {
        proof {
            use_type_invariant(&*self);
        }
        self.viewport = Some((width, height));
        self.queue(Command::SetViewport { width, height });
    }

    /// Applies a clear colour.
    pub(crate) fn apply_clear_color(&mut self, color: Color)
        ensures
            final(self)@ == old(self)@.with_clear_color(color),
            final(self)@.wf(),
    {
        proof {
            use_type_invariant(&*self);
        }
        self.clear_color = color;
        self.queue(Command::SetClearColor { color });
    }
}

/// Every operation keeps the books consistent: zero names no object and the
/// bound program is alive.
pub proof fn lemma_books_stay_consistent(c: ContextModel, handle: u32, command: CommandModel)
    requires
        c.wf(),
    ensures
        c.queue(command).wf(),
        c.is_new_shader(handle) ==> c.with_shader(handle).wf(),
        c.is_new_program(handle) ==> c.with_program(handle).wf(),
        c.without_shader(handle).wf(),
        c.without_program(handle).wf(),
        c.using(handle).wf(),
{
}

/// An object that is taken into the books and released again leaves the
/// books as they were, with one deletion queued; a program that was bound
/// in between leaves nothing bound.
pub proof fn lemma_release_undoes_adoption(c: ContextModel, handle: u32)
    requires
        c.wf(),
    ensures
        c.is_new_shader(handle) ==> c.with_shader(handle).without_shader(handle) == c.queue(
            CommandModel::DeleteShader { handle },
        ),
        c.is_new_program(handle) ==> c.with_program(handle).without_program(handle) == c.queue(
            CommandModel::DeleteProgram { handle },
        ),
        c.is_new_program(handle) ==> c.with_program(handle).using(handle).without_program(
            handle,
        ).active_program == None::<u32>,
        c.is_new_program(handle) ==> c.with_program(handle).using(handle).without_program(
            handle,
        ).programs == c.programs,
{
    if c.is_new_shader(handle) {
        assert(c.shaders.insert(handle).remove(handle) =~= c.shaders);
    }
    if c.is_new_program(handle) {
        assert(c.programs.insert(handle).remove(handle) =~= c.programs);
    }
}

/// Releasing twice is releasing once: what is gone is not deleted again.
pub proof fn lemma_release_is_once(c: ContextModel, handle: u32)
    ensures
        c.without_shader(handle).without_shader(handle) == c.without_shader(handle),
        c.without_program(handle).without_program(handle) == c.without_program(handle),
{
}

} // verus!
