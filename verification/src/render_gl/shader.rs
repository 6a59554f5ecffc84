//! Shader objects and linked programs.
//!
//! The driver compiles and links; the library decides what its reports mean.
//! A [`CompiledShader`] or a [`LinkedProgram`] exists only for an object that the
//! driver reported as good and that the [`Context`] has entered in its books.
//! An object that failed is deleted on the spot, and the error carries the
//! driver's log as it came.

use vstd::prelude::*;
use crate::render_gl::context::{Command, CommandModel, Context, ContextModel};

verus! {

/// The pipeline stage that a shader is for.
#[derive(Clone, Copy, Debug, PartialEq, Eq, Structural)]
pub enum ShaderKind {
    Vertex,
    Fragment,
    Geometry,
}

/// What the driver said of one compilation.
#[derive(Clone, Debug, PartialEq, Eq)]
pub struct CompileReport {
    /// The name of the shader object; zero if none was created.
    pub handle: u32,
    /// Whether the compilation succeeded.
    pub success: bool,
    /// The compiler's log.
    pub log: String,
}

/// What the driver said of one link.
#[derive(Clone, Debug, PartialEq, Eq)]
pub struct LinkReport {
    /// The name of the program object; zero if none was created.
    pub handle: u32,
    /// Whether the link succeeded.
    pub success: bool,
    /// The linker's log.
    pub log: String,
}

/// A shader did not compile.
#[derive(Clone, Debug, PartialEq, Eq)]
pub struct CompileError {
    /// The compiler's log, unchanged.
    pub log: String,
}

/// A program did not link.
#[derive(Clone, Debug, PartialEq, Eq)]
pub struct LinkError {
    /// The linker's log, unchanged.
    pub log: String,
}

/// The model of a [`CompiledShader`].
pub struct ShaderModel {
    pub handle: u32,
    pub kind: ShaderKind,
}

/// One compiled shader object, owned by whoever holds this value.
#[derive(Debug)]
pub struct CompiledShader {
    handle: u32,
    kind: ShaderKind,
}

impl View for CompiledShader {
    type V = ShaderModel;

    closed spec fn view(&self) -> ShaderModel {
        ShaderModel { handle: self.handle, kind: self.kind }
    }
}

/// One linked program object, owned by whoever holds this value.
#[derive(Debug)]
pub struct LinkedProgram {
    handle: u32,
}

impl View for LinkedProgram {
    type V = u32;

    closed spec fn view(&self) -> u32 {
        self.handle
    }
}

/// The models of a sequence of shaders, in order.
pub open spec fn shader_models(shaders: Seq<CompiledShader>) -> Seq<ShaderModel> {
    shaders.map_values(|s: CompiledShader| s@)
}

/// Whether a compilation with this report yields a shader.
pub open spec fn compile_succeeds(c: ContextModel, handle: u32, success: bool) -> bool {
    success && c.is_new_shader(handle)
}

/// The context after a compilation with this report: a good new object is
/// entered in the books, a failed new object is deleted, and nothing else
/// changes.
pub open spec fn compile_outcome(c: ContextModel, handle: u32, success: bool) -> ContextModel {
    if compile_succeeds(c, handle, success) {
        c.with_shader(handle)
    } else if c.is_new_shader(handle) {
        c.queue(CommandModel::DeleteShader { handle })
    } else {
        c
    }
}

/// Some shader of the sequence is for stage `kind`.
pub open spec fn has_stage(shaders: Seq<ShaderModel>, kind: ShaderKind) -> bool {
    exists|i: int| 0 <= i < shaders.len() && (#[trigger] shaders[i]).kind == kind
}

/// The sequence holds a vertex and a fragment shader.
pub open spec fn stages_complete(shaders: Seq<ShaderModel>) -> bool {
    has_stage(shaders, ShaderKind::Vertex) && has_stage(shaders, ShaderKind::Fragment)
}

/// The context after each shader of the sequence was released, first to
/// last.
pub open spec fn release_all(c: ContextModel, shaders: Seq<ShaderModel>) -> ContextModel
    decreases shaders.len(),
{
    if shaders.len() == 0 {
        c
    } else {
        release_all(c, shaders.drop_last()).without_shader(shaders.last().handle)
    }
}

/// Whether a link of these shaders with this report yields a program.
pub open spec fn link_succeeds(
    c: ContextModel,
    shaders: Seq<ShaderModel>,
    handle: u32,
    success: bool,
) -> bool {
    stages_complete(shaders) && success && c.is_new_program(handle)
}

/// The context after a link of these shaders with this report: the shaders
/// are released; then a good new program is entered in the books, a failed
/// new one is deleted.
pub open spec fn link_outcome(
    c: ContextModel,
    shaders: Seq<ShaderModel>,
    handle: u32,
    success: bool,
) -> ContextModel {
    let released = release_all(c, shaders);
    if link_succeeds(c, shaders, handle, success) {
        released.with_program(handle)
    } else if c.is_new_program(handle) {
        released.queue(CommandModel::DeleteProgram { handle })
    } else {
        released
    }
}

/// Releasing shaders touches neither the programs nor the binding, and
/// takes no shader into the books.
pub proof fn lemma_release_all_keeps_programs(c: ContextModel, shaders: Seq<ShaderModel>)
    ensures
        release_all(c, shaders).programs == c.programs,
        release_all(c, shaders).active_program == c.active_program,
        release_all(c, shaders).viewport == c.viewport,
        release_all(c, shaders).clear_color == c.clear_color,
        release_all(c, shaders).shaders.subset_of(c.shaders),
        forall|i: int|
            0 <= i < shaders.len() ==> !release_all(c, shaders).shaders.contains(
                (#[trigger] shaders[i]).handle,
            ),
    decreases shaders.len(),
{
    if shaders.len() > 0 {
        let rest = shaders.drop_last();
        lemma_release_all_keeps_programs(c, rest);
        assert forall|i: int| 0 <= i < shaders.len() implies !release_all(
            c,
            shaders,
        ).shaders.contains((#[trigger] shaders[i]).handle) by {
            if i < rest.len() {
                assert(rest[i] == shaders[i]);
            }
        }
    }
}

fn has_kind(shaders: &Vec<CompiledShader>, kind: ShaderKind) -> (b: bool)
    ensures
        b == has_stage(shader_models(shaders@), kind),
{
    let mut i: usize = 0;
    while i < shaders.len()
        invariant
            i <= shaders.len(),
            forall|j: int| 0 <= j < i ==> (#[trigger] shader_models(shaders@)[j]).kind != kind,
        decreases shaders.len() - i,
    {
        if shaders[i].kind == kind {
            assert(shader_models(shaders@)[i as int].kind == kind);
            return true;
        }
        i = i + 1;
    }
    false
}

impl CompiledShader {
    /// The handle names an object: it is not zero. This holds of every
    /// shader.
    #[verifier::type_invariant]
    pub open spec fn names_an_object(self) -> bool {
        self@.handle != 0
    }

    /// Takes the driver's report of one compilation for stage `kind`.
    ///
    /// A shader comes back exactly when the driver reported success for an
    /// object that is new to the context. Otherwise the error carries the
    /// driver's log unchanged, the object, if it is new, is deleted, and the
    /// books stay as they were.
    pub fn compile(ctx: &mut Context, kind: ShaderKind, report: CompileReport) -> (r: Result<
        CompiledShader,
        CompileError,
    >)
        ensures
            final(ctx)@.wf(),
            r is Ok <==> compile_succeeds(old(ctx)@, report.handle, report.success),
            final(ctx)@ == compile_outcome(old(ctx)@, report.handle, report.success),
            r matches Ok(s) ==> s@ == (ShaderModel { handle: report.handle, kind }),
            r matches Err(e) ==> e.log@ == report.log@,
            r is Err ==> final(ctx)@.shaders == old(ctx)@.shaders && final(ctx)@.programs == old(
                ctx,
            )@.programs && final(ctx)@.active_program == old(ctx)@.active_program,
    {
        proof {
            use_type_invariant(&*ctx);
        }
        let handle = report.handle;
        let fresh = handle != 0 && !ctx.is_live_shader(handle);
        if report.success && fresh {
            ctx.adopt_shader(handle);
            Ok(CompiledShader { handle, kind })
        } else {
            if fresh {
                ctx.queue(Command::DeleteShader { handle });
            }
            Err(CompileError { log: report.log })
        }
    }

    /// The name of the shader object.
    pub fn handle(&self) -> (h: u32)
        ensures
            h == self@.handle,
            h != 0,
    {
        proof {
            use_type_invariant(self);
        }
        self.handle
    }

    /// The stage that the shader is for.
    pub fn kind(&self) -> (k: ShaderKind)
        ensures
            k == self@.kind,
    {
        self.kind
    }

    /// Gives the shader object up: it is deleted, once.
    pub fn release(self, ctx: &mut Context)
        ensures
            final(ctx)@.wf(),
            final(ctx)@ == old(ctx)@.without_shader(self@.handle),
    {
        proof {
            use_type_invariant(&*ctx);
        }
        ctx.delete_shader(self.handle);
    }
}

impl LinkedProgram {
    /// The handle names an object: it is not zero. This holds of every
    /// program.
    #[verifier::type_invariant]
    pub open spec fn names_an_object(self) -> bool {
        self@ != 0
    }

    /// Takes the driver's report of one link of `shaders`.
    ///
    /// A program comes back exactly when the shaders hold a vertex and a
    /// fragment stage and the driver reported success for an object that is
    /// new to the context. Otherwise the error carries the driver's log
    /// unchanged and the object, if it is new, is deleted. Either way the
    /// shaders are used up: each is released.
    pub fn link(ctx: &mut Context, shaders: Vec<CompiledShader>, report: LinkReport) -> (r: Result<
        LinkedProgram,
        LinkError,
    >)
        ensures
            final(ctx)@.wf(),
            r is Ok <==> link_succeeds(
                old(ctx)@,
                shader_models(shaders@),
                report.handle,
                report.success,
            ),
            final(ctx)@ == link_outcome(
                old(ctx)@,
                shader_models(shaders@),
                report.handle,
                report.success,
            ),
            r matches Ok(p) ==> p@ == report.handle,
            r matches Err(e) ==> e.log@ == report.log@,
            r is Err ==> final(ctx)@.programs == old(ctx)@.programs && final(ctx)@.active_program
                == old(ctx)@.active_program,
    {
        proof {
            use_type_invariant(&*ctx);
        }
        let complete = has_kind(&shaders, ShaderKind::Vertex) && has_kind(
            &shaders,
            ShaderKind::Fragment,
        );
        let handle = report.handle;
        let fresh = handle != 0 && !ctx.is_live_program(handle);
        let ghost models = shader_models(shaders@);
        let mut i: usize = 0;
        while i < shaders.len()
            invariant
                i <= shaders.len(),
                models == shader_models(shaders@),
                ctx@ == release_all(old(ctx)@, models.take(i as int)),
            decreases shaders.len() - i,
        {
            proof {
                assert(models.take(i as int + 1).drop_last() =~= models.take(i as int));
                assert(models.take(i as int + 1).last() == models[i as int]);
            }
            ctx.delete_shader(shaders[i].handle);
            i = i + 1;
        }
        proof {
            assert(models.take(shaders.len() as int) =~= models);
            lemma_release_all_keeps_programs(old(ctx)@, models);
        }
        if complete && report.success && fresh {
            ctx.adopt_program(handle);
            Ok(LinkedProgram { handle })
        } else {
            if fresh {
                ctx.queue(Command::DeleteProgram { handle });
            }
            Err(LinkError { log: report.log })
        }
    }

    /// The name of the program object.
    pub fn handle(&self) -> (h: u32)
        ensures
            h == self@,
            h != 0,
    {
        proof {
            use_type_invariant(self);
        }
        self.handle
    }

    /// Whether this program is the one bound program of the context.
    pub fn is_used(&self, ctx: &Context) -> (b: bool)
        ensures
            b == (ctx@.active_program == Some(self@)),
    {
        match ctx.active_program() {
            Some(h) => h == self.handle,
            None => false,
        }
    }

    /// Makes this program the one bound program of the context, if the
    /// context holds it.
    pub fn set_used(&self, ctx: &mut Context)
        ensures
            final(ctx)@.wf(),
            final(ctx)@ == old(ctx)@.using(self@),
    {
        proof {
            use_type_invariant(&*ctx);
        }
        ctx.bind_program(self.handle);
    }

    /// Gives the program object up: it is deleted, once, and unbound if it
    /// was bound.
    pub fn release(self, ctx: &mut Context)
        ensures
            final(ctx)@.wf(),
            final(ctx)@ == old(ctx)@.without_program(self@),
    {
        proof {
            use_type_invariant(&*ctx);
        }
        ctx.delete_program(self.handle);
    }
}

/// A compilation that fails changes no books: the same shaders and programs
/// are alive and the same program is bound; at most the failed object's
/// deletion is queued.
pub proof fn lemma_failed_compile_keeps_the_books(c: ContextModel, handle: u32, success: bool)
    requires
        !compile_succeeds(c, handle, success),
    ensures
        compile_outcome(c, handle, success).shaders == c.shaders,
        compile_outcome(c, handle, success).programs == c.programs,
        compile_outcome(c, handle, success).active_program == c.active_program,
        compile_outcome(c, handle, success).commands == c.commands || compile_outcome(
            c,
            handle,
            success,
        ).commands == c.commands.push(CommandModel::DeleteShader { handle }),
{
}

/// A link never leaves one of its shaders alive, whether it succeeds or not,
/// and a link that fails leaves the programs and the binding as they were.
pub proof fn lemma_link_uses_up_the_shaders(
    c: ContextModel,
    shaders: Seq<ShaderModel>,
    handle: u32,
    success: bool,
)
    ensures
        forall|i: int|
            0 <= i < shaders.len() ==> !link_outcome(c, shaders, handle, success).shaders.contains(
                (#[trigger] shaders[i]).handle,
            ),
        link_outcome(c, shaders, handle, success).shaders.subset_of(c.shaders),
        link_outcome(c, shaders, handle, success).active_program == c.active_program,
        !link_succeeds(c, shaders, handle, success) ==> link_outcome(
            c,
            shaders,
            handle,
            success,
        ).programs == c.programs,
        link_succeeds(c, shaders, handle, success) ==> link_outcome(
            c,
            shaders,
            handle,
            success,
        ).programs == c.programs.insert(handle),
{
    lemma_release_all_keeps_programs(c, shaders);
}

/// A set without a vertex stage or without a fragment stage does not link,
/// whatever the driver reports; the empty set is one of them.
pub proof fn lemma_link_needs_both_stages(c: ContextModel, shaders: Seq<ShaderModel>, handle: u32)
    requires
        !has_stage(shaders, ShaderKind::Vertex) || !has_stage(shaders, ShaderKind::Fragment),
    ensures
        !link_succeeds(c, shaders, handle, true),
        !stages_complete(Seq::<ShaderModel>::empty()),
{
}

} // verus!
