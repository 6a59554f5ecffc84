//! The viewport and the colour buffer.

use vstd::prelude::*;
use crate::camera::Aspect;
use crate::render_gl::context::{Color, Command, CommandModel, Context};

verus! {

/// The size of the window in pixels, both lengths positive.
#[derive(Clone, Copy, Debug, PartialEq, Eq)]
pub struct Viewport {
    width: i32,
    height: i32,
}

impl View for Viewport {
    type V = (i32, i32);

    closed spec fn view(&self) -> (i32, i32) {
        (self.width, self.height)
    }
}

impl Viewport {
    /// Both lengths are positive: this holds of every viewport.
    #[verifier::type_invariant]
    pub open spec fn positive(self) -> bool {
        self@.0 > 0 && self@.1 > 0
    }

    /// The viewport of a window of `width` by `height` pixels.
    pub fn for_window(width: i32, height: i32) -> (v: Viewport)
        requires
            width > 0,
            height > 0,
        ensures
            v@ == (width, height),
    {
        Viewport { width, height }
    }

    /// Replaces the stored size. The context is not touched.
    pub fn update_size(&mut self, width: i32, height: i32)
        requires
            width > 0,
            height > 0,
        ensures
            final(self)@ == (width, height),
    {
        *self = Viewport { width, height };
    }

    pub fn width(&self) -> (w: i32)
        ensures
            w == self@.0,
            w > 0,
    {
        proof {
            use_type_invariant(self);
        }
        self.width
    }

    pub fn height(&self) -> (h: i32)
        ensures
            h == self@.1,
            h > 0,
    {
        proof {
            use_type_invariant(self);
        }
        self.height
    }

    /// The ratio of width to height.
    pub fn aspect(&self) -> (a: Aspect)
        ensures
            a == (Aspect { width: self@.0 as u32, height: self@.1 as u32 }),
            a.is_positive(),
    {
        proof {
            use_type_invariant(self);
        }
        Aspect { width: self.width as u32, height: self.height as u32 }
    }

    /// Applies the stored size to the context.
    pub fn set_used(&self, ctx: &mut Context)
        ensures
            final(ctx)@ == old(ctx)@.with_viewport(self@.0, self@.1),
            final(ctx)@.wf(),
    {
        ctx.apply_viewport(self.width, self.height);
    }
}

/// The clear colour of the colour buffer.
#[derive(Clone, Copy, Debug, PartialEq, Eq)]
pub struct ColorBuffer {
    color: Color,
}

impl View for ColorBuffer {
    type V = Color;

    closed spec fn view(&self) -> Color {
        self.color
    }
}

/// The colour that a new colour buffer clears to.
pub open spec fn default_clear_color() -> Color {
    Color { r: 300_000, g: 300_000, b: 500_000 }
}

impl ColorBuffer {
    /// Every component of the clear colour is at most one whole: this holds
    /// of every colour buffer.
    #[verifier::type_invariant]
    pub open spec fn valid(self) -> bool {
        self@.is_valid()
    }

    /// A colour buffer with the default clear colour.
    pub fn new() -> (b: ColorBuffer)
        ensures
            b@ == default_clear_color(),
    {
        ColorBuffer { color: Color { r: 300_000, g: 300_000, b: 500_000 } }
    }

    /// Replaces the clear colour, each component brought down to at most one
    /// whole. The context learns of it with the next [`Self::set_used`].
    pub fn set_clear_color(&mut self, color: Color)
        ensures
            final(self)@ == color.normalized(),
    {
        *self = ColorBuffer { color: Color::new(color.r, color.g, color.b) };
    }

    /// The clear colour.
    pub fn color(&self) -> (c: Color)
        ensures
            c == self@,
            c.is_valid(),
    {
        proof {
            use_type_invariant(self);
        }
        self.color
    }

    /// Applies the clear colour to the context.
    pub fn set_used(&self, ctx: &mut Context)
        ensures
            final(ctx)@ == old(ctx)@.with_clear_color(self@),
            final(ctx)@.wf(),
    {
        ctx.apply_clear_color(self.color);
    }

    /// Clears the colour buffer.
    pub fn clear(&self, ctx: &mut Context)
        ensures
            final(ctx)@ == old(ctx)@.queue(CommandModel::Clear { depth: false }),
            final(ctx)@.wf(),
    {
        ctx.queue(Command::Clear { depth: false });
    }
}

} // verus!
