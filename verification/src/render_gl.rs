//! What the library knows of the rendering context and keeps for it: the
//! books of shader and program objects, the viewport and clear colour, and
//! the debug lines.

pub mod context;
pub mod debug_lines;
pub mod shader;
pub mod viewport;

pub use self::context::{Capability, Color, Command, Context};
pub use self::debug_lines::{DebugLines, Marker, MarkerHandle};
pub use self::shader::{
    CompileError, CompileReport, CompiledShader, LinkError, LinkReport, LinkedProgram, ShaderKind,
};
pub use self::viewport::{ColorBuffer, Viewport};
