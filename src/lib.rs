mod builder;
mod context;
mod objects;
mod renderer;
mod shader;

pub use builder::{BuildAction, BuildEvent, BuildStep, Builder};
pub use context::{Context, ContextError};
pub use objects::{GlObject, NO_OBJECT};
pub use renderer::{
    lemma_teardown_releases_once, DrawCall, Handles, Renderer, COLOR_OUTPUT_SLOT,
    POSITION_COMPONENTS, VERTEX_COUNT,
};
pub use shader::{check_compile, check_link, Failure, RendererError, ShaderStage};
