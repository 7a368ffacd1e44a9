//! What every renderer and every render loop offers, whatever graphics
//! interface stands behind it.

use vstd::prelude::*;
use crate::vulkan::pipeline::GraphicsPipelineDescription;
use crate::vulkan::render_loop::LoopAction;
use crate::vulkan::teardown::TeardownStep;

verus! {

/// A renderer.
pub trait IRenderer {
    /// The name of the graphics device the renderer runs on.
    fn get_gpu_name(&self) -> &str;

    /// The pipeline for a window of the given size.
    fn recreate_pipelines(&self, window_width: u32, window_height: u32)
        -> GraphicsPipelineDescription;

    /// What is destroyed with the renderer, in order.
    fn dispose(&self) -> Vec<TeardownStep>;
}

/// A render loop.
pub trait RendererLoop: Sized {
    /// A loop that is set up and not started.
    fn init() -> Self;

    /// Takes note that the window wants to be drawn and says what is to be
    /// done.
    fn render(&mut self) -> LoopAction;

    /// Takes note that the window changed its size.
    fn resize(&mut self);
}

} // verus!
