//! The renderer: an instance with its selected device, the logical device
//! on it and what follows from the two.

use vstd::prelude::*;
use crate::error::{ResaError, RESOLVE_ERROR_MESSAGE};
use crate::rendering::IRenderer;
use crate::sys_log::{record_for, Log, LogLevel, LogRecord};
use crate::vulkan::device::{desired_surface_format, VkLogicalDevice};
use crate::vulkan::instance::VkInstance;
use crate::vulkan::pipeline::{
    describe_pipeline,
    pipeline_description,
    GraphicsPipelineDescription,
    VERTEX_POSITION_OFFSET,
    VERTEX_STRIDE,
    VERTEX_UV_OFFSET,
};
use crate::vulkan::swapchain::{
    Extent2D,
    PresentMode,
    SurfaceCapabilities,
    SurfaceFormat,
    VkSwapchain,
};
use crate::vulkan::teardown::{shutdown_sequence, shutdown_steps, TeardownStep};

verus! {

/// A renderer on the selected device of an instance.
#[derive(Debug, PartialEq, Eq)]
pub struct VkRenderer {
    pub instance: VkInstance,
    pub gpu_name: String,
    pub device: VkLogicalDevice,
}

impl VkRenderer {
    /// Whether a renderer can be set up on an instance: its selected device
    /// has a family that takes graphics work and presents, and a swapchain
    /// can be negotiated.
    pub open spec fn can_be_set_up(
        instance: VkInstance,
        caps: SurfaceCapabilities,
        formats: Seq<SurfaceFormat>,
        present_modes: Seq<PresentMode>,
        window_size: Extent2D,
    ) -> bool {
        &&& instance.selected_device().graphics_queue_family_index is Some
        &&& VkSwapchain::negotiated(
            caps,
            formats,
            present_modes,
            desired_surface_format(),
            window_size,
        ) is Ok
    }

    /// Sets up the renderer on the selected device of an instance: the
    /// logical device with its swapchain for a window of the given size.
    /// Fails where no logical device can be set up, and hands back beside
    /// the failure what the log is to write of it.
    pub fn new(
        instance: VkInstance,
        caps: &SurfaceCapabilities,
        formats: &Vec<SurfaceFormat>,
        present_modes: &Vec<PresentMode>,
        window_size: Extent2D,
        log: &Log,
    ) -> (outcome: (Result<VkRenderer, ResaError>, Option<LogRecord>))
        ensures
            outcome.0 is Err ==> outcome.0->Err_0 == ResaError::InitFailed,
            outcome.0 is Ok <==> Self::can_be_set_up(
                instance,
                *caps,
                formats@,
                present_modes@,
                window_size,
            ),
            outcome.0 is Ok ==> {
                let renderer = outcome.0->Ok_0;
                &&& renderer.instance == instance
                &&& renderer.gpu_name@ == instance.selected_device().name@
                &&& renderer.device.set_up_on(
                    instance,
                    VkSwapchain::negotiated(
                        *caps,
                        formats@,
                        present_modes@,
                        desired_surface_format(),
                        window_size,
                    )->Ok_0,
                )
            },
            outcome.0 is Ok ==> outcome.1 is None,
            outcome.0 is Err ==> outcome.1 is Some && exists|timestamp: Seq<char>|
                outcome.1->Some_0@ == #[trigger] record_for(
                    log.flags,
                    LogLevel::Error,
                    timestamp,
                    RESOLVE_ERROR_MESSAGE@,
                ),
    {
        let gpu_name = instance.selected_physical_device().name.clone();
        let (device, record) = VkLogicalDevice::new(
            &instance,
            caps,
            formats,
            present_modes,
            &window_size,
        ).resolve(log);
        match device {
            Some(device) => (Ok(VkRenderer { instance, gpu_name, device }), record),
            None => (Err(ResaError::InitFailed), record),
        }
    }

    /// The name of the device the renderer runs on.
    pub fn get_gpu_name(&self) -> (name: &str)
        ensures
            name@ == self.gpu_name@,
    {
        self.gpu_name.as_str()
    }

    /// The pipeline for a window of the given size.
    pub fn recreate_pipelines(&self, window_width: u32, window_height: u32) -> (description:
        GraphicsPipelineDescription)
        ensures
            description == pipeline_description(
                Extent2D { width: window_width, height: window_height },
                VERTEX_STRIDE,
                VERTEX_POSITION_OFFSET,
                VERTEX_UV_OFFSET,
            ),
    {
        describe_pipeline(
            Extent2D { width: window_width, height: window_height },
            VERTEX_STRIDE,
            VERTEX_POSITION_OFFSET,
            VERTEX_UV_OFFSET,
        )
    }

    /// What is done to dispose of the renderer, in order: the device comes
    /// to rest, then everything the renderer owns is destroyed, what was
    /// created last first, from the semaphores to the instance.
    pub fn dispose(&self) -> (steps: Vec<TeardownStep>)
        ensures
            steps@ == shutdown_sequence(),
    {
        shutdown_steps()
    }
}

impl IRenderer for VkRenderer {
    fn get_gpu_name(&self) -> (name: &str)
        ensures
            name@ == self.gpu_name@,
    {
        self.gpu_name.as_str()
    }

    fn recreate_pipelines(&self, window_width: u32, window_height: u32) -> (description:
        GraphicsPipelineDescription)
        ensures
            description == pipeline_description(
                Extent2D { width: window_width, height: window_height },
                VERTEX_STRIDE,
                VERTEX_POSITION_OFFSET,
                VERTEX_UV_OFFSET,
            ),
    {
        VkRenderer::recreate_pipelines(self, window_width, window_height)
    }

    fn dispose(&self) -> (steps: Vec<TeardownStep>)
        ensures
            steps@ == shutdown_sequence(),
    {
        VkRenderer::dispose(self)
    }
}

} // verus!
