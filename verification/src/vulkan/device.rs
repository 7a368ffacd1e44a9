//! The logical device: its queues and the swapchain that belongs to it.

use vstd::prelude::*;
use crate::error::ResaResult;
use crate::vulkan::instance::{
    enabled_extensions,
    queue_requests_for,
    DeviceCreateRequest,
    VkInstance,
    SWAPCHAIN_EXTENSION,
};
use crate::vulkan::physical_device::DeviceFeatures;
use crate::vulkan::swapchain::{
    Extent2D,
    PresentMode,
    SurfaceCapabilities,
    SurfaceFormat,
    VkSwapchain,
};
use crate::vulkan::teardown::{ResourceKind, TeardownStep};

verus! {

/// Raw value of the packed 8-bit sRGB format the renderer asks for.
pub const FORMAT_A8B8G8R8_SRGB_PACK32: i32 = 57;

/// Raw value of the extended linear sRGB colour space the renderer asks for.
pub const COLOR_SPACE_EXTENDED_SRGB_LINEAR: i32 = 1_000_104_002;

/// The surface format the renderer asks for.
pub open spec fn desired_surface_format() -> SurfaceFormat {
    SurfaceFormat {
        format: FORMAT_A8B8G8R8_SRGB_PACK32,
        color_space: COLOR_SPACE_EXTENDED_SRGB_LINEAR,
    }
}

/// The features the renderer asks of a device.
pub open spec fn required_features() -> DeviceFeatures {
    DeviceFeatures { geometry_shader: false, shader_clip_distance: true }
}

/// Where a queue is found: its family and its index within the family.
#[derive(Clone, Copy, Debug, PartialEq, Eq, Structural)]
pub struct QueueLocation {
    pub family_index: u32,
    pub queue_index: u32,
}

/// A logical device with its queues and its swapchain.
#[derive(Debug, PartialEq, Eq)]
pub struct VkLogicalDevice {
    /// What the device was created with.
    pub request: DeviceCreateRequest,
    pub graphics_queue: QueueLocation,
    /// The queue that presents: the graphics queue.
    pub present_queue: QueueLocation,
    pub compute_queue: Option<QueueLocation>,
    pub swapchain: VkSwapchain,
}

impl VkLogicalDevice {
    /// Whether the device is the one that is set up on the selected
    /// physical device of `instance` with the swapchain `swapchain`: it has
    /// the first queue of the graphics family, which presents too, and the
    /// first queue of the compute family where there is one; it was created
    /// with a queue request for each of the two families, the features the
    /// renderer asks for and the extensions to enable.
    pub open spec fn set_up_on(&self, instance: VkInstance, swapchain: VkSwapchain) -> bool {
        let device = instance.selected_device();
        let graphics = device.graphics_queue_family_index->Some_0;
        let compute = device.compute_queue_family_index;
        &&& device.graphics_queue_family_index is Some
        &&& self.swapchain == swapchain
        &&& self.graphics_queue == (QueueLocation { family_index: graphics, queue_index: 0 })
        &&& self.present_queue == self.graphics_queue
        &&& self.compute_queue == match compute {
            Some(family) => Some(QueueLocation { family_index: family, queue_index: 0 }),
            None => None,
        }
        &&& self.request.physical_device == device.physical_device
        &&& self.request.queue_requests@ == queue_requests_for(graphics, compute)
        &&& self.request.features == required_features()
        &&& self.request.extensions.deep_view() == enabled_extensions(
            seq![SWAPCHAIN_EXTENSION@],
            device.extensions.deep_view(),
        )
    }

    /// Sets up a logical device on the selected physical device and
    /// negotiates its swapchain.
    ///
    /// The device gets a queue of the graphics family and, where the
    /// compute family is another one, a queue of that; each is the first
    /// queue of its family. Fails where the selected device has no family
    /// that takes graphics work and presents, or where no swapchain can be
    /// negotiated.
    pub fn new(
        instance: &VkInstance,
        caps: &SurfaceCapabilities,
        formats: &Vec<SurfaceFormat>,
        present_modes: &Vec<PresentMode>,
        window_size: &Extent2D,
    ) -> (result: ResaResult<VkLogicalDevice>)
        ensures
            ({
                let negotiated = VkSwapchain::negotiated(
                    *caps,
                    formats@,
                    present_modes@,
                    desired_surface_format(),
                    *window_size,
                );
                if instance.selected_device().graphics_queue_family_index is None
                    || negotiated is Err {
                    result is Failure
                } else {
                    result is Success && result->Success_0.set_up_on(*instance, negotiated->Ok_0)
                }
            }),
    {
        let features = DeviceFeatures { geometry_shader: false, shader_clip_distance: true };
        let mut extension_names: Vec<String> = Vec::new();
        extension_names.push(SWAPCHAIN_EXTENSION.to_owned());
        assert(extension_names.deep_view() =~= seq![SWAPCHAIN_EXTENSION@]);
        let request = match instance.create_device(&features, &extension_names) {
            Ok(request) => request,
            Err(_) => {
                return ResaResult::Failure();
            },
        };
        let selected = instance.selected_physical_device();
        let graphics = match selected.graphics_queue_family_index {
            Some(index) => index,
            None => {
                return ResaResult::Failure();
            },
        };
        let compute_queue = match selected.compute_queue_family_index {
            Some(family) => Some(QueueLocation { family_index: family, queue_index: 0 }),
            None => None,
        };
        let desired = SurfaceFormat {
            format: FORMAT_A8B8G8R8_SRGB_PACK32,
            color_space: COLOR_SPACE_EXTENDED_SRGB_LINEAR,
        };
        let swapchain = match VkSwapchain::new(caps, formats, present_modes, desired, *window_size) {
            Ok(swapchain) => swapchain,
            Err(_) => {
                return ResaResult::Failure();
            },
        };
        let graphics_queue = QueueLocation { family_index: graphics, queue_index: 0 };
        ResaResult::Success(
            VkLogicalDevice {
                request,
                graphics_queue,
                present_queue: graphics_queue,
                compute_queue,
                swapchain,
            },
        )
    }

    /// What is destroyed with the device, in order: once the device has
    /// come to rest, the swapchain, then the device itself.
    pub fn destroy(&self) -> (steps: Vec<TeardownStep>)
        ensures
            steps@ == seq![
                TeardownStep::WaitIdle,
                TeardownStep::Destroy(ResourceKind::Swapchain),
                TeardownStep::Destroy(ResourceKind::Device),
            ],
    {
        let mut steps: Vec<TeardownStep> = Vec::new();
        steps.push(TeardownStep::WaitIdle);
        steps.push(TeardownStep::Destroy(ResourceKind::Swapchain));
        steps.push(TeardownStep::Destroy(ResourceKind::Device));
        steps
    }
}

} // verus!
