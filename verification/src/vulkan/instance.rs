//! The instance: the physical devices it reports, the one that is
//! selected, and what is asked of it when a logical device is created.

use vstd::prelude::*;
use crate::vulkan::physical_device::{
    any_usable,
    copy_names,
    default_selection,
    default_selection_index,
    described_all,
    device_models,
    families_fit,
    get_physical_devices,
    selection_by_name,
    selection_index_by_name,
    DeviceError,
    DeviceFeatures,
    PhysicalDeviceCandidate,
    PhysicalDeviceModel,
    VkPhysicalDevice,
};
use crate::vulkan::teardown::{ResourceKind, TeardownStep};

verus! {

/// Name of the extension a device needs to present to a surface.
pub const SWAPCHAIN_EXTENSION: &'static str = "VK_KHR_swapchain";

/// Name of the extension that a device which lists it must have enabled.
pub const PORTABILITY_SUBSET_EXTENSION: &'static str = "VK_KHR_portability_subset";

/// A request for queues of one family. Each queue is asked for at the
/// highest priority.
#[derive(Clone, Copy, Debug, PartialEq, Eq, Structural)]
pub struct QueueRequest {
    pub family_index: u32,
    pub queue_count: u32,
}

/// What a logical device is created with.
#[derive(Debug, PartialEq, Eq)]
pub struct DeviceCreateRequest {
    /// The handle of the physical device.
    pub physical_device: u64,
    pub queue_requests: Vec<QueueRequest>,
    pub extensions: Vec<String>,
    pub features: DeviceFeatures,
}

/// The queue requests for a graphics family and a compute family: one for
/// the graphics family, and one for the compute family where it is another.
pub open spec fn queue_requests_for(graphics: u32, compute: Option<u32>) -> Seq<QueueRequest> {
    if compute is Some && compute->Some_0 != graphics {
        seq![
            QueueRequest { family_index: graphics, queue_count: 1 },
            QueueRequest { family_index: compute->Some_0, queue_count: 1 },
        ]
    } else {
        seq![QueueRequest { family_index: graphics, queue_count: 1 }]
    }
}

/// The extensions to enable: the requested ones, and the portability
/// subset where the device lists it and it was not requested already.
pub open spec fn enabled_extensions(requested: Seq<Seq<char>>, supported: Seq<Seq<char>>) -> Seq<
    Seq<char>,
> {
    if supported.contains(PORTABILITY_SUBSET_EXTENSION@) && !requested.contains(
        PORTABILITY_SUBSET_EXTENSION@,
    ) {
        requested.push(PORTABILITY_SUBSET_EXTENSION@)
    } else {
        requested
    }
}

/// Whether `names` holds `name`.
pub fn contains_name(names: &Vec<String>, name: &str) -> (found: bool)
    ensures
        found == names.deep_view().contains(name@),
{
    let wanted = name.to_owned();
    let mut i: usize = 0;
    while i < names.len()
        invariant
            i <= names.len(),
            wanted@ == name@,
            forall|j: int| 0 <= j < i ==> names@[j]@ != name@,
        decreases names.len() - i,
    {
        if names[i] == wanted {
            assert(names.deep_view()[i as int] == name@);
            return true;
        }
        i += 1;
    }
    assert forall|j: int| 0 <= j < names.deep_view().len() implies names.deep_view()[j]
        != name@ by {
        assert(names.deep_view()[j] == names@[j]@);
    }
    false
}

/// The physical devices of an instance and the one that is selected.
#[derive(Debug, PartialEq, Eq)]
pub struct VkInstance {
    physical_devices: Vec<VkPhysicalDevice>,
    selected: usize,
}

impl VkInstance {
    #[verifier::type_invariant]
    spec fn one_device_selected(&self) -> bool {
        self.selected < self.physical_devices.len()
    }

    /// The recorded devices, in the order in which they were reported.
    pub closed spec fn devices(&self) -> Seq<VkPhysicalDevice> {
        self.physical_devices@
    }

    /// The place of the selected device among the recorded ones.
    pub closed spec fn selected_index(&self) -> int {
        self.selected as int
    }

    /// The views of the recorded devices.
    pub open spec fn models(&self) -> Seq<PhysicalDeviceModel> {
        device_models(self.devices())
    }

    /// The selected device.
    pub open spec fn selected_device(&self) -> VkPhysicalDevice {
        self.devices()[self.selected_index()]
    }

    /// Records the devices that the instance reports and selects one: the
    /// first that bears the preferred name, if a name is given and a device
    /// bears it, else the first discrete device, else the first device.
    ///
    /// Fails where no device is reported, or none with a queue family that
    /// takes graphics work and presents to the surface.
    pub fn new(candidates: &Vec<PhysicalDeviceCandidate>, gpu_name: Option<String>) -> (result:
        Result<VkInstance, DeviceError>)
        requires
            families_fit(candidates@),
        ensures
            candidates.len() == 0 ==> result is Err && result->Err_0
                == DeviceError::NoPhysicalDevice,
            candidates.len() > 0 && !any_usable(candidates@)
                ==> result is Err && result->Err_0 == DeviceError::NoSuitableQueueFamily,
            candidates.len() > 0 && any_usable(candidates@) ==> {
                &&& result is Ok
                &&& result->Ok_0.models() == described_all(candidates@)
                &&& 0 <= result->Ok_0.selected_index() < candidates.len()
                &&& result->Ok_0.selected_index() == match gpu_name {
                    Some(name) => selection_by_name(described_all(candidates@), name@),
                    None => default_selection(described_all(candidates@)),
                }
            },
    {
        let physical_devices = match get_physical_devices(candidates) {
            Ok(devices) => devices,
            Err(e) => {
                return Err(e);
            },
        };
        assert(physical_devices.len() == candidates.len()) by {
            assert(device_models(physical_devices@).len() == candidates.len());
        }
        let selected = match &gpu_name {
            Some(name) => selection_index_by_name(&physical_devices, name.as_str()),
            None => default_selection_index(&physical_devices),
        };
        Ok(VkInstance { physical_devices, selected })
    }

    /// The recorded devices.
    pub fn physical_devices(&self) -> (devices: &Vec<VkPhysicalDevice>)
        ensures
            devices@ == self.devices(),
    {
        &self.physical_devices
    }

    /// The selected device. There always is one.
    pub fn selected_physical_device(&self) -> (device: &VkPhysicalDevice)
        ensures
            0 <= self.selected_index() < self.devices().len(),
            *device == self.selected_device(),
    {
        proof {
            use_type_invariant(self);
        }
        &self.physical_devices[self.selected]
    }

    /// What a logical device on the selected physical device is created
    /// with: a queue of its graphics family, a queue of its compute family
    /// where that is another one, the requested features and the extensions
    /// to enable.
    ///
    /// Fails where the selected device has no family that takes graphics
    /// work and presents to the surface.
    pub fn create_device(
        &self,
        requested_features: &DeviceFeatures,
        requested_extensions: &Vec<String>,
    ) -> (result: Result<DeviceCreateRequest, DeviceError>)
        ensures
            self.selected_device().graphics_queue_family_index is None ==> result is Err
                && result->Err_0 == DeviceError::NoSuitableQueueFamily,
            self.selected_device().graphics_queue_family_index is Some ==> {
                &&& result is Ok
                &&& result->Ok_0.physical_device == self.selected_device().physical_device
                &&& result->Ok_0.queue_requests@ == queue_requests_for(
                    self.selected_device().graphics_queue_family_index->Some_0,
                    self.selected_device().compute_queue_family_index,
                )
                &&& result->Ok_0.features == *requested_features
                &&& result->Ok_0.extensions.deep_view() == enabled_extensions(
                    requested_extensions.deep_view(),
                    self.selected_device().extensions.deep_view(),
                )
            },
    {
        let device = self.selected_physical_device();
        let graphics = match device.graphics_queue_family_index {
            Some(index) => index,
            None => {
                return Err(DeviceError::NoSuitableQueueFamily);
            },
        };
        let mut queue_requests: Vec<QueueRequest> = Vec::new();
        queue_requests.push(QueueRequest { family_index: graphics, queue_count: 1 });
        match device.compute_queue_family_index {
            Some(compute) => {
                if compute != graphics {
                    queue_requests.push(QueueRequest { family_index: compute, queue_count: 1 });
                }
            },
            None => {},
        }
        assert(queue_requests@ =~= queue_requests_for(
            graphics,
            device.compute_queue_family_index,
        ));
        let mut extensions = copy_names(requested_extensions);
        if contains_name(&device.extensions, PORTABILITY_SUBSET_EXTENSION) && !contains_name(
            requested_extensions,
            PORTABILITY_SUBSET_EXTENSION,
        ) {
            extensions.push(PORTABILITY_SUBSET_EXTENSION.to_owned());
            assert(extensions.deep_view() =~= requested_extensions.deep_view().push(
                PORTABILITY_SUBSET_EXTENSION@,
            ));
        }
        Ok(
            DeviceCreateRequest {
                physical_device: device.physical_device,
                queue_requests,
                extensions,
                features: *requested_features,
            },
        )
    }

    /// What is destroyed with the instance, in order: the surface, then
    /// the instance itself.
    pub fn destroy(&self) -> (steps: Vec<TeardownStep>)
        ensures
            steps@ == seq![
                TeardownStep::Destroy(ResourceKind::Surface),
                TeardownStep::Destroy(ResourceKind::Instance),
            ],
    {
        let mut steps: Vec<TeardownStep> = Vec::new();
        steps.push(TeardownStep::Destroy(ResourceKind::Surface));
        steps.push(TeardownStep::Destroy(ResourceKind::Instance));
        steps
    }
}

} // verus!
