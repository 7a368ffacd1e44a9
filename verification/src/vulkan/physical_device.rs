//! Physical devices: what is recorded of each, how its queue families are
//! resolved and which device is selected.

use vstd::prelude::*;
use crate::text::same_text;

verus! {

/// The class of a physical device.
#[derive(Clone, Copy, Debug, PartialEq, Eq, Structural)]
pub enum DeviceClass {
    Other,
    IntegratedGpu,
    DiscreteGpu,
    VirtualGpu,
    Cpu,
}

/// What the selection reads of a queue family.
#[derive(Clone, Copy, Debug, PartialEq, Eq, Structural)]
pub struct QueueFamily {
    /// The family takes graphics work.
    pub graphics: bool,
    /// The family takes compute work.
    pub compute: bool,
    /// The family can present to the surface the renderer is bound to.
    pub present: bool,
}

/// The device features this renderer has a use for.
#[derive(Clone, Copy, Debug, PartialEq, Eq, Structural)]
pub struct DeviceFeatures {
    pub geometry_shader: bool,
    pub shader_clip_distance: bool,
}

/// Why no device could be set up.
#[derive(Clone, Copy, Debug, PartialEq, Eq, Structural)]
pub enum DeviceError {
    /// The instance exposes no physical device.
    NoPhysicalDevice,
    /// No queue family takes graphics work and presents to the surface.
    NoSuitableQueueFamily,
}

/// Whether `i` is the first family that takes graphics work and presents.
pub open spec fn is_first_graphics_family(families: Seq<QueueFamily>, i: int) -> bool {
    &&& 0 <= i < families.len()
    &&& families[i].graphics && families[i].present
    &&& forall|j: int| 0 <= j < i ==> !(families[j].graphics && families[j].present)
}

/// Whether `i` is the first family that takes compute work.
pub open spec fn is_first_compute_family(families: Seq<QueueFamily>, i: int) -> bool {
    &&& 0 <= i < families.len()
    &&& families[i].compute
    &&& forall|j: int| 0 <= j < i ==> !families[j].compute
}

/// The index of the first family that takes graphics work and presents to
/// the surface, if there is one.
pub open spec fn best_graphics_queue_index(families: Seq<QueueFamily>) -> Option<u32> {
    if exists|i: int| is_first_graphics_family(families, i) {
        Some((choose|i: int| is_first_graphics_family(families, i)) as u32)
    } else {
        None
    }
}

/// The index of the first family that takes compute work, if there is one.
pub open spec fn best_compute_queue_index(families: Seq<QueueFamily>) -> Option<u32> {
    if exists|i: int| is_first_compute_family(families, i) {
        Some((choose|i: int| is_first_compute_family(families, i)) as u32)
    } else {
        None
    }
}

/// The family that is found is the first that suits, and none is found
/// only where none suits.
pub proof fn lemma_queue_families_resolved(families: Seq<QueueFamily>, i: int)
    requires
        families.len() <= u32::MAX,
    ensures
        is_first_graphics_family(families, i) ==> best_graphics_queue_index(families) == Some(
            i as u32,
        ),
        is_first_compute_family(families, i) ==> best_compute_queue_index(families) == Some(
            i as u32,
        ),
        best_graphics_queue_index(families) is None ==> !(0 <= i < families.len()
            && families[i].graphics && families[i].present),
        best_compute_queue_index(families) is None ==> !(0 <= i < families.len()
            && families[i].compute),
{
    if is_first_graphics_family(families, i) {
        let c = choose|c: int| is_first_graphics_family(families, c);
        assert(c == i);
    }
    if is_first_compute_family(families, i) {
        let c = choose|c: int| is_first_compute_family(families, c);
        assert(c == i);
    }
    if 0 <= i < families.len() && families[i].graphics && families[i].present {
        lemma_first_graphics_exists(families, i);
    }
    if 0 <= i < families.len() && families[i].compute {
        lemma_first_compute_exists(families, i);
    }
}

proof fn lemma_first_graphics_exists(families: Seq<QueueFamily>, k: int)
    requires
        0 <= k < families.len(),
        families[k].graphics && families[k].present,
    ensures
        exists|i: int| is_first_graphics_family(families, i),
    decreases k,
{
    if exists|j: int| 0 <= j < k && families[j].graphics && families[j].present {
        let j = choose|j: int| 0 <= j < k && families[j].graphics && families[j].present;
        lemma_first_graphics_exists(families, j);
    } else {
        assert(is_first_graphics_family(families, k));
    }
}

proof fn lemma_first_compute_exists(families: Seq<QueueFamily>, k: int)
    requires
        0 <= k < families.len(),
        families[k].compute,
    ensures
        exists|i: int| is_first_compute_family(families, i),
    decreases k,
{
    if exists|j: int| 0 <= j < k && families[j].compute {
        let j = choose|j: int| 0 <= j < k && families[j].compute;
        lemma_first_compute_exists(families, j);
    } else {
        assert(is_first_compute_family(families, k));
    }
}

/// Computes `best_graphics_queue_index`.
pub fn find_best_graphics_queue_index(queue_family_properties: &Vec<QueueFamily>) -> (index:
    Option<u32>)
    requires
        queue_family_properties.len() <= u32::MAX,
    ensures
        index == best_graphics_queue_index(queue_family_properties@),
{
    let mut i: u32 = 0;
    while (i as usize) < queue_family_properties.len()
        invariant
            i <= queue_family_properties.len() <= u32::MAX,
            forall|j: int|
                0 <= j < i ==> !(queue_family_properties@[j].graphics
                    && queue_family_properties@[j].present),
        decreases queue_family_properties.len() - i,
    {
        let family = &queue_family_properties[i as usize];
        if family.graphics && family.present {
            proof {
                let families = queue_family_properties@;
                assert(is_first_graphics_family(families, i as int));
                let c = choose|c: int| is_first_graphics_family(families, c);
                assert(c == i);
            }
            return Some(i);
        }
        i += 1;
    }
    None
}

/// Computes `best_compute_queue_index`.
pub fn find_best_compute_queue_index(queue_family_properties: &Vec<QueueFamily>) -> (index:
    Option<u32>)
    requires
        queue_family_properties.len() <= u32::MAX,
    ensures
        index == best_compute_queue_index(queue_family_properties@),
{
    let mut i: u32 = 0;
    while (i as usize) < queue_family_properties.len()
        invariant
            i <= queue_family_properties.len() <= u32::MAX,
            forall|j: int| 0 <= j < i ==> !queue_family_properties@[j].compute,
        decreases queue_family_properties.len() - i,
    {
        if queue_family_properties[i as usize].compute {
            proof {
                let families = queue_family_properties@;
                assert(is_first_compute_family(families, i as int));
                let c = choose|c: int| is_first_compute_family(families, c);
                assert(c == i);
            }
            return Some(i);
        }
        i += 1;
    }
    None
}

/// A physical device as the instance reports it, before its queue families
/// are resolved.
#[derive(Debug, PartialEq, Eq)]
pub struct PhysicalDeviceCandidate {
    /// The handle of the device.
    pub physical_device: u64,
    pub name: String,
    pub device_type: DeviceClass,
    /// The names of the extensions the device supports.
    pub extensions: Vec<String>,
    pub features: DeviceFeatures,
    /// The queue families of the device, in the order of their indices.
    pub queue_families: Vec<QueueFamily>,
}

/// A physical device with its resolved queue families.
#[derive(Debug, PartialEq, Eq)]
pub struct VkPhysicalDevice {
    /// The handle of the device.
    pub physical_device: u64,
    pub name: String,
    pub device_type: DeviceClass,
    /// The names of the extensions the device supports.
    pub extensions: Vec<String>,
    pub features: DeviceFeatures,
    /// The family that takes graphics work and presents, if there is one.
    pub graphics_queue_family_index: Option<u32>,
    /// The family that takes compute work. A device without a graphics
    /// family has no compute family resolved either.
    pub compute_queue_family_index: Option<u32>,
}

/// The mathematical content of a `VkPhysicalDevice`.
pub ghost struct PhysicalDeviceModel {
    pub physical_device: u64,
    pub name: Seq<char>,
    pub device_type: DeviceClass,
    pub extensions: Seq<Seq<char>>,
    pub features: DeviceFeatures,
    pub graphics_queue_family_index: Option<u32>,
    pub compute_queue_family_index: Option<u32>,
}

impl View for VkPhysicalDevice {
    type V = PhysicalDeviceModel;

    open spec fn view(&self) -> PhysicalDeviceModel {
        PhysicalDeviceModel {
            physical_device: self.physical_device,
            name: self.name@,
            device_type: self.device_type,
            extensions: self.extensions.deep_view(),
            features: self.features,
            graphics_queue_family_index: self.graphics_queue_family_index,
            compute_queue_family_index: self.compute_queue_family_index,
        }
    }
}

/// The views of a list of devices, in order.
pub open spec fn device_models(devices: Seq<VkPhysicalDevice>) -> Seq<PhysicalDeviceModel> {
    Seq::new(devices.len(), |i: int| devices[i]@)
}

impl PhysicalDeviceCandidate {
    /// The compute family recorded for the candidate: resolved only where
    /// a graphics family was found.
    pub open spec fn resolved_compute_family(&self) -> Option<u32> {
        if best_graphics_queue_index(self.queue_families@) is Some {
            best_compute_queue_index(self.queue_families@)
        } else {
            None
        }
    }

    /// What is recorded of the candidate.
    pub open spec fn described(&self) -> PhysicalDeviceModel {
        PhysicalDeviceModel {
            physical_device: self.physical_device,
            name: self.name@,
            device_type: self.device_type,
            extensions: self.extensions.deep_view(),
            features: self.features,
            graphics_queue_family_index: best_graphics_queue_index(self.queue_families@),
            compute_queue_family_index: self.resolved_compute_family(),
        }
    }

    /// Whether a family of the candidate takes graphics work and presents.
    pub open spec fn usable(&self) -> bool {
        best_graphics_queue_index(self.queue_families@) is Some
    }

    /// Resolves the queue families of the candidate and records it.
    pub fn describe(&self) -> (device: VkPhysicalDevice)
        requires
            self.queue_families.len() <= u32::MAX,
        ensures
            device@ == self.described(),
    {
        let graphics = find_best_graphics_queue_index(&self.queue_families);
        let compute = match graphics {
            Some(_) => find_best_compute_queue_index(&self.queue_families),
            None => None,
        };
        VkPhysicalDevice {
            physical_device: self.physical_device,
            name: self.name.clone(),
            device_type: self.device_type,
            extensions: copy_names(&self.extensions),
            features: self.features,
            graphics_queue_family_index: graphics,
            compute_queue_family_index: compute,
        }
    }
}

/// A copy of a list of names.
pub fn copy_names(names: &Vec<String>) -> (copy: Vec<String>)
    ensures
        copy.deep_view() == names.deep_view(),
{
    let mut copy: Vec<String> = Vec::new();
    let mut i: usize = 0;
    while i < names.len()
        invariant
            i <= names.len(),
            copy.len() == i,
            forall|j: int| 0 <= j < i ==> copy@[j]@ == names@[j]@,
        decreases names.len() - i,
    {
        copy.push(names[i].clone());
        i += 1;
    }
    assert(copy.deep_view() =~= names.deep_view());
    copy
}

/// What is recorded of each candidate, in order.
pub open spec fn described_all(candidates: Seq<PhysicalDeviceCandidate>) -> Seq<
    PhysicalDeviceModel,
> {
    Seq::new(candidates.len(), |i: int| candidates[i].described())
}

/// Whether the queue families of every candidate can be numbered by `u32`.
pub open spec fn families_fit(candidates: Seq<PhysicalDeviceCandidate>) -> bool {
    forall|i: int|
        0 <= i < candidates.len() ==> (#[trigger] candidates[i]).queue_families.len() <= u32::MAX
}

/// Computes `families_fit`.
pub fn queue_families_fit(candidates: &Vec<PhysicalDeviceCandidate>) -> (fit: bool)
    ensures
        fit == families_fit(candidates@),
{
    let mut i: usize = 0;
    while i < candidates.len()
        invariant
            i <= candidates.len(),
            forall|j: int|
                0 <= j < i ==> (#[trigger] candidates@[j]).queue_families.len() <= u32::MAX,
        decreases candidates.len() - i,
    {
        if candidates[i].queue_families.len() > 0xFFFF_FFFF {
            return false;
        }
        i += 1;
    }
    true
}

/// Whether some candidate has a family that takes graphics work and
/// presents to the surface.
pub open spec fn any_usable(candidates: Seq<PhysicalDeviceCandidate>) -> bool {
    exists|i: int| 0 <= i < candidates.len() && (#[trigger] candidates[i]).usable()
}

/// Records every device the instance reports, each with its resolved queue
/// families.
///
/// A device without a usable family is recorded all the same; the
/// enumeration fails only where there is no device at all, or none with a
/// usable family.
pub fn get_physical_devices(candidates: &Vec<PhysicalDeviceCandidate>) -> (result: Result<
    Vec<VkPhysicalDevice>,
    DeviceError,
>)
    requires
        families_fit(candidates@),
    ensures
        candidates.len() == 0 ==> result == Err::<Vec<VkPhysicalDevice>, DeviceError>(
            DeviceError::NoPhysicalDevice,
        ),
        candidates.len() > 0 && !any_usable(candidates@) ==> result == Err::<
            Vec<VkPhysicalDevice>,
            DeviceError,
        >(DeviceError::NoSuitableQueueFamily),
        candidates.len() > 0 && any_usable(candidates@) ==> result is Ok && device_models(
            result->Ok_0@,
        ) == described_all(candidates@),
{
    if candidates.len() == 0 {
        return Err(DeviceError::NoPhysicalDevice);
    }
    let mut devices: Vec<VkPhysicalDevice> = Vec::new();
    let mut usable: bool = false;
    let mut i: usize = 0;
    while i < candidates.len()
        invariant
            i <= candidates.len(),
            families_fit(candidates@),
            devices.len() == i,
            forall|j: int| 0 <= j < i ==> (#[trigger] devices@[j])@ == candidates@[j].described(),
            usable <==> exists|j: int| 0 <= j < i && (#[trigger] candidates@[j]).usable(),
        decreases candidates.len() - i,
    {
        let device = candidates[i].describe();
        if device.graphics_queue_family_index.is_some() {
            usable = true;
        }
        devices.push(device);
        i += 1;
    }
    if !usable {
        return Err(DeviceError::NoSuitableQueueFamily);
    }
    assert(device_models(devices@) =~= described_all(candidates@));
    Ok(devices)
}

/// Whether `i` is the first device of the discrete class.
pub open spec fn is_first_discrete(devices: Seq<PhysicalDeviceModel>, i: int) -> bool {
    &&& 0 <= i < devices.len()
    &&& devices[i].device_type == DeviceClass::DiscreteGpu
    &&& forall|j: int| 0 <= j < i ==> devices[j].device_type != DeviceClass::DiscreteGpu
}

/// Whether `i` is the first device that bears exactly the name `name`.
pub open spec fn is_first_named(devices: Seq<PhysicalDeviceModel>, name: Seq<char>, i: int)
    -> bool {
    &&& 0 <= i < devices.len()
    &&& devices[i].name == name
    &&& forall|j: int| 0 <= j < i ==> devices[j].name != name
}

/// The place of the device selected by default: the first discrete device,
/// else the first device.
pub open spec fn default_selection(devices: Seq<PhysicalDeviceModel>) -> int {
    if exists|i: int| is_first_discrete(devices, i) {
        choose|i: int| is_first_discrete(devices, i)
    } else {
        0
    }
}

/// The place of the device selected for a preferred name: the first device
/// of that name, else the default selection.
pub open spec fn selection_by_name(devices: Seq<PhysicalDeviceModel>, name: Seq<char>) -> int {
    if exists|i: int| is_first_named(devices, name, i) {
        choose|i: int| is_first_named(devices, name, i)
    } else {
        default_selection(devices)
    }
}

/// Computes `default_selection`.
pub fn default_selection_index(physical_devices: &Vec<VkPhysicalDevice>) -> (index: usize)
    requires
        physical_devices.len() > 0,
    ensures
        index == default_selection(device_models(physical_devices@)),
        index < physical_devices.len(),
{
    let mut i: usize = 0;
    while i < physical_devices.len()
        invariant
            i <= physical_devices.len(),
            forall|j: int|
                0 <= j < i ==> device_models(physical_devices@)[j].device_type
                    != DeviceClass::DiscreteGpu,
        decreases physical_devices.len() - i,
    {
        if physical_devices[i].device_type == DeviceClass::DiscreteGpu {
            proof {
                let devices = device_models(physical_devices@);
                assert(is_first_discrete(devices, i as int));
                let c = choose|c: int| is_first_discrete(devices, c);
                assert(c == i);
            }
            return i;
        }
        i += 1;
    }
    0
}

/// Computes `selection_by_name`.
pub fn selection_index_by_name(physical_devices: &Vec<VkPhysicalDevice>, gpu_name: &str) -> (index:
    usize)
    requires
        physical_devices.len() > 0,
    ensures
        index == selection_by_name(device_models(physical_devices@), gpu_name@),
        index < physical_devices.len(),
{
    let mut i: usize = 0;
    while i < physical_devices.len()
        invariant
            i <= physical_devices.len(),
            forall|j: int| 0 <= j < i ==> device_models(physical_devices@)[j].name != gpu_name@,
        decreases physical_devices.len() - i,
    {
        if same_text(physical_devices[i].name.as_str(), gpu_name) {
            proof {
                let devices = device_models(physical_devices@);
                assert(is_first_named(devices, gpu_name@, i as int));
                let c = choose|c: int| is_first_named(devices, gpu_name@, c);
                assert(c == i);
            }
            return i;
        }
        i += 1;
    }
    default_selection_index(physical_devices)
}

/// The device selected by default.
pub fn select_physical_device(physical_devices: &Vec<VkPhysicalDevice>) -> (selected:
    &VkPhysicalDevice)
    requires
        physical_devices.len() > 0,
    ensures
        *selected == physical_devices@[default_selection(device_models(physical_devices@))],
{
    &physical_devices[default_selection_index(physical_devices)]
}

/// The device selected for a preferred name.
pub fn select_physical_device_by_name<'a>(
    physical_devices: &'a Vec<VkPhysicalDevice>,
    gpu_name: &str,
) -> (selected: &'a VkPhysicalDevice)
    requires
        physical_devices.len() > 0,
    ensures
        *selected == physical_devices@[selection_by_name(
            device_models(physical_devices@),
            gpu_name@,
        )],
{
    &physical_devices[selection_index_by_name(physical_devices, gpu_name)]
}

/// The selection is the first device that qualifies.
pub proof fn lemma_selection_is_first(devices: Seq<PhysicalDeviceModel>, name: Seq<char>, i: int)
    ensures
        is_first_discrete(devices, i) ==> default_selection(devices) == i,
        is_first_named(devices, name, i) ==> selection_by_name(devices, name) == i,
{
    if is_first_discrete(devices, i) {
        let c = choose|c: int| is_first_discrete(devices, c);
        assert(c == i);
    }
    if is_first_named(devices, name, i) {
        let c = choose|c: int| is_first_named(devices, name, c);
        assert(c == i);
    }
}

/// A device named as preferred is selected whatever its class; without
/// such a device the choice is the default one.
pub proof fn lemma_named_device_is_selected(devices: Seq<PhysicalDeviceModel>, name: Seq<char>)
    requires
        devices.len() > 0,
    ensures
        0 <= selection_by_name(devices, name) < devices.len(),
        (exists|i: int| 0 <= i < devices.len() && devices[i].name == name)
            ==> devices[selection_by_name(devices, name)].name == name,
        (forall|i: int| 0 <= i < devices.len() ==> devices[i].name != name)
            ==> selection_by_name(devices, name) == default_selection(devices),
{
    lemma_default_prefers_discrete(devices);
    if exists|i: int| 0 <= i < devices.len() && devices[i].name == name {
        let k = choose|i: int| 0 <= i < devices.len() && devices[i].name == name;
        lemma_first_named_exists(devices, name, k);
    }
}

/// The default selection is a discrete device where there is one, and the
/// first device where there is none.
pub proof fn lemma_default_prefers_discrete(devices: Seq<PhysicalDeviceModel>)
    requires
        devices.len() > 0,
    ensures
        0 <= default_selection(devices) < devices.len(),
        (exists|i: int|
            0 <= i < devices.len() && devices[i].device_type == DeviceClass::DiscreteGpu)
            ==> devices[default_selection(devices)].device_type == DeviceClass::DiscreteGpu,
        (forall|i: int|
            0 <= i < devices.len() ==> devices[i].device_type != DeviceClass::DiscreteGpu)
            ==> default_selection(devices) == 0,
{
    if exists|i: int| 0 <= i < devices.len() && devices[i].device_type == DeviceClass::DiscreteGpu {
        let k = choose|i: int|
            0 <= i < devices.len() && devices[i].device_type == DeviceClass::DiscreteGpu;
        lemma_first_discrete_exists(devices, k);
    }
}

proof fn lemma_first_discrete_exists(devices: Seq<PhysicalDeviceModel>, k: int)
    requires
        0 <= k < devices.len(),
        devices[k].device_type == DeviceClass::DiscreteGpu,
    ensures
        exists|i: int| is_first_discrete(devices, i),
    decreases k,
{
    if exists|j: int| 0 <= j < k && devices[j].device_type == DeviceClass::DiscreteGpu {
        let j = choose|j: int| 0 <= j < k && devices[j].device_type == DeviceClass::DiscreteGpu;
        lemma_first_discrete_exists(devices, j);
    } else {
        assert(is_first_discrete(devices, k));
    }
}

proof fn lemma_first_named_exists(devices: Seq<PhysicalDeviceModel>, name: Seq<char>, k: int)
    requires
        0 <= k < devices.len(),
        devices[k].name == name,
    ensures
        exists|i: int| is_first_named(devices, name, i),
    decreases k,
{
    if exists|j: int| 0 <= j < k && devices[j].name == name {
        let j = choose|j: int| 0 <= j < k && devices[j].name == name;
        lemma_first_named_exists(devices, name, j);
    } else {
        assert(is_first_named(devices, name, k));
    }
}

} // verus!
