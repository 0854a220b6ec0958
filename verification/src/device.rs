//! Choice of the physical device and of the queue family to submit on.

use vstd::prelude::*;

verus! {

/// The kind of a physical device, as its driver reports it.
#[derive(Clone, Copy, Debug, PartialEq, Eq, Structural)]
pub enum PhysicalDeviceType {
    DiscreteGpu,
    IntegratedGpu,
    VirtualGpu,
    Cpu,
    Other,
}

/// What the choice needs to know of one queue family.
#[derive(Clone, Copy, Debug, PartialEq, Eq, Structural)]
pub struct QueueFamily {
    /// The family takes graphics commands.
    pub supports_graphics: bool,
    /// The family can present to the window's surface.
    pub supports_surface: bool,
}

/// What the choice needs to know of one physical device.
#[derive(Debug)]
pub struct PhysicalDevice {
    pub device_type: PhysicalDeviceType,
    pub queue_families: Vec<QueueFamily>,
}

/// The device and the queue family that were chosen, each by its place in
/// the list it came from.
#[derive(Clone, Copy, Debug, PartialEq, Eq, Structural)]
pub struct DeviceChoice {
    pub device: usize,
    pub queue_family: usize,
}

/// Preference among device kinds; the lower the better.
pub open spec fn spec_rank(device_type: PhysicalDeviceType) -> u8 {
    match device_type {
        PhysicalDeviceType::DiscreteGpu => 0,
        PhysicalDeviceType::IntegratedGpu => 1,
        PhysicalDeviceType::VirtualGpu => 2,
        PhysicalDeviceType::Cpu => 3,
        PhysicalDeviceType::Other => 4,
    }
}

/// A family is usable if it draws and presents.
pub open spec fn usable(family: QueueFamily) -> bool {
    family.supports_graphics && family.supports_surface
}

/// Whether `at` is the first usable family of `families`.
pub open spec fn is_first_usable(families: Seq<QueueFamily>, at: int) -> bool {
    &&& 0 <= at < families.len()
    &&& usable(families[at])
    &&& forall|k: int| 0 <= k < at ==> !usable(#[trigger] families[k])
}

/// Whether a device qualifies: it has a usable family.
pub open spec fn qualifies(device: PhysicalDevice) -> bool {
    exists|k: int| 0 <= k < device.queue_families@.len() && usable(#[trigger] device.queue_families@[k])
}

/// Whether `at` is the device to choose: it qualifies, no qualifying device
/// is of a better kind, and none before it is of the same kind.
pub open spec fn is_preferred(devices: Seq<PhysicalDevice>, at: int) -> bool {
    &&& 0 <= at < devices.len()
    &&& qualifies(devices[at])
    &&& forall|j: int|
        0 <= j < devices.len() && qualifies(#[trigger] devices[j]) ==> spec_rank(
            devices[at].device_type,
        ) <= spec_rank(devices[j].device_type)
    &&& forall|j: int|
        0 <= j < at && qualifies(#[trigger] devices[j]) ==> spec_rank(devices[at].device_type)
            < spec_rank(devices[j].device_type)
}

/// Preference among device kinds: discrete before integrated before virtual
/// before software before anything else.
pub fn rank(device_type: PhysicalDeviceType) -> (r: u8)
    ensures
        r == spec_rank(device_type),
{
    match device_type {
        PhysicalDeviceType::DiscreteGpu => 0,
        PhysicalDeviceType::IntegratedGpu => 1,
        PhysicalDeviceType::VirtualGpu => 2,
        PhysicalDeviceType::Cpu => 3,
        PhysicalDeviceType::Other => 4,
    }
}

/// The first family that takes graphics commands and presents to the surface.
pub fn first_usable_family(families: &Vec<QueueFamily>) -> (at: Option<usize>)
    ensures
        at.is_none() <==> forall|k: int| 0 <= k < families@.len() ==> !usable(#[trigger] families@[k]),
        at.is_some() ==> is_first_usable(families@, at.unwrap() as int),
{
    let mut k: usize = 0;
    while k < families.len()
        invariant
            k <= families@.len(),
            forall|j: int| 0 <= j < k ==> !usable(#[trigger] families@[j]),
        decreases families@.len() - k,
    {
        if families[k].supports_graphics && families[k].supports_surface {
            return Some(k);
        }
        k += 1;
    }
    None
}

/// Chooses the device to render on among those that have a usable queue
/// family: the one of the most preferred kind, and of several of that kind
/// the first. There is no choice exactly when no device qualifies.
pub fn select_device(devices: &Vec<PhysicalDevice>) -> (choice: Option<DeviceChoice>)
    ensures
        choice.is_none() <==> forall|i: int| 0 <= i < devices@.len() ==> !qualifies(#[trigger] devices@[i]),
        choice.is_some() ==> is_preferred(devices@, choice.unwrap().device as int)
            && is_first_usable(
            devices@[choice.unwrap().device as int].queue_families@,
            choice.unwrap().queue_family as int,
        ),
{
    let mut best: Option<DeviceChoice> = None;
    let mut best_rank: u8 = 0;
    let mut i: usize = 0;
    while i < devices.len()
        invariant
            i <= devices@.len(),
            best.is_none() <==> forall|j: int| 0 <= j < i ==> !qualifies(#[trigger] devices@[j]),
            best.is_some() ==> {
                let b = best.unwrap();
                &&& b.device < i
                &&& qualifies(devices@[b.device as int])
                &&& best_rank == spec_rank(devices@[b.device as int].device_type)
                &&& is_first_usable(devices@[b.device as int].queue_families@, b.queue_family as int)
                &&& forall|j: int|
                    0 <= j < i && qualifies(#[trigger] devices@[j]) ==> best_rank <= spec_rank(
                        devices@[j].device_type,
                    )
                &&& forall|j: int|
                    0 <= j < b.device && qualifies(#[trigger] devices@[j]) ==> best_rank < spec_rank(
                        devices@[j].device_type,
                    )
            },
        decreases devices@.len() - i,
    {
        let device = &devices[i];
        match first_usable_family(&device.queue_families) {
            Some(k) => {
                assert(qualifies(devices@[i as int]));
                let r: u8 = rank(device.device_type);
                if best.is_none() || r < best_rank {
                    best = Some(DeviceChoice { device: i, queue_family: k });
                    best_rank = r;
                }
            },
            None => {
                assert(!qualifies(devices@[i as int]));
            },
        }
        i += 1;
    }
    best
}

} // verus!
