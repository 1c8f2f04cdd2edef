//! GPU context: physical-device and queue-family selection.
//!
//! The window-system edge enumerates the machine's physical devices and
//! reports each as a [`DeviceCandidate`] of plain values; the selection
//! logic here is verified against them.  A device is eligible when it
//! supports the required extensions and has a queue family with both
//! graphics capability and presentation support.  Among eligible devices
//! the best is chosen by a fixed preference order: discrete GPU, then
//! integrated GPU, then virtual GPU, then CPU fallback, then anything else;
//! the first device of the best kind wins.  Failure to find any eligible
//! device is a startup precondition violation, fatal to the caller.

use vstd::prelude::*;

verus! {

/// The kind a physical device reports itself as.
#[derive(Clone, Copy, Debug, PartialEq, Eq, Structural)]
pub enum PhysicalDeviceKind {
    DiscreteGpu,
    IntegratedGpu,
    VirtualGpu,
    Cpu,
    Other,
}

/// One queue family of a physical device: whether it declares graphics
/// capability, and whether it can present to the target surface.
#[derive(Clone, Copy, Debug, PartialEq, Eq, Structural)]
pub struct QueueFamily {
    pub graphics: bool,
    pub present: bool,
}

/// A physical device as reported by the enumeration edge.
#[derive(Debug)]
pub struct DeviceCandidate {
    pub kind: PhysicalDeviceKind,
    /// Whether the device supports the required extensions (the swapchain
    /// extension).
    pub supports_extensions: bool,
    pub queue_families: Vec<QueueFamily>,
}

/// A selected GPU context: the index of the chosen physical device and the
/// index of its chosen queue family.  The logical device and its single
/// queue are opened from these together, exactly once, and never
/// individually replaced.
#[derive(Clone, Copy, Debug, PartialEq, Eq, Structural)]
pub struct GraphicsContext {
    pub device_index: usize,
    pub queue_family_index: u32,
}

/// Preference rank of a device kind: lower is better.
pub open spec fn device_rank(kind: PhysicalDeviceKind) -> int {
    match kind {
        PhysicalDeviceKind::DiscreteGpu => 0,
        PhysicalDeviceKind::IntegratedGpu => 1,
        PhysicalDeviceKind::VirtualGpu => 2,
        PhysicalDeviceKind::Cpu => 3,
        PhysicalDeviceKind::Other => 4,
    }
}

/// Whether a queue family suits the engine: graphics capability and
/// presentation support together.
pub open spec fn family_suitable(f: QueueFamily) -> bool {
    f.graphics && f.present
}

/// Whether a device can drive the engine at all.
pub open spec fn device_eligible(d: DeviceCandidate) -> bool {
    d.supports_extensions && exists|i: int|
        0 <= i < d.queue_families@.len() && family_suitable(d.queue_families@[i])
}

/// Finds the first queue family with both graphics capability and
/// presentation support; returns its index, or nothing when no family
/// qualifies.
pub fn find_queue_family(families: &Vec<QueueFamily>) -> (r: Option<u32>)
    requires
        families@.len() <= u32::MAX,
    ensures
        match r {
            Option::Some(i) => {
                &&& 0 <= i < families@.len()
                &&& family_suitable(families@[i as int])
                &&& forall|j: int| 0 <= j < i ==> !family_suitable(families@[j])
            },
            Option::None => forall|j: int|
                0 <= j < families@.len() ==> !family_suitable(families@[j]),
        },
{
    let n = families.len();
    let mut i: usize = 0;
    while i < n
        invariant
            i <= n,
            n == families@.len(),
            n <= u32::MAX,
            forall|j: int| 0 <= j < i ==> !family_suitable(families@[j]),
        decreases n - i,
    {
        let f = families[i];
        if f.graphics && f.present {
            return Option::Some(i as u32);
        }
        i += 1;
    }
    Option::None
}

/// Selects the physical device and queue family to open the logical device
/// on.  Returns the context of the best eligible device — ranked by
/// [`device_rank`], first device winning ties — together with its first
/// suitable queue family; returns nothing exactly when no device is
/// eligible, which the caller treats as fatal.
pub fn select_physical_device(devices: &Vec<DeviceCandidate>) -> (r: Option<GraphicsContext>)
    requires
        forall|d: int|
            0 <= d < devices@.len() ==> (#[trigger] devices@[d]).queue_families@.len()
                <= u32::MAX,
    ensures
        match r {
            Option::Some(ctx) => {
                &&& 0 <= ctx.device_index < devices@.len()
                &&& device_eligible(devices@[ctx.device_index as int])
                &&& 0 <= ctx.queue_family_index
                    < devices@[ctx.device_index as int].queue_families@.len()
                &&& family_suitable(
                    devices@[ctx.device_index as int].queue_families@[ctx.queue_family_index as int],
                )
                &&& forall|j: int|
                    0 <= j < ctx.queue_family_index ==> !family_suitable(
                        devices@[ctx.device_index as int].queue_families@[j],
                    )
                &&& forall|d: int|
                    0 <= d < devices@.len() && device_eligible(#[trigger] devices@[d])
                        ==> device_rank(devices@[ctx.device_index as int].kind) <= device_rank(
                        devices@[d].kind,
                    )
                &&& forall|d: int|
                    0 <= d < ctx.device_index && device_eligible(#[trigger] devices@[d])
                        ==> device_rank(devices@[ctx.device_index as int].kind) < device_rank(
                        devices@[d].kind,
                    )
            },
            Option::None => forall|d: int|
                0 <= d < devices@.len() ==> !device_eligible(#[trigger] devices@[d]),
        },
{
    let n = devices.len();
    let mut best: Option<GraphicsContext> = Option::None;
    let mut i: usize = 0;
    while i < n
        invariant
            i <= n,
            n == devices@.len(),
            forall|d: int|
                0 <= d < devices@.len() ==> (#[trigger] devices@[d]).queue_families@.len()
                    <= u32::MAX,
            match best {
                Option::Some(ctx) => {
                    &&& 0 <= ctx.device_index < i
                    &&& device_eligible(devices@[ctx.device_index as int])
                    &&& 0 <= ctx.queue_family_index
                        < devices@[ctx.device_index as int].queue_families@.len()
                    &&& family_suitable(
                        devices@[ctx.device_index as int].queue_families@[ctx.queue_family_index as int],
                    )
                    &&& forall|j: int|
                        0 <= j < ctx.queue_family_index ==> !family_suitable(
                            devices@[ctx.device_index as int].queue_families@[j],
                        )
                    &&& forall|d: int|
                        0 <= d < i && device_eligible(#[trigger] devices@[d]) ==> device_rank(
                            devices@[ctx.device_index as int].kind,
                        ) <= device_rank(devices@[d].kind)
                    &&& forall|d: int|
                        0 <= d < ctx.device_index && device_eligible(#[trigger] devices@[d])
                            ==> device_rank(devices@[ctx.device_index as int].kind) < device_rank(
                            devices@[d].kind,
                        )
                },
                Option::None => forall|d: int|
                    0 <= d < i ==> !device_eligible(#[trigger] devices@[d]),
            },
        decreases n - i,
    {
        let d = &devices[i];
        if d.supports_extensions {
            if let Option::Some(q) = find_queue_family(&d.queue_families) {
                let rank = rank_of(d.kind);
                let better = match best {
                    Option::Some(ctx) => rank < rank_of(devices[ctx.device_index].kind),
                    Option::None => true,
                };
                if better {
                    best = Option::Some(
                        GraphicsContext { device_index: i, queue_family_index: q },
                    );
                }
            }
        }
        i += 1;
    }
    best
}

/// Preference rank of a device kind, as executable code.
pub fn rank_of(kind: PhysicalDeviceKind) -> (r: u8)
    ensures
        r as int == device_rank(kind),
{
    match kind {
        PhysicalDeviceKind::DiscreteGpu => 0,
        PhysicalDeviceKind::IntegratedGpu => 1,
        PhysicalDeviceKind::VirtualGpu => 2,
        PhysicalDeviceKind::Cpu => 3,
        PhysicalDeviceKind::Other => 4,
    }
}

} // verus!
