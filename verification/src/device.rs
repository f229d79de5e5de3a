//! Choosing a physical device and a queue family.
//!
//! The driver enumerates devices and their queue families; the demo takes the
//! first enumerated device and, on it, the first queue family that supports
//! graphics operations. Everything decided here is stated over plain values
//! handed in by the caller; the driver calls themselves stay outside.

use vstd::prelude::*;
use crate::error::InitError;
use crate::text::bool_rep;
use crate::text::bool_text;
use crate::text::dec_rep;
use crate::text::push_decimal;

verus! {

/// One queue family of a physical device, as the driver reports it.
#[derive(Clone, Copy, Debug, PartialEq, Eq, Structural)]
pub struct QueueFamilyInfo {
    /// The driver's id for this family.
    pub id: u32,
    /// How many queues the family offers.
    pub queues_count: u32,
    /// The family accepts graphics command buffers.
    pub supports_graphics: bool,
    /// The family accepts compute command buffers.
    pub supports_compute: bool,
    /// The family accepts transfer operations.
    pub supports_transfers: bool,
    /// The family supports sparse memory binding.
    pub supports_sparse_binding: bool,
}

/// One physical device, reduced to what the selection reads.
#[derive(Clone, Debug)]
pub struct DeviceInfo {
    /// The device's queue families, in the driver's enumeration order.
    pub queue_families: Vec<QueueFamilyInfo>,
}

/// Some family in the list supports graphics operations.
pub open spec fn has_graphics(families: Seq<QueueFamilyInfo>) -> bool {
    exists|j: int| 0 <= j < families.len() && families[j].supports_graphics
}

/// First-match scan over the queue families: the index of the first family
/// that supports graphics operations, or `None` when no family does.
pub fn find_graphics_family(families: &Vec<QueueFamilyInfo>) -> (r: Option<usize>)
    ensures
        match r {
            Some(i) => i < families@.len() && families@[i as int].supports_graphics
                && forall|j: int| 0 <= j < i ==> !families@[j].supports_graphics,
            None => !has_graphics(families@),
        },
{
    let mut i: usize = 0;
    while i < families.len()
        invariant
            i <= families@.len(),
            forall|j: int| 0 <= j < i ==> !families@[j].supports_graphics,
        decreases families@.len() - i,
    {
        if families[i].supports_graphics {
            return Some(i);
        }
        i = i + 1;
    }
    None
}

/// The text of one queue family's report line.
pub open spec fn queue_family_line_spec(f: QueueFamilyInfo) -> Seq<char> {
    "queue "@ + dec_rep(f.id as nat) + ": count: "@ + dec_rep(f.queues_count as nat)
        + " graphics:"@ + bool_rep(f.supports_graphics) + " compute:"@ + bool_rep(
        f.supports_compute,
    ) + " transfers:"@ + bool_rep(f.supports_transfers) + " sparse_bind:"@ + bool_rep(
        f.supports_sparse_binding,
    )
}

/// Build one queue family's report line, exactly as specified.
pub fn queue_family_line(f: &QueueFamilyInfo) -> (line: String)
    ensures
        line@ == queue_family_line_spec(*f),
{
    let mut line = String::new();
    line.append("queue ");
    push_decimal(&mut line, f.id);
    line.append(": count: ");
    push_decimal(&mut line, f.queues_count);
    line.append(" graphics:");
    line.append(bool_text(f.supports_graphics));
    line.append(" compute:");
    line.append(bool_text(f.supports_compute));
    line.append(" transfers:");
    line.append(bool_text(f.supports_transfers));
    line.append(" sparse_bind:");
    line.append(bool_text(f.supports_sparse_binding));
    proof {
        assert(line@ =~= queue_family_line_spec(*f));
    }
    line
}

/// Everything logical-device creation needs, decided ahead of the call.
#[derive(Clone, Copy, Debug, PartialEq, Eq, Structural)]
pub struct InitPlan {
    /// Index of the chosen physical device in the enumeration order.
    pub device_index: usize,
    /// Index of the chosen queue family on that device.
    pub queue_family_index: usize,
    /// The driver's id of the chosen queue family.
    pub queue_family_id: u32,
    /// Whether the swapchain device extension is requested.
    pub enable_khr_swapchain: bool,
    /// How many queues are requested from the family.
    pub queue_count: u32,
    /// Priority of the requested queue, in thousandths.
    pub queue_priority_millis: u32,
}

/// Plan the device and queue selection: the first enumerated device, and on
/// it the first graphics-capable queue family. One queue is requested at
/// priority one half; the swapchain extension is requested exactly when the
/// frame is to be presented rather than read back.
pub fn plan_device_init(devices: &Vec<DeviceInfo>, present: bool) -> (r: Result<
    InitPlan,
    InitError,
>)
    ensures
        r is Ok <==> devices@.len() > 0 && has_graphics(devices@[0].queue_families@),
        match r {
            Ok(p) => {
                let families = devices@[0].queue_families@;
                &&& p.device_index == 0
                &&& p.queue_family_index < families.len()
                &&& families[p.queue_family_index as int].supports_graphics
                &&& forall|j: int|
                    0 <= j < p.queue_family_index ==> !families[j].supports_graphics
                &&& p.queue_family_id == families[p.queue_family_index as int].id
                &&& p.enable_khr_swapchain == present
                &&& p.queue_count == 1
                &&& p.queue_priority_millis == 500
            },
            Err(e) => {
                &&& (e == InitError::NoDevice <==> devices@.len() == 0)
                &&& (e == InitError::NoGraphicsQueueFamily <==> devices@.len() > 0
                    && !has_graphics(devices@[0].queue_families@))
            },
        },
{
    if devices.len() == 0 {
        return Err(InitError::NoDevice);
    }
    match find_graphics_family(&devices[0].queue_families) {
        Some(i) => Ok(InitPlan {
            device_index: 0,
            queue_family_index: i,
            queue_family_id: devices[0].queue_families[i].id,
            enable_khr_swapchain: present,
            queue_count: 1,
            queue_priority_millis: 500,
        }),
        None => Err(InitError::NoGraphicsQueueFamily),
    }
}

} // verus!
