//! Logical-device construction: the creation request and the queues that
//! come back.
//!
//! The builder issues exactly one queue-creation request, for the selected
//! queue family, with the caller's queue count. No device features are
//! enabled in this scope; the device-extension set is an explicit caller
//! parameter rather than being fixed here, so that what eligibility checked
//! (the presentation/swapchain extension) can also be requested at build
//! time.

use vstd::prelude::*;
use crate::errors::BootstrapError;
use crate::select::DeviceSelection;

verus! {

/// One queue-creation request: how many queues to create from which family.
#[derive(Clone, Copy, PartialEq, Eq, Structural, Debug)]
pub struct QueueRequest {
    pub queue_family_index: u32,
    pub queue_count: u32,
}

/// Everything a logical-device creation request carries in this scope.
pub struct DeviceCreatePlan {
    pub queue_requests: Vec<QueueRequest>,
    pub enabled_extensions: Vec<String>,
}

/// One execution queue of a logical device, identified by its family and
/// its position within the creation request.
#[derive(Clone, Copy, PartialEq, Eq, Structural, Debug)]
pub struct QueueSlot {
    pub family_index: u32,
    pub index_in_family: u32,
}

/// The constructed device: bound to one physical device, owning its queues.
pub struct LogicalDevice {
    pub device_name: String,
    pub queue_family_index: u32,
    pub queues: Vec<QueueSlot>,
}

/// Plans the creation request for `selection`: exactly one queue-creation
/// request, for the selected family, with `queue_count` queues, and the
/// caller's explicit device-extension set.
pub fn plan_logical_device(
    selection: &DeviceSelection,
    queue_count: u32,
    extensions: Vec<String>,
) -> (plan: DeviceCreatePlan)
    requires
        1 <= queue_count,
    ensures
        plan.queue_requests@.len() == 1,
        plan.queue_requests@[0] == (QueueRequest {
            queue_family_index: selection.queue_family_index,
            queue_count,
        }),
        plan.enabled_extensions@ == extensions@,
{
    let mut queue_requests: Vec<QueueRequest> = Vec::new();
    queue_requests.push(
        QueueRequest { queue_family_index: selection.queue_family_index, queue_count },
    );
    DeviceCreatePlan { queue_requests, enabled_extensions: extensions }
}

/// The device that a successful creation request must yield: bound to the
/// selected physical device, with exactly `queue_count` queues, all from
/// the selected family, in creation-request order.
pub fn build_logical_device(selection: &DeviceSelection, queue_count: u32) -> (d: LogicalDevice)
    requires
        1 <= queue_count,
    ensures
        d.device_name@ == selection.device@.name,
        d.queue_family_index == selection.queue_family_index,
        d.queues@.len() == queue_count,
        forall|i: int|
            0 <= i < queue_count ==> #[trigger] d.queues@[i] == (QueueSlot {
                family_index: selection.queue_family_index,
                index_in_family: i as u32,
            }),
{
    let mut queues: Vec<QueueSlot> = Vec::new();
    let mut i: u32 = 0;
    while i < queue_count
        invariant
            i <= queue_count,
            queues@.len() == i,
            forall|k: int|
                0 <= k < i ==> #[trigger] queues@[k] == (QueueSlot {
                    family_index: selection.queue_family_index,
                    index_in_family: k as u32,
                }),
        decreases queue_count - i,
    {
        queues.push(
            QueueSlot { family_index: selection.queue_family_index, index_in_family: i },
        );
        i = i + 1;
    }
    LogicalDevice {
        device_name: selection.device.name.clone(),
        queue_family_index: selection.queue_family_index,
        queues,
    }
}

/// The error a rejected creation request must report: it names the physical
/// device and the queue family that were attempted, to aid diagnosis.
pub fn device_creation_failure(selection: &DeviceSelection) -> (e: BootstrapError)
    ensures
        e matches BootstrapError::DeviceCreationFailed { device_name, queue_family_index }
            && device_name@ == selection.device@.name && queue_family_index
            == selection.queue_family_index,
{
    BootstrapError::DeviceCreationFailed {
        device_name: selection.device.name.clone(),
        queue_family_index: selection.queue_family_index,
    }
}

} // verus!
