//! Plain-data views over the hardware that the driver reports.
//!
//! Each enumerated physical device is handed to the library as a
//! [`PhysicalDeviceInfo`]: the properties the selection policy reads,
//! queried fresh per enumeration and never cached. The shell that talks to
//! the driver fills these in; every decision made over them is verified.

use vstd::prelude::*;

verus! {

/// The category the driver reports for a physical device.
#[derive(Clone, Copy, PartialEq, Eq, Structural, Debug)]
pub enum DeviceCategory {
    DiscreteGpu,
    IntegratedGpu,
    VirtualGpu,
    Cpu,
    Other,
}

/// Outcome of asking whether a queue family can present to the active
/// surface. The query itself can fail; that outcome is recorded rather than
/// propagated, and selection treats it as "cannot present" for that family
/// alone.
#[derive(Clone, Copy, PartialEq, Eq, Structural, Debug)]
pub enum PresentSupport {
    Supported,
    NotSupported,
    QueryFailed,
}

/// One queue-family descriptor: whether the family can run graphics work,
/// and whether it can present to the active surface.
#[derive(Clone, Copy, PartialEq, Eq, Structural, Debug)]
pub struct QueueFamily {
    pub graphics: bool,
    pub present: PresentSupport,
}

/// A view over one physical device's queried properties.
pub struct PhysicalDeviceInfo {
    pub name: String,
    pub category: DeviceCategory,
    /// Whether the device exposes the presentation/swapchain extension.
    pub supports_presentation_extension: bool,
    /// Queue-family descriptors in the order the driver reports them.
    pub queue_families: Vec<QueueFamily>,
}

/// Mathematical model of a [`PhysicalDeviceInfo`].
pub struct DeviceInfoModel {
    pub name: Seq<char>,
    pub category: DeviceCategory,
    pub supports_presentation_extension: bool,
    pub queue_families: Seq<QueueFamily>,
}

impl View for PhysicalDeviceInfo {
    type V = DeviceInfoModel;

    open spec fn view(&self) -> DeviceInfoModel {
        DeviceInfoModel {
            name: self.name@,
            category: self.category,
            supports_presentation_extension: self.supports_presentation_extension,
            queue_families: self.queue_families@,
        }
    }
}

impl Clone for PhysicalDeviceInfo {
    fn clone(&self) -> (r: Self)
        ensures
            r@ == self@,
    {
        let mut families: Vec<QueueFamily> = Vec::new();
        let mut i: usize = 0;
        while i < self.queue_families.len()
            invariant
                i <= self.queue_families@.len(),
                families@ == self.queue_families@.subrange(0, i as int),
            decreases self.queue_families@.len() - i,
        {
            families.push(self.queue_families[i]);
            assert(families@ =~= self.queue_families@.subrange(0, i + 1));
            i = i + 1;
        }
        assert(families@ =~= self.queue_families@);
        PhysicalDeviceInfo {
            name: self.name.clone(),
            category: self.category,
            supports_presentation_extension: self.supports_presentation_extension,
            queue_families: families,
        }
    }
}

/// Folds a per-family presentation query result into a [`PresentSupport`]:
/// a failed query (`None`) counts as "cannot present" for that family only,
/// so one family's driver error never aborts device enumeration.
pub fn present_support_of(query: Option<bool>) -> (r: PresentSupport)
    ensures
        r == (match query {
            Some(true) => PresentSupport::Supported,
            Some(false) => PresentSupport::NotSupported,
            None => PresentSupport::QueryFailed,
        }),
{
    match query {
        Some(true) => PresentSupport::Supported,
        Some(false) => PresentSupport::NotSupported,
        None => PresentSupport::QueryFailed,
    }
}

} // verus!
