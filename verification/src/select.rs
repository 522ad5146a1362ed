//! Physical-device selection: eligibility filtering, ranking, and
//! queue-family matching.
//!
//! A device is eligible when it exposes the presentation extension and has
//! at least one queue family that is graphics-capable and can present to
//! the active surface. Among eligible devices the first discrete GPU in
//! enumeration order wins; if none is discrete, the first eligible device
//! wins. The chosen queue family is the first suitable family of the chosen
//! device, so the index is always consistent with the device it was picked
//! for.

use vstd::prelude::*;
use crate::device::{DeviceCategory, DeviceInfoModel, PhysicalDeviceInfo, PresentSupport, QueueFamily};
use crate::errors::BootstrapError;

verus! {

/// A queue family satisfies the selection predicate when it can run
/// graphics work and can present to the active surface.
pub open spec fn family_suitable(f: QueueFamily) -> bool {
    f.graphics && f.present is Supported
}

/// A device is eligible when it exposes the presentation extension and at
/// least one of its queue families is suitable.
pub open spec fn device_eligible(d: DeviceInfoModel) -> bool {
    &&& d.supports_presentation_extension
    &&& exists|j: int| 0 <= j < d.queue_families.len() && family_suitable(#[trigger] d.queue_families[j])
}

/// `j` is the first suitable queue family of `d`.
pub open spec fn is_first_suitable_family(d: DeviceInfoModel, j: int) -> bool {
    &&& 0 <= j < d.queue_families.len()
    &&& family_suitable(d.queue_families[j])
    &&& forall|k: int| 0 <= k < j ==> !family_suitable(#[trigger] d.queue_families[k])
}

/// The models of an enumerated device list, in enumeration order.
pub open spec fn models_of(ds: Seq<PhysicalDeviceInfo>) -> Seq<DeviceInfoModel> {
    ds.map_values(|d: PhysicalDeviceInfo| d@)
}

/// Whether some eligible device in the list is a discrete GPU.
pub open spec fn has_eligible_discrete(ds: Seq<DeviceInfoModel>) -> bool {
    exists|i: int|
        0 <= i < ds.len() && device_eligible(#[trigger] ds[i]) && ds[i].category is DiscreteGpu
}

/// `i` is the index the selection policy must choose from `ds`: the first
/// eligible discrete GPU in enumeration order if one exists, otherwise the
/// first eligible device. The policy is deterministic: at most one index
/// satisfies this predicate.
pub open spec fn is_selected_index(ds: Seq<DeviceInfoModel>, i: int) -> bool {
    &&& 0 <= i < ds.len()
    &&& device_eligible(ds[i])
    &&& if has_eligible_discrete(ds) {
        &&& ds[i].category is DiscreteGpu
        &&& forall|k: int|
            0 <= k < i ==> !(device_eligible(#[trigger] ds[k]) && ds[k].category is DiscreteGpu)
    } else {
        forall|k: int| 0 <= k < i ==> !device_eligible(#[trigger] ds[k])
    }
}

/// The outcome of device selection: the chosen device's properties, its
/// index in enumeration order, and the queue family to create queues from.
pub struct DeviceSelection {
    pub device: PhysicalDeviceInfo,
    pub device_index: usize,
    pub queue_family_index: u32,
}

/// Whether one queue family satisfies the selection predicate.
pub fn family_is_suitable(f: &QueueFamily) -> (r: bool)
    ensures
        r == family_suitable(*f),
{
    f.graphics && matches!(f.present, PresentSupport::Supported)
}

/// Index of the first graphics-capable, presentation-capable queue family
/// of `d`, or `None` when no family qualifies.
pub fn first_suitable_family(d: &PhysicalDeviceInfo) -> (r: Option<u32>)
    requires
        d.queue_families@.len() <= u32::MAX,
    ensures
        match r {
            Some(j) => is_first_suitable_family(d@, j as int),
            None => forall|k: int|
                0 <= k < d@.queue_families.len() ==> !family_suitable(
                    #[trigger] d@.queue_families[k],
                ),
        },
{
    let n = d.queue_families.len();
    let mut i: usize = 0;
    while i < n
        invariant
            n == d.queue_families@.len() <= u32::MAX,
            i <= n,
            forall|k: int| 0 <= k < i ==> !family_suitable(#[trigger] d@.queue_families[k]),
        decreases n - i,
    {
        if family_is_suitable(&d.queue_families[i]) {
            return Some(i as u32);
        }
        i = i + 1;
    }
    None
}

/// Whether `d` passes the eligibility filter.
pub fn device_is_eligible(d: &PhysicalDeviceInfo) -> (r: bool)
    requires
        d.queue_families@.len() <= u32::MAX,
    ensures
        r == device_eligible(d@),
{
    if !d.supports_presentation_extension {
        return false;
    }
    match first_suitable_family(d) {
        Some(_) => true,
        None => false,
    }
}

/// Selects the physical device and queue family to build the logical device
/// on, per the ranking policy, or reports that no device is suitable.
///
/// The result is a pure, deterministic function of the enumerated list: the
/// chosen index is the unique one satisfying [`is_selected_index`], and the
/// chosen family is the first suitable family of the chosen device.
pub fn select_physical_device(devices: &Vec<PhysicalDeviceInfo>) -> (r: Result<
    DeviceSelection,
    BootstrapError,
>)
    requires
        forall|i: int|
            0 <= i < devices@.len() ==> (#[trigger] devices@[i]).queue_families@.len()
                <= u32::MAX,
    ensures
        match r {
            Ok(sel) => {
                &&& sel.device_index < devices@.len()
                &&& is_selected_index(models_of(devices@), sel.device_index as int)
                &&& sel.device@ == devices@[sel.device_index as int]@
                &&& is_first_suitable_family(sel.device@, sel.queue_family_index as int)
            },
            Err(e) => {
                &&& e is NoSuitableDevice
                &&& forall|i: int|
                    0 <= i < devices@.len() ==> !device_eligible((#[trigger] devices@[i])@)
            },
        },
{
    let ghost ms = models_of(devices@);
    let n = devices.len();
    let mut first_eligible: Option<usize> = None;
    let mut first_discrete: Option<usize> = None;
    let mut i: usize = 0;
    while i < n
        invariant
            n == devices@.len(),
            i <= n,
            ms == models_of(devices@),
            forall|k: int|
                0 <= k < devices@.len() ==> (#[trigger] devices@[k]).queue_families@.len()
                    <= u32::MAX,
            forall|k: int| 0 <= k < ms.len() ==> #[trigger] ms[k] == devices@[k]@,
            match first_eligible {
                Some(j) => j < i && device_eligible(ms[j as int]) && forall|k: int|
                    0 <= k < j ==> !device_eligible(#[trigger] ms[k]),
                None => forall|k: int| 0 <= k < i ==> !device_eligible(#[trigger] ms[k]),
            },
            match first_discrete {
                Some(j) => {
                    &&& j < i
                    &&& device_eligible(ms[j as int])
                    &&& ms[j as int].category is DiscreteGpu
                    &&& forall|k: int|
                        0 <= k < j ==> !(device_eligible(#[trigger] ms[k])
                            && ms[k].category is DiscreteGpu)
                },
                None => forall|k: int|
                    0 <= k < i ==> !(device_eligible(#[trigger] ms[k])
                        && ms[k].category is DiscreteGpu),
            },
        decreases n - i,
    {
        let d = &devices[i];
        if device_is_eligible(d) {
            if first_eligible.is_none() {
                first_eligible = Some(i);
            }
            if first_discrete.is_none() && matches!(d.category, DeviceCategory::DiscreteGpu) {
                first_discrete = Some(i);
            }
        }
        i = i + 1;
    }
    let chosen: usize = match first_discrete {
        Some(j) => j,
        None => match first_eligible {
            Some(j) => j,
            None => {
                proof {
                    assert forall|k: int| 0 <= k < devices@.len() implies !device_eligible(
                        (#[trigger] devices@[k])@,
                    ) by {
                        assert(ms[k] == devices@[k]@);
                        assert(!device_eligible(ms[k]));
                    }
                }
                return Err(BootstrapError::NoSuitableDevice);
            },
        },
    };
    assert(is_selected_index(ms, chosen as int));
    let device = devices[chosen].clone();
    let family = match first_suitable_family(&device) {
        Some(f) => f,
        None => {
            proof {
                let j = choose|j: int|
                    0 <= j < device@.queue_families.len() && family_suitable(
                        device@.queue_families[j],
                    );
                assert(!family_suitable(device@.queue_families[j]));
            }
            0
        },
    };
    Ok(DeviceSelection { device, device_index: chosen, queue_family_index: family })
}

/// Selection is deterministic: for one enumerated list, at most one index
/// satisfies the selection policy, so repeated runs over the same
/// enumeration choose the same device.
pub proof fn lemma_selection_deterministic(ds: Seq<DeviceInfoModel>, i1: int, i2: int)
    requires
        is_selected_index(ds, i1),
        is_selected_index(ds, i2),
    ensures
        i1 == i2,
{
    if i1 < i2 {
        assert(!device_eligible(ds[i1]));
    }
    if i2 < i1 {
        assert(!device_eligible(ds[i2]));
    }
}

/// Queue-family matching is deterministic: at most one index of a device is
/// its first suitable family.
pub proof fn lemma_family_choice_deterministic(d: DeviceInfoModel, j1: int, j2: int)
    requires
        is_first_suitable_family(d, j1),
        is_first_suitable_family(d, j2),
    ensures
        j1 == j2,
{
}

/// A queue family with the presentation query resolved: a failed query is
/// read as "cannot present", every other answer is kept.
pub open spec fn resolve_family(f: QueueFamily) -> QueueFamily {
    QueueFamily {
        graphics: f.graphics,
        present: if f.present is QueryFailed {
            PresentSupport::NotSupported
        } else {
            f.present
        },
    }
}

/// A device with every failed presentation query resolved to "cannot
/// present".
pub open spec fn resolve_device(d: DeviceInfoModel) -> DeviceInfoModel {
    DeviceInfoModel {
        name: d.name,
        category: d.category,
        supports_presentation_extension: d.supports_presentation_extension,
        queue_families: d.queue_families.map_values(|f: QueueFamily| resolve_family(f)),
    }
}

/// Eligibility only reads the resolved presentation answer, so recording a
/// failed query changes nothing against recording "cannot present".
pub proof fn lemma_resolve_preserves_eligible(d: DeviceInfoModel)
    ensures
        device_eligible(resolve_device(d)) == device_eligible(d),
        forall|j: int| #[trigger]
            is_first_suitable_family(resolve_device(d), j) == is_first_suitable_family(d, j),
{
    let rd = resolve_device(d);
    assert forall|j: int| 0 <= j < d.queue_families.len() implies family_suitable(
        #[trigger] rd.queue_families[j],
    ) == family_suitable(d.queue_families[j]) by {
        assert(rd.queue_families[j] == resolve_family(d.queue_families[j]));
    }
    if device_eligible(d) {
        let j = choose|j: int|
            0 <= j < d.queue_families.len() && family_suitable(#[trigger] d.queue_families[j]);
        assert(family_suitable(rd.queue_families[j]));
    }
    if device_eligible(rd) {
        let j = choose|j: int|
            0 <= j < rd.queue_families.len() && family_suitable(#[trigger] rd.queue_families[j]);
        assert(family_suitable(d.queue_families[j]));
    }
    assert forall|j: int| #[trigger]
        is_first_suitable_family(rd, j) == is_first_suitable_family(d, j) by {
        if is_first_suitable_family(d, j) {
            assert(family_suitable(rd.queue_families[j]));
            assert forall|k: int| 0 <= k < j implies !family_suitable(
                #[trigger] rd.queue_families[k],
            ) by {
                assert(family_suitable(rd.queue_families[k]) == family_suitable(
                    d.queue_families[k],
                ));
            }
            assert(is_first_suitable_family(rd, j));
        }
        if is_first_suitable_family(rd, j) {
            assert(family_suitable(d.queue_families[j]));
            assert forall|k: int| 0 <= k < j implies !family_suitable(
                #[trigger] d.queue_families[k],
            ) by {
                assert(family_suitable(rd.queue_families[k]) == family_suitable(
                    d.queue_families[k],
                ));
            }
            assert(is_first_suitable_family(d, j));
        }
    }
}

/// A failed presentation query on one candidate's family is local: it
/// neither aborts enumeration nor shifts the outcome. Selection over a
/// device list where failed queries were recorded as such picks exactly the
/// index it would pick had every failed query answered "cannot present".
pub proof fn lemma_query_failure_is_local(ds: Seq<DeviceInfoModel>, i: int)
    ensures
        is_selected_index(ds.map_values(|d: DeviceInfoModel| resolve_device(d)), i)
            == is_selected_index(ds, i),
{
    let rs = ds.map_values(|d: DeviceInfoModel| resolve_device(d));
    assert(rs.len() == ds.len());
    assert forall|k: int| 0 <= k < ds.len() implies device_eligible(#[trigger] rs[k])
        == device_eligible(ds[k]) && rs[k].category == ds[k].category by {
        assert(rs[k] == resolve_device(ds[k]));
        lemma_resolve_preserves_eligible(ds[k]);
    }
    if has_eligible_discrete(ds) {
        let w = choose|w: int|
            0 <= w < ds.len() && device_eligible(#[trigger] ds[w]) && ds[w].category
                is DiscreteGpu;
        assert(device_eligible(rs[w]) && rs[w].category is DiscreteGpu);
        assert(has_eligible_discrete(rs));
    }
    if has_eligible_discrete(rs) {
        let w = choose|w: int|
            0 <= w < rs.len() && device_eligible(#[trigger] rs[w]) && rs[w].category
                is DiscreteGpu;
        assert(device_eligible(ds[w]) && ds[w].category is DiscreteGpu);
        assert(has_eligible_discrete(ds));
    }
    assert(has_eligible_discrete(rs) == has_eligible_discrete(ds));
    if is_selected_index(ds, i) {
        assert(device_eligible(rs[i]));
        if has_eligible_discrete(ds) {
            assert forall|k: int| 0 <= k < i implies !(device_eligible(#[trigger] rs[k])
                && rs[k].category is DiscreteGpu) by {
                assert(device_eligible(rs[k]) == device_eligible(ds[k]));
            }
        } else {
            assert forall|k: int| 0 <= k < i implies !device_eligible(#[trigger] rs[k]) by {
                assert(device_eligible(rs[k]) == device_eligible(ds[k]));
            }
        }
        assert(is_selected_index(rs, i));
    }
    if is_selected_index(rs, i) {
        assert(device_eligible(ds[i]));
        if has_eligible_discrete(ds) {
            assert forall|k: int| 0 <= k < i implies !(device_eligible(#[trigger] ds[k])
                && ds[k].category is DiscreteGpu) by {
                assert(device_eligible(rs[k]) == device_eligible(ds[k]));
            }
        } else {
            assert forall|k: int| 0 <= k < i implies !device_eligible(#[trigger] ds[k]) by {
                assert(device_eligible(rs[k]) == device_eligible(ds[k]));
            }
        }
        assert(is_selected_index(ds, i));
    }
}

/// The ranking policy: when any eligible device is a discrete GPU, the
/// selected device is a discrete GPU (even if it is not first in
/// enumeration order); when none is, the selected device is the first
/// eligible one in enumeration order.
pub proof fn lemma_discrete_preferred(ds: Seq<DeviceInfoModel>, i: int)
    requires
        is_selected_index(ds, i),
    ensures
        has_eligible_discrete(ds) ==> ds[i].category is DiscreteGpu,
        !has_eligible_discrete(ds) ==> forall|k: int|
            0 <= k < i ==> !device_eligible(#[trigger] ds[k]),
{
}

} // verus!
