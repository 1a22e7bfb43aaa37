//! The adapters that an instance exposes.

use vstd::prelude::*;

use crate::platform::{Platform, TargetOs};

verus! {

/// The PCI vendor identifier of Intel.
pub const INTEL_VENDOR: u32 = 0x8086;

/// The PCI vendor identifier of NVIDIA.
pub const NVIDIA_VENDOR: u32 = 0x10DE;

/// What kind of device an adapter is.
#[derive(Clone, Copy, Debug, PartialEq, Eq, Structural)]
pub enum DeviceType {
    Other,
    IntegratedGpu,
    DiscreteGpu,
    VirtualGpu,
    Cpu,
}

/// What is known of an adapter.
#[derive(Debug)]
pub struct AdapterInfo {
    pub name: String,
    /// The PCI vendor identifier.
    pub vendor: u32,
    pub device_type: DeviceType,
}

/// An adapter that the instance offers.
#[derive(Debug)]
pub struct ExposedAdapter {
    /// The driver's handle of the physical device.
    pub raw: u64,
    pub info: AdapterInfo,
    /// Whether the adapter can present to a surface.
    pub can_present: bool,
}

/// The adapters among the devices of which some may not be usable, in order.
pub open spec fn usable(exposed: Seq<Option<ExposedAdapter>>) -> Seq<ExposedAdapter>
    decreases exposed.len(),
{
    if exposed.len() == 0 {
        Seq::empty()
    } else {
        match exposed.last() {
            Some(adapter) => usable(exposed.drop_last()).push(adapter),
            None => usable(exposed.drop_last()),
        }
    }
}

/// Whether an adapter is a discrete GPU of NVIDIA.
pub open spec fn is_nvidia_dgpu(adapter: ExposedAdapter) -> bool {
    adapter.info.device_type == DeviceType::DiscreteGpu && adapter.info.vendor == NVIDIA_VENDOR
}

/// Whether an adapter is an integrated GPU of Intel.
pub open spec fn is_intel_igpu(adapter: ExposedAdapter) -> bool {
    adapter.info.device_type == DeviceType::IntegratedGpu && adapter.info.vendor == INTEL_VENDOR
}

/// Whether the adapters are an Optimus pair under Linux.
pub open spec fn is_optimus(
    adapters: Seq<ExposedAdapter>,
    has_nv_optimus: bool,
    platform: Platform,
) -> bool {
    &&& platform.os == TargetOs::Linux
    &&& exists|i: int| 0 <= i < adapters.len() && is_nvidia_dgpu(#[trigger] adapters[i])
    &&& has_nv_optimus
}

/// An adapter as it is exposed: on an Optimus pair, Intel's does not present.
pub open spec fn adjusted(adapter: ExposedAdapter, optimus: bool) -> ExposedAdapter {
    if optimus && is_intel_igpu(adapter) {
        ExposedAdapter { can_present: false, ..adapter }
    } else {
        adapter
    }
}

/// The adapters as they are exposed.
pub open spec fn exposed_adapters(
    adapters: Seq<ExposedAdapter>,
    has_nv_optimus: bool,
    platform: Platform,
) -> Seq<ExposedAdapter> {
    Seq::new(
        adapters.len(),
        |i: int| adjusted(adapters[i], is_optimus(adapters, has_nv_optimus, platform)),
    )
}

/// The devices to look at: those that the driver lists, or none where it fails to.
pub fn physical_devices(reply: Result<Vec<u64>, i32>) -> (devices: Vec<u64>)
    ensures
        match reply {
            Ok(listed) => devices == listed,
            Err(_) => devices@.len() == 0,
        },
{
    match reply {
        Ok(listed) => listed,
        Err(_) => Vec::new(),
    }
}

/// Drops the devices that are not usable.
pub fn collect_usable(exposed: Vec<Option<ExposedAdapter>>) -> (adapters: Vec<ExposedAdapter>)
    ensures
        adapters@ == usable(exposed@),
{
    let mut adapters: Vec<ExposedAdapter> = Vec::new();
    for device in iter: exposed
        invariant
            iter.seq() == exposed@,
            adapters@ == usable(exposed@.take(iter.index() as int)),
    {
        proof {
            let now = exposed@.take(iter.index() + 1);
            assert(now.drop_last() =~= exposed@.take(iter.index() as int));
        }
        match device {
            Some(adapter) => adapters.push(adapter),
            None => {},
        }
    }
    assert(exposed@.take(exposed@.len() as int) =~= exposed@);
    adapters
}

/// Whether the adapters are an Optimus pair under Linux.
pub fn detect_optimus(
    adapters: &Vec<ExposedAdapter>,
    has_nv_optimus: bool,
    platform: Platform,
) -> (optimus: bool)
    ensures
        optimus == is_optimus(adapters@, has_nv_optimus, platform),
{
    let mut has_nvidia_dgpu: bool = false;
    let mut i: usize = 0;
    while i < adapters.len()
        invariant
            i <= adapters@.len(),
            has_nvidia_dgpu <==> exists|j: int|
                0 <= j < i && is_nvidia_dgpu(#[trigger] adapters@[j]),
        decreases adapters@.len() - i,
    {
        if adapters[i].info.device_type == DeviceType::DiscreteGpu && adapters[i].info.vendor
            == NVIDIA_VENDOR {
            has_nvidia_dgpu = true;
        }
        i += 1;
    }
    platform.os == TargetOs::Linux && has_nvidia_dgpu && has_nv_optimus
}

impl ExposedAdapter {
    /// Whether the adapter is kept from presenting: Intel's integrated GPU is, if `optimus`
    /// tells that the adapters are an Optimus pair.
    pub fn is_held_back(&self, optimus: bool) -> (held: bool)
        ensures
            held == (optimus && is_intel_igpu(*self)),
    {
        optimus && self.info.device_type == DeviceType::IntegratedGpu && self.info.vendor
            == INTEL_VENDOR
    }
}

/// Stops Intel's adapter from presenting on an Optimus pair under Linux.
pub fn hide_optimus(adapters: &mut Vec<ExposedAdapter>, has_nv_optimus: bool, platform: Platform)
    ensures
        final(adapters)@ == exposed_adapters(old(adapters)@, has_nv_optimus, platform),
{
    let optimus: bool = detect_optimus(adapters, has_nv_optimus, platform);
    let mut i: usize = 0;
    while i < adapters.len()
        invariant
            i <= adapters@.len(),
            adapters@.len() == old(adapters)@.len(),
            forall|j: int|
                0 <= j < i ==> #[trigger] adapters@[j] == adjusted(old(adapters)@[j], optimus),
            forall|j: int|
                i <= j < adapters@.len() ==> #[trigger] adapters@[j] == old(adapters)@[j],
        decreases adapters@.len() - i,
    {
        if adapters[i].is_held_back(optimus) {
            adapters[i].can_present = false;
        }
        i += 1;
    }
    assert(adapters@ =~= exposed_adapters(old(adapters)@, has_nv_optimus, platform));
}

/// Exposing changes no more of an adapter than whether it presents, and that only
/// from yes to no, and only of Intel's integrated GPUs. The order stays.
pub proof fn exposing_only_hides_intel(
    adapters: Seq<ExposedAdapter>,
    has_nv_optimus: bool,
    platform: Platform,
    i: int,
)
    requires
        0 <= i < adapters.len(),
    ensures
        exposed_adapters(adapters, has_nv_optimus, platform).len() == adapters.len(),
        ({
            let shown = exposed_adapters(adapters, has_nv_optimus, platform)[i];
            &&& shown.raw == adapters[i].raw
            &&& shown.info == adapters[i].info
            &&& shown.can_present ==> adapters[i].can_present
            &&& !is_intel_igpu(adapters[i]) ==> shown == adapters[i]
        }),
{
}

/// Exposing adapters leaves an Optimus pair one, and its members what they were.
pub proof fn exposing_keeps_optimus(
    adapters: Seq<ExposedAdapter>,
    has_nv_optimus: bool,
    platform: Platform,
)
    ensures
        is_optimus(exposed_adapters(adapters, has_nv_optimus, platform), has_nv_optimus, platform)
            == is_optimus(adapters, has_nv_optimus, platform),
        forall|i: int|
            0 <= i < adapters.len() ==> is_intel_igpu(
                #[trigger] exposed_adapters(adapters, has_nv_optimus, platform)[i],
            ) == is_intel_igpu(adapters[i]),
{
    let shown = exposed_adapters(adapters, has_nv_optimus, platform);
    assert forall|i: int| 0 <= i < adapters.len() implies is_nvidia_dgpu(#[trigger] shown[i])
        == is_nvidia_dgpu(adapters[i]) by {}
    if is_optimus(adapters, has_nv_optimus, platform) {
        let i = choose|i: int| 0 <= i < adapters.len() && is_nvidia_dgpu(#[trigger] adapters[i]);
        assert(is_nvidia_dgpu(shown[i]));
    }
}

/// Exposing adapters a second time changes nothing.
pub proof fn exposing_is_idempotent(
    adapters: Seq<ExposedAdapter>,
    has_nv_optimus: bool,
    platform: Platform,
)
    ensures
        exposed_adapters(
            exposed_adapters(adapters, has_nv_optimus, platform),
            has_nv_optimus,
            platform,
        ) == exposed_adapters(adapters, has_nv_optimus, platform),
{
    exposing_keeps_optimus(adapters, has_nv_optimus, platform);
    let once = exposed_adapters(adapters, has_nv_optimus, platform);
    assert(exposed_adapters(once, has_nv_optimus, platform) =~= once);
}

/// Where the layer of Optimus is missing, or the system is not Linux, the adapters
/// are exposed as they are.
pub proof fn exposing_without_optimus(
    adapters: Seq<ExposedAdapter>,
    has_nv_optimus: bool,
    platform: Platform,
)
    requires
        !has_nv_optimus || platform.os != TargetOs::Linux,
    ensures
        exposed_adapters(adapters, has_nv_optimus, platform) == adapters,
{
    assert(exposed_adapters(adapters, has_nv_optimus, platform) =~= adapters);
}

} // verus!
