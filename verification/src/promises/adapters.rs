//! Adapters: which of the devices become one, and which of them may present.

use vstd::prelude::*;

use crate::adapter::{
    exposed_adapters, is_nvidia_dgpu, is_optimus, usable, DeviceType, ExposedAdapter,
};
use crate::platform::{Platform, TargetOs};

verus! {

/// Devices are exposed in order. One that is usable is, one that is not is left out.
pub proof fn usable_devices_are_kept_in_order(
    first: Seq<Option<ExposedAdapter>>,
    second: Seq<Option<ExposedAdapter>>,
    device: Option<ExposedAdapter>,
)
    ensures
        usable(first + second) == usable(first) + usable(second),
        device matches Some(adapter) ==> usable(seq![device]) == seq![adapter],
        device is None ==> usable(seq![device]).len() == 0,
        usable(Seq::empty()).len() == 0,
    decreases second.len(),
{
    let empty = Seq::<Option<ExposedAdapter>>::empty();
    assert(seq![device].drop_last() =~= empty);
    assert(usable(empty) =~= Seq::empty());
    if device is Some {
        assert(usable(seq![device]) =~= seq![device->0]);
    }
    if second.len() > 0 {
        let all = first + second;
        assert(all.last() == second.last());
        assert(all.drop_last() =~= first + second.drop_last());
        usable_devices_are_kept_in_order(first, second.drop_last(), device);
        assert(usable(all) =~= usable(first) + usable(second));
    } else {
        assert(first + second =~= first);
    }
}

/// An adapter is among the usable ones if and only if one of the devices became it.
pub proof fn usable_devices_are_those_listed(
    devices: Seq<Option<ExposedAdapter>>,
    adapter: ExposedAdapter,
)
    ensures
        usable(devices).contains(adapter) <==> devices.contains(Some(adapter)),
    decreases devices.len(),
{
    if devices.len() > 0 {
        let rest = devices.drop_last();
        usable_devices_are_those_listed(rest, adapter);
        if rest.contains(Some(adapter)) {
            let i = choose|i: int| 0 <= i < rest.len() && rest[i] == Some(adapter);
            assert(devices[i] == Some(adapter));
        }
        if devices.contains(Some(adapter)) {
            let i = choose|i: int| 0 <= i < devices.len() && devices[i] == Some(adapter);
            if i < rest.len() {
                assert(rest[i] == Some(adapter));
            }
        }
        match devices.last() {
            Some(last) => {
                let before = usable(rest);
                assert(usable(devices) == before.push(last));
                assert(usable(devices)[before.len() as int] == last);
                if before.contains(adapter) {
                    let k = choose|k: int| 0 <= k < before.len() && before[k] == adapter;
                    assert(usable(devices)[k] == adapter);
                }
                if usable(devices).contains(adapter) && adapter != last {
                    let k = choose|k: int|
                        0 <= k < usable(devices).len() && usable(devices)[k] == adapter;
                    assert(before[k] == adapter);
                }
                assert(devices[devices.len() - 1] == Some(last));
            },
            None => {},
        }
    }
}

/// Under Linux with the layer of Optimus, one discrete GPU of NVIDIA at any place keeps
/// every integrated GPU of Intel from presenting.
pub proof fn optimus_keeps_intel_from_presenting(
    adapters: Seq<ExposedAdapter>,
    platform: Platform,
    nvidia: int,
    intel: int,
)
    requires
        platform.os == TargetOs::Linux,
        0 <= nvidia < adapters.len(),
        adapters[nvidia].info.device_type == DeviceType::DiscreteGpu,
        adapters[nvidia].info.vendor == 0x10de,
        0 <= intel < adapters.len(),
        adapters[intel].info.device_type == DeviceType::IntegratedGpu,
        adapters[intel].info.vendor == 0x8086,
    ensures
        !exposed_adapters(adapters, true, platform)[intel].can_present,
{
    assert(is_nvidia_dgpu(adapters[nvidia]));
}

/// An adapter is exposed as it is, but for whether it may present. It may where it could,
/// unless it is an integrated GPU of Intel, the system is Linux, the layer of Optimus is
/// there and there is a discrete GPU of NVIDIA.
pub proof fn adapters_present_unless_optimus(
    adapters: Seq<ExposedAdapter>,
    has_nv_optimus: bool,
    platform: Platform,
    i: int,
)
    requires
        0 <= i < adapters.len(),
    ensures
        exposed_adapters(adapters, has_nv_optimus, platform).len() == adapters.len(),
        ({
            let shown = exposed_adapters(adapters, has_nv_optimus, platform)[i];
            let held = {
                &&& platform.os == TargetOs::Linux
                &&& has_nv_optimus
                &&& adapters[i].info.device_type == DeviceType::IntegratedGpu
                &&& adapters[i].info.vendor == 0x8086
                &&& exists|j: int|
                    0 <= j < adapters.len() && (#[trigger] adapters[j]).info.device_type
                        == DeviceType::DiscreteGpu && adapters[j].info.vendor == 0x10de
            };
            &&& shown.raw == adapters[i].raw
            &&& shown.info == adapters[i].info
            &&& shown.can_present <==> adapters[i].can_present && !held
        }),
{
    if exists|j: int|
        0 <= j < adapters.len() && (#[trigger] adapters[j]).info.device_type
            == DeviceType::DiscreteGpu && adapters[j].info.vendor == 0x10de {
        let j = choose|j: int|
            0 <= j < adapters.len() && (#[trigger] adapters[j]).info.device_type
                == DeviceType::DiscreteGpu && adapters[j].info.vendor == 0x10de;
        assert(is_nvidia_dgpu(adapters[j]));
    }
    if is_optimus(adapters, has_nv_optimus, platform) {
        let j = choose|j: int| 0 <= j < adapters.len() && is_nvidia_dgpu(#[trigger] adapters[j]);
        assert(adapters[j].info.vendor == 0x10de);
    }
}

/// Whether an adapter may present does not depend on the order in which the devices are
/// listed, nor on how often.
pub proof fn order_does_not_decide_who_presents(
    devices: Seq<Option<ExposedAdapter>>,
    others: Seq<Option<ExposedAdapter>>,
    has_nv_optimus: bool,
    platform: Platform,
    i: int,
    j: int,
)
    requires
        forall|device: Option<ExposedAdapter>|
            devices.contains(device) == #[trigger] others.contains(device),
        0 <= i < usable(devices).len(),
        0 <= j < usable(others).len(),
        usable(devices)[i] == usable(others)[j],
    ensures
        exposed_adapters(usable(devices), has_nv_optimus, platform)[i] == exposed_adapters(
            usable(others),
            has_nv_optimus,
            platform,
        )[j],
{
    let (a, b) = (usable(devices), usable(others));
    if is_optimus(a, has_nv_optimus, platform) {
        let k = choose|k: int| 0 <= k < a.len() && is_nvidia_dgpu(#[trigger] a[k]);
        assert(a.contains(a[k]));
        usable_devices_are_those_listed(devices, a[k]);
        usable_devices_are_those_listed(others, a[k]);
        assert(others.contains(Some(a[k])));
        let l = choose|l: int| 0 <= l < b.len() && b[l] == a[k];
        assert(is_nvidia_dgpu(b[l]));
    }
    if is_optimus(b, has_nv_optimus, platform) {
        let k = choose|k: int| 0 <= k < b.len() && is_nvidia_dgpu(#[trigger] b[k]);
        assert(b.contains(b[k]));
        usable_devices_are_those_listed(devices, b[k]);
        usable_devices_are_those_listed(others, b[k]);
        assert(others.contains(Some(b[k])));
        let l = choose|l: int| 0 <= l < a.len() && a[l] == b[k];
        assert(is_nvidia_dgpu(a[l]));
    }
}

/// Whether adapters are an Optimus pair, told from what they are.
pub proof fn optimus_is_told_by_the_adapters(
    adapters: Seq<ExposedAdapter>,
    has_nv_optimus: bool,
    platform: Platform,
)
    ensures
        is_optimus(adapters, has_nv_optimus, platform) <==> {
            &&& platform.os == TargetOs::Linux
            &&& has_nv_optimus
            &&& exists|j: int|
                0 <= j < adapters.len() && (#[trigger] adapters[j]).info.device_type
                    == DeviceType::DiscreteGpu && adapters[j].info.vendor == 0x10de
        },
{
    if exists|j: int|
        0 <= j < adapters.len() && (#[trigger] adapters[j]).info.device_type
            == DeviceType::DiscreteGpu && adapters[j].info.vendor == 0x10de {
        let j = choose|j: int|
            0 <= j < adapters.len() && (#[trigger] adapters[j]).info.device_type
                == DeviceType::DiscreteGpu && adapters[j].info.vendor == 0x10de;
        assert(is_nvidia_dgpu(adapters[j]));
    }
}

/// What an integrated GPU of Intel is, and a discrete one of NVIDIA.
pub proof fn gpus_are_told_by_vendor_and_type(adapter: ExposedAdapter)
    ensures
        crate::adapter::is_intel_igpu(adapter) <==> adapter.info.device_type
            == DeviceType::IntegratedGpu && adapter.info.vendor == 0x8086,
        is_nvidia_dgpu(adapter) <==> adapter.info.device_type == DeviceType::DiscreteGpu
            && adapter.info.vendor == 0x10de,
{
}

} // verus!
