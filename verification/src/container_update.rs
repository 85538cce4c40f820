//! The payload that updates the resource limits of a container.

use crate::container_inspect::{DeviceRequest, DeviceRequestView};
use crate::container_structs::{GenericDevice, GenericDeviceView};
use crate::encode::{optional_member_for, put_optional, ToJson};
use crate::json::{entries_of, Json, JsonValue};
use vstd::prelude::*;

verus! {

/// What a container is updated with. A member left `None` is not sent.
#[derive(Debug, PartialEq)]
pub struct UpdateContainerWith {
    pub cpu_shares: Option<i64>,
    pub memory: Option<i64>,
    pub cgroup_parent: Option<String>,
    pub blkio_weight: Option<i16>,
    pub blkio_weight_device: Option<Vec<ThrottleDeviceWeight>>,
    pub blkio_device_read_bps: Option<Vec<ThrottleDeviceRate>>,
    pub blkio_device_write_bps: Option<Vec<ThrottleDeviceRate>>,
    pub blkio_device_read_iops: Option<Vec<ThrottleDeviceRate>>,
    pub blkio_device_write_iops: Option<Vec<ThrottleDeviceRate>>,
    pub cpu_period: Option<i64>,
    pub cpu_quota: Option<i64>,
    pub cpu_realtime_period: Option<i64>,
    pub cpu_realtime_runtime: Option<i64>,
    pub cpuset_cpus: Option<String>,
    pub cpuset_mems: Option<String>,
    pub devices: Option<Vec<GenericDevice>>,
    pub device_cgroup_rules: Option<Vec<String>>,
    pub device_requests: Option<Vec<DeviceRequest>>,
    pub kernel_memory: Option<i64>,
    pub kernel_memory_tcp: Option<i64>,
    pub memory_reservation: Option<i64>,
    pub memory_swap: Option<i64>,
    pub memory_swappiness: Option<i16>,
    pub nanos_cpus: Option<i64>,
}

/// The mathematical value of a [`UpdateContainerWith`].
pub ghost struct UpdateContainerWithView {
    pub cpu_shares: Option<i64>,
    pub memory: Option<i64>,
    pub cgroup_parent: Option<Seq<char>>,
    pub blkio_weight: Option<i16>,
    pub blkio_weight_device: Option<Seq<ThrottleDeviceWeightView>>,
    pub blkio_device_read_bps: Option<Seq<ThrottleDeviceRateView>>,
    pub blkio_device_write_bps: Option<Seq<ThrottleDeviceRateView>>,
    pub blkio_device_read_iops: Option<Seq<ThrottleDeviceRateView>>,
    pub blkio_device_write_iops: Option<Seq<ThrottleDeviceRateView>>,
    pub cpu_period: Option<i64>,
    pub cpu_quota: Option<i64>,
    pub cpu_realtime_period: Option<i64>,
    pub cpu_realtime_runtime: Option<i64>,
    pub cpuset_cpus: Option<Seq<char>>,
    pub cpuset_mems: Option<Seq<char>>,
    pub devices: Option<Seq<GenericDeviceView>>,
    pub device_cgroup_rules: Option<Seq<Seq<char>>>,
    pub device_requests: Option<Seq<DeviceRequestView>>,
    pub kernel_memory: Option<i64>,
    pub kernel_memory_tcp: Option<i64>,
    pub memory_reservation: Option<i64>,
    pub memory_swap: Option<i64>,
    pub memory_swappiness: Option<i16>,
    pub nanos_cpus: Option<i64>,
}

impl DeepView for UpdateContainerWith {
    type V = UpdateContainerWithView;

    open spec fn deep_view(&self) -> UpdateContainerWithView {
        UpdateContainerWithView {
            cpu_shares: self.cpu_shares.deep_view(),
            memory: self.memory.deep_view(),
            cgroup_parent: self.cgroup_parent.deep_view(),
            blkio_weight: self.blkio_weight.deep_view(),
            blkio_weight_device: self.blkio_weight_device.deep_view(),
            blkio_device_read_bps: self.blkio_device_read_bps.deep_view(),
            blkio_device_write_bps: self.blkio_device_write_bps.deep_view(),
            blkio_device_read_iops: self.blkio_device_read_iops.deep_view(),
            blkio_device_write_iops: self.blkio_device_write_iops.deep_view(),
            cpu_period: self.cpu_period.deep_view(),
            cpu_quota: self.cpu_quota.deep_view(),
            cpu_realtime_period: self.cpu_realtime_period.deep_view(),
            cpu_realtime_runtime: self.cpu_realtime_runtime.deep_view(),
            cpuset_cpus: self.cpuset_cpus.deep_view(),
            cpuset_mems: self.cpuset_mems.deep_view(),
            devices: self.devices.deep_view(),
            device_cgroup_rules: self.device_cgroup_rules.deep_view(),
            device_requests: self.device_requests.deep_view(),
            kernel_memory: self.kernel_memory.deep_view(),
            kernel_memory_tcp: self.kernel_memory_tcp.deep_view(),
            memory_reservation: self.memory_reservation.deep_view(),
            memory_swap: self.memory_swap.deep_view(),
            memory_swappiness: self.memory_swappiness.deep_view(),
            nanos_cpus: self.nanos_cpus.deep_view(),
        }
    }
}

impl View for UpdateContainerWith {
    type V = UpdateContainerWithView;

    open spec fn view(&self) -> UpdateContainerWithView {
        self.deep_view()
    }
}

impl ToJson for UpdateContainerWith {
    open spec fn encoded(value: UpdateContainerWithView) -> JsonValue {
        JsonValue::Object(
            Seq::empty()
                + optional_member_for::<i64>("CpuShares"@, value.cpu_shares)
                + optional_member_for::<i64>("Memory"@, value.memory)
                + optional_member_for::<String>("CgroupParent"@, value.cgroup_parent)
                + optional_member_for::<i16>("BlkioWeight"@, value.blkio_weight)
                + optional_member_for::<Vec<ThrottleDeviceWeight>>(
                    "BlkioWeightDevice"@,
                    value.blkio_weight_device,
                )
                + optional_member_for::<Vec<ThrottleDeviceRate>>(
                    "BlkioDeviceReadBps"@,
                    value.blkio_device_read_bps,
                )
                + optional_member_for::<Vec<ThrottleDeviceRate>>(
                    "BlkioDeviceWriteBps"@,
                    value.blkio_device_write_bps,
                )
                + optional_member_for::<Vec<ThrottleDeviceRate>>(
                    "BlkioDeviceReadIOps"@,
                    value.blkio_device_read_iops,
                )
                + optional_member_for::<Vec<ThrottleDeviceRate>>(
                    "BlkioDeviceWriteIOps"@,
                    value.blkio_device_write_iops,
                )
                + optional_member_for::<i64>("CpuPeriod"@, value.cpu_period)
                + optional_member_for::<i64>("CpuQuota"@, value.cpu_quota)
                + optional_member_for::<i64>("CpuRealtimePeriod"@, value.cpu_realtime_period)
                + optional_member_for::<i64>("CpuRealtimeRuntime"@, value.cpu_realtime_runtime)
                + optional_member_for::<String>("CpusetCpus"@, value.cpuset_cpus)
                + optional_member_for::<String>("CpusetMems"@, value.cpuset_mems)
                + optional_member_for::<Vec<GenericDevice>>("Devices"@, value.devices)
                + optional_member_for::<Vec<String>>(
                    "DeviceCgroupRules"@,
                    value.device_cgroup_rules,
                )
                + optional_member_for::<Vec<DeviceRequest>>(
                    "DeviceRequests"@,
                    value.device_requests,
                )
                + optional_member_for::<i64>("KernelMemory"@, value.kernel_memory)
                + optional_member_for::<i64>("KernelMemoryTCP"@, value.kernel_memory_tcp)
                + optional_member_for::<i64>("MemoryReservation"@, value.memory_reservation)
                + optional_member_for::<i64>("MemorySwap"@, value.memory_swap)
                + optional_member_for::<i16>("MemorySwappiness"@, value.memory_swappiness)
                + optional_member_for::<i64>("NanosCpus"@, value.nanos_cpus),
        )
    }

    fn to_json(&self) -> (document: Json) {
        let mut fields: Vec<(String, Json)> = Vec::new();
        assert(entries_of(fields@) =~= Seq::empty());
        put_optional::<i64>(&mut fields, "CpuShares", &self.cpu_shares);
        put_optional::<i64>(&mut fields, "Memory", &self.memory);
        put_optional::<String>(&mut fields, "CgroupParent", &self.cgroup_parent);
        put_optional::<i16>(&mut fields, "BlkioWeight", &self.blkio_weight);
        put_optional::<Vec<ThrottleDeviceWeight>>(
            &mut fields,
            "BlkioWeightDevice",
            &self.blkio_weight_device,
        );
        put_optional::<Vec<ThrottleDeviceRate>>(
            &mut fields,
            "BlkioDeviceReadBps",
            &self.blkio_device_read_bps,
        );
        put_optional::<Vec<ThrottleDeviceRate>>(
            &mut fields,
            "BlkioDeviceWriteBps",
            &self.blkio_device_write_bps,
        );
        put_optional::<Vec<ThrottleDeviceRate>>(
            &mut fields,
            "BlkioDeviceReadIOps",
            &self.blkio_device_read_iops,
        );
        put_optional::<Vec<ThrottleDeviceRate>>(
            &mut fields,
            "BlkioDeviceWriteIOps",
            &self.blkio_device_write_iops,
        );
        put_optional::<i64>(&mut fields, "CpuPeriod", &self.cpu_period);
        put_optional::<i64>(&mut fields, "CpuQuota", &self.cpu_quota);
        put_optional::<i64>(&mut fields, "CpuRealtimePeriod", &self.cpu_realtime_period);
        put_optional::<i64>(&mut fields, "CpuRealtimeRuntime", &self.cpu_realtime_runtime);
        put_optional::<String>(&mut fields, "CpusetCpus", &self.cpuset_cpus);
        put_optional::<String>(&mut fields, "CpusetMems", &self.cpuset_mems);
        put_optional::<Vec<GenericDevice>>(&mut fields, "Devices", &self.devices);
        put_optional::<Vec<String>>(
            &mut fields,
            "DeviceCgroupRules",
            &self.device_cgroup_rules,
        );
        put_optional::<Vec<DeviceRequest>>(
            &mut fields,
            "DeviceRequests",
            &self.device_requests,
        );
        put_optional::<i64>(&mut fields, "KernelMemory", &self.kernel_memory);
        put_optional::<i64>(&mut fields, "KernelMemoryTCP", &self.kernel_memory_tcp);
        put_optional::<i64>(&mut fields, "MemoryReservation", &self.memory_reservation);
        put_optional::<i64>(&mut fields, "MemorySwap", &self.memory_swap);
        put_optional::<i16>(&mut fields, "MemorySwappiness", &self.memory_swappiness);
        put_optional::<i64>(&mut fields, "NanosCpus", &self.nanos_cpus);
        Json::object(fields)
    }
}

/// The I/O weight of one device.
#[derive(Debug, PartialEq)]
pub struct ThrottleDeviceWeight {
    pub path: Option<String>,
    pub weight: Option<i64>,
}

/// The mathematical value of a [`ThrottleDeviceWeight`].
pub ghost struct ThrottleDeviceWeightView {
    pub path: Option<Seq<char>>,
    pub weight: Option<i64>,
}

impl DeepView for ThrottleDeviceWeight {
    type V = ThrottleDeviceWeightView;

    open spec fn deep_view(&self) -> ThrottleDeviceWeightView {
        ThrottleDeviceWeightView {
            path: self.path.deep_view(),
            weight: self.weight.deep_view(),
        }
    }
}

impl View for ThrottleDeviceWeight {
    type V = ThrottleDeviceWeightView;

    open spec fn view(&self) -> ThrottleDeviceWeightView {
        self.deep_view()
    }
}

impl ToJson for ThrottleDeviceWeight {
    open spec fn encoded(value: ThrottleDeviceWeightView) -> JsonValue {
        JsonValue::Object(
            Seq::empty()
                + optional_member_for::<String>("Path"@, value.path)
                + optional_member_for::<i64>("Weight"@, value.weight),
        )
    }

    fn to_json(&self) -> (document: Json) {
        let mut fields: Vec<(String, Json)> = Vec::new();
        assert(entries_of(fields@) =~= Seq::empty());
        put_optional::<String>(&mut fields, "Path", &self.path);
        put_optional::<i64>(&mut fields, "Weight", &self.weight);
        Json::object(fields)
    }
}

/// The I/O rate limit of one device.
#[derive(Debug, PartialEq)]
pub struct ThrottleDeviceRate {
    pub path: Option<String>,
    pub rate: Option<i64>,
}

/// The mathematical value of a [`ThrottleDeviceRate`].
pub ghost struct ThrottleDeviceRateView {
    pub path: Option<Seq<char>>,
    pub rate: Option<i64>,
}

impl DeepView for ThrottleDeviceRate {
    type V = ThrottleDeviceRateView;

    open spec fn deep_view(&self) -> ThrottleDeviceRateView {
        ThrottleDeviceRateView {
            path: self.path.deep_view(),
            rate: self.rate.deep_view(),
        }
    }
}

impl View for ThrottleDeviceRate {
    type V = ThrottleDeviceRateView;

    open spec fn view(&self) -> ThrottleDeviceRateView {
        self.deep_view()
    }
}

impl ToJson for ThrottleDeviceRate {
    open spec fn encoded(value: ThrottleDeviceRateView) -> JsonValue {
        JsonValue::Object(
            Seq::empty()
                + optional_member_for::<String>("Path"@, value.path)
                + optional_member_for::<i64>("Rate"@, value.rate),
        )
    }

    fn to_json(&self) -> (document: Json) {
        let mut fields: Vec<(String, Json)> = Vec::new();
        assert(entries_of(fields@) =~= Seq::empty());
        put_optional::<String>(&mut fields, "Path", &self.path);
        put_optional::<i64>(&mut fields, "Rate", &self.rate);
        Json::object(fields)
    }
}

} // verus!
