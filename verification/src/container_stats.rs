//! A snapshot of a container's resource usage.

use crate::decode::{blank_of, field, field_of, FromJson, lemma_field_sound, sound_of};
use crate::duplicate::Duplicate;
use crate::json::{Dictionary, Json, JsonValue};
use vstd::prelude::*;

verus! {

/// One statistics snapshot.
#[derive(Debug, PartialEq)]
pub struct Stats {
    pub read: String,
    pub pids_stats: PidsStats,
    pub networks: Dictionary<NetworkStats>,
    pub memory_stats: MemoryStats,
    pub blkio_stats: BlkioStats,
    pub cpu_stats: CpuStats,
    pub precpu_stats: CpuStats,
}

/// The mathematical value of a [`Stats`].
pub ghost struct StatsView {
    pub read: Seq<char>,
    pub pids_stats: PidsStatsView,
    pub networks: Seq<(Seq<char>, NetworkStatsView)>,
    pub memory_stats: MemoryStatsView,
    pub blkio_stats: BlkioStatsView,
    pub cpu_stats: CpuStatsView,
    pub precpu_stats: CpuStatsView,
}

impl DeepView for Stats {
    type V = StatsView;

    open spec fn deep_view(&self) -> StatsView {
        StatsView {
            read: self.read.deep_view(),
            pids_stats: self.pids_stats.deep_view(),
            networks: self.networks.deep_view(),
            memory_stats: self.memory_stats.deep_view(),
            blkio_stats: self.blkio_stats.deep_view(),
            cpu_stats: self.cpu_stats.deep_view(),
            precpu_stats: self.precpu_stats.deep_view(),
        }
    }
}

impl View for Stats {
    type V = StatsView;

    open spec fn view(&self) -> StatsView {
        self.deep_view()
    }
}

impl FromJson for Stats {
    open spec fn decoded(document: JsonValue) -> Option<StatsView> {
        if document is Object
            && field_of::<String>(document, "read"@) is Some
            && field_of::<PidsStats>(document, "pids_stats"@) is Some
            && field_of::<Dictionary<NetworkStats>>(document, "networks"@) is Some
            && field_of::<MemoryStats>(document, "memory_stats"@) is Some
            && field_of::<BlkioStats>(document, "blkio_stats"@) is Some
            && field_of::<CpuStats>(document, "cpu_stats"@) is Some
            && field_of::<CpuStats>(document, "precpu_stats"@) is Some {
            Some(
                StatsView {
                    read: field_of::<String>(document, "read"@)->0,
                    pids_stats: field_of::<PidsStats>(document, "pids_stats"@)->0,
                    networks: field_of::<Dictionary<NetworkStats>>(document, "networks"@)->0,
                    memory_stats: field_of::<MemoryStats>(document, "memory_stats"@)->0,
                    blkio_stats: field_of::<BlkioStats>(document, "blkio_stats"@)->0,
                    cpu_stats: field_of::<CpuStats>(document, "cpu_stats"@)->0,
                    precpu_stats: field_of::<CpuStats>(document, "precpu_stats"@)->0,
                },
            )
        } else {
            None
        }
    }

    open spec fn blank() -> StatsView {
        StatsView {
            read: blank_of::<String>(),
            pids_stats: blank_of::<PidsStats>(),
            networks: blank_of::<Dictionary<NetworkStats>>(),
            memory_stats: blank_of::<MemoryStats>(),
            blkio_stats: blank_of::<BlkioStats>(),
            cpu_stats: blank_of::<CpuStats>(),
            precpu_stats: blank_of::<CpuStats>(),
        }
    }

    fn from_json(document: &Json) -> (r: Option<Stats>) {
        match document {
            Json::Object(_) => {},
            _ => {
                return None;
            },
        }
        let read = field::<String>(document, "read")?;
        let pids_stats = field::<PidsStats>(document, "pids_stats")?;
        let networks = field::<Dictionary<NetworkStats>>(document, "networks")?;
        let memory_stats = field::<MemoryStats>(document, "memory_stats")?;
        let blkio_stats = field::<BlkioStats>(document, "blkio_stats")?;
        let cpu_stats = field::<CpuStats>(document, "cpu_stats")?;
        let precpu_stats = field::<CpuStats>(document, "precpu_stats")?;
        Some(
            Stats {
                read,
                pids_stats,
                networks,
                memory_stats,
                blkio_stats,
                cpu_stats,
                precpu_stats,
            },
        )
    }

    fn absent() -> (r: Stats) {
        Stats {
            read: <String>::absent(),
            pids_stats: <PidsStats>::absent(),
            networks: <Dictionary<NetworkStats>>::absent(),
            memory_stats: <MemoryStats>::absent(),
            blkio_stats: <BlkioStats>::absent(),
            cpu_stats: <CpuStats>::absent(),
            precpu_stats: <CpuStats>::absent(),
        }
    }

    open spec fn sound(value: StatsView) -> bool {
        sound_of::<String>(value.read)
            && sound_of::<PidsStats>(value.pids_stats)
            && sound_of::<Dictionary<NetworkStats>>(value.networks)
            && sound_of::<MemoryStats>(value.memory_stats)
            && sound_of::<BlkioStats>(value.blkio_stats)
            && sound_of::<CpuStats>(value.cpu_stats)
            && sound_of::<CpuStats>(value.precpu_stats)
    }

    proof fn lemma_decoded_sound(document: JsonValue) {
        lemma_field_sound::<String>(document, "read"@);
        lemma_field_sound::<PidsStats>(document, "pids_stats"@);
        lemma_field_sound::<Dictionary<NetworkStats>>(document, "networks"@);
        lemma_field_sound::<MemoryStats>(document, "memory_stats"@);
        lemma_field_sound::<BlkioStats>(document, "blkio_stats"@);
        lemma_field_sound::<CpuStats>(document, "cpu_stats"@);
        lemma_field_sound::<CpuStats>(document, "precpu_stats"@);
    }

    proof fn lemma_blank_sound() {
        <BlkioStats>::lemma_blank_sound();
        <CpuStats>::lemma_blank_sound();
        <Dictionary<NetworkStats>>::lemma_blank_sound();
        <MemoryStats>::lemma_blank_sound();
        <PidsStats>::lemma_blank_sound();
        <String>::lemma_blank_sound();
    }
}

impl Duplicate for Stats {
    fn duplicate(&self) -> (copy: Stats) {
        Stats {
            read: self.read.duplicate(),
            pids_stats: self.pids_stats.duplicate(),
            networks: self.networks.duplicate(),
            memory_stats: self.memory_stats.duplicate(),
            blkio_stats: self.blkio_stats.duplicate(),
            cpu_stats: self.cpu_stats.duplicate(),
            precpu_stats: self.precpu_stats.duplicate(),
        }
    }
}

impl Clone for Stats {
    fn clone(&self) -> (copy: Self)
        ensures
            copy@ == self@,
    {
        self.duplicate()
    }
}

impl Default for Stats {
    fn default() -> (r: Self)
        ensures
            r@ == blank_of::<Stats>(),
    {
        <Stats>::absent()
    }
}

/// The number of processes.
#[derive(Debug, PartialEq)]
pub struct PidsStats {
    pub current: u64,
}

/// The mathematical value of a [`PidsStats`].
pub ghost struct PidsStatsView {
    pub current: u64,
}

impl DeepView for PidsStats {
    type V = PidsStatsView;

    open spec fn deep_view(&self) -> PidsStatsView {
        PidsStatsView {
            current: self.current.deep_view(),
        }
    }
}

impl View for PidsStats {
    type V = PidsStatsView;

    open spec fn view(&self) -> PidsStatsView {
        self.deep_view()
    }
}

impl FromJson for PidsStats {
    open spec fn decoded(document: JsonValue) -> Option<PidsStatsView> {
        if document is Object
            && field_of::<u64>(document, "current"@) is Some {
            Some(
                PidsStatsView {
                    current: field_of::<u64>(document, "current"@)->0,
                },
            )
        } else {
            None
        }
    }

    open spec fn blank() -> PidsStatsView {
        PidsStatsView {
            current: blank_of::<u64>(),
        }
    }

    fn from_json(document: &Json) -> (r: Option<PidsStats>) {
        match document {
            Json::Object(_) => {},
            _ => {
                return None;
            },
        }
        let current = field::<u64>(document, "current")?;
        Some(PidsStats { current })
    }

    fn absent() -> (r: PidsStats) {
        PidsStats {
            current: <u64>::absent(),
        }
    }

    open spec fn sound(value: PidsStatsView) -> bool {
        sound_of::<u64>(value.current)
    }

    proof fn lemma_decoded_sound(document: JsonValue) {
        lemma_field_sound::<u64>(document, "current"@);
    }

    proof fn lemma_blank_sound() {
        <u64>::lemma_blank_sound();
    }
}

impl Duplicate for PidsStats {
    fn duplicate(&self) -> (copy: PidsStats) {
        PidsStats {
            current: self.current.duplicate(),
        }
    }
}

impl Clone for PidsStats {
    fn clone(&self) -> (copy: Self)
        ensures
            copy@ == self@,
    {
        self.duplicate()
    }
}

impl Default for PidsStats {
    fn default() -> (r: Self)
        ensures
            r@ == blank_of::<PidsStats>(),
    {
        <PidsStats>::absent()
    }
}

/// The traffic counters of one interface.
#[derive(Debug, PartialEq)]
pub struct NetworkStats {
    pub rx_bytes: u64,
    pub rx_packets: u64,
    pub rx_errors: u64,
    pub rx_dropped: u64,
    pub tx_bytes: u64,
    pub tx_packets: u64,
    pub tx_errors: u64,
    pub tx_dropped: u64,
}

/// The mathematical value of a [`NetworkStats`].
pub ghost struct NetworkStatsView {
    pub rx_bytes: u64,
    pub rx_packets: u64,
    pub rx_errors: u64,
    pub rx_dropped: u64,
    pub tx_bytes: u64,
    pub tx_packets: u64,
    pub tx_errors: u64,
    pub tx_dropped: u64,
}

impl DeepView for NetworkStats {
    type V = NetworkStatsView;

    open spec fn deep_view(&self) -> NetworkStatsView {
        NetworkStatsView {
            rx_bytes: self.rx_bytes.deep_view(),
            rx_packets: self.rx_packets.deep_view(),
            rx_errors: self.rx_errors.deep_view(),
            rx_dropped: self.rx_dropped.deep_view(),
            tx_bytes: self.tx_bytes.deep_view(),
            tx_packets: self.tx_packets.deep_view(),
            tx_errors: self.tx_errors.deep_view(),
            tx_dropped: self.tx_dropped.deep_view(),
        }
    }
}

impl View for NetworkStats {
    type V = NetworkStatsView;

    open spec fn view(&self) -> NetworkStatsView {
        self.deep_view()
    }
}

impl FromJson for NetworkStats {
    open spec fn decoded(document: JsonValue) -> Option<NetworkStatsView> {
        if document is Object
            && field_of::<u64>(document, "rx_bytes"@) is Some
            && field_of::<u64>(document, "rx_packets"@) is Some
            && field_of::<u64>(document, "rx_errors"@) is Some
            && field_of::<u64>(document, "rx_dropped"@) is Some
            && field_of::<u64>(document, "tx_bytes"@) is Some
            && field_of::<u64>(document, "tx_packets"@) is Some
            && field_of::<u64>(document, "tx_errors"@) is Some
            && field_of::<u64>(document, "tx_dropped"@) is Some {
            Some(
                NetworkStatsView {
                    rx_bytes: field_of::<u64>(document, "rx_bytes"@)->0,
                    rx_packets: field_of::<u64>(document, "rx_packets"@)->0,
                    rx_errors: field_of::<u64>(document, "rx_errors"@)->0,
                    rx_dropped: field_of::<u64>(document, "rx_dropped"@)->0,
                    tx_bytes: field_of::<u64>(document, "tx_bytes"@)->0,
                    tx_packets: field_of::<u64>(document, "tx_packets"@)->0,
                    tx_errors: field_of::<u64>(document, "tx_errors"@)->0,
                    tx_dropped: field_of::<u64>(document, "tx_dropped"@)->0,
                },
            )
        } else {
            None
        }
    }

    open spec fn blank() -> NetworkStatsView {
        NetworkStatsView {
            rx_bytes: blank_of::<u64>(),
            rx_packets: blank_of::<u64>(),
            rx_errors: blank_of::<u64>(),
            rx_dropped: blank_of::<u64>(),
            tx_bytes: blank_of::<u64>(),
            tx_packets: blank_of::<u64>(),
            tx_errors: blank_of::<u64>(),
            tx_dropped: blank_of::<u64>(),
        }
    }

    fn from_json(document: &Json) -> (r: Option<NetworkStats>) {
        match document {
            Json::Object(_) => {},
            _ => {
                return None;
            },
        }
        let rx_bytes = field::<u64>(document, "rx_bytes")?;
        let rx_packets = field::<u64>(document, "rx_packets")?;
        let rx_errors = field::<u64>(document, "rx_errors")?;
        let rx_dropped = field::<u64>(document, "rx_dropped")?;
        let tx_bytes = field::<u64>(document, "tx_bytes")?;
        let tx_packets = field::<u64>(document, "tx_packets")?;
        let tx_errors = field::<u64>(document, "tx_errors")?;
        let tx_dropped = field::<u64>(document, "tx_dropped")?;
        Some(
            NetworkStats {
                rx_bytes,
                rx_packets,
                rx_errors,
                rx_dropped,
                tx_bytes,
                tx_packets,
                tx_errors,
                tx_dropped,
            },
        )
    }

    fn absent() -> (r: NetworkStats) {
        NetworkStats {
            rx_bytes: <u64>::absent(),
            rx_packets: <u64>::absent(),
            rx_errors: <u64>::absent(),
            rx_dropped: <u64>::absent(),
            tx_bytes: <u64>::absent(),
            tx_packets: <u64>::absent(),
            tx_errors: <u64>::absent(),
            tx_dropped: <u64>::absent(),
        }
    }

    open spec fn sound(value: NetworkStatsView) -> bool {
        sound_of::<u64>(value.rx_bytes)
            && sound_of::<u64>(value.rx_packets)
            && sound_of::<u64>(value.rx_errors)
            && sound_of::<u64>(value.rx_dropped)
            && sound_of::<u64>(value.tx_bytes)
            && sound_of::<u64>(value.tx_packets)
            && sound_of::<u64>(value.tx_errors)
            && sound_of::<u64>(value.tx_dropped)
    }

    proof fn lemma_decoded_sound(document: JsonValue) {
        lemma_field_sound::<u64>(document, "rx_bytes"@);
        lemma_field_sound::<u64>(document, "rx_packets"@);
        lemma_field_sound::<u64>(document, "rx_errors"@);
        lemma_field_sound::<u64>(document, "rx_dropped"@);
        lemma_field_sound::<u64>(document, "tx_bytes"@);
        lemma_field_sound::<u64>(document, "tx_packets"@);
        lemma_field_sound::<u64>(document, "tx_errors"@);
        lemma_field_sound::<u64>(document, "tx_dropped"@);
    }

    proof fn lemma_blank_sound() {
        <u64>::lemma_blank_sound();
    }
}

impl Duplicate for NetworkStats {
    fn duplicate(&self) -> (copy: NetworkStats) {
        NetworkStats {
            rx_bytes: self.rx_bytes.duplicate(),
            rx_packets: self.rx_packets.duplicate(),
            rx_errors: self.rx_errors.duplicate(),
            rx_dropped: self.rx_dropped.duplicate(),
            tx_bytes: self.tx_bytes.duplicate(),
            tx_packets: self.tx_packets.duplicate(),
            tx_errors: self.tx_errors.duplicate(),
            tx_dropped: self.tx_dropped.duplicate(),
        }
    }
}

impl Clone for NetworkStats {
    fn clone(&self) -> (copy: Self)
        ensures
            copy@ == self@,
    {
        self.duplicate()
    }
}

/// Memory usage and its limit.
#[derive(Debug, PartialEq)]
pub struct MemoryStats {
    pub usage: u64,
    pub max_usage: u64,
    pub stats: Dictionary<u64>,
    pub limit: u64,
}

/// The mathematical value of a [`MemoryStats`].
pub ghost struct MemoryStatsView {
    pub usage: u64,
    pub max_usage: u64,
    pub stats: Seq<(Seq<char>, u64)>,
    pub limit: u64,
}

impl DeepView for MemoryStats {
    type V = MemoryStatsView;

    open spec fn deep_view(&self) -> MemoryStatsView {
        MemoryStatsView {
            usage: self.usage.deep_view(),
            max_usage: self.max_usage.deep_view(),
            stats: self.stats.deep_view(),
            limit: self.limit.deep_view(),
        }
    }
}

impl View for MemoryStats {
    type V = MemoryStatsView;

    open spec fn view(&self) -> MemoryStatsView {
        self.deep_view()
    }
}

impl FromJson for MemoryStats {
    open spec fn decoded(document: JsonValue) -> Option<MemoryStatsView> {
        if document is Object
            && field_of::<u64>(document, "usage"@) is Some
            && field_of::<u64>(document, "max_usage"@) is Some
            && field_of::<Dictionary<u64>>(document, "stats"@) is Some
            && field_of::<u64>(document, "limit"@) is Some {
            Some(
                MemoryStatsView {
                    usage: field_of::<u64>(document, "usage"@)->0,
                    max_usage: field_of::<u64>(document, "max_usage"@)->0,
                    stats: field_of::<Dictionary<u64>>(document, "stats"@)->0,
                    limit: field_of::<u64>(document, "limit"@)->0,
                },
            )
        } else {
            None
        }
    }

    open spec fn blank() -> MemoryStatsView {
        MemoryStatsView {
            usage: blank_of::<u64>(),
            max_usage: blank_of::<u64>(),
            stats: blank_of::<Dictionary<u64>>(),
            limit: blank_of::<u64>(),
        }
    }

    fn from_json(document: &Json) -> (r: Option<MemoryStats>) {
        match document {
            Json::Object(_) => {},
            _ => {
                return None;
            },
        }
        let usage = field::<u64>(document, "usage")?;
        let max_usage = field::<u64>(document, "max_usage")?;
        let stats = field::<Dictionary<u64>>(document, "stats")?;
        let limit = field::<u64>(document, "limit")?;
        Some(MemoryStats { usage, max_usage, stats, limit })
    }

    fn absent() -> (r: MemoryStats) {
        MemoryStats {
            usage: <u64>::absent(),
            max_usage: <u64>::absent(),
            stats: <Dictionary<u64>>::absent(),
            limit: <u64>::absent(),
        }
    }

    open spec fn sound(value: MemoryStatsView) -> bool {
        sound_of::<u64>(value.usage)
            && sound_of::<u64>(value.max_usage)
            && sound_of::<Dictionary<u64>>(value.stats)
            && sound_of::<u64>(value.limit)
    }

    proof fn lemma_decoded_sound(document: JsonValue) {
        lemma_field_sound::<u64>(document, "usage"@);
        lemma_field_sound::<u64>(document, "max_usage"@);
        lemma_field_sound::<Dictionary<u64>>(document, "stats"@);
        lemma_field_sound::<u64>(document, "limit"@);
    }

    proof fn lemma_blank_sound() {
        <Dictionary<u64>>::lemma_blank_sound();
        <u64>::lemma_blank_sound();
    }
}

impl Duplicate for MemoryStats {
    fn duplicate(&self) -> (copy: MemoryStats) {
        MemoryStats {
            usage: self.usage.duplicate(),
            max_usage: self.max_usage.duplicate(),
            stats: self.stats.duplicate(),
            limit: self.limit.duplicate(),
        }
    }
}

impl Clone for MemoryStats {
    fn clone(&self) -> (copy: Self)
        ensures
            copy@ == self@,
    {
        self.duplicate()
    }
}

impl Default for MemoryStats {
    fn default() -> (r: Self)
        ensures
            r@ == blank_of::<MemoryStats>(),
    {
        <MemoryStats>::absent()
    }
}

/// Block I/O counters, kept as the documents the engine sent.
#[derive(Debug, PartialEq)]
pub struct BlkioStats {
    pub io_service_bytes_recursive: Json,
    pub io_serviced_recursive: Json,
    pub io_queue_recursive: Json,
    pub io_service_time_recursive: Json,
    pub io_wait_time_recursive: Json,
    pub io_merged_recursive: Json,
    pub io_time_recursive: Json,
    pub sectors_recursive: Json,
}

/// The mathematical value of a [`BlkioStats`].
pub ghost struct BlkioStatsView {
    pub io_service_bytes_recursive: JsonValue,
    pub io_serviced_recursive: JsonValue,
    pub io_queue_recursive: JsonValue,
    pub io_service_time_recursive: JsonValue,
    pub io_wait_time_recursive: JsonValue,
    pub io_merged_recursive: JsonValue,
    pub io_time_recursive: JsonValue,
    pub sectors_recursive: JsonValue,
}

impl DeepView for BlkioStats {
    type V = BlkioStatsView;

    open spec fn deep_view(&self) -> BlkioStatsView {
        BlkioStatsView {
            io_service_bytes_recursive: self.io_service_bytes_recursive.deep_view(),
            io_serviced_recursive: self.io_serviced_recursive.deep_view(),
            io_queue_recursive: self.io_queue_recursive.deep_view(),
            io_service_time_recursive: self.io_service_time_recursive.deep_view(),
            io_wait_time_recursive: self.io_wait_time_recursive.deep_view(),
            io_merged_recursive: self.io_merged_recursive.deep_view(),
            io_time_recursive: self.io_time_recursive.deep_view(),
            sectors_recursive: self.sectors_recursive.deep_view(),
        }
    }
}

impl View for BlkioStats {
    type V = BlkioStatsView;

    open spec fn view(&self) -> BlkioStatsView {
        self.deep_view()
    }
}

impl FromJson for BlkioStats {
    open spec fn decoded(document: JsonValue) -> Option<BlkioStatsView> {
        if document is Object
            && field_of::<Json>(document, "io_service_bytes_recursive"@) is Some
            && field_of::<Json>(document, "io_serviced_recursive"@) is Some
            && field_of::<Json>(document, "io_queue_recursive"@) is Some
            && field_of::<Json>(document, "io_service_time_recursive"@) is Some
            && field_of::<Json>(document, "io_wait_time_recursive"@) is Some
            && field_of::<Json>(document, "io_merged_recursive"@) is Some
            && field_of::<Json>(document, "io_time_recursive"@) is Some
            && field_of::<Json>(document, "sectors_recursive"@) is Some {
            Some(
                BlkioStatsView {
                    io_service_bytes_recursive: field_of::<Json>(
                        document,
                        "io_service_bytes_recursive"@,
                    )->0,
                    io_serviced_recursive: field_of::<Json>(
                        document,
                        "io_serviced_recursive"@,
                    )->0,
                    io_queue_recursive: field_of::<Json>(document, "io_queue_recursive"@)->0,
                    io_service_time_recursive: field_of::<Json>(
                        document,
                        "io_service_time_recursive"@,
                    )->0,
                    io_wait_time_recursive: field_of::<Json>(
                        document,
                        "io_wait_time_recursive"@,
                    )->0,
                    io_merged_recursive: field_of::<Json>(document, "io_merged_recursive"@)->0,
                    io_time_recursive: field_of::<Json>(document, "io_time_recursive"@)->0,
                    sectors_recursive: field_of::<Json>(document, "sectors_recursive"@)->0,
                },
            )
        } else {
            None
        }
    }

    open spec fn blank() -> BlkioStatsView {
        BlkioStatsView {
            io_service_bytes_recursive: blank_of::<Json>(),
            io_serviced_recursive: blank_of::<Json>(),
            io_queue_recursive: blank_of::<Json>(),
            io_service_time_recursive: blank_of::<Json>(),
            io_wait_time_recursive: blank_of::<Json>(),
            io_merged_recursive: blank_of::<Json>(),
            io_time_recursive: blank_of::<Json>(),
            sectors_recursive: blank_of::<Json>(),
        }
    }

    fn from_json(document: &Json) -> (r: Option<BlkioStats>) {
        match document {
            Json::Object(_) => {},
            _ => {
                return None;
            },
        }
        let io_service_bytes_recursive = field::<Json>(document, "io_service_bytes_recursive")?;
        let io_serviced_recursive = field::<Json>(document, "io_serviced_recursive")?;
        let io_queue_recursive = field::<Json>(document, "io_queue_recursive")?;
        let io_service_time_recursive = field::<Json>(document, "io_service_time_recursive")?;
        let io_wait_time_recursive = field::<Json>(document, "io_wait_time_recursive")?;
        let io_merged_recursive = field::<Json>(document, "io_merged_recursive")?;
        let io_time_recursive = field::<Json>(document, "io_time_recursive")?;
        let sectors_recursive = field::<Json>(document, "sectors_recursive")?;
        Some(
            BlkioStats {
                io_service_bytes_recursive,
                io_serviced_recursive,
                io_queue_recursive,
                io_service_time_recursive,
                io_wait_time_recursive,
                io_merged_recursive,
                io_time_recursive,
                sectors_recursive,
            },
        )
    }

    fn absent() -> (r: BlkioStats) {
        BlkioStats {
            io_service_bytes_recursive: <Json>::absent(),
            io_serviced_recursive: <Json>::absent(),
            io_queue_recursive: <Json>::absent(),
            io_service_time_recursive: <Json>::absent(),
            io_wait_time_recursive: <Json>::absent(),
            io_merged_recursive: <Json>::absent(),
            io_time_recursive: <Json>::absent(),
            sectors_recursive: <Json>::absent(),
        }
    }

    open spec fn sound(value: BlkioStatsView) -> bool {
        sound_of::<Json>(value.io_service_bytes_recursive)
            && sound_of::<Json>(value.io_serviced_recursive)
            && sound_of::<Json>(value.io_queue_recursive)
            && sound_of::<Json>(value.io_service_time_recursive)
            && sound_of::<Json>(value.io_wait_time_recursive)
            && sound_of::<Json>(value.io_merged_recursive)
            && sound_of::<Json>(value.io_time_recursive)
            && sound_of::<Json>(value.sectors_recursive)
    }

    proof fn lemma_decoded_sound(document: JsonValue) {
        lemma_field_sound::<Json>(document, "io_service_bytes_recursive"@);
        lemma_field_sound::<Json>(document, "io_serviced_recursive"@);
        lemma_field_sound::<Json>(document, "io_queue_recursive"@);
        lemma_field_sound::<Json>(document, "io_service_time_recursive"@);
        lemma_field_sound::<Json>(document, "io_wait_time_recursive"@);
        lemma_field_sound::<Json>(document, "io_merged_recursive"@);
        lemma_field_sound::<Json>(document, "io_time_recursive"@);
        lemma_field_sound::<Json>(document, "sectors_recursive"@);
    }

    proof fn lemma_blank_sound() {
        <Json>::lemma_blank_sound();
    }
}

impl Duplicate for BlkioStats {
    fn duplicate(&self) -> (copy: BlkioStats) {
        BlkioStats {
            io_service_bytes_recursive: self.io_service_bytes_recursive.duplicate(),
            io_serviced_recursive: self.io_serviced_recursive.duplicate(),
            io_queue_recursive: self.io_queue_recursive.duplicate(),
            io_service_time_recursive: self.io_service_time_recursive.duplicate(),
            io_wait_time_recursive: self.io_wait_time_recursive.duplicate(),
            io_merged_recursive: self.io_merged_recursive.duplicate(),
            io_time_recursive: self.io_time_recursive.duplicate(),
            sectors_recursive: self.sectors_recursive.duplicate(),
        }
    }
}

impl Clone for BlkioStats {
    fn clone(&self) -> (copy: Self)
        ensures
            copy@ == self@,
    {
        self.duplicate()
    }
}

impl Default for BlkioStats {
    fn default() -> (r: Self)
        ensures
            r@ == blank_of::<BlkioStats>(),
    {
        <BlkioStats>::absent()
    }
}

/// One block I/O counter.
#[derive(Debug, PartialEq)]
pub struct BlkioStatsEntry {
    pub major: u64,
    pub minor: u64,
    pub op: String,
    pub value: u64,
}

/// The mathematical value of a [`BlkioStatsEntry`].
pub ghost struct BlkioStatsEntryView {
    pub major: u64,
    pub minor: u64,
    pub op: Seq<char>,
    pub value: u64,
}

impl DeepView for BlkioStatsEntry {
    type V = BlkioStatsEntryView;

    open spec fn deep_view(&self) -> BlkioStatsEntryView {
        BlkioStatsEntryView {
            major: self.major.deep_view(),
            minor: self.minor.deep_view(),
            op: self.op.deep_view(),
            value: self.value.deep_view(),
        }
    }
}

impl View for BlkioStatsEntry {
    type V = BlkioStatsEntryView;

    open spec fn view(&self) -> BlkioStatsEntryView {
        self.deep_view()
    }
}

impl FromJson for BlkioStatsEntry {
    open spec fn decoded(document: JsonValue) -> Option<BlkioStatsEntryView> {
        if document is Object
            && field_of::<u64>(document, "major"@) is Some
            && field_of::<u64>(document, "minor"@) is Some
            && field_of::<String>(document, "op"@) is Some
            && field_of::<u64>(document, "value"@) is Some {
            Some(
                BlkioStatsEntryView {
                    major: field_of::<u64>(document, "major"@)->0,
                    minor: field_of::<u64>(document, "minor"@)->0,
                    op: field_of::<String>(document, "op"@)->0,
                    value: field_of::<u64>(document, "value"@)->0,
                },
            )
        } else {
            None
        }
    }

    open spec fn blank() -> BlkioStatsEntryView {
        BlkioStatsEntryView {
            major: blank_of::<u64>(),
            minor: blank_of::<u64>(),
            op: blank_of::<String>(),
            value: blank_of::<u64>(),
        }
    }

    fn from_json(document: &Json) -> (r: Option<BlkioStatsEntry>) {
        match document {
            Json::Object(_) => {},
            _ => {
                return None;
            },
        }
        let major = field::<u64>(document, "major")?;
        let minor = field::<u64>(document, "minor")?;
        let op = field::<String>(document, "op")?;
        let value = field::<u64>(document, "value")?;
        Some(BlkioStatsEntry { major, minor, op, value })
    }

    fn absent() -> (r: BlkioStatsEntry) {
        BlkioStatsEntry {
            major: <u64>::absent(),
            minor: <u64>::absent(),
            op: <String>::absent(),
            value: <u64>::absent(),
        }
    }

    open spec fn sound(value: BlkioStatsEntryView) -> bool {
        sound_of::<u64>(value.major)
            && sound_of::<u64>(value.minor)
            && sound_of::<String>(value.op)
            && sound_of::<u64>(value.value)
    }

    proof fn lemma_decoded_sound(document: JsonValue) {
        lemma_field_sound::<u64>(document, "major"@);
        lemma_field_sound::<u64>(document, "minor"@);
        lemma_field_sound::<String>(document, "op"@);
        lemma_field_sound::<u64>(document, "value"@);
    }

    proof fn lemma_blank_sound() {
        <String>::lemma_blank_sound();
        <u64>::lemma_blank_sound();
    }
}

impl Duplicate for BlkioStatsEntry {
    fn duplicate(&self) -> (copy: BlkioStatsEntry) {
        BlkioStatsEntry {
            major: self.major.duplicate(),
            minor: self.minor.duplicate(),
            op: self.op.duplicate(),
            value: self.value.duplicate(),
        }
    }
}

impl Clone for BlkioStatsEntry {
    fn clone(&self) -> (copy: Self)
        ensures
            copy@ == self@,
    {
        self.duplicate()
    }
}

impl Default for BlkioStatsEntry {
    fn default() -> (r: Self)
        ensures
            r@ == blank_of::<BlkioStatsEntry>(),
    {
        <BlkioStatsEntry>::absent()
    }
}

/// CPU usage of the container and of the system.
#[derive(Debug, PartialEq)]
pub struct CpuStats {
    pub cpu_usage: CpuUsage,
    pub system_cpu_usage: u64,
    pub online_cpus: u64,
    pub throttling_data: ThrottlingData,
}

/// The mathematical value of a [`CpuStats`].
pub ghost struct CpuStatsView {
    pub cpu_usage: CpuUsageView,
    pub system_cpu_usage: u64,
    pub online_cpus: u64,
    pub throttling_data: ThrottlingDataView,
}

impl DeepView for CpuStats {
    type V = CpuStatsView;

    open spec fn deep_view(&self) -> CpuStatsView {
        CpuStatsView {
            cpu_usage: self.cpu_usage.deep_view(),
            system_cpu_usage: self.system_cpu_usage.deep_view(),
            online_cpus: self.online_cpus.deep_view(),
            throttling_data: self.throttling_data.deep_view(),
        }
    }
}

impl View for CpuStats {
    type V = CpuStatsView;

    open spec fn view(&self) -> CpuStatsView {
        self.deep_view()
    }
}

impl FromJson for CpuStats {
    open spec fn decoded(document: JsonValue) -> Option<CpuStatsView> {
        if document is Object
            && field_of::<CpuUsage>(document, "cpu_usage"@) is Some
            && field_of::<u64>(document, "system_cpu_usage"@) is Some
            && field_of::<u64>(document, "online_cpus"@) is Some
            && field_of::<ThrottlingData>(document, "throttling_data"@) is Some {
            Some(
                CpuStatsView {
                    cpu_usage: field_of::<CpuUsage>(document, "cpu_usage"@)->0,
                    system_cpu_usage: field_of::<u64>(document, "system_cpu_usage"@)->0,
                    online_cpus: field_of::<u64>(document, "online_cpus"@)->0,
                    throttling_data: field_of::<ThrottlingData>(
                        document,
                        "throttling_data"@,
                    )->0,
                },
            )
        } else {
            None
        }
    }

    open spec fn blank() -> CpuStatsView {
        CpuStatsView {
            cpu_usage: blank_of::<CpuUsage>(),
            system_cpu_usage: blank_of::<u64>(),
            online_cpus: blank_of::<u64>(),
            throttling_data: blank_of::<ThrottlingData>(),
        }
    }

    fn from_json(document: &Json) -> (r: Option<CpuStats>) {
        match document {
            Json::Object(_) => {},
            _ => {
                return None;
            },
        }
        let cpu_usage = field::<CpuUsage>(document, "cpu_usage")?;
        let system_cpu_usage = field::<u64>(document, "system_cpu_usage")?;
        let online_cpus = field::<u64>(document, "online_cpus")?;
        let throttling_data = field::<ThrottlingData>(document, "throttling_data")?;
        Some(CpuStats { cpu_usage, system_cpu_usage, online_cpus, throttling_data })
    }

    fn absent() -> (r: CpuStats) {
        CpuStats {
            cpu_usage: <CpuUsage>::absent(),
            system_cpu_usage: <u64>::absent(),
            online_cpus: <u64>::absent(),
            throttling_data: <ThrottlingData>::absent(),
        }
    }

    open spec fn sound(value: CpuStatsView) -> bool {
        sound_of::<CpuUsage>(value.cpu_usage)
            && sound_of::<u64>(value.system_cpu_usage)
            && sound_of::<u64>(value.online_cpus)
            && sound_of::<ThrottlingData>(value.throttling_data)
    }

    proof fn lemma_decoded_sound(document: JsonValue) {
        lemma_field_sound::<CpuUsage>(document, "cpu_usage"@);
        lemma_field_sound::<u64>(document, "system_cpu_usage"@);
        lemma_field_sound::<u64>(document, "online_cpus"@);
        lemma_field_sound::<ThrottlingData>(document, "throttling_data"@);
    }

    proof fn lemma_blank_sound() {
        <CpuUsage>::lemma_blank_sound();
        <ThrottlingData>::lemma_blank_sound();
        <u64>::lemma_blank_sound();
    }
}

impl Duplicate for CpuStats {
    fn duplicate(&self) -> (copy: CpuStats) {
        CpuStats {
            cpu_usage: self.cpu_usage.duplicate(),
            system_cpu_usage: self.system_cpu_usage.duplicate(),
            online_cpus: self.online_cpus.duplicate(),
            throttling_data: self.throttling_data.duplicate(),
        }
    }
}

impl Clone for CpuStats {
    fn clone(&self) -> (copy: Self)
        ensures
            copy@ == self@,
    {
        self.duplicate()
    }
}

impl Default for CpuStats {
    fn default() -> (r: Self)
        ensures
            r@ == blank_of::<CpuStats>(),
    {
        <CpuStats>::absent()
    }
}

/// CPU time consumed, in total and per core.
#[derive(Debug, PartialEq)]
pub struct CpuUsage {
    pub total_usage: u64,
    pub percpu_usage: Vec<u64>,
    pub usage_in_kernelmode: u64,
    pub usage_in_usermode: u64,
}

/// The mathematical value of a [`CpuUsage`].
pub ghost struct CpuUsageView {
    pub total_usage: u64,
    pub percpu_usage: Seq<u64>,
    pub usage_in_kernelmode: u64,
    pub usage_in_usermode: u64,
}

impl DeepView for CpuUsage {
    type V = CpuUsageView;

    open spec fn deep_view(&self) -> CpuUsageView {
        CpuUsageView {
            total_usage: self.total_usage.deep_view(),
            percpu_usage: self.percpu_usage.deep_view(),
            usage_in_kernelmode: self.usage_in_kernelmode.deep_view(),
            usage_in_usermode: self.usage_in_usermode.deep_view(),
        }
    }
}

impl View for CpuUsage {
    type V = CpuUsageView;

    open spec fn view(&self) -> CpuUsageView {
        self.deep_view()
    }
}

impl FromJson for CpuUsage {
    open spec fn decoded(document: JsonValue) -> Option<CpuUsageView> {
        if document is Object
            && field_of::<u64>(document, "total_usage"@) is Some
            && field_of::<Vec<u64>>(document, "percpu_usage"@) is Some
            && field_of::<u64>(document, "usage_in_kernelmode"@) is Some
            && field_of::<u64>(document, "usage_in_usermode"@) is Some {
            Some(
                CpuUsageView {
                    total_usage: field_of::<u64>(document, "total_usage"@)->0,
                    percpu_usage: field_of::<Vec<u64>>(document, "percpu_usage"@)->0,
                    usage_in_kernelmode: field_of::<u64>(document, "usage_in_kernelmode"@)->0,
                    usage_in_usermode: field_of::<u64>(document, "usage_in_usermode"@)->0,
                },
            )
        } else {
            None
        }
    }

    open spec fn blank() -> CpuUsageView {
        CpuUsageView {
            total_usage: blank_of::<u64>(),
            percpu_usage: blank_of::<Vec<u64>>(),
            usage_in_kernelmode: blank_of::<u64>(),
            usage_in_usermode: blank_of::<u64>(),
        }
    }

    fn from_json(document: &Json) -> (r: Option<CpuUsage>) {
        match document {
            Json::Object(_) => {},
            _ => {
                return None;
            },
        }
        let total_usage = field::<u64>(document, "total_usage")?;
        let percpu_usage = field::<Vec<u64>>(document, "percpu_usage")?;
        let usage_in_kernelmode = field::<u64>(document, "usage_in_kernelmode")?;
        let usage_in_usermode = field::<u64>(document, "usage_in_usermode")?;
        Some(CpuUsage { total_usage, percpu_usage, usage_in_kernelmode, usage_in_usermode })
    }

    fn absent() -> (r: CpuUsage) {
        CpuUsage {
            total_usage: <u64>::absent(),
            percpu_usage: <Vec<u64>>::absent(),
            usage_in_kernelmode: <u64>::absent(),
            usage_in_usermode: <u64>::absent(),
        }
    }

    open spec fn sound(value: CpuUsageView) -> bool {
        sound_of::<u64>(value.total_usage)
            && sound_of::<Vec<u64>>(value.percpu_usage)
            && sound_of::<u64>(value.usage_in_kernelmode)
            && sound_of::<u64>(value.usage_in_usermode)
    }

    proof fn lemma_decoded_sound(document: JsonValue) {
        lemma_field_sound::<u64>(document, "total_usage"@);
        lemma_field_sound::<Vec<u64>>(document, "percpu_usage"@);
        lemma_field_sound::<u64>(document, "usage_in_kernelmode"@);
        lemma_field_sound::<u64>(document, "usage_in_usermode"@);
    }

    proof fn lemma_blank_sound() {
        <Vec<u64>>::lemma_blank_sound();
        <u64>::lemma_blank_sound();
    }
}

impl Duplicate for CpuUsage {
    fn duplicate(&self) -> (copy: CpuUsage) {
        CpuUsage {
            total_usage: self.total_usage.duplicate(),
            percpu_usage: self.percpu_usage.duplicate(),
            usage_in_kernelmode: self.usage_in_kernelmode.duplicate(),
            usage_in_usermode: self.usage_in_usermode.duplicate(),
        }
    }
}

impl Clone for CpuUsage {
    fn clone(&self) -> (copy: Self)
        ensures
            copy@ == self@,
    {
        self.duplicate()
    }
}

impl Default for CpuUsage {
    fn default() -> (r: Self)
        ensures
            r@ == blank_of::<CpuUsage>(),
    {
        <CpuUsage>::absent()
    }
}

/// How often the container was throttled.
#[derive(Debug, PartialEq)]
pub struct ThrottlingData {
    pub periods: u64,
    pub throttled_periods: u64,
    pub throttled_time: u64,
}

/// The mathematical value of a [`ThrottlingData`].
pub ghost struct ThrottlingDataView {
    pub periods: u64,
    pub throttled_periods: u64,
    pub throttled_time: u64,
}

impl DeepView for ThrottlingData {
    type V = ThrottlingDataView;

    open spec fn deep_view(&self) -> ThrottlingDataView {
        ThrottlingDataView {
            periods: self.periods.deep_view(),
            throttled_periods: self.throttled_periods.deep_view(),
            throttled_time: self.throttled_time.deep_view(),
        }
    }
}

impl View for ThrottlingData {
    type V = ThrottlingDataView;

    open spec fn view(&self) -> ThrottlingDataView {
        self.deep_view()
    }
}

impl FromJson for ThrottlingData {
    open spec fn decoded(document: JsonValue) -> Option<ThrottlingDataView> {
        if document is Object
            && field_of::<u64>(document, "periods"@) is Some
            && field_of::<u64>(document, "throttled_periods"@) is Some
            && field_of::<u64>(document, "throttled_time"@) is Some {
            Some(
                ThrottlingDataView {
                    periods: field_of::<u64>(document, "periods"@)->0,
                    throttled_periods: field_of::<u64>(document, "throttled_periods"@)->0,
                    throttled_time: field_of::<u64>(document, "throttled_time"@)->0,
                },
            )
        } else {
            None
        }
    }

    open spec fn blank() -> ThrottlingDataView {
        ThrottlingDataView {
            periods: blank_of::<u64>(),
            throttled_periods: blank_of::<u64>(),
            throttled_time: blank_of::<u64>(),
        }
    }

    fn from_json(document: &Json) -> (r: Option<ThrottlingData>) {
        match document {
            Json::Object(_) => {},
            _ => {
                return None;
            },
        }
        let periods = field::<u64>(document, "periods")?;
        let throttled_periods = field::<u64>(document, "throttled_periods")?;
        let throttled_time = field::<u64>(document, "throttled_time")?;
        Some(ThrottlingData { periods, throttled_periods, throttled_time })
    }

    fn absent() -> (r: ThrottlingData) {
        ThrottlingData {
            periods: <u64>::absent(),
            throttled_periods: <u64>::absent(),
            throttled_time: <u64>::absent(),
        }
    }

    open spec fn sound(value: ThrottlingDataView) -> bool {
        sound_of::<u64>(value.periods)
            && sound_of::<u64>(value.throttled_periods)
            && sound_of::<u64>(value.throttled_time)
    }

    proof fn lemma_decoded_sound(document: JsonValue) {
        lemma_field_sound::<u64>(document, "periods"@);
        lemma_field_sound::<u64>(document, "throttled_periods"@);
        lemma_field_sound::<u64>(document, "throttled_time"@);
    }

    proof fn lemma_blank_sound() {
        <u64>::lemma_blank_sound();
    }
}

impl Duplicate for ThrottlingData {
    fn duplicate(&self) -> (copy: ThrottlingData) {
        ThrottlingData {
            periods: self.periods.duplicate(),
            throttled_periods: self.throttled_periods.duplicate(),
            throttled_time: self.throttled_time.duplicate(),
        }
    }
}

impl Clone for ThrottlingData {
    fn clone(&self) -> (copy: Self)
        ensures
            copy@ == self@,
    {
        self.duplicate()
    }
}

impl Default for ThrottlingData {
    fn default() -> (r: Self)
        ensures
            r@ == blank_of::<ThrottlingData>(),
    {
        <ThrottlingData>::absent()
    }
}

} // verus!
