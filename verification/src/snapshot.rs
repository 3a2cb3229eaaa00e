//! The data model of a host snapshot: one observation of the machine, taken in
//! one refresh window and never changed afterwards.
//!
//! All quantities are kept in bytes; CPU utilisation is kept in hundredths of
//! a percent so that it can be held and rendered exactly.

use vstd::prelude::*;

verus! {

/// Largest utilisation of one logical CPU, in hundredths of a percent.
pub const FULL_USAGE_HUNDREDTHS: u64 = 10000;

/// Utilisation of one logical CPU.
#[derive(Clone, Debug, PartialEq, Eq)]
pub struct CpuSample {
    pub name: String,
    /// Utilisation in hundredths of a percent.
    pub usage_hundredths: u64,
}

/// Physical memory totals, in bytes.
#[derive(Clone, Copy, Debug, PartialEq, Eq)]
pub struct MemorySample {
    pub total_bytes: u64,
    pub used_bytes: u64,
    pub free_bytes: u64,
}

/// Capacity of one mounted disk, in bytes.
#[derive(Clone, Debug, PartialEq, Eq)]
pub struct DiskSample {
    pub name: String,
    pub total_bytes: u64,
    pub available_bytes: u64,
}

/// Cumulative traffic of one network interface since it came up, in bytes.
#[derive(Clone, Debug, PartialEq, Eq)]
pub struct NetSample {
    pub interface_name: String,
    pub received_bytes: u64,
    pub transmitted_bytes: u64,
}

/// One observation of the host. The three sequences keep the order in which
/// the metrics source reported their items.
#[derive(Clone, Debug, PartialEq, Eq)]
pub struct Snapshot {
    pub os_name: Option<String>,
    pub kernel_version: Option<String>,
    pub os_version: Option<String>,
    pub host_name: Option<String>,
    pub cpus: Vec<CpuSample>,
    pub memory: MemorySample,
    pub disks: Vec<DiskSample>,
    pub networks: Vec<NetSample>,
}

/// Mathematical model of a [`CpuSample`].
pub ghost struct CpuView {
    pub name: Seq<char>,
    pub usage_hundredths: nat,
}

/// Mathematical model of a [`MemorySample`].
pub ghost struct MemoryView {
    pub total_bytes: nat,
    pub used_bytes: nat,
    pub free_bytes: nat,
}

/// Mathematical model of a [`DiskSample`].
pub ghost struct DiskView {
    pub name: Seq<char>,
    pub total_bytes: nat,
    pub available_bytes: nat,
}

/// Mathematical model of a [`NetSample`].
pub ghost struct NetView {
    pub interface_name: Seq<char>,
    pub received_bytes: nat,
    pub transmitted_bytes: nat,
}

/// Mathematical model of a [`Snapshot`].
pub ghost struct SnapshotView {
    pub os_name: Option<Seq<char>>,
    pub kernel_version: Option<Seq<char>>,
    pub os_version: Option<Seq<char>>,
    pub host_name: Option<Seq<char>>,
    pub cpus: Seq<CpuView>,
    pub memory: MemoryView,
    pub disks: Seq<DiskView>,
    pub networks: Seq<NetView>,
}

/// The model of an optional string.
pub open spec fn text_of(s: Option<String>) -> Option<Seq<char>> {
    match s {
        Some(t) => Some(t@),
        None => None,
    }
}

/// The models of a sequence of CPU samples, in the same order.
pub open spec fn cpu_views(samples: Seq<CpuSample>) -> Seq<CpuView> {
    samples.map_values(|c: CpuSample| c@)
}

/// The models of a sequence of disk samples, in the same order.
pub open spec fn disk_views(samples: Seq<DiskSample>) -> Seq<DiskView> {
    samples.map_values(|d: DiskSample| d@)
}

/// The models of a sequence of network samples, in the same order.
pub open spec fn net_views(samples: Seq<NetSample>) -> Seq<NetView> {
    samples.map_values(|n: NetSample| n@)
}

impl CpuView {
    /// A named CPU whose utilisation lies between 0 % and 100 %.
    pub open spec fn well_formed(self) -> bool {
        self.name.len() > 0 && self.usage_hundredths <= FULL_USAGE_HUNDREDTHS
    }
}

impl MemoryView {
    /// Used and free memory together do not exceed the total.
    pub open spec fn well_formed(self) -> bool {
        self.used_bytes + self.free_bytes <= self.total_bytes
    }
}

impl DiskView {
    /// No more space is available than the disk holds.
    pub open spec fn well_formed(self) -> bool {
        self.available_bytes <= self.total_bytes
    }
}

impl SnapshotView {
    /// Every sample of the snapshot is well formed.
    pub open spec fn well_formed(self) -> bool {
        &&& forall|i: int| 0 <= i < self.cpus.len() ==> (#[trigger] self.cpus[i]).well_formed()
        &&& self.memory.well_formed()
        &&& forall|i: int| 0 <= i < self.disks.len() ==> (#[trigger] self.disks[i]).well_formed()
    }
}

impl View for CpuSample {
    type V = CpuView;

    open spec fn view(&self) -> CpuView {
        CpuView { name: self.name@, usage_hundredths: self.usage_hundredths as nat }
    }
}

impl View for MemorySample {
    type V = MemoryView;

    open spec fn view(&self) -> MemoryView {
        MemoryView {
            total_bytes: self.total_bytes as nat,
            used_bytes: self.used_bytes as nat,
            free_bytes: self.free_bytes as nat,
        }
    }
}

impl View for DiskSample {
    type V = DiskView;

    open spec fn view(&self) -> DiskView {
        DiskView {
            name: self.name@,
            total_bytes: self.total_bytes as nat,
            available_bytes: self.available_bytes as nat,
        }
    }
}

impl View for NetSample {
    type V = NetView;

    open spec fn view(&self) -> NetView {
        NetView {
            interface_name: self.interface_name@,
            received_bytes: self.received_bytes as nat,
            transmitted_bytes: self.transmitted_bytes as nat,
        }
    }
}

impl View for Snapshot {
    type V = SnapshotView;

    open spec fn view(&self) -> SnapshotView {
        SnapshotView {
            os_name: text_of(self.os_name),
            kernel_version: text_of(self.kernel_version),
            os_version: text_of(self.os_version),
            host_name: text_of(self.host_name),
            cpus: cpu_views(self.cpus@),
            memory: self.memory@,
            disks: disk_views(self.disks@),
            networks: net_views(self.networks@),
        }
    }
}

impl CpuSample {
    /// Whether the CPU is named and its utilisation lies between 0 % and 100 %.
    pub fn is_well_formed(&self) -> (ok: bool)
        ensures
            ok == self@.well_formed(),
    {
        !self.name.as_str().is_empty() && self.usage_hundredths <= FULL_USAGE_HUNDREDTHS
    }
}

impl MemorySample {
    /// Whether used and free memory together do not exceed the total.
    pub fn is_well_formed(&self) -> (ok: bool)
        ensures
            ok == self@.well_formed(),
    {
        self.used_bytes <= self.total_bytes && self.free_bytes <= self.total_bytes
            - self.used_bytes
    }
}

impl DiskSample {
    /// Whether no more space is available than the disk holds.
    pub fn is_well_formed(&self) -> (ok: bool)
        ensures
            ok == self@.well_formed(),
    {
        self.available_bytes <= self.total_bytes
    }
}

impl Snapshot {
    /// Whether every sample of the snapshot is well formed.
    pub fn is_well_formed(&self) -> (ok: bool)
        ensures
            ok == self@.well_formed(),
    {
        let mut i: usize = 0;
        while i < self.cpus.len()
            invariant
                i <= self.cpus.len(),
                forall|k: int| 0 <= k < i ==> (#[trigger] self@.cpus[k]).well_formed(),
            decreases self.cpus.len() - i,
        {
            if !self.cpus[i].is_well_formed() {
                assert(!self@.cpus[i as int].well_formed());
                return false;
            }
            i += 1;
        }
        if !self.memory.is_well_formed() {
            return false;
        }
        let mut j: usize = 0;
        while j < self.disks.len()
            invariant
                j <= self.disks.len(),
                forall|k: int| 0 <= k < j ==> (#[trigger] self@.disks[k]).well_formed(),
            decreases self.disks.len() - j,
        {
            if !self.disks[j].is_well_formed() {
                assert(!self@.disks[j as int].well_formed());
                return false;
            }
            j += 1;
        }
        true
    }
}

} // verus!
