//! The snapshot data model: one point-in-time capture of host and network
//! metrics, held as plain values.

use vstd::prelude::*;
use crate::format::{round_half_even, spec_round_half_even};

verus! {

/// One mounted disk.
#[derive(Debug, Clone)]
pub struct DiskInfo {
    pub name: String,
    pub mount_point: String,
    pub total_space: u64,
    pub available_space: u64,
    pub file_system: String,
}

/// The mathematical value of a [`DiskInfo`].
pub struct DiskInfoView {
    pub name: Seq<char>,
    pub mount_point: Seq<char>,
    pub total_space: nat,
    pub available_space: nat,
    pub file_system: Seq<char>,
}

impl View for DiskInfo {
    type V = DiskInfoView;

    open spec fn view(&self) -> DiskInfoView {
        DiskInfoView {
            name: self.name@,
            mount_point: self.mount_point@,
            total_space: self.total_space as nat,
            available_space: self.available_space as nat,
            file_system: self.file_system@,
        }
    }
}

/// The byte counters of one network interface.
#[derive(Debug, Clone)]
pub struct NetworkInfo {
    pub interface_name: String,
    pub received_bytes: u64,
    pub transmitted_bytes: u64,
    pub ip_address: Option<String>,
}

/// The mathematical value of a [`NetworkInfo`].
pub struct NetworkInfoView {
    pub interface_name: Seq<char>,
    pub received_bytes: nat,
    pub transmitted_bytes: nat,
    pub ip_address: Option<Seq<char>>,
}

/// The view of an optional string.
pub open spec fn opt_text(s: Option<String>) -> Option<Seq<char>> {
    match s {
        Some(t) => Some(t@),
        None => None,
    }
}

impl View for NetworkInfo {
    type V = NetworkInfoView;

    open spec fn view(&self) -> NetworkInfoView {
        NetworkInfoView {
            interface_name: self.interface_name@,
            received_bytes: self.received_bytes as nat,
            transmitted_bytes: self.transmitted_bytes as nat,
            ip_address: opt_text(self.ip_address),
        }
    }
}

/// A bandwidth estimate, kept as the measurement it was computed from: the
/// number of bytes received and the time the transfer took, in nanoseconds.
///
/// The rate it stands for is `bytes * 8 / (seconds * 1_000_000)` megabits per
/// second, that is `bytes * 8000 / elapsed_nanos`. An estimate is only
/// meaningful for a transfer that took time: see [`Bandwidth::wf`].
#[derive(Debug, Clone, Copy, PartialEq, Eq, Structural)]
pub struct Bandwidth {
    pub bytes: u64,
    pub elapsed_nanos: u128,
}

impl Bandwidth {
    /// Well-formedness: the transfer took time.
    pub open spec fn wf(self) -> bool {
        self.elapsed_nanos > 0
    }

    /// Whether the rate is more than `mbps` megabits per second. The rate
    /// is `bytes * 8000 / elapsed_nanos` megabits per second.
    pub open spec fn exceeds(self, mbps: nat) -> bool {
        self.bytes * 8000 > mbps * self.elapsed_nanos
    }

    /// The rate in hundredths of a megabit per second, rounded to the
    /// nearest, ties to even.
    pub open spec fn spec_centi_mbps(self) -> nat {
        spec_round_half_even(self.bytes as nat * 800000, self.elapsed_nanos as nat)
    }

    /// The rate in hundredths of a megabit per second, rounded to the
    /// nearest, ties to even.
    pub fn centi_mbps(&self) -> (r: u128)
        requires
            self.wf(),
        ensures
            r == self.spec_centi_mbps(),
    {
        round_half_even((self.bytes as u128) * 800000, self.elapsed_nanos)
    }
}

/// The results of the three network probes. Each is independently optional;
/// absence means that the probe found nothing.
#[derive(Debug, Clone)]
pub struct NetworkDetails {
    pub local_ip: Option<String>,
    pub public_ip: Option<String>,
    pub bandwidth_mbps: Option<Bandwidth>,
}

/// The mathematical value of a [`NetworkDetails`].
pub struct NetworkDetailsView {
    pub local_ip: Option<Seq<char>>,
    pub public_ip: Option<Seq<char>>,
    pub bandwidth_mbps: Option<Bandwidth>,
}

impl View for NetworkDetails {
    type V = NetworkDetailsView;

    open spec fn view(&self) -> NetworkDetailsView {
        NetworkDetailsView {
            local_ip: opt_text(self.local_ip),
            public_ip: opt_text(self.public_ip),
            bandwidth_mbps: self.bandwidth_mbps,
        }
    }
}

/// One snapshot of the host.
#[derive(Debug, Clone)]
pub struct SystemInfo {
    pub os_name: String,
    pub os_version: String,
    pub kernel_version: String,
    pub hostname: String,
    pub cpu_count: usize,
    pub cpu_brand: String,
    pub total_memory: u64,
    pub used_memory: u64,
    pub total_swap: u64,
    pub used_swap: u64,
    pub disks: Vec<DiskInfo>,
    pub networks: Vec<NetworkInfo>,
    pub network_details: NetworkDetails,
    pub processes_count: usize,
    pub uptime: u64,
}

/// The mathematical value of a [`SystemInfo`].
pub struct SystemInfoView {
    pub os_name: Seq<char>,
    pub os_version: Seq<char>,
    pub kernel_version: Seq<char>,
    pub hostname: Seq<char>,
    pub cpu_count: nat,
    pub cpu_brand: Seq<char>,
    pub total_memory: nat,
    pub used_memory: nat,
    pub total_swap: nat,
    pub used_swap: nat,
    pub disks: Seq<DiskInfoView>,
    pub networks: Seq<NetworkInfoView>,
    pub network_details: NetworkDetailsView,
    pub processes_count: nat,
    pub uptime: nat,
}

impl View for SystemInfo {
    type V = SystemInfoView;

    open spec fn view(&self) -> SystemInfoView {
        SystemInfoView {
            os_name: self.os_name@,
            os_version: self.os_version@,
            kernel_version: self.kernel_version@,
            hostname: self.hostname@,
            cpu_count: self.cpu_count as nat,
            cpu_brand: self.cpu_brand@,
            total_memory: self.total_memory as nat,
            used_memory: self.used_memory as nat,
            total_swap: self.total_swap as nat,
            used_swap: self.used_swap as nat,
            disks: self.disks@.map_values(|d: DiskInfo| d@),
            networks: self.networks@.map_values(|n: NetworkInfo| n@),
            network_details: self.network_details@,
            processes_count: self.processes_count as nat,
            uptime: self.uptime as nat,
        }
    }
}

impl SystemInfoView {
    /// What the provider of a snapshot promises of the memory: no more
    /// memory is used than there is.
    pub open spec fn memory_wf(self) -> bool {
        self.used_memory <= self.total_memory
    }

    /// What the provider of a snapshot promises of the swap: no more swap is
    /// used than there is.
    pub open spec fn swap_wf(self) -> bool {
        self.used_swap <= self.total_swap
    }

    /// What the arithmetic on the disks needs: no disk has more space
    /// available than it has in all.
    pub open spec fn disks_wf(self) -> bool {
        forall|i: int|
            0 <= i < self.disks.len() ==> (#[trigger] self.disks[i]).available_space
                <= self.disks[i].total_space
    }

    /// What the arithmetic on the network needs: the traffic of an
    /// interface in both directions can be added up in 64 bits, and a
    /// bandwidth estimate comes from a transfer that took time.
    pub open spec fn networks_wf(self) -> bool {
        &&& self.network_details.bandwidth_mbps matches Some(b) ==> b.wf()
        &&& forall|i: int|
            0 <= i < self.networks.len() ==> (#[trigger] self.networks[i]).received_bytes
                + self.networks[i].transmitted_bytes <= u64::MAX
    }

    /// All of the above: what every view of the snapshot together needs.
    pub open spec fn wf(self) -> bool {
        &&& self.memory_wf()
        &&& self.swap_wf()
        &&& self.disks_wf()
        &&& self.networks_wf()
    }
}

impl SystemInfo {
    /// Tells whether no more memory is used than there is.
    pub fn memory_is_consistent(&self) -> (r: bool)
        ensures
            r == self@.memory_wf(),
    {
        self.used_memory <= self.total_memory
    }

    /// Tells whether no more swap is used than there is.
    pub fn swap_is_consistent(&self) -> (r: bool)
        ensures
            r == self@.swap_wf(),
    {
        self.used_swap <= self.total_swap
    }

    /// Tells whether no disk has more space available than it has in all.
    pub fn disks_are_consistent(&self) -> (r: bool)
        ensures
            r == self@.disks_wf(),
    {
        let mut i: usize = 0;
        while i < self.disks.len()
            invariant
                i <= self.disks.len(),
                forall|j: int|
                    0 <= j < i ==> (#[trigger] self@.disks[j]).available_space
                        <= self@.disks[j].total_space,
            decreases self.disks.len() - i,
        {
            if self.disks[i].available_space > self.disks[i].total_space {
                assert(self@.disks[i as int].available_space > self@.disks[i as int].total_space);
                return false;
            }
            i += 1;
        }
        true
    }

    /// Tells whether the traffic of every interface can be added up in 64
    /// bits, and the bandwidth estimate, if there is one, comes from a
    /// transfer that took time.
    pub fn networks_are_consistent(&self) -> (r: bool)
        ensures
            r == self@.networks_wf(),
    {
        match self.network_details.bandwidth_mbps {
            Some(b) => {
                if b.elapsed_nanos == 0 {
                    return false;
                }
            },
            None => {},
        }
        let mut k: usize = 0;
        while k < self.networks.len()
            invariant
                k <= self.networks.len(),
                forall|j: int|
                    0 <= j < k ==> (#[trigger] self@.networks[j]).received_bytes
                        + self@.networks[j].transmitted_bytes <= u64::MAX,
            decreases self.networks.len() - k,
        {
            let n = &self.networks[k];
            if n.received_bytes > u64::MAX - n.transmitted_bytes {
                assert(self@.networks[k as int].received_bytes
                    + self@.networks[k as int].transmitted_bytes > u64::MAX);
                return false;
            }
            k += 1;
        }
        true
    }

    /// Tells whether the snapshot is consistent in every respect, in the
    /// sense of [`SystemInfoView::wf`].
    pub fn is_consistent(&self) -> (r: bool)
        ensures
            r == self@.wf(),
    {
        self.memory_is_consistent() && self.swap_is_consistent() && self.disks_are_consistent()
            && self.networks_are_consistent()
    }
}

} // verus!
