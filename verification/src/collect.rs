//! The snapshot assembler: one read of the host and the results of the
//! network probes, merged into one snapshot.

use vstd::prelude::*;
use vstd::string::*;
use crate::models::{
    opt_text, DiskInfo, DiskInfoView, NetworkDetails, NetworkDetailsView, NetworkInfo,
    NetworkInfoView, SystemInfo, SystemInfoView,
};

verus! {

/// The byte counters of one interface, as the host reports them.
#[derive(Debug, Clone)]
pub struct InterfaceCounters {
    pub interface_name: String,
    pub received_bytes: u64,
    pub transmitted_bytes: u64,
}

/// The mathematical value of an [`InterfaceCounters`].
pub struct InterfaceCountersView {
    pub interface_name: Seq<char>,
    pub received_bytes: nat,
    pub transmitted_bytes: nat,
}

impl View for InterfaceCounters {
    type V = InterfaceCountersView;

    open spec fn view(&self) -> InterfaceCountersView {
        InterfaceCountersView {
            interface_name: self.interface_name@,
            received_bytes: self.received_bytes as nat,
            transmitted_bytes: self.transmitted_bytes as nat,
        }
    }
}

/// One read of the host. A name that the host does not tell is absent.
#[derive(Debug, Clone)]
pub struct HostMetrics {
    pub os_name: Option<String>,
    pub os_version: Option<String>,
    pub kernel_version: Option<String>,
    pub hostname: Option<String>,
    pub cpu_brand: Option<String>,
    pub cpu_count: usize,
    pub total_memory: u64,
    pub used_memory: u64,
    pub total_swap: u64,
    pub used_swap: u64,
    pub disks: Vec<DiskInfo>,
    pub networks: Vec<InterfaceCounters>,
    pub processes_count: usize,
    pub uptime: u64,
}

/// The mathematical value of a [`HostMetrics`].
pub struct HostMetricsView {
    pub os_name: Option<Seq<char>>,
    pub os_version: Option<Seq<char>>,
    pub kernel_version: Option<Seq<char>>,
    pub hostname: Option<Seq<char>>,
    pub cpu_brand: Option<Seq<char>>,
    pub cpu_count: nat,
    pub total_memory: nat,
    pub used_memory: nat,
    pub total_swap: nat,
    pub used_swap: nat,
    pub disks: Seq<DiskInfoView>,
    pub networks: Seq<InterfaceCountersView>,
    pub processes_count: nat,
    pub uptime: nat,
}

impl View for HostMetrics {
    type V = HostMetricsView;

    open spec fn view(&self) -> HostMetricsView {
        HostMetricsView {
            os_name: opt_text(self.os_name),
            os_version: opt_text(self.os_version),
            kernel_version: opt_text(self.kernel_version),
            hostname: opt_text(self.hostname),
            cpu_brand: opt_text(self.cpu_brand),
            cpu_count: self.cpu_count as nat,
            total_memory: self.total_memory as nat,
            used_memory: self.used_memory as nat,
            total_swap: self.total_swap as nat,
            used_swap: self.used_swap as nat,
            disks: self.disks@.map_values(|d: DiskInfo| d@),
            networks: self.networks@.map_values(|n: InterfaceCounters| n@),
            processes_count: self.processes_count as nat,
            uptime: self.uptime as nat,
        }
    }
}

/// A name, or the word that stands for a name that is not known.
pub open spec fn or_unknown(name: Option<Seq<char>>) -> Seq<char> {
    match name {
        Some(text) => text,
        None => "Unknown"@,
    }
}

/// The entry of the snapshot for an interface. The host tells no address
/// of a single interface.
pub open spec fn interface_entry(counters: InterfaceCountersView) -> NetworkInfoView {
    NetworkInfoView {
        interface_name: counters.interface_name,
        received_bytes: counters.received_bytes,
        transmitted_bytes: counters.transmitted_bytes,
        ip_address: None,
    }
}

/// The snapshot that a read of the host and the results of the probes
/// make: every value of the host as it was read, `Unknown` for a name that
/// the host does not tell, the disks and the interfaces in their order, and
/// the results of the probes as they came.
pub open spec fn assembled(host: HostMetricsView, details: NetworkDetailsView) -> SystemInfoView {
    SystemInfoView {
        os_name: or_unknown(host.os_name),
        os_version: or_unknown(host.os_version),
        kernel_version: or_unknown(host.kernel_version),
        hostname: or_unknown(host.hostname),
        cpu_count: host.cpu_count,
        cpu_brand: or_unknown(host.cpu_brand),
        total_memory: host.total_memory,
        used_memory: host.used_memory,
        total_swap: host.total_swap,
        used_swap: host.used_swap,
        disks: host.disks,
        networks: host.networks.map_values(|c: InterfaceCountersView| interface_entry(c)),
        network_details: details,
        processes_count: host.processes_count,
        uptime: host.uptime,
    }
}

/// A name, or the word that stands for a name that is not known.
fn name_or_unknown(name: Option<String>) -> (r: String)
    ensures
        r@ == or_unknown(opt_text(name)),
{
    match name {
        Some(text) => text,
        None => String::from_str("Unknown"),
    }
}

impl SystemInfo {
    /// Merges one read of the host and the results of the network probes
    /// into a snapshot.
    pub fn collect(host: HostMetrics, network_details: NetworkDetails) -> (info: SystemInfo)
        ensures
            info@ == assembled(host@, network_details@),
    {
        let ghost wanted = assembled(host@, network_details@);
        let mut networks: Vec<NetworkInfo> = Vec::new();
        let mut i: usize = 0;
        while i < host.networks.len()
            invariant
                i <= host.networks.len(),
                wanted == assembled(host@, network_details@),
                networks@.map_values(|n: NetworkInfo| n@) == wanted.networks.take(i as int),
            decreases host.networks.len() - i,
        {
            let counters = &host.networks[i];
            let entry = NetworkInfo {
                interface_name: counters.interface_name.clone(),
                received_bytes: counters.received_bytes,
                transmitted_bytes: counters.transmitted_bytes,
                ip_address: None,
            };
            assert(entry@ == wanted.networks[i as int]);
            let ghost before = networks@.map_values(|n: NetworkInfo| n@);
            networks.push(entry);
            i += 1;
            assert(networks@.map_values(|n: NetworkInfo| n@) =~= before.push(entry@));
            assert(wanted.networks.take(i as int) =~= before.push(entry@));
        }
        assert(wanted.networks.take(i as int) =~= wanted.networks);
        SystemInfo {
            os_name: name_or_unknown(host.os_name),
            os_version: name_or_unknown(host.os_version),
            kernel_version: name_or_unknown(host.kernel_version),
            hostname: name_or_unknown(host.hostname),
            cpu_count: host.cpu_count,
            cpu_brand: name_or_unknown(host.cpu_brand),
            total_memory: host.total_memory,
            used_memory: host.used_memory,
            total_swap: host.total_swap,
            used_swap: host.used_swap,
            disks: host.disks,
            networks,
            network_details,
            processes_count: host.processes_count,
            uptime: host.uptime,
        }
    }
}

} // verus!
