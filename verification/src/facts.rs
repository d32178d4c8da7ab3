//! The host-facts snapshot that a report is assembled from.

use vstd::prelude::*;

verus! {

/// One mounted disk: its name and its available and total space in bytes.
#[derive(Debug)]
pub struct DiskFact {
    pub name: String,
    pub available: u64,
    pub total: u64,
}

/// The mathematical view of a disk fact.
pub struct DiskFactView {
    pub name: Seq<char>,
    pub available: u64,
    pub total: u64,
}

impl View for DiskFact {
    type V = DiskFactView;

    open spec fn view(&self) -> DiskFactView {
        DiskFactView { name: self.name@, available: self.available, total: self.total }
    }
}

impl DeepView for DiskFact {
    type V = DiskFactView;

    open spec fn deep_view(&self) -> DiskFactView {
        self.view()
    }
}

/// One point-in-time snapshot of the facts the report reads.
///
/// Textual facts the provider may not know are `None` and degrade to a
/// placeholder; a local address or terminal size that cannot be obtained
/// is also `None`, but is fatal to assembly.
#[derive(Debug)]
pub struct HostFacts {
    pub hostname: Option<String>,
    pub system_name: Option<String>,
    pub distribution_id: String,
    pub kernel_version: Option<String>,
    pub os_version: Option<String>,
    pub used_memory: u64,
    pub total_memory: u64,
    pub used_swap: u64,
    pub total_swap: u64,
    pub boot_time: u64,
    pub terminal: Option<(u64, u64)>,
    pub local_ip: Option<String>,
    pub cpu_count: u64,
    pub process_count: u64,
    pub disks: Vec<DiskFact>,
}

/// The mathematical view of a snapshot.
pub struct FactsView {
    pub hostname: Option<Seq<char>>,
    pub system_name: Option<Seq<char>>,
    pub distribution_id: Seq<char>,
    pub kernel_version: Option<Seq<char>>,
    pub os_version: Option<Seq<char>>,
    pub used_memory: u64,
    pub total_memory: u64,
    pub used_swap: u64,
    pub total_swap: u64,
    pub boot_time: u64,
    pub terminal: Option<(u64, u64)>,
    pub local_ip: Option<Seq<char>>,
    pub cpu_count: u64,
    pub process_count: u64,
    pub disks: Seq<DiskFactView>,
}

impl View for HostFacts {
    type V = FactsView;

    open spec fn view(&self) -> FactsView {
        FactsView {
            hostname: self.hostname.deep_view(),
            system_name: self.system_name.deep_view(),
            distribution_id: self.distribution_id@,
            kernel_version: self.kernel_version.deep_view(),
            os_version: self.os_version.deep_view(),
            used_memory: self.used_memory,
            total_memory: self.total_memory,
            used_swap: self.used_swap,
            total_swap: self.total_swap,
            boot_time: self.boot_time,
            terminal: self.terminal,
            local_ip: self.local_ip.deep_view(),
            cpu_count: self.cpu_count,
            process_count: self.process_count,
            disks: self.disks.deep_view(),
        }
    }
}

} // verus!
