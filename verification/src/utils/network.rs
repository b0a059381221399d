//! The network probe.

use crate::snapshot::Snapshot;
use vstd::prelude::*;

verus! {

/// One network interface of the machine.
#[derive(Debug, PartialEq, Eq)]
pub struct NetworkInterface {
    /// The name of the interface.
    pub itf_name: String,
    /// The MAC address of the interface.
    pub mac_addr: String,
    /// The IP networks of the interface, each as `address/prefix`.
    pub ip_networks: Vec<String>,
}

/// The network interfaces of the machine.
#[derive(Debug, PartialEq, Eq)]
pub struct NetworksInfo {
    /// The number of interfaces.
    pub total_interfaces: usize,
    /// The interfaces, in enumeration order.
    pub interfaces: Vec<NetworkInterface>,
}

/// What a `NetworkInterface` says: its fields, with texts and lists as sequences.
pub ghost struct NetworkInterfaceModel {
    pub itf_name: Seq<char>,
    pub mac_addr: Seq<char>,
    pub ip_networks: Seq<Seq<char>>,
}

/// What a `NetworksInfo` says: its fields, with texts and lists as sequences.
pub ghost struct NetworksInfoModel {
    pub total_interfaces: usize,
    pub interfaces: Seq<NetworkInterfaceModel>,
}

impl DeepView for NetworkInterface {
    type V = NetworkInterfaceModel;

    open spec fn deep_view(&self) -> NetworkInterfaceModel {
        NetworkInterfaceModel {
            itf_name: self.itf_name@,
            mac_addr: self.mac_addr@,
            ip_networks: self.ip_networks.deep_view(),
        }
    }
}

impl DeepView for NetworksInfo {
    type V = NetworksInfoModel;

    open spec fn deep_view(&self) -> NetworksInfoModel {
        NetworksInfoModel {
            total_interfaces: self.total_interfaces,
            interfaces: self.interfaces.deep_view(),
        }
    }
}

impl Snapshot for NetworkInterface {
    fn duplicate(&self) -> (copy: NetworkInterface) {
        NetworkInterface {
            itf_name: self.itf_name.clone(),
            mac_addr: self.mac_addr.clone(),
            ip_networks: self.ip_networks.duplicate(),
        }
    }
}

impl Snapshot for NetworksInfo {
    fn duplicate(&self) -> (copy: NetworksInfo) {
        NetworksInfo {
            total_interfaces: self.total_interfaces,
            interfaces: self.interfaces.duplicate(),
        }
    }
}

impl NetworksInfo {
    /// Whether the count is the number of interfaces.
    pub open spec fn wf(&self) -> bool {
        self.total_interfaces == self.interfaces@.len()
    }

    /// The snapshot of the interfaces that were enumerated: the same
    /// interfaces in the same order, and their number.
    pub fn get(interfaces: Vec<NetworkInterface>) -> (info: NetworksInfo)
        ensures
            info.interfaces == interfaces,
            info.total_interfaces == interfaces@.len(),
            info.wf(),
    {
        NetworksInfo { total_interfaces: interfaces.len(), interfaces }
    }
}

} // verus!
