use sysprobe::utils::disks::{Disk, DiskKind, DisksInfo};
use sysprobe::utils::network::{NetworkInterface, NetworksInfo};

fn disk(name: &str, kind: DiskKind) -> Disk {
    Disk {
        name: name.to_string(),
        file_system: "ext4".to_string(),
        mount_point: format!("/mnt/{}", name),
        total_space: 1000,
        available_space: 400,
        kind,
    }
}

#[test]
fn disks_are_counted_and_kept_in_order() {
    let info = DisksInfo::get(vec![disk("sda", DiskKind::HDD), disk("nvme0", DiskKind::SSD)]);
    assert_eq!(info.count, 2);
    assert_eq!(info.disks.len(), 2);
    assert_eq!(info.disks[0], disk("sda", DiskKind::HDD));
    assert_eq!(info.disks[1], disk("nvme0", DiskKind::SSD));
}

#[test]
fn no_disk_is_an_empty_answer() {
    let info = DisksInfo::get(Vec::new());
    assert_eq!(info.count, 0);
    assert!(info.disks.is_empty());
}

#[test]
fn disk_kind_labels() {
    assert_eq!(DiskKind::HDD.to_string(), "Hard Disk Drive (HDD)");
    assert_eq!(DiskKind::SSD.to_string(), "Solid State Drive (SDD)");
    assert_eq!(DiskKind::Unknown(-1).to_string(), "Unknown(-1)");
    assert_eq!(DiskKind::Unknown(0).to_string(), "Unknown(0)");
    assert_eq!(DiskKind::Unknown(17).to_string(), "Unknown(17)");
}

#[test]
fn interfaces_are_counted_and_kept_in_order() {
    let lo = NetworkInterface {
        itf_name: "lo".to_string(),
        mac_addr: "00:00:00:00:00:00".to_string(),
        ip_networks: vec!["127.0.0.1/8".to_string(), "::1/128".to_string()],
    };
    let eth = NetworkInterface {
        itf_name: "eth0".to_string(),
        mac_addr: "52:54:00:12:34:56".to_string(),
        ip_networks: Vec::new(),
    };
    let info = NetworksInfo::get(vec![lo, eth]);
    assert_eq!(info.total_interfaces, 2);
    assert_eq!(info.interfaces[0].itf_name, "lo");
    assert_eq!(info.interfaces[0].ip_networks, vec!["127.0.0.1/8", "::1/128"]);
    assert_eq!(info.interfaces[1].itf_name, "eth0");
    assert_eq!(info.interfaces[1].mac_addr, "52:54:00:12:34:56");
    let none = NetworksInfo::get(Vec::new());
    assert_eq!(none.total_interfaces, 0);
    assert!(none.interfaces.is_empty());
}
