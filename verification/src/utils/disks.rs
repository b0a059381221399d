//! The disk probe.

use crate::snapshot::Snapshot;
use crate::text::{push_char, push_signed_decimal, signed_decimal};
use vstd::prelude::*;

verus! {

/// The kind of a disk.
#[derive(Clone, Copy, Debug, PartialEq, Eq, Structural)]
pub enum DiskKind {
    /// A hard disk drive.
    HDD,
    /// A solid state drive.
    SSD,
    /// Some other kind, with the code the system gave it.
    Unknown(isize),
}

impl DiskKind {
    /// The name under which the kind is shown.
    pub open spec fn label(self) -> Seq<char> {
        match self {
            DiskKind::HDD => "Hard Disk Drive (HDD)"@,
            DiskKind::SSD => "Solid State Drive (SDD)"@,
            DiskKind::Unknown(n) => "Unknown("@ + signed_decimal(n as int) + seq![')'],
        }
    }

    /// The label as a string.
    pub fn to_string(&self) -> (s: String)
        ensures
            s@ == self.label(),
    {
        match self {
            DiskKind::HDD => String::from_str("Hard Disk Drive (HDD)"),
            DiskKind::SSD => String::from_str("Solid State Drive (SDD)"),
            DiskKind::Unknown(n) => {
                let mut s = String::from_str("Unknown(");
                push_signed_decimal(&mut s, *n as i64);
                push_char(&mut s, ')');
                s
            },
        }
    }
}

/// One disk of the machine.
#[derive(Debug, PartialEq, Eq)]
pub struct Disk {
    /// The name of the disk.
    pub name: String,
    /// The file system of the disk (`ext4`, `NTFS`, ...).
    pub file_system: String,
    /// The mount point of the disk.
    pub mount_point: String,
    /// The size of the disk in bytes.
    pub total_space: u64,
    /// The space that is free on the disk, in bytes.
    pub available_space: u64,
    /// The kind of disk.
    pub kind: DiskKind,
}

/// The disks of the machine.
#[derive(Debug, PartialEq, Eq)]
pub struct DisksInfo {
    /// The number of disks.
    pub count: u64,
    /// The disks, in enumeration order.
    pub disks: Vec<Disk>,
}

/// What a `Disk` says: its fields, with texts and lists as sequences.
pub ghost struct DiskModel {
    pub name: Seq<char>,
    pub file_system: Seq<char>,
    pub mount_point: Seq<char>,
    pub total_space: u64,
    pub available_space: u64,
    pub kind: DiskKind,
}

/// What a `DisksInfo` says: its fields, with texts and lists as sequences.
pub ghost struct DisksInfoModel {
    pub count: u64,
    pub disks: Seq<DiskModel>,
}

impl DeepView for Disk {
    type V = DiskModel;

    open spec fn deep_view(&self) -> DiskModel {
        DiskModel {
            name: self.name@,
            file_system: self.file_system@,
            mount_point: self.mount_point@,
            total_space: self.total_space,
            available_space: self.available_space,
            kind: self.kind,
        }
    }
}

impl DeepView for DisksInfo {
    type V = DisksInfoModel;

    open spec fn deep_view(&self) -> DisksInfoModel {
        DisksInfoModel { count: self.count, disks: self.disks.deep_view() }
    }
}

impl Snapshot for Disk {
    fn duplicate(&self) -> (copy: Disk) {
        Disk {
            name: self.name.clone(),
            file_system: self.file_system.clone(),
            mount_point: self.mount_point.clone(),
            total_space: self.total_space,
            available_space: self.available_space,
            kind: self.kind,
        }
    }
}

impl Snapshot for DisksInfo {
    fn duplicate(&self) -> (copy: DisksInfo) {
        DisksInfo { count: self.count, disks: self.disks.duplicate() }
    }
}

impl DisksInfo {
    /// Whether the count is the number of disks.
    pub open spec fn wf(&self) -> bool {
        self.count == self.disks@.len()
    }

    /// The snapshot of the disks that were enumerated: the same disks in the
    /// same order, and their number.
    pub fn get(disks: Vec<Disk>) -> (info: DisksInfo)
        ensures
            info.disks == disks,
            info.count == disks@.len(),
            info.wf(),
    {
        let count = disks.len();
        DisksInfo { count: count as u64, disks }
    }
}

} // verus!
