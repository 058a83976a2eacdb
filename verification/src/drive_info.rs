//! The list of volumes, as it is built from the disk listing of the
//! operating system.

use crate::disk::{drive_type_of, DiskKind, DriveInfo, DriveType};
use crate::errors::UFFSError;
use vstd::prelude::*;
use vstd::string::*;

verus! {

/// One entry of the disk listing of the operating system.
#[derive(Debug, Clone, PartialEq, Eq, Hash)]
pub struct ListedDisk {
    /// The name of the disk, such as `sda1`.
    pub name: String,
    /// Where the disk is mounted.
    pub mount_point: String,
    pub kind: DiskKind,
    /// The size of the disk in bytes.
    pub total_space: usize,
    /// The bytes of it that are free.
    pub available_space: usize,
}

impl ListedDisk {
    /// A disk never has more free bytes than it has bytes.
    pub open spec fn wf(&self) -> bool {
        self.available_space <= self.total_space
    }
}

/// Whether `c` is one of the letters `a` to `z` or `A` to `Z`.
pub open spec fn is_ascii_letter(c: char) -> bool {
    ('a' <= c && c <= 'z') || ('A' <= c && c <= 'Z')
}

/// The capital of a letter between `a` and `z`; any other character itself.
pub open spec fn ascii_upper(c: char) -> char {
    if 'a' <= c && c <= 'z' {
        ((c as u8 - 32) as u8) as char
    } else {
        c
    }
}

/// The drive letter that a path starts with, in capitals and with its
/// colon: a path has one where its first character is a letter between `a`
/// and `z` or `A` and `Z` and its second a colon.
pub open spec fn drive_letter_of(path: Seq<char>) -> Option<Seq<char>> {
    if path.len() >= 2 && is_ascii_letter(path[0]) && path[1] == ':' {
        Some(seq![ascii_upper(path[0]), ':'])
    } else {
        None
    }
}

/// The drive letter that `path` starts with, if it starts with one. A path
/// that starts with anything else, such as the mount point of a network
/// share or a path below `/`, has none.
pub fn get_drive_letter(path: &str) -> (letter: Option<String>)
    ensures
        match drive_letter_of(path@) {
            Some(text) => letter matches Some(found) && found@ == text,
            None => letter is None,
        },
{
    if path.unicode_len() < 2 {
        return None;
    }
    let first = path.get_char(0);
    let second = path.get_char(1);
    if second != ':' {
        return None;
    }
    let capital = if 'a' <= first && first <= 'z' {
        ((first as u8) - 32) as char
    } else if 'A' <= first && first <= 'Z' {
        first
    } else {
        return None;
    };
    let mut letter = String::new();
    letter.push(capital);
    letter.push(':');
    Some(letter)
}

/// Whether `drive` is the volume that the listing entry `disk` stands for,
/// with nothing added: name, root path, sizes, kind and drive letter are
/// those of the entry, and every other field is empty.
pub open spec fn is_skeleton_of(drive: DriveInfo, disk: ListedDisk) -> bool {
    &&& drive.root_path@ == disk.mount_point@
    &&& drive.drive_name@ == disk.name@
    &&& drive.total_space == disk.total_space
    &&& drive.available_space == disk.available_space
    &&& drive.drive_type == drive_type_of(disk.kind)
    &&& match drive_letter_of(disk.mount_point@) {
        Some(text) => drive.drive_letter matches Some(found) && found@ == text,
        None => drive.drive_letter is None,
    }
    &&& drive.is_skeleton()
}

/// The volume that a listing entry stands for, with nothing added.
pub fn skeleton_of(disk: &ListedDisk) -> (drive: DriveInfo)
    ensures
        is_skeleton_of(drive, *disk),
        disk.wf() ==> drive.wf(),
{
    DriveInfo {
        root_path: String::from_str(disk.mount_point.as_str()),
        total_space: disk.total_space,
        available_space: disk.available_space,
        drive_type: DriveType::from(disk.kind),
        drive_name: String::from_str(disk.name.as_str()),
        file_system_type: None,
        num_files: 0,
        num_dirs: 0,
        time_nanoseconds: 0,
        uuid: None,
        serial_number: None,
        mount_point: None,
        sector_size: None,
        block_size: None,
        cylinders: None,
        tracks_per_cylinder: None,
        sectors_per_track: None,
        bytes_per_sector: None,
        media_type: None,
        volume_serial_number: None,
        volume_name: None,
        ntfs_version: None,
        physical_device_path: None,
        is_bitlocker_encrypted: None,
        max_component_length: None,
        drive_letter: get_drive_letter(disk.mount_point.as_str()),
        drive_root: None,
        dos_device_name: None,
        device_path: None,
        volume_guid_path: None,
        mounted_folder_path: None,
        unc_path: None,
        device_identifier: None,
        container_size: None,
        volume_role: None,
        apfs_version: None,
        device_node: None,
        raid_info: None,
        inode_count: None,
        is_removable: false,
        mount_options: None,
    }
}

/// Whether `drives` holds, in the order of the listing, the skeleton of
/// each of its entries.
pub open spec fn is_snapshot_of(drives: Seq<DriveInfo>, disks: Seq<ListedDisk>) -> bool {
    &&& drives.len() == disks.len()
    &&& forall|i: int| 0 <= i < disks.len() ==> is_skeleton_of(#[trigger] drives[i], disks[i])
}

/// Whether no two of the entries are mounted at the same place.
pub open spec fn mount_points_distinct(disks: Seq<ListedDisk>) -> bool {
    forall|i: int, j: int|
        0 <= i < j < disks.len() ==> (#[trigger] disks[i]).mount_point@ != (
        #[trigger] disks[j]).mount_point@
}

/// Whether no two of the volumes have the same root path.
pub open spec fn root_paths_distinct(drives: Seq<DriveInfo>) -> bool {
    forall|i: int, j: int|
        0 <= i < j < drives.len() ==> (#[trigger] drives[i]).root_path@ != (
        #[trigger] drives[j]).root_path@
}

/// Builds the list of volumes from the disk listing of the operating
/// system: one volume for each entry, in the order of the listing. An empty
/// listing is the error `EmptyDriveInfo`, and the only error.
pub fn get_drive_info(disks: &Vec<ListedDisk>) -> (outcome: Result<Vec<DriveInfo>, UFFSError>)
    ensures
        disks.len() == 0 <==> outcome is Err,
        outcome matches Err(error) ==> error == UFFSError::EmptyDriveInfo,
        outcome matches Ok(drives) ==> is_snapshot_of(drives@, disks@),
        outcome matches Ok(drives) ==> forall|i: int|
            0 <= i < disks.len() && (#[trigger] disks[i]).wf() ==> drives[i].wf(),
{
    if disks.len() == 0 {
        return Err(UFFSError::EmptyDriveInfo);
    }
    let mut all_disks: Vec<DriveInfo> = Vec::new();
    let mut i: usize = 0;
    while i < disks.len()
        invariant
            i <= disks.len(),
            all_disks.len() == i,
            forall|k: int| 0 <= k < i ==> is_skeleton_of(#[trigger] all_disks[k], disks[k]),
            forall|k: int| 0 <= k < i && (#[trigger] disks[k]).wf() ==> all_disks[k].wf(),
        decreases disks.len() - i,
    {
        all_disks.push(skeleton_of(&disks[i]));
        i += 1;
    }
    Ok(all_disks)
}

/// A list of volumes built from a listing in which no two entries are
/// mounted at the same place has no root path twice.
pub proof fn lemma_snapshot_root_paths_distinct(drives: Seq<DriveInfo>, disks: Seq<ListedDisk>)
    requires
        is_snapshot_of(drives, disks),
        mount_points_distinct(disks),
    ensures
        root_paths_distinct(drives),
{
    assert forall|i: int, j: int| 0 <= i < j < drives.len() implies (
    #[trigger] drives[i]).root_path@ != (#[trigger] drives[j]).root_path@ by {
        assert(is_skeleton_of(drives[i], disks[i]));
        assert(is_skeleton_of(drives[j], disks[j]));
        assert(disks[i].mount_point@ != disks[j].mount_point@);
    }
}

} // verus!
