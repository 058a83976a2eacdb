//! Classification of file systems and of disk kinds.

use vstd::prelude::*;
use vstd::string::*;

verus! {

/// The family of a file system. `Unknown` keeps the name of a file system
/// that this library has no variant for.
#[allow(clippy::upper_case_acronyms)]
#[derive(Debug, Clone, PartialEq, Eq, PartialOrd, Ord, Hash)]
pub enum FileSystemType {
    // Windows
    NTFS,
    FAT,
    FAT32,
    ExFAT,
    UDF,
    CDFS,
    ReFS,
    HPFS,
    // Linux
    Ext2,
    Ext3,
    Ext4,
    XFS,
    Btrfs,
    JFS,
    ReiserFS,
    SquashFS,
    ZFS,
    // macOS
    HFS,
    HFSPlus,
    APFS,
    // BSD
    FFS,
    // Network
    NFS,
    SMB,
    CIFS,
    AFP,
    GlusterFS,
    Ceph,
    // Optical media, flash and distributed
    ISO9660,
    JFFS2,
    YAFFS,
    LogFS,
    NILFS,
    F2FS,
    AFS,
    // Clustered
    GFS2,
    OCFS2,
    // Anything else, under the name it was reported with
    Unknown(String),
}

/// The file system that a name stands for, if it is one of the known names.
/// Names are matched exactly, letter case included.
pub open spec fn known_file_system(name: Seq<char>) -> Option<FileSystemType> {
    if name == "NTFS"@ {
        Some(FileSystemType::NTFS)
    } else if name == "FAT"@ {
        Some(FileSystemType::FAT)
    } else if name == "FAT32"@ {
        Some(FileSystemType::FAT32)
    } else if name == "exFAT"@ {
        Some(FileSystemType::ExFAT)
    } else if name == "UDF"@ {
        Some(FileSystemType::UDF)
    } else if name == "CDFS"@ {
        Some(FileSystemType::CDFS)
    } else if name == "ReFS"@ {
        Some(FileSystemType::ReFS)
    } else if name == "HPFS"@ {
        Some(FileSystemType::HPFS)
    } else if name == "Ext2"@ {
        Some(FileSystemType::Ext2)
    } else if name == "Ext3"@ {
        Some(FileSystemType::Ext3)
    } else if name == "Ext4"@ {
        Some(FileSystemType::Ext4)
    } else if name == "XFS"@ {
        Some(FileSystemType::XFS)
    } else if name == "Btrfs"@ {
        Some(FileSystemType::Btrfs)
    } else if name == "JFS"@ {
        Some(FileSystemType::JFS)
    } else if name == "ReiserFS"@ {
        Some(FileSystemType::ReiserFS)
    } else if name == "SquashFS"@ {
        Some(FileSystemType::SquashFS)
    } else if name == "ZFS"@ {
        Some(FileSystemType::ZFS)
    } else if name == "HFS"@ {
        Some(FileSystemType::HFS)
    } else if name == "HFS+"@ {
        Some(FileSystemType::HFSPlus)
    } else if name == "APFS"@ {
        Some(FileSystemType::APFS)
    } else if name == "FFS"@ {
        Some(FileSystemType::FFS)
    } else if name == "NFS"@ {
        Some(FileSystemType::NFS)
    } else if name == "SMB"@ {
        Some(FileSystemType::SMB)
    } else if name == "CIFS"@ {
        Some(FileSystemType::CIFS)
    } else if name == "AFP"@ {
        Some(FileSystemType::AFP)
    } else if name == "GlusterFS"@ {
        Some(FileSystemType::GlusterFS)
    } else if name == "Ceph"@ {
        Some(FileSystemType::Ceph)
    } else if name == "ISO9660"@ {
        Some(FileSystemType::ISO9660)
    } else if name == "JFFS2"@ {
        Some(FileSystemType::JFFS2)
    } else if name == "YAFFS"@ {
        Some(FileSystemType::YAFFS)
    } else if name == "LogFS"@ {
        Some(FileSystemType::LogFS)
    } else if name == "NILFS"@ {
        Some(FileSystemType::NILFS)
    } else if name == "F2FS"@ {
        Some(FileSystemType::F2FS)
    } else if name == "AFS"@ {
        Some(FileSystemType::AFS)
    } else if name == "GFS2"@ {
        Some(FileSystemType::GFS2)
    } else if name == "OCFS2"@ {
        Some(FileSystemType::OCFS2)
    } else {
        None
    }
}

impl FileSystemType {
    /// Maps the name of a file system to its family. A name that is not
    /// known gives `Unknown` with the name as it was given.
    pub fn from_name(file_system_name: &str) -> (file_system: FileSystemType)
        ensures
            match known_file_system(file_system_name@) {
                Some(known) => file_system == known,
                None => file_system matches FileSystemType::Unknown(kept)
                    && kept@ == file_system_name@,
            },
    {
        if file_system_name.eq("NTFS") {
            FileSystemType::NTFS
        } else if file_system_name.eq("FAT") {
            FileSystemType::FAT
        } else if file_system_name.eq("FAT32") {
            FileSystemType::FAT32
        } else if file_system_name.eq("exFAT") {
            FileSystemType::ExFAT
        } else if file_system_name.eq("UDF") {
            FileSystemType::UDF
        } else if file_system_name.eq("CDFS") {
            FileSystemType::CDFS
        } else if file_system_name.eq("ReFS") {
            FileSystemType::ReFS
        } else if file_system_name.eq("HPFS") {
            FileSystemType::HPFS
        } else if file_system_name.eq("Ext2") {
            FileSystemType::Ext2
        } else if file_system_name.eq("Ext3") {
            FileSystemType::Ext3
        } else if file_system_name.eq("Ext4") {
            FileSystemType::Ext4
        } else if file_system_name.eq("XFS") {
            FileSystemType::XFS
        } else if file_system_name.eq("Btrfs") {
            FileSystemType::Btrfs
        } else if file_system_name.eq("JFS") {
            FileSystemType::JFS
        } else if file_system_name.eq("ReiserFS") {
            FileSystemType::ReiserFS
        } else if file_system_name.eq("SquashFS") {
            FileSystemType::SquashFS
        } else if file_system_name.eq("ZFS") {
            FileSystemType::ZFS
        } else if file_system_name.eq("HFS") {
            FileSystemType::HFS
        } else if file_system_name.eq("HFS+") {
            FileSystemType::HFSPlus
        } else if file_system_name.eq("APFS") {
            FileSystemType::APFS
        } else if file_system_name.eq("FFS") {
            FileSystemType::FFS
        } else if file_system_name.eq("NFS") {
            FileSystemType::NFS
        } else if file_system_name.eq("SMB") {
            FileSystemType::SMB
        } else if file_system_name.eq("CIFS") {
            FileSystemType::CIFS
        } else if file_system_name.eq("AFP") {
            FileSystemType::AFP
        } else if file_system_name.eq("GlusterFS") {
            FileSystemType::GlusterFS
        } else if file_system_name.eq("Ceph") {
            FileSystemType::Ceph
        } else if file_system_name.eq("ISO9660") {
            FileSystemType::ISO9660
        } else if file_system_name.eq("JFFS2") {
            FileSystemType::JFFS2
        } else if file_system_name.eq("YAFFS") {
            FileSystemType::YAFFS
        } else if file_system_name.eq("LogFS") {
            FileSystemType::LogFS
        } else if file_system_name.eq("NILFS") {
            FileSystemType::NILFS
        } else if file_system_name.eq("F2FS") {
            FileSystemType::F2FS
        } else if file_system_name.eq("AFS") {
            FileSystemType::AFS
        } else if file_system_name.eq("GFS2") {
            FileSystemType::GFS2
        } else if file_system_name.eq("OCFS2") {
            FileSystemType::OCFS2
        } else {
            FileSystemType::Unknown(String::from_str(file_system_name))
        }
    }
}

/// What kind of device a drive is.
#[allow(clippy::upper_case_acronyms)]
#[derive(Debug, Clone, Copy, PartialEq, Eq, PartialOrd, Ord, Hash, Structural)]
pub enum DriveType {
    HDD,
    SSD,
    Other,
}

/// The kind of a disk as the disk listing of the operating system reports it.
#[allow(clippy::upper_case_acronyms)]
#[derive(Debug, Clone, Copy, PartialEq, Eq, PartialOrd, Ord, Hash, Structural)]
pub enum DiskKind {
    HDD,
    SSD,
    /// A kind that the listing could not tell, with the code it had for it.
    Unknown(isize),
}

/// The kind of drive that a disk of the given kind is: spinning disks and
/// solid state disks keep their kind, every other kind is `Other`.
pub open spec fn drive_type_of(kind: DiskKind) -> DriveType {
    match kind {
        DiskKind::HDD => DriveType::HDD,
        DiskKind::SSD => DriveType::SSD,
        DiskKind::Unknown(_) => DriveType::Other,
    }
}

impl From<DiskKind> for DriveType {
    /// Spinning disks and solid state disks keep their kind; every other
    /// kind is `Other`.
    fn from(kind: DiskKind) -> (drive_type: DriveType) {
        match kind {
            DiskKind::HDD => DriveType::HDD,
            DiskKind::SSD => DriveType::SSD,
            DiskKind::Unknown(_) => DriveType::Other,
        }
    }
}

impl vstd::std_specs::convert::FromSpecImpl<DiskKind> for DriveType {
    open spec fn obeys_from_spec() -> bool {
        true
    }

    open spec fn from_spec(kind: DiskKind) -> DriveType {
        drive_type_of(kind)
    }
}

impl DriveType {
    /// The name of the kind as the report shows it.
    pub open spec fn name(self) -> Seq<char> {
        match self {
            DriveType::HDD => "HDD"@,
            DriveType::SSD => "SSD"@,
            DriveType::Other => "Other"@,
        }
    }

    /// The name of the kind as the report shows it.
    pub fn label(&self) -> (text: &'static str)
        ensures
            text@ == self.name(),
    {
        match self {
            DriveType::HDD => "HDD",
            DriveType::SSD => "SSD",
            DriveType::Other => "Other",
        }
    }
}

/// The media type of a drive under the code that the operating system
/// reports for it.
#[derive(Debug, Clone, Copy, PartialEq, Eq, Hash, Default, Structural)]
pub struct HashableMediaType(pub i32);

/// What is known of the redundant array that a volume belongs to.
#[derive(Debug, Clone, PartialEq, Eq, PartialOrd, Ord, Hash, Default)]
pub struct RaidInfo {
    /// The level of the array, such as `RAID 1`.
    pub raid_level: String,
    /// How many devices the array has.
    pub num_devices: usize,
    /// How many of them are online.
    pub active_devices: usize,
    /// Whether the array runs without one or more of its devices.
    pub degraded: bool,
    /// How many spare devices the array has.
    pub spare_devices: usize,
    /// The capacity of the array in bytes.
    pub total_capacity: usize,
    /// The capacity that is free, in bytes.
    pub available_capacity: usize,
    /// The state of the array, such as `active` or `recovering`.
    pub array_state: String,
}

/// One storage volume: what the disk listing says of it, and what the
/// operating system added to that. A field that no source has filled is
/// `None`.
#[derive(Debug, Clone, PartialEq, Eq, Hash)]
pub struct DriveInfo {
    // Known for every volume
    pub drive_type: DriveType,
    pub drive_name: String,
    pub file_system_type: Option<FileSystemType>,
    /// Where the volume is mounted, such as `/` or `C:\\`.
    pub root_path: String,
    /// The size of the volume in bytes.
    pub total_space: usize,
    /// The bytes of it that are free.
    pub available_space: usize,
    pub is_removable: bool,
    pub num_files: usize,
    pub num_dirs: usize,
    /// How long the last scan of the volume took, in nanoseconds.
    pub time_nanoseconds: u64,
    // Filled on any system, where a source has them
    pub uuid: Option<String>,
    pub serial_number: Option<String>,
    pub mount_point: Option<String>,
    pub sector_size: Option<u64>,
    pub block_size: Option<u64>,
    pub cylinders: Option<i64>,
    pub tracks_per_cylinder: Option<u32>,
    pub sectors_per_track: Option<u32>,
    pub bytes_per_sector: Option<u32>,
    pub media_type: Option<HashableMediaType>,
    // Windows
    pub volume_serial_number: Option<String>,
    pub volume_name: Option<String>,
    pub ntfs_version: Option<String>,
    pub physical_device_path: Option<String>,
    pub is_bitlocker_encrypted: Option<bool>,
    pub max_component_length: Option<u32>,
    /// The drive letter with its colon, such as `D:`.
    pub drive_letter: Option<String>,
    pub drive_root: Option<String>,
    /// The name of the device object, such as `\\Device\\HarddiskVolume6`.
    pub dos_device_name: Option<String>,
    /// The path of the volume in the device namespace, such as `\\\\.\\D:`.
    pub device_path: Option<String>,
    /// The path of the volume by its identifier, such as `\\\\?\\Volume{..}\\`.
    pub volume_guid_path: Option<String>,
    pub mounted_folder_path: Option<String>,
    pub unc_path: Option<String>,
    // macOS
    pub device_identifier: Option<String>,
    pub container_size: Option<usize>,
    pub volume_role: Option<String>,
    pub apfs_version: Option<String>,
    // Linux
    pub device_node: Option<String>,
    pub raid_info: Option<RaidInfo>,
    /// Inodes in use and inodes in all.
    pub inode_count: Option<(usize, usize)>,
    pub mount_options: Option<Vec<String>>,
}

impl DriveInfo {
    /// A volume never has more free bytes than it has bytes.
    pub open spec fn wf(&self) -> bool {
        self.available_space <= self.total_space
    }

    /// Whether none of the fields is filled that only the operating system
    /// can fill.
    pub open spec fn is_skeleton(&self) -> bool {
        &&& self.file_system_type is None
        &&& !self.is_removable
        &&& self.num_files == 0
        &&& self.num_dirs == 0
        &&& self.time_nanoseconds == 0
        &&& self.uuid is None
        &&& self.serial_number is None
        &&& self.mount_point is None
        &&& self.sector_size is None
        &&& self.block_size is None
        &&& self.cylinders is None
        &&& self.tracks_per_cylinder is None
        &&& self.sectors_per_track is None
        &&& self.bytes_per_sector is None
        &&& self.media_type is None
        &&& self.volume_serial_number is None
        &&& self.volume_name is None
        &&& self.ntfs_version is None
        &&& self.physical_device_path is None
        &&& self.is_bitlocker_encrypted is None
        &&& self.max_component_length is None
        &&& self.drive_root is None
        &&& self.dos_device_name is None
        &&& self.device_path is None
        &&& self.volume_guid_path is None
        &&& self.mounted_folder_path is None
        &&& self.unc_path is None
        &&& self.device_identifier is None
        &&& self.container_size is None
        &&& self.volume_role is None
        &&& self.apfs_version is None
        &&& self.device_node is None
        &&& self.raid_info is None
        &&& self.inode_count is None
        &&& self.mount_options is None
    }
}

/// The widths of the columns of the report, in characters.
#[derive(Debug, Clone, Copy, PartialEq, Eq, PartialOrd, Ord, Hash, Structural)]
pub struct ColumnLengths {
    pub path_length: usize,
    pub type_length: usize,
    pub total_space_length: usize,
    pub available_space_length: usize,
    pub files_length: usize,
    pub dirs_length: usize,
    pub time_seconds_length: usize,
    pub time_length: usize,
}

impl ColumnLengths {
    /// The widths that the report starts from.
    pub open spec fn default_lengths() -> ColumnLengths {
        ColumnLengths {
            path_length: 20,
            type_length: 8,
            total_space_length: 10,
            available_space_length: 15,
            files_length: 12,
            dirs_length: 12,
            time_seconds_length: 10,
            time_length: 13,
        }
    }
}

impl Default for ColumnLengths {
    fn default() -> (lengths: ColumnLengths)
        ensures
            lengths == ColumnLengths::default_lengths(),
    {
        ColumnLengths {
            path_length: 20,
            type_length: 8,
            total_space_length: 10,
            available_space_length: 15,
            files_length: 12,
            dirs_length: 12,
            time_seconds_length: 10,
            time_length: 13,
        }
    }
}

} // verus!
