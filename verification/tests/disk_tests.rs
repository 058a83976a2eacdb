use ultra_fast_file_search::disk::{ColumnLengths, DiskKind, DriveType, FileSystemType};

#[test]
fn every_known_name_has_its_family() {
    let known = [
        ("NTFS", FileSystemType::NTFS),
        ("FAT", FileSystemType::FAT),
        ("FAT32", FileSystemType::FAT32),
        ("exFAT", FileSystemType::ExFAT),
        ("UDF", FileSystemType::UDF),
        ("CDFS", FileSystemType::CDFS),
        ("ReFS", FileSystemType::ReFS),
        ("HPFS", FileSystemType::HPFS),
        ("Ext2", FileSystemType::Ext2),
        ("Ext3", FileSystemType::Ext3),
        ("Ext4", FileSystemType::Ext4),
        ("XFS", FileSystemType::XFS),
        ("Btrfs", FileSystemType::Btrfs),
        ("JFS", FileSystemType::JFS),
        ("ReiserFS", FileSystemType::ReiserFS),
        ("SquashFS", FileSystemType::SquashFS),
        ("ZFS", FileSystemType::ZFS),
        ("HFS", FileSystemType::HFS),
        ("HFS+", FileSystemType::HFSPlus),
        ("APFS", FileSystemType::APFS),
        ("FFS", FileSystemType::FFS),
        ("NFS", FileSystemType::NFS),
        ("SMB", FileSystemType::SMB),
        ("CIFS", FileSystemType::CIFS),
        ("AFP", FileSystemType::AFP),
        ("GlusterFS", FileSystemType::GlusterFS),
        ("Ceph", FileSystemType::Ceph),
        ("ISO9660", FileSystemType::ISO9660),
        ("JFFS2", FileSystemType::JFFS2),
        ("YAFFS", FileSystemType::YAFFS),
        ("LogFS", FileSystemType::LogFS),
        ("NILFS", FileSystemType::NILFS),
        ("F2FS", FileSystemType::F2FS),
        ("AFS", FileSystemType::AFS),
        ("GFS2", FileSystemType::GFS2),
        ("OCFS2", FileSystemType::OCFS2),
    ];
    for (name, family) in known {
        assert_eq!(FileSystemType::from_name(name), family, "{}", name);
    }
}

#[test]
fn an_unknown_name_is_kept_as_given() {
    for name in ["", "ntfs", "ext4", "EXFAT", "NTFS ", " NTFS", "tmpfs", "HFS++", "Ext\u{4}", "\u{3a9}FS"] {
        assert_eq!(FileSystemType::from_name(name), FileSystemType::Unknown(name.to_string()));
    }
}

#[test]
fn names_are_matched_with_their_case() {
    assert_eq!(FileSystemType::from_name("exFAT"), FileSystemType::ExFAT);
    assert_eq!(FileSystemType::from_name("ExFAT"), FileSystemType::Unknown("ExFAT".to_string()));
    assert_eq!(FileSystemType::from_name("HFSPlus"), FileSystemType::Unknown("HFSPlus".to_string()));
}

#[test]
fn disk_kinds_collapse_to_three_drive_types() {
    assert_eq!(DriveType::from(DiskKind::HDD), DriveType::HDD);
    assert_eq!(DriveType::from(DiskKind::SSD), DriveType::SSD);
    assert_eq!(DriveType::from(DiskKind::Unknown(-1)), DriveType::Other);
    assert_eq!(DriveType::from(DiskKind::Unknown(0)), DriveType::Other);
    assert_eq!(DriveType::from(DiskKind::Unknown(isize::MAX)), DriveType::Other);
}

#[test]
fn drive_types_have_their_labels() {
    assert_eq!(DriveType::HDD.label(), "HDD");
    assert_eq!(DriveType::SSD.label(), "SSD");
    assert_eq!(DriveType::Other.label(), "Other");
}

#[test]
fn default_column_lengths() {
    let lengths = ColumnLengths::default();
    assert_eq!(
        lengths,
        ColumnLengths {
            path_length: 20,
            type_length: 8,
            total_space_length: 10,
            available_space_length: 15,
            files_length: 12,
            dirs_length: 12,
            time_seconds_length: 10,
            time_length: 13,
        }
    );
}
