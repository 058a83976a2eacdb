use ultra_fast_file_search::disk::{DiskKind, DriveType};
use ultra_fast_file_search::drive_info::{get_drive_info, get_drive_letter, skeleton_of, ListedDisk};
use ultra_fast_file_search::errors::UFFSError;

fn listed(name: &str, mount_point: &str, kind: DiskKind, total: usize, available: usize) -> ListedDisk {
    ListedDisk {
        name: name.to_string(),
        mount_point: mount_point.to_string(),
        kind,
        total_space: total,
        available_space: available,
    }
}

#[test]
fn an_empty_listing_is_an_error() {
    assert_eq!(get_drive_info(&Vec::new()), Err(UFFSError::EmptyDriveInfo));
}

#[test]
fn every_listed_disk_becomes_a_volume() {
    let disks = vec![
        listed("sda1", "/", DiskKind::SSD, 1000, 400),
        listed("sdb1", "/home", DiskKind::HDD, 5000, 5000),
        listed("usb", "/media/stick", DiskKind::Unknown(-1), 64, 0),
    ];
    let drives = get_drive_info(&disks).unwrap();
    assert_eq!(drives.len(), 3);
    for (drive, disk) in drives.iter().zip(disks.iter()) {
        assert_eq!(drive.root_path, disk.mount_point);
        assert_eq!(drive.drive_name, disk.name);
        assert_eq!(drive.total_space, disk.total_space);
        assert_eq!(drive.available_space, disk.available_space);
        assert_eq!(drive.drive_type, DriveType::from(disk.kind));
    }
    assert_eq!(drives[0].drive_type, DriveType::SSD);
    assert_eq!(drives[1].drive_type, DriveType::HDD);
    assert_eq!(drives[2].drive_type, DriveType::Other);
}

#[test]
fn a_single_disk_is_enough() {
    let drives = get_drive_info(&vec![listed("C", "C:\\", DiskKind::SSD, 10, 1)]).unwrap();
    assert_eq!(drives.len(), 1);
    assert_eq!(drives[0].drive_letter, Some("C:".to_string()));
}

#[test]
fn a_new_volume_has_nothing_but_what_the_listing_says() {
    let drive = skeleton_of(&listed("data", "d:\\", DiskKind::HDD, 2048, 1024));
    assert_eq!(drive.root_path, "d:\\");
    assert_eq!(drive.drive_name, "data");
    assert_eq!(drive.drive_letter, Some("D:".to_string()));
    assert_eq!(drive.file_system_type, None);
    assert!(!drive.is_removable);
    assert_eq!(drive.num_files, 0);
    assert_eq!(drive.num_dirs, 0);
    assert_eq!(drive.time_nanoseconds, 0);
    assert_eq!(drive.uuid, None);
    assert_eq!(drive.serial_number, None);
    assert_eq!(drive.mount_point, None);
    assert_eq!(drive.sector_size, None);
    assert_eq!(drive.block_size, None);
    assert_eq!(drive.cylinders, None);
    assert_eq!(drive.tracks_per_cylinder, None);
    assert_eq!(drive.sectors_per_track, None);
    assert_eq!(drive.bytes_per_sector, None);
    assert_eq!(drive.media_type, None);
    assert_eq!(drive.volume_serial_number, None);
    assert_eq!(drive.volume_name, None);
    assert_eq!(drive.ntfs_version, None);
    assert_eq!(drive.physical_device_path, None);
    assert_eq!(drive.is_bitlocker_encrypted, None);
    assert_eq!(drive.max_component_length, None);
    assert_eq!(drive.drive_root, None);
    assert_eq!(drive.dos_device_name, None);
    assert_eq!(drive.device_path, None);
    assert_eq!(drive.volume_guid_path, None);
    assert_eq!(drive.mounted_folder_path, None);
    assert_eq!(drive.unc_path, None);
    assert_eq!(drive.device_identifier, None);
    assert_eq!(drive.container_size, None);
    assert_eq!(drive.volume_role, None);
    assert_eq!(drive.apfs_version, None);
    assert_eq!(drive.device_node, None);
    assert_eq!(drive.raid_info, None);
    assert_eq!(drive.inode_count, None);
    assert_eq!(drive.mount_options, None);
}

#[test]
fn drive_letters_are_found_at_the_start_of_a_path() {
    assert_eq!(get_drive_letter("C:\\"), Some("C:".to_string()));
    assert_eq!(get_drive_letter("C:"), Some("C:".to_string()));
    assert_eq!(get_drive_letter("z:\\Users"), Some("Z:".to_string()));
    assert_eq!(get_drive_letter("a:/"), Some("A:".to_string()));
}

#[test]
fn paths_without_a_drive_letter_have_none() {
    for path in ["", "C", "/", "/mnt/share", "\\\\server\\share", "\\\\?\\C:\\", "1:\\", ":C", "\u{e9}:\\", "C;\\"] {
        assert_eq!(get_drive_letter(path), None, "{}", path);
    }
}
