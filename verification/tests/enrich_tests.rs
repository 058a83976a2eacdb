use ultra_fast_file_search::disk::{DiskKind, DriveInfo, FileSystemType};
use ultra_fast_file_search::drive_info::{skeleton_of, ListedDisk};
use ultra_fast_file_search::enrich::{
    apply_answer, convert_to_device_path, is_bitlocker_encrypted, query_dos_device, request_for,
    resolve_file_system, steps_for, Answer, Platform, Request, Step,
};
use ultra_fast_file_search::wmi::encryptable_volume::Win32EncryptableVolume;

fn volume(root: &str, name: &str) -> DriveInfo {
    skeleton_of(&ListedDisk {
        name: name.to_string(),
        mount_point: root.to_string(),
        kind: DiskKind::SSD,
        total_space: 100,
        available_space: 40,
    })
}

fn text(s: &str) -> Answer {
    Answer::Text(s.to_string())
}

fn wide(s: &str) -> Vec<u16> {
    s.encode_utf16().collect()
}

#[test]
fn each_platform_has_its_steps_in_order() {
    assert_eq!(
        steps_for(Platform::Windows),
        vec![Step::MountPoint, Step::DosDeviceName, Step::DevicePath, Step::EncryptionStatus]
    );
    assert_eq!(
        steps_for(Platform::Linux),
        vec![Step::FilesystemUuid, Step::SectorSize, Step::BlockSize, Step::SerialNumber]
    );
    assert_eq!(steps_for(Platform::MacOs), vec![Step::DiskUtility]);
}

#[test]
fn steps_without_a_lookup_ask_for_nothing() {
    let drive = volume("C:\\", "C");
    assert_eq!(request_for(Step::MountPoint, &drive), Request::Nothing);
    assert_eq!(request_for(Step::DevicePath, &drive), Request::Nothing);
}

#[test]
fn the_device_name_is_asked_for_by_drive_letter() {
    assert_eq!(request_for(Step::DosDeviceName, &volume("d:\\", "D")), Request::QueryDosDevice("D:".to_string()));
    assert_eq!(request_for(Step::DosDeviceName, &volume("\\\\server\\share", "S")), Request::Nothing);
}

#[test]
fn the_encryption_status_is_not_asked_for_without_the_volume_path() {
    let mut drive = volume("C:\\", "C");
    assert_eq!(request_for(Step::EncryptionStatus, &drive), Request::Nothing);
    drive.volume_guid_path = Some("\\\\?\\Volume{1234}\\".to_string());
    assert_eq!(
        request_for(Step::EncryptionStatus, &drive),
        Request::QueryEncryption("\\\\?\\Volume{1234}\\".to_string())
    );
}

#[test]
fn no_answer_sets_the_encryption_status_without_the_volume_path() {
    let before = volume("C:\\", "C");
    for answer in [Answer::Flag(true), Answer::Flag(false), Answer::Failed, text("1")] {
        let mut drive = before.clone();
        apply_answer(Step::EncryptionStatus, &mut drive, &answer);
        assert_eq!(drive, before);
        assert_eq!(drive.is_bitlocker_encrypted, None);
    }
}

#[test]
fn the_encryption_status_is_set_where_the_volume_path_is_known() {
    let mut before = volume("C:\\", "C");
    before.volume_guid_path = Some("\\\\?\\Volume{1234}\\".to_string());
    let mut drive = before.clone();
    apply_answer(Step::EncryptionStatus, &mut drive, &Answer::Flag(true));
    assert_eq!(drive.is_bitlocker_encrypted, Some(true));
    apply_answer(Step::EncryptionStatus, &mut drive, &Answer::Flag(false));
    assert_eq!(drive.is_bitlocker_encrypted, Some(false));
    apply_answer(Step::EncryptionStatus, &mut drive, &Answer::Failed);
    assert_eq!(drive.is_bitlocker_encrypted, Some(false));
    drive.is_bitlocker_encrypted = None;
    assert_eq!(drive, before);
}

#[test]
fn linux_lookups_name_their_program_and_files() {
    let drive = volume("/mnt/data", "sdb");
    assert_eq!(
        request_for(Step::FilesystemUuid, &drive),
        Request::RunCommand { program: "blkid".to_string(), arguments: vec!["/mnt/data".to_string()] }
    );
    assert_eq!(
        request_for(Step::SectorSize, &drive),
        Request::ReadFile("/sys/block/sdb/queue/hw_sector_size".to_string())
    );
    assert_eq!(
        request_for(Step::BlockSize, &drive),
        Request::ReadFile("/sys/block/sdb/queue/logical_block_size".to_string())
    );
    assert_eq!(request_for(Step::SerialNumber, &drive), Request::ReadFile("/sys/block/sdb/device/serial".to_string()));
}

#[test]
fn the_disk_utility_is_asked_about_the_mount_point() {
    assert_eq!(
        request_for(Step::DiskUtility, &volume("/Volumes/Data", "disk1s1")),
        Request::RunCommand {
            program: "diskutil".to_string(),
            arguments: vec!["info".to_string(), "/Volumes/Data".to_string()]
        }
    );
}

#[test]
fn the_mount_point_is_the_root_path() {
    let before = volume("C:\\", "C");
    let mut drive = before.clone();
    apply_answer(Step::MountPoint, &mut drive, &Answer::Failed);
    assert_eq!(drive.mount_point, Some("C:\\".to_string()));
    drive.mount_point = None;
    assert_eq!(drive, before);
}

#[test]
fn device_paths_lose_the_backslashes_at_their_end() {
    assert_eq!(convert_to_device_path("C:\\"), "\\\\.\\C:");
    assert_eq!(convert_to_device_path("C:"), "\\\\.\\C:");
    assert_eq!(convert_to_device_path("D:\\\\\\"), "\\\\.\\D:");
    assert_eq!(convert_to_device_path("C:\\Mount\\Data\\"), "\\\\.\\C:\\Mount\\Data");
    assert_eq!(convert_to_device_path(""), "\\\\.\\");
    assert_eq!(convert_to_device_path("\\\\"), "\\\\.\\");
    assert_eq!(convert_to_device_path("E:/"), "\\\\.\\E:/");
}

#[test]
fn the_device_path_step_fills_the_device_path() {
    let before = volume("F:\\", "F");
    let mut drive = before.clone();
    apply_answer(Step::DevicePath, &mut drive, &Answer::Failed);
    assert_eq!(drive.device_path, Some("\\\\.\\F:".to_string()));
    drive.device_path = None;
    assert_eq!(drive, before);
}

#[test]
fn a_device_name_ends_at_the_first_zero() {
    let mut buffer = wide("\\Device\\HarddiskVolume6");
    buffer.extend([0, 0, 65, 0]);
    assert_eq!(query_dos_device(25, &buffer), Some(wide("\\Device\\HarddiskVolume6")));
    assert_eq!(query_dos_device(0, &buffer), None);
    assert_eq!(query_dos_device(1, &wide("abc")), Some(wide("abc")));
    assert_eq!(query_dos_device(1, &vec![0, 1, 2]), Some(Vec::new()));
    assert_eq!(query_dos_device(1, &Vec::new()), Some(Vec::new()));
}

#[test]
fn the_device_name_fills_two_fields() {
    let before = volume("C:\\", "C");
    let mut buffer = wide("\\Device\\HarddiskVolume3");
    buffer.resize(1024, 0);
    let mut drive = before.clone();
    apply_answer(Step::DosDeviceName, &mut drive, &Answer::DeviceBuffer { written: 25, buffer });
    assert_eq!(drive.dos_device_name, Some("\\Device\\HarddiskVolume3".to_string()));
    assert_eq!(drive.physical_device_path, Some("\\Device\\HarddiskVolume3".to_string()));
    drive.dos_device_name = None;
    drive.physical_device_path = None;
    assert_eq!(drive, before);
}

#[test]
fn a_device_name_that_is_not_valid_text_is_repaired() {
    let mut drive = volume("C:\\", "C");
    let buffer = vec![0x0041, 0xd800, 0x0042, 0];
    apply_answer(Step::DosDeviceName, &mut drive, &Answer::DeviceBuffer { written: 3, buffer });
    assert_eq!(drive.dos_device_name, Some("A\u{fffd}B".to_string()));
}

#[test]
fn a_failed_device_name_query_changes_nothing() {
    let before = volume("C:\\", "C");
    for answer in [Answer::Failed, Answer::DeviceBuffer { written: 0, buffer: wide("junk") }, text("name")] {
        let mut drive = before.clone();
        apply_answer(Step::DosDeviceName, &mut drive, &answer);
        assert_eq!(drive, before);
    }
    let unlettered = volume("/mnt", "m");
    let mut drive = unlettered.clone();
    apply_answer(Step::DosDeviceName, &mut drive, &Answer::DeviceBuffer { written: 3, buffer: wide("abc") });
    assert_eq!(drive, unlettered);
}

fn uuid_by_splitting(output: &str) -> Option<String> {
    output.split("UUID=\"").nth(1).map(|rest| rest.split('"').next().unwrap_or("").to_string())
}

#[test]
fn the_uuid_stands_between_the_marker_and_the_next_quote() {
    let outputs = [
        "/dev/sda1: UUID=\"1234-ABCD\" TYPE=\"ext4\" PARTUUID=\"aaaa-01\"\n",
        "/dev/sda: PTUUID=\"xyz\" PTTYPE=\"gpt\"\n",
        "UUID=\"\"",
        "UUID=\"open",
        "UUID=\"abcUUID=\"def\"",
        "UUID=\"UUID=\"",
        "x UUID=\"a\" UUID=\"b\"",
        "UUID=\"\u{e9}t\u{e9}\" ",
    ];
    let expected = ["1234-ABCD", "xyz", "", "open", "abc", "", "a", "\u{e9}t\u{e9}"];
    for (output, uuid) in outputs.iter().zip(expected) {
        let mut drive = volume("/", "sda1");
        apply_answer(Step::FilesystemUuid, &mut drive, &text(output));
        assert_eq!(drive.uuid, Some(uuid.to_string()), "{:?}", output);
        assert_eq!(drive.uuid, uuid_by_splitting(output));
    }
}

#[test]
fn output_without_the_marker_leaves_the_uuid_as_it_is() {
    for output in ["", "/dev/sda1: TYPE=\"ext4\"", "UUID=", "uuid=\"abc\"", "UUID =\"abc\""] {
        let mut drive = volume("/", "sda1");
        apply_answer(Step::FilesystemUuid, &mut drive, &text(output));
        assert_eq!(drive.uuid, None);
        assert_eq!(uuid_by_splitting(output), None);
        drive.uuid = Some("kept".to_string());
        apply_answer(Step::FilesystemUuid, &mut drive, &text(output));
        assert_eq!(drive.uuid, Some("kept".to_string()));
    }
}

#[test]
fn sizes_are_read_as_numbers() {
    let cases: [(&str, u64); 7] = [
        ("512\n", 512),
        ("4096", 4096),
        ("  4096  ", 4096),
        ("+512", 512),
        ("0", 0),
        ("007", 7),
        ("18446744073709551615", u64::MAX),
    ];
    for (contents, number) in cases {
        assert_eq!(contents.trim().parse::<u64>(), Ok(number));
        let mut drive = volume("/", "sda");
        apply_answer(Step::SectorSize, &mut drive, &text(contents));
        assert_eq!(drive.sector_size, Some(number), "{:?}", contents);
        assert_eq!(drive.block_size, None);
        apply_answer(Step::BlockSize, &mut drive, &text(contents));
        assert_eq!(drive.block_size, Some(number), "{:?}", contents);
    }
}

#[test]
fn contents_that_are_no_number_leave_the_size_absent() {
    for contents in ["abc", "", "\n", "-1", "5 12", "18446744073709551616", "+", "0x200", "512 bytes"] {
        assert!(contents.trim().parse::<u64>().is_err());
        let before = volume("/", "sda");
        let mut drive = before.clone();
        apply_answer(Step::SectorSize, &mut drive, &text(contents));
        assert_eq!(drive.sector_size, None, "{:?}", contents);
        apply_answer(Step::BlockSize, &mut drive, &text(contents));
        assert_eq!(drive.block_size, None, "{:?}", contents);
        assert_eq!(drive, before);
    }
}

#[test]
fn contents_that_are_no_number_keep_a_size_that_was_resolved() {
    let mut drive = volume("/", "sda");
    apply_answer(Step::SectorSize, &mut drive, &text("512\n"));
    apply_answer(Step::BlockSize, &mut drive, &text("4096\n"));
    let before = drive.clone();
    apply_answer(Step::SectorSize, &mut drive, &text("abc"));
    apply_answer(Step::BlockSize, &mut drive, &text(""));
    assert_eq!(drive, before);
    assert_eq!(drive.sector_size, Some(512));
    assert_eq!(drive.block_size, Some(4096));
}

#[test]
fn a_size_that_is_no_number_does_not_stop_the_other_steps() {
    let mut drive = volume("/mnt/data", "sdb");
    for step in steps_for(Platform::Linux) {
        let answer = match step {
            Step::FilesystemUuid => text("/dev/sdb1: UUID=\"feed-beef\""),
            Step::SectorSize => text("abc"),
            Step::BlockSize => text("4096\n"),
            Step::SerialNumber => text("SN-1\n"),
            _ => unreachable!(),
        };
        apply_answer(step, &mut drive, &answer);
    }
    assert_eq!(drive.uuid, Some("feed-beef".to_string()));
    assert_eq!(drive.sector_size, None);
    assert_eq!(drive.block_size, Some(4096));
    assert_eq!(drive.serial_number, Some("SN-1".to_string()));
}

#[test]
fn the_serial_number_is_the_contents_without_white_space_around_it() {
    let mut drive = volume("/", "sda");
    apply_answer(Step::SerialNumber, &mut drive, &text("  WD-WX12 345 \n"));
    assert_eq!(drive.serial_number, Some("WD-WX12 345".to_string()));
    apply_answer(Step::SerialNumber, &mut drive, &text(" \t\n"));
    assert_eq!(drive.serial_number, Some(String::new()));
}

fn word_by_splitting(output: &str, marker: &str) -> Option<String> {
    output.split(marker).nth(1).map(|rest| rest.split_whitespace().next().unwrap_or("").to_string())
}

#[test]
fn the_disk_utility_gives_uuid_and_serial_number() {
    let output = "   Device Identifier:         disk1s1\n   Volume UUID:               0A1B-2C3D\n   Disk Serial Number: S123 456\n";
    let mut drive = volume("/", "disk1s1");
    apply_answer(Step::DiskUtility, &mut drive, &text(output));
    assert_eq!(drive.uuid, Some("0A1B-2C3D".to_string()));
    assert_eq!(drive.serial_number, Some("S123".to_string()));
    assert_eq!(drive.uuid, word_by_splitting(output, "Volume UUID: "));
    assert_eq!(drive.serial_number, word_by_splitting(output, "Disk Serial Number: "));
}

#[test]
fn the_disk_utility_may_give_one_of_the_two() {
    let mut drive = volume("/", "disk1s1");
    drive.serial_number = Some("kept".to_string());
    apply_answer(Step::DiskUtility, &mut drive, &text("Volume UUID: \n\n  abc def"));
    assert_eq!(drive.uuid, Some("abc".to_string()));
    assert_eq!(drive.serial_number, Some("kept".to_string()));

    let mut other = volume("/", "disk1s1");
    other.uuid = Some("kept".to_string());
    apply_answer(Step::DiskUtility, &mut other, &text("Disk Serial Number: Volume UUID:"));
    assert_eq!(other.uuid, Some("kept".to_string()));
    assert_eq!(other.serial_number, Some("Volume".to_string()));

    let mut empty = volume("/", "disk1s1");
    apply_answer(Step::DiskUtility, &mut empty, &text("Volume UUID: "));
    assert_eq!(empty.uuid, Some(String::new()));
    assert_eq!(empty.serial_number, None);
}

#[test]
fn a_failed_lookup_leaves_the_other_fields_filled() {
    let mut drive = volume("/mnt/data", "sdb");
    apply_answer(Step::FilesystemUuid, &mut drive, &text("/dev/sdb1: UUID=\"feed-beef\""));
    apply_answer(Step::SectorSize, &mut drive, &text("512\n"));
    let before = drive.clone();
    apply_answer(Step::BlockSize, &mut drive, &Answer::Failed);
    assert_eq!(drive, before);
    assert_eq!(drive.block_size, None);
    apply_answer(Step::SerialNumber, &mut drive, &text("SN-1\n"));
    assert_eq!(drive.uuid, Some("feed-beef".to_string()));
    assert_eq!(drive.sector_size, Some(512));
    assert_eq!(drive.block_size, None);
    assert_eq!(drive.serial_number, Some("SN-1".to_string()));
    assert_eq!(drive.root_path, "/mnt/data");
    assert_eq!(drive.total_space, 100);
    assert_eq!(drive.available_space, 40);
}

#[test]
fn every_lookup_that_fails_changes_nothing() {
    let mut before = volume("C:\\", "C");
    before.volume_guid_path = Some("\\\\?\\Volume{1}\\".to_string());
    before.uuid = Some("u".to_string());
    before.serial_number = Some("s".to_string());
    before.sector_size = Some(1);
    before.block_size = Some(2);
    before.is_bitlocker_encrypted = Some(true);
    before.dos_device_name = Some("d".to_string());
    for step in [
        Step::DosDeviceName,
        Step::EncryptionStatus,
        Step::FilesystemUuid,
        Step::SectorSize,
        Step::BlockSize,
        Step::SerialNumber,
        Step::DiskUtility,
    ] {
        let mut drive = before.clone();
        apply_answer(step, &mut drive, &Answer::Failed);
        assert_eq!(drive, before, "{:?}", step);
    }
}

#[test]
fn a_whole_pass_with_one_lookup_failing() {
    let mut drive = volume("C:\\", "C");
    for step in steps_for(Platform::Windows) {
        let answer = match request_for(step, &drive) {
            Request::QueryDosDevice(_) => Answer::Failed,
            Request::QueryEncryption(_) => unreachable!(),
            _ => Answer::Failed,
        };
        apply_answer(step, &mut drive, &answer);
    }
    assert_eq!(drive.mount_point, Some("C:\\".to_string()));
    assert_eq!(drive.dos_device_name, None);
    assert_eq!(drive.physical_device_path, None);
    assert_eq!(drive.device_path, Some("\\\\.\\C:".to_string()));
    assert_eq!(drive.is_bitlocker_encrypted, None);
}

#[test]
fn the_file_system_is_always_resolved() {
    let before = volume("/", "sda1");
    let mut drive = before.clone();
    resolve_file_system(&mut drive, "Btrfs");
    assert_eq!(drive.file_system_type, Some(FileSystemType::Btrfs));
    resolve_file_system(&mut drive, "ext4");
    assert_eq!(drive.file_system_type, Some(FileSystemType::Unknown("ext4".to_string())));
    resolve_file_system(&mut drive, "");
    assert_eq!(drive.file_system_type, Some(FileSystemType::Unknown(String::new())));
    drive.file_system_type = None;
    assert_eq!(drive, before);
}

fn encryptable(device_id: &str, status: Option<u32>) -> Win32EncryptableVolume {
    Win32EncryptableVolume {
        ConversionStatus: None,
        DeviceID: device_id.to_string(),
        DriveLetter: None,
        EncryptionMethod: None,
        IsVolumeInitializedForProtection: None,
        PersistentVolumeID: None,
        ProtectionStatus: status,
        VolumeType: None,
        __CLASS: None,
        __DERIVATION: None,
        __DYNASTY: None,
        __GENUS: None,
        __NAMESPACE: None,
        __PATH: None,
        __PROPERTY_COUNT: None,
        __RELPATH: None,
        __SERVER: None,
        __SUPERCLASS: None,
    }
}

#[test]
fn the_record_of_the_volume_says_whether_it_is_protected() {
    let volumes = vec![
        encryptable("a", Some(0)),
        encryptable("b", Some(1)),
        encryptable("c", None),
        encryptable("d", Some(2)),
        encryptable("b", Some(0)),
    ];
    assert_eq!(is_bitlocker_encrypted(&volumes, "a"), Some(false));
    assert_eq!(is_bitlocker_encrypted(&volumes, "b"), Some(true));
    assert_eq!(is_bitlocker_encrypted(&volumes, "c"), None);
    assert_eq!(is_bitlocker_encrypted(&volumes, "d"), Some(false));
    assert_eq!(is_bitlocker_encrypted(&volumes, "e"), None);
    assert_eq!(is_bitlocker_encrypted(&volumes, "B"), None);
    assert_eq!(is_bitlocker_encrypted(&Vec::new(), "a"), None);
}
