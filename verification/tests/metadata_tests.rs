use std::time::{Duration, SystemTime};
use ultra_fast_file_search::cli_args::{Cli, Columns};
use ultra_fast_file_search::disk::{HashableMediaType, RaidInfo};
use ultra_fast_file_search::file_metadata::{
    AclEntry, ExtendedPermissions, FileAttributes, FileMetadata, NtfsAcl, NtfsAclEntry, NtfsAttributes,
    NtfsPermissions, UnixAcl, UnixAclPermissions, UnixMode, UnixPermissions,
};
use ultra_fast_file_search::initialization::set_threads_count;
use ultra_fast_file_search::time_utils::{measure_time_normal, measure_time_normal_bench};

#[test]
fn flags_have_their_bits() {
    assert_eq!(FileAttributes::DIRECTORY, 1);
    assert_eq!(FileAttributes::FILE, 2);
    assert_eq!(FileAttributes::OTHER, 0x8000);
    assert_eq!(FileAttributes::ALL, 0xffff);
    assert_eq!(UnixMode::USER_READ, 0o400);
    assert_eq!(UnixMode::GROUP_WRITE, 0o020);
    assert_eq!(UnixMode::OTHER_EXECUTE, 0o001);
    assert_eq!(UnixMode::SETUID, 0o4000);
    assert_eq!(UnixMode::ALL, 0o7777);
    assert_eq!(UnixAclPermissions::ALL, 7);
    assert_eq!(NtfsPermissions::FULL_CONTROL, 0x80);
    assert_eq!(NtfsPermissions::ALL, 0xff);
    assert_eq!(NtfsAttributes::NO_SCRUB_DATA, 0x1000);
    assert_eq!(NtfsAttributes::ALL, 0x1fff);
}

#[test]
fn flag_sets_are_built_and_changed() {
    let mut mode = UnixMode::empty();
    assert!(mode.is_empty());
    mode.insert(UnixMode::USER_READ | UnixMode::USER_WRITE);
    assert_eq!(mode.bits, 0o600);
    assert!(mode.contains(UnixMode::USER_READ));
    assert!(!mode.contains(UnixMode::USER_READ | UnixMode::USER_EXECUTE));
    mode.insert(0x8000_0000);
    assert_eq!(mode.bits, 0o600);
    mode.remove(UnixMode::USER_WRITE | UnixMode::STICKY);
    assert_eq!(mode.bits, 0o400);
    assert!(!mode.is_empty());
    assert_eq!(mode, UnixMode::from_bits_truncate(0o400 | 0x1_0000));
}

#[test]
fn bits_that_are_no_flags_are_refused() {
    assert_eq!(UnixAclPermissions::from_bits(5), Some(UnixAclPermissions { bits: 5 }));
    assert_eq!(UnixAclPermissions::from_bits(8), None);
    assert_eq!(UnixAclPermissions::from_bits_truncate(13), UnixAclPermissions { bits: 5 });
    assert_eq!(FileAttributes::from_bits(0x1_0000), None);
    assert_eq!(NtfsAttributes::from_bits(0x1fff), Some(NtfsAttributes { bits: 0x1fff }));
    assert_eq!(NtfsAttributes::from_bits(0x2000), None);
    assert_eq!(NtfsPermissions::from_bits(0), Some(NtfsPermissions::empty()));
}

#[test]
fn metadata_starts_empty() {
    let metadata = FileMetadata::default();
    assert_eq!(metadata.file_size, 0);
    assert_eq!(metadata.extended_permissions, None);
    assert_eq!(metadata.modified, None);
    assert_eq!(metadata.ntfs_attributes, None);
}

#[test]
fn metadata_holds_permissions_of_either_system() {
    let unix = ExtendedPermissions::Unix(UnixPermissions {
        mode: UnixMode::from_bits_truncate(0o644),
        acl: Some(UnixAcl {
            entries: vec![AclEntry {
                user: Some("ann".to_string()),
                group: None,
                permissions: UnixAclPermissions::from_bits_truncate(UnixAclPermissions::READ),
            }],
        }),
    });
    let ntfs = ExtendedPermissions::Ntfs(NtfsAcl {
        entries: vec![NtfsAclEntry {
            principal: "Users".to_string(),
            permissions: NtfsPermissions::from_bits_truncate(NtfsPermissions::READ | NtfsPermissions::EXECUTE),
        }],
    });
    assert_ne!(unix, ntfs);
    let metadata = FileMetadata {
        extended_permissions: Some(unix.clone()),
        file_size: 10,
        disk_size: Some(4096),
        accessed: None,
        modified: Some(SystemTime::UNIX_EPOCH + Duration::from_secs(1)),
        created: Some(SystemTime::UNIX_EPOCH),
        inode: Some(7),
        hard_links: Some(1),
        device_id: Some(2049),
        ntfs_attributes: None,
    };
    assert_eq!(metadata.extended_permissions, Some(unix));
    assert_eq!(metadata.clone(), metadata);
}

#[test]
fn thread_counts_leave_a_tenth_of_the_cores() {
    assert_eq!(set_threads_count(0), (0, 0));
    assert_eq!(set_threads_count(1), (1, 2));
    assert_eq!(set_threads_count(9), (9, 18));
    assert_eq!(set_threads_count(10), (9, 18));
    assert_eq!(set_threads_count(16), (15, 30));
    assert_eq!(set_threads_count(128), (116, 232));
}

#[test]
fn thread_counts_agree_with_the_tenth_in_floating_point() {
    for cores in 0usize..=5000 {
        let workers = cores - (cores as f64 * 0.1) as usize;
        assert_eq!(set_threads_count(cores), (workers, workers * 2), "{}", cores);
    }
}

#[test]
fn measuring_hands_the_result_on() {
    let (value, _elapsed) = measure_time_normal(|| 6 * 7);
    assert_eq!(value, 42);
    let (text, _elapsed) = measure_time_normal(|| "done".to_string());
    assert_eq!(text, "done");
}

#[test]
fn measuring_runs_the_function_once() {
    let calls = std::cell::Cell::new(0);
    let failing = || -> Result<(), String> {
        calls.set(calls.get() + 1);
        Err("no".to_string())
    };
    let elapsed = measure_time_normal_bench(failing);
    assert_eq!(calls.get(), 1);
    assert!(elapsed < Duration::from_secs(3600));
}

#[test]
fn plain_records_hold_their_values() {
    let cli = Cli { search_path: "*".to_string(), columns: vec![Columns::Path, Columns::Name] };
    assert_eq!(cli.columns, vec![Columns::Path, Columns::Name]);
    assert_eq!(HashableMediaType(12), HashableMediaType(12));
    assert_eq!(HashableMediaType::default(), HashableMediaType(0));
    let raid = RaidInfo::default();
    assert_eq!(raid.num_devices, 0);
    assert!(!raid.degraded);
    assert_eq!(raid.raid_level, "");
}
