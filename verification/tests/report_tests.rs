use std::time::Duration;
use ultra_fast_file_search::disk::{ColumnLengths, DiskKind, DriveInfo};
use ultra_fast_file_search::drive_info::{skeleton_of, ListedDisk};
use ultra_fast_file_search::path_order::{precedes, sort_by_root_path};
use ultra_fast_file_search::report::{
    accumulate_totals, drive_info_table, drive_info_table_for, format_seconds, header_cells,
    separator_line, totals_cells, Totals,
};

const GB: usize = 1024 * 1024 * 1024;

fn drive(root: &str, name: &str, kind: DiskKind, total: usize, available: usize) -> DriveInfo {
    skeleton_of(&ListedDisk {
        name: name.to_string(),
        mount_point: root.to_string(),
        kind,
        total_space: total,
        available_space: available,
    })
}

fn scanned(root: &str, name: &str, files: usize, dirs: usize, nanos: u64) -> DriveInfo {
    let mut volume = drive(root, name, DiskKind::SSD, 500 * GB, 125 * GB + GB / 2);
    volume.num_files = files;
    volume.num_dirs = dirs;
    volume.time_nanoseconds = nanos;
    volume
}

#[test]
fn totals_are_the_sums_of_the_columns() {
    let mut drives = vec![
        scanned("/", "a", 10, 1, 0),
        scanned("/home", "b", 200, 20, 0),
        scanned("/var/lib/data", "c", 3000, 300, 0),
    ];
    drives[1].total_space = 7;
    drives[1].available_space = 3;
    let totals = accumulate_totals(&drives);
    assert_eq!(totals.total_files, 3210);
    assert_eq!(totals.total_dirs, 321);
    assert_eq!(totals.total_space, (1000 * GB + 7) as u128);
    assert_eq!(totals.available_space, (251 * GB + 3) as u128);
    assert_eq!(totals.longest_path_length, 13);
}

#[test]
fn totals_of_no_volume_are_zero() {
    assert_eq!(
        accumulate_totals(&Vec::new()),
        Totals { longest_path_length: 0, total_files: 0, total_dirs: 0, total_space: 0, available_space: 0 }
    );
}

#[test]
fn totals_do_not_overflow() {
    let mut big = drive("/", "a", DiskKind::HDD, usize::MAX, usize::MAX);
    big.num_files = usize::MAX;
    big.num_dirs = usize::MAX;
    let drives = vec![big.clone(), big.clone(), big];
    let totals = accumulate_totals(&drives);
    let expected = 3 * (usize::MAX as u128);
    assert_eq!(totals.total_files, expected);
    assert_eq!(totals.total_dirs, expected);
    assert_eq!(totals.total_space, expected);
    assert_eq!(totals.available_space, expected);
}

#[test]
fn the_longest_path_is_measured_in_bytes() {
    let drives = vec![drive("/a", "a", DiskKind::HDD, 1, 1), drive("/\u{e9}\u{e9}", "b", DiskKind::HDD, 1, 1)];
    assert_eq!(accumulate_totals(&drives).longest_path_length, 5);
}

#[test]
fn paths_are_compared_byte_by_byte() {
    assert!(precedes("", ""));
    assert!(precedes("", "a"));
    assert!(!precedes("a", ""));
    assert!(precedes("a", "a"));
    assert!(precedes("a", "b"));
    assert!(!precedes("b", "a"));
    assert!(precedes("/mnt", "/mnt/data"));
    assert!(!precedes("/mnt/data", "/mnt"));
    assert!(precedes("C:\\", "D:\\"));
    assert!(precedes("Z", "a"));
    assert!(precedes("z", "\u{e9}"));
    assert!(precedes("\u{ffff}", "\u{10000}"));
}

#[test]
fn comparison_agrees_with_the_order_of_strings() {
    let samples = ["", "/", "/a", "/a/b", "/b", "C:\\", "c:\\", "\u{e9}", "\u{10000}", "\u{ffff}", "a\u{0}", "a"];
    for a in samples {
        for b in samples {
            assert_eq!(precedes(a, b), a <= b, "{:?} {:?}", a, b);
            assert!(precedes(a, b) || precedes(b, a));
        }
    }
}

#[test]
fn volumes_are_sorted_by_root_path() {
    let mut drives = vec![
        drive("/var", "v", DiskKind::HDD, 1, 1),
        drive("/", "r", DiskKind::HDD, 1, 1),
        drive("/home", "h", DiskKind::HDD, 1, 1),
        drive("/boot", "b", DiskKind::HDD, 1, 1),
    ];
    sort_by_root_path(&mut drives);
    let paths: Vec<&str> = drives.iter().map(|d| d.root_path.as_str()).collect();
    assert_eq!(paths, vec!["/", "/boot", "/home", "/var"]);
}

#[test]
fn volumes_with_the_same_root_path_keep_their_order() {
    let mut drives = vec![
        drive("/b", "first", DiskKind::HDD, 1, 1),
        drive("/a", "second", DiskKind::HDD, 1, 1),
        drive("/b", "third", DiskKind::HDD, 1, 1),
        drive("/a", "fourth", DiskKind::HDD, 1, 1),
        drive("/b", "fifth", DiskKind::HDD, 1, 1),
    ];
    sort_by_root_path(&mut drives);
    let names: Vec<&str> = drives.iter().map(|d| d.drive_name.as_str()).collect();
    assert_eq!(names, vec!["second", "fourth", "first", "third", "fifth"]);
}

#[test]
fn sorting_agrees_with_a_stable_sort_by_key() {
    let roots = ["/z", "/a", "/m", "/a", "/z", "/", "/m/n", "/a", "C:\\", "/z"];
    let mut drives: Vec<DriveInfo> =
        roots.iter().enumerate().map(|(i, root)| drive(root, &i.to_string(), DiskKind::SSD, i, i)).collect();
    let mut expected = drives.clone();
    expected.sort_by_key(|d| d.root_path.clone());
    sort_by_root_path(&mut drives);
    assert_eq!(drives, expected);
}

#[test]
fn sorting_nothing_or_one_volume_changes_nothing() {
    let mut none: Vec<DriveInfo> = Vec::new();
    sort_by_root_path(&mut none);
    assert!(none.is_empty());
    let mut one = vec![drive("/", "r", DiskKind::HDD, 1, 1)];
    sort_by_root_path(&mut one);
    assert_eq!(one, vec![drive("/", "r", DiskKind::HDD, 1, 1)]);
}

#[test]
fn a_row_shows_each_value_in_its_column() {
    let volume = scanned("/mnt/data", "sdb1", 1_234_567, 89_012, 90_000_000_000);
    let lengths = ColumnLengths { path_length: 9, ..ColumnLengths::default() };
    assert_eq!(
        volume.format_with_lengths(&lengths),
        "/mnt/data   SSD           500.00 GB         125.50 GB      1,234,567         89,012           90    1 m   30 s "
    );
}

#[test]
fn the_cells_of_a_row() {
    let volume = scanned("/", "sda1", 0, 7, 1_500_000_000);
    let cells = volume.row_cells(&ColumnLengths::default());
    assert_eq!(cells.path, format!("{:<20}", "/"));
    assert_eq!(cells.drive_type, "SSD     ");
    assert_eq!(cells.total_space, "   500.00 GB");
    assert_eq!(cells.available_space, "      125.50 GB");
    assert_eq!(cells.files, "           0");
    assert_eq!(cells.dirs, "           7");
    assert_eq!(cells.time_seconds, "         1");
    assert_eq!(cells.time, "  1 s  500 ms");
    assert_eq!(
        cells.to_line(),
        format!(
            "{}   {}   {}   {}   {}   {}   {}  {}",
            cells.path,
            cells.drive_type,
            cells.total_space,
            cells.available_space,
            cells.files,
            cells.dirs,
            cells.time_seconds,
            cells.time
        )
    );
}

#[test]
fn a_cell_is_never_cut() {
    let mut volume = scanned("/a/long/root/path", "sda1", usize::MAX, 1, 0);
    volume.total_space = usize::MAX;
    let lengths = ColumnLengths {
        path_length: 1,
        type_length: 1,
        total_space_length: 1,
        available_space_length: 1,
        files_length: 1,
        dirs_length: 1,
        time_seconds_length: 1,
        time_length: 1,
    };
    let cells = volume.row_cells(&lengths);
    assert_eq!(cells.path, "/a/long/root/path");
    assert_eq!(cells.drive_type, "SSD");
    assert_eq!(cells.total_space, "16777216.00 TB");
    assert_eq!(cells.available_space, "   125.50 GB");
    assert_eq!(cells.files, "18,446,744,073,709,551,615");
    assert_eq!(cells.dirs, "1");
    assert_eq!(cells.time_seconds, "0");
    assert_eq!(cells.time, "  0 ns");
}

#[test]
fn the_header_names_the_columns() {
    let cells = header_cells(&ColumnLengths { path_length: 6, ..ColumnLengths::default() });
    assert_eq!(cells.path, "Path  ");
    assert_eq!(cells.drive_type, "Type    ");
    assert_eq!(cells.total_space, "Total Size");
    assert_eq!(cells.available_space, "Available Space");
    assert_eq!(cells.files, "       Files");
    assert_eq!(cells.dirs, "        Dirs");
    assert_eq!(cells.time_seconds, "  Time (s)");
    assert_eq!(cells.time, "         Time");
    assert_eq!(
        cells.to_header_line(),
        "Path     Type         Total Size   Available Space          Files           Dirs     Time (s)           Time"
    );
}

#[test]
fn the_separator_spans_the_columns_and_their_padding() {
    let lengths = ColumnLengths { path_length: 9, ..ColumnLengths::default() };
    let line = separator_line(&lengths);
    assert_eq!(line.len(), 9 + 8 + 10 + 15 + 12 + 12 + 10 + 13 + 28);
    assert!(line.chars().all(|c| c == '-'));
    let none = ColumnLengths {
        path_length: 0,
        type_length: 0,
        total_space_length: 0,
        available_space_length: 0,
        files_length: 0,
        dirs_length: 0,
        time_seconds_length: 0,
        time_length: 0,
    };
    assert_eq!(separator_line(&none), "-".repeat(28));
}

#[test]
fn seconds_have_three_decimals() {
    assert_eq!(format_seconds(0, 0), "0.000");
    assert_eq!(format_seconds(90, 0), "90.000");
    assert_eq!(format_seconds(1, 234_567_890), "1.235");
    assert_eq!(format_seconds(1, 234_499_999), "1.234");
    assert_eq!(format_seconds(0, 999_999_999), "1.000");
    assert_eq!(format_seconds(0, 999_499_999), "0.999");
    assert_eq!(format_seconds(12, 500_000), "12.000");
    assert_eq!(format_seconds(12, 1_500_000), "12.002");
    assert_eq!(format_seconds(u64::MAX, 999_999_999), "18446744073709551616.000");
}

#[test]
fn seconds_agree_with_floating_point_rendering() {
    for (secs, nanos) in [(0u64, 1u32), (3, 141_592_653), (59, 999_400_000), (86_400, 1_000), (7, 700_700_700)] {
        let expected = format!("{:.3}", Duration::new(secs, nanos).as_secs_f64());
        assert_eq!(format_seconds(secs, nanos), expected);
    }
}

#[test]
fn the_row_of_totals() {
    let totals = Totals {
        longest_path_length: 9,
        total_files: 1_234_567,
        total_dirs: 89,
        total_space: 3 * 1024 * (GB as u128),
        available_space: (GB as u128) / 4,
    };
    let lengths = ColumnLengths { path_length: 9, ..ColumnLengths::default() };
    let cells = totals_cells(&totals, 90, 500_000_000, &lengths);
    assert_eq!(cells.path, "Total    ");
    assert_eq!(cells.drive_type, "        ");
    assert_eq!(cells.total_space, "     3.00 TB");
    assert_eq!(cells.available_space, "        0.25 GB");
    assert_eq!(cells.files, "   1,234,567");
    assert_eq!(cells.dirs, "          89");
    assert_eq!(cells.time_seconds, "    90.500");
    assert_eq!(cells.time, "  1 m   30 s ");
    assert_eq!(
        cells.to_line(),
        "Total                       3.00 TB           0.25 GB      1,234,567             89       90.500    1 m   30 s "
    );
}

#[test]
fn a_report_on_three_volumes() {
    let mut drives = vec![
        scanned("/home", "b", 200, 20, 2_000_000_000),
        scanned("/", "a", 10, 1, 1_000_000_000),
        scanned("/var/lib", "c", 3000, 300, 3_000_000_000),
    ];
    let before = drives.clone();
    let table = drive_info_table(&mut drives, Duration::from_millis(6_250));
    let lengths = ColumnLengths { path_length: 8, ..ColumnLengths::default() };

    let roots: Vec<&str> = drives.iter().map(|d| d.root_path.as_str()).collect();
    assert_eq!(roots, vec!["/", "/home", "/var/lib"]);

    assert_eq!(table.header, header_cells(&lengths));
    assert_eq!(table.separator, "-".repeat(8 + 80 + 28));
    assert_eq!(table.rows.len(), 3);
    for (row, volume) in table.rows.iter().zip(drives.iter()) {
        assert_eq!(*row, volume.format_with_lengths(&lengths));
    }
    assert_eq!(
        table.rows[1],
        "/home      SSD           500.00 GB         125.50 GB            200             20            2    2 s    0 ms"
    );
    assert_eq!(table.totals, totals_cells(&accumulate_totals(&before), 6, 250_000_000, &lengths));
    assert_eq!(table.totals.path, "Total   ");
    assert_eq!(table.totals.total_space, "     1.46 TB");
    assert_eq!(table.totals.available_space, "      376.50 GB");
    assert_eq!(table.totals.files, "       3,210");
    assert_eq!(table.totals.dirs, "         321");
    assert_eq!(table.totals.time_seconds, "     6.250");
    assert_eq!(table.totals.time, "  6 s  250 ms");
}

#[test]
fn a_report_on_no_volume() {
    let mut drives: Vec<DriveInfo> = Vec::new();
    let table = drive_info_table_for(&mut drives, 0, 0);
    assert!(table.rows.is_empty());
    assert_eq!(table.separator, "-".repeat(80 + 28));
    assert_eq!(table.header.path, "Path");
    assert_eq!(table.totals.path, "Total");
    assert_eq!(table.totals.total_space, "     0.00 GB");
    assert_eq!(table.totals.files, "           0");
    assert_eq!(table.totals.time_seconds, "     0.000");
    assert_eq!(table.totals.time, "         0 ns");
}

#[test]
fn rows_of_the_same_root_path_keep_their_order_in_the_report() {
    let mut drives = vec![scanned("/x", "one", 1, 0, 0), scanned("/x", "two", 2, 0, 0), scanned("/a", "three", 3, 0, 0)];
    let table = drive_info_table_for(&mut drives, 1, 0);
    let names: Vec<&str> = drives.iter().map(|d| d.drive_name.as_str()).collect();
    assert_eq!(names, vec!["three", "one", "two"]);
    assert!(table.rows[1].contains("           1   "));
    assert!(table.rows[2].contains("           2   "));
}
