use colored::control::set_override;
use std::time::Duration;
use ultra_fast_file_search::disk::{ColumnLengths, DiskKind};
use ultra_fast_file_search::drive_info::{skeleton_of, ListedDisk};
use ultra_fast_file_search::report::{drive_info_table, header_cells};
use ultra_fast_file_search::style::{plain, style_header, style_separator, style_total};

fn one_volume() -> Vec<ultra_fast_file_search::disk::DriveInfo> {
    vec![skeleton_of(&ListedDisk {
        name: "sda1".to_string(),
        mount_point: "/data".to_string(),
        kind: DiskKind::HDD,
        total_space: 1 << 30,
        available_space: 1 << 29,
    })]
}

#[test]
fn styles_wrap_the_text_where_colours_are_wanted() {
    set_override(true);
    assert_eq!(style_header("Path  "), "\u{1b}[1;4;34mPath  \u{1b}[0m");
    assert_eq!(style_separator("----"), "\u{1b}[32m----\u{1b}[0m");
    assert_eq!(style_total("Total "), "\u{1b}[1;33mTotal \u{1b}[0m");
    assert_eq!(style_header(""), "\u{1b}[1;4;34m\u{1b}[0m");
}

#[test]
fn styles_leave_the_text_alone_where_no_colours_are_wanted() {
    set_override(false);
    assert_eq!(style_header("Path  "), "Path  ");
    assert_eq!(style_separator("----"), "----");
    assert_eq!(style_total("Total "), "Total ");
}

#[test]
fn text_with_an_escape_character_is_never_styled() {
    set_override(true);
    assert!(plain("Total"));
    assert!(plain(""));
    assert!(!plain("a\u{1b}[0mb"));
    assert_eq!(style_header("a\u{1b}[0mb"), "a\u{1b}[0mb");
    assert_eq!(style_separator("\u{1b}"), "\u{1b}");
    assert_eq!(style_total("x\u{1b}"), "x\u{1b}");
}

#[test]
fn a_styled_report_keeps_its_rows() {
    set_override(true);
    let mut drives = one_volume();
    let table = drive_info_table(&mut drives, Duration::from_secs(2));
    let styled = table.clone().styled();
    assert_eq!(styled.rows, table.rows);
    assert_eq!(styled.header.path, format!("\u{1b}[1;4;34m{}\u{1b}[0m", table.header.path));
    assert_eq!(styled.header.time, format!("\u{1b}[1;4;34m{}\u{1b}[0m", table.header.time));
    assert_eq!(styled.separator, format!("\u{1b}[32m{}\u{1b}[0m", table.separator));
    assert_eq!(styled.totals.path, format!("\u{1b}[1;33m{}\u{1b}[0m", table.totals.path));
    assert_eq!(styled.totals.total_space, table.totals.total_space);
    assert_eq!(styled.totals.time, table.totals.time);
}

#[test]
fn the_lines_of_a_report_in_their_order() {
    set_override(false);
    let mut drives = one_volume();
    drives.push(skeleton_of(&ListedDisk {
        name: "sdb1".to_string(),
        mount_point: "/".to_string(),
        kind: DiskKind::SSD,
        total_space: 2 << 30,
        available_space: 0,
    }));
    let table = drive_info_table(&mut drives, Duration::from_secs(2));
    let lines = table.clone().styled().lines();
    assert_eq!(lines, table.lines());
    assert_eq!(
        lines,
        vec![
            "Path    Type         Total Size   Available Space          Files           Dirs     Time (s)           Time",
            "-----------------------------------------------------------------------------------------------------------------",
            "/       SSD             2.00 GB           0.00 GB              0              0            0           0 ns",
            "/data   HDD             1.00 GB           0.50 GB              0              0            0           0 ns",
            "-----------------------------------------------------------------------------------------------------------------",
            "Total                   3.00 GB           0.50 GB              0              0        2.000    2 s    0 ms",
        ]
    );
}

#[test]
fn a_report_on_nothing_has_four_lines() {
    set_override(false);
    let mut drives = Vec::new();
    let lines = drive_info_table(&mut drives, Duration::ZERO).lines();
    assert_eq!(lines.len(), 4);
    assert_eq!(lines[1], lines[2]);
}

#[test]
fn styled_cells_are_put_where_they_belong() {
    let mut drives = one_volume();
    let table = drive_info_table(&mut drives, Duration::from_secs(2));
    let header = header_cells(&ColumnLengths::default());
    let styled = table.clone().with_styled_cells(header.clone(), "====".to_string(), "Sum".to_string());
    assert_eq!(styled.header, header);
    assert_eq!(styled.separator, "====");
    assert_eq!(styled.rows, table.rows);
    assert_eq!(styled.totals.path, "Sum");
    assert_eq!(styled.totals.drive_type, table.totals.drive_type);
    assert_eq!(styled.totals.total_space, table.totals.total_space);
    assert_eq!(styled.totals.available_space, table.totals.available_space);
    assert_eq!(styled.totals.files, table.totals.files);
    assert_eq!(styled.totals.dirs, table.totals.dirs);
    assert_eq!(styled.totals.time_seconds, table.totals.time_seconds);
    assert_eq!(styled.totals.time, table.totals.time);
}

#[test]
fn a_report_with_an_escape_character_in_a_cell_keeps_that_cell() {
    set_override(true);
    let mut drives = one_volume();
    let mut table = drive_info_table(&mut drives, Duration::from_secs(2));
    table.header.path = "Pa\u{1b}th".to_string();
    table.separator = "\u{1b}--".to_string();
    let styled = table.clone().styled();
    assert_eq!(styled.header.path, table.header.path);
    assert_eq!(styled.separator, table.separator);
    assert_eq!(styled.header.files, format!("\u{1b}[1;4;34m{}\u{1b}[0m", table.header.files));
    assert_eq!(styled.totals.path, format!("\u{1b}[1;33m{}\u{1b}[0m", table.totals.path));
}
