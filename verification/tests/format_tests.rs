use std::time::Duration;
use ultra_fast_file_search::format_utils::{format_byte_count, format_count, format_number, format_size};
use ultra_fast_file_search::time_utils::{format_duration, format_elapsed};

const GB: usize = 1024 * 1024 * 1024;

#[test]
fn zero_bytes_are_zero_gigabytes() {
    assert_eq!(format_size(0), "0.00 GB");
}

#[test]
fn one_gigabyte() {
    assert_eq!(format_size(GB), "1.00 GB");
}

#[test]
fn one_terabyte_switches_the_unit() {
    assert_eq!(format_size(1024 * GB), "1.00 TB");
}

#[test]
fn just_below_one_terabyte_stays_in_gigabytes() {
    assert_eq!(format_size(1024 * GB - 1), "1024.00 GB");
    assert_eq!(format_size(1023 * GB), "1023.00 GB");
}

#[test]
fn sizes_round_half_to_even() {
    // 0.125 GB and 0.375 GB lie exactly between two hundredths.
    assert_eq!(format_size(GB / 8), "0.12 GB");
    assert_eq!(format_size(3 * GB / 8), "0.38 GB");
    assert_eq!(format_size(GB / 8 + 1), "0.13 GB");
    assert_eq!(format_size(GB / 8 - 1), "0.12 GB");
}

#[test]
fn sizes_agree_with_floating_point_rendering() {
    let samples: [usize; 14] = [
        0,
        1,
        GB / 200,
        GB / 200 + 1,
        GB / 8,
        3 * GB / 8,
        GB - 1,
        GB + GB / 3,
        500 * GB + 12345,
        1024 * GB - 1,
        1024 * GB,
        1025 * GB + 7,
        5 * 1024 * GB + 1024 * GB / 8,
        (1usize << 53) - 1,
    ];
    for size in samples {
        let gigabytes = size as f64 / (1024.0 * 1024.0 * 1024.0);
        let expected = if gigabytes >= 1024.0 {
            format!("{:.2} TB", gigabytes / 1024.0)
        } else {
            format!("{:.2} GB", gigabytes)
        };
        assert_eq!(format_size(size), expected);
    }
}

#[test]
fn byte_counts_beyond_usize() {
    assert_eq!(format_byte_count(1u128 << 70), "1073741824.00 TB");
    assert_eq!(format_byte_count(u128::MAX), "309485009821345068724781056.00 TB");
}

#[test]
fn numbers_get_thousands_separators() {
    assert_eq!(format_number(1234567, 12), "   1,234,567");
    assert_eq!(format_number(0, 3), "  0");
    assert_eq!(format_number(999, 0), "999");
    assert_eq!(format_number(1000, 0), "1,000");
    assert_eq!(format_number(1000000, 4), "1,000,000");
    assert_eq!(format_count(18446744073709551616, 0), "18,446,744,073,709,551,616");
    assert_eq!(format_count(u128::MAX, 0), "340,282,366,920,938,463,463,374,607,431,768,211,455");
    assert_eq!(format_number(usize::MAX, 30), "    18,446,744,073,709,551,615");
}

#[test]
fn ninety_seconds_are_minutes_and_seconds() {
    assert_eq!(format_duration(Duration::from_secs(90)), "  1 m   30 s ");
}

#[test]
fn each_duration_has_one_tier() {
    assert_eq!(format_duration(Duration::from_secs(93_784)), " 1d  2h");
    assert_eq!(format_duration(Duration::from_secs(3_723)), " 1h  2m");
    assert_eq!(format_duration(Duration::from_secs(59)), " 59 s    0 ms");
    assert_eq!(format_duration(Duration::from_millis(1_500)), "  1 s  500 ms");
    assert_eq!(format_duration(Duration::from_nanos(2_003_000)), "  2 ms   3 \u{3bc}s");
    assert_eq!(format_duration(Duration::from_nanos(5_006)), "  5 \u{3bc}s   6 ns");
    assert_eq!(format_duration(Duration::from_nanos(7)), "  7 ns");
    assert_eq!(format_duration(Duration::from_nanos(0)), "  0 ns");
}

#[test]
fn a_coarser_tier_hides_the_finer_units() {
    // One minute and 999 milliseconds shows no milliseconds.
    assert_eq!(format_elapsed(60, 999_000_000), "  1 m    0 s ");
    assert_eq!(format_elapsed(86_400, 999_999_999), " 1d  0h");
    assert_eq!(format_elapsed(1_000 * 86_400 + 23 * 3_600, 0), "1000d 23h");
}

#[test]
fn duration_and_its_parts_agree() {
    let duration = Duration::new(3_661, 123_456_789);
    assert_eq!(format_duration(duration), format_elapsed(3_661, 123_456_789));
}
