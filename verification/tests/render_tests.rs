use image_compressor::render::{
    append_log_line, decimal, failure_log_line, final_status, fixed_hundredths,
    processing_status, scan_status, signed_fixed_hundredths, success_log_line,
};
use image_compressor::stats::CompressionStats;

#[test]
fn decimal_renders_without_leading_zeros() {
    assert_eq!(decimal(0), "0");
    assert_eq!(decimal(7), "7");
    assert_eq!(decimal(407), "407");
    assert_eq!(decimal(1_000_000), "1000000");
}

#[test]
fn fixed_point_renders_two_decimals() {
    assert_eq!(fixed_hundredths(4000), "40.00");
    assert_eq!(fixed_hundredths(5), "0.05");
    assert_eq!(fixed_hundredths(150), "1.50");
    assert_eq!(fixed_hundredths(0), "0.00");
}

#[test]
fn signed_fixed_point_carries_the_sign() {
    assert_eq!(signed_fixed_hundredths(-4000), "-40.00");
    assert_eq!(signed_fixed_hundredths(4000), "40.00");
    assert_eq!(signed_fixed_hundredths(-5), "-0.05");
}

#[test]
fn scan_status_counts_the_candidates() {
    assert_eq!(scan_status(5), "Found 5 image files");
    assert_eq!(scan_status(0), "No compressible images found");
}

#[test]
fn processing_status_names_the_file_and_position() {
    assert_eq!(processing_status("pics/a.jpg", 3, 7), "Processing: pics/a.jpg (3/7)");
}

#[test]
fn success_line_shows_sizes_and_percent_saved() {
    let stats = CompressionStats { original_size: 1_024_000, new_size: 614_400 };
    assert_eq!(
        success_log_line("pics/a.jpg", &stats),
        "OK pics/a.jpg | 1000.00 KB -> 600.00 KB (saved 40.00%)"
    );
}

#[test]
fn success_line_shows_a_negative_percent_for_a_grown_file() {
    let stats = CompressionStats { original_size: 1024, new_size: 1536 };
    assert_eq!(
        success_log_line("b.png", &stats),
        "OK b.png | 1.00 KB -> 1.50 KB (saved -50.00%)"
    );
}

#[test]
fn failure_line_names_the_file_and_reason() {
    assert_eq!(failure_log_line("bad.png", "could not decode"), "FAIL bad.png | could not decode");
}

#[test]
fn final_status_reports_megabytes_saved() {
    assert_eq!(final_status(2, 419_430_400), "Done: processed 2 images, saved 400.00 MB");
}

#[test]
fn final_status_reports_growth_as_a_positive_magnitude() {
    assert_eq!(
        final_status(3, -2_097_152),
        "Done: processed 3 images, total size increased 2.00 MB"
    );
}

#[test]
fn log_lines_accumulate_with_newlines() {
    let mut log = String::new();
    append_log_line(&mut log, "first");
    append_log_line(&mut log, "second");
    assert_eq!(log, "first\nsecond\n");
}

#[test]
fn final_status_of_an_empty_run() {
    assert_eq!(final_status(0, 0), "Done: processed 0 images, saved 0.00 MB");
}
