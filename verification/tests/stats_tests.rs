use image_compressor::stats::{
    kb_hundredths, mb_hundredths, mb_hundredths_wide, savings_percent_hundredths, summarize_run,
    CompressionStats, FileOutcome, RunTotals,
};

#[test]
fn savings_of_a_million_to_six_hundred_thousand_is_forty_percent() {
    assert_eq!(savings_percent_hundredths(1_000_000, 600_000), 4000);
}

#[test]
fn savings_percent_is_zero_for_an_empty_original() {
    assert_eq!(savings_percent_hundredths(0, 100), 0);
}

#[test]
fn savings_percent_is_negative_when_the_file_grew() {
    assert_eq!(savings_percent_hundredths(100, 150), -5000);
}

#[test]
fn savings_percent_truncates_toward_zero() {
    assert_eq!(savings_percent_hundredths(3, 2), 3333);
    assert_eq!(savings_percent_hundredths(3, 4), -3333);
}

#[test]
fn kilobyte_and_megabyte_figures_are_exact_hundredths() {
    assert_eq!(kb_hundredths(1024), 100);
    assert_eq!(kb_hundredths(1536), 150);
    assert_eq!(kb_hundredths(0), 0);
    assert_eq!(mb_hundredths(1_048_576), 100);
    assert_eq!(mb_hundredths_wide(2_097_152), 200);
}

#[test]
fn a_compressed_file_contributes_its_exact_difference() {
    let mut totals = RunTotals::new(1);
    totals.record_success(&CompressionStats { original_size: 1_000_000, new_size: 600_000 });
    assert_eq!(totals.saved, 400_000);
    assert_eq!(totals.processed, 1);
    assert_eq!(totals.total, 1);
}

#[test]
fn a_grown_file_contributes_a_negative_difference() {
    let mut totals = RunTotals::new(2);
    totals.record_success(&CompressionStats { original_size: 100, new_size: 150 });
    assert_eq!(totals.saved, -50);
    totals.record_success(&CompressionStats { original_size: 500, new_size: 100 });
    assert_eq!(totals.saved, 350);
}

#[test]
fn a_failure_leaves_the_saved_total_untouched() {
    let mut totals = RunTotals::new(3);
    totals.record_success(&CompressionStats { original_size: 1_000_000, new_size: 600_000 });
    totals.record_failure();
    assert_eq!(totals.saved, 400_000);
    assert_eq!(totals.processed, 2);
    totals.record_failure();
    assert_eq!(totals.saved, 400_000);
    assert_eq!(totals.processed, 3);
}

#[test]
fn an_empty_run_has_zero_totals() {
    let totals = RunTotals::new(0);
    assert_eq!(totals.total, 0);
    assert_eq!(totals.processed, 0);
    assert_eq!(totals.saved, 0);
}

#[test]
fn a_whole_run_sums_only_its_successes() {
    let outcomes = vec![
        FileOutcome::Compressed(CompressionStats { original_size: 1_000_000, new_size: 600_000 }),
        FileOutcome::Failed,
        FileOutcome::Compressed(CompressionStats { original_size: 100, new_size: 150 }),
        FileOutcome::Failed,
    ];
    let totals = summarize_run(&outcomes);
    assert_eq!(totals.total, 4);
    assert_eq!(totals.processed, 4);
    assert_eq!(totals.saved, 400_000 - 50);
}

#[test]
fn a_run_of_no_outcomes_saves_nothing() {
    let outcomes: Vec<FileOutcome> = Vec::new();
    let totals = summarize_run(&outcomes);
    assert_eq!(totals.total, 0);
    assert_eq!(totals.saved, 0);
}

#[test]
fn progress_is_reported_in_thousandths() {
    let mut totals = RunTotals::new(4);
    assert_eq!(totals.progress_permille(), 0);
    totals.record_success(&CompressionStats { original_size: 10, new_size: 5 });
    assert_eq!(totals.progress_permille(), 250);
    totals.record_failure();
    assert_eq!(totals.progress_permille(), 500);
    totals.record_failure();
    totals.record_failure();
    assert_eq!(totals.progress_permille(), 1000);
}
