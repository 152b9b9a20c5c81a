use webpify::engine::WebpifyCore;
use webpify::formats::ImageFormat;
use webpify::options::{CompressionMode, ConversionOptions, ReplaceInputMode};
use webpify::paths::FilePath;

fn s(x: &str) -> String {
    x.to_string()
}

fn options() -> ConversionOptions {
    ConversionOptions::new(vec![s("in")])
}

#[test]
fn every_item_is_processed_failed_or_skipped() {
    let mut core = WebpifyCore::new(options());
    core.begin_run(5, 0);
    core.note_success(100, 60, None);
    core.note_success(200, 80, None);
    core.note_failure(s("in/bad.png"), s("decode failed"));
    core.note_skip();
    core.note_skip();
    let report = core.finish_run(2000, 8);
    assert_eq!(report.total_files, 5);
    assert_eq!(report.processed_files, 2);
    assert_eq!(report.failed_files, 1);
    assert_eq!(report.skipped_files, 2);
    assert_eq!(
        report.processed_files + report.failed_files + report.skipped_files,
        report.total_files
    );
    assert_eq!(report.original_size, 300);
    assert_eq!(report.compressed_size, 140);
    assert_eq!(report.duration_ms, 2000);
    assert_eq!(report.thread_count, 8);
    assert_eq!(report.errors, vec![s("in/bad.png: decode failed")]);
}

#[test]
fn an_existing_destination_is_skipped_without_any_codec_call() {
    let mut core = WebpifyCore::new(options());
    core.begin_run(1, 0);
    assert!(core.should_skip_existing(true));
    assert!(!core.should_skip_existing(false));
    core.note_skip();
    let report = core.finish_run(10, 1);
    assert_eq!(report.skipped_files, 1);
    assert_eq!(report.processed_files, 0);
}

#[test]
fn overwriting_converts_over_an_existing_destination() {
    let core = WebpifyCore::new(options().with_overwrite(true));
    assert!(!core.should_skip_existing(true));
}

#[test]
fn a_disposition_failure_marks_the_list_but_not_the_counts() {
    let mut core = WebpifyCore::new(options());
    core.begin_run(1, 0);
    core.note_success(100, 60, Some((s("in/a.png"), s("permission denied"))));
    let report = core.finish_run(10, 1);
    assert_eq!(report.processed_files, 1);
    assert_eq!(report.failed_files, 0);
    assert_eq!(
        report.errors,
        vec![s("in/a.png: disposition failed: permission denied")]
    );
    assert!(report.errors[0].contains("disposition"));
}

#[test]
fn planning_derives_the_output_path_and_format() {
    let core = WebpifyCore::new(options());
    let src = FilePath {
        dirs: vec![s("in"), s("sub")],
        stem: s("photo"),
        ext: s("JPG"),
    };
    let plan = core.plan_item(&src).unwrap();
    assert_eq!(plan.output.dirs, vec![s("in"), s("webp_output"), s("sub")]);
    assert_eq!(plan.output.stem, s("photo"));
    assert_eq!(plan.output.ext, s("webp"));
    assert_eq!(plan.ext_lower, s("jpg"));
    assert_eq!(plan.format, Some(ImageFormat::Jpg));
}

#[test]
fn planning_rejects_a_file_outside_the_input_root() {
    let core = WebpifyCore::new(options());
    let src = FilePath {
        dirs: vec![s("elsewhere")],
        stem: s("photo"),
        ext: s("jpg"),
    };
    assert!(core.plan_item(&src).is_err());
}

#[test]
fn the_empty_report_notes_that_nothing_was_found() {
    let core = WebpifyCore::new(options().with_mode(CompressionMode::Auto));
    let report = core.empty_report(5, 15, 2);
    assert_eq!(report.total_files, 0);
    assert_eq!(report.processed_files, 0);
    assert_eq!(report.duration_ms, 10);
    assert_eq!(report.mode, s("Auto"));
    assert_eq!(
        report.errors,
        vec![s("No supported image files found in the specified directory")]
    );
}

#[test]
fn only_a_live_run_creates_the_output_root() {
    let live = WebpifyCore::new(options());
    assert!(live.should_create_output_root());
    let dry = WebpifyCore::new(options().with_dry_run(true));
    assert!(!dry.should_create_output_root());
}

#[test]
fn a_dry_run_never_asks_for_a_disposition_action() {
    let wet = WebpifyCore::new(options().with_replace_input_mode(ReplaceInputMode::Delete));
    assert!(wet.should_perform_disposition());
    let dry = WebpifyCore::new(
        options()
            .with_replace_input_mode(ReplaceInputMode::Delete)
            .with_dry_run(true),
    );
    assert!(!dry.should_perform_disposition());
    let keep = WebpifyCore::new(options());
    assert!(!keep.should_perform_disposition());
}

#[test]
fn format_tallies_flow_into_the_report() {
    let mut core = WebpifyCore::new(options());
    core.begin_run(2, 0);
    core.note_format(s("png"));
    core.note_success(10, 5, None);
    core.note_format(s("png"));
    core.note_failure(s("x"), s("y"));
    let report = core.finish_run(10, 1);
    assert_eq!(report.format_stats, vec![(s("png"), 2)]);
}

#[test]
fn the_report_rates_are_scaled_integers() {
    let mut core = WebpifyCore::new(options());
    core.begin_run(2, 0);
    core.note_success(1000, 500, None);
    core.note_success(1000, 500, None);
    // Two files and a thousand output bytes in two seconds.
    let report = core.finish_run(2000, 1);
    assert_eq!(report.files_per_second_milli, 1000);
    assert_eq!(report.bytes_per_second, 500);
    assert_eq!(report.compression_ratio_permille, 500);
}
