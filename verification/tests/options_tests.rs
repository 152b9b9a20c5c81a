use webpify::options::{CompressionMode, ConversionOptions, ReplaceInputMode, ReportFormat};
use webpify::progress::{NoOpProgressReporter, ProgressReporter};

fn s(x: &str) -> String {
    x.to_string()
}

#[test]
fn defaults_match_the_documented_configuration() {
    let o = ConversionOptions::new(vec![s("in")]);
    assert_eq!(o.input_dir, vec![s("in")]);
    assert_eq!(o.output_dir, None);
    assert_eq!(o.quality, 80);
    assert_eq!(o.mode, CompressionMode::Lossless);
    assert_eq!(o.threads, None);
    assert_eq!(
        o.formats,
        vec![s("jpg"), s("jpeg"), s("png"), s("gif"), s("bmp"), s("tiff"), s("webp")]
    );
    assert!(!o.overwrite);
    assert!(o.preserve_structure);
    assert_eq!(o.max_size, None);
    assert_eq!(o.min_size, 1);
    assert!(o.prescan);
    assert_eq!(o.replace_input, ReplaceInputMode::Off);
    assert!(!o.reencode_webp);
    assert!(!o.dry_run);
    assert!(!o.generate_report);
    assert_eq!(o.report_format, ReportFormat::Json);
}

#[test]
fn builders_set_their_fields() {
    let o = ConversionOptions::new(vec![s("in")])
        .with_quality(60)
        .with_mode(CompressionMode::Auto)
        .with_output_dir(vec![s("out")])
        .with_threads(4)
        .with_dry_run(true)
        .with_overwrite(true)
        .with_preserve_structure(false)
        .with_min_size_kb(2)
        .with_max_size_mb(10)
        .with_prescan(false)
        .with_reencode_webp(true)
        .with_replace_input_mode(ReplaceInputMode::Recycle)
        .with_supported_formats(vec![s("png")]);
    assert_eq!(o.quality, 60);
    assert_eq!(o.mode, CompressionMode::Auto);
    assert_eq!(o.output_dir, Some(vec![s("out")]));
    assert_eq!(o.threads, Some(4));
    assert!(o.dry_run);
    assert!(o.overwrite);
    assert!(!o.preserve_structure);
    assert_eq!(o.min_size, 2);
    assert_eq!(o.max_size, Some(10));
    assert!(!o.prescan);
    assert!(o.reencode_webp);
    assert_eq!(o.replace_input, ReplaceInputMode::Recycle);
    assert_eq!(o.formats, vec![s("png")]);
}

#[test]
fn the_output_root_defaults_to_a_subdirectory_of_the_input() {
    let o = ConversionOptions::new(vec![s("in"), s("pics")]);
    assert_eq!(o.get_output_dir(), vec![s("in"), s("pics"), s("webp_output")]);
    let explicit = o.with_output_dir(vec![s("out")]);
    assert_eq!(explicit.get_output_dir(), vec![s("out")]);
}

#[test]
fn the_worker_count_defaults_to_the_machine() {
    let o = ConversionOptions::new(vec![s("in")]);
    assert_eq!(o.get_thread_count(8), 8);
    let explicit = o.with_threads(3);
    assert_eq!(explicit.get_thread_count(8), 3);
}

#[test]
fn mode_labels() {
    assert_eq!(CompressionMode::Lossless.label(), s("Lossless"));
    assert_eq!(CompressionMode::Lossy.label(), s("Lossy"));
    assert_eq!(CompressionMode::Auto.label(), s("Auto"));
}

#[test]
fn the_noop_reporter_accepts_every_hook() {
    let r = NoOpProgressReporter;
    r.set_total_files(10);
    r.update_progress(1, 0);
    r.start_conversion();
    r.finish_conversion();
    r.report_error("a", "b");
    r.report_success("a", 10, 5);
}
