use webpify::stats::{compression_ratio_permille, ConversionStats};
use webpify::utils::{format_duration, u64_to_string};

fn s(x: &str) -> String {
    x.to_string()
}

#[test]
fn ratio_is_zero_on_empty_runs() {
    assert_eq!(compression_ratio_permille(0, 0), 0);
    assert_eq!(compression_ratio_permille(0, 500), 0);
}

#[test]
fn ratio_matches_the_formula() {
    assert_eq!(compression_ratio_permille(1000, 600), 400);
    assert_eq!(compression_ratio_permille(1000, 0), 1000);
    assert_eq!(compression_ratio_permille(3, 1), 667);
}

#[test]
fn ratio_stays_in_the_unit_interval() {
    for (o, c) in [(1u64, 0u64), (1, 1), (1, 2), (7, 5), (u64::MAX, 1), (1, u64::MAX)] {
        let r = compression_ratio_permille(o, c);
        assert!(r <= 1000);
    }
    // Output larger than input floors at zero rather than going negative.
    assert_eq!(compression_ratio_permille(100, 200), 0);
}

#[test]
fn counters_accumulate() {
    let mut st = ConversionStats::new();
    st.record_success(1000, 600);
    st.record_success(500, 100);
    st.record_skip();
    st.record_error(s("a.png"), s("boom"));
    assert_eq!(st.processed_count, 2);
    assert_eq!(st.skipped_count, 1);
    assert_eq!(st.error_count, 1);
    assert_eq!(st.original_size, 1500);
    assert_eq!(st.compressed_size, 700);
    assert_eq!(st.compression_ratio_permille(), 1000 - 700 * 1000 / 1500);
}

#[test]
fn errors_are_flattened_as_path_colon_message() {
    let mut st = ConversionStats::new();
    st.record_error(s("a.png"), s("decode failed"));
    st.record_error(s("b.gif"), s("write failed"));
    assert_eq!(
        st.get_errors(),
        vec![s("a.png: decode failed"), s("b.gif: write failed")]
    );
}

#[test]
fn disposition_failures_join_the_error_list_without_counting_as_failures() {
    let mut st = ConversionStats::new();
    st.record_disposition_failure(s("a.png"), s("permission denied"));
    assert_eq!(st.error_count, 0);
    assert_eq!(
        st.get_errors(),
        vec![s("a.png: disposition failed: permission denied")]
    );
}

#[test]
fn retries_bump_the_most_recent_matching_error() {
    let mut st = ConversionStats::new();
    st.record_error(s("a.png"), s("first"));
    st.record_error(s("b.png"), s("other"));
    st.record_error(s("a.png"), s("second"));
    st.record_retry(&s("a.png"));
    st.record_retry(&s("missing.png"));
    assert_eq!(st.retry_count, 2);
    let errors = st.get_errors();
    assert_eq!(errors.len(), 3);
    assert_eq!(st.errors[2].retry_count, 1);
    assert_eq!(st.errors[0].retry_count, 0);
}

#[test]
fn format_tallies_are_kept_per_exact_extension() {
    let mut st = ConversionStats::new();
    st.record_format(s("jpg"));
    st.record_format(s("jpg"));
    st.record_format(s("png"));
    st.record_format(s("heic"));
    let pairs = st.get_format_stats();
    assert_eq!(pairs, vec![(s("jpg"), 2), (s("png"), 1), (s("heic"), 1)]);
    assert_eq!(st.format_tally(&s("jpg")), 2);
    assert_eq!(st.format_tally(&s("heic")), 1);
    assert_eq!(st.format_tally(&s("gif")), 0);
}

#[test]
fn eta_needs_a_timer_and_progress() {
    let mut st = ConversionStats::new();
    assert_eq!(st.estimate_eta(10, 1000), None);
    st.start_timer(0);
    assert_eq!(st.estimate_eta(10, 1000), None);
    st.record_success(10, 5);
    st.record_success(10, 5);
    assert_eq!(st.estimate_eta(0, 1000), None);
    // Two files in one second; eight remain: four seconds to go.
    assert_eq!(st.estimate_eta(10, 1000), Some(4000));
}

#[test]
fn decimal_rendering() {
    assert_eq!(u64_to_string(0), s("0"));
    assert_eq!(u64_to_string(7), s("7"));
    assert_eq!(u64_to_string(12345), s("12345"));
    assert_eq!(u64_to_string(u64::MAX), s("18446744073709551615"));
}

#[test]
fn durations_render_human_readably() {
    assert_eq!(format_duration(5), s("5s"));
    assert_eq!(format_duration(59), s("59s"));
    assert_eq!(format_duration(61), s("1m 1s"));
    assert_eq!(format_duration(3600), s("1h 0m 0s"));
    assert_eq!(format_duration(3661), s("1h 1m 1s"));
    assert_eq!(format_duration(0), s("0s"));
}
