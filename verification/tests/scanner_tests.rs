use webpify::options::ConversionOptions;
use webpify::paths::FilePath;
use webpify::scanner::{is_candidate, select_candidates, FileEntry};

fn s(x: &str) -> String {
    x.to_string()
}

const PNG_MAGIC: [u8; 8] = [0x89, 0x50, 0x4e, 0x47, 0x0d, 0x0a, 0x1a, 0x0a];
const JPEG_MAGIC: [u8; 2] = [0xff, 0xd8];

fn entry(name: &str, ext: &str, size: u64, header: Vec<u8>) -> FileEntry {
    FileEntry {
        path: FilePath {
            dirs: vec![s("in")],
            stem: s(name),
            ext: s(ext),
        },
        display: format!("in/{name}.{ext}"),
        size,
        header,
    }
}

fn options() -> ConversionOptions {
    ConversionOptions::new(vec![s("in")])
}

#[test]
fn a_well_formed_png_is_a_candidate() {
    let e = entry("a", "png", 2048, PNG_MAGIC.to_vec());
    assert!(is_candidate(&e, &options()));
}

#[test]
fn deep_validation_rejects_a_png_with_a_jpeg_prefix() {
    let mut header = JPEG_MAGIC.to_vec();
    header.extend_from_slice(&[0, 0, 0, 0, 0, 0]);
    let e = entry("fake", "png", 2048, header.clone());
    let deep = options().with_prescan(true);
    assert!(!is_candidate(&e, &deep));
    let shallow = options().with_prescan(false);
    let e2 = entry("fake", "png", 2048, header);
    assert!(is_candidate(&e2, &shallow));
}

#[test]
fn extensions_are_lowercased_before_filtering() {
    let e = entry("shout", "PNG", 2048, PNG_MAGIC.to_vec());
    assert!(is_candidate(&e, &options()));
}

#[test]
fn an_unaccepted_extension_is_not_a_candidate() {
    let e = entry("notes", "txt", 2048, vec![]);
    assert!(!is_candidate(&e, &options()));
}

#[test]
fn webp_sources_are_skipped_unless_reencoding() {
    let header = b"RIFF\x10\x00\x00\x00WEBP".to_vec();
    let e = entry("done", "webp", 2048, header.clone());
    assert!(!is_candidate(&e, &options()));
    let e2 = entry("done", "webp", 2048, header);
    assert!(is_candidate(&e2, &options().with_reencode_webp(true)));
}

#[test]
fn size_bounds_are_respected() {
    let small = entry("tiny", "png", 1023, PNG_MAGIC.to_vec());
    assert!(!is_candidate(&small, &options().with_min_size_kb(1)));
    let exact = entry("fits", "png", 1024, PNG_MAGIC.to_vec());
    assert!(is_candidate(&exact, &options().with_min_size_kb(1)));
    let big = entry("big", "png", 1024 * 1024 + 1, PNG_MAGIC.to_vec());
    assert!(!is_candidate(&big, &options().with_max_size_mb(1)));
    let under = entry("under", "png", 1024 * 1024, PNG_MAGIC.to_vec());
    assert!(is_candidate(&under, &options().with_max_size_mb(1)));
}

#[test]
fn the_scan_keeps_valid_files_and_their_order() {
    let mut entries = Vec::new();
    for i in 0..100 {
        if i % 20 == 0 {
            // Five corrupted files: a PNG extension over a JPEG prefix.
            let mut header = JPEG_MAGIC.to_vec();
            header.extend_from_slice(&[0, 0, 0, 0, 0, 0]);
            entries.push(entry(&format!("f{i}"), "png", 2048, header));
        } else {
            entries.push(entry(&format!("f{i}"), "png", 2048, PNG_MAGIC.to_vec()));
        }
    }
    let kept = select_candidates(entries, &options());
    assert_eq!(kept.len(), 95);
    assert_eq!(kept[0].path.stem, s("f1"));

    // Drive a run over the selected files: every conversion succeeds, so
    // the report covers all ninety-five with an empty error list.
    let mut core = webpify::engine::WebpifyCore::new(options());
    core.begin_run(kept.len() as u64, 0);
    for item in &kept {
        let plan = core.plan_item(&item.path).unwrap();
        core.note_format(plan.ext_lower.clone());
        core.note_success(item.size, item.size / 2, None);
    }
    let report = core.finish_run(1000, 4);
    assert_eq!(report.total_files, 95);
    assert_eq!(report.processed_files, 95);
    assert_eq!(report.failed_files, 0);
    assert!(report.errors.is_empty());
}
