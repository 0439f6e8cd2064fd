use mkv_slimmer::config::Config;
use mkv_slimmer::engine::batch::{
    bad_pattern, BatchVerdict, DirectoryEntry, FileOutcome, Scan,
};
use mkv_slimmer::engine::{BatchProcessor, BatchResult};
use mkv_slimmer::error::ErrorKind;
use mkv_slimmer::models::FilePath;
use mkv_slimmer::utils::validation::FileFacts;

fn path(text: &str) -> FilePath {
    FilePath::parse(text)
}

fn paths(texts: &[&str]) -> Vec<FilePath> {
    texts.iter().map(|t| path(t)).collect()
}

fn texts(paths: &[FilePath]) -> Vec<String> {
    paths.iter().map(|p| p.to_text()).collect()
}

fn batch(recursive: bool, pattern: Option<&str>) -> BatchProcessor {
    BatchProcessor::new(
        path("/in"),
        path("/out"),
        recursive,
        pattern.map(|p| p.to_string()),
        Config::default(),
        None,
    )
}

fn file(text: &str) -> DirectoryEntry {
    DirectoryEntry {
        path: path(text),
        facts: FileFacts { exists: true, is_file: true, readable: true },
        is_dir: false,
    }
}

fn dir(text: &str) -> DirectoryEntry {
    DirectoryEntry {
        path: path(text),
        facts: FileFacts { exists: true, is_file: false, readable: true },
        is_dir: true,
    }
}

#[test]
fn new_batch_holds_what_it_was_given() {
    let b = batch(true, Some("*.mkv"));
    assert_eq!(b.input_path.to_text(), "/in");
    assert_eq!(b.target_directory.to_text(), "/out");
    assert!(b.recursive);
    assert_eq!(b.filter_pattern, Some("*.mkv".to_string()));
    assert!(b.sonarr_context.is_none());
}

#[test]
fn filter_matches_the_file_name_when_not_recursive() {
    let b = batch(false, None);
    let kept = b
        .apply_filter(paths(&["/in/a.mkv", "/in/b.mka", "/in/season1.mkv", "/in/x/s.mkv"]), "s*.mkv")
        .unwrap();
    assert_eq!(texts(&kept), vec!["/in/season1.mkv", "/in/x/s.mkv"]);
    let kept = b.apply_filter(paths(&["/in/a.mkv", "/in/b.mka"]), "*.mk?").unwrap();
    assert_eq!(texts(&kept), vec!["/in/a.mkv", "/in/b.mka"]);
    let kept = b.apply_filter(paths(&["/in/a.mkv", "/in/b.mka"]), "a.mkv").unwrap();
    assert_eq!(texts(&kept), vec!["/in/a.mkv"]);
}

#[test]
fn filter_matches_the_relative_path_when_recursive() {
    let b = batch(true, None);
    let files = ["/in/a.mkv", "/in/s1/e1.mkv", "/in/s1/x/e2.mkv", "/in/s2/e1.mkv"];
    let kept = b.apply_filter(paths(&files), "s1/*").unwrap();
    assert_eq!(texts(&kept), vec!["/in/s1/e1.mkv", "/in/s1/x/e2.mkv"]);
    let kept = b.apply_filter(paths(&files), "e1.mkv").unwrap();
    assert!(kept.is_empty());
    let kept = b.apply_filter(paths(&files), "**/e1.mkv").unwrap();
    assert_eq!(texts(&kept), vec!["/in/s1/e1.mkv", "/in/s2/e1.mkv"]);
    let flat = batch(false, None);
    let kept = flat.apply_filter(paths(&files), "e1.mkv").unwrap();
    assert_eq!(texts(&kept), vec!["/in/s1/e1.mkv", "/in/s2/e1.mkv"]);
}

#[test]
fn a_pattern_that_does_not_compile_is_an_error_once_there_is_a_file() {
    let b = batch(false, None);
    let e = b.apply_filter(paths(&["/in/a.mkv"]), "a[").unwrap_err();
    assert_eq!(e.kind, ErrorKind::Validation);
    assert_eq!(
        e.message,
        "Invalid glob pattern: a[: Pattern syntax error near position 1: invalid range pattern"
    );
    let e = b.apply_filter(paths(&["/in/a.mkv"]), "a**b").unwrap_err();
    assert_eq!(
        e.message,
        "Invalid glob pattern: a**b: Pattern syntax error near position 0: recursive wildcards must form a single path component"
    );
    assert!(b.apply_filter(Vec::new(), "a[").unwrap().is_empty());
    let e = bad_pattern("x", 12, "why");
    assert_eq!(e.message, "Invalid glob pattern: x: Pattern syntax error near position 12: why");
}

#[test]
fn a_file_without_a_text_to_match_is_an_error() {
    let e = batch(false, None).apply_filter(paths(&["/in/a.mkv", "/in/.."]), "*").unwrap_err();
    assert_eq!(e.kind, ErrorKind::Validation);
    assert_eq!(e.message, "Failed to get filename");
    let e = batch(true, None).apply_filter(paths(&["/in/a.mkv", "/else/b.mkv"]), "*").unwrap_err();
    assert_eq!(e.message, "Failed to strip prefix from /else/b.mkv: prefix not found");
    let e = batch(true, None).apply_filter(paths(&["/else/b.mkv"]), "a[").unwrap_err();
    assert_eq!(e.message, "Failed to strip prefix from /else/b.mkv: prefix not found");
    let e = batch(true, None).apply_filter(paths(&["/in/a.mkv", "/else/b.mkv"]), "a[").unwrap_err();
    assert!(e.message.starts_with("Invalid glob pattern: a["));
}

#[test]
fn collected_files_are_filtered_and_sorted() {
    let found = ["/in/z.mkv", "/in/b/a.mkv", "/in/a.mkv", "/in/b.mka"];
    let files = batch(true, None).collect_mkv_files(paths(&found)).unwrap();
    assert_eq!(texts(&files), vec!["/in/a.mkv", "/in/b/a.mkv", "/in/b.mka", "/in/z.mkv"]);
    let files = batch(true, Some("*.mkv")).collect_mkv_files(paths(&found)).unwrap();
    assert_eq!(texts(&files), vec!["/in/a.mkv", "/in/b/a.mkv", "/in/z.mkv"]);
    let files = batch(false, Some("a*")).collect_mkv_files(paths(&found)).unwrap();
    assert_eq!(texts(&files), vec!["/in/a.mkv", "/in/b/a.mkv"]);
    assert!(batch(false, Some("[")).collect_mkv_files(paths(&found)).is_err());
    assert!(batch(false, Some("[")).collect_mkv_files(Vec::new()).unwrap().is_empty());
}

#[test]
fn target_keeps_the_relative_path_when_recursive() {
    let b = batch(true, None);
    assert_eq!(
        b.calculate_target_path(&path("/in/s1/e1.mkv")).unwrap().to_text(),
        "/out/s1/e1.mkv"
    );
    assert_eq!(b.calculate_target_path(&path("/in/e1.mkv")).unwrap().to_text(), "/out/e1.mkv");
    let (target, directory) = b.target_directory_for(&path("/in/s1/e1.mkv")).unwrap();
    assert_eq!(target.to_text(), "/out/s1/e1.mkv");
    assert_eq!(directory.to_text(), "/out/s1");
}

#[test]
fn target_is_the_file_name_in_the_target_directory_when_not_recursive() {
    let b = batch(false, None);
    assert_eq!(b.calculate_target_path(&path("/in/s1/e1.mkv")).unwrap().to_text(), "/out/e1.mkv");
    assert_eq!(b.calculate_target_path(&path("/else/e1.mkv")).unwrap().to_text(), "/out/e1.mkv");
    let (target, directory) = b.target_directory_for(&path("/in/s1/e1.mkv")).unwrap();
    assert_eq!(target.to_text(), "/out/e1.mkv");
    assert_eq!(directory.to_text(), "/out");
}

#[test]
fn target_refuses_paths_without_name_outside_input_or_stepping_up() {
    let e = batch(true, None).calculate_target_path(&path("/in/..")).unwrap_err();
    assert_eq!(e.kind, ErrorKind::Validation);
    assert_eq!(e.message, "Failed to get filename");
    let e = batch(false, None).calculate_target_path(&path("/")).unwrap_err();
    assert_eq!(e.message, "Failed to get filename");
    let e = batch(true, None).calculate_target_path(&path("/else/a.mkv")).unwrap_err();
    assert_eq!(e.message, "Failed to strip prefix from /else/a.mkv: prefix not found");
    let e = batch(true, None).calculate_target_path(&path("/in/../etc/a.mkv")).unwrap_err();
    assert_eq!(e.message, "Path traversal attempt detected in: ../etc/a.mkv");
    assert!(batch(false, None).calculate_target_path(&path("/in/../etc/a.mkv")).is_ok());
    assert!(batch(true, None).target_directory_for(&path("/in/..")).is_err());
}

#[test]
fn a_flat_scan_reads_the_root_only() {
    let mut scan = Scan::start(path("/in"));
    assert_eq!(scan.next_directory().unwrap().to_text(), "/in");
    scan.record(vec![file("/in/b.mkv"), dir("/in/s1"), file("/in/notes.txt"), file("/in/a.MKA")], false);
    assert_eq!(texts(&scan.found), vec!["/in/b.mkv", "/in/a.MKA"]);
    assert!(scan.next_directory().is_none());
    assert!(scan.next_directory().is_none());
}

#[test]
fn a_recursive_scan_descends_into_directories() {
    let mut scan = Scan::start(path("/in"));
    let mut read = Vec::new();
    while let Some(directory) = scan.next_directory() {
        let listing = match directory.to_text().as_str() {
            "/in" => vec![dir("/in/s1"), file("/in/a.mkv"), dir("/in/s2"), dir("/in/dir.mkv")],
            "/in/s1" => vec![file("/in/s1/e1.mkv"), file("/in/s1/e1.srt")],
            "/in/s2" => vec![dir("/in/s2/x")],
            "/in/s2/x" => vec![file("/in/s2/x/e9.mks")],
            _ => Vec::new(),
        };
        read.push(directory.to_text());
        scan.record(listing, true);
    }
    assert_eq!(read, vec!["/in", "/in/dir.mkv", "/in/s2", "/in/s2/x", "/in/s1"]);
    let files = batch(true, None).collect_mkv_files(scan.found).unwrap();
    assert_eq!(texts(&files), vec!["/in/a.mkv", "/in/s1/e1.mkv", "/in/s2/x/e9.mks"]);
}

#[test]
fn a_scan_skips_files_that_cannot_be_used() {
    let mut scan = Scan::start(path("/in"));
    let mut unreadable = file("/in/a.mkv");
    unreadable.facts.readable = false;
    let mut gone = file("/in/b.mkv");
    gone.facts.exists = false;
    let mut odd = file("/in/c.mkv");
    odd.facts.is_file = false;
    let no_extension = file("/in/mkv");
    scan.record(vec![unreadable, gone, odd, no_extension, file("/in/d.mkv")], true);
    assert_eq!(texts(&scan.found), vec!["/in/d.mkv"]);
    assert_eq!(texts(&scan.pending), vec!["/in"]);
}

#[test]
fn batch_results_count_successes_and_failures() {
    let outcomes = vec![
        FileOutcome { file: path("/in/a.mkv"), error: None },
        FileOutcome { file: path("/in/b.mkv"), error: Some("boom".to_string()) },
        FileOutcome { file: path("/in/c.mkv"), error: None },
        FileOutcome { file: path("/in/d.mkv"), error: Some("bang".to_string()) },
    ];
    let result = BatchResult::from_outcomes(outcomes);
    assert_eq!(result.total_files, 4);
    assert_eq!(result.successful, 2);
    assert_eq!(result.failed, 2);
    assert_eq!(result.errors.len(), 2);
    assert_eq!(result.errors[0].file.to_text(), "/in/b.mkv");
    assert_eq!(result.errors[0].message, "boom");
    assert_eq!(result.errors[1].file.to_text(), "/in/d.mkv");
    assert_eq!(result.errors[1].message, "bang");
    assert_eq!(result.verdict(), BatchVerdict::SomeFailed);
}

#[test]
fn full_success_and_full_failure_are_told_apart() {
    let all_good = BatchResult::from_outcomes(vec![
        FileOutcome { file: path("a"), error: None },
        FileOutcome { file: path("b"), error: None },
    ]);
    assert_eq!(all_good.verdict(), BatchVerdict::AllSucceeded);
    assert_eq!((all_good.total_files, all_good.successful, all_good.failed), (2, 2, 0));
    let all_bad = BatchResult::from_outcomes(vec![
        FileOutcome { file: path("a"), error: Some("x".to_string()) },
        FileOutcome { file: path("b"), error: Some("y".to_string()) },
    ]);
    assert_eq!(all_bad.verdict(), BatchVerdict::AllFailed);
    assert_eq!((all_bad.total_files, all_bad.successful, all_bad.failed), (2, 0, 2));
    let empty = BatchResult::from_outcomes(Vec::new());
    assert_eq!(empty.verdict(), BatchVerdict::AllSucceeded);
    assert_eq!((empty.total_files, empty.successful, empty.failed), (0, 0, 0));
}
