use mediaflow::cache::{cache_size_text, clear_cache_message, format_bytes, sum_sizes};
use mediaflow::paths::{
    cache_temp_dir, join_path, mediaflow_dir_path, output_subfolders, parent_dir,
    script_dir_candidates, select_scripts_dir, to_path_string, FsPath,
};

fn owned(items: &[&str]) -> Vec<String> {
    items.iter().map(|s| s.to_string()).collect()
}

#[test]
fn joining_and_parents() {
    assert_eq!(join_path("/a/b", "c"), "/a/b/c");
    assert_eq!(parent_dir("/a/b/c").as_deref(), Some("/a/b"));
    assert_eq!(parent_dir("plain"), None);
    assert_eq!(parent_dir("/x").as_deref(), Some(""));
}

#[test]
fn path_text_conversion() {
    let good = FsPath { text: Some("/dl/file.mp3".to_string()) };
    assert_eq!(to_path_string(&good).unwrap(), "/dl/file.mp3");
    let bad = FsPath { text: None };
    assert_eq!(to_path_string(&bad).unwrap_err(), "Unable to convert path to string");
}

#[test]
fn application_directories() {
    let root = mediaflow_dir_path("/home/u/Downloads");
    assert_eq!(root, "/home/u/Downloads/MediaFlow");
    assert_eq!(cache_temp_dir(&root), "/home/u/Downloads/MediaFlow/temp");
    assert_eq!(
        output_subfolders("/base"),
        owned(&["/base/Downloads/Audio", "/base/Downloads/Video", "/base/AudioLab", "/base/Stems"])
    );
}

#[test]
fn script_candidates_in_probe_order() {
    let cwd = Some("/proj/src-dir".to_string());
    let exe = Some("/proj/target/debug/app".to_string());
    let candidates = script_dir_candidates(&cwd, &exe);
    assert_eq!(
        candidates,
        owned(&[
            "/proj/src-dir/scripts",
            "/proj/scripts",
            "/proj/target/debug/scripts",
            "/proj/target/scripts",
            "/scripts",
        ])
    );
}

#[test]
fn script_candidates_skip_unknown_bases() {
    let candidates = script_dir_candidates(&Some("plain".to_string()), &None);
    assert_eq!(candidates, owned(&["plain/scripts"]));
    assert!(script_dir_candidates(&None, &None).is_empty());
}

#[test]
fn scripts_dir_takes_first_marked_candidate() {
    let candidates = owned(&["/a/scripts", "/b/scripts", "/c/scripts"]);
    let found = vec![false, true, true];
    assert_eq!(select_scripts_dir(&candidates, &found).unwrap(), "/b/scripts");
}

#[test]
fn scripts_dir_missing_everywhere_names_the_marker() {
    let candidates = owned(&["/a/scripts"]);
    let found = vec![false];
    assert_eq!(
        select_scripts_dir(&candidates, &found).unwrap_err(),
        "Scripts directory not found. Make sure 'scripts/audio_analyzer.py' exists."
    );
}

#[test]
fn size_sums_and_saturation() {
    assert_eq!(sum_sizes(&vec![]), 0);
    assert_eq!(sum_sizes(&vec![1, 2, 3]), 6);
    assert_eq!(sum_sizes(&vec![u64::MAX, 5]), u64::MAX);
}

#[test]
fn byte_formatting_units() {
    assert_eq!(format_bytes(0), "0 B");
    assert_eq!(format_bytes(1023), "1023 B");
    assert_eq!(format_bytes(1024), "1.0 KB");
    assert_eq!(format_bytes(1536), "1.5 KB");
    assert_eq!(format_bytes(1048576), "1.0 MB");
    assert_eq!(format_bytes(5 * 1048576 + 1048576 / 2), "5.5 MB");
    assert_eq!(format_bytes(1073741824), "1.0 GB");
    assert_eq!(format_bytes(3 * 1073741824 + 966367641), "3.9 GB");
}

#[test]
fn cache_reports() {
    assert_eq!(cache_size_text(&vec![512, 512]), "1.0 KB");
    assert_eq!(clear_cache_message(&vec![1536]), "Cleared 1.5 KB");
    assert_eq!(clear_cache_message(&vec![]), "Cleared 0 B");
}
