use mediaflow::analysis::analysis_output;
use mediaflow::deps::{check_dependencies_report, ProbeOutcome};
use mediaflow::json::JsonValue;
use mediaflow::metadata::synthesize_info_from_value;
use mediaflow::models::{model_download_result, model_file_path, models_status};
use mediaflow::playlist::playlist_from_value;
use mediaflow::process::{ensure_success, ProcessResult};
use mediaflow::stems::stems_output;

fn obj(fields: Vec<(&str, JsonValue)>) -> JsonValue {
    JsonValue::Obj(fields.into_iter().map(|(k, v)| (k.to_string(), v)).collect())
}

fn s(text: &str) -> JsonValue {
    JsonValue::Str(text.to_string())
}

fn finished(success: bool, code: Option<i32>, stdout: &[u8], stderr: &[u8]) -> ProcessResult {
    ProcessResult { success, code, stdout: stdout.to_vec(), stderr: stderr.to_vec() }
}

#[test]
fn metadata_defaults_for_empty_object() {
    let info = synthesize_info_from_value(obj(vec![]));
    assert_eq!(info.title, "Unknown Title");
    assert_eq!(info.duration, 0);
    assert_eq!(info.thumbnail, "");
    assert_eq!(info.uploader, "Unknown");
    assert!(info.formats.is_empty());
}

#[test]
fn metadata_collection_uses_first_entry() {
    let first = obj(vec![
        ("title", s("First")),
        ("duration", JsonValue::Num(120)),
        ("uploader", s("someone")),
    ]);
    let second = obj(vec![("title", s("Second"))]);
    let top = obj(vec![
        ("title", s("The Whole List")),
        ("uploader", s("top-level")),
        ("entries", JsonValue::Arr(vec![first, second])),
    ]);
    let info = synthesize_info_from_value(top);
    assert_eq!(info.title, "First");
    assert_eq!(info.duration, 120);
    assert_eq!(info.uploader, "someone");
}

#[test]
fn metadata_empty_entries_falls_back_to_top_level() {
    let top = obj(vec![("title", s("Top")), ("entries", JsonValue::Arr(vec![]))]);
    let info = synthesize_info_from_value(top);
    assert_eq!(info.title, "Top");
}

#[test]
fn metadata_formats_skip_missing_identifier() {
    let with_id = obj(vec![
        ("format_id", s("22")),
        ("ext", s("mp4")),
        ("resolution", s("1280x720")),
        ("fps", JsonValue::Num(30)),
        ("filesize", JsonValue::Num(1000)),
        ("vcodec", s("avc1")),
        ("acodec", s("mp4a")),
    ]);
    let without_id = obj(vec![("ext", s("webm"))]);
    let approx_only = obj(vec![
        ("format_id", s("18")),
        ("filesize_approx", JsonValue::Num(555)),
    ]);
    let top = obj(vec![("formats", JsonValue::Arr(vec![without_id, with_id, approx_only]))]);
    let info = synthesize_info_from_value(top);
    assert_eq!(info.formats.len(), 2);
    assert_eq!(info.formats[0].format_id, "22");
    assert_eq!(info.formats[0].ext, "mp4");
    assert_eq!(info.formats[0].resolution.as_deref(), Some("1280x720"));
    assert_eq!(info.formats[0].fps, Some(30));
    assert_eq!(info.formats[0].filesize, Some(1000));
    assert_eq!(info.formats[0].vcodec.as_deref(), Some("avc1"));
    assert_eq!(info.formats[0].acodec.as_deref(), Some("mp4a"));
    assert_eq!(info.formats[1].format_id, "18");
    assert_eq!(info.formats[1].ext, "");
    assert_eq!(info.formats[1].filesize, Some(555));
    assert_eq!(info.formats[1].resolution, None);
}

#[test]
fn playlist_drops_unaddressable_entries() {
    let direct = obj(vec![("url", s("https://a/1")), ("title", s("one"))]);
    let by_id = obj(vec![("id", s("abc123")), ("duration", JsonValue::Num(9))]);
    let neither = obj(vec![("title", s("lost"))]);
    let empty_id = obj(vec![("id", s(""))]);
    let top = obj(vec![
        ("title", s("Mix")),
        ("entries", JsonValue::Arr(vec![direct, by_id, neither, empty_id])),
    ]);
    let info = playlist_from_value(top);
    assert_eq!(info.title, "Mix");
    assert_eq!(info.count, 2);
    assert_eq!(info.items.len(), 2);
    assert_eq!(info.items[0].url, "https://a/1");
    assert_eq!(info.items[0].title, "one");
    assert_eq!(info.items[0].duration, 0);
    assert_eq!(info.items[1].url, "https://www.youtube.com/watch?v=abc123");
    assert_eq!(info.items[1].title, "Unknown");
    assert_eq!(info.items[1].duration, 9);
}

#[test]
fn playlist_defaults_without_entries() {
    let info = playlist_from_value(obj(vec![]));
    assert_eq!(info.title, "Playlist");
    assert_eq!(info.count, 0);
    assert!(info.items.is_empty());
}

#[test]
fn ensure_success_reports_code_and_stderr() {
    let ok = finished(true, Some(0), b"", b"");
    assert!(ensure_success(&ok).is_ok());
    let bad = finished(false, Some(1), b"", b"bad input");
    assert_eq!(
        ensure_success(&bad).unwrap_err(),
        "yt-dlp exited with code Some(1): bad input"
    );
    let killed = finished(false, None, b"", b"");
    assert_eq!(ensure_success(&killed).unwrap_err(), "yt-dlp exited with code None: ");
}

#[test]
fn analysis_output_passes_stdout_through() {
    let ok = finished(true, Some(0), b"{\"bpm\": 128}", b"");
    assert_eq!(analysis_output(ok).unwrap(), "{\"bpm\": 128}");
}

#[test]
fn analysis_output_reports_tool_failure() {
    let bad = finished(false, Some(2), b"", b"no such codec");
    assert_eq!(analysis_output(bad).unwrap_err(), "Audio analysis failed: no such codec");
}

#[test]
fn analysis_output_reports_undecodable_bytes() {
    let weird = finished(true, Some(0), &[0xff, 0xfe, 0x00], b"");
    let err = analysis_output(weird).unwrap_err();
    assert!(err.starts_with("Failed to parse output: "));
    assert!(err.len() > "Failed to parse output: ".len());
}

#[test]
fn dependency_report_versions_are_trimmed() {
    let report = check_dependencies_report(
        ProbeOutcome::Finished(finished(true, Some(0), b"2024.08.06\n", b"")),
        ProbeOutcome::Finished(finished(true, Some(0), b"Python 3.12.1\r\n", b"")),
        ProbeOutcome::LaunchFailed("unused".to_string()),
        ProbeOutcome::Finished(finished(
            true,
            Some(0),
            b"ffmpeg version 6.0\r\nbuilt with gcc\n",
            b"",
        )),
        ProbeOutcome::Finished(finished(true, Some(0), b"4.0.1\n", b"")),
    );
    assert!(report.yt_dlp.available);
    assert_eq!(report.yt_dlp.version.as_deref(), Some("2024.08.06"));
    assert_eq!(report.yt_dlp.error, None);
    assert_eq!(report.python.version.as_deref(), Some("Python 3.12.1"));
    assert_eq!(report.ffmpeg.version.as_deref(), Some("ffmpeg version 6.0"));
    assert_eq!(report.demucs.version.as_deref(), Some("4.0.1"));
}

#[test]
fn dependency_report_isolates_failures() {
    let report = check_dependencies_report(
        ProbeOutcome::LaunchFailed("No such file".to_string()),
        ProbeOutcome::Finished(finished(false, Some(9), b"", b"")),
        ProbeOutcome::Finished(finished(true, Some(0), b"Python 3.11.9\n", b"")),
        ProbeOutcome::Finished(finished(false, Some(1), b"", b"")),
        ProbeOutcome::LaunchFailed("demucs gone".to_string()),
    );
    assert!(!report.yt_dlp.available);
    assert_eq!(report.yt_dlp.version, None);
    assert_eq!(report.yt_dlp.error.as_deref(), Some("yt-dlp not found: No such file"));
    assert!(report.python.available);
    assert_eq!(report.python.version.as_deref(), Some("Python 3.11.9"));
    assert!(!report.ffmpeg.available);
    assert_eq!(
        report.ffmpeg.error.as_deref(),
        Some("FFmpeg found but failed to get version")
    );
    assert_eq!(report.demucs.error.as_deref(), Some("Demucs not found: demucs gone"));
}

#[test]
fn ffmpeg_version_of_empty_output_is_unknown() {
    let report = check_dependencies_report(
        ProbeOutcome::LaunchFailed("x".to_string()),
        ProbeOutcome::LaunchFailed("x".to_string()),
        ProbeOutcome::LaunchFailed("x".to_string()),
        ProbeOutcome::Finished(finished(true, Some(0), b"", b"")),
        ProbeOutcome::LaunchFailed("x".to_string()),
    );
    assert_eq!(report.ffmpeg.version.as_deref(), Some("unknown"));
}

#[test]
fn model_checks() {
    assert_eq!(
        model_file_path(),
        "/tmp/audio-separator-models/UVR-MDX-NET-Inst_HQ_3.onnx"
    );
    let status = models_status(true);
    assert!(status.installed);
    assert_eq!(status.model_path, model_file_path());
    assert!(!models_status(false).installed);
}

#[test]
fn model_download_decodes_both_outcomes() {
    let ok = finished(true, Some(0), b"downloaded 3 files", b"");
    assert_eq!(model_download_result(&ok).unwrap(), "downloaded 3 files");
    let bad = finished(false, Some(1), b"", b"disk full");
    assert_eq!(model_download_result(&bad).unwrap_err(), "Download failed: disk full");
}

#[test]
fn stems_output_decodes_both_outcomes() {
    let ok = finished(true, Some(0), b"{\"stems\": 2}", b"");
    assert_eq!(stems_output(ok).unwrap(), "{\"stems\": 2}");
    let bad = finished(false, Some(1), b"", b"missing model");
    assert_eq!(stems_output(bad).unwrap_err(), "Stem separation failed: missing model");
}
