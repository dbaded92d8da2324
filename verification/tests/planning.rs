use mediaflow::analysis::{plan_analysis, AnalysisMode};
use mediaflow::download::{normalize_quality, plan_audio_download, plan_upload_path, plan_video_download};
use mediaflow::pitch::{pitch_filter, plan_pitch_shift, round_semitones};
use mediaflow::process::ProcessResult;
use mediaflow::resolver::{resolve_python, resolve_python311};
use mediaflow::stems::plan_stem_separation;

fn owned(items: &[&str]) -> Vec<String> {
    items.iter().map(|s| s.to_string()).collect()
}

#[test]
fn quality_plain_number_gets_suffix() {
    assert_eq!(normalize_quality(Some("320".to_string())), "320K");
    assert_eq!(normalize_quality(Some("128".to_string())), "128K");
}

#[test]
fn quality_suffixed_and_zero_pass_through() {
    assert_eq!(normalize_quality(Some("320k".to_string())), "320k");
    assert_eq!(normalize_quality(Some("320K".to_string())), "320K");
    assert_eq!(normalize_quality(Some("0".to_string())), "0");
}

#[test]
fn quality_defaults_to_320() {
    assert_eq!(normalize_quality(None), "320K");
}

#[test]
fn quality_empty_string_gets_suffix() {
    assert_eq!(normalize_quality(Some(String::new())), "K");
}

#[test]
fn audio_download_wav_lands_in_directory() {
    let plan = plan_audio_download("https://example.com/v", None, Some("wav".to_string()), "/dl/root");
    assert!(plan.filename.ends_with(".wav"));
    assert!(plan.filename.starts_with("mediaflow_audio_"));
    assert!(plan.path.starts_with("/dl/root/"));
    assert_eq!(plan.path, format!("/dl/root/{}", plan.filename));
    let stamp = &plan.filename["mediaflow_audio_".len()..plan.filename.len() - ".wav".len()];
    assert!(stamp.len() >= 14);
    assert!(stamp.chars().all(|c| c.is_ascii_digit()));
    let stub = ProcessResult { success: true, code: Some(0), stdout: Vec::new(), stderr: Vec::new() };
    assert!(mediaflow::process::ensure_success(&stub).is_ok());
}

#[test]
fn audio_download_arguments() {
    let plan = plan_audio_download("URL", Some("192".to_string()), None, "/d");
    assert_eq!(plan.args.len(), 8);
    assert_eq!(plan.args[0], "-x");
    assert_eq!(plan.args[1], "--audio-format");
    assert_eq!(plan.args[2], "mp3");
    assert_eq!(plan.args[3], "--audio-quality");
    assert_eq!(plan.args[4], "192K");
    assert_eq!(plan.args[5], "-o");
    assert!(plan.args[6].starts_with("/d/mediaflow_audio_"));
    assert!(!plan.args[6].contains('.'));
    assert_eq!(plan.args[7], "URL");
    assert!(plan.filename.ends_with(".mp3"));
}

#[test]
fn video_download_default_selector() {
    let plan = plan_video_download("U", None, None, None, None, "/v");
    assert_eq!(plan.args[0], "-f");
    assert_eq!(
        plan.args[1],
        "bestvideo[height<=1080][fps<=30]+bestaudio/best[height<=1080][fps<=30]"
    );
    assert_eq!(plan.args[2], "--merge-output-format");
    assert_eq!(plan.args[3], "mp4");
    assert_eq!(plan.args[4], "-o");
    assert_eq!(plan.args[5], plan.path);
    assert_eq!(plan.args[6], "U");
    assert!(plan.filename.starts_with("mediaflow_video_"));
    assert!(plan.filename.ends_with(".mp4"));
    assert_eq!(plan.path, format!("/v/{}", plan.filename));
}

#[test]
fn video_download_video_only_selector() {
    let plan = plan_video_download(
        "U",
        Some("720".to_string()),
        Some(false),
        Some(60),
        Some("mkv".to_string()),
        "/v",
    );
    assert_eq!(plan.args[1], "bestvideo[height<=720][fps<=60]");
    assert_eq!(plan.args[3], "mkv");
    assert!(plan.filename.ends_with(".mkv"));
}

#[test]
fn rounding_halves_go_away_from_zero() {
    assert_eq!(round_semitones(500), 1);
    assert_eq!(round_semitones(-500), -1);
    assert_eq!(round_semitones(1499), 1);
    assert_eq!(round_semitones(1500), 2);
    assert_eq!(round_semitones(0), 0);
    assert_eq!(round_semitones(-2499), -2);
}

#[test]
fn tiny_shift_is_identity_copy() {
    assert!(pitch_filter(0, "1.0", "1.0").is_none());
    assert!(pitch_filter(10, "1.0", "1.0").is_none());
    assert!(pitch_filter(-10, "1.0", "1.0").is_none());
}

#[test]
fn larger_shift_builds_filter() {
    let factor = 2f32.powf(3.0 / 12.0);
    let atempo = 1.0 / factor;
    let f = pitch_filter(3000, &factor.to_string(), &atempo.to_string()).unwrap();
    assert_eq!(
        f,
        format!("asetrate=44100*{},aresample=44100,atempo={}", factor, atempo)
    );
    assert!(pitch_filter(11, "1.1", "0.9").is_some());
    assert!(pitch_filter(-11, "1.1", "0.9").is_some());
}

#[test]
fn pitch_plan_rejects_missing_input() {
    let r = plan_pitch_shift("a/song.mp3", false, None, 2000, "1.1", "0.9");
    assert_eq!(r.unwrap_err(), "Input file not found");
}

#[test]
fn pitch_plan_default_output_and_args() {
    let p = plan_pitch_shift("a/song.mp3", true, None, 2000, "1.12", "0.89").unwrap();
    assert_eq!(p.output, "a/song_pitch+2.mp3");
    assert_eq!(
        p.args,
        owned(&[
            "-i",
            "a/song.mp3",
            "-y",
            "-af",
            "asetrate=44100*1.12,aresample=44100,atempo=0.89",
            "a/song_pitch+2.mp3",
        ])
    );
}

#[test]
fn pitch_plan_negative_shift_marks_name() {
    let p = plan_pitch_shift("a/song.wav", true, None, -2000, "0.9", "1.1").unwrap();
    assert_eq!(p.output, "a/song_pitch-2.wav");
}

#[test]
fn pitch_plan_copy_has_no_filter_flag() {
    let p = plan_pitch_shift("song.mp3", true, Some("out.mp3".to_string()), 5, "1.0", "1.0")
        .unwrap();
    assert_eq!(p.args, owned(&["-i", "song.mp3", "-y", "out.mp3"]));
    assert_eq!(p.output, "out.mp3");
}

#[test]
fn stems_rejects_other_counts_before_planning() {
    for bad in [0u8, 1, 3, 5, 6, 255] {
        let r = plan_stem_separation("a/in.wav", true, None, bad, None, None, "sep.py");
        assert_eq!(r.unwrap_err(), "Stems must be 2 or 4");
    }
}

#[test]
fn stems_rejects_missing_input_first() {
    let r = plan_stem_separation("a/in.wav", false, None, 3, None, None, "sep.py");
    assert_eq!(r.unwrap_err(), "Input file not found");
}

#[test]
fn stems_plan_defaults() {
    let p = plan_stem_separation("a/in.wav", true, None, 2, None, None, "sep.py").unwrap();
    assert_eq!(p.output_dir, "a/in_stems");
    assert_eq!(
        p.args,
        owned(&["sep.py", "a/in.wav", "a/in_stems", "2", "UVR-MDX-NET-Inst_HQ_3", "true"])
    );
}

#[test]
fn stems_plan_explicit_choices() {
    let p = plan_stem_separation(
        "in.wav",
        true,
        Some("/out".to_string()),
        4,
        Some("other-model".to_string()),
        Some(false),
        "sep.py",
    )
    .unwrap();
    assert_eq!(p.output_dir, "/out");
    assert_eq!(p.args, owned(&["sep.py", "in.wav", "/out", "4", "other-model", "false"]));
}

#[test]
fn analysis_plan_rejects_missing_file() {
    let r = plan_analysis(AnalysisMode::Tempo, "x.mp3", false, "an.py");
    assert_eq!(r.unwrap_err(), "Audio file not found: x.mp3");
}

#[test]
fn analysis_plan_modes() {
    let t = plan_analysis(AnalysisMode::Tempo, "x.mp3", true, "an.py").unwrap();
    assert_eq!(t, owned(&["an.py", "tempo", "x.mp3"]));
    let k = plan_analysis(AnalysisMode::Key, "x.mp3", true, "an.py").unwrap();
    assert_eq!(k, owned(&["an.py", "key", "x.mp3"]));
}

#[test]
fn python_resolution() {
    assert_eq!(resolve_python(true), "python");
    assert_eq!(resolve_python(false), "py");
    assert_eq!(resolve_python311(true, false), owned(&["py", "-3.11"]));
    assert_eq!(resolve_python311(true, true), owned(&["py", "-3.11"]));
    assert_eq!(resolve_python311(false, true), owned(&["python"]));
    assert_eq!(resolve_python311(false, false), owned(&["py"]));
}

#[test]
fn upload_path_is_timestamped_inside_temp() {
    let p = plan_upload_path("/root/MediaFlow/temp", "notes.txt");
    assert!(p.starts_with("/root/MediaFlow/temp/"));
    assert!(p.ends_with("_notes.txt"));
    let middle = &p["/root/MediaFlow/temp/".len()..p.len() - "_notes.txt".len()];
    assert!(middle.len() >= 14);
}
