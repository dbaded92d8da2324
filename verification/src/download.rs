use crate::paths::join_path;
use crate::strings::{i64_to_string, spec_i64_string, str_eq};
use vstd::prelude::*;

verus! {

/// Relies on chrono's Utc::now and DateTime::format: the pattern
/// "%Y%m%d%H%M%S" writes six numeric fields, the year at least four
/// characters wide and the rest two each.
#[verifier::external_body]
pub(crate) fn timestamp_suffix() -> (r: String)
    ensures
        r@.len() >= 14,
{
    chrono::Utc::now().format("%Y%m%d%H%M%S").to_string()
}

/// The quality argument handed to the downloader: "0" (best) and values
/// already carrying a bitrate suffix pass through; anything else gets "K"
/// appended.
pub open spec fn spec_norm_quality(q: Seq<char>) -> Seq<char> {
    if q == "0"@ || (q.len() > 0 && (q[q.len() - 1] == 'k' || q[q.len() - 1] == 'K')) {
        q
    } else {
        q + "K"@
    }
}

/// The requested quality with the default applied, as characters.
pub open spec fn spec_quality_arg(quality: Option<String>) -> Seq<char> {
    match quality {
        Some(q) => spec_norm_quality(q@),
        None => spec_norm_quality("320"@),
    }
}

/// Normalizes a requested audio quality to a bitrate token, defaulting to
/// "320".
pub fn normalize_quality(quality: Option<String>) -> (r: String)
    ensures
        r@ == spec_quality_arg(quality),
{
    let q = match quality {
        Some(q) => q,
        None => "320".to_owned(),
    };
    if str_eq(q.as_str(), "0") {
        return q;
    }
    let n = q.as_str().unicode_len();
    if n > 0 {
        let last = q.as_str().get_char(n - 1);
        if last == 'k' || last == 'K' {
            return q;
        }
    }
    let mut s = q;
    s.append("K");
    s
}

/// One planned download: the argument vector for the external tool, and the
/// name and full path of the file the tool will leave behind.
#[derive(Debug)]
pub struct DownloadPlan {
    pub args: Vec<String>,
    pub filename: String,
    pub path: String,
}

/// How an audio download plan reflects its request, for the timestamp drawn
/// while planning.
pub open spec fn audio_plan_matches(
    r: DownloadPlan,
    url: Seq<char>,
    quality: Option<String>,
    fmt: Seq<char>,
    dir: Seq<char>,
    stamp: Seq<char>,
) -> bool {
    let base = "mediaflow_audio_"@ + stamp;
    &&& r.filename@ == base + "."@ + fmt
    &&& r.path@ == dir + "/"@ + r.filename@
    &&& r.args.deep_view() == seq![
        "-x"@,
        "--audio-format"@,
        fmt,
        "--audio-quality"@,
        spec_quality_arg(quality),
        "-o"@,
        dir + "/"@ + base,
        url,
    ]
}

/// The requested format with the default applied, as characters.
pub open spec fn spec_format_arg(format: Option<String>) -> Seq<char> {
    match format {
        Some(f) => f@,
        None => "mp3"@,
    }
}

/// Plans one audio download into the given directory: the extraction
/// arguments, and the output file reconstructed as the template plus the
/// extension the tool appends. The template carries a fresh timestamp, so
/// the name is unique to the second.
pub fn plan_audio_download(
    url: &str,
    quality: Option<String>,
    format: Option<String>,
    dir: &str,
) -> (r: DownloadPlan)
    ensures
        exists|stamp: Seq<char>|
            stamp.len() >= 14 && audio_plan_matches(
                r,
                url@,
                quality,
                spec_format_arg(format),
                dir@,
                stamp,
            ),
{
    let stamp = timestamp_suffix();
    let ghost gs = stamp@;
    let fmt = match format {
        Some(f) => f,
        None => "mp3".to_owned(),
    };
    let ghost gf = fmt@;
    let mut base = "mediaflow_audio_".to_owned();
    base.append(stamp.as_str());
    let mut filename = base.clone();
    filename.append(".");
    filename.append(fmt.as_str());
    let template = join_path(dir, base.as_str());
    let path = join_path(dir, filename.as_str());
    let quality_arg = normalize_quality(quality);
    let mut args: Vec<String> = Vec::new();
    args.push("-x".to_owned());
    args.push("--audio-format".to_owned());
    args.push(fmt);
    args.push("--audio-quality".to_owned());
    args.push(quality_arg);
    args.push("-o".to_owned());
    args.push(template);
    args.push(url.to_owned());
    let r = DownloadPlan { args, filename, path };
    proof {
        assert(r.filename@ =~= ("mediaflow_audio_"@ + gs) + "."@ + gf);
        assert(r.args.deep_view() =~~= seq![
            "-x"@,
            "--audio-format"@,
            gf,
            "--audio-quality"@,
            spec_quality_arg(quality),
            "-o"@,
            dir@ + "/"@ + ("mediaflow_audio_"@ + gs),
            url@,
        ]);
        assert(gf == spec_format_arg(format));
        assert(gs.len() >= 14 && audio_plan_matches(
            r,
            url@,
            quality,
            spec_format_arg(format),
            dir@,
            gs,
        ));
    }
    r
}

/// The format selector built for a video request: the capped video stream,
/// joined with a capped best-audio alternative when audio is wanted.
pub open spec fn spec_video_selector(res: Seq<char>, fps: Seq<char>, include_audio: bool) -> Seq<
    char,
> {
    let core = "bestvideo[height<="@ + res + "][fps<="@ + fps + "]"@;
    if include_audio {
        core + "+bestaudio/best[height<="@ + res + "][fps<="@ + fps + "]"@
    } else {
        core
    }
}

fn build_selector(res: &str, fps_text: &str, include_audio: bool) -> (r: String)
    ensures
        r@ == spec_video_selector(res@, fps_text@, include_audio),
{
    let mut s = "bestvideo[height<=".to_owned();
    s.append(res);
    s.append("][fps<=");
    s.append(fps_text);
    s.append("]");
    proof {
        assert(s@ =~= "bestvideo[height<="@ + res@ + "][fps<="@ + fps_text@ + "]"@);
    }
    if include_audio {
        s.append("+bestaudio/best[height<=");
        s.append(res);
        s.append("][fps<=");
        s.append(fps_text);
        s.append("]");
        proof {
            assert(s@ =~= spec_video_selector(res@, fps_text@, include_audio));
        }
    }
    s
}

/// An optional request value with its default applied, as characters.
pub open spec fn spec_str_or(o: Option<String>, dflt: Seq<char>) -> Seq<char> {
    match o {
        Some(s) => s@,
        None => dflt,
    }
}

/// The frame-rate cap with the default applied, as characters.
pub open spec fn spec_fps_arg(fps: Option<i32>) -> Seq<char> {
    match fps {
        Some(f) => spec_i64_string(f as int),
        None => spec_i64_string(30),
    }
}

/// How a video download plan reflects its request, for the timestamp drawn
/// while planning.
pub open spec fn video_plan_matches(
    r: DownloadPlan,
    url: Seq<char>,
    resolution: Option<String>,
    include_audio: Option<bool>,
    fps: Option<i32>,
    container: Option<String>,
    dir: Seq<char>,
    stamp: Seq<char>,
) -> bool {
    let res = spec_str_or(resolution, "1080"@);
    let cont = spec_str_or(container, "mp4"@);
    let audio = match include_audio {
        Some(b) => b,
        None => true,
    };
    &&& r.filename@ == "mediaflow_video_"@ + stamp + "."@ + cont
    &&& r.path@ == dir + "/"@ + r.filename@
    &&& r.args.deep_view() == seq![
        "-f"@,
        spec_video_selector(res, spec_fps_arg(fps), audio),
        "--merge-output-format"@,
        cont,
        "-o"@,
        r.path@,
        url,
    ]
}

/// Plans one video download into the given directory: a selector capped at
/// the requested resolution and frame rate, merged into the requested
/// container, written to a timestamped file.
pub fn plan_video_download(
    url: &str,
    resolution: Option<String>,
    include_audio: Option<bool>,
    fps: Option<i32>,
    container: Option<String>,
    dir: &str,
) -> (r: DownloadPlan)
    ensures
        exists|stamp: Seq<char>|
            stamp.len() >= 14 && video_plan_matches(
                r,
                url@,
                resolution,
                include_audio,
                fps,
                container,
                dir@,
                stamp,
            ),
{
    let stamp = timestamp_suffix();
    let ghost gs = stamp@;
    let res = match resolution {
        Some(s) => s,
        None => "1080".to_owned(),
    };
    let cont = match container {
        Some(s) => s,
        None => "mp4".to_owned(),
    };
    let ghost gc = cont@;
    let audio = match include_audio {
        Some(b) => b,
        None => true,
    };
    let fps_val: i64 = match fps {
        Some(f) => f as i64,
        None => 30,
    };
    let fps_text = i64_to_string(fps_val);
    let mut filename = "mediaflow_video_".to_owned();
    filename.append(stamp.as_str());
    filename.append(".");
    filename.append(cont.as_str());
    let path = join_path(dir, filename.as_str());
    let selector = build_selector(res.as_str(), fps_text.as_str(), audio);
    let mut args: Vec<String> = Vec::new();
    args.push("-f".to_owned());
    args.push(selector);
    args.push("--merge-output-format".to_owned());
    args.push(cont);
    args.push("-o".to_owned());
    args.push(path.clone());
    args.push(url.to_owned());
    let r = DownloadPlan { args, filename, path };
    proof {
        assert(r.filename@ =~= "mediaflow_video_"@ + gs + "."@ + gc);
        assert(r.args.deep_view() =~~= seq![
            "-f"@,
            spec_video_selector(spec_str_or(resolution, "1080"@), spec_fps_arg(fps), audio),
            "--merge-output-format"@,
            gc,
            "-o"@,
            r.path@,
            url@,
        ]);
        assert(video_plan_matches(r, url@, resolution, include_audio, fps, container, dir@, gs));
    }
    r
}

/// Plans the resting place of an uploaded file inside the temp directory:
/// a fresh timestamp joined to the caller's file name keeps names unique to
/// the second.
pub fn plan_upload_path(temp_dir: &str, file_name: &str) -> (r: String)
    ensures
        exists|stamp: Seq<char>|
            stamp.len() >= 14 && r@ == temp_dir@ + "/"@ + stamp + "_"@ + file_name@,
{
    let stamp = timestamp_suffix();
    let ghost gs = stamp@;
    let mut name = stamp;
    name.append("_");
    name.append(file_name);
    let r = join_path(temp_dir, name.as_str());
    proof {
        assert(r@ =~= temp_dir@ + "/"@ + gs + "_"@ + file_name@);
    }
    r
}

} // verus!
