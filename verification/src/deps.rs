use crate::process::{lossy_of, lossy_utf8, ProcessResult};
use vstd::prelude::*;

verus! {

/// What happened when one tool's version probe was attempted: the probe
/// could not be launched, or it ran to completion.
pub enum ProbeOutcome {
    LaunchFailed(String),
    Finished(ProcessResult),
}

/// One tool's entry in the dependency report.
pub struct ToolReport {
    pub available: bool,
    pub version: Option<String>,
    pub error: Option<String>,
}

/// The report over the four external tools, each probed independently: no
/// probe's failure affects another tool's entry.
pub struct DependencyReport {
    pub yt_dlp: ToolReport,
    pub python: ToolReport,
    pub ffmpeg: ToolReport,
    pub demucs: ToolReport,
}

pub uninterp spec fn trimmed(s: Seq<char>) -> Seq<char>;

/// Relies on str::trim: whitespace removal that reads the characters alone.
#[verifier::external_body]
pub(crate) fn trim_string(s: &str) -> (r: String)
    ensures
        r@ == trimmed(s@),
{
    s.trim().to_owned()
}

/// The first newline in the characters at or after position `i`.
pub open spec fn first_newline(s: Seq<char>, i: int) -> Option<int>
    decreases s.len() - i,
{
    if i < 0 || i >= s.len() {
        None
    } else if s[i] == '\n' {
        Some(i)
    } else {
        first_newline(s, i + 1)
    }
}

/// A line's characters with one trailing carriage return removed.
pub open spec fn strip_cr(s: Seq<char>) -> Seq<char> {
    if s.len() > 0 && s[s.len() - 1] == '\r' {
        s.drop_last()
    } else {
        s
    }
}

/// The first line of a probe's output, or "unknown" for empty output.
pub open spec fn spec_version_line(s: Seq<char>) -> Seq<char> {
    if s.len() == 0 {
        "unknown"@
    } else {
        match first_newline(s, 0) {
            Some(i) => strip_cr(s.subrange(0, i)),
            None => s,
        }
    }
}

/// Extracts the first output line as the reported version.
fn version_line(s: &str) -> (r: String)
    ensures
        r@ == spec_version_line(s@),
{
    let n = s.unicode_len();
    if n == 0 {
        return "unknown".to_owned();
    }
    let mut i: usize = 0;
    while i < n
        invariant
            i <= n,
            n == s@.len(),
            first_newline(s@, 0) == first_newline(s@, i as int),
        decreases n - i,
    {
        if s.get_char(i) == '\n' {
            let line = if i > 0 && s.get_char(i - 1) == '\r' {
                let l = s.substring_char(0, i - 1);
                proof {
                    assert(s@.subrange(0, i as int).drop_last() =~= s@.subrange(0, i as int - 1));
                }
                l
            } else {
                s.substring_char(0, i)
            };
            proof {
                assert(line@ =~= strip_cr(s@.subrange(0, i as int)));
            }
            return line.to_owned();
        }
        i += 1;
    }
    s.to_owned()
}

/// The report text for a tool whose probe could not be launched.
pub open spec fn spec_not_found_text(tool: Seq<char>, err: Seq<char>) -> Seq<char> {
    tool + " not found: "@ + err
}

/// The report text for a tool that launched but reported failure.
pub open spec fn spec_probe_failed_text(tool: Seq<char>) -> Seq<char> {
    tool + " found but failed to get version"@
}

/// The version text taken from a successful probe's output.
pub open spec fn spec_version_text(stdout: Seq<u8>, whole_first_line: bool) -> Seq<char> {
    if whole_first_line {
        spec_version_line(lossy_of(stdout))
    } else {
        trimmed(lossy_of(stdout))
    }
}

/// How a tool's report entry reflects its own probe, and it alone.
pub open spec fn report_matches(
    r: ToolReport,
    tool: Seq<char>,
    outcome: ProbeOutcome,
    whole_first_line: bool,
) -> bool {
    match outcome {
        ProbeOutcome::Finished(o) => if o.success {
            &&& r.available
            &&& (r.version matches Some(v) && v@ == spec_version_text(o.stdout@, whole_first_line))
            &&& r.error is None
        } else {
            &&& !r.available
            &&& r.version is None
            &&& (r.error matches Some(e) && e@ == spec_probe_failed_text(tool))
        },
        ProbeOutcome::LaunchFailed(err) => {
            &&& !r.available
            &&& r.version is None
            &&& (r.error matches Some(e) && e@ == spec_not_found_text(tool, err@))
        },
    }
}

/// Builds one tool's report entry from its probe outcome.
pub fn probe_report(tool: &str, outcome: ProbeOutcome, whole_first_line: bool) -> (r: ToolReport)
    ensures
        report_matches(r, tool@, outcome, whole_first_line),
{
    match outcome {
        ProbeOutcome::Finished(o) => {
            if o.success {
                let text = lossy_utf8(&o.stdout);
                let version = if whole_first_line {
                    version_line(text.as_str())
                } else {
                    trim_string(text.as_str())
                };
                ToolReport { available: true, version: Some(version), error: None }
            } else {
                let mut e = tool.to_owned();
                e.append(" found but failed to get version");
                proof {
                    assert(e@ =~= spec_probe_failed_text(tool@));
                }
                ToolReport { available: false, version: None, error: Some(e) }
            }
        },
        ProbeOutcome::LaunchFailed(err) => {
            let mut e = tool.to_owned();
            e.append(" not found: ");
            e.append(err.as_str());
            proof {
                assert(e@ =~= spec_not_found_text(tool@, err@));
            }
            ToolReport { available: false, version: None, error: Some(e) }
        },
    }
}

/// How the interpreter's entry reflects its two probes: the plain
/// interpreter name where that probe succeeded, else the launcher.
pub open spec fn python_report_matches(r: ToolReport, python: ProbeOutcome, py: ProbeOutcome) -> bool {
    if python matches ProbeOutcome::Finished(o) && o.success {
        report_matches(r, "Python"@, python, false)
    } else {
        report_matches(r, "Python"@, py, false)
    }
}

/// Builds the interpreter's report entry, falling back to the launcher probe
/// where the plain probe did not succeed.
pub fn python_probe_report(python: ProbeOutcome, py: ProbeOutcome) -> (r: ToolReport)
    ensures
        python_report_matches(r, python, py),
{
    let python_ok = match &python {
        ProbeOutcome::Finished(o) => o.success,
        _ => false,
    };
    if python_ok {
        probe_report("Python", python, false)
    } else {
        probe_report("Python", py, false)
    }
}

/// Builds the dependency report from the five probe outcomes. Each tool's
/// entry is computed from its own probe alone, so one tool's failure never
/// hides another tool's state.
pub fn check_dependencies_report(
    yt_dlp: ProbeOutcome,
    python: ProbeOutcome,
    py: ProbeOutcome,
    ffmpeg: ProbeOutcome,
    demucs: ProbeOutcome,
) -> (r: DependencyReport)
    ensures
        report_matches(r.yt_dlp, "yt-dlp"@, yt_dlp, false),
        python_report_matches(r.python, python, py),
        report_matches(r.ffmpeg, "FFmpeg"@, ffmpeg, true),
        report_matches(r.demucs, "Demucs"@, demucs, false),
{
    DependencyReport {
        yt_dlp: probe_report("yt-dlp", yt_dlp, false),
        python: python_probe_report(python, py),
        ffmpeg: probe_report("FFmpeg", ffmpeg, true),
        demucs: probe_report("Demucs", demucs, false),
    }
}

} // verus!
