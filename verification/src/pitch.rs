use crate::paths::{spec_ext_of, spec_stem_of, spec_with_file_name};
use crate::strings::{find_last, i64_to_string, spec_i64_string, spec_u64_string, u64_to_string};
use vstd::prelude::*;

verus! {

/// Semitones in thousandths, rounded to whole semitones, halves away from
/// zero.
pub open spec fn spec_round_millis(m: int) -> int {
    if m >= 0 {
        (m + 500) / 1000
    } else {
        -(((-m) + 500) / 1000)
    }
}

/// Rounds a shift given in thousandths of a semitone to whole semitones.
pub fn round_semitones(milli: i64) -> (r: i64)
    requires
        i64::MIN + 500 < milli <= i64::MAX - 500,
    ensures
        r == spec_round_millis(milli as int),
{
    if milli >= 0 {
        (milli + 500) / 1000
    } else {
        -(((-milli) + 500) / 1000)
    }
}

/// The marker appended to a shifted file's stem: the rounded semitone count,
/// an explicit plus sign on a non-negative one.
pub open spec fn spec_pitch_suffix(n: int) -> Seq<char> {
    if n >= 0 {
        "_pitch+"@ + spec_u64_string(n as nat)
    } else {
        "_pitch"@ + spec_i64_string(n)
    }
}

/// Builds the file-name marker for a rounded semitone count.
pub fn pitch_suffix(n: i64) -> (r: String)
    ensures
        r@ == spec_pitch_suffix(n as int),
{
    if n >= 0 {
        let mut s = "_pitch+".to_owned();
        let num = u64_to_string(n as u64);
        s.append(num.as_str());
        proof {
            assert(s@ =~= spec_pitch_suffix(n as int));
        }
        s
    } else {
        let mut s = "_pitch".to_owned();
        let num = i64_to_string(n);
        s.append(num.as_str());
        proof {
            assert(s@ =~= spec_pitch_suffix(n as int));
        }
        s
    }
}

/// The default destination of a shifted file: beside its source, the rounded
/// shift marked in the name, the extension kept.
pub open spec fn spec_default_pitch_output(p: Seq<char>, rounded: int) -> Seq<char> {
    spec_with_file_name(p, spec_stem_of(p) + spec_pitch_suffix(rounded) + "."@ + spec_ext_of(p))
}

/// Builds the default destination path for a shifted file.
fn default_pitch_output(input_path: &str, rounded: i64) -> (r: String)
    ensures
        r@ == spec_default_pitch_output(input_path@, rounded as int),
{
    let n = input_path.unicode_len();
    let slash = find_last(input_path, '/');
    let name: &str = match slash {
        Some(i) => input_path.substring_char(i + 1, n),
        None => input_path,
    };
    let name_len = name.unicode_len();
    let stem: &str = if name_len == 0 {
        "output"
    } else {
        match find_last(name, '.') {
            Some(j) => if j > 0 {
                name.substring_char(0, j)
            } else {
                name
            },
            None => name,
        }
    };
    let ext: &str = match find_last(name, '.') {
        Some(j) => if j > 0 {
            name.substring_char(j + 1, name_len)
        } else {
            "mp3"
        },
        None => "mp3",
    };
    let mut new_name = stem.to_owned();
    let suffix = pitch_suffix(rounded);
    new_name.append(suffix.as_str());
    new_name.append(".");
    new_name.append(ext);
    proof {
        assert(new_name@ =~= spec_stem_of(input_path@) + spec_pitch_suffix(rounded as int) + "."@
            + spec_ext_of(input_path@));
    }
    match slash {
        Some(i) => {
            let mut out = input_path.substring_char(0, i + 1).to_owned();
            out.append(new_name.as_str());
            proof {
                assert(out@ =~= spec_default_pitch_output(input_path@, rounded as int));
            }
            out
        },
        None => new_name,
    }
}

/// The filter chain that shifts pitch: a rate change by the pitch factor,
/// a resample back to the original rate, and a tempo correction by the
/// factor's reciprocal, so only the pitch moves.
pub open spec fn spec_pitch_filter_text(factor: Seq<char>, atempo: Seq<char>) -> Seq<char> {
    "asetrate=44100*"@ + factor + ",aresample=44100,atempo="@ + atempo
}

/// Chooses the filter for a shift given in thousandths of a semitone. A
/// shift of at most a hundredth of a semitone either way is treated as no
/// shift at all: no filter, an identity copy.
pub fn pitch_filter(milli: i64, factor_text: &str, atempo_text: &str) -> (r: Option<String>)
    ensures
        (milli > 10 || milli < -10) <==> r is Some,
        (r matches Some(f) ==> f@ == spec_pitch_filter_text(factor_text@, atempo_text@)),
{
    if milli > 10 || milli < -10 {
        let mut s = "asetrate=44100*".to_owned();
        s.append(factor_text);
        s.append(",aresample=44100,atempo=");
        s.append(atempo_text);
        proof {
            assert(s@ =~= spec_pitch_filter_text(factor_text@, atempo_text@));
        }
        Some(s)
    } else {
        None
    }
}

/// One planned pitch shift: the encoder's argument vector and the
/// destination it writes.
#[derive(Debug)]
pub struct PitchPlan {
    pub args: Vec<String>,
    pub output: String,
}

/// The destination chosen for a shift request.
pub open spec fn spec_pitch_output(
    input_path: Seq<char>,
    output_path: Option<String>,
    milli: int,
) -> Seq<char> {
    match output_path {
        Some(o) => o@,
        None => spec_default_pitch_output(input_path, spec_round_millis(milli)),
    }
}

/// Plans one pitch shift of the input by `milli` thousandths of a semitone.
/// The rendered pitch factor and its reciprocal are taken as text. A missing
/// input is rejected before anything is planned; a shift within a hundredth
/// of a semitone of zero is planned as a plain copy without a filter.
pub fn plan_pitch_shift(
    input_path: &str,
    input_exists: bool,
    output_path: Option<String>,
    milli: i64,
    factor_text: &str,
    atempo_text: &str,
) -> (r: Result<PitchPlan, String>)
    requires
        i64::MIN + 500 < milli <= i64::MAX - 500,
    ensures
        !input_exists ==> (r matches Err(e) && e@ == "Input file not found"@),
        input_exists ==> (r matches Ok(p) && {
            let out = spec_pitch_output(input_path@, output_path, milli as int);
            &&& p.output@ == out
            &&& if milli > 10 || milli < -10 {
                p.args.deep_view() == seq![
                    "-i"@,
                    input_path@,
                    "-y"@,
                    "-af"@,
                    spec_pitch_filter_text(factor_text@, atempo_text@),
                    out,
                ]
            } else {
                p.args.deep_view() == seq!["-i"@, input_path@, "-y"@, out]
            }
        }),
{
    if !input_exists {
        return Err("Input file not found".to_owned());
    }
    let rounded = round_semitones(milli);
    let destination = match output_path {
        Some(o) => o,
        None => default_pitch_output(input_path, rounded),
    };
    let filter = pitch_filter(milli, factor_text, atempo_text);
    let mut args: Vec<String> = Vec::new();
    args.push("-i".to_owned());
    args.push(input_path.to_owned());
    args.push("-y".to_owned());
    match filter {
        Some(f) => {
            args.push("-af".to_owned());
            args.push(f);
        },
        None => {},
    }
    args.push(destination.clone());
    let p = PitchPlan { args, output: destination };
    proof {
        let out = spec_pitch_output(input_path@, output_path, milli as int);
        if milli > 10 || milli < -10 {
            assert(p.args.deep_view() =~~= seq![
                "-i"@,
                input_path@,
                "-y"@,
                "-af"@,
                spec_pitch_filter_text(factor_text@, atempo_text@),
                out,
            ]);
        } else {
            assert(p.args.deep_view() =~~= seq!["-i"@, input_path@, "-y"@, out]);
        }
    }
    Ok(p)
}

} // verus!
