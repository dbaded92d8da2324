use crate::process::{lossy_of, lossy_utf8, utf8_string, ProcessResult};
use vstd::prelude::*;
use vstd::utf8::{decode_utf8, valid_utf8};

verus! {

/// What the analyzer script is asked to measure.
pub enum AnalysisMode {
    Tempo,
    Key,
}

/// The mode discriminator handed to the analyzer script.
pub open spec fn spec_mode_text(mode: AnalysisMode) -> Seq<char> {
    match mode {
        AnalysisMode::Tempo => "tempo"@,
        AnalysisMode::Key => "key"@,
    }
}

/// Plans one analysis run: the script, the mode discriminator, and the audio
/// file. A missing input is rejected before anything is planned.
pub fn plan_analysis(
    mode: AnalysisMode,
    audio_path: &str,
    input_exists: bool,
    script_path: &str,
) -> (r: Result<Vec<String>, String>)
    ensures
        !input_exists ==> (r matches Err(e) && e@ == "Audio file not found: "@ + audio_path@),
        input_exists ==> (r matches Ok(a) && a.deep_view() == seq![
            script_path@,
            spec_mode_text(mode),
            audio_path@,
        ]),
{
    if !input_exists {
        let mut e = "Audio file not found: ".to_owned();
        e.append(audio_path);
        return Err(e);
    }
    let mode_text = match mode {
        AnalysisMode::Tempo => "tempo",
        AnalysisMode::Key => "key",
    };
    let mut args: Vec<String> = Vec::new();
    args.push(script_path.to_owned());
    args.push(mode_text.to_owned());
    args.push(audio_path.to_owned());
    proof {
        assert(args.deep_view() =~~= seq![script_path@, spec_mode_text(mode), audio_path@]);
    }
    Ok(args)
}

/// Decodes a finished analysis run: the script's standard output is passed
/// through as it came, a failed run or undecodable output becomes an error.
pub fn analysis_output(output: ProcessResult) -> (r: Result<String, String>)
    ensures
        !output.success ==> (r matches Err(e) && e@ == "Audio analysis failed: "@ + lossy_of(
            output.stderr@,
        )),
        output.success && valid_utf8(output.stdout@) ==> (r matches Ok(s) && s@ == decode_utf8(
            output.stdout@,
        )),
        output.success && !valid_utf8(output.stdout@) ==> (r matches Err(e) && exists|t: Seq<char>|
            e@ == "Failed to parse output: "@ + t),
{
    if !output.success {
        let mut e = "Audio analysis failed: ".to_owned();
        let text = lossy_utf8(&output.stderr);
        e.append(text.as_str());
        return Err(e);
    }
    match utf8_string(output.stdout) {
        Ok(s) => Ok(s),
        Err(why) => {
            let ghost gw = why@;
            let mut e = "Failed to parse output: ".to_owned();
            e.append(why.as_str());
            proof {
                assert(e@ == "Failed to parse output: "@ + gw);
            }
            Err(e)
        },
    }
}

} // verus!
