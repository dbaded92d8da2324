use crate::paths::{spec_stem_of, spec_with_file_name};
use crate::process::{lossy_of, lossy_utf8, utf8_string, ProcessResult};
use crate::strings::{find_last, spec_u64_string, u64_to_string};
use vstd::prelude::*;
use vstd::utf8::{decode_utf8, valid_utf8};

verus! {

/// One planned stem separation: the separator's argument vector and the
/// directory the stems land in.
#[derive(Debug)]
pub struct StemPlan {
    pub args: Vec<String>,
    pub output_dir: String,
}

/// The directory chosen for the stems: the caller's, or a "_stems" folder
/// beside the input.
pub open spec fn spec_stem_output_dir(input: Seq<char>, output_dir: Option<String>) -> Seq<char> {
    match output_dir {
        Some(o) => o@,
        None => spec_with_file_name(input, spec_stem_of(input) + "_stems"@),
    }
}

/// The separation model with the default applied, as characters.
pub open spec fn spec_model_arg(model_name: Option<String>) -> Seq<char> {
    match model_name {
        Some(m) => m@,
        None => "UVR-MDX-NET-Inst_HQ_3"@,
    }
}

/// The GPU flag handed to the separator; enabled by default.
pub open spec fn spec_gpu_arg(use_gpu: Option<bool>) -> Seq<char> {
    match use_gpu {
        Some(false) => "false"@,
        _ => "true"@,
    }
}

fn default_stem_dir(input_path: &str) -> (r: String)
    ensures
        r@ == spec_with_file_name(input_path@, spec_stem_of(input_path@) + "_stems"@),
{
    let n = input_path.unicode_len();
    let slash = find_last(input_path, '/');
    let name: &str = match slash {
        Some(i) => input_path.substring_char(i + 1, n),
        None => input_path,
    };
    let name_len = name.unicode_len();
    let stem: &str = if name_len == 0 {
        "output"
    } else {
        match find_last(name, '.') {
            Some(j) => if j > 0 {
                name.substring_char(0, j)
            } else {
                name
            },
            None => name,
        }
    };
    let mut new_name = stem.to_owned();
    new_name.append("_stems");
    match slash {
        Some(i) => {
            let mut out = input_path.substring_char(0, i + 1).to_owned();
            out.append(new_name.as_str());
            proof {
                assert(out@ =~= spec_with_file_name(
                    input_path@,
                    spec_stem_of(input_path@) + "_stems"@,
                ));
            }
            out
        },
        None => new_name,
    }
}

/// Plans one stem separation. A missing input is rejected first; a stem
/// count other than two or four is rejected next, before any plan exists, so
/// the external separator is never reached for one.
pub fn plan_stem_separation(
    input_path: &str,
    input_exists: bool,
    output_dir: Option<String>,
    stems: u8,
    model_name: Option<String>,
    use_gpu: Option<bool>,
    script_path: &str,
) -> (r: Result<StemPlan, String>)
    ensures
        !input_exists ==> (r matches Err(e) && e@ == "Input file not found"@),
        input_exists && stems != 2 && stems != 4 ==> (r matches Err(e) && e@
            == "Stems must be 2 or 4"@),
        input_exists && (stems == 2 || stems == 4) ==> (r matches Ok(p) && {
            &&& p.output_dir@ == spec_stem_output_dir(input_path@, output_dir)
            &&& p.args.deep_view() == seq![
                script_path@,
                input_path@,
                p.output_dir@,
                spec_u64_string(stems as nat),
                spec_model_arg(model_name),
                spec_gpu_arg(use_gpu),
            ]
        }),
{
    if !input_exists {
        return Err("Input file not found".to_owned());
    }
    if stems != 2 && stems != 4 {
        return Err("Stems must be 2 or 4".to_owned());
    }
    let target_dir = match output_dir {
        Some(o) => o,
        None => default_stem_dir(input_path),
    };
    let model = match model_name {
        Some(m) => m,
        None => "UVR-MDX-NET-Inst_HQ_3".to_owned(),
    };
    let gpu = match use_gpu {
        Some(false) => "false",
        _ => "true",
    };
    let stems_text = u64_to_string(stems as u64);
    let mut args: Vec<String> = Vec::new();
    args.push(script_path.to_owned());
    args.push(input_path.to_owned());
    args.push(target_dir.clone());
    args.push(stems_text);
    args.push(model);
    args.push(gpu.to_owned());
    let p = StemPlan { args, output_dir: target_dir };
    proof {
        assert(p.args.deep_view() =~~= seq![
            script_path@,
            input_path@,
            p.output_dir@,
            spec_u64_string(stems as nat),
            spec_model_arg(model_name),
            spec_gpu_arg(use_gpu),
        ]);
    }
    Ok(p)
}

/// Decodes a finished separation run: the script's standard output is passed
/// through as it came, a failed run or undecodable output becomes an error.
pub fn stems_output(output: ProcessResult) -> (r: Result<String, String>)
    ensures
        !output.success ==> (r matches Err(e) && e@ == "Stem separation failed: "@ + lossy_of(
            output.stderr@,
        )),
        output.success && valid_utf8(output.stdout@) ==> (r matches Ok(s) && s@ == decode_utf8(
            output.stdout@,
        )),
        output.success && !valid_utf8(output.stdout@) ==> (r matches Err(e) && exists|t: Seq<char>|
            e@ == "Failed to parse output: "@ + t),
{
    if !output.success {
        let mut e = "Stem separation failed: ".to_owned();
        let text = lossy_utf8(&output.stderr);
        e.append(text.as_str());
        return Err(e);
    }
    match utf8_string(output.stdout) {
        Ok(s) => Ok(s),
        Err(why) => {
            let ghost gw = why@;
            let mut e = "Failed to parse output: ".to_owned();
            e.append(why.as_str());
            proof {
                assert(e@ == "Failed to parse output: "@ + gw);
            }
            Err(e)
        },
    }
}

} // verus!
