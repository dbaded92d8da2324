use crate::paths::join_path;
use crate::process::{lossy_of, lossy_utf8, ProcessResult};
use vstd::prelude::*;

verus! {

/// The one file whose presence means the separation models are installed.
pub fn model_file_path() -> (r: String)
    ensures
        r@ == "/tmp/audio-separator-models/UVR-MDX-NET-Inst_HQ_3.onnx"@,
{
    let r = join_path("/tmp/audio-separator-models", "UVR-MDX-NET-Inst_HQ_3.onnx");
    proof {
        reveal_strlit("/tmp/audio-separator-models");
        reveal_strlit("/");
        reveal_strlit("UVR-MDX-NET-Inst_HQ_3.onnx");
        reveal_strlit("/tmp/audio-separator-models/UVR-MDX-NET-Inst_HQ_3.onnx");
        assert(r@ =~= "/tmp/audio-separator-models/UVR-MDX-NET-Inst_HQ_3.onnx"@);
    }
    r
}

/// Whether the models are installed, and where the check looked.
pub struct ModelsStatus {
    pub installed: bool,
    pub model_path: String,
}

/// Reports the installed state read from the model file's existence.
pub fn models_status(model_file_exists: bool) -> (r: ModelsStatus)
    ensures
        r.installed == model_file_exists,
        r.model_path@ == "/tmp/audio-separator-models/UVR-MDX-NET-Inst_HQ_3.onnx"@,
{
    ModelsStatus { installed: model_file_exists, model_path: model_file_path() }
}

/// Decodes a finished model-download run: its standard output on success,
/// its error text on failure.
pub fn model_download_result(output: &ProcessResult) -> (r: Result<String, String>)
    ensures
        output.success ==> (r matches Ok(s) && s@ == lossy_of(output.stdout@)),
        !output.success ==> (r matches Err(e) && e@ == "Download failed: "@ + lossy_of(
            output.stderr@,
        )),
{
    if output.success {
        Ok(lossy_utf8(&output.stdout))
    } else {
        let mut e = "Download failed: ".to_owned();
        let text = lossy_utf8(&output.stderr);
        e.append(text.as_str());
        Err(e)
    }
}

} // verus!
