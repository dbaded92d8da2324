use crate::strings::{i64_to_string, spec_i64_string};
use vstd::prelude::*;

verus! {

/// The captured outcome of one finished subprocess: whether it reported
/// success, its exit code where one exists, and its output bytes.
pub struct ProcessResult {
    pub success: bool,
    pub code: Option<i32>,
    pub stdout: Vec<u8>,
    pub stderr: Vec<u8>,
}

pub uninterp spec fn lossy_of(bytes: Seq<u8>) -> Seq<char>;

/// Relies on String::from_utf8_lossy: the text is read from the bytes alone,
/// and valid UTF-8 decodes unchanged.
#[verifier::external_body]
pub(crate) fn lossy_utf8(bytes: &Vec<u8>) -> (r: String)
    ensures
        r@ == lossy_of(bytes@),
        r@ == if vstd::utf8::valid_utf8(bytes@) {
            vstd::utf8::decode_utf8(bytes@)
        } else {
            lossy_of(bytes@)
        },
{
    String::from_utf8_lossy(bytes.as_slice()).to_string()
}

/// Relies on String::from_utf8: succeeds exactly on valid UTF-8, returning
/// the decoded characters; the error carries the failure's description.
#[verifier::external_body]
pub(crate) fn utf8_string(bytes: Vec<u8>) -> (r: Result<String, String>)
    ensures
        match r {
            Ok(s) => vstd::utf8::valid_utf8(bytes@) && s@ == vstd::utf8::decode_utf8(bytes@),
            Err(_) => !vstd::utf8::valid_utf8(bytes@),
        },
{
    match String::from_utf8(bytes) {
        Ok(s) => Ok(s),
        Err(e) => Err(e.to_string()),
    }
}

/// The debug rendering of an optional exit code.
pub open spec fn spec_code_text(code: Option<i32>) -> Seq<char> {
    match code {
        Some(c) => "Some("@ + spec_i64_string(c as int) + ")"@,
        None => "None"@,
    }
}

/// The failure report for a downloader run that exited non-zero.
pub open spec fn exit_failure_text(code: Option<i32>, stderr: Seq<u8>) -> Seq<char> {
    "yt-dlp exited with code "@ + spec_code_text(code) + ": "@ + lossy_of(stderr)
}

/// Checks a finished downloader run: a non-zero exit becomes a failure
/// report carrying the exit code and the captured error text.
pub fn ensure_success(output: &ProcessResult) -> (r: Result<(), String>)
    ensures
        output.success ==> r is Ok,
        !output.success ==> (r matches Err(e) && e@ == exit_failure_text(
            output.code,
            output.stderr@,
        )),
{
    if output.success {
        Ok(())
    } else {
        let mut msg = "yt-dlp exited with code ".to_owned();
        match output.code {
            Some(c) => {
                msg.append("Some(");
                let num = i64_to_string(c as i64);
                msg.append(num.as_str());
                msg.append(")");
            },
            None => {
                msg.append("None");
            },
        }
        msg.append(": ");
        let err = lossy_utf8(&output.stderr);
        msg.append(err.as_str());
        proof {
            assert(msg@ =~= exit_failure_text(output.code, output.stderr@));
        }
        Err(msg)
    }
}

} // verus!
