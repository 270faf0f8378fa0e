//! Captured worker output and its interpretation.
//!
//! A one-shot invocation ends with an exit status and the full contents of
//! both output streams; its outcome is classified here.  A persistent
//! exchange ends with a response body and an empty error stream.  Either
//! way, the captured output is interpreted: empty standard output is
//! answered by whatever diagnostic text the error stream carried, and
//! anything else goes through the response envelope decoder.

use crate::envelope::decode_envelope;
use crate::envelope::decode_post;
use crate::envelope::DecodeError;
use crate::envelope::JsonValue;
use crate::framing::spec_trim;
use crate::framing::trim_str;
use vstd::prelude::*;

verus! {

/// Captured output of one worker invocation.
#[derive(PartialEq, Eq, Debug)]
pub struct CommandOutput {
    /// Everything the worker wrote to its output stream.
    pub stdout: String,
    /// Everything the worker wrote to its error stream.
    pub stderr: String,
}

/// How a one-shot worker process exited.
#[derive(PartialEq, Eq, Clone, Copy, Debug)]
pub struct ProcessExit {
    /// Whether the exit status reported success.
    pub success: bool,
    /// The numeric exit code, when the platform reported one.
    pub code: Option<i32>,
}

/// Why a one-shot invocation is judged failed.
#[derive(PartialEq, Eq, Debug)]
pub enum OneshotError {
    /// The process failed, or succeeded without producing a result, while
    /// its error stream had content; that content is the error.
    ErrorOutput(String),
    /// The process exited with an error and an empty error stream; only
    /// the exit code, when the platform reported one, says more.
    ExitedWithError(Option<i32>),
}

/// Classifies a finished one-shot invocation.  A failed exit surfaces the
/// error stream's content, or only the exit code when that stream is
/// empty; a successful exit with empty standard output but diagnostic text
/// on the error stream is still treated as a failure, since diagnostics
/// without a result must not pass as success.
pub fn classify_oneshot(stdout: String, stderr: String, exit: ProcessExit) -> (r: Result<
    CommandOutput,
    OneshotError,
>)
    ensures
        !exit.success && spec_trim(stderr@).len() != 0 ==> (r matches Err(
            OneshotError::ErrorOutput(e),
        ) && e == stderr),
        !exit.success && spec_trim(stderr@).len() == 0 ==> r == Err::<CommandOutput, OneshotError>(
            OneshotError::ExitedWithError(exit.code),
        ),
        exit.success && spec_trim(stdout@).len() == 0 && spec_trim(stderr@).len() != 0 ==> (
        r matches Err(OneshotError::ErrorOutput(e)) && e == stderr),
        exit.success && (spec_trim(stdout@).len() != 0 || spec_trim(stderr@).len() == 0) ==> r
            == Ok::<CommandOutput, OneshotError>((CommandOutput { stdout, stderr })),
{
    let stderr_empty = trim_str(stderr.as_str()).as_str().is_empty();
    if !exit.success {
        if stderr_empty {
            return Err(OneshotError::ExitedWithError(exit.code));
        }
        return Err(OneshotError::ErrorOutput(stderr));
    }
    let stdout_empty = trim_str(stdout.as_str()).as_str().is_empty();
    if stdout_empty && !stderr_empty {
        return Err(OneshotError::ErrorOutput(stderr));
    }
    Ok(CommandOutput { stdout, stderr })
}

/// Why a captured output yields no payload.
#[derive(PartialEq, Eq, Debug)]
pub enum ResponseError {
    /// The decoder refused the output's text.
    Decode(DecodeError),
    /// The output stream was empty while the error stream carried
    /// diagnostic text; that text is surfaced.
    Diagnostic(String),
}

/// Interprets a worker's captured output.  Empty standard output is
/// answered by the error stream's text when there is any; otherwise the
/// standard output is decoded as a response envelope.
pub fn interpret_output(out: &CommandOutput) -> (r: Result<JsonValue, ResponseError>)
    ensures
        spec_trim(out.stdout@).len() == 0 && spec_trim(out.stderr@).len() != 0 ==> (r matches Err(
            ResponseError::Diagnostic(d),
        ) && d == out.stderr),
        spec_trim(out.stdout@).len() == 0 && spec_trim(out.stderr@).len() == 0 ==> r == Err::<
            JsonValue,
            ResponseError,
        >(ResponseError::Decode(DecodeError::EmptyResponse)),
        spec_trim(out.stdout@).len() != 0 ==> match r {
            Ok(v) => decode_post(out.stdout@, Ok(v)),
            Err(ResponseError::Decode(e)) => decode_post(out.stdout@, Err(e)),
            Err(ResponseError::Diagnostic(_)) => false,
        },
{
    let so_empty = trim_str(out.stdout.as_str()).as_str().is_empty();
    if so_empty {
        let se_empty = trim_str(out.stderr.as_str()).as_str().is_empty();
        if se_empty {
            return Err(ResponseError::Decode(DecodeError::EmptyResponse));
        }
        return Err(ResponseError::Diagnostic(out.stderr.clone()));
    }
    match decode_envelope(out.stdout.as_str()) {
        Ok(v) => Ok(v),
        Err(e) => Err(ResponseError::Decode(e)),
    }
}

} // verus!
