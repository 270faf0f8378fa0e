use worker_supervisor::envelope::DecodeError;
use worker_supervisor::envelope::JsonValue;
use worker_supervisor::output::classify_oneshot;
use worker_supervisor::output::interpret_output;
use worker_supervisor::output::CommandOutput;
use worker_supervisor::output::OneshotError;
use worker_supervisor::output::ProcessExit;
use worker_supervisor::output::ResponseError;

fn out(stdout: &str, stderr: &str) -> CommandOutput {
    CommandOutput { stdout: String::from(stdout), stderr: String::from(stderr) }
}

#[test]
fn successful_run_keeps_both_streams() {
    let r = classify_oneshot(
        String::from("{\"result\": 1}\n"),
        String::from("debug note\n"),
        ProcessExit { success: true, code: Some(0) },
    );
    assert_eq!(r.unwrap(), out("{\"result\": 1}\n", "debug note\n"));
}

#[test]
fn failed_run_surfaces_stderr_content() {
    let r = classify_oneshot(
        String::from("partial"),
        String::from("traceback: it broke\n"),
        ProcessExit { success: false, code: Some(1) },
    );
    assert_eq!(r.unwrap_err(), OneshotError::ErrorOutput(String::from("traceback: it broke\n")));
}

#[test]
fn failed_run_with_silent_stderr_reports_the_exit_code() {
    let r = classify_oneshot(
        String::from(""),
        String::from("  \n"),
        ProcessExit { success: false, code: Some(2) },
    );
    assert_eq!(r.unwrap_err(), OneshotError::ExitedWithError(Some(2)));
}

#[test]
fn failed_run_without_a_code_still_fails() {
    let r = classify_oneshot(
        String::from(""),
        String::from(""),
        ProcessExit { success: false, code: None },
    );
    assert_eq!(r.unwrap_err(), OneshotError::ExitedWithError(None));
}

#[test]
fn diagnostics_without_a_result_are_not_success() {
    let r = classify_oneshot(
        String::from("   "),
        String::from("warning: nothing computed"),
        ProcessExit { success: true, code: Some(0) },
    );
    assert_eq!(
        r.unwrap_err(),
        OneshotError::ErrorOutput(String::from("warning: nothing computed"))
    );
}

#[test]
fn silent_success_is_still_success() {
    let r = classify_oneshot(
        String::from(""),
        String::from(""),
        ProcessExit { success: true, code: Some(0) },
    );
    assert_eq!(r.unwrap(), out("", ""));
}

#[test]
fn interpret_decodes_the_output_text() {
    let r = interpret_output(&out("{\"result\": true}", ""));
    assert_eq!(r.unwrap(), JsonValue::Bool(true));
}

#[test]
fn interpret_prefers_stderr_when_stdout_is_empty() {
    let r = interpret_output(&out("  \n", "engine failed to start"));
    assert_eq!(
        r.unwrap_err(),
        ResponseError::Diagnostic(String::from("engine failed to start"))
    );
}

#[test]
fn interpret_of_two_empty_streams_is_an_empty_response() {
    let r = interpret_output(&out("", ""));
    assert_eq!(r.unwrap_err(), ResponseError::Decode(DecodeError::EmptyResponse));
}

#[test]
fn interpret_passes_decoder_errors_through() {
    let r = interpret_output(&out("not json", "ignored"));
    assert_eq!(
        r.unwrap_err(),
        ResponseError::Decode(DecodeError::MalformedResponse(String::from("not json")))
    );
    let w = interpret_output(&out("{\"error\": \"boom\"}", ""));
    assert_eq!(
        w.unwrap_err(),
        ResponseError::Decode(DecodeError::WorkerReportedError(String::from("boom")))
    );
}
