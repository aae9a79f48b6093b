use executor::exec::{outcome_of, CodeExec, ExecError, RawRun};
use executor::verdict::{gen_reply, reply_of, verdict_of, Verdict};

fn executed(code: Option<i32>, out: &str, err: &str) -> Result<CodeExec, ExecError> {
    Ok(CodeExec::Executed(code, out.to_string(), err.to_string()))
}

#[test]
fn exit_zero_passes_with_stdout() {
    let v = verdict_of(&executed(Some(0), "All test cases passed!", "noise"));
    assert_eq!(v, Verdict { success: true, message: "All test cases passed!".to_string() });
}

#[test]
fn exit_one_fails_with_stderr() {
    let v = verdict_of(&executed(Some(1), "out", "Test case failed"));
    assert_eq!(v, Verdict { success: false, message: "Test case failed".to_string() });
}

#[test]
fn exit_two_fails_with_stdout() {
    let v = verdict_of(&executed(Some(2), "SyntaxError", "err"));
    assert_eq!(v, Verdict { success: false, message: "SyntaxError".to_string() });
}

#[test]
fn other_codes_are_server_errors() {
    let generic = "A server error occurred. Try again later.";
    for r in [executed(Some(3), "a", "b"), executed(Some(-1), "a", "b"), executed(None, "a", "b")] {
        assert_eq!(verdict_of(&r), Verdict { success: false, message: generic.to_string() });
    }
    assert_eq!(
        verdict_of(&Err(ExecError::Launch)),
        Verdict { success: false, message: generic.to_string() }
    );
}

#[test]
fn timeout_verdict() {
    let v = verdict_of(&Ok(CodeExec::Timeout));
    assert_eq!(v, Verdict { success: false, message: "Test timed out.".to_string() });
}

#[test]
fn reply_json_text() {
    assert_eq!(
        gen_reply(true, "All test cases passed!"),
        r#"{"msg":"All test cases passed!","success":true}"#
    );
    assert_eq!(
        gen_reply(false, "Expected \n`False`"),
        r#"{"msg":"Expected \n`False`","success":false}"#
    );
    assert_eq!(gen_reply(false, "a\"b"), r#"{"msg":"a\"b","success":false}"#);
    assert_eq!(
        reply_of(&Ok(CodeExec::Timeout)),
        r#"{"msg":"Test timed out.","success":false}"#
    );
}

#[test]
fn deadline_gives_timeout() {
    assert_eq!(outcome_of(RawRun::DeadlinePassed), Ok(CodeExec::Timeout));
}

#[test]
fn finished_run_is_decoded() {
    let r = outcome_of(RawRun::Finished {
        status: Some(0),
        stdout: b"yeet\n".to_vec(),
        stderr: vec![],
    });
    assert_eq!(r, Ok(CodeExec::Executed(Some(0), "yeet\n".to_string(), String::new())));
    let r = outcome_of(RawRun::Finished { status: None, stdout: vec![], stderr: vec![0xc3, 0xa9] });
    assert_eq!(r, Ok(CodeExec::Executed(None, String::new(), "é".to_string())));
}

#[test]
fn invalid_utf8_is_a_decode_fault() {
    let r = outcome_of(RawRun::Finished { status: Some(0), stdout: vec![0xff, 0xfe], stderr: vec![] });
    assert_eq!(r, Err(ExecError::Decode));
}
