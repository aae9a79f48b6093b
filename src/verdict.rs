//! Reduction of a run's outcome to the verdict a client sees, and the JSON
//! reply that carries it.

use vstd::prelude::*;
use crate::exec::{CodeExec, ExecError};

verus! {

/// The message for an outcome that no harness convention explains.
pub const SERVER_ERROR: &'static str = "A server error occurred. Try again later.";

/// The message for a run whose deadline passed.
pub const TIMED_OUT: &'static str = "Test timed out.";

/// The user-facing result of one submission.
#[derive(Debug, PartialEq, Eq)]
pub struct Verdict {
    pub success: bool,
    pub message: String,
}

/// The verdict that an outcome stands for: exit 0 passes with the standard
/// output, exit 1 fails with the standard error, exit 2 fails with the
/// standard output, a timeout fails with the fixed timeout message, and
/// anything else fails with the fixed server-error message.
pub open spec fn verdict_spec(r: Result<CodeExec, ExecError>) -> (bool, Seq<char>) {
    match r {
        Ok(CodeExec::Executed(Some(0), out, _)) => (true, out@),
        Ok(CodeExec::Executed(Some(1), _, err)) => (false, err@),
        Ok(CodeExec::Executed(Some(2), out, _)) => (false, out@),
        Ok(CodeExec::Timeout) => (false, TIMED_OUT@),
        _ => (false, SERVER_ERROR@),
    }
}

/// Maps the outcome of a harness run to its verdict.
pub fn verdict_of(r: &Result<CodeExec, ExecError>) -> (v: Verdict)
    ensures
        (v.success, v.message@) == verdict_spec(*r),
{
    match r {
        Ok(CodeExec::Executed(Some(0), out, _)) => Verdict { success: true, message: out.clone() },
        Ok(CodeExec::Executed(Some(1), _, err)) => Verdict { success: false, message: err.clone() },
        Ok(CodeExec::Executed(Some(2), out, _)) => Verdict { success: false, message: out.clone() },
        Ok(CodeExec::Timeout) => Verdict { success: false, message: String::from_str(TIMED_OUT) },
        _ => Verdict { success: false, message: String::from_str(SERVER_ERROR) },
    }
}

/// The JSON string literal (quotes and escapes included) that `s` is written as.
pub uninterp spec fn json_quoted(s: Seq<char>) -> Seq<char>;

/// Relies on `serde_json::to_string` on a `str`: it writes the text as one
/// JSON string. Its documentation gives failure only for a `Serialize` impl
/// that fails or a map with non-string keys, neither of which a `str` has.
#[verifier::external_body]
pub(crate) fn quote_json(s: &str) -> (r: String)
    ensures
        r@ == json_quoted(s@),
{
    serde_json::to_string(s).unwrap_or_default()
}

/// The JSON object `{"msg":<quoted>,"success":<flag>}`.
pub open spec fn reply_text(success: bool, quoted: Seq<char>) -> Seq<char> {
    "{\"msg\":"@ + quoted + ",\"success\":"@ + (if success {
        "true"@
    } else {
        "false"@
    }) + "}"@
}

/// Writes a verdict as the JSON object returned to the client, its keys in
/// sorted order.
pub fn gen_reply(success: bool, message: &str) -> (r: String)
    ensures
        r@ == reply_text(success, json_quoted(message@)),
{
    let quoted = quote_json(message);
    let mut r = String::from_str("{\"msg\":");
    r.append(quoted.as_str());
    r.append(",\"success\":");
    if success {
        r.append("true");
    } else {
        r.append("false");
    }
    r.append("}");
    r
}

/// The reply sent for the outcome of a harness run.
pub fn reply_of(r: &Result<CodeExec, ExecError>) -> (s: String)
    ensures
        s@ == reply_text(verdict_spec(*r).0, json_quoted(verdict_spec(*r).1)),
{
    let v = verdict_of(r);
    gen_reply(v.success, v.message.as_str())
}

/// An exit code of 0 passes with exactly the captured standard output.
pub proof fn lemma_exit_zero_passes(out: String, err: String)
    ensures
        verdict_spec(Ok(CodeExec::Executed(Some(0), out, err))) == (true, out@),
{
}

/// An exit code of 1 fails with exactly the captured standard error.
pub proof fn lemma_exit_one_fails(out: String, err: String)
    ensures
        verdict_spec(Ok(CodeExec::Executed(Some(1), out, err))) == (false, err@),
{
}

} // verus!
