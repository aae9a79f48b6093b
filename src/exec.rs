//! The outcome of one timed process run.

use vstd::prelude::*;

verus! {

/// What a finished (or abandoned) process run produced.
#[derive(Debug, PartialEq, Eq)]
pub enum CodeExec {
    /// The process ended: its exit code (absent when a signal killed it),
    /// its standard output and its standard error.
    Executed(Option<i32>, String, String),
    /// The deadline passed first; the process was terminated.
    Timeout,
}

/// Faults that keep a run from producing an outcome at all.
#[derive(Debug, PartialEq, Eq)]
pub enum ExecError {
    /// The program could not be started, or its pipes failed.
    Launch,
    /// Standard output or standard error was not valid UTF-8.
    Decode,
}

/// What the process runner observed, before any decoding.
pub enum RawRun {
    /// The process ended before the deadline.
    Finished { status: Option<i32>, stdout: Vec<u8>, stderr: Vec<u8> },
    /// The deadline passed first.
    DeadlinePassed,
}

/// The text that a byte sequence holds as UTF-8, if it is valid UTF-8.
pub uninterp spec fn utf8_text(b: Seq<u8>) -> Option<Seq<char>>;

/// Relies on `String::from_utf8`: the bytes are decoded exactly when they are
/// valid UTF-8, and an empty byte sequence is valid.
#[verifier::external_body]
pub(crate) fn decode_utf8(b: Vec<u8>) -> (r: Option<String>)
    ensures
        match r {
            Some(s) => utf8_text(b@) == Some(s@),
            None => utf8_text(b@).is_none(),
        },
        b@.len() == 0 ==> r.is_some(),
{
    String::from_utf8(b).ok()
}

/// The outcome that a raw run stands for, as a spec.
pub open spec fn outcome_spec(status: Option<i32>, out: Seq<u8>, err: Seq<u8>) -> Result<
    (Option<i32>, Seq<char>, Seq<char>),
    ExecError,
> {
    match (utf8_text(out), utf8_text(err)) {
        (Some(o), Some(e)) => Ok((status, o, e)),
        _ => Err(ExecError::Decode),
    }
}

/// True when `r` is the outcome that `raw` stands for.
pub open spec fn is_outcome_of(raw: RawRun, r: Result<CodeExec, ExecError>) -> bool {
    match raw {
        RawRun::DeadlinePassed => r == Ok::<CodeExec, ExecError>(CodeExec::Timeout),
        RawRun::Finished { status, stdout, stderr } => match (
            outcome_spec(status, stdout@, stderr@),
            r,
        ) {
            (Ok((st, o, e)), Ok(CodeExec::Executed(st2, o2, e2))) => st == st2 && o == o2@ && e
                == e2@,
            (Err(x), Err(y)) => x == y,
            _ => false,
        },
    }
}

/// Turns what the runner observed into an outcome. A run whose deadline
/// passed is always `Timeout`, whatever it had printed; a finished run is
/// `Executed` with both streams decoded, or a decoding fault.
pub fn outcome_of(raw: RawRun) -> (r: Result<CodeExec, ExecError>)
    ensures
        is_outcome_of(raw, r),
        raw is DeadlinePassed ==> r == Ok::<CodeExec, ExecError>(CodeExec::Timeout),
{
    match raw {
        RawRun::DeadlinePassed => Ok(CodeExec::Timeout),
        RawRun::Finished { status, stdout, stderr } => {
            let out = decode_utf8(stdout);
            let err = decode_utf8(stderr);
            match (out, err) {
                (Some(o), Some(e)) => Ok(CodeExec::Executed(status, o, e)),
                _ => Err(ExecError::Decode),
            }
        },
    }
}

} // verus!
