//! Routing of one submission to the adapter of its language, and retrieval of
//! starter code.

use vstd::prelude::*;
use crate::config::{same_text, Config, Question};
use crate::docker::{attach_flags, detach_flags, run_args_spec, texts};
use crate::exec::{decode_utf8, utf8_text};
use crate::java::{is_run, java_source, java_source_spec, JavaAction, JavaSession, Phase, SETUP_DEADLINE_MS};
use crate::python::{harness_command, payload_text, python_job};
use crate::verdict::json_quoted;

verus! {

/// The image every sandbox is made from.
pub const IMAGE: &'static str = "test";

/// A language the judge runs.
#[derive(PartialEq, Eq, Structural, Clone, Copy, Debug)]
pub enum Language {
    Python,
    Java,
}

/// The language named by `s`, if the judge runs it.
pub open spec fn language_spec(s: Seq<char>) -> Option<Language> {
    if s == "python"@ {
        Some(Language::Python)
    } else if s == "java"@ {
        Some(Language::Java)
    } else {
        None
    }
}

/// Reads a language name.
pub fn language_of(s: &str) -> (r: Option<Language>)
    ensures
        r == language_spec(s@),
{
    if same_text(s, "python") {
        Some(Language::Python)
    } else if same_text(s, "java") {
        Some(Language::Java)
    } else {
        None
    }
}

/// Why a submission was turned away before any execution.
#[derive(PartialEq, Eq, Structural, Clone, Copy, Debug)]
pub enum Rejection {
    /// The submitted code is not valid UTF-8.
    BadEncoding,
    /// No question has the given handle.
    UnknownQuestion,
    /// The language is not one the judge runs.
    UnknownLanguage,
}

/// The work one accepted submission stands for.
pub enum Job {
    /// One sandboxed harness run: runtime arguments, standard input and
    /// deadline.
    Python { args: Vec<String>, stdin: String, deadline_ms: u64 },
    /// A Java session, and its first action.
    Java { session: JavaSession, first: JavaAction },
}

/// True when `q` is filed in `c` under `handle`.
pub open spec fn filed(c: &Config, handle: Seq<char>, q: Question) -> bool {
    exists|i: int| 0 <= i < c.questions@.len() && c.questions@[i] == q && q.handle@ == handle
}

/// True when no question of `c` has `handle`.
pub open spec fn unfiled(c: &Config, handle: Seq<char>) -> bool {
    forall|i: int| 0 <= i < c.questions@.len() ==> c.questions@[i].handle@ != handle
}

/// True when `j` is the job for `code` against `q` in `language`.
pub open spec fn is_job(c: &Config, language: Language, q: Question, code: Seq<char>, j: Job) -> bool {
    match (language, j) {
        (Language::Python, Job::Python { args, stdin, deadline_ms }) => texts(args@)
            == run_args_spec(IMAGE@, harness_command(q.function_name@), attach_flags(), true)
            && stdin@ == payload_text(json_quoted(code), json_quoted(q.python.test_case@))
            && deadline_ms == c.timeout,
        (Language::Java, Job::Java { session, first }) => session.phase() == Phase::Start
            && session.source() == java_source_spec(
            c.java_test_file@,
            code,
            q.java.func_call@,
            q.java.test_case@,
        ) && session.deadline() == c.timeout && is_run(
            first,
            run_args_spec(IMAGE@, seq!["sh"@], detach_flags(), false),
            SETUP_DEADLINE_MS,
            None,
        ),
        _ => false,
    }
}

impl Config {
    /// Turns a submission into the job that tests it: the code must be valid
    /// UTF-8, the handle must name a question, and the language must be one
    /// the judge runs, checked in that order.
    pub fn plan_submission(&self, language: &str, handle: &str, code: Vec<u8>) -> (r: Result<
        Job,
        Rejection,
    >)
        ensures
            utf8_text(code@) is None ==> r == Err::<Job, Rejection>(Rejection::BadEncoding),
            utf8_text(code@) is Some ==> {
                let text = utf8_text(code@)->Some_0;
                if unfiled(self, handle@) {
                    r == Err::<Job, Rejection>(Rejection::UnknownQuestion)
                } else if language_spec(language@) is None {
                    r == Err::<Job, Rejection>(Rejection::UnknownLanguage)
                } else {
                    r is Ok && exists|q: Question|
                        filed(self, handle@, q) && is_job(
                            self,
                            language_spec(language@)->Some_0,
                            q,
                            text,
                            r->Ok_0,
                        )
                }
            },
    {
        let text = match decode_utf8(code) {
            Some(t) => t,
            None => return Err(Rejection::BadEncoding),
        };
        let q = match self.question(handle) {
            Some(q) => q,
            None => return Err(Rejection::UnknownQuestion),
        };
        assert(filed(self, handle@, *q));
        let deadline_ms = self.timeout as u64;
        match language_of(language) {
            Some(Language::Python) => {
                let (args, stdin) = python_job(
                    IMAGE,
                    text.as_str(),
                    q.function_name.as_str(),
                    q.python.test_case.as_str(),
                );
                let r = Job::Python { args, stdin, deadline_ms };
                assert(is_job(self, Language::Python, *q, text@, r));
                Ok(r)
            },
            Some(Language::Java) => {
                let source = java_source(
                    self.java_test_file.as_str(),
                    text.as_str(),
                    q.java.func_call.as_str(),
                    q.java.test_case.as_str(),
                );
                let (session, first) = JavaSession::new(IMAGE, source, deadline_ms);
                let r = Job::Java { session, first };
                assert(is_job(self, Language::Java, *q, text@, r));
                Ok(r)
            },
            None => Err(Rejection::UnknownLanguage),
        }
    }

    /// The starter code of the question filed under `handle` in the named
    /// language; none for an unknown question or language.
    pub fn get_boilerplate(&self, handle: &str, language: &str) -> (r: Option<String>)
        ensures
            unfiled(self, handle@) || language_spec(language@) is None ==> r is None,
            !unfiled(self, handle@) && language_spec(language@) is Some ==> r is Some
                && exists|q: Question|
                filed(self, handle@, q) && r->Some_0@ == match language_spec(language@)->Some_0 {
                    Language::Python => q.python.boilerplate@,
                    Language::Java => q.java.boilerplate@,
                },
    {
        let q = match self.question(handle) {
            Some(q) => q,
            None => return None,
        };
        assert(filed(self, handle@, *q));
        match language_of(language) {
            Some(Language::Python) => Some(q.python.boilerplate.clone()),
            Some(Language::Java) => Some(q.java.boilerplate.clone()),
            None => None,
        }
    }
}

} // verus!
