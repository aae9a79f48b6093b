//! The Python adapter: the harness payload and the command lines that run it.

use vstd::prelude::*;
use crate::docker::{attach_flags, one_shot_args, push_text, run_args_spec, texts};
use crate::verdict::{json_quoted, quote_json};

verus! {

/// The pair handed to the in-sandbox harness on its standard input.
pub struct Test<'a> {
    pub code: &'a str,
    pub test_case: &'a str,
}

/// The JSON object `{"code":<code>,"test_case":<cases>}`, from the two
/// quoted texts.
pub open spec fn payload_text(code: Seq<char>, cases: Seq<char>) -> Seq<char> {
    "{\"code\":"@ + code + ",\"test_case\":"@ + cases + "}"@
}

impl<'a> Test<'a> {
    /// The harness payload: both texts as JSON strings, in one object.
    pub fn payload(&self) -> (r: String)
        ensures
            r@ == payload_text(json_quoted(self.code@), json_quoted(self.test_case@)),
    {
        let code = quote_json(self.code);
        let cases = quote_json(self.test_case);
        let mut r = String::from_str("{\"code\":");
        r.append(code.as_str());
        r.append(",\"test_case\":");
        r.append(cases.as_str());
        r.append("}");
        r
    }
}

/// The harness invocation for the function `func_name`.
pub open spec fn harness_command(func_name: Seq<char>) -> Seq<Seq<char>> {
    seq!["python"@, "./test.py"@, func_name]
}

/// The interpreter arguments that run the harness directly, for trusted use.
pub fn local_harness_args(func_name: &str) -> (r: Vec<String>)
    ensures
        texts(r@) == harness_command(func_name@).subrange(1, 3),
{
    let mut r: Vec<String> = Vec::new();
    push_text(&mut r, "./test.py");
    push_text(&mut r, func_name);
    assert(texts(r@) =~= harness_command(func_name@).subrange(1, 3));
    r
}

/// The runtime arguments and standard input of one sandboxed harness run of
/// `code` against `test_case`, in a read-only container of `image`.
pub fn python_job(image: &str, code: &str, func_name: &str, test_case: &str) -> (r: (
    Vec<String>,
    String,
))
    ensures
        texts(r.0@) == run_args_spec(image@, harness_command(func_name@), attach_flags(), true),
        r.1@ == payload_text(json_quoted(code@), json_quoted(test_case@)),
{
    let mut command: Vec<String> = Vec::new();
    push_text(&mut command, "python");
    push_text(&mut command, "./test.py");
    push_text(&mut command, func_name);
    assert(texts(command@) =~= harness_command(func_name@));
    let args = one_shot_args(image, &command, true);
    let stdin = Test { code, test_case }.payload();
    (args, stdin)
}

} // verus!
