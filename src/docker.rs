//! Command lines for the container runtime, and the handle of a running
//! sandbox container.

use vstd::prelude::*;
use crate::exec::{CodeExec, ExecError};

verus! {

/// The texts of a list of strings.
pub open spec fn texts(v: Seq<String>) -> Seq<Seq<char>> {
    v.map_values(|s: String| s@)
}

/// The isolation policy applied to every sandbox: no network, an
/// unprivileged numeric user, and memory, swap and kernel-memory ceilings.
pub open spec fn isolation_flags() -> Seq<Seq<char>> {
    seq![
        "run"@, "--rm"@, "-i"@, "--network"@, "none"@, "--user"@, "1000"@, "-m"@, "100m"@,
        "--memory-swap"@, "100m"@, "--kernel-memory"@, "100m"@,
    ]
}

/// The flags that attach the three standard streams to a one-shot run.
pub open spec fn attach_flags() -> Seq<Seq<char>> {
    seq!["-a"@, "STDIN"@, "-a"@, "STDOUT"@, "-a"@, "STDERR"@]
}

/// The flags that start a container detached, with a terminal.
pub open spec fn detach_flags() -> Seq<Seq<char>> {
    seq!["-t"@, "-d"@]
}

/// The arguments of `run` for `image` running `command`.
pub open spec fn run_args_spec(
    image: Seq<char>,
    command: Seq<Seq<char>>,
    extra: Seq<Seq<char>>,
    readonly: bool,
) -> Seq<Seq<char>> {
    isolation_flags() + extra + (if readonly {
        seq!["--read-only"@]
    } else {
        Seq::empty()
    }) + seq![image] + command
}

/// The arguments of `exec` for `command` inside the container `id`.
pub open spec fn exec_args_spec(id: Seq<char>, command: Seq<Seq<char>>, root: bool) -> Seq<
    Seq<char>,
> {
    seq!["exec"@, "-i"@] + (if root {
        seq!["-u"@, "0"@]
    } else {
        Seq::empty()
    }) + seq![id] + command
}

/// Appends a copy of `s`.
pub(crate) fn push_text(v: &mut Vec<String>, s: &str)
    ensures
        texts(final(v)@) == texts(old(v)@).push(s@),
{
    v.push(String::from_str(s));
    assert(texts(final(v)@) =~= texts(old(v)@).push(s@));
}

/// Appends copies of all of `w`, in order.
pub(crate) fn extend_texts(v: &mut Vec<String>, w: &Vec<String>)
    ensures
        texts(final(v)@) == texts(old(v)@) + texts(w@),
{
    let ghost start = texts(v@);
    let mut i: usize = 0;
    while i < w.len()
        invariant
            i <= w@.len(),
            texts(v@) == start + texts(w@.subrange(0, i as int)),
        decreases w@.len() - i,
    {
        let ghost before = v@;
        v.push(w[i].clone());
        assert(texts(v@) =~= texts(before).push(w@[i as int]@));
        assert(texts(w@.subrange(0, i + 1)) =~= texts(w@.subrange(0, i as int)).push(w@[i as int]@));
        assert(texts(v@) =~= start + texts(w@.subrange(0, i + 1)));
        i += 1;
    }
    assert(w@.subrange(0, i as int) =~= w@);
}

/// Builds the arguments that run `command` in a fresh container of
/// `image_name` under the isolation policy, with `extra_args` before the
/// image and a read-only root filesystem when `readonly` is set.
pub fn gen_args(image_name: &str, command: &Vec<String>, extra_args: &Vec<String>, readonly: bool) -> (r:
    Vec<String>)
    ensures
        texts(r@) == run_args_spec(image_name@, texts(command@), texts(extra_args@), readonly),
{
    let mut args: Vec<String> = Vec::new();
    push_text(&mut args, "run");
    push_text(&mut args, "--rm");
    push_text(&mut args, "-i");
    push_text(&mut args, "--network");
    push_text(&mut args, "none");
    push_text(&mut args, "--user");
    push_text(&mut args, "1000");
    push_text(&mut args, "-m");
    push_text(&mut args, "100m");
    push_text(&mut args, "--memory-swap");
    push_text(&mut args, "100m");
    push_text(&mut args, "--kernel-memory");
    push_text(&mut args, "100m");
    assert(texts(args@) =~= isolation_flags());
    extend_texts(&mut args, extra_args);
    if readonly {
        push_text(&mut args, "--read-only");
    }
    push_text(&mut args, image_name);
    extend_texts(&mut args, command);
    assert(texts(args@) =~= run_args_spec(
        image_name@,
        texts(command@),
        texts(extra_args@),
        readonly,
    ));
    args
}

/// The arguments of a one-shot sandboxed run with all three streams attached.
pub fn one_shot_args(image_name: &str, command: &Vec<String>, readonly: bool) -> (r: Vec<String>)
    ensures
        texts(r@) == run_args_spec(image_name@, texts(command@), attach_flags(), readonly),
{
    let mut extra: Vec<String> = Vec::new();
    push_text(&mut extra, "-a");
    push_text(&mut extra, "STDIN");
    push_text(&mut extra, "-a");
    push_text(&mut extra, "STDOUT");
    push_text(&mut extra, "-a");
    push_text(&mut extra, "STDERR");
    assert(texts(extra@) =~= attach_flags());
    gen_args(image_name, command, &extra, readonly)
}

/// The arguments that start a long-lived sandbox, detached.
pub fn dangling_args(image_name: &str, command: &Vec<String>, readonly: bool) -> (r: Vec<String>)
    ensures
        texts(r@) == run_args_spec(image_name@, texts(command@), detach_flags(), readonly),
{
    let mut extra: Vec<String> = Vec::new();
    push_text(&mut extra, "-t");
    push_text(&mut extra, "-d");
    assert(texts(extra@) =~= detach_flags());
    gen_args(image_name, command, &extra, readonly)
}

/// The runtime's identifier of one live sandbox container.
#[derive(Debug, PartialEq, Eq)]
pub struct DockerID {
    pub id: String,
}

/// A sandbox could not be started.
#[derive(Debug, PartialEq, Eq)]
pub enum StartError {
    /// The start command could not be run at all.
    Launch,
    /// The start command ran but did not report success.
    Refused,
}

/// `s` without its leading and trailing white space.
pub uninterp spec fn trimmed(s: Seq<char>) -> Seq<char>;

/// Relies on `str::trim`: the text with leading and trailing white space
/// removed.
#[verifier::external_body]
fn trim_text(s: &str) -> (r: String)
    ensures
        r@ == trimmed(s@),
{
    s.trim().to_string()
}

/// The handle that the outcome of a detached start stands for: the start
/// succeeds exactly when the runtime exited with 0, and the identifier is
/// what it printed, trimmed.
pub fn container_of(r: &Result<CodeExec, ExecError>) -> (h: Result<DockerID, StartError>)
    ensures
        match *r {
            Ok(CodeExec::Executed(Some(0), out, _)) => h is Ok && h->Ok_0.id@ == trimmed(out@),
            Err(_) => h == Err::<DockerID, StartError>(StartError::Launch),
            _ => h == Err::<DockerID, StartError>(StartError::Refused),
        },
{
    match r {
        Ok(CodeExec::Executed(Some(0), out, _)) => Ok(DockerID { id: trim_text(out.as_str()) }),
        Err(_) => Err(StartError::Launch),
        _ => Err(StartError::Refused),
    }
}

impl DockerID {
    /// The arguments of `exec` that run `command` inside this container, as
    /// root only when `root` is set.
    pub fn exec_args(&self, command: &Vec<String>, root: bool) -> (r: Vec<String>)
        ensures
            texts(r@) == exec_args_spec(self.id@, texts(command@), root),
    {
        let mut args: Vec<String> = Vec::new();
        push_text(&mut args, "exec");
        push_text(&mut args, "-i");
        if root {
            push_text(&mut args, "-u");
            push_text(&mut args, "0");
        }
        push_text(&mut args, self.id.as_str());
        extend_texts(&mut args, command);
        assert(texts(args@) =~= exec_args_spec(self.id@, texts(command@), root));
        args
    }

    /// Gives the container up, returning the arguments that force-kill it.
    /// Taking the handle by value makes a second teardown of it impossible.
    pub fn teardown(self) -> (r: Vec<String>)
        ensures
            texts(r@) == seq!["kill"@, self.id@],
    {
        let mut args: Vec<String> = Vec::new();
        push_text(&mut args, "kill");
        push_text(&mut args, self.id.as_str());
        assert(texts(args@) =~= seq!["kill"@, self.id@]);
        args
    }
}

} // verus!
