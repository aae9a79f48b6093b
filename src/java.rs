//! The Java adapter: assembly of the source file, and the session that
//! starts a sandbox, stages the file as root, runs it unprivileged, and tears
//! the sandbox down on every path.

use vstd::prelude::*;
use crate::docker::{
    container_of, dangling_args, detach_flags, exec_args_spec, push_text, run_args_spec, texts,
    trimmed, DockerID,
};
use crate::exec::{CodeExec, ExecError};
use crate::verdict::{gen_reply, json_quoted, reply_of, reply_text, verdict_spec, SERVER_ERROR};

verus! {

/// `s` with every occurrence of the non-empty `pat` replaced by `to`,
/// scanning from the left without overlaps.
pub open spec fn replaced(s: Seq<char>, pat: Seq<char>, to: Seq<char>) -> Seq<char>
    decreases s.len(),
{
    if pat.len() == 0 || s.len() < pat.len() {
        s
    } else if s.subrange(0, pat.len() as int) == pat {
        to + replaced(s.subrange(pat.len() as int, s.len() as int), pat, to)
    } else {
        seq![s[0]] + replaced(s.subrange(1, s.len() as int), pat, to)
    }
}

/// Relies on `str::replace`: every non-overlapping occurrence of the pattern,
/// found from the left, is replaced.
#[verifier::external_body]
fn replace_text(s: &str, pat: &str, to: &str) -> (r: String)
    requires
        pat@.len() > 0,
    ensures
        r@ == replaced(s@, pat@, to@),
{
    s.replace(pat, to)
}

/// The complete Java source: the template followed by the candidate code,
/// with the test cases and then the call fragment substituted for their
/// placeholders.
pub open spec fn java_source_spec(
    template: Seq<char>,
    code: Seq<char>,
    func_call: Seq<char>,
    test_case: Seq<char>,
) -> Seq<char> {
    replaced(
        replaced(template + code, "{{test_case}}"@, test_case),
        "{{func_call}}"@,
        func_call,
    )
}

/// Assembles the Java source file for one submission.
pub fn java_source(template: &str, code: &str, func_call: &str, test_case: &str) -> (r: String)
    ensures
        r@ == java_source_spec(template@, code@, func_call@, test_case@),
{
    let mut joined = String::from_str(template);
    joined.append(code);
    let tc = "{{test_case}}";
    let fc = "{{func_call}}";
    proof {
        reveal_strlit("{{test_case}}");
        reveal_strlit("{{func_call}}");
    }
    let with_cases = replace_text(joined.as_str(), tc, test_case);
    replace_text(with_cases.as_str(), fc, func_call)
}

/// The deadline of the start and staging steps, in milliseconds.
pub const SETUP_DEADLINE_MS: u64 = 2000;

/// Where a Java session stands.
#[derive(PartialEq, Eq, Structural, Clone, Copy, Debug)]
pub enum Phase {
    /// The sandbox is being started.
    Start,
    /// The source file is being written into the sandbox.
    Staging,
    /// The candidate program is running.
    Running,
    /// The sandbox is gone and the reply is known.
    Done,
}

/// What the driver of a session must do next.
pub enum JavaAction {
    /// Run the container runtime with `args` under the deadline, feeding it
    /// `stdin`, and hand the outcome back to the session.
    Run { args: Vec<String>, deadline_ms: u64, stdin: Option<String> },
    /// Run the container runtime with `kill`, if given, ignoring its result,
    /// and send `reply`. The session is over.
    Finish { kill: Option<Vec<String>>, reply: String },
}

/// True when `a` runs `args` under `deadline` with `stdin`.
pub open spec fn is_run(
    a: JavaAction,
    args: Seq<Seq<char>>,
    deadline: u64,
    stdin: Option<Seq<char>>,
) -> bool {
    match a {
        JavaAction::Run { args: x, deadline_ms, stdin: s } => texts(x@) == args && deadline_ms
            == deadline && match (s, stdin) {
            (Some(t), Some(u)) => t@ == u,
            (None, None) => true,
            _ => false,
        },
        _ => false,
    }
}

/// True when `a` kills the container `kill` (none if absent) and replies
/// `reply`.
pub open spec fn is_finish(a: JavaAction, kill: Option<Seq<char>>, reply: Seq<char>) -> bool {
    match a {
        JavaAction::Finish { kill: k, reply: r } => r@ == reply && match (k, kill) {
            (Some(v), Some(id)) => texts(v@) == seq!["kill"@, id],
            (None, None) => true,
            _ => false,
        },
        _ => false,
    }
}

/// The reply for a session that failed before the candidate ran.
pub open spec fn server_error_reply() -> Seq<char> {
    reply_text(false, json_quoted(SERVER_ERROR@))
}

/// The container that an action kills, if it kills one.
pub open spec fn kill_of(a: JavaAction) -> Option<Seq<char>> {
    match a {
        JavaAction::Finish { kill: Some(v), .. } => Some(texts(v@)[1]),
        _ => None,
    }
}

/// The moves a session can make from phase `phase` holding sandbox `held` to phase
/// `next` holding `next_held`, killing `kill` on the way. Only the start creates a
/// sandbox; only the ending kills one, and then the one that is held.
pub open spec fn transition(
    phase: Phase,
    held: Seq<char>,
    kill: Option<Seq<char>>,
    next: Phase,
    next_held: Seq<char>,
) -> bool {
    match phase {
        Phase::Start => (next == Phase::Staging || next == Phase::Done) && kill is None,
        Phase::Staging => (next == Phase::Running && next_held == held && kill is None) || (next == Phase::Done
            && kill == Some(held)),
        Phase::Running => next == Phase::Done && kill == Some(held),
        Phase::Done => false,
    }
}

/// How many of the steps kill a sandbox.
pub open spec fn kill_count(ks: Seq<Option<Seq<char>>>) -> nat
    decreases ks.len(),
{
    if ks.len() == 0 {
        0
    } else {
        kill_count(ks.drop_last()) + if ks.last() is Some {
            1nat
        } else {
            0nat
        }
    }
}

/// Along any run of a session from its start to its end, the sandbox is
/// killed exactly once if one was created (the first step reached
/// `Staging`), and never otherwise; every kill names that sandbox. Here
/// `ps` and `hs` are the phases and held sandboxes before and after each
/// step, and `ks` what each step killed.
pub proof fn lemma_sandbox_killed_once(
    ps: Seq<Phase>,
    hs: Seq<Seq<char>>,
    ks: Seq<Option<Seq<char>>>,
)
    requires
        ps.len() == ks.len() + 1,
        hs.len() == ps.len(),
        ps[0] == Phase::Start,
        ps.last() == Phase::Done,
        forall|i: int|
            0 <= i < ks.len() ==> transition(ps[i], hs[i], #[trigger] ks[i], ps[i + 1], hs[i + 1]),
    ensures
        kill_count(ks) == if ps[1] == Phase::Staging {
            1nat
        } else {
            0nat
        },
        forall|i: int| 0 <= i < ks.len() && #[trigger] ks[i] is Some ==> ks[i] == Some(hs[1]),
{
    reveal_with_fuel(kill_count, 4);
    assert(ks.len() >= 1);
    assert(transition(ps[0], hs[0], ks[0], ps[1], hs[1]));
    if ps[1] == Phase::Done {
        if ks.len() > 1 {
            assert(transition(ps[1], hs[1], ks[1], ps[2], hs[2]));
        }
    } else {
        assert(ks.len() >= 2);
        assert(transition(ps[1], hs[1], ks[1], ps[2], hs[2]));
        if ps[2] == Phase::Done {
            if ks.len() > 2 {
                assert(transition(ps[2], hs[2], ks[2], ps[3], hs[3]));
            }
        } else {
            assert(ks.len() >= 3);
            assert(transition(ps[2], hs[2], ks[2], ps[3], hs[3]));
            if ks.len() > 3 {
                assert(transition(ps[3], hs[3], ks[3], ps[4], hs[4]));
            }
        }
    }
}

enum JavaState {
    Start,
    Staging(DockerID),
    Running(DockerID),
    Done,
}

/// One Java submission in progress. Each session creates at most one
/// sandbox and tears it down exactly once, on every path.
pub struct JavaSession {
    state: JavaState,
    source: String,
    deadline_ms: u64,
}

impl JavaSession {
    /// Where the session stands.
    pub closed spec fn phase(&self) -> Phase {
        match self.state {
            JavaState::Start => Phase::Start,
            JavaState::Staging(_) => Phase::Staging,
            JavaState::Running(_) => Phase::Running,
            JavaState::Done => Phase::Done,
        }
    }

    /// The identifier of the session's sandbox, while it has one.
    pub closed spec fn handle(&self) -> Seq<char> {
        match self.state {
            JavaState::Staging(h) => h.id@,
            JavaState::Running(h) => h.id@,
            _ => Seq::empty(),
        }
    }

    /// The source file to run.
    pub closed spec fn source(&self) -> Seq<char> {
        self.source@
    }

    /// The deadline of the candidate's run.
    pub closed spec fn deadline(&self) -> u64 {
        self.deadline_ms
    }

    /// A session for `source`, and its first action: starting a detached,
    /// writable sandbox of `image` running a shell.
    pub fn new(image: &str, source: String, deadline_ms: u64) -> (r: (JavaSession, JavaAction))
        ensures
            r.0.phase() == Phase::Start,
            r.0.source() == source@,
            r.0.deadline() == deadline_ms,
            is_run(
                r.1,
                run_args_spec(image@, seq!["sh"@], detach_flags(), false),
                SETUP_DEADLINE_MS,
                None,
            ),
    {
        let mut command: Vec<String> = Vec::new();
        push_text(&mut command, "sh");
        assert(texts(command@) =~= seq!["sh"@]);
        let args = dangling_args(image, &command, false);
        (
            JavaSession { state: JavaState::Start, source, deadline_ms },
            JavaAction::Run { args, deadline_ms: SETUP_DEADLINE_MS, stdin: None },
        )
    }

    /// Takes the outcome of the last `Run` action and decides the next one.
    /// A start that succeeds yields the sandbox, which the source is then
    /// written into as root; a write that succeeds is followed by the
    /// unprivileged run. Any failure before the run ends the session with the
    /// server-error reply; the run's outcome ends it with its own reply. Every
    /// ending of a session that holds a sandbox kills exactly that sandbox.
    pub fn step(&mut self, r: Result<CodeExec, ExecError>) -> (a: JavaAction)
        requires
            old(self).phase() != Phase::Done,
        ensures
            transition(old(self).phase(), old(self).handle(), kill_of(a), final(self).phase(), final(self).handle()),
            final(self).source() == old(self).source(),
            final(self).deadline() == old(self).deadline(),
            old(self).phase() == Phase::Start ==> match r {
                Ok(CodeExec::Executed(Some(0), out, _)) => final(self).phase() == Phase::Staging
                    && final(self).handle() == trimmed(out@) && is_run(
                    a,
                    exec_args_spec(final(self).handle(), seq!["tee"@, "main.java"@], true),
                    SETUP_DEADLINE_MS,
                    Some(old(self).source()),
                ),
                _ => final(self).phase() == Phase::Done && is_finish(a, None, server_error_reply()),
            },
            old(self).phase() == Phase::Staging ==> match r {
                Ok(CodeExec::Executed(Some(0), _, _)) => final(self).phase() == Phase::Running
                    && final(self).handle() == old(self).handle() && is_run(
                    a,
                    exec_args_spec(final(self).handle(), seq!["java"@, "main.java"@], false),
                    old(self).deadline(),
                    None,
                ),
                _ => final(self).phase() == Phase::Done && is_finish(
                    a,
                    Some(old(self).handle()),
                    server_error_reply(),
                ),
            },
            old(self).phase() == Phase::Running ==> final(self).phase() == Phase::Done && is_finish(
                a,
                Some(old(self).handle()),
                reply_text(verdict_spec(r).0, json_quoted(verdict_spec(r).1)),
            ),
    {
        let mut state = JavaState::Done;
        core::mem::swap(&mut self.state, &mut state);
        match state {
            JavaState::Start => match container_of(&r) {
                Ok(h) => {
                    let mut command: Vec<String> = Vec::new();
                    push_text(&mut command, "tee");
                    push_text(&mut command, "main.java");
                    assert(texts(command@) =~= seq!["tee"@, "main.java"@]);
                    let args = h.exec_args(&command, true);
                    let stdin = self.source.clone();
                    self.state = JavaState::Staging(h);
                    JavaAction::Run { args, deadline_ms: SETUP_DEADLINE_MS, stdin: Some(stdin) }
                },
                Err(_) => JavaAction::Finish { kill: None, reply: gen_reply(false, SERVER_ERROR) },
            },
            JavaState::Staging(h) => match r {
                Ok(CodeExec::Executed(Some(0), _, _)) => {
                    let mut command: Vec<String> = Vec::new();
                    push_text(&mut command, "java");
                    push_text(&mut command, "main.java");
                    assert(texts(command@) =~= seq!["java"@, "main.java"@]);
                    let args = h.exec_args(&command, false);
                    self.state = JavaState::Running(h);
                    JavaAction::Run { args, deadline_ms: self.deadline_ms, stdin: None }
                },
                _ => JavaAction::Finish {
                    kill: Some(h.teardown()),
                    reply: gen_reply(false, SERVER_ERROR),
                },
            },
            JavaState::Running(h) => {
                let reply = reply_of(&r);
                JavaAction::Finish { kill: Some(h.teardown()), reply }
            },
            JavaState::Done => JavaAction::Finish { kill: None, reply: gen_reply(false, SERVER_ERROR) },
        }
    }
}

} // verus!
