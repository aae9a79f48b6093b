//! The judge's configuration: process-wide settings and the question set.

use vstd::prelude::*;

verus! {

/// The Python side of a question.
#[derive(Debug, PartialEq, Eq, Default)]
pub struct Python {
    /// The test cases, as a Python literal handed to the harness untouched.
    pub test_case: String,
    /// The starter code shown to the client.
    pub boilerplate: String,
}

/// The Java side of a question.
#[derive(Debug, PartialEq, Eq, Default)]
pub struct Java {
    /// The test cases, substituted into the harness template.
    pub test_case: String,
    /// The starter code shown to the client.
    pub boilerplate: String,
    /// The call of the candidate, substituted into the harness template.
    pub func_call: String,
}

/// One question a client can submit code for.
#[derive(Debug, PartialEq, Eq, Default)]
pub struct Question {
    pub handle: String,
    pub function_name: String,
    pub prompt: String,
    pub python: Python,
    pub java: Java,
}

/// The settings read at startup. Questions are kept with unique handles.
pub struct Config {
    /// The execution deadline, and the cooldown window, in milliseconds.
    pub timeout: u32,
    /// Path of the page template.
    pub template: String,
    /// The Java harness template text.
    pub java_test_file: String,
    pub questions: Vec<Question>,
    /// The most executions that may run at once.
    pub max_proc: usize,
}

/// One top-level setting of the configuration file, as read from it.
pub enum ConfigEntry {
    Timeout(u32),
    MaxProc(usize),
    Template(String),
    /// The contents of the Java harness template file.
    JavaTestFile(String),
    Question(Question),
    /// A key the judge does not use.
    Ignored,
}

/// The timeout in effect after `e`: the last one given, else 2000 ms.
pub open spec fn timeout_of(e: Seq<ConfigEntry>) -> u32
    decreases e.len(),
{
    if e.len() == 0 {
        2000
    } else {
        match e.last() {
            ConfigEntry::Timeout(t) => t,
            _ => timeout_of(e.drop_last()),
        }
    }
}

/// The execution bound in effect after `e`: the last one given, else 5.
pub open spec fn max_proc_of(e: Seq<ConfigEntry>) -> usize
    decreases e.len(),
{
    if e.len() == 0 {
        5
    } else {
        match e.last() {
            ConfigEntry::MaxProc(n) => n,
            _ => max_proc_of(e.drop_last()),
        }
    }
}

/// The template path in effect after `e`: the last one given, else empty.
pub open spec fn template_of(e: Seq<ConfigEntry>) -> Seq<char>
    decreases e.len(),
{
    if e.len() == 0 {
        Seq::empty()
    } else {
        match e.last() {
            ConfigEntry::Template(s) => s@,
            _ => template_of(e.drop_last()),
        }
    }
}

/// The Java harness text in effect after `e`: the last one given, else empty.
pub open spec fn java_test_file_of(e: Seq<ConfigEntry>) -> Seq<char>
    decreases e.len(),
{
    if e.len() == 0 {
        Seq::empty()
    } else {
        match e.last() {
            ConfigEntry::JavaTestFile(s) => s@,
            _ => java_test_file_of(e.drop_last()),
        }
    }
}

/// The questions of `e` by handle; a later question replaces an earlier one
/// with the same handle.
pub open spec fn questions_of(e: Seq<ConfigEntry>) -> Map<Seq<char>, Question>
    decreases e.len(),
{
    if e.len() == 0 {
        Map::empty()
    } else {
        match e.last() {
            ConfigEntry::Question(q) => questions_of(e.drop_last()).insert(q.handle@, q),
            _ => questions_of(e.drop_last()),
        }
    }
}

/// No two questions share a handle.
pub open spec fn handles_unique(qs: Seq<Question>) -> bool {
    forall|i: int, j: int|
        0 <= i < qs.len() && 0 <= j < qs.len() && i != j ==> #[trigger] qs[i].handle@
            != #[trigger] qs[j].handle@
}

/// The questions of a list, keyed by handle, are exactly those of `m`.
pub open spec fn holds_questions(qs: Seq<Question>, m: Map<Seq<char>, Question>) -> bool {
    &&& handles_unique(qs)
    &&& forall|i: int| 0 <= i < qs.len() ==> m.contains_key(#[trigger] qs[i].handle@) && m[qs[i].handle@] == qs[i]
    &&& forall|h: Seq<char>| #[trigger] m.contains_key(h) ==> exists|i: int| 0 <= i < qs.len() && qs[i].handle@ == h
}

/// True when the two texts are equal.
pub fn same_text(a: &str, b: &str) -> (r: bool)
    ensures
        r == (a@ == b@),
{
    String::from_str(a) == String::from_str(b)
}

/// The index of the question with handle `h`, if any.
fn position(qs: &Vec<Question>, h: &str) -> (r: Option<usize>)
    ensures
        match r {
            Some(i) => i < qs@.len() && qs@[i as int].handle@ == h@,
            None => forall|i: int| 0 <= i < qs@.len() ==> qs@[i].handle@ != h@,
        },
{
    let mut i: usize = 0;
    while i < qs.len()
        invariant
            i <= qs@.len(),
            forall|j: int| 0 <= j < i ==> qs@[j].handle@ != h@,
        decreases qs@.len() - i,
    {
        if same_text(qs[i].handle.as_str(), h) {
            return Some(i);
        }
        i += 1;
    }
    None
}

impl Config {
    /// The configuration's own invariant: unique handles and room for at
    /// least one execution.
    pub open spec fn wf(&self) -> bool {
        handles_unique(self.questions@) && self.max_proc > 0
    }

    /// Assembles the settings from the file's entries, in file order: each
    /// scalar takes the last value given (or its default), and each question
    /// is filed under its handle, a later one replacing an earlier one.
    pub fn from_entries(entries: Vec<ConfigEntry>) -> (c: Config)
        ensures
            c.timeout == timeout_of(entries@),
            c.max_proc == max_proc_of(entries@),
            c.template@ == template_of(entries@),
            c.java_test_file@ == java_test_file_of(entries@),
            holds_questions(c.questions@, questions_of(entries@)),
    {
        let ghost all = entries@;
        let total: usize = entries.len();
        let mut rest = entries;
        let mut c = Config {
            timeout: 2000,
            template: String::new(),
            java_test_file: String::new(),
            questions: Vec::new(),
            max_proc: 5,
        };
        let mut n: usize = 0;
        while rest.len() > 0
            invariant
                n <= all.len(),
                all.len() == total,
                rest@ == all.subrange(n as int, all.len() as int),
                c.timeout == timeout_of(all.subrange(0, n as int)),
                c.max_proc == max_proc_of(all.subrange(0, n as int)),
                c.template@ == template_of(all.subrange(0, n as int)),
                c.java_test_file@ == java_test_file_of(all.subrange(0, n as int)),
                holds_questions(c.questions@, questions_of(all.subrange(0, n as int))),
            decreases rest@.len(),
        {
            let ghost done = all.subrange(0, n as int);
            let ghost next = all.subrange(0, n + 1);
            let e = rest.remove(0);
            assert(next.drop_last() =~= done);
            assert(next.last() == e);
            match e {
                ConfigEntry::Timeout(t) => c.timeout = t,
                ConfigEntry::MaxProc(m) => c.max_proc = m,
                ConfigEntry::Template(s) => c.template = s,
                ConfigEntry::JavaTestFile(s) => c.java_test_file = s,
                ConfigEntry::Question(q) => {
                    let ghost m = questions_of(done);
                    let ghost qv = q;
                    let ghost before = c.questions@;
                    match position(&c.questions, q.handle.as_str()) {
                        Some(i) => {
                            c.questions.set(i, q);
                            assert forall|h: Seq<char>|
                                #[trigger] m.insert(qv.handle@, qv).contains_key(h) implies exists|j: int|
                                    0 <= j < c.questions@.len() && c.questions@[j].handle@ == h by {
                                if h != qv.handle@ {
                                    let j = choose|j: int|
                                        0 <= j < before.len() && before[j].handle@ == h;
                                    assert(c.questions@[j] == before[j]);
                                } else {
                                    assert(c.questions@[i as int].handle@ == h);
                                }
                            }
                        },
                        None => {
                            c.questions.push(q);
                            assert forall|h: Seq<char>|
                                #[trigger] m.insert(qv.handle@, qv).contains_key(h) implies exists|j: int|
                                    0 <= j < c.questions@.len() && c.questions@[j].handle@ == h by {
                                if h != qv.handle@ {
                                    let j = choose|j: int|
                                        0 <= j < before.len() && before[j].handle@ == h;
                                    assert(c.questions@[j] == before[j]);
                                } else {
                                    assert(c.questions@[before.len() as int].handle@ == h);
                                }
                            }
                        },
                    }
                },
                ConfigEntry::Ignored => {},
            }
            n += 1;
            assert(rest@ =~= all.subrange(n as int, all.len() as int));
        }
        assert(all.subrange(0, n as int) =~= all);
        c
    }

    /// The question filed under `handle`, if any.
    pub fn question(&self, handle: &str) -> (r: Option<&Question>)
        ensures
            match r {
                Some(q) => exists|i: int|
                    0 <= i < self.questions@.len() && self.questions@[i] == *q && q.handle@ == handle@,
                None => forall|i: int|
                    0 <= i < self.questions@.len() ==> self.questions@[i].handle@ != handle@,
            },
    {
        match position(&self.questions, handle) {
            Some(i) => Some(&self.questions[i]),
            None => None,
        }
    }
}

/// Checks the invariant; a configuration that fails it must not be used.
pub fn verify_config(config: &Config) -> (r: bool)
    ensures
        r == config.wf(),
{
    if config.max_proc == 0 {
        return false;
    }
    let mut i: usize = 0;
    while i < config.questions.len()
        invariant
            i <= config.questions@.len(),
            forall|a: int, b: int|
                0 <= a < i && 0 <= b < config.questions@.len() && a != b
                    ==> #[trigger] config.questions@[a].handle@ != #[trigger] config.questions@[b].handle@,
        decreases config.questions@.len() - i,
    {
        let mut j: usize = 0;
        while j < config.questions.len()
            invariant
                i < config.questions@.len(),
                j <= config.questions@.len(),
                forall|a: int, b: int|
                    0 <= a < i && 0 <= b < config.questions@.len() && a != b
                        ==> #[trigger] config.questions@[a].handle@ != #[trigger] config.questions@[b].handle@,
                forall|b: int|
                    0 <= b < j && b != i ==> config.questions@[i as int].handle@ != #[trigger] config.questions@[b].handle@,
            decreases config.questions@.len() - j,
        {
            if j != i && same_text(config.questions[i].handle.as_str(), config.questions[j].handle.as_str()) {
                return false;
            }
            j += 1;
        }
        i += 1;
    }
    true
}

} // verus!
