use executor::docker::{container_of, dangling_args, gen_args, one_shot_args, DockerID, StartError};
use executor::exec::{CodeExec, ExecError};

fn strings(v: &[&str]) -> Vec<String> {
    v.iter().map(|s| s.to_string()).collect()
}

const POLICY: [&str; 13] = [
    "run", "--rm", "-i", "--network", "none", "--user", "1000", "-m", "100m", "--memory-swap",
    "100m", "--kernel-memory", "100m",
];

#[test]
fn gen_args_orders_policy_extra_image_command() {
    let args = gen_args("img", &strings(&["ls", "-l"]), &strings(&["-x"]), true);
    let mut expected: Vec<&str> = POLICY.to_vec();
    expected.extend(["-x", "--read-only", "img", "ls", "-l"]);
    assert_eq!(args, strings(&expected));
    let args = gen_args("img", &vec![], &vec![], false);
    let mut expected: Vec<&str> = POLICY.to_vec();
    expected.push("img");
    assert_eq!(args, strings(&expected));
}

#[test]
fn one_shot_run_has_no_network() {
    let args = one_shot_args("test:latest", &strings(&["ping", "-c", "5", "8.8.8.8"]), true);
    let i = args.iter().position(|a| a == "--network").unwrap();
    assert_eq!(args[i + 1], "none");
    let mut expected: Vec<&str> = POLICY.to_vec();
    expected.extend([
        "-a", "STDIN", "-a", "STDOUT", "-a", "STDERR", "--read-only", "test:latest", "ping", "-c",
        "5", "8.8.8.8",
    ]);
    assert_eq!(args, strings(&expected));
}

#[test]
fn dangling_start_is_detached() {
    let args = dangling_args("test:latest", &strings(&["sh"]), false);
    let mut expected: Vec<&str> = POLICY.to_vec();
    expected.extend(["-t", "-d", "test:latest", "sh"]);
    assert_eq!(args, strings(&expected));
}

#[test]
fn container_id_is_trimmed_stdout() {
    let r = Ok(CodeExec::Executed(Some(0), "  3f2a9c\n".to_string(), String::new()));
    assert_eq!(container_of(&r), Ok(DockerID { id: "3f2a9c".to_string() }));
}

#[test]
fn failed_start_gives_no_handle() {
    let r = Ok(CodeExec::Executed(Some(125), "id".to_string(), "no such image".to_string()));
    assert_eq!(container_of(&r), Err(StartError::Refused));
    assert_eq!(container_of(&Ok(CodeExec::Timeout)), Err(StartError::Refused));
    assert_eq!(container_of(&Err(ExecError::Launch)), Err(StartError::Launch));
}

#[test]
fn exec_and_kill_arguments() {
    let h = DockerID { id: "abc".to_string() };
    assert_eq!(
        h.exec_args(&strings(&["tee", "main.java"]), true),
        strings(&["exec", "-i", "-u", "0", "abc", "tee", "main.java"])
    );
    assert_eq!(
        h.exec_args(&strings(&["java", "main.java"]), false),
        strings(&["exec", "-i", "abc", "java", "main.java"])
    );
    assert_eq!(h.teardown(), strings(&["kill", "abc"]));
}
