use executor::config::{verify_config, Config, ConfigEntry, Java, Python, Question};

fn identity_question() -> Question {
    Question {
        handle: "identity".to_string(),
        function_name: "identity".to_string(),
        prompt: "Return the argument.".to_string(),
        python: Python {
            test_case: "[([1], 1), ([2], 2), ([3], 3), ([-400], -400)]".to_string(),
            boilerplate: "def identity(x):\n    pass".to_string(),
        },
        java: Java {
            test_case: "{{1, 1}}".to_string(),
            boilerplate: "public static int identity(int x) {}".to_string(),
            func_call: "identity(x)".to_string(),
        },
    }
}

fn sample_config() -> Config {
    Config::from_entries(vec![
        ConfigEntry::Timeout(2000),
        ConfigEntry::MaxProc(5),
        ConfigEntry::Template("./index.hbs".to_string()),
        ConfigEntry::Question(identity_question()),
    ])
}

#[test]
fn test_get_questions() {
    let sample = Question {
        handle: String::new(),
        function_name: "identity".to_string(),
        prompt: String::new(),
        python: Python::default(),
        java: Java::default(),
    };
    let config = sample_config();
    assert_eq!(config.question("identity").unwrap().function_name, sample.function_name);
}

#[test]
fn test_get_language() {
    let sample_python = Python {
        test_case: "[([1], 1), ([2], 2), ([3], 3), ([-400], -400)]".to_string(),
        boilerplate: "def identity(x):\n    pass".to_string(),
    };
    let config = sample_config();
    assert_eq!(config.question("identity").unwrap().python, sample_python);
}

#[test]
fn defaults_without_entries() {
    let config = Config::from_entries(vec![]);
    assert_eq!(config.timeout, 2000);
    assert_eq!(config.max_proc, 5);
    assert_eq!(config.template, "");
    assert_eq!(config.java_test_file, "");
    assert!(config.questions.is_empty());
    assert!(verify_config(&config));
}

#[test]
fn later_entries_win() {
    let mut replacement = identity_question();
    replacement.function_name = "ident".to_string();
    let config = Config::from_entries(vec![
        ConfigEntry::Timeout(100),
        ConfigEntry::Question(identity_question()),
        ConfigEntry::Ignored,
        ConfigEntry::Timeout(300),
        ConfigEntry::JavaTestFile("class Main {}".to_string()),
        ConfigEntry::Question(replacement),
    ]);
    assert_eq!(config.timeout, 300);
    assert_eq!(config.java_test_file, "class Main {}");
    assert_eq!(config.questions.len(), 1);
    assert_eq!(config.question("identity").unwrap().function_name, "ident");
    assert!(config.question("missing").is_none());
    assert!(verify_config(&config));
}

#[test]
fn verify_config_rejects_duplicates_and_zero_bound() {
    let mut config = sample_config();
    config.questions.push(identity_question());
    assert!(!verify_config(&config));
    let mut config = sample_config();
    config.max_proc = 0;
    assert!(!verify_config(&config));
}

#[test]
fn boilerplate_by_language() {
    let config = sample_config();
    assert_eq!(
        config.get_boilerplate("identity", "python").unwrap(),
        "def identity(x):\n    pass"
    );
    assert_eq!(
        config.get_boilerplate("identity", "java").unwrap(),
        "public static int identity(int x) {}"
    );
    assert!(config.get_boilerplate("identity", "rust").is_none());
    assert!(config.get_boilerplate("nope", "python").is_none());
}
