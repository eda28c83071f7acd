use usereport::command::{Command, CommandResult, Link, SplitError, DEFAULT_TIMEOUT_SEC};

fn words(line: &str) -> Vec<String> {
    Command::new("no_such_command", line).args().expect("splitting command into args")
}

#[test]
fn command_split() {
    let command = Command::new("no_such_command", r#"/bin/sleep 5"#);
    let args = command.args();

    assert!(args.is_ok(), "splitting command into args");
    assert_eq!(args.unwrap().len(), 2);
}

#[test]
fn command_split_single_quotes() {
    let command = Command::new("no_such_command", r#"sh -c 'dmesg -T | grep "failed"'"#);
    let args = command.args();

    assert!(args.is_ok(), "splitting command into args");
    assert_eq!(args.unwrap().len(), 3);
}

#[test]
fn command_split_double_quotes() {
    let command = Command::new("no_such_command", r#"sh -c "dmesg -T | tail""#);
    let args = command.args();

    assert!(args.is_ok(), "splitting command into args");
    assert_eq!(args.unwrap().len(), 3);
}

#[test]
fn command_split_keeps_quoted_segments_whole() {
    assert_eq!(words(r#"sh -c 'dmesg -T | grep "failed"'"#), vec![
        "sh".to_string(),
        "-c".to_string(),
        r#"dmesg -T | grep "failed""#.to_string()
    ]);
    assert_eq!(words(r#"sh -c "dmesg -T | tail""#), vec![
        "sh".to_string(),
        "-c".to_string(),
        "dmesg -T | tail".to_string()
    ]);
}

#[test]
fn command_split_strips_escapes() {
    assert_eq!(words(r#"a b\ c d"#), vec!["a".to_string(), "b c".to_string(), "d".to_string()]);
    assert_eq!(words(r#"a "\"b\" c" d"#), vec!["a".to_string(), "\"b\" c".to_string(), "d".to_string()]);
}

#[test]
fn command_split_of_empty_line_has_no_word() {
    assert_eq!(words(""), Vec::<String>::new());
    assert_eq!(words("   "), Vec::<String>::new());
}

#[test]
fn command_split_mismatched_quotes() {
    let single = Command::new("broken", "echo 'no end").args();
    assert_eq!(single, Err(SplitError::MismatchedQuotes));
    let double = Command::new("broken", "echo \"no end").args();
    assert_eq!(double, Err(SplitError::MismatchedQuotes));
}

#[test]
fn command_new_sets_nothing_else() {
    let command = Command::new("uname", "/usr/bin/uname -a");

    assert_eq!(command.name(), "uname");
    assert_eq!(command.command(), "/usr/bin/uname -a");
    assert_eq!(command.title(), None);
    assert_eq!(command.description(), None);
    assert_eq!(command.timeout_sec(), None);
    assert!(command.links().is_none());
}

#[test]
fn command_builders_set_one_field_each() {
    let links = vec![Link::new("man", "https://example.org/uname")];
    let command = Command::new("uname", "/usr/bin/uname -a")
        .with_title("Host OS")
        .with_description("Basic host OS information")
        .with_timeout(5)
        .with_links(links.clone());

    assert_eq!(command.name(), "uname");
    assert_eq!(command.command(), "/usr/bin/uname -a");
    assert_eq!(command.title(), Some("Host OS"));
    assert_eq!(command.description(), Some("Basic host OS information"));
    assert_eq!(command.timeout_sec(), Some(5));
    assert_eq!(command.links(), Some(&links));
}

#[test]
fn command_builder_replaces_earlier_value() {
    let command = Command::new("a", "b").with_title("first").with_title("second").with_timeout(1).with_timeout(9);

    assert_eq!(command.title(), Some("second"));
    assert_eq!(command.timeout_sec(), Some(9));
}

#[test]
fn command_effective_timeout_defaults_to_one_second() {
    assert_eq!(DEFAULT_TIMEOUT_SEC, 1);
    assert_eq!(Command::new("a", "b").effective_timeout_sec(), 1);
    assert_eq!(Command::new("a", "b").with_timeout(7).effective_timeout_sec(), 7);
    assert_eq!(Command::new("a", "b").with_timeout(0).effective_timeout_sec(), 0);
}

#[test]
fn command_clone_is_equal() {
    let command = Command::new("uname", "/usr/bin/uname -a")
        .with_title("Host OS")
        .with_timeout(5)
        .with_links(vec![Link::new("man", "https://example.org/uname")]);

    assert_eq!(command.clone(), command);
}

#[test]
fn command_fail_is_error_with_reason() {
    let command = Command::new("uname", "/usr/bin/uname -a");
    let result = command.clone().fail("no such file");

    assert_eq!(result, CommandResult::Error {
        command,
        reason: "no such file".to_string()
    });
}

#[test]
fn command_result_owns_its_command() {
    let command = Command::new("uname", "/usr/bin/uname -a");
    let results = vec![
        CommandResult::Success {
            command:     command.clone(),
            run_time_ms: 1,
            stdout:      "Linux".to_string(),
        },
        CommandResult::Failed {
            command:     command.clone(),
            run_time_ms: 2,
            stdout:      String::new(),
        },
        CommandResult::Timeout {
            command:     command.clone(),
            run_time_ms: 3,
        },
        CommandResult::Error {
            command: command.clone(),
            reason:  "gone".to_string(),
        },
    ];

    for result in &results {
        assert_eq!(result.command(), &command);
        assert_eq!(&result.clone(), result);
    }
}

#[test]
fn link_getters() {
    let link = Link::new("man", "https://example.org/uname");

    assert_eq!(link.name(), "man");
    assert_eq!(link.url(), "https://example.org/uname");
    assert_eq!(link.clone(), link);
}
