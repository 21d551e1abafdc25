use brushfire::{
    FilesystemRule, MacroEnvironment, ParseAction, ParseError, ParseEvent, Policy, ProfileParser,
    RuleAction,
};

fn test_env() -> MacroEnvironment {
    MacroEnvironment {
        home: Some("/home/tester".to_string()),
        user: Some("tester".to_string()),
        xdg_runtime_dir: None,
        path: Some("/usr/bin:/bin".to_string()),
        xdg_config_home: None,
    }
}

/// Drive a parse of `main` to its end, answering requests from the given
/// files; a canonicalisation is answered by `canonical` (`None`: the path
/// does not resolve).
fn run_parse(
    parser: &mut ProfileParser,
    main: &str,
    files: &[(&str, &str)],
    canonical: &dyn Fn(&str) -> Option<String>,
) -> Result<Policy, ParseError> {
    let mut action = parser.parse_file(main);
    loop {
        action = match action {
            ParseAction::ReadFile(p) => match files.iter().find(|(name, _)| *name == p) {
                Some((_, content)) => parser.resume(ParseEvent::FileContent(content.to_string())),
                None => parser.resume(ParseEvent::ReadFailed("No such file or directory (os error 2)".to_string())),
            },
            ParseAction::FindFirstExisting(cands) => {
                let found = cands.iter().position(|c| files.iter().any(|(name, _)| name == c));
                parser.resume(ParseEvent::FoundAt(found))
            }
            ParseAction::Canonicalize(p) => parser.resume(ParseEvent::CanonicalPath(canonical(&p))),
            ParseAction::Continue => parser.resume(ParseEvent::Proceed),
            ParseAction::Finished(policy) => return Ok(policy),
            ParseAction::Failed(e) => return Err(e),
        };
    }
}

fn parse_text(content: &str) -> Result<Policy, ParseError> {
    let mut parser = ProfileParser::new(test_env());
    run_parse(&mut parser, "/profiles/test.profile", &[("/profiles/test.profile", content)], &|_| None)
}

#[test]
fn test_parse_whitelist() {
    let policy = parse_text("whitelist /tmp/test\n").unwrap();

    assert_eq!(policy.filesystem_rules.len(), 1);
    assert!(matches!(&policy.filesystem_rules[0], FilesystemRule::Whitelist { .. }));
}

#[test]
fn test_parse_blacklist() {
    let policy = parse_text("blacklist /etc/shadow\n").unwrap();

    assert_eq!(policy.filesystem_rules.len(), 1);
    assert!(matches!(&policy.filesystem_rules[0], FilesystemRule::Blacklist { .. }));
}

#[test]
fn test_parse_command_blacklist() {
    let policy = parse_text("blacklist /usr/bin/curl\n").unwrap();

    assert_eq!(policy.command_rules.len(), 1);
    assert_eq!(policy.command_rules[0].pattern, "/usr/bin/curl");
    assert_eq!(policy.command_rules[0].action, RuleAction::Deny);
}

#[test]
fn test_parse_whitelist_exec() {
    let policy = parse_text("whitelist_exec /tmp/bin/*\n").unwrap();

    assert!(!policy.command_rules.is_empty());
    assert_eq!(policy.command_rules[0].pattern, "/tmp/bin/*");
    assert_eq!(policy.command_rules[0].action, RuleAction::Allow);
}

#[test]
fn test_parse_comments() {
    let policy = parse_text("# This is a comment\nwhitelist /tmp # inline comment\n").unwrap();

    assert_eq!(policy.filesystem_rules.len(), 1);
}

#[test]
fn test_macro_expansion() {
    let policy = parse_text("whitelist ${HOME}/test\n").unwrap();

    if let FilesystemRule::Whitelist { path, .. } = &policy.filesystem_rules[0] {
        assert!(!path.contains("${HOME}"));
    } else {
        panic!("Expected whitelist rule");
    }
}

#[test]
fn test_noblacklist() {
    let policy = parse_text("blacklist /tmp/test\nnoblacklist /tmp/test\n").unwrap();

    assert_eq!(policy.filesystem_rules.len(), 0);
}

#[test]
fn test_whitelist_exec_canonicalization() {
    let mut parser = ProfileParser::new(test_env());
    let policy = run_parse(
        &mut parser,
        "/profiles/test.profile",
        &[("/profiles/test.profile", "whitelist_exec /tmp/bin/*\n")],
        &|p| if p == "/tmp/bin" { Some("/private/tmp/bin".to_string()) } else { None },
    )
    .unwrap();

    assert!(!policy.command_rules.is_empty());
    let patterns: Vec<&str> = policy.command_rules.iter().map(|r| r.pattern.as_str()).collect();
    assert!(patterns.contains(&"/tmp/bin/*"));
    if patterns.len() > 1 {
        assert!(patterns.iter().any(|p| p.contains("/private/tmp/bin/")));
    }
    assert_eq!(patterns, vec!["/tmp/bin/*", "/private/tmp/bin/*"]);
}

#[test]
fn macro_expansion_gives_the_value() {
    let policy = parse_text("whitelist ${HOME}/test\nread-only ${CFG}\nnoexec ${RUNUSER}/x\n").unwrap();
    assert_eq!(policy.filesystem_rules[0].path(), "/home/tester/test");
    assert_eq!(policy.filesystem_rules[1].path(), "/home/tester/.config");
    assert_eq!(policy.filesystem_rules[2].path(), "/run/user/tester/x");
    assert!(policy.filesystem_rules.iter().all(|r| r.recursive()));
}

#[test]
fn paths_with_spaces_are_joined() {
    let policy = parse_text("whitelist   /tmp/my   dir  \n").unwrap();
    assert_eq!(policy.filesystem_rules[0].path(), "/tmp/my dir");
}

#[test]
fn unknown_directives_are_ignored() {
    let policy = parse_text("caps.drop all\nnet none\n\n   \nwhitelist /a\n").unwrap();
    assert_eq!(policy.filesystem_rules.len(), 1);
    assert!(policy.enable_safe_dev_defaults);
}

#[test]
fn no_safe_dev_defaults_directive() {
    let policy = parse_text("no-safe-dev-defaults\nwhitelist /a\n").unwrap();
    assert!(!policy.enable_safe_dev_defaults);
}

#[test]
fn missing_path_is_an_error_with_its_line() {
    let err = parse_text("whitelist /a\n\nblacklist   # nothing\n").unwrap_err();
    assert_eq!(
        err.message(),
        "Invalid directive format: Line 3: blacklist - Invalid directive format: Missing path argument"
    );
}

#[test]
fn command_paths_become_command_rules() {
    let policy = parse_text(
        "blacklist /bin/rm\nblacklist /usr/local/bin/x\nblacklist /sbin/y\nblacklist /usr/sbin/z\nblacklist /opt/bin/w\n",
    )
    .unwrap();
    assert_eq!(policy.command_rules.len(), 4);
    assert_eq!(policy.filesystem_rules.len(), 1);
    assert_eq!(policy.filesystem_rules[0].path(), "/opt/bin/w");
}

#[test]
fn whitelist_exec_without_wildcard() {
    let mut parser = ProfileParser::new(test_env());
    let policy = run_parse(
        &mut parser,
        "/p",
        &[("/p", "whitelist_exec /usr/bin/git\nwhitelist_exec /opt/tool\n")],
        &|p| if p == "/usr/bin/git" { Some("/usr/bin/git".to_string()) } else { Some("/real/tool".to_string()) },
    )
    .unwrap();
    let patterns: Vec<&str> = policy.command_rules.iter().map(|r| r.pattern.as_str()).collect();
    assert_eq!(patterns, vec!["/usr/bin/git", "/opt/tool", "/real/tool"]);
}

#[test]
fn include_merges_rules_in_place() {
    let mut parser = ProfileParser::new(test_env());
    let files = [
        ("/profiles/main.profile", "whitelist /a\ninclude common.inc\nblacklist /c\n"),
        ("/profiles/common.inc", "blacklist /b\nwhitelist_exec /bin/*\n"),
    ];
    let policy = run_parse(&mut parser, "/profiles/main.profile", &files, &|_| None).unwrap();
    let paths: Vec<&str> = policy.filesystem_rules.iter().map(|r| r.path().as_str()).collect();
    assert_eq!(paths, vec!["/a", "/b", "/c"]);
    assert_eq!(policy.command_rules.len(), 1);
}

#[test]
fn include_falls_back_to_system_directories() {
    let mut parser = ProfileParser::new(test_env());
    let files = [
        ("/home/u/p.profile", "include globals.local\n"),
        ("/etc/firejail/inc/globals.local", "blacklist /x\n"),
    ];
    let policy = run_parse(&mut parser, "/home/u/p.profile", &files, &|_| None).unwrap();
    assert_eq!(policy.filesystem_rules.len(), 1);
}

#[test]
fn missing_include_is_an_error() {
    let err = parse_text("include nowhere.inc\n").unwrap_err();
    assert!(matches!(&err, ParseError::InvalidFormat(_)));
    assert_eq!(
        err.message(),
        "Invalid directive format: Line 1: include nowhere.inc - Include file not found: nowhere.inc"
    );
}

#[test]
fn unreadable_profile_is_an_io_error() {
    let mut parser = ProfileParser::new(test_env());
    let err = run_parse(&mut parser, "/nope", &[], &|_| None).unwrap_err();
    assert_eq!(err.message(), "I/O error: No such file or directory (os error 2)");
}

#[test]
fn include_cycle_hits_the_depth_limit() {
    let mut parser = ProfileParser::new(test_env());
    let files = [("/p/loop.profile", "include /p/loop.profile\n")];
    let err = run_parse(&mut parser, "/p/loop.profile", &files, &|_| None).unwrap_err();
    let msg = err.message();
    assert!(msg.ends_with("Maximum include depth (10) exceeded"), "{}", msg);
    assert_eq!(msg.matches("Line 1: include /p/loop.profile - ").count(), 10);
}

#[test]
fn parser_can_be_reused_after_success() {
    let mut parser = ProfileParser::new(test_env());
    let files = [("/a", "whitelist /x\n"), ("/b", "blacklist /y\n")];
    let p1 = run_parse(&mut parser, "/a", &files, &|_| None).unwrap();
    let p2 = run_parse(&mut parser, "/b", &files, &|_| None).unwrap();
    assert_eq!(p1.filesystem_rules.len(), 1);
    assert_eq!(p2.filesystem_rules.len(), 1);
    assert!(matches!(&p2.filesystem_rules[0], FilesystemRule::Blacklist { .. }));
}

#[test]
fn answers_that_do_not_fit_repeat_the_request() {
    let mut parser = ProfileParser::new(test_env());
    let a = parser.parse_file("/a");
    assert!(matches!(&a, ParseAction::ReadFile(p) if p == "/a"));
    let again = parser.resume(ParseEvent::Proceed);
    assert!(matches!(&again, ParseAction::ReadFile(p) if p == "/a"));
    let next = parser.resume(ParseEvent::FileContent("whitelist /x\r\n".to_string()));
    assert!(matches!(next, ParseAction::Continue));
    let line = parser.resume(ParseEvent::Proceed);
    assert!(matches!(line, ParseAction::Continue));
    match parser.resume(ParseEvent::Proceed) {
        ParseAction::Finished(p) => assert_eq!(p.filesystem_rules[0].path(), "/x"),
        other => panic!("unexpected {:?}", other),
    }
    // Idle: nothing to do.
    assert!(matches!(parser.resume(ParseEvent::Proceed), ParseAction::Continue));
}

#[test]
fn policy_carries_the_parser_macros() {
    let policy = parse_text("whitelist /a\n").unwrap();
    assert!(policy.macros.iter().any(|(k, v)| k == "HOME" && v == "/home/tester"));
}

#[test]
fn failed_nested_parse_leaves_the_depth_raised() {
    let mut parser = ProfileParser::new(test_env());
    let files = [("/p/loop.profile", "include /p/loop.profile\n"), ("/p/ok.profile", "whitelist /x\n")];
    assert!(run_parse(&mut parser, "/p/loop.profile", &files, &|_| None).is_err());
    match parser.parse_file("/p/ok.profile") {
        ParseAction::Failed(ParseError::MaxIncludeDepth(n)) => assert_eq!(n, 10),
        other => panic!("unexpected {:?}", other),
    }
}

#[test]
fn pattern_base_ends_at_first_wildcard_of_either_kind() {
    let mut parser = ProfileParser::new(test_env());
    let policy = run_parse(
        &mut parser,
        "/p",
        &[("/p", "whitelist_exec /tmp/?x/*\nwhitelist_exec /opt/*/b?n\n")],
        &|p| match p {
            "/tmp" => Some("/private/tmp".to_string()),
            "/opt" => Some("/real/opt".to_string()),
            _ => None,
        },
    )
    .unwrap();
    let patterns: Vec<&str> = policy.command_rules.iter().map(|r| r.pattern.as_str()).collect();
    assert_eq!(patterns, vec!["/tmp/?x/*", "/private/tmp/?x/*", "/opt/*/b?n", "/real/opt/*/b?n"]);
}
