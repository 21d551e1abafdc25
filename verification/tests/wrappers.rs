use brushfire::wrappers::{
    auto_blacklist_real_utilities, auto_blacklist_utilities, auto_whitelist_wrappers,
    find_all_real_utility_paths, is_executable, resolve_real_utility_path, utility_probes,
    wrapper_environment, ProbeResult,
};
use brushfire::{CommandRule, FileAccessMode, FilesystemRule, Policy, PolicyEngine, RuleAction};
use brushfire::reporter::EventContext;

fn ctx() -> EventContext {
    EventContext { timestamp: "t".to_string(), program: None, cwd: None }
}

fn patterns(engine: &PolicyEngine) -> Vec<(String, RuleAction)> {
    engine.policy().command_rules.iter().map(|r| (r.pattern.clone(), r.action)).collect()
}

fn probe(usable: bool, dir_canonical: Option<&str>, candidate_canonical: Option<&str>) -> ProbeResult {
    ProbeResult {
        usable,
        dir_canonical: dir_canonical.map(|s| s.to_string()),
        candidate_canonical: candidate_canonical.map(|s| s.to_string()),
    }
}

#[test]
fn executable_bits() {
    assert!(is_executable(0o755));
    assert!(is_executable(0o100));
    assert!(is_executable(0o001));
    assert!(!is_executable(0o644));
    assert!(!is_executable(0o7666));
}

#[test]
fn probes_cover_standard_dirs_then_path() {
    let probes = utility_probes("cat", Some("/opt/bin::/home/u/bin/"));
    let got: Vec<(&str, &str, bool)> = probes
        .iter()
        .map(|p| (p.dir.as_str(), p.candidate.as_str(), p.from_path_var))
        .collect();
    assert_eq!(
        got,
        vec![
            ("/bin", "/bin/cat", false),
            ("/usr/bin", "/usr/bin/cat", false),
            ("/usr/local/bin", "/usr/local/bin/cat", false),
            ("/opt/bin", "/opt/bin/cat", true),
            ("", "cat", true),
            ("/home/u/bin/", "/home/u/bin/cat", true),
        ]
    );
    assert_eq!(utility_probes("ls", None).len(), 3);
}

#[test]
fn real_paths_skip_wrapper_dir_and_duplicates() {
    let probes = utility_probes("cat", Some("/bin:/wrappers:/usr/bin"));
    let results = vec![
        probe(true, Some("/bin"), None),
        probe(true, Some("/usr/bin"), None),
        probe(false, Some("/usr/local/bin"), None),
        probe(true, Some("/bin"), None),
        probe(true, Some("/tmp/wrappers"), None),
        probe(true, Some("/usr/bin"), None),
    ];
    let found = find_all_real_utility_paths(&probes, &results, &Some("/tmp/wrappers".to_string()));
    assert_eq!(found, vec!["/bin/cat", "/usr/bin/cat"]);
    let found = find_all_real_utility_paths(&probes, &results, &None);
    assert_eq!(found, vec!["/bin/cat", "/usr/bin/cat", "/wrappers/cat"]);
    // A probe without a result finds nothing.
    assert!(find_all_real_utility_paths(&probes, &vec![], &None).is_empty());
}

#[test]
fn resolve_takes_first_usable_path_entry() {
    let probes = utility_probes("grep", Some("/nope:/opt/homebrew/bin:/usr/bin"));
    let results = vec![
        probe(true, None, Some("/bin/grep")),
        probe(true, None, None),
        probe(true, None, None),
        probe(false, None, None),
        probe(true, None, Some("/opt/homebrew/Cellar/grep/bin/ggrep")),
        probe(true, None, Some("/usr/bin/grep")),
    ];
    assert_eq!(
        resolve_real_utility_path(&probes, &results),
        Some("/opt/homebrew/Cellar/grep/bin/ggrep".to_string())
    );
    let results = vec![probe(true, None, None), probe(false, None, None), probe(false, None, None), probe(false, None, None), probe(false, None, None), probe(true, None, None)];
    assert_eq!(resolve_real_utility_path(&probes, &results), Some("/usr/bin/grep".to_string()));
    assert_eq!(resolve_real_utility_path(&probes, &vec![]), None);
}

#[test]
fn blacklisting_real_utilities() {
    let mut engine = PolicyEngine::new(Policy::new());
    let found = vec![
        ("/bin/cat".to_string(), Some("/bin/cat".to_string())),
        ("/usr/bin/cat".to_string(), Some("/bin/cat".to_string())),
        ("/opt/cat".to_string(), None),
    ];
    auto_blacklist_real_utilities(&mut engine, &found);
    let got = patterns(&engine);
    let want: Vec<(String, RuleAction)> = ["/bin/cat", "/bin/cat", "/usr/bin/cat", "/opt/cat"]
        .iter()
        .map(|s| (s.to_string(), RuleAction::Deny))
        .collect();
    assert_eq!(got, want);
    assert!(engine.check_process_spawn("/usr/bin/cat", &vec![None; engine.policy().filesystem_rules.len()], None, &ctx()).is_err());
    assert!(engine.check_process_spawn("/usr/bin/dog", &vec![None; engine.policy().filesystem_rules.len()], None, &ctx()).is_ok());

    let mut engine2 = PolicyEngine::new(Policy::new());
    auto_blacklist_utilities(&mut engine2, &found);
    assert_eq!(patterns(&engine2), want);
}

#[test]
fn whitelisting_wrappers_only_in_default_deny() {
    let mut engine = PolicyEngine::new(Policy::new());
    let r = auto_whitelist_wrappers(&mut engine, "/tmp/w", Ok("/private/tmp/w".to_string()));
    assert_eq!(r, Ok(false));
    assert!(engine.policy().command_rules.is_empty());
    assert!(engine.policy().filesystem_rules.is_empty());

    let mut policy = Policy::new();
    policy.add_command_rule(CommandRule { pattern: "/usr/bin/git".to_string(), action: RuleAction::Allow });
    let mut engine = PolicyEngine::new(policy);
    let r = auto_whitelist_wrappers(&mut engine, "/tmp/w", Err("No such file or directory".to_string()));
    assert_eq!(r, Err("No such file or directory".to_string()));
    assert_eq!(engine.policy().command_rules.len(), 1);

    let r = auto_whitelist_wrappers(&mut engine, "/tmp/w", Ok("/private/tmp/w".to_string()));
    assert_eq!(r, Ok(true));
    let got: Vec<String> = engine.policy().command_rules.iter().map(|r| r.pattern.clone()).collect();
    assert_eq!(got, vec!["/usr/bin/git", "/private/tmp/w/*", "/tmp/w/*"]);
    assert!(matches!(
        engine.policy().filesystem_rules.last(),
        Some(FilesystemRule::Whitelist { path, recursive: true }) if path == "/private/tmp/w"
    ));
    assert!(engine.check_process_spawn("/tmp/w/cat", &vec![None; engine.policy().filesystem_rules.len()], None, &ctx()).is_ok());
    let resolved = vec![None; engine.policy().filesystem_rules.len()];
    assert!(engine.check_file_access("/private/tmp/w/cat", &resolved, FileAccessMode::Execute, &ctx()).is_ok());

    let mut policy = Policy::new();
    policy.add_command_rule(CommandRule { pattern: "/x".to_string(), action: RuleAction::Allow });
    let mut engine = PolicyEngine::new(policy);
    assert_eq!(auto_whitelist_wrappers(&mut engine, "/w", Ok("/w".to_string())), Ok(true));
    let got: Vec<String> = engine.policy().command_rules.iter().map(|r| r.pattern.clone()).collect();
    assert_eq!(got, vec!["/x", "/w/*"]);
}

#[test]
fn wrapped_shell_environment() {
    let real = vec![("cat".to_string(), "/bin/cat".to_string()), ("grep".to_string(), "/usr/bin/grep".to_string())];
    let env = wrapper_environment("/p/my.profile", Some("http://hook"), None, &real, "/tmp/w", "/usr/bin:/bin");
    let want: Vec<(String, String)> = [
        ("BRUSHFIRE_POLICY", "/p/my.profile"),
        ("BRUSHFIRE_WEBHOOK_URL", "http://hook"),
        ("BRUSHFIRE_CAT_PATH", "/bin/cat"),
        ("BRUSHFIRE_GREP_PATH", "/usr/bin/grep"),
        ("PATH", "/tmp/w:/usr/bin:/bin"),
    ]
    .iter()
    .map(|(a, b)| (a.to_string(), b.to_string()))
    .collect();
    assert_eq!(env, want);
    let env = wrapper_environment("/p", None, Some("s1"), &vec![], "/w", "");
    assert_eq!(env.len(), 3);
    assert_eq!(env[1], ("BRUSHFIRE_SESSION_ID".to_string(), "s1".to_string()));
    assert_eq!(env[2], ("PATH".to_string(), "/w:".to_string()));
}
