use brushfire::engine::{FileDecision, SpawnDecision, file_access_event, process_spawn_event};
use brushfire::reporter::{CheckResult, EventContext, EventType, PolicyEvent, PolicyReporter};
use brushfire::{
    CommandRule, DefaultPolicy, FileAccessMode, FilesystemRule, Policy, PolicyEngine,
    PolicyViolation, RuleAction,
};
use std::sync::{Arc, Mutex};

fn ctx() -> EventContext {
    EventContext {
        timestamp: "2024-01-01T00:00:00+00:00".to_string(),
        program: Some("brush".to_string()),
        cwd: Some("/home/tester".to_string()),
    }
}

/// Check a path taken as already canonical, with every rule compared by its
/// path as written.
fn check(engine: &PolicyEngine, path: &str, mode: FileAccessMode) -> Result<(), PolicyViolation> {
    let resolved: Vec<Option<String>> = vec![None; engine.policy().filesystem_rules.len()];
    engine.check_file_access(path, &resolved, mode, &ctx())
}

fn unresolved(engine: &PolicyEngine) -> Vec<Option<String>> {
    vec![None; engine.policy().filesystem_rules.len()]
}

fn spawn(engine: &PolicyEngine, path: &str) -> Result<(), PolicyViolation> {
    engine.check_process_spawn(path, &unresolved(engine), None, &ctx())
}

fn decide(engine: &PolicyEngine, path: &str) -> SpawnDecision {
    engine.decide_process_spawn(path, &unresolved(engine))
}

#[test]
fn test_blacklist_enforcement() {
    let mut policy = Policy::new();
    policy.add_filesystem_rule(FilesystemRule::Blacklist {
        path: "/etc/shadow".to_string(),
        recursive: false,
    });

    let engine = PolicyEngine::new(policy);

    assert!(check(&engine, "/etc/shadow", FileAccessMode::Read).is_err());
    assert!(check(&engine, "/etc/hosts", FileAccessMode::Read).is_ok());
}

#[test]
fn test_readonly_enforcement() {
    let temp_dir = tempfile::TempDir::new().unwrap();
    let readonly_dir = temp_dir.path().join("readonly").display().to_string();

    let mut policy = Policy::new();
    policy.add_filesystem_rule(FilesystemRule::ReadOnly {
        path: readonly_dir.clone(),
        recursive: true,
    });

    let engine = PolicyEngine::new(policy);
    let test_file = format!("{}/file", readonly_dir);

    assert!(check(&engine, &test_file, FileAccessMode::Read).is_ok());
    assert!(check(&engine, &test_file, FileAccessMode::Write).is_err());
}

#[test]
fn test_noexec_enforcement() {
    let mut policy = Policy::new();
    policy.add_filesystem_rule(FilesystemRule::NoExec {
        path: "/tmp".to_string(),
        recursive: true,
    });

    let engine = PolicyEngine::new(policy);

    assert!(check(&engine, "/tmp/script.sh", FileAccessMode::Execute).is_err());
    assert!(check(&engine, "/tmp/file.txt", FileAccessMode::Read).is_ok());
}

#[test]
fn test_command_blocking() {
    let mut policy = Policy::new();
    policy.add_command_rule(CommandRule {
        pattern: "/usr/bin/curl".to_string(),
        action: RuleAction::Deny,
    });

    let engine = PolicyEngine::new(policy);

    assert!(spawn(&engine, "/usr/bin/curl").is_err());
}

#[test]
fn test_whitelist_restrictive_mode() {
    let temp_dir = tempfile::TempDir::new().unwrap();
    let allowed_dir = temp_dir.path().join("allowed").display().to_string();
    let other_dir = temp_dir.path().join("other").display().to_string();

    let mut policy = Policy::new();
    policy.add_filesystem_rule(FilesystemRule::Whitelist {
        path: allowed_dir.clone(),
        recursive: true,
    });

    let engine = PolicyEngine::new(policy);

    assert_eq!(engine.default_policy(), DefaultPolicy::DenyAll);
    assert!(check(&engine, &format!("{}/file", allowed_dir), FileAccessMode::Read).is_ok());
    assert!(check(&engine, &format!("{}/file", other_dir), FileAccessMode::Read).is_err());
}

#[test]
fn blacklist_wins_over_whitelist() {
    let mut policy = Policy::new();
    policy.add_filesystem_rule(FilesystemRule::Whitelist { path: "/data".to_string(), recursive: true });
    policy.add_filesystem_rule(FilesystemRule::Blacklist {
        path: "/data/secret".to_string(),
        recursive: true,
    });
    let engine = PolicyEngine::new(policy);
    match check(&engine, "/data/secret/key", FileAccessMode::Read) {
        Err(PolicyViolation::FileBlacklisted(p)) => assert_eq!(p, "/data/secret/key"),
        other => panic!("unexpected {:?}", other),
    }
    assert!(check(&engine, "/data/public", FileAccessMode::Write).is_ok());
}

#[test]
fn not_whitelisted_names_the_path() {
    let mut policy = Policy::new();
    policy.add_filesystem_rule(FilesystemRule::Whitelist { path: "/work".to_string(), recursive: true });
    let engine = PolicyEngine::new(policy);
    match check(&engine, "/etc/passwd", FileAccessMode::Read) {
        Err(PolicyViolation::FileNotWhitelisted(p)) => assert_eq!(p, "/etc/passwd"),
        other => panic!("unexpected {:?}", other),
    }
    // A recursive rule covers whole components only.
    assert!(check(&engine, "/workshop/x", FileAccessMode::Read).is_err());
    assert!(check(&engine, "/work", FileAccessMode::Read).is_ok());
}

#[test]
fn read_only_and_noexec_errors() {
    let mut policy = Policy::new();
    policy.add_filesystem_rule(FilesystemRule::ReadOnly { path: "/usr".to_string(), recursive: true });
    policy.add_filesystem_rule(FilesystemRule::NoExec { path: "/tmp".to_string(), recursive: true });
    let engine = PolicyEngine::new(policy);
    match check(&engine, "/usr/lib/x", FileAccessMode::Write) {
        Err(PolicyViolation::FileReadOnly(p)) => assert_eq!(p, "/usr/lib/x"),
        other => panic!("unexpected {:?}", other),
    }
    assert!(check(&engine, "/usr/lib/x", FileAccessMode::Execute).is_ok());
    match check(&engine, "/tmp/a.sh", FileAccessMode::Execute) {
        Err(PolicyViolation::NoExec(p)) => assert_eq!(p, "/tmp/a.sh"),
        other => panic!("unexpected {:?}", other),
    }
    assert!(check(&engine, "/tmp/a.sh", FileAccessMode::Write).is_ok());
}

#[test]
fn non_recursive_rule_covers_only_its_path() {
    let mut policy = Policy::new();
    policy.add_filesystem_rule(FilesystemRule::Blacklist { path: "/etc".to_string(), recursive: false });
    let engine = PolicyEngine::new(policy);
    assert!(check(&engine, "/etc", FileAccessMode::Read).is_err());
    assert!(check(&engine, "/etc/", FileAccessMode::Read).is_err());
    assert!(check(&engine, "/etc/hosts", FileAccessMode::Read).is_ok());
}

#[test]
fn resolved_rule_path_is_used() {
    let mut policy = Policy::new();
    policy.add_filesystem_rule(FilesystemRule::Blacklist { path: "/tmp/x".to_string(), recursive: true });
    let engine = PolicyEngine::new(policy);
    let resolved = vec![Some("/private/tmp/x".to_string())];
    assert!(engine
        .check_file_access("/private/tmp/x/f", &resolved, FileAccessMode::Read, &ctx())
        .is_err());
    assert!(engine
        .check_file_access("/tmp/x/f", &resolved, FileAccessMode::Read, &ctx())
        .is_ok());
}

#[test]
fn safe_dev_defaults_in_restrictive_mode() {
    let mut policy = Policy::new();
    policy.add_filesystem_rule(FilesystemRule::Whitelist { path: "/work".to_string(), recursive: true });
    let engine = PolicyEngine::new(policy);
    assert_eq!(engine.policy().filesystem_rules.len(), 9);
    for dev in ["/dev/null", "/dev/zero", "/dev/urandom", "/dev/random", "/dev/stdin", "/dev/stdout", "/dev/stderr", "/dev/tty"] {
        assert!(check(&engine, dev, FileAccessMode::Write).is_ok(), "{}", dev);
    }
    // Non-recursive: nothing under them.
    assert!(check(&engine, "/dev/null/x", FileAccessMode::Read).is_err());
    assert!(check(&engine, "/dev/sda", FileAccessMode::Read).is_err());
}

#[test]
fn safe_dev_defaults_can_be_turned_off() {
    let mut policy = Policy::new();
    policy.enable_safe_dev_defaults = false;
    policy.add_filesystem_rule(FilesystemRule::Whitelist { path: "/work".to_string(), recursive: true });
    let engine = PolicyEngine::new(policy);
    assert_eq!(engine.policy().filesystem_rules.len(), 1);
    assert!(check(&engine, "/dev/null", FileAccessMode::Read).is_err());
}

#[test]
fn permissive_mode_without_whitelist() {
    let engine = PolicyEngine::new(Policy::new());
    assert_eq!(engine.default_policy(), DefaultPolicy::AllowAll);
    assert!(!engine.is_command_default_deny());
    assert!(check(&engine, "/anything", FileAccessMode::Execute).is_ok());
    assert!(spawn(&engine, "/usr/bin/anything").is_ok());
}

#[test]
fn deny_rules_win_over_allow_rules() {
    let mut policy = Policy::new();
    policy.add_command_rule(CommandRule { pattern: "/usr/bin/git".to_string(), action: RuleAction::Allow });
    policy.add_command_rule(CommandRule { pattern: "/usr/bin/*".to_string(), action: RuleAction::Deny });
    policy.add_command_rule(CommandRule { pattern: "/opt/*".to_string(), action: RuleAction::Allow });
    let engine = PolicyEngine::new(policy);
    assert!(engine.is_command_default_deny());
    // A deny rule wins whatever the order of the rules.
    assert!(spawn(&engine, "/usr/bin/git").is_err());
    match spawn(&engine, "/usr/bin/curl") {
        Err(PolicyViolation::CommandBlocked(p)) => assert_eq!(p, "/usr/bin/curl"),
        other => panic!("unexpected {:?}", other),
    }
    assert!(spawn(&engine, "/opt/tool").is_ok());
    // No rule matches: default deny, since there is an allow rule.
    assert!(spawn(&engine, "/bin/ls").is_err());
    assert_eq!(decide(&engine, "/usr/bin/git"), SpawnDecision::CommandBlacklisted);
    assert_eq!(decide(&engine, "/opt/tool"), SpawnDecision::CommandExplicitlyAllowed);
    assert_eq!(decide(&engine, "/bin/ls"), SpawnDecision::CommandNotExplicitlyAllowed);
}

#[test]
fn later_deny_beats_earlier_allow() {
    let mut policy = Policy::new();
    policy.add_command_rule(CommandRule { pattern: "/no_such_d/*".to_string(), action: RuleAction::Allow });
    policy.add_command_rule(CommandRule { pattern: "/no_such_d/curl".to_string(), action: RuleAction::Deny });
    let engine = PolicyEngine::new(policy);
    assert!(matches!(spawn(&engine, "/no_such_d/curl"), Err(PolicyViolation::CommandBlocked(_))));
    assert!(spawn(&engine, "/no_such_d/ls").is_ok());
}

#[test]
fn whitelist_makes_commands_default_deny_and_names_commands() {
    let mut policy = Policy::new();
    policy.add_filesystem_rule(FilesystemRule::Whitelist { path: "/usr/bin/ls".to_string(), recursive: true });
    policy.add_filesystem_rule(FilesystemRule::Whitelist { path: "/usr/local/bin/*".to_string(), recursive: true });
    policy.add_filesystem_rule(FilesystemRule::Whitelist { path: "/bin".to_string(), recursive: true });
    let engine = PolicyEngine::new(policy);
    assert!(engine.is_command_default_deny());
    assert!(spawn(&engine, "/usr/bin/ls").is_ok());
    assert!(spawn(&engine, "/usr/local/bin/tool").is_ok());
    assert!(matches!(spawn(&engine, "/usr/bin/curl"), Err(PolicyViolation::CommandBlocked(_))));
    // A whitelisted directory names only itself as a command.
    assert!(spawn(&engine, "/bin/cat").is_err());
}

#[test]
fn noexec_and_blacklist_rules_block_spawning() {
    let mut policy = Policy::new();
    policy.add_filesystem_rule(FilesystemRule::NoExec { path: "/no_such_nx".to_string(), recursive: true });
    policy.add_filesystem_rule(FilesystemRule::Blacklist { path: "/opt/secret".to_string(), recursive: true });
    policy.add_command_rule(CommandRule { pattern: "/no_such_nx/*".to_string(), action: RuleAction::Allow });
    let engine = PolicyEngine::new(policy);
    match spawn(&engine, "/no_such_nx/tool") {
        Err(PolicyViolation::NoExec(p)) => assert_eq!(p, "/no_such_nx/tool"),
        other => panic!("unexpected {:?}", other),
    }
    assert_eq!(decide(&engine, "/no_such_nx/tool"), SpawnDecision::NoExec);
    match spawn(&engine, "/opt/secret/run") {
        Err(PolicyViolation::CommandBlocked(p)) => assert_eq!(p, "/opt/secret/run"),
        other => panic!("unexpected {:?}", other),
    }
    // Permissive file mode: a noexec rule alone still blocks spawning.
    let mut p2 = Policy::new();
    p2.add_filesystem_rule(FilesystemRule::NoExec { path: "/no_such_nx".to_string(), recursive: true });
    let e2 = PolicyEngine::new(p2);
    assert!(!e2.is_command_default_deny());
    assert!(spawn(&e2, "/no_such_nx/tool").is_err());
    assert!(spawn(&e2, "/usr/bin/ls").is_ok());
}

#[test]
fn glob_patterns_match_commands() {
    let mut policy = Policy::new();
    policy.add_command_rule(CommandRule { pattern: "/opt/tools/*".to_string(), action: RuleAction::Deny });
    policy.add_command_rule(CommandRule { pattern: "[invalid".to_string(), action: RuleAction::Deny });
    let engine = PolicyEngine::new(policy);
    assert!(spawn(&engine, "/opt/tools/x").is_err());
    assert!(spawn(&engine, "/opt/other/x").is_ok());
    assert_eq!(decide(&engine, "[invalid"), SpawnDecision::NoMatchingRules);
}

#[test]
fn dynamic_rules() {
    let mut engine = PolicyEngine::new(Policy::new());
    engine.add_blacklist_rule("/secret".to_string(), true);
    engine.add_filesystem_rule(FilesystemRule::ReadOnly { path: "/ro".to_string(), recursive: true });
    engine.add_command_deny_rule("/bin/cat".to_string());
    engine.add_command_allow_rule("/bin/ls".to_string());
    assert_eq!(engine.policy().filesystem_rules.len(), 2);
    assert_eq!(engine.policy().command_rules.len(), 2);
    assert!(check(&engine, "/secret/a", FileAccessMode::Read).is_err());
    assert!(check(&engine, "/ro/a", FileAccessMode::Write).is_err());
    assert!(spawn(&engine, "/bin/cat").is_err());
    assert!(spawn(&engine, "/bin/ls").is_ok());
    // The default modes were fixed when the engine was made.
    assert!(!engine.is_command_default_deny());
    assert!(spawn(&engine, "/bin/other").is_ok());
}

#[test]
fn canonicalize_path_prefers_the_filesystem() {
    let r = PolicyEngine::canonicalize_path("/tmp/x", Some("/private/tmp/x".to_string()), None, None);
    assert_eq!(r, "/private/tmp/x");
    let r = PolicyEngine::canonicalize_path("/tmp/new.txt", None, Some("/private/tmp".to_string()), None);
    assert_eq!(r, "/private/tmp/new.txt");
    let r = PolicyEngine::canonicalize_path("/a/b/../c/./d", None, None, None);
    assert_eq!(r, "/a/c/d");
    let r = PolicyEngine::canonicalize_path("x/../y", None, None, Some("/home/u".to_string()));
    assert_eq!(r, "/home/u/y");
    let r = PolicyEngine::canonicalize_path("x/../y", None, None, None);
    assert_eq!(r, "y");
}

#[test]
fn report_events_follow_decisions() {
    let e = file_access_event(FileDecision::Blacklisted, "/etc/shadow", FileAccessMode::Read, &ctx());
    assert_eq!(e.result, CheckResult::Denied);
    assert_eq!(e.reason, "file_blacklisted");
    assert_eq!(e.action.operation, "read");
    assert_eq!(e.action.resource, "/etc/shadow");
    assert_eq!(e.event_type, EventType::FileAccess);
    let e = file_access_event(FileDecision::NotWhitelisted, "/x", FileAccessMode::Write, &ctx());
    assert_eq!(e.reason, "file_not_whitelisted");
    assert_eq!(e.action.operation, "write");
    let e = file_access_event(FileDecision::Allowed, "/x", FileAccessMode::Execute, &ctx());
    assert_eq!(e.result, CheckResult::Allowed);
    assert_eq!(e.reason, "policy_check_passed");
    assert_eq!(e.event_type, EventType::Execution);
    assert_eq!(e.action.operation, "execute");
    assert_eq!(e.action.resource_type.as_deref(), Some("file"));
    let e = file_access_event(FileDecision::ReadOnly, "/x", FileAccessMode::Write, &ctx());
    assert_eq!((e.result, e.reason.as_str()), (CheckResult::Denied, "file_readonly"));
    let e = file_access_event(FileDecision::NoExec, "/x", FileAccessMode::Execute, &ctx());
    assert_eq!((e.result, e.reason.as_str()), (CheckResult::Denied, "noexec_violation"));
    assert_eq!(e.event_type, EventType::Execution);

    let cases = [
        (SpawnDecision::CommandBlacklisted, CheckResult::Denied, "command_blacklisted"),
        (SpawnDecision::NoExec, CheckResult::Denied, "noexec_violation"),
        (SpawnDecision::CommandExplicitlyAllowed, CheckResult::Allowed, "command_explicitly_allowed"),
        (SpawnDecision::CommandNotExplicitlyAllowed, CheckResult::Denied, "command_not_explicitly_allowed"),
        (SpawnDecision::NoMatchingRules, CheckResult::Allowed, "no_matching_rules"),
    ];
    for (d, result, reason) in cases {
        let e = process_spawn_event(d, "/bin/ls", Some(vec!["-l".to_string()]), &ctx());
        assert_eq!(e.result, result);
        assert_eq!(e.reason, reason);
        assert_eq!(e.action.command.as_deref(), Some("/bin/ls"));
        assert_eq!(e.action.args, Some(vec!["-l".to_string()]));
    }
}

struct Recorder {
    events: Mutex<Vec<PolicyEvent>>,
}

impl PolicyReporter for Recorder {
    fn report(&self, event: &PolicyEvent) {
        self.events.lock().unwrap().push(event.clone());
    }
}

#[test]
fn engine_reports_checks_to_its_reporter() {
    let recorder = Arc::new(Recorder { events: Mutex::new(Vec::new()) });
    let mut policy = Policy::new();
    policy.add_filesystem_rule(FilesystemRule::Blacklist { path: "/etc/shadow".to_string(), recursive: false });
    policy.add_filesystem_rule(FilesystemRule::ReadOnly { path: "/usr".to_string(), recursive: true });
    let reporter: Arc<dyn PolicyReporter> = recorder.clone();
    let engine = PolicyEngine::new(policy).with_reporter(Some(reporter));
    assert!(check(&engine, "/etc/shadow", FileAccessMode::Read).is_err());
    assert!(check(&engine, "/usr/x", FileAccessMode::Write).is_err());
    assert!(check(&engine, "/home/x", FileAccessMode::Read).is_ok());
    assert!(spawn(&engine, "/bin/ls").is_ok());
    let events = recorder.events.lock().unwrap();
    let reasons: Vec<&str> = events.iter().map(|e| e.reason.as_str()).collect();
    assert_eq!(
        reasons,
        vec!["file_blacklisted", "file_readonly", "policy_check_passed", "no_matching_rules"]
    );
    assert_eq!(events[0].timestamp, "2024-01-01T00:00:00+00:00");
    assert_eq!(events[0].action.cwd.as_deref(), Some("/home/tester"));
    assert_eq!(events[0].action.command.as_deref(), Some("brush"));
}

#[test]
fn set_reporter_none_stops_reporting() {
    let recorder = Arc::new(Recorder { events: Mutex::new(Vec::new()) });
    let mut engine = PolicyEngine::new(Policy::new());
    let reporter: Arc<dyn PolicyReporter> = recorder.clone();
    engine.set_reporter(Some(reporter));
    assert!(check(&engine, "/a", FileAccessMode::Read).is_ok());
    engine.set_reporter(None);
    assert!(check(&engine, "/b", FileAccessMode::Read).is_ok());
    assert_eq!(recorder.events.lock().unwrap().len(), 1);
}

#[test]
fn a_new_reporter_replaces_the_old_one() {
    let first = Arc::new(Recorder { events: Mutex::new(Vec::new()) });
    let second = Arc::new(Recorder { events: Mutex::new(Vec::new()) });
    let r1: Arc<dyn PolicyReporter> = first.clone();
    let r2: Arc<dyn PolicyReporter> = second.clone();
    let mut engine = PolicyEngine::new(Policy::new()).with_reporter(Some(r1));
    assert!(check(&engine, "/a", FileAccessMode::Read).is_ok());
    engine.set_reporter(Some(r2));
    assert!(check(&engine, "/b", FileAccessMode::Read).is_ok());
    assert!(spawn(&engine, "/bin/ls").is_ok());
    assert_eq!(first.events.lock().unwrap().len(), 1);
    assert_eq!(second.events.lock().unwrap().len(), 2);
}

#[test]
fn literal_patterns_match_exactly_their_path() {
    let mut policy = Policy::new();
    policy.add_command_rule(CommandRule { pattern: "/opt/a]b!c".to_string(), action: RuleAction::Deny });
    let engine = PolicyEngine::new(policy);
    assert!(spawn(&engine, "/opt/a]b!c").is_err());
    assert!(spawn(&engine, "/opt/a]b!").is_ok());
    assert!(spawn(&engine, "/opt/a]b!cd").is_ok());
    assert!(spawn(&engine, "/OPT/a]b!c").is_ok());
}
