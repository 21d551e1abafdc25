use brushfire::reporter::EventContext;
use brushfire::{
    FileAccessMode, MacroEnvironment, ParseAction, ParseEvent, Policy, PolicyEngine,
    PolicyViolation, ProfileParser,
};

fn profile(content: &str) -> Policy {
    let env = MacroEnvironment {
        home: Some("/home/user".to_string()),
        user: Some("user".to_string()),
        xdg_runtime_dir: None,
        path: None,
        xdg_config_home: None,
    };
    let mut parser = ProfileParser::new(env);
    let mut action = parser.parse_file("/p/sandbox.profile");
    loop {
        action = match action {
            ParseAction::ReadFile(_) => parser.resume(ParseEvent::FileContent(content.to_string())),
            ParseAction::FindFirstExisting(_) => parser.resume(ParseEvent::FoundAt(None)),
            ParseAction::Canonicalize(_) => parser.resume(ParseEvent::CanonicalPath(None)),
            ParseAction::Continue => parser.resume(ParseEvent::Proceed),
            ParseAction::Finished(p) => return p,
            ParseAction::Failed(e) => panic!("{}", e.message()),
        };
    }
}

fn ctx() -> EventContext {
    EventContext { timestamp: "t".to_string(), program: None, cwd: None }
}

fn spawn(engine: &PolicyEngine, path: &str) -> Result<(), PolicyViolation> {
    let resolved = vec![None; engine.policy().filesystem_rules.len()];
    engine.check_process_spawn(path, &resolved, None, &ctx())
}

fn file(engine: &PolicyEngine, path: &str, mode: FileAccessMode) -> Result<(), PolicyViolation> {
    let resolved = vec![None; engine.policy().filesystem_rules.len()];
    engine.check_file_access(path, &resolved, mode, &ctx())
}

#[test]
fn sandbox_profile_example() {
    let engine = PolicyEngine::new(profile(
        "# sandbox.profile\n# Block dangerous commands\nblacklist /usr/bin/curl\nblacklist /usr/bin/wget\nblacklist /bin/rm\n\n# Prevent execution from temp directories\nnoexec /tmp\n\n# Block access to sensitive locations\nblacklist ${HOME}/.ssh\n",
    ));
    assert!(spawn(&engine, "/usr/bin/curl").is_err());
    assert!(spawn(&engine, "/usr/bin/wget").is_err());
    assert!(spawn(&engine, "/bin/rm").is_err());
    assert!(spawn(&engine, "/bin/ls").is_ok());
    assert!(file(&engine, "/tmp/script.sh", FileAccessMode::Execute).is_err());
    assert!(file(&engine, "/tmp/data.txt", FileAccessMode::Write).is_ok());
    assert!(matches!(
        file(&engine, "/home/user/.ssh/id_rsa", FileAccessMode::Read),
        Err(PolicyViolation::FileBlacklisted(_))
    ));
    assert!(file(&engine, "/home/user/notes", FileAccessMode::Read).is_ok());
}

#[test]
fn wildcard_command_blacklist() {
    let engine = PolicyEngine::new(profile("blacklist /usr/bin/*\n"));
    assert!(spawn(&engine, "/usr/bin/curl").is_err());
    assert!(spawn(&engine, "/bin/curl").is_ok());
}

#[test]
fn whitelist_exec_switches_commands_to_default_deny() {
    let engine = PolicyEngine::new(profile("whitelist_exec /usr/bin/ls\nwhitelist_exec /usr/local/bin/*\n"));
    assert!(engine.is_command_default_deny());
    assert!(spawn(&engine, "/usr/bin/ls").is_ok());
    assert!(spawn(&engine, "/usr/local/bin/tool").is_ok());
    assert!(matches!(
        spawn(&engine, "/usr/bin/curl"),
        Err(PolicyViolation::CommandBlocked(_))
    ));
}

#[test]
fn workspace_sandbox_example() {
    let engine = PolicyEngine::new(profile(
        "whitelist /home/user/workspace\nnoexec /home/user/workspace\nread-only /usr\n",
    ));
    assert!(file(&engine, "/home/user/workspace/a.txt", FileAccessMode::Write).is_ok());
    assert!(matches!(
        file(&engine, "/home/user/workspace/a.sh", FileAccessMode::Execute),
        Err(PolicyViolation::NoExec(_))
    ));
    assert!(matches!(
        file(&engine, "/etc/passwd", FileAccessMode::Read),
        Err(PolicyViolation::FileNotWhitelisted(_))
    ));
    assert!(file(&engine, "/dev/null", FileAccessMode::Write).is_ok());
}

#[test]
fn strict_lockdown_example() {
    let engine = PolicyEngine::new(profile(
        "# Disable safe defaults\nno-safe-dev-defaults\nwhitelist /home/user/safe-workspace\nwhitelist /dev/null\nwhitelist /dev/stdout\n",
    ));
    assert!(file(&engine, "/dev/null", FileAccessMode::Write).is_ok());
    assert!(file(&engine, "/dev/stdout", FileAccessMode::Write).is_ok());
    assert!(file(&engine, "/dev/urandom", FileAccessMode::Read).is_err());
}

