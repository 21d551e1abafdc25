use brushfire::policy_loader::{policy_error_lines, PolicyError};
use brushfire::reporter::{authorization_value, CheckResult, EventContext, EventType, PolicyEvent};
use brushfire::{FileAccessMode, ParseError, PolicyViolation};

#[test]
fn parse_error_messages() {
    assert_eq!(ParseError::UnknownDirective("foo".to_string()).message(), "Unknown directive: foo");
    assert_eq!(ParseError::InvalidFormat("bad".to_string()).message(), "Invalid directive format: bad");
    assert_eq!(ParseError::IncludeNotFound("a.inc".to_string()).message(), "Include file not found: a.inc");
    assert_eq!(ParseError::MaxIncludeDepth(10).message(), "Maximum include depth (10) exceeded");
    assert_eq!(ParseError::MaxIncludeDepth(0).message(), "Maximum include depth (0) exceeded");
    assert_eq!(ParseError::Io("denied".to_string()).message(), "I/O error: denied");
}

#[test]
fn violation_messages() {
    let p = "/x".to_string();
    assert_eq!(PolicyViolation::FileBlacklisted(p.clone()).message(), "File access denied (blacklisted): /x");
    assert_eq!(PolicyViolation::FileNotWhitelisted(p.clone()).message(), "File access denied (not whitelisted): /x");
    assert_eq!(PolicyViolation::FileReadOnly(p.clone()).message(), "File is read-only: /x");
    assert_eq!(PolicyViolation::NoExec(p.clone()).message(), "Execution denied from directory (noexec): /x");
    assert_eq!(PolicyViolation::CommandBlocked(p.clone()).message(), "Command execution denied (blacklisted): /x");
    assert_eq!(
        PolicyViolation::CanonicalizationFailed(p, "gone".to_string()).message(),
        "Failed to canonicalize path /x: gone"
    );
}

#[test]
fn policy_error_messages() {
    assert_eq!(PolicyError::NoPolicyEnvVar.message(), "BRUSHFIRE_POLICY environment variable not set");
    assert_eq!(
        PolicyError::PolicyParse(ParseError::MaxIncludeDepth(10)).message(),
        "Failed to parse policy profile: Maximum include depth (10) exceeded"
    );
    assert_eq!(PolicyError::Io("boom".to_string()).message(), "IO error: boom");
}

#[test]
fn policy_error_report_lines() {
    let v = PolicyViolation::FileNotWhitelisted("/etc/passwd".to_string());
    let lines = policy_error_lines("cat", "/etc/passwd", &v);
    assert_eq!(
        lines,
        vec![
            "brushfire: Policy violation",
            "  Command: cat /etc/passwd",
            "  Reason: File access denied (not whitelisted): /etc/passwd",
            "",
            "This operation was blocked by brushfire policy enforcement.",
            "Check the active profile for details.",
        ]
    );
}

fn ctx() -> EventContext {
    EventContext { timestamp: "2024-05-01T12:00:00+00:00".to_string(), program: Some("brush".to_string()), cwd: None }
}

#[test]
fn event_constructors() {
    let e = PolicyEvent::file_access("/a", FileAccessMode::Write, CheckResult::Denied, "r".to_string(), &ctx());
    assert_eq!(e.event_type, EventType::FileAccess);
    assert_eq!(e.action.operation, "write");
    assert_eq!(e.action.resource_type.as_deref(), Some("file"));
    assert_eq!(e.action.command.as_deref(), Some("brush"));
    assert_eq!(e.action.cwd, None);
    assert_eq!(e.session_id, "");
    assert_eq!(e.timestamp, "2024-05-01T12:00:00+00:00");
    assert!(e.policy_profile.is_none());

    let e = PolicyEvent::file_execution("/a.sh", CheckResult::Allowed, "ok".to_string(), &ctx());
    assert_eq!(e.event_type, EventType::Execution);
    assert_eq!(e.action.operation, "execute");
    assert_eq!(e.action.resource_type.as_deref(), Some("file"));
    assert!(e.action.args.is_none());

    let e = PolicyEvent::command_execution("/bin/ls", Some(vec!["-la".to_string()]), CheckResult::Allowed, "ok".to_string(), &ctx());
    assert_eq!(e.action.resource, "/bin/ls");
    assert_eq!(e.action.command.as_deref(), Some("/bin/ls"));
    assert_eq!(e.action.resource_type.as_deref(), Some("command"));
    assert_eq!(e.action.args, Some(vec!["-la".to_string()]));
}

#[test]
fn session_id_is_filled_only_when_empty() {
    let mut e = PolicyEvent::file_access("/a", FileAccessMode::Read, CheckResult::Allowed, "r".to_string(), &ctx());
    e.fill_session_id("sess-1");
    assert_eq!(e.session_id, "sess-1");
    e.fill_session_id("sess-2");
    assert_eq!(e.session_id, "sess-1");
}

#[test]
fn bearer_header() {
    assert_eq!(authorization_value("abc123"), "Bearer abc123");
    assert_eq!(authorization_value(""), "Bearer ");
}
