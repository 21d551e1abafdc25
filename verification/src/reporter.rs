//! Policy event reporting for observability.
//!
//! Events describe a policy check and its outcome. Where an event comes from
//! the process's environment (the time, the program name, the working
//! directory), the caller hands those values in as an [`EventContext`].
use vstd::prelude::*;
use crate::rules::FileAccessMode;
use crate::text::own;

verus! {

/// Type of policy event.
#[derive(Debug, Clone, Copy, PartialEq, Eq, Structural)]
pub enum EventType {
    /// File read/write access check.
    FileAccess,
    /// Command or file execution check.
    Execution,
    /// Network access check (future).
    NetworkCheck,
}

/// Result of a policy check.
#[derive(Debug, Clone, Copy, PartialEq, Eq, Structural)]
pub enum CheckResult {
    /// Operation was allowed.
    Allowed,
    /// Operation was denied.
    Denied,
}

/// Context about the action being checked.
#[derive(Debug, Clone)]
pub struct ActionContext {
    /// Resource being accessed (file path, command path, etc.).
    pub resource: String,
    /// Operation type: "read", "write", "execute".
    pub operation: String,
    /// Resource type: "file" or "command".
    pub resource_type: Option<String>,
    /// Command that triggered the check (if available).
    pub command: Option<String>,
    /// Command line arguments (for execution checks).
    pub args: Option<Vec<String>>,
    /// Current working directory.
    pub cwd: Option<String>,
}

/// A policy event that can be reported to external systems.
#[derive(Debug, Clone)]
pub struct PolicyEvent {
    /// Timestamp of the event in ISO 8601 format.
    pub timestamp: String,
    /// Session identifier for correlating events.
    pub session_id: String,
    /// Type of policy check.
    pub event_type: EventType,
    /// Details of the action being checked.
    pub action: ActionContext,
    /// Result of the policy check.
    pub result: CheckResult,
    /// Reason for the result (e.g., "file_blacklisted").
    pub reason: String,
    /// Path to the policy profile being used.
    pub policy_profile: Option<String>,
}

/// What an event takes from the process it is raised in.
#[derive(Debug, Clone)]
pub struct EventContext {
    /// The current time, in RFC 3339 form.
    pub timestamp: String,
    /// The program's name (its first command-line argument), if known.
    pub program: Option<String>,
    /// The current working directory, if known.
    pub cwd: Option<String>,
}

/// Trait for reporting policy events to external systems.
pub trait PolicyReporter: Send + Sync {
    /// Report a policy event.
    ///
    /// This should be non-blocking and should not fail even if the
    /// reporting mechanism is unavailable.
    fn report(&self, event: &PolicyEvent);
}

/// The operation name of an access mode.
pub open spec fn operation_name(mode: FileAccessMode) -> Seq<char> {
    match mode {
        FileAccessMode::Read => "read"@,
        FileAccessMode::Write => "write"@,
        FileAccessMode::Execute => "execute"@,
    }
}

/// The view of an optional string.
pub open spec fn opt_str(o: Option<String>) -> Option<Seq<char>> {
    match o {
        Some(s) => Some(s@),
        None => None,
    }
}

/// The fields every event built from a context shares: the context's time,
/// no session yet, no profile, and the context's working directory.
pub open spec fn from_context(e: PolicyEvent, ctx: EventContext) -> bool {
    &&& e.timestamp@ == ctx.timestamp@
    &&& e.session_id@ == Seq::<char>::empty()
    &&& e.policy_profile is None
    &&& opt_str(e.action.cwd) == opt_str(ctx.cwd)
}

fn copy_opt(o: &Option<String>) -> (r: Option<String>)
    ensures
        opt_str(r) == opt_str(*o),
{
    match o {
        Some(s) => Some(s.clone()),
        None => None,
    }
}

impl PolicyEvent {
    /// Create a new file access check event (read or write).
    pub fn file_access(
        resource: &str,
        mode: FileAccessMode,
        result: CheckResult,
        reason: String,
        ctx: &EventContext,
    ) -> (e: Self)
        ensures
            from_context(e, *ctx),
            e.event_type == EventType::FileAccess,
            e.action.resource@ == resource@,
            e.action.operation@ == operation_name(mode),
            opt_str(e.action.resource_type) == Some("file"@),
            opt_str(e.action.command) == opt_str(ctx.program),
            e.action.args is None,
            e.result == result,
            e.reason@ == reason@,
    {
        let operation = match mode {
            FileAccessMode::Read => own("read"),
            FileAccessMode::Write => own("write"),
            FileAccessMode::Execute => own("execute"),
        };
        PolicyEvent {
            timestamp: ctx.timestamp.clone(),
            session_id: String::new(),
            event_type: EventType::FileAccess,
            action: ActionContext {
                resource: own(resource),
                operation,
                resource_type: Some(own("file")),
                command: copy_opt(&ctx.program),
                args: None,
                cwd: copy_opt(&ctx.cwd),
            },
            result,
            reason,
            policy_profile: None,
        }
    }

    /// Create a new file execution check event.
    pub fn file_execution(resource: &str, result: CheckResult, reason: String, ctx: &EventContext) -> (e:
        Self)
        ensures
            from_context(e, *ctx),
            e.event_type == EventType::Execution,
            e.action.resource@ == resource@,
            e.action.operation@ == "execute"@,
            opt_str(e.action.resource_type) == Some("file"@),
            opt_str(e.action.command) == opt_str(ctx.program),
            e.action.args is None,
            e.result == result,
            e.reason@ == reason@,
    {
        PolicyEvent {
            timestamp: ctx.timestamp.clone(),
            session_id: String::new(),
            event_type: EventType::Execution,
            action: ActionContext {
                resource: own(resource),
                operation: own("execute"),
                resource_type: Some(own("file")),
                command: copy_opt(&ctx.program),
                args: None,
                cwd: copy_opt(&ctx.cwd),
            },
            result,
            reason,
            policy_profile: None,
        }
    }

    /// Create a new command execution check event.
    pub fn command_execution(
        command: &str,
        args: Option<Vec<String>>,
        result: CheckResult,
        reason: String,
        ctx: &EventContext,
    ) -> (e: Self)
        ensures
            from_context(e, *ctx),
            e.event_type == EventType::Execution,
            e.action.resource@ == command@,
            e.action.operation@ == "execute"@,
            opt_str(e.action.resource_type) == Some("command"@),
            opt_str(e.action.command) == Some(command@),
            e.action.args == args,
            e.result == result,
            e.reason@ == reason@,
    {
        PolicyEvent {
            timestamp: ctx.timestamp.clone(),
            session_id: String::new(),
            event_type: EventType::Execution,
            action: ActionContext {
                resource: own(command),
                operation: own("execute"),
                resource_type: Some(own("command")),
                command: Some(own(command)),
                args,
                cwd: copy_opt(&ctx.cwd),
            },
            result,
            reason,
            policy_profile: None,
        }
    }

    /// Give the event a session when it has none: a reporter's own session
    /// identifies the events raised without one.
    pub fn fill_session_id(&mut self, session_id: &str)
        ensures
            old(self).session_id@.len() == 0 ==> final(self).session_id@ == session_id@,
            old(self).session_id@.len() != 0 ==> final(self).session_id == old(self).session_id,
            final(self).timestamp == old(self).timestamp,
            final(self).event_type == old(self).event_type,
            final(self).action == old(self).action,
            final(self).result == old(self).result,
            final(self).reason == old(self).reason,
            final(self).policy_profile == old(self).policy_profile,
    {
        if self.session_id.as_str().is_empty() {
            self.session_id = own(session_id);
        }
    }
}

/// The `Authorization` header value a webhook reporter with an
/// authentication token sends: `Bearer <token>`.
pub fn authorization_value(token: &str) -> (r: String)
    ensures
        r@ == "Bearer "@ + token@,
{
    crate::text::string_of(&crate::text::concat(&crate::text::chars_of("Bearer "), &crate::text::chars_of(token)))
}

} // verus!
