//! Policy enforcement engine.
//!
//! The engine decides on already-canonicalised paths: the caller resolves the
//! tested path, and each filesystem rule's path, against the filesystem and
//! hands the results in. A rule whose path could not be resolved is compared
//! by its path as written.
use vstd::prelude::*;
use crate::error::PolicyViolation;
use crate::paths::{
    components, join, lexical_canonical, normalize_path, path_eq, path_equal, path_file_name, path_has_prefix,
    path_join, path_parent, path_starts_with, std_file_name, std_path_parent,
};
use crate::rules::{CommandRule, FileAccessMode, FilesystemRule, Policy, RuleAction, RuleKind};
use crate::reporter::{
    CheckResult, EventContext, EventType, PolicyEvent, PolicyReporter, from_context, operation_name,
    opt_str,
};
use crate::text::{chars_of, chars_of_string, own, string_of};

verus! {

/// Default policy mode.
#[derive(Debug, Clone, Copy, PartialEq, Eq, Structural)]
pub enum DefaultPolicy {
    /// Allow all access by default (permissive mode).
    AllowAll,
    /// Deny all access by default (restrictive mode, enabled by first whitelist).
    DenyAll,
}

/// The decision on a file access.
#[derive(Debug, Clone, Copy, PartialEq, Eq, Structural)]
pub enum FileDecision {
    /// Access is allowed.
    Allowed,
    /// A blacklist rule covers the path.
    Blacklisted,
    /// A read-only rule covers the path and the access writes.
    ReadOnly,
    /// A no-execution rule covers the path and the access executes.
    NoExec,
    /// Restrictive mode, and no whitelist rule covers the path.
    NotWhitelisted,
}

/// The decision on a process spawn, with the reason it was taken.
#[derive(Debug, Clone, Copy, PartialEq, Eq, Structural)]
pub enum SpawnDecision {
    /// A deny command rule matches the command, or a blacklist rule covers it.
    CommandBlacklisted,
    /// A no-execution rule covers the command.
    NoExec,
    /// An allow command rule, or a whitelist rule's path taken as a pattern,
    /// matches the command, and nothing denies it.
    CommandExplicitlyAllowed,
    /// Nothing matches, and commands are denied by default.
    CommandNotExplicitlyAllowed,
    /// Nothing matches, and commands are allowed by default.
    NoMatchingRules,
}

/// Policy enforcement engine.
pub struct PolicyEngine {
    policy: Policy,
    default_policy: DefaultPolicy,
    default_command_policy: DefaultPolicy,
    reporter: Option<std::sync::Arc<dyn PolicyReporter>>,
}

/// Some rule of the list is a whitelist rule.
pub open spec fn has_whitelist(rules: Seq<FilesystemRule>) -> bool {
    exists|i: int| 0 <= i < rules.len() && (#[trigger] rules[i]).kind_of() == RuleKind::Whitelist
}

/// Some command rule of the list allows.
pub open spec fn has_allow_rule(rules: Seq<CommandRule>) -> bool {
    exists|i: int| 0 <= i < rules.len() && (#[trigger] rules[i]).action == RuleAction::Allow
}

/// The default command mode of a policy: commands are denied by default once
/// the policy has a whitelist rule or an allow command rule.
pub open spec fn command_default(fs_rules: Seq<FilesystemRule>, commands: Seq<CommandRule>) -> DefaultPolicy {
    if has_whitelist(fs_rules) || has_allow_rule(commands) {
        DefaultPolicy::DenyAll
    } else {
        DefaultPolicy::AllowAll
    }
}

/// The device files whitelisted by default in restrictive mode.
pub open spec fn safe_dev_files() -> Seq<Seq<char>> {
    seq![
        "/dev/null"@,
        "/dev/zero"@,
        "/dev/urandom"@,
        "/dev/random"@,
        "/dev/stdin"@,
        "/dev/stdout"@,
        "/dev/stderr"@,
        "/dev/tty"@,
    ]
}

/// `after` is `before` followed by one non-recursive whitelist rule for each
/// safe device file, in order.
pub open spec fn with_safe_dev_rules(before: Seq<FilesystemRule>, after: Seq<FilesystemRule>) -> bool {
    &&& after.len() == before.len() + safe_dev_files().len()
    &&& after.take(before.len() as int) == before
    &&& forall|k: int|
        0 <= k < safe_dev_files().len() ==> {
            let r = #[trigger] after[before.len() + k];
            &&& r.kind_of() == RuleKind::Whitelist
            &&& r.path_of() == safe_dev_files()[k]
            &&& !r.recursive_of()
        }
}

/// The path a filesystem rule is compared with: its resolved form when the
/// caller supplied one, else the path as written.
pub open spec fn rule_target(
    rules: Seq<FilesystemRule>,
    resolved: Seq<Option<String>>,
    i: int,
) -> Seq<char> {
    if 0 <= i < resolved.len() && resolved[i] is Some {
        resolved[i]->0@
    } else {
        rules[i].path_of()
    }
}

/// A recursive rule covers every path under its target; another rule covers
/// exactly its target.
pub open spec fn path_matches(test: Seq<char>, target: Seq<char>, recursive: bool) -> bool {
    if recursive {
        path_starts_with(test, target)
    } else {
        path_eq(test, target)
    }
}

/// Rule `i` covers the tested path.
pub open spec fn rule_applies(
    rules: Seq<FilesystemRule>,
    resolved: Seq<Option<String>>,
    i: int,
    test: Seq<char>,
) -> bool {
    path_matches(test, rule_target(rules, resolved, i), rules[i].recursive_of())
}

/// Some rule of the given kind covers the tested path.
pub open spec fn covered_by(
    rules: Seq<FilesystemRule>,
    resolved: Seq<Option<String>>,
    kind: RuleKind,
    test: Seq<char>,
) -> bool {
    exists|i: int|
        0 <= i < rules.len() && (#[trigger] rules[i]).kind_of() == kind && rule_applies(
            rules,
            resolved,
            i,
            test,
        )
}

/// The decision on accessing `test` in `mode`: blacklist first, then
/// read-only for writes, then no-execution for executions, then the
/// whitelist in restrictive mode.
pub open spec fn file_decision(
    rules: Seq<FilesystemRule>,
    default_policy: DefaultPolicy,
    resolved: Seq<Option<String>>,
    test: Seq<char>,
    mode: FileAccessMode,
) -> FileDecision {
    if covered_by(rules, resolved, RuleKind::Blacklist, test) {
        FileDecision::Blacklisted
    } else if mode == FileAccessMode::Write && covered_by(
        rules,
        resolved,
        RuleKind::ReadOnly,
        test,
    ) {
        FileDecision::ReadOnly
    } else if mode == FileAccessMode::Execute && covered_by(
        rules,
        resolved,
        RuleKind::NoExec,
        test,
    ) {
        FileDecision::NoExec
    } else if default_policy == DefaultPolicy::DenyAll && !covered_by(
        rules,
        resolved,
        RuleKind::Whitelist,
        test,
    ) {
        FileDecision::NotWhitelisted
    } else {
        FileDecision::Allowed
    }
}

/// `r` is the result `check_file_access` gives for decision `d` on `path`.
pub open spec fn file_result_is(
    r: Result<(), PolicyViolation>,
    d: FileDecision,
    path: Seq<char>,
) -> bool {
    match d {
        FileDecision::Allowed => r is Ok,
        FileDecision::Blacklisted => r matches Err(PolicyViolation::FileBlacklisted(s)) && s@
            == path,
        FileDecision::ReadOnly => r matches Err(PolicyViolation::FileReadOnly(s)) && s@ == path,
        FileDecision::NoExec => r matches Err(PolicyViolation::NoExec(s)) && s@ == path,
        FileDecision::NotWhitelisted => r matches Err(PolicyViolation::FileNotWhitelisted(s))
            && s@ == path,
    }
}

/// `glob::Pattern::new` accepts the pattern.
pub uninterp spec fn glob_valid(pattern: Seq<char>) -> bool;

/// `Pattern::matches_path` of the pattern compiled from `pattern` holds of `path`.
pub uninterp spec fn glob_match(pattern: Seq<char>, path: Seq<char>) -> bool;

/// The pattern holds none of glob's special characters `*`, `?` and `[`.
pub open spec fn no_glob_metachars(pattern: Seq<char>) -> bool {
    forall|i: int|
        0 <= i < pattern.len() ==> #[trigger] pattern[i] != '*' && pattern[i] != '?' && pattern[i]
            != '['
}

/// Compiles `pattern` with `glob::Pattern::new` and, when that succeeds, tests
/// `path` with `Pattern::matches_path`; an invalid pattern matches nothing.
/// The contract names both results. Of them it states only what the glob
/// source shows for a pattern without `*`, `?` and `[`: such a pattern
/// compiles to literal characters, which on Unix match exactly the path
/// equal to the pattern.
#[verifier::external_body]
fn glob_matches(pattern: &str, path: &str) -> (r: bool)
    ensures
        r == (glob_valid(pattern@) && glob_match(pattern@, path@)),
        no_glob_metachars(pattern@) ==> r == (pattern@ == path@),
{
    match glob::Pattern::new(pattern) {
        Ok(p) => p.matches_path(std::path::Path::new(path)),
        Err(_) => false,
    }
}

/// A command rule's pattern matches the command path.
pub open spec fn command_matches(pattern: Seq<char>, path: Seq<char>) -> bool {
    glob_valid(pattern) && glob_match(pattern, path)
}

/// Some command rule with the given action matches `path`.
pub open spec fn command_rule_matches(rules: Seq<CommandRule>, action: RuleAction, path: Seq<char>) -> bool {
    exists|i: int|
        0 <= i < rules.len() && (#[trigger] rules[i]).action == action && command_matches(
            rules[i].pattern@,
            path,
        )
}

/// Some whitelist rule's path, taken as a glob pattern, matches `path`: a
/// whitelisted path allows executing the commands it names.
pub open spec fn whitelist_names(rules: Seq<FilesystemRule>, path: Seq<char>) -> bool {
    exists|i: int|
        0 <= i < rules.len() && (#[trigger] rules[i]).kind_of() == RuleKind::Whitelist
            && command_matches(rules[i].path_of(), path)
}

/// The decision on spawning the command at `path`. Denials come first,
/// whatever the order of the rules: a deny command rule that matches, or a
/// blacklist rule that covers the command, blacklists it; else a
/// no-execution rule that covers it refuses it. Then an allow command rule
/// or a whitelist rule's path that matches allows it. Otherwise the default
/// command mode decides.
pub open spec fn spawn_decision(
    commands: Seq<CommandRule>,
    fs_rules: Seq<FilesystemRule>,
    resolved: Seq<Option<String>>,
    default_command_policy: DefaultPolicy,
    path: Seq<char>,
) -> SpawnDecision {
    if command_rule_matches(commands, RuleAction::Deny, path) || covered_by(
        fs_rules,
        resolved,
        RuleKind::Blacklist,
        path,
    ) {
        SpawnDecision::CommandBlacklisted
    } else if covered_by(fs_rules, resolved, RuleKind::NoExec, path) {
        SpawnDecision::NoExec
    } else if command_rule_matches(commands, RuleAction::Allow, path) || whitelist_names(
        fs_rules,
        path,
    ) {
        SpawnDecision::CommandExplicitlyAllowed
    } else if default_command_policy == DefaultPolicy::DenyAll {
        SpawnDecision::CommandNotExplicitlyAllowed
    } else {
        SpawnDecision::NoMatchingRules
    }
}

/// The spawn decision denies the command.
pub open spec fn spawn_denied(d: SpawnDecision) -> bool {
    d == SpawnDecision::CommandBlacklisted || d == SpawnDecision::NoExec || d
        == SpawnDecision::CommandNotExplicitlyAllowed
}

/// `r` is the result `check_process_spawn` gives for decision `d` on `path`.
pub open spec fn spawn_result_is(r: Result<(), PolicyViolation>, d: SpawnDecision, path: Seq<char>) -> bool {
    match d {
        SpawnDecision::CommandBlacklisted => r matches Err(PolicyViolation::CommandBlocked(s))
            && s@ == path,
        SpawnDecision::CommandNotExplicitlyAllowed => r matches Err(
            PolicyViolation::CommandBlocked(s),
        ) && s@ == path,
        SpawnDecision::NoExec => r matches Err(PolicyViolation::NoExec(s)) && s@ == path,
        _ => r is Ok,
    }
}

/// Some deny command rule names `path` literally: its pattern is `path`,
/// which holds no glob special character.
pub open spec fn denied_by_name(rules: Seq<CommandRule>, path: Seq<char>) -> bool {
    &&& no_glob_metachars(path)
    &&& exists|m: int|
        0 <= m < rules.len() && #[trigger] rules[m].pattern@ == path && rules[m].action
            == RuleAction::Deny
}

/// What a file access decision is reported as: its result and reason.
pub open spec fn file_report(d: FileDecision) -> (CheckResult, Seq<char>) {
    match d {
        FileDecision::Allowed => (CheckResult::Allowed, "policy_check_passed"@),
        FileDecision::Blacklisted => (CheckResult::Denied, "file_blacklisted"@),
        FileDecision::NotWhitelisted => (CheckResult::Denied, "file_not_whitelisted"@),
        FileDecision::ReadOnly => (CheckResult::Denied, "file_readonly"@),
        FileDecision::NoExec => (CheckResult::Denied, "noexec_violation"@),
    }
}

/// What a spawn decision is reported as: its result and reason.
pub open spec fn spawn_report(d: SpawnDecision) -> (CheckResult, Seq<char>) {
    match d {
        SpawnDecision::CommandBlacklisted => (CheckResult::Denied, "command_blacklisted"@),
        SpawnDecision::NoExec => (CheckResult::Denied, "noexec_violation"@),
        SpawnDecision::CommandExplicitlyAllowed => (
            CheckResult::Allowed,
            "command_explicitly_allowed"@,
        ),
        SpawnDecision::CommandNotExplicitlyAllowed => (
            CheckResult::Denied,
            "command_not_explicitly_allowed"@,
        ),
        SpawnDecision::NoMatchingRules => (CheckResult::Allowed, "no_matching_rules"@),
    }
}

/// `e` is the event reported for file access decision `d` on `path`: an
/// execution event for an execute access, a file access event for a read or
/// a write, with the decision's result and reason.
pub open spec fn file_event_is(
    e: PolicyEvent,
    d: FileDecision,
    path: Seq<char>,
    mode: FileAccessMode,
    ctx: EventContext,
) -> bool {
    &&& from_context(e, ctx)
    &&& e.event_type == (if mode == FileAccessMode::Execute {
        EventType::Execution
    } else {
        EventType::FileAccess
    })
    &&& e.action.resource@ == path
    &&& e.action.operation@ == operation_name(mode)
    &&& opt_str(e.action.resource_type) == Some("file"@)
    &&& opt_str(e.action.command) == opt_str(ctx.program)
    &&& e.action.args is None
    &&& e.result == file_report(d).0
    &&& e.reason@ == file_report(d).1
}

/// `e` is the event reported for spawn decision `d` on the command at `path`
/// run with `args`.
pub open spec fn spawn_event_is(
    e: PolicyEvent,
    d: SpawnDecision,
    path: Seq<char>,
    args: Option<Vec<String>>,
    ctx: EventContext,
) -> bool {
    &&& from_context(e, ctx)
    &&& e.event_type == EventType::Execution
    &&& e.action.resource@ == path
    &&& e.action.operation@ == "execute"@
    &&& opt_str(e.action.resource_type) == Some("command"@)
    &&& opt_str(e.action.command) == Some(path)
    &&& e.action.args == args
    &&& e.result == spawn_report(d).0
    &&& e.reason@ == spawn_report(d).1
}

/// The event reported for a file access decision on `path` (see
/// [`file_event_is`]).
pub fn file_access_event(
    d: FileDecision,
    path: &str,
    mode: FileAccessMode,
    ctx: &EventContext,
) -> (e: PolicyEvent)
    ensures
        file_event_is(e, d, path@, mode, *ctx),
{
    let (result, reason) = match d {
        FileDecision::Allowed => (CheckResult::Allowed, "policy_check_passed"),
        FileDecision::Blacklisted => (CheckResult::Denied, "file_blacklisted"),
        FileDecision::NotWhitelisted => (CheckResult::Denied, "file_not_whitelisted"),
        FileDecision::ReadOnly => (CheckResult::Denied, "file_readonly"),
        FileDecision::NoExec => (CheckResult::Denied, "noexec_violation"),
    };
    match mode {
        FileAccessMode::Execute => PolicyEvent::file_execution(path, result, own(reason), ctx),
        _ => PolicyEvent::file_access(path, mode, result, own(reason), ctx),
    }
}

/// The event reported for a spawn decision on the command at `path`.
pub fn process_spawn_event(
    d: SpawnDecision,
    path: &str,
    args: Option<Vec<String>>,
    ctx: &EventContext,
) -> (e: PolicyEvent)
    ensures
        spawn_event_is(e, d, path@, args, *ctx),
{
    let (result, reason) = match d {
        SpawnDecision::CommandBlacklisted => (CheckResult::Denied, "command_blacklisted"),
        SpawnDecision::NoExec => (CheckResult::Denied, "noexec_violation"),
        SpawnDecision::CommandExplicitlyAllowed => (
            CheckResult::Allowed,
            "command_explicitly_allowed",
        ),
        SpawnDecision::CommandNotExplicitlyAllowed => (
            CheckResult::Denied,
            "command_not_explicitly_allowed",
        ),
        SpawnDecision::NoMatchingRules => (CheckResult::Allowed, "no_matching_rules"),
    };
    PolicyEvent::command_execution(path, args, result, own(reason), ctx)
}

/// The canonical form of `path`: what the filesystem resolved it to
/// (`direct`) when it could; else, when the path has a parent that resolved
/// (`parent_canonical`) and a last component, that component under the
/// resolved parent; else the path resolved lexically (against `cwd` when it
/// is relative).
pub open spec fn canonical_form(
    path: Seq<char>,
    direct: Option<Seq<char>>,
    parent_canonical: Option<Seq<char>>,
    cwd: Option<Seq<char>>,
) -> Seq<char> {
    match direct {
        Some(c) => c,
        None => if std_path_parent(path) is Some && parent_canonical is Some && std_file_name(
            path,
        ) is Some {
            join(parent_canonical->0, std_file_name(path)->0)
        } else {
            lexical_canonical(path, cwd)
        },
    }
}

impl PolicyEngine {
    /// The policy the engine enforces.
    pub closed spec fn policy_state(self) -> Policy {
        self.policy
    }

    /// The default mode for filesystem access.
    pub closed spec fn file_mode(self) -> DefaultPolicy {
        self.default_policy
    }

    /// The default mode for command execution.
    pub closed spec fn command_mode(self) -> DefaultPolicy {
        self.default_command_policy
    }

    /// Whether the engine reports its checks.
    pub closed spec fn reporting(self) -> bool {
        self.reporter is Some
    }

    /// The reporter the engine sends the events of its checks to, if any.
    pub closed spec fn reporter_of(self) -> Option<std::sync::Arc<dyn PolicyReporter>> {
        self.reporter
    }

    /// Set the policy reporter for observability; `None` stops reporting.
    pub fn with_reporter(self, reporter: Option<std::sync::Arc<dyn PolicyReporter>>) -> (e: Self)
        ensures
            e.policy_state() == self.policy_state(),
            e.file_mode() == self.file_mode(),
            e.command_mode() == self.command_mode(),
            e.reporting() == reporter is Some,
            e.reporter_of() == reporter,
    {
        let mut e = self;
        e.reporter = reporter;
        e
    }

    /// Set the policy reporter for observability (mutable version); `None`
    /// stops reporting.
    pub fn set_reporter(&mut self, reporter: Option<std::sync::Arc<dyn PolicyReporter>>)
        ensures
            final(self).policy_state() == old(self).policy_state(),
            final(self).file_mode() == old(self).file_mode(),
            final(self).command_mode() == old(self).command_mode(),
            final(self).reporting() == reporter is Some,
            final(self).reporter_of() == reporter,
    {
        self.reporter = reporter;
    }

    /// Create a new policy engine with the given policy.
    ///
    /// A whitelist rule switches filesystem access and command execution to
    /// restrictive mode, an allow command rule switches command execution to
    /// restrictive mode, and
    /// restrictive filesystem mode whitelists the safe device files unless
    /// the policy turned that off.
    pub fn new(policy: Policy) -> (e: Self)
        ensures
            e.file_mode() == (if has_whitelist(policy.filesystem_rules@) {
                DefaultPolicy::DenyAll
            } else {
                DefaultPolicy::AllowAll
            }),
            e.command_mode() == command_default(policy.filesystem_rules@, policy.command_rules@),
            e.file_mode() == DefaultPolicy::DenyAll && policy.enable_safe_dev_defaults
                ==> with_safe_dev_rules(
                policy.filesystem_rules@,
                e.policy_state().filesystem_rules@,
            ),
            !(e.file_mode() == DefaultPolicy::DenyAll && policy.enable_safe_dev_defaults)
                ==> e.policy_state().filesystem_rules@ == policy.filesystem_rules@,
            e.policy_state().command_rules@ == policy.command_rules@,
            e.policy_state().macros@ == policy.macros@,
            e.policy_state().enable_safe_dev_defaults == policy.enable_safe_dev_defaults,
            !e.reporting(),
            e.reporter_of() is None,
    {
        let mut policy = policy;
        let mut has_whitelist_rule = false;
        let mut i: usize = 0;
        while i < policy.filesystem_rules.len()
            invariant
                i <= policy.filesystem_rules.len(),
                has_whitelist_rule == exists|j: int|
                    0 <= j < i && (#[trigger] policy.filesystem_rules@[j]).kind_of()
                        == RuleKind::Whitelist,
            decreases policy.filesystem_rules.len() - i,
        {
            if policy.filesystem_rules[i].kind() == RuleKind::Whitelist {
                has_whitelist_rule = true;
            }
            i += 1;
        }
        let default_policy = if has_whitelist_rule {
            DefaultPolicy::DenyAll
        } else {
            DefaultPolicy::AllowAll
        };
        let mut has_allow = false;
        let mut j: usize = 0;
        while j < policy.command_rules.len()
            invariant
                j <= policy.command_rules.len(),
                has_allow == exists|k: int|
                    0 <= k < j && (#[trigger] policy.command_rules@[k]).action
                        == RuleAction::Allow,
            decreases policy.command_rules.len() - j,
        {
            if policy.command_rules[j].action == RuleAction::Allow {
                has_allow = true;
            }
            j += 1;
        }
        let default_command_policy = if has_whitelist_rule || has_allow {
            DefaultPolicy::DenyAll
        } else {
            DefaultPolicy::AllowAll
        };
        if default_policy == DefaultPolicy::DenyAll && policy.enable_safe_dev_defaults {
            Self::add_safe_dev_defaults(&mut policy);
        }
        PolicyEngine { policy, default_policy, default_command_policy, reporter: None }
    }

    /// Add the safe device files to the whitelist, as non-recursive rules.
    fn add_safe_dev_defaults(policy: &mut Policy)
        ensures
            with_safe_dev_rules(old(policy).filesystem_rules@, final(policy).filesystem_rules@),
            final(policy).command_rules@ == old(policy).command_rules@,
            final(policy).macros@ == old(policy).macros@,
            final(policy).enable_safe_dev_defaults == old(policy).enable_safe_dev_defaults,
    {
        let ghost before = policy.filesystem_rules@;
        let files = [
            "/dev/null",
            "/dev/zero",
            "/dev/urandom",
            "/dev/random",
            "/dev/stdin",
            "/dev/stdout",
            "/dev/stderr",
            "/dev/tty",
        ];
        assert(files@.map_values(|s: &str| s@) =~= safe_dev_files());
        let mut k: usize = 0;
        while k < 8
            invariant
                k <= 8,
                files@.map_values(|s: &str| s@) == safe_dev_files(),
                policy.filesystem_rules@.len() == before.len() + k,
                policy.filesystem_rules@.take(before.len() as int) == before,
                forall|m: int|
                    0 <= m < k ==> {
                        let r = #[trigger] policy.filesystem_rules@[before.len() + m];
                        &&& r.kind_of() == RuleKind::Whitelist
                        &&& r.path_of() == safe_dev_files()[m]
                        &&& !r.recursive_of()
                    },
                policy.command_rules@ == old(policy).command_rules@,
                policy.macros@ == old(policy).macros@,
                policy.enable_safe_dev_defaults == old(policy).enable_safe_dev_defaults,
            decreases 8 - k,
        {
            let path = own(files[k]);
            assert(files@.map_values(|s: &str| s@)[k as int] == files@[k as int]@);
            policy.add_filesystem_rule(FilesystemRule::Whitelist { path, recursive: false });
            k += 1;
        }
    }

    /// The policy the engine enforces.
    pub fn policy(&self) -> (p: &Policy)
        ensures
            *p == self.policy_state(),
    {
        &self.policy
    }

    /// The default mode for filesystem access.
    pub fn default_policy(&self) -> (d: DefaultPolicy)
        ensures
            d == self.file_mode(),
    {
        self.default_policy
    }

    /// Canonicalize a path, handling non-existent paths gracefully (see
    /// [`canonical_form`]). `direct` is what the filesystem resolved the path
    /// to, `parent_canonical` what it resolved the path's parent to, and
    /// `cwd` the working directory, each when known.
    pub fn canonicalize_path(
        path: &str,
        direct: Option<String>,
        parent_canonical: Option<String>,
        cwd: Option<String>,
    ) -> (r: String)
        ensures
            r@ == canonical_form(path@, opt_str(direct), opt_str(parent_canonical), opt_str(cwd)),
    {
        if let Some(c) = direct {
            return c;
        }
        if let Some(_parent) = path_parent(path) {
            if let Some(pc) = parent_canonical {
                if let Some(f) = path_file_name(path) {
                    return string_of(&path_join(&chars_of_string(&pc), &chars_of_string(&f)));
                }
            }
        }
        match cwd {
            Some(d) => normalize_path(path, Some(d.as_str())),
            None => normalize_path(path, None),
        }
    }

    /// Whether filesystem rule `i` covers the tested path.
    fn rule_applies_at(
        &self,
        i: usize,
        test: &Vec<char>,
        resolved: &Vec<Option<String>>,
    ) -> (r: bool)
        requires
            i < self.policy.filesystem_rules.len(),
        ensures
            r == rule_applies(self.policy.filesystem_rules@, resolved@, i as int, test@),
    {
        let rule = &self.policy.filesystem_rules[i];
        let target = if i < resolved.len() {
            match &resolved[i] {
                Some(c) => chars_of_string(c),
                None => chars_of_string(rule.path()),
            }
        } else {
            chars_of_string(rule.path())
        };
        if rule.recursive() {
            path_has_prefix(test, &target)
        } else {
            path_equal(test, &target)
        }
    }

    /// Whether some filesystem rule of the given kind covers the tested path.
    fn covered(&self, kind: RuleKind, test: &Vec<char>, resolved: &Vec<Option<String>>) -> (r:
        bool)
        ensures
            r == covered_by(self.policy.filesystem_rules@, resolved@, kind, test@),
    {
        let mut i: usize = 0;
        while i < self.policy.filesystem_rules.len()
            invariant
                i <= self.policy.filesystem_rules.len(),
                forall|j: int|
                    0 <= j < i ==> !((#[trigger] self.policy.filesystem_rules@[j]).kind_of()
                        == kind && rule_applies(
                        self.policy.filesystem_rules@,
                        resolved@,
                        j,
                        test@,
                    )),
            decreases self.policy.filesystem_rules.len() - i,
        {
            if self.policy.filesystem_rules[i].kind() == kind && self.rule_applies_at(
                i,
                test,
                resolved,
            ) {
                return true;
            }
            i += 1;
        }
        false
    }

    /// Decide whether accessing `canonical_path` in `mode` is allowed.
    ///
    /// `resolved_rule_paths[i]` is the canonical form of the path of filesystem
    /// rule `i`, or `None` when it could not be resolved.
    pub fn decide_file_access(
        &self,
        canonical_path: &str,
        resolved_rule_paths: &Vec<Option<String>>,
        mode: FileAccessMode,
    ) -> (d: FileDecision)
        ensures
            d == file_decision(
                self.policy_state().filesystem_rules@,
                self.file_mode(),
                resolved_rule_paths@,
                canonical_path@,
                mode,
            ),
    {
        let test = chars_of(canonical_path);
        if self.covered(RuleKind::Blacklist, &test, resolved_rule_paths) {
            return FileDecision::Blacklisted;
        }
        if mode == FileAccessMode::Write && self.covered(
            RuleKind::ReadOnly,
            &test,
            resolved_rule_paths,
        ) {
            return FileDecision::ReadOnly;
        }
        if mode == FileAccessMode::Execute && self.covered(
            RuleKind::NoExec,
            &test,
            resolved_rule_paths,
        ) {
            return FileDecision::NoExec;
        }
        if self.default_policy == DefaultPolicy::DenyAll && !self.covered(
            RuleKind::Whitelist,
            &test,
            resolved_rule_paths,
        ) {
            return FileDecision::NotWhitelisted;
        }
        FileDecision::Allowed
    }

    /// The result of a file access check together with the event it is
    /// reported with.
    pub fn evaluate_file_access(
        &self,
        canonical_path: &str,
        resolved_rule_paths: &Vec<Option<String>>,
        mode: FileAccessMode,
        ctx: &EventContext,
    ) -> (r: (Result<(), PolicyViolation>, PolicyEvent))
        ensures
            file_result_is(
                r.0,
                file_decision(
                    self.policy_state().filesystem_rules@,
                    self.file_mode(),
                    resolved_rule_paths@,
                    canonical_path@,
                    mode,
                ),
                canonical_path@,
            ),
            file_event_is(
                r.1,
                file_decision(
                    self.policy_state().filesystem_rules@,
                    self.file_mode(),
                    resolved_rule_paths@,
                    canonical_path@,
                    mode,
                ),
                canonical_path@,
                mode,
                *ctx,
            ),
    {
        let d = self.decide_file_access(canonical_path, resolved_rule_paths, mode);
        let event = file_access_event(d, canonical_path, mode, ctx);
        let result = match d {
            FileDecision::Allowed => Ok(()),
            FileDecision::Blacklisted => Err(PolicyViolation::FileBlacklisted(own(canonical_path))),
            FileDecision::ReadOnly => Err(PolicyViolation::FileReadOnly(own(canonical_path))),
            FileDecision::NoExec => Err(PolicyViolation::NoExec(own(canonical_path))),
            FileDecision::NotWhitelisted => Err(
                PolicyViolation::FileNotWhitelisted(own(canonical_path)),
            ),
        };
        (result, event)
    }

    /// Check if a file operation is allowed, and report the check, with the
    /// event [`PolicyEngine::evaluate_file_access`] gives, when a reporter is
    /// set.
    ///
    /// # Errors
    ///
    /// Returns a [`PolicyViolation`] naming `canonical_path` if the operation
    /// is denied by policy.
    pub fn check_file_access(
        &self,
        canonical_path: &str,
        resolved_rule_paths: &Vec<Option<String>>,
        mode: FileAccessMode,
        ctx: &EventContext,
    ) -> (r: Result<(), PolicyViolation>)
        ensures
            file_result_is(
                r,
                file_decision(
                    self.policy_state().filesystem_rules@,
                    self.file_mode(),
                    resolved_rule_paths@,
                    canonical_path@,
                    mode,
                ),
                canonical_path@,
            ),
    {
        let (result, event) = self.evaluate_file_access(canonical_path, resolved_rule_paths, mode, ctx);
        if let Some(reporter) = &self.reporter {
            reporter.report(&event);
        }
        result
    }

    /// Whether some command rule with the given action matches `path`.
    fn any_command_rule(&self, action: RuleAction, path: &str) -> (r: bool)
        ensures
            r == command_rule_matches(self.policy.command_rules@, action, path@),
            action == RuleAction::Deny && denied_by_name(self.policy.command_rules@, path@) ==> r,
    {
        let rules = &self.policy.command_rules;
        let mut i: usize = 0;
        while i < rules.len()
            invariant
                i <= rules.len(),
                rules@ == self.policy.command_rules@,
                forall|j: int|
                    0 <= j < i ==> !((#[trigger] rules@[j]).action == action && command_matches(
                        rules@[j].pattern@,
                        path@,
                    )),
                forall|j: int|
                    0 <= j < i ==> !((#[trigger] rules@[j]).action == action && rules@[j].pattern@
                        == path@ && no_glob_metachars(path@)),
            decreases rules.len() - i,
        {
            if rules[i].action == action && glob_matches(rules[i].pattern.as_str(), path) {
                return true;
            }
            i += 1;
        }
        false
    }

    /// Whether some whitelist rule's path, taken as a glob pattern, matches
    /// `path`.
    fn whitelist_names_command(&self, path: &str) -> (r: bool)
        ensures
            r == whitelist_names(self.policy.filesystem_rules@, path@),
    {
        let rules = &self.policy.filesystem_rules;
        let mut i: usize = 0;
        while i < rules.len()
            invariant
                i <= rules.len(),
                rules@ == self.policy.filesystem_rules@,
                forall|j: int|
                    0 <= j < i ==> !((#[trigger] rules@[j]).kind_of() == RuleKind::Whitelist
                        && command_matches(rules@[j].path_of(), path@)),
            decreases rules.len() - i,
        {
            if rules[i].kind() == RuleKind::Whitelist && glob_matches(rules[i].path().as_str(), path) {
                return true;
            }
            i += 1;
        }
        false
    }

    /// Decide whether spawning the command at `canonical_command_path` is
    /// allowed, and why (see [`spawn_decision`]). `resolved_rule_paths` are
    /// the canonical forms of the filesystem rules' paths, as for
    /// [`PolicyEngine::decide_file_access`].
    pub fn decide_process_spawn(
        &self,
        canonical_command_path: &str,
        resolved_rule_paths: &Vec<Option<String>>,
    ) -> (d: SpawnDecision)
        ensures
            d == spawn_decision(
                self.policy_state().command_rules@,
                self.policy_state().filesystem_rules@,
                resolved_rule_paths@,
                self.command_mode(),
                canonical_command_path@,
            ),
            denied_by_name(self.policy_state().command_rules@, canonical_command_path@) ==> d
                == SpawnDecision::CommandBlacklisted,
    {
        let test = chars_of(canonical_command_path);
        if self.any_command_rule(RuleAction::Deny, canonical_command_path) || self.covered(
            RuleKind::Blacklist,
            &test,
            resolved_rule_paths,
        ) {
            SpawnDecision::CommandBlacklisted
        } else if self.covered(RuleKind::NoExec, &test, resolved_rule_paths) {
            SpawnDecision::NoExec
        } else if self.any_command_rule(RuleAction::Allow, canonical_command_path)
            || self.whitelist_names_command(canonical_command_path) {
            SpawnDecision::CommandExplicitlyAllowed
        } else if self.default_command_policy == DefaultPolicy::DenyAll {
            SpawnDecision::CommandNotExplicitlyAllowed
        } else {
            SpawnDecision::NoMatchingRules
        }
    }

    /// The result of a process spawn check together with the event it is
    /// reported with.
    pub fn evaluate_process_spawn(
        &self,
        canonical_command_path: &str,
        resolved_rule_paths: &Vec<Option<String>>,
        args: Option<Vec<String>>,
        ctx: &EventContext,
    ) -> (r: (Result<(), PolicyViolation>, PolicyEvent))
        ensures
            spawn_result_is(
                r.0,
                spawn_decision(
                    self.policy_state().command_rules@,
                    self.policy_state().filesystem_rules@,
                    resolved_rule_paths@,
                    self.command_mode(),
                    canonical_command_path@,
                ),
                canonical_command_path@,
            ),
            spawn_event_is(
                r.1,
                spawn_decision(
                    self.policy_state().command_rules@,
                    self.policy_state().filesystem_rules@,
                    resolved_rule_paths@,
                    self.command_mode(),
                    canonical_command_path@,
                ),
                canonical_command_path@,
                args,
                *ctx,
            ),
            denied_by_name(self.policy_state().command_rules@, canonical_command_path@) ==> (r.0 matches Err(
                PolicyViolation::CommandBlocked(s),
            ) && s@ == canonical_command_path@),
    {
        let d = self.decide_process_spawn(canonical_command_path, resolved_rule_paths);
        let event = process_spawn_event(d, canonical_command_path, args, ctx);
        let result = match d {
            SpawnDecision::CommandBlacklisted => Err(
                PolicyViolation::CommandBlocked(own(canonical_command_path)),
            ),
            SpawnDecision::CommandNotExplicitlyAllowed => Err(
                PolicyViolation::CommandBlocked(own(canonical_command_path)),
            ),
            SpawnDecision::NoExec => Err(PolicyViolation::NoExec(own(canonical_command_path))),
            SpawnDecision::CommandExplicitlyAllowed => Ok(()),
            SpawnDecision::NoMatchingRules => Ok(()),
        };
        (result, event)
    }

    /// Check if a process spawn is allowed, and report the check, with the
    /// event [`PolicyEngine::evaluate_process_spawn`] gives, when a reporter
    /// is set.
    ///
    /// `args` are the command's arguments; they take no part in the decision
    /// and are only reported.
    ///
    /// # Errors
    ///
    /// Returns [`PolicyViolation::CommandBlocked`] naming the command if it is
    /// blacklisted or not allowed in restrictive mode, and
    /// [`PolicyViolation::NoExec`] if a no-execution rule covers it.
    pub fn check_process_spawn(
        &self,
        canonical_command_path: &str,
        resolved_rule_paths: &Vec<Option<String>>,
        args: Option<Vec<String>>,
        ctx: &EventContext,
    ) -> (r: Result<(), PolicyViolation>)
        ensures
            spawn_result_is(
                r,
                spawn_decision(
                    self.policy_state().command_rules@,
                    self.policy_state().filesystem_rules@,
                    resolved_rule_paths@,
                    self.command_mode(),
                    canonical_command_path@,
                ),
                canonical_command_path@,
            ),
            denied_by_name(self.policy_state().command_rules@, canonical_command_path@) ==> (r matches Err(
                PolicyViolation::CommandBlocked(s),
            ) && s@ == canonical_command_path@),
    {
        let (result, event) = self.evaluate_process_spawn(
            canonical_command_path,
            resolved_rule_paths,
            args,
            ctx,
        );
        if let Some(reporter) = &self.reporter {
            reporter.report(&event);
        }
        result
    }

    /// Add a blacklist rule dynamically to the policy.
    pub fn add_blacklist_rule(&mut self, path: String, recursive: bool)
        ensures
            final(self).policy_state().filesystem_rules@ == old(
                self,
            ).policy_state().filesystem_rules@.push(
                FilesystemRule::Blacklist { path, recursive },
            ),
            final(self).policy_state().command_rules@ == old(self).policy_state().command_rules@,
            final(self).file_mode() == old(self).file_mode(),
            final(self).command_mode() == old(self).command_mode(),
            final(self).reporter_of() == old(self).reporter_of(),
    {
        self.policy.add_filesystem_rule(FilesystemRule::Blacklist { path, recursive });
    }

    /// Add a filesystem rule dynamically to the policy.
    pub fn add_filesystem_rule(&mut self, rule: FilesystemRule)
        ensures
            final(self).policy_state().filesystem_rules@ == old(
                self,
            ).policy_state().filesystem_rules@.push(rule),
            final(self).policy_state().command_rules@ == old(self).policy_state().command_rules@,
            final(self).file_mode() == old(self).file_mode(),
            final(self).command_mode() == old(self).command_mode(),
            final(self).reporter_of() == old(self).reporter_of(),
    {
        self.policy.add_filesystem_rule(rule);
    }

    /// Add a command deny rule dynamically to the policy.
    pub fn add_command_deny_rule(&mut self, pattern: String)
        ensures
            final(self).policy_state().command_rules@ == old(
                self,
            ).policy_state().command_rules@.push(
                CommandRule { pattern, action: RuleAction::Deny },
            ),
            final(self).policy_state().filesystem_rules@ == old(
                self,
            ).policy_state().filesystem_rules@,
            final(self).file_mode() == old(self).file_mode(),
            final(self).command_mode() == old(self).command_mode(),
            final(self).reporter_of() == old(self).reporter_of(),
    {
        self.policy.add_command_rule(CommandRule { pattern, action: RuleAction::Deny });
    }

    /// Add a command allow rule dynamically to the policy.
    pub fn add_command_allow_rule(&mut self, pattern: String)
        ensures
            final(self).policy_state().command_rules@ == old(
                self,
            ).policy_state().command_rules@.push(
                CommandRule { pattern, action: RuleAction::Allow },
            ),
            final(self).policy_state().filesystem_rules@ == old(
                self,
            ).policy_state().filesystem_rules@,
            final(self).file_mode() == old(self).file_mode(),
            final(self).command_mode() == old(self).command_mode(),
            final(self).reporter_of() == old(self).reporter_of(),
    {
        self.policy.add_command_rule(CommandRule { pattern, action: RuleAction::Allow });
    }

    /// Check if command execution is in default-deny mode.
    pub fn is_command_default_deny(&self) -> (r: bool)
        ensures
            r == (self.command_mode() == DefaultPolicy::DenyAll),
    {
        self.default_command_policy == DefaultPolicy::DenyAll
    }
}

/// Deny takes precedence: a blacklist rule that covers a path denies every
/// access to it, whatever the other rules and the default mode say.
pub proof fn law_blacklist_takes_precedence(
    rules: Seq<FilesystemRule>,
    default_policy: DefaultPolicy,
    resolved: Seq<Option<String>>,
    test: Seq<char>,
    mode: FileAccessMode,
    i: int,
)
    requires
        0 <= i < rules.len(),
        rules[i].kind_of() == RuleKind::Blacklist,
        rule_applies(rules, resolved, i, test),
    ensures
        file_decision(rules, default_policy, resolved, test, mode) == FileDecision::Blacklisted,
{
    assert(covered_by(rules, resolved, RuleKind::Blacklist, test));
}

/// A read-only rule blocks writing to the paths it covers and nothing else:
/// reads and executions are never refused as read-only.
pub proof fn law_read_only_blocks_writes_only(
    rules: Seq<FilesystemRule>,
    default_policy: DefaultPolicy,
    resolved: Seq<Option<String>>,
    test: Seq<char>,
    mode: FileAccessMode,
)
    ensures
        mode != FileAccessMode::Write ==> file_decision(
            rules,
            default_policy,
            resolved,
            test,
            mode,
        ) != FileDecision::ReadOnly,
        mode == FileAccessMode::Write && !covered_by(rules, resolved, RuleKind::Blacklist, test)
            && covered_by(rules, resolved, RuleKind::ReadOnly, test) ==> file_decision(
            rules,
            default_policy,
            resolved,
            test,
            mode,
        ) == FileDecision::ReadOnly,
{
}

/// A no-execution rule blocks executing from the paths it covers and nothing
/// else: reads and writes are never refused as no-execution.
pub proof fn law_noexec_blocks_execution_only(
    rules: Seq<FilesystemRule>,
    default_policy: DefaultPolicy,
    resolved: Seq<Option<String>>,
    test: Seq<char>,
    mode: FileAccessMode,
)
    ensures
        mode != FileAccessMode::Execute ==> file_decision(
            rules,
            default_policy,
            resolved,
            test,
            mode,
        ) != FileDecision::NoExec,
        mode == FileAccessMode::Execute && !covered_by(rules, resolved, RuleKind::Blacklist, test)
            && covered_by(rules, resolved, RuleKind::NoExec, test) ==> file_decision(
            rules,
            default_policy,
            resolved,
            test,
            mode,
        ) == FileDecision::NoExec,
{
}

/// In restrictive mode only whitelisted paths are accessible; a whitelisted
/// path that no blacklist rule covers can always be read.
pub proof fn law_restrictive_mode_needs_whitelist(
    rules: Seq<FilesystemRule>,
    resolved: Seq<Option<String>>,
    test: Seq<char>,
    mode: FileAccessMode,
)
    ensures
        file_decision(rules, DefaultPolicy::DenyAll, resolved, test, mode)
            == FileDecision::Allowed ==> covered_by(rules, resolved, RuleKind::Whitelist, test),
        covered_by(rules, resolved, RuleKind::Whitelist, test) && !covered_by(
            rules,
            resolved,
            RuleKind::Blacklist,
            test,
        ) ==> file_decision(rules, DefaultPolicy::DenyAll, resolved, test, FileAccessMode::Read)
            == FileDecision::Allowed,
{
}

/// In permissive mode, a policy without blacklist, read-only and
/// no-execution rules allows every access.
pub proof fn law_permissive_mode_allows_all(
    rules: Seq<FilesystemRule>,
    resolved: Seq<Option<String>>,
    test: Seq<char>,
    mode: FileAccessMode,
)
    requires
        forall|i: int|
            0 <= i < rules.len() ==> (#[trigger] rules[i]).kind_of() == RuleKind::Whitelist,
    ensures
        file_decision(rules, DefaultPolicy::AllowAll, resolved, test, mode)
            == FileDecision::Allowed,
{
}

/// In restrictive mode with the safe defaults, each safe device file can be
/// read unless a blacklist rule covers it (when its rule is compared by the
/// path as written, or by a resolved path equal to it).
pub proof fn law_safe_dev_files_readable(
    before: Seq<FilesystemRule>,
    after: Seq<FilesystemRule>,
    resolved: Seq<Option<String>>,
    k: int,
)
    requires
        with_safe_dev_rules(before, after),
        0 <= k < safe_dev_files().len(),
        rule_target(after, resolved, before.len() + k) == safe_dev_files()[k],
        !covered_by(after, resolved, RuleKind::Blacklist, safe_dev_files()[k]),
    ensures
        file_decision(
            after,
            DefaultPolicy::DenyAll,
            resolved,
            safe_dev_files()[k],
            FileAccessMode::Read,
        ) == FileDecision::Allowed,
{
    let i = before.len() + k;
    assert(after[i].kind_of() == RuleKind::Whitelist);
    assert(rule_applies(after, resolved, i, safe_dev_files()[k]));
    assert(covered_by(after, resolved, RuleKind::Whitelist, safe_dev_files()[k]));
}

/// Denials win over allows for commands, whatever the order of the rules
/// and the default command mode: a spawn that a deny command rule matches,
/// or that a blacklist or no-execution rule covers, is refused.
pub proof fn law_command_denial_takes_precedence(
    commands: Seq<CommandRule>,
    fs_rules: Seq<FilesystemRule>,
    resolved: Seq<Option<String>>,
    default_command_policy: DefaultPolicy,
    path: Seq<char>,
)
    requires
        command_rule_matches(commands, RuleAction::Deny, path) || covered_by(
            fs_rules,
            resolved,
            RuleKind::Blacklist,
            path,
        ) || covered_by(fs_rules, resolved, RuleKind::NoExec, path),
    ensures
        spawn_denied(spawn_decision(commands, fs_rules, resolved, default_command_policy, path)),
{
}

/// A command that an allow command rule or a whitelist rule names, and that
/// nothing denies, may be spawned in either command mode.
pub proof fn law_named_command_is_allowed(
    commands: Seq<CommandRule>,
    fs_rules: Seq<FilesystemRule>,
    resolved: Seq<Option<String>>,
    default_command_policy: DefaultPolicy,
    path: Seq<char>,
)
    requires
        command_rule_matches(commands, RuleAction::Allow, path) || whitelist_names(fs_rules, path),
        !command_rule_matches(commands, RuleAction::Deny, path),
        !covered_by(fs_rules, resolved, RuleKind::Blacklist, path),
        !covered_by(fs_rules, resolved, RuleKind::NoExec, path),
    ensures
        !spawn_denied(spawn_decision(commands, fs_rules, resolved, default_command_policy, path)),
{
}

/// A command that no rule names, and that no blacklist or no-execution rule
/// covers, is refused exactly in restrictive command mode.
pub proof fn law_unnamed_command_follows_default(
    commands: Seq<CommandRule>,
    fs_rules: Seq<FilesystemRule>,
    resolved: Seq<Option<String>>,
    default_command_policy: DefaultPolicy,
    path: Seq<char>,
)
    requires
        forall|j: int| 0 <= j < commands.len() ==> !command_matches(#[trigger] commands[j].pattern@, path),
        !whitelist_names(fs_rules, path),
        !covered_by(fs_rules, resolved, RuleKind::Blacklist, path),
        !covered_by(fs_rules, resolved, RuleKind::NoExec, path),
    ensures
        spawn_denied(spawn_decision(commands, fs_rules, resolved, default_command_policy, path))
            == (default_command_policy == DefaultPolicy::DenyAll),
{
}

/// A report says what the check returned: a file access or a process spawn
/// is reported denied exactly when the check fails.
pub proof fn law_report_matches_outcome(
    r: Result<(), PolicyViolation>,
    d: FileDecision,
    path: Seq<char>,
    q: Result<(), PolicyViolation>,
    s: SpawnDecision,
)
    requires
        file_result_is(r, d, path),
        spawn_result_is(q, s, path),
    ensures
        (file_report(d).0 == CheckResult::Denied) <==> r is Err,
        (spawn_report(s).0 == CheckResult::Denied) <==> q is Err,
        (spawn_report(s).0 == CheckResult::Denied) <==> spawn_denied(s),
{
}

/// A rule appended to the list keeps every coverage the list had.
proof fn lemma_covered_by_push(
    rules: Seq<FilesystemRule>,
    x: FilesystemRule,
    resolved: Seq<Option<String>>,
    kind: RuleKind,
    test: Seq<char>,
)
    ensures
        covered_by(rules, resolved, kind, test) ==> covered_by(rules.push(x), resolved, kind, test),
        covered_by(rules.push(x), resolved, kind, test) && x.kind_of() != kind ==> covered_by(
            rules,
            resolved,
            kind,
            test,
        ),
{
    let r2 = rules.push(x);
    if covered_by(rules, resolved, kind, test) {
        let i = choose|i: int|
            0 <= i < rules.len() && (#[trigger] rules[i]).kind_of() == kind && rule_applies(
                rules,
                resolved,
                i,
                test,
            );
        assert(r2[i] == rules[i]);
        assert(rule_target(r2, resolved, i) == rule_target(rules, resolved, i));
        assert(rule_applies(r2, resolved, i, test));
    }
    if covered_by(r2, resolved, kind, test) && x.kind_of() != kind {
        let i = choose|i: int|
            0 <= i < r2.len() && (#[trigger] r2[i]).kind_of() == kind && rule_applies(
                r2,
                resolved,
                i,
                test,
            );
        assert(i < rules.len());
        assert(r2[i] == rules[i]);
        assert(rule_target(r2, resolved, i) == rule_target(rules, resolved, i));
        assert(rule_applies(rules, resolved, i, test));
    }
}

/// Adding a blacklist, read-only or no-execution rule never lets through an
/// access that was refused.
pub proof fn law_restricting_rule_refuses_no_less(
    rules: Seq<FilesystemRule>,
    default_policy: DefaultPolicy,
    resolved: Seq<Option<String>>,
    test: Seq<char>,
    mode: FileAccessMode,
    extra: FilesystemRule,
)
    requires
        extra.kind_of() != RuleKind::Whitelist,
    ensures
        file_decision(rules, default_policy, resolved, test, mode) != FileDecision::Allowed
            ==> file_decision(rules.push(extra), default_policy, resolved, test, mode)
            != FileDecision::Allowed,
{
    lemma_covered_by_push(rules, extra, resolved, RuleKind::Blacklist, test);
    lemma_covered_by_push(rules, extra, resolved, RuleKind::ReadOnly, test);
    lemma_covered_by_push(rules, extra, resolved, RuleKind::NoExec, test);
    lemma_covered_by_push(rules, extra, resolved, RuleKind::Whitelist, test);
}

/// Adding a whitelist rule never refuses an access that was allowed.
pub proof fn law_whitelisting_refuses_nothing_new(
    rules: Seq<FilesystemRule>,
    default_policy: DefaultPolicy,
    resolved: Seq<Option<String>>,
    test: Seq<char>,
    mode: FileAccessMode,
    extra: FilesystemRule,
)
    requires
        extra.kind_of() == RuleKind::Whitelist,
    ensures
        file_decision(rules, default_policy, resolved, test, mode) == FileDecision::Allowed
            ==> file_decision(rules.push(extra), default_policy, resolved, test, mode)
            == FileDecision::Allowed,
{
    lemma_covered_by_push(rules, extra, resolved, RuleKind::Blacklist, test);
    lemma_covered_by_push(rules, extra, resolved, RuleKind::ReadOnly, test);
    lemma_covered_by_push(rules, extra, resolved, RuleKind::NoExec, test);
    lemma_covered_by_push(rules, extra, resolved, RuleKind::Whitelist, test);
}

/// Adding a deny command rule never lets through a spawn that was refused,
/// and adding an allow command rule never refuses a spawn that was allowed.
pub proof fn law_added_command_rule_is_monotone(
    commands: Seq<CommandRule>,
    fs_rules: Seq<FilesystemRule>,
    resolved: Seq<Option<String>>,
    default_command_policy: DefaultPolicy,
    path: Seq<char>,
    extra: CommandRule,
)
    ensures
        extra.action == RuleAction::Deny && spawn_denied(
            spawn_decision(commands, fs_rules, resolved, default_command_policy, path),
        ) ==> spawn_denied(
            spawn_decision(commands.push(extra), fs_rules, resolved, default_command_policy, path),
        ),
        extra.action == RuleAction::Allow && !spawn_denied(
            spawn_decision(commands, fs_rules, resolved, default_command_policy, path),
        ) ==> !spawn_denied(
            spawn_decision(commands.push(extra), fs_rules, resolved, default_command_policy, path),
        ),
{
    let c2 = commands.push(extra);
    assert forall|a: RuleAction| command_rule_matches(commands, a, path) implies command_rule_matches(
        c2,
        a,
        path,
    ) by {
        let i = choose|i: int|
            0 <= i < commands.len() && (#[trigger] commands[i]).action == a && command_matches(
                commands[i].pattern@,
                path,
            );
        assert(c2[i] == commands[i]);
    }
    assert forall|a: RuleAction| command_rule_matches(c2, a, path) && extra.action != a implies command_rule_matches(
        commands,
        a,
        path,
    ) by {
        let i = choose|i: int|
            0 <= i < c2.len() && (#[trigger] c2[i]).action == a && command_matches(
                c2[i].pattern@,
                path,
            );
        assert(i < commands.len());
        assert(c2[i] == commands[i]);
    }
}

/// The default modes `PolicyEngine::new` gives an engine made from `p`:
/// restrictive file access when `p` has a whitelist rule, restrictive
/// command execution when it has a whitelist rule or an allow command rule.
pub open spec fn modes_from(e: PolicyEngine, p: Policy) -> bool {
    &&& e.file_mode() == (if has_whitelist(p.filesystem_rules@) {
        DefaultPolicy::DenyAll
    } else {
        DefaultPolicy::AllowAll
    })
    &&& e.command_mode() == command_default(p.filesystem_rules@, p.command_rules@)
}

/// `after` has the default modes of `before`; every `add_*` rule method,
/// `set_reporter`, `with_reporter` and the wrapper setup functions keep them.
pub open spec fn modes_kept(before: PolicyEngine, after: PolicyEngine) -> bool {
    after.file_mode() == before.file_mode() && after.command_mode() == before.command_mode()
}

/// The default modes are fixed when an engine is made: after `new(p)` and
/// any calls that keep the modes (every `add_*` rule method, `set_reporter`,
/// `with_reporter`, the wrapper setup), commands are denied by default
/// exactly when `p` has a whitelist rule or an allow command rule, and file
/// access exactly when `p` has a whitelist rule, whatever rules were added
/// since.
pub proof fn law_default_modes_fixed_at_creation(p: Policy, history: Seq<PolicyEngine>)
    requires
        history.len() > 0,
        modes_from(history[0], p),
        forall|i: int|
            0 <= i < history.len() - 1 ==> modes_kept(#[trigger] history[i], history[i + 1]),
    ensures
        modes_from(history.last(), p),
        (history.last().command_mode() == DefaultPolicy::DenyAll) == (has_whitelist(
            p.filesystem_rules@,
        ) || has_allow_rule(p.command_rules@)),
        (history.last().file_mode() == DefaultPolicy::DenyAll) == has_whitelist(
            p.filesystem_rules@,
        ),
    decreases history.len(),
{
    if history.len() > 1 {
        let init = history.drop_last();
        assert forall|i: int| 0 <= i < init.len() - 1 implies modes_kept(
            #[trigger] init[i],
            init[i + 1],
        ) by {
            assert(modes_kept(history[i], history[i + 1]));
        }
        law_default_modes_fixed_at_creation(p, init);
        assert(modes_kept(history[history.len() - 2], history[history.len() - 1]));
    }
}

/// A blacklist rule added to a policy refuses every access to its own path,
/// when the rule is compared by its path as written or by a resolved path
/// equal to it; and it lets through nothing that was refused before.
pub proof fn law_added_blacklist_refuses_its_path(
    rules: Seq<FilesystemRule>,
    default_policy: DefaultPolicy,
    resolved: Seq<Option<String>>,
    path: String,
    recursive: bool,
    test: Seq<char>,
    mode: FileAccessMode,
)
    requires
        rule_target(
            rules.push(FilesystemRule::Blacklist { path, recursive }),
            resolved,
            rules.len() as int,
        ) == path@,
    ensures
        file_decision(
            rules.push(FilesystemRule::Blacklist { path, recursive }),
            default_policy,
            resolved,
            path@,
            mode,
        ) == FileDecision::Blacklisted,
        file_decision(rules, default_policy, resolved, test, mode) != FileDecision::Allowed
            ==> file_decision(
            rules.push(FilesystemRule::Blacklist { path, recursive }),
            default_policy,
            resolved,
            test,
            mode,
        ) != FileDecision::Allowed,
{
    let r2 = rules.push(FilesystemRule::Blacklist { path, recursive });
    let n = rules.len() as int;
    assert(r2[n] == FilesystemRule::Blacklist { path, recursive });
    assert(components(path@).take(components(path@).len() as int) =~= components(path@));
    assert(rule_applies(r2, resolved, n, path@));
    law_blacklist_takes_precedence(r2, default_policy, resolved, path@, mode, n);
    law_restricting_rule_refuses_no_less(
        rules,
        default_policy,
        resolved,
        test,
        mode,
        FilesystemRule::Blacklist { path, recursive },
    );
}

/// A path that a whitelist rule covers, and that no blacklist, read-only or
/// no-execution rule covers, is accessible in every access mode (read,
/// write and execute), in restrictive mode as in permissive mode.
pub proof fn law_whitelisted_path_accessible_in_every_mode(
    rules: Seq<FilesystemRule>,
    default_policy: DefaultPolicy,
    resolved: Seq<Option<String>>,
    test: Seq<char>,
    mode: FileAccessMode,
)
    requires
        covered_by(rules, resolved, RuleKind::Whitelist, test),
        !covered_by(rules, resolved, RuleKind::Blacklist, test),
        !covered_by(rules, resolved, RuleKind::ReadOnly, test),
        !covered_by(rules, resolved, RuleKind::NoExec, test),
    ensures
        file_decision(rules, default_policy, resolved, test, mode) == FileDecision::Allowed,
{
}

/// A file access is refused only for a reason a rule gives: it is refused
/// as blacklisted exactly when a blacklist rule covers the path; as not
/// whitelisted only in restrictive mode and only when no whitelist rule
/// covers it; and it is allowed exactly when no blacklist rule covers the
/// path, no read-only rule covers a write, no no-execution rule covers an
/// execution, and the mode is permissive or a whitelist rule covers it.
pub proof fn law_refused_only_for_a_reason(
    rules: Seq<FilesystemRule>,
    default_policy: DefaultPolicy,
    resolved: Seq<Option<String>>,
    test: Seq<char>,
    mode: FileAccessMode,
)
    ensures
        (file_decision(rules, default_policy, resolved, test, mode) == FileDecision::Blacklisted)
            <==> covered_by(rules, resolved, RuleKind::Blacklist, test),
        file_decision(rules, default_policy, resolved, test, mode) == FileDecision::NotWhitelisted
            ==> default_policy == DefaultPolicy::DenyAll && !covered_by(
            rules,
            resolved,
            RuleKind::Whitelist,
            test,
        ),
        (file_decision(rules, default_policy, resolved, test, mode) == FileDecision::Allowed) <==> {
            &&& !covered_by(rules, resolved, RuleKind::Blacklist, test)
            &&& !(mode == FileAccessMode::Write && covered_by(
                rules,
                resolved,
                RuleKind::ReadOnly,
                test,
            ))
            &&& !(mode == FileAccessMode::Execute && covered_by(
                rules,
                resolved,
                RuleKind::NoExec,
                test,
            ))
            &&& (default_policy == DefaultPolicy::AllowAll || covered_by(
                rules,
                resolved,
                RuleKind::Whitelist,
                test,
            ))
        },
{
}

} // verus!
