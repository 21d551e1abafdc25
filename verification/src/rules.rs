//! Policy rule data structures.
use vstd::prelude::*;
use crate::paths::{path_eq, path_equal};
use crate::text::chars_of_string;
use crate::macros::MacroTable;

verus! {

/// Filesystem access control rules.
#[derive(Debug, Clone)]
pub enum FilesystemRule {
    /// Allow access to a path (recursive by default).
    Whitelist {
        /// Path to whitelist.
        path: String,
        /// Whether to apply recursively to subdirectories.
        recursive: bool,
    },
    /// Deny access to a path (recursive by default).
    Blacklist {
        /// Path to blacklist.
        path: String,
        /// Whether to apply recursively to subdirectories.
        recursive: bool,
    },
    /// Allow only read access to a path.
    ReadOnly {
        /// Path to make read-only.
        path: String,
        /// Whether to apply recursively to subdirectories.
        recursive: bool,
    },
    /// Prevent execution from a directory.
    NoExec {
        /// Directory where execution is forbidden.
        path: String,
        /// Whether to apply recursively to subdirectories.
        recursive: bool,
    },
}

/// Which of the four filesystem rules a rule is.
#[derive(Debug, Clone, Copy, PartialEq, Eq, Structural)]
pub enum RuleKind {
    /// A whitelist rule.
    Whitelist,
    /// A blacklist rule.
    Blacklist,
    /// A read-only rule.
    ReadOnly,
    /// A no-execution rule.
    NoExec,
}

impl FilesystemRule {
    /// The rule's kind.
    pub open spec fn kind_of(self) -> RuleKind {
        match self {
            FilesystemRule::Whitelist { .. } => RuleKind::Whitelist,
            FilesystemRule::Blacklist { .. } => RuleKind::Blacklist,
            FilesystemRule::ReadOnly { .. } => RuleKind::ReadOnly,
            FilesystemRule::NoExec { .. } => RuleKind::NoExec,
        }
    }

    /// The rule's path, as characters.
    pub open spec fn path_of(self) -> Seq<char> {
        match self {
            FilesystemRule::Whitelist { path, .. } => path@,
            FilesystemRule::Blacklist { path, .. } => path@,
            FilesystemRule::ReadOnly { path, .. } => path@,
            FilesystemRule::NoExec { path, .. } => path@,
        }
    }

    /// Whether the rule covers subdirectories.
    pub open spec fn recursive_of(self) -> bool {
        match self {
            FilesystemRule::Whitelist { recursive, .. } => recursive,
            FilesystemRule::Blacklist { recursive, .. } => recursive,
            FilesystemRule::ReadOnly { recursive, .. } => recursive,
            FilesystemRule::NoExec { recursive, .. } => recursive,
        }
    }

    /// The rule's kind.
    pub fn kind(&self) -> (k: RuleKind)
        ensures
            k == self.kind_of(),
    {
        match self {
            FilesystemRule::Whitelist { .. } => RuleKind::Whitelist,
            FilesystemRule::Blacklist { .. } => RuleKind::Blacklist,
            FilesystemRule::ReadOnly { .. } => RuleKind::ReadOnly,
            FilesystemRule::NoExec { .. } => RuleKind::NoExec,
        }
    }

    /// The rule's path.
    pub fn path(&self) -> (p: &String)
        ensures
            p@ == self.path_of(),
    {
        match self {
            FilesystemRule::Whitelist { path, .. } => path,
            FilesystemRule::Blacklist { path, .. } => path,
            FilesystemRule::ReadOnly { path, .. } => path,
            FilesystemRule::NoExec { path, .. } => path,
        }
    }

    /// Whether the rule covers subdirectories.
    pub fn recursive(&self) -> (r: bool)
        ensures
            r == self.recursive_of(),
    {
        match self {
            FilesystemRule::Whitelist { recursive, .. } => *recursive,
            FilesystemRule::Blacklist { recursive, .. } => *recursive,
            FilesystemRule::ReadOnly { recursive, .. } => *recursive,
            FilesystemRule::NoExec { recursive, .. } => *recursive,
        }
    }
}

/// Command execution control rules.
#[derive(Debug, Clone)]
pub struct CommandRule {
    /// Glob pattern matching command paths (e.g., "/bin/curl", "/usr/bin/*").
    pub pattern: String,
    /// Action to take when pattern matches.
    pub action: RuleAction,
}

/// Action to take when a rule matches.
#[derive(Debug, Clone, Copy, PartialEq, Eq, Structural)]
pub enum RuleAction {
    /// Allow the operation.
    Allow,
    /// Deny the operation.
    Deny,
}

/// File access mode for policy checks.
#[derive(Debug, Clone, Copy, PartialEq, Eq, Structural)]
pub enum FileAccessMode {
    /// Read access.
    Read,
    /// Write access.
    Write,
    /// Execute access.
    Execute,
}

/// The mathematical view of a filesystem rule.
pub struct FsRuleView {
    /// Which rule it is.
    pub kind: RuleKind,
    /// The rule's path.
    pub path: Seq<char>,
    /// Whether it covers subdirectories.
    pub recursive: bool,
}

impl View for FilesystemRule {
    type V = FsRuleView;

    open spec fn view(&self) -> FsRuleView {
        FsRuleView { kind: self.kind_of(), path: self.path_of(), recursive: self.recursive_of() }
    }
}

/// The mathematical view of a command rule.
pub struct CommandRuleView {
    /// The glob pattern.
    pub pattern: Seq<char>,
    /// The action.
    pub action: RuleAction,
}

impl View for CommandRule {
    type V = CommandRuleView;

    open spec fn view(&self) -> CommandRuleView {
        CommandRuleView { pattern: self.pattern@, action: self.action }
    }
}

/// The mathematical view of a policy.
pub struct PolicyView {
    /// Filesystem rules, in order.
    pub filesystem_rules: Seq<FsRuleView>,
    /// Command rules, in order.
    pub command_rules: Seq<CommandRuleView>,
    /// Macro definitions, in order.
    pub macros: MacroTable,
    /// Whether restrictive mode adds the safe `/dev` whitelist.
    pub enable_safe_dev_defaults: bool,
}

/// The views of a list of filesystem rules.
pub open spec fn fs_views(rules: Seq<FilesystemRule>) -> Seq<FsRuleView> {
    rules.map_values(|r: FilesystemRule| r@)
}

/// The views of a list of command rules.
pub open spec fn command_views(rules: Seq<CommandRule>) -> Seq<CommandRuleView> {
    rules.map_values(|r: CommandRule| r@)
}

/// The views of a list of macro definitions.
pub open spec fn macro_views(vars: Seq<(String, String)>) -> MacroTable {
    vars.map_values(|e: (String, String)| (e.0@, e.1@))
}

/// A complete policy loaded from one or more profiles.
#[derive(Debug)]
pub struct Policy {
    /// Filesystem access rules.
    pub filesystem_rules: Vec<FilesystemRule>,
    /// Command execution rules.
    pub command_rules: Vec<CommandRule>,
    /// Macro definitions for variable expansion, in definition order.
    pub macros: Vec<(String, String)>,
    /// Whether restrictive mode whitelists the safe `/dev` files
    /// (turned off by the `no-safe-dev-defaults` directive).
    pub enable_safe_dev_defaults: bool,
}

/// A rule is a blacklist rule for a path equal to `path`.
pub open spec fn is_blacklist_for(rule: FsRuleView, path: Seq<char>) -> bool {
    rule.kind == RuleKind::Blacklist && path_eq(rule.path, path)
}

/// The rules without the blacklist rules for `path`, in their order.
pub open spec fn without_blacklist(rules: Seq<FsRuleView>, path: Seq<char>) -> Seq<FsRuleView>
    decreases rules.len(),
{
    if rules.len() == 0 {
        seq![]
    } else {
        let rest = without_blacklist(rules.drop_last(), path);
        if is_blacklist_for(rules.last(), path) {
            rest
        } else {
            rest.push(rules.last())
        }
    }
}

impl View for Policy {
    type V = PolicyView;

    open spec fn view(&self) -> PolicyView {
        PolicyView {
            filesystem_rules: fs_views(self.filesystem_rules@),
            command_rules: command_views(self.command_rules@),
            macros: macro_views(self.macros@),
            enable_safe_dev_defaults: self.enable_safe_dev_defaults,
        }
    }
}

impl Policy {
    /// Create a new empty policy.
    pub fn new() -> (p: Self)
        ensures
            p.filesystem_rules@ == Seq::<FilesystemRule>::empty(),
            p.command_rules@ == Seq::<CommandRule>::empty(),
            p.macros@ == Seq::<(String, String)>::empty(),
            p.enable_safe_dev_defaults,
            p@.filesystem_rules == Seq::<FsRuleView>::empty(),
            p@.command_rules == Seq::<CommandRuleView>::empty(),
            p@.macros == Seq::<(Seq<char>, Seq<char>)>::empty(),
    {
        let p = Policy {
            filesystem_rules: Vec::new(),
            command_rules: Vec::new(),
            macros: Vec::new(),
            enable_safe_dev_defaults: true,
        };
        assert(p@.filesystem_rules =~= Seq::<FsRuleView>::empty());
        assert(p@.command_rules =~= Seq::<CommandRuleView>::empty());
        assert(p@.macros =~= Seq::<(Seq<char>, Seq<char>)>::empty());
        p
    }

    /// Add a filesystem rule to the policy.
    pub fn add_filesystem_rule(&mut self, rule: FilesystemRule)
        ensures
            final(self).filesystem_rules@ == old(self).filesystem_rules@.push(rule),
            final(self).command_rules@ == old(self).command_rules@,
            final(self).macros@ == old(self).macros@,
            final(self).enable_safe_dev_defaults == old(self).enable_safe_dev_defaults,
            final(self)@ == (PolicyView {
                filesystem_rules: old(self)@.filesystem_rules.push(rule@),
                ..old(self)@
            }),
    {
        let ghost r = rule@;
        self.filesystem_rules.push(rule);
        assert(fs_views(self.filesystem_rules@) =~= old(self)@.filesystem_rules.push(r));
    }

    /// Add a command rule to the policy.
    pub fn add_command_rule(&mut self, rule: CommandRule)
        ensures
            final(self).command_rules@ == old(self).command_rules@.push(rule),
            final(self).filesystem_rules@ == old(self).filesystem_rules@,
            final(self).macros@ == old(self).macros@,
            final(self).enable_safe_dev_defaults == old(self).enable_safe_dev_defaults,
            final(self)@ == (PolicyView {
                command_rules: old(self)@.command_rules.push(rule@),
                ..old(self)@
            }),
    {
        let ghost r = rule@;
        self.command_rules.push(rule);
        assert(command_views(self.command_rules@) =~= old(self)@.command_rules.push(r));
    }

    /// Remove blacklist rules for a path (noblacklist directive).
    pub fn remove_blacklist(&mut self, path: &String)
        ensures
            final(self)@.filesystem_rules == without_blacklist(
                old(self)@.filesystem_rules,
                path@,
            ),
            final(self).command_rules@ == old(self).command_rules@,
            final(self).macros@ == old(self).macros@,
            final(self).enable_safe_dev_defaults == old(self).enable_safe_dev_defaults,
    {
        let target = chars_of_string(path);
        let mut old_rules: Vec<FilesystemRule> = Vec::new();
        std::mem::swap(&mut old_rules, &mut self.filesystem_rules);
        let ghost old_s = old_rules@;
        let mut kept: Vec<FilesystemRule> = Vec::new();
        for rule in it: old_rules
            invariant
                it.seq() == old_s,
                target@ == path@,
                fs_views(kept@) == without_blacklist(fs_views(old_s.take(it.index() as int)), path@),
        {
            let ghost i = it.index() as int;
            proof {
                assert(fs_views(old_s.take(i + 1)).drop_last() =~= fs_views(old_s.take(i)));
                assert(fs_views(old_s.take(i + 1)).last() == old_s[i]@);
            }
            let drop = rule.kind() == RuleKind::Blacklist && path_equal(
                &chars_of_string(rule.path()),
                &target,
            );
            let ghost before = kept@;
            if !drop {
                kept.push(rule);
                assert(fs_views(kept@) =~= fs_views(before).push(old_s[i]@));
            }
        }
        proof {
            assert(old_s.take(old_s.len() as int) =~= old_s);
        }
        self.filesystem_rules = kept;
    }
}

/// `noblacklist`: after removing the blacklist rules for a path, none is left,
/// every other rule is kept, nothing new appears, and a list without such a
/// rule is left as it was.
pub proof fn law_noblacklist_removes_exactly_its_rules(rules: Seq<FsRuleView>, path: Seq<char>)
    ensures
        forall|i: int|
            0 <= i < without_blacklist(rules, path).len() ==> !is_blacklist_for(
                #[trigger] without_blacklist(rules, path)[i],
                path,
            ),
        forall|i: int|
            0 <= i < rules.len() && !is_blacklist_for(#[trigger] rules[i], path)
                ==> without_blacklist(rules, path).contains(rules[i]),
        forall|i: int|
            0 <= i < without_blacklist(rules, path).len() ==> rules.contains(
                #[trigger] without_blacklist(rules, path)[i],
            ),
        (forall|i: int| 0 <= i < rules.len() ==> !is_blacklist_for(#[trigger] rules[i], path))
            ==> without_blacklist(rules, path) == rules,
    decreases rules.len(),
{
    if rules.len() > 0 {
        let init = rules.drop_last();
        law_noblacklist_removes_exactly_its_rules(init, path);
        let rest = without_blacklist(init, path);
        assert forall|i: int|
            0 <= i < rules.len() && !is_blacklist_for(#[trigger] rules[i], path) implies without_blacklist(
            rules,
            path,
        ).contains(rules[i]) by {
            if i < rules.len() - 1 {
                assert(rules[i] == init[i]);
                let k = choose|k: int| 0 <= k < rest.len() && rest[k] == init[i];
                if !is_blacklist_for(rules.last(), path) {
                    assert(rest.push(rules.last())[k] == rules[i]);
                }
            } else {
                assert(rest.push(rules.last())[rest.len() as int] == rules[i]);
            }
        }
        assert forall|i: int|
            0 <= i < without_blacklist(rules, path).len() implies rules.contains(
            #[trigger] without_blacklist(rules, path)[i],
        ) by {
            if i < rest.len() {
                let k = choose|k: int| 0 <= k < init.len() && init[k] == rest[i];
                assert(rules[k] == init[k]);
            } else {
                assert(rules[rules.len() - 1] == rules.last());
            }
        }
        if forall|i: int| 0 <= i < rules.len() ==> !is_blacklist_for(#[trigger] rules[i], path) {
            assert forall|i: int| 0 <= i < init.len() implies !is_blacklist_for(
                #[trigger] init[i],
                path,
            ) by {
                assert(init[i] == rules[i]);
            }
            assert(!is_blacklist_for(rules[rules.len() - 1], path));
            assert(init.push(rules.last()) =~= rules);
        }
    }
}

/// The rules of a list whose kind is not blacklist, in order.
pub open spec fn non_blacklist_rules(rules: Seq<FsRuleView>) -> Seq<FsRuleView>
    decreases rules.len(),
{
    if rules.len() == 0 {
        seq![]
    } else if rules.last().kind != RuleKind::Blacklist {
        non_blacklist_rules(rules.drop_last()).push(rules.last())
    } else {
        non_blacklist_rules(rules.drop_last())
    }
}

/// The blacklist rules of a list whose path is not the same path as `path`,
/// in order.
pub open spec fn blacklists_for_other_paths(rules: Seq<FsRuleView>, path: Seq<char>) -> Seq<
    FsRuleView,
>
    decreases rules.len(),
{
    if rules.len() == 0 {
        seq![]
    } else if rules.last().kind == RuleKind::Blacklist && !path_eq(rules.last().path, path) {
        blacklists_for_other_paths(rules.drop_last(), path).push(rules.last())
    } else {
        blacklists_for_other_paths(rules.drop_last(), path)
    }
}

/// `noblacklist` removes blacklist rules only, and only for its path: every
/// whitelist, read-only and no-execution rule is kept, in order; every
/// blacklist rule for another path is kept, in order; no blacklist rule for
/// the path is left; and nothing else is left either.
pub proof fn law_noblacklist_removes_only_blacklists_for_its_path(
    rules: Seq<FsRuleView>,
    path: Seq<char>,
)
    ensures
        non_blacklist_rules(without_blacklist(rules, path)) == non_blacklist_rules(rules),
        blacklists_for_other_paths(without_blacklist(rules, path), path)
            == blacklists_for_other_paths(rules, path),
        forall|i: int|
            0 <= i < without_blacklist(rules, path).len() ==> !((#[trigger] without_blacklist(
                rules,
                path,
            )[i]).kind == RuleKind::Blacklist && path_eq(without_blacklist(rules, path)[i].path, path)),
        without_blacklist(rules, path).len() == non_blacklist_rules(rules).len()
            + blacklists_for_other_paths(rules, path).len(),
    decreases rules.len(),
{
    if rules.len() > 0 {
        let init = rules.drop_last();
        let last = rules.last();
        law_noblacklist_removes_only_blacklists_for_its_path(init, path);
        let w0 = without_blacklist(init, path);
        let w = without_blacklist(rules, path);
        if !(last.kind == RuleKind::Blacklist && path_eq(last.path, path)) {
            assert(w == w0.push(last));
            assert(w.drop_last() =~= w0);
            assert(w.last() == last);
            assert forall|i: int| 0 <= i < w.len() implies !((#[trigger] w[i]).kind
                == RuleKind::Blacklist && path_eq(w[i].path, path)) by {
                if i < w0.len() {
                    assert(w[i] == w0[i]);
                }
            }
        } else {
            assert(w == w0);
        }
    }
}

} // verus!
