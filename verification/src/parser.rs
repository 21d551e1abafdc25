//! Parser for profile files.
//!
//! Parsing a profile needs the filesystem: to read the profile and the
//! profiles it includes, to find which include candidate exists, and to
//! resolve the base of a `whitelist_exec` pattern. The parser is therefore a
//! state machine: [`ProfileParser::parse_file`] starts a parse, and each call
//! of [`ProfileParser::resume`] takes the answer to the last request and says
//! what is needed next, until the parse finishes or fails. Every decision is
//! taken here; the caller only performs the requested filesystem operation.
use vstd::prelude::*;
use crate::error::{ParseError, ParseErrorView, parse_error_text};
use crate::macros::{MacroEnvironment, MacroExpander, MacroTable, expand_all, opt_view, standard_macros};
use crate::paths::{is_absolute, join, path_is_absolute, path_join, path_parent, std_path_parent};
use crate::rules::{
    CommandRule, CommandRuleView, FilesystemRule, FsRuleView, Policy, PolicyView, RuleAction,
    RuleKind, command_views, fs_views, macro_views, without_blacklist,
};
use crate::text::{
    before_first, chars_of, chars_of_string, concat, decimal, decimal_of,
    first_index_of, has_prefix, join_space, join_with_space, lines, own, slice_of,
    split_lines, split_whitespace, starts_with, string_of, take_before, trim, trim_seq, vec_eq,
    words, lemma_first_index_of,
};

verus! {

/// Maximum include depth to prevent infinite recursion.
pub const MAX_INCLUDE_DEPTH: usize = 10;

/// A directive of a profile line.
#[derive(Debug)]
pub enum LineDirective {
    /// `whitelist PATH`.
    Whitelist(String),
    /// `blacklist PATH`.
    Blacklist(String),
    /// `noblacklist PATH`.
    NoBlacklist(String),
    /// `whitelist_exec PATTERN`.
    WhitelistExec(String),
    /// `read-only PATH`.
    ReadOnly(String),
    /// `noexec PATH`.
    NoExec(String),
    /// `include PATH`, with the path as written after macro expansion.
    Include(String),
    /// `no-safe-dev-defaults`.
    NoSafeDevDefaults,
}

/// What a profile line means.
pub enum LineView {
    /// Nothing: an empty line, a comment, or a directive this parser ignores.
    Skip,
    /// A directive that needs a path, given without one.
    MissingPath,
    /// `whitelist PATH`.
    Whitelist(Seq<char>),
    /// `blacklist PATH`.
    Blacklist(Seq<char>),
    /// `noblacklist PATH`.
    NoBlacklist(Seq<char>),
    /// `whitelist_exec PATTERN`.
    WhitelistExec(Seq<char>),
    /// `read-only PATH`.
    ReadOnly(Seq<char>),
    /// `noexec PATH`.
    NoExec(Seq<char>),
    /// `include PATH`.
    Include(Seq<char>),
    /// `no-safe-dev-defaults`.
    NoSafeDevDefaults,
}

impl View for LineDirective {
    type V = LineView;

    open spec fn view(&self) -> LineView {
        match self {
            LineDirective::Whitelist(p) => LineView::Whitelist(p@),
            LineDirective::Blacklist(p) => LineView::Blacklist(p@),
            LineDirective::NoBlacklist(p) => LineView::NoBlacklist(p@),
            LineDirective::WhitelistExec(p) => LineView::WhitelistExec(p@),
            LineDirective::ReadOnly(p) => LineView::ReadOnly(p@),
            LineDirective::NoExec(p) => LineView::NoExec(p@),
            LineDirective::Include(p) => LineView::Include(p@),
            LineDirective::NoSafeDevDefaults => LineView::NoSafeDevDefaults,
        }
    }
}

/// A line without its comment and surrounding whitespace.
pub open spec fn cleaned_line(l: Seq<char>) -> Seq<char> {
    trim_seq(before_first(l, '#'))
}

/// The meaning of a cleaned line: its first word names the directive, the
/// other words joined by single spaces and macro-expanded are the path.
pub open spec fn line_view(table: MacroTable, line: Seq<char>) -> LineView {
    let ws = words(line);
    if ws.len() == 0 {
        LineView::Skip
    } else {
        let kw = ws[0];
        let args = ws.skip(1);
        let path = expand_all(table, join_space(args));
        if kw == "whitelist"@ {
            if args.len() == 0 {
                LineView::MissingPath
            } else {
                LineView::Whitelist(path)
            }
        } else if kw == "blacklist"@ {
            if args.len() == 0 {
                LineView::MissingPath
            } else {
                LineView::Blacklist(path)
            }
        } else if kw == "noblacklist"@ {
            if args.len() == 0 {
                LineView::MissingPath
            } else {
                LineView::NoBlacklist(path)
            }
        } else if kw == "whitelist_exec"@ {
            if args.len() == 0 {
                LineView::MissingPath
            } else {
                LineView::WhitelistExec(path)
            }
        } else if kw == "read-only"@ {
            if args.len() == 0 {
                LineView::MissingPath
            } else {
                LineView::ReadOnly(path)
            }
        } else if kw == "noexec"@ {
            if args.len() == 0 {
                LineView::MissingPath
            } else {
                LineView::NoExec(path)
            }
        } else if kw == "include"@ {
            if args.len() == 0 {
                LineView::MissingPath
            } else {
                LineView::Include(path)
            }
        } else if kw == "no-safe-dev-defaults"@ {
            LineView::NoSafeDevDefaults
        } else {
            LineView::Skip
        }
    }
}

/// A path under one of the usual command directories.
pub open spec fn is_command_path_spec(p: Seq<char>) -> bool {
    ||| has_prefix(p, "/bin/"@)
    ||| has_prefix(p, "/usr/bin/"@)
    ||| has_prefix(p, "/usr/local/bin/"@)
    ||| has_prefix(p, "/sbin/"@)
    ||| has_prefix(p, "/usr/sbin/"@)
}

/// The policy after a directive: `blacklist` of a command path becomes a
/// command deny rule; `whitelist_exec` becomes a command allow rule; the
/// other path directives become recursive filesystem rules; `noblacklist`
/// removes blacklist rules; `no-safe-dev-defaults` turns off the safe
/// device defaults.
pub open spec fn apply_line(p: PolicyView, d: LineView) -> PolicyView {
    match d {
        LineView::Whitelist(path) => PolicyView {
            filesystem_rules: p.filesystem_rules.push(
                FsRuleView { kind: RuleKind::Whitelist, path, recursive: true },
            ),
            ..p
        },
        LineView::Blacklist(path) => if is_command_path_spec(path) {
            PolicyView {
                command_rules: p.command_rules.push(
                    CommandRuleView { pattern: path, action: RuleAction::Deny },
                ),
                ..p
            }
        } else {
            PolicyView {
                filesystem_rules: p.filesystem_rules.push(
                    FsRuleView { kind: RuleKind::Blacklist, path, recursive: true },
                ),
                ..p
            }
        },
        LineView::NoBlacklist(path) => PolicyView {
            filesystem_rules: without_blacklist(p.filesystem_rules, path),
            ..p
        },
        LineView::WhitelistExec(path) => PolicyView {
            command_rules: p.command_rules.push(
                CommandRuleView { pattern: path, action: RuleAction::Allow },
            ),
            ..p
        },
        LineView::ReadOnly(path) => PolicyView {
            filesystem_rules: p.filesystem_rules.push(
                FsRuleView { kind: RuleKind::ReadOnly, path, recursive: true },
            ),
            ..p
        },
        LineView::NoExec(path) => PolicyView {
            filesystem_rules: p.filesystem_rules.push(
                FsRuleView { kind: RuleKind::NoExec, path, recursive: true },
            ),
            ..p
        },
        LineView::NoSafeDevDefaults => PolicyView { enable_safe_dev_defaults: false, ..p },
        _ => p,
    }
}

/// The rules of an included policy appended to those of the including one.
pub open spec fn merge_included(parent: PolicyView, child: PolicyView) -> PolicyView {
    PolicyView {
        filesystem_rules: parent.filesystem_rules + child.filesystem_rules,
        command_rules: parent.command_rules + child.command_rules,
        ..parent
    }
}

/// A glob wildcard character: `*` or `?`.
pub open spec fn is_wildcard(c: char) -> bool {
    c == '*' || c == '?'
}

/// Position of the wildcard a pattern's base ends at: its first wildcard
/// character, `*` or `?`, whichever comes first.
pub open spec fn wildcard_position(p: Seq<char>) -> Option<int>
    decreases p.len(),
{
    if p.len() == 0 {
        None
    } else if is_wildcard(p[0]) {
        Some(0)
    } else {
        match wildcard_position(p.skip(1)) {
            Some(i) => Some(i + 1),
            None => None,
        }
    }
}

/// Characterisation of `wildcard_position`.
pub proof fn lemma_wildcard_position(p: Seq<char>)
    ensures
        wildcard_position(p) matches Some(i) ==> 0 <= i < p.len() && is_wildcard(p[i])
            && forall|j: int| 0 <= j < i ==> !is_wildcard(#[trigger] p[j]),
        wildcard_position(p) is None ==> forall|j: int|
            0 <= j < p.len() ==> !is_wildcard(#[trigger] p[j]),
    decreases p.len(),
{
    if p.len() > 0 && !is_wildcard(p[0]) {
        lemma_wildcard_position(p.skip(1));
        assert forall|j: int| 1 <= j < p.len() implies p[j] == p.skip(1)[j - 1] by {}
    }
}

/// The text without its trailing `/` characters.
pub open spec fn trim_end_slashes(s: Seq<char>) -> Seq<char>
    decreases s.len(),
{
    if s.len() > 0 && s.last() == '/' {
        trim_end_slashes(s.drop_last())
    } else {
        s
    }
}

/// The text without its leading `/` characters.
pub open spec fn trim_start_slashes(s: Seq<char>) -> Seq<char>
    decreases s.len(),
{
    if s.len() > 0 && s[0] == '/' {
        trim_start_slashes(s.skip(1))
    } else {
        s
    }
}

/// The path resolved to canonicalise a pattern: the base before its wildcard
/// (without trailing separators), or the whole pattern when it has none.
pub open spec fn canonicalization_target(p: Seq<char>) -> Seq<char> {
    match wildcard_position(p) {
        Some(i) => trim_end_slashes(p.take(i)),
        None => p,
    }
}

/// The canonical form of a pattern, given the resolution of its target.
pub open spec fn canonical_pattern(p: Seq<char>, resolved: Option<Seq<char>>) -> Option<Seq<char>> {
    match resolved {
        None => None,
        Some(c) => match wildcard_position(p) {
            Some(i) => Some(c + "/"@ + trim_start_slashes(p.skip(i))),
            None => Some(c),
        },
    }
}

/// Where an included profile is looked for, in order: an absolute path as it
/// is; a relative one next to the including profile, then in the system
/// profile directories.
pub open spec fn include_candidates(raw: Seq<char>, current_file: Seq<char>) -> Seq<Seq<char>> {
    if is_absolute(raw) {
        seq![raw]
    } else {
        let system = seq![join("/etc/firejail"@, raw), join("/etc/firejail/inc"@, raw)];
        match std_path_parent(current_file) {
            Some(parent) => seq![join(parent, raw)] + system,
            None => system,
        }
    }
}

/// A profile file being parsed.
pub struct FrameView {
    /// The file's path.
    pub file: Seq<char>,
    /// Its lines.
    pub lines: Seq<Seq<char>>,
    /// Number of lines read so far.
    pub next_line: nat,
    /// The policy built so far.
    pub policy: PolicyView,
    /// The cleaned text of the last line read.
    pub current: Seq<char>,
}

/// What the parser waits for.
pub enum PendingView {
    /// No parse is in progress.
    Idle,
    /// The content of the profile at the path.
    Read(Seq<char>),
    /// Leave to go on with the next line.
    Ready,
    /// Which include candidate exists, for the include path as written.
    Locate(Seq<char>, Seq<Seq<char>>),
    /// The resolution of a `whitelist_exec` pattern's target.
    Canonical(Seq<char>, Seq<char>),
}

/// The state of a parse.
pub struct ParserView {
    /// The macros profile paths are expanded with.
    pub macros: MacroTable,
    /// Current include depth.
    pub include_depth: nat,
    /// The profiles being parsed, the including ones first.
    pub frames: Seq<FrameView>,
    /// What the parser waits for.
    pub pending: PendingView,
}

/// A request of the parser.
pub enum ActionView {
    /// Read the profile at the path.
    ReadFile(Seq<char>),
    /// Say which of the paths is the first that exists.
    FindFirstExisting(Seq<Seq<char>>),
    /// Canonicalise the path.
    Canonicalize(Seq<char>),
    /// Call again to go on.
    Continue,
    /// The parse is done.
    Finished(PolicyView),
    /// The parse failed.
    Failed(ParseErrorView),
}

/// An answer to a request.
pub enum EventView {
    /// Go on.
    Proceed,
    /// The profile's content.
    FileContent(Seq<char>),
    /// Reading the profile failed, with this message.
    ReadFailed(Seq<char>),
    /// Index of the first existing candidate, if any.
    FoundAt(Option<nat>),
    /// The canonical path, if it could be resolved.
    CanonicalPath(Option<Seq<char>>),
}

/// `Line N: <line> - ` for an error on line `N`.
pub open spec fn line_context(line_number: nat, line: Seq<char>) -> Seq<char> {
    "Line "@ + decimal(line_number) + ": "@ + line + " - "@
}

/// An error raised while the given profiles are open, as reported: each open
/// profile, innermost first, wraps it with the line that was being handled.
pub open spec fn wrap_error(frames: Seq<FrameView>, e: ParseErrorView) -> ParseErrorView
    decreases frames.len(),
{
    if frames.len() == 0 {
        e
    } else {
        let f = frames.last();
        wrap_error(
            frames.drop_last(),
            ParseErrorView::InvalidFormat(line_context(f.next_line, f.current) + parse_error_text(e)),
        )
    }
}

/// The parse fails with `e`.
pub open spec fn fail(s: ParserView, e: ParseErrorView) -> (ParserView, ActionView) {
    (
        ParserView { frames: seq![], pending: PendingView::Idle, ..s },
        ActionView::Failed(wrap_error(s.frames, e)),
    )
}

/// A fresh policy for a profile: no rules, the parser's macros, safe device
/// defaults on.
pub open spec fn fresh_policy(macros: MacroTable) -> PolicyView {
    PolicyView {
        filesystem_rules: seq![],
        command_rules: seq![],
        macros,
        enable_safe_dev_defaults: true,
    }
}

/// Handle the next line of the innermost open profile, or close it.
pub open spec fn advance(s: ParserView) -> (ParserView, ActionView) {
    let top = s.frames.last();
    let below = s.frames.drop_last();
    if top.next_line >= top.lines.len() {
        if below.len() == 0 {
            (
                ParserView { frames: seq![], pending: PendingView::Idle, ..s },
                ActionView::Finished(top.policy),
            )
        } else {
            let parent = below.last();
            let merged = FrameView { policy: merge_included(parent.policy, top.policy), ..parent };
            (
                ParserView {
                    include_depth: (s.include_depth - 1) as nat,
                    frames: below.update(below.len() - 1, merged),
                    ..s
                },
                ActionView::Continue,
            )
        }
    } else {
        let c = cleaned_line(top.lines[top.next_line as int]);
        let read = FrameView { next_line: top.next_line + 1, current: c, ..top };
        let s1 = ParserView { frames: below.push(read), ..s };
        match line_view(s.macros, c) {
            LineView::Skip => (s1, ActionView::Continue),
            LineView::MissingPath => fail(
                s1,
                ParseErrorView::InvalidFormat("Missing path argument"@),
            ),
            LineView::Include(raw) => {
                let cands = include_candidates(raw, top.file);
                (
                    ParserView { pending: PendingView::Locate(raw, cands), ..s1 },
                    ActionView::FindFirstExisting(cands),
                )
            },
            LineView::WhitelistExec(p) => {
                let updated = FrameView { policy: apply_line(top.policy, LineView::WhitelistExec(p)), ..read };
                (
                    ParserView {
                        frames: below.push(updated),
                        pending: PendingView::Canonical(p, canonicalization_target(p)),
                        ..s
                    },
                    ActionView::Canonicalize(canonicalization_target(p)),
                )
            },
            d => {
                let updated = FrameView { policy: apply_line(top.policy, d), ..read };
                (ParserView { frames: below.push(updated), ..s }, ActionView::Continue)
            },
        }
    }
}

/// One transition of the parser on an answer. An answer that does not fit
/// the request leaves the state as it is and repeats the request.
pub open spec fn step(s: ParserView, e: EventView) -> (ParserView, ActionView) {
    match s.pending {
        PendingView::Idle => (s, ActionView::Continue),
        PendingView::Read(path) => match e {
            EventView::FileContent(c) => (
                ParserView {
                    frames: s.frames.push(
                        FrameView {
                            file: path,
                            lines: lines(c),
                            next_line: 0,
                            policy: fresh_policy(s.macros),
                            current: seq![],
                        },
                    ),
                    pending: PendingView::Ready,
                    ..s
                },
                ActionView::Continue,
            ),
            EventView::ReadFailed(m) => fail(s, ParseErrorView::Io(m)),
            _ => (s, ActionView::ReadFile(path)),
        },
        PendingView::Ready => match e {
            EventView::Proceed => advance(s),
            _ => (s, ActionView::Continue),
        },
        PendingView::Locate(raw, cands) => match e {
            EventView::FoundAt(Some(k)) => if k < cands.len() {
                let depth = s.include_depth + 1;
                if depth >= MAX_INCLUDE_DEPTH {
                    fail(
                        ParserView { include_depth: depth, ..s },
                        ParseErrorView::MaxIncludeDepth(MAX_INCLUDE_DEPTH),
                    )
                } else {
                    (
                        ParserView {
                            include_depth: depth,
                            pending: PendingView::Read(cands[k as int]),
                            ..s
                        },
                        ActionView::ReadFile(cands[k as int]),
                    )
                }
            } else {
                (s, ActionView::FindFirstExisting(cands))
            },
            EventView::FoundAt(None) => fail(s, ParseErrorView::IncludeNotFound(raw)),
            _ => (s, ActionView::FindFirstExisting(cands)),
        },
        PendingView::Canonical(p, target) => match e {
            EventView::CanonicalPath(r) => {
                let top = s.frames.last();
                let policy = match canonical_pattern(p, r) {
                    Some(c) => if c != p {
                        PolicyView {
                            command_rules: top.policy.command_rules.push(
                                CommandRuleView { pattern: c, action: RuleAction::Allow },
                            ),
                            ..top.policy
                        }
                    } else {
                        top.policy
                    },
                    None => top.policy,
                };
                (
                    ParserView {
                        frames: s.frames.drop_last().push(FrameView { policy, ..top }),
                        pending: PendingView::Ready,
                        ..s
                    },
                    ActionView::Continue,
                )
            },
            _ => (s, ActionView::Canonicalize(target)),
        },
    }
}

/// Starting a parse of the profile at `path`: refused at the maximum include
/// depth, else its content is requested. A parse in progress is abandoned.
pub open spec fn start(s: ParserView, path: Seq<char>) -> (ParserView, ActionView) {
    if s.include_depth >= MAX_INCLUDE_DEPTH {
        (
            ParserView { frames: seq![], pending: PendingView::Idle, ..s },
            ActionView::Failed(ParseErrorView::MaxIncludeDepth(MAX_INCLUDE_DEPTH)),
        )
    } else {
        (
            ParserView { frames: seq![], pending: PendingView::Read(path), ..s },
            ActionView::ReadFile(path),
        )
    }
}

/// The bounds every parser state keeps: no more profiles are open than the
/// include depth allows, and never more than `MAX_INCLUDE_DEPTH`.
pub open spec fn parser_wf(s: ParserView) -> bool {
    &&& s.include_depth <= MAX_INCLUDE_DEPTH
    &&& (s.frames.len() > 0 ==> s.include_depth < MAX_INCLUDE_DEPTH)
    &&& s.frames.len() <= s.include_depth + 1
    &&& s.frames.len() <= MAX_INCLUDE_DEPTH
    &&& (s.pending is Read ==> s.frames.len() <= s.include_depth && s.include_depth
        < MAX_INCLUDE_DEPTH)
    &&& (s.pending is Idle ==> s.frames.len() == 0)
    &&& (s.pending is Ready || s.pending is Locate || s.pending is Canonical ==> s.frames.len()
        > 0)
}

/// Every step keeps the bounds: at no point are more than
/// `MAX_INCLUDE_DEPTH` profiles open, so includes cannot recurse forever.
pub proof fn law_include_nesting_bounded(s: ParserView, e: EventView, path: Seq<char>)
    requires
        parser_wf(s),
    ensures
        parser_wf(step(s, e).0),
        parser_wf(start(s, path).0),
        step(s, e).0.frames.len() <= MAX_INCLUDE_DEPTH,
{
}

/// Everything from the first `#` of a line on is a comment: it changes
/// nothing of what the line means.
pub proof fn law_comment_is_ignored(table: MacroTable, code: Seq<char>, comment: Seq<char>)
    requires
        !code.contains('#'),
    ensures
        line_view(table, cleaned_line(code + "#"@ + comment)) == line_view(
            table,
            cleaned_line(code),
        ),
{
    reveal_strlit("#");
    let l = code + "#"@ + comment;
    let n = code.len() as int;
    assert(l[n] == '#');
    lemma_first_index_of(l, '#');
    lemma_first_index_of(code, '#');
    match first_index_of(l, '#') {
        Some(i) => {
            if i < n {
                assert(l[i] == code[i]);
                assert(code.contains('#'));
            }
            assert(i == n);
        },
        None => {},
    }
    match first_index_of(code, '#') {
        Some(i) => {
            assert(code.contains('#'));
        },
        None => {},
    }
    assert(l.take(n) =~= code);
}

/// A line whose handling needs no answer from the caller and cannot fail:
/// neither an `include`, nor a `whitelist_exec`, nor a directive without its
/// path.
pub open spec fn plain_line(table: MacroTable, l: Seq<char>) -> bool {
    let d = line_view(table, cleaned_line(l));
    !(d is Include) && !(d is WhitelistExec) && !(d is MissingPath)
}

/// The policy the lines make of `p`, applied first to last.
pub open spec fn profile_policy(table: MacroTable, p: PolicyView, ls: Seq<Seq<char>>) -> PolicyView
    decreases ls.len(),
{
    if ls.len() == 0 {
        p
    } else {
        profile_policy(table, apply_line(p, line_view(table, cleaned_line(ls[0]))), ls.skip(1))
    }
}

/// The state and the last request after answering `Proceed` `n` times.
pub open spec fn proceed_n(s: ParserView, n: nat) -> (ParserView, ActionView)
    decreases n,
{
    if n == 0 {
        (s, ActionView::Continue)
    } else if n == 1 {
        step(s, EventView::Proceed)
    } else {
        proceed_n(step(s, EventView::Proceed).0, (n - 1) as nat)
    }
}

proof fn lemma_plain_frame_runs_to_end(s: ParserView)
    requires
        s.frames.len() == 1,
        s.pending is Ready,
        s.frames[0].next_line <= s.frames[0].lines.len(),
        forall|i: int|
            s.frames[0].next_line <= i < s.frames[0].lines.len() ==> plain_line(
                s.macros,
                #[trigger] s.frames[0].lines[i],
            ),
    ensures
        proceed_n(s, (s.frames[0].lines.len() - s.frames[0].next_line + 1) as nat).1
            == ActionView::Finished(
            profile_policy(
                s.macros,
                s.frames[0].policy,
                s.frames[0].lines.subrange(s.frames[0].next_line as int, s.frames[0].lines.len() as int),
            ),
        ),
        proceed_n(s, (s.frames[0].lines.len() - s.frames[0].next_line + 1) as nat).0.pending is Idle,
    decreases s.frames[0].lines.len() - s.frames[0].next_line,
{
    let f = s.frames[0];
    let rest = f.lines.subrange(f.next_line as int, f.lines.len() as int);
    assert(s.frames.drop_last() =~= Seq::<FrameView>::empty());
    assert(s.frames.last() == f);
    if f.next_line < f.lines.len() {
        let c = cleaned_line(f.lines[f.next_line as int]);
        let d = line_view(s.macros, c);
        assert(plain_line(s.macros, f.lines[f.next_line as int]));
        let t = step(s, EventView::Proceed).0;
        let g = FrameView {
            next_line: f.next_line + 1,
            current: c,
            policy: apply_line(f.policy, d),
            ..f
        };
        assert(t.frames =~= seq![g]);
        assert(rest[0] == f.lines[f.next_line as int]);
        assert(rest.skip(1) =~= f.lines.subrange(f.next_line + 1int, f.lines.len() as int));
        lemma_plain_frame_runs_to_end(t);
    } else {
        assert(rest =~= Seq::<Seq<char>>::empty());
    }
}

/// A profile whose lines need no answer but `Proceed` parses, once its
/// content is given, to the policy its lines make of a fresh one, one line
/// after the other, and leaves the parser idle.
pub proof fn law_plain_profile_parses_to_its_lines(s: ParserView, path: Seq<char>, content: Seq<char>)
    requires
        parser_wf(s),
        s.include_depth < MAX_INCLUDE_DEPTH,
        forall|i: int| 0 <= i < lines(content).len() ==> plain_line(s.macros, #[trigger] lines(content)[i]),
    ensures
        start(s, path).1 == ActionView::ReadFile(path),
        step(start(s, path).0, EventView::FileContent(content)).1 == ActionView::Continue,
        proceed_n(
            step(start(s, path).0, EventView::FileContent(content)).0,
            lines(content).len() + 1,
        ).1 == ActionView::Finished(profile_policy(s.macros, fresh_policy(s.macros), lines(content))),
        proceed_n(
            step(start(s, path).0, EventView::FileContent(content)).0,
            lines(content).len() + 1,
        ).0.pending is Idle,
{
    let t = step(start(s, path).0, EventView::FileContent(content)).0;
    assert(t.frames.len() == 1);
    assert(lines(content).subrange(0, lines(content).len() as int) =~= lines(content));
    lemma_plain_frame_runs_to_end(t);
}

/// When an included profile has no line left, its rules are appended to the
/// rules the including profile had so far, nothing else of the including
/// profile changes, and the include depth drops back by one.
pub proof fn law_included_rules_follow_includer(s: ParserView)
    requires
        parser_wf(s),
        s.pending is Ready,
        s.frames.len() >= 2,
        s.frames.last().next_line >= s.frames.last().lines.len(),
    ensures
        step(s, EventView::Proceed).1 == ActionView::Continue,
        step(s, EventView::Proceed).0.include_depth == s.include_depth - 1,
        step(s, EventView::Proceed).0.frames.len() == s.frames.len() - 1,
        step(s, EventView::Proceed).0.frames.last().policy.filesystem_rules
            == s.frames[s.frames.len() - 2].policy.filesystem_rules
            + s.frames.last().policy.filesystem_rules,
        step(s, EventView::Proceed).0.frames.last().policy.command_rules
            == s.frames[s.frames.len() - 2].policy.command_rules
            + s.frames.last().policy.command_rules,
        step(s, EventView::Proceed).0.frames.last().next_line
            == s.frames[s.frames.len() - 2].next_line,
        step(s, EventView::Proceed).0.frames.last().file == s.frames[s.frames.len() - 2].file,
{
}

/// Executable `is_command_path_spec`: whether a blacklisted path is a command.
fn is_command_path(path: &Vec<char>) -> (r: bool)
    ensures
        r == is_command_path_spec(path@),
{
    starts_with(path, &chars_of("/bin/")) || starts_with(path, &chars_of("/usr/bin/"))
        || starts_with(path, &chars_of("/usr/local/bin/")) || starts_with(
        path,
        &chars_of("/sbin/"),
    ) || starts_with(path, &chars_of("/usr/sbin/"))
}

/// The path argument of a directive: the words after the first, joined by
/// single spaces, with macros expanded.
fn parse_path(macros: &MacroExpander, parts: &Vec<Vec<char>>) -> (r: Result<String, ParseError>)
    requires
        parts.len() >= 1,
    ensures
        r matches Ok(p) ==> parts.len() > 1 && p@ == expand_all(
            macros.table(),
            join_space(parts@.skip(1).map_values(|w: Vec<char>| w@)),
        ),
        r matches Err(e) ==> parts.len() == 1 && e@ == ParseErrorView::InvalidFormat(
            "Missing path argument"@,
        ),
{
    if parts.len() == 1 {
        return Err(ParseError::InvalidFormat(own("Missing path argument")));
    }
    let joined = string_of(&join_with_space(parts, 1));
    Ok(macros.expand(joined.as_str()))
}

/// Parse a single cleaned, non-empty directive line.
fn parse_directive(macros: &MacroExpander, line: &Vec<char>) -> (r: Result<
    Option<LineDirective>,
    ParseError,
>)
    ensures
        r matches Ok(None) ==> line_view(macros.table(), line@) is Skip,
        r matches Ok(Some(d)) ==> line_view(macros.table(), line@) == d@,
        r matches Err(e) ==> line_view(macros.table(), line@) is MissingPath && e@
            == ParseErrorView::InvalidFormat("Missing path argument"@),
{
    let parts = split_whitespace(line);
    let ghost ws = words(line@);
    if parts.len() == 0 {
        return Ok(None);
    }
    proof {
        assert(parts@.skip(1).map_values(|w: Vec<char>| w@) =~= ws.skip(1));
        assert(parts@[0]@ == ws[0]);
    }
    let kw = &parts[0];
    if vec_eq(kw, &chars_of("whitelist")) {
        let p = parse_path(macros, &parts)?;
        Ok(Some(LineDirective::Whitelist(p)))
    } else if vec_eq(kw, &chars_of("blacklist")) {
        let p = parse_path(macros, &parts)?;
        Ok(Some(LineDirective::Blacklist(p)))
    } else if vec_eq(kw, &chars_of("noblacklist")) {
        let p = parse_path(macros, &parts)?;
        Ok(Some(LineDirective::NoBlacklist(p)))
    } else if vec_eq(kw, &chars_of("whitelist_exec")) {
        let p = parse_path(macros, &parts)?;
        Ok(Some(LineDirective::WhitelistExec(p)))
    } else if vec_eq(kw, &chars_of("read-only")) {
        let p = parse_path(macros, &parts)?;
        Ok(Some(LineDirective::ReadOnly(p)))
    } else if vec_eq(kw, &chars_of("noexec")) {
        let p = parse_path(macros, &parts)?;
        Ok(Some(LineDirective::NoExec(p)))
    } else if vec_eq(kw, &chars_of("include")) {
        let p = parse_path(macros, &parts)?;
        Ok(Some(LineDirective::Include(p)))
    } else if vec_eq(kw, &chars_of("no-safe-dev-defaults")) {
        Ok(Some(LineDirective::NoSafeDevDefaults))
    } else {
        Ok(None)
    }
}

/// Apply a directive to the policy (an include adds nothing by itself).
fn apply_directive(policy: &mut Policy, directive: LineDirective)
    ensures
        final(policy)@ == apply_line(old(policy)@, directive@),
{
    match directive {
        LineDirective::Whitelist(path) => {
            policy.add_filesystem_rule(FilesystemRule::Whitelist { path, recursive: true });
        },
        LineDirective::Blacklist(path) => {
            if is_command_path(&chars_of_string(&path)) {
                policy.add_command_rule(CommandRule { pattern: path, action: RuleAction::Deny });
            } else {
                policy.add_filesystem_rule(FilesystemRule::Blacklist { path, recursive: true });
            }
        },
        LineDirective::NoBlacklist(path) => {
            policy.remove_blacklist(&path);
        },
        LineDirective::WhitelistExec(path) => {
            policy.add_command_rule(CommandRule { pattern: path, action: RuleAction::Allow });
        },
        LineDirective::ReadOnly(path) => {
            policy.add_filesystem_rule(FilesystemRule::ReadOnly { path, recursive: true });
        },
        LineDirective::NoExec(path) => {
            policy.add_filesystem_rule(FilesystemRule::NoExec { path, recursive: true });
        },
        LineDirective::Include(_) => {},
        LineDirective::NoSafeDevDefaults => {
            policy.enable_safe_dev_defaults = false;
        },
    }
}

/// Executable `wildcard_position`.
fn find_wildcard(p: &Vec<char>) -> (r: Option<usize>)
    ensures
        r matches Some(i) ==> wildcard_position(p@) == Some(i as int),
        r is None ==> wildcard_position(p@) is None,
{
    proof {
        lemma_wildcard_position(p@);
    }
    let mut i: usize = 0;
    while i < p.len()
        invariant
            i <= p.len(),
            forall|j: int| 0 <= j < i ==> !is_wildcard(#[trigger] p@[j]),
            wildcard_position(p@) matches Some(k) ==> 0 <= k < p.len() && is_wildcard(p@[k])
                && forall|j: int| 0 <= j < k ==> !is_wildcard(#[trigger] p@[j]),
            wildcard_position(p@) is None ==> forall|j: int|
                0 <= j < p.len() ==> !is_wildcard(#[trigger] p@[j]),
        decreases p.len() - i,
    {
        if p[i] == '*' || p[i] == '?' {
            proof {
                if let Some(k) = wildcard_position(p@) {
                    if k < i {
                        assert(!is_wildcard(p@[k]));
                    } else if k > i {
                        assert(!is_wildcard(p@[i as int]));
                    }
                } else {
                    assert(!is_wildcard(p@[i as int]));
                }
            }
            return Some(i);
        }
        i += 1;
    }
    None
}

/// Executable `trim_end_slashes`.
fn trim_trailing_slashes(s: &Vec<char>) -> (r: Vec<char>)
    ensures
        r@ == trim_end_slashes(s@),
{
    let mut n: usize = s.len();
    assert(s@.subrange(0, n as int) =~= s@);
    while n > 0 && s[n - 1] == '/'
        invariant
            n <= s.len(),
            trim_end_slashes(s@) == trim_end_slashes(s@.subrange(0, n as int)),
        decreases n,
    {
        assert(s@.subrange(0, n as int).drop_last() =~= s@.subrange(0, n - 1));
        n -= 1;
    }
    slice_of(s, 0, n)
}

/// Executable `trim_start_slashes`.
fn trim_leading_slashes(s: &Vec<char>) -> (r: Vec<char>)
    ensures
        r@ == trim_start_slashes(s@),
{
    let mut n: usize = 0;
    assert(s@.subrange(0, s.len() as int) =~= s@);
    while n < s.len() && s[n] == '/'
        invariant
            n <= s.len(),
            trim_start_slashes(s@) == trim_start_slashes(s@.subrange(n as int, s.len() as int)),
        decreases s.len() - n,
    {
        assert(s@.subrange(n as int, s.len() as int).skip(1) =~= s@.subrange(
            n + 1,
            s.len() as int,
        ));
        n += 1;
    }
    slice_of(s, n, s.len())
}

/// The path to resolve in order to canonicalise a pattern.
fn canonicalization_target_of(p: &Vec<char>) -> (r: Vec<char>)
    ensures
        r@ == canonicalization_target(p@),
{
    match find_wildcard(p) {
        Some(i) => {
            proof {
                lemma_wildcard_position(p@);
            }
            trim_trailing_slashes(&slice_of(p, 0, i))
        },
        None => p.clone(),
    }
}

/// Rebuild a pattern on the canonical form of its base: the canonical base,
/// a separator, and the pattern from its wildcard on; without a wildcard the
/// canonical path itself.
fn canonicalize_pattern(p: &Vec<char>, resolved: Option<String>) -> (r: Option<Vec<char>>)
    ensures
        match r {
            Some(v) => canonical_pattern(p@, opt_view(resolved)) == Some(v@),
            None => canonical_pattern(p@, opt_view(resolved)) is None,
        },
{
    match resolved {
        None => None,
        Some(c) => match find_wildcard(p) {
            Some(i) => {
                proof {
                    lemma_wildcard_position(p@);
                }
                let base = concat(&chars_of_string(&c), &chars_of("/"));
                let tail = trim_leading_slashes(&slice_of(p, i, p.len()));
                assert(p@.subrange(i as int, p.len() as int) =~= p@.skip(i as int));
                Some(concat(&base, &tail))
            },
            None => Some(chars_of_string(&c)),
        },
    }
}

/// The views of a list of strings.
pub open spec fn string_views(v: Seq<String>) -> Seq<Seq<char>> {
    v.map_values(|s: String| s@)
}

/// Executable `include_candidates`.
fn include_candidates_of(raw: &String, current_file: &String) -> (r: Vec<String>)
    ensures
        string_views(r@) == include_candidates(raw@, current_file@),
{
    let raw_v = chars_of_string(raw);
    let mut r: Vec<String> = Vec::new();
    if path_is_absolute(&raw_v) {
        r.push(raw.clone());
        assert(string_views(r@) =~= include_candidates(raw@, current_file@));
        return r;
    }
    match path_parent(current_file.as_str()) {
        Some(parent) => {
            r.push(string_of(&path_join(&chars_of_string(&parent), &raw_v)));
        },
        None => {},
    }
    r.push(string_of(&path_join(&chars_of("/etc/firejail"), &raw_v)));
    r.push(string_of(&path_join(&chars_of("/etc/firejail/inc"), &raw_v)));
    assert(string_views(r@) =~= include_candidates(raw@, current_file@));
    r
}

/// A copy of a list of strings.
fn clone_strings(v: &Vec<String>) -> (r: Vec<String>)
    ensures
        string_views(r@) == string_views(v@),
{
    let mut r: Vec<String> = Vec::new();
    let mut i: usize = 0;
    while i < v.len()
        invariant
            i <= v.len(),
            r.len() == i,
            forall|j: int| 0 <= j < i ==> (#[trigger] r@[j])@ == v@[j]@,
        decreases v.len() - i,
    {
        let c = v[i].clone();
        r.push(c);
        i += 1;
    }
    assert(string_views(r@) =~= string_views(v@));
    r
}

/// A copy of a list of macro definitions.
fn clone_macros(v: &Vec<(String, String)>) -> (r: Vec<(String, String)>)
    ensures
        macro_views(r@) == macro_views(v@),
{
    let mut r: Vec<(String, String)> = Vec::new();
    let mut i: usize = 0;
    while i < v.len()
        invariant
            i <= v.len(),
            r.len() == i,
            forall|j: int| 0 <= j < i ==> (#[trigger] r@[j]).0@ == v@[j].0@ && r@[j].1@ == v@[j].1@,
        decreases v.len() - i,
    {
        let a = v[i].0.clone();
        let b = v[i].1.clone();
        r.push((a, b));
        i += 1;
    }
    assert(macro_views(r@) =~= macro_views(v@));
    r
}

/// A profile file being parsed.
struct ParseFrame {
    file: String,
    lines: Vec<Vec<char>>,
    next_line: usize,
    policy: Policy,
    current: Vec<char>,
}

impl View for ParseFrame {
    type V = FrameView;

    closed spec fn view(&self) -> FrameView {
        FrameView {
            file: self.file@,
            lines: self.lines@.map_values(|l: Vec<char>| l@),
            next_line: self.next_line as nat,
            policy: self.policy@,
            current: self.current@,
        }
    }
}

/// The views of a list of frames.
spec fn frame_views(v: Seq<ParseFrame>) -> Seq<FrameView> {
    v.map_values(|f: ParseFrame| f@)
}

/// What the parser waits for.
enum Pending {
    Idle,
    Read(String),
    Ready,
    Locate(String, Vec<String>),
    Canonical(Vec<char>, Vec<char>),
}

impl View for Pending {
    type V = PendingView;

    closed spec fn view(&self) -> PendingView {
        match self {
            Pending::Idle => PendingView::Idle,
            Pending::Read(p) => PendingView::Read(p@),
            Pending::Ready => PendingView::Ready,
            Pending::Locate(raw, cands) => PendingView::Locate(raw@, string_views(cands@)),
            Pending::Canonical(p, t) => PendingView::Canonical(p@, t@),
        }
    }
}

/// The whole state of a parse.
struct ParserState {
    macros: MacroExpander,
    include_depth: usize,
    frames: Vec<ParseFrame>,
    pending: Pending,
}

impl View for ParserState {
    type V = ParserView;

    closed spec fn view(&self) -> ParserView {
        ParserView {
            macros: self.macros.table(),
            include_depth: self.include_depth as nat,
            frames: frame_views(self.frames@),
            pending: self.pending@,
        }
    }
}

/// A request of the parser to its caller.
#[derive(Debug)]
pub enum ParseAction {
    /// Read the profile at this path and answer with its content.
    ReadFile(String),
    /// Answer with the index of the first of these paths that exists.
    FindFirstExisting(Vec<String>),
    /// Answer with the canonical form of this path, if it can be resolved.
    Canonicalize(String),
    /// Answer `Proceed` to go on.
    Continue,
    /// The parse is done, with this policy.
    Finished(Policy),
    /// The parse failed with this error.
    Failed(ParseError),
}

impl View for ParseAction {
    type V = ActionView;

    open spec fn view(&self) -> ActionView {
        match self {
            ParseAction::ReadFile(p) => ActionView::ReadFile(p@),
            ParseAction::FindFirstExisting(c) => ActionView::FindFirstExisting(string_views(c@)),
            ParseAction::Canonicalize(p) => ActionView::Canonicalize(p@),
            ParseAction::Continue => ActionView::Continue,
            ParseAction::Finished(p) => ActionView::Finished(p@),
            ParseAction::Failed(e) => ActionView::Failed(e@),
        }
    }
}

/// An answer to a request of the parser.
#[derive(Debug)]
pub enum ParseEvent {
    /// Go on (the answer to `Continue`).
    Proceed,
    /// The content of the requested profile.
    FileContent(String),
    /// Reading the requested profile failed, with this message.
    ReadFailed(String),
    /// Index of the first existing path, or `None` when none exists.
    FoundAt(Option<usize>),
    /// The canonical path, or `None` when it could not be resolved.
    CanonicalPath(Option<String>),
}

impl View for ParseEvent {
    type V = EventView;

    open spec fn view(&self) -> EventView {
        match self {
            ParseEvent::Proceed => EventView::Proceed,
            ParseEvent::FileContent(c) => EventView::FileContent(c@),
            ParseEvent::ReadFailed(m) => EventView::ReadFailed(m@),
            ParseEvent::FoundAt(k) => EventView::FoundAt(
                match k {
                    Some(i) => Some(*i as nat),
                    None => None,
                },
            ),
            ParseEvent::CanonicalPath(c) => EventView::CanonicalPath(opt_view(*c)),
        }
    }
}

/// Executable `line_context`.
fn line_context_of(n: usize, line: &Vec<char>) -> (r: Vec<char>)
    ensures
        r@ == line_context(n as nat, line@),
{
    let a = concat(&chars_of("Line "), &decimal_of(n));
    let b = concat(&a, &chars_of(": "));
    let c = concat(&b, line);
    concat(&c, &chars_of(" - "))
}

/// Executable `wrap_error`.
fn wrap_error_of(frames: &Vec<ParseFrame>, e: ParseError) -> (r: ParseError)
    ensures
        r@ == wrap_error(frame_views(frames@), e@),
{
    let ghost fv = frame_views(frames@);
    let ghost e0 = e@;
    let mut cur = e;
    let mut i: usize = frames.len();
    assert(fv.take(i as int) =~= fv);
    while i > 0
        invariant
            i <= frames.len(),
            fv == frame_views(frames@),
            wrap_error(fv, e0) == wrap_error(fv.take(i as int), cur@),
        decreases i,
    {
        let ctx = line_context_of(frames[i - 1].next_line, &frames[i - 1].current);
        let msg = concat(&ctx, &chars_of_string(&cur.message()));
        proof {
            let t = fv.take(i as int);
            assert(t.drop_last() =~= fv.take(i - 1));
            assert(t.last() == frames@[i - 1]@);
        }
        cur = ParseError::InvalidFormat(string_of(&msg));
        i -= 1;
    }
    cur
}

/// Executable `fail`.
fn fail_state(st: ParserState, e: ParseError) -> (r: (ParserState, ParseAction))
    ensures
        r.0@ == fail(st@, e@).0,
        r.1@ == fail(st@, e@).1,
{
    let err = wrap_error_of(&st.frames, e);
    let ParserState { macros, include_depth, frames: _, pending: _ } = st;
    let out = ParserState { macros, include_depth, frames: Vec::new(), pending: Pending::Idle };
    assert(out@.frames =~= Seq::<FrameView>::empty());
    (out, ParseAction::Failed(err))
}

/// Executable `advance`: handle the next line of the innermost open
/// profile, or close it.
fn advance_state(st: ParserState) -> (r: (ParserState, ParseAction))
    requires
        parser_wf(st@),
        st@.frames.len() > 0,
    ensures
        r.0@ == advance(st@).0,
        r.1@ == advance(st@).1,
{
    let ghost s = st@;
    let ParserState { macros, include_depth, mut frames, pending } = st;
    let mut top = frames.pop().unwrap();
    proof {
        assert(frame_views(frames@) =~= s.frames.drop_last());
        assert(top@ == s.frames.last());
    }
    if top.next_line >= top.lines.len() {
        if frames.len() == 0 {
            let out = ParserState { macros, include_depth, frames, pending: Pending::Idle };
            assert(out@.frames =~= Seq::<FrameView>::empty());
            return (out, ParseAction::Finished(top.policy));
        }
        let mut parent = frames.pop().unwrap();
        let ghost below = s.frames.drop_last();
        proof {
            assert(frame_views(frames@) =~= below.drop_last());
            assert(parent@ == below.last());
        }
        let ghost pf = parent.policy.filesystem_rules@;
        let ghost pc = parent.policy.command_rules@;
        let ghost tf = top.policy.filesystem_rules@;
        let ghost tc = top.policy.command_rules@;
        parent.policy.filesystem_rules.append(&mut top.policy.filesystem_rules);
        parent.policy.command_rules.append(&mut top.policy.command_rules);
        proof {
            assert(fs_views(pf + tf) =~= fs_views(pf) + fs_views(tf));
            assert(command_views(pc + tc) =~= command_views(pc) + command_views(tc));
        }
        frames.push(parent);
        let out = ParserState { macros, include_depth: include_depth - 1, frames, pending };
        proof {
            let merged = FrameView {
                policy: merge_included(below.last().policy, s.frames.last().policy),
                ..below.last()
            };
            assert(out@.frames =~= below.update(below.len() - 1, merged));
        }
        return (out, ParseAction::Continue);
    }
    let idx = top.next_line;
    let c = trim(&take_before(&top.lines[idx], '#'));
    proof {
        assert(top@.lines[idx as int] == top.lines@[idx as int]@);
    }
    top.next_line = idx + 1;
    top.current = c.clone();
    let ghost read = top@;
    let ghost below = s.frames.drop_last();
    match parse_directive(&macros, &c) {
        Err(e) => {
            frames.push(top);
            let st1 = ParserState { macros, include_depth, frames, pending };
            assert(st1@.frames =~= below.push(read));
            fail_state(st1, e)
        },
        Ok(None) => {
            frames.push(top);
            let out = ParserState { macros, include_depth, frames, pending };
            assert(out@.frames =~= below.push(read));
            (out, ParseAction::Continue)
        },
        Ok(Some(LineDirective::Include(raw))) => {
            let cands = include_candidates_of(&raw, &top.file);
            let shown = clone_strings(&cands);
            frames.push(top);
            let out = ParserState {
                macros,
                include_depth,
                frames,
                pending: Pending::Locate(raw, cands),
            };
            assert(out@.frames =~= below.push(read));
            (out, ParseAction::FindFirstExisting(shown))
        },
        Ok(Some(LineDirective::WhitelistExec(p))) => {
            let pv = chars_of_string(&p);
            let target = canonicalization_target_of(&pv);
            let shown = string_of(&target);
            apply_directive(&mut top.policy, LineDirective::WhitelistExec(p));
            let ghost updated = top@;
            frames.push(top);
            let out = ParserState {
                macros,
                include_depth,
                frames,
                pending: Pending::Canonical(pv, target),
            };
            assert(out@.frames =~= below.push(updated));
            (out, ParseAction::Canonicalize(shown))
        },
        Ok(Some(d)) => {
            apply_directive(&mut top.policy, d);
            let ghost updated = top@;
            frames.push(top);
            let out = ParserState { macros, include_depth, frames, pending };
            assert(out@.frames =~= below.push(updated));
            (out, ParseAction::Continue)
        },
    }
}

/// Executable `step`.
fn step_state(st: ParserState, ev: ParseEvent) -> (r: (ParserState, ParseAction))
    requires
        parser_wf(st@),
    ensures
        r.0@ == step(st@, ev@).0,
        r.1@ == step(st@, ev@).1,
{
    let ghost s = st@;
    let ParserState { macros, include_depth, mut frames, pending } = st;
    match pending {
        Pending::Idle => {
            (ParserState { macros, include_depth, frames, pending: Pending::Idle }, ParseAction::Continue)
        },
        Pending::Read(path) => match ev {
            ParseEvent::FileContent(c) => {
                let lines_v = split_lines(&chars_of_string(&c));
                let mut policy = Policy::new();
                policy.macros = clone_macros(macros.vars());
                let frame = ParseFrame { file: path, lines: lines_v, next_line: 0, policy, current: Vec::new() };
                proof {
                    assert(frame@.lines =~= lines(c@));
                    assert(frame@.policy.macros =~= s.macros);
                    assert(frame@.policy.filesystem_rules =~= Seq::<FsRuleView>::empty());
                    assert(frame@.policy.command_rules =~= Seq::<CommandRuleView>::empty());
                }
                let ghost fr = frame@;
                frames.push(frame);
                let out = ParserState { macros, include_depth, frames, pending: Pending::Ready };
                assert(out@.frames =~= s.frames.push(fr));
                (out, ParseAction::Continue)
            },
            ParseEvent::ReadFailed(m) => {
                let st1 = ParserState { macros, include_depth, frames, pending: Pending::Read(path) };
                fail_state(st1, ParseError::Io(m))
            },
            _ => {
                let shown = path.clone();
                (ParserState { macros, include_depth, frames, pending: Pending::Read(path) }, ParseAction::ReadFile(shown))
            },
        },
        Pending::Ready => match ev {
            ParseEvent::Proceed => {
                advance_state(ParserState { macros, include_depth, frames, pending: Pending::Ready })
            },
            _ => (ParserState { macros, include_depth, frames, pending: Pending::Ready }, ParseAction::Continue),
        },
        Pending::Locate(raw, cands) => match ev {
            ParseEvent::FoundAt(Some(k)) => {
                if k < cands.len() {
                    let depth = include_depth + 1;
                    if depth >= MAX_INCLUDE_DEPTH {
                        let st1 = ParserState {
                            macros,
                            include_depth: depth,
                            frames,
                            pending: Pending::Locate(raw, cands),
                        };
                        fail_state(st1, ParseError::MaxIncludeDepth(MAX_INCLUDE_DEPTH))
                    } else {
                        let next = cands[k].clone();
                        let shown = cands[k].clone();
                        proof {
                            assert(string_views(cands@)[k as int] == cands@[k as int]@);
                        }
                        (
                            ParserState { macros, include_depth: depth, frames, pending: Pending::Read(next) },
                            ParseAction::ReadFile(shown),
                        )
                    }
                } else {
                    let shown = clone_strings(&cands);
                    (
                        ParserState { macros, include_depth, frames, pending: Pending::Locate(raw, cands) },
                        ParseAction::FindFirstExisting(shown),
                    )
                }
            },
            ParseEvent::FoundAt(None) => {
                let st1 = ParserState { macros, include_depth, frames, pending: Pending::Locate(raw.clone(), cands) };
                fail_state(st1, ParseError::IncludeNotFound(raw))
            },
            _ => {
                let shown = clone_strings(&cands);
                (
                    ParserState { macros, include_depth, frames, pending: Pending::Locate(raw, cands) },
                    ParseAction::FindFirstExisting(shown),
                )
            },
        },
        Pending::Canonical(p, target) => match ev {
            ParseEvent::CanonicalPath(resolved) => {
                let mut top = frames.pop().unwrap();
                proof {
                    assert(frame_views(frames@) =~= s.frames.drop_last());
                    assert(top@ == s.frames.last());
                }
                match canonicalize_pattern(&p, resolved) {
                    Some(cv) => {
                        if !vec_eq(&cv, &p) {
                            top.policy.add_command_rule(
                                CommandRule { pattern: string_of(&cv), action: RuleAction::Allow },
                            );
                        }
                    },
                    None => {},
                }
                let ghost updated = top@;
                frames.push(top);
                let out = ParserState { macros, include_depth, frames, pending: Pending::Ready };
                assert(out@.frames =~= s.frames.drop_last().push(updated));
                (out, ParseAction::Continue)
            },
            _ => {
                let shown = string_of(&target);
                (
                    ParserState { macros, include_depth, frames, pending: Pending::Canonical(p, target) },
                    ParseAction::Canonicalize(shown),
                )
            },
        },
    }
}

/// Parser for profile files.
///
/// A parse is driven by its caller: [`ProfileParser::parse_file`] starts it
/// and [`ProfileParser::resume`] answers each request, until the parser says
/// `Finished` or `Failed`.
pub struct ProfileParser {
    state: ParserState,
}

impl View for ProfileParser {
    type V = ParserView;

    closed spec fn view(&self) -> ParserView {
        self.state@
    }
}

impl ProfileParser {
    /// No more profiles are open than the include depth allows.
    #[verifier::type_invariant]
    spec fn bounded(self) -> bool {
        parser_wf(self.state@)
    }

    /// Create a parser whose macros are the standard ones of the given
    /// environment, with no parse in progress.
    pub fn new(env: MacroEnvironment) -> (p: Self)
        ensures
            p@ == (ParserView {
                macros: standard_macros(
                    opt_view(env.home),
                    opt_view(env.user),
                    opt_view(env.xdg_runtime_dir),
                    opt_view(env.path),
                    opt_view(env.xdg_config_home),
                ),
                include_depth: 0,
                frames: seq![],
                pending: PendingView::Idle,
            }),
    {
        let st = ParserState {
            macros: MacroExpander::new(env),
            include_depth: 0,
            frames: Vec::new(),
            pending: Pending::Idle,
        };
        assert(st@.frames =~= Seq::<FrameView>::empty());
        ProfileParser { state: st }
    }

    /// Start parsing the profile at `path`. Refused at the maximum include
    /// depth; otherwise the parser asks for the profile's content. A parse in
    /// progress is abandoned.
    pub fn parse_file(&mut self, path: &str) -> (a: ParseAction)
        ensures
            final(self)@ == start(old(self)@, path@).0,
            a@ == start(old(self)@, path@).1,
    {
        proof {
            use_type_invariant(&*self);
        }
        let ghost s = self.state@;
        let mut st = ParserState {
            macros: MacroExpander::empty(),
            include_depth: 0,
            frames: Vec::new(),
            pending: Pending::Idle,
        };
        std::mem::swap(&mut st, &mut self.state);
        let ParserState { macros, include_depth, frames: _, pending: _ } = st;
        let (out, action) = if include_depth >= MAX_INCLUDE_DEPTH {
            (
                ParserState { macros, include_depth, frames: Vec::new(), pending: Pending::Idle },
                ParseAction::Failed(ParseError::MaxIncludeDepth(MAX_INCLUDE_DEPTH)),
            )
        } else {
            (
                ParserState {
                    macros,
                    include_depth,
                    frames: Vec::new(),
                    pending: Pending::Read(own(path)),
                },
                ParseAction::ReadFile(own(path)),
            )
        };
        proof {
            assert(out@.frames =~= Seq::<FrameView>::empty());
            law_include_nesting_bounded(s, EventView::Proceed, path@);
        }
        self.state = out;
        action
    }

    /// Answer the parser's last request and get its next one.
    pub fn resume(&mut self, event: ParseEvent) -> (a: ParseAction)
        ensures
            final(self)@ == step(old(self)@, event@).0,
            a@ == step(old(self)@, event@).1,
    {
        proof {
            use_type_invariant(&*self);
        }
        let ghost s = self.state@;
        let ghost e = event@;
        let mut st = ParserState {
            macros: MacroExpander::empty(),
            include_depth: 0,
            frames: Vec::new(),
            pending: Pending::Idle,
        };
        std::mem::swap(&mut st, &mut self.state);
        let (out, action) = step_state(st, event);
        proof {
            law_include_nesting_bounded(s, e, seq![]);
        }
        self.state = out;
        action
    }
}

} // verus!
