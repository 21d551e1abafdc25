//! Decisions behind wrapping core utilities in a shell: where the real
//! utilities are looked for, which of the places found are kept, which
//! command rules block the real utilities and allow the wrappers, and which
//! environment the wrapped shell gets.
//!
//! The filesystem is probed by the caller: it hands in, for each place a
//! utility is looked for, whether an executable file is there and what the
//! place resolves to.
use vstd::prelude::*;
use crate::engine::{DefaultPolicy, PolicyEngine, denied_by_name, no_glob_metachars};
use crate::paths::{join, path_eq, path_equal, path_join};
use crate::rules::{
    CommandRule, CommandRuleView, FilesystemRule, RuleAction, command_views,
};
use crate::schemas::real_path_var;
use crate::text::{
    chars_of, chars_of_string, concat, own, split_char, split_on, string_of,
    to_uppercase, vec_eq,
};

verus! {

/// Whether any execute permission bit (`0o111`) is set in a file's mode.
pub fn is_executable(mode: u32) -> (r: bool)
    ensures
        r == (mode & 0o111u32 != 0),
{
    mode & 0o111u32 != 0
}

/// A place a utility's real binary is looked for.
#[derive(Debug, Clone)]
pub struct UtilityProbe {
    /// The directory searched.
    pub dir: String,
    /// The directory joined with the utility's name.
    pub candidate: String,
    /// Whether the directory comes from `PATH` (else it is a standard one).
    pub from_path_var: bool,
}

/// What the filesystem says of a probe.
#[derive(Debug, Clone)]
pub struct ProbeResult {
    /// The candidate exists and is executable.
    pub usable: bool,
    /// The canonical form of the probe's directory, if it resolves.
    pub dir_canonical: Option<String>,
    /// The canonical form of the candidate, if it resolves.
    pub candidate_canonical: Option<String>,
}

/// The standard directories searched for real utilities, in order.
pub open spec fn standard_dirs() -> Seq<Seq<char>> {
    seq!["/bin"@, "/usr/bin"@, "/usr/local/bin"@]
}

/// The view of an optional string slice.
pub open spec fn opt_str_view(o: Option<&str>) -> Option<Seq<char>> {
    match o {
        Some(s) => Some(s@),
        None => None,
    }
}

/// The directories searched for a utility, each with whether it comes from
/// `PATH`: the standard ones, then each entry of `PATH` when it is set.
pub open spec fn search_dirs(path_var: Option<Seq<char>>) -> Seq<(Seq<char>, bool)> {
    standard_dirs().map_values(|d: Seq<char>| (d, false)) + match path_var {
        Some(p) => split_on(p, ':').map_values(|d: Seq<char>| (d, true)),
        None => seq![],
    }
}

/// The view of a probe: its directory, candidate and origin.
pub open spec fn probe_view(p: UtilityProbe) -> (Seq<char>, Seq<char>, bool) {
    (p.dir@, p.candidate@, p.from_path_var)
}

/// The places a utility named `util` is looked for.
pub open spec fn probes_for(util: Seq<char>, path_var: Option<Seq<char>>) -> Seq<
    (Seq<char>, Seq<char>, bool),
> {
    search_dirs(path_var).map_values(
        |d: (Seq<char>, bool)| (d.0, join(d.0, util), d.1),
    )
}

/// The places to probe for the utility `util`, given `PATH` if it is set.
pub fn utility_probes(util: &str, path_var: Option<&str>) -> (r: Vec<UtilityProbe>)
    ensures
        r@.map_values(|p: UtilityProbe| probe_view(p)) == probes_for(util@, opt_str_view(path_var)),
{
    let name = chars_of(util);
    let mut dirs: Vec<(Vec<char>, bool)> = Vec::new();
    dirs.push((chars_of("/bin"), false));
    dirs.push((chars_of("/usr/bin"), false));
    dirs.push((chars_of("/usr/local/bin"), false));
    let ghost std_part = dirs@.map_values(|d: (Vec<char>, bool)| (d.0@, d.1));
    assert(std_part =~= standard_dirs().map_values(|d: Seq<char>| (d, false)));
    match path_var {
        Some(p) => {
            let pieces = split_char(&chars_of(p), ':');
            let mut k: usize = 0;
            while k < pieces.len()
                invariant
                    k <= pieces.len(),
                    dirs@.map_values(|d: (Vec<char>, bool)| (d.0@, d.1)) == std_part + pieces@.map_values(
                        |q: Vec<char>| q@,
                    ).take(k as int).map_values(|d: Seq<char>| (d, true)),
                decreases pieces.len() - k,
            {
                let ghost before = dirs@.map_values(|d: (Vec<char>, bool)| (d.0@, d.1));
                dirs.push((pieces[k].clone(), true));
                proof {
                    let pv = pieces@.map_values(|q: Vec<char>| q@);
                    assert(pv.take(k + 1) =~= pv.take(k as int).push(pieces@[k as int]@));
                    assert(dirs@.map_values(|d: (Vec<char>, bool)| (d.0@, d.1)) =~= before.push(
                        (pieces@[k as int]@, true),
                    ));
                    assert(pv.take(k + 1).map_values(|d: Seq<char>| (d, true)) =~= pv.take(
                        k as int,
                    ).map_values(|d: Seq<char>| (d, true)).push((pieces@[k as int]@, true)));
                }
                k += 1;
            }
            proof {
                let pv = pieces@.map_values(|q: Vec<char>| q@);
                assert(pv.take(pieces.len() as int) =~= pv);
            }
        },
        None => {},
    }
    let ghost dv = dirs@.map_values(|d: (Vec<char>, bool)| (d.0@, d.1));
    assert(dv =~= search_dirs(opt_str_view(path_var)));
    let mut r: Vec<UtilityProbe> = Vec::new();
    let mut i: usize = 0;
    while i < dirs.len()
        invariant
            i <= dirs.len(),
            dv == dirs@.map_values(|d: (Vec<char>, bool)| (d.0@, d.1)),
            name@ == util@,
            r@.map_values(|p: UtilityProbe| probe_view(p)) == dv.take(i as int).map_values(
                |d: (Seq<char>, bool)| (d.0, join(d.0, util@), d.1),
            ),
        decreases dirs.len() - i,
    {
        let ghost before = r@.map_values(|p: UtilityProbe| probe_view(p));
        let probe = UtilityProbe {
            dir: string_of(&dirs[i].0),
            candidate: string_of(&path_join(&dirs[i].0, &name)),
            from_path_var: dirs[i].1,
        };
        r.push(probe);
        proof {
            assert(dv[i as int] == (dirs@[i as int].0@, dirs@[i as int].1));
            assert(r@.map_values(|p: UtilityProbe| probe_view(p)) =~= before.push(
                (dv[i as int].0, join(dv[i as int].0, util@), dv[i as int].1),
            ));
            assert(dv.take(i + 1) =~= dv.take(i as int).push(dv[i as int]));
            assert(dv.take(i + 1).map_values(|d: (Seq<char>, bool)| (d.0, join(d.0, util@), d.1))
                =~= dv.take(i as int).map_values(
                |d: (Seq<char>, bool)| (d.0, join(d.0, util@), d.1),
            ).push((dv[i as int].0, join(dv[i as int].0, util@), dv[i as int].1)));
        }
        i += 1;
    }
    assert(dv.take(dirs.len() as int) =~= dv);
    r
}

/// Probe `i` found a usable candidate.
pub open spec fn probe_usable(results: Seq<ProbeResult>, i: int) -> bool {
    0 <= i < results.len() && results[i].usable
}

/// Probe `i` searched the wrapper directory itself.
pub open spec fn in_wrapper_dir(results: Seq<ProbeResult>, wrapper: Option<Seq<char>>, i: int) -> bool {
    match wrapper {
        Some(w) => 0 <= i < results.len() && match results[i].dir_canonical {
            Some(d) => path_eq(d@, w),
            None => false,
        },
        None => false,
    }
}

/// Some path of `paths` is the same path as `p`.
pub open spec fn contains_path(paths: Seq<Seq<char>>, p: Seq<char>) -> bool {
    exists|k: int| 0 <= k < paths.len() && path_eq(#[trigger] paths[k], p)
}

/// The real utility paths kept from the first `n` probes: a usable
/// candidate outside the wrapper directory, where a candidate from `PATH`
/// is kept only once.
pub open spec fn kept_paths(
    probes: Seq<(Seq<char>, Seq<char>, bool)>,
    results: Seq<ProbeResult>,
    wrapper: Option<Seq<char>>,
    n: nat,
) -> Seq<Seq<char>>
    decreases n,
{
    if n == 0 {
        seq![]
    } else {
        let i = n - 1;
        let prev = kept_paths(probes, results, wrapper, (n - 1) as nat);
        let p = probes[i];
        if probe_usable(results, i) && !in_wrapper_dir(results, wrapper, i) && !(p.2
            && contains_path(prev, p.1)) {
            prev.push(p.1)
        } else {
            prev
        }
    }
}

/// Whether `paths` holds a path that is the same path as `p`.
fn contains_path_exec(paths: &Vec<String>, p: &Vec<char>) -> (r: bool)
    ensures
        r == contains_path(paths@.map_values(|s: String| s@), p@),
{
    let ghost pv = paths@.map_values(|s: String| s@);
    let mut k: usize = 0;
    while k < paths.len()
        invariant
            k <= paths.len(),
            pv == paths@.map_values(|s: String| s@),
            forall|j: int| 0 <= j < k ==> !path_eq(#[trigger] pv[j], p@),
        decreases paths.len() - k,
    {
        if path_equal(&chars_of_string(&paths[k]), p) {
            assert(path_eq(pv[k as int], p@));
            return true;
        }
        k += 1;
    }
    false
}

/// Find all real utility paths among the probes, with what the filesystem
/// said of each (`results[i]` belongs to `probes[i]`; a probe without a
/// result counts as finding nothing): each usable candidate, except one
/// whose directory is the wrapper directory, and a candidate from `PATH`
/// that was already found.
pub fn find_all_real_utility_paths(
    probes: &Vec<UtilityProbe>,
    results: &Vec<ProbeResult>,
    wrapper_canonical: &Option<String>,
) -> (r: Vec<String>)
    ensures
        r@.map_values(|s: String| s@) == kept_paths(
            probes@.map_values(|p: UtilityProbe| probe_view(p)),
            results@,
            match wrapper_canonical {
                Some(w) => Some(w@),
                None => None,
            },
            probes@.len(),
        ),
{
    let ghost pv = probes@.map_values(|p: UtilityProbe| probe_view(p));
    let ghost w = match wrapper_canonical {
        Some(w) => Some(w@),
        None => None,
    };
    let mut paths: Vec<String> = Vec::new();
    let mut i: usize = 0;
    while i < probes.len()
        invariant
            i <= probes.len(),
            pv == probes@.map_values(|p: UtilityProbe| probe_view(p)),
            w == (match wrapper_canonical {
                Some(w) => Some(w@),
                None => None,
            }),
            paths@.map_values(|s: String| s@) == kept_paths(pv, results@, w, i as nat),
        decreases probes.len() - i,
    {
        let usable = i < results.len() && results[i].usable;
        let in_wrapper = match wrapper_canonical {
            Some(wc) => i < results.len() && match &results[i].dir_canonical {
                Some(d) => path_equal(&chars_of_string(d), &chars_of_string(wc)),
                None => false,
            },
            None => false,
        };
        let cand = chars_of_string(&probes[i].candidate);
        assert(pv[i as int] == probe_view(probes@[i as int]));
        if usable && !in_wrapper && !(probes[i].from_path_var && contains_path_exec(&paths, &cand)) {
            let ghost before = paths@.map_values(|s: String| s@);
            paths.push(probes[i].candidate.clone());
            assert(paths@.map_values(|s: String| s@) =~= before.push(pv[i as int].1));
        }
        i += 1;
    }
    paths
}

/// The command patterns that block a real utility found at `path`, given
/// its canonical form when it resolves: the canonical path, and the path
/// itself when it differs; else the path as it is.
pub open spec fn deny_patterns_for(path: Seq<char>, canonical: Option<Seq<char>>) -> Seq<Seq<char>> {
    match canonical {
        Some(c) => if !path_eq(path, c) {
            seq![c, path]
        } else {
            seq![c]
        },
        None => seq![path],
    }
}

/// The command patterns that block all the real utilities found, in order.
pub open spec fn deny_patterns(found: Seq<(Seq<char>, Option<Seq<char>>)>) -> Seq<Seq<char>>
    decreases found.len(),
{
    if found.len() == 0 {
        seq![]
    } else {
        deny_patterns(found.drop_last()) + deny_patterns_for(found.last().0, found.last().1)
    }
}

/// The view of a found path with its canonical form.
pub open spec fn found_views(found: Seq<(String, Option<String>)>) -> Seq<(Seq<char>, Option<Seq<char>>)> {
    found.map_values(
        |f: (String, Option<String>)|
            (
                f.0@,
                match f.1 {
                    Some(c) => Some(c@),
                    None => None,
                },
            ),
    )
}

/// Deny command rules for the given patterns.
pub open spec fn deny_rules(patterns: Seq<Seq<char>>) -> Seq<CommandRuleView> {
    patterns.map_values(|p: Seq<char>| CommandRuleView { pattern: p, action: RuleAction::Deny })
}

/// Auto-blacklist real utility paths to prevent bypass via absolute paths.
///
/// `found` lists each real utility path found, with its canonical form when
/// it resolves. The canonical path is blocked, and the path itself too when
/// it differs (a symlink); a path that does not resolve is blocked as it is.
pub fn auto_blacklist_real_utilities(
    policy: &mut PolicyEngine,
    found: &Vec<(String, Option<String>)>,
)
    ensures
        command_views(final(policy).policy_state().command_rules@) == command_views(
            old(policy).policy_state().command_rules@,
        ) + deny_rules(deny_patterns(found_views(found@))),
        final(policy).policy_state().filesystem_rules@ == old(
            policy,
        ).policy_state().filesystem_rules@,
        final(policy).file_mode() == old(policy).file_mode(),
        final(policy).command_mode() == old(policy).command_mode(),
        final(policy).reporter_of() == old(policy).reporter_of(),
{
    let ghost fv = found_views(found@);
    let ghost start = command_views(policy.policy_state().command_rules@);
    let mut i: usize = 0;
    while i < found.len()
        invariant
            i <= found.len(),
            fv == found_views(found@),
            command_views(policy.policy_state().command_rules@) == start + deny_rules(
                deny_patterns(fv.take(i as int)),
            ),
            policy.policy_state().filesystem_rules@ == old(policy).policy_state().filesystem_rules@,
            policy.file_mode() == old(policy).file_mode(),
            policy.command_mode() == old(policy).command_mode(),
            policy.reporter_of() == old(policy).reporter_of(),
        decreases found.len() - i,
    {
        let ghost before = command_views(policy.policy_state().command_rules@);
        let path = &found[i].0;
        proof {
            assert(fv.take(i + 1).drop_last() =~= fv.take(i as int));
            assert(fv.take(i + 1).last() == fv[i as int]);
        }
        match &found[i].1 {
            Some(c) => {
                policy.add_command_deny_rule(c.clone());
                if !path_equal(&chars_of_string(path), &chars_of_string(c)) {
                    policy.add_command_deny_rule(path.clone());
                }
            },
            None => {
                policy.add_command_deny_rule(path.clone());
            },
        }
        proof {
            assert(command_views(policy.policy_state().command_rules@) =~= before + deny_rules(
                deny_patterns_for(fv[i as int].0, fv[i as int].1),
            ));
            assert(deny_rules(deny_patterns(fv.take(i + 1))) =~= deny_rules(
                deny_patterns(fv.take(i as int)),
            ) + deny_rules(deny_patterns_for(fv[i as int].0, fv[i as int].1)));
        }
        i += 1;
    }
    assert(fv.take(found.len() as int) =~= fv);
}

/// Auto-blacklist the real paths of the wrapped utilities (see
/// [`auto_blacklist_real_utilities`]); `found` lists, for every wrapped
/// utility in turn, the real paths found without excluding a wrapper
/// directory.
pub fn auto_blacklist_utilities(policy: &mut PolicyEngine, found: &Vec<(String, Option<String>)>)
    ensures
        command_views(final(policy).policy_state().command_rules@) == command_views(
            old(policy).policy_state().command_rules@,
        ) + deny_rules(deny_patterns(found_views(found@))),
        final(policy).policy_state().filesystem_rules@ == old(
            policy,
        ).policy_state().filesystem_rules@,
        final(policy).file_mode() == old(policy).file_mode(),
        final(policy).command_mode() == old(policy).command_mode(),
        final(policy).reporter_of() == old(policy).reporter_of(),
{
    auto_blacklist_real_utilities(policy, found)
}

/// The command pattern that matches every file directly in `dir`.
pub open spec fn dir_pattern(dir: Seq<char>) -> Seq<char> {
    dir + "/*"@
}

/// Auto-whitelist the wrapper directory when commands are denied by default.
///
/// `canonical_wrapper` is the canonical form of `wrapper_dir`, or the
/// message of the error that resolving it gave. Outside default-deny mode
/// nothing changes and the result is `Ok(false)`. In default-deny mode a
/// resolution error is returned and nothing changes; otherwise every command
/// in the canonical wrapper directory is allowed, and in the directory as
/// given when that pattern differs, the canonical directory is whitelisted
/// for file access, and the result is `Ok(true)`.
pub fn auto_whitelist_wrappers(
    policy: &mut PolicyEngine,
    wrapper_dir: &str,
    canonical_wrapper: Result<String, String>,
) -> (r: Result<bool, String>)
    ensures
        !(old(policy).command_mode() == DefaultPolicy::DenyAll) ==> r == Ok::<bool, String>(false),
        (old(policy).command_mode() == DefaultPolicy::DenyAll) ==> match canonical_wrapper {
            Err(m) => r matches Err(e) && e@ == m@,
            Ok(_) => r == Ok::<bool, String>(true),
        },
        !(r == Ok::<bool, String>(true)) ==> *final(policy) == *old(policy),
        r == Ok::<bool, String>(true) ==> {
            let c = canonical_wrapper->Ok_0@;
            let allow = |p: Seq<char>| CommandRuleView { pattern: p, action: RuleAction::Allow };
            &&& command_views(final(policy).policy_state().command_rules@) == if dir_pattern(
                wrapper_dir@,
            ) != dir_pattern(c) {
                command_views(old(policy).policy_state().command_rules@).push(
                    allow(dir_pattern(c)),
                ).push(allow(dir_pattern(wrapper_dir@)))
            } else {
                command_views(old(policy).policy_state().command_rules@).push(
                    allow(dir_pattern(c)),
                )
            }
            &&& final(policy).policy_state().filesystem_rules@.len() == old(
                policy,
            ).policy_state().filesystem_rules@.len() + 1
            &&& final(policy).policy_state().filesystem_rules@.drop_last() == old(
                policy,
            ).policy_state().filesystem_rules@
            &&& final(policy).policy_state().filesystem_rules@.last()@.kind
                == crate::rules::RuleKind::Whitelist
            &&& final(policy).policy_state().filesystem_rules@.last()@.path == c
            &&& final(policy).policy_state().filesystem_rules@.last()@.recursive
            &&& final(policy).file_mode() == old(policy).file_mode()
            &&& final(policy).command_mode() == old(policy).command_mode()
            &&& final(policy).reporter_of() == old(policy).reporter_of()
        },
{
    if !policy.is_command_default_deny() {
        return Ok(false);
    }
    let canonical = match canonical_wrapper {
        Ok(c) => c,
        Err(m) => {
            return Err(m);
        },
    };
    let c = chars_of_string(&canonical);
    let pattern = concat(&c, &chars_of("/*"));
    let given = concat(&chars_of(wrapper_dir), &chars_of("/*"));
    let ghost before_cmds = command_views(policy.policy_state().command_rules@);
    let ghost before_fs = policy.policy_state().filesystem_rules@;
    policy.add_command_allow_rule(string_of(&pattern));
    if !vec_eq(&given, &pattern) {
        policy.add_command_allow_rule(string_of(&given));
    }
    policy.add_filesystem_rule(FilesystemRule::Whitelist { path: canonical, recursive: true });
    proof {
        let allow = |p: Seq<char>| CommandRuleView { pattern: p, action: RuleAction::Allow };
        if given@ != pattern@ {
            assert(command_views(policy.policy_state().command_rules@) =~= before_cmds.push(
                allow(pattern@),
            ).push(allow(given@)));
        } else {
            assert(command_views(policy.policy_state().command_rules@) =~= before_cmds.push(
                allow(pattern@),
            ));
        }
        assert(policy.policy_state().filesystem_rules@.drop_last() =~= before_fs);
    }
    Ok(true)
}

/// The real path of a utility resolved from `PATH`: the first candidate
/// found in a `PATH` directory that is usable, in its canonical form when
/// it resolves.
pub open spec fn resolved_real_path(
    probes: Seq<(Seq<char>, Seq<char>, bool)>,
    results: Seq<ProbeResult>,
    n: nat,
) -> Option<Seq<char>>
    decreases n,
{
    if n == 0 {
        None
    } else {
        match resolved_real_path(probes, results, (n - 1) as nat) {
            Some(p) => Some(p),
            None => {
                let i = n - 1;
                if probes[i].2 && probe_usable(results, i) {
                    match results[i].candidate_canonical {
                        Some(c) => Some(c@),
                        None => Some(probes[i].1),
                    }
                } else {
                    None
                }
            },
        }
    }
}

/// Resolve a utility's real path from the `PATH` it was found in before the
/// wrappers came first there (see [`resolved_real_path`]).
pub fn resolve_real_utility_path(probes: &Vec<UtilityProbe>, results: &Vec<ProbeResult>) -> (r:
    Option<String>)
    ensures
        opt_string_view(r) == resolved_real_path(
            probes@.map_values(|p: UtilityProbe| probe_view(p)),
            results@,
            probes@.len(),
        ),
{
    let ghost pv = probes@.map_values(|p: UtilityProbe| probe_view(p));
    let mut i: usize = 0;
    while i < probes.len()
        invariant
            i <= probes.len(),
            pv == probes@.map_values(|p: UtilityProbe| probe_view(p)),
            resolved_real_path(pv, results@, i as nat) is None,
        decreases probes.len() - i,
    {
        assert(pv[i as int] == probe_view(probes@[i as int]));
        if probes[i].from_path_var && i < results.len() && results[i].usable {
            let r = match &results[i].candidate_canonical {
                Some(c) => c.clone(),
                None => probes[i].candidate.clone(),
            };
            proof {
                lemma_resolved_stays(pv, results@, (i + 1) as nat, probes@.len());
            }
            return Some(r);
        }
        i += 1;
    }
    None
}

/// Once a real path is resolved, later probes do not change it.
proof fn lemma_resolved_stays(
    probes: Seq<(Seq<char>, Seq<char>, bool)>,
    results: Seq<ProbeResult>,
    m: nat,
    n: nat,
)
    requires
        m <= n,
        resolved_real_path(probes, results, m) is Some,
    ensures
        resolved_real_path(probes, results, n) == resolved_real_path(probes, results, m),
    decreases n - m,
{
    if m < n {
        lemma_resolved_stays(probes, results, m, (n - 1) as nat);
    }
}

/// The view of an optional string.
pub open spec fn opt_string_view(o: Option<String>) -> Option<Seq<char>> {
    match o {
        Some(s) => Some(s@),
        None => None,
    }
}

/// The environment a wrapped shell gets, in the order it is set:
/// `BRUSHFIRE_POLICY`, then `BRUSHFIRE_WEBHOOK_URL` and
/// `BRUSHFIRE_SESSION_ID` when given, then each resolved utility's
/// `BRUSHFIRE_<NAME>_PATH`, and last `PATH` with the wrapper directory
/// first.
pub open spec fn wrapper_env(
    profile_path: Seq<char>,
    webhook_url: Option<Seq<char>>,
    session_id: Option<Seq<char>>,
    real_paths: Seq<(Seq<char>, Seq<char>)>,
    wrapper_dir: Seq<char>,
    inherited_path: Seq<char>,
) -> Seq<(Seq<char>, Seq<char>)> {
    seq![("BRUSHFIRE_POLICY"@, profile_path)] + match webhook_url {
        Some(u) => seq![("BRUSHFIRE_WEBHOOK_URL"@, u)],
        None => seq![],
    } + match session_id {
        Some(s) => seq![("BRUSHFIRE_SESSION_ID"@, s)],
        None => seq![],
    } + real_paths.map_values(|e: (Seq<char>, Seq<char>)| (real_path_var(e.0), e.1)) + seq![
        ("PATH"@, wrapper_dir + ":"@ + inherited_path),
    ]
}

/// The view of a list of string pairs.
pub open spec fn pair_views(v: Seq<(String, String)>) -> Seq<(Seq<char>, Seq<char>)> {
    v.map_values(|e: (String, String)| (e.0@, e.1@))
}

/// The environment variables a wrapped shell is given (see [`wrapper_env`]);
/// `real_paths` lists each resolved utility's name with its real path.
pub fn wrapper_environment(
    profile_path: &str,
    webhook_url: Option<&str>,
    session_id: Option<&str>,
    real_paths: &Vec<(String, String)>,
    wrapper_dir: &str,
    inherited_path: &str,
) -> (r: Vec<(String, String)>)
    ensures
        pair_views(r@) == wrapper_env(
            profile_path@,
            opt_str_view(webhook_url),
            opt_str_view(session_id),
            pair_views(real_paths@),
            wrapper_dir@,
            inherited_path@,
        ),
{
    let mut r: Vec<(String, String)> = Vec::new();
    r.push((own("BRUSHFIRE_POLICY"), own(profile_path)));
    let ghost head = pair_views(r@);
    assert(head =~= seq![("BRUSHFIRE_POLICY"@, profile_path@)]);
    match webhook_url {
        Some(u) => {
            r.push((own("BRUSHFIRE_WEBHOOK_URL"), own(u)));
        },
        None => {},
    }
    match session_id {
        Some(sid) => {
            r.push((own("BRUSHFIRE_SESSION_ID"), own(sid)));
        },
        None => {},
    }
    let ghost opts = pair_views(r@);
    assert(opts =~= head + match webhook_url {
        Some(u) => seq![("BRUSHFIRE_WEBHOOK_URL"@, u@)],
        None => seq![],
    } + match session_id {
        Some(s) => seq![("BRUSHFIRE_SESSION_ID"@, s@)],
        None => seq![],
    });
    let ghost rp = pair_views(real_paths@);
    let ghost named = rp.map_values(|e: (Seq<char>, Seq<char>)| (real_path_var(e.0), e.1));
    let mut i: usize = 0;
    while i < real_paths.len()
        invariant
            i <= real_paths.len(),
            rp == pair_views(real_paths@),
            named == rp.map_values(|e: (Seq<char>, Seq<char>)| (real_path_var(e.0), e.1)),
            pair_views(r@) == opts + named.take(i as int),
        decreases real_paths.len() - i,
    {
        let upper = to_uppercase(real_paths[i].0.as_str());
        let var = concat(
            &concat(&chars_of("BRUSHFIRE_"), &chars_of(upper.as_str())),
            &chars_of("_PATH"),
        );
        let ghost before = pair_views(r@);
        r.push((string_of(&var), real_paths[i].1.clone()));
        proof {
            assert(named[i as int] == (real_path_var(real_paths@[i as int].0@), real_paths@[i as int].1@));
            assert(pair_views(r@) =~= before.push(named[i as int]));
            assert(named.take(i + 1) =~= named.take(i as int).push(named[i as int]));
        }
        i += 1;
    }
    assert(named.take(real_paths.len() as int) =~= named);
    let path = concat(&concat(&chars_of(wrapper_dir), &chars_of(":")), &chars_of(inherited_path));
    let ghost body = pair_views(r@);
    r.push((own("PATH"), string_of(&path)));
    assert(pair_views(r@) =~= body.push(("PATH"@, wrapper_dir@ + ":"@ + inherited_path@)));
    r
}

/// The path a real utility found at `f.0` is spawned by: its canonical form
/// when it resolved, else the path as found.
pub open spec fn spawn_target(f: (Seq<char>, Option<Seq<char>>)) -> Seq<char> {
    match f.1 {
        Some(c) => c,
        None => f.0,
    }
}

/// The patterns blocking the found utilities include each one's spawn target.
proof fn lemma_deny_patterns_cover_targets(found: Seq<(Seq<char>, Option<Seq<char>>)>, i: int)
    requires
        0 <= i < found.len(),
    ensures
        deny_patterns(found).contains(spawn_target(found[i])),
    decreases found.len(),
{
    let init = found.drop_last();
    let last = found.last();
    let tail = deny_patterns_for(last.0, last.1);
    assert(deny_patterns(found) == deny_patterns(init) + tail);
    if i < found.len() - 1 {
        assert(found[i] == init[i]);
        lemma_deny_patterns_cover_targets(init, i);
        let k = choose|k: int|
            0 <= k < deny_patterns(init).len() && deny_patterns(init)[k] == spawn_target(init[i]);
        assert((deny_patterns(init) + tail)[k] == deny_patterns(init)[k]);
    } else {
        assert(tail[0] == spawn_target(last));
        assert((deny_patterns(init) + tail)[deny_patterns(init).len() as int] == tail[0]);
    }
}

/// Every path blocked by `auto_blacklist_real_utilities` (see
/// [`deny_patterns`]) that holds no glob special character is then denied by
/// name (see [`denied_by_name`]), so `check_process_spawn` refuses it,
/// whatever other rules the policy has.
pub proof fn law_blocked_real_utilities_are_refused(
    before: Seq<CommandRule>,
    after: Seq<CommandRule>,
    found: Seq<(Seq<char>, Option<Seq<char>>)>,
    q: Seq<char>,
)
    requires
        command_views(after) == command_views(before) + deny_rules(deny_patterns(found)),
        deny_patterns(found).contains(q),
        no_glob_metachars(q),
    ensures
        denied_by_name(after, q),
{
    let n = before.len() as int;
    let dp = deny_patterns(found);
    let ca = command_views(after);
    assert(ca.len() == n + dp.len());
    let t = choose|t: int| 0 <= t < dp.len() && dp[t] == q;
    let m = n + t;
    assert(ca[m] == deny_rules(dp)[t]);
    assert(after[m]@ == ca[m]);
    assert(after[m].pattern@ == q && after[m].action == RuleAction::Deny);
}

/// Every real utility found is refused a spawn afterwards: after
/// `auto_blacklist_real_utilities` with the found paths, each one's spawn
/// target (its canonical form, or the path as found when that did not
/// resolve) is denied by name when it holds no glob special character.
pub proof fn law_found_real_utilities_are_refused(
    before: Seq<CommandRule>,
    after: Seq<CommandRule>,
    found: Seq<(Seq<char>, Option<Seq<char>>)>,
    i: int,
)
    requires
        command_views(after) == command_views(before) + deny_rules(deny_patterns(found)),
        0 <= i < found.len(),
        no_glob_metachars(spawn_target(found[i])),
    ensures
        denied_by_name(after, spawn_target(found[i])),
{
    lemma_deny_patterns_cover_targets(found, i);
    law_blocked_real_utilities_are_refused(before, after, found, spawn_target(found[i]));
}

} // verus!
