//! Argument parsing for utility wrappers.
//!
//! The command line of a wrapped utility is parsed by its schema to find the
//! arguments that are file paths needing policy checks.
use vstd::prelude::*;
use crate::rules::FileAccessMode;
use crate::schemas::{ArgPattern, FileArg, UtilitySchema};
use crate::text::has_prefix;

verus! {

/// The views of a list of strings.
pub open spec fn arg_views(args: Seq<String>) -> Seq<Seq<char>> {
    args.map_values(|a: String| a@)
}

/// The positional arguments among `args`, once `after_delimiter` says
/// whether `--` was already seen: after `--` every argument is positional;
/// before it, `--` itself is dropped, `-` (stdin) is kept, and other
/// arguments starting with `-` are flags and dropped.
pub open spec fn positional_args(args: Seq<Seq<char>>, after_delimiter: bool) -> Seq<Seq<char>>
    decreases args.len(),
{
    if args.len() == 0 {
        seq![]
    } else {
        let a = args[0];
        let rest = args.skip(1);
        if after_delimiter {
            seq![a] + positional_args(rest, true)
        } else if a == "--"@ {
            positional_args(rest, true)
        } else if a == "-"@ {
            seq![a] + positional_args(rest, false)
        } else if !has_prefix(a, "-"@) {
            seq![a] + positional_args(rest, false)
        } else {
            positional_args(rest, false)
        }
    }
}

/// Every path of `paths` with access mode `m`.
pub open spec fn with_mode(paths: Seq<Seq<char>>, m: FileAccessMode) -> Seq<(Seq<char>, FileAccessMode)> {
    paths.map_values(|p: Seq<char>| (p, m))
}

/// The file arguments a pattern makes of the positional arguments.
pub open spec fn pattern_files(pattern: ArgPattern, pos: Seq<Seq<char>>) -> Seq<(Seq<char>, FileAccessMode)> {
    match pattern {
        ArgPattern::AllPositionalFiles { access_mode } => with_mode(pos, access_mode),
        ArgPattern::SkipThenFiles { skip_count, access_mode } => if skip_count <= pos.len() {
            with_mode(pos.skip(skip_count as int), access_mode)
        } else {
            seq![]
        },
        ArgPattern::SourceDest { source_mode, dest_mode } => if pos.len() == 0 {
            seq![]
        } else {
            with_mode(pos.drop_last(), source_mode) + seq![(pos.last(), dest_mode)]
        },
    }
}

/// The views of a list of file arguments.
pub open spec fn file_arg_views(v: Seq<FileArg>) -> Seq<(Seq<char>, FileAccessMode)> {
    v.map_values(|f: FileArg| (f.path@, f.access_mode))
}

/// Extract positional arguments from a command line.
///
/// Filters out flags (arguments starting with `-`) unless they appear after
/// the `--` delimiter or are the special `-` stdin indicator.
pub fn extract_positional_args(args: &[String]) -> (r: Vec<String>)
    ensures
        arg_views(r@) == positional_args(arg_views(args@), false),
{
    let mut positional: Vec<String> = Vec::new();
    let mut after_delimiter = false;
    let mut i: usize = 0;
    let ghost all = arg_views(args@);
    assert(all.skip(0) =~= all);
    while i < args.len()
        invariant
            i <= args.len(),
            all == arg_views(args@),
            positional_args(all, false) == arg_views(positional@) + positional_args(
                all.skip(i as int),
                after_delimiter,
            ),
        decreases args.len() - i,
    {
        let arg = &args[i];
        let a = crate::text::chars_of(arg.as_str());
        proof {
            assert(all.skip(i as int)[0] == arg@);
            assert(all.skip(i as int).skip(1) =~= all.skip(i + 1));
        }
        let ghost before = positional@;
        if after_delimiter {
            positional.push(arg.clone());
        } else if crate::text::vec_eq(&a, &crate::text::chars_of("--")) {
            after_delimiter = true;
        } else if crate::text::vec_eq(&a, &crate::text::chars_of("-")) {
            positional.push(arg.clone());
        } else if !crate::text::starts_with(&a, &crate::text::chars_of("-")) {
            positional.push(arg.clone());
        }
        proof {
            if positional@.len() > before.len() {
                assert(arg_views(positional@) =~= arg_views(before) + seq![arg@]);
            }
        }
        i += 1;
    }
    assert(all.skip(args.len() as int) =~= Seq::<Seq<char>>::empty());
    assert(arg_views(positional@) =~= arg_views(positional@) + Seq::<Seq<char>>::empty());
    positional
}

/// Parse command line arguments according to a utility schema.
///
/// Extracts the file paths among the positional arguments (see
/// [`extract_positional_args`]) as the schema's pattern says, each with the
/// access mode the pattern gives it.
pub fn parse_args(schema: &UtilitySchema, args: &[String]) -> (r: Vec<FileArg>)
    ensures
        file_arg_views(r@) == pattern_files(
            schema.arg_pattern,
            positional_args(arg_views(args@), false),
        ),
{
    let positional = extract_positional_args(args);
    let ghost pos = arg_views(positional@);
    let (start, last_mode) = match schema.arg_pattern {
        ArgPattern::AllPositionalFiles { access_mode } => (0, None),
        ArgPattern::SkipThenFiles { skip_count, access_mode } => (skip_count, None),
        ArgPattern::SourceDest { source_mode, dest_mode } => (0, Some(dest_mode)),
    };
    let mode = match schema.arg_pattern {
        ArgPattern::AllPositionalFiles { access_mode } => access_mode,
        ArgPattern::SkipThenFiles { skip_count, access_mode } => access_mode,
        ArgPattern::SourceDest { source_mode, dest_mode } => source_mode,
    };
    let mut file_args: Vec<FileArg> = Vec::new();
    if start > positional.len() || positional.len() == 0 {
        assert(file_arg_views(file_args@) =~= pattern_files(schema.arg_pattern, pos));
        return file_args;
    }
    let end = match last_mode {
        Some(_) => positional.len() - 1,
        None => positional.len(),
    };
    let mut i: usize = start;
    while i < end
        invariant
            start <= i <= end,
            end <= positional.len(),
            pos == arg_views(positional@),
            file_arg_views(file_args@) == with_mode(pos.subrange(start as int, i as int), mode),
        decreases end - i,
    {
        let ghost before = file_arg_views(file_args@);
        let fa = FileArg::new(positional[i].clone(), mode);
        assert(fa.path@ == pos[i as int]);
        file_args.push(fa);
        assert(file_arg_views(file_args@) =~= before.push((pos[i as int], mode)));
        assert(pos.subrange(start as int, i + 1) =~= pos.subrange(start as int, i as int).push(
            pos[i as int],
        ));
        i += 1;
    }
    if let Some(dest_mode) = last_mode {
        let ghost sources = file_arg_views(file_args@);
        let fa = FileArg::new(positional[positional.len() - 1].clone(), dest_mode);
        assert(fa.path@ == pos.last());
        file_args.push(fa);
        assert(file_arg_views(file_args@) =~= sources + seq![(pos.last(), dest_mode)]);
    }
    proof {
        assert(pos.subrange(start as int, pos.len() as int) =~= pos.skip(start as int));
        assert(pos.subrange(0, pos.len() - 1) =~= pos.drop_last());
    }
    file_args
}

/// Utilities that work on the current directory when no file is named.
pub open spec fn lists_cwd_by_default(name: Seq<char>) -> bool {
    name == "ls"@ || name == "find"@
}

/// The files a wrapper checks before running its utility: the file
/// arguments of the command line (see [`parse_args`]), or, for `ls` and
/// `find` given none, the current directory, read.
pub fn files_to_check(schema: &UtilitySchema, args: &[String]) -> (r: Vec<FileArg>)
    ensures
        ({
            let files = pattern_files(schema.arg_pattern, positional_args(arg_views(args@), false));
            if files.len() == 0 && lists_cwd_by_default(schema.name@) {
                file_arg_views(r@) == seq![("."@, FileAccessMode::Read)]
            } else {
                file_arg_views(r@) == files
            }
        }),
{
    let mut files = parse_args(schema, args);
    let name = crate::text::chars_of(schema.name);
    if files.len() == 0 && (crate::text::vec_eq(&name, &crate::text::chars_of("ls"))
        || crate::text::vec_eq(&name, &crate::text::chars_of("find"))) {
        files.push(FileArg::new(crate::text::own("."), FileAccessMode::Read));
        assert(file_arg_views(files@) =~= seq![("."@, FileAccessMode::Read)]);
    }
    files
}

/// After the `--` delimiter every argument is positional, in order; before
/// it, no flag is: every positional argument is `-` or does not start with
/// `-`, unless `--` came before it.
pub proof fn law_positional_after_delimiter(args: Seq<Seq<char>>)
    ensures
        positional_args(args, true) == args,
        !args.contains("--"@) ==> forall|k: int|
            0 <= k < positional_args(args, false).len() ==> {
                let a = #[trigger] positional_args(args, false)[k];
                a == "-"@ || !has_prefix(a, "-"@)
            },
    decreases args.len(),
{
    if args.len() > 0 {
        law_positional_after_delimiter(args.skip(1));
        assert(seq![args[0]] + args.skip(1) =~= args);
        if !args.contains("--"@) {
            assert(!args.skip(1).contains("--"@)) by {
                if args.skip(1).contains("--"@) {
                    let j = choose|j: int| 0 <= j < args.skip(1).len() && args.skip(1)[j] == "--"@;
                    assert(args[j + 1] == "--"@);
                }
            }
            assert(args[0] != "--"@) by {
                if args[0] == "--"@ {
                    assert(args.contains("--"@));
                }
            }
            let a = args[0];
            let rest = positional_args(args.skip(1), false);
            assert forall|k: int| 0 <= k < positional_args(args, false).len() implies {
                let b = #[trigger] positional_args(args, false)[k];
                b == "-"@ || !has_prefix(b, "-"@)
            } by {
                if a == "-"@ || !has_prefix(a, "-"@) {
                    assert(positional_args(args, false) == seq![a] + rest);
                    if k > 0 {
                        assert(positional_args(args, false)[k] == rest[k - 1]);
                    }
                } else {
                    assert(positional_args(args, false) == rest);
                }
            }
        }
    }
}

/// Flags are dropped and operands kept: before the first `--`, every
/// argument that is `-` or does not start with `-` is kept, in order, and
/// every argument after it is kept as it is; nothing is kept that the
/// command line does not hold.
pub proof fn law_operands_are_kept(args: Seq<Seq<char>>, after_delimiter: bool)
    ensures
        forall|k: int|
            0 <= k < positional_args(args, after_delimiter).len() ==> args.contains(
                #[trigger] positional_args(args, after_delimiter)[k],
            ),
        !after_delimiter && !args.contains("--"@) ==> forall|k: int|
            0 <= k < args.len() && (args[k] == "-"@ || !has_prefix(args[k], "-"@))
                ==> positional_args(args, false).contains(#[trigger] args[k]),
        forall|j: int|
            0 <= j < args.len() && args[j] == "--"@ && !args.take(j).contains("--"@)
                ==> #[trigger] positional_args(args, false) == positional_args(args.take(j), false)
                + args.skip(j + 1),
    decreases args.len(),
{
    if args.len() == 0 {
        return;
    }
    let a = args[0];
    let rest = args.skip(1);
    law_operands_are_kept(rest, after_delimiter);
    law_operands_are_kept(rest, true);
    law_operands_are_kept(rest, false);
    law_positional_after_delimiter(rest);
    let p = positional_args(args, after_delimiter);
    let pr = positional_args(rest, after_delimiter || a == "--"@);
    assert(p == seq![a] + pr || p == pr);
    assert forall|k: int| 0 <= k < p.len() implies args.contains(#[trigger] p[k]) by {
        if p == seq![a] + pr {
            if k == 0 {
                assert(args[0] == a);
            } else {
                assert(p[k] == pr[k - 1]);
                let m = choose|m: int| 0 <= m < rest.len() && rest[m] == pr[k - 1];
                assert(args[m + 1] == rest[m]);
            }
        } else {
            let m = choose|m: int| 0 <= m < rest.len() && rest[m] == pr[k];
            assert(args[m + 1] == rest[m]);
        }
    }
    if !after_delimiter && !args.contains("--"@) {
        assert(a != "--"@) by {
            assert(args[0] == a);
        }
        assert(!rest.contains("--"@)) by {
            if rest.contains("--"@) {
                let m = choose|m: int| 0 <= m < rest.len() && rest[m] == "--"@;
                assert(args[m + 1] == "--"@);
            }
        }
        let q = positional_args(args, false);
        let qr = positional_args(rest, false);
        assert forall|k: int|
            0 <= k < args.len() && (args[k] == "-"@ || !has_prefix(args[k], "-"@)) implies q.contains(
            #[trigger] args[k],
        ) by {
            if k == 0 {
                assert(q == seq![a] + qr);
                assert(q[0] == a);
            } else {
                assert(args[k] == rest[k - 1]);
                assert(qr.contains(rest[k - 1]));
                let m = choose|m: int| 0 <= m < qr.len() && qr[m] == rest[k - 1];
                if q == seq![a] + qr {
                    assert(q[m + 1] == qr[m]);
                } else {
                    assert(q == qr);
                }
            }
        }
    }
    assert forall|j: int|
        0 <= j < args.len() && args[j] == "--"@ && !args.take(j).contains("--"@)
            implies #[trigger] positional_args(args, false) == positional_args(args.take(j), false)
            + args.skip(j + 1) by {
        if j == 0 {
            assert(args.take(0) =~= Seq::<Seq<char>>::empty());
            assert(positional_args(args, false) == positional_args(rest, true));
            assert(rest =~= args.skip(1));
        } else {
            assert(a != "--"@) by {
                assert(args.take(j)[0] == a);
            }
            assert(rest[j - 1] == "--"@);
            let rt = rest.take(j - 1);
            assert(!rt.contains("--"@)) by {
                if rt.contains("--"@) {
                    let m = choose|m: int| 0 <= m < rt.len() && #[trigger] rt[m] == "--"@;
                    assert(args.take(j)[m + 1] == "--"@);
                }
            }
            assert(positional_args(rest, false) == positional_args(rest.take(j - 1), false)
                + rest.skip(j));
            let t = args.take(j);
            assert(t[0] == a);
            assert(t.skip(1) =~= rest.take(j - 1));
            assert(rest.skip(j) =~= args.skip(j + 1));
            let qr = positional_args(rest, false);
            let tr = positional_args(rest.take(j - 1), false);
            if a == "-"@ || !has_prefix(a, "-"@) {
                assert(positional_args(t, false) == seq![a] + tr);
                assert(positional_args(args, false) == seq![a] + qr);
                assert(seq![a] + (tr + args.skip(j + 1)) =~= seq![a] + tr + args.skip(j + 1));
            } else {
                assert(positional_args(t, false) == tr);
                assert(positional_args(args, false) == qr);
            }
        }
    }
}

/// Every file argument carries the access mode the pattern names for it:
/// for all positional files, or for the files after the skipped ones, the
/// pattern's one mode; for a source and destination pattern, the source
/// mode for each argument but the last and the destination mode for the
/// last. And the files are the positional arguments themselves, in order:
/// all of them, all after the first `skip_count` ones (none when there are
/// not that many), or all of them for sources and destination.
pub proof fn law_file_args_carry_pattern_modes(pattern: ArgPattern, pos: Seq<Seq<char>>)
    ensures
        pattern matches ArgPattern::AllPositionalFiles { access_mode } ==> forall|k: int|
            0 <= k < pattern_files(pattern, pos).len() ==> (#[trigger] pattern_files(
                pattern,
                pos,
            )[k]).1 == access_mode,
        pattern matches ArgPattern::SkipThenFiles { access_mode, .. } ==> forall|k: int|
            0 <= k < pattern_files(pattern, pos).len() ==> (#[trigger] pattern_files(
                pattern,
                pos,
            )[k]).1 == access_mode,
        pattern matches ArgPattern::SourceDest { source_mode, dest_mode } ==> {
            &&& forall|k: int|
                0 <= k < pattern_files(pattern, pos).len() - 1 ==> (#[trigger] pattern_files(
                    pattern,
                    pos,
                )[k]).1 == source_mode
            &&& pos.len() > 0 ==> pattern_files(pattern, pos)[pos.len() - 1].1 == dest_mode
        },
        match pattern {
            ArgPattern::SkipThenFiles { skip_count, .. } => if skip_count <= pos.len() {
                pattern_files(pattern, pos).len() == pos.len() - skip_count && forall|k: int|
                    0 <= k < pos.len() - skip_count ==> #[trigger] pattern_files(pattern, pos)[k].0
                        == pos[k + skip_count]
            } else {
                pattern_files(pattern, pos).len() == 0
            },
            _ => pattern_files(pattern, pos).len() == pos.len() && forall|k: int|
                0 <= k < pos.len() ==> #[trigger] pattern_files(pattern, pos)[k].0 == pos[k],
        },
{
    let f = pattern_files(pattern, pos);
    match pattern {
        ArgPattern::SourceDest { source_mode, dest_mode } => {
            if pos.len() > 0 {
                let srcs = with_mode(pos.drop_last(), source_mode);
                assert(f == srcs + seq![(pos.last(), dest_mode)]);
                assert forall|k: int| 0 <= k < pos.len() implies #[trigger] f[k].0 == pos[k] && f[k].1
                    == (if k == pos.len() - 1 { dest_mode } else { source_mode }) by {
                    if k < pos.len() - 1 {
                        assert(f[k] == srcs[k]);
                    } else {
                        assert(f[k] == (pos.last(), dest_mode));
                    }
                }
            }
        },
        _ => {},
    }
}

} // verus!
