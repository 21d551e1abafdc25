//! Argument schemas for POSIX utilities.
//!
//! A schema says how a utility uses its arguments, so that the ones naming
//! files can be checked against the policy before the real utility runs.
use vstd::prelude::*;
use crate::rules::FileAccessMode;
use crate::text::{chars_of, concat, own, std_uppercase, to_uppercase, vec_eq};

verus! {

/// Argument pattern for a utility.
#[derive(Debug, Clone, Copy, PartialEq, Eq, Structural)]
pub enum ArgPattern {
    /// All positional args are files (e.g., cat, rm, ls).
    AllPositionalFiles {
        /// Access mode of every file.
        access_mode: FileAccessMode,
    },
    /// Skip first N positional args, rest are files (e.g., grep PATTERN [FILE]...).
    SkipThenFiles {
        /// Number of leading positional args that are not files.
        skip_count: usize,
        /// Access mode of the files.
        access_mode: FileAccessMode,
    },
    /// Source files and destination (e.g., cp, mv).
    SourceDest {
        /// Access mode of the sources.
        source_mode: FileAccessMode,
        /// Access mode of the destination.
        dest_mode: FileAccessMode,
    },
}

/// Describes how a POSIX utility processes arguments.
#[derive(Debug, Clone, Copy)]
pub struct UtilitySchema {
    /// Name of the utility (e.g., "cat", "cp").
    pub name: &'static str,
    /// Path to the real system utility (fallback if the environment names none).
    pub real_path: &'static str,
    /// Argument pattern rules.
    pub arg_pattern: ArgPattern,
}

/// A file argument extracted from a command line.
#[derive(Debug, Clone)]
pub struct FileArg {
    /// Path to the file.
    pub path: String,
    /// Access mode required for this file.
    pub access_mode: FileAccessMode,
}

impl FileArg {
    /// Create a new file argument.
    pub fn new(path: String, access_mode: FileAccessMode) -> (f: Self)
        ensures
            f.path == path,
            f.access_mode == access_mode,
    {
        FileArg { path, access_mode }
    }
}

/// The environment variable that names a utility's real path:
/// `BRUSHFIRE_<NAME>_PATH`, with the name upper-cased.
pub open spec fn real_path_var(name: Seq<char>) -> Seq<char> {
    "BRUSHFIRE_"@ + std_uppercase(name) + "_PATH"@
}

impl UtilitySchema {
    /// The name of the environment variable that can override the real path.
    pub fn real_path_env_var(&self) -> (r: String)
        ensures
            r@ == real_path_var(self.name@),
    {
        let upper = to_uppercase(self.name);
        let v = concat(&concat(&chars_of("BRUSHFIRE_"), &chars_of(upper.as_str())), &chars_of("_PATH"));
        crate::text::string_of(&v)
    }

    /// Get the real path for this utility: the value of its environment
    /// variable (see [`UtilitySchema::real_path_env_var`]) when it is set,
    /// else the built-in path.
    pub fn get_real_path(&self, env_value: Option<String>) -> (r: String)
        ensures
            r@ == (match env_value {
                Some(v) => v@,
                None => self.real_path@,
            }),
    {
        match env_value {
            Some(v) => v,
            None => own(self.real_path),
        }
    }
}

/// The schemas of the wrapped utilities, in order.
pub open spec fn schema_table() -> Seq<UtilitySchema> {
    seq![
        UtilitySchema {
            name: "cat",
            real_path: "/bin/cat",
            arg_pattern: ArgPattern::AllPositionalFiles { access_mode: FileAccessMode::Read },
        },
        UtilitySchema {
            name: "rm",
            real_path: "/bin/rm",
            arg_pattern: ArgPattern::AllPositionalFiles { access_mode: FileAccessMode::Write },
        },
        UtilitySchema {
            name: "cp",
            real_path: "/bin/cp",
            arg_pattern: ArgPattern::SourceDest { source_mode: FileAccessMode::Read, dest_mode: FileAccessMode::Write },
        },
        UtilitySchema {
            name: "mv",
            real_path: "/bin/mv",
            arg_pattern: ArgPattern::SourceDest { source_mode: FileAccessMode::Read, dest_mode: FileAccessMode::Write },
        },
        UtilitySchema {
            name: "ls",
            real_path: "/bin/ls",
            arg_pattern: ArgPattern::AllPositionalFiles { access_mode: FileAccessMode::Read },
        },
        UtilitySchema {
            name: "grep",
            real_path: "/usr/bin/grep",
            arg_pattern: ArgPattern::SkipThenFiles { skip_count: 1, access_mode: FileAccessMode::Read },
        },
        UtilitySchema {
            name: "head",
            real_path: "/usr/bin/head",
            arg_pattern: ArgPattern::AllPositionalFiles { access_mode: FileAccessMode::Read },
        },
        UtilitySchema {
            name: "tail",
            real_path: "/usr/bin/tail",
            arg_pattern: ArgPattern::AllPositionalFiles { access_mode: FileAccessMode::Read },
        },
        UtilitySchema {
            name: "touch",
            real_path: "/usr/bin/touch",
            arg_pattern: ArgPattern::AllPositionalFiles { access_mode: FileAccessMode::Write },
        },
        UtilitySchema {
            name: "mkdir",
            real_path: "/bin/mkdir",
            arg_pattern: ArgPattern::AllPositionalFiles { access_mode: FileAccessMode::Write },
        },
        UtilitySchema {
            name: "ln",
            real_path: "/bin/ln",
            arg_pattern: ArgPattern::SourceDest { source_mode: FileAccessMode::Read, dest_mode: FileAccessMode::Write },
        },
        UtilitySchema {
            name: "chmod",
            real_path: "/bin/chmod",
            arg_pattern: ArgPattern::SkipThenFiles { skip_count: 1, access_mode: FileAccessMode::Write },
        },
        UtilitySchema {
            name: "chown",
            real_path: "/usr/sbin/chown",
            arg_pattern: ArgPattern::SkipThenFiles { skip_count: 1, access_mode: FileAccessMode::Write },
        },
        UtilitySchema {
            name: "chgrp",
            real_path: "/usr/bin/chgrp",
            arg_pattern: ArgPattern::SkipThenFiles { skip_count: 1, access_mode: FileAccessMode::Write },
        },
        UtilitySchema {
            name: "rmdir",
            real_path: "/bin/rmdir",
            arg_pattern: ArgPattern::AllPositionalFiles { access_mode: FileAccessMode::Write },
        },
        UtilitySchema {
            name: "dd",
            real_path: "/bin/dd",
            arg_pattern: ArgPattern::AllPositionalFiles { access_mode: FileAccessMode::Write },
        },
        UtilitySchema {
            name: "file",
            real_path: "/usr/bin/file",
            arg_pattern: ArgPattern::AllPositionalFiles { access_mode: FileAccessMode::Read },
        },
        UtilitySchema {
            name: "stat",
            real_path: "/usr/bin/stat",
            arg_pattern: ArgPattern::AllPositionalFiles { access_mode: FileAccessMode::Read },
        },
        UtilitySchema {
            name: "sed",
            real_path: "/usr/bin/sed",
            arg_pattern: ArgPattern::AllPositionalFiles { access_mode: FileAccessMode::Read },
        },
        UtilitySchema {
            name: "awk",
            real_path: "/usr/bin/awk",
            arg_pattern: ArgPattern::SkipThenFiles { skip_count: 1, access_mode: FileAccessMode::Read },
        },
        UtilitySchema {
            name: "cut",
            real_path: "/usr/bin/cut",
            arg_pattern: ArgPattern::AllPositionalFiles { access_mode: FileAccessMode::Read },
        },
        UtilitySchema {
            name: "paste",
            real_path: "/usr/bin/paste",
            arg_pattern: ArgPattern::AllPositionalFiles { access_mode: FileAccessMode::Read },
        },
        UtilitySchema {
            name: "sort",
            real_path: "/usr/bin/sort",
            arg_pattern: ArgPattern::AllPositionalFiles { access_mode: FileAccessMode::Read },
        },
        UtilitySchema {
            name: "uniq",
            real_path: "/usr/bin/uniq",
            arg_pattern: ArgPattern::AllPositionalFiles { access_mode: FileAccessMode::Read },
        },
        UtilitySchema {
            name: "tr",
            real_path: "/usr/bin/tr",
            arg_pattern: ArgPattern::AllPositionalFiles { access_mode: FileAccessMode::Read },
        },
        UtilitySchema {
            name: "wc",
            real_path: "/usr/bin/wc",
            arg_pattern: ArgPattern::AllPositionalFiles { access_mode: FileAccessMode::Read },
        },
        UtilitySchema {
            name: "tee",
            real_path: "/usr/bin/tee",
            arg_pattern: ArgPattern::AllPositionalFiles { access_mode: FileAccessMode::Write },
        },
        UtilitySchema {
            name: "diff",
            real_path: "/usr/bin/diff",
            arg_pattern: ArgPattern::AllPositionalFiles { access_mode: FileAccessMode::Read },
        },
        UtilitySchema {
            name: "tar",
            real_path: "/usr/bin/tar",
            arg_pattern: ArgPattern::AllPositionalFiles { access_mode: FileAccessMode::Write },
        },
        UtilitySchema {
            name: "find",
            real_path: "/usr/bin/find",
            arg_pattern: ArgPattern::AllPositionalFiles { access_mode: FileAccessMode::Read },
        },
    ]
}

/// The schemas of all wrapped utilities.
pub fn utility_schemas() -> (r: Vec<UtilitySchema>)
    ensures
        r@ == schema_table(),
{
    let r = vec![
        UtilitySchema {
            name: "cat",
            real_path: "/bin/cat",
            arg_pattern: ArgPattern::AllPositionalFiles { access_mode: FileAccessMode::Read },
        },
        UtilitySchema {
            name: "rm",
            real_path: "/bin/rm",
            arg_pattern: ArgPattern::AllPositionalFiles { access_mode: FileAccessMode::Write },
        },
        UtilitySchema {
            name: "cp",
            real_path: "/bin/cp",
            arg_pattern: ArgPattern::SourceDest { source_mode: FileAccessMode::Read, dest_mode: FileAccessMode::Write },
        },
        UtilitySchema {
            name: "mv",
            real_path: "/bin/mv",
            arg_pattern: ArgPattern::SourceDest { source_mode: FileAccessMode::Read, dest_mode: FileAccessMode::Write },
        },
        UtilitySchema {
            name: "ls",
            real_path: "/bin/ls",
            arg_pattern: ArgPattern::AllPositionalFiles { access_mode: FileAccessMode::Read },
        },
        UtilitySchema {
            name: "grep",
            real_path: "/usr/bin/grep",
            arg_pattern: ArgPattern::SkipThenFiles { skip_count: 1, access_mode: FileAccessMode::Read },
        },
        UtilitySchema {
            name: "head",
            real_path: "/usr/bin/head",
            arg_pattern: ArgPattern::AllPositionalFiles { access_mode: FileAccessMode::Read },
        },
        UtilitySchema {
            name: "tail",
            real_path: "/usr/bin/tail",
            arg_pattern: ArgPattern::AllPositionalFiles { access_mode: FileAccessMode::Read },
        },
        UtilitySchema {
            name: "touch",
            real_path: "/usr/bin/touch",
            arg_pattern: ArgPattern::AllPositionalFiles { access_mode: FileAccessMode::Write },
        },
        UtilitySchema {
            name: "mkdir",
            real_path: "/bin/mkdir",
            arg_pattern: ArgPattern::AllPositionalFiles { access_mode: FileAccessMode::Write },
        },
        UtilitySchema {
            name: "ln",
            real_path: "/bin/ln",
            arg_pattern: ArgPattern::SourceDest { source_mode: FileAccessMode::Read, dest_mode: FileAccessMode::Write },
        },
        UtilitySchema {
            name: "chmod",
            real_path: "/bin/chmod",
            arg_pattern: ArgPattern::SkipThenFiles { skip_count: 1, access_mode: FileAccessMode::Write },
        },
        UtilitySchema {
            name: "chown",
            real_path: "/usr/sbin/chown",
            arg_pattern: ArgPattern::SkipThenFiles { skip_count: 1, access_mode: FileAccessMode::Write },
        },
        UtilitySchema {
            name: "chgrp",
            real_path: "/usr/bin/chgrp",
            arg_pattern: ArgPattern::SkipThenFiles { skip_count: 1, access_mode: FileAccessMode::Write },
        },
        UtilitySchema {
            name: "rmdir",
            real_path: "/bin/rmdir",
            arg_pattern: ArgPattern::AllPositionalFiles { access_mode: FileAccessMode::Write },
        },
        UtilitySchema {
            name: "dd",
            real_path: "/bin/dd",
            arg_pattern: ArgPattern::AllPositionalFiles { access_mode: FileAccessMode::Write },
        },
        UtilitySchema {
            name: "file",
            real_path: "/usr/bin/file",
            arg_pattern: ArgPattern::AllPositionalFiles { access_mode: FileAccessMode::Read },
        },
        UtilitySchema {
            name: "stat",
            real_path: "/usr/bin/stat",
            arg_pattern: ArgPattern::AllPositionalFiles { access_mode: FileAccessMode::Read },
        },
        UtilitySchema {
            name: "sed",
            real_path: "/usr/bin/sed",
            arg_pattern: ArgPattern::AllPositionalFiles { access_mode: FileAccessMode::Read },
        },
        UtilitySchema {
            name: "awk",
            real_path: "/usr/bin/awk",
            arg_pattern: ArgPattern::SkipThenFiles { skip_count: 1, access_mode: FileAccessMode::Read },
        },
        UtilitySchema {
            name: "cut",
            real_path: "/usr/bin/cut",
            arg_pattern: ArgPattern::AllPositionalFiles { access_mode: FileAccessMode::Read },
        },
        UtilitySchema {
            name: "paste",
            real_path: "/usr/bin/paste",
            arg_pattern: ArgPattern::AllPositionalFiles { access_mode: FileAccessMode::Read },
        },
        UtilitySchema {
            name: "sort",
            real_path: "/usr/bin/sort",
            arg_pattern: ArgPattern::AllPositionalFiles { access_mode: FileAccessMode::Read },
        },
        UtilitySchema {
            name: "uniq",
            real_path: "/usr/bin/uniq",
            arg_pattern: ArgPattern::AllPositionalFiles { access_mode: FileAccessMode::Read },
        },
        UtilitySchema {
            name: "tr",
            real_path: "/usr/bin/tr",
            arg_pattern: ArgPattern::AllPositionalFiles { access_mode: FileAccessMode::Read },
        },
        UtilitySchema {
            name: "wc",
            real_path: "/usr/bin/wc",
            arg_pattern: ArgPattern::AllPositionalFiles { access_mode: FileAccessMode::Read },
        },
        UtilitySchema {
            name: "tee",
            real_path: "/usr/bin/tee",
            arg_pattern: ArgPattern::AllPositionalFiles { access_mode: FileAccessMode::Write },
        },
        UtilitySchema {
            name: "diff",
            real_path: "/usr/bin/diff",
            arg_pattern: ArgPattern::AllPositionalFiles { access_mode: FileAccessMode::Read },
        },
        UtilitySchema {
            name: "tar",
            real_path: "/usr/bin/tar",
            arg_pattern: ArgPattern::AllPositionalFiles { access_mode: FileAccessMode::Write },
        },
        UtilitySchema {
            name: "find",
            real_path: "/usr/bin/find",
            arg_pattern: ArgPattern::AllPositionalFiles { access_mode: FileAccessMode::Read },
        },
    ];
    assert(r@ =~= schema_table());
    r
}

/// The schema of the utility called `name`, if it is wrapped.
pub fn find_schema(name: &str) -> (r: Option<UtilitySchema>)
    ensures
        r matches Some(s) ==> s.name@ == name@ && exists|i: int|
            0 <= i < schema_table().len() && schema_table()[i] == s,
        r is None ==> forall|i: int|
            0 <= i < schema_table().len() ==> (#[trigger] schema_table()[i]).name@ != name@,
{
    let all = utility_schemas();
    let key = chars_of(name);
    let mut i: usize = 0;
    while i < all.len()
        invariant
            i <= all.len(),
            all@ == schema_table(),
            key@ == name@,
            forall|j: int| 0 <= j < i ==> (#[trigger] schema_table()[j]).name@ != name@,
        decreases all.len() - i,
    {
        if vec_eq(&chars_of(all[i].name), &key) {
            return Some(all[i]);
        }
        i += 1;
    }
    None
}

/// The names of the wrapped utilities, in order.
pub fn wrapped_utilities() -> (r: Vec<&'static str>)
    ensures
        r@ == schema_table().map_values(|s: UtilitySchema| s.name),
{
    let all = utility_schemas();
    let mut r: Vec<&'static str> = Vec::new();
    let mut i: usize = 0;
    while i < all.len()
        invariant
            i <= all.len(),
            all@ == schema_table(),
            r@ == schema_table().map_values(|s: UtilitySchema| s.name).take(i as int),
        decreases all.len() - i,
    {
        r.push(all[i].name);
        i += 1;
        assert(r@ =~= schema_table().map_values(|s: UtilitySchema| s.name).take(i as int));
    }
    assert(schema_table().map_values(|s: UtilitySchema| s.name).take(all.len() as int) =~= schema_table().map_values(|s: UtilitySchema| s.name));
    r
}

} // verus!
