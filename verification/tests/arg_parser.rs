use brushfire::arg_parser::files_to_check;
use brushfire::schemas::{find_schema, utility_schemas, wrapped_utilities};
use brushfire::{extract_positional_args, parse_args, ArgPattern, FileAccessMode, FileArg, UtilitySchema};

#[test]
fn test_extract_positional_simple() {
    let args = vec!["file1.txt".to_string(), "file2.txt".to_string()];
    let result = extract_positional_args(&args);
    assert_eq!(result, vec!["file1.txt", "file2.txt"]);
}

#[test]
fn test_extract_positional_with_flags() {
    let args = vec![
        "-n".to_string(),
        "file1.txt".to_string(),
        "--verbose".to_string(),
        "file2.txt".to_string(),
    ];
    let result = extract_positional_args(&args);
    assert_eq!(result, vec!["file1.txt", "file2.txt"]);
}

#[test]
fn test_extract_positional_after_delimiter() {
    let args = vec!["file1.txt".to_string(), "--".to_string(), "-file2.txt".to_string()];
    let result = extract_positional_args(&args);
    assert_eq!(result, vec!["file1.txt", "-file2.txt"]);
}

#[test]
fn test_extract_positional_stdin() {
    let args = vec!["-n".to_string(), "-".to_string()];
    let result = extract_positional_args(&args);
    assert_eq!(result, vec!["-"]);
}

#[test]
fn test_parse_all_positional() {
    let schema = UtilitySchema {
        name: "cat",
        real_path: "/bin/cat",
        arg_pattern: ArgPattern::AllPositionalFiles { access_mode: FileAccessMode::Read },
    };

    let args = vec!["file1.txt".to_string(), "file2.txt".to_string()];
    let result = parse_args(&schema, &args);

    assert_eq!(result.len(), 2);
    assert_eq!(result[0].path, "file1.txt");
    assert_eq!(result[1].path, "file2.txt");
}

#[test]
fn test_parse_skip_then_files() {
    let schema = UtilitySchema {
        name: "grep",
        real_path: "/usr/bin/grep",
        arg_pattern: ArgPattern::SkipThenFiles { skip_count: 1, access_mode: FileAccessMode::Read },
    };

    let args = vec!["pattern".to_string(), "file1.txt".to_string(), "file2.txt".to_string()];
    let result = parse_args(&schema, &args);

    assert_eq!(result.len(), 2);
    assert_eq!(result[0].path, "file1.txt");
    assert_eq!(result[1].path, "file2.txt");
}

#[test]
fn test_parse_source_dest() {
    let schema = UtilitySchema {
        name: "cp",
        real_path: "/bin/cp",
        arg_pattern: ArgPattern::SourceDest {
            source_mode: FileAccessMode::Read,
            dest_mode: FileAccessMode::Write,
        },
    };

    let args = vec!["src.txt".to_string(), "dest.txt".to_string()];
    let result = parse_args(&schema, &args);

    assert_eq!(result.len(), 2);
    assert_eq!(result[0].path, "src.txt");
    assert_eq!(result[1].path, "dest.txt");
}

#[test]
fn test_parse_source_dest_multiple_sources() {
    let schema = UtilitySchema {
        name: "cp",
        real_path: "/bin/cp",
        arg_pattern: ArgPattern::SourceDest {
            source_mode: FileAccessMode::Read,
            dest_mode: FileAccessMode::Write,
        },
    };

    let args = vec!["src1.txt".to_string(), "src2.txt".to_string(), "dest/".to_string()];
    let result = parse_args(&schema, &args);

    assert_eq!(result.len(), 3);
    assert_eq!(result[0].path, "src1.txt");
    assert_eq!(result[1].path, "src2.txt");
    assert_eq!(result[2].path, "dest/");
}

fn modes(v: &[FileArg]) -> Vec<FileAccessMode> {
    v.iter().map(|f| f.access_mode).collect()
}

#[test]
fn source_dest_modes_and_edge_cases() {
    let cp = find_schema("cp").unwrap();
    let r = parse_args(&cp, &["-r".to_string(), "a".to_string(), "b".to_string(), "c".to_string()]);
    assert_eq!(modes(&r), vec![FileAccessMode::Read, FileAccessMode::Read, FileAccessMode::Write]);
    assert!(parse_args(&cp, &["-f".to_string()]).is_empty());
    let one = parse_args(&cp, &["only".to_string()]);
    assert_eq!(one.len(), 1);
    assert_eq!(one[0].access_mode, FileAccessMode::Write);
}

#[test]
fn skip_count_larger_than_arguments() {
    let chmod = find_schema("chmod").unwrap();
    assert!(parse_args(&chmod, &[]).is_empty());
    assert!(parse_args(&chmod, &["755".to_string()]).is_empty());
    let r = parse_args(&chmod, &["755".to_string(), "x".to_string()]);
    assert_eq!(r.len(), 1);
    assert_eq!(r[0].path, "x");
    assert_eq!(r[0].access_mode, FileAccessMode::Write);
}

#[test]
fn everything_after_delimiter_is_positional() {
    let args: Vec<String> = ["--", "--", "-", "-x", "y"].iter().map(|s| s.to_string()).collect();
    assert_eq!(extract_positional_args(&args), vec!["--", "-", "-x", "y"]);
}

#[test]
fn schema_table() {
    let all = utility_schemas();
    assert_eq!(all.len(), 30);
    let names = wrapped_utilities();
    assert_eq!(names.len(), 30);
    assert_eq!(names[0], "cat");
    assert_eq!(names[29], "find");
    let grep = find_schema("grep").unwrap();
    assert_eq!(grep.real_path, "/usr/bin/grep");
    assert!(matches!(grep.arg_pattern, ArgPattern::SkipThenFiles { skip_count: 1, access_mode: FileAccessMode::Read }));
    let chown = find_schema("chown").unwrap();
    assert_eq!(chown.real_path, "/usr/sbin/chown");
    assert!(find_schema("vim").is_none());
    let tar = find_schema("tar").unwrap();
    assert!(matches!(tar.arg_pattern, ArgPattern::AllPositionalFiles { access_mode: FileAccessMode::Write }));
}

#[test]
fn real_path_from_environment() {
    let ls = find_schema("ls").unwrap();
    assert_eq!(ls.real_path_env_var(), "BRUSHFIRE_LS_PATH");
    assert_eq!(ls.get_real_path(None), "/bin/ls");
    assert_eq!(ls.get_real_path(Some("/opt/homebrew/bin/gls".to_string())), "/opt/homebrew/bin/gls");
    let mkdir = find_schema("mkdir").unwrap();
    assert_eq!(mkdir.real_path_env_var(), "BRUSHFIRE_MKDIR_PATH");
}

#[test]
fn file_arg_new_keeps_its_fields() {
    let f = FileArg::new("a.txt".to_string(), FileAccessMode::Execute);
    assert_eq!(f.path, "a.txt");
    assert_eq!(f.access_mode, FileAccessMode::Execute);
}

#[test]
fn ls_and_find_check_the_current_directory_by_default() {
    let ls = find_schema("ls").unwrap();
    let r = files_to_check(&ls, &["-la".to_string()]);
    assert_eq!(r.len(), 1);
    assert_eq!(r[0].path, ".");
    assert_eq!(r[0].access_mode, FileAccessMode::Read);
    let find = find_schema("find").unwrap();
    assert_eq!(files_to_check(&find, &[])[0].path, ".");
    let r = files_to_check(&find, &["/src".to_string(), "-name".to_string()]);
    assert_eq!(r.len(), 1);
    assert_eq!(r[0].path, "/src");
    let cat = find_schema("cat").unwrap();
    assert!(files_to_check(&cat, &["-n".to_string()]).is_empty());
}
