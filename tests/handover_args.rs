use px_tools::args::{
    get_xcr_args, name_has_substr, repack_all_args, repack_one_args, wants_help,
};

fn argv(items: &[&str]) -> Vec<String> {
    items.iter().map(|s| s.to_string()).collect()
}

#[test]
fn xcr_args_found() {
    let args = argv(&["px-recount", "--xcrdir", "/tmp/data", "--xcrfile", "MR.1", "--cleanup"]);
    assert_eq!(
        get_xcr_args(&args),
        Some(("/tmp/data".to_string(), "MR.1".to_string()))
    );
}

#[test]
fn xcr_args_last_occurrence_wins() {
    let args = argv(&["p", "--xcrfile", "a", "--xcrdir", "d", "--xcrfile", "b"]);
    assert_eq!(get_xcr_args(&args), Some(("d".to_string(), "b".to_string())));
}

#[test]
fn xcr_args_missing() {
    assert_eq!(get_xcr_args(&argv(&["p", "--xcrdir", "d"])), None);
    assert_eq!(get_xcr_args(&argv(&["p", "--xcrfile", "f"])), None);
    assert_eq!(get_xcr_args(&argv(&["p", "--xcrdir"])), None);
    assert_eq!(get_xcr_args(&argv(&[])), None);
}

#[test]
fn single_file_handover_keeps_arguments() {
    let args = argv(&["px-recount", "--xcrdir", "d", "--xcrfile", "X", "--datadir", "/out"]);
    assert_eq!(
        repack_one_args(&args),
        argv(&["--xcrdir", "d", "--xcrfile", "X", "--datadir", "/out"])
    );
}

#[test]
fn all_files_handover_replaces_xcrfile() {
    let args = argv(&[
        "px-recount",
        "--xcrdir",
        "d",
        "--xcrfile",
        "X",
        "--datadir",
        "/out",
        "--cleanup",
    ]);
    assert_eq!(
        repack_all_args(&args),
        argv(&[
            "--xcrdir",
            "d",
            "--parseAllFilesWithSubStr",
            ",",
            "--datadir",
            "/out",
            "--cleanup"
        ])
    );
}

#[test]
fn all_files_handover_without_xcrfile() {
    let args = argv(&["px-recount", "--xcrdir", "d"]);
    assert_eq!(repack_all_args(&args), argv(&["--xcrdir", "d"]));
    assert_eq!(repack_all_args(&argv(&["px-recount"])), argv(&[]));
}

#[test]
fn help_is_recognised() {
    assert!(wants_help(&argv(&["p", "-h"])));
    assert!(wants_help(&argv(&["p", "--help"])));
    assert!(wants_help(&argv(&["p", "-help"])));
    assert!(!wants_help(&argv(&["p", "--xcrdir", "d"])));
    assert!(!wants_help(&argv(&["p", "help"])));
    assert!(!wants_help(&argv(&[])));
}

#[test]
fn file_selection_by_substring() {
    assert!(name_has_substr("MR.1.2.840,5.dcm", ","));
    assert!(!name_has_substr("MR.1.2.840.5.dcm", ","));
    assert!(name_has_substr("anything", ""));
    assert!(name_has_substr("", ""));
    assert!(!name_has_substr("", ","));
    assert!(name_has_substr("abcabd", "abd"));
    assert!(!name_has_substr("ab", "abc"));
    assert!(name_has_substr("abc", "abc"));
}
