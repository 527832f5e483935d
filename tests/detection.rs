use nomgen::check::{
    change_set_from_statuses, check_exit_code, is_path_changed, normalize_path, run_check,
    ChangeSet, CheckError, CheckResult, StatusEntry, StatusFlags,
};
use nomgen::config::{protected_patterns, Config, Generator};

fn s(x: &str) -> String {
    x.to_string()
}

fn no_flags() -> StatusFlags {
    StatusFlags {
        index_new: false,
        index_modified: false,
        index_deleted: false,
        index_renamed: false,
        index_typechange: false,
        wt_new: false,
        wt_modified: false,
        wt_deleted: false,
        wt_renamed: false,
        wt_typechange: false,
    }
}

fn protect_only(patterns: &[&str]) -> Generator {
    Generator {
        command: None,
        args: None,
        patterns: Some(patterns.iter().map(|p| s(p)).collect()),
    }
}

fn gen_config() -> Config {
    Config { generators: vec![protect_only(&["gen/*.rs"])] }
}

fn entry(path: &str, flags: StatusFlags) -> StatusEntry {
    StatusEntry { path: Some(s(path)), flags }
}

#[test]
fn staged_generated_file_fails_check() {
    let mut f = no_flags();
    f.index_modified = true;
    let changes = change_set_from_statuses(&vec![entry("gen/a.rs", f)]);
    let expansions = vec![vec![s("gen/a.rs")]];
    let r = run_check(&gen_config(), &changes, &expansions).unwrap();
    assert_eq!(r, CheckResult::UndesiredChangesDetected);
    assert_eq!(check_exit_code(r), 1);
}

#[test]
fn unrelated_change_passes_check() {
    let mut f = no_flags();
    f.wt_modified = true;
    let changes = change_set_from_statuses(&vec![entry("src/main.rs", f)]);
    let expansions = vec![vec![s("gen/a.rs")]];
    let r = run_check(&gen_config(), &changes, &expansions).unwrap();
    assert_eq!(r, CheckResult::NoChangesDetected);
    assert_eq!(check_exit_code(r), 0);
}

#[test]
fn pattern_only_specs_without_changes_pass() {
    let config = Config {
        generators: vec![protect_only(&["gen/*.rs", "schema/*.json"]), protect_only(&[])],
    };
    let changes = ChangeSet { staged: vec![], unstaged: vec![] };
    let expansions = vec![vec![s("gen/a.rs"), s("gen/b.rs")], vec![s("schema/x.json")]];
    assert_eq!(
        run_check(&config, &changes, &expansions).unwrap(),
        CheckResult::NoChangesDetected
    );
}

#[test]
fn working_tree_modification_fails_check() {
    let mut f = no_flags();
    f.wt_modified = true;
    let changes = change_set_from_statuses(&vec![entry("gen/a.rs", f)]);
    assert!(changes.staged.is_empty());
    let expansions = vec![vec![s("gen/a.rs")]];
    assert_eq!(
        run_check(&gen_config(), &changes, &expansions).unwrap(),
        CheckResult::UndesiredChangesDetected
    );
}

#[test]
fn untracked_generated_file_fails_check() {
    let mut f = no_flags();
    f.wt_new = true;
    let changes = change_set_from_statuses(&vec![entry("gen/new.rs", f)]);
    assert_eq!(changes.unstaged, vec![s("gen/new.rs")]);
    let expansions = vec![vec![s("./gen/new.rs")]];
    assert_eq!(
        run_check(&gen_config(), &changes, &expansions).unwrap(),
        CheckResult::UndesiredChangesDetected
    );
}

#[test]
fn generator_without_patterns_is_never_checked() {
    let config = Config {
        generators: vec![Generator { command: Some(s("gen.sh")), args: None, patterns: None }],
    };
    assert!(protected_patterns(&config).is_empty());
    let mut f = no_flags();
    f.index_new = true;
    let changes = change_set_from_statuses(&vec![entry("gen/a.rs", f)]);
    assert_eq!(
        run_check(&config, &changes, &vec![]).unwrap(),
        CheckResult::NoChangesDetected
    );
}

#[test]
fn pattern_matching_nothing_is_no_violation() {
    let mut f = no_flags();
    f.index_modified = true;
    let changes = change_set_from_statuses(&vec![entry("gen/a.rs", f)]);
    assert_eq!(
        run_check(&gen_config(), &changes, &vec![vec![]]).unwrap(),
        CheckResult::NoChangesDetected
    );
}

#[test]
fn invalid_pattern_fails_whole_check() {
    let config = Config {
        generators: vec![protect_only(&["gen/*.rs"]), protect_only(&["a/***", "b/***"])],
    };
    let mut f = no_flags();
    f.index_modified = true;
    let changes = change_set_from_statuses(&vec![entry("gen/a.rs", f)]);
    let expansions = vec![vec![s("gen/a.rs")], vec![], vec![]];
    assert_eq!(
        run_check(&config, &changes, &expansions),
        Err(CheckError::InvalidPattern(s("a/***")))
    );
}

#[test]
fn valid_glob_syntax_is_accepted() {
    let config = Config { generators: vec![protect_only(&["gen/[ab]?.rs", "docs/**/*.md", ""])] };
    let changes = ChangeSet { staged: vec![], unstaged: vec![] };
    let expansions = vec![vec![], vec![], vec![]];
    assert_eq!(
        run_check(&config, &changes, &expansions).unwrap(),
        CheckResult::NoChangesDetected
    );
}

#[test]
fn status_split_by_flags() {
    let mut staged_and_wt = no_flags();
    staged_and_wt.index_modified = true;
    staged_and_wt.wt_deleted = true;
    let mut renamed = no_flags();
    renamed.index_renamed = true;
    let mut typechange = no_flags();
    typechange.wt_typechange = true;
    let entries = vec![
        entry("a.rs", staged_and_wt),
        entry("b.rs", renamed),
        entry("c.rs", typechange),
        entry("d.rs", no_flags()),
        StatusEntry { path: None, flags: renamed },
    ];
    let cs = change_set_from_statuses(&entries);
    assert_eq!(cs.staged, vec![s("a.rs"), s("b.rs")]);
    assert_eq!(cs.unstaged, vec![s("a.rs"), s("c.rs")]);
    assert!(is_path_changed(&cs, &s("c.rs")));
    assert!(!is_path_changed(&cs, &s("d.rs")));
}

#[test]
fn leading_dot_slash_is_stripped() {
    assert_eq!(normalize_path(&s("./gen/a.rs")), s("gen/a.rs"));
    assert_eq!(normalize_path(&s("gen/a.rs")), s("gen/a.rs"));
    assert_eq!(normalize_path(&s("./")), s(""));
    assert_eq!(normalize_path(&s(".")), s("."));
    assert_eq!(normalize_path(&s("../x")), s("../x"));
}

#[test]
fn protected_patterns_in_order() {
    let config = Config {
        generators: vec![
            protect_only(&["a/*", "b/*"]),
            Generator { command: Some(s("x")), args: None, patterns: None },
            protect_only(&["c/*"]),
        ],
    };
    assert_eq!(protected_patterns(&config), vec![s("a/*"), s("b/*"), s("c/*")]);
}
