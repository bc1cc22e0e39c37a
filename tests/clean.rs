use solbuild_helper::action::Action;
use solbuild_helper::cli::clean::{
    any_package_pattern, clean_actions, compile_patterns, handle, keeper_set, name_patterns,
    package_pattern, removal_set, select, Error,
};

fn strings(items: &[&str]) -> Vec<String> {
    items.iter().map(|s| s.to_string()).collect()
}

fn reports(plan: &[Action]) -> Vec<String> {
    plan.iter()
        .map(|a| match a {
            Action::Report(p) => p.clone(),
            other => panic!("unexpected action {:?}", other),
        })
        .collect()
}

fn sorted(mut v: Vec<String>) -> Vec<String> {
    v.sort();
    v
}

#[test]
fn keep_overrides_named_removal() {
    let entries = strings(&["/repo/foo-1.0.eopkg", "/repo/bar-2.0.eopkg", "/repo/baz-1.0.eopkg"]);
    let plan = handle(
        true,
        false,
        Some(strings(&["foo", "baz"])),
        Some(strings(&["baz"])),
        "/repo",
        &entries,
    )
    .unwrap();
    assert_eq!(reports(&plan), strings(&["/repo/foo-1.0.eopkg"]));
}

#[test]
fn no_names_choose_every_package() {
    let entries = strings(&["/repo/a.eopkg", "/repo/b.eopkg"]);
    let plan = handle(true, false, None, None, "/repo", &entries).unwrap();
    assert_eq!(sorted(reports(&plan)), strings(&["/repo/a.eopkg", "/repo/b.eopkg"]));
}

#[test]
fn no_names_skip_other_files() {
    let entries = strings(&["/repo/a.eopkg", "/repo/eopkg-index.xml", "/repo/notes.txt"]);
    let plan = handle(true, false, None, None, "/repo", &entries).unwrap();
    assert_eq!(reports(&plan), strings(&["/repo/a.eopkg"]));
}

#[test]
fn malformed_removal_pattern_fails() {
    let entries = strings(&["/repo/foo-1.0.eopkg"]);
    let r = handle(false, true, Some(strings(&["foo["])), None, "/repo", &entries);
    match r {
        Err(Error::Glob(e)) => assert_eq!(*e.kind(), globset::ErrorKind::UnclosedClass),
        other => panic!("expected a pattern error, got {:?}", other),
    }
}

#[test]
fn malformed_keep_pattern_fails() {
    let entries = strings(&["/repo/foo-1.0.eopkg"]);
    let r = handle(false, false, None, Some(strings(&["{foo"])), "/repo", &entries);
    assert!(matches!(r, Err(Error::Glob(_))));
}

#[test]
fn without_keep_every_match_is_chosen() {
    let entries = strings(&[
        "/repo/foo-1.0.eopkg",
        "/repo/foobar-3.eopkg",
        "/repo/bar-2.0.eopkg",
        "/repo/foo.txt",
    ]);
    let plan = handle(true, false, Some(strings(&["foo"])), None, "/repo", &entries).unwrap();
    assert_eq!(
        reports(&plan),
        strings(&["/repo/foo-1.0.eopkg", "/repo/foobar-3.eopkg"])
    );
}

#[test]
fn kept_paths_never_chosen() {
    let entries = strings(&["/repo/a-1.eopkg", "/repo/a-2.eopkg", "/repo/b-1.eopkg"]);
    let plan = handle(
        true,
        false,
        None,
        Some(strings(&["a-2", "b"])),
        "/repo",
        &entries,
    )
    .unwrap();
    assert_eq!(reports(&plan), strings(&["/repo/a-1.eopkg"]));
}

#[test]
fn keep_of_absent_name_has_no_effect() {
    let entries = strings(&["/repo/a-1.eopkg", "/repo/b-1.eopkg"]);
    let plan = handle(true, false, Some(strings(&["a"])), Some(strings(&["zzz"])), "/repo", &entries)
        .unwrap();
    assert_eq!(reports(&plan), strings(&["/repo/a-1.eopkg"]));
}

#[test]
fn empty_directory_gives_empty_plan() {
    let plan = handle(false, false, None, None, "/repo", &Vec::new()).unwrap();
    assert!(plan.is_empty());
}

#[test]
fn unmatched_name_is_no_error() {
    let entries = strings(&["/repo/a-1.eopkg"]);
    let plan = handle(false, false, Some(strings(&["nothing"])), None, "/repo", &entries).unwrap();
    assert!(plan.is_empty());
}

#[test]
fn selection_twice_gives_same_result() {
    let entries = strings(&["/repo/x-1.eopkg", "/repo/y-1.eopkg", "/repo/z.txt"]);
    let remove = Some(strings(&["x", "y"]));
    let keep = Some(strings(&["y"]));
    let first = handle(true, false, remove.clone(), keep.clone(), "/repo", &entries).unwrap();
    let second = handle(true, false, remove, keep, "/repo", &entries).unwrap();
    assert_eq!(first, second);
    assert_eq!(reports(&first), strings(&["/repo/x-1.eopkg"]));
}

#[test]
fn dry_run_only_reports() {
    let entries = strings(&["/repo/a.eopkg", "/repo/b.eopkg"]);
    let plan = handle(true, true, None, None, "/repo", &entries).unwrap();
    assert!(plan.iter().all(|a| matches!(a, Action::Report(_))));
    assert_eq!(plan.len(), 2);
}

#[test]
fn real_run_removes_then_indexes() {
    let entries = strings(&["/repo/a.eopkg", "/repo/b.txt"]);
    let plan = handle(false, true, None, None, "/repo", &entries).unwrap();
    assert_eq!(
        plan,
        vec![
            Action::RemoveFile("/repo/a.eopkg".to_string()),
            Action::Run {
                program: "eopkg".to_string(),
                args: strings(&["index", "--skip-signing", "/repo"]),
                dir: "/repo".to_string(),
            },
        ]
    );
}

#[test]
fn real_run_without_index_only_removes() {
    let entries = strings(&["/repo/a.eopkg"]);
    let plan = handle(false, false, None, None, "/repo", &entries).unwrap();
    assert_eq!(plan, vec![Action::RemoveFile("/repo/a.eopkg".to_string())]);
}

#[test]
fn pattern_texts() {
    assert_eq!(package_pattern("/var/lib/solbuild/local", "foo"), "/var/lib/solbuild/local/foo*.eopkg");
    assert_eq!(any_package_pattern("/repo"), "/repo/*.eopkg");
    assert_eq!(
        name_patterns("/r", &strings(&["a", "b"])),
        strings(&["/r/a*.eopkg", "/r/b*.eopkg"])
    );
}

#[test]
fn compiled_sets_match_like_globs() {
    let set = compile_patterns(&strings(&["/r/a*.eopkg", "/r/b?.eopkg"])).unwrap();
    let entries = strings(&["/r/a1.eopkg", "/r/bx.eopkg", "/r/bxy.eopkg", "/r/c.eopkg"]);
    let chosen = select(&entries, &set, &None);
    assert_eq!(chosen, strings(&["/r/a1.eopkg", "/r/bx.eopkg"]));
}

#[test]
fn compile_rejects_dangling_escape() {
    assert!(compile_patterns(&strings(&["/r/a\\"])).is_err());
}

#[test]
fn removal_and_keeper_sets() {
    let remove = removal_set("/r", &None).unwrap();
    let keep = keeper_set("/r", &Some(strings(&["b"]))).unwrap();
    assert!(keep.is_some());
    assert!(keeper_set("/r", &None).unwrap().is_none());
    let entries = strings(&["/r/a.eopkg", "/r/b.eopkg"]);
    assert_eq!(select(&entries, &remove, &keep), strings(&["/r/a.eopkg"]));
}

#[test]
fn clean_actions_exact() {
    let paths = strings(&["/r/a.eopkg"]);
    assert_eq!(clean_actions(true, true, "/r", &paths), vec![Action::Report("/r/a.eopkg".to_string())]);
    assert_eq!(
        clean_actions(false, false, "/r", &paths),
        vec![Action::RemoveFile("/r/a.eopkg".to_string())]
    );
}
