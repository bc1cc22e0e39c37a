use solbuild_helper::action::Action;
use solbuild_helper::cli::init::{MAINTAINER_CONTENTS, MAKEFILE_CONTENTS};
use solbuild_helper::cli::{copy, init, process, split_keep, Command, Error, Workspace};
use solbuild_helper::cli::clean::{compile_patterns, select};
use solbuild_helper::paths::{join_path, split_commas};

fn strings(items: &[&str]) -> Vec<String> {
    items.iter().map(|s| s.to_string()).collect()
}

fn workspace() -> Workspace {
    Workspace {
        repo: "/repo".to_string(),
        repo_entries: strings(&["/repo/foo-1.0.eopkg", "/repo/bar-2.0.eopkg", "/repo/baz-1.0.eopkg"]),
        packages: strings(&["./new-1.eopkg"]),
        current_dir: "/home/me/packages".to_string(),
    }
}

#[test]
fn join_rules() {
    assert_eq!(join_path("/a", "b"), "/a/b");
    assert_eq!(join_path("/a/", "b"), "/a/b");
    assert_eq!(join_path("", "b"), "b");
    assert_eq!(join_path("/a", "/b"), "/b");
    assert_eq!(join_path("/a", "./b"), "/a/./b");
}

#[test]
fn comma_splitting() {
    assert_eq!(split_commas("a,b"), strings(&["a", "b"]));
    assert_eq!(split_commas("abc"), strings(&["abc"]));
    assert_eq!(split_commas(""), strings(&[""]));
    assert_eq!(split_commas("a,,b,"), strings(&["a", "", "b", ""]));
    assert_eq!(split_keep(&Some("x,y".to_string())), Some(strings(&["x", "y"])));
    assert_eq!(split_keep(&None), None);
}

#[test]
fn glob_compilation_and_matching() {
    assert!(compile_patterns(&strings(&["a*"])).is_ok());
    assert!(compile_patterns(&strings(&["a["])).is_err());
    assert!(compile_patterns(&strings(&["ok*", "bad{"])).is_err());
    let set = compile_patterns(&strings(&["*.eopkg"])).unwrap();
    let entries = strings(&["/x/y.eopkg", "/x/y.txt"]);
    assert_eq!(select(&entries, &set, &None), strings(&["/x/y.eopkg"]));
    let empty = compile_patterns(&Vec::new()).unwrap();
    assert!(select(&entries, &empty, &None).is_empty());
    let keep_all = compile_patterns(&strings(&["/x/*"])).unwrap();
    assert!(select(&entries, &set, &Some(keep_all)).is_empty());
}

#[test]
fn copy_plan() {
    let plan = copy::handle(true, "/repo", &strings(&["./a.eopkg", "b.eopkg"]));
    assert_eq!(
        plan,
        vec![
            Action::CopyFile { from: "./a.eopkg".to_string(), to: "/repo/./a.eopkg".to_string() },
            Action::CopyFile { from: "b.eopkg".to_string(), to: "/repo/b.eopkg".to_string() },
            Action::Run {
                program: "eopkg".to_string(),
                args: strings(&["index", "--skip-signing", "/repo"]),
                dir: "/repo".to_string(),
            },
        ]
    );
    assert!(copy::handle(false, "/repo", &Vec::new()).is_empty());
}

#[test]
fn init_plan_with_maintainers() {
    let plan = init::handle("foo".to_string(), "https://x/foo.tar.gz".to_string(), true, "/work");
    assert_eq!(
        plan,
        vec![
            Action::CreateDir("/work/foo".to_string()),
            Action::WriteFile {
                path: "foo/Makefile".to_string(),
                contents: "include ../Makefile.common\n".to_string(),
            },
            Action::WriteFile {
                path: "foo/MAINTAINERS.md".to_string(),
                contents: MAINTAINER_CONTENTS.to_string(),
            },
            Action::Run {
                program: "/work/common/Scripts/yauto.py".to_string(),
                args: strings(&["https://x/foo.tar.gz"]),
                dir: "/work/foo".to_string(),
            },
        ]
    );
    assert_eq!(MAKEFILE_CONTENTS, "include ../Makefile.common\n");
}

#[test]
fn init_plan_without_maintainers() {
    let plan = init::handle("foo".to_string(), "u".to_string(), false, "/work");
    assert_eq!(plan.len(), 3);
    assert!(plan.iter().all(|a| !matches!(a, Action::WriteFile { path, .. } if path == "foo/MAINTAINERS.md")));
}

#[test]
fn process_clean_keep_list() {
    let cmd = Command::Clean {
        dry_run: true,
        index: false,
        keep: Some("baz".to_string()),
        remove: Some(strings(&["foo", "baz"])),
    };
    let plan = process(&Some(cmd), &workspace()).unwrap();
    assert_eq!(plan, vec![Action::Report("/repo/foo-1.0.eopkg".to_string())]);
}

#[test]
fn process_clean_comma_separated_keep() {
    let cmd = Command::Clean { dry_run: true, index: true, keep: Some("foo,bar".to_string()), remove: None };
    let plan = process(&Some(cmd), &workspace()).unwrap();
    assert_eq!(plan, vec![Action::Report("/repo/baz-1.0.eopkg".to_string())]);
}

#[test]
fn process_clean_bad_pattern() {
    let cmd = Command::Clean { dry_run: false, index: false, keep: None, remove: Some(strings(&["[x"])) };
    assert!(matches!(process(&Some(cmd), &workspace()), Err(Error::Clean(_))));
}

#[test]
fn process_other_commands() {
    assert!(process(&None, &workspace()).unwrap().is_empty());
    let plan = process(&Some(Command::Copy { index: false }), &workspace()).unwrap();
    assert_eq!(
        plan,
        vec![Action::CopyFile { from: "./new-1.eopkg".to_string(), to: "/repo/./new-1.eopkg".to_string() }]
    );
    let cmd = Command::Init { name: "p".to_string(), url: "u".to_string(), maintain: false };
    let plan = process(&Some(cmd), &workspace()).unwrap();
    assert_eq!(plan[0], Action::CreateDir("/home/me/packages/p".to_string()));
}
