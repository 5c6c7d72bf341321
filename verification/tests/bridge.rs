use mael_bridge::interpret_output;
use mael_bridge::launch_failure;
use mael_bridge::repo_root;
use mael_bridge::tool_arguments;
use mael_bridge::BridgeError;
use mael_bridge::Worktree;

#[test]
fn nonzero_exit_is_an_execution_error() {
    let r = interpret_output(false, "", "boom");
    match r {
        Err(BridgeError::ExecutionError(m)) => {
            assert!(m.contains("boom"));
            assert_eq!(m, "mael list-all failed: boom");
        }
        other => panic!("expected an execution error, got {:?}", other),
    }
}

#[test]
fn nonzero_exit_wins_over_good_output() {
    let r = interpret_output(false, r#"{"projects": []}"#, "locked");
    assert!(matches!(r, Err(BridgeError::ExecutionError(_))));
}

#[test]
fn unparseable_output_is_a_schema_error() {
    let r = interpret_output(true, "not json", "");
    match r {
        Err(BridgeError::SchemaError(_, prefix)) => assert_eq!(prefix, "not json"),
        other => panic!("expected a schema error, got {:?}", other),
    }
}

#[test]
fn schema_error_prefix_is_bounded() {
    let long = "x".repeat(300);
    let r = interpret_output(true, &long, "");
    match r {
        Err(BridgeError::SchemaError(_, prefix)) => {
            assert_eq!(prefix.chars().count(), 200);
            assert_eq!(prefix, "x".repeat(200));
        }
        other => panic!("expected a schema error, got {:?}", other),
    }
}

#[test]
fn successful_output_is_returned_parsed() {
    let r = interpret_output(true, r#"{"projects": []}"#, "ignored noise");
    let resp = r.expect("conforming output of a successful exit is returned");
    assert_eq!(resp.projects.len(), 0);
}

#[test]
fn two_calls_on_one_outcome_agree() {
    let out = r#"{"projects": [{"name": "p", "path": "/p", "worktrees": []}]}"#;
    let first = interpret_output(true, out, "");
    let second = interpret_output(true, out, "");
    assert_eq!(first, second);
    let third = interpret_output(false, out, "e");
    let fourth = interpret_output(false, out, "e");
    assert_eq!(third, fourth);
}

#[test]
fn launch_failure_names_the_invocation() {
    let e = launch_failure("No such file or directory");
    match e {
        BridgeError::LaunchError(m) => {
            assert_eq!(m, "Failed to execute uv run mael: No such file or directory");
        }
        other => panic!("expected a launch error, got {:?}", other),
    }
}

#[test]
fn tool_arguments_are_fixed() {
    let a = tool_arguments();
    assert_eq!(a, vec!["run", "mael", "--json", "list-all"]);
}

#[test]
fn repo_root_walks_up_two_levels() {
    assert_eq!(repo_root("/repo/app/backend"), "/repo");
    assert_eq!(repo_root("/a/b/c/d"), "/a/b");
    assert_eq!(repo_root("/a/b"), "");
    assert_eq!(repo_root("plain"), "");
}

fn worktree_with_pr(pr_number: Option<u32>, pr_commits: Option<u32>, pushed: Option<u32>) -> Worktree {
    Worktree {
        name: "w".to_string(),
        folder: "f".to_string(),
        path: "/p/f".to_string(),
        branch: None,
        is_closed: false,
        dirty_files: 0,
        local_commits: 0,
        pr_number,
        pr_commits,
        pushed_commits: pushed,
        ide_active: false,
    }
}

#[test]
fn pr_field_consistency_is_reported() {
    assert!(worktree_with_pr(Some(1), Some(2), Some(3)).pr_fields_consistent());
    assert!(worktree_with_pr(Some(1), None, None).pr_fields_consistent());
    assert!(worktree_with_pr(None, None, None).pr_fields_consistent());
    assert!(!worktree_with_pr(None, Some(2), None).pr_fields_consistent());
    assert!(!worktree_with_pr(None, None, Some(3)).pr_fields_consistent());
}
