use mael_bridge::parse_response;
use mael_bridge::Worktree;

fn full_worktree_json() -> &'static str {
    r#"{
        "name": "feature-x",
        "folder": "wt-feature-x",
        "path": "/repo/wt-feature-x",
        "branch": "feature/x",
        "is_closed": false,
        "dirty_files": 3,
        "local_commits": 2,
        "pr_number": 17,
        "pr_commits": 5,
        "pushed_commits": 4,
        "ide_active": true
    }"#
}

fn expected_full_worktree() -> Worktree {
    Worktree {
        name: "feature-x".to_string(),
        folder: "wt-feature-x".to_string(),
        path: "/repo/wt-feature-x".to_string(),
        branch: Some("feature/x".to_string()),
        is_closed: false,
        dirty_files: 3,
        local_commits: 2,
        pr_number: Some(17),
        pr_commits: Some(5),
        pushed_commits: Some(4),
        ide_active: true,
    }
}

#[test]
fn happy_path_mirrors_input() {
    let text = format!(
        r#"{{
            "projects": [
                {{
                    "name": "alpha",
                    "path": "/repo/alpha",
                    "worktrees": [{}, {{
                        "is_closed": true,
                        "ide_active": false,
                        "dirty_files": 0,
                        "local_commits": 0,
                        "name": "main",
                        "folder": "alpha",
                        "path": "/repo/alpha",
                        "branch": null,
                        "pr_number": null,
                        "pr_commits": null,
                        "pushed_commits": null
                    }}]
                }},
                {{
                    "name": "beta",
                    "path": "/repo/beta",
                    "worktrees": []
                }}
            ]
        }}"#,
        full_worktree_json()
    );
    let resp = parse_response(&text).expect("well-formed output must parse");
    assert_eq!(resp.projects.len(), 2);
    let alpha = &resp.projects[0];
    assert_eq!(alpha.name, "alpha");
    assert_eq!(alpha.path, "/repo/alpha");
    assert_eq!(alpha.worktrees.len(), 2);
    assert_eq!(alpha.worktrees[0], expected_full_worktree());
    let main_wt = &alpha.worktrees[1];
    assert_eq!(main_wt.name, "main");
    assert_eq!(main_wt.branch, None);
    assert!(main_wt.is_closed);
    assert!(!main_wt.ide_active);
    assert_eq!(main_wt.pr_number, None);
    let beta = &resp.projects[1];
    assert_eq!(beta.name, "beta");
    assert_eq!(beta.worktrees.len(), 0);
}

#[test]
fn missing_optional_fields_are_absent() {
    let text = r#"{"projects": [{"name": "p", "path": "/p", "worktrees": [{
        "name": "w", "folder": "f", "path": "/p/f",
        "is_closed": false, "dirty_files": 1, "local_commits": 0, "ide_active": false
    }]}]}"#;
    let resp = parse_response(text).expect("optional members may be missing");
    let wt = &resp.projects[0].worktrees[0];
    assert_eq!(wt.branch, None);
    assert_eq!(wt.pr_number, None);
    assert_eq!(wt.pr_commits, None);
    assert_eq!(wt.pushed_commits, None);
}

#[test]
fn null_optional_fields_equal_missing_ones() {
    let with_null = r#"{"projects": [{"name": "p", "path": "/p", "worktrees": [{
        "name": "w", "folder": "f", "path": "/p/f", "branch": null,
        "is_closed": false, "dirty_files": 0, "local_commits": 0,
        "pr_number": null, "pr_commits": null, "pushed_commits": null,
        "ide_active": false
    }]}]}"#;
    let without = r#"{"projects": [{"name": "p", "path": "/p", "worktrees": [{
        "name": "w", "folder": "f", "path": "/p/f",
        "is_closed": false, "dirty_files": 0, "local_commits": 0,
        "ide_active": false
    }]}]}"#;
    assert_eq!(parse_response(with_null), parse_response(without));
    assert!(parse_response(with_null).is_some());
}

#[test]
fn unknown_extra_field_is_ignored() {
    let with_extra = r#"{"schema_version": 9, "projects": [{"name": "p", "path": "/p",
        "labels": ["a", "b"],
        "worktrees": [{
        "name": "w", "folder": "f", "path": "/p/f",
        "zzz": {"deep": [1, -2.5e3, null, "x", {}], "more": true},
        "is_closed": false, "dirty_files": 0, "local_commits": 0,
        "ide_active": false
    }]}]}"#;
    let without = r#"{"projects": [{"name": "p", "path": "/p", "worktrees": [{
        "name": "w", "folder": "f", "path": "/p/f",
        "is_closed": false, "dirty_files": 0, "local_commits": 0,
        "ide_active": false
    }]}]}"#;
    assert_eq!(parse_response(with_extra), parse_response(without));
    assert!(parse_response(with_extra).is_some());
}

#[test]
fn empty_project_list_is_not_an_error() {
    let resp = parse_response(r#"{"projects": []}"#).expect("an empty list conforms");
    assert_eq!(resp.projects.len(), 0);
}

#[test]
fn string_escapes_are_decoded() {
    let text = "{\"projects\": [{\"name\": \"a\\\"b\\\\c\\n\\t\\u0041\", \"path\": \"/p\", \"worktrees\": []}]}";
    let resp = parse_response(text).expect("escapes are valid JSON");
    assert_eq!(resp.projects[0].name, "a\"b\\c\n\tA");
}

#[test]
fn surrogate_pair_escape_is_decoded() {
    let text = "{\"projects\": [{\"name\": \"\\uD83D\\uDE00\", \"path\": \"/p\", \"worktrees\": []}]}";
    let resp = parse_response(text).expect("a surrogate pair is valid JSON");
    assert_eq!(resp.projects[0].name, "\u{1F600}");
}

#[test]
fn lone_surrogate_escape_is_rejected() {
    let text = "{\"projects\": [{\"name\": \"\\uD83D\", \"path\": \"/p\", \"worktrees\": []}]}";
    assert!(parse_response(text).is_none());
}

#[test]
fn missing_required_field_is_rejected() {
    let text = r#"{"projects": [{"name": "p", "path": "/p", "worktrees": [{
        "name": "w", "folder": "f",
        "is_closed": false, "dirty_files": 0, "local_commits": 0,
        "ide_active": false
    }]}]}"#;
    assert!(parse_response(text).is_none());
    assert!(parse_response(r#"{"projects": [{"name": "p", "worktrees": []}]}"#).is_none());
    assert!(parse_response(r#"{}"#).is_none());
}

#[test]
fn wrong_field_type_is_rejected() {
    let text = r#"{"projects": [{"name": "p", "path": "/p", "worktrees": [{
        "name": "w", "folder": "f", "path": "/p/f",
        "is_closed": false, "dirty_files": "3", "local_commits": 0,
        "ide_active": false
    }]}]}"#;
    assert!(parse_response(text).is_none());
    assert!(parse_response(r#"{"projects": {}}"#).is_none());
}

#[test]
fn duplicate_field_is_rejected() {
    let text = r#"{"projects": [{"name": "p", "name": "q", "path": "/p", "worktrees": []}]}"#;
    assert!(parse_response(text).is_none());
}

#[test]
fn count_bounds_are_enforced() {
    let fits = r#"{"projects": [{"name": "p", "path": "/p", "worktrees": [{
        "name": "w", "folder": "f", "path": "/p/f",
        "is_closed": false, "dirty_files": 4294967295, "local_commits": 0,
        "ide_active": false
    }]}]}"#;
    let resp = parse_response(fits).expect("the largest count fits");
    assert_eq!(resp.projects[0].worktrees[0].dirty_files, 4294967295);

    for bad in ["4294967296", "-1", "1.5", "1e3", "01"] {
        let text = format!(
            r#"{{"projects": [{{"name": "p", "path": "/p", "worktrees": [{{
                "name": "w", "folder": "f", "path": "/p/f",
                "is_closed": false, "dirty_files": {}, "local_commits": 0,
                "ide_active": false
            }}]}}]}}"#,
            bad
        );
        assert!(parse_response(&text).is_none(), "count {} must be rejected", bad);
    }
}

#[test]
fn trailing_text_is_rejected() {
    assert!(parse_response(r#"{"projects": []} x"#).is_none());
    assert!(parse_response(r#"{"projects": []}{"projects": []}"#).is_none());
}

#[test]
fn surrounding_whitespace_is_tolerated() {
    assert!(parse_response("\n\t  {\"projects\"\n : \r\n[]  }\n ").is_some());
}

#[test]
fn malformed_json_is_rejected() {
    for text in [
        "",
        "not json",
        "[]",
        "null",
        "{\"projects\": [",
        "{\"projects\": [}]}",
        "{\"projects\" []}",
        "{'projects': []}",
        "{\"projects\": [],}",
    ] {
        assert!(parse_response(text).is_none(), "{:?} must be rejected", text);
    }
}
