//! Schema-directed reading of the tool's JSON output into the typed
//! response tree.
//!
//! Each object reader folds the object's members, in text order, into a
//! draft record: a known key must carry a value of the declared type and may
//! appear only once, an unknown key's value is stepped over and ignored, and
//! the closing brace turns the draft into the typed value when every
//! required member has been seen. `null` and a missing member both leave an
//! optional field absent.

use vstd::prelude::*;
use crate::model::{
    Worktree, WorktreeView, Project, ProjectView, ListAllResponse, ListAllResponseView, wks_view,
    projs_view,
};
use crate::text::{sp_ws, sp_string_body, skip_ws, lex_string_body, chars_eq_lit, string_of_chars,
    chars_of_str};
use crate::jsonval::{
    sp_skip_value, sp_json_string_at, sp_bool_at, sp_u32_at, sp_opt_string_at, sp_opt_u32_at,
    skip_value, json_string_at, json_bool_at, json_u32_at, json_opt_string_at, json_opt_u32_at,
};

verus! {

// --- worktree objects ---

/// A worktree object in mid-parse: which members have been seen, and with
/// what values. An optional member may have been seen as `null`, which is
/// recorded as seen-but-absent.
pub struct WorktreeDraft {
    pub name: Option<Vec<char>>,
    pub folder: Option<Vec<char>>,
    pub path: Option<Vec<char>>,
    pub branch: Option<Option<Vec<char>>>,
    pub is_closed: Option<bool>,
    pub dirty_files: Option<u32>,
    pub local_commits: Option<u32>,
    pub pr_number: Option<Option<u32>>,
    pub pr_commits: Option<Option<u32>>,
    pub pushed_commits: Option<Option<u32>>,
    pub ide_active: Option<bool>,
}

/// The mathematical value of a `WorktreeDraft`.
pub struct WorktreeDraftView {
    pub name: Option<Seq<char>>,
    pub folder: Option<Seq<char>>,
    pub path: Option<Seq<char>>,
    pub branch: Option<Option<Seq<char>>>,
    pub is_closed: Option<bool>,
    pub dirty_files: Option<u32>,
    pub local_commits: Option<u32>,
    pub pr_number: Option<Option<u32>>,
    pub pr_commits: Option<Option<u32>>,
    pub pushed_commits: Option<Option<u32>>,
    pub ide_active: Option<bool>,
}

impl View for WorktreeDraft {
    type V = WorktreeDraftView;

    open spec fn view(&self) -> WorktreeDraftView {
        WorktreeDraftView {
            name: match self.name {
                Some(x) => Some(x@),
                None => None,
            },
            folder: match self.folder {
                Some(x) => Some(x@),
                None => None,
            },
            path: match self.path {
                Some(x) => Some(x@),
                None => None,
            },
            branch: match self.branch {
                Some(Some(x)) => Some(Some(x@)),
                Some(None) => Some(None),
                None => None,
            },
            is_closed: self.is_closed,
            dirty_files: self.dirty_files,
            local_commits: self.local_commits,
            pr_number: self.pr_number,
            pr_commits: self.pr_commits,
            pushed_commits: self.pushed_commits,
            ide_active: self.ide_active,
        }
    }
}

/// The draft with no member seen yet.
pub open spec fn sp_wk_draft_empty() -> WorktreeDraftView {
    WorktreeDraftView {
        name: None,
        folder: None,
        path: None,
        branch: None,
        is_closed: None,
        dirty_files: None,
        local_commits: None,
        pr_number: None,
        pr_commits: None,
        pushed_commits: None,
        ide_active: None,
    }
}

fn wk_draft_empty() -> (w: WorktreeDraft)
    ensures
        w@ == sp_wk_draft_empty(),
{
    WorktreeDraft {
        name: None,
        folder: None,
        path: None,
        branch: None,
        is_closed: None,
        dirty_files: None,
        local_commits: None,
        pr_number: None,
        pr_commits: None,
        pushed_commits: None,
        ide_active: None,
    }
}

/// Folds one member with the given key into the draft: the value starts at
/// position `i`. A known key must not repeat and must carry a value of its
/// declared type; an unknown key's value is skipped.
pub open spec fn sp_wk_field_value(
    s: Seq<char>,
    i: nat,
    key: Seq<char>,
    w: WorktreeDraftView,
    fuel: nat,
) -> Option<(WorktreeDraftView, nat)> {
    if key == "name"@ {
        if w.name is Some {
            None
        } else {
            match sp_json_string_at(s, i) {
                Some((t, j)) => Some((WorktreeDraftView { name: Some(t), ..w }, j)),
                None => None,
            }
        }
    } else if key == "folder"@ {
        if w.folder is Some {
            None
        } else {
            match sp_json_string_at(s, i) {
                Some((t, j)) => Some((WorktreeDraftView { folder: Some(t), ..w }, j)),
                None => None,
            }
        }
    } else if key == "path"@ {
        if w.path is Some {
            None
        } else {
            match sp_json_string_at(s, i) {
                Some((t, j)) => Some((WorktreeDraftView { path: Some(t), ..w }, j)),
                None => None,
            }
        }
    } else if key == "branch"@ {
        if w.branch is Some {
            None
        } else {
            match sp_opt_string_at(s, i) {
                Some((t, j)) => Some((WorktreeDraftView { branch: Some(t), ..w }, j)),
                None => None,
            }
        }
    } else if key == "is_closed"@ {
        if w.is_closed is Some {
            None
        } else {
            match sp_bool_at(s, i) {
                Some((b, j)) => Some((WorktreeDraftView { is_closed: Some(b), ..w }, j)),
                None => None,
            }
        }
    } else if key == "dirty_files"@ {
        if w.dirty_files is Some {
            None
        } else {
            match sp_u32_at(s, i) {
                Some((u, j)) => Some((WorktreeDraftView { dirty_files: Some(u), ..w }, j)),
                None => None,
            }
        }
    } else if key == "local_commits"@ {
        if w.local_commits is Some {
            None
        } else {
            match sp_u32_at(s, i) {
                Some((u, j)) => Some((WorktreeDraftView { local_commits: Some(u), ..w }, j)),
                None => None,
            }
        }
    } else if key == "pr_number"@ {
        if w.pr_number is Some {
            None
        } else {
            match sp_opt_u32_at(s, i) {
                Some((u, j)) => Some((WorktreeDraftView { pr_number: Some(u), ..w }, j)),
                None => None,
            }
        }
    } else if key == "pr_commits"@ {
        if w.pr_commits is Some {
            None
        } else {
            match sp_opt_u32_at(s, i) {
                Some((u, j)) => Some((WorktreeDraftView { pr_commits: Some(u), ..w }, j)),
                None => None,
            }
        }
    } else if key == "pushed_commits"@ {
        if w.pushed_commits is Some {
            None
        } else {
            match sp_opt_u32_at(s, i) {
                Some((u, j)) => Some((WorktreeDraftView { pushed_commits: Some(u), ..w }, j)),
                None => None,
            }
        }
    } else if key == "ide_active"@ {
        if w.ide_active is Some {
            None
        } else {
            match sp_bool_at(s, i) {
                Some((b, j)) => Some((WorktreeDraftView { ide_active: Some(b), ..w }, j)),
                None => None,
            }
        }
    } else {
        match sp_skip_value(s, i, fuel) {
            Some(j) => Some((w, j)),
            None => None,
        }
    }
}

fn parse_wk_field_value(
    v: &Vec<char>,
    i: usize,
    key: &Vec<char>,
    w: WorktreeDraft,
    fuel: usize,
) -> (r: Option<(WorktreeDraft, usize)>)
    requires
        i <= v@.len(),
        fuel >= v@.len() - i,
    ensures
        (match r {
            Some((w2, j)) => sp_wk_field_value(v@, i as nat, key@, w@, fuel as nat) == Some(
                (w2@, j as nat),
            ) && i < j <= v@.len(),
            None => sp_wk_field_value(v@, i as nat, key@, w@, fuel as nat) is None,
        }),
{
    if chars_eq_lit(key, "name") {
        if w.name.is_some() {
            return None;
        }
        match json_string_at(v, i) {
            Some((t, j)) => {
                let mut w2 = w;
                w2.name = Some(t);
                Some((w2, j))
            },
            None => None,
        }
    } else if chars_eq_lit(key, "folder") {
        if w.folder.is_some() {
            return None;
        }
        match json_string_at(v, i) {
            Some((t, j)) => {
                let mut w2 = w;
                w2.folder = Some(t);
                Some((w2, j))
            },
            None => None,
        }
    } else if chars_eq_lit(key, "path") {
        if w.path.is_some() {
            return None;
        }
        match json_string_at(v, i) {
            Some((t, j)) => {
                let mut w2 = w;
                w2.path = Some(t);
                Some((w2, j))
            },
            None => None,
        }
    } else if chars_eq_lit(key, "branch") {
        if w.branch.is_some() {
            return None;
        }
        match json_opt_string_at(v, i) {
            Some((t, j)) => {
                let mut w2 = w;
                w2.branch = Some(t);
                Some((w2, j))
            },
            None => None,
        }
    } else if chars_eq_lit(key, "is_closed") {
        if w.is_closed.is_some() {
            return None;
        }
        match json_bool_at(v, i) {
            Some((b, j)) => {
                let mut w2 = w;
                w2.is_closed = Some(b);
                Some((w2, j))
            },
            None => None,
        }
    } else if chars_eq_lit(key, "dirty_files") {
        if w.dirty_files.is_some() {
            return None;
        }
        match json_u32_at(v, i) {
            Some((u, j)) => {
                let mut w2 = w;
                w2.dirty_files = Some(u);
                Some((w2, j))
            },
            None => None,
        }
    } else if chars_eq_lit(key, "local_commits") {
        if w.local_commits.is_some() {
            return None;
        }
        match json_u32_at(v, i) {
            Some((u, j)) => {
                let mut w2 = w;
                w2.local_commits = Some(u);
                Some((w2, j))
            },
            None => None,
        }
    } else if chars_eq_lit(key, "pr_number") {
        if w.pr_number.is_some() {
            return None;
        }
        match json_opt_u32_at(v, i) {
            Some((u, j)) => {
                let mut w2 = w;
                w2.pr_number = Some(u);
                Some((w2, j))
            },
            None => None,
        }
    } else if chars_eq_lit(key, "pr_commits") {
        if w.pr_commits.is_some() {
            return None;
        }
        match json_opt_u32_at(v, i) {
            Some((u, j)) => {
                let mut w2 = w;
                w2.pr_commits = Some(u);
                Some((w2, j))
            },
            None => None,
        }
    } else if chars_eq_lit(key, "pushed_commits") {
        if w.pushed_commits.is_some() {
            return None;
        }
        match json_opt_u32_at(v, i) {
            Some((u, j)) => {
                let mut w2 = w;
                w2.pushed_commits = Some(u);
                Some((w2, j))
            },
            None => None,
        }
    } else if chars_eq_lit(key, "ide_active") {
        if w.ide_active.is_some() {
            return None;
        }
        match json_bool_at(v, i) {
            Some((b, j)) => {
                let mut w2 = w;
                w2.ide_active = Some(b);
                Some((w2, j))
            },
            None => None,
        }
    } else {
        match skip_value(v, i, fuel) {
            Some(j) => Some((w, j)),
            None => None,
        }
    }
}

/// An unknown member never changes the draft: its value is stepped over and
/// its content ignored, whatever it holds, so an additional unexpected
/// member leaves the parsed worktree as it would have been without it.
pub proof fn lemma_unknown_field_leaves_draft(
    s: Seq<char>,
    i: nat,
    key: Seq<char>,
    w: WorktreeDraftView,
    fuel: nat,
)
    requires
        key != "name"@,
        key != "folder"@,
        key != "path"@,
        key != "branch"@,
        key != "is_closed"@,
        key != "dirty_files"@,
        key != "local_commits"@,
        key != "pr_number"@,
        key != "pr_commits"@,
        key != "pushed_commits"@,
        key != "ide_active"@,
    ensures
        sp_wk_field_value(s, i, key, w, fuel) matches Some((w2, j)) ==> w2 == w,
{
}

/// Folds the members of a worktree object, starting at the first key, up to
/// and including the closing brace.
pub open spec fn sp_wk_fields(
    s: Seq<char>,
    i: nat,
    w: WorktreeDraftView,
    fuel: nat,
) -> Option<(WorktreeDraftView, nat)>
    decreases fuel,
{
    if fuel == 0 || i >= s.len() || s[i as int] != '"' {
        None
    } else {
        match sp_string_body(s, (i + 1) as nat) {
            None => None,
            Some((key, j0)) => {
                let j1 = sp_ws(s, j0);
                if j1 >= s.len() || s[j1 as int] != ':' {
                    None
                } else {
                    let j2 = sp_ws(s, (j1 + 1) as nat);
                    match sp_wk_field_value(s, j2, key, w, fuel) {
                        None => None,
                        Some((w2, j3)) => {
                            let j4 = sp_ws(s, j3);
                            if j4 >= s.len() {
                                None
                            } else if s[j4 as int] == ',' {
                                sp_wk_fields(s, sp_ws(s, (j4 + 1) as nat), w2, (fuel - 1) as nat)
                            } else if s[j4 as int] == '}' {
                                Some((w2, (j4 + 1) as nat))
                            } else {
                                None
                            }
                        },
                    }
                }
            },
        }
    }
}

fn parse_wk_fields(v: &Vec<char>, i: usize, w: WorktreeDraft, fuel: usize) -> (r: Option<
    (WorktreeDraft, usize),
>)
    requires
        i <= v@.len(),
        fuel >= v@.len() - i,
    ensures
        (match r {
            Some((w2, p)) => sp_wk_fields(v@, i as nat, w@, fuel as nat) == Some(
                (w2@, p as nat),
            ) && i < p <= v@.len(),
            None => sp_wk_fields(v@, i as nat, w@, fuel as nat) is None,
        }),
    decreases fuel,
{
    if i >= v.len() {
        return None;
    }
    if v[i] != '"' {
        return None;
    }
    match lex_string_body(v, i + 1) {
        None => None,
        Some((key, j0)) => {
            let j1 = skip_ws(v, j0);
            if j1 >= v.len() {
                return None;
            }
            if v[j1] != ':' {
                return None;
            }
            let j2 = skip_ws(v, j1 + 1);
            match parse_wk_field_value(v, j2, &key, w, fuel) {
                None => None,
                Some((w2, j3)) => {
                    let j4 = skip_ws(v, j3);
                    if j4 >= v.len() {
                        None
                    } else if v[j4] == ',' {
                        let inext = skip_ws(v, j4 + 1);
                        parse_wk_fields(v, inext, w2, fuel - 1)
                    } else if v[j4] == '}' {
                        Some((w2, j4 + 1))
                    } else {
                        None
                    }
                },
            }
        },
    }
}

/// Turns a fully folded draft into a worktree: defined exactly when every
/// required member has been seen. An optional member that was never seen,
/// or was seen as `null`, is absent.
pub open spec fn sp_wk_finish(w: WorktreeDraftView) -> Option<WorktreeView> {
    if w.name is Some && w.folder is Some && w.path is Some && w.is_closed is Some
        && w.dirty_files is Some && w.local_commits is Some && w.ide_active is Some {
        Some(
            WorktreeView {
                name: w.name->0,
                folder: w.folder->0,
                path: w.path->0,
                branch: if w.branch is Some {
                    w.branch->0
                } else {
                    None
                },
                is_closed: w.is_closed->0,
                dirty_files: w.dirty_files->0,
                local_commits: w.local_commits->0,
                pr_number: if w.pr_number is Some {
                    w.pr_number->0
                } else {
                    None
                },
                pr_commits: if w.pr_commits is Some {
                    w.pr_commits->0
                } else {
                    None
                },
                pushed_commits: if w.pushed_commits is Some {
                    w.pushed_commits->0
                } else {
                    None
                },
                ide_active: w.ide_active->0,
            },
        )
    } else {
        None
    }
}

fn wk_finish(w: WorktreeDraft) -> (r: Option<Worktree>)
    ensures
        (match r {
            Some(wk) => sp_wk_finish(w@) == Some(wk@),
            None => sp_wk_finish(w@) is None,
        }),
{
    let WorktreeDraft {
        name,
        folder,
        path,
        branch,
        is_closed,
        dirty_files,
        local_commits,
        pr_number,
        pr_commits,
        pushed_commits,
        ide_active,
    } = w;
    if name.is_none() || folder.is_none() || path.is_none() || is_closed.is_none()
        || dirty_files.is_none() || local_commits.is_none() || ide_active.is_none() {
        return None;
    }
    let nv = name.unwrap();
    let fv = folder.unwrap();
    let pv = path.unwrap();
    let wk = Worktree {
        name: string_of_chars(&nv),
        folder: string_of_chars(&fv),
        path: string_of_chars(&pv),
        branch: match branch {
            Some(Some(b)) => Some(string_of_chars(&b)),
            Some(None) => None,
            None => None,
        },
        is_closed: is_closed.unwrap(),
        dirty_files: dirty_files.unwrap(),
        local_commits: local_commits.unwrap(),
        pr_number: match pr_number {
            Some(u) => u,
            None => None,
        },
        pr_commits: match pr_commits {
            Some(u) => u,
            None => None,
        },
        pushed_commits: match pushed_commits {
            Some(u) => u,
            None => None,
        },
        ide_active: ide_active.unwrap(),
    };
    Some(wk)
}

/// An optional member seen as `null` and one never seen yield the same
/// worktree: either way the finished value records the field as absent.
pub proof fn lemma_null_equals_missing(w: WorktreeDraftView)
    ensures
        sp_wk_finish(WorktreeDraftView { branch: None, ..w }) == sp_wk_finish(
            WorktreeDraftView { branch: Some(None), ..w },
        ),
        sp_wk_finish(WorktreeDraftView { pr_number: None, ..w }) == sp_wk_finish(
            WorktreeDraftView { pr_number: Some(None), ..w },
        ),
        sp_wk_finish(WorktreeDraftView { pr_commits: None, ..w }) == sp_wk_finish(
            WorktreeDraftView { pr_commits: Some(None), ..w },
        ),
        sp_wk_finish(WorktreeDraftView { pushed_commits: None, ..w }) == sp_wk_finish(
            WorktreeDraftView { pushed_commits: Some(None), ..w },
        ),
{
}

/// The worktree object starting at position `i`, together with the position
/// after its closing brace.
pub open spec fn sp_worktree(s: Seq<char>, i: nat, fuel: nat) -> Option<(WorktreeView, nat)> {
    if i >= s.len() || s[i as int] != '{' {
        None
    } else {
        let i1 = sp_ws(s, (i + 1) as nat);
        let inner: Option<(WorktreeDraftView, nat)> = if i1 < s.len() && s[i1 as int] == '}' {
            Some((sp_wk_draft_empty(), (i1 + 1) as nat))
        } else {
            sp_wk_fields(s, i1, sp_wk_draft_empty(), fuel)
        };
        match inner {
            None => None,
            Some((w, j)) => match sp_wk_finish(w) {
                Some(wk) => Some((wk, j)),
                None => None,
            },
        }
    }
}

fn parse_worktree(v: &Vec<char>, i: usize, fuel: usize) -> (r: Option<(Worktree, usize)>)
    requires
        i <= v@.len(),
        fuel >= v@.len() - i,
    ensures
        (match r {
            Some((wk, p)) => sp_worktree(v@, i as nat, fuel as nat) == Some((wk@, p as nat)) && i
                < p <= v@.len(),
            None => sp_worktree(v@, i as nat, fuel as nat) is None,
        }),
{
    if i >= v.len() {
        return None;
    }
    if v[i] != '{' {
        return None;
    }
    let i1 = skip_ws(v, i + 1);
    let inner: Option<(WorktreeDraft, usize)> = if i1 < v.len() && v[i1] == '}' {
        Some((wk_draft_empty(), i1 + 1))
    } else {
        parse_wk_fields(v, i1, wk_draft_empty(), fuel)
    };
    match inner {
        None => None,
        Some((w, j)) => match wk_finish(w) {
            Some(wk) => Some((wk, j)),
            None => None,
        },
    }
}

/// The remaining elements of a worktree array, starting at the first
/// element, up to and including the closing bracket.
pub open spec fn sp_wk_array_rest(s: Seq<char>, i: nat, fuel: nat) -> Option<
    (Seq<WorktreeView>, nat),
>
    decreases fuel,
{
    if fuel == 0 {
        None
    } else {
        match sp_worktree(s, i, fuel) {
            None => None,
            Some((w, j)) => {
                let j1 = sp_ws(s, j);
                if j1 >= s.len() {
                    None
                } else if s[j1 as int] == ']' {
                    Some((seq![w], (j1 + 1) as nat))
                } else if s[j1 as int] == ',' {
                    match sp_wk_array_rest(s, sp_ws(s, (j1 + 1) as nat), (fuel - 1) as nat) {
                        None => None,
                        Some((rest, k)) => Some((seq![w] + rest, k)),
                    }
                } else {
                    None
                }
            },
        }
    }
}

fn parse_wk_array_rest(v: &Vec<char>, i: usize, fuel: usize) -> (r: Option<(Vec<Worktree>, usize)>)
    requires
        i <= v@.len(),
        fuel >= v@.len() - i,
    ensures
        (match r {
            Some((ws, p)) => sp_wk_array_rest(v@, i as nat, fuel as nat) == Some(
                (wks_view(ws@), p as nat),
            ) && i < p <= v@.len(),
            None => sp_wk_array_rest(v@, i as nat, fuel as nat) is None,
        }),
    decreases fuel,
{
    if fuel == 0 {
        return None;
    }
    match parse_worktree(v, i, fuel) {
        None => None,
        Some((wk, j)) => {
            let j1 = skip_ws(v, j);
            if j1 >= v.len() {
                None
            } else if v[j1] == ']' {
                let mut ws: Vec<Worktree> = Vec::new();
                ws.push(wk);
                proof {
                    assert(wks_view(ws@) =~= seq![wk@]);
                }
                Some((ws, j1 + 1))
            } else if v[j1] == ',' {
                let inext = skip_ws(v, j1 + 1);
                match parse_wk_array_rest(v, inext, fuel - 1) {
                    None => None,
                    Some((rest, k)) => {
                        let ghost rest_snap = rest@;
                        let mut ws = rest;
                        ws.insert(0, wk);
                        proof {
                            assert(wks_view(ws@) =~= seq![wk@] + wks_view(rest_snap));
                        }
                        Some((ws, k))
                    },
                }
            } else {
                None
            }
        },
    }
}

// --- project objects ---

/// A project object in mid-parse.
pub struct ProjectDraft {
    pub name: Option<Vec<char>>,
    pub path: Option<Vec<char>>,
    pub worktrees: Option<Vec<Worktree>>,
}

/// The mathematical value of a `ProjectDraft`.
pub struct ProjectDraftView {
    pub name: Option<Seq<char>>,
    pub path: Option<Seq<char>>,
    pub worktrees: Option<Seq<WorktreeView>>,
}

impl View for ProjectDraft {
    type V = ProjectDraftView;

    open spec fn view(&self) -> ProjectDraftView {
        ProjectDraftView {
            name: match self.name {
                Some(x) => Some(x@),
                None => None,
            },
            path: match self.path {
                Some(x) => Some(x@),
                None => None,
            },
            worktrees: match self.worktrees {
                Some(x) => Some(wks_view(x@)),
                None => None,
            },
        }
    }
}

/// The project draft with no member seen yet.
pub open spec fn sp_proj_draft_empty() -> ProjectDraftView {
    ProjectDraftView { name: None, path: None, worktrees: None }
}

fn proj_draft_empty() -> (p: ProjectDraft)
    ensures
        p@ == sp_proj_draft_empty(),
{
    ProjectDraft { name: None, path: None, worktrees: None }
}

/// Folds one member with the given key into a project draft.
pub open spec fn sp_proj_field_value(
    s: Seq<char>,
    i: nat,
    key: Seq<char>,
    p: ProjectDraftView,
    fuel: nat,
) -> Option<(ProjectDraftView, nat)> {
    if key == "name"@ {
        if p.name is Some {
            None
        } else {
            match sp_json_string_at(s, i) {
                Some((t, j)) => Some((ProjectDraftView { name: Some(t), ..p }, j)),
                None => None,
            }
        }
    } else if key == "path"@ {
        if p.path is Some {
            None
        } else {
            match sp_json_string_at(s, i) {
                Some((t, j)) => Some((ProjectDraftView { path: Some(t), ..p }, j)),
                None => None,
            }
        }
    } else if key == "worktrees"@ {
        if p.worktrees is Some {
            None
        } else if i >= s.len() || s[i as int] != '[' {
            None
        } else {
            let i1 = sp_ws(s, (i + 1) as nat);
            if i1 < s.len() && s[i1 as int] == ']' {
                Some((ProjectDraftView { worktrees: Some(Seq::empty()), ..p }, (i1 + 1) as nat))
            } else {
                match sp_wk_array_rest(s, i1, fuel) {
                    Some((ws, j)) => Some((ProjectDraftView { worktrees: Some(ws), ..p }, j)),
                    None => None,
                }
            }
        }
    } else {
        match sp_skip_value(s, i, fuel) {
            Some(j) => Some((p, j)),
            None => None,
        }
    }
}

fn parse_proj_field_value(
    v: &Vec<char>,
    i: usize,
    key: &Vec<char>,
    p: ProjectDraft,
    fuel: usize,
) -> (r: Option<(ProjectDraft, usize)>)
    requires
        i <= v@.len(),
        fuel >= v@.len() - i,
    ensures
        (match r {
            Some((p2, j)) => sp_proj_field_value(v@, i as nat, key@, p@, fuel as nat) == Some(
                (p2@, j as nat),
            ) && i < j <= v@.len(),
            None => sp_proj_field_value(v@, i as nat, key@, p@, fuel as nat) is None,
        }),
{
    if chars_eq_lit(key, "name") {
        if p.name.is_some() {
            return None;
        }
        match json_string_at(v, i) {
            Some((t, j)) => {
                let mut p2 = p;
                p2.name = Some(t);
                Some((p2, j))
            },
            None => None,
        }
    } else if chars_eq_lit(key, "path") {
        if p.path.is_some() {
            return None;
        }
        match json_string_at(v, i) {
            Some((t, j)) => {
                let mut p2 = p;
                p2.path = Some(t);
                Some((p2, j))
            },
            None => None,
        }
    } else if chars_eq_lit(key, "worktrees") {
        if p.worktrees.is_some() {
            return None;
        }
        if i >= v.len() {
            return None;
        }
        if v[i] != '[' {
            return None;
        }
        let i1 = skip_ws(v, i + 1);
        if i1 < v.len() && v[i1] == ']' {
            let ws: Vec<Worktree> = Vec::new();
            let mut p2 = p;
            p2.worktrees = Some(ws);
            proof {
                assert(wks_view(Seq::<Worktree>::empty()) =~= Seq::<WorktreeView>::empty());
            }
            Some((p2, i1 + 1))
        } else {
            match parse_wk_array_rest(v, i1, fuel) {
                Some((ws, j)) => {
                    let mut p2 = p;
                    p2.worktrees = Some(ws);
                    Some((p2, j))
                },
                None => None,
            }
        }
    } else {
        match skip_value(v, i, fuel) {
            Some(j) => Some((p, j)),
            None => None,
        }
    }
}

/// Folds the members of a project object, starting at the first key, up to
/// and including the closing brace.
pub open spec fn sp_proj_fields(
    s: Seq<char>,
    i: nat,
    p: ProjectDraftView,
    fuel: nat,
) -> Option<(ProjectDraftView, nat)>
    decreases fuel,
{
    if fuel == 0 || i >= s.len() || s[i as int] != '"' {
        None
    } else {
        match sp_string_body(s, (i + 1) as nat) {
            None => None,
            Some((key, j0)) => {
                let j1 = sp_ws(s, j0);
                if j1 >= s.len() || s[j1 as int] != ':' {
                    None
                } else {
                    let j2 = sp_ws(s, (j1 + 1) as nat);
                    match sp_proj_field_value(s, j2, key, p, fuel) {
                        None => None,
                        Some((p2, j3)) => {
                            let j4 = sp_ws(s, j3);
                            if j4 >= s.len() {
                                None
                            } else if s[j4 as int] == ',' {
                                sp_proj_fields(s, sp_ws(s, (j4 + 1) as nat), p2, (fuel - 1) as nat)
                            } else if s[j4 as int] == '}' {
                                Some((p2, (j4 + 1) as nat))
                            } else {
                                None
                            }
                        },
                    }
                }
            },
        }
    }
}

fn parse_proj_fields(v: &Vec<char>, i: usize, p: ProjectDraft, fuel: usize) -> (r: Option<
    (ProjectDraft, usize),
>)
    requires
        i <= v@.len(),
        fuel >= v@.len() - i,
    ensures
        (match r {
            Some((p2, q)) => sp_proj_fields(v@, i as nat, p@, fuel as nat) == Some(
                (p2@, q as nat),
            ) && i < q <= v@.len(),
            None => sp_proj_fields(v@, i as nat, p@, fuel as nat) is None,
        }),
    decreases fuel,
{
    if i >= v.len() {
        return None;
    }
    if v[i] != '"' {
        return None;
    }
    match lex_string_body(v, i + 1) {
        None => None,
        Some((key, j0)) => {
            let j1 = skip_ws(v, j0);
            if j1 >= v.len() {
                return None;
            }
            if v[j1] != ':' {
                return None;
            }
            let j2 = skip_ws(v, j1 + 1);
            match parse_proj_field_value(v, j2, &key, p, fuel) {
                None => None,
                Some((p2, j3)) => {
                    let j4 = skip_ws(v, j3);
                    if j4 >= v.len() {
                        None
                    } else if v[j4] == ',' {
                        let inext = skip_ws(v, j4 + 1);
                        parse_proj_fields(v, inext, p2, fuel - 1)
                    } else if v[j4] == '}' {
                        Some((p2, j4 + 1))
                    } else {
                        None
                    }
                },
            }
        },
    }
}

/// Turns a fully folded project draft into a project: every member is
/// required.
pub open spec fn sp_proj_finish(p: ProjectDraftView) -> Option<ProjectView> {
    if p.name is Some && p.path is Some && p.worktrees is Some {
        Some(ProjectView { name: p.name->0, path: p.path->0, worktrees: p.worktrees->0 })
    } else {
        None
    }
}

fn proj_finish(p: ProjectDraft) -> (r: Option<Project>)
    ensures
        (match r {
            Some(pr) => sp_proj_finish(p@) == Some(pr@),
            None => sp_proj_finish(p@) is None,
        }),
{
    let ProjectDraft { name, path, worktrees } = p;
    if name.is_none() || path.is_none() || worktrees.is_none() {
        return None;
    }
    let nv = name.unwrap();
    let pv = path.unwrap();
    let pr = Project {
        name: string_of_chars(&nv),
        path: string_of_chars(&pv),
        worktrees: worktrees.unwrap(),
    };
    Some(pr)
}

/// The project object starting at position `i`.
pub open spec fn sp_project(s: Seq<char>, i: nat, fuel: nat) -> Option<(ProjectView, nat)> {
    if i >= s.len() || s[i as int] != '{' {
        None
    } else {
        let i1 = sp_ws(s, (i + 1) as nat);
        let inner: Option<(ProjectDraftView, nat)> = if i1 < s.len() && s[i1 as int] == '}' {
            Some((sp_proj_draft_empty(), (i1 + 1) as nat))
        } else {
            sp_proj_fields(s, i1, sp_proj_draft_empty(), fuel)
        };
        match inner {
            None => None,
            Some((p, j)) => match sp_proj_finish(p) {
                Some(pr) => Some((pr, j)),
                None => None,
            },
        }
    }
}

fn parse_project(v: &Vec<char>, i: usize, fuel: usize) -> (r: Option<(Project, usize)>)
    requires
        i <= v@.len(),
        fuel >= v@.len() - i,
    ensures
        (match r {
            Some((pr, p)) => sp_project(v@, i as nat, fuel as nat) == Some((pr@, p as nat)) && i
                < p <= v@.len(),
            None => sp_project(v@, i as nat, fuel as nat) is None,
        }),
{
    if i >= v.len() {
        return None;
    }
    if v[i] != '{' {
        return None;
    }
    let i1 = skip_ws(v, i + 1);
    let inner: Option<(ProjectDraft, usize)> = if i1 < v.len() && v[i1] == '}' {
        Some((proj_draft_empty(), i1 + 1))
    } else {
        parse_proj_fields(v, i1, proj_draft_empty(), fuel)
    };
    match inner {
        None => None,
        Some((p, j)) => match proj_finish(p) {
            Some(pr) => Some((pr, j)),
            None => None,
        },
    }
}

/// The remaining elements of a project array, starting at the first
/// element, up to and including the closing bracket.
pub open spec fn sp_proj_array_rest(s: Seq<char>, i: nat, fuel: nat) -> Option<
    (Seq<ProjectView>, nat),
>
    decreases fuel,
{
    if fuel == 0 {
        None
    } else {
        match sp_project(s, i, fuel) {
            None => None,
            Some((pr, j)) => {
                let j1 = sp_ws(s, j);
                if j1 >= s.len() {
                    None
                } else if s[j1 as int] == ']' {
                    Some((seq![pr], (j1 + 1) as nat))
                } else if s[j1 as int] == ',' {
                    match sp_proj_array_rest(s, sp_ws(s, (j1 + 1) as nat), (fuel - 1) as nat) {
                        None => None,
                        Some((rest, k)) => Some((seq![pr] + rest, k)),
                    }
                } else {
                    None
                }
            },
        }
    }
}

fn parse_proj_array_rest(v: &Vec<char>, i: usize, fuel: usize) -> (r: Option<
    (Vec<Project>, usize),
>)
    requires
        i <= v@.len(),
        fuel >= v@.len() - i,
    ensures
        (match r {
            Some((ps, p)) => sp_proj_array_rest(v@, i as nat, fuel as nat) == Some(
                (projs_view(ps@), p as nat),
            ) && i < p <= v@.len(),
            None => sp_proj_array_rest(v@, i as nat, fuel as nat) is None,
        }),
    decreases fuel,
{
    if fuel == 0 {
        return None;
    }
    match parse_project(v, i, fuel) {
        None => None,
        Some((pr, j)) => {
            let j1 = skip_ws(v, j);
            if j1 >= v.len() {
                None
            } else if v[j1] == ']' {
                let mut ps: Vec<Project> = Vec::new();
                ps.push(pr);
                proof {
                    assert(projs_view(ps@) =~= seq![pr@]);
                }
                Some((ps, j1 + 1))
            } else if v[j1] == ',' {
                let inext = skip_ws(v, j1 + 1);
                match parse_proj_array_rest(v, inext, fuel - 1) {
                    None => None,
                    Some((rest, k)) => {
                        let ghost rest_snap = rest@;
                        let mut ps = rest;
                        ps.insert(0, pr);
                        proof {
                            assert(projs_view(ps@) =~= seq![pr@] + projs_view(rest_snap));
                        }
                        Some((ps, k))
                    },
                }
            } else {
                None
            }
        },
    }
}

// --- the response object ---

/// Folds one member with the given key into the optional project list seen
/// so far: the one known key is `projects`.
pub open spec fn sp_resp_field_value(
    s: Seq<char>,
    i: nat,
    key: Seq<char>,
    acc: Option<Seq<ProjectView>>,
    fuel: nat,
) -> Option<(Option<Seq<ProjectView>>, nat)> {
    if key == "projects"@ {
        if acc is Some {
            None
        } else if i >= s.len() || s[i as int] != '[' {
            None
        } else {
            let i1 = sp_ws(s, (i + 1) as nat);
            if i1 < s.len() && s[i1 as int] == ']' {
                Some((Some(Seq::empty()), (i1 + 1) as nat))
            } else {
                match sp_proj_array_rest(s, i1, fuel) {
                    Some((ps, j)) => Some((Some(ps), j)),
                    None => None,
                }
            }
        }
    } else {
        match sp_skip_value(s, i, fuel) {
            Some(j) => Some((acc, j)),
            None => None,
        }
    }
}

fn parse_resp_field_value(
    v: &Vec<char>,
    i: usize,
    key: &Vec<char>,
    acc: Option<Vec<Project>>,
    fuel: usize,
) -> (r: Option<(Option<Vec<Project>>, usize)>)
    requires
        i <= v@.len(),
        fuel >= v@.len() - i,
    ensures
        (match r {
            Some((acc2, j)) => ({
                &&& sp_resp_field_value(v@, i as nat, key@, opt_projs_view(acc), fuel as nat)
                    == Some((opt_projs_view(acc2), j as nat))
                &&& i < j <= v@.len()
            }),
            None => sp_resp_field_value(v@, i as nat, key@, opt_projs_view(acc), fuel as nat)
                is None,
        }),
{
    if chars_eq_lit(key, "projects") {
        if acc.is_some() {
            return None;
        }
        if i >= v.len() {
            return None;
        }
        if v[i] != '[' {
            return None;
        }
        let i1 = skip_ws(v, i + 1);
        if i1 < v.len() && v[i1] == ']' {
            let ps: Vec<Project> = Vec::new();
            proof {
                assert(projs_view(Seq::<Project>::empty()) =~= Seq::<ProjectView>::empty());
            }
            Some((Some(ps), i1 + 1))
        } else {
            match parse_proj_array_rest(v, i1, fuel) {
                Some((ps, j)) => Some((Some(ps), j)),
                None => None,
            }
        }
    } else {
        match skip_value(v, i, fuel) {
            Some(j) => Some((acc, j)),
            None => None,
        }
    }
}

/// The view of an optional project list.
pub open spec fn opt_projs_view(acc: Option<Vec<Project>>) -> Option<Seq<ProjectView>> {
    match acc {
        Some(ps) => Some(projs_view(ps@)),
        None => None,
    }
}

/// Folds the members of the response object, starting at the first key, up
/// to and including the closing brace.
pub open spec fn sp_resp_fields(
    s: Seq<char>,
    i: nat,
    acc: Option<Seq<ProjectView>>,
    fuel: nat,
) -> Option<(Option<Seq<ProjectView>>, nat)>
    decreases fuel,
{
    if fuel == 0 || i >= s.len() || s[i as int] != '"' {
        None
    } else {
        match sp_string_body(s, (i + 1) as nat) {
            None => None,
            Some((key, j0)) => {
                let j1 = sp_ws(s, j0);
                if j1 >= s.len() || s[j1 as int] != ':' {
                    None
                } else {
                    let j2 = sp_ws(s, (j1 + 1) as nat);
                    match sp_resp_field_value(s, j2, key, acc, fuel) {
                        None => None,
                        Some((acc2, j3)) => {
                            let j4 = sp_ws(s, j3);
                            if j4 >= s.len() {
                                None
                            } else if s[j4 as int] == ',' {
                                sp_resp_fields(s, sp_ws(s, (j4 + 1) as nat), acc2, (fuel - 1) as nat)
                            } else if s[j4 as int] == '}' {
                                Some((acc2, (j4 + 1) as nat))
                            } else {
                                None
                            }
                        },
                    }
                }
            },
        }
    }
}

fn parse_resp_fields(v: &Vec<char>, i: usize, acc: Option<Vec<Project>>, fuel: usize) -> (r:
    Option<(Option<Vec<Project>>, usize)>)
    requires
        i <= v@.len(),
        fuel >= v@.len() - i,
    ensures
        (match r {
            Some((acc2, p)) => sp_resp_fields(v@, i as nat, opt_projs_view(acc), fuel as nat)
                == Some((opt_projs_view(acc2), p as nat)) && i < p <= v@.len(),
            None => sp_resp_fields(v@, i as nat, opt_projs_view(acc), fuel as nat) is None,
        }),
    decreases fuel,
{
    if i >= v.len() {
        return None;
    }
    if v[i] != '"' {
        return None;
    }
    match lex_string_body(v, i + 1) {
        None => None,
        Some((key, j0)) => {
            let j1 = skip_ws(v, j0);
            if j1 >= v.len() {
                return None;
            }
            if v[j1] != ':' {
                return None;
            }
            let j2 = skip_ws(v, j1 + 1);
            match parse_resp_field_value(v, j2, &key, acc, fuel) {
                None => None,
                Some((acc2, j3)) => {
                    let j4 = skip_ws(v, j3);
                    if j4 >= v.len() {
                        None
                    } else if v[j4] == ',' {
                        let inext = skip_ws(v, j4 + 1);
                        parse_resp_fields(v, inext, acc2, fuel - 1)
                    } else if v[j4] == '}' {
                        Some((acc2, j4 + 1))
                    } else {
                        None
                    }
                },
            }
        },
    }
}

/// The response object starting at position `i`: the `projects` member is
/// required.
pub open spec fn sp_response(s: Seq<char>, i: nat, fuel: nat) -> Option<
    (ListAllResponseView, nat),
> {
    if i >= s.len() || s[i as int] != '{' {
        None
    } else {
        let i1 = sp_ws(s, (i + 1) as nat);
        let inner: Option<(Option<Seq<ProjectView>>, nat)> = if i1 < s.len() && s[i1 as int]
            == '}' {
            Some((None, (i1 + 1) as nat))
        } else {
            sp_resp_fields(s, i1, None, fuel)
        };
        match inner {
            None => None,
            Some((acc, j)) => match acc {
                Some(ps) => Some((ListAllResponseView { projects: ps }, j)),
                None => None,
            },
        }
    }
}

fn parse_resp_obj(v: &Vec<char>, i: usize, fuel: usize) -> (r: Option<(ListAllResponse, usize)>)
    requires
        i <= v@.len(),
        fuel >= v@.len() - i,
    ensures
        (match r {
            Some((resp, p)) => sp_response(v@, i as nat, fuel as nat) == Some((resp@, p as nat))
                && i < p <= v@.len(),
            None => sp_response(v@, i as nat, fuel as nat) is None,
        }),
{
    if i >= v.len() {
        return None;
    }
    if v[i] != '{' {
        return None;
    }
    let i1 = skip_ws(v, i + 1);
    let inner: Option<(Option<Vec<Project>>, usize)> = if i1 < v.len() && v[i1] == '}' {
        Some((None, i1 + 1))
    } else {
        parse_resp_fields(v, i1, None, fuel)
    };
    match inner {
        None => None,
        Some((acc, j)) => match acc {
            Some(ps) => Some((ListAllResponse { projects: ps }, j)),
            None => None,
        },
    }
}

/// The typed response denoted by a complete output text: the text must hold
/// exactly one response object, surrounded only by whitespace.
pub open spec fn sp_response_text(s: Seq<char>) -> Option<ListAllResponseView> {
    let i0 = sp_ws(s, 0);
    match sp_response(s, i0, s.len()) {
        None => None,
        Some((r, j)) => if sp_ws(s, j) == s.len() {
            Some(r)
        } else {
            None
        },
    }
}

/// Parses one complete output text of the tool against the response schema.
pub fn parse_response(text: &str) -> (r: Option<ListAllResponse>)
    ensures
        (match r {
            Some(resp) => sp_response_text(text@) == Some(resp@),
            None => sp_response_text(text@) is None,
        }),
{
    let v = chars_of_str(text);
    let i0 = skip_ws(&v, 0);
    let fuel = v.len();
    match parse_resp_obj(&v, i0, fuel) {
        None => None,
        Some((resp, j)) => {
            let j1 = skip_ws(&v, j);
            if j1 == v.len() {
                Some(resp)
            } else {
                None
            }
        },
    }
}

} // verus!
