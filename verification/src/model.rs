//! The typed response tree produced by one tool invocation, and the
//! classified failures that can take its place.

use vstd::prelude::*;

verus! {

/// The status of one checked-out working copy of a project.
#[derive(Debug, Clone, PartialEq)]
pub struct Worktree {
    pub name: String,
    pub folder: String,
    pub path: String,
    /// Absent when the worktree is detached or the branch is unresolved.
    pub branch: Option<String>,
    pub is_closed: bool,
    pub dirty_files: u32,
    pub local_commits: u32,
    /// Absent when no pull request is associated with the worktree.
    pub pr_number: Option<u32>,
    pub pr_commits: Option<u32>,
    pub pushed_commits: Option<u32>,
    pub ide_active: bool,
}

/// The mathematical value of a `Worktree`.
pub struct WorktreeView {
    pub name: Seq<char>,
    pub folder: Seq<char>,
    pub path: Seq<char>,
    pub branch: Option<Seq<char>>,
    pub is_closed: bool,
    pub dirty_files: u32,
    pub local_commits: u32,
    pub pr_number: Option<u32>,
    pub pr_commits: Option<u32>,
    pub pushed_commits: Option<u32>,
    pub ide_active: bool,
}

impl View for Worktree {
    type V = WorktreeView;

    open spec fn view(&self) -> WorktreeView {
        WorktreeView {
            name: self.name@,
            folder: self.folder@,
            path: self.path@,
            branch: match self.branch {
                Option::Some(b) => Option::Some(b@),
                Option::None => Option::None,
            },
            is_closed: self.is_closed,
            dirty_files: self.dirty_files,
            local_commits: self.local_commits,
            pr_number: self.pr_number,
            pr_commits: self.pr_commits,
            pushed_commits: self.pushed_commits,
            ide_active: self.ide_active,
        }
    }
}

/// Whether the pull-request fields of a worktree are consistent: the commit
/// counts tied to a pull request are only present when a pull request number
/// is present. The external tool is responsible for upholding this; the
/// bridge only reports it.
pub open spec fn pr_consistent(w: WorktreeView) -> bool {
    w.pr_number is None ==> w.pr_commits is None && w.pushed_commits is None
}

impl Worktree {
    /// Reports whether this worktree upholds the pull-request consistency
    /// expectation, for conformance checks against the external tool.
    pub fn pr_fields_consistent(&self) -> (r: bool)
        ensures
            r == pr_consistent(self@),
    {
        match self.pr_number {
            Option::Some(_) => true,
            Option::None => self.pr_commits.is_none() && self.pushed_commits.is_none(),
        }
    }
}

/// The views of a sequence of worktrees, element for element.
pub open spec fn wks_view(ws: Seq<Worktree>) -> Seq<WorktreeView> {
    ws.map_values(|w: Worktree| w@)
}

/// A project together with its worktrees, in the tool's emission order.
#[derive(Debug, Clone, PartialEq)]
pub struct Project {
    pub name: String,
    pub path: String,
    pub worktrees: Vec<Worktree>,
}

/// The mathematical value of a `Project`.
pub struct ProjectView {
    pub name: Seq<char>,
    pub path: Seq<char>,
    pub worktrees: Seq<WorktreeView>,
}

impl View for Project {
    type V = ProjectView;

    open spec fn view(&self) -> ProjectView {
        ProjectView {
            name: self.name@,
            path: self.path@,
            worktrees: wks_view(self.worktrees@),
        }
    }
}

/// The views of a sequence of projects, element for element.
pub open spec fn projs_view(ps: Seq<Project>) -> Seq<ProjectView> {
    ps.map_values(|p: Project| p@)
}

/// The top-level response: every project known to the tool, in emission order.
#[derive(Debug, Clone, PartialEq)]
pub struct ListAllResponse {
    pub projects: Vec<Project>,
}

/// The mathematical value of a `ListAllResponse`.
pub struct ListAllResponseView {
    pub projects: Seq<ProjectView>,
}

impl View for ListAllResponse {
    type V = ListAllResponseView;

    open spec fn view(&self) -> ListAllResponseView {
        ListAllResponseView { projects: projs_view(self.projects@) }
    }
}

/// A classified, terminal failure of one bridge invocation.
#[derive(Debug, Clone, PartialEq)]
pub enum BridgeError {
    /// The external tool could not be started; carries the system error text.
    LaunchError(String),
    /// The tool ran and exited with a non-zero status; carries the text of
    /// its diagnostic stream.
    ExecutionError(String),
    /// The tool's output did not conform to the expected JSON schema;
    /// carries a diagnostic and a bounded prefix of the raw output.
    SchemaError(String, String),
}

/// The mathematical value of a `BridgeError`.
pub enum BridgeErrorView {
    LaunchError(Seq<char>),
    ExecutionError(Seq<char>),
    SchemaError(Seq<char>, Seq<char>),
}

impl View for BridgeError {
    type V = BridgeErrorView;

    open spec fn view(&self) -> BridgeErrorView {
        match self {
            BridgeError::LaunchError(m) => BridgeErrorView::LaunchError(m@),
            BridgeError::ExecutionError(m) => BridgeErrorView::ExecutionError(m@),
            BridgeError::SchemaError(d, p) => BridgeErrorView::SchemaError(d@, p@),
        }
    }
}

} // verus!
