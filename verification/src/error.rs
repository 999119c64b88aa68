//! The failures that the orchestration operations report.

use vstd::prelude::*;
use vstd::string::StringExecFns;
use crate::status::{InvalidState, RalphOperation, RalphStatus};
use crate::text::prefixed;

verus! {

/// Why an orchestration operation was refused or could not go on.
#[derive(Clone, Debug, PartialEq, Eq)]
pub enum ApiError {
    /// The operation is not valid from the task's current status.
    InvalidState(InvalidState),
    /// No plan can be shown in the task's current status.
    PlanUnavailable { current: RalphStatus },
    /// The task has no specification, or a blank one.
    MissingSpec,
    /// The task has no workspace.
    NoWorkspace,
    /// The workspace has no worktree to read from.
    NoContainerRef,
    /// The workspace has no worktree to provision the control directory in.
    WorktreeNotSetUp,
    /// The workspace is bound to no repository.
    NoWorkspaceRepositories,
    /// The repository that the workspace is bound to is not on record.
    RepositoryNotFound,
    /// The repository holds no control directory to copy from.
    ControlSourceMissing { path: String },
    /// Provisioning the control directory failed.
    ControlSetupFailed { reason: String },
    /// The task belongs to no project.
    NoParentProject,
    /// The task's project has no repository.
    NoProjectRepositories,
    /// Creating the worktree failed.
    WorkspaceSetupFailed { reason: String },
    /// The workspace was created and could not be read back.
    WorkspaceNotFoundAfterCreation,
    /// The plan document could not be read.
    PlanNotFound { reason: String },
}

/// The text of a refusal by the state machine's guard.
pub open spec fn invalid_state_text(e: InvalidState) -> Seq<char> {
    let state = e.current.spec_name();
    match e.operation {
        RalphOperation::StartPlan => "Cannot start Ralph from state "@ + state
            + ". Valid states: None, Failed"@,
        RalphOperation::Approve => "Cannot approve from state "@ + state
            + ". Must be AwaitingApproval."@,
        RalphOperation::Replan => "Cannot replan from state "@ + state
            + ". Must be AwaitingApproval."@,
        RalphOperation::Restart => "Cannot restart from state "@ + state + ". Must be Failed."@,
        RalphOperation::Cancel => "Cannot cancel from state "@ + state
            + ". Valid states: [Planning, AwaitingApproval, Building, Failed]"@,
        RalphOperation::Reset => "Cannot reset from state "@ + state
            + ". Valid states: [Completed]"@,
    }
}

fn invalid_state_message(e: &InvalidState) -> (r: String)
    ensures
        r@ == invalid_state_text(*e),
{
    let (head, rest) = match e.operation {
        RalphOperation::StartPlan => (
            "Cannot start Ralph from state ",
            ". Valid states: None, Failed",
        ),
        RalphOperation::Approve => ("Cannot approve from state ", ". Must be AwaitingApproval."),
        RalphOperation::Replan => ("Cannot replan from state ", ". Must be AwaitingApproval."),
        RalphOperation::Restart => ("Cannot restart from state ", ". Must be Failed."),
        RalphOperation::Cancel => (
            "Cannot cancel from state ",
            ". Valid states: [Planning, AwaitingApproval, Building, Failed]",
        ),
        RalphOperation::Reset => ("Cannot reset from state ", ". Valid states: [Completed]"),
    };
    let mut out = String::new();
    out.append(head);
    out.append(e.current.name());
    out.append(rest);
    assert(out@ =~= invalid_state_text(*e));
    out
}

fn wrapped(head: &str, middle: &String, rest: &str) -> (r: String)
    ensures
        r@ == head@ + middle@ + rest@,
{
    let mut out = String::new();
    out.append(head);
    out.append(middle.as_str());
    out.append(rest);
    assert(out@ =~= head@ + middle@ + rest@);
    out
}

impl ApiError {
    /// What the error says to the caller.
    pub open spec fn spec_message(self) -> Seq<char> {
        match self {
            ApiError::InvalidState(e) => invalid_state_text(e),
            ApiError::PlanUnavailable { current } => "No plan available. Current state: "@
                + current.spec_name()
                + ". Plan is available when AwaitingApproval or Completed."@,
            ApiError::MissingSpec => "Task must have a description (spec) to use Ralph"@,
            ApiError::NoWorkspace => "No workspace found for task"@,
            ApiError::NoContainerRef => "Workspace has no container reference"@,
            ApiError::WorktreeNotSetUp =>
                "Workspace has no container reference (worktree not set up)"@,
            ApiError::NoWorkspaceRepositories => "No repositories found for workspace"@,
            ApiError::RepositoryNotFound => "Repository not found"@,
            ApiError::ControlSourceMissing { path } => "Ralph source directory not found at: "@
                + path@ + ". Ensure .ralph folder exists in the repository root."@,
            ApiError::ControlSetupFailed { reason } => "Failed to setup Ralph in worktree: "@
                + reason@,
            ApiError::NoParentProject => "Task has no parent project"@,
            ApiError::NoProjectRepositories => "Project has no repositories configured"@,
            ApiError::WorkspaceSetupFailed { reason } => "Failed to setup workspace: "@ + reason@,
            ApiError::WorkspaceNotFoundAfterCreation => "Workspace not found after creation"@,
            ApiError::PlanNotFound { reason } => "Implementation plan not found: "@ + reason@,
        }
    }

    pub fn message(&self) -> (r: String)
        ensures
            r@ == self.spec_message(),
    {
        match self {
            ApiError::InvalidState(e) => invalid_state_message(e),
            ApiError::PlanUnavailable { current } => {
                let mut out = String::new();
                out.append("No plan available. Current state: ");
                out.append(current.name());
                out.append(". Plan is available when AwaitingApproval or Completed.");
                assert(out@ =~= self.spec_message());
                out
            },
            ApiError::MissingSpec => "Task must have a description (spec) to use Ralph".to_owned(),
            ApiError::NoWorkspace => "No workspace found for task".to_owned(),
            ApiError::NoContainerRef => "Workspace has no container reference".to_owned(),
            ApiError::WorktreeNotSetUp =>
                "Workspace has no container reference (worktree not set up)".to_owned(),
            ApiError::NoWorkspaceRepositories => "No repositories found for workspace".to_owned(),
            ApiError::RepositoryNotFound => "Repository not found".to_owned(),
            ApiError::ControlSourceMissing { path } => wrapped(
                "Ralph source directory not found at: ",
                path,
                ". Ensure .ralph folder exists in the repository root.",
            ),
            ApiError::ControlSetupFailed { reason } => prefixed("Failed to setup Ralph in worktree: ", reason.as_str()),
            ApiError::NoParentProject => "Task has no parent project".to_owned(),
            ApiError::NoProjectRepositories => "Project has no repositories configured".to_owned(),
            ApiError::WorkspaceSetupFailed { reason } => prefixed("Failed to setup workspace: ", reason.as_str()),
            ApiError::WorkspaceNotFoundAfterCreation =>
                "Workspace not found after creation".to_owned(),
            ApiError::PlanNotFound { reason } => prefixed("Implementation plan not found: ", reason.as_str()),
        }
    }
}

} // verus!
