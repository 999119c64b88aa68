//! The persisted entities that the orchestration operations read and the
//! requests that they hand to their collaborators.

use vstd::prelude::*;
use crate::status::RalphStatus;
use crate::text::clone_opt_text;

verus! {

/// A unit of work requested by a user. `description` is its specification.
#[derive(Clone, Debug, PartialEq, Eq)]
pub struct Task {
    pub id: u128,
    pub title: String,
    pub description: Option<String>,
    pub ralph_status: RalphStatus,
    pub ralph_enabled: bool,
}

/// An isolated working copy bound to a task. `container_ref` is the root of
/// its worktrees once they are provisioned.
#[derive(Clone, Debug, PartialEq, Eq)]
pub struct Workspace {
    pub id: u128,
    pub task_id: u128,
    pub branch: String,
    pub agent_working_dir: Option<String>,
    pub container_ref: Option<String>,
}

impl Workspace {
    /// A copy of the record.
    pub fn duplicate(&self) -> (r: Workspace)
        ensures
            r == *self,
    {
        Workspace {
            id: self.id,
            task_id: self.task_id,
            branch: self.branch.clone(),
            agent_working_dir: clone_opt_text(&self.agent_working_dir),
            container_ref: clone_opt_text(&self.container_ref),
        }
    }
}

/// A repository that can be bound into a workspace.
#[derive(Clone, Debug, PartialEq, Eq)]
pub struct Repo {
    pub id: u128,
    pub path: String,
    pub name: String,
    pub default_working_dir: Option<String>,
    pub default_target_branch: Option<String>,
}

/// What is needed to record a new workspace.
#[derive(Clone, Debug, PartialEq, Eq)]
pub struct CreateWorkspace {
    pub branch: String,
    pub agent_working_dir: Option<String>,
}

/// The binding of one repository into a new workspace.
#[derive(Clone, Debug, PartialEq, Eq)]
pub struct CreateWorkspaceRepo {
    pub repo_id: u128,
    pub target_branch: String,
}

/// What is needed to record a new session.
#[derive(Clone, Debug, PartialEq, Eq)]
pub struct CreateSession {
    pub executor: Option<String>,
}

/// The kinds of agent that an action can name.
#[derive(Clone, Copy, Debug, PartialEq, Eq, Structural)]
pub enum BaseCodingAgent {
    Ralph,
    Other,
}

/// An agent and the variant of its configuration.
#[derive(Clone, Debug, PartialEq, Eq)]
pub struct ExecutorProfileId {
    pub executor: BaseCodingAgent,
    pub variant: Option<String>,
}

/// The first request of a run: the prompt and who is to work on it.
#[derive(Clone, Debug, PartialEq, Eq)]
pub struct CodingAgentInitialRequest {
    pub prompt: String,
    pub executor_profile_id: ExecutorProfileId,
    pub working_dir: Option<String>,
}

/// What an action asks to run.
#[derive(Clone, Debug, PartialEq, Eq)]
pub enum ExecutorActionType {
    CodingAgentInitialRequest(CodingAgentInitialRequest),
}

/// A request to run something, with the action that is to follow it.
#[derive(Debug, PartialEq, Eq)]
pub struct ExecutorAction {
    pub typ: ExecutorActionType,
    pub next_action: Option<Box<ExecutorAction>>,
}

impl ExecutorAction {
    pub fn new(typ: ExecutorActionType, next_action: Option<Box<ExecutorAction>>) -> (r: Self)
        ensures
            r.typ == typ,
            r.next_action == next_action,
    {
        ExecutorAction { typ, next_action }
    }

    /// The agent that the action names.
    pub open spec fn agent(self) -> BaseCodingAgent {
        match self.typ {
            ExecutorActionType::CodingAgentInitialRequest(req) => req.executor_profile_id.executor,
        }
    }

    /// The loop agent drives its own steps: an action for it is followed by
    /// no other.
    pub open spec fn well_formed(self) -> bool {
        self.agent() == BaseCodingAgent::Ralph ==> self.next_action is None
    }

    pub fn is_well_formed(&self) -> (r: bool)
        ensures
            r == self.well_formed(),
    {
        match &self.typ {
            ExecutorActionType::CodingAgentInitialRequest(req) => {
                match req.executor_profile_id.executor {
                    BaseCodingAgent::Ralph => self.next_action.is_none(),
                    BaseCodingAgent::Other => true,
                }
            },
        }
    }
}

} // verus!
