//! Finding or creating the workspace of a task, and provisioning the control
//! directory in its worktree.

use vstd::prelude::*;
use crate::error::ApiError;
use crate::model::{CreateSession, CreateWorkspace, CreateWorkspaceRepo, Repo, Workspace};
use crate::text::{clone_opt_text, join_path, opt_text, spec_join_path};

verus! {

/// A version-4 identifier: the version field holds 4 and the variant field
/// the two bits `10`.
pub open spec fn is_v4(id: u128) -> bool {
    id & 0x0000_0000_0000_F000_C000_0000_0000_0000u128
        == 0x0000_0000_0000_4000_8000_0000_0000_0000u128
}

/// `uuid::Uuid::new_v4`, as a number: a random identifier of version 4. The
/// call fails only where the operating system hands out no random bytes.
#[verifier::external_body]
fn fresh_id() -> (id: u128)
    ensures
        is_v4(id),
{
    uuid::Uuid::new_v4().as_u128()
}

/// A session: one plan or build invocation in a workspace.
#[derive(Clone, Debug, PartialEq, Eq)]
pub struct Session {
    pub id: u128,
    pub workspace_id: u128,
    pub executor: Option<String>,
}

impl Session {
    /// The session that `request` asks for, in the given workspace and under
    /// the given identifier.
    pub fn create(request: &CreateSession, id: u128, workspace_id: u128) -> (r: Session)
        ensures
            r.id == id,
            r.workspace_id == workspace_id,
            opt_text(r.executor) == opt_text(request.executor),
    {
        Session { id, workspace_id, executor: clone_opt_text(&request.executor) }
    }

    /// The session that `request` asks for under the given identifier,
    /// unless a session on record has that identifier already.
    pub fn create_distinct(
        request: &CreateSession,
        id: u128,
        workspace_id: u128,
        existing: &Vec<Session>,
    ) -> (r: Option<Session>)
        ensures
            on_record(existing@, id) ==> r is None,
            !on_record(existing@, id) ==> {
                &&& r is Some
                &&& r->0.id == id
                &&& r->0.workspace_id == workspace_id
                &&& opt_text(r->0.executor) == opt_text(request.executor)
            },
    {
        let mut i: usize = 0;
        while i < existing.len()
            invariant
                i <= existing.len(),
                forall|k: int| 0 <= k < i ==> (#[trigger] existing@[k]).id != id,
            decreases existing.len() - i,
        {
            if existing[i].id == id {
                return None;
            }
            i += 1;
        }
        Some(Session::create(request, id, workspace_id))
    }

    /// A session under a new random identifier, which no session on record
    /// has. The identifier is drawn once: where it is on record already no
    /// session is made, which can happen only where a session on record
    /// has a version-4 identifier.
    pub fn create_fresh(request: &CreateSession, workspace_id: u128, existing: &Vec<Session>) -> (r:
        Option<Session>)
        ensures
            r is Some ==> {
                &&& is_v4(r->0.id)
                &&& !on_record(existing@, r->0.id)
                &&& r->0.workspace_id == workspace_id
                &&& opt_text(r->0.executor) == opt_text(request.executor)
            },
            r is None ==> exists|k: int|
                0 <= k < existing@.len() && is_v4((#[trigger] existing@[k]).id),
    {
        Session::create_distinct(request, fresh_id(), workspace_id, existing)
    }
}

/// Some session on record has the identifier.
pub open spec fn on_record(existing: Seq<Session>, id: u128) -> bool {
    exists|k: int| 0 <= k < existing.len() && (#[trigger] existing[k]).id == id
}

/// What is to be created where a task has no workspace yet.
#[derive(Clone, Debug, PartialEq, Eq)]
pub struct NewWorkspace {
    pub workspace_id: u128,
    pub agent_working_dir: Option<String>,
    pub repos: Vec<CreateWorkspaceRepo>,
}

/// Whether a task's workspace is there or has to be created.
#[derive(Clone, Debug, PartialEq, Eq)]
pub enum WorkspaceDecision {
    Existing(Workspace),
    Create(NewWorkspace),
}

/// The directory in which the agent works, relative to the workspace root:
/// with one repository its name, followed by its working directory where it
/// has one; with several the root itself.
pub open spec fn spec_agent_working_dir(repos: Seq<Repo>) -> Option<Seq<char>> {
    if repos.len() == 1 {
        match repos[0].default_working_dir {
            Some(subdir) => Some(spec_join_path(repos[0].name@, subdir@)),
            None => Some(repos[0].name@),
        }
    } else {
        None
    }
}

/// The branch that a repository is bound with: its default target branch,
/// `main` where it names none.
pub open spec fn spec_target_branch(repo: Repo) -> Seq<char> {
    match repo.default_target_branch {
        Some(branch) => branch@,
        None => "main"@,
    }
}

/// The bindings of the given repositories are those of `repos`, one for one.
pub open spec fn binds(requests: Seq<CreateWorkspaceRepo>, repos: Seq<Repo>) -> bool {
    &&& requests.len() == repos.len()
    &&& forall|i: int|
        0 <= i < repos.len() ==> (#[trigger] requests[i]).repo_id == repos[i].id
            && requests[i].target_branch@ == spec_target_branch(repos[i])
}

pub fn agent_working_dir(repos: &Vec<Repo>) -> (r: Option<String>)
    ensures
        opt_text(r) == spec_agent_working_dir(repos@),
{
    if repos.len() == 1 {
        let repo = &repos[0];
        match &repo.default_working_dir {
            Some(subdir) => Some(join_path(repo.name.as_str(), subdir.as_str())),
            None => Some(repo.name.clone()),
        }
    } else {
        None
    }
}

pub fn workspace_repo_requests(repos: &Vec<Repo>) -> (r: Vec<CreateWorkspaceRepo>)
    ensures
        binds(r@, repos@),
{
    let mut out: Vec<CreateWorkspaceRepo> = Vec::new();
    let mut i: usize = 0;
    while i < repos.len()
        invariant
            i <= repos.len(),
            binds(out@, repos@.take(i as int)),
        decreases repos.len() - i,
    {
        let repo = &repos[i];
        let target_branch = match &repo.default_target_branch {
            Some(branch) => branch.clone(),
            None => "main".to_owned(),
        };
        out.push(CreateWorkspaceRepo { repo_id: repo.id, target_branch });
        i += 1;
    }
    assert(repos@.take(repos.len() as int) =~= repos@);
    out
}

/// What the task's workspace is to be, given the workspaces on record, the
/// repositories of the task's project (`None`: the task has no project) and
/// the identifier for a new workspace. The first workspace on record is the
/// task's workspace; the project is looked at only where there is none.
pub fn plan_workspace(
    workspaces: &Vec<Workspace>,
    project_repos: Option<&Vec<Repo>>,
    workspace_id: u128,
) -> (r: Result<WorkspaceDecision, ApiError>)
    ensures
        workspaces@.len() > 0 ==> r is Ok && r->Ok_0 is Existing
            && r->Ok_0->Existing_0 == workspaces@[0],
        workspaces@.len() == 0 && project_repos is None ==> r == Err::<
            WorkspaceDecision,
            ApiError,
        >(ApiError::NoParentProject),
        workspaces@.len() == 0 && project_repos is Some && project_repos->0@.len() == 0 ==> r
            == Err::<WorkspaceDecision, ApiError>(ApiError::NoProjectRepositories),
        workspaces@.len() == 0 && project_repos is Some && project_repos->0@.len() > 0 ==> {
            &&& r is Ok
            &&& r->Ok_0 is Create
            &&& r->Ok_0->Create_0.workspace_id == workspace_id
            &&& opt_text(r->Ok_0->Create_0.agent_working_dir) == spec_agent_working_dir(
                project_repos->0@,
            )
            &&& binds(r->Ok_0->Create_0.repos@, project_repos->0@)
        },
{
    if workspaces.len() > 0 {
        return Ok(WorkspaceDecision::Existing(workspaces[0].duplicate()));
    }
    match project_repos {
        None => Err(ApiError::NoParentProject),
        Some(repos) => {
            if repos.len() == 0 {
                return Err(ApiError::NoProjectRepositories);
            }
            Ok(WorkspaceDecision::Create(new_workspace(repos, workspace_id)))
        },
    }
}

/// The workspace to create for a project with the given repositories.
pub fn new_workspace(repos: &Vec<Repo>, workspace_id: u128) -> (r: NewWorkspace)
    ensures
        r.workspace_id == workspace_id,
        opt_text(r.agent_working_dir) == spec_agent_working_dir(repos@),
        binds(r.repos@, repos@),
{
    NewWorkspace {
        workspace_id,
        agent_working_dir: agent_working_dir(repos),
        repos: workspace_repo_requests(repos),
    }
}

/// What the task's workspace is to be, with a new random identifier for a
/// workspace that has to be created. The identifier is drawn only once it
/// is settled that a workspace is created.
pub fn get_or_create_workspace_for_ralph(
    workspaces: &Vec<Workspace>,
    project_repos: Option<&Vec<Repo>>,
) -> (r: Result<WorkspaceDecision, ApiError>)
    ensures
        workspaces@.len() > 0 ==> r is Ok && r->Ok_0 is Existing
            && r->Ok_0->Existing_0 == workspaces@[0],
        workspaces@.len() == 0 && project_repos is None ==> r == Err::<
            WorkspaceDecision,
            ApiError,
        >(ApiError::NoParentProject),
        workspaces@.len() == 0 && project_repos is Some && project_repos->0@.len() == 0 ==> r
            == Err::<WorkspaceDecision, ApiError>(ApiError::NoProjectRepositories),
        workspaces@.len() == 0 && project_repos is Some && project_repos->0@.len() > 0 ==> {
            &&& r is Ok
            &&& r->Ok_0 is Create
            &&& is_v4(r->Ok_0->Create_0.workspace_id)
            &&& opt_text(r->Ok_0->Create_0.agent_working_dir) == spec_agent_working_dir(
                project_repos->0@,
            )
            &&& binds(r->Ok_0->Create_0.repos@, project_repos->0@)
        },
{
    if workspaces.len() > 0 {
        return Ok(WorkspaceDecision::Existing(workspaces[0].duplicate()));
    }
    match project_repos {
        None => Err(ApiError::NoParentProject),
        Some(repos) => {
            if repos.len() == 0 {
                return Err(ApiError::NoProjectRepositories);
            }
            Ok(WorkspaceDecision::Create(new_workspace(repos, fresh_id())))
        },
    }
}

/// The record to create for a new workspace on the given branch.
pub fn create_workspace_request(branch: String, new: &NewWorkspace) -> (r: CreateWorkspace)
    ensures
        r.branch == branch,
        r.agent_working_dir == new.agent_working_dir,
{
    CreateWorkspace { branch, agent_working_dir: clone_opt_text(&new.agent_working_dir) }
}

/// The workspace after its worktree was created: `created` is what creating
/// gave, `reloaded` the record read back afterwards.
pub fn workspace_after_creation(created: Result<(), String>, reloaded: Option<Workspace>) -> (r:
    Result<Workspace, ApiError>)
    ensures
        match created {
            Err(reason) => r == Err::<Workspace, ApiError>(
                ApiError::WorkspaceSetupFailed { reason },
            ),
            Ok(_) => match reloaded {
                Some(w) => r == Ok::<Workspace, ApiError>(w),
                None => r == Err::<Workspace, ApiError>(ApiError::WorkspaceNotFoundAfterCreation),
            },
        },
{
    match created {
        Err(reason) => Err(ApiError::WorkspaceSetupFailed { reason }),
        Ok(_) => match reloaded {
            Some(w) => Ok(w),
            None => Err(ApiError::WorkspaceNotFoundAfterCreation),
        },
    }
}

/// The task's workspace where one has to be there already: the first on
/// record.
pub fn require_workspace(workspaces: &Vec<Workspace>) -> (r: Result<&Workspace, ApiError>)
    ensures
        workspaces@.len() > 0 ==> r == Ok::<&Workspace, ApiError>(&workspaces@[0]),
        workspaces@.len() == 0 ==> r == Err::<&Workspace, ApiError>(ApiError::NoWorkspace),
{
    if workspaces.len() > 0 {
        Ok(&workspaces[0])
    } else {
        Err(ApiError::NoWorkspace)
    }
}

/// Where the control directory is copied from and into which worktree.
#[derive(Clone, Debug, PartialEq, Eq)]
pub struct ControlDirectorySetup {
    pub worktree_path: String,
    pub source: String,
}

/// The control directory that a repository offers for copying.
pub open spec fn spec_control_source(repo: Repo) -> Seq<char> {
    spec_join_path(repo.path@, ".ralph"@)
}

pub fn control_source_path(repo: &Repo) -> (r: String)
    ensures
        r@ == spec_control_source(*repo),
{
    join_path(repo.path.as_str(), ".ralph")
}

/// The worktree of a workspace.
pub fn worktree_of(workspace: &Workspace) -> (r: Result<String, ApiError>)
    ensures
        match workspace.container_ref {
            Some(root) => r == Ok::<String, ApiError>(root),
            None => r == Err::<String, ApiError>(ApiError::WorktreeNotSetUp),
        },
{
    match &workspace.container_ref {
        Some(root) => Ok(root.clone()),
        None => Err(ApiError::WorktreeNotSetUp),
    }
}

/// The repository whose control directory is copied: the first that the
/// workspace is bound to.
pub fn first_repo_id(repo_ids: &Vec<u128>) -> (r: Result<u128, ApiError>)
    ensures
        repo_ids@.len() > 0 ==> r == Ok::<u128, ApiError>(repo_ids@[0]),
        repo_ids@.len() == 0 ==> r == Err::<u128, ApiError>(ApiError::NoWorkspaceRepositories),
{
    if repo_ids.len() > 0 {
        Ok(repo_ids[0])
    } else {
        Err(ApiError::NoWorkspaceRepositories)
    }
}

/// Decides how the control directory is provisioned in a workspace, from
/// the identifiers of the repositories bound to it, the record of the first
/// of them (`None`: not on record), and whether that repository's control
/// directory exists.
pub fn setup_ralph_for_workspace(
    workspace: &Workspace,
    repo_ids: &Vec<u128>,
    repo: Option<&Repo>,
    source_exists: bool,
) -> (r: Result<ControlDirectorySetup, ApiError>)
    ensures
        workspace.container_ref is None ==> r == Err::<ControlDirectorySetup, ApiError>(
            ApiError::WorktreeNotSetUp,
        ),
        workspace.container_ref is Some && repo_ids@.len() == 0 ==> r == Err::<
            ControlDirectorySetup,
            ApiError,
        >(ApiError::NoWorkspaceRepositories),
        workspace.container_ref is Some && repo_ids@.len() > 0 && repo is None ==> r == Err::<
            ControlDirectorySetup,
            ApiError,
        >(ApiError::RepositoryNotFound),
        workspace.container_ref is Some && repo_ids@.len() > 0 && repo is Some && !source_exists
            ==> r is Err && r->Err_0 is ControlSourceMissing
            && r->Err_0->ControlSourceMissing_path@ == spec_control_source(*repo->0),
        workspace.container_ref is Some && repo_ids@.len() > 0 && repo is Some && source_exists
            ==> r is Ok && r->Ok_0.worktree_path == workspace.container_ref->0
            && r->Ok_0.source@ == spec_control_source(*repo->0),
{
    let worktree_path = match worktree_of(workspace) {
        Ok(root) => root,
        Err(e) => {
            return Err(e);
        },
    };
    if repo_ids.len() == 0 {
        return Err(ApiError::NoWorkspaceRepositories);
    }
    match repo {
        None => Err(ApiError::RepositoryNotFound),
        Some(found) => {
            let source = control_source_path(found);
            if !source_exists {
                return Err(ApiError::ControlSourceMissing { path: source });
            }
            Ok(ControlDirectorySetup { worktree_path, source })
        },
    }
}

/// What provisioning the control directory came to.
pub fn provisioning_outcome(result: Result<(), String>) -> (r: Result<(), ApiError>)
    ensures
        match result {
            Ok(_) => r is Ok,
            Err(reason) => r == Err::<(), ApiError>(ApiError::ControlSetupFailed { reason }),
        },
{
    match result {
        Ok(_) => Ok(()),
        Err(reason) => Err(ApiError::ControlSetupFailed { reason }),
    }
}

} // verus!
