//! The operations offered to the API layer. Each one decides from plain
//! values; reading records, provisioning and spawning are left to the caller,
//! which carries out the steps that a launch lists, in their order.

use vstd::prelude::*;
use crate::error::ApiError;
use crate::model::{
    BaseCodingAgent,
    CodingAgentInitialRequest,
    CreateSession,
    ExecutorAction,
    ExecutorActionType,
    ExecutorProfileId,
    Task,
    Workspace,
};
use crate::status::{
    law_accepts_iff_listed,
    ExecutionProcessRunReason,
    InvalidState,
    RalphOperation,
    RalphStatus,
};
use crate::text::{blank, is_blank, join_path, opt_text, spec_join_path};

verus! {

/// The status of a task, with the task's identifier.
#[derive(Clone, Copy, Debug, PartialEq, Eq)]
pub struct RalphStatusResponse {
    pub ralph_status: RalphStatus,
    pub task_id: u128,
}

/// What a started run is known by.
#[derive(Clone, Copy, Debug, PartialEq, Eq)]
pub struct RalphStartResponse {
    pub workspace_id: u128,
    pub process_id: u128,
}

/// The plan document's content.
#[derive(Clone, Debug, PartialEq, Eq)]
pub struct RalphPlanResponse {
    pub content: String,
}

/// One thing that the caller does for a launch.
#[derive(Clone, Copy, Debug, PartialEq, Eq, Structural)]
pub enum Step {
    /// Take the task's first workspace, or create one with its worktree.
    EnsureWorkspace,
    /// Take the task's first workspace; fail where it has none.
    RequireWorkspace,
    /// Copy the control directory into the worktree.
    ProvisionControlDirectory,
    /// Write the task's new status, on condition that the old one still
    /// admits the operation.
    UpdateStatus(RalphStatus),
    /// Record a new session in the workspace.
    CreateSession,
    /// Hand the action to the container service under this run reason.
    StartExecution(ExecutionProcessRunReason),
}

/// An accepted request to start a run.
#[derive(Debug, PartialEq, Eq)]
pub struct Launch {
    pub operation: RalphOperation,
    pub status: RalphStatus,
    pub run_reason: ExecutionProcessRunReason,
    pub session: CreateSession,
    pub action: ExecutorAction,
}

/// A task can be planned when its specification is there and not blank.
pub open spec fn has_spec(task: Task) -> bool {
    match task.description {
        Some(d) => !blank(d@),
        None => false,
    }
}

/// The task's specification as a prompt: empty where there is none.
pub open spec fn prompt_of(task: Task) -> Seq<char> {
    match task.description {
        Some(d) => d@,
        None => Seq::empty(),
    }
}

/// The operations that plan ask for a specification; `approve` builds on
/// the one that the plan was made from.
pub open spec fn needs_spec(operation: RalphOperation) -> bool {
    operation.spec_run_reason() == Some(ExecutionProcessRunReason::RalphPlan)
}

/// The configuration variant that a run reason selects.
pub open spec fn variant_of(reason: ExecutionProcessRunReason) -> Seq<char> {
    if reason == ExecutionProcessRunReason::RalphBuild {
        "BUILD"@
    } else {
        "PLAN"@
    }
}

/// What a launch of `operation` with `prompt` holds.
pub open spec fn launch_of(l: Launch, operation: RalphOperation, prompt: Seq<char>) -> bool {
    &&& l.operation == operation
    &&& l.status == operation.spec_target()
    &&& Some(l.run_reason) == operation.spec_run_reason()
    &&& opt_text(l.session.executor) == Some("RALPH"@)
    &&& l.action.next_action is None
    &&& match l.action.typ {
        ExecutorActionType::CodingAgentInitialRequest(req) => {
            &&& req.prompt@ == prompt
            &&& req.executor_profile_id.executor == BaseCodingAgent::Ralph
            &&& opt_text(req.executor_profile_id.variant) == Some(variant_of(l.run_reason))
            &&& req.working_dir is None
        },
    }
}

/// What `operation` decides for `task`: the refusal where the status does
/// not admit it, the missing specification where it plans without one.
pub open spec fn decides(
    task: Task,
    operation: RalphOperation,
    r: Result<Launch, ApiError>,
) -> bool {
    if !operation.accepts(task.ralph_status) {
        r == Err::<Launch, ApiError>(
            ApiError::InvalidState(InvalidState { operation, current: task.ralph_status }),
        )
    } else if needs_spec(operation) && !has_spec(task) {
        r == Err::<Launch, ApiError>(ApiError::MissingSpec)
    } else {
        r is Ok && launch_of(r->Ok_0, operation, prompt_of(task))
    }
}

/// The steps of a launch, in the order in which they are carried out.
pub open spec fn spec_steps(operation: RalphOperation) -> Seq<Step> {
    match operation {
        RalphOperation::StartPlan => seq![
            Step::EnsureWorkspace,
            Step::ProvisionControlDirectory,
            Step::UpdateStatus(RalphStatus::Planning),
            Step::CreateSession,
            Step::StartExecution(ExecutionProcessRunReason::RalphPlan),
        ],
        RalphOperation::Approve => seq![
            Step::RequireWorkspace,
            Step::UpdateStatus(RalphStatus::Building),
            Step::CreateSession,
            Step::StartExecution(ExecutionProcessRunReason::RalphBuild),
        ],
        RalphOperation::Replan => seq![
            Step::RequireWorkspace,
            Step::UpdateStatus(RalphStatus::Planning),
            Step::CreateSession,
            Step::StartExecution(ExecutionProcessRunReason::RalphPlan),
        ],
        RalphOperation::Restart => seq![
            Step::RequireWorkspace,
            Step::ProvisionControlDirectory,
            Step::UpdateStatus(RalphStatus::Planning),
            Step::CreateSession,
            Step::StartExecution(ExecutionProcessRunReason::RalphPlan),
        ],
        RalphOperation::Cancel => seq![Step::UpdateStatus(RalphStatus::Idle)],
        RalphOperation::Reset => seq![Step::UpdateStatus(RalphStatus::Idle)],
    }
}

/// What the check-and-set of the status gives and leaves behind: the
/// operation's target status where the current status admits the
/// operation; otherwise the refusal, and the task as it was.
pub open spec fn spec_apply(task: Task, operation: RalphOperation) -> (
    Result<RalphStatus, ApiError>,
    Task,
) {
    if operation.accepts(task.ralph_status) {
        (Ok(operation.spec_target()), Task { ralph_status: operation.spec_target(), ..task })
    } else {
        (
            Err(ApiError::InvalidState(InvalidState { operation, current: task.ralph_status })),
            task,
        )
    }
}

fn launch(task: &Task, operation: RalphOperation) -> (r: Result<Launch, ApiError>)
    requires
        operation.spec_run_reason() is Some,
    ensures
        decides(*task, operation, r),
{
    let status = match operation.transition(task.ralph_status) {
        Ok(status) => status,
        Err(e) => {
            return Err(ApiError::InvalidState(e));
        },
    };
    let run_reason = match operation.run_reason() {
        Some(reason) => reason,
        None => ExecutionProcessRunReason::Other,
    };
    let planning = run_reason == ExecutionProcessRunReason::RalphPlan;
    let prompt = match &task.description {
        Some(d) => {
            if planning && is_blank(d.as_str()) {
                return Err(ApiError::MissingSpec);
            }
            d.clone()
        },
        None => {
            if planning {
                return Err(ApiError::MissingSpec);
            }
            String::new()
        },
    };
    let variant = if planning {
        "PLAN"
    } else {
        "BUILD"
    };
    let action = ExecutorAction::new(
        ExecutorActionType::CodingAgentInitialRequest(
            CodingAgentInitialRequest {
                prompt,
                executor_profile_id: ExecutorProfileId {
                    executor: BaseCodingAgent::Ralph,
                    variant: Some(variant.to_owned()),
                },
                working_dir: None,
            },
        ),
        None,
    );
    Ok(
        Launch {
            operation,
            status,
            run_reason,
            session: CreateSession { executor: Some("RALPH".to_owned()) },
            action,
        },
    )
}

impl Launch {
    /// What the caller does for this launch, in this order: the status is
    /// written before the execution is started.
    pub fn steps(&self) -> (r: Vec<Step>)
        ensures
            r@ == spec_steps(self.operation),
    {
        let r = match self.operation {
            RalphOperation::StartPlan => vec![
                Step::EnsureWorkspace,
                Step::ProvisionControlDirectory,
                Step::UpdateStatus(RalphStatus::Planning),
                Step::CreateSession,
                Step::StartExecution(ExecutionProcessRunReason::RalphPlan),
            ],
            RalphOperation::Approve => vec![
                Step::RequireWorkspace,
                Step::UpdateStatus(RalphStatus::Building),
                Step::CreateSession,
                Step::StartExecution(ExecutionProcessRunReason::RalphBuild),
            ],
            RalphOperation::Replan => vec![
                Step::RequireWorkspace,
                Step::UpdateStatus(RalphStatus::Planning),
                Step::CreateSession,
                Step::StartExecution(ExecutionProcessRunReason::RalphPlan),
            ],
            RalphOperation::Restart => vec![
                Step::RequireWorkspace,
                Step::ProvisionControlDirectory,
                Step::UpdateStatus(RalphStatus::Planning),
                Step::CreateSession,
                Step::StartExecution(ExecutionProcessRunReason::RalphPlan),
            ],
            RalphOperation::Cancel => vec![Step::UpdateStatus(RalphStatus::Idle)],
            RalphOperation::Reset => vec![Step::UpdateStatus(RalphStatus::Idle)],
        };
        assert(r@ =~= spec_steps(self.operation));
        r
    }
}

impl Task {
    /// The check-and-set of the status: where the current status admits
    /// `operation` the task takes the operation's target status, otherwise
    /// nothing changes and the refusal names the status found.
    pub fn apply(&mut self, operation: RalphOperation) -> (r: Result<RalphStatus, ApiError>)
        ensures
            r == spec_apply(*old(self), operation).0,
            *final(self) == spec_apply(*old(self), operation).1,
    {
        match operation.transition(self.ralph_status) {
            Ok(status) => {
                self.ralph_status = status;
                Ok(status)
            },
            Err(e) => Err(ApiError::InvalidState(e)),
        }
    }
}

/// The status of a task.
pub fn get_status(task: &Task) -> (r: RalphStatusResponse)
    ensures
        r.ralph_status == task.ralph_status,
        r.task_id == task.id,
{
    RalphStatusResponse { ralph_status: task.ralph_status, task_id: task.id }
}

/// Starts planning: valid from `Idle` and `Failed`, for a task with a
/// specification that is not blank.
pub fn start_plan(task: &Task) -> (r: Result<Launch, ApiError>)
    ensures
        decides(*task, RalphOperation::StartPlan, r),
{
    launch(task, RalphOperation::StartPlan)
}

/// Approves the plan and starts the build: valid from `AwaitingApproval`.
pub fn approve(task: &Task) -> (r: Result<Launch, ApiError>)
    ensures
        decides(*task, RalphOperation::Approve, r),
{
    launch(task, RalphOperation::Approve)
}

/// Plans again: valid from `AwaitingApproval`.
pub fn replan(task: &Task) -> (r: Result<Launch, ApiError>)
    ensures
        decides(*task, RalphOperation::Replan, r),
{
    launch(task, RalphOperation::Replan)
}

/// Plans again after a failure: valid from `Failed`. The control directory
/// is provisioned anew.
pub fn restart(task: &Task) -> (r: Result<Launch, ApiError>)
    ensures
        decides(*task, RalphOperation::Restart, r),
{
    launch(task, RalphOperation::Restart)
}

/// Resets the status of a task that is planning, awaiting approval, building
/// or failed. Nothing else is done: a live process is not touched.
pub fn cancel(task: &mut Task) -> (r: Result<(), ApiError>)
    ensures
        RalphOperation::Cancel.accepts(old(task).ralph_status) ==> r is Ok && *final(task) == (Task {
            ralph_status: RalphStatus::Idle,
            ..*old(task)
        }),
        !RalphOperation::Cancel.accepts(old(task).ralph_status) ==> r == Err::<(), ApiError>(
            ApiError::InvalidState(
                InvalidState { operation: RalphOperation::Cancel, current: old(task).ralph_status },
            ),
        ) && *final(task) == *old(task),
{
    match task.apply(RalphOperation::Cancel) {
        Ok(_) => Ok(()),
        Err(e) => Err(e),
    }
}

/// Resets the status of a completed task, so that it can be run afresh.
pub fn reset(task: &mut Task) -> (r: Result<(), ApiError>)
    ensures
        RalphOperation::Reset.accepts(old(task).ralph_status) ==> r is Ok && *final(task) == (Task {
            ralph_status: RalphStatus::Idle,
            ..*old(task)
        }),
        !RalphOperation::Reset.accepts(old(task).ralph_status) ==> r == Err::<(), ApiError>(
            ApiError::InvalidState(
                InvalidState { operation: RalphOperation::Reset, current: old(task).ralph_status },
            ),
        ) && *final(task) == *old(task),
{
    match task.apply(RalphOperation::Reset) {
        Ok(_) => Ok(()),
        Err(e) => Err(e),
    }
}

/// Where the plan document of a task lies, and when it may be read.
pub open spec fn spec_plan_path(task: Task, workspaces: Seq<Workspace>) -> Result<
    Seq<char>,
    ApiError,
> {
    if !task.ralph_status.spec_has_plan() {
        Err(ApiError::PlanUnavailable { current: task.ralph_status })
    } else if workspaces.len() == 0 {
        Err(ApiError::NoWorkspace)
    } else {
        match workspaces[0].container_ref {
            Some(root) => Ok(spec_join_path(root@, "IMPLEMENTATION_PLAN.md"@)),
            None => Err(ApiError::NoContainerRef),
        }
    }
}

/// The path of the plan document: in the worktree of the task's first
/// workspace, once the task awaits approval or is completed.
pub fn plan_path(task: &Task, workspaces: &Vec<Workspace>) -> (r: Result<String, ApiError>)
    ensures
        match spec_plan_path(*task, workspaces@) {
            Ok(path) => r is Ok && r->Ok_0@ == path,
            Err(e) => r == Err::<String, ApiError>(e),
        },
{
    if !task.ralph_status.has_plan() {
        return Err(ApiError::PlanUnavailable { current: task.ralph_status });
    }
    if workspaces.len() == 0 {
        return Err(ApiError::NoWorkspace);
    }
    match &workspaces[0].container_ref {
        Some(root) => Ok(join_path(root.as_str(), "IMPLEMENTATION_PLAN.md")),
        None => Err(ApiError::NoContainerRef),
    }
}

/// The plan of a task, from what reading the document at `plan_path` gave:
/// its content, or the reason why it could not be read.
pub fn get_plan(task: &Task, workspaces: &Vec<Workspace>, document: Result<String, String>) -> (r:
    Result<RalphPlanResponse, ApiError>)
    ensures
        match spec_plan_path(*task, workspaces@) {
            Err(e) => r == Err::<RalphPlanResponse, ApiError>(e),
            Ok(_) => match document {
                Ok(content) => r == Ok::<RalphPlanResponse, ApiError>(
                    RalphPlanResponse { content },
                ),
                Err(reason) => r == Err::<RalphPlanResponse, ApiError>(
                    ApiError::PlanNotFound { reason },
                ),
            },
        },
{
    match plan_path(task, workspaces) {
        Err(e) => Err(e),
        Ok(_) => match document {
            Ok(content) => Ok(RalphPlanResponse { content }),
            Err(reason) => Err(ApiError::PlanNotFound { reason }),
        },
    }
}

/// For every task and every operation: the transition is accepted exactly
/// when the task's status is in the operation's allowed set; an accepted
/// one changes the status to the operation's target and nothing else, a
/// rejected one changes nothing and names the status found.
pub proof fn law_transition_guard(task: Task, operation: RalphOperation)
    ensures
        spec_apply(task, operation).0 is Ok <==> operation.spec_valid_from().contains(
            task.ralph_status,
        ),
        spec_apply(task, operation).0 is Ok ==> spec_apply(task, operation).1 == (Task {
            ralph_status: operation.spec_target(),
            ..task
        }),
        spec_apply(task, operation).0 is Err ==> spec_apply(task, operation).1 == task
            && spec_apply(task, operation).0 == Err::<RalphStatus, ApiError>(
            ApiError::InvalidState(InvalidState { operation, current: task.ralph_status }),
        ),
{
    law_accepts_iff_listed(operation, task.ralph_status);
}

/// A launch is granted only from a status in the operation's allowed set,
/// and with exactly the status that the check-and-set will write; from any
/// other status the refusal is the one that the check-and-set would give.
pub proof fn law_launch_guard(task: Task, operation: RalphOperation, r: Result<Launch, ApiError>)
    requires
        decides(task, operation, r),
    ensures
        r is Ok ==> operation.spec_valid_from().contains(task.ralph_status)
            && spec_apply(task, operation).0 == Ok::<RalphStatus, ApiError>(r->Ok_0.status),
        !operation.spec_valid_from().contains(task.ralph_status) ==> r is Err
            && spec_apply(task, operation).0 == Err::<RalphStatus, ApiError>(r->Err_0),
{
    law_accepts_iff_listed(operation, task.ralph_status);
}

/// Planning is never started on a task without a specification, or with
/// one that holds white space only: the request is refused, so that there
/// is no launch and no step to carry out. From a status that admits
/// planning the refusal is the missing specification.
pub proof fn law_blank_spec_refused(task: Task, r: Result<Launch, ApiError>)
    requires
        decides(task, RalphOperation::StartPlan, r),
        !has_spec(task),
    ensures
        r is Err,
        RalphOperation::StartPlan.accepts(task.ralph_status) ==> r == Err::<Launch, ApiError>(
            ApiError::MissingSpec,
        ),
{
}

/// In every launch the new status is written before the execution is
/// started: starting the execution is the last step, and the step that
/// writes the operation's target status comes before it.
pub proof fn law_status_before_execution(operation: RalphOperation)
    requires
        operation.spec_run_reason() is Some,
    ensures
        spec_steps(operation).last() == Step::StartExecution(operation.spec_run_reason()->0),
        exists|i: int|
            0 <= i < spec_steps(operation).len() - 1 && #[trigger] spec_steps(operation)[i]
                == Step::UpdateStatus(operation.spec_target()),
        forall|j: int|
            0 <= j < spec_steps(operation).len() - 1 ==> !(#[trigger] spec_steps(operation)[j]
                is StartExecution),
{
    let steps = spec_steps(operation);
    match operation {
        RalphOperation::StartPlan => {
            assert(steps[2] == Step::UpdateStatus(operation.spec_target()));
        },
        RalphOperation::Restart => {
            assert(steps[2] == Step::UpdateStatus(operation.spec_target()));
        },
        _ => {
            assert(steps[1] == Step::UpdateStatus(operation.spec_target()));
        },
    }
}

/// Every launch records exactly one new session, and starts its execution
/// on that session: the step that records the session stands directly
/// before the one that starts the execution, and no other step records a
/// session.
pub proof fn law_one_session_per_launch(operation: RalphOperation)
    requires
        operation.spec_run_reason() is Some,
    ensures
        spec_steps(operation)[spec_steps(operation).len() - 2] == Step::CreateSession,
        spec_steps(operation)[spec_steps(operation).len() - 1] == Step::StartExecution(
            operation.spec_run_reason()->0,
        ),
        forall|i: int|
            0 <= i < spec_steps(operation).len() && #[trigger] spec_steps(operation)[i]
                == Step::CreateSession ==> i == spec_steps(operation).len() - 2,
{
}

} // verus!
