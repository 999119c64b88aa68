//! The status state machine of a task: six states, six guarded operations.

use vstd::prelude::*;

verus! {

/// Where a task stands in the plan/build loop. `Idle` is the initial state,
/// the one that messages and stored records call `None`.
#[derive(Clone, Copy, Debug, PartialEq, Eq, Structural)]
pub enum RalphStatus {
    Idle,
    Planning,
    AwaitingApproval,
    Building,
    Completed,
    Failed,
}

/// The operations that move a task from one status to another.
#[derive(Clone, Copy, Debug, PartialEq, Eq, Structural)]
pub enum RalphOperation {
    StartPlan,
    Approve,
    Replan,
    Restart,
    Cancel,
    Reset,
}

/// Why an execution process was started.
#[derive(Clone, Copy, Debug, PartialEq, Eq, Structural)]
pub enum ExecutionProcessRunReason {
    RalphPlan,
    RalphBuild,
    Other,
}

/// A refused operation: it names the status found; the allowed set is
/// `operation.valid_from()`.
#[derive(Clone, Copy, Debug, PartialEq, Eq, Structural)]
pub struct InvalidState {
    pub operation: RalphOperation,
    pub current: RalphStatus,
}

impl RalphStatus {
    pub open spec fn spec_name(self) -> Seq<char> {
        match self {
            RalphStatus::Idle => "None"@,
            RalphStatus::Planning => "Planning"@,
            RalphStatus::AwaitingApproval => "AwaitingApproval"@,
            RalphStatus::Building => "Building"@,
            RalphStatus::Completed => "Completed"@,
            RalphStatus::Failed => "Failed"@,
        }
    }

    /// The variant's name, as it is written in messages.
    pub fn name(self) -> (r: &'static str)
        ensures
            r@ == self.spec_name(),
    {
        match self {
            RalphStatus::Idle => "None",
            RalphStatus::Planning => "Planning",
            RalphStatus::AwaitingApproval => "AwaitingApproval",
            RalphStatus::Building => "Building",
            RalphStatus::Completed => "Completed",
            RalphStatus::Failed => "Failed",
        }
    }

    /// A plan document exists once planning has succeeded.
    pub open spec fn spec_has_plan(self) -> bool {
        self == RalphStatus::AwaitingApproval || self == RalphStatus::Completed
    }

    pub fn has_plan(self) -> (r: bool)
        ensures
            r == self.spec_has_plan(),
    {
        self == RalphStatus::AwaitingApproval || self == RalphStatus::Completed
    }
}

impl ExecutionProcessRunReason {
    pub open spec fn spec_name(self) -> Seq<char> {
        match self {
            ExecutionProcessRunReason::RalphPlan => "RalphPlan"@,
            ExecutionProcessRunReason::RalphBuild => "RalphBuild"@,
            ExecutionProcessRunReason::Other => "Other"@,
        }
    }

    pub fn name(self) -> (r: &'static str)
        ensures
            r@ == self.spec_name(),
    {
        match self {
            ExecutionProcessRunReason::RalphPlan => "RalphPlan",
            ExecutionProcessRunReason::RalphBuild => "RalphBuild",
            ExecutionProcessRunReason::Other => "Other",
        }
    }
}

impl RalphOperation {
    /// The statuses from which the operation may be attempted, in the order
    /// in which messages list them.
    pub open spec fn spec_valid_from(self) -> Seq<RalphStatus> {
        match self {
            RalphOperation::StartPlan => seq![RalphStatus::Idle, RalphStatus::Failed],
            RalphOperation::Approve => seq![RalphStatus::AwaitingApproval],
            RalphOperation::Replan => seq![RalphStatus::AwaitingApproval],
            RalphOperation::Restart => seq![RalphStatus::Failed],
            RalphOperation::Cancel => seq![
                RalphStatus::Planning,
                RalphStatus::AwaitingApproval,
                RalphStatus::Building,
                RalphStatus::Failed,
            ],
            RalphOperation::Reset => seq![RalphStatus::Completed],
        }
    }

    /// Whether the operation is valid from `status`.
    pub open spec fn accepts(self, status: RalphStatus) -> bool {
        match self {
            RalphOperation::StartPlan => status == RalphStatus::Idle || status
                == RalphStatus::Failed,
            RalphOperation::Approve => status == RalphStatus::AwaitingApproval,
            RalphOperation::Replan => status == RalphStatus::AwaitingApproval,
            RalphOperation::Restart => status == RalphStatus::Failed,
            RalphOperation::Cancel => status == RalphStatus::Planning || status
                == RalphStatus::AwaitingApproval || status == RalphStatus::Building || status
                == RalphStatus::Failed,
            RalphOperation::Reset => status == RalphStatus::Completed,
        }
    }

    /// The status that the operation leaves behind when it is accepted.
    pub open spec fn spec_target(self) -> RalphStatus {
        match self {
            RalphOperation::StartPlan => RalphStatus::Planning,
            RalphOperation::Approve => RalphStatus::Building,
            RalphOperation::Replan => RalphStatus::Planning,
            RalphOperation::Restart => RalphStatus::Planning,
            RalphOperation::Cancel => RalphStatus::Idle,
            RalphOperation::Reset => RalphStatus::Idle,
        }
    }

    /// Whether an accepted operation starts a new execution, and of which kind.
    pub open spec fn spec_run_reason(self) -> Option<ExecutionProcessRunReason> {
        match self {
            RalphOperation::StartPlan => Some(ExecutionProcessRunReason::RalphPlan),
            RalphOperation::Approve => Some(ExecutionProcessRunReason::RalphBuild),
            RalphOperation::Replan => Some(ExecutionProcessRunReason::RalphPlan),
            RalphOperation::Restart => Some(ExecutionProcessRunReason::RalphPlan),
            RalphOperation::Cancel => None,
            RalphOperation::Reset => None,
        }
    }

    pub fn valid_from(self) -> (r: Vec<RalphStatus>)
        ensures
            r@ == self.spec_valid_from(),
    {
        let r = match self {
            RalphOperation::StartPlan => vec![RalphStatus::Idle, RalphStatus::Failed],
            RalphOperation::Approve => vec![RalphStatus::AwaitingApproval],
            RalphOperation::Replan => vec![RalphStatus::AwaitingApproval],
            RalphOperation::Restart => vec![RalphStatus::Failed],
            RalphOperation::Cancel => vec![
                RalphStatus::Planning,
                RalphStatus::AwaitingApproval,
                RalphStatus::Building,
                RalphStatus::Failed,
            ],
            RalphOperation::Reset => vec![RalphStatus::Completed],
        };
        assert(r@ =~= self.spec_valid_from());
        r
    }

    pub fn target(self) -> (r: RalphStatus)
        ensures
            r == self.spec_target(),
    {
        match self {
            RalphOperation::StartPlan => RalphStatus::Planning,
            RalphOperation::Approve => RalphStatus::Building,
            RalphOperation::Replan => RalphStatus::Planning,
            RalphOperation::Restart => RalphStatus::Planning,
            RalphOperation::Cancel => RalphStatus::Idle,
            RalphOperation::Reset => RalphStatus::Idle,
        }
    }

    pub fn run_reason(self) -> (r: Option<ExecutionProcessRunReason>)
        ensures
            r == self.spec_run_reason(),
    {
        match self {
            RalphOperation::StartPlan => Some(ExecutionProcessRunReason::RalphPlan),
            RalphOperation::Approve => Some(ExecutionProcessRunReason::RalphBuild),
            RalphOperation::Replan => Some(ExecutionProcessRunReason::RalphPlan),
            RalphOperation::Restart => Some(ExecutionProcessRunReason::RalphPlan),
            RalphOperation::Cancel => None,
            RalphOperation::Reset => None,
        }
    }

    /// The guard of the state machine: the next status when the operation is
    /// valid from `current`, otherwise the refusal that names `current`.
    pub fn transition(self, current: RalphStatus) -> (r: Result<RalphStatus, InvalidState>)
        ensures
            self.accepts(current) ==> r == Ok::<RalphStatus, InvalidState>(self.spec_target()),
            !self.accepts(current) ==> r == Err::<RalphStatus, InvalidState>(
                (InvalidState { operation: self, current }),
            ),
    {
        let ok = match self {
            RalphOperation::StartPlan => current == RalphStatus::Idle || current
                == RalphStatus::Failed,
            RalphOperation::Approve => current == RalphStatus::AwaitingApproval,
            RalphOperation::Replan => current == RalphStatus::AwaitingApproval,
            RalphOperation::Restart => current == RalphStatus::Failed,
            RalphOperation::Cancel => current == RalphStatus::Planning || current
                == RalphStatus::AwaitingApproval || current == RalphStatus::Building || current
                == RalphStatus::Failed,
            RalphOperation::Reset => current == RalphStatus::Completed,
        };
        if ok {
            Ok(self.target())
        } else {
            Err(InvalidState { operation: self, current })
        }
    }
}

/// An operation is valid from a status exactly when its allowed set lists it.
pub proof fn law_accepts_iff_listed(operation: RalphOperation, status: RalphStatus)
    ensures
        operation.accepts(status) <==> operation.spec_valid_from().contains(status),
{
    let allowed = operation.spec_valid_from();
    if operation.accepts(status) {
        match operation {
            RalphOperation::StartPlan => {
                if status == RalphStatus::Idle {
                    assert(allowed[0] == status);
                } else {
                    assert(allowed[1] == status);
                }
            },
            RalphOperation::Cancel => {
                if status == RalphStatus::Planning {
                    assert(allowed[0] == status);
                } else if status == RalphStatus::AwaitingApproval {
                    assert(allowed[1] == status);
                } else if status == RalphStatus::Building {
                    assert(allowed[2] == status);
                } else {
                    assert(allowed[3] == status);
                }
            },
            _ => {
                assert(allowed[0] == status);
            },
        }
    }
}

/// The operations that start an execution are those that lead to `Planning`
/// or `Building`; the others reset the task to `Idle`. Only a build run leads
/// to `Building`.
pub proof fn law_targets(operation: RalphOperation)
    ensures
        operation.spec_run_reason() is Some <==> (operation.spec_target() == RalphStatus::Planning
            || operation.spec_target() == RalphStatus::Building),
        operation.spec_run_reason() is None <==> operation.spec_target() == RalphStatus::Idle,
        operation.spec_target() == RalphStatus::Building <==> operation.spec_run_reason() == Some(
            ExecutionProcessRunReason::RalphBuild,
        ),
{
}

} // verus!
