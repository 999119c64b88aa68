//! What is reported of a task's last run: which process counts as the last
//! one, and the tail of its log.

use vstd::prelude::*;
use crate::model::Task;
use crate::status::{ExecutionProcessRunReason, RalphStatus};
use crate::text::{
    clone_opt_text,
    join_lines,
    joined,
    law_joined_lines_bounded,
    lemma_lines_hold_no_feed,
    lines,
    lines_of,
    no_line_feed,
    opt_text,
    texts,
};

verus! {

/// How many lines of log a report carries at most.
pub const LOG_TAIL_LINES: usize = 50;

/// The recorded state of an execution process.
#[derive(Clone, Copy, Debug, PartialEq, Eq, Structural)]
pub enum ExecutionProcessStatus {
    Running,
    Completed,
    Failed,
    Killed,
}

impl ExecutionProcessStatus {
    pub open spec fn spec_name(self) -> Seq<char> {
        match self {
            ExecutionProcessStatus::Running => "Running"@,
            ExecutionProcessStatus::Completed => "Completed"@,
            ExecutionProcessStatus::Failed => "Failed"@,
            ExecutionProcessStatus::Killed => "Killed"@,
        }
    }

    pub fn name(self) -> (r: &'static str)
        ensures
            r@ == self.spec_name(),
    {
        match self {
            ExecutionProcessStatus::Running => "Running",
            ExecutionProcessStatus::Completed => "Completed",
            ExecutionProcessStatus::Failed => "Failed",
            ExecutionProcessStatus::Killed => "Killed",
        }
    }
}

/// One spawned process and its recorded outcome. `created_at` counts
/// microseconds since the epoch; `completed_at` is the completion time as
/// text, absent while the process runs.
#[derive(Clone, Debug, PartialEq, Eq)]
pub struct ExecutionProcess {
    pub id: u128,
    pub session_id: u128,
    pub run_reason: ExecutionProcessRunReason,
    pub status: ExecutionProcessStatus,
    pub exit_code: Option<i64>,
    pub created_at: i64,
    pub completed_at: Option<String>,
}

/// The details of a task's last run.
#[derive(Clone, Debug, PartialEq, Eq)]
pub struct RalphExecutionDetailsResponse {
    pub ralph_status: RalphStatus,
    pub exit_code: Option<i64>,
    pub process_status: Option<String>,
    pub run_reason: Option<String>,
    pub completed_at: Option<String>,
    pub last_logs: Option<String>,
}

/// Of the latest plan run and the latest build run, the one created last;
/// the plan run where both were created at the same instant.
pub open spec fn spec_latest_process<'a>(
    plan: Option<&'a ExecutionProcess>,
    build: Option<&'a ExecutionProcess>,
) -> Option<&'a ExecutionProcess> {
    match (plan, build) {
        (Some(p), Some(b)) => if b.created_at > p.created_at {
            Some(b)
        } else {
            Some(p)
        },
        (Some(p), None) => Some(p),
        (None, Some(b)) => Some(b),
        (None, None) => None,
    }
}

/// The lines of all records, in the order of the records.
pub open spec fn all_lines(records: Seq<Seq<char>>) -> Seq<Seq<char>>
    decreases records.len(),
{
    if records.len() == 0 {
        Seq::empty()
    } else {
        all_lines(records.drop_last()) + lines_of(records.last())
    }
}

/// The last `limit` lines of `text`, or `text` itself where it has no more
/// lines than that.
pub open spec fn tail_of(text: Seq<char>, limit: nat) -> Seq<char> {
    let ls = lines_of(text);
    if ls.len() > limit {
        joined(ls.subrange(ls.len() - limit, ls.len() as int))
    } else {
        text
    }
}

/// The log tail of a run: nothing where there is no record, else the last
/// `limit` lines of the records' lines joined into one text.
pub open spec fn spec_last_logs(records: Seq<Seq<char>>, limit: nat) -> Option<Seq<char>> {
    if records.len() == 0 {
        None
    } else {
        Some(tail_of(joined(all_lines(records)), limit))
    }
}

/// A tail has at most `limit` lines, and they are the last lines of the
/// text: where the text has more lines than that, the tail is its last
/// `limit` lines joined; otherwise it is the text.
pub proof fn law_tail_is_short(text: Seq<char>, limit: nat)
    ensures
        lines_of(tail_of(text, limit)).len() <= limit,
        lines_of(text).len() <= limit ==> tail_of(text, limit) == text,
        lines_of(text).len() > limit ==> tail_of(text, limit) == joined(
            lines_of(text).skip(lines_of(text).len() - limit),
        ),
{
    let ls = lines_of(text);
    if ls.len() > limit {
        let kept = ls.subrange(ls.len() - limit, ls.len() as int);
        assert(kept =~= ls.skip(ls.len() - limit));
        lemma_lines_hold_no_feed(text, 0, 0);
        assert forall|k: int| 0 <= k < kept.len() implies no_line_feed(#[trigger] kept[k]) by {
            assert(kept[k] == ls[ls.len() - limit + k]);
        }
        law_joined_lines_bounded(kept);
    }
}

/// The log tail of a run has at most `limit` lines.
pub proof fn law_last_logs_are_short(records: Seq<Seq<char>>, limit: nat)
    ensures
        spec_last_logs(records, limit) is Some ==> lines_of(
            spec_last_logs(records, limit)->0,
        ).len() <= limit,
        spec_last_logs(records, limit) is Some <==> records.len() > 0,
{
    if records.len() > 0 {
        law_tail_is_short(joined(all_lines(records)), limit);
    }
}

pub fn latest_process<'a>(
    plan: Option<&'a ExecutionProcess>,
    build: Option<&'a ExecutionProcess>,
) -> (r: Option<&'a ExecutionProcess>)
    ensures
        r == spec_latest_process(plan, build),
{
    match (plan, build) {
        (Some(p), Some(b)) => {
            if b.created_at > p.created_at {
                Some(b)
            } else {
                Some(p)
            }
        },
        (Some(p), None) => Some(p),
        (None, Some(b)) => Some(b),
        (None, None) => None,
    }
}

/// The last `limit` lines of a text.
pub fn tail(text: String, limit: usize) -> (r: String)
    ensures
        r@ == tail_of(text@, limit as nat),
{
    let mut ls = lines(text.as_str());
    let n: usize = ls.len();
    assert(texts(ls@).len() == n);
    if n > limit {
        let kept = ls.split_off(n - limit);
        assert(texts(kept@) =~= lines_of(text@).subrange(n - limit, n as int));
        join_lines(&kept)
    } else {
        text
    }
}

/// The log tail of a run, from its log records in the order in which they
/// were written.
pub fn last_logs(records: &Vec<String>, limit: usize) -> (r: Option<String>)
    ensures
        opt_text(r) == spec_last_logs(texts(records@), limit as nat),
{
    if records.len() == 0 {
        return None;
    }
    let mut every: Vec<String> = Vec::new();
    let mut i: usize = 0;
    assert(texts(every@) =~= all_lines(texts(records@).take(0)));
    while i < records.len()
        invariant
            i <= records.len(),
            texts(every@) == all_lines(texts(records@).take(i as int)),
        decreases records.len() - i,
    {
        let mut found = lines(records[i].as_str());
        proof {
            let next = texts(records@).take(i + 1);
            assert(next.drop_last() =~= texts(records@).take(i as int));
            assert(next.last() == records@[i as int]@);
            assert(texts(every@ + found@) =~= texts(every@) + texts(found@));
        }
        every.append(&mut found);
        i += 1;
    }
    assert(texts(records@).take(records.len() as int) =~= texts(records@));
    Some(tail(join_lines(&every), limit))
}

/// The details of a task's last run, from the latest plan run and the
/// latest build run of its workspace (both absent where the task has no
/// workspace) and the log records of the later of the two. Without a run
/// only the status is reported.
pub fn get_execution_details(
    task: &Task,
    latest_plan: Option<&ExecutionProcess>,
    latest_build: Option<&ExecutionProcess>,
    log_records: &Vec<String>,
) -> (r: RalphExecutionDetailsResponse)
    ensures
        r.ralph_status == task.ralph_status,
        match spec_latest_process(latest_plan, latest_build) {
            None => {
                &&& r.exit_code is None
                &&& r.process_status is None
                &&& r.run_reason is None
                &&& r.completed_at is None
                &&& r.last_logs is None
            },
            Some(process) => {
                &&& r.exit_code == process.exit_code
                &&& opt_text(r.process_status) == Some(process.status.spec_name())
                &&& opt_text(r.run_reason) == Some(process.run_reason.spec_name())
                &&& opt_text(r.completed_at) == opt_text(process.completed_at)
                &&& opt_text(r.last_logs) == spec_last_logs(
                    texts(log_records@),
                    LOG_TAIL_LINES as nat,
                )
            },
        },
{
    match latest_process(latest_plan, latest_build) {
        None => RalphExecutionDetailsResponse {
            ralph_status: task.ralph_status,
            exit_code: None,
            process_status: None,
            run_reason: None,
            completed_at: None,
            last_logs: None,
        },
        Some(process) => RalphExecutionDetailsResponse {
            ralph_status: task.ralph_status,
            exit_code: process.exit_code,
            process_status: Some(process.status.name().to_owned()),
            run_reason: Some(process.run_reason.name().to_owned()),
            completed_at: clone_opt_text(&process.completed_at),
            last_logs: last_logs(log_records, LOG_TAIL_LINES),
        },
    }
}

} // verus!
