use ralph_orchestrator::details::{
    get_execution_details, last_logs, latest_process, tail, ExecutionProcess,
    ExecutionProcessStatus, RalphExecutionDetailsResponse, LOG_TAIL_LINES,
};
use ralph_orchestrator::model::Task;
use ralph_orchestrator::status::{ExecutionProcessRunReason, RalphStatus};

fn process(id: u128, reason: ExecutionProcessRunReason, created_at: i64) -> ExecutionProcess {
    ExecutionProcess {
        id,
        session_id: 1,
        run_reason: reason,
        status: ExecutionProcessStatus::Failed,
        exit_code: Some(2),
        created_at,
        completed_at: Some("2025-01-02T03:04:05+00:00".to_string()),
    }
}

fn task(status: RalphStatus) -> Task {
    Task { id: 7, title: "t".to_string(), description: None, ralph_status: status, ralph_enabled: true }
}

fn numbered(n: usize) -> Vec<String> {
    (1..=n).map(|i| format!("line {}", i)).collect()
}

#[test]
fn latest_of_plan_and_build() {
    let plan = process(1, ExecutionProcessRunReason::RalphPlan, 100);
    let build = process(2, ExecutionProcessRunReason::RalphBuild, 200);
    let early_build = process(3, ExecutionProcessRunReason::RalphBuild, 50);
    let same_build = process(4, ExecutionProcessRunReason::RalphBuild, 100);
    assert_eq!(latest_process(Some(&plan), Some(&build)), Some(&build));
    assert_eq!(latest_process(Some(&plan), Some(&early_build)), Some(&plan));
    assert_eq!(latest_process(Some(&plan), Some(&same_build)), Some(&plan));
    assert_eq!(latest_process(Some(&plan), None), Some(&plan));
    assert_eq!(latest_process(None, Some(&build)), Some(&build));
    assert_eq!(latest_process(None, None), None);
}

#[test]
fn log_tail_limit() {
    assert_eq!(LOG_TAIL_LINES, 50);
}

#[test]
fn no_records_no_logs() {
    assert_eq!(last_logs(&vec![], 50), None);
}

#[test]
fn short_logs_are_kept_whole() {
    let records = vec!["a\nb\n".to_string(), "c".to_string()];
    assert_eq!(last_logs(&records, 50), Some("a\nb\nc".to_string()));
    assert_eq!(last_logs(&vec!["".to_string()], 50), Some("".to_string()));
    let fifty = vec![numbered(50).join("\n")];
    assert_eq!(last_logs(&fifty, 50), Some(numbered(50).join("\n")));
}

#[test]
fn long_logs_keep_the_last_fifty_lines() {
    let records = vec![numbered(30).join("\n") + "\n", numbered(51)[30..].join("\n")];
    let expected = numbered(51)[1..].join("\n");
    assert_eq!(last_logs(&records, 50), Some(expected));
    let many = vec![numbered(120).join("\r\n")];
    assert_eq!(last_logs(&many, 50), Some(numbered(120)[70..].join("\n")));
}

#[test]
fn log_tail_as_computed_line_by_line() {
    let records = vec![
        "one\r\ntwo\n\nfour\r".to_string(),
        "five\n\n".to_string(),
        "".to_string(),
        "\nseven".to_string(),
    ];
    for limit in 0..9usize {
        let all_logs: String =
            records.iter().flat_map(|r| r.lines()).collect::<Vec<_>>().join("\n");
        let lines: Vec<&str> = all_logs.lines().collect();
        let expected =
            if lines.len() > limit { lines[lines.len() - limit..].join("\n") } else { all_logs };
        assert_eq!(last_logs(&records, limit), Some(expected), "limit {}", limit);
    }
}

#[test]
fn tail_of_a_text() {
    assert_eq!(tail("a\nb\nc".to_string(), 2), "b\nc");
    assert_eq!(tail("a\nb\nc\n".to_string(), 3), "a\nb\nc\n");
    assert_eq!(tail("a\nb\nc\n".to_string(), 1), "c");
    assert_eq!(tail("a\nb".to_string(), 0), "");
}

#[test]
fn details_without_a_run() {
    assert_eq!(
        get_execution_details(&task(RalphStatus::Idle), None, None, &vec!["noise".to_string()]),
        RalphExecutionDetailsResponse {
            ralph_status: RalphStatus::Idle,
            exit_code: None,
            process_status: None,
            run_reason: None,
            completed_at: None,
            last_logs: None,
        }
    );
}

#[test]
fn details_of_the_latest_run() {
    let plan = process(1, ExecutionProcessRunReason::RalphPlan, 100);
    let mut build = process(2, ExecutionProcessRunReason::RalphBuild, 200);
    build.status = ExecutionProcessStatus::Running;
    build.exit_code = None;
    build.completed_at = None;
    assert_eq!(
        get_execution_details(
            &task(RalphStatus::Building),
            Some(&plan),
            Some(&build),
            &vec!["compiling\n".to_string(), "done".to_string()]
        ),
        RalphExecutionDetailsResponse {
            ralph_status: RalphStatus::Building,
            exit_code: None,
            process_status: Some("Running".to_string()),
            run_reason: Some("RalphBuild".to_string()),
            completed_at: None,
            last_logs: Some("compiling\ndone".to_string()),
        }
    );
    assert_eq!(
        get_execution_details(&task(RalphStatus::Failed), Some(&plan), None, &vec![]),
        RalphExecutionDetailsResponse {
            ralph_status: RalphStatus::Failed,
            exit_code: Some(2),
            process_status: Some("Failed".to_string()),
            run_reason: Some("RalphPlan".to_string()),
            completed_at: Some("2025-01-02T03:04:05+00:00".to_string()),
            last_logs: None,
        }
    );
}

#[test]
fn process_status_names() {
    assert_eq!(ExecutionProcessStatus::Running.name(), "Running");
    assert_eq!(ExecutionProcessStatus::Completed.name(), "Completed");
    assert_eq!(ExecutionProcessStatus::Failed.name(), "Failed");
    assert_eq!(ExecutionProcessStatus::Killed.name(), "Killed");
}

#[test]
fn tail_never_has_more_lines_than_the_limit() {
    let texts = ["", "a", "a\nb\nc", "a\r\nb\r\n\r\n", "\n\n\n\n", "a\n\nb\n\n", "x\r\ry\n\rz"];
    for text in texts {
        for limit in 0..6usize {
            let kept = tail(text.to_string(), limit);
            assert!(kept.lines().count() <= limit, "{:?} {}", text, limit);
            if text.lines().count() <= limit {
                assert_eq!(kept, text);
            }
            let records = vec![text.to_string(), text.to_string()];
            let logs = last_logs(&records, limit).unwrap();
            assert!(logs.lines().count() <= limit, "{:?} {}", text, limit);
        }
    }
}
