use ralph_orchestrator::error::ApiError;
use ralph_orchestrator::model::{
    CreateSession, CreateWorkspace, CreateWorkspaceRepo, Repo, Workspace,
};
use ralph_orchestrator::workspace::{
    agent_working_dir, control_source_path, create_workspace_request, first_repo_id,
    get_or_create_workspace_for_ralph, new_workspace, plan_workspace, provisioning_outcome,
    require_workspace,
    setup_ralph_for_workspace, workspace_after_creation, workspace_repo_requests,
    ControlDirectorySetup, NewWorkspace, Session, WorkspaceDecision,
};

fn repo(id: u128, name: &str, subdir: Option<&str>, branch: Option<&str>) -> Repo {
    Repo {
        id,
        path: format!("/repos/{}", name),
        name: name.to_string(),
        default_working_dir: subdir.map(|s| s.to_string()),
        default_target_branch: branch.map(|s| s.to_string()),
    }
}

fn workspace(id: u128, container_ref: Option<&str>) -> Workspace {
    Workspace {
        id,
        task_id: 7,
        branch: "vk/branch".to_string(),
        agent_working_dir: None,
        container_ref: container_ref.map(|c| c.to_string()),
    }
}

fn is_v4(id: u128) -> bool {
    (id >> 76) & 0xF == 4 && (id >> 62) & 0x3 == 2
}

#[test]
fn agent_works_in_the_single_repository() {
    assert_eq!(agent_working_dir(&vec![repo(1, "app", None, None)]), Some("app".to_string()));
    assert_eq!(
        agent_working_dir(&vec![repo(1, "app", Some("server"), None)]),
        Some("app/server".to_string())
    );
    assert_eq!(
        agent_working_dir(&vec![repo(1, "app", Some("/abs"), None)]),
        Some("/abs".to_string())
    );
}

#[test]
fn agent_works_at_the_root_of_several_repositories() {
    assert_eq!(agent_working_dir(&vec![]), None);
    assert_eq!(
        agent_working_dir(&vec![repo(1, "a", Some("x"), None), repo(2, "b", None, None)]),
        None
    );
}

#[test]
fn repositories_are_bound_with_their_target_branch() {
    let repos = vec![repo(1, "a", None, Some("develop")), repo(2, "b", None, None)];
    assert_eq!(
        workspace_repo_requests(&repos),
        vec![
            CreateWorkspaceRepo { repo_id: 1, target_branch: "develop".to_string() },
            CreateWorkspaceRepo { repo_id: 2, target_branch: "main".to_string() },
        ]
    );
    assert_eq!(workspace_repo_requests(&vec![]), vec![]);
}

#[test]
fn first_workspace_is_the_tasks_workspace() {
    let workspaces = vec![workspace(1, Some("/wt/1")), workspace(2, Some("/wt/2"))];
    assert_eq!(
        plan_workspace(&workspaces, None, 99),
        Ok(WorkspaceDecision::Existing(workspace(1, Some("/wt/1"))))
    );
    assert_eq!(
        get_or_create_workspace_for_ralph(&workspaces, None),
        Ok(WorkspaceDecision::Existing(workspace(1, Some("/wt/1"))))
    );
    assert_eq!(require_workspace(&workspaces), Ok(&workspaces[0]));
    assert_eq!(require_workspace(&vec![]), Err(ApiError::NoWorkspace));
}

#[test]
fn new_workspace_needs_project_and_repositories() {
    assert_eq!(plan_workspace(&vec![], None, 99), Err(ApiError::NoParentProject));
    assert_eq!(plan_workspace(&vec![], Some(&vec![]), 99), Err(ApiError::NoProjectRepositories));
    assert_eq!(get_or_create_workspace_for_ralph(&vec![], None), Err(ApiError::NoParentProject));
    assert_eq!(
        get_or_create_workspace_for_ralph(&vec![], Some(&vec![])),
        Err(ApiError::NoProjectRepositories)
    );
}

#[test]
fn new_workspace_plan() {
    let repos = vec![repo(5, "app", Some("web"), None)];
    assert_eq!(
        plan_workspace(&vec![], Some(&repos), 99),
        Ok(WorkspaceDecision::Create(NewWorkspace {
            workspace_id: 99,
            agent_working_dir: Some("app/web".to_string()),
            repos: vec![CreateWorkspaceRepo { repo_id: 5, target_branch: "main".to_string() }],
        }))
    );
}

#[test]
fn new_workspace_gets_a_random_identifier() {
    let repos = vec![repo(5, "app", None, Some("trunk"))];
    let first = get_or_create_workspace_for_ralph(&vec![], Some(&repos)).unwrap();
    let second = get_or_create_workspace_for_ralph(&vec![], Some(&repos)).unwrap();
    match (first, second) {
        (WorkspaceDecision::Create(a), WorkspaceDecision::Create(b)) => {
            assert!(is_v4(a.workspace_id));
            assert!(is_v4(b.workspace_id));
            assert_ne!(a.workspace_id, b.workspace_id);
            assert_eq!(a.agent_working_dir, Some("app".to_string()));
            assert_eq!(
                a.repos,
                vec![CreateWorkspaceRepo { repo_id: 5, target_branch: "trunk".to_string() }]
            );
            assert_eq!(
                create_workspace_request("vk/x".to_string(), &a),
                CreateWorkspace {
                    branch: "vk/x".to_string(),
                    agent_working_dir: Some("app".to_string())
                }
            );
        }
        _ => panic!("a workspace has to be created"),
    }
}

#[test]
fn sessions() {
    let request = CreateSession { executor: Some("RALPH".to_string()) };
    assert_eq!(
        Session::create(&request, 3, 11),
        Session { id: 3, workspace_id: 11, executor: Some("RALPH".to_string()) }
    );
    let a = Session::create_fresh(&request, 11, &vec![]).unwrap();
    let b = Session::create_fresh(&request, 11, &vec![a.clone()]).unwrap();
    assert!(is_v4(a.id));
    assert!(is_v4(b.id));
    assert_ne!(a.id, b.id);
    assert_eq!(a.workspace_id, 11);
    assert_eq!(a.executor, Some("RALPH".to_string()));
}

#[test]
fn session_identifiers_are_not_used_twice() {
    let request = CreateSession { executor: None };
    let on_record = vec![Session::create(&request, 3, 11), Session::create(&request, 5, 12)];
    assert_eq!(Session::create_distinct(&request, 3, 11, &on_record), None);
    assert_eq!(Session::create_distinct(&request, 5, 11, &on_record), None);
    assert_eq!(
        Session::create_distinct(&request, 4, 11, &on_record),
        Some(Session { id: 4, workspace_id: 11, executor: None })
    );
    assert_eq!(
        Session::create_distinct(&request, 3, 11, &vec![]),
        Some(Session { id: 3, workspace_id: 11, executor: None })
    );
    let fresh = Session::create_fresh(&request, 11, &on_record).unwrap();
    assert!(fresh.id != 3 && fresh.id != 5);
}

#[test]
fn identifier_is_drawn_only_for_a_new_workspace() {
    let repos = vec![repo(5, "app", None, None)];
    assert_eq!(
        new_workspace(&repos, 42),
        NewWorkspace {
            workspace_id: 42,
            agent_working_dir: Some("app".to_string()),
            repos: vec![CreateWorkspaceRepo { repo_id: 5, target_branch: "main".to_string() }],
        }
    );
    let workspaces = vec![workspace(1, None)];
    assert_eq!(
        get_or_create_workspace_for_ralph(&workspaces, Some(&repos)),
        plan_workspace(&workspaces, Some(&repos), 0)
    );
}

#[test]
fn workspace_after_creation_cases() {
    assert_eq!(
        workspace_after_creation(Ok(()), Some(workspace(1, Some("/wt")))),
        Ok(workspace(1, Some("/wt")))
    );
    assert_eq!(
        workspace_after_creation(Ok(()), None),
        Err(ApiError::WorkspaceNotFoundAfterCreation)
    );
    assert_eq!(
        workspace_after_creation(Err("no git".to_string()), Some(workspace(1, None))),
        Err(ApiError::WorkspaceSetupFailed { reason: "no git".to_string() })
    );
}

#[test]
fn control_directory_setup() {
    let r = repo(5, "app", None, None);
    assert_eq!(control_source_path(&r), "/repos/app/.ralph");
    assert_eq!(first_repo_id(&vec![5, 6]), Ok(5));
    assert_eq!(first_repo_id(&vec![]), Err(ApiError::NoWorkspaceRepositories));
    assert_eq!(
        setup_ralph_for_workspace(&workspace(1, Some("/wt")), &vec![5, 6], Some(&r), true),
        Ok(ControlDirectorySetup {
            worktree_path: "/wt".to_string(),
            source: "/repos/app/.ralph".to_string()
        })
    );
}

#[test]
fn control_directory_setup_refusals_in_order() {
    let r = repo(5, "app", None, None);
    assert_eq!(
        setup_ralph_for_workspace(&workspace(1, None), &vec![], None, false),
        Err(ApiError::WorktreeNotSetUp)
    );
    assert_eq!(
        setup_ralph_for_workspace(&workspace(1, Some("/wt")), &vec![], None, false),
        Err(ApiError::NoWorkspaceRepositories)
    );
    assert_eq!(
        setup_ralph_for_workspace(&workspace(1, Some("/wt")), &vec![5], None, false),
        Err(ApiError::RepositoryNotFound)
    );
    assert_eq!(
        setup_ralph_for_workspace(&workspace(1, Some("/wt")), &vec![5], Some(&r), false),
        Err(ApiError::ControlSourceMissing { path: "/repos/app/.ralph".to_string() })
    );
}

#[test]
fn provisioning_outcomes() {
    assert_eq!(provisioning_outcome(Ok(())), Ok(()));
    assert_eq!(
        provisioning_outcome(Err("copy failed".to_string())),
        Err(ApiError::ControlSetupFailed { reason: "copy failed".to_string() })
    );
}
