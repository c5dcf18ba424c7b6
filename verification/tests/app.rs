use agman_tui::activity::{AgentActivitySample, ProjectRefreshSnapshot};
use agman_tui::app::{Action, App, Config, View};
use agman_tui::app_events::Startup;
use agman_tui::detail::{ProjectDetail, ProjectDetailRow, ProjectTaskRow, TaskLoad};
use agman_tui::keys::{Event, KeyCode, KeyPress};
use agman_tui::model::{
    agent_kind_label, AgentAttachment, AgentKind, AgentMeta, AgentRecord, AgentStatus, HarnessKind, LinkedPr,
    Project, ProjectMeta, Task, TaskMeta,
};
use agman_tui::table::Table;

const UNIQUE: &str = "4711-1700000000000000000";

fn review_agent() -> String {
    agent_kind_label(AgentKind::Reviewer)
}

fn config() -> Config {
    Config {
        repos_dir: "/home/user/repos".to_string(),
        notes_dir: "/home/user/.agman/notes".to_string(),
        harness: HarnessKind::Codex,
        harness_name: "codex".to_string(),
    }
}

fn project_notes_dir(project: &str) -> String {
    format!("/home/user/.agman/projects/{project}/notes")
}

fn new_app() -> App {
    let start = Startup {
        tasks: Vec::new(),
        token: None,
        chat_id: None,
        archive_retention_days: 30,
        dismissed: Table::new(),
        bot_running: false,
        now: 1_000_000_000_000,
        now_epoch: 1_700_000_000,
        dismissal_retention: 1_000_000,
    };
    App::new(config(), start).0
}

fn project(name: &str, description: &str) -> Project {
    Project {
        meta: ProjectMeta {
            name: name.to_string(),
            description: description.to_string(),
            held: false,
        },
    }
}

fn table_of<V>(entries: Vec<(&str, V)>) -> Table<V> {
    let mut table = Table::new();
    for (key, value) in entries {
        table.insert(key.to_string(), value);
    }
    table
}

fn snapshot_of(projects: Vec<Project>) -> ProjectRefreshSnapshot {
    ProjectRefreshSnapshot {
        projects,
        project_task_counts: Table::new(),
        project_agent_counts: Table::new(),
        project_active_agent_counts: Table::new(),
        unassigned_task_count: 0,
        agent_activity: Table::new(),
        project_list_error: None,
        agent_list_error: None,
        agent_activity_error: None,
    }
}

fn press(code: KeyCode) -> Event {
    Event::Key(KeyPress {
        code,
        ctrl: false,
        alt: false,
        shift: false,
        released: false,
    })
}

/// What is stored of tasks and agents.
struct Store {
    tasks: Vec<Task>,
    agents: Vec<AgentRecord>,
}

impl Store {
    fn new() -> Self {
        Store {
            tasks: Vec::new(),
            agents: Vec::new(),
        }
    }

    fn create_agent(&mut self, project: &str, name: &str, description: &str, kind: AgentKind) {
        self.agents.push(AgentRecord {
            meta: AgentMeta {
                project: project.to_string(),
                name: name.to_string(),
                kind,
                status: AgentStatus::Active,
                attachment: AgentAttachment::Unattached,
                description: description.to_string(),
                created_at: 0,
                updated_at: 0,
                session_name: format!("agman-{name}"),
            },
        });
    }

    fn attach(&mut self, name: &str, attachment: AgentAttachment) {
        for agent in self.agents.iter_mut() {
            if agent.meta.name == name {
                agent.meta.attachment = attachment.clone();
            }
        }
    }

    fn create_test_task(&mut self, repo_name: &str, branch_name: &str) -> Task {
        let task_id = format!("{repo_name}--{branch_name}");
        let task = Task {
            meta: TaskMeta {
                id: task_id.clone(),
                name: repo_name.to_string(),
                branch_name: branch_name.to_string(),
                project: Some(repo_name.to_string()),
                linked_pr: None,
                repos: Vec::new(),
                multi_repo: false,
                parent_dir: None,
                saved: false,
                archived_at: None,
            },
        };
        self.tasks.push(task.clone());
        let engineer_name = format!("engineer-{}", task_id.replace("--", "-"));
        self.create_agent(
            repo_name,
            &engineer_name,
            &format!("Engineer attached to task {task_id}"),
            AgentKind::Engineer,
        );
        self.attach(&engineer_name, AgentAttachment::Task { task_id });
        task
    }

    fn attached(&self) -> Table<Vec<AgentRecord>> {
        let mut table = Table::new();
        for task in &self.tasks {
            let agents: Vec<AgentRecord> = self
                .agents
                .iter()
                .filter(|agent| {
                    matches!(
                        &agent.meta.attachment,
                        AgentAttachment::Task { task_id } if *task_id == task.meta.task_id()
                    ) && agent.meta.status == AgentStatus::Active
                })
                .cloned()
                .collect();
            table.insert(task.meta.task_id(), agents);
        }
        table
    }

    fn load(&self) -> TaskLoad {
        TaskLoad {
            tasks: self.tasks.clone(),
            attached: self.attached(),
        }
    }

    fn refresh_agents(&self, app: &mut App) {
        let unattached: Vec<AgentRecord> = self
            .agents
            .iter()
            .filter(|agent| matches!(agent.meta.attachment, AgentAttachment::Unattached))
            .cloned()
            .collect();
        app.refresh_agents(unattached, Ok(Vec::new()), 0, Some(0));
    }
}

fn row_of_agent(app: &App, name: &str) -> usize {
    app.project_detail_rows()
        .iter()
        .position(|row| {
            matches!(
                row,
                ProjectDetailRow::AttachedAgent(ProjectTaskRow::Agent { agent, .. })
                    if agent.meta.name == name
            )
        })
        .expect("attached row exists")
}

fn row_of_task(app: &App, id: &str) -> usize {
    app.project_detail_rows()
        .iter()
        .position(|row| {
            matches!(
                row,
                ProjectDetailRow::Task(ProjectTaskRow::Task { task, .. })
                    if task.meta.task_id() == id
            )
        })
        .unwrap()
}

/// Opens the notes that were asked for.
fn open_notes(app: &mut App, action: Action) {
    match action {
        Action::OpenGlobalNotes => app.on_global_notes_opened(Ok(Vec::new()), 0),
        Action::OpenProjectNotes(project) => {
            app.on_project_notes_opened(project_notes_dir(&project), Ok(Vec::new()), 0)
        }
        _ => panic!("notes expected"),
    }
}

#[test]
fn apply_project_refresh_snapshot_preserves_counts_and_clamps_selection() {
    let mut app = new_app();
    app.list.selected_project_index = 99;

    let snapshot = ProjectRefreshSnapshot {
        projects: vec![
            project("alpha", "Alpha project"),
            project("beta", "Beta project"),
        ],
        project_task_counts: table_of(vec![("alpha", 3)]),
        project_agent_counts: table_of(vec![("alpha", 2)]),
        project_active_agent_counts: table_of(vec![("alpha", 1)]),
        unassigned_task_count: 1,
        agent_activity: table_of(vec![(
            "agent-session",
            AgentActivitySample {
                last_tmux_activity_epoch: Some(100),
                last_observed_work_at: Some(0),
                foreground_command: "nvim".to_string(),
                foreground_is_shell: false,
                pane_dead: false,
                query_ok: true,
            },
        )]),
        project_list_error: None,
        agent_list_error: None,
        agent_activity_error: None,
    };

    app.list.apply_project_refresh_snapshot(snapshot);

    assert_eq!(app.list.selected_project_index, app.project_list_len() - 1);
    assert_eq!(app.list.project_task_counts.get("alpha"), Some(&3));
    assert_eq!(app.list.project_agent_counts.get("alpha"), Some(&2));
    assert_eq!(app.list.project_active_agent_counts.get("alpha"), Some(&1));
    assert_eq!(app.list.unassigned_task_count, 1);
    assert!(app.list.agent_activity.contains_key("agent-session"));
}

#[test]
fn apply_project_refresh_snapshot_keeps_empty_selection_behavior() {
    let mut app = new_app();
    app.list.selected_project_index = 7;

    app.list.apply_project_refresh_snapshot(snapshot_of(Vec::new()));

    assert_eq!(app.project_list_len(), 0);
    assert_eq!(app.list.selected_project_index, 7);
}

#[test]
fn stale_project_refresh_result_does_not_overwrite_current_state() {
    let mut app = new_app();
    app.list.project_refresh_generation = 2;
    app.list.project_refresh_active = true;
    app.list.project_task_counts = table_of(vec![("fresh", 1)]);
    app.list.unassigned_task_count = 4;

    let mut stale_snapshot = snapshot_of(vec![project("alpha", "Alpha project")]);
    stale_snapshot.project_task_counts = table_of(vec![("stale", 99)]);
    stale_snapshot.unassigned_task_count = 99;

    app.apply_project_refresh_result(1, stale_snapshot);

    assert!(!app.list.project_refresh_active);
    assert_eq!(app.list.project_task_counts.get("fresh"), Some(&1));
    assert_eq!(app.list.project_task_counts.get("stale"), None);
    assert_eq!(app.list.unassigned_task_count, 4);
}

#[test]
fn project_list_opens_global_notes_and_returns_to_project_list() {
    let mut app = new_app();
    app.refresh_projects(snapshot_of(vec![
        project("alpha", "Alpha project"),
        project("beta", "Beta project"),
    ]));
    app.list.selected_project_index = app
        .list
        .projects
        .iter()
        .position(|project| project.meta.name == "beta")
        .unwrap();

    let action = app.handle_event(press(KeyCode::Char('o')), None, 0, 0);
    open_notes(&mut app, action);

    assert_eq!(app.view, View::Notes);
    assert_eq!(app.notes_return_view, View::ProjectList);
    assert_eq!(app.notes_view.as_ref().unwrap().root_dir, config().notes_dir);

    app.handle_event(press(KeyCode::Esc), None, 0, 0);

    assert_eq!(app.view, View::ProjectList);
    assert!(app.notes_view.is_none());
}

#[test]
fn project_list_opens_global_notes_for_unassigned() {
    let mut app = new_app();
    app.refresh_projects(snapshot_of(vec![project("alpha", "Alpha project")]));
    app.list.unassigned_task_count = 1;
    app.list.selected_project_index = app.list.projects.len();

    let action = app.handle_event(press(KeyCode::Char('o')), None, 0, 0);
    open_notes(&mut app, action);

    assert_eq!(app.view, View::Notes);
    assert_eq!(app.notes_return_view, View::ProjectList);
    assert_eq!(app.notes_view.as_ref().unwrap().root_dir, config().notes_dir);
}

#[test]
fn task_list_lowercase_o_opens_project_notes_and_returns_to_task_list() {
    let mut app = new_app();
    app.detail.current_project = Some("alpha".to_string());
    app.view = View::TaskList;

    let action = app.handle_event(press(KeyCode::Char('o')), None, 0, 0);
    open_notes(&mut app, action);

    assert_eq!(app.view, View::Notes);
    assert_eq!(app.notes_return_view, View::TaskList);
    assert_eq!(
        app.notes_view.as_ref().unwrap().root_dir,
        project_notes_dir("alpha")
    );

    app.handle_event(press(KeyCode::Char('q')), None, 0, 0);

    assert_eq!(app.view, View::TaskList);
    assert!(app.notes_view.is_none());
}

#[test]
fn task_list_lowercase_o_opens_project_notes_even_when_task_has_linked_pr() {
    let mut store = Store::new();
    let project = format!("repo-{UNIQUE}");
    let branch = format!("branch-{UNIQUE}");
    store.create_test_task(&project, &branch);
    store.tasks[0].meta.linked_pr = Some(LinkedPr {
        number: 42,
        url: "https://github.com/example/repo/pull/42".to_string(),
        owned: true,
        author: None,
    });

    let mut app = new_app();
    app.detail.current_project = Some(project.clone());
    app.view = View::TaskList;
    app.refresh_tasks_for_project(store.load());

    let action = app.handle_event(press(KeyCode::Char('o')), None, 0, 0);
    open_notes(&mut app, action);

    assert_eq!(app.view, View::Notes);
    assert_eq!(app.notes_return_view, View::TaskList);
    assert_eq!(
        app.notes_view.as_ref().unwrap().root_dir,
        project_notes_dir(&project)
    );
}

#[test]
fn refresh_tasks_for_project_preserves_attached_agent_row_selection() {
    let mut store = Store::new();
    let project = format!("repo-{UNIQUE}");
    let branch = format!("branch-{UNIQUE}");
    let task_id = store.create_test_task(&project, &branch).meta.task_id();
    store.create_agent(
        &project,
        "research-agent-window-names",
        "test researcher",
        AgentKind::Researcher,
    );
    store.attach(
        "research-agent-window-names",
        AgentAttachment::Task { task_id },
    );

    let mut app = new_app();
    app.detail.current_project = Some(project.clone());
    app.refresh_tasks_for_project(store.load());
    app.detail.selected_index = row_of_agent(&app, "research-agent-window-names");

    app.refresh_tasks_for_project(store.load());

    assert!(matches!(
        app.detail.selected_project_task_row(),
        Some(ProjectTaskRow::Agent { agent, .. })
            if agent.meta.name == "research-agent-window-names"
    ));
}

#[test]
fn refresh_tasks_for_project_falls_back_to_parent_task_when_agent_row_disappears() {
    let mut store = Store::new();
    let project = format!("repo-{UNIQUE}");
    let branch = format!("branch-{UNIQUE}");
    let task_id = store.create_test_task(&project, &branch).meta.task_id();
    store.create_agent(
        &project,
        "research-agent-window-names",
        "test researcher",
        AgentKind::Researcher,
    );
    store.attach(
        "research-agent-window-names",
        AgentAttachment::Task {
            task_id: task_id.clone(),
        },
    );

    let mut app = new_app();
    app.detail.current_project = Some(project.clone());
    app.refresh_tasks_for_project(store.load());
    app.detail.selected_index = row_of_agent(&app, "research-agent-window-names");

    store.attach("research-agent-window-names", AgentAttachment::Unattached);
    app.refresh_tasks_for_project(store.load());

    assert!(matches!(
        app.detail.selected_project_task_row(),
        Some(ProjectTaskRow::Task { task, .. }) if task.meta.task_id() == task_id
    ));
}

#[test]
fn refresh_tasks_preserves_attached_agent_row_selection() {
    let mut store = Store::new();
    let project = format!("repo-{UNIQUE}");
    let branch = format!("branch-{UNIQUE}");
    let task_id = store.create_test_task(&project, &branch).meta.task_id();
    store.create_agent(
        &project,
        &format!("{}-pr5590-ltv", review_agent()),
        &format!("test {}", review_agent()),
        AgentKind::Reviewer,
    );
    store.attach(&format!("{}-pr5590-ltv", review_agent()), AgentAttachment::Task { task_id });

    let mut app = new_app();
    app.refresh_tasks(store.load());
    app.detail.selected_index = row_of_agent(&app, &format!("{}-pr5590-ltv", review_agent()));

    app.refresh_tasks(store.load());

    assert!(matches!(
        app.detail.selected_project_task_row(),
        Some(ProjectTaskRow::Agent { agent, .. }) if agent.meta.name == format!("{}-pr5590-ltv", review_agent())
    ));
}

#[test]
fn project_detail_rows_order_agents_before_tasks_with_attached_agents_under_task() {
    let mut store = Store::new();
    let project = format!("repo-{UNIQUE}");
    let branch = format!("branch-{UNIQUE}");
    store.create_test_task(&project, &branch);
    store.create_test_task(&project, &format!("branch-b-{UNIQUE}"));
    store.create_agent(
        &project,
        &format!("unattached-{}", review_agent()),
        &format!("test {}", review_agent()),
        AgentKind::Reviewer,
    );

    let mut app = new_app();
    app.detail.current_project = Some(project);
    app.refresh_tasks_for_project(store.load());
    store.refresh_agents(&mut app);
    app.detail.selected_index = 0;
    app.detail.clamp_project_detail_selection();

    let rows = app.project_detail_rows();
    assert!(matches!(rows[0], ProjectDetailRow::AgentsSectionHeader));
    assert!(matches!(rows[1], ProjectDetailRow::SectionColumnSpacer));
    assert!(matches!(rows[2], ProjectDetailRow::AgentsColumnsHeader));
    assert!(matches!(
        rows[3],
        ProjectDetailRow::UnattachedAgent { agent }
            if agent.meta.name == format!("unattached-{}", review_agent())
    ));
    assert!(matches!(rows[4], ProjectDetailRow::SectionSpacer));
    assert!(matches!(rows[5], ProjectDetailRow::TasksSectionHeader));
    assert!(matches!(rows[6], ProjectDetailRow::SectionColumnSpacer));
    assert!(matches!(rows[7], ProjectDetailRow::TasksColumnsHeader));
    assert!(matches!(
        rows[8],
        ProjectDetailRow::Task(ProjectTaskRow::Task { .. })
    ));
    assert!(matches!(rows[9], ProjectDetailRow::AttachedAgentsHeader));
    assert!(matches!(
        rows[10],
        ProjectDetailRow::AttachedAgent(ProjectTaskRow::Agent { agent, .. })
            if agent.meta.name.starts_with("engineer-")
    ));
    assert!(matches!(rows[11], ProjectDetailRow::TaskGroupSpacer));
    assert!(matches!(
        rows[12],
        ProjectDetailRow::Task(ProjectTaskRow::Task { .. })
    ));
    assert!(matches!(rows[13], ProjectDetailRow::AttachedAgentsHeader));
    assert!(matches!(
        rows[14],
        ProjectDetailRow::AttachedAgent(ProjectTaskRow::Agent { agent, .. })
            if agent.meta.name.starts_with("engineer-")
    ));
    assert!(!matches!(
        rows.last(),
        Some(ProjectDetailRow::TaskGroupSpacer)
    ));
    assert!(matches!(
        app.selected_project_detail_row(),
        Some(ProjectDetailRow::UnattachedAgent { agent })
            if agent.meta.name == format!("unattached-{}", review_agent())
    ));
}

#[test]
fn project_detail_navigation_skips_headers_and_empty_rows() {
    let mut store = Store::new();
    let project = format!("repo-{UNIQUE}");
    let branch = format!("branch-{UNIQUE}");
    store.create_test_task(&project, &branch);
    store.create_test_task(&project, &format!("branch-b-{UNIQUE}"));
    store.create_agent(
        &project,
        "unattached-researcher",
        "test researcher",
        AgentKind::Researcher,
    );

    let mut app = new_app();
    app.detail.current_project = Some(project);
    app.refresh_tasks_for_project(store.load());
    store.refresh_agents(&mut app);
    app.detail.selected_index = 0;
    app.detail.clamp_project_detail_selection();

    assert!(matches!(
        app.selected_project_detail_row(),
        Some(ProjectDetailRow::UnattachedAgent { .. })
    ));
    app.detail.next_project_detail_row();
    assert!(matches!(
        app.selected_project_detail_row(),
        Some(ProjectDetailRow::Task(ProjectTaskRow::Task { .. }))
    ));
    app.detail.next_project_detail_row();
    assert!(matches!(
        app.selected_project_detail_row(),
        Some(ProjectDetailRow::AttachedAgent(
            ProjectTaskRow::Agent { .. }
        ))
    ));
    app.detail.next_project_detail_row();
    assert!(matches!(
        app.selected_project_detail_row(),
        Some(ProjectDetailRow::Task(ProjectTaskRow::Task { .. }))
    ));
    app.detail.previous_project_detail_row();
    assert!(matches!(
        app.selected_project_detail_row(),
        Some(ProjectDetailRow::AttachedAgent(
            ProjectTaskRow::Agent { .. }
        ))
    ));
    app.detail.select_last_project_detail_row();
    assert!(matches!(
        app.selected_project_detail_row(),
        Some(ProjectDetailRow::AttachedAgent(
            ProjectTaskRow::Agent { .. }
        ))
    ));
    app.detail.next_project_detail_row();
    assert!(matches!(
        app.selected_project_detail_row(),
        Some(ProjectDetailRow::UnattachedAgent { .. })
    ));

    app.detail.jump_to_next_project_detail_section();
    assert!(matches!(
        app.selected_project_detail_row(),
        Some(ProjectDetailRow::Task(ProjectTaskRow::Task { .. }))
    ));
    app.detail.jump_to_previous_project_detail_section();
    assert!(matches!(
        app.selected_project_detail_row(),
        Some(ProjectDetailRow::UnattachedAgent { .. })
    ));

    let rows = app.project_detail_rows();
    assert!(matches!(rows[0], ProjectDetailRow::AgentsSectionHeader));
    assert!(matches!(rows[1], ProjectDetailRow::SectionColumnSpacer));
    assert!(matches!(rows[2], ProjectDetailRow::AgentsColumnsHeader));
    assert!(matches!(rows[4], ProjectDetailRow::SectionSpacer));
    assert!(matches!(rows[5], ProjectDetailRow::TasksSectionHeader));
    assert!(matches!(rows[6], ProjectDetailRow::SectionColumnSpacer));
    assert!(matches!(rows[7], ProjectDetailRow::TasksColumnsHeader));
    assert!(matches!(
        rows.iter()
            .find(|row| matches!(row, ProjectDetailRow::AttachedAgentsHeader)),
        Some(ProjectDetailRow::AttachedAgentsHeader)
    ));
    assert!(rows
        .iter()
        .any(|row| matches!(row, ProjectDetailRow::TaskGroupSpacer)));
    assert!(!ProjectDetail::project_detail_row_is_actionable(
        &ProjectDetailRow::TaskGroupSpacer
    ));
    assert!(!ProjectDetail::project_detail_row_is_actionable(
        &ProjectDetailRow::SectionColumnSpacer
    ));
}

#[test]
fn project_detail_select_first_moves_from_later_actionable_row() {
    let mut store = Store::new();
    let project = format!("repo-{UNIQUE}");
    let branch = format!("branch-{UNIQUE}");
    store.create_test_task(&project, &branch);
    store.create_agent(&project, "unattached-tester", "test tester", AgentKind::Tester);

    let mut app = new_app();
    app.detail.current_project = Some(project);
    app.refresh_tasks_for_project(store.load());
    store.refresh_agents(&mut app);
    app.detail.select_last_project_detail_row();
    assert!(matches!(
        app.selected_project_detail_row(),
        Some(ProjectDetailRow::AttachedAgent(_))
    ));

    app.detail.select_first_project_detail_row();

    assert!(matches!(
        app.selected_project_detail_row(),
        Some(ProjectDetailRow::UnattachedAgent { agent })
            if agent.meta.name == "unattached-tester"
    ));
}

#[test]
fn archive_task_clamps_to_actionable_combined_row_with_empty_agents_section() {
    let mut store = Store::new();
    let project = format!("repo-{UNIQUE}");
    let first = store.create_test_task(&project, &format!("branch-a-{UNIQUE}"));
    let second = store.create_test_task(&project, &format!("branch-b-{UNIQUE}"));
    let first_task_id = first.meta.task_id();
    let second_task_id = second.meta.task_id();

    let mut app = new_app();
    app.detail.current_project = Some(project);
    app.refresh_tasks_for_project(store.load());
    store.refresh_agents(&mut app);
    app.detail.selected_index = row_of_task(&app, &second_task_id);

    app.archive_task(false, store.attached(), 0);

    match app.selected_project_detail_row() {
        Some(ProjectDetailRow::Task(ProjectTaskRow::Task { task, .. })) => {
            assert_eq!(task.meta.task_id(), first_task_id);
        }
        Some(ProjectDetailRow::AttachedAgent(ProjectTaskRow::Agent { task_index, .. })) => {
            assert_eq!(app.detail.tasks[task_index].meta.task_id(), first_task_id);
        }
        other => panic!("expected remaining task row, got {other:?}"),
    }
}

#[test]
fn archive_task_clamps_to_remaining_task_rows_when_unattached_agent_exists() {
    let mut store = Store::new();
    let project = format!("repo-{UNIQUE}");
    let first = store.create_test_task(&project, &format!("branch-a-{UNIQUE}"));
    let second = store.create_test_task(&project, &format!("branch-b-{UNIQUE}"));
    let first_task_id = first.meta.task_id();
    let second_task_id = second.meta.task_id();
    store.create_agent(
        &project,
        &format!("unattached-{}", review_agent()),
        &format!("test {}", review_agent()),
        AgentKind::Reviewer,
    );

    let mut app = new_app();
    app.detail.current_project = Some(project);
    app.refresh_tasks_for_project(store.load());
    store.refresh_agents(&mut app);
    app.detail.selected_index = row_of_task(&app, &second_task_id);

    app.archive_task(false, store.attached(), 0);

    match app.selected_project_detail_row() {
        Some(ProjectDetailRow::Task(ProjectTaskRow::Task { task, .. })) => {
            assert_eq!(task.meta.task_id(), first_task_id);
        }
        Some(ProjectDetailRow::AttachedAgent(ProjectTaskRow::Agent { task_index, .. })) => {
            assert_eq!(app.detail.tasks[task_index].meta.task_id(), first_task_id);
        }
        other => panic!("expected remaining task row, got {other:?}"),
    }
}

#[test]
fn archive_task_marks_in_progress_and_refresh_does_not_re_add_task() {
    let mut store = Store::new();
    let project = format!("repo-{UNIQUE}");
    let first = store.create_test_task(&project, &format!("branch-a-{UNIQUE}"));
    let second = store.create_test_task(&project, &format!("branch-b-{UNIQUE}"));
    let first_task_id = first.meta.task_id();
    let second_task_id = second.meta.task_id();

    let mut app = new_app();
    app.detail.current_project = Some(project);
    app.refresh_tasks_for_project(store.load());
    store.refresh_agents(&mut app);

    app.detail.archive_in_progress.push(second_task_id.clone());
    app.detail
        .tasks
        .retain(|t| t.meta.task_id() != second_task_id);

    app.refresh_tasks_for_project(store.load());

    assert!(
        !app.detail
            .tasks
            .iter()
            .any(|t| t.meta.task_id() == second_task_id),
        "refresh must not re-add a task whose archive is in progress"
    );
    assert!(
        app.detail
            .tasks
            .iter()
            .any(|t| t.meta.task_id() == first_task_id),
        "other tasks remain visible after refresh"
    );

    app.detail
        .archive_in_progress
        .retain(|id| *id != second_task_id);
    app.refresh_tasks_for_project(store.load());
    assert!(
        app.detail
            .tasks
            .iter()
            .any(|t| t.meta.task_id() == second_task_id),
        "task reappears once in-progress flag is cleared"
    );
}

#[test]
fn archive_task_inserts_task_id_into_archive_in_progress() {
    let mut store = Store::new();
    let project = format!("repo-{UNIQUE}");
    let first = store.create_test_task(&project, &format!("branch-a-{UNIQUE}"));
    let second = store.create_test_task(&project, &format!("branch-b-{UNIQUE}"));
    let _first_task_id = first.meta.task_id();
    let second_task_id = second.meta.task_id();

    let mut app = new_app();
    app.detail.current_project = Some(project);
    app.refresh_tasks_for_project(store.load());
    store.refresh_agents(&mut app);
    app.detail.selected_index = row_of_task(&app, &second_task_id);

    let action = app.archive_task(false, store.attached(), 0);
    assert!(matches!(
        action,
        Action::ArchiveTask { task, saved: false } if task.meta.task_id() == second_task_id
    ));

    assert!(
        app.detail.archive_in_progress.contains(&second_task_id),
        "archived task id should be in archive_in_progress immediately, got {:?}",
        app.detail.archive_in_progress
    );
    assert!(
        !app.detail
            .tasks
            .iter()
            .any(|t| t.meta.task_id() == second_task_id),
        "archived task should be removed from in-memory tasks immediately"
    );
}

#[test]
fn refresh_agents_preserves_and_falls_back_from_unattached_agent_selection() {
    let mut store = Store::new();
    let project = format!("repo-{UNIQUE}");
    let branch = format!("branch-{UNIQUE}");
    let task_id = store.create_test_task(&project, &branch).meta.task_id();
    store.create_agent(
        &project,
        "unattached-operator",
        "test operator",
        AgentKind::Operator,
    );

    let mut app = new_app();
    app.detail.current_project = Some(project.clone());
    app.refresh_tasks_for_project(store.load());
    store.refresh_agents(&mut app);
    app.detail.selected_index = app
        .project_detail_rows()
        .iter()
        .position(|row| {
            matches!(
                row,
                ProjectDetailRow::UnattachedAgent { agent }
                    if agent.meta.name == "unattached-operator"
            )
        })
        .unwrap();

    store.refresh_agents(&mut app);
    assert!(matches!(
        app.selected_project_detail_row(),
        Some(ProjectDetailRow::UnattachedAgent { agent })
            if agent.meta.name == "unattached-operator"
    ));

    for agent in store.agents.iter_mut() {
        if agent.meta.name == "unattached-operator" {
            agent.meta.status = AgentStatus::Archived;
        }
    }
    store.refresh_agents(&mut app);
    assert!(matches!(
        app.selected_project_detail_row(),
        Some(ProjectDetailRow::Task(ProjectTaskRow::Task { task, .. }))
            if task.meta.task_id() == task_id
    ));
}
