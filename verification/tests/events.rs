use agman_tui::activity::{
    build_project_refresh_snapshot, sort_held_last, unix_epoch_secs, ProjectSources,
    TmuxWindowActivity,
};
use agman_tui::app::{Action, App, Config, View};
use agman_tui::app_dialogs::WizardStart;
use agman_tui::app_events::Startup;
use agman_tui::app_tasks::AttachTarget;
use agman_tui::archive::ArchiveKind;
use agman_tui::detail::TaskLoad;
use agman_tui::keys::{Event, KeyCode, KeyPress};
use agman_tui::model::{
    AgentAttachment, AgentKind, AgentMeta, AgentRecord, AgentStatus, GithubItem,
    GithubNotification, HarnessKind, LinkedPr, NoteEntry, Project, ProjectMeta, RepoEntry,
    ShowPrsData, Task, TaskMeta,
};
use agman_tui::notifs::DismissedEntry;
use agman_tui::picker::{DirKind, DirPickerOrigin, FoundEntry};
use agman_tui::table::Table;
use agman_tui::task_wizard::{ListedWorktree, WorktreeSource};
use agman_tui::textarea::Key;
use agman_tui::vim::VimMode;
use agman_tui::wizard::{AgentWizardKind, AgentWizardStep, BranchSource, WizardStep};

const SECOND: i64 = 1_000_000_000;

fn startup() -> Startup {
    Startup {
        tasks: Vec::new(),
        token: None,
        chat_id: None,
        archive_retention_days: 30,
        dismissed: Table::new(),
        bot_running: false,
        now: 100 * SECOND,
        now_epoch: 1_000,
        dismissal_retention: 100,
    }
}

fn config() -> Config {
    Config {
        repos_dir: "/repos".to_string(),
        notes_dir: "/notes".to_string(),
        harness: HarnessKind::Codex,
        harness_name: "codex".to_string(),
    }
}

fn new_app() -> App {
    App::new(config(), startup()).0
}

fn project(name: &str, held: bool) -> Project {
    Project {
        meta: ProjectMeta {
            name: name.to_string(),
            description: String::new(),
            held,
        },
    }
}

fn task(repo: &str, branch: &str) -> Task {
    Task {
        meta: TaskMeta {
            id: format!("{repo}--{branch}"),
            name: repo.to_string(),
            branch_name: branch.to_string(),
            project: Some("alpha".to_string()),
            linked_pr: None,
            repos: Vec::new(),
            multi_repo: false,
            parent_dir: None,
            saved: false,
            archived_at: None,
        },
    }
}

fn agent(name: &str) -> AgentRecord {
    AgentRecord {
        meta: AgentMeta {
            project: "alpha".to_string(),
            name: name.to_string(),
            kind: AgentKind::Researcher,
            status: AgentStatus::Active,
            attachment: AgentAttachment::Unattached,
            description: String::new(),
            created_at: 0,
            updated_at: 0,
            session_name: format!("session-{name}"),
        },
    }
}

fn press(app: &mut App, code: KeyCode) -> Action {
    press_with(app, code, false)
}

fn press_with(app: &mut App, code: KeyCode, ctrl: bool) -> Action {
    let key = KeyPress {
        code,
        ctrl,
        alt: false,
        shift: false,
        released: false,
    };
    app.handle_event(Event::Key(key), None, 100 * SECOND, 1_000)
}

fn type_text(app: &mut App, text: &str) {
    for c in text.chars() {
        press(app, KeyCode::Char(c));
    }
}

fn status(app: &App) -> &str {
    match &app.status_message {
        Some((message, _)) => message.as_str(),
        None => "",
    }
}

/// A page of the project alpha with two tasks and an agent.
fn page() -> App {
    let mut app = new_app();
    app.view = View::TaskList;
    app.detail.current_project = Some("alpha".to_string());
    let mut first = task("repo", "main");
    first.meta.linked_pr = Some(LinkedPr {
        number: 7,
        url: "https://example.com/7".to_string(),
        owned: true,
        author: None,
    });
    first.meta.repos.push(RepoEntry {
        repo_name: "repo".to_string(),
        tmux_session: "tmux-repo".to_string(),
        worktree_path: "/worktrees/repo".to_string(),
    });
    app.refresh_tasks_for_project(TaskLoad {
        tasks: vec![first, task("repo", "dev")],
        attached: Table::new(),
    });
    app.refresh_agents(vec![agent("scout")], Ok(Vec::new()), 0, Some(0));
    app
}

#[test]
fn startup_shows_an_empty_list_with_polls_due() {
    let mut app = new_app();
    assert_eq!(app.view, View::ProjectList);
    assert_eq!(app.project_list_len(), 0);
    let due = app.tick(100 * SECOND, 100 * SECOND);
    assert!(due.notifications);
    assert!(due.show_prs);
    assert!(!due.inbox);
    assert!(!due.watchdog);
    assert_eq!(due.project_refresh, None);
    let due = app.tick(100 * SECOND, 102 * SECOND);
    assert_eq!(due.project_refresh, Some(1));
    assert!(due.inbox);
    assert!(!due.notifications);
    assert!(!due.page_refresh);
    let due = app.tick(100 * SECOND, 105 * SECOND);
    assert_eq!(due.project_refresh, None);
    assert!(due.watchdog);
}

#[test]
fn old_dismissals_are_forgotten_at_startup() {
    let mut start = startup();
    start.dismissed.insert(
        "old".to_string(),
        DismissedEntry {
            updated_at: "2023-01-01T00:00:00Z".to_string(),
            dismissed_at: 800,
        },
    );
    start.dismissed.insert(
        "new".to_string(),
        DismissedEntry {
            updated_at: "2023-01-01T00:00:00Z".to_string(),
            dismissed_at: 950,
        },
    );
    let (app, save) = App::new(config(), start);
    assert!(save);
    assert!(!app.notifs.dismissed.contains_key("old"));
    assert!(app.notifs.dismissed.contains_key("new"));
}

#[test]
fn control_c_quits_the_list() {
    let mut app = new_app();
    assert!(!app.should_quit);
    app.handle_event(Event::Other, None, 0, 0);
    assert!(!app.should_quit);
    press_with(&mut app, KeyCode::Char('c'), true);
    assert!(app.should_quit);
    app.on_screen_shown();
    assert!(!app.should_quit);
}

#[test]
fn messages_and_output_fade() {
    let mut app = new_app();
    app.set_status("hello".to_string(), 0);
    app.clear_old_status(3 * SECOND);
    assert_eq!(status(&app), "hello");
    app.clear_old_status(3 * SECOND + 1);
    assert_eq!(status(&app), "");
    for i in 0..150 {
        app.log_output(format!("line {i}"), 0);
    }
    assert_eq!(app.output.log.len(), 100);
    assert_eq!(app.output.log[0], "line 50");
    assert_eq!(app.output.scroll, 95);
    app.clear_old_output(7 * SECOND);
    assert_eq!(app.output.log.len(), 100);
    app.clear_old_output(7 * SECOND + 1);
    assert!(app.output.log.is_empty());
}

#[test]
fn projects_are_entered_held_and_deleted() {
    let mut app = new_app();
    app.list.projects = vec![project("alpha", false), project("beta", true)];
    assert!(matches!(press(&mut app, KeyCode::Enter), Action::RefreshProject));
    assert_eq!(app.view, View::TaskList);
    assert_eq!(app.detail.current_project, Some("alpha".to_string()));
    press(&mut app, KeyCode::Char('q'));
    assert_eq!(app.view, View::ProjectList);
    assert!(matches!(press(&mut app, KeyCode::Char('h')), Action::ToggleHold(name) if name == "alpha"));
    press(&mut app, KeyCode::Char('d'));
    assert_eq!(app.view, View::ProjectDeleteConfirm);
    assert!(matches!(press(&mut app, KeyCode::Enter), Action::DeleteProject(name) if name == "alpha"));
    assert_eq!(app.view, View::ProjectList);
    app.on_project_deleted("alpha", Err("busy".to_string()), 0);
    assert!(status(&app).contains("busy"));
}

#[test]
fn unassigned_tasks_are_migrated() {
    let mut app = new_app();
    app.list.unassigned_task_count = 2;
    press(&mut app, KeyCode::Char('m'));
    assert_eq!(status(&app), "Create a project first with 'n'");
    app.list.projects = vec![project("alpha", false), project("beta", false)];
    app.list.selected_project_index = 2;
    press(&mut app, KeyCode::Char('m'));
    assert_eq!(app.view, View::ProjectPicker);
    press(&mut app, KeyCode::Char('j'));
    let action = press(&mut app, KeyCode::Enter);
    assert!(matches!(action, Action::MigrateUnassigned(name) if name == "beta"));
}

#[test]
fn projects_need_a_name() {
    let mut app = new_app();
    press(&mut app, KeyCode::Char('n'));
    assert_eq!(app.view, View::ProjectWizard);
    press_with(&mut app, KeyCode::Char('s'), true);
    assert!(app.project_wizard.as_ref().unwrap().error_message.is_some());
    type_text(&mut app, "alpha");
    let action = press_with(&mut app, KeyCode::Char('s'), true);
    assert!(matches!(action, Action::CreateProject { name, .. } if name == "alpha"));
    app.on_project_created("alpha", Err("exists".to_string()), 0);
    assert_eq!(
        app.project_wizard.as_ref().unwrap().error_message,
        Some("exists".to_string())
    );
    press(&mut app, KeyCode::Esc);
    assert_eq!(app.view, View::ProjectList);
}

#[test]
fn agents_need_a_name_and_worktrees() {
    let mut app = page();
    app.start_agent_wizard(0);
    assert_eq!(app.view, View::AgentWizard);
    press(&mut app, KeyCode::Right);
    assert_eq!(app.agent_wizard.as_ref().unwrap().kind, AgentWizardKind::Reviewer);
    press(&mut app, KeyCode::Right);
    assert_eq!(app.agent_wizard.as_ref().unwrap().kind, AgentWizardKind::Tester);
    press(&mut app, KeyCode::Enter);
    assert_eq!(app.agent_wizard.as_ref().unwrap().step, AgentWizardStep::Name);
    press_with(&mut app, KeyCode::Char('s'), true);
    assert_eq!(
        app.agent_wizard.as_ref().unwrap().error_message,
        Some("AgentRecord name is required".to_string())
    );
    type_text(&mut app, "checks");
    press_with(&mut app, KeyCode::Char('s'), true);
    assert_eq!(
        app.agent_wizard.as_ref().unwrap().error_message,
        Some("Tester needs at least one (repo, branch) pair".to_string())
    );
    assert_eq!(app.agent_wizard.as_ref().unwrap().step, AgentWizardStep::Worktrees);
    type_text(&mut app, "repo");
    press_with(&mut app, KeyCode::Char('s'), true);
    assert_eq!(
        app.agent_wizard.as_ref().unwrap().error_message,
        Some("Each row needs both a repo and a branch (Ctrl+D to remove)".to_string())
    );
    press(&mut app, KeyCode::Tab);
    type_text(&mut app, "main");
    press_with(&mut app, KeyCode::Char('d'), true);
    assert_eq!(app.agent_wizard.as_ref().unwrap().worktree_rows.len(), 1);
    let action = press_with(&mut app, KeyCode::Char('s'), true);
    let Action::CreateAgent(request) = action else {
        panic!("an agent should be created");
    };
    assert_eq!(request.name, "checks");
    assert_eq!(request.project, "alpha");
    assert_eq!(request.branches, vec![("repo".to_string(), "main".to_string())]);
    app.on_agent_created("checks", Ok(()), 0);
    assert_eq!(status(&app), "Created tester: checks");
    assert_eq!(app.view, View::TaskList);
}

#[test]
fn tasks_are_made_from_a_repository() {
    let mut app = page();
    app.start_wizard(
        WizardStart::Repos {
            favorites: vec![("repo".to_string(), 3, true)],
            found: Some(vec![FoundEntry {
                name: "repo".to_string(),
                is_dir: true,
                kind: DirKind::GitRepo,
            }]),
        },
        0,
    );
    assert_eq!(app.view, View::DirectoryPicker);
    let picker = app.dir_picker.as_ref().unwrap();
    assert_eq!(picker.origin, DirPickerOrigin::RepoSelect);
    assert_eq!(picker.total_items(), 2);
    let action = press(&mut app, KeyCode::Enter);
    let Action::ScanRepo { name, path, multi_repo } = action else {
        panic!("the repository should be read");
    };
    assert_eq!(name, "repo");
    assert_eq!(path, "/repos/repo");
    assert!(!multi_repo);
    app.on_repo_scanned(
        name,
        path,
        multi_repo,
        "origin/main",
        Some("main\ndev\nfeature\n"),
        vec![ListedWorktree {
            branch: "spare".to_string(),
            path: "/worktrees/spare".to_string(),
            is_main: false,
        }],
        None,
    );
    assert_eq!(app.view, View::NewTaskWizard);
    let wizard = app.wizard.as_ref().unwrap();
    assert_eq!(wizard.existing_branches, vec!["feature".to_string()]);
    assert_eq!(wizard.existing_worktrees.len(), 1);
    press(&mut app, KeyCode::Enter);
    assert!(app.wizard.as_ref().unwrap().error_message.is_some());
    type_text(&mut app, "fix");
    let action = press(&mut app, KeyCode::Enter);
    assert!(matches!(action, Action::CheckTask { branch, .. } if branch == "fix"));
    app.on_branch_checked(true);
    assert!(app.wizard.as_ref().unwrap().error_message.is_some());
    press(&mut app, KeyCode::Enter);
    app.on_branch_checked(false);
    assert_eq!(app.wizard.as_ref().unwrap().step, WizardStep::EnterDescription);
    type_text(&mut app, "do it");
    let action = press_with(&mut app, KeyCode::Char('s'), true);
    let Action::CreateTask(request) = action else {
        panic!("a task should be created");
    };
    assert_eq!(request.name, "repo");
    assert_eq!(request.branch, "fix");
    assert_eq!(request.description, "do it");
    assert_eq!(request.project, Some("alpha".to_string()));
    assert!(matches!(
        request.source,
        WorktreeSource::NewBranch { base_branch: Some(base) } if base == "origin/main"
    ));
}

#[test]
fn tabs_of_the_wizard_go_round() {
    let source = BranchSource::NewBranch;
    assert_eq!(source.next().next().next(), BranchSource::NewBranch);
    assert_eq!(source.next().previous(), source);
    assert_eq!(AgentWizardKind::Operator.next(), AgentWizardKind::Researcher);
    assert_eq!(HarnessKind::Goose.cycle(1), HarnessKind::Pi);
    assert_eq!(HarnessKind::Pi.cycle(1), HarnessKind::Claude);
    assert_eq!(HarnessKind::Claude.cycle(-1), HarnessKind::Pi);
    assert_eq!(HarnessKind::Codex.cycle(7).cycle(-7), HarnessKind::Codex);
    assert_eq!(HarnessKind::Codex.cycle(-8), HarnessKind::Codex);
    assert_eq!(HarnessKind::Codex.cycle(i32::MIN), HarnessKind::Codex);
}

#[test]
fn directories_are_entered_and_left() {
    let mut app = new_app();
    app.start_wizard(
        WizardStart::Elsewhere {
            dir: "/home/user".to_string(),
            found: Some(vec![
                FoundEntry { name: "work".to_string(), is_dir: true, kind: DirKind::Plain },
                FoundEntry { name: ".hidden".to_string(), is_dir: true, kind: DirKind::Plain },
                FoundEntry { name: "file".to_string(), is_dir: false, kind: DirKind::Plain },
            ]),
        },
        0,
    );
    let picker = app.dir_picker.as_ref().unwrap();
    assert_eq!(picker.origin, DirPickerOrigin::NewTask);
    assert_eq!(picker.entries, vec!["work".to_string()]);
    let action = press(&mut app, KeyCode::Char('l'));
    assert!(matches!(&action, Action::ListDir(dir) if dir == "/home/user/work"));
    app.on_dir_listed("/home/user/work".to_string(), None);
    assert_eq!(app.dir_picker.as_ref().unwrap().current_dir, "/home/user/work");
    let action = press(&mut app, KeyCode::Char('h'));
    assert!(matches!(action, Action::ListDir(dir) if dir == "/home/user"));
    let action = press(&mut app, KeyCode::Char('s'));
    assert!(matches!(action, Action::SaveReposDir(dir) if dir == "/home/user/work"));
}

fn notification(id: &str, updated_at: &str, unread: bool) -> GithubNotification {
    GithubNotification {
        id: id.to_string(),
        title: format!("Title {id}"),
        reason: "mention".to_string(),
        subject_type: "Issue".to_string(),
        repo_full_name: "example/repo".to_string(),
        updated_at: updated_at.to_string(),
        browser_url: format!("https://example.com/{id}"),
        unread,
    }
}

#[test]
fn dismissed_notifications_come_back_with_news() {
    let mut app = new_app();
    let first = "2023-01-01T00:00:00Z";
    let second = "2023-02-01T00:00:00Z";
    app.apply_gh_notif_results(vec![notification("1", first, true)], 1_000, 1_000_000);
    assert_eq!(app.notifs.list.len(), 1);
    assert!(app.notifs.first_poll_done);
    app.view = View::Notifications;
    let action = press(&mut app, KeyCode::Char('d'));
    assert!(matches!(action, Action::DismissNotification(id) if id == "1"));
    assert!(app.notifs.list.is_empty());
    app.apply_gh_notif_results(vec![notification("1", first, true)], 1_000, 1_000_000);
    assert!(app.notifs.list.is_empty());
    app.apply_gh_notif_results(vec![notification("1", second, true)], 1_000, 1_000_000);
    assert_eq!(app.notifs.list.len(), 1);
    let mut ci = notification("2", first, true);
    ci.reason = "ci_activity".to_string();
    let cleanup = app.apply_gh_notif_results(vec![ci], 1_000, 1_000_000);
    assert!(app.notifs.list.is_empty());
    assert_eq!(cleanup.dismiss, vec!["2".to_string()]);
}

#[test]
fn notifications_are_opened_and_read() {
    let mut app = new_app();
    app.apply_gh_notif_results(
        vec![notification("1", "2023-01-01T00:00:00Z", true)],
        1_000,
        1_000_000,
    );
    app.view = View::Notifications;
    let action = press(&mut app, KeyCode::Char('o'));
    assert!(matches!(
        action,
        Action::OpenNotification { url, thread_id, mark_read: true }
            if url == "https://example.com/1" && thread_id == "1"
    ));
    assert!(!app.notifs.list[0].unread);
}

#[test]
fn items_of_the_user_are_opened() {
    let mut app = new_app();
    app.view = View::ShowPrs;
    app.apply_show_prs_results(ShowPrsData {
        issues: vec![GithubItem {
            number: 1,
            title: "Item".to_string(),
            repo_full_name: "example/repo".to_string(),
            state: "OPEN".to_string(),
            url: "https://example.com/1".to_string(),
            updated_at: String::new(),
            author: "someone".to_string(),
            is_draft: false,
        }],
        my_prs: Vec::new(),
        review_requests: Vec::new(),
    });
    let action = press(&mut app, KeyCode::Char('o'));
    assert!(matches!(action, Action::OpenUrl(url) if url == "https://example.com/1"));
    assert!(matches!(press(&mut app, KeyCode::Char('r')), Action::PollShowPrs));
    assert!(app.show_prs.poll_active);
}

#[test]
fn settings_are_adjusted_and_edited() {
    let mut app = new_app();
    app.view = View::Settings;
    assert!(matches!(press(&mut app, KeyCode::Char('l')), Action::SaveRetention(37)));
    assert!(matches!(press(&mut app, KeyCode::Char('h')), Action::SaveRetention(30)));
    app.settings.archive_retention_days = 7;
    assert!(matches!(press(&mut app, KeyCode::Char('h')), Action::Nothing));
    app.settings.archive_retention_days = 9;
    assert!(matches!(press(&mut app, KeyCode::Left), Action::SaveRetention(7)));
    assert_eq!(app.settings.archive_retention_days, 7);
    app.settings.archive_retention_days = 364;
    assert!(matches!(press(&mut app, KeyCode::Right), Action::SaveRetention(365)));
    assert_eq!(app.settings.archive_retention_days, 365);
    assert!(matches!(press(&mut app, KeyCode::Right), Action::Nothing));
    assert_eq!(app.settings.archive_retention_days, 365);
    assert!(matches!(app.cycle_harness(4), Action::Nothing));
    assert!(matches!(app.cycle_harness(-2), Action::SaveHarness(HarnessKind::Pi)));
    press(&mut app, KeyCode::Char('j'));
    assert!(matches!(
        press(&mut app, KeyCode::Char('l')),
        Action::SaveHarness(HarnessKind::Goose)
    ));
    app.on_harness_saved(HarnessKind::Goose, "goose".to_string(), Ok(()), 0);
    assert_eq!(
        status(&app),
        "Harness set to goose (applies to newly-spawned agents)"
    );
    press(&mut app, KeyCode::Char('j'));
    press(&mut app, KeyCode::Enter);
    assert!(app.settings.editing);
    type_text(&mut app, "tok");
    let action = press(&mut app, KeyCode::Enter);
    assert!(matches!(
        action,
        Action::SaveTelegram { token: Some(token), chat_id: None } if token == "tok"
    ));
    assert!(app.on_telegram_saved(Ok(()), 0));
    app.on_telegram_loaded(Some("stored".to_string()), None);
    let lines = app.settings.token_editor.widget.lines();
    assert_eq!(lines, &["stored".to_string()]);
}

#[test]
fn the_archive_is_searched_and_left() {
    let mut app = page();
    app.on_archive_listed(
        ArchiveKind::Tasks,
        vec![
            (task("repo", "alpha"), "first".to_string()),
            (task("repo", "beta"), "second".to_string()),
        ],
        Vec::new(),
    );
    assert_eq!(app.view, View::Archive);
    assert_eq!(app.archive_filtered_indices(), vec![0, 1]);
    type_text(&mut app, "SECOND");
    assert_eq!(app.archive_filtered_indices(), vec![1]);
    press(&mut app, KeyCode::Enter);
    assert_eq!(app.archive.preview, Some("second".to_string()));
    assert!(matches!(press(&mut app, KeyCode::Char('s')), Action::ToggleArchiveSaved(1)));
    assert!(matches!(
        press(&mut app, KeyCode::Char('d')),
        Action::DeleteArchivedTask(task) if task.meta.task_id() == "repo--beta"
    ));
    assert_eq!(app.archive.preview, None);
    assert_eq!(app.archive.tasks.len(), 1);
    press(&mut app, KeyCode::Esc);
    assert_eq!(app.view, View::TaskList);
}

#[test]
fn previews_show_and_edit_notes() {
    let mut app = page();
    app.detail.select_first_project_detail_row();
    app.detail.next_project_detail_row();
    app.load_preview(Some("the log".to_string()), Some("the notes".to_string()));
    app.view = View::Preview;
    assert_eq!(app.preview.logs_editor.lines_joined(), "the log");
    press(&mut app, KeyCode::Char('x'));
    assert_eq!(app.preview.logs_editor.lines_joined(), "the log");
    press(&mut app, KeyCode::Tab);
    press(&mut app, KeyCode::Char('i'));
    assert!(app.preview.notes_editing);
    type_text(&mut app, "!");
    let action = press(&mut app, KeyCode::Esc);
    let saved = match action {
        Action::SaveNotes(notes) => notes,
        _ => match press(&mut app, KeyCode::Esc) {
            Action::SaveNotes(notes) => notes,
            _ => panic!("notes should be saved"),
        },
    };
    assert!(saved.contains('!'));
    app.on_notes_saved(saved.clone(), 0);
    assert_eq!(app.preview.notes_content, saved);
    assert!(matches!(
        press(&mut app, KeyCode::Char('p')),
        Action::OpenUrl(_) | Action::Nothing
    ));
}

#[test]
fn sessions_are_chosen_and_attached_to() {
    let mut app = page();
    app.detail.select_first_project_detail_row();
    app.detail.next_project_detail_row();
    app.on_sessions_found(vec![
        ("repo".to_string(), "tmux-repo".to_string()),
        ("other".to_string(), "tmux-other".to_string()),
    ]);
    assert_eq!(app.view, View::SessionPicker);
    press(&mut app, KeyCode::Char('j'));
    assert!(matches!(press(&mut app, KeyCode::Enter), Action::Attach));
    assert!(matches!(
        app.take_attach_target(),
        Some(AttachTarget::Session(session)) if session == "tmux-other"
    ));
    assert!(matches!(
        app.take_attach_target(),
        Some(AttachTarget::Session(session)) if session == "tmux-repo"
    ));
}

#[test]
fn archiving_leaves_the_page_with_a_selection() {
    let mut app = page();
    app.detail.select_first_project_detail_row();
    app.detail.next_project_detail_row();
    press(&mut app, KeyCode::Char('d'));
    assert_eq!(app.view, View::DeleteConfirm);
    assert!(matches!(press(&mut app, KeyCode::Enter), Action::ArchiveSelected));
    let action = app.archive_task(true, Table::new(), 0);
    assert!(matches!(action, Action::ArchiveTask { saved: true, .. }));
    assert_eq!(status(&app), "Archiving & saving: repo--main");
    assert_eq!(app.detail.tasks.len(), 1);
    app.apply_archive_results("repo--main", Err("disk".to_string()), 0);
    assert_eq!(status(&app), "archive failed: repo--main: disk");
    assert!(app.detail.archive_in_progress.is_empty());
    app.apply_archive_results("repo--main", Ok(true), 0);
    assert_eq!(status(&app), "Archived & saved: repo--main");
}

#[test]
fn agents_are_respawned_with_a_result() {
    let mut app = new_app();
    app.list.projects = vec![project("alpha", false), project("beta", true)];
    press(&mut app, KeyCode::Char('e'));
    assert_eq!(app.view, View::RespawnConfirm);
    press(&mut app, KeyCode::Char('j'));
    match press(&mut app, KeyCode::Enter) {
        Action::RespawnEveryone(names) => assert_eq!(names, vec!["alpha", "beta"]),
        _ => panic!("respawn expected"),
    }
    assert_eq!(app.view, View::ProjectList);
    app.apply_respawn_results(Ok("cos+pms:3".to_string()), 0);
    assert_eq!(status(&app), "respawned chief-of-staff + 3 pms");
    assert_eq!(app.respawn.in_progress, None);
}

fn note(name: &str, is_dir: bool) -> NoteEntry {
    NoteEntry {
        name: name.to_string(),
        file_name: if is_dir { name.to_string() } else { format!("{name}.md") },
        is_dir,
    }
}

fn notes_app() -> App {
    let mut app = new_app();
    app.on_global_notes_opened(Ok(vec![note("dir", true), note("todo", false)]), 0);
    app
}

#[test]
fn notes_are_opened_edited_and_saved() {
    let mut app = notes_app();
    press(&mut app, KeyCode::Char('j'));
    let action = press(&mut app, KeyCode::Char('l'));
    assert!(matches!(action, Action::OpenNote { save: None, path } if path == "/notes/todo.md"));
    app.on_note_opened("/notes/todo.md".to_string(), Ok("text".to_string()), 0);
    let notes = app.notes_view.as_ref().unwrap();
    assert_eq!(notes.open_file, Some("/notes/todo.md".to_string()));
    press(&mut app, KeyCode::Char('x'));
    assert!(app.notes_view.as_ref().unwrap().modified);
    let action = press_with(&mut app, KeyCode::Char('s'), true);
    assert!(matches!(action, Action::SaveNote { path, content } if path == "/notes/todo.md" && content.len() == 3));
    app.on_note_saved();
    assert!(!app.notes_view.as_ref().unwrap().modified);
    assert_eq!(app.notes_view.as_ref().unwrap().save_current(), None);
}

#[test]
fn notes_are_made_deleted_and_moved() {
    let mut app = notes_app();
    press(&mut app, KeyCode::Char('d'));
    assert!(app.notes_view.as_ref().unwrap().confirm_delete);
    let action = press(&mut app, KeyCode::Char('y'));
    assert!(matches!(action, Action::DeleteNote(path) if path == "/notes/dir"));
    app.on_note_deleted(Err("busy".to_string()), None, 0);
    assert!(status(&app).contains("busy"));
    press(&mut app, KeyCode::Char('a'));
    type_text(&mut app, "new");
    let action = press(&mut app, KeyCode::Enter);
    assert!(matches!(action, Action::CreateNote(name) if name == "new"));
    press(&mut app, KeyCode::Char('x'));
    assert!(app.notes_view.as_ref().unwrap().cut_entry.is_some());
    let action = press(&mut app, KeyCode::Char('l'));
    assert!(matches!(action, Action::ListNotes));
    app.on_notes_listed(Some(Vec::new()));
    assert_eq!(app.notes_view.as_ref().unwrap().current_dir, "/notes/dir");
    let action = press(&mut app, KeyCode::Char('h'));
    assert!(matches!(action, Action::ListNotesAbove(Some(child)) if child == "dir"));
    app.on_notes_listed_above(Some(vec![note("todo", false), note("dir", true)]), Some("dir".to_string()));
    assert_eq!(app.notes_view.as_ref().unwrap().selected_index, 1);
    let action = press(&mut app, KeyCode::Char('h'));
    assert!(matches!(action, Action::Nothing));
}

#[test]
fn the_clipboard_is_read_for_the_focused_editor() {
    let mut app = notes_app();
    let paste = Event::Key(KeyPress {
        code: KeyCode::Char('p'),
        ctrl: false,
        alt: false,
        shift: false,
        released: false,
    });
    assert!(!app.reads_clipboard(&paste));
    app.on_note_opened("/notes/todo.md".to_string(), Ok("text".to_string()), 0);
    app.notes_view.as_mut().unwrap().focus = agman_tui::notes::NotesFocus::Editor;
    assert!(app.reads_clipboard(&paste));
    assert!(!app.reads_clipboard(&Event::Other));
    app.handle_event(paste, Some("AB".to_string()), 0, 0);
    let notes = app.notes_view.as_ref().unwrap();
    assert!(notes.editor.lines_joined().contains("AB"));
    assert_eq!(notes.editor.mode(), VimMode::Normal);
}

#[test]
fn keys_are_handed_to_editors() {
    let key = KeyPress {
        code: KeyCode::Char('x'),
        ctrl: true,
        alt: false,
        shift: false,
        released: false,
    };
    let input = key.input();
    assert_eq!(input.key, Key::Char('x'));
    assert!(input.ctrl);
    assert!(key.is_ctrl('x'));
    assert!(!key.is_ctrl('y'));
    let let_go = KeyPress { released: true, ..key };
    assert_eq!(let_go.input().key, Key::Null);
    assert!(!let_go.input().ctrl);
}

#[test]
fn notes_lead_back_to_where_they_were_opened() {
    let mut app = new_app();
    assert!(matches!(press(&mut app, KeyCode::Char('o')), Action::OpenGlobalNotes));
    app.on_global_notes_opened(Err("no directory".to_string()), 0);
    assert_eq!(status(&app), "Failed to open notes: no directory");
    assert_eq!(app.view, View::ProjectList);
    app.on_global_notes_opened(Ok(Vec::new()), 0);
    assert_eq!(app.notes_view.as_ref().unwrap().root_dir, "/notes");
    assert!(matches!(press(&mut app, KeyCode::Char('q')), Action::Nothing));
    assert_eq!(app.view, View::ProjectList);
    app.view = View::TaskList;
    app.detail.current_project = Some("alpha".to_string());
    let action = press(&mut app, KeyCode::Char('o'));
    assert!(matches!(action, Action::OpenProjectNotes(name) if name == "alpha"));
    app.on_project_notes_opened("/alpha".to_string(), Ok(Vec::new()), 0);
    assert_eq!(app.view, View::Notes);
    assert_eq!(app.notes_view.as_ref().unwrap().root_dir, "/alpha");
    press(&mut app, KeyCode::Esc);
    assert_eq!(app.view, View::TaskList);
    assert!(app.notes_view.is_none());
}

#[test]
fn the_preview_starts_empty() {
    let app = new_app();
    assert!(app.preview.logs_editor.is_read_only());
    assert!(!app.preview.notes_editor.is_read_only());
    assert_eq!(app.preview.notes_editor.lines_joined(), "");
}

fn window(session: &str, activity: i64, shell: bool) -> TmuxWindowActivity {
    TmuxWindowActivity {
        session_name: session.to_string(),
        window_activity: Some(activity),
        pane_current_command: "codex".to_string(),
        pane_runs_shell: shell,
        pane_dead: false,
    }
}

#[test]
fn snapshots_count_tasks_and_agents() {
    let mut orphan = task("repo", "loose");
    orphan.meta.project = None;
    let mut archived = agent("gone");
    archived.meta.status = AgentStatus::Archived;
    let snapshot = build_project_refresh_snapshot(ProjectSources {
        projects: Ok(vec![project("beta", true), project("alpha", false)]),
        tasks: vec![task("repo", "main"), task("repo", "dev"), orphan],
        agents: Ok(vec![agent("busy"), agent("lazy"), archived]),
        windows: Ok(vec![
            window("session-busy", 999, false),
            window("session-lazy", 999, true),
        ]),
        observed_at: 50 * SECOND,
        now_epoch_secs: Some(1_000),
    });
    let names: Vec<&str> = snapshot.projects.iter().map(|p| p.meta.name.as_str()).collect();
    assert_eq!(names, vec!["alpha", "beta"]);
    assert_eq!(snapshot.project_task_counts.get("alpha"), Some(&2));
    assert_eq!(snapshot.unassigned_task_count, 1);
    assert_eq!(snapshot.project_agent_counts.get("alpha"), Some(&2));
    assert_eq!(snapshot.project_active_agent_counts.get("alpha"), Some(&1));
    let failed = build_project_refresh_snapshot(ProjectSources {
        projects: Err("no disk".to_string()),
        tasks: Vec::new(),
        agents: Err("no disk".to_string()),
        windows: Ok(Vec::new()),
        observed_at: 0,
        now_epoch_secs: None,
    });
    assert_eq!(failed.project_list_error, Some("no disk".to_string()));
    assert_eq!(failed.agent_list_error, Some("no disk".to_string()));
    assert!(sort_held_last(Vec::new()).is_empty());
    assert_eq!(unix_epoch_secs(Some(7)), Some(7));
    assert_eq!(unix_epoch_secs(None), None);
    assert_eq!(unix_epoch_secs(Some(u64::MAX)), None);
}

#[test]
fn agents_are_resumed_before_they_are_opened() {
    let mut app = new_app();
    let bob = agent("bob");
    let session = bob.meta.session_name.clone();
    let action = app.on_agent_session_checked(bob.clone(), true);
    assert!(matches!(action, Action::AttachAgent(name) if name == session));
    let action = app.on_agent_session_checked(bob.clone(), false);
    assert!(matches!(action, Action::ResumeAgent(agent) if agent.meta.name == "bob"));
    let action = app.on_agent_resumed(&bob, Ok(()), 0);
    assert!(matches!(action, Action::RefreshAndAttach(name) if name == session));
    let action = app.on_agent_resumed(&bob, Err("gone".to_string()), 0);
    assert!(matches!(action, Action::Nothing));
    assert_eq!(status(&app), "Failed to resume: gone");
    app.on_agent_attached(Ok(()), 0);
    assert!(app.popup_open);
    assert!(matches!(app.on_session_ensured(true), Action::Attach));
    assert!(matches!(app.on_session_ensured(false), Action::Nothing));
}
