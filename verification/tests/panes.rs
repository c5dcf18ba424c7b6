use agman_tui::activity::AgentActivitySample;
use agman_tui::app::{App, Config, View};
use agman_tui::app_events::Startup;
use agman_tui::archive::ArchiveKind;
use agman_tui::clock::{clock_title, Keybase};
use agman_tui::detail::TaskLoad;
use agman_tui::dialogs::{output_pane, project_delete_confirm};
use agman_tui::github_pane::{humanize_reason, short_subject_type};
use agman_tui::layout::{
    centered_rect, editor_area, last_line, split, Area, Background, Limit, Overlay,
};
use agman_tui::model::{
    AgentAttachment, AgentKind, AgentMeta, AgentRecord, AgentStatus, GithubItem,
    GithubNotification, HarnessKind, LinkedPr, NoteEntry, Project, ProjectMeta, ShowPrsData, Task,
    TaskMeta,
};
use agman_tui::notes::NotesView;
use agman_tui::picker::{DirKind, DirPickerOrigin, DirectoryPicker};
use agman_tui::project_pane::ProjectListBody;
use agman_tui::settings::one_line_editor;
use agman_tui::settings_pane::{is_maskable, mask};
use agman_tui::status_bar::{telegram_health_spans, ProjectPaneFocus, TelegramHealth};
use agman_tui::style::{colored, plain, Color, Item, Line};
use agman_tui::table::Table;
use agman_tui::wizard::{
    AgentWizard, AgentWizardKind, AgentWizardStep, BranchSource, NewTaskWizard, ProjectPicker,
    ProjectPickerAction, ProjectWizard, WizardStep,
};
use agman_tui::wizard_pane::BranchContent;

const SECOND: i64 = 1_000_000_000;
const NOW: i64 = 1_700_000_000 * SECOND;

fn new_app() -> App {
    let config = Config {
        repos_dir: "/home/user/repos".to_string(),
        notes_dir: "/home/user/notes".to_string(),
        harness: HarnessKind::Goose,
        harness_name: "goose".to_string(),
    };
    let start = Startup {
        tasks: Vec::new(),
        token: Some("1234:secret".to_string()),
        chat_id: None,
        archive_retention_days: 30,
        dismissed: Table::new(),
        bot_running: true,
        now: 0,
        now_epoch: 0,
        dismissal_retention: 0,
    };
    App::new(config, start).0
}

fn project(name: &str, description: &str, held: bool) -> Project {
    Project {
        meta: ProjectMeta {
            name: name.to_string(),
            description: description.to_string(),
            held,
        },
    }
}

fn task(repo: &str, branch: &str) -> Task {
    Task {
        meta: TaskMeta {
            id: format!("{repo}--{branch}"),
            name: repo.to_string(),
            branch_name: branch.to_string(),
            project: Some("alpha".to_string()),
            linked_pr: None,
            repos: Vec::new(),
            multi_repo: false,
            parent_dir: None,
            saved: false,
            archived_at: None,
        },
    }
}

fn agent(name: &str, kind: AgentKind) -> AgentRecord {
    AgentRecord {
        meta: AgentMeta {
            project: "alpha".to_string(),
            name: name.to_string(),
            kind,
            status: AgentStatus::Active,
            attachment: AgentAttachment::Unattached,
            description: String::new(),
            created_at: NOW - 7_200 * SECOND,
            updated_at: NOW - 7_200 * SECOND,
            session_name: format!("session-{name}"),
        },
    }
}

fn text(line: &Line) -> String {
    line.spans.iter().map(|span| span.content.as_str()).collect()
}

fn texts(items: &[Item]) -> Vec<String> {
    items.iter().map(|item| text(&item.lines[0])).collect()
}

/// A page of a project with a task, an agent for it, and an agent without one.
fn page() -> App {
    let mut app = new_app();
    app.detail.current_project = Some("alpha".to_string());
    app.view = View::TaskList;
    let mut first = task("repo", "main");
    first.meta.linked_pr = Some(LinkedPr {
        number: 42,
        url: "https://github.com/example/repo/pull/42".to_string(),
        owned: false,
        author: None,
    });
    let second = task("other", "a-rather-long-branch-name");
    let mut attached = Table::new();
    attached.insert(first.meta.task_id(), vec![agent("helper", AgentKind::Engineer)]);
    app.refresh_tasks_for_project(TaskLoad {
        tasks: vec![first, second],
        attached,
    });
    app.refresh_agents(vec![agent("scout", AgentKind::Researcher)], Ok(Vec::new()), 0, Some(0));
    app
}

#[test]
fn project_list_hints_depend_on_the_selection() {
    let mut app = new_app();
    app.list.projects.push(project("alpha", "", false));
    app.list.unassigned_task_count = 2;
    let bar = text(&app.status_bar(TelegramHealth::Disabled));
    assert_eq!(
        bar,
        "j/k nav  enter open  n new  c CoS chat  d delete  h hold  e respawn  o notes  \
         i inbox(...)  p prs  , settings  "
    );
    app.list.selected_project_index = 1;
    app.notifs.first_poll_done = true;
    let bar = text(&app.status_bar(TelegramHealth::Disabled));
    assert_eq!(
        bar,
        "j/k nav  enter open  n new  c CoS chat  m migrate  e respawn  o notes  i inbox  p prs  \
         , settings  "
    );
    app.list.selected_project_index = 0;
    app.list.projects[0].meta.held = true;
    assert!(text(&app.status_bar(TelegramHealth::Disabled)).contains("h unhold  "));
}

#[test]
fn status_bar_shows_message_health_and_stalls() {
    let mut app = new_app();
    app.view = View::ProjectDeleteConfirm;
    app.set_status("Saved".to_string(), 0);
    let line = app.status_bar(TelegramHealth::Healthy);
    assert_eq!(text(&line), "Enter confirm  Esc cancel │ Saved");
    assert_eq!(line.spans[0].style, colored(Color::LightRed));
    assert_eq!(line.spans[1].style, colored(Color::DarkGray));
    assert_eq!(line.spans[5].style, colored(Color::LightYellow));

    app.inbox.readings.stuck_skip_counts.insert("alpha".to_string(), 1_000);
    app.inbox.readings.stuck_skip_counts.insert("beta".to_string(), 0);
    let line = app.status_bar(TelegramHealth::Healthy);
    assert_eq!(text(&line), "⚠ 1 stalled inbox(es)  Enter confirm  Esc cancel │ Saved");

    app.view = View::ProjectList;
    let line = app.status_bar(TelegramHealth::Stale);
    assert!(text(&line).ends_with(" │ Saved │ tg ●"));
    assert_eq!(line.spans.last().unwrap().style, colored(Color::LightYellow));
    assert!(telegram_health_spans(TelegramHealth::Disabled).is_empty());
    assert_eq!(
        telegram_health_spans(TelegramHealth::NeverPolled)[1].style,
        colored(Color::LightRed)
    );
}

#[test]
fn page_hints_depend_on_the_focus() {
    let mut app = page();
    app.detail.select_first_project_detail_row();
    assert_eq!(app.detail.pane_focus(), ProjectPaneFocus::Agents);
    assert_eq!(
        text(&app.status_bar(TelegramHealth::Disabled)),
        "Tab pane  j/k nav  n new  c PM chat  enter attach  d archive  z archived  e respawn  \
         q back"
    );
    app.detail.next_project_detail_row();
    assert_eq!(app.detail.pane_focus(), ProjectPaneFocus::Tasks);
    assert_eq!(
        text(&app.status_bar(TelegramHealth::Disabled)),
        "Tab pane  j/k nav  n new  c PM chat  o open pr  r rerun  d archive  e respawn  \
         z archived  q back"
    );
    app.view = View::Preview;
    assert_eq!(
        text(&app.status_bar(TelegramHealth::Disabled)),
        "Tab pane  o open pr  r rerun  Enter attach  q back"
    );
    app.detail.current_project = Some("(unassigned)".to_string());
    app.view = View::TaskList;
    assert!(!text(&app.status_bar(TelegramHealth::Disabled)).contains("respawn"));
}

#[test]
fn every_view_has_its_hints() {
    let mut app = new_app();
    let hints = [
        (View::DeleteConfirm, "Enter archive  Esc/q cancel"),
        (View::SessionPicker, "j/k nav  Enter select  Esc cancel"),
        (
            View::DirectoryPicker,
            "j/k nav  l/Enter open  h up  s select  Esc cancel",
        ),
        (View::Notifications, "j/k nav  d done  o open  q back"),
        (View::ShowPrs, "j/k nav  o open  r refresh  q back"),
        (View::ProjectWizard, "Tab switch field  Ctrl+S create  Esc cancel"),
        (View::ProjectPicker, "j/k nav  Enter select  Esc cancel"),
        (View::AgentWizard, "Tab next  Ctrl+S create  Esc cancel"),
        (View::RespawnConfirm, ""),
        (View::NewTaskWizard, ""),
        (View::Settings, "h/l adjust  j/k nav  q back"),
        (View::Archive, "↑↓ navigate  Enter preview  Esc back"),
        (
            View::Notes,
            "j/k nav  J/K reorder  l open  h back  a new  A dir  d del  x cut  p paste  r rename  \
             Tab editor  q back",
        ),
    ];
    for (view, expected) in hints {
        app.view = view;
        assert_eq!(text(&app.status_bar(TelegramHealth::Healthy)), expected);
    }
    app.view = View::Settings;
    app.settings.selected = 2;
    assert_eq!(
        text(&app.status_bar(TelegramHealth::Healthy)),
        "h/l adjust  j/k nav  Enter edit  q back"
    );
    app.view = View::Archive;
    app.archive.preview = Some("text".to_string());
    assert_eq!(
        text(&app.status_bar(TelegramHealth::Healthy)),
        "j/k scroll  s save  n new-from  d delete  Esc close"
    );
    app.archive.kind = ArchiveKind::Agents;
    assert_eq!(
        text(&app.status_bar(TelegramHealth::Healthy)),
        "j/k scroll  n restore  d delete  Esc close"
    );
}

#[test]
fn project_rows_follow_the_order_of_navigation() {
    let mut app = new_app();
    app.list.projects.push(project("alpha", "First", false));
    app.list.projects.push(project("beta", "", true));
    app.list.project_task_counts.insert("alpha".to_string(), 3);
    app.list.project_agent_counts.insert("alpha".to_string(), 2);
    app.list.project_active_agent_counts.insert("alpha".to_string(), 1);
    app.list.unassigned_task_count = 4;
    app.list.selected_project_index = 2;
    let pane = app.project_list_pane(60);
    assert_eq!(text(&pane.title), " agman (2 projects) ");
    let ProjectListBody::Rows { banner, header, items } = pane.body else {
        panic!("rows expected");
    };
    assert!(banner.is_none());
    assert_eq!(
        text(&header),
        "    PROJECT            TASKS        AGENTS    DESCRIPTION"
    );
    assert_eq!(
        texts(&items),
        vec![
            "    alpha                3/3           1/2    First".to_string(),
            format!("── On Hold (1) {}", "─".repeat(41)),
            String::new(),
            "    beta                 0/0           0/0    No description".to_string(),
            "  > (unassigned)         4/4              ".to_string(),
        ]
    );
    assert_eq!(items[4].style, plain().bg(Color::Rgb(40, 40, 60)));
    assert_eq!(items[0].style, plain());
}

#[test]
fn stalled_projects_are_marked() {
    let mut app = new_app();
    app.list.projects.push(project("alpha", "A description that is too long", false));
    app.inbox.readings.stuck_skip_counts.insert("alpha".to_string(), 1_000);
    app.inbox
        .readings
        .stuck_skip_counts
        .insert("chief-of-staff".to_string(), 1_000);
    let ProjectListBody::Rows { banner, items, .. } = app.project_list_pane(55).body else {
        panic!("rows expected");
    };
    assert_eq!(text(&banner.unwrap()), "⚠ CoS stalled");
    assert_eq!(
        text(&items[0].lines[0]),
        "  > alpha              0/0           0/0    A descript…  ⚠ stalled"
    );
    let ProjectListBody::Empty(message) = new_app().project_list_pane(50).body else {
        panic!("nothing to list");
    };
    assert!(message.starts_with("No projects."));
}

#[test]
fn tasks_are_fitted_into_columns() {
    let mut app = page();
    app.detail.select_first_project_detail_row();
    app.detail.next_project_detail_row();
    let updated = vec!["1h ago".to_string(), "just now".to_string()];
    assert!(app.tasks_pane_fits(80));
    let pane = app.tasks_pane(80, &updated, 0, NOW);
    assert_eq!(text(&pane.title), " Tasks (2 tasks) ");
    assert_eq!(pane.border, Color::LightCyan);
    assert_eq!(pane.empty, None);
    assert_eq!(
        text(&pane.header.unwrap()),
        "     REPO     BRANCH                     PR                           UPDATED"
    );
    assert_eq!(
        texts(&pane.items),
        vec![
            "     repo     main                       #   42 (ext)                 1h ago",
            "       ○ engineer helper                     idle                         2h ago",
            "     other    a-rather-long-branch-n…                                 just now",
        ]
    );
    assert_eq!(pane.items[0].style, plain().bg(Color::Rgb(40, 40, 50)));
    assert_eq!(pane.items[1].style, plain());

    app.detail.tasks.clear();
    let pane = app.tasks_pane(80, &Vec::new(), 0, NOW);
    assert_eq!(pane.empty, Some("No tasks".to_string()));
}

#[test]
fn names_that_would_be_split_are_noticed() {
    let mut app = page();
    let mut odd = task("repo", "main");
    odd.meta.name = "abcdefghijklmnopqré-and-more".to_string();
    app.detail.tasks = vec![odd];
    assert!(!app.tasks_pane_fits(80));
    assert!(app.agents_pane_fits(80));
    app.detail.agents[0].meta.name = "éééééééé".to_string();
    assert!(!app.agents_pane_fits(49));
}

#[test]
fn working_agents_are_marked() {
    let mut app = page();
    app.list.agent_activity.insert(
        "session-scout".to_string(),
        AgentActivitySample {
            last_tmux_activity_epoch: Some(1),
            last_observed_work_at: Some(0),
            foreground_command: "codex".to_string(),
            foreground_is_shell: false,
            pane_dead: false,
            query_ok: true,
        },
    );
    app.detail.select_first_project_detail_row();
    let pane = app.agents_pane(80, SECOND, NOW);
    assert_eq!(text(&pane.title), " Agents (1 agents) ");
    assert_eq!(
        text(&pane.header.unwrap()),
        "    NAME    TYPE         STATUS       CREATED   "
    );
    assert_eq!(
        texts(&pane.items),
        vec![" ●  scout   researcher   working      2h ago    "]
    );
    assert_eq!(pane.items[0].lines[0].spans[1].style, colored(Color::LightGreen));
    assert_eq!(pane.items[0].style, plain().bg(Color::Rgb(40, 40, 50)));

    app.detail.agents.clear();
    let pane = app.agents_pane(80, SECOND, NOW);
    assert_eq!(pane.empty, Some("No agents".to_string()));
    assert!(pane.header.is_none());
}

#[test]
fn the_clock_stands_beside_what_is_unread() {
    let mut app = new_app();
    let quiet = Keybase {
        available: false,
        first_poll_done: false,
        dm_unread_count: 0,
        channel_unread_count: 0,
    };
    assert_eq!(text(&clock_title(&app.notifs, quiet, "09:30")), " GITHUB ...  09:30 ");
    app.notifs.first_poll_done = true;
    assert_eq!(text(&clock_title(&app.notifs, quiet, "09:30")), " 09:30 ");
    app.notifs.list.push(notification("1", true));
    app.notifs.list.push(notification("2", false));
    let waiting = Keybase { available: true, ..quiet };
    assert_eq!(
        text(&clock_title(&app.notifs, waiting, "09:30")),
        " GITHUB 1  KEYBASE ...  09:30 "
    );
    let channel = Keybase {
        first_poll_done: true,
        channel_unread_count: 5,
        ..waiting
    };
    assert_eq!(
        text(&clock_title(&app.notifs, channel, "09:30")),
        " GITHUB 1  KEYBASE 5  09:30 "
    );
    let direct = Keybase { dm_unread_count: 2, ..channel };
    assert_eq!(
        text(&clock_title(&app.notifs, direct, "09:30")),
        " GITHUB 1  KEYBASE DM 2  09:30 "
    );
}

fn notification(id: &str, unread: bool) -> GithubNotification {
    GithubNotification {
        id: id.to_string(),
        title: format!("Title {id}"),
        reason: "review_requested".to_string(),
        subject_type: "PullRequest".to_string(),
        repo_full_name: "example/repo".to_string(),
        updated_at: "2023-11-14T20:13:20Z".to_string(),
        browser_url: "https://example.com".to_string(),
        unread,
    }
}

fn item(number: u64, draft: bool) -> GithubItem {
    GithubItem {
        number,
        title: format!("Item {number}"),
        repo_full_name: "example/repo".to_string(),
        state: "OPEN".to_string(),
        url: "https://example.com".to_string(),
        updated_at: "not a date".to_string(),
        author: "someone".to_string(),
        is_draft: draft,
    }
}

#[test]
fn notifications_tell_why_and_when() {
    let mut app = new_app();
    assert_eq!(
        app.notifs.pane(NOW).empty,
        Some("Fetching notifications...".to_string())
    );
    app.notifs.first_poll_done = true;
    assert_eq!(app.notifs.pane(NOW).empty, Some("No notifications".to_string()));
    app.notifs.list.push(notification("1", true));
    app.notifs.list.push(notification("2", false));
    let pane = app.notifs.pane(NOW);
    assert_eq!(pane.title, " Notifications (2) ");
    assert_eq!(texts(&pane.items), vec![" ● Title 1", "   Title 2"]);
    assert_eq!(
        text(&pane.items[0].lines[1]),
        "   example/repo · PR · Review requested · 2h ago"
    );
    assert_eq!(pane.items[0].style, plain().bg(Color::Rgb(40, 40, 50)));
    assert_eq!(humanize_reason("mention"), "Mentioned");
    assert_eq!(humanize_reason("something_else"), "something_else");
    assert_eq!(short_subject_type("Discussion"), "Disc");
    assert_eq!(short_subject_type("CheckSuite"), "CheckSuite");
}

#[test]
fn items_stand_in_sections() {
    let mut app = new_app();
    assert_eq!(app.show_prs.pane(40, NOW).empty, Some("Fetching...".to_string()));
    app.apply_show_prs_results(ShowPrsData {
        issues: vec![item(1, false)],
        my_prs: vec![item(2, true)],
        review_requests: vec![item(3, false)],
    });
    let pane = app.show_prs.pane(40, NOW);
    assert_eq!(pane.title, " Issues & PRs (3) ");
    assert_eq!(
        texts(&pane.items),
        vec![
            format!("── My Issues (1) {}", "─".repeat(17)),
            "  #1  Item 1".to_string(),
            format!("── My PRs (1) {}", "─".repeat(20)),
            "  #2  Item 2 [draft]".to_string(),
            format!("── Review Requests (1) {}", "─".repeat(11)),
            "  #3  Item 3".to_string(),
        ]
    );
    assert_eq!(text(&pane.items[1].lines[1]), "   example/repo · someone");
    app.show_prs.selected = 1;
    assert_eq!(app.show_prs.highlighted_entry(), Some(3));
    app.show_prs.selected = 2;
    assert_eq!(app.show_prs.highlighted_entry(), Some(5));
    app.show_prs.selected = 7;
    assert_eq!(app.show_prs.highlighted_entry(), None);
}

#[test]
fn secrets_are_masked() {
    assert_eq!(mask(""), "(not set)");
    assert_eq!(mask("abcd"), "abcd");
    assert_eq!(mask("abcdef"), "••cdef");
    assert!(is_maskable("abcdef"));
    assert!(!is_maskable("aéabc"));
}

#[test]
fn settings_show_their_values() {
    let mut app = new_app();
    let items = app.settings.items(&app.config.harness_name);
    assert_eq!(
        texts(&items),
        vec![
            "  Archive retention   ◀  30 days ▶    (h/l to adjust, 7–365 days)",
            "  Harness             ◀  goose  ▶    (h/l to switch — applies to newly-spawned \
             agents only)",
            "  Telegram bot token  •••••••cret    (Enter to edit)",
            "  Telegram chat ID    (not set)    (Enter to edit)",
        ]
    );
    assert!(app.settings.token_is_maskable());
    assert_eq!(app.settings.edited(), None);
    app.settings.selected = 3;
    app.settings.editing = true;
    let items = app.settings.items("goose");
    assert_eq!(texts(&items)[3], "  Telegram chat ID    ");
    assert_eq!(app.settings.edited(), Some(3));
}

#[test]
fn archived_entries_are_searched() {
    let mut app = new_app();
    let mut old = task("repo", "fix-bug");
    old.meta.archived_at = Some(NOW - 3 * 86_400 * SECOND);
    old.meta.saved = true;
    app.archive.open_archive(
        ArchiveKind::Tasks,
        vec![
            (old, "line one\nabout a Fix".to_string()),
            (task("repo", "other"), "text".to_string()),
        ],
        Vec::new(),
    );
    assert_eq!(app.archive.list_title(), " Task Archive (2) ");
    app.archive.search = one_line_editor(Some("FIX".to_string()));
    assert_eq!(app.archive.list_title(), " Task Archive (1) ");
    assert_eq!(app.archive.search_title(), " Task Archive Search ");
    let items = app.archive.entry_items(NOW);
    assert_eq!(texts(&items), vec!["repo--fix-bug  3d ago  [SAVED]"]);
    let contents: Vec<&str> = items[0].lines[0]
        .spans
        .iter()
        .map(|span| span.content.as_str())
        .collect();
    assert_eq!(contents, vec!["repo--", "fix", "-bug", "  3d ago", "  [SAVED]"]);
    assert_eq!(items[0].lines[0].spans[1].style, colored(Color::Yellow).bold());

    assert_eq!(app.archive.preview_title(), " repo--fix-bug [SAVED] ");
    let lines = app.archive.preview_lines("line one\nabout a Fix");
    assert_eq!(lines.len(), 2);
    assert_eq!(lines[1].spans[1].content, "Fix");

    app.archive.selected = 5;
    assert_eq!(app.archive.highlighted_entry(), Some(0));
    assert_eq!(app.archive.selected, 0);
    app.archive.scroll = 9;
    app.archive.clamp_scroll(10, 7);
    assert_eq!(app.archive.scroll, 5);
    app.archive.clamp_scroll(10, 20);
    assert_eq!(app.archive.scroll, 0);
}

#[test]
fn archived_agents_tell_kind_and_project() {
    let mut app = new_app();
    app.archive.open_archive(
        ArchiveKind::Agents,
        Vec::new(),
        vec![(agent("scout", AgentKind::Operator), "log".to_string())],
    );
    let items = app.archive.entry_items(NOW);
    assert_eq!(texts(&items), vec!["scout  operator  alpha  2h ago"]);
    assert_eq!(app.archive.preview_title(), " operator alpha--scout ");
    app.archive.search = one_line_editor(Some("nothing".to_string()));
    assert_eq!(app.archive.preview_title(), " AgentRecord Archive ");
    assert_eq!(app.archive.highlighted_entry(), None);
}

fn note(name: &str, is_dir: bool) -> NoteEntry {
    NoteEntry {
        name: name.to_string(),
        file_name: if is_dir { name.to_string() } else { format!("{name}.md") },
        is_dir,
    }
}

#[test]
fn notes_are_listed_with_their_state() {
    let mut notes = NotesView::new(
        "/notes".to_string(),
        vec![note("ideas", true), note("todo", false)],
    );
    let pane = notes.explorer();
    assert_eq!(pane.title, " Notes ");
    assert_eq!(pane.border, Color::LightCyan);
    assert_eq!(texts(&pane.items), vec!["  ideas/", "  todo"]);
    assert_eq!(
        pane.items[0].style,
        plain().bg(Color::Rgb(40, 40, 50)).fg(Color::LightCyan)
    );
    notes.cut_entry = Some(("/notes".to_string(), "todo.md".to_string()));
    assert_eq!(
        notes.explorer().items[1].style,
        colored(Color::DarkGray).italic()
    );
    notes.confirm_delete = true;
    let pane = notes.explorer();
    assert_eq!(pane.footer.unwrap().0, " Delete ideas? y/n ");
    notes.confirm_delete = false;
    notes.create_input = Some((one_line_editor(Some("new".to_string())), true));
    assert_eq!(notes.explorer().footer.unwrap().0, "New dir: new");
    notes.create_input = None;
    notes.rename_input = Some(one_line_editor(Some("plans".to_string())));
    assert_eq!(texts(&notes.explorer().items), vec!["  plans", "  todo"]);
    notes.rename_input = None;
    notes.current_dir = "/notes/ideas".to_string();
    notes.entries.clear();
    let pane = notes.explorer();
    assert_eq!(pane.title, " Notes/ideas ");
    assert_eq!(pane.empty, Some("  (empty)".to_string()));
}

#[test]
fn the_open_note_is_named() {
    let mut notes = NotesView::new("/notes".to_string(), Vec::new());
    let pane = notes.editor_pane();
    assert_eq!(pane.title, " No file open ");
    assert_eq!(pane.mode, None);
    notes.open_file("/notes/todo.md".to_string(), "text");
    notes.modified = true;
    let pane = notes.editor_pane();
    assert_eq!(pane.title, " todo [+] ");
    assert_eq!(pane.mode, Some(" [NORMAL] ".to_string()));
    assert_eq!(pane.border, Color::DarkGray);
}

#[test]
fn confirmations_name_what_they_are_about() {
    let mut app = page();
    app.detail.select_first_project_detail_row();
    let lines = app.detail.delete_confirm();
    assert_eq!(text(&lines[1]), "  Archive this agent?");
    assert_eq!(text(&lines[3]), "  alpha--scout");
    app.detail.next_project_detail_row();
    let lines = app.detail.delete_confirm();
    assert_eq!(lines.len(), 9);
    assert_eq!(text(&lines[1]), format!("  Archive this {}?", "task"));
    assert_eq!(text(&lines[3]), "  repo--main");
    assert_eq!(text(&app.detail.session_header()), "Task: repo--main");
    assert_eq!(app.detail.page_header(), "alpha");

    let lines = project_delete_confirm(&Some("alpha".to_string()));
    assert_eq!(text(&lines[1]), "  Delete project 'alpha'?");
    let lines = project_delete_confirm(&None);
    assert_eq!(text(&lines[1]), "  Delete project 'unknown'?");

    app.respawn.confirm("alpha".to_string(), false, View::TaskList);
    let (title, lines) = app.respawn.confirm_dialog();
    assert_eq!(title, " Respawn PM ");
    assert_eq!(text(&lines[1]), "  Respawn PM for 'alpha'?");
    assert_eq!(text(&lines[3]), "▸ Respawn");
    assert_eq!(text(&lines[5]), "  Cancel");
    app.respawn.confirm("chief-of-staff".to_string(), true, View::ProjectList);
    let (title, lines) = app.respawn.confirm_dialog();
    assert_eq!(title, " Respawn Chief of Staff ");
    assert_eq!(text(&lines[3]), "  CoS + all PMs");
}

#[test]
fn failures_stand_out_in_the_output() {
    let lines = output_pane(&vec![
        "all well".to_string(),
        "An ERROR occurred".to_string(),
        "[stderr] x".to_string(),
    ]);
    assert_eq!(lines[0].spans[0].style, colored(Color::Gray));
    assert_eq!(lines[1].spans[0].style, colored(Color::LightRed));
    assert_eq!(lines[2].spans[0].style, colored(Color::LightRed));
}

#[test]
fn panels_tell_their_mode_in_focus() {
    let app = new_app();
    let logs = app.preview.logs_panel();
    assert_eq!(logs.title, " Logs [NORMAL] ");
    assert_eq!(logs.border, Color::LightCyan);
    let notes = app.preview.notes_panel();
    assert_eq!(notes.title, " Notes ");
    assert_eq!(notes.border, Color::DarkGray);
}

#[test]
fn pickers_mark_the_selected_entry() {
    let picker = ProjectPicker {
        projects: vec!["alpha".to_string(), "beta".to_string()],
        selected: 1,
        action: ProjectPickerAction::MigrateAllUnassigned,
    };
    let items = picker.items();
    assert_eq!(texts(&items), vec!["  alpha", "  beta"]);
    assert_eq!(
        items[1].lines[0].spans[0].style,
        colored(Color::White).bg(Color::Rgb(40, 40, 60)).bold()
    );
    let mut app = new_app();
    app.sessions.sessions = vec![
        ("repo".to_string(), "one".to_string()),
        ("other".to_string(), "two".to_string()),
    ];
    assert_eq!(texts(&app.sessions.items()), vec!["▸ repo", "  other"]);
}

#[test]
fn directories_are_told_apart() {
    let mut picker = DirectoryPicker::new_with_favorites(
        "/home/user/repos".to_string(),
        DirPickerOrigin::RepoSelect,
        vec![("repo".to_string(), 4, true)],
        "/home/user/repos".to_string(),
        None,
    );
    picker.entries = vec!["repo".to_string(), "multi".to_string(), "plain".to_string()];
    picker.entry_kinds = vec![DirKind::GitRepo, DirKind::MultiRepoParent, DirKind::Plain];
    picker.selected_index = 2;
    assert_eq!(picker.title(), " Select Repository ");
    assert_eq!(text(&picker.path_line()), "Path: /home/user/repos");
    assert!(picker.help().contains("open/select"));
    assert_eq!(
        texts(&picker.row_items()),
        vec![
            format!("── Favourites (1) {}", "─".repeat(40)),
            "  repo  [git]  (4 tasks)".to_string(),
            String::new(),
            "  repo/  [git]".to_string(),
            "> multi/  [multi]".to_string(),
            "  plain/".to_string(),
        ]
    );
    let mut picker = DirectoryPicker::new(
        "/home".to_string(),
        DirPickerOrigin::NewTask,
        None,
    );
    picker.entries = vec!["user".to_string()];
    assert_eq!(picker.title(), " Select Repos Directory ");
    assert_eq!(texts(&picker.row_items()), vec!["> user/"]);
}

fn wizard() -> NewTaskWizard {
    NewTaskWizard::create_wizard_from_picker(
        "repo".to_string(),
        "/home/user/repos/repo".to_string(),
        false,
        "origin/main",
        vec!["main".to_string(), "dev".to_string()],
        vec![("wt".to_string(), "/worktrees/wt".to_string())],
    )
}

#[test]
fn tabs_show_what_can_be_chosen() {
    let mut wizard = wizard();
    assert_eq!(wizard.title(), " New Task: repo [1/2] Branch / Worktree ");
    let tabs = wizard.branch_tabs();
    assert_eq!(text(&tabs.tabs), " New Branch  Existing Branch  Existing Worktree ");
    assert_eq!(tabs.selected, 0);
    assert_eq!(tabs.limit, Limit::Length(7));
    let BranchContent::Fields { branch, base } = tabs.content else {
        panic!("fields expected");
    };
    assert_eq!(branch.border, Color::LightGreen);
    assert_eq!(base.border, Color::DarkGray);

    wizard.branch_source = BranchSource::ExistingBranch;
    let tabs = wizard.branch_tabs();
    assert_eq!(tabs.limit, Limit::Min(3));
    let BranchContent::Choices { items, .. } = tabs.content else {
        panic!("choices expected");
    };
    assert_eq!(texts(&items), vec!["▸ main", "  dev"]);

    wizard.branch_source = BranchSource::ExistingWorktree;
    let BranchContent::Choices { items, .. } = wizard.branch_tabs().content else {
        panic!("choices expected");
    };
    assert_eq!(texts(&items), vec!["▸ wt  (/worktrees/wt)"]);

    wizard.existing_worktrees.clear();
    let BranchContent::Nothing { message, .. } = wizard.branch_tabs().content else {
        panic!("nothing expected");
    };
    assert!(message.starts_with("No existing worktrees"));
    wizard.error_message = Some("Branch name is required".to_string());
    assert_eq!(text(&wizard.footer()), "Error: Branch name is required");
    wizard.error_message = None;
    wizard.step = WizardStep::EnterDescription;
    assert!(text(&wizard.footer()).starts_with("Ctrl+S: create task"));
    assert_eq!(
        wizard.description_frame().title,
        " Describe task goal (empty = setup only) [INSERT] (Ctrl+S to continue) "
    );
}

#[test]
fn project_fields_show_their_focus() {
    let mut wizard = ProjectWizard::start();
    assert_eq!(ProjectWizard::name_placeholder(), "project-name");
    assert_eq!(wizard.name_frame().border, Color::LightCyan);
    assert_eq!(wizard.description_frame().title, " Description");
    assert_eq!(wizard.description_frame().cursor, None);
    wizard.description_focus = true;
    assert_eq!(wizard.name_frame().border, Color::DarkGray);
    assert!(wizard.description_frame().title.starts_with(" Description ["));
    assert_eq!(text(&wizard.footer()), "Tab switch field  Ctrl+S create  Esc cancel");
    wizard.error_message = Some("taken".to_string());
    assert_eq!(text(&wizard.footer()), "taken");
}

#[test]
fn agent_fields_show_their_focus() {
    let mut wizard = AgentWizard::start("alpha".to_string());
    assert_eq!(wizard.title(), " New Researcher — alpha ");
    let choices = wizard.kind_choices();
    assert_eq!(
        text(&choices[0].line),
        " Researcher  —  long-lived investigator scoped to one task/branch "
    );
    assert_eq!(
        text(&choices[3].line),
        " Operator    —  takes action in external systems and reports back "
    );
    assert_eq!(choices[0].border, Color::LightCyan);
    assert_eq!(choices[1].border, Color::DarkGray);
    wizard.kind = AgentWizardKind::Tester;
    wizard.step = AgentWizardStep::Worktrees;
    let frames = wizard.worktree_frames();
    assert_eq!(frames[0].0.title, " repo #1 ");
    assert_eq!(frames[0].0.border, Color::LightCyan);
    assert_eq!(frames[0].1.border, Color::Cyan);
    assert!(text(&wizard.footer()).contains("Ctrl+D remove row"));
    let line = wizard.capability(HarnessKind::Goose, "goose");
    assert_eq!(text(&line.line), " Browser: off  (not supported on goose)");
    assert_eq!(line.border, Color::DarkGray);
    wizard.browser_capability = true;
    let line = wizard.capability(HarnessKind::Codex, "codex");
    assert_eq!(text(&line.line), " Browser: on ");
    assert_eq!(wizard.name_frame().title, " Name ");
    assert!(wizard.description_frame().title.starts_with(" Description ["));
}

#[test]
fn dialogs_lie_in_the_middle() {
    let screen = Area { x: 0, y: 0, width: 100, height: 50 };
    let dialog = centered_rect(50, 40, screen);
    assert_eq!(dialog, Area { x: 25, y: 15, width: 50, height: 20 });
    let parts = split(
        true,
        &vec![Limit::Length(3), Limit::Min(0)],
        Area { x: 2, y: 1, width: 10, height: 10 },
    );
    assert_eq!(parts[0], Area { x: 2, y: 1, width: 10, height: 3 });
    assert_eq!(parts[1], Area { x: 2, y: 4, width: 10, height: 7 });
    let halves = split(
        false,
        &vec![Limit::Percentage(60), Limit::Percentage(40)],
        Area { x: 0, y: 0, width: 100, height: 10 },
    );
    assert_eq!(halves[1], Area { x: 60, y: 0, width: 40, height: 10 });
}

#[test]
fn editors_need_room() {
    let area = Area { x: 1, y: 1, width: 40, height: 5 };
    assert_eq!(
        editor_area(area, 2),
        Some(Area { x: 23, y: 3, width: 18, height: 1 })
    );
    assert_eq!(editor_area(Area { height: 2, ..area }, 2), None);
    assert_eq!(editor_area(Area { width: 22, ..area }, 2), None);
    assert_eq!(last_line(area), Some(Area { x: 1, y: 5, width: 40, height: 1 }));
    assert_eq!(last_line(Area { height: 1, ..area }), None);
}

#[test]
fn dialogs_hide_the_output() {
    let mut app = new_app();
    assert_eq!(app.draw(), (Background::ProjectList, None));
    assert_eq!(app.output_height(), 0);
    app.log_output("line".to_string(), 0);
    assert_eq!(app.output_height(), 3);
    for _ in 0..20 {
        app.log_output("line".to_string(), 0);
    }
    assert_eq!(app.output_height(), 8);
    assert_eq!(
        app.screen_limits(),
        vec![Limit::Min(10), Limit::Length(8), Limit::Length(3)]
    );
    app.view = View::SessionPicker;
    assert_eq!(app.output_height(), 0);
    assert_eq!(app.draw(), (Background::Preview, Some(Overlay::SessionPicker)));
    app.view = View::RespawnConfirm;
    app.respawn.confirm_return_view = View::TaskList;
    assert_eq!(app.draw().0, Background::ProjectDetail);
    app.view = View::Archive;
    assert_eq!(app.draw().1, None);
    app.archive.preview = Some("text".to_string());
    assert_eq!(app.draw().1, Some(Overlay::ArchivePreview));
}
