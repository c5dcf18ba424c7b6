//! The logic of a terminal front end for a herd of coding agents: modal text
//! editing, log rendering, list selection, wizards, pollers and view models.

pub mod activity;
pub mod agent_wizard;
pub mod agent_wizard_pane;
pub mod agents_pane;
pub mod app;
pub mod app_detail;
pub mod app_dialogs;
pub mod app_events;
pub mod app_list;
pub mod app_notes;
pub mod app_queries;
pub mod app_tasks;
pub mod app_time;
pub mod app_views;
pub mod archive;
pub mod archive_pane;
pub mod cells;
pub mod clock;
pub mod detail;
pub mod dialogs;
pub mod github_pane;
pub mod highlight;
pub mod hints;
pub mod inbox;
pub mod keys;
pub mod layout;
pub mod list;
pub mod log_render;
pub mod markdown;
pub mod model;
pub mod notes;
pub mod notes_pane;
pub mod notifs;
pub mod order;
pub mod picker;
pub mod picker_pane;
pub mod preview;
pub mod project_pane;
pub mod project_wizard;
pub mod respawn;
pub mod screen;
pub mod select;
pub mod sessions;
pub mod settings;
pub mod settings_pane;
pub mod show_prs;
pub mod status_bar;
pub mod style;
pub mod table;
pub mod task_wizard;
pub mod tasks_pane;
pub mod telegram;
pub mod text;
pub mod textarea;
pub mod times;
pub mod vim;
pub mod wizard;
pub mod wizard_pane;
