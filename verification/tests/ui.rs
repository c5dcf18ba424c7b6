use agman_tui::activity::{classify_agent_status, AgentActivitySample, WorkingIdle};
use agman_tui::cells::{dim_count_style, push_project_count_cell, truncate_with_ellipsis};
use agman_tui::style::{colored, Color, Span};

const SECOND: i64 = 1_000_000_000;

fn span_text(spans: &[Span]) -> Vec<String> {
    spans.iter().map(|span| span.content.to_string()).collect()
}

#[test]
fn count_cell_right_aligns_and_colors_active_count() {
    let mut spans = Vec::new();

    push_project_count_cell(&mut spans, 3, 12, 8);

    assert_eq!(span_text(&spans), vec!["    ", "3", "/12"]);
    assert_eq!(spans[1].style, colored(Color::LightGreen));
    assert_eq!(spans[2].style, dim_count_style());
}

#[test]
fn count_cell_dims_zero_active_count() {
    let mut spans = Vec::new();

    push_project_count_cell(&mut spans, 0, 8, 8);

    assert_eq!(span_text(&spans), vec!["     ", "0", "/8"]);
    assert_eq!(spans[1].style, dim_count_style());
    assert_eq!(spans[2].style, dim_count_style());
}

#[test]
fn truncation_keeps_utf8_boundaries() {
    assert_eq!(
        truncate_with_ellipsis("drua workstream — local repo", 18),
        "drua workstream —…"
    );
}

fn sample(now: i64, age: i64, command: &str, shell: bool) -> AgentActivitySample {
    AgentActivitySample {
        last_tmux_activity_epoch: Some(1),
        last_observed_work_at: Some(now - age),
        foreground_command: command.to_string(),
        foreground_is_shell: shell,
        pane_dead: false,
        query_ok: true,
    }
}

#[test]
fn recent_non_shell_activity_is_working() {
    let now = 1_000 * SECOND;
    let sample = sample(now, 2 * SECOND, "codex-aarch64-a", false);

    assert_eq!(
        classify_agent_status(now, Some(&sample)),
        WorkingIdle::Working
    );
}

#[test]
fn old_activity_is_idle() {
    let now = 1_000 * SECOND;
    let sample = sample(now, 11 * SECOND, "codex-aarch64-a", false);

    assert_eq!(classify_agent_status(now, Some(&sample)), WorkingIdle::Idle);
}

#[test]
fn shell_or_failed_query_is_idle() {
    let now = 1_000 * SECOND;
    let shell = sample(now, SECOND, "zsh", true);
    let mut failed = sample(now, SECOND, "codex-aarch64-a", false);
    failed.query_ok = false;

    assert_eq!(classify_agent_status(now, Some(&shell)), WorkingIdle::Idle);
    assert_eq!(classify_agent_status(now, Some(&failed)), WorkingIdle::Idle);
    assert_eq!(classify_agent_status(now, None), WorkingIdle::Idle);
}
