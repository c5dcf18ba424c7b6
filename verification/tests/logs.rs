use agman_tui::log_render::{classify_line, render_log_lines, style_structural_line, LogLineKind};
use agman_tui::markdown::{render_events, render_markdown_lines, MdEvent};
use agman_tui::style::{colored, Color, Line};

fn text(line: &Line) -> String {
    line.spans.iter().map(|span| span.content.as_str()).collect()
}

fn texts(lines: &[Line]) -> Vec<String> {
    lines.iter().map(text).collect()
}

fn kind(line: &str) -> LogLineKind {
    let mut in_block = false;
    classify_line(line, &mut in_block)
}

#[test]
fn structural_lines_are_told_apart() {
    assert_eq!(kind("--- Agent: coder started at 10:00 ---"), LogLineKind::AgentStart);
    assert_eq!(kind("--- Agent: coder finished at 11:00 ---"), LogLineKind::AgentFinish);
    assert_eq!(kind("[... 10 lines trimmed ...]"), LogLineKind::TrimmedIndicator);
    assert_eq!(kind("AGENT_DONE"), LogLineKind::StopConditionSuccess);
    assert_eq!(kind("TESTS_FAIL"), LogLineKind::StopConditionFailure);
    assert_eq!(kind("INPUT_NEEDED"), LogLineKind::StopConditionInput);
    assert_eq!(kind("An ERROR occurred"), LogLineKind::ErrorLine);
    assert_eq!(kind("plain text"), LogLineKind::Normal);
}

#[test]
fn white_space_does_not_change_the_kind() {
    for line in [
        "--- Agent: coder started at 10:00 ---",
        "--- User feedback at 10:00 ---",
        "AGENT_DONE",
        "It FAILED",
        "ΟΔΟΣ",
        "[stderr]",
        "plain text",
    ] {
        for in_block in [false, true] {
            let (mut bare, mut spaced) = (in_block, in_block);
            assert_eq!(
                classify_line(line, &mut bare),
                classify_line(&format!("\u{3000} \t{line}\u{a0}\r"), &mut spaced)
            );
            assert_eq!(bare, spaced);
        }
    }
}

#[test]
fn feedback_blocks_hold_everything_between_their_markers() {
    let mut in_block = false;
    assert_eq!(
        classify_line("--- User feedback at 10:00 ---", &mut in_block),
        LogLineKind::UserFeedbackStart
    );
    assert!(in_block);
    assert_eq!(classify_line("AGENT_DONE", &mut in_block), LogLineKind::UserFeedbackBody);
    assert_eq!(
        classify_line("--- End user feedback ---", &mut in_block),
        LogLineKind::UserFeedbackEnd
    );
    assert!(!in_block);
}

#[test]
fn structural_lines_keep_their_text() {
    for line in [
        "--- Agent: coder started at 10:00 ---",
        "--- Agent: ---",
        "AGENT_DONE",
        "",
    ] {
        assert_eq!(text(&style_structural_line(line, kind(line))), line);
    }
    let line = "--- Agent: coder started at 10:00 ---";
    let styled = style_structural_line(line, LogLineKind::AgentStart);
    assert!(styled.spans.iter().any(|span| span.content == "coder"));
}

#[test]
fn logs_mix_structure_and_markdown() {
    let lines = render_log_lines("--- Agent: coder started at 10:00 ---\nSome **bold** text\nAGENT_DONE");
    let rendered = texts(&lines);
    assert_eq!(rendered[0], "--- Agent: coder started at 10:00 ---");
    assert!(rendered.contains(&"Some bold text".to_string()));
    assert_eq!(rendered.last().unwrap(), "AGENT_DONE");
}

#[test]
fn markdown_is_rendered_by_its_events() {
    let lines = render_markdown_lines("# Title\n\nA *word* and `code`\n\n- one\n- two");
    assert_eq!(
        texts(&lines),
        vec!["# Title", "A word and `code`", "\u{2022} one", "\u{2022} two"]
    );
    assert_eq!(lines[0].spans[0].style, colored(Color::LightCyan).bold());
    assert_eq!(lines[1].spans[1].style, colored(Color::Gray).italic());
    let lines = render_markdown_lines("1. a\n2. b\n\n---\n");
    assert_eq!(texts(&lines), vec!["1. a".to_string(), "2. b".to_string(), "─".repeat(40)]);
}

#[test]
fn code_is_rendered_line_by_line() {
    let lines = render_markdown_lines("```\nx\ny\n```");
    assert_eq!(texts(&lines), vec!["  x", "  y", "  "]);
}

#[test]
fn text_without_events_is_kept() {
    let lines = render_markdown_lines("[name]: https://example.com");
    assert_eq!(texts(&lines), vec!["[name]: https://example.com"]);
    assert_eq!(lines[0].spans[0].style, colored(Color::Gray));
    assert!(render_markdown_lines("").is_empty());
}

#[test]
fn events_are_rendered_as_they_come() {
    let lines = render_events(
        "word",
        vec![
            MdEvent::ParagraphStarts,
            MdEvent::StrongStarts,
            MdEvent::Words("strong".to_string()),
            MdEvent::StrongEnds,
            MdEvent::Words(" plain".to_string()),
            MdEvent::ParagraphEnds,
        ],
    );
    assert_eq!(text(&lines[0]), "strong plain");
    assert!(lines[0].spans[0].style.bold);
    assert!(!lines[0].spans[1].style.bold);
}

#[test]
fn errors_stand_out_in_logs() {
    let lines = render_log_lines("Build failed");
    assert_eq!(text(&lines[0]), "Build failed");
    assert_eq!(lines[0].spans[0].style, colored(Color::LightRed));
}
