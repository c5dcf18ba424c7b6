//! Agent logs as styled lines: structural lines in colours of their own, the
//! text between them as markdown.

use crate::markdown::{markdown_events, render_markdown_lines, rendered};
use crate::style::{
    colored, lines_view, plain_text, push_line, push_owned, push_span, spans_view, Color, Line,
    Span, Style,
};
use crate::text::{
    chars_of, contains_text, ends_with, find_from, first_at, has_prefix, has_suffix, has_text,
    join_strings, join_with, lines_of_text, lower_letters, occurs_at, same_text,
    sigma_is_in_no_word, slice_of, split_lines, starts_with, texts, to_lowercase, trim, trimmed,
    trimming_keeps_words, trimming_takes_off_space,
};
use vstd::prelude::*;

verus! {

#[derive(Debug, Clone, Copy, PartialEq, Eq, Structural)]
pub enum LogLineKind {
    AgentStart,
    AgentFinish,
    UserFeedbackStart,
    UserFeedbackEnd,
    UserFeedbackBody,
    StopConditionSuccess,
    StopConditionFailure,
    StopConditionInput,
    ErrorLine,
    TrimmedIndicator,
    Normal,
}

/// The line opens a block of user feedback.
pub open spec fn opens_feedback(t: Seq<char>) -> bool {
    has_prefix(t, "--- User feedback at "@) && has_suffix(t, "---"@)
}

/// The line closes a block of user feedback.
pub open spec fn closes_feedback(t: Seq<char>) -> bool {
    t == "--- End user feedback ---"@
}

pub open spec fn is_agent_marker(t: Seq<char>) -> bool {
    has_prefix(t, "--- Agent:"@) && has_suffix(t, "---"@)
}

/// The kind of a line outside of feedback blocks. In which form a sigma stands
/// in the lower case plays no part.
pub open spec fn plain_kind(line: Seq<char>) -> LogLineKind {
    let t = trimmed(line);
    let lower = lower_letters(line);
    if is_agent_marker(t) && has_text(t, "started at"@) {
        LogLineKind::AgentStart
    } else if is_agent_marker(t) && has_text(t, "finished at"@) {
        LogLineKind::AgentFinish
    } else if has_prefix(t, "[..."@) && has_suffix(t, "trimmed ...]"@) {
        LogLineKind::TrimmedIndicator
    } else if has_text(t, "AGENT_DONE"@) || has_text(t, "TASK_COMPLETE"@) || has_text(
        t,
        "TESTS_PASS"@,
    ) {
        LogLineKind::StopConditionSuccess
    } else if has_text(t, "TASK_BLOCKED"@) || has_text(t, "TESTS_FAIL"@) {
        LogLineKind::StopConditionFailure
    } else if has_text(t, "INPUT_NEEDED"@) {
        LogLineKind::StopConditionInput
    } else if has_text(lower, "error"@) || has_text(lower, "failed"@) || has_text(
        lower,
        "[stderr]"@,
    ) {
        LogLineKind::ErrorLine
    } else {
        LogLineKind::Normal
    }
}

/// The kind of a line.
pub open spec fn line_kind(line: Seq<char>, in_feedback: bool) -> LogLineKind {
    let t = trimmed(line);
    if opens_feedback(t) {
        LogLineKind::UserFeedbackStart
    } else if closes_feedback(t) {
        LogLineKind::UserFeedbackEnd
    } else if in_feedback {
        LogLineKind::UserFeedbackBody
    } else {
        plain_kind(line)
    }
}

/// Whether a feedback block is open after a line.
pub open spec fn feedback_after(line: Seq<char>, in_feedback: bool) -> bool {
    let t = trimmed(line);
    opens_feedback(t) || (in_feedback && !closes_feedback(t))
}

/// The kind of a log line; keeps track of whether a feedback block is open.
pub fn classify_line(line: &str, in_feedback_block: &mut bool) -> (kind: LogLineKind)
    ensures
        kind == line_kind(line@, *old(in_feedback_block)),
        *final(in_feedback_block) == feedback_after(line@, *old(in_feedback_block)),
{
    let trimmed = trim(line);
    let t = trimmed.as_str();
    if starts_with(t, "--- User feedback at ") && ends_with(t, "---") {
        *in_feedback_block = true;
        return LogLineKind::UserFeedbackStart;
    }
    if same_text(t, "--- End user feedback ---") {
        *in_feedback_block = false;
        return LogLineKind::UserFeedbackEnd;
    }
    if *in_feedback_block {
        return LogLineKind::UserFeedbackBody;
    }
    if starts_with(t, "--- Agent:") && ends_with(t, "---") {
        if contains_text(t, "started at") {
            return LogLineKind::AgentStart;
        }
        if contains_text(t, "finished at") {
            return LogLineKind::AgentFinish;
        }
    }
    if starts_with(t, "[...") && ends_with(t, "trimmed ...]") {
        return LogLineKind::TrimmedIndicator;
    }
    if contains_text(t, "AGENT_DONE") || contains_text(t, "TASK_COMPLETE") || contains_text(
        t,
        "TESTS_PASS",
    ) {
        return LogLineKind::StopConditionSuccess;
    }
    if contains_text(t, "TASK_BLOCKED") || contains_text(t, "TESTS_FAIL") {
        return LogLineKind::StopConditionFailure;
    }
    if contains_text(t, "INPUT_NEEDED") {
        return LogLineKind::StopConditionInput;
    }
    let lowered = to_lowercase(line);
    let lower = lowered.as_str();
    proof {
        reveal_strlit("error");
        reveal_strlit("failed");
        reveal_strlit("[stderr]");
        sigma_is_in_no_word(lower@, lower_letters(line@), "error"@);
        sigma_is_in_no_word(lower@, lower_letters(line@), "failed"@);
        sigma_is_in_no_word(lower@, lower_letters(line@), "[stderr]"@);
    }
    if contains_text(lower, "error") || contains_text(lower, "failed") || contains_text(
        lower,
        "[stderr]",
    ) {
        return LogLineKind::ErrorLine;
    }
    LogLineKind::Normal
}

/// White space around a line changes neither its kind nor whether a feedback
/// block is open after it.
pub proof fn trimming_keeps_the_kind(line: Seq<char>, in_feedback: bool)
    ensures
        line_kind(trimmed(line), in_feedback) == line_kind(line, in_feedback),
        feedback_after(trimmed(line), in_feedback) == feedback_after(line, in_feedback),
{
    reveal_strlit("error");
    reveal_strlit("failed");
    reveal_strlit("[stderr]");
    trimming_takes_off_space(line);
    trimming_keeps_words(line, "error"@);
    trimming_keeps_words(line, "failed"@);
    trimming_keeps_words(line, "[stderr]"@);
}

/// Where the agent's name starts: after the first `Agent: `.
pub open spec fn name_start(line: Seq<char>) -> int {
    (choose|i: int| first_at(line, "Agent: "@, i)) + 7
}

/// Where the agent's name ends: at the first blank after its start.
pub open spec fn name_end(line: Seq<char>, from: int) -> int
    decreases line.len() - from,
{
    if 0 <= from < line.len() && line[from] != ' ' && line[from] != '\t' {
        name_end(line, from + 1)
    } else {
        from
    }
}

/// The style of a structural line that is drawn in one style.
#[verifier::allow_in_spec]
pub fn kind_style(kind: LogLineKind) -> Style
    returns
        (match kind {
            LogLineKind::AgentStart | LogLineKind::AgentFinish => colored(
                Color::LightCyan,
            ).bold(),
            LogLineKind::UserFeedbackStart | LogLineKind::UserFeedbackEnd
            | LogLineKind::StopConditionInput => colored(Color::LightYellow).bold(),
            LogLineKind::UserFeedbackBody => colored(Color::LightYellow),
            LogLineKind::StopConditionSuccess => colored(Color::LightGreen).bold(),
            LogLineKind::StopConditionFailure => colored(Color::LightRed).bold(),
            LogLineKind::ErrorLine => colored(Color::LightRed),
            LogLineKind::TrimmedIndicator => colored(Color::DarkGray).italic(),
            LogLineKind::Normal => colored(Color::Gray),
        }),
{
    match kind {
        LogLineKind::AgentStart | LogLineKind::AgentFinish => colored(Color::LightCyan).bold(),
        LogLineKind::UserFeedbackStart | LogLineKind::UserFeedbackEnd
        | LogLineKind::StopConditionInput => colored(Color::LightYellow).bold(),
        LogLineKind::UserFeedbackBody => colored(Color::LightYellow),
        LogLineKind::StopConditionSuccess => colored(Color::LightGreen).bold(),
        LogLineKind::StopConditionFailure => colored(Color::LightRed).bold(),
        LogLineKind::ErrorLine => colored(Color::LightRed),
        LogLineKind::TrimmedIndicator => colored(Color::DarkGray).italic(),
        LogLineKind::Normal => colored(Color::Gray),
    }
}

/// A structural line in its colours. The agent's name, which follows the first
/// `Agent: ` and goes to the next blank, is set off.
pub open spec fn structural_spans(line: Seq<char>, kind: LogLineKind) -> Seq<(Seq<char>, Style)> {
    let style = kind_style(kind);
    if (kind is AgentStart || kind is AgentFinish) && has_text(line, "Agent: "@) {
        let start = name_start(line);
        let end = name_end(line, start);
        seq![
            (line.take(start), style),
            (line.subrange(start, end), colored(Color::LightBlue).bold()),
            (line.skip(end), style),
        ]
    } else {
        seq![(line, style)]
    }
}

proof fn name_end_bounds(line: Seq<char>, from: int)
    requires
        0 <= from <= line.len(),
    ensures
        from <= name_end(line, from) <= line.len(),
    decreases line.len() - from,
{
    if from < line.len() && line[from] != ' ' && line[from] != '\t' {
        name_end_bounds(line, from + 1);
    }
}

proof fn agent_name_place(line: Seq<char>)
    requires
        has_text(line, "Agent: "@),
    ensures
        7 <= name_start(line) <= line.len(),
        first_at(line, "Agent: "@, name_start(line) - 7),
{
    reveal_strlit("Agent: ");
    let at = choose|i: int| occurs_at(line, "Agent: "@, i);
    first_exists(line, "Agent: "@, at);
}

/// Where something occurs, there is a first place.
proof fn first_exists(s: Seq<char>, sub: Seq<char>, at: int)
    requires
        occurs_at(s, sub, at),
    ensures
        exists|i: int| first_at(s, sub, i),
    decreases at,
{
    if !first_at(s, sub, at) {
        let earlier = choose|j: int| 0 <= j < at && occurs_at(s, sub, j);
        first_exists(s, sub, earlier);
    }
}

/// A structural line in its colours.
pub fn style_structural_line(line: &str, kind: LogLineKind) -> (styled: Line)
    ensures
        styled@ == structural_spans(line@, kind),
{
    let style = kind_style(kind);
    let mut spans: Vec<Span> = Vec::new();
    if matches!(kind, LogLineKind::AgentStart | LogLineKind::AgentFinish) {
        let chars = chars_of(line);
        let marker = chars_of("Agent: ");
        if let Some(at) = find_from(chars.as_slice(), marker.as_slice(), 0) {
            proof {
                reveal_strlit("Agent: ");
                assert(first_at(line@, "Agent: "@, at as int));
                agent_name_place(line@);
                assert(name_start(line@) == at + 7) by {
                    let other = name_start(line@) - 7;
                    if other < at {
                        assert(!occurs_at(line@, "Agent: "@, other));
                    }
                    if at < other {
                        assert(!occurs_at(line@, "Agent: "@, at as int));
                    }
                }
            }
            assert(at + 7 <= chars.len());
            let start: usize = at + 7;
            let mut end: usize = start;
            while end < chars.len() && chars[end] != ' ' && chars[end] != '\t'
                invariant
                    start <= end <= chars.len(),
                    chars@ == line@,
                    name_end(line@, end as int) == name_end(line@, start as int),
                decreases chars.len() - end,
            {
                end += 1;
            }
            push_owned(&mut spans, slice_of(chars.as_slice(), 0, start), style);
            push_owned(
                &mut spans,
                slice_of(chars.as_slice(), start, end),
                colored(Color::LightBlue).bold(),
            );
            push_owned(&mut spans, slice_of(chars.as_slice(), end, chars.len()), style);
            assert(spans_view(spans@) == structural_spans(line@, kind));
            return Line { spans };
        }
    }
    push_span(&mut spans, line, style);
    assert(spans_view(spans@) == seq![(line@, style)]);
    Line { spans }
}

/// Colouring a structural line keeps its text.
pub proof fn structural_line_keeps_text(line: Seq<char>, kind: LogLineKind)
    ensures
        plain_text(structural_spans(line, kind)) == line,
{
    let spans = structural_spans(line, kind);
    reveal_with_fuel(plain_text, 4);
    if (kind is AgentStart || kind is AgentFinish) && has_text(line, "Agent: "@) {
        let start = name_start(line);
        let end = name_end(line, start);
        agent_name_place(line);
        name_end_bounds(line, start);
        assert(spans.drop_last().drop_last().drop_last() == Seq::<(Seq<char>, Style)>::empty());
        assert(spans.drop_last().last() == spans[1]);
        assert(spans.drop_last().drop_last().last() == spans[0]);
        assert(line.take(start) + line.subrange(start, end) + line.skip(end) == line);
    } else {
        assert(spans.drop_last() == Seq::<(Seq<char>, Style)>::empty());
    }
}

/// How far a log was rendered: whether a feedback block is open, the lines that
/// wait to be rendered as markdown, and what was rendered.
#[verifier::ext_equal]
pub struct LogState {
    pub in_feedback: bool,
    pub batch: Seq<Seq<char>>,
    pub done: Seq<Seq<(Seq<char>, Style)>>,
}

impl LogState {
    pub open spec fn start() -> LogState {
        LogState { in_feedback: false, batch: Seq::empty(), done: Seq::empty() }
    }

    /// With the waiting lines rendered together as one markdown text.
    pub open spec fn flushed(self) -> LogState {
        if self.batch.len() == 0 {
            self
        } else {
            let text = join_with(self.batch, '\n');
            LogState {
                batch: Seq::empty(),
                done: self.done + rendered(text, markdown_events(text)),
                ..self
            }
        }
    }

    /// The rendering after one more line.
    pub open spec fn after(self, line: Seq<char>) -> LogState {
        let kind = line_kind(line, self.in_feedback);
        let in_feedback = feedback_after(line, self.in_feedback);
        if kind is Normal {
            LogState { in_feedback, batch: self.batch.push(line), ..self }
        } else {
            LogState {
                in_feedback,
                batch: Seq::empty(),
                done: self.flushed().done.push(structural_spans(line, kind)),
            }
        }
    }
}

pub open spec fn after_lines(lines: Seq<Seq<char>>) -> LogState
    decreases lines.len(),
{
    if lines.len() == 0 {
        LogState::start()
    } else {
        after_lines(lines.drop_last()).after(lines.last())
    }
}

/// Renders the waiting lines.
fn flush_normal(batch: &mut Vec<String>, result: &mut Vec<Line>)
    ensures
        final(batch)@.len() == 0,
        lines_view(final(result)@) == (LogState {
            in_feedback: false,
            batch: texts(old(batch)@),
            done: lines_view(old(result)@),
        }).flushed().done,
{
    if batch.len() == 0 {
        return;
    }
    let text = join_strings(batch.as_slice(), '\n');
    let mut lines = render_markdown_lines(text.as_str());
    let ghost more = lines@;
    result.append(&mut lines);
    assert(lines_view(result@) == lines_view(old(result)@) + lines_view(more));
    batch.clear();
}

/// Render raw agent.log text into styled lines.
pub fn render_log_lines(raw_text: &str) -> (result: Vec<Line>)
    ensures
        lines_view(result@) == after_lines(lines_of_text(raw_text@)).flushed().done,
{
    let mut result: Vec<Line> = Vec::new();
    let mut in_feedback_block = false;
    let mut normal_batch: Vec<String> = Vec::new();
    let lines = split_lines(raw_text);
    let ghost all = lines_of_text(raw_text@);
    let mut i: usize = 0;
    assert(all.take(0) == Seq::<Seq<char>>::empty());
    assert(texts(normal_batch@) == Seq::<Seq<char>>::empty());
    assert(lines_view(result@) == Seq::<Seq<(Seq<char>, Style)>>::empty());
    while i < lines.len()
        invariant
            i <= lines.len(),
            texts(lines@) == all,
            (LogState {
                in_feedback: in_feedback_block,
                batch: texts(normal_batch@),
                done: lines_view(result@),
            }) == after_lines(all.take(i as int)),
        decreases lines.len() - i,
    {
        let line = lines[i].as_str();
        assert(all.take(i + 1).drop_last() == all.take(i as int));
        assert(all.take(i + 1).last() == line@);
        let kind = classify_line(line, &mut in_feedback_block);
        let ghost waiting = texts(normal_batch@);
        if kind == LogLineKind::Normal {
            normal_batch.push(line.to_owned());
            assert(texts(normal_batch@) == waiting.push(line@));
        } else {
            flush_normal(&mut normal_batch, &mut result);
            assert(texts(normal_batch@) == Seq::<Seq<char>>::empty());
            let styled = style_structural_line(line, kind);
            push_line(&mut result, styled.spans);
        }
        i += 1;
    }
    assert(all.take(i as int) == all);
    flush_normal(&mut normal_batch, &mut result);
    result
}

/// A structural line adds exactly one rendered line, which holds its text, and
/// what was rendered before it stays.
pub proof fn structural_line_is_one_line(state: LogState, line: Seq<char>)
    requires
        !(line_kind(line, state.in_feedback) is Normal),
    ensures
        state.after(line).done.len() == state.flushed().done.len() + 1,
        state.after(line).done.drop_last() == state.flushed().done,
        plain_text(state.after(line).done.last()) == line,
{
    structural_line_keeps_text(line, line_kind(line, state.in_feedback));
}

/// Between the markers of a feedback block every line is feedback, whatever it says.
pub proof fn feedback_block_holds_everything(lines: Seq<Seq<char>>, n: int, k: int)
    requires
        0 < n <= k < lines.len(),
        opens_feedback(trimmed(lines[n - 1])),
        forall|i: int| n <= i <= k ==> !closes_feedback(trimmed(#[trigger] lines[i])),
        forall|i: int| n <= i <= k ==> !opens_feedback(trimmed(#[trigger] lines[i])),
    ensures
        line_kind(lines[k], after_lines(lines.take(k)).in_feedback) is UserFeedbackBody,
        after_lines(lines.take(k + 1)).in_feedback,
    decreases k - n,
{
    let before = lines.take(k);
    assert(lines.take(k + 1).drop_last() == before);
    if k == n {
        assert(before.drop_last() == lines.take(k - 1));
        assert(before.last() == lines[n - 1]);
    } else {
        feedback_block_holds_everything(lines, n, k - 1);
    }
}

/// Outside of feedback blocks, and but for agent markers and the mark of trimmed
/// lines, a line with one of the words for success is a success, one with a word
/// for failure and none for success a failure, one that asks for input and has
/// none of these a request for input. No other line is any of them.
pub proof fn stop_conditions_are_told_by_their_words(line: Seq<char>)
    requires
        !has_prefix(trimmed(line), "--- User feedback at "@),
        trimmed(line) != "--- End user feedback ---"@,
        !has_prefix(trimmed(line), "--- Agent:"@),
        !has_prefix(trimmed(line), "[..."@),
    ensures
        ({
            let t = trimmed(line);
            let done = has_text(t, "AGENT_DONE"@) || has_text(t, "TASK_COMPLETE"@) || has_text(
                t,
                "TESTS_PASS"@,
            );
            let failed = has_text(t, "TASK_BLOCKED"@) || has_text(t, "TESTS_FAIL"@);
            let asks = has_text(t, "INPUT_NEEDED"@);
            &&& line_kind(line, false) is StopConditionSuccess <==> done
            &&& line_kind(line, false) is StopConditionFailure <==> failed && !done
            &&& line_kind(line, false) is StopConditionInput <==> asks && !failed && !done
        }),
{
}

/// No line is a success without one of the words for it, a failure without one
/// of those for it, or a request for input without its word.
pub proof fn stop_conditions_need_their_words(line: Seq<char>, in_feedback: bool)
    ensures
        ({
            let t = trimmed(line);
            let kind = line_kind(line, in_feedback);
            &&& kind is StopConditionSuccess ==> has_text(t, "AGENT_DONE"@) || has_text(
                t,
                "TASK_COMPLETE"@,
            ) || has_text(t, "TESTS_PASS"@)
            &&& kind is StopConditionFailure ==> has_text(t, "TASK_BLOCKED"@) || has_text(
                t,
                "TESTS_FAIL"@,
            )
            &&& kind is StopConditionInput ==> has_text(t, "INPUT_NEEDED"@)
        }),
{
}

/// A line that tells of an error, whatever the case, is an error, unless it is
/// a mark of another kind.
pub proof fn errors_are_told_by_their_words(line: Seq<char>)
    requires
        !has_prefix(trimmed(line), "--- "@),
        !has_prefix(trimmed(line), "[..."@),
        !has_text(trimmed(line), "AGENT_DONE"@),
        !has_text(trimmed(line), "TASK_COMPLETE"@),
        !has_text(trimmed(line), "TESTS_PASS"@),
        !has_text(trimmed(line), "TASK_BLOCKED"@),
        !has_text(trimmed(line), "TESTS_FAIL"@),
        !has_text(trimmed(line), "INPUT_NEEDED"@),
    ensures
        ({
            let lower = lower_letters(line);
            let tells = has_text(lower, "error"@) || has_text(lower, "failed"@) || has_text(
                lower,
                "[stderr]"@,
            );
            &&& line_kind(line, false) is ErrorLine <==> tells
            &&& line_kind(line, false) is Normal <==> !tells
        }),
{
    let t = trimmed(line);
    reveal_strlit("--- ");
    reveal_strlit("--- User feedback at ");
    reveal_strlit("--- End user feedback ---");
    reveal_strlit("--- Agent:");
    longer_prefix(t, "--- "@, "--- User feedback at "@);
    longer_prefix(t, "--- "@, "--- Agent:"@);
    if t == "--- End user feedback ---"@ {
        assert(t.subrange(0, t.len() as int) =~= t);
        longer_prefix(t, "--- "@, "--- End user feedback ---"@);
    }
}

proof fn longer_prefix(t: Seq<char>, short: Seq<char>, long: Seq<char>)
    requires
        short.len() <= long.len(),
        long.subrange(0, short.len() as int) =~= short,
    ensures
        has_prefix(t, long) ==> has_prefix(t, short),
{
    if has_prefix(t, long) {
        assert(t.subrange(0, short.len() as int) =~= t.subrange(0, long.len() as int).subrange(
            0,
            short.len() as int,
        ));
    }
}

/// The marks of an agent's start and end are told by what they say, also where
/// the line holds other words.
pub proof fn agent_marks_are_told_by_what_they_say(line: Seq<char>)
    requires
        has_prefix(trimmed(line), "--- Agent:"@),
        has_suffix(trimmed(line), "---"@),
    ensures
        has_text(trimmed(line), "started at"@) ==> line_kind(line, false) is AgentStart,
        !has_text(trimmed(line), "started at"@) && has_text(trimmed(line), "finished at"@)
            ==> line_kind(line, false) is AgentFinish,
        line_kind(line, true) is UserFeedbackBody,
{
    let t = trimmed(line);
    reveal_strlit("--- User feedback at ");
    reveal_strlit("--- End user feedback ---");
    reveal_strlit("--- Agent:");
    assert(t.subrange(0, 10) == "--- Agent:"@);
    assert(t[4] == 'A') by {
        assert(t.subrange(0, 10)[4] == t[4]);
    }
    if has_prefix(t, "--- User feedback at "@) {
        assert(t.subrange(0, 21)[4] == t[4]);
    }
    if t == "--- End user feedback ---"@ {
        assert(t[4] == 'E');
    }
}

/// A feedback block goes from its opening line to its closing line: what stands
/// between is its body, whatever it says, and nothing behind it is.
pub proof fn feedback_blocks_are_closed(line: Seq<char>, in_feedback: bool)
    ensures
        ({
            let t = trimmed(line);
            let opens = has_prefix(t, "--- User feedback at "@) && has_suffix(t, "---"@);
            let closes = t == "--- End user feedback ---"@;
            &&& opens ==> line_kind(line, in_feedback) is UserFeedbackStart && feedback_after(
                line,
                in_feedback,
            )
            &&& closes ==> line_kind(line, in_feedback) is UserFeedbackEnd && !feedback_after(
                line,
                in_feedback,
            )
            &&& !opens && !closes ==> feedback_after(line, in_feedback) == in_feedback
            &&& !opens && !closes && in_feedback ==> line_kind(line, in_feedback)
                is UserFeedbackBody
            &&& !in_feedback ==> !(line_kind(line, in_feedback) is UserFeedbackBody)
        }),
{
    let t = trimmed(line);
    reveal_strlit("--- User feedback at ");
    reveal_strlit("--- End user feedback ---");
    if t == "--- End user feedback ---"@ && has_prefix(t, "--- User feedback at "@) {
        assert(t.subrange(0, 21)[4] == t[4]);
    }
}

/// The mark of trimmed lines is told by how it starts and ends.
pub proof fn trimmed_lines_are_marked(line: Seq<char>)
    requires
        has_prefix(trimmed(line), "[..."@),
        has_suffix(trimmed(line), "trimmed ...]"@),
    ensures
        line_kind(line, false) is TrimmedIndicator,
{
    let t = trimmed(line);
    reveal_strlit("[...");
    reveal_strlit("--- User feedback at ");
    reveal_strlit("--- End user feedback ---");
    reveal_strlit("--- Agent:");
    assert(t.subrange(0, 4)[0] == t[0]);
    assert(t[0] == '[');
    if has_prefix(t, "--- User feedback at "@) {
        assert(t.subrange(0, 21)[0] == t[0]);
    }
    if has_prefix(t, "--- Agent:"@) {
        assert(t.subrange(0, 10)[0] == t[0]);
    }
}

/// Success is shown in green, failure and errors in red, and what asks for the
/// user in yellow, of which only what counts stands out in bold.
pub proof fn kinds_have_their_colours(kind: LogLineKind)
    ensures
        kind_style(kind).fg == Some(
            match kind {
                LogLineKind::StopConditionSuccess => Color::LightGreen,
                LogLineKind::StopConditionFailure | LogLineKind::ErrorLine => Color::LightRed,
                LogLineKind::StopConditionInput | LogLineKind::UserFeedbackStart
                | LogLineKind::UserFeedbackEnd | LogLineKind::UserFeedbackBody => {
                    Color::LightYellow
                },
                LogLineKind::AgentStart | LogLineKind::AgentFinish => Color::LightCyan,
                LogLineKind::TrimmedIndicator => Color::DarkGray,
                LogLineKind::Normal => Color::Gray,
            },
        ),
        kind_style(kind).bold <==> !(kind is ErrorLine || kind is UserFeedbackBody || kind
            is TrimmedIndicator || kind is Normal),
        kind_style(kind).italic <==> kind is TrimmedIndicator,
        kind_style(kind).bg is None,
{
}

/// In the mark of an agent's start or end, the agent's name is set off in blue,
/// and the rest of the line is as it was.
pub proof fn agent_names_are_set_off(name: Seq<char>, rest: Seq<char>, kind: LogLineKind)
    requires
        kind is AgentStart || kind is AgentFinish,
        !name.contains(' '),
        !name.contains('\t'),
        rest.len() > 0 ==> rest[0] == ' ',
    ensures
        ({
            let spans = structural_spans("--- Agent: "@ + name + rest, kind);
            &&& spans.len() == 3
            &&& spans[0].0 == "--- Agent: "@
            &&& spans[1].0 == name
            &&& spans[2].0 == rest
            &&& spans[1].1.fg == Some(Color::LightBlue)
            &&& spans[0].1.fg == Some(Color::LightCyan) && spans[2].1.fg == Some(Color::LightCyan)
        }),
{
    let tag = "--- Agent: "@;
    let word = "Agent: "@;
    let line = tag + name + rest;
    reveal_strlit("--- Agent: ");
    reveal_strlit("Agent: ");
    assert(line.subrange(4, 11) =~= word);
    assert(occurs_at(line, word, 4));
    assert forall|j: int| 0 <= j < 4 implies !occurs_at(line, word, j) by {
        assert(line.subrange(j, j + 7)[0] == line[j]);
        assert(word[0] == 'A');
        assert(line[j] != 'A');
    }
    assert(first_at(line, word, 4));
    agent_name_place(line);
    assert(name_start(line) == 11) by {
        let other = name_start(line) - 7;
        if other < 4 {
            assert(!occurs_at(line, word, other));
        }
        if other > 4 {
            assert(!occurs_at(line, word, 4));
        }
    }
    assert(line.subrange(11, 11 + name.len() as int) =~= name);
    name_goes_to_the_blank(line, name, 11, 0);
    assert(line.take(11) =~= tag);
    assert(line.skip(11 + name.len() as int) =~= rest);
}

proof fn name_goes_to_the_blank(line: Seq<char>, name: Seq<char>, start: int, k: int)
    requires
        0 <= start,
        0 <= k <= name.len(),
        start + name.len() <= line.len(),
        line.subrange(start, start + name.len()) == name,
        !name.contains(' '),
        !name.contains('\t'),
        start + name.len() < line.len() ==> line[start + name.len()] == ' ',
    ensures
        name_end(line, start + k) == start + name.len(),
    decreases name.len() - k,
{
    if k < name.len() {
        assert(line.subrange(start, start + name.len())[k] == line[start + k]);
        assert(name[k] != ' ' && name[k] != '\t') by {
            assert(name.contains(name[k]));
        }
        name_goes_to_the_blank(line, name, start, k + 1);
    }
}

/// Lines of plain text in a row are rendered together as one text, where a line
/// of another kind or the end of the log comes; nothing that was rendered before
/// changes.
pub proof fn plain_lines_are_rendered_together(state: LogState, a: Seq<char>, b: Seq<char>)
    requires
        state.batch.len() == 0,
        line_kind(a, state.in_feedback) is Normal,
        line_kind(b, state.in_feedback) is Normal,
    ensures
        ({
            let text = a.push('\n') + b;
            let after = state.after(a).after(b);
            &&& after.done == state.done
            &&& after.flushed().done == state.done + rendered(text, markdown_events(text))
            &&& after.flushed().batch.len() == 0
            &&& after.in_feedback == state.in_feedback
        }),
{
    let after = state.after(a).after(b);
    assert(!(opens_feedback(trimmed(a)) || closes_feedback(trimmed(a))));
    assert(state.after(a).in_feedback == state.in_feedback);
    assert(after.batch =~= seq![a, b]);
    assert(after.batch.drop_last() =~= seq![a]);
    assert(join_with(after.batch, '\n') == join_with(after.batch.drop_last(), '\n').push('\n')
        + b);
    assert(join_with(seq![a], '\n') == a);
}

} // verus!
