//! What can be asked of the state, and results of work in the background.

use crate::activity::ProjectRefreshSnapshot;
use crate::app::App;
use crate::detail::{first_of, ProjectDetail, ProjectDetailRow, RowKey, TaskLoad};
use crate::inbox::{is_stalled, InboxPollOutput};
use crate::model::{AgentRecord, ShowPrsData, Task};
use crate::list::ProjectList;
use crate::select::clamped;
use crate::settings::one_line_state;
use crate::show_prs::ShowPrs;
use crate::table::has_string;
use crate::text::texts;
use crate::textarea::area_state;
use vstd::prelude::*;
use vstd::view::View as _;

verus! {

impl App {
    /// The number of entries of the project list.
    pub fn project_list_len(&self) -> (n: usize)
        requires
            self.wf(),
        ensures
            n == self.list.entries(),
    {
        self.list.project_list_len()
    }

    /// All the rows of the page of the current project.
    pub fn project_detail_rows(&self) -> (rows: Vec<ProjectDetailRow<'_>>)
        ensures
            self.detail.all_shaped(rows@, self.detail.rows()),
    {
        self.detail.project_detail_rows()
    }

    /// The number of rows.
    pub fn project_detail_row_count(&self) -> (n: usize)
        ensures
            n == self.detail.rows().len(),
    {
        self.detail.project_detail_row_count()
    }

    /// The row that is selected.
    pub fn selected_project_detail_row(&self) -> (row: Option<ProjectDetailRow<'_>>)
        ensures
            match row {
                Some(r) => self.detail.selected_row() matches Some(shape) && self.detail.shaped(
                    r,
                    shape,
                ),
                None => self.detail.selected_row() is None,
            },
    {
        self.detail.selected_project_detail_row()
    }

    /// The agent of the selected row.
    pub fn selected_project_detail_agent(&self) -> (agent: Option<&AgentRecord>)
        ensures
            match agent {
                Some(a) => self.detail.spec_selected_agent() == Some(*a),
                None => self.detail.spec_selected_agent() is None,
            },
    {
        self.detail.selected_project_detail_agent()
    }

    /// The task that is selected.
    pub fn selected_task(&self) -> (task: Option<&Task>)
        ensures
            match task {
                Some(t) => self.detail.spec_selected_task() matches Some(i) && 0 <= i
                    < self.detail.tasks@.len() && *t == self.detail.tasks@[i],
                None => self.detail.spec_selected_task() is None,
            },
    {
        self.detail.selected_task()
    }

    /// The entries of the archive that the search finds.
    pub fn archive_filtered_indices(&self) -> (indices: Vec<usize>)
        ensures
            indices@.len() == self.archive.filtered().len(),
            forall|k: int|
                0 <= k < indices@.len() ==> (#[trigger] indices@[k]) as int
                    == self.archive.filtered()[k],
    {
        self.archive.archive_filtered_indices()
    }

    /// The targets that messages could not be delivered to for too long.
    pub fn stalled_targets(&self) -> (targets: Vec<String>)
        ensures
            texts(targets@) == self.inbox.stalled(),
            forall|t: Seq<char>| #[trigger]
                has_string(targets@, t) == is_stalled(self.inbox.readings.stuck_skip_counts, t),
    {
        self.inbox.stalled_targets()
    }

    /// Shows the tasks of the current project, and selects one of them where
    /// it is shown.
    pub fn refresh_tasks_and_select(&mut self, task_id: &str, load: TaskLoad)
        requires
            old(self).wf(),
        ensures
            final(self).wf(),
            *final(self) == (App { detail: final(self).detail, ..*old(self) }),
            ({
                let shown = load.tasks@.filter(old(self).detail.shows_task());
                match first_of(
                    final(self).detail.keys(),
                    Some(RowKey::<Seq<char>>::Task { task_id: task_id@ }),
                ) {
                    Some(i) => final(self).detail.selected_index == i && exists|mid: ProjectDetail|
                        #[trigger] mid.holds_tasks(old(self).detail, shown, load.attached)
                            && final(self).detail == mid.with_selection(i as usize),
                    None => final(self).detail.holds_tasks(
                        old(self).detail,
                        shown,
                        load.attached,
                    ),
                }
            }),
    {
        self.detail.refresh_tasks_and_select(task_id, load);
    }

    /// Takes over the result of a refresh of the project list, unless a later
    /// one made it outdated.
    pub fn apply_project_refresh_result(
        &mut self,
        generation: u64,
        snapshot: ProjectRefreshSnapshot,
    )
        requires
            old(self).wf(),
            snapshot.projects@.len() < usize::MAX,
        ensures
            final(self).wf(),
            *final(self) == (App { list: final(self).list, ..*old(self) }),
            ({
                let done = ProjectList { project_refresh_active: false, ..old(self).list };
                if generation == old(self).list.project_refresh_generation {
                    final(self).list.shows(done, snapshot)
                } else {
                    final(self).list == done
                }
            }),
    {
        self.list.apply_project_refresh_result(generation, snapshot);
    }

    /// Takes over the issues and pull requests that were fetched.
    pub fn apply_show_prs_results(&mut self, fetched: ShowPrsData)
        requires
            old(self).wf(),
            fetched.issues@.len() + fetched.my_prs@.len() + fetched.review_requests@.len()
                <= usize::MAX,
        ensures
            final(self).wf(),
            *final(self) == (App { show_prs: final(self).show_prs, ..*old(self) }),
            final(self).show_prs == (ShowPrs {
                data: fetched,
                poll_active: false,
                first_poll_done: true,
                selected: clamped(
                    old(self).show_prs.selected as int,
                    final(self).show_prs.items().len() as int,
                ) as usize,
                ..old(self).show_prs
            }),
    {
        self.show_prs.apply_show_prs_results(fetched);
    }

    /// Takes over what came of a poll of all inboxes. Gives the targets to warn
    /// of.
    pub fn apply_inbox_poll_results(&mut self, output: InboxPollOutput) -> (warn: Vec<String>)
        requires
            old(self).wf(),
        ensures
            final(self).wf(),
            *final(self) == (App { inbox: final(self).inbox, ..*old(self) }),
            old(self).inbox.after_poll(output, final(self).inbox),
            forall|t: Seq<char>| #[trigger]
                has_string(warn@, t) == old(self).inbox.warns_of(output, t),
            crate::text::texts(warn@).no_duplicates(),
    {
        self.inbox.apply_inbox_poll_results(output)
    }

    /// Checks the heartbeat of the bot, and says whether it is to be respawned.
    pub fn check_telegram_watchdog(&mut self, last_beat: u64, now_epoch: u64, now: i64) -> (respawn:
        bool)
        requires
            old(self).wf(),
        ensures
            final(self).wf(),
            *final(self) == (App { telegram: final(self).telegram, ..*old(self) }),
            old(self).telegram.after_check(
                last_beat,
                now_epoch,
                now,
                final(self).telegram,
                respawn,
            ),
    {
        self.telegram.check_telegram_watchdog(last_beat, now_epoch, now)
    }

    /// The settings show what is stored for the bot.
    pub fn on_telegram_loaded(&mut self, token: Option<String>, chat_id: Option<String>)
        requires
            old(self).wf(),
            token matches Some(t) ==> !t@.contains('\n'),
            chat_id matches Some(t) ==> !t@.contains('\n'),
        ensures
            final(self).wf(),
            *final(self) == (App { settings: final(self).settings, ..*old(self) }),
            final(self).settings.selected == old(self).settings.selected,
            final(self).settings.editing == old(self).settings.editing,
            final(self).settings.archive_retention_days == old(
                self,
            ).settings.archive_retention_days,
            area_state(final(self).settings.token_editor) == one_line_state(token),
            area_state(final(self).settings.chat_id_editor) == one_line_state(chat_id),
    {
        self.settings.show_telegram(token, chat_id);
    }
}

} // verus!
