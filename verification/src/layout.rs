//! Areas of the screen, and what is shown in them.

use crate::app::App;
use crate::screen::View;
use crate::wizard::ProjectPickerAction;
use ratatui::layout::{Constraint, Direction, Layout, Rect};
use vstd::prelude::*;
use vstd::view::View as _;

verus! {

/// A rectangle of the screen.
#[derive(Clone, Copy, Debug, PartialEq, Eq, Structural)]
pub struct Area {
    pub x: u16,
    pub y: u16,
    pub width: u16,
    pub height: u16,
}

/// How much room a part of an area asks for.
#[derive(Clone, Copy, Debug, PartialEq, Eq, Structural)]
pub enum Limit {
    Length(u16),
    Min(u16),
    Percentage(u16),
}

impl Area {
    /// The area ends where positions can still be told.
    pub open spec fn wf(self) -> bool {
        self.x + self.width <= u16::MAX && self.y + self.height <= u16::MAX
    }

    /// The area lies within another.
    pub open spec fn lies_in(self, other: Area) -> bool {
        &&& other.x <= self.x
        &&& self.x + self.width <= other.x + other.width
        &&& other.y <= self.y
        &&& self.y + self.height <= other.y + other.height
    }

    /// The area is as wide as another, if parts stand below each other, or as
    /// high, if they stand beside each other.
    pub open spec fn goes_across(self, other: Area, vertical: bool) -> bool {
        if vertical {
            self.x == other.x && self.width == other.width
        } else {
            self.y == other.y && self.height == other.height
        }
    }
}

/// What a limit asks for along `len` cells, in hundredths of a cell.
pub open spec fn asked(limit: Limit, len: int) -> int {
    match limit {
        Limit::Length(n) | Limit::Min(n) => 100 * n,
        Limit::Percentage(percent) => percent * len,
    }
}

/// What limits ask for together.
pub open spec fn asked_together(limits: Seq<Limit>, len: int) -> int
    decreases limits.len(),
{
    if limits.len() == 0 {
        0
    } else {
        asked_together(limits.drop_last(), len) + asked(limits.last(), len)
    }
}

/// How many of the limits can take more than they ask for.
pub open spec fn open_ended(limits: Seq<Limit>) -> int
    decreases limits.len(),
{
    if limits.len() == 0 {
        0
    } else {
        open_ended(limits.drop_last()) + if limits.last() is Min {
            1int
        } else {
            0
        }
    }
}

/// There is room for all limits, and at most one to take the rest.
pub open spec fn fit(limits: Seq<Limit>, len: int) -> bool {
    asked_together(limits, len) <= 100 * len && open_ended(limits) <= 1
}

/// What a part gets where the limits fit: what it asks for, and the rest if it
/// is open-ended.
pub open spec fn given(limits: Seq<Limit>, len: int, i: int) -> int {
    asked(limits[i], len) + if limits[i] is Min {
        100 * len - asked_together(limits, len)
    } else {
        0
    }
}

/// What the parts before a part get.
pub open spec fn given_before(limits: Seq<Limit>, len: int, i: int) -> int
    decreases i,
{
    if i <= 0 {
        0
    } else {
        given_before(limits, len, i - 1) + given(limits, len, i - 1)
    }
}

/// The nearest cell to a place in hundredths of a cell after a first cell.
pub open spec fn nearest(first: u16, hundredths: int) -> int {
    (100 * first + hundredths + 50) / 100
}

impl Area {
    /// Where the area starts and ends, from above or from the left.
    pub open spec fn span(self, vertical: bool) -> (int, int) {
        if vertical {
            (self.y as int, self.y + self.height)
        } else {
            (self.x as int, self.x + self.width)
        }
    }

    /// How high the area is, or how wide.
    pub open spec fn length(self, vertical: bool) -> u16 {
        if vertical {
            self.height
        } else {
            self.width
        }
    }

    /// Where a part of the area starts and ends if the limits fit.
    pub open spec fn share(self, vertical: bool, limits: Seq<Limit>, i: int) -> (int, int) {
        let first = if vertical {
            self.y
        } else {
            self.x
        };
        let len = self.length(vertical) as int;
        (
            nearest(first, given_before(limits, len, i)),
            nearest(first, given_before(limits, len, i + 1)),
        )
    }
}

/// Splits an area with `ratatui::layout::Layout::split`, for which it is built
/// with a direction and constraints, without margins or spacing. It is claimed
/// that there is a part for every limit, that each part lies in the area, and
/// that it goes across the area. Where there is room for all limits and at most
/// one is a minimum, the parts follow each other from the start of the area,
/// with their lengths and percentages, the minimum with the rest, and each edge
/// is rounded to the nearest cell. How room is shared otherwise is left unsaid:
/// the solver behind it settles limits that cannot all be met in an order that
/// is not fixed.
#[verifier::external_body]
fn split_area(vertical: bool, limits: &Vec<Limit>, area: Area) -> (parts: Vec<Area>)
    requires
        area.wf(),
    ensures
        parts@.len() == limits@.len(),
        forall|i: int|
            0 <= i < parts@.len() ==> (#[trigger] parts@[i]).lies_in(area)
                && parts@[i].goes_across(area, vertical),
        fit(limits@, area.length(vertical) as int) ==> forall|i: int|
            0 <= i < parts@.len() ==> (#[trigger] parts@[i]).span(vertical) == area.share(
                vertical,
                limits@,
                i,
            ),
{
    let direction = if vertical {
        Direction::Vertical
    } else {
        Direction::Horizontal
    };
    let limits = limits.iter().map(|limit| match limit {
        Limit::Length(n) => Constraint::Length(*n),
        Limit::Min(n) => Constraint::Min(*n),
        Limit::Percentage(n) => Constraint::Percentage(*n),
    });
    let layout = Layout::default().direction(direction).constraints(limits);
    let rect = Rect::new(area.x, area.y, area.width, area.height);
    let parts = layout.split(rect);
    parts.iter().map(|r| Area { x: r.x, y: r.y, width: r.width, height: r.height }).collect()
}

/// Splits an area into parts that stand below or beside each other.
pub fn split(vertical: bool, limits: &Vec<Limit>, area: Area) -> (parts: Vec<Area>)
    requires
        area.wf(),
    ensures
        parts@.len() == limits@.len(),
        forall|i: int|
            0 <= i < parts@.len() ==> (#[trigger] parts@[i]).lies_in(area)
                && parts@[i].goes_across(area, vertical),
        fit(limits@, area.length(vertical) as int) ==> forall|i: int|
            0 <= i < parts@.len() ==> (#[trigger] parts@[i]).span(vertical) == area.share(
                vertical,
                limits@,
                i,
            ),
{
    split_area(vertical, limits, area)
}

/// The limits of three parts, of which the middle one takes a share.
pub open spec fn middle_limits(percent: u16) -> Seq<Limit> {
    let side = Limit::Percentage(((100 - percent) / 2) as u16);
    seq![side, Limit::Percentage(percent), side]
}

/// The limits of three parts, of which the middle one takes a share.
pub fn limits_around(percent: u16) -> (limits: Vec<Limit>)
    requires
        percent <= 100,
    ensures
        limits@ == middle_limits(percent),
{
    let side = Limit::Percentage((100 - percent) / 2);
    let limits = vec![side, Limit::Percentage(percent), side];
    assert(limits@ =~= middle_limits(percent));
    limits
}

/// Where the middle of `len` cells starts and ends, if it takes a share of them
/// and leaves the same on both sides.
pub open spec fn middle_span(percent: u16, first: u16, len: u16) -> (int, int) {
    let side = (100 - percent) / 2;
    (nearest(first, side * len), nearest(first, side * len + percent * len))
}

proof fn middle_limits_fit(percent: u16, vertical: bool, area: Area)
    requires
        percent <= 100,
    ensures
        fit(middle_limits(percent), area.length(vertical) as int),
        area.share(vertical, middle_limits(percent), 1) == middle_span(
            percent,
            if vertical {
                area.y
            } else {
                area.x
            },
            area.length(vertical),
        ),
{
    let limits = middle_limits(percent);
    let len = area.length(vertical) as int;
    let side = (100 - percent) / 2;
    let first = limits.drop_last().drop_last();
    assert(limits.drop_last() =~= seq![limits[0], limits[1]]);
    assert(first =~= seq![limits[0]]);
    assert(first.drop_last() =~= Seq::<Limit>::empty());
    assert(open_ended(first) == 0) by {
        assert(open_ended(first.drop_last()) == 0);
    }
    assert(open_ended(limits.drop_last()) == 0);
    assert(asked_together(first, len) == side * len) by {
        assert(asked_together(first.drop_last(), len) == 0);
    }
    assert(asked_together(limits.drop_last(), len) == side * len + percent * len);
    assert(asked_together(limits, len) == side * len + percent * len + side * len);
    assert(side * len + percent * len + side * len <= 100 * len) by (nonlinear_arith)
        requires
            2 * side + percent <= 100,
            len >= 0,
    ;
    assert(given_before(limits, len, 0) == 0);
    assert(given_before(limits, len, 1) == side * len);
    assert(given_before(limits, len, 2) == side * len + percent * len);
}

/// The middle of an area, which takes given shares of its width and height.
pub fn centered_rect(percent_x: u16, percent_y: u16, r: Area) -> (middle: Area)
    requires
        percent_x <= 100,
        percent_y <= 100,
        r.wf(),
    ensures
        middle.span(false) == middle_span(percent_x, r.x, r.width),
        middle.span(true) == middle_span(percent_y, r.y, r.height),
        middle.lies_in(r),
        middle.wf(),
{
    let rows = split_area(true, &limits_around(percent_y), r);
    let row = rows[1];
    assert(rows@[1].lies_in(r));
    proof {
        middle_limits_fit(percent_y, true, r);
        middle_limits_fit(percent_x, false, row);
    }
    let columns = split_area(false, &limits_around(percent_x), row);
    assert(columns@[1].lies_in(row));
    columns[1]
}

/// The last line of an area that has more than one.
pub fn last_line(area: Area) -> (line: Option<Area>)
    requires
        area.wf(),
    ensures
        line == if area.height > 1 {
            Some(
                Area {
                    x: area.x,
                    y: (area.y + area.height - 1) as u16,
                    width: area.width,
                    height: 1,
                },
            )
        } else {
            None
        },
{
    if area.height > 1 {
        Some(
            Area { x: area.x, y: area.y + area.height - 1, width: area.width, height: 1 },
        )
    } else {
        None
    }
}

/// How wide the names of the settings are.
pub const LABEL_WIDTH: u16 = 22;

/// The place of an editor behind the name in a row of the settings; none where
/// the area is too small.
pub fn editor_area(area: Area, row: u16) -> (place: Option<Area>)
    requires
        area.wf(),
    ensures
        place == if area.height > row && area.width > LABEL_WIDTH {
            Some(
                Area {
                    x: (area.x + LABEL_WIDTH) as u16,
                    y: (area.y + row) as u16,
                    width: (area.width - LABEL_WIDTH) as u16,
                    height: 1,
                },
            )
        } else {
            None
        },
        place matches Some(place) ==> place.lies_in(area),
{
    if area.height > row && area.width > LABEL_WIDTH {
        Some(
            Area {
                x: area.x + LABEL_WIDTH,
                y: area.y + row,
                width: area.width - LABEL_WIDTH,
                height: 1,
            },
        )
    } else {
        None
    }
}

/// What fills the screen.
#[derive(Clone, Copy, Debug, PartialEq, Eq, Structural)]
pub enum Background {
    ProjectList,
    ProjectDetail,
    Preview,
    Notifications,
    Notes,
    ShowPrs,
    Settings,
    Archive,
}

/// What is shown over what fills the screen.
#[derive(Clone, Copy, Debug, PartialEq, Eq, Structural)]
pub enum Overlay {
    DeleteConfirm,
    NewTaskWizard,
    DirectoryPicker,
    SessionPicker,
    ArchivePreview,
    ProjectWizard,
    ProjectPicker,
    ProjectDeleteConfirm,
    AgentWizard,
    RespawnConfirm,
}

/// Dialogs, during which the output is hidden.
pub open spec fn is_modal(view: View) -> bool {
    match view {
        View::DeleteConfirm
        | View::NewTaskWizard
        | View::DirectoryPicker
        | View::SessionPicker
        | View::ProjectWizard
        | View::ProjectPicker
        | View::ProjectDeleteConfirm
        | View::AgentWizard
        | View::RespawnConfirm => true,
        _ => false,
    }
}

impl App {
    /// What fills the screen in a view.
    pub open spec fn background(self) -> Background {
        match self.view {
            View::ProjectList => Background::ProjectList,
            View::TaskList => Background::ProjectDetail,
            View::Preview => Background::Preview,
            View::DeleteConfirm => Background::ProjectDetail,
            View::NewTaskWizard => Background::ProjectDetail,
            View::DirectoryPicker => Background::ProjectDetail,
            View::SessionPicker => Background::Preview,
            View::Notifications => Background::Notifications,
            View::Notes => Background::Notes,
            View::ShowPrs => Background::ShowPrs,
            View::Settings => Background::Settings,
            View::Archive => Background::Archive,
            View::ProjectWizard => Background::ProjectList,
            View::ProjectPicker => if self.project_picker is Some {
                Background::ProjectList
            } else {
                Background::ProjectDetail
            },
            View::ProjectDeleteConfirm => Background::ProjectList,
            View::AgentWizard => Background::ProjectDetail,
            View::RespawnConfirm => if self.respawn.confirm_return_view is ProjectList {
                Background::ProjectList
            } else {
                Background::ProjectDetail
            },
        }
    }

    /// What is shown over it.
    pub open spec fn overlay(self) -> Option<Overlay> {
        match self.view {
            View::DeleteConfirm => Some(Overlay::DeleteConfirm),
            View::NewTaskWizard => Some(Overlay::NewTaskWizard),
            View::DirectoryPicker => Some(Overlay::DirectoryPicker),
            View::SessionPicker => Some(Overlay::SessionPicker),
            View::Archive => if self.archive.preview is Some {
                Some(Overlay::ArchivePreview)
            } else {
                None
            },
            View::ProjectWizard => Some(Overlay::ProjectWizard),
            View::ProjectPicker => Some(Overlay::ProjectPicker),
            View::ProjectDeleteConfirm => Some(Overlay::ProjectDeleteConfirm),
            View::AgentWizard => Some(Overlay::AgentWizard),
            View::RespawnConfirm => Some(Overlay::RespawnConfirm),
            _ => None,
        }
    }

    /// What is shown: what fills the screen, and what is shown over it.
    pub fn draw(&self) -> (parts: (Background, Option<Overlay>))
        ensures
            parts.0 == self.background(),
            parts.1 == self.overlay(),
    {
        match self.view {
            View::ProjectList => (Background::ProjectList, None),
            View::TaskList => (Background::ProjectDetail, None),
            View::Preview => (Background::Preview, None),
            View::DeleteConfirm => (Background::ProjectDetail, Some(Overlay::DeleteConfirm)),
            View::NewTaskWizard => (Background::ProjectDetail, Some(Overlay::NewTaskWizard)),
            View::DirectoryPicker => (Background::ProjectDetail, Some(Overlay::DirectoryPicker)),
            View::SessionPicker => (Background::Preview, Some(Overlay::SessionPicker)),
            View::Notifications => (Background::Notifications, None),
            View::Notes => (Background::Notes, None),
            View::ShowPrs => (Background::ShowPrs, None),
            View::Settings => (Background::Settings, None),
            View::Archive => {
                let overlay = if self.archive.preview.is_some() {
                    Some(Overlay::ArchivePreview)
                } else {
                    None
                };
                (Background::Archive, overlay)
            },
            View::ProjectWizard => (Background::ProjectList, Some(Overlay::ProjectWizard)),
            View::ProjectPicker => {
                let below = match &self.project_picker {
                    Some(picker) => match picker.action {
                        ProjectPickerAction::MigrateAllUnassigned => Background::ProjectList,
                    },
                    None => Background::ProjectDetail,
                };
                (below, Some(Overlay::ProjectPicker))
            },
            View::ProjectDeleteConfirm => (
                Background::ProjectList,
                Some(Overlay::ProjectDeleteConfirm),
            ),
            View::AgentWizard => (Background::ProjectDetail, Some(Overlay::AgentWizard)),
            View::RespawnConfirm => {
                let below = match self.respawn.confirm_return_view {
                    View::ProjectList => Background::ProjectList,
                    _ => Background::ProjectDetail,
                };
                (below, Some(Overlay::RespawnConfirm))
            },
        }
    }

    /// The height of the output pane: that of its lines and a border, up to a
    /// bound; none where there is no output, and during dialogs.
    pub open spec fn output_lines(self) -> int {
        let n = self.output.log@.len() as int;
        if n == 0 || is_modal(self.view) {
            0
        } else if n + 2 < 8 {
            n + 2
        } else {
            8
        }
    }

    /// The height of the output pane.
    pub fn output_height(&self) -> (height: u16)
        requires
            self.wf(),
        ensures
            height == self.output_lines(),
    {
        let modal = matches!(
            self.view,
            View::DeleteConfirm
                | View::NewTaskWizard
                | View::DirectoryPicker
                | View::SessionPicker
                | View::ProjectWizard
                | View::ProjectPicker
                | View::ProjectDeleteConfirm
                | View::AgentWizard
                | View::RespawnConfirm
        );
        let n = self.output.log.len();
        if n == 0 || modal {
            0
        } else if n + 2 < 8 {
            (n + 2) as u16
        } else {
            8
        }
    }

    /// The limits of the parts of the screen: the view, the output, and the
    /// status bar.
    pub fn screen_limits(&self) -> (limits: Vec<Limit>)
        requires
            self.wf(),
        ensures
            limits@ == seq![
                Limit::Min(10),
                Limit::Length(self.output_lines() as u16),
                Limit::Length(3),
            ],
    {
        let limits = vec![
            Limit::Min(10),
            Limit::Length(self.output_height()),
            Limit::Length(3),
        ];
        assert(limits@ =~= seq![
            Limit::Min(10),
            Limit::Length(self.output_lines() as u16),
            Limit::Length(3),
        ]);
        limits
    }
}

/// A dialog is shown over something, and only a dialog hides the output; the
/// preview of the archive is shown over it as well.
pub proof fn dialogs_are_shown_over_something(app: App)
    ensures
        is_modal(app.view) ==> app.overlay() is Some && app.output_lines() == 0,
        app.overlay() is Some ==> is_modal(app.view) || app.overlay() == Some(
            Overlay::ArchivePreview,
        ),
        app.output_lines() <= 8,
{
}

/// A view is shown on its own page, and a dialog over the page that it was opened
/// from; the output is as high as its lines and a border, up to a bound.
pub proof fn each_view_is_drawn(app: App)
    ensures
        app.view is ProjectList || app.view is ProjectWizard || app.view is ProjectDeleteConfirm
            ==> app.background() is ProjectList,
        app.view is TaskList || app.view is DeleteConfirm || app.view is NewTaskWizard
            || app.view is DirectoryPicker || app.view is AgentWizard
            ==> app.background() is ProjectDetail,
        app.view is Preview || app.view is SessionPicker ==> app.background() is Preview,
        app.view is RespawnConfirm && app.respawn.confirm_return_view is ProjectList
            ==> app.background() is ProjectList,
        app.view is RespawnConfirm && app.respawn.confirm_return_view is TaskList
            ==> app.background() is ProjectDetail,
        app.view is Notifications <==> app.background() is Notifications,
        app.view is Notes <==> app.background() is Notes,
        app.view is ShowPrs <==> app.background() is ShowPrs,
        app.view is Settings <==> app.background() is Settings,
        app.view is Archive <==> app.background() is Archive,
        app.view is Archive ==> (app.overlay() is Some <==> app.archive.preview is Some),
        app.view is DeleteConfirm <==> app.overlay() == Some(Overlay::DeleteConfirm),
        app.view is NewTaskWizard <==> app.overlay() == Some(Overlay::NewTaskWizard),
        app.view is DirectoryPicker <==> app.overlay() == Some(Overlay::DirectoryPicker),
        app.view is SessionPicker <==> app.overlay() == Some(Overlay::SessionPicker),
        app.view is ProjectWizard <==> app.overlay() == Some(Overlay::ProjectWizard),
        app.view is ProjectPicker <==> app.overlay() == Some(Overlay::ProjectPicker),
        app.view is ProjectDeleteConfirm <==> app.overlay() == Some(Overlay::ProjectDeleteConfirm),
        app.view is AgentWizard <==> app.overlay() == Some(Overlay::AgentWizard),
        app.view is RespawnConfirm <==> app.overlay() == Some(Overlay::RespawnConfirm),
        app.overlay() is None && 0 < app.output.log@.len() <= 6 ==> app.output_lines()
            == app.output.log@.len() + 2,
        app.overlay() is None && app.output.log@.len() > 6 ==> app.output_lines() == 8,
        app.output.log@.len() == 0 ==> app.output_lines() == 0,
{
}

/// The middle of an area is in its middle: it leaves as much room before it as
/// after it, to a few cells, and is as long as the share asks for, to one cell.
pub proof fn the_middle_is_in_the_middle(percent: u16, first: u16, len: u16)
    requires
        percent <= 100,
    ensures
        ({
            let middle = middle_span(percent, first, len);
            let before = middle.0 - first;
            let after = first + len - middle.1;
            &&& first <= middle.0 <= middle.1 <= first + len
            &&& -100 <= 100 * (middle.1 - middle.0) - percent * len <= 100
            &&& -100 <= 200 * before - (100 - percent) * len + (if percent % 2 == 0 {
                0int
            } else {
                len as int
            }) <= 100
            &&& percent % 2 == 0 ==> -2 <= before - after <= 2
        }),
{
    let side = (100 - percent) / 2;
    let a = side * len;
    let b = percent * len;
    assert(0 <= a && 0 <= b && a + b <= 100 * len) by (nonlinear_arith)
        requires
            a == side * len,
            b == percent * len,
            side >= 0,
            percent >= 0,
            len >= 0,
            side + percent <= 100,
    ;
    if percent % 2 == 0 {
        assert(2 * side == 100 - percent);
        assert(2 * a == (100 - percent) * len) by (nonlinear_arith)
            requires
                a == side * len,
                2 * side == 100 - percent,
        ;
        assert((100 - percent) * len == 100 * len - b) by (nonlinear_arith)
            requires
                b == percent * len,
        ;
    } else {
        assert(2 * side == 99 - percent);
        assert(2 * a == (100 - percent) * len - len) by (nonlinear_arith)
            requires
                a == side * len,
                2 * side == 99 - percent,
        ;
    }
}

} // verus!
