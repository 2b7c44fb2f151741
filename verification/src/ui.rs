//! What goes on screen: the panels, their texts, and the scroll offset that
//! each redraw brings up to date. Drawing itself is left to the caller.

use crate::app::App;
use crate::state::Popup;
use crate::text::{decimal, push_decimal};
use tui::layout::{Constraint, Direction, Layout};
use vstd::prelude::*;

verus! {

/// A rectangle of terminal cells.
#[derive(Clone, Copy, Debug, PartialEq, Eq, Structural)]
pub struct Rect {
    pub x: u16,
    pub y: u16,
    pub width: u16,
    pub height: u16,
}

/// The rows that the border of the list panel takes: one above, one below.
pub const BORDER_ROWS: u16 = 2;

/// The shares of the screen height, in percent, that the panels get from top
/// to bottom: the list panel alone, or the list panel above the command panel
/// while the jump overlay is open.
pub open spec fn panel_shares(popup: Popup) -> Seq<u16> {
    match popup {
        Popup::GotoCommand => seq![80u16, 20u16],
        Popup::Closed => seq![100u16],
    }
}

/// Whether `area` can be split by `shares`: the area ends within the largest
/// coordinate, and no share of its height leaves the range of `u16`.
pub open spec fn splittable(area: Rect, shares: Seq<u16>) -> bool {
    &&& area.x + area.width <= u16::MAX
    &&& area.y + area.height <= u16::MAX
    &&& forall|i: int| 0 <= i < shares.len() ==> #[trigger] shares[i] * area.height <= u16::MAX
}

/// The rows of the list panel that show records, for a screen of
/// `screen_height` rows: what the border leaves.
pub open spec fn viewport_rows(screen_height: u16) -> nat {
    if screen_height >= BORDER_ROWS {
        (screen_height - BORDER_ROWS) as nat
    } else {
        0
    }
}

/// The title of the list panel: the number of records and the selected
/// index, zero when nothing is selected.
pub open spec fn title_text(frames: nat, selected: Option<nat>) -> Seq<char> {
    "Frames: "@ + decimal(frames) + ", Selected: "@ + decimal(
        match selected {
            Some(i) => i,
            None => 0,
        },
    )
}

/// The line of the command panel: a prompt and the text typed so far.
pub open spec fn command_text(input: Seq<char>) -> Seq<char> {
    "go to frame: "@ + input
}

/// `Layout::split` of tui, on a layout that stacks its parts from top to
/// bottom with one `Constraint::Percentage` for each entry of `shares`. The
/// rectangles come out of a constraint solver that works in floating point
/// over hash maps, so nothing is claimed of them but their number: tui makes
/// one rectangle for each constraint. The call multiplies each share by the
/// height of the area in `u16`, and it asks the solver for parts that end
/// where the area ends without letting that end pass `u16::MAX`; `splittable`
/// keeps both in range.
#[verifier::external_body]
fn split_rows(area: &Rect, shares: &Vec<u16>) -> (rows: Vec<Rect>)
    requires
        splittable(*area, shares@),
    ensures
        rows@.len() == shares@.len(),
{
    let constraints: Vec<Constraint> = shares.iter().map(|p| Constraint::Percentage(*p)).collect();
    let area = tui::layout::Rect { x: area.x, y: area.y, width: area.width, height: area.height };
    let rows = Layout::default().direction(Direction::Vertical).constraints(constraints).split(area);
    rows.iter().map(|r| Rect { x: r.x, y: r.y, width: r.width, height: r.height }).collect()
}

/// The shares of the screen height that the panels get, see
/// [`panel_shares`].
pub fn panel_percentages(popup: Popup) -> (shares: Vec<u16>)
    ensures
        shares@ == panel_shares(popup),
{
    let shares: Vec<u16> = match popup {
        Popup::GotoCommand => vec![80, 20],
        Popup::Closed => vec![100],
    };
    assert(shares@ =~= panel_shares(popup));
    shares
}

/// Whether `rect` can be split into the panels that `popup` calls for.
pub fn can_split(popup: Popup, rect: &Rect) -> (fits: bool)
    ensures
        fits == splittable(*rect, panel_shares(popup)),
{
    if rect.x as u32 + rect.width as u32 > u16::MAX as u32 {
        return false;
    }
    if rect.y as u32 + rect.height as u32 > u16::MAX as u32 {
        return false;
    }
    let shares = panel_percentages(popup);
    let mut i: usize = 0;
    while i < shares.len()
        invariant
            i <= shares.len(),
            shares@ == panel_shares(popup),
            rect.x + rect.width <= u16::MAX,
            rect.y + rect.height <= u16::MAX,
            forall|j: int| 0 <= j < i ==> #[trigger] shares@[j] * rect.height <= u16::MAX,
        decreases shares.len() - i,
    {
        let share: u16 = shares[i];
        assert(share * rect.height <= 0xffff * 0xffff) by (nonlinear_arith)
            requires
                0 <= share <= 0xffff,
                0 <= rect.height <= 0xffff,
        ;
        if share as u32 * rect.height as u32 > u16::MAX as u32 {
            return false;
        }
        i = i + 1;
    }
    true
}

/// The panels of the screen `rect`, from top to bottom: the list panel, and
/// below it the command panel while the jump overlay is open. The layout
/// engine places them; it is asked for the shares that [`panel_percentages`] gives.
pub fn get_chunks(popup: Popup, rect: &Rect) -> (chunks: Vec<Rect>)
    requires
        splittable(*rect, panel_shares(popup)),
    ensures
        chunks@.len() == panel_shares(popup).len(),
{
    let shares = panel_percentages(popup);
    split_rows(rect, &shares)
}

/// The line of the command panel for the text `input`.
pub fn command_input(input: &str) -> (line: String)
    ensures
        line@ == command_text(input@),
{
    let mut line = "go to frame: ".to_owned();
    line.append(input);
    line
}

/// The title of the list panel of `app`.
pub fn list_title(app: &App) -> (title: String)
    ensures
        title@ == title_text(app@.records.len(), app@.selected),
{
    let mut title = "Frames: ".to_owned();
    push_decimal(&mut title, app.len() as u64);
    title.append(", Selected: ");
    let selected: usize = match app.selected() {
        Some(i) => i,
        None => 0,
    };
    push_decimal(&mut title, selected as u64);
    title
}

/// What one redraw puts on screen, besides the records themselves.
pub struct Screen {
    /// The panels from top to bottom: the list panel first.
    pub chunks: Vec<Rect>,
    /// The title of the list panel.
    pub title: String,
    /// The line of the command panel, while the jump overlay is open.
    pub command: Option<String>,
}

/// Prepares one redraw on the screen `area`: brings the scroll offset of
/// `app` up to date for the rows that the list panel has, and lays out the
/// panels and their texts.
pub fn ui(app: &mut App, area: &Rect) -> (screen: Screen)
    requires
        splittable(*area, panel_shares(old(app)@.popup)),
    ensures
        old(app).wf() ==> final(app).wf(),
        final(app)@ == old(app)@.rescroll(viewport_rows(area.height)),
        screen.chunks@.len() == panel_shares(old(app)@.popup).len(),
        screen.title@ == title_text(old(app)@.records.len(), old(app)@.selected),
        match screen.command {
            Some(line) => old(app)@.popup == Popup::GotoCommand && line@ == command_text(
                old(app)@.input,
            ),
            None => old(app)@.popup == Popup::Closed,
        },
{
    let chunks = get_chunks(app.popup(), area);
    let height: u16 = if area.height >= BORDER_ROWS {
        area.height - BORDER_ROWS
    } else {
        0
    };
    app.update_scroll(height as usize);
    let title = list_title(app);
    let command = match app.popup() {
        Popup::GotoCommand => Some(command_input(app.input())),
        Popup::Closed => None,
    };
    Screen { chunks, title, command }
}

} // verus!
