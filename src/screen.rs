use vstd::prelude::*;
use crate::session::{App, InputMode};
use crate::text::{decimal, decimal_text};
use tui::layout::{Constraint, Direction, Layout, Rect};

verus! {

/// How a panel is drawn: plainly, or highlighted in the colour of a mode.
#[derive(PartialEq, Eq, Structural, Clone, Copy, Debug)]
pub enum Highlight {
    Plain,
    Normal,
    Editing,
}

/// The panels of the screen, in the order that Tab walks them.
#[derive(PartialEq, Eq, Structural, Clone, Copy, Debug)]
pub enum Panel {
    Method,
    Url,
    Placeholder,
    Response,
    Logs,
}

/// The place of a panel in the order that Tab walks them.
pub open spec fn panel_index(p: Panel) -> nat {
    match p {
        Panel::Method => 0,
        Panel::Url => 1,
        Panel::Placeholder => 2,
        Panel::Response => 3,
        Panel::Logs => 4,
    }
}

impl Panel {
    /// The place of the panel in the order that Tab walks them.
    pub fn index(self) -> (r: usize)
        ensures
            r == panel_index(self),
    {
        match self {
            Panel::Method => 0,
            Panel::Url => 1,
            Panel::Placeholder => 2,
            Panel::Response => 3,
            Panel::Logs => 4,
        }
    }
}

/// A panel is highlighted when it is the active one, in the colour of the
/// current mode.
pub open spec fn highlight_of(active_panel: nat, this_panel: nat, mode: InputMode) -> Highlight {
    if active_panel == this_panel {
        match mode {
            InputMode::Normal => Highlight::Normal,
            InputMode::Editing => Highlight::Editing,
        }
    } else {
        Highlight::Plain
    }
}

/// How the panel at `this_window` is drawn while `current_window` is active.
pub fn get_style(current_window: usize, this_window: usize, input_mode: InputMode) -> (r: Highlight)
    ensures
        r == highlight_of(current_window as nat, this_window as nat, input_mode),
{
    if current_window == this_window {
        match input_mode {
            InputMode::Normal => Highlight::Normal,
            InputMode::Editing => Highlight::Editing,
        }
    } else {
        Highlight::Plain
    }
}

/// The number of terminal columns that a text takes.
pub uninterp spec fn display_width(s: Seq<char>) -> usize;

/// Relies on `UnicodeWidthStr::width` of unicode-width: the columns that a
/// text takes, which depend on its characters alone and are 0 for no text.
#[verifier::external_body]
fn text_width(s: &str) -> (r: usize)
    ensures
        r == display_width(s@),
        s@.len() == 0 ==> r == 0,
{
    unicode_width::UnicodeWidthStr::width(s)
}

/// `v`, or the largest `u16` where `v` is larger.
pub open spec fn clamp_u16(v: int) -> u16 {
    if v > u16::MAX {
        u16::MAX
    } else {
        v as u16
    }
}

/// Where the cursor stands in the URL field whose top left corner is at
/// `(x, y)` and whose text is `width` columns wide: one cell past the text,
/// one row below the top border, and only while editing.
pub open spec fn cursor_at(mode: InputMode, x: u16, y: u16, width: nat) -> Option<(u16, u16)> {
    match mode {
        InputMode::Normal => None,
        InputMode::Editing => Some((clamp_u16(x + width + 1), clamp_u16(y + 1))),
    }
}

/// The cursor position for a URL text `text_width` columns wide in a field
/// at `(area_x, area_y)`; `None` hides the cursor.
pub fn cursor_position(input_mode: InputMode, area_x: u16, area_y: u16, text_width: usize) -> (r:
    Option<(u16, u16)>)
    ensures
        r == cursor_at(input_mode, area_x, area_y, text_width as nat),
{
    match input_mode {
        InputMode::Normal => None,
        InputMode::Editing => {
            let x: u16 = if text_width >= 65535 || area_x as usize + text_width + 1 > 65535 {
                65535
            } else {
                (area_x as usize + text_width + 1) as u16
            };
            let y: u16 = if area_y == 65535 {
                65535
            } else {
                area_y + 1
            };
            Some((x, y))
        },
    }
}

/// `": "`, between the number of a log line and its message.
pub open spec fn log_separator() -> Seq<char> {
    seq![':', ' ']
}

/// The log entry at `index` as it is shown: `"<index>: <message>"`.
pub open spec fn log_line(index: nat, message: Seq<char>) -> Seq<char> {
    decimal(index) + log_separator() + message
}

impl App {
    /// How `panel` is drawn in the current state.
    pub fn panel_highlight(&self, panel: Panel) -> (r: Highlight)
        ensures
            r == highlight_of(self@.active_panel, panel_index(panel), self@.mode),
    {
        get_style(self.active_panel(), panel.index(), self.input_mode())
    }

    /// Where the cursor stands in the URL field whose top left corner is at
    /// `(area_x, area_y)`; `None` while not editing.
    pub fn url_cursor(&self, area_x: u16, area_y: u16) -> (r: Option<(u16, u16)>)
        ensures
            r == cursor_at(self@.mode, area_x, area_y, display_width(self@.url) as nat),
    {
        let w = text_width(self.url());
        cursor_position(self.input_mode(), area_x, area_y, w)
    }

    /// The log entries as they are shown, numbered from 0 in the order they
    /// were written.
    pub fn log_lines(&self) -> (r: Vec<String>)
        ensures
            r@.len() == self@.logs.len(),
            forall|i: int| 0 <= i < r@.len() ==> #[trigger] r@[i]@ == log_line(i as nat, self@.logs[i]),
    {
        let logs = self.logs();
        let mut out: Vec<String> = Vec::new();
        let mut i: usize = 0;
        while i < logs.len()
            invariant
                logs@.len() == self@.logs.len(),
                forall|j: int| 0 <= j < logs@.len() ==> #[trigger] logs@[j]@ == self@.logs[j],
                i <= logs@.len(),
                out@.len() == i,
                forall|j: int| 0 <= j < i ==> #[trigger] out@[j]@ == log_line(j as nat, self@.logs[j]),
            decreases logs.len() - i,
        {
            let mut line = decimal_text(i);
            let sep = ": ";
            proof {
                reveal_strlit(": ");
                assert(sep@ =~= log_separator());
            }
            line.append(sep);
            line.append(logs[i].as_str());
            out.push(line);
            i = i + 1;
        }
        out
    }
}

/// A rectangle of terminal cells: its top left corner and its size.
#[derive(PartialEq, Eq, Structural, Clone, Copy, Debug)]
pub struct Area {
    pub x: u16,
    pub y: u16,
    pub width: u16,
    pub height: u16,
}

/// The largest right or bottom edge of a screen that is laid out: the layout
/// engine multiplies a percentage, up to 100, by a length in 16 bits.
pub const LAYOUT_LIMIT: u16 = 655;

/// The right edge of `a` stays at or left of that of `b`, and its bottom edge
/// at or above that of `b`.
pub open spec fn ends_within(a: Area, b: Area) -> bool {
    a.x + a.width <= b.x + b.width && a.y + a.height <= b.y + b.height
}

/// `area` shrunk by `margin` cells on every side, or the empty area at the
/// origin where the margin does not fit.
pub open spec fn inner_of(area: Area, margin: u16) -> Area {
    if area.width < 2 * margin || area.height < 2 * margin {
        Area { x: 0, y: 0, width: 0, height: 0 }
    } else {
        Area {
            x: (area.x + margin) as u16,
            y: (area.y + margin) as u16,
            width: (area.width - 2 * margin) as u16,
            height: (area.height - 2 * margin) as u16,
        }
    }
}

/// Cuts `area` in two: along the height where `vertical`, else along the
/// width, inside a margin of `margin` cells on every side, aiming at `first`
/// and `second` percent of the room.
/// Relies on tui's `Layout::split`, on a layout with the given direction,
/// margin and two percentage constraints: one area per constraint, laid out
/// in `Rect::inner` of the margin. The solver keeps each part inside the area
/// (required constraints `right <= area.right`, `bottom <= area.bottom`, with
/// values truncated down) and across the whole inner area (required
/// constraints on `x` and `width` of a vertical layout, on `y` and `height`
/// of a horizontal one), and starts the first part at the inner area's near
/// edge (a required constraint on its top, or its left); `split` then stretches the last part to the inner
/// area's far edge. Where the cut falls is the solver's choice, so nothing is
/// stated of it. The bounds keep its 16-bit arithmetic (percentage times
/// length, edges, margins) from overflowing.
#[verifier::external_body]
fn split_two(area: Area, vertical: bool, margin: u16, first: u16, second: u16) -> (r: (Area, Area))
    requires
        area.x + area.width <= LAYOUT_LIMIT,
        area.y + area.height <= LAYOUT_LIMIT,
        margin <= LAYOUT_LIMIT,
        first <= 100,
        second <= 100,
    ensures
        ends_within(r.0, area),
        ends_within(r.1, area),
        vertical ==> r.0.y == inner_of(area, margin).y && r.0.x == inner_of(area, margin).x && r.0.width == inner_of(area, margin).width
            && r.1.x == inner_of(area, margin).x && r.1.width == inner_of(area, margin).width
            && r.1.y + r.1.height == inner_of(area, margin).y + inner_of(area, margin).height,
        !vertical ==> r.0.x == inner_of(area, margin).x && r.0.y == inner_of(area, margin).y && r.0.height == inner_of(area, margin).height
            && r.1.y == inner_of(area, margin).y && r.1.height == inner_of(area, margin).height
            && r.1.x + r.1.width == inner_of(area, margin).x + inner_of(area, margin).width,
{
    let direction = if vertical { Direction::Vertical } else { Direction::Horizontal };
    let p = Layout::default().direction(direction).margin(margin).constraints(
        [Constraint::Percentage(first), Constraint::Percentage(second)],
    ).split(Rect { x: area.x, y: area.y, width: area.width, height: area.height });
    (
        Area { x: p[0].x, y: p[0].y, width: p[0].width, height: p[0].height },
        Area { x: p[1].x, y: p[1].y, width: p[1].width, height: p[1].height },
    )
}

/// Where each panel is drawn.
#[derive(PartialEq, Eq, Structural, Clone, Copy, Debug)]
pub struct ScreenLayout {
    pub method: Area,
    pub url: Area,
    pub placeholder: Area,
    pub response: Area,
    pub logs: Area,
}

/// `v`, or `limit` where `v` is larger.
pub open spec fn at_most(v: u16, limit: u16) -> u16 {
    if v > limit {
        limit
    } else {
        v
    }
}

/// The part of `size` that is laid out: its corner and size cut down so that
/// its edges stay within `LAYOUT_LIMIT`.
pub open spec fn fitted(size: Area) -> Area {
    let x = at_most(size.x, LAYOUT_LIMIT);
    let y = at_most(size.y, LAYOUT_LIMIT);
    Area {
        x,
        y,
        width: at_most(size.width, (LAYOUT_LIMIT - x) as u16),
        height: at_most(size.height, (LAYOUT_LIMIT - y) as u16),
    }
}

/// Lays the panels out on a screen of `size` (up to `LAYOUT_LIMIT` cells
/// each way): inside a one-cell margin, a top strip of 5% (method 10%, URL
/// 90% of its width) over a body of 90% (placeholder 20%, and 80% split into
/// response 90% over logs 10%). Every panel ends within the fitted screen.
/// Method starts at the inner top left corner, and URL shares its row and
/// reaches the right edge. Placeholder starts at the inner left edge, on the
/// row where response starts, and reaches the bottom. Logs lie in the
/// response's column and reach the bottom right corner.
pub fn screen_layout(size: Area) -> (r: ScreenLayout)
    ensures
        ends_within(r.method, fitted(size)),
        ends_within(r.url, fitted(size)),
        ends_within(r.placeholder, fitted(size)),
        ends_within(r.response, fitted(size)),
        ends_within(r.logs, fitted(size)),
        r.method.x == inner_of(fitted(size), 1).x,
        r.method.y == inner_of(fitted(size), 1).y,
        r.method.y == r.url.y,
        r.method.height == r.url.height,
        r.url.x + r.url.width == inner_of(fitted(size), 1).x + inner_of(fitted(size), 1).width,
        r.placeholder.x == inner_of(fitted(size), 1).x,
        r.placeholder.y == r.response.y,
        r.placeholder.y + r.placeholder.height == inner_of(fitted(size), 1).y + inner_of(
            fitted(size),
            1,
        ).height,
        r.response.x == r.logs.x,
        r.response.width == r.logs.width,
        r.logs.x + r.logs.width == inner_of(fitted(size), 1).x + inner_of(fitted(size), 1).width,
        r.logs.y + r.logs.height == inner_of(fitted(size), 1).y + inner_of(fitted(size), 1).height,
{
    let x = if size.x > LAYOUT_LIMIT { LAYOUT_LIMIT } else { size.x };
    let y = if size.y > LAYOUT_LIMIT { LAYOUT_LIMIT } else { size.y };
    let width = if size.width > LAYOUT_LIMIT - x { LAYOUT_LIMIT - x } else { size.width };
    let height = if size.height > LAYOUT_LIMIT - y { LAYOUT_LIMIT - y } else { size.height };
    let fit = Area { x, y, width, height };
    let (top, body) = split_two(fit, true, 1, 5, 90);
    let (method, url) = split_two(top, false, 0, 10, 90);
    let (placeholder, right) = split_two(body, false, 0, 20, 80);
    let (response, logs) = split_two(right, true, 0, 90, 10);
    ScreenLayout { method, url, placeholder, response, logs }
}

} // verus!
