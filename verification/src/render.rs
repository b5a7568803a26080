//! Draw commands and the per-frame redraw policy.
//!
//! The refresh loop does not touch the display directly: it emits a short
//! list of draw commands that the hardware layer carries out in order.
//! Each text line owns a fixed background rectangle; a frame first fills
//! that rectangle with the background colour (erasing stale glyphs) and
//! then draws the new line, so no stale partial draw survives a frame.

use vstd::prelude::*;
use crate::text::{counter_text, render_counter_line, render_time_line, time_text};

verus! {

/// Width of the display surface in pixels.
pub const DISPLAY_WIDTH: u32 = 128;

/// Height of the display surface in pixels.
pub const DISPLAY_HEIGHT: u32 = 128;

/// Left edge of both text background rectangles.
pub const REGION_X: i32 = 0;

/// Width of both text background rectangles.
pub const REGION_WIDTH: u32 = 128;

/// Height of both text background rectangles.
pub const REGION_HEIGHT: u32 = 20;

/// Top edge of the time line's background rectangle.
pub const TIME_REGION_Y: i32 = 21;

/// Top edge of the counter line's background rectangle.
pub const COUNTER_REGION_Y: i32 = 41;

/// Horizontal anchor of every text line.
pub const TEXT_X: i32 = 10;

/// Vertical anchor of the startup greeting line.
pub const GREETING_Y: i32 = 20;

/// Vertical anchor of the time line.
pub const TIME_TEXT_Y: i32 = 40;

/// Vertical anchor of the counter line.
pub const COUNTER_TEXT_Y: i32 = 60;

/// The two colours the panel uses: a background fill and a text colour.
/// The hardware layer maps them to the display's native colour type.
#[derive(Clone, Copy, PartialEq, Eq, Structural, Debug)]
pub enum Color {
    Blue,
    White,
}

/// One display operation, carried out by the hardware layer in list order.
#[derive(PartialEq, Debug)]
pub enum DrawCmd {
    /// Fill the whole surface with one colour.
    Clear { color: Color },
    /// Fill the axis-aligned rectangle at `(x, y)` of the given size.
    FillRect { x: i32, y: i32, width: u32, height: u32, color: Color },
    /// Draw one text line anchored at `(x, y)`.
    Text { x: i32, y: i32, text: String, color: Color },
}

/// The mathematical shape of a draw command: coordinates as integers and
/// the text as a character sequence.
pub enum CmdView {
    Clear { color: Color },
    FillRect { x: int, y: int, width: int, height: int, color: Color },
    Text { x: int, y: int, text: Seq<char>, color: Color },
}

impl View for DrawCmd {
    type V = CmdView;

    open spec fn view(&self) -> CmdView {
        match self {
            DrawCmd::Clear { color } => CmdView::Clear { color: *color },
            DrawCmd::FillRect { x, y, width, height, color } => CmdView::FillRect {
                x: *x as int,
                y: *y as int,
                width: *width as int,
                height: *height as int,
                color: *color,
            },
            DrawCmd::Text { x, y, text, color } => CmdView::Text {
                x: *x as int,
                y: *y as int,
                text: text@,
                color: *color,
            },
        }
    }
}

/// The views of a command list, in order.
pub open spec fn views_of(s: Seq<DrawCmd>) -> Seq<CmdView> {
    s.map_values(|c: DrawCmd| c@)
}

/// The commands one completed refresh iteration emits: erase and redraw
/// the time line for the seconds reading taken at the start of the
/// iteration, then erase and redraw the counter line for the counter
/// value after this cycle's edges.
pub open spec fn frame_cmd_views(secs: nat, count: nat) -> Seq<CmdView> {
    seq![
        CmdView::FillRect {
            x: REGION_X as int,
            y: TIME_REGION_Y as int,
            width: REGION_WIDTH as int,
            height: REGION_HEIGHT as int,
            color: Color::Blue,
        },
        CmdView::Text { x: TEXT_X as int, y: TIME_TEXT_Y as int, text: time_text(secs), color: Color::White },
        CmdView::FillRect {
            x: REGION_X as int,
            y: COUNTER_REGION_Y as int,
            width: REGION_WIDTH as int,
            height: REGION_HEIGHT as int,
            color: Color::Blue,
        },
        CmdView::Text { x: TEXT_X as int, y: COUNTER_TEXT_Y as int, text: counter_text(count), color: Color::White },
    ]
}

/// The commands emitted once at startup: fill the surface with the
/// background colour and draw the greeting line.
pub open spec fn startup_cmd_views() -> Seq<CmdView> {
    seq![
        CmdView::Clear { color: Color::Blue },
        CmdView::Text { x: TEXT_X as int, y: GREETING_Y as int, text: "Hello, world!"@, color: Color::White },
    ]
}

/// Build the draw commands of one refresh iteration.
pub fn frame_cmds(secs: u64, count: u64) -> (cmds: Vec<DrawCmd>)
    ensures
        views_of(cmds@) == frame_cmd_views(secs as nat, count as nat),
{
    let mut cmds: Vec<DrawCmd> = Vec::new();
    cmds.push(
        DrawCmd::FillRect {
            x: REGION_X,
            y: TIME_REGION_Y,
            width: REGION_WIDTH,
            height: REGION_HEIGHT,
            color: Color::Blue,
        },
    );
    cmds.push(DrawCmd::Text { x: TEXT_X, y: TIME_TEXT_Y, text: render_time_line(secs), color: Color::White });
    cmds.push(
        DrawCmd::FillRect {
            x: REGION_X,
            y: COUNTER_REGION_Y,
            width: REGION_WIDTH,
            height: REGION_HEIGHT,
            color: Color::Blue,
        },
    );
    cmds.push(DrawCmd::Text { x: TEXT_X, y: COUNTER_TEXT_Y, text: render_counter_line(count), color: Color::White });
    proof {
        assert(views_of(cmds@) =~= frame_cmd_views(secs as nat, count as nat));
    }
    cmds
}

/// Build the startup draw commands.
pub fn startup_cmds() -> (cmds: Vec<DrawCmd>)
    ensures
        views_of(cmds@) == startup_cmd_views(),
{
    let mut cmds: Vec<DrawCmd> = Vec::new();
    cmds.push(DrawCmd::Clear { color: Color::Blue });
    cmds.push(
        DrawCmd::Text { x: TEXT_X, y: GREETING_Y, text: String::from_str("Hello, world!"), color: Color::White },
    );
    proof {
        assert(views_of(cmds@) =~= startup_cmd_views());
    }
    cmds
}

/// What is visible on the display, reduced to the two text lines the
/// panel ever draws: the content at the time anchor and at the counter
/// anchor. An empty sequence means the spot shows only background.
pub struct ScreenModel {
    pub time_text: Seq<char>,
    pub counter_text: Seq<char>,
}

/// Whether the rectangle at `(x, y)` of the given size covers the pixel
/// `(px, py)`.
pub open spec fn rect_contains(x: int, y: int, width: int, height: int, px: int, py: int) -> bool {
    x <= px < x + width && y <= py < y + height
}

/// The screen after one draw command: a clear or a covering fill erases a
/// line, a text draw at a line's anchor replaces it.
pub open spec fn apply_cmd(m: ScreenModel, c: CmdView) -> ScreenModel {
    match c {
        CmdView::Clear { .. } => ScreenModel { time_text: Seq::empty(), counter_text: Seq::empty() },
        CmdView::FillRect { x, y, width, height, .. } => ScreenModel {
            time_text: if rect_contains(x, y, width, height, TEXT_X as int, TIME_TEXT_Y as int) {
                Seq::empty()
            } else {
                m.time_text
            },
            counter_text: if rect_contains(x, y, width, height, TEXT_X as int, COUNTER_TEXT_Y as int) {
                Seq::empty()
            } else {
                m.counter_text
            },
        },
        CmdView::Text { x, y, text, .. } => ScreenModel {
            time_text: if x == TEXT_X as int && y == TIME_TEXT_Y as int {
                text
            } else {
                m.time_text
            },
            counter_text: if x == TEXT_X as int && y == COUNTER_TEXT_Y as int {
                text
            } else {
                m.counter_text
            },
        },
    }
}

/// The screen after a command list, applied in order.
pub open spec fn apply_cmds(m: ScreenModel, s: Seq<CmdView>) -> ScreenModel
    decreases s.len(),
{
    if s.len() == 0 {
        m
    } else {
        apply_cmds(apply_cmd(m, s[0]), s.subrange(1, s.len() as int))
    }
}

} // verus!
