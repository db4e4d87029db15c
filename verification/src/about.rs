//! The window about the program: a picture at the left; name, author, link and copyright at the
//! right.
//!
//! Measures are in pixels at 96 dots per inch; whoever paints scales them.

use vstd::prelude::*;

use crate::utf16::encode_utf16_nul;
use crate::win32::{WM_DESTROY, WM_LBUTTONUP, WM_PAINT, WM_SETCURSOR};
use crate::window::{show_once, Rect, ShowAction};

verus! {

pub const WINDOW_W: i32 = 480;

pub const WINDOW_H: i32 = 220;

pub const PADDING: i32 = 24;

pub const IMAGE_SIZE: i32 = 140;

pub const PROJECT_NAME: &'static str = "CapsLock Switcher";

pub const AUTHOR_LABEL: &'static str = "作者:Kasukabe Tsumugi";

pub const GITHUB_URL: &'static str = "https://github.com/baendlorel";

pub const COPYRIGHT: &'static str = "Copyright \u{00A9} 2026 Kasukabe Tsumugi. All rights reserved.";

/// The colour of the ground.
pub const GROUND_RGB: u32 = 0xF7F8FA;

/// Shows the window: it is opened once, and comes to the front when it is open already. `window`
/// is its handle, zero while it is closed.
pub fn show(window: usize) -> (action: ShowAction)
    ensures
        action == if window != 0 {
            ShowAction::BringToFront(window)
        } else {
            ShowAction::Open
        },
{
    show_once(window)
}

/// A colour, alpha first, made opaque whatever its alpha was.
pub fn argb_opaque(rgb: u32) -> (argb: u32)
    ensures
        argb == 0xFF00_0000 + rgb as int % 0x100_0000,
{
    assert((0xFF00_0000u32 | rgb) == 0xFF00_0000 + rgb % 0x100_0000) by (bit_vector);
    0xFF00_0000 | rgb
}

/// The distance of a line from an edge of the window.
#[derive(Clone, Copy, PartialEq, Eq, Debug, Structural)]
pub enum Anchor {
    /// From the top edge to the top of the line.
    Top(i32),
    /// From the bottom edge up to the top of the line.
    Bottom(i32),
}

/// A line of text.
#[derive(Clone, Copy, PartialEq, Eq, Debug)]
pub struct TextLine {
    pub anchor: Anchor,
    pub text: &'static str,
    pub size: i32,
    pub bold: bool,
    pub color: u32,
    /// The line is the one that the mouse reacts to.
    pub link: bool,
}

/// A line is made of these.
pub open spec fn line_is(
    line: TextLine,
    anchor: Anchor,
    text: Seq<char>,
    size: int,
    bold: bool,
    rgb: int,
    link: bool,
) -> bool {
    &&& line.anchor == anchor
    &&& line.text@ == text
    &&& line.size == size
    &&& line.bold == bold
    &&& line.color == 0xFF00_0000 + rgb
    &&& line.link == link
}

/// The lines of the window, from the top down.
pub fn on_paint() -> (lines: Vec<TextLine>)
    ensures
        lines@.len() == 4,
        line_is(lines@[0], Anchor::Top(28), PROJECT_NAME@, 20, true, 0x212527, false),
        line_is(lines@[1], Anchor::Top(70), AUTHOR_LABEL@, 14, false, 0x212527, false),
        line_is(lines@[2], Anchor::Top(100), GITHUB_URL@, 14, false, 0x0073FF, true),
        line_is(lines@[3], Anchor::Bottom(40), COPYRIGHT@, 12, false, 0x6B7078, false),
{
    vec![
        TextLine {
            anchor: Anchor::Top(28),
            text: PROJECT_NAME,
            size: 20,
            bold: true,
            color: argb_opaque(0x212527),
            link: false,
        },
        TextLine {
            anchor: Anchor::Top(70),
            text: AUTHOR_LABEL,
            size: 14,
            bold: false,
            color: argb_opaque(0x212527),
            link: false,
        },
        TextLine {
            anchor: Anchor::Top(100),
            text: GITHUB_URL,
            size: 14,
            bold: false,
            color: argb_opaque(0x0073FF),
            link: true,
        },
        TextLine {
            anchor: Anchor::Bottom(40),
            text: COPYRIGHT,
            size: 12,
            bold: false,
            color: argb_opaque(0x6B7078),
            link: false,
        },
    ]
}

/// The address of the link, closed by a NUL.
pub fn open_github() -> (url: Vec<u16>)
    ensures
        url@ == crate::utf16::utf16_nul(GITHUB_URL@),
{
    encode_utf16_nul(GITHUB_URL)
}

/// The point lies in the rectangle, whose right and bottom edges lie outside.
pub open spec fn inside(x: int, y: int, rect: Rect) -> bool {
    rect.left <= x < rect.right && rect.top <= y < rect.bottom
}

/// Whether the mouse at (`x`, `y`) is over the link.
pub fn cursor_over_link(x: i32, y: i32, link: Rect) -> (over: bool)
    ensures
        over == inside(x as int, y as int, link),
{
    x >= link.left && x < link.right && y >= link.top && y < link.bottom
}

/// Before the window was painted the link has no extent, and no point is over it.
pub proof fn law_unpainted_link_is_never_hit(x: int, y: int)
    ensures
        !inside(x, y, Rect { left: 0, top: 0, right: 0, bottom: 0 }),
{
}

/// What a window message means.
#[derive(Clone, Copy, PartialEq, Eq, Debug, Structural)]
pub enum AboutEvent {
    Paint,
    /// The mouse moves: its shape is to be chosen.
    Hover,
    /// The mouse was clicked.
    Click,
    Quit,
    /// Left to the system.
    Other,
}

/// What a window message means.
pub open spec fn about_event(msg: u32) -> AboutEvent {
    if msg == WM_PAINT {
        AboutEvent::Paint
    } else if msg == WM_SETCURSOR {
        AboutEvent::Hover
    } else if msg == WM_LBUTTONUP {
        AboutEvent::Click
    } else if msg == WM_DESTROY {
        AboutEvent::Quit
    } else {
        AboutEvent::Other
    }
}

/// Sorts the messages of the window.
pub fn wnd_proc(msg: u32) -> (event: AboutEvent)
    ensures
        event == about_event(msg),
{
    if msg == WM_PAINT {
        AboutEvent::Paint
    } else if msg == WM_SETCURSOR {
        AboutEvent::Hover
    } else if msg == WM_LBUTTONUP {
        AboutEvent::Click
    } else if msg == WM_DESTROY {
        AboutEvent::Quit
    } else {
        AboutEvent::Other
    }
}

/// What the mouse does.
#[derive(Clone, Copy, PartialEq, Eq, Debug, Structural)]
pub enum MouseAction {
    /// It takes the shape of a hand, and the message is done with.
    HandCursor,
    /// The link is opened.
    OpenLink,
    /// Nothing, and the message is done with.
    Nothing,
    /// Left to the system.
    Other,
}

/// What the mouse does at a point, the link being there where it was last painted.
pub open spec fn mouse_action(event: AboutEvent, x: int, y: int, link: Rect) -> MouseAction {
    match event {
        AboutEvent::Hover => if inside(x, y, link) {
            MouseAction::HandCursor
        } else {
            MouseAction::Other
        },
        AboutEvent::Click => if inside(x, y, link) {
            MouseAction::OpenLink
        } else {
            MouseAction::Nothing
        },
        _ => MouseAction::Other,
    }
}

/// What the mouse does at (`x`, `y`): over the link it is a hand, and a click opens the link. An
/// event of another kind is left to the system.
pub fn on_mouse(event: AboutEvent, x: i32, y: i32, link: Rect) -> (action: MouseAction)
    ensures
        action == mouse_action(event, x as int, y as int, link),
{
    match event {
        AboutEvent::Hover => {
            if cursor_over_link(x, y, link) {
                MouseAction::HandCursor
            } else {
                MouseAction::Other
            }
        },
        AboutEvent::Click => {
            if cursor_over_link(x, y, link) {
                MouseAction::OpenLink
            } else {
                MouseAction::Nothing
            }
        },
        _ => MouseAction::Other,
    }
}

/// The link is hit from its left and top edges on, up to but without its right and bottom ones;
/// moved together with the mouse it is hit just the same.
pub proof fn law_link_is_hit_between_its_edges(x: int, y: int, rect: Rect, moved: Rect, d: int)
    ensures
        inside(x, y, rect) <==> !(x < rect.left || x >= rect.right || y < rect.top || y
            >= rect.bottom),
        moved.left == rect.left + d && moved.right == rect.right + d && moved.top == rect.top + d
            && moved.bottom == rect.bottom + d ==> inside(x + d, y + d, moved) == inside(x, y, rect),
{
}

/// The mouse reacts to the link alone: moving over it makes a hand of it, a click on it opens it,
/// and a click elsewhere does nothing. Both go by the same extent.
pub proof fn law_mouse_reacts_to_the_link(msg: u32, x: int, y: int, link: Rect)
    ensures
        ({
            let action = mouse_action(about_event(msg), x, y, link);
            let over = link.left <= x && x < link.right && link.top <= y && y < link.bottom;
            &&& action == MouseAction::OpenLink <==> msg == WM_LBUTTONUP && over
            &&& action == MouseAction::Nothing <==> msg == WM_LBUTTONUP && !over
            &&& action == MouseAction::HandCursor <==> msg == WM_SETCURSOR && over
        }),
{
}

/// A window message means one thing, and what is none of the four is left to the system.
pub proof fn law_about_messages_are_told_apart(msg: u32)
    ensures
        about_event(msg) == AboutEvent::Paint <==> msg == WM_PAINT,
        about_event(msg) == AboutEvent::Hover <==> msg == WM_SETCURSOR,
        about_event(msg) == AboutEvent::Click <==> msg == WM_LBUTTONUP,
        about_event(msg) == AboutEvent::Quit <==> msg == WM_DESTROY,
{
}

} // verus!
