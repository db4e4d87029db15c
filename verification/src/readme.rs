//! The window to read before use: a picture at the top, the instructions below it.
//!
//! Measures are in pixels at 96 dots per inch; whoever paints scales them.

use vstd::prelude::*;

use crate::win32::{WM_DESTROY, WM_PAINT};
use crate::window::{show_once, ShowAction};

verus! {

/// The width inside the frame.
pub const WINDOW_W: i32 = 440;

pub const PADDING: i32 = 24;

/// The width of the picture; its height keeps the proportions.
pub const IMAGE_W: i32 = 180;

/// The room between the picture and the text.
pub const IMG_TEXT_GAP: i32 = 16;

/// The size of the text.
pub const FONT_SIZE: i32 = 14;

/// The colour of the ground.
pub const GROUND_ARGB: u32 = 0xFFF7_F8FA;

/// The colour of the text.
pub const TEXT_ARGB: u32 = 0xFF21_2527;

/// A paragraph of the instructions.
#[derive(Clone, Copy, PartialEq, Eq, Debug)]
pub struct Paragraph {
    pub text: &'static str,
    pub bold: bool,
    /// The room after it.
    pub space_after: i32,
}

/// A paragraph is made of these.
pub open spec fn paragraph_is(p: Paragraph, text: Seq<char>, bold: bool, space_after: int) -> bool {
    &&& p.text@ == text
    &&& p.bold == bold
    &&& p.space_after == space_after
}

/// The instructions, from the top down.
pub fn paragraphs() -> (ps: Vec<Paragraph>)
    ensures
        ps@.len() == 4,
        paragraph_is(ps@[0], "使用前请先将中英文输入法切换键设为 Ctrl+Space。"@, true, 16),
        paragraph_is(ps@[1], "快捷键："@, true, 6),
        paragraph_is(
            ps@[2],
            "CapsLock：切换中英文；日语输入法下切换平假名/片假名/英文。"@,
            false,
            4,
        ),
        paragraph_is(ps@[3], "Alt+CapsLock：原生大小写锁定。"@, false, 0),
{
    vec![
        Paragraph {
            text: "使用前请先将中英文输入法切换键设为 Ctrl+Space。",
            bold: true,
            space_after: 16,
        },
        Paragraph { text: "快捷键：", bold: true, space_after: 6 },
        Paragraph {
            text: "CapsLock：切换中英文；日语输入法下切换平假名/片假名/英文。",
            bold: false,
            space_after: 4,
        },
        Paragraph { text: "Alt+CapsLock：原生大小写锁定。", bold: false, space_after: 0 },
    ]
}

/// Shows the window: it is opened once, and comes to the front when it is open already. `window`
/// is its handle, zero while it is closed.
pub fn show(window: usize) -> (action: ShowAction)
    ensures
        action == if window != 0 {
            ShowAction::BringToFront(window)
        } else {
            ShowAction::Open
        },
{
    show_once(window)
}

/// What a window message means.
#[derive(Clone, Copy, PartialEq, Eq, Debug, Structural)]
pub enum ReadmeEvent {
    Paint,
    Quit,
    /// Left to the system.
    Other,
}

/// What a window message means.
pub open spec fn readme_event(msg: u32) -> ReadmeEvent {
    if msg == WM_PAINT {
        ReadmeEvent::Paint
    } else if msg == WM_DESTROY {
        ReadmeEvent::Quit
    } else {
        ReadmeEvent::Other
    }
}

/// Sorts the messages of the window.
pub fn wnd_proc(msg: u32) -> (event: ReadmeEvent)
    ensures
        event == readme_event(msg),
{
    if msg == WM_PAINT {
        ReadmeEvent::Paint
    } else if msg == WM_DESTROY {
        ReadmeEvent::Quit
    } else {
        ReadmeEvent::Other
    }
}

/// The window paints and ends when it is told to, and leaves every other message to the system.
pub proof fn law_readme_messages_are_told_apart(msg: u32)
    ensures
        readme_event(msg) == ReadmeEvent::Paint <==> msg == WM_PAINT,
        readme_event(msg) == ReadmeEvent::Quit <==> msg == WM_DESTROY,
{
}

} // verus!
