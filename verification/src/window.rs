//! What the windows of the program have in common.

use vstd::prelude::*;

use crate::win32::WM_QUIT;

verus! {

/// A message to post to a window, its second parameter zero.
#[derive(Clone, Copy, PartialEq, Eq, Debug, Structural)]
pub struct Post {
    pub window: usize,
    pub msg: u32,
    pub wparam: usize,
}

/// A message to post to a thread, both parameters zero.
#[derive(Clone, Copy, PartialEq, Eq, Debug, Structural)]
pub struct ThreadPost {
    pub thread: u32,
    pub msg: u32,
}

/// What a request to show a window comes to.
#[derive(Clone, Copy, PartialEq, Eq, Debug, Structural)]
pub enum ShowAction {
    /// The window is open: it comes to the front.
    BringToFront(usize),
    /// The window is opened, on a thread of its own.
    Open,
}

/// A rectangle by its edges; the right and bottom ones lie outside.
#[derive(Clone, Copy, PartialEq, Eq, Debug, Structural)]
pub struct Rect {
    pub left: i32,
    pub top: i32,
    pub right: i32,
    pub bottom: i32,
}

/// A window by its position and size.
#[derive(Clone, Copy, PartialEq, Eq, Debug, Structural)]
pub struct Placement {
    pub x: i32,
    pub y: i32,
    pub width: i32,
    pub height: i32,
}

/// Half of a number, the fraction dropped.
pub open spec fn half_of(n: int) -> int {
    if n >= 0 {
        n / 2
    } else {
        -((-n) / 2)
    }
}

/// Half of a number, the fraction dropped.
pub fn half(n: i32) -> (h: i32)
    ensures
        h == half_of(n as int),
{
    n / 2
}

/// The number fits in 32 bits.
pub open spec fn fits(n: int) -> bool {
    i32::MIN <= n <= i32::MAX
}

/// Where an extent starts that lies in the middle of another.
pub fn centered(outer: i32, inner: i32) -> (start: i32)
    requires
        fits(outer - inner),
    ensures
        start == half_of(outer - inner),
{
    half(outer - inner)
}

/// A centred extent leaves as much room before it as after it, to within one pixel.
pub proof fn law_centered_leaves_even_margins(outer: int, inner: int)
    ensures
        ({
            let before = half_of(outer - inner);
            let after = outer - inner - before;
            -1 <= after - before <= 1
        }),
{
}

/// The windows that are opened once: shown again while open, one only comes to the front. No
/// window is open under the handle zero.
pub fn show_once(window: usize) -> (action: ShowAction)
    ensures
        action == if window != 0 {
            ShowAction::BringToFront(window)
        } else {
            ShowAction::Open
        },
{
    if window != 0 {
        ShowAction::BringToFront(window)
    } else {
        ShowAction::Open
    }
}

/// Whether a message loop goes on after this return value of `GetMessageW`: zero is the request
/// to quit, a negative value an error, and both end the loop.
pub fn goes_on(returned: i32) -> (on: bool)
    ensures
        on == (returned > 0),
{
    returned > 0
}

/// The message that ends the message loop of a thread, where the thread runs. No thread runs
/// under the number zero.
pub fn quit_thread(thread: u32) -> (post: Option<ThreadPost>)
    ensures
        post == if thread != 0 {
            Some(ThreadPost { thread, msg: WM_QUIT })
        } else {
            None
        },
{
    if thread != 0 {
        Some(ThreadPost { thread, msg: WM_QUIT })
    } else {
        None
    }
}

/// Of an odd rest, the pixel left over goes after a centred extent that fits, and before one that
/// does not.
pub proof fn law_centered_extent_leans_to_the_start(outer: int, inner: int)
    ensures
        ({
            let before = half_of(outer - inner);
            let after = outer - inner - before;
            &&& outer >= inner ==> 0 <= before <= after <= before + 1
            &&& outer < inner ==> before - 1 <= after <= before <= 0
        }),
{
}

/// A number fits exactly where it is one of the 32 bit numbers.
pub proof fn law_fitting_numbers_are_those_of_32_bits(n: int)
    ensures
        fits(n) <==> -0x8000_0000 <= n <= 0x7FFF_FFFF,
        fits(n) <==> n as i32 == n,
{
}

} // verus!
