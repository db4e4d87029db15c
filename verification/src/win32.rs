//! The Win32 values that the rules of the program are written in, and the ways in which a
//! message word is cut into its halves.

use vstd::prelude::*;

verus! {

// ---- virtual keys ----

pub const VK_CAPITAL: u16 = 0x14;

pub const VK_SPACE: u16 = 0x20;

pub const VK_LCONTROL: u16 = 0xA2;

pub const VK_LMENU: u16 = 0xA4;

pub const VK_RMENU: u16 = 0xA5;

// ---- flags of a low level keyboard event ----

pub const LLKHF_INJECTED: u32 = 0x10;

pub const LLKHF_ALTDOWN: u32 = 0x20;

pub const LLKHF_UP: u32 = 0x80;

// ---- flags of an injected key ----

pub const KEYEVENTF_KEYUP: u32 = 0x2;

pub const KEYEVENTF_SCANCODE: u32 = 0x8;

// ---- window messages ----

pub const WM_DESTROY: u32 = 0x0002;

pub const WM_PAINT: u32 = 0x000F;

pub const WM_QUIT: u32 = 0x0012;

pub const WM_SETCURSOR: u32 = 0x0020;

pub const WM_KEYDOWN: u32 = 0x0100;

pub const WM_SYSKEYDOWN: u32 = 0x0104;

pub const WM_COMMAND: u32 = 0x0111;

pub const WM_TIMER: u32 = 0x0113;

pub const WM_LBUTTONUP: u32 = 0x0202;

pub const WM_RBUTTONUP: u32 = 0x0205;

pub const WM_USER: u32 = 0x0400;

pub const WM_APP: u32 = 0x8000;

// ---- menu items ----

pub const MF_STRING: u32 = 0x0;

pub const MF_UNCHECKED: u32 = 0x0;

pub const MF_CHECKED: u32 = 0x8;

// ---- control codes of WM_IME_CONTROL and bits of the conversion mode ----

/// Asks an input method window for its conversion mode.
pub const IMC_GETCONVERSIONMODE: u32 = 0x0001;

/// Asks an input method window whether it is open.
pub const IMC_GETOPENSTATUS: u32 = 0x0005;

/// The bit `mask`, a power of two, is set in `value`.
pub open spec fn has_bit(value: int, mask: int) -> bool {
    (value / mask) % 2 == 1
}

/// A value cut to its low 32 bits.
pub open spec fn low_dword_of(value: int) -> int {
    value % 0x1_0000_0000
}

/// A value cut to its low 16 bits.
pub open spec fn low_word_of(value: int) -> int {
    value % 0x1_0000
}

/// The low 32 bits of a message parameter.
pub fn low_dword(value: usize) -> (low: u32)
    ensures
        low == low_dword_of(value as int),
{
    assert(value as u32 == (value as u64) % 0x1_0000_0000u64) by (bit_vector);
    #[verifier::truncate]
    (value as u32)
}

/// The low 16 bits of a message parameter.
pub fn low_word(value: usize) -> (low: u32)
    ensures
        low == low_word_of(value as int),
{
    assert((value & 0xFFFF) as u32 == value % 0x1_0000) by (bit_vector);
    (value & 0xFFFF) as u32
}

/// The low 16 bits of a signed message parameter.
pub fn low_word_signed(value: isize) -> (low: u32)
    ensures
        low == low_word_of(value as int),
{
    assert((value as u32) & 0xFFFF == (value as int) % 0x1_0000) by (bit_vector);
    (value as u32) & 0xFFFF
}

/// The values are those of the system headers.
pub proof fn law_values_are_those_of_the_system()
    ensures
        VK_CAPITAL == 0x14 && VK_SPACE == 0x20 && VK_LCONTROL == 0xA2 && VK_LMENU == 0xA4
            && VK_RMENU == 0xA5,
        LLKHF_INJECTED == 0x10 && LLKHF_ALTDOWN == 0x20 && LLKHF_UP == 0x80,
        KEYEVENTF_KEYUP == 0x2 && KEYEVENTF_SCANCODE == 0x8,
        WM_DESTROY == 0x2 && WM_PAINT == 0xF && WM_QUIT == 0x12 && WM_SETCURSOR == 0x20,
        WM_KEYDOWN == 0x100 && WM_SYSKEYDOWN == 0x104 && WM_COMMAND == 0x111 && WM_TIMER == 0x113,
        WM_LBUTTONUP == 0x202 && WM_RBUTTONUP == 0x205 && WM_USER == 0x400 && WM_APP == 0x8000,
        MF_STRING == 0 && MF_UNCHECKED == 0 && MF_CHECKED == 0x8,
        IMC_GETCONVERSIONMODE == 1 && IMC_GETOPENSTATUS == 5,
{
}

/// A cut value is the one number of its width that differs from the whole by a multiple of the
/// width's range.
pub proof fn law_cutting_drops_whole_ranges(value: int)
    ensures
        0 <= low_dword_of(value) < 0x1_0000_0000,
        (value - low_dword_of(value)) % 0x1_0000_0000 == 0,
        0 <= low_word_of(value) < 0x1_0000,
        (value - low_word_of(value)) % 0x1_0000 == 0,
{
}

} // verus!
