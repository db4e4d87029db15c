//! The rules of a switcher that puts the input method on the CapsLock key.
//!
//! CapsLock switches between English and the native language of the input method, and leads a
//! Japanese one around its three modes; Alt+CapsLock locks capitals as ever. An overlay shows
//! what was switched to. Here stand the decisions: what a key event comes to, which Win32 call a
//! probe makes next, what is shown and where. The calls themselves are made by the program.

pub mod about;
pub mod assets;
pub mod autostart;
pub mod call_laws;
pub mod hooks;
pub mod ime_laws;
pub mod ime_toggle;
pub mod overlay;
pub mod probe;
pub mod readme;
pub mod tray;
pub mod utf16;
pub mod win32;
pub mod window;
