# capslock_switcher

CapsLock switches the input method on Windows, as it does on macOS; Alt+CapsLock locks capitals
as ever. A small overlay shows what was switched to, and a tray icon pauses, resumes and ends the
program.

- `src/` is the library, verified with Verus: what a key event comes to (`hooks`), how the input
  method is asked and switched (`probe`, `ime_toggle`, with the laws of whole runs in
  `ime_laws`), the overlay (`overlay`), the tray (`tray`), the task that starts the program at
  logon (`autostart`), and the contents of the two information windows (`about`, `readme`,
  `assets`). Whatever talks to Windows is a step: it names the call that it waits for, and a reply
  leads to the next step.
- `app/` is the program: it makes the Win32 calls, keeps the handles, and paints.
- `tests/` runs the library on concrete values.

Ctrl+Space must be set as the key that switches the input method between Chinese and English.
