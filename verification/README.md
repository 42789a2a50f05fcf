# ctrl_ime_key

Tap the left Ctrl key to turn the Windows IME off, tap the right Ctrl key to
turn it on (for US keyboards).

- `src/` is the verified library (Verus): telling the Ctrl keys apart and
  recognising taps (`hook`), choosing how the IME is switched and the IMM32
  message exchange (`ime`), the tray menu, its commands and tooltip (`tray`),
  UTF-16 conversion (`wide`) and the command line (`cli`).
- `app/` is the Windows program around it: the low-level keyboard hook, the
  tray icon, `SendInput`, the console, and the message loop, all through
  `windows-sys`.
- `tests/` runs the library on concrete inputs.
