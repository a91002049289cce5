# MicShift

A Windows tray utility that switches the default recording device between two
chosen microphones, from its tray menu, from a console menu, or with global
hotkeys.

- `src/` is the verified library: the settings model (`config`), the hotkey
  presets (`presets`) and registrations (`hotkeys`), the capture-device model and
  COM result handling (`audio`), the tray program's decisions (`tray`), the console
  menu's input handling (`console`), Win32 values and wide-string conversions
  (`win32`), and the numeral and UTF-16 building blocks (`text`).
- `app/` is the program: the Win32 and COM calls, the settings file with its JSON
  form, the hidden window with its message loop, and the console menu (started
  with `--console`).
