//! MicShift's logic: the settings and their file locations, the hotkey presets and
//! registrations, the tray menu and its commands, the console menu's input, and the
//! text conversions that the Windows calls need, each with its contract.

pub mod audio;
pub mod config;
pub mod console;
pub mod hotkeys;
pub mod presets;
pub mod text;
pub mod tray;
pub mod win32;
