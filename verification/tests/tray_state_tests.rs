use micshift::audio::AudioDevice;
use micshift::config::{with_hotkey, with_mic_selection, AppConfig, HotkeyConfig};
use micshift::tray::{
    item_extent, mic_menu, reload_plan, settle_hotkey_change, settle_reload, settle_selection,
    slot_menu_entries, tray_menu, ChangeOutcome, MenuEntry, MenuItem, ReloadPlan, SubmenuKind,
    TraySettings, CMD_EXIT, CMD_OPEN_CONSOLE, CMD_SWITCH_MIC2,
};
use micshift::win32::{MF_STRING, NIIF_INFO};

fn state(config: AppConfig, time: u64) -> TraySettings<u64> {
    TraySettings { config, file_time: time }
}

fn alt_f9() -> HotkeyConfig {
    HotkeyConfig { modifiers: 1, vk: 0x78, display: "Alt+F9".into() }
}

#[test]
fn reload_keeps_equal_settings() {
    let old = AppConfig::default();
    let s = settle_reload(state(old.clone(), 1), ReloadPlan::Keep, AppConfig::default(), 2, Ok(()));
    assert_eq!(s.state, state(old, 2));
    assert!(!s.restore_hotkeys);
    assert_eq!(s.error, None);
}

#[test]
fn reload_adopts_new_settings() {
    let old = AppConfig::default();
    let dev = AudioDevice { id: "x".into(), name: "X".into() };
    let new = with_mic_selection(old.clone(), 1, &dev);
    assert_eq!(reload_plan(&old, &new), ReloadPlan::Adopt);
    let s = settle_reload(state(old, 1), ReloadPlan::Adopt, new.clone(), 5, Ok(()));
    assert_eq!(s.state, state(new, 5));
}

#[test]
fn reload_with_failed_hotkeys_keeps_old_settings() {
    let old = AppConfig::default();
    let new = with_hotkey(old.clone(), 1, alt_f9());
    assert_eq!(reload_plan(&old, &new), ReloadPlan::AdoptWithHotkeys);
    let s = settle_reload(state(old.clone(), 1), ReloadPlan::AdoptWithHotkeys, new.clone(), 9, Err("taken".into()));
    assert_eq!(s.state, state(old, 9));
    assert!(s.restore_hotkeys);
    assert_eq!(s.error.as_deref(), Some("Settings changed, but hotkeys could not be reloaded: taken"));
    let ok = settle_reload(state(AppConfig::default(), 1), ReloadPlan::AdoptWithHotkeys, new.clone(), 9, Ok(()));
    assert_eq!(ok.state, state(new, 9));
    assert!(!ok.restore_hotkeys);
}

#[test]
fn hotkey_change_outcomes() {
    let old = AppConfig::default();
    let new = with_hotkey(old.clone(), 2, alt_f9());
    let done = settle_hotkey_change(state(old.clone(), 1), new.clone(), 2, &alt_f9(), ChangeOutcome::Saved(4));
    assert_eq!(done.settled.state, state(new.clone(), 4));
    assert!(!done.settled.restore_hotkeys);
    let notice = done.notice.unwrap();
    assert_eq!((notice.title.as_str(), notice.message.as_str(), notice.icon), ("Hotkey updated", "Mic 2: Alt+F9", NIIF_INFO));

    let failed = settle_hotkey_change(state(old.clone(), 1), new.clone(), 2, &alt_f9(), ChangeOutcome::RegistrationFailed("busy".into()));
    assert_eq!(failed.settled.state, state(old.clone(), 1));
    assert!(failed.settled.restore_hotkeys);
    assert_eq!(failed.settled.error.as_deref(), Some("busy"));
    assert!(failed.notice.is_none());

    let unsaved = settle_hotkey_change(state(old.clone(), 1), new, 2, &alt_f9(), ChangeOutcome::SaveFailed("disk".into()));
    assert_eq!(unsaved.settled.state, state(old, 1));
    assert_eq!(unsaved.settled.error.as_deref(), Some("disk"));
}

#[test]
fn selection_outcomes() {
    let old = AppConfig::default();
    let dev = AudioDevice { id: "x".into(), name: "X".into() };
    let new = with_mic_selection(old.clone(), 2, &dev);
    assert_eq!(settle_selection(state(old.clone(), 1), new.clone(), Ok(3)), (state(new.clone(), 3), None));
    assert_eq!(settle_selection(state(old.clone(), 1), new, Err("no".into())), (state(old, 1), Some("no".to_string())));
}

#[test]
fn tray_menu_layout() {
    let c = AppConfig::default();
    let m = tray_menu(&c);
    assert_eq!(m.len(), 8);
    assert_eq!(m[0], MenuEntry::Banner);
    assert_eq!(m[1], MenuEntry::Separator);
    assert_eq!(m[2], MenuEntry::Item(MenuItem { flags: MF_STRING, id: CMD_OPEN_CONSOLE, text: "Open Console Menu".into() }));
    assert_eq!(m[3], MenuEntry::Separator);
    assert_eq!(m[4], MenuEntry::Submenu(SubmenuKind::Slot(1), "Mic 1: Not configured  [Ctrl+F4]".into()));
    assert_eq!(m[5], MenuEntry::Submenu(SubmenuKind::Slot(2), "Mic 2: Not configured  [Ctrl+F5]".into()));
    assert_eq!(m[6], MenuEntry::Separator);
    assert_eq!(m[7], MenuEntry::Item(MenuItem { flags: MF_STRING, id: CMD_EXIT, text: "Exit".into() }));
}

#[test]
fn slot_menu_layout() {
    let plan = mic_menu(2, &AppConfig::default());
    let m = slot_menu_entries(&plan);
    assert_eq!(
        m,
        vec![
            MenuEntry::Item(MenuItem { flags: MF_STRING, id: CMD_SWITCH_MIC2, text: "Switch to Mic 2 now".into() }),
            MenuEntry::Separator,
            MenuEntry::Submenu(SubmenuKind::Devices, "Select microphone".into()),
            MenuEntry::Submenu(SubmenuKind::Hotkeys, "Set hotkey \u{2014} Ctrl+F5".into()),
        ]
    );
}

#[test]
fn item_extents() {
    assert_eq!(item_extent(0, 0, 360, 90), (360, 90));
    assert_eq!(item_extent(10, 20, 30, 25), (20, 5));
    assert_eq!(item_extent(5, 5, 0, 0), (-5, -5));
}
