use micshift::audio::AudioDevice;
use micshift::config::{with_mic_selection, AppConfig};
use micshift::presets::hotkey_presets;
use micshift::tray::{
    banner_measure, device_menu_items, dispatch_command, dpi_size, hotkey_menu_items,
    hotkey_reload_error, hotkey_updated_notice, is_banner_item, mic_menu, not_configured_notice,
    reload_plan, switched_notice, unavailable_notice, window_action, MenuItem, ReloadPlan,
    TrayCommand, WindowAction, CMD_BANNER, CMD_EXIT, CMD_OPEN_CONSOLE, CMD_SWITCH_MIC1,
    CMD_SWITCH_MIC2, TIMER_ID, WM_TRAYICON,
};
use micshift::config::{with_hotkey, HotkeyConfig, MicSelection};
use micshift::win32::{
    MF_CHECKED, MF_DISABLED, MF_GRAYED, MF_STRING, NIIF_INFO, NIIF_WARNING, ODT_MENU, WM_DESTROY,
    WM_DRAWITEM, WM_HOTKEY, WM_LBUTTONUP, WM_MEASUREITEM
};

fn devices(n: usize) -> Vec<AudioDevice> {
    (0..n)
        .map(|i| AudioDevice { id: format!("id{i}"), name: format!("Mic {i}") })
        .collect()
}

#[test]
fn fixed_commands() {
    assert_eq!(dispatch_command(CMD_OPEN_CONSOLE, 0, 0), TrayCommand::OpenConsole);
    assert_eq!(dispatch_command(CMD_SWITCH_MIC1, 0, 0), TrayCommand::SwitchMic(1));
    assert_eq!(dispatch_command(CMD_SWITCH_MIC2, 0, 0), TrayCommand::SwitchMic(2));
    assert_eq!(dispatch_command(CMD_EXIT, 0, 0), TrayCommand::Exit);
    assert_eq!(dispatch_command(CMD_BANNER, 5, 5), TrayCommand::Ignore);
    assert_eq!(dispatch_command(0, 5, 5), TrayCommand::Ignore);
}

#[test]
fn ranged_commands() {
    assert_eq!(dispatch_command(1000, 2, 44), TrayCommand::SelectDevice(1, 0));
    assert_eq!(dispatch_command(1001, 2, 44), TrayCommand::SelectDevice(1, 1));
    assert_eq!(dispatch_command(1002, 2, 44), TrayCommand::Ignore);
    assert_eq!(dispatch_command(2001, 2, 44), TrayCommand::SelectDevice(2, 1));
    assert_eq!(dispatch_command(3043, 2, 44), TrayCommand::SetHotkey(1, 43));
    assert_eq!(dispatch_command(3044, 2, 44), TrayCommand::Ignore);
    assert_eq!(dispatch_command(4000, 2, 44), TrayCommand::SetHotkey(2, 0));
    assert_eq!(dispatch_command(u32::MAX, 2, 44), TrayCommand::Ignore);
}

#[test]
fn device_menu_entries() {
    let devs = devices(3);
    let sel = Some(MicSelection { device_id: "id1".into(), device_name: "old name".into() });
    let items = device_menu_items(&devs, &sel, 2000);
    assert_eq!(items.len(), 3);
    assert_eq!(items[0], MenuItem { flags: MF_STRING, id: 2000, text: "Mic 0".into() });
    assert_eq!(items[1], MenuItem { flags: MF_STRING | MF_CHECKED, id: 2001, text: "Mic 1".into() });
    assert_eq!(items[2].id, 2002);
    for (i, item) in items.iter().enumerate() {
        assert_eq!(dispatch_command(item.id, devs.len(), 44), TrayCommand::SelectDevice(2, i));
    }
}

#[test]
fn empty_device_menu() {
    let items = device_menu_items(&Vec::new(), &None, 1000);
    assert_eq!(
        items,
        vec![MenuItem {
            flags: MF_STRING | MF_GRAYED | MF_DISABLED,
            id: 0,
            text: "No active input devices".into()
        }]
    );
}

#[test]
fn hotkey_menu_entries() {
    let presets = hotkey_presets();
    let c = AppConfig::default();
    let items = hotkey_menu_items(&presets, &c.mic1_hotkey, 3000);
    assert_eq!(items.len(), 44);
    for (i, item) in items.iter().enumerate() {
        assert_eq!(item.flags, if i == 3 { MF_CHECKED } else { MF_STRING });
        assert_eq!(item.text, presets[i].display);
        assert_eq!(dispatch_command(item.id, 0, presets.len()), TrayCommand::SetHotkey(1, i));
    }
}

#[test]
fn device_entry_past_a_thousand_runs_into_the_second_slot() {
    let devs = devices(1001);
    let items = device_menu_items(&devs, &None, 1000);
    assert_eq!(dispatch_command(items[1000].id, devs.len(), 44), TrayCommand::SelectDevice(2, 0));
}

#[test]
fn slot_menus() {
    let dev = AudioDevice { id: "x".into(), name: "Podcast Mic".into() };
    let c = with_mic_selection(AppConfig::default(), 1, &dev);
    let m1 = mic_menu(1, &c);
    assert_eq!((m1.switch_command, m1.device_base, m1.hotkey_base), (110, 1000, 3000));
    assert_eq!(m1.switch_text, "Switch to Mic 1 now");
    assert_eq!(m1.hotkey_text, "Set hotkey \u{2014} Ctrl+F4");
    assert_eq!(m1.label, "Mic 1: Podcast Mic  [Ctrl+F4]");
    let m2 = mic_menu(2, &c);
    assert_eq!((m2.switch_command, m2.device_base, m2.hotkey_base), (120, 2000, 4000));
    assert_eq!(m2.label, "Mic 2: Not configured  [Ctrl+F5]");
}

#[test]
fn dpi_scaling() {
    assert_eq!(dpi_size(96, 360), 360);
    assert_eq!(dpi_size(0, 90), 90);
    assert_eq!(dpi_size(144, 360), 540);
    assert_eq!(dpi_size(120, 90), 113);
    assert_eq!(dpi_size(u32::MAX, 360), (u32::MAX) / 96);
    assert_eq!(dpi_size(96, u32::MAX), u32::MAX / 96);
}

#[test]
fn banner_items() {
    assert!(is_banner_item(ODT_MENU, CMD_BANNER));
    assert!(!is_banner_item(ODT_MENU, CMD_EXIT));
    assert!(!is_banner_item(2, CMD_BANNER));
    assert_eq!(banner_measure(ODT_MENU, CMD_BANNER, 192), Some((720, 180)));
    assert_eq!(banner_measure(ODT_MENU, 5, 192), None);
}

#[test]
fn window_messages() {
    assert_eq!(window_action(WM_MEASUREITEM, 0, 0), WindowAction::MeasureItem);
    assert_eq!(window_action(WM_DRAWITEM, 0, 0), WindowAction::DrawItem);
    assert_eq!(window_action(WM_TRAYICON, 0, WM_LBUTTONUP as isize), WindowAction::ShowMenu);
    assert_eq!(window_action(WM_TRAYICON, 0, 0x0205), WindowAction::ShowMenu);
    assert_eq!(window_action(WM_TRAYICON, 0, 0x0200), WindowAction::Handled);
    assert_eq!(window_action(WM_HOTKEY, 1, 0), WindowAction::SwitchMic(1));
    assert_eq!(window_action(WM_HOTKEY, 2, 0), WindowAction::SwitchMic(2));
    assert_eq!(window_action(WM_HOTKEY, 3, 0), WindowAction::Handled);
    assert_eq!(window_action(0x0113, TIMER_ID, 0), WindowAction::ReloadConfig);
    assert_eq!(window_action(0x0113, 9, 0), WindowAction::Handled);
    assert_eq!(window_action(WM_DESTROY, 0, 0), WindowAction::Destroy);
    assert_eq!(window_action(0x0001, 0, 0), WindowAction::Default);
}

#[test]
fn notices() {
    let n = not_configured_notice(2);
    assert_eq!((n.title.as_str(), n.message.as_str(), n.icon), ("Microphone not configured", "Choose a device for Mic 2 first.", NIIF_WARNING));
    let dev = AudioDevice { id: "x".into(), name: "USB Mic".into() };
    let n = switched_notice(1, &dev);
    assert_eq!((n.title.as_str(), n.message.as_str(), n.icon), ("Microphone switched", "Mic 1: USB Mic", NIIF_INFO));
    let sel = MicSelection { device_id: "x".into(), device_name: "USB Mic".into() };
    let n = unavailable_notice(&sel);
    assert_eq!(n.message, "USB Mic is disabled or disconnected.");
    assert_eq!(n.title, "Microphone unavailable");
    let hk = HotkeyConfig { modifiers: 1, vk: 0x78, display: "Alt+F9".into() };
    let n = hotkey_updated_notice(2, &hk);
    assert_eq!((n.title.as_str(), n.message.as_str(), n.icon), ("Hotkey updated", "Mic 2: Alt+F9", NIIF_INFO));
    assert_eq!(hotkey_reload_error("boom"), "Settings changed, but hotkeys could not be reloaded: boom");
}

#[test]
fn reload_plans() {
    let a = AppConfig::default();
    assert_eq!(reload_plan(&a, &AppConfig::default()), ReloadPlan::Keep);
    let dev = AudioDevice { id: "x".into(), name: "X".into() };
    let b = with_mic_selection(a.clone(), 1, &dev);
    assert_eq!(reload_plan(&a, &b), ReloadPlan::Adopt);
    let hk = HotkeyConfig { modifiers: 1, vk: 0x78, display: "Alt+F9".into() };
    let c = with_hotkey(b.clone(), 1, hk);
    assert_eq!(reload_plan(&b, &c), ReloadPlan::AdoptWithHotkeys);
}
