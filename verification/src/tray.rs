//! The decisions of the tray program: its menu, the commands chosen from it, the
//! window messages it answers, and the notifications it shows.
use vstd::prelude::*;
use crate::audio::AudioDevice;
use crate::config::{
    hotkeys_changed, is_selected_device, is_selected_spec, same_config, selection_view, same_keys, same_keys_spec, selection_name,
    selection_name_spec, slot_hotkey, slot_selection, AppConfig, HotkeyConfig, MicSelection,
};
use crate::text::{decimal, push_decimal};
use crate::hotkeys::{
    bound_to, lemma_registration_outcome, run_registration, Registered, RegistrationPhase,
    HOTKEY_MIC1_ID, HOTKEY_MIC2_ID,
};
use crate::win32::{
    MF_CHECKED, MF_DISABLED, MF_GRAYED, MF_STRING, NIIF_INFO, NIIF_WARNING, ODT_MENU, WM_APP,
    WM_DESTROY, WM_DRAWITEM, WM_HOTKEY, WM_LBUTTONUP, WM_MEASUREITEM, WM_RBUTTONUP, WM_TIMER,
};

verus! {

pub const TRAY_ID: u32 = 1;
pub const WM_TRAYICON: u32 = WM_APP + 1;
pub const TIMER_ID: usize = 1;

pub const CMD_OPEN_CONSOLE: u32 = 100;
pub const CMD_SWITCH_MIC1: u32 = 110;
pub const CMD_SWITCH_MIC2: u32 = 120;
pub const CMD_EXIT: u32 = 199;
pub const CMD_BANNER: u32 = 90;
pub const BANNER_WIDTH_DIP: u32 = 360;
pub const BANNER_HEIGHT_DIP: u32 = 90;

pub const CMD_MIC1_DEVICE_BASE: u32 = 1000;
pub const CMD_MIC2_DEVICE_BASE: u32 = 2000;
pub const CMD_MIC1_HOTKEY_BASE: u32 = 3000;
pub const CMD_MIC2_HOTKEY_BASE: u32 = 4000;

/// What a command chosen from the tray menu asks for.
#[derive(Debug, Clone, Copy, PartialEq, Eq)]
pub enum TrayCommand {
    OpenConsole,
    /// Make the device of this slot the default input now.
    SwitchMic(usize),
    Exit,
    /// Choose the device at this position of the listed devices for this slot.
    SelectDevice(usize, usize),
    /// Choose the preset at this position for this slot's hotkey.
    SetHotkey(usize, usize),
    /// Nothing: the banner, a position past the list, or an unknown command.
    Ignore,
}

/// The action of a menu command, where `device_count` devices and `preset_count`
/// hotkey presets were listed.
pub open spec fn command_action(command: u32, device_count: nat, preset_count: nat) -> TrayCommand {
    if command == CMD_OPEN_CONSOLE {
        TrayCommand::OpenConsole
    } else if command == CMD_SWITCH_MIC1 {
        TrayCommand::SwitchMic(1)
    } else if command == CMD_SWITCH_MIC2 {
        TrayCommand::SwitchMic(2)
    } else if command == CMD_EXIT {
        TrayCommand::Exit
    } else if CMD_MIC1_DEVICE_BASE <= command < CMD_MIC2_DEVICE_BASE {
        let index = command - CMD_MIC1_DEVICE_BASE;
        if index < device_count { TrayCommand::SelectDevice(1, index as usize) } else { TrayCommand::Ignore }
    } else if CMD_MIC2_DEVICE_BASE <= command < CMD_MIC1_HOTKEY_BASE {
        let index = command - CMD_MIC2_DEVICE_BASE;
        if index < device_count { TrayCommand::SelectDevice(2, index as usize) } else { TrayCommand::Ignore }
    } else if CMD_MIC1_HOTKEY_BASE <= command < CMD_MIC2_HOTKEY_BASE {
        let index = command - CMD_MIC1_HOTKEY_BASE;
        if index < preset_count { TrayCommand::SetHotkey(1, index as usize) } else { TrayCommand::Ignore }
    } else if command >= CMD_MIC2_HOTKEY_BASE {
        let index = command - CMD_MIC2_HOTKEY_BASE;
        if index < preset_count { TrayCommand::SetHotkey(2, index as usize) } else { TrayCommand::Ignore }
    } else {
        TrayCommand::Ignore
    }
}

/// Decodes a command chosen from the tray menu.
pub fn dispatch_command(command: u32, device_count: usize, preset_count: usize) -> (r: TrayCommand)
    ensures
        r == command_action(command, device_count as nat, preset_count as nat),
{
    if command == CMD_OPEN_CONSOLE {
        TrayCommand::OpenConsole
    } else if command == CMD_SWITCH_MIC1 {
        TrayCommand::SwitchMic(1)
    } else if command == CMD_SWITCH_MIC2 {
        TrayCommand::SwitchMic(2)
    } else if command == CMD_EXIT {
        TrayCommand::Exit
    } else if CMD_MIC1_DEVICE_BASE <= command && command < CMD_MIC2_DEVICE_BASE {
        let index = (command - CMD_MIC1_DEVICE_BASE) as usize;
        if index < device_count { TrayCommand::SelectDevice(1, index) } else { TrayCommand::Ignore }
    } else if CMD_MIC2_DEVICE_BASE <= command && command < CMD_MIC1_HOTKEY_BASE {
        let index = (command - CMD_MIC2_DEVICE_BASE) as usize;
        if index < device_count { TrayCommand::SelectDevice(2, index) } else { TrayCommand::Ignore }
    } else if CMD_MIC1_HOTKEY_BASE <= command && command < CMD_MIC2_HOTKEY_BASE {
        let index = (command - CMD_MIC1_HOTKEY_BASE) as usize;
        if index < preset_count { TrayCommand::SetHotkey(1, index) } else { TrayCommand::Ignore }
    } else if command >= CMD_MIC2_HOTKEY_BASE {
        let index = (command - CMD_MIC2_HOTKEY_BASE) as usize;
        if index < preset_count { TrayCommand::SetHotkey(2, index) } else { TrayCommand::Ignore }
    } else {
        TrayCommand::Ignore
    }
}

/// One entry of a tray menu: its `AppendMenuW` flags, its command and its text.
#[derive(Debug, Clone, PartialEq, Eq)]
pub struct MenuItem {
    pub flags: u32,
    pub id: u32,
    pub text: String,
}

/// The flags of a menu entry that shows a check mark where `checked` holds.
pub open spec fn check_flags(checked: bool) -> u32 {
    MF_STRING | (if checked { MF_CHECKED } else { 0 })
}

/// The entries of a slot's device menu: one per device, numbered from
/// `command_base` and checked where it is the slot's device, or a single greyed
/// entry where no device is active.
pub fn device_menu_items(devices: &Vec<AudioDevice>, selected: &Option<MicSelection>, command_base: u32) -> (r: Vec<MenuItem>)
    requires
        command_base + devices@.len() <= u32::MAX + 1,
    ensures
        devices@.len() == 0 ==> r@.len() == 1 && r@[0].id == 0
            && r@[0].flags == MF_STRING | MF_GRAYED | MF_DISABLED
            && r@[0].text@ == "No active input devices"@,
        devices@.len() > 0 ==> r@.len() == devices@.len(),
        devices@.len() > 0 ==> forall|i: int| 0 <= i < devices@.len() ==> {
            &&& (#[trigger] r@[i]).id == command_base + i
            &&& r@[i].text == devices@[i].name
            &&& r@[i].flags == check_flags(is_selected_spec(*selected, devices@[i]))
        },
{
    let mut items: Vec<MenuItem> = Vec::new();
    if devices.len() == 0 {
        items.push(MenuItem {
            flags: MF_STRING | MF_GRAYED | MF_DISABLED,
            id: 0,
            text: String::from_str("No active input devices"),
        });
        return items;
    }
    let mut i: usize = 0;
    while i < devices.len()
        invariant
            command_base + devices@.len() <= u32::MAX + 1,
            i <= devices@.len(),
            items@.len() == i,
            forall|j: int| 0 <= j < i ==> {
                &&& (#[trigger] items@[j]).id == command_base + j
                &&& items@[j].text == devices@[j].name
                &&& items@[j].flags == check_flags(is_selected_spec(*selected, devices@[j]))
            },
        decreases devices@.len() - i,
    {
        let device = &devices[i];
        let checked = is_selected_device(selected, device);
        let flags = MF_STRING | if checked { MF_CHECKED } else { 0 };
        items.push(MenuItem { flags, id: command_base + i as u32, text: device.name.clone() });
        i += 1;
    }
    items
}

/// The entries of a slot's hotkey menu: one per preset, numbered from
/// `command_base` and checked where it presses the slot's keys.
pub fn hotkey_menu_items(presets: &Vec<HotkeyConfig>, selected: &HotkeyConfig, command_base: u32) -> (r: Vec<MenuItem>)
    requires
        command_base + presets@.len() <= u32::MAX + 1,
    ensures
        r@.len() == presets@.len(),
        forall|i: int| 0 <= i < presets@.len() ==> {
            &&& (#[trigger] r@[i]).id == command_base + i
            &&& r@[i].text == presets@[i].display
            &&& r@[i].flags == check_flags(same_keys_spec(presets@[i], *selected))
        },
{
    let mut items: Vec<MenuItem> = Vec::new();
    let mut i: usize = 0;
    while i < presets.len()
        invariant
            command_base + presets@.len() <= u32::MAX + 1,
            i <= presets@.len(),
            items@.len() == i,
            forall|j: int| 0 <= j < i ==> {
                &&& (#[trigger] items@[j]).id == command_base + j
                &&& items@[j].text == presets@[j].display
                &&& items@[j].flags == check_flags(same_keys_spec(presets@[j], *selected))
            },
        decreases presets@.len() - i,
    {
        let preset = &presets[i];
        let checked = same_keys(preset, selected);
        let flags = MF_STRING | if checked { MF_CHECKED } else { 0 };
        items.push(MenuItem { flags, id: command_base + i as u32, text: preset.display.clone() });
        i += 1;
    }
    items
}

/// The command of the entry that switches to a slot's device.
pub open spec fn switch_command(slot: usize) -> u32 {
    if slot == 1 { CMD_SWITCH_MIC1 } else { CMD_SWITCH_MIC2 }
}

/// The first command of a slot's device entries.
pub open spec fn device_base(slot: usize) -> u32 {
    if slot == 1 { CMD_MIC1_DEVICE_BASE } else { CMD_MIC2_DEVICE_BASE }
}

/// The first command of a slot's hotkey entries.
pub open spec fn hotkey_base(slot: usize) -> u32 {
    if slot == 1 { CMD_MIC1_HOTKEY_BASE } else { CMD_MIC2_HOTKEY_BASE }
}

/// A slot's submenu in the tray menu: its commands and its texts.
#[derive(Debug, Clone, PartialEq, Eq)]
pub struct MicMenu {
    /// The command of the entry that switches to the slot's device.
    pub switch_command: u32,
    /// The command of the first device entry.
    pub device_base: u32,
    /// The command of the first hotkey entry.
    pub hotkey_base: u32,
    pub switch_text: String,
    pub hotkey_text: String,
    /// The text of the submenu's own entry in the tray menu.
    pub label: String,
}

/// The text of a slot's entry in the tray menu: the slot, its device's name and
/// its hotkey.
pub open spec fn mic_label(slot: usize, config: AppConfig) -> Seq<char> {
    "Mic "@ + decimal(slot as nat) + ": "@
        + selection_name_spec(if slot == 1 { config.mic1 } else { config.mic2 })
        + "  ["@ + (if slot == 1 { config.mic1_hotkey } else { config.mic2_hotkey }).display@ + "]"@
}

/// The submenu of `slot`: slot 1 is the first, any other slot the second.
pub fn mic_menu(slot: usize, config: &AppConfig) -> (r: MicMenu)
    ensures
        r.switch_command == switch_command(slot),
        r.device_base == device_base(slot),
        r.hotkey_base == hotkey_base(slot),
        r.switch_text@ == "Switch to Mic "@ + decimal(slot as nat) + " now"@,
        r.hotkey_text@ == "Set hotkey \u{2014} "@ + (if slot == 1 { config.mic1_hotkey } else { config.mic2_hotkey }).display@,
        r.label@ == mic_label(slot, *config),
{
    let selection = slot_selection(config, slot);
    let hotkey = slot_hotkey(config, slot);
    let (switch_command, device_base, hotkey_base) = if slot == 1 {
        (CMD_SWITCH_MIC1, CMD_MIC1_DEVICE_BASE, CMD_MIC1_HOTKEY_BASE)
    } else {
        (CMD_SWITCH_MIC2, CMD_MIC2_DEVICE_BASE, CMD_MIC2_HOTKEY_BASE)
    };
    let mut switch_text = String::from_str("Switch to Mic ");
    push_decimal(&mut switch_text, slot as u64);
    switch_text.append(" now");
    let mut hotkey_text = String::from_str("Set hotkey \u{2014} ");
    hotkey_text.append(hotkey.display.as_str());
    let mut label = String::from_str("Mic ");
    push_decimal(&mut label, slot as u64);
    label.append(": ");
    label.append(selection_name(selection));
    label.append("  [");
    label.append(hotkey.display.as_str());
    label.append("]");
    MicMenu { switch_command, device_base, hotkey_base, switch_text, hotkey_text, label }
}

/// A device entry of a slot's submenu chooses that device for that slot, as long as
/// no more than 1000 devices are listed (past that the commands of the first slot
/// run into those of the second).
pub proof fn lemma_device_entry_dispatch(slot: usize, index: nat, device_count: nat, preset_count: nat)
    requires
        slot == 1 || slot == 2,
        index < device_count,
        device_count <= 1000,
    ensures
        command_action((device_base(slot) + index) as u32, device_count, preset_count)
            == TrayCommand::SelectDevice(slot, index as usize),
{
}

/// A hotkey entry of a slot's submenu chooses that preset for that slot's hotkey,
/// as long as no more than 1000 presets are listed for the first slot and the
/// commands fit in 32 bits.
pub proof fn lemma_hotkey_entry_dispatch(slot: usize, index: nat, device_count: nat, preset_count: nat)
    requires
        slot == 1 || slot == 2,
        index < preset_count,
        slot == 1 ==> preset_count <= 1000,
        hotkey_base(slot) + preset_count <= u32::MAX + 1,
    ensures
        command_action((hotkey_base(slot) + index) as u32, device_count, preset_count)
            == TrayCommand::SetHotkey(slot, index as usize),
{
}

/// A length in device-independent pixels scaled to a window's dots per inch, rounded
/// to the nearest pixel; a DPI of 0 counts as 96, and the arithmetic saturates.
pub open spec fn dpi_size_spec(dpi: u32, dips: u32) -> int {
    let scale = if dpi == 0 { 96 } else { dpi as int };
    let scaled = if dips * scale > u32::MAX { u32::MAX as int } else { dips * scale };
    let rounded = if scaled + 48 > u32::MAX { u32::MAX as int } else { scaled + 48 };
    rounded / 96
}

/// Scales `dips` device-independent pixels to a window of `dpi` dots per inch.
pub fn dpi_size(dpi: u32, dips: u32) -> (r: u32)
    ensures
        r == dpi_size_spec(dpi, dips),
{
    let scale: u32 = if dpi == 0 { 96 } else { dpi };
    let scaled: u32 = match dips.checked_mul(scale) {
        Some(v) => v,
        None => u32::MAX,
    };
    scaled.saturating_add(48) / 96
}

/// At 96 DPI a length is kept as it is.
pub proof fn lemma_dpi_size_identity(dips: u32)
    requires
        dips * 96 + 48 <= u32::MAX,
    ensures
        dpi_size_spec(96, dips) == dips,
{
    assert((dips * 96 + 48) / 96 == dips) by (nonlinear_arith);
}

/// Whether an owner-drawn item is the banner at the top of the tray menu.
pub fn is_banner_item(ctl_type: u32, item_id: u32) -> (r: bool)
    ensures
        r == (ctl_type == ODT_MENU && item_id == CMD_BANNER),
{
    ctl_type == ODT_MENU && item_id == CMD_BANNER
}

/// The width and height of the banner in a window of `dpi` dots per inch, where the
/// item to measure is the banner.
pub fn banner_measure(ctl_type: u32, item_id: u32, dpi: u32) -> (r: Option<(u32, u32)>)
    ensures
        (ctl_type == ODT_MENU && item_id == CMD_BANNER) ==> r == Some(
            (dpi_size_spec(dpi, BANNER_WIDTH_DIP) as u32, dpi_size_spec(dpi, BANNER_HEIGHT_DIP) as u32),
        ),
        !(ctl_type == ODT_MENU && item_id == CMD_BANNER) ==> r is None,
{
    if is_banner_item(ctl_type, item_id) {
        Some((dpi_size(dpi, BANNER_WIDTH_DIP), dpi_size(dpi, BANNER_HEIGHT_DIP)))
    } else {
        None
    }
}

/// What the tray window does with a message.
#[derive(Debug, Clone, Copy, PartialEq, Eq)]
pub enum WindowAction {
    /// Measure the banner; if the item is not the banner, default processing.
    MeasureItem,
    /// Draw the banner; if the item is not the banner, default processing.
    DrawItem,
    /// A click on the tray icon: show the tray menu.
    ShowMenu,
    /// A slot's hotkey was pressed: switch to that slot's device.
    SwitchMic(usize),
    /// The settings timer fired: reload the settings if the file changed.
    ReloadConfig,
    /// The window closes: stop the timer, release the hotkeys, remove the icon, quit.
    Destroy,
    /// Nothing more to do; the message counts as handled.
    Handled,
    /// Default window processing.
    Default,
}

/// The action that a window message asks for.
pub open spec fn window_action_spec(msg: u32, wparam: usize, lparam: isize) -> WindowAction {
    if msg == WM_MEASUREITEM {
        WindowAction::MeasureItem
    } else if msg == WM_DRAWITEM {
        WindowAction::DrawItem
    } else if msg == WM_TRAYICON {
        let event = lparam as u32;
        if event == WM_LBUTTONUP || event == WM_RBUTTONUP { WindowAction::ShowMenu } else { WindowAction::Handled }
    } else if msg == WM_HOTKEY {
        let id = wparam as i32;
        if id == HOTKEY_MIC1_ID {
            WindowAction::SwitchMic(1)
        } else if id == HOTKEY_MIC2_ID {
            WindowAction::SwitchMic(2)
        } else {
            WindowAction::Handled
        }
    } else if msg == WM_TIMER {
        if wparam == TIMER_ID { WindowAction::ReloadConfig } else { WindowAction::Handled }
    } else if msg == WM_DESTROY {
        WindowAction::Destroy
    } else {
        WindowAction::Default
    }
}

/// Decides what the tray window does with a message.
pub fn window_action(msg: u32, wparam: usize, lparam: isize) -> (r: WindowAction)
    ensures
        r == window_action_spec(msg, wparam, lparam),
{
    if msg == WM_MEASUREITEM {
        WindowAction::MeasureItem
    } else if msg == WM_DRAWITEM {
        WindowAction::DrawItem
    } else if msg == WM_TRAYICON {
        let event = lparam as u32;
        if event == WM_LBUTTONUP || event == WM_RBUTTONUP { WindowAction::ShowMenu } else { WindowAction::Handled }
    } else if msg == WM_HOTKEY {
        let id = wparam as i32;
        if id == HOTKEY_MIC1_ID {
            WindowAction::SwitchMic(1)
        } else if id == HOTKEY_MIC2_ID {
            WindowAction::SwitchMic(2)
        } else {
            WindowAction::Handled
        }
    } else if msg == WM_TIMER {
        if wparam == TIMER_ID { WindowAction::ReloadConfig } else { WindowAction::Handled }
    } else if msg == WM_DESTROY {
        WindowAction::Destroy
    } else {
        WindowAction::Default
    }
}

/// A balloon notification of the tray icon: title, text and `NIIF_*` icon.
#[derive(Debug, Clone, PartialEq, Eq)]
pub struct Notice {
    pub title: String,
    pub message: String,
    pub icon: u32,
}

/// The notification that a slot has no device to switch to yet.
pub fn not_configured_notice(slot: usize) -> (r: Notice)
    ensures
        r.title@ == "Microphone not configured"@,
        r.message@ == "Choose a device for Mic "@ + decimal(slot as nat) + " first."@,
        r.icon == NIIF_WARNING,
{
    let mut message = String::from_str("Choose a device for Mic ");
    push_decimal(&mut message, slot as u64);
    message.append(" first.");
    Notice { title: String::from_str("Microphone not configured"), message, icon: NIIF_WARNING }
}

/// The notification that the default input is now the device of a slot.
pub fn switched_notice(slot: usize, device: &AudioDevice) -> (r: Notice)
    ensures
        r.title@ == "Microphone switched"@,
        r.message@ == "Mic "@ + decimal(slot as nat) + ": "@ + device.name@,
        r.icon == NIIF_INFO,
{
    let mut message = String::from_str("Mic ");
    push_decimal(&mut message, slot as u64);
    message.append(": ");
    message.append(device.name.as_str());
    Notice { title: String::from_str("Microphone switched"), message, icon: NIIF_INFO }
}

/// The notification that a slot's device is not active now.
pub fn unavailable_notice(selection: &MicSelection) -> (r: Notice)
    ensures
        r.title@ == "Microphone unavailable"@,
        r.message@ == selection.device_name@ + " is disabled or disconnected."@,
        r.icon == NIIF_WARNING,
{
    let mut message = String::from_str(selection.device_name.as_str());
    message.append(" is disabled or disconnected.");
    Notice { title: String::from_str("Microphone unavailable"), message, icon: NIIF_WARNING }
}

/// The notification that a slot has a new hotkey.
pub fn hotkey_updated_notice(slot: usize, hotkey: &HotkeyConfig) -> (r: Notice)
    ensures
        r.title@ == "Hotkey updated"@,
        r.message@ == "Mic "@ + decimal(slot as nat) + ": "@ + hotkey.display@,
        r.icon == NIIF_INFO,
{
    let mut message = String::from_str("Mic ");
    push_decimal(&mut message, slot as u64);
    message.append(": ");
    message.append(hotkey.display.as_str());
    Notice { title: String::from_str("Hotkey updated"), message, icon: NIIF_INFO }
}

/// The error shown when changed settings came with hotkeys that could not be
/// registered.
pub fn hotkey_reload_error(error: &str) -> (r: String)
    ensures
        r@ == "Settings changed, but hotkeys could not be reloaded: "@ + error@,
{
    let mut r = String::from_str("Settings changed, but hotkeys could not be reloaded: ");
    r.append(error);
    r
}

/// What to do with settings read again from disk after the file changed.
#[derive(Debug, Clone, Copy, PartialEq, Eq)]
pub enum ReloadPlan {
    /// Nothing changed: only remember when the file was written.
    Keep,
    /// Take the new settings; the hotkeys are the same.
    Adopt,
    /// Register the new hotkeys, then take the new settings.
    AdoptWithHotkeys,
}

/// How to take settings `new` read again from disk while `old` are in use: keep
/// them where nothing changed, re-register the hotkeys where they changed.
pub open spec fn reload_plan_spec(old: AppConfig, new: AppConfig) -> ReloadPlan {
    if new@ == old@ {
        ReloadPlan::Keep
    } else if new.mic1_hotkey@ != old.mic1_hotkey@ || new.mic2_hotkey@ != old.mic2_hotkey@ {
        ReloadPlan::AdoptWithHotkeys
    } else {
        ReloadPlan::Adopt
    }
}

/// Decides how to take settings that were read again from disk.
pub fn reload_plan(old: &AppConfig, new: &AppConfig) -> (r: ReloadPlan)
    ensures
        r == reload_plan_spec(*old, *new),
{
    if same_config(new, old) {
        ReloadPlan::Keep
    } else if hotkeys_changed(new, old) {
        ReloadPlan::AdoptWithHotkeys
    } else {
        ReloadPlan::Adopt
    }
}

/// What the tray acts on: the settings, and the time of the settings file that
/// they were read at.
#[derive(Debug, Clone, PartialEq, Eq)]
pub struct TraySettings<T> {
    pub config: AppConfig,
    pub file_time: T,
}

/// The state after a change of the settings, and what is left to do: register
/// the hotkeys of the settings kept again, and show an error.
#[derive(Debug)]
pub struct Settled<T> {
    pub state: TraySettings<T>,
    pub restore_hotkeys: bool,
    pub error: Option<String>,
}

/// Whether reloaded settings are taken: where only other fields changed, or where
/// the new hotkeys were registered.
pub open spec fn reload_adopts(plan: ReloadPlan, registered: bool) -> bool {
    plan == ReloadPlan::Adopt || (plan == ReloadPlan::AdoptWithHotkeys && registered)
}

/// Settles a reload of the settings: `new` was read from a file written at
/// `disk_time`, `plan` is how to take it, and `registration` the result of
/// registering the new hotkeys where the plan asks for it (`Ok` otherwise). The
/// file time is recorded in any case; the new settings are taken unless their
/// hotkeys could not be registered, and then the old hotkeys are registered again
/// and the error is shown.
pub fn settle_reload<T>(
    state: TraySettings<T>,
    plan: ReloadPlan,
    new: AppConfig,
    disk_time: T,
    registration: Result<(), String>,
) -> (r: Settled<T>)
    ensures
        r.state.file_time == disk_time,
        r.state.config == (if reload_adopts(plan, registration is Ok) { new } else { state.config }),
        r.restore_hotkeys == (plan == ReloadPlan::AdoptWithHotkeys && registration is Err),
        (plan == ReloadPlan::AdoptWithHotkeys && registration is Err) ==> (r.error matches Some(m)
            && registration matches Err(e)
            && m@ == "Settings changed, but hotkeys could not be reloaded: "@ + e@),
        !(plan == ReloadPlan::AdoptWithHotkeys && registration is Err) ==> r.error is None,
{
    match plan {
        ReloadPlan::Keep => Settled {
            state: TraySettings { config: state.config, file_time: disk_time },
            restore_hotkeys: false,
            error: None,
        },
        ReloadPlan::Adopt => Settled {
            state: TraySettings { config: new, file_time: disk_time },
            restore_hotkeys: false,
            error: None,
        },
        ReloadPlan::AdoptWithHotkeys => match registration {
            Ok(()) => Settled {
                state: TraySettings { config: new, file_time: disk_time },
                restore_hotkeys: false,
                error: None,
            },
            Err(e) => Settled {
                state: TraySettings { config: state.config, file_time: disk_time },
                restore_hotkeys: true,
                error: Some(hotkey_reload_error(e.as_str())),
            },
        },
    }
}

/// How a change of a slot's hotkey went: its registration failed, saving the
/// settings failed, or both succeeded and the settings file now has this time.
#[derive(Debug, Clone, PartialEq, Eq)]
pub enum ChangeOutcome<T> {
    RegistrationFailed(String),
    SaveFailed(String),
    Saved(T),
}

/// The state after a change of a slot's hotkey, and what is left to do.
#[derive(Debug)]
pub struct SettledChange<T> {
    pub settled: Settled<T>,
    /// The notification that the hotkey changed, where it did.
    pub notice: Option<Notice>,
}

/// Settles a change of the hotkey of `slot` to `hotkey`, where `new` are the
/// settings with that hotkey: where it was registered and saved the new settings
/// are taken at the new file time and the change is announced; otherwise the state
/// stays as it was, the old hotkeys are registered again and the error is shown.
pub fn settle_hotkey_change<T>(
    state: TraySettings<T>,
    new: AppConfig,
    slot: usize,
    hotkey: &HotkeyConfig,
    outcome: ChangeOutcome<T>,
) -> (r: SettledChange<T>)
    ensures
        outcome matches ChangeOutcome::Saved(t) ==> r.settled.state == (TraySettings { config: new, file_time: t })
            && !r.settled.restore_hotkeys && r.settled.error is None
            && (r.notice matches Some(n) && n.title@ == "Hotkey updated"@
            && n.message@ == "Mic "@ + decimal(slot as nat) + ": "@ + hotkey.display@ && n.icon == NIIF_INFO),
        outcome matches ChangeOutcome::RegistrationFailed(e) ==> r.settled.state == state
            && r.settled.restore_hotkeys && r.settled.error == Some(e) && r.notice is None,
        outcome matches ChangeOutcome::SaveFailed(e) ==> r.settled.state == state
            && r.settled.restore_hotkeys && r.settled.error == Some(e) && r.notice is None,
{
    match outcome {
        ChangeOutcome::Saved(t) => SettledChange {
            settled: Settled {
                state: TraySettings { config: new, file_time: t },
                restore_hotkeys: false,
                error: None,
            },
            notice: Some(hotkey_updated_notice(slot, hotkey)),
        },
        ChangeOutcome::RegistrationFailed(e) => SettledChange {
            settled: Settled { state, restore_hotkeys: true, error: Some(e) },
            notice: None,
        },
        ChangeOutcome::SaveFailed(e) => SettledChange {
            settled: Settled { state, restore_hotkeys: true, error: Some(e) },
            notice: None,
        },
    }
}

/// Settles the choice of a device for a slot, where `new` are the settings with
/// that device and `saved` the file time after saving them, or the error of saving:
/// the new settings are taken, or the state stays and the error is shown.
pub fn settle_selection<T>(state: TraySettings<T>, new: AppConfig, saved: Result<T, String>) -> (r: (TraySettings<T>, Option<String>))
    ensures
        saved matches Ok(t) ==> r.0 == (TraySettings { config: new, file_time: t }) && r.1 is None,
        saved matches Err(e) ==> r.0 == state && r.1 == Some(e),
{
    match saved {
        Ok(t) => (TraySettings { config: new, file_time: t }, None),
        Err(e) => (state, Some(e)),
    }
}

/// Settings with the same hotkeys bind the same keys.
proof fn lemma_bound_to_same_hotkeys(m: Registered, a: AppConfig, b: AppConfig)
    requires
        bound_to(m, a),
        a.mic1_hotkey@ == b.mic1_hotkey@,
        a.mic2_hotkey@ == b.mic2_hotkey@,
    ensures
        bound_to(m, b),
{
}

/// After a hotkey change the registered hotkeys are those of the settings kept:
/// the new ones where registering and saving them succeeded, else the old ones,
/// provided registering the old ones again succeeded.
pub proof fn lemma_hotkey_change_keeps_binding(
    old: AppConfig,
    new: AppConfig,
    m: Registered,
    first_ok: bool,
    second_ok: bool,
    saved: bool,
    restore_first_ok: bool,
    restore_second_ok: bool,
)
    ensures
        ({
            let (m1, p1) = run_registration(new, m, RegistrationPhase::ClearFirst, first_ok, second_ok, 5);
            let taken = p1 == RegistrationPhase::Succeeded && saved;
            let (m2, p2) = run_registration(old, m1, RegistrationPhase::ClearFirst, restore_first_ok, restore_second_ok, 5);
            &&& taken ==> bound_to(m1, new)
            &&& !taken && p2 == RegistrationPhase::Succeeded ==> bound_to(m2, old)
        }),
{
    lemma_registration_outcome(new, m, first_ok, second_ok);
    let (m1, p1) = run_registration(new, m, RegistrationPhase::ClearFirst, first_ok, second_ok, 5);
    lemma_registration_outcome(old, m1, restore_first_ok, restore_second_ok);
}

/// After a reload the registered hotkeys are those of the settings kept, where
/// they were those of the old settings before: without a change of hotkeys nothing
/// is registered and the keys stay right; with one, the new hotkeys are bound where
/// registering them succeeded, else the old ones, provided registering them again
/// succeeded.
pub proof fn lemma_reload_keeps_binding(
    old: AppConfig,
    new: AppConfig,
    m: Registered,
    first_ok: bool,
    second_ok: bool,
    restore_first_ok: bool,
    restore_second_ok: bool,
)
    requires
        bound_to(m, old),
    ensures
        ({
            let plan = reload_plan_spec(old, new);
            let (m1, p1) = run_registration(new, m, RegistrationPhase::ClearFirst, first_ok, second_ok, 5);
            let registered = p1 == RegistrationPhase::Succeeded;
            let kept = if reload_adopts(plan, registered) { new } else { old };
            let (m2, p2) = run_registration(old, m1, RegistrationPhase::ClearFirst, restore_first_ok, restore_second_ok, 5);
            &&& plan != ReloadPlan::AdoptWithHotkeys ==> bound_to(m, kept)
            &&& plan == ReloadPlan::AdoptWithHotkeys && registered ==> bound_to(m1, kept)
            &&& plan == ReloadPlan::AdoptWithHotkeys && !registered && p2 == RegistrationPhase::Succeeded
                ==> bound_to(m2, kept)
        }),
{
    lemma_registration_outcome(new, m, first_ok, second_ok);
    let (m1, p1) = run_registration(new, m, RegistrationPhase::ClearFirst, first_ok, second_ok, 5);
    lemma_registration_outcome(old, m1, restore_first_ok, restore_second_ok);
    let plan = reload_plan_spec(old, new);
    if plan == ReloadPlan::Adopt {
        lemma_bound_to_same_hotkeys(m, old, new);
    }
}

/// The submenus of the tray menu.
#[derive(Debug, Clone, Copy, PartialEq, Eq)]
pub enum SubmenuKind {
    /// The submenu of this slot.
    Slot(usize),
    /// A slot's device entries.
    Devices,
    /// A slot's hotkey entries.
    Hotkeys,
}

/// One position of a menu.
#[derive(Debug, PartialEq, Eq)]
pub enum MenuEntry {
    /// The owner-drawn banner.
    Banner,
    Separator,
    /// An entry with a command.
    Item(MenuItem),
    /// A submenu, opened from an entry with this text.
    Submenu(SubmenuKind, String),
}

/// The tray menu, top to bottom: the banner, a separator, the console entry, a
/// separator, the two slots' submenus, a separator and the exit entry.
pub fn tray_menu(config: &AppConfig) -> (r: Vec<MenuEntry>)
    ensures
        r@.len() == 8,
        r@[0] == MenuEntry::Banner,
        r@[1] == MenuEntry::Separator,
        r@[2] matches MenuEntry::Item(i) && i.flags == MF_STRING && i.id == CMD_OPEN_CONSOLE
            && i.text@ == "Open Console Menu"@,
        r@[3] == MenuEntry::Separator,
        r@[4] matches MenuEntry::Submenu(k, l) && k == SubmenuKind::Slot(1) && l@ == mic_label(1, *config),
        r@[5] matches MenuEntry::Submenu(k, l) && k == SubmenuKind::Slot(2) && l@ == mic_label(2, *config),
        r@[6] == MenuEntry::Separator,
        r@[7] matches MenuEntry::Item(i) && i.flags == MF_STRING && i.id == CMD_EXIT && i.text@ == "Exit"@,
{
    let mut r: Vec<MenuEntry> = Vec::new();
    r.push(MenuEntry::Banner);
    r.push(MenuEntry::Separator);
    r.push(MenuEntry::Item(MenuItem {
        flags: MF_STRING,
        id: CMD_OPEN_CONSOLE,
        text: String::from_str("Open Console Menu"),
    }));
    r.push(MenuEntry::Separator);
    r.push(MenuEntry::Submenu(SubmenuKind::Slot(1), mic_menu(1, config).label));
    r.push(MenuEntry::Submenu(SubmenuKind::Slot(2), mic_menu(2, config).label));
    r.push(MenuEntry::Separator);
    r.push(MenuEntry::Item(MenuItem { flags: MF_STRING, id: CMD_EXIT, text: String::from_str("Exit") }));
    r
}

/// A slot's submenu, top to bottom: the entry that switches now, a separator, the
/// device submenu and the hotkey submenu.
pub fn slot_menu_entries(plan: &MicMenu) -> (r: Vec<MenuEntry>)
    ensures
        r@.len() == 4,
        r@[0] matches MenuEntry::Item(i) && i.flags == MF_STRING && i.id == plan.switch_command
            && i.text == plan.switch_text,
        r@[1] == MenuEntry::Separator,
        r@[2] matches MenuEntry::Submenu(k, l) && k == SubmenuKind::Devices && l@ == "Select microphone"@,
        r@[3] matches MenuEntry::Submenu(k, l) && k == SubmenuKind::Hotkeys && l == plan.hotkey_text,
{
    let mut r: Vec<MenuEntry> = Vec::new();
    r.push(MenuEntry::Item(MenuItem {
        flags: MF_STRING,
        id: plan.switch_command,
        text: plan.switch_text.clone(),
    }));
    r.push(MenuEntry::Separator);
    r.push(MenuEntry::Submenu(SubmenuKind::Devices, String::from_str("Select microphone")));
    r.push(MenuEntry::Submenu(SubmenuKind::Hotkeys, plan.hotkey_text.clone()));
    r
}

/// The width and height of an item's rectangle.
pub fn item_extent(left: i32, top: i32, right: i32, bottom: i32) -> (r: (i32, i32))
    requires
        i32::MIN <= right - left <= i32::MAX,
        i32::MIN <= bottom - top <= i32::MAX,
    ensures
        r.0 == right - left,
        r.1 == bottom - top,
{
    (right - left, bottom - top)
}

/// An entry carries the check mark exactly when it is checked, and is always a
/// plain text entry.
pub proof fn lemma_check_flags(checked: bool)
    ensures
        (check_flags(checked) & MF_CHECKED != 0) == checked,
        check_flags(checked) & (MF_GRAYED | MF_DISABLED) == 0,
{
    assert((0u32 | 0x0008u32) & 0x0008u32 != 0) by (bit_vector);
    assert((0u32 | 0u32) & 0x0008u32 == 0) by (bit_vector);
    assert((0u32 | 0x0008u32) & (0x0001u32 | 0x0002u32) == 0) by (bit_vector);
    assert((0u32 | 0u32) & (0x0001u32 | 0x0002u32) == 0) by (bit_vector);
}

/// The fixed entries of the tray menu do what they say, whatever the lists hold:
/// the console entry opens the console, each switch entry switches to its own slot,
/// and the exit entry exits; a slot's switch entry switches to that slot.
pub proof fn lemma_fixed_commands(device_count: nat, preset_count: nat, slot: usize)
    ensures
        command_action(CMD_OPEN_CONSOLE, device_count, preset_count) == TrayCommand::OpenConsole,
        command_action(CMD_SWITCH_MIC1, device_count, preset_count) == TrayCommand::SwitchMic(1),
        command_action(CMD_SWITCH_MIC2, device_count, preset_count) == TrayCommand::SwitchMic(2),
        command_action(CMD_EXIT, device_count, preset_count) == TrayCommand::Exit,
        command_action(CMD_BANNER, device_count, preset_count) == TrayCommand::Ignore,
        command_action(0, device_count, preset_count) == TrayCommand::Ignore,
        slot == 1 || slot == 2 ==> command_action(switch_command(slot), device_count, preset_count)
            == TrayCommand::SwitchMic(slot),
{
}

/// A command chooses a device or a preset only within the listed entries, and only
/// as the entry of that slot that carries the command: the command is the slot's
/// first command plus the position.
pub proof fn lemma_command_picks_listed_entry(command: u32, device_count: nat, preset_count: nat)
    ensures
        command_action(command, device_count, preset_count) matches TrayCommand::SelectDevice(slot, index)
            ==> (slot == 1 || slot == 2) && index < device_count && command == device_base(slot) + index,
        command_action(command, device_count, preset_count) matches TrayCommand::SetHotkey(slot, index)
            ==> (slot == 1 || slot == 2) && index < preset_count && command == hotkey_base(slot) + index,
        command_action(command, device_count, preset_count) matches TrayCommand::SwitchMic(slot)
            ==> command == switch_command(slot) && (slot == 1 || slot == 2),
{
}

/// A hotkey message switches to the slot whose identifier `wparam` carries, and
/// `lparam` (the keys Windows reports) plays no part.
pub proof fn lemma_hotkey_message(wparam: usize, lparam: isize)
    ensures
        wparam as i32 == HOTKEY_MIC1_ID ==> window_action_spec(WM_HOTKEY, wparam, lparam) == WindowAction::SwitchMic(1),
        wparam as i32 == HOTKEY_MIC2_ID ==> window_action_spec(WM_HOTKEY, wparam, lparam) == WindowAction::SwitchMic(2),
        wparam as i32 != HOTKEY_MIC1_ID && wparam as i32 != HOTKEY_MIC2_ID
            ==> window_action_spec(WM_HOTKEY, wparam, lparam) == WindowAction::Handled,
{
}

/// A tray-icon message opens the menu exactly when `lparam` reports a released left
/// or right button, and `wparam` (the icon's identifier) plays no part.
pub proof fn lemma_tray_icon_message(wparam: usize, lparam: isize)
    ensures
        (window_action_spec(WM_TRAYICON, wparam, lparam) == WindowAction::ShowMenu)
            == (lparam as u32 == WM_LBUTTONUP || lparam as u32 == WM_RBUTTONUP),
        window_action_spec(WM_TRAYICON, wparam, lparam) != WindowAction::ShowMenu
            ==> window_action_spec(WM_TRAYICON, wparam, lparam) == WindowAction::Handled,
{
}

/// The other messages: the timer reloads the settings only for the tray's own timer,
/// a window being destroyed is cleaned up, owner-drawn items are measured and drawn,
/// and a message that the tray does not handle gets default processing.
pub proof fn lemma_other_messages(msg: u32, wparam: usize, lparam: isize)
    ensures
        (window_action_spec(WM_TIMER, wparam, lparam) == WindowAction::ReloadConfig) == (wparam == TIMER_ID),
        window_action_spec(WM_TIMER, wparam, lparam) != WindowAction::ReloadConfig
            ==> window_action_spec(WM_TIMER, wparam, lparam) == WindowAction::Handled,
        window_action_spec(WM_DESTROY, wparam, lparam) == WindowAction::Destroy,
        window_action_spec(WM_MEASUREITEM, wparam, lparam) == WindowAction::MeasureItem,
        window_action_spec(WM_DRAWITEM, wparam, lparam) == WindowAction::DrawItem,
        msg != WM_MEASUREITEM && msg != WM_DRAWITEM && msg != WM_TRAYICON && msg != WM_HOTKEY
            && msg != WM_TIMER && msg != WM_DESTROY ==> window_action_spec(msg, wparam, lparam) == WindowAction::Default,
{
}

/// Reloaded settings are kept out only when they equal the settings in use in every
/// field; the hotkeys are registered again exactly when a slot's hotkey changed; and
/// any other change, such as a new device for a slot, is taken as it is.
pub proof fn lemma_reload_plan_law(old: AppConfig, new: AppConfig)
    ensures
        (reload_plan_spec(old, new) == ReloadPlan::Keep) == (new@ == old@),
        (reload_plan_spec(old, new) == ReloadPlan::AdoptWithHotkeys)
            == (new.mic1_hotkey@ != old.mic1_hotkey@ || new.mic2_hotkey@ != old.mic2_hotkey@),
        (reload_plan_spec(old, new) == ReloadPlan::Adopt) == (new@ != old@ && new.mic1_hotkey@ == old.mic1_hotkey@
            && new.mic2_hotkey@ == old.mic2_hotkey@),
        selection_view(new.mic1) != selection_view(old.mic1) || selection_view(new.mic2) != selection_view(old.mic2)
            ==> reload_plan_spec(old, new) != ReloadPlan::Keep,
{
}

} // verus!
