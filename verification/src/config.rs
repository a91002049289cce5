//! The settings: two microphone slots, a hotkey for each, and where they are kept.
use vstd::prelude::*;
use crate::audio::AudioDevice;
use crate::win32::{MOD_CONTROL, VK_F4, VK_F5};

verus! {

/// The capture device chosen for a slot, by endpoint identifier and by the name it
/// had when it was chosen.
#[derive(Debug, Clone, PartialEq, Eq)]
pub struct MicSelection {
    pub device_id: String,
    pub device_name: String,
}

/// A global hotkey: its modifier flags, its virtual key and the text that shows it.
#[derive(Debug, Clone, PartialEq, Eq)]
pub struct HotkeyConfig {
    pub modifiers: u32,
    pub vk: u32,
    pub display: String,
}

/// The settings: the device and the hotkey of each of the two slots.
#[derive(Debug, Clone, PartialEq, Eq)]
pub struct AppConfig {
    pub mic1: Option<MicSelection>,
    pub mic2: Option<MicSelection>,
    pub mic1_hotkey: HotkeyConfig,
    pub mic2_hotkey: HotkeyConfig,
}

impl View for MicSelection {
    type V = (Seq<char>, Seq<char>);

    open spec fn view(&self) -> (Seq<char>, Seq<char>) {
        (self.device_id@, self.device_name@)
    }
}

impl View for HotkeyConfig {
    type V = (u32, u32, Seq<char>);

    open spec fn view(&self) -> (u32, u32, Seq<char>) {
        (self.modifiers, self.vk, self.display@)
    }
}

/// A slot's selection as plain values.
pub open spec fn selection_view(s: Option<MicSelection>) -> Option<(Seq<char>, Seq<char>)> {
    match s {
        Some(m) => Some(m@),
        None => None,
    }
}

impl View for AppConfig {
    type V = (Option<(Seq<char>, Seq<char>)>, Option<(Seq<char>, Seq<char>)>, (u32, u32, Seq<char>), (u32, u32, Seq<char>));

    open spec fn view(&self) -> Self::V {
        (selection_view(self.mic1), selection_view(self.mic2), self.mic1_hotkey@, self.mic2_hotkey@)
    }
}

/// The settings before anything was chosen: no devices, Ctrl+F4 for the first slot
/// and Ctrl+F5 for the second.
pub open spec fn is_default_config(c: AppConfig) -> bool {
    &&& c.mic1 is None
    &&& c.mic2 is None
    &&& c.mic1_hotkey@ == (MOD_CONTROL, VK_F4, "Ctrl+F4"@)
    &&& c.mic2_hotkey@ == (MOD_CONTROL, VK_F5, "Ctrl+F5"@)
}

impl Default for AppConfig {
    fn default() -> (c: Self)
        ensures
            is_default_config(c),
    {
        AppConfig {
            mic1: None,
            mic2: None,
            mic1_hotkey: HotkeyConfig {
                modifiers: MOD_CONTROL,
                vk: VK_F4,
                display: String::from_str("Ctrl+F4"),
            },
            mic2_hotkey: HotkeyConfig {
                modifiers: MOD_CONTROL,
                vk: VK_F5,
                display: String::from_str("Ctrl+F5"),
            },
        }
    }
}

/// A path below a base folder: the folder, then the names of the folders and the
/// file below it, in order. Putting them together is the platform's path joining.
#[derive(Debug, Clone, PartialEq, Eq)]
pub struct FolderPath<P> {
    pub base: P,
    pub names: Vec<String>,
}

/// The names of a path below its base folder, as plain text.
pub open spec fn names_view(names: Seq<String>) -> Seq<Seq<char>> {
    names.map_values(|n: String| n@)
}

/// The name of the settings folder in the roaming application-data folder.
pub open spec fn settings_folder_name() -> Seq<char> {
    "MicShift"@
}

/// The name of the settings folder of an earlier release of the program.
pub open spec fn legacy_folder_name() -> Seq<char> {
    "DefaultMicSwitcher"@
}

/// The name of the settings file.
pub open spec fn settings_file_name() -> Seq<char> {
    "config.json"@
}

/// The message for a missing `APPDATA` variable.
pub open spec fn appdata_missing() -> Seq<char> {
    "APPDATA is not available"@
}

/// The folder of the settings: `MicShift` in the roaming application-data folder,
/// which `appdata` holds where the environment names it.
pub fn config_dir<P>(appdata: Option<P>) -> (r: Result<FolderPath<P>, String>)
    ensures
        appdata matches Some(a) ==> (r matches Ok(d) && d.base == a
            && names_view(d.names@) == seq![settings_folder_name()]),
        appdata is None ==> (r matches Err(e) && e@ == appdata_missing()),
{
    match appdata {
        Some(a) => {
            let mut names: Vec<String> = Vec::new();
            names.push(String::from_str("MicShift"));
            assert(names_view(names@) =~= seq![settings_folder_name()]);
            Ok(FolderPath { base: a, names })
        },
        None => Err(String::from_str("APPDATA is not available")),
    }
}

/// The settings file, `config.json` in the settings folder.
pub fn config_path<P>(appdata: Option<P>) -> (r: Result<FolderPath<P>, String>)
    ensures
        appdata matches Some(a) ==> (r matches Ok(p) && p.base == a
            && names_view(p.names@) == seq![settings_folder_name(), settings_file_name()]),
        appdata is None ==> (r matches Err(e) && e@ == appdata_missing()),
{
    let mut dir = config_dir(appdata)?;
    let ghost before = dir.names@;
    dir.names.push(String::from_str("config.json"));
    assert(names_view(dir.names@) =~= names_view(before).push(settings_file_name()));
    Ok(dir)
}

/// Where an earlier release of the program kept its settings:
/// `DefaultMicSwitcher\config.json` in the roaming application-data folder.
pub fn legacy_config_path<P>(appdata: Option<P>) -> (r: Option<FolderPath<P>>)
    ensures
        appdata matches Some(a) ==> (r matches Some(p) && p.base == a
            && names_view(p.names@) == seq![legacy_folder_name(), settings_file_name()]),
        appdata is None ==> r is None,
{
    match appdata {
        Some(a) => {
            let mut names: Vec<String> = Vec::new();
            names.push(String::from_str("DefaultMicSwitcher"));
            names.push(String::from_str("config.json"));
            assert(names_view(names@) =~= seq![legacy_folder_name(), settings_file_name()]);
            Some(FolderPath { base: a, names })
        },
        None => None,
    }
}

/// Where the settings are read from.
#[derive(Debug, Clone, Copy, PartialEq, Eq)]
pub enum ConfigSource {
    /// The settings file.
    Current,
    /// The file of the earlier release, while no settings file exists.
    Legacy,
    /// Neither file exists: the default settings apply.
    Defaults,
}

/// Chooses where to read the settings from, given which of the two files exist.
pub fn config_source(current_exists: bool, legacy_exists: bool) -> (r: ConfigSource)
    ensures
        current_exists ==> r == ConfigSource::Current,
        !current_exists && legacy_exists ==> r == ConfigSource::Legacy,
        !current_exists && !legacy_exists ==> r == ConfigSource::Defaults,
{
    if current_exists {
        ConfigSource::Current
    } else if legacy_exists {
        ConfigSource::Legacy
    } else {
        ConfigSource::Defaults
    }
}

/// The device chosen for a slot: slot 1 is the first, any other the second.
pub fn slot_selection(config: &AppConfig, slot: usize) -> (r: &Option<MicSelection>)
    ensures
        r == (if slot == 1 { &config.mic1 } else { &config.mic2 }),
{
    if slot == 1 {
        &config.mic1
    } else {
        &config.mic2
    }
}

/// The hotkey of a slot: slot 1 is the first, any other the second.
pub fn slot_hotkey(config: &AppConfig, slot: usize) -> (r: &HotkeyConfig)
    ensures
        r == (if slot == 1 { &config.mic1_hotkey } else { &config.mic2_hotkey }),
{
    if slot == 1 {
        &config.mic1_hotkey
    } else {
        &config.mic2_hotkey
    }
}

/// The settings with `device` chosen for `slot`, everything else unchanged.
pub fn with_mic_selection(config: AppConfig, slot: usize, device: &AudioDevice) -> (r: AppConfig)
    ensures
        slot == 1 ==> r.mic1 == Some(MicSelection { device_id: device.id, device_name: device.name })
            && r.mic2 == config.mic2,
        slot != 1 ==> r.mic2 == Some(MicSelection { device_id: device.id, device_name: device.name })
            && r.mic1 == config.mic1,
        r.mic1_hotkey == config.mic1_hotkey,
        r.mic2_hotkey == config.mic2_hotkey,
{
    let selection = MicSelection { device_id: device.id.clone(), device_name: device.name.clone() };
    let mut config = config;
    if slot == 1 {
        config.mic1 = Some(selection);
    } else {
        config.mic2 = Some(selection);
    }
    config
}

/// The settings with `hotkey` for `slot`, everything else unchanged.
pub fn with_hotkey(config: AppConfig, slot: usize, hotkey: HotkeyConfig) -> (r: AppConfig)
    ensures
        slot == 1 ==> r.mic1_hotkey == hotkey && r.mic2_hotkey == config.mic2_hotkey,
        slot != 1 ==> r.mic2_hotkey == hotkey && r.mic1_hotkey == config.mic1_hotkey,
        r.mic1 == config.mic1,
        r.mic2 == config.mic2,
{
    let mut config = config;
    if slot == 1 {
        config.mic1_hotkey = hotkey;
    } else {
        config.mic2_hotkey = hotkey;
    }
    config
}

/// The name shown for a slot's device.
pub open spec fn selection_name_spec(selection: Option<MicSelection>) -> Seq<char> {
    match selection {
        Some(m) => m.device_name@,
        None => "Not configured"@,
    }
}

/// The name shown for a slot's device: the name it was chosen by, or
/// `Not configured`.
pub fn selection_name(selection: &Option<MicSelection>) -> (r: &str)
    ensures
        r@ == selection_name_spec(*selection),
{
    match selection {
        Some(m) => m.device_name.as_str(),
        None => "Not configured",
    }
}

/// Whether `device` is the device chosen for a slot.
pub open spec fn is_selected_spec(selection: Option<MicSelection>, device: AudioDevice) -> bool {
    selection matches Some(m) && m.device_id@ == device.id@
}

/// Whether `device` is the device chosen for a slot.
pub fn is_selected_device(selection: &Option<MicSelection>, device: &AudioDevice) -> (r: bool)
    ensures
        r == is_selected_spec(*selection, *device),
{
    match selection {
        Some(m) => m.device_id == device.id,
        None => false,
    }
}

/// A device chosen for a slot is then the slot's checked device, shown by its name.
pub proof fn lemma_chosen_device_shown(device: AudioDevice, selection: Option<MicSelection>)
    requires
        selection == Some(MicSelection { device_id: device.id, device_name: device.name }),
    ensures
        is_selected_spec(selection, device),
        selection_name_spec(selection) == device.name@,
{
}

/// A device is a slot's device exactly when its identifier is the one stored for
/// the slot; an empty slot has none. The names play no part.
pub proof fn lemma_selected_by_identifier(m: MicSelection, device: AudioDevice)
    ensures
        is_selected_spec(Some(m), device) == (m.device_id@ == device.id@),
        !is_selected_spec(None, device),
{
}

/// Two hotkeys press the same keys exactly when their modifiers and keys agree.
pub proof fn lemma_same_keys_law(a: HotkeyConfig, b: HotkeyConfig)
    ensures
        same_keys_spec(a, b) == (a.modifiers == b.modifiers && a.vk == b.vk),
        same_keys_spec(a, b) == same_keys_spec(b, a),
{
}

/// Whether two hotkeys press the same keys, whatever text shows them.
pub open spec fn same_keys_spec(a: HotkeyConfig, b: HotkeyConfig) -> bool {
    a.modifiers == b.modifiers && a.vk == b.vk
}

/// Whether two hotkeys press the same keys, whatever text shows them.
pub fn same_keys(a: &HotkeyConfig, b: &HotkeyConfig) -> (r: bool)
    ensures
        r == same_keys_spec(*a, *b),
{
    a.modifiers == b.modifiers && a.vk == b.vk
}

fn same_selection(a: &Option<MicSelection>, b: &Option<MicSelection>) -> (r: bool)
    ensures
        r == (selection_view(*a) == selection_view(*b)),
{
    match (a, b) {
        (Some(x), Some(y)) => x.device_id == y.device_id && x.device_name == y.device_name,
        (None, None) => true,
        _ => false,
    }
}

/// Whether two hotkeys are the same, text included.
pub fn same_hotkey(a: &HotkeyConfig, b: &HotkeyConfig) -> (r: bool)
    ensures
        r == (a@ == b@),
{
    a.modifiers == b.modifiers && a.vk == b.vk && a.display == b.display
}

/// Whether two settings are the same.
pub fn same_config(a: &AppConfig, b: &AppConfig) -> (r: bool)
    ensures
        r == (a@ == b@),
{
    same_selection(&a.mic1, &b.mic1) && same_selection(&a.mic2, &b.mic2)
        && same_hotkey(&a.mic1_hotkey, &b.mic1_hotkey) && same_hotkey(&a.mic2_hotkey, &b.mic2_hotkey)
}

/// Whether the hotkeys differ between two settings, so that they have to be
/// registered again.
pub fn hotkeys_changed(new: &AppConfig, old: &AppConfig) -> (r: bool)
    ensures
        r == (new.mic1_hotkey@ != old.mic1_hotkey@ || new.mic2_hotkey@ != old.mic2_hotkey@),
{
    !same_hotkey(&new.mic1_hotkey, &old.mic1_hotkey) || !same_hotkey(&new.mic2_hotkey, &old.mic2_hotkey)
}

/// Whether a device still has to be chosen for one of the slots.
pub fn setup_required(config: &AppConfig) -> (r: bool)
    ensures
        r == (config.mic1 is None || config.mic2 is None),
{
    config.mic1.is_none() || config.mic2.is_none()
}

} // verus!
