use micshift::config::{with_hotkey, AppConfig, HotkeyConfig};
use micshift::hotkeys::{hotkey_registration, registration_error, HOTKEY_MIC1_ID, HOTKEY_MIC2_ID};
use micshift::win32::{MOD_ALT, MOD_CONTROL, MOD_NOREPEAT, VK_F4, VK_F5, VK_F7};

#[test]
fn registrations_of_the_slots() {
    let c = AppConfig::default();
    let r1 = hotkey_registration(&c, 1);
    assert_eq!(r1.id, HOTKEY_MIC1_ID);
    assert_eq!(r1.modifiers, MOD_CONTROL | MOD_NOREPEAT);
    assert_eq!(r1.vk, VK_F4);
    let r2 = hotkey_registration(&c, 2);
    assert_eq!((r2.id, r2.modifiers, r2.vk), (HOTKEY_MIC2_ID, MOD_CONTROL | MOD_NOREPEAT, VK_F5));
}

#[test]
fn registration_keeps_modifiers() {
    let hk = HotkeyConfig { modifiers: MOD_CONTROL | MOD_ALT, vk: VK_F7, display: "Ctrl+Alt+F7".into() };
    let c = with_hotkey(AppConfig::default(), 2, hk);
    let r = hotkey_registration(&c, 2);
    assert_eq!(r.modifiers, 0x4003);
    assert_ne!(r.modifiers & MOD_NOREPEAT, 0);
}

#[test]
fn registration_errors() {
    let c = AppConfig::default();
    assert_eq!(
        registration_error(1, &c.mic1_hotkey),
        "Could not register Ctrl+F4 for Mic 1. Another program may already use it."
    );
    assert_eq!(
        registration_error(2, &c.mic2_hotkey),
        "Could not register Ctrl+F5 for Mic 2. Another program may already use it."
    );
}

use micshift::hotkeys::{next_phase, registration_call, HotkeyCall, RegistrationPhase};
use std::collections::BTreeMap;

/// Runs the registration with the given outcomes of the two registration calls,
/// starting from `registered`, and returns the result and what ends up registered.
fn run(config: &AppConfig, mut registered: BTreeMap<i32, (u32, u32)>, first_ok: bool, second_ok: bool)
    -> (Result<(), String>, BTreeMap<i32, (u32, u32)>, Vec<HotkeyCall>) {
    let mut phase = RegistrationPhase::ClearFirst;
    let mut calls = Vec::new();
    loop {
        match registration_call(config, phase) {
            HotkeyCall::Unregister(id) => {
                registered.remove(&id);
                calls.push(HotkeyCall::Unregister(id));
                phase = next_phase(phase, true);
            }
            HotkeyCall::Register(r) => {
                let ok = if r.id == HOTKEY_MIC1_ID { first_ok } else { second_ok };
                if ok {
                    registered.insert(r.id, (r.modifiers, r.vk));
                }
                calls.push(HotkeyCall::Register(r));
                phase = next_phase(phase, ok);
            }
            HotkeyCall::Finish(result) => return (result, registered, calls),
        }
    }
}

#[test]
fn registration_succeeds() {
    let c = AppConfig::default();
    let before = BTreeMap::from([(1, (9, 9)), (7, (1, 2))]);
    let (result, after, calls) = run(&c, before, true, true);
    assert_eq!(result, Ok(()));
    assert_eq!(after, BTreeMap::from([(1, (MOD_CONTROL | MOD_NOREPEAT, VK_F4)), (2, (MOD_CONTROL | MOD_NOREPEAT, VK_F5)), (7, (1, 2))]));
    assert_eq!(calls.len(), 4);
}

#[test]
fn registration_fails_on_first() {
    let c = AppConfig::default();
    let (result, after, calls) = run(&c, BTreeMap::from([(2, (1, 1))]), false, true);
    assert_eq!(result, Err(registration_error(1, &c.mic1_hotkey)));
    assert!(after.is_empty());
    assert_eq!(calls.len(), 3);
}

#[test]
fn registration_rolls_back_on_second() {
    let c = AppConfig::default();
    let (result, after, calls) = run(&c, BTreeMap::new(), true, false);
    assert_eq!(result, Err(registration_error(2, &c.mic2_hotkey)));
    assert!(after.is_empty());
    assert_eq!(calls.last(), Some(&HotkeyCall::Unregister(HOTKEY_MIC1_ID)));
}

#[test]
fn finished_phases_stay() {
    for p in [RegistrationPhase::FailedFirst, RegistrationPhase::FailedSecond, RegistrationPhase::Succeeded] {
        assert_eq!(next_phase(p, false), p);
        assert_eq!(next_phase(p, true), p);
    }
}
