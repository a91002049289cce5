//! How the two slots' hotkeys are registered with Windows.
use vstd::prelude::*;
use crate::config::{AppConfig, HotkeyConfig};
use crate::text::{decimal, push_decimal};
use crate::win32::MOD_NOREPEAT;

verus! {

/// The identifier under which the first slot's hotkey is registered.
pub const HOTKEY_MIC1_ID: i32 = 1;

/// The identifier under which the second slot's hotkey is registered.
pub const HOTKEY_MIC2_ID: i32 = 2;

/// One `RegisterHotKey` call: the identifier, the modifier flags and the key.
#[derive(Debug, Clone, Copy, PartialEq, Eq)]
pub struct HotkeyRegistration {
    pub id: i32,
    pub modifiers: u32,
    pub vk: u32,
}

/// The registration of a slot's hotkey: slot 1 under the first identifier, any
/// other slot under the second, always without auto-repeat.
pub fn hotkey_registration(config: &AppConfig, slot: usize) -> (r: HotkeyRegistration)
    ensures
        slot == 1 ==> r.id == HOTKEY_MIC1_ID && r.vk == config.mic1_hotkey.vk
            && r.modifiers == config.mic1_hotkey.modifiers | MOD_NOREPEAT,
        slot != 1 ==> r.id == HOTKEY_MIC2_ID && r.vk == config.mic2_hotkey.vk
            && r.modifiers == config.mic2_hotkey.modifiers | MOD_NOREPEAT,
{
    if slot == 1 {
        HotkeyRegistration {
            id: HOTKEY_MIC1_ID,
            modifiers: config.mic1_hotkey.modifiers | MOD_NOREPEAT,
            vk: config.mic1_hotkey.vk,
        }
    } else {
        HotkeyRegistration {
            id: HOTKEY_MIC2_ID,
            modifiers: config.mic2_hotkey.modifiers | MOD_NOREPEAT,
            vk: config.mic2_hotkey.vk,
        }
    }
}

/// Every registration asks Windows not to repeat the hotkey while it is held, and
/// keeps the slot's own modifiers.
pub proof fn lemma_registration_no_repeat(modifiers: u32)
    ensures
        (modifiers | MOD_NOREPEAT) & MOD_NOREPEAT == MOD_NOREPEAT,
        (modifiers | MOD_NOREPEAT) & modifiers == modifiers,
{
    assert((modifiers | 0x4000u32) & 0x4000u32 == 0x4000u32) by (bit_vector);
    assert((modifiers | 0x4000u32) & modifiers == modifiers) by (bit_vector);
}

/// The message that reports that a slot's hotkey could not be registered.
pub open spec fn registration_error_spec(slot: nat, hotkey: HotkeyConfig) -> Seq<char> {
    "Could not register "@ + hotkey.display@ + " for Mic "@ + decimal(slot)
        + ". Another program may already use it."@
}

/// The message that reports that the hotkey of `slot` could not be registered.
pub fn registration_error(slot: usize, hotkey: &HotkeyConfig) -> (r: String)
    ensures
        r@ == registration_error_spec(slot as nat, *hotkey),
{
    let mut r = String::from_str("Could not register ");
    r.append(hotkey.display.as_str());
    r.append(" for Mic ");
    push_decimal(&mut r, slot as u64);
    r.append(". Another program may already use it.");
    r
}

/// The hotkeys that the tray window has registered: identifier to modifier flags
/// and key.
pub type Registered = Map<i32, (u32, u32)>;

/// The keys that a slot's registration binds.
pub open spec fn slot_keys(config: AppConfig, slot: usize) -> (u32, u32) {
    if slot == 1 {
        (config.mic1_hotkey.modifiers | MOD_NOREPEAT, config.mic1_hotkey.vk)
    } else {
        (config.mic2_hotkey.modifiers | MOD_NOREPEAT, config.mic2_hotkey.vk)
    }
}

/// Whether both identifiers are registered, each with the keys of its slot.
pub open spec fn bound_to(m: Registered, config: AppConfig) -> bool {
    &&& m.contains_key(HOTKEY_MIC1_ID) && m[HOTKEY_MIC1_ID] == slot_keys(config, 1)
    &&& m.contains_key(HOTKEY_MIC2_ID) && m[HOTKEY_MIC2_ID] == slot_keys(config, 2)
}

/// Where registering a settings' hotkeys stands.
#[derive(Debug, Clone, Copy, PartialEq, Eq)]
pub enum RegistrationPhase {
    /// Release the first identifier.
    ClearFirst,
    /// Release the second identifier.
    ClearSecond,
    /// Register the first slot's hotkey.
    RegisterFirst,
    /// Register the second slot's hotkey.
    RegisterSecond,
    /// The second failed: release the first again.
    RollBack,
    /// Done: the first slot's hotkey could not be registered.
    FailedFirst,
    /// Done: the second slot's hotkey could not be registered.
    FailedSecond,
    /// Done: both hotkeys are registered.
    Succeeded,
}

/// Whether registering has come to an end.
pub open spec fn is_finished(phase: RegistrationPhase) -> bool {
    phase == RegistrationPhase::FailedFirst || phase == RegistrationPhase::FailedSecond
        || phase == RegistrationPhase::Succeeded
}

/// The Windows call of a phase, or the result where registering is done.
#[derive(Debug, PartialEq, Eq)]
pub enum HotkeyCall {
    /// `UnregisterHotKey` with this identifier.
    Unregister(i32),
    /// `RegisterHotKey` with these values.
    Register(HotkeyRegistration),
    /// Registering is done, with this result.
    Finish(Result<(), String>),
}

/// The call to make in `phase` while registering the hotkeys of `config`.
pub fn registration_call(config: &AppConfig, phase: RegistrationPhase) -> (c: HotkeyCall)
    ensures
        phase == RegistrationPhase::ClearFirst ==> c == HotkeyCall::Unregister(HOTKEY_MIC1_ID),
        phase == RegistrationPhase::ClearSecond ==> c == HotkeyCall::Unregister(HOTKEY_MIC2_ID),
        phase == RegistrationPhase::RollBack ==> c == HotkeyCall::Unregister(HOTKEY_MIC1_ID),
        phase == RegistrationPhase::RegisterFirst ==> (c matches HotkeyCall::Register(r)
            && r.id == HOTKEY_MIC1_ID && (r.modifiers, r.vk) == slot_keys(*config, 1)),
        phase == RegistrationPhase::RegisterSecond ==> (c matches HotkeyCall::Register(r)
            && r.id == HOTKEY_MIC2_ID && (r.modifiers, r.vk) == slot_keys(*config, 2)),
        phase == RegistrationPhase::FailedFirst ==> (c matches HotkeyCall::Finish(Err(e))
            && e@ == registration_error_spec(1, config.mic1_hotkey)),
        phase == RegistrationPhase::FailedSecond ==> (c matches HotkeyCall::Finish(Err(e))
            && e@ == registration_error_spec(2, config.mic2_hotkey)),
        phase == RegistrationPhase::Succeeded ==> c == HotkeyCall::Finish(Ok(())),
{
    match phase {
        RegistrationPhase::ClearFirst => HotkeyCall::Unregister(HOTKEY_MIC1_ID),
        RegistrationPhase::ClearSecond => HotkeyCall::Unregister(HOTKEY_MIC2_ID),
        RegistrationPhase::RegisterFirst => HotkeyCall::Register(hotkey_registration(config, 1)),
        RegistrationPhase::RegisterSecond => HotkeyCall::Register(hotkey_registration(config, 2)),
        RegistrationPhase::RollBack => HotkeyCall::Unregister(HOTKEY_MIC1_ID),
        RegistrationPhase::FailedFirst => HotkeyCall::Finish(Err(registration_error(1, &config.mic1_hotkey))),
        RegistrationPhase::FailedSecond => HotkeyCall::Finish(Err(registration_error(2, &config.mic2_hotkey))),
        RegistrationPhase::Succeeded => HotkeyCall::Finish(Ok(())),
    }
}

/// The phase after the call of `phase`, where `succeeded` tells whether a
/// registration call succeeded.
pub open spec fn next_phase_spec(phase: RegistrationPhase, succeeded: bool) -> RegistrationPhase {
    match phase {
        RegistrationPhase::ClearFirst => RegistrationPhase::ClearSecond,
        RegistrationPhase::ClearSecond => RegistrationPhase::RegisterFirst,
        RegistrationPhase::RegisterFirst => if succeeded {
            RegistrationPhase::RegisterSecond
        } else {
            RegistrationPhase::FailedFirst
        },
        RegistrationPhase::RegisterSecond => if succeeded {
            RegistrationPhase::Succeeded
        } else {
            RegistrationPhase::RollBack
        },
        RegistrationPhase::RollBack => RegistrationPhase::FailedSecond,
        _ => phase,
    }
}

/// The phase that follows `phase` once its call was made; `succeeded` is whether
/// `RegisterHotKey` succeeded, and does not matter after the other calls.
pub fn next_phase(phase: RegistrationPhase, succeeded: bool) -> (r: RegistrationPhase)
    ensures
        r == next_phase_spec(phase, succeeded),
{
    match phase {
        RegistrationPhase::ClearFirst => RegistrationPhase::ClearSecond,
        RegistrationPhase::ClearSecond => RegistrationPhase::RegisterFirst,
        RegistrationPhase::RegisterFirst => if succeeded {
            RegistrationPhase::RegisterSecond
        } else {
            RegistrationPhase::FailedFirst
        },
        RegistrationPhase::RegisterSecond => if succeeded {
            RegistrationPhase::Succeeded
        } else {
            RegistrationPhase::RollBack
        },
        RegistrationPhase::RollBack => RegistrationPhase::FailedSecond,
        other => other,
    }
}

/// What the call of `phase` does to the registered hotkeys: an unregistration
/// removes the identifier, a registration that succeeded binds it.
pub open spec fn phase_effect(config: AppConfig, m: Registered, phase: RegistrationPhase, succeeded: bool) -> Registered {
    match phase {
        RegistrationPhase::ClearFirst => m.remove(HOTKEY_MIC1_ID),
        RegistrationPhase::ClearSecond => m.remove(HOTKEY_MIC2_ID),
        RegistrationPhase::RegisterFirst => if succeeded {
            m.insert(HOTKEY_MIC1_ID, slot_keys(config, 1))
        } else {
            m
        },
        RegistrationPhase::RegisterSecond => if succeeded {
            m.insert(HOTKEY_MIC2_ID, slot_keys(config, 2))
        } else {
            m
        },
        RegistrationPhase::RollBack => m.remove(HOTKEY_MIC1_ID),
        _ => m,
    }
}

/// Registering the hotkeys of `config`, started in `phase` with hotkeys `m`
/// registered, for at most `steps` calls, where the first slot's registration
/// succeeds as `first_ok` says and the second's as `second_ok` says: the hotkeys
/// registered at the end, and the phase reached.
pub open spec fn run_registration(
    config: AppConfig,
    m: Registered,
    phase: RegistrationPhase,
    first_ok: bool,
    second_ok: bool,
    steps: nat,
) -> (Registered, RegistrationPhase)
    decreases steps,
{
    if steps == 0 || is_finished(phase) {
        (m, phase)
    } else {
        let ok = if phase == RegistrationPhase::RegisterFirst {
            first_ok
        } else if phase == RegistrationPhase::RegisterSecond {
            second_ok
        } else {
            true
        };
        run_registration(config, phase_effect(config, m, phase, ok), next_phase_spec(phase, ok), first_ok, second_ok, (steps - 1) as nat)
    }
}

/// Registering a settings' hotkeys ends after at most five calls. It succeeds
/// exactly when both registrations succeed, and then both identifiers are bound to
/// their slots' keys; when it fails, neither identifier is registered any more.
/// Hotkeys under other identifiers are left as they were.
pub proof fn lemma_registration_outcome(config: AppConfig, m: Registered, first_ok: bool, second_ok: bool)
    ensures
        ({
            let (end, phase) = run_registration(config, m, RegistrationPhase::ClearFirst, first_ok, second_ok, 5);
            &&& is_finished(phase)
            &&& (phase == RegistrationPhase::Succeeded) == (first_ok && second_ok)
            &&& phase == RegistrationPhase::Succeeded ==> bound_to(end, config)
            &&& phase != RegistrationPhase::Succeeded ==> !end.contains_key(HOTKEY_MIC1_ID)
                && !end.contains_key(HOTKEY_MIC2_ID)
            &&& forall|id: i32| id != HOTKEY_MIC1_ID && id != HOTKEY_MIC2_ID
                ==> (#[trigger] end.contains_key(id) == m.contains_key(id)
                && (m.contains_key(id) ==> end[id] == m[id]))
        }),
{
    reveal_with_fuel(run_registration, 6);
    let m1 = m.remove(HOTKEY_MIC1_ID);
    let m2 = m1.remove(HOTKEY_MIC2_ID);
    assert(run_registration(config, m, RegistrationPhase::ClearFirst, first_ok, second_ok, 5)
        == run_registration(config, m2, RegistrationPhase::RegisterFirst, first_ok, second_ok, 3));
    if first_ok {
        let m3 = m2.insert(HOTKEY_MIC1_ID, slot_keys(config, 1));
        if second_ok {
            let m4 = m3.insert(HOTKEY_MIC2_ID, slot_keys(config, 2));
            assert(run_registration(config, m2, RegistrationPhase::RegisterFirst, first_ok, second_ok, 3) == (m4, RegistrationPhase::Succeeded));
        } else {
            let m5 = m3.remove(HOTKEY_MIC1_ID);
            assert(run_registration(config, m2, RegistrationPhase::RegisterFirst, first_ok, second_ok, 3) == (m5, RegistrationPhase::FailedSecond));
        }
    } else {
        assert(run_registration(config, m2, RegistrationPhase::RegisterFirst, first_ok, second_ok, 3) == (m2, RegistrationPhase::FailedFirst));
    }
}

} // verus!
