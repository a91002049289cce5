//! The hotkeys that can be chosen for a slot.
use vstd::prelude::*;
use crate::config::{is_default_config, same_keys_spec, AppConfig, HotkeyConfig};
use crate::text::{decimal, push_decimal};
use crate::win32::{MOD_ALT, MOD_CONTROL, MOD_SHIFT, VK_F1};

verus! {

/// The number of modifier groups that the presets combine with function keys.
pub const PRESET_GROUPS: usize = 4;

/// The number of function keys in each group: F1 to F11.
pub const PRESET_KEYS: usize = 11;

/// The modifiers of preset group `g`: Ctrl, Ctrl+Shift, Alt, Ctrl+Alt.
pub open spec fn group_modifiers(g: int) -> u32 {
    if g == 0 {
        MOD_CONTROL
    } else if g == 1 {
        MOD_CONTROL | MOD_SHIFT
    } else if g == 2 {
        MOD_ALT
    } else {
        MOD_CONTROL | MOD_ALT
    }
}

/// The text that shows the modifiers of preset group `g`.
pub open spec fn group_prefix(g: int) -> Seq<char> {
    if g == 0 {
        "Ctrl"@
    } else if g == 1 {
        "Ctrl+Shift"@
    } else if g == 2 {
        "Alt"@
    } else {
        "Ctrl+Alt"@
    }
}

/// Preset `i`: group `i / 11` with function key `F(i % 11 + 1)`.
pub open spec fn is_preset(h: HotkeyConfig, i: int) -> bool {
    let g = i / 11;
    let n = i % 11 + 1;
    &&& h.modifiers == group_modifiers(g)
    &&& h.vk == VK_F1 + (n - 1)
    &&& h.display@ == group_prefix(g) + "+F"@ + decimal(n as nat)
}

fn group(g: usize) -> (r: (u32, &'static str))
    requires
        g < 4,
    ensures
        r.0 == group_modifiers(g as int),
        r.1@ == group_prefix(g as int),
{
    if g == 0 {
        (MOD_CONTROL, "Ctrl")
    } else if g == 1 {
        (MOD_CONTROL | MOD_SHIFT, "Ctrl+Shift")
    } else if g == 2 {
        (MOD_ALT, "Alt")
    } else {
        (MOD_CONTROL | MOD_ALT, "Ctrl+Alt")
    }
}

/// All hotkeys offered for a slot: F1 to F11 with Ctrl, with Ctrl+Shift, with Alt
/// and with Ctrl+Alt, in that order.
pub fn hotkey_presets() -> (r: Vec<HotkeyConfig>)
    ensures
        r@.len() == 44,
        forall|i: int| 0 <= i < 44 ==> is_preset(#[trigger] r@[i], i),
{
    let mut result: Vec<HotkeyConfig> = Vec::new();
    let mut g: usize = 0;
    while g < PRESET_GROUPS
        invariant
            g <= 4,
            result@.len() == g * 11,
            forall|i: int| 0 <= i < result@.len() ==> is_preset(#[trigger] result@[i], i),
        decreases 4 - g,
    {
        let (mods, prefix) = group(g);
        let mut n: u32 = 1;
        while n <= 11
            invariant
                g < 4,
                1 <= n <= 12,
                mods == group_modifiers(g as int),
                prefix@ == group_prefix(g as int),
                result@.len() == g * 11 + (n - 1),
                forall|i: int| 0 <= i < result@.len() ==> is_preset(#[trigger] result@[i], i),
            decreases 12 - n,
        {
            let mut display = String::from_str(prefix);
            display.append("+F");
            push_decimal(&mut display, n as u64);
            let ghost i = result@.len() as int;
            result.push(HotkeyConfig { modifiers: mods, vk: VK_F1 + (n - 1), display });
            assert(i / 11 == g as int && i % 11 + 1 == n) by (nonlinear_arith)
                requires
                    i == g * 11 + (n - 1),
                    1 <= n <= 11,
                    g < 4,
            ;
            n += 1;
        }
        g += 1;
    }
    result
}

/// The default hotkeys, Ctrl+F4 and Ctrl+F5, are offered: they are presets 3 and 4.
pub proof fn lemma_default_hotkeys_are_presets(c: AppConfig, presets: Seq<HotkeyConfig>)
    requires
        is_default_config(c),
        presets.len() == 44,
        forall|i: int| 0 <= i < 44 ==> is_preset(#[trigger] presets[i], i),
    ensures
        c.mic1_hotkey@ == presets[3]@,
        c.mic2_hotkey@ == presets[4]@,
{
    assert(is_preset(presets[3], 3));
    assert(is_preset(presets[4], 4));
    reveal_strlit("Ctrl");
    reveal_strlit("+F");
    reveal_strlit("Ctrl+F4");
    reveal_strlit("Ctrl+F5");
    assert(decimal(4) == seq!['4']);
    assert(decimal(5) == seq!['5']);
    assert(presets[3].display@ =~= "Ctrl+F4"@);
    assert(presets[4].display@ =~= "Ctrl+F5"@);
}

/// No two presets press the same keys.
pub proof fn lemma_presets_distinct(presets: Seq<HotkeyConfig>, i: int, j: int)
    requires
        presets.len() == 44,
        forall|k: int| 0 <= k < 44 ==> is_preset(#[trigger] presets[k], k),
        0 <= i < 44,
        0 <= j < 44,
        i != j,
    ensures
        !same_keys_spec(presets[i], presets[j]),
{
    assert(is_preset(presets[i], i));
    assert(is_preset(presets[j], j));
    assert((MOD_CONTROL | MOD_SHIFT) == 6u32) by (bit_vector);
    assert((MOD_CONTROL | MOD_ALT) == 3u32) by (bit_vector);
    if i % 11 == j % 11 {
        assert(i / 11 != j / 11);
    }
}

} // verus!
