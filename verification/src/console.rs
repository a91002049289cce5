//! The decisions of the console menu: what a typed line selects, and how the
//! choices are listed.
use vstd::prelude::*;
use crate::audio::AudioDevice;
use crate::config::HotkeyConfig;
use crate::text::{decimal, hex_char, push_decimal};

verus! {

/// Whether `c` is an ASCII decimal digit.
pub open spec fn is_digit(c: char) -> bool {
    '0' <= c && c <= '9'
}

/// The value of a string of decimal digits.
pub open spec fn digits_value(s: Seq<char>) -> nat
    decreases s.len(),
{
    if s.len() == 0 {
        0
    } else {
        digits_value(s.drop_last()) * 10 + ((s.last() as int - 48) as nat)
    }
}

/// The digits of an unsigned number in text: what follows an optional leading `+`.
pub open spec fn unsigned_digits(s: Seq<char>) -> Seq<char> {
    if s.len() > 0 && s[0] == '+' { s.skip(1) } else { s }
}

/// The unsigned number that `s` writes, as `str::parse` reads one: an optional `+`,
/// then one or more decimal digits.
pub open spec fn parsed_unsigned(s: Seq<char>) -> Option<nat> {
    let d = unsigned_digits(s);
    if d.len() > 0 && (forall|i: int| 0 <= i < d.len() ==> is_digit(#[trigger] d[i])) {
        Some(digits_value(d))
    } else {
        None
    }
}

/// What a line typed at a numbered list selects.
#[derive(Debug, Clone, Copy, PartialEq, Eq)]
pub enum MenuChoice {
    /// An empty line: leave the list.
    Cancel,
    /// The entry at this position (the number typed, less one).
    Pick(usize),
    /// Anything else: ask again.
    Invalid,
}

/// What `input` selects from a list of `count` entries numbered from 1.
pub open spec fn menu_choice_spec(input: Seq<char>, count: nat) -> MenuChoice {
    if input.len() == 0 {
        MenuChoice::Cancel
    } else {
        match parsed_unsigned(input) {
            Some(n) => if 1 <= n && n <= count { MenuChoice::Pick((n - 1) as usize) } else { MenuChoice::Invalid },
            None => MenuChoice::Invalid,
        }
    }
}

/// A string of digits is worth at least as much as any of its prefixes.
proof fn lemma_digits_value_prefix(s: Seq<char>, k: int)
    requires
        0 <= k <= s.len(),
        forall|i: int| 0 <= i < s.len() ==> is_digit(#[trigger] s[i]),
    ensures
        digits_value(s) >= digits_value(s.take(k)),
    decreases s.len(),
{
    if k < s.len() {
        let t = s.drop_last();
        assert forall|i: int| 0 <= i < t.len() implies is_digit(#[trigger] t[i]) by {
            assert(t[i] == s[i]);
        }
        lemma_digits_value_prefix(t, k);
        assert(t.take(k) =~= s.take(k));
    } else {
        assert(s.take(k) =~= s);
    }
}

/// Reads what a line typed at a numbered list of `count` entries selects.
pub fn parse_menu_choice(input: &str, count: usize) -> (r: MenuChoice)
    ensures
        r == menu_choice_spec(input@, count as nat),
{
    let n = input.unicode_len();
    if n == 0 {
        return MenuChoice::Cancel;
    }
    let start: usize = if input.get_char(0) == '+' { 1 } else { 0 };
    let ghost d = unsigned_digits(input@);
    assert(d =~= input@.skip(start as int));
    if start == n {
        return MenuChoice::Invalid;
    }
    let mut value: u128 = 0;
    let mut i: usize = start;
    while i < n
        invariant
            n == input@.len(),
            n > 0,
            d == unsigned_digits(input@),
            start <= i <= n,
            start < n,
            d == input@.skip(start as int),
            forall|j: int| 0 <= j < i - start ==> is_digit(#[trigger] d[j]),
            value == digits_value(d.take(i - start)),
            value <= count,
        decreases n - i,
    {
        let c = input.get_char(i);
        if c < '0' || c > '9' {
            assert(d[i - start] == c);
            assert(!is_digit(d[i - start]));
            return MenuChoice::Invalid;
        }
        let ghost k = i - start;
        assert(d.take(k + 1).drop_last() =~= d.take(k));
        assert(d.take(k + 1).last() == c);
        value = value * 10 + ((c as u32 - '0' as u32) as u128);
        assert(value == digits_value(d.take(k + 1)));
        i += 1;
        if value > count as u128 {
            proof {
                assert(d.len() > 0);
                if forall|j: int| 0 <= j < d.len() ==> is_digit(#[trigger] d[j]) {
                    lemma_digits_value_prefix(d, k + 1);
                }
            }
            return MenuChoice::Invalid;
        }
    }
    assert(d.take(d.len() as int) =~= d);
    if value == 0 {
        MenuChoice::Invalid
    } else {
        MenuChoice::Pick((value - 1) as usize)
    }
}

/// The digits of a decimal numeral and the number it writes.
proof fn lemma_decimal_digits(k: nat)
    ensures
        decimal(k).len() > 0,
        forall|i: int| 0 <= i < decimal(k).len() ==> is_digit(#[trigger] decimal(k)[i]),
        digits_value(decimal(k)) == k,
    decreases k,
{
    let d = decimal(k);
    let c = hex_char(k % 10);
    assert(c as int == k % 10 + 48);
    if k >= 10 {
        lemma_decimal_digits(k / 10);
        assert(d.drop_last() =~= decimal(k / 10));
        assert(d.last() == c);
        assert(digits_value(d) == (k / 10) * 10 + k % 10);
        assert(k == (k / 10) * 10 + k % 10);
    } else {
        assert(d.drop_last() =~= Seq::<char>::empty());
        assert(digits_value(Seq::<char>::empty()) == 0);
        assert(d.last() == c);
        assert(digits_value(d) == k);
    }
}

/// Typing the number shown before an entry of a numbered list picks that entry.
pub proof fn lemma_shown_number_picks(index: nat, count: nat)
    requires
        index < count,
    ensures
        menu_choice_spec(decimal(index + 1), count) == MenuChoice::Pick(index as usize),
{
    lemma_decimal_digits(index + 1);
    let d = decimal(index + 1);
    assert(unsigned_digits(d) == d);
}

/// What a line typed at the console's main menu asks for.
#[derive(Debug, Clone, Copy, PartialEq, Eq)]
pub enum ConsoleAction {
    /// Choose the device of this slot from the active devices.
    SelectMic(usize),
    /// Choose the hotkey of this slot from the presets.
    ChooseHotkey(usize),
    /// Make the device of this slot the default input now.
    SwitchNow(usize),
    /// Leave the console menu.
    Close,
    /// Anything else: show the menu again.
    Nothing,
}

/// The action of a line typed at the main menu.
pub open spec fn console_action_spec(input: Seq<char>) -> ConsoleAction {
    if input == seq!['1'] {
        ConsoleAction::SelectMic(1)
    } else if input == seq!['2'] {
        ConsoleAction::ChooseHotkey(1)
    } else if input == seq!['3'] {
        ConsoleAction::SelectMic(2)
    } else if input == seq!['4'] {
        ConsoleAction::ChooseHotkey(2)
    } else if input == seq!['5'] {
        ConsoleAction::SwitchNow(1)
    } else if input == seq!['6'] {
        ConsoleAction::SwitchNow(2)
    } else if input == seq!['0'] {
        ConsoleAction::Close
    } else {
        ConsoleAction::Nothing
    }
}

/// Reads what a line typed at the main menu asks for.
pub fn console_action(input: &str) -> (r: ConsoleAction)
    ensures
        r == console_action_spec(input@),
{
    if input.unicode_len() != 1 {
        return ConsoleAction::Nothing;
    }
    let c = input.get_char(0);
    assert(input@ =~= seq![c]);
    if c == '1' {
        ConsoleAction::SelectMic(1)
    } else if c == '2' {
        ConsoleAction::ChooseHotkey(1)
    } else if c == '3' {
        ConsoleAction::SelectMic(2)
    } else if c == '4' {
        ConsoleAction::ChooseHotkey(2)
    } else if c == '5' {
        ConsoleAction::SwitchNow(1)
    } else if c == '6' {
        ConsoleAction::SwitchNow(2)
    } else if c == '0' {
        ConsoleAction::Close
    } else {
        ConsoleAction::Nothing
    }
}

/// `n` spaces.
pub open spec fn spaces(n: nat) -> Seq<char> {
    Seq::new(n, |i: int| ' ')
}

/// `s` with spaces before it up to `width` characters.
pub open spec fn pad_left(s: Seq<char>, width: nat) -> Seq<char> {
    if s.len() < width { spaces((width - s.len()) as nat) + s } else { s }
}

/// `s` with spaces after it up to `width` characters.
pub open spec fn pad_right(s: Seq<char>, width: nat) -> Seq<char> {
    if s.len() < width { s + spaces((width - s.len()) as nat) } else { s }
}

fn push_spaces(s: &mut String, n: usize)
    ensures
        final(s)@ == old(s)@ + spaces(n as nat),
{
    let mut i: usize = 0;
    while i < n
        invariant
            i <= n,
            s@ == old(s)@ + spaces(i as nat),
        decreases n - i,
    {
        s.append(" ");
        proof {
            reveal_strlit(" ");
            assert(old(s)@ + spaces((i + 1) as nat) =~= old(s)@ + spaces(i as nat) + " "@);
        }
        i += 1;
    }
}

/// The line that lists device `index` of the active devices: its number from 1,
/// right-aligned in two columns, its name, and a mark where it is the slot's device.
pub fn device_choice_line(index: usize, device: &AudioDevice, current: bool) -> (r: String)
    requires
        index < usize::MAX,
    ensures
        r@ == pad_left(decimal((index + 1) as nat), 2) + ". "@ + device.name@
            + (if current { "  [current]"@ } else { Seq::empty() }),
{
    let mut number = String::new();
    push_decimal(&mut number, (index + 1) as u64);
    let width = number.as_str().unicode_len();
    let mut r = String::new();
    if width < 2 {
        push_spaces(&mut r, 2 - width);
    }
    r.append(number.as_str());
    r.append(". ");
    r.append(device.name.as_str());
    if current {
        r.append("  [current]");
    }
    r
}

/// The line that lists preset `index`: its number from 1, right-aligned in two
/// columns, its text padded to sixteen columns, and a mark where it is the slot's
/// hotkey.
pub fn hotkey_choice_line(index: usize, hotkey: &HotkeyConfig, current: bool) -> (r: String)
    requires
        index < usize::MAX,
    ensures
        r@ == pad_left(decimal((index + 1) as nat), 2) + ". "@ + pad_right(hotkey.display@, 16)
            + (if current { " [current]"@ } else { Seq::empty() }),
{
    let mut number = String::new();
    push_decimal(&mut number, (index + 1) as u64);
    let width = number.as_str().unicode_len();
    let mut r = String::new();
    if width < 2 {
        push_spaces(&mut r, 2 - width);
    }
    r.append(number.as_str());
    r.append(". ");
    r.append(hotkey.display.as_str());
    let text_width = hotkey.display.as_str().unicode_len();
    if text_width < 16 {
        push_spaces(&mut r, 16 - text_width);
    }
    if current {
        r.append(" [current]");
    }
    r
}

} // verus!
