use micshift::audio::AudioDevice;
use micshift::config::HotkeyConfig;
use micshift::console::{
    console_action, device_choice_line, hotkey_choice_line, parse_menu_choice, ConsoleAction,
    MenuChoice,
};

#[test]
fn list_choices() {
    assert_eq!(parse_menu_choice("", 3), MenuChoice::Cancel);
    assert_eq!(parse_menu_choice("1", 3), MenuChoice::Pick(0));
    assert_eq!(parse_menu_choice("3", 3), MenuChoice::Pick(2));
    assert_eq!(parse_menu_choice("+2", 3), MenuChoice::Pick(1));
    assert_eq!(parse_menu_choice("007", 44), MenuChoice::Pick(6));
    assert_eq!(parse_menu_choice("0", 3), MenuChoice::Invalid);
    assert_eq!(parse_menu_choice("4", 3), MenuChoice::Invalid);
    assert_eq!(parse_menu_choice("+", 3), MenuChoice::Invalid);
    assert_eq!(parse_menu_choice("-1", 3), MenuChoice::Invalid);
    assert_eq!(parse_menu_choice("1a", 3), MenuChoice::Invalid);
    assert_eq!(parse_menu_choice("abc", 3), MenuChoice::Invalid);
    assert_eq!(parse_menu_choice("99999999999999999999999999", 3), MenuChoice::Invalid);
    assert_eq!(parse_menu_choice("1", 0), MenuChoice::Invalid);
}

#[test]
fn list_choices_agree_with_parse() {
    for input in ["1", "12", "+5", "44", "45", "0", "x", "+", "++1", "-0", "18446744073709551616"] {
        let expected = match input.parse::<usize>() {
            Ok(n) if (1..=44).contains(&n) => MenuChoice::Pick(n - 1),
            _ => MenuChoice::Invalid,
        };
        assert_eq!(parse_menu_choice(input, 44), expected, "input {input}");
    }
}

#[test]
fn shown_numbers_pick_their_entries() {
    for i in 0..44usize {
        assert_eq!(parse_menu_choice(&(i + 1).to_string(), 44), MenuChoice::Pick(i));
    }
}

#[test]
fn main_menu_actions() {
    assert_eq!(console_action("1"), ConsoleAction::SelectMic(1));
    assert_eq!(console_action("2"), ConsoleAction::ChooseHotkey(1));
    assert_eq!(console_action("3"), ConsoleAction::SelectMic(2));
    assert_eq!(console_action("4"), ConsoleAction::ChooseHotkey(2));
    assert_eq!(console_action("5"), ConsoleAction::SwitchNow(1));
    assert_eq!(console_action("6"), ConsoleAction::SwitchNow(2));
    assert_eq!(console_action("0"), ConsoleAction::Close);
    assert_eq!(console_action("7"), ConsoleAction::Nothing);
    assert_eq!(console_action("11"), ConsoleAction::Nothing);
    assert_eq!(console_action(""), ConsoleAction::Nothing);
}

#[test]
fn listing_lines() {
    let dev = AudioDevice { id: "x".into(), name: "Studio Mic".into() };
    assert_eq!(device_choice_line(0, &dev, true), " 1. Studio Mic  [current]");
    assert_eq!(device_choice_line(11, &dev, false), "12. Studio Mic");
    assert_eq!(device_choice_line(99, &dev, false), format!("{:>2}. {}{}", 100, dev.name, ""));
    let hk = HotkeyConfig { modifiers: 2, vk: 0x79, display: "Ctrl+F10".into() };
    assert_eq!(hotkey_choice_line(9, &hk, false), format!("{:>2}. {:<16}{}", 10, "Ctrl+F10", ""));
    assert_eq!(hotkey_choice_line(0, &hk, true), " 1. Ctrl+F10         [current]");
    let long = HotkeyConfig { modifiers: 2, vk: 0x79, display: "Ctrl+Shift+Alt+F10".into() };
    assert_eq!(hotkey_choice_line(0, &long, false), " 1. Ctrl+Shift+Alt+F10");
}
