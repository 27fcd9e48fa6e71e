use apothekensoft_lib::keys::{symbol_for_native, virtual_key_to_info, GenericKey, KeySymbol};
use apothekensoft_lib::names::{parse_key, str_eq};

#[test]
fn table_holds_sixty_five_keys_with_distinct_codes() {
    let mut count = 0;
    for vk in 0u32..0x200 {
        if let Some(k) = symbol_for_native(vk) {
            assert_eq!(k.native_code(), vk);
            count += 1;
        }
    }
    assert_eq!(count, 65);
}

#[test]
fn describe_letters_digits_and_named_keys() {
    assert_eq!(virtual_key_to_info(0x41), Some(("KeyA", "a")));
    assert_eq!(virtual_key_to_info(0x5A), Some(("KeyZ", "z")));
    assert_eq!(virtual_key_to_info(0x30), Some(("Num0", "0")));
    assert_eq!(virtual_key_to_info(0x39), Some(("Num9", "9")));
    assert_eq!(virtual_key_to_info(0x0D), Some(("Return", "Enter")));
    assert_eq!(virtual_key_to_info(0x1B), Some(("Escape", "Esc")));
    assert_eq!(virtual_key_to_info(0x08), Some(("Backspace", "Backspace")));
    assert_eq!(virtual_key_to_info(0x09), Some(("Tab", "Tab")));
    assert_eq!(virtual_key_to_info(0x20), Some(("Space", " ")));
    assert_eq!(virtual_key_to_info(0xA2), Some(("ControlLeft", "Ctrl")));
    assert_eq!(virtual_key_to_info(0xA3), Some(("ControlRight", "RCtrl")));
    assert_eq!(virtual_key_to_info(0xA0), Some(("ShiftLeft", "Shift")));
    assert_eq!(virtual_key_to_info(0xA1), Some(("ShiftRight", "RShift")));
    assert_eq!(virtual_key_to_info(0xA4), Some(("AltLeft", "Alt")));
    assert_eq!(virtual_key_to_info(0xA5), Some(("AltRight", "RAlt")));
    assert_eq!(virtual_key_to_info(0x5B), Some(("MetaLeft", "Win")));
    assert_eq!(virtual_key_to_info(0x5C), Some(("MetaRight", "RWin")));
    assert_eq!(virtual_key_to_info(0x26), Some(("UpArrow", "Up")));
    assert_eq!(virtual_key_to_info(0x28), Some(("DownArrow", "Down")));
    assert_eq!(virtual_key_to_info(0x25), Some(("LeftArrow", "Left")));
    assert_eq!(virtual_key_to_info(0x27), Some(("RightArrow", "Right")));
    assert_eq!(virtual_key_to_info(0x70), Some(("F1", "F1")));
    assert_eq!(virtual_key_to_info(0x7B), Some(("F12", "F12")));
}

#[test]
fn describe_unknown_codes_is_none() {
    assert_eq!(virtual_key_to_info(0x07), None);
    assert_eq!(virtual_key_to_info(0x10), None);
    assert_eq!(virtual_key_to_info(0x7C), None);
    assert_eq!(virtual_key_to_info(0x10041), None);
    assert_eq!(virtual_key_to_info(u32::MAX), None);
}

#[test]
fn describe_round_trips_to_injection_names() {
    for vk in 0u32..0x200 {
        if let Some(k) = symbol_for_native(vk) {
            let (code, label) = virtual_key_to_info(k.native_code()).unwrap();
            assert_eq!(code, k.key_code());
            assert_eq!(label, k.label());
            assert_eq!(parse_key(code), Some(k));
        }
    }
    assert_eq!(parse_key("F7"), symbol_for_native(0x76));
    assert_eq!(parse_key("RightArrow"), symbol_for_native(0x27));
}

#[test]
fn aliases_resolve_like_their_primary_name() {
    let pairs = [
        ("a", "A"),
        ("q", "Q"),
        ("Enter", "Return"),
        ("Esc", "Escape"),
        ("Ctrl", "ControlLeft"),
        ("Shift", "ShiftLeft"),
        ("Alt", "AltLeft"),
        ("Meta", "MetaLeft"),
        ("Super", "MetaLeft"),
        ("Up", "UpArrow"),
        ("Down", "DownArrow"),
        ("Left", "LeftArrow"),
        ("Right", "RightArrow"),
    ];
    for (alias, primary) in pairs {
        assert!(parse_key(alias).is_some());
        assert_eq!(parse_key(alias), parse_key(primary));
    }
    assert_eq!(parse_key("Ctrl"), Some(KeySymbol::ControlLeft));
    assert_eq!(parse_key("Enter"), Some(KeySymbol::Return));
    assert_eq!(parse_key("Up"), Some(KeySymbol::UpArrow));
    assert_eq!(parse_key("7"), Some(KeySymbol::Num7));
    assert_eq!(parse_key("F10"), Some(KeySymbol::F10));
    assert_eq!(parse_key("KeyA"), Some(KeySymbol::KeyA));
    assert_eq!(parse_key("Num3"), Some(KeySymbol::Num3));
    assert_eq!(parse_key("AltGr"), None);
}

#[test]
fn every_letter_resolves_in_both_cases_and_by_key_code() {
    for (i, c) in ('A'..='Z').enumerate() {
        let k = symbol_for_native(0x41 + i as u32).unwrap();
        assert_eq!(parse_key(&c.to_string()), Some(k));
        assert_eq!(parse_key(&c.to_ascii_lowercase().to_string()), Some(k));
        assert_eq!(parse_key(&format!("Key{}", c)), Some(k));
    }
    for d in 0..10u32 {
        let k = symbol_for_native(0x30 + d).unwrap();
        assert_eq!(parse_key(&d.to_string()), Some(k));
        assert_eq!(parse_key(&format!("Num{}", d)), Some(k));
    }
    for f in 1..=12u32 {
        assert_eq!(parse_key(&format!("F{}", f)), symbol_for_native(0x6F + f));
    }
}

#[test]
fn input_library_key_names_resolve() {
    let names = [
        ("Alt", KeySymbol::AltLeft),
        ("KeyQ", KeySymbol::KeyQ),
        ("Num0", KeySymbol::Num0),
        ("MetaRight", KeySymbol::MetaRight),
        ("Backspace", KeySymbol::Backspace),
    ];
    for (name, k) in names {
        assert_eq!(parse_key(name), Some(k));
    }
}

#[test]
fn empty_and_unknown_names_resolve_to_nothing() {
    assert_eq!(parse_key(""), None);
    assert_eq!(parse_key("NotAKey"), None);
    assert_eq!(parse_key("not-a-real-key"), None);
    assert_eq!(parse_key("ctrl"), None);
    assert_eq!(parse_key("ENTER"), None);
    assert_eq!(parse_key("F13"), None);
    assert_eq!(parse_key("keya"), None);
    assert_eq!(parse_key("Num10"), None);
    assert_eq!(parse_key("A "), None);
}

#[test]
fn left_and_right_alt_inject_as_distinct_library_keys() {
    assert_eq!(KeySymbol::AltLeft.generic_key(), GenericKey::Alt);
    assert_eq!(KeySymbol::AltRight.generic_key(), GenericKey::AltGr);
    assert_eq!(KeySymbol::KeyQ.generic_key(), GenericKey::KeyQ);
    assert_eq!(KeySymbol::UpArrow.generic_key(), GenericKey::UpArrow);
}

#[test]
fn string_equality_compares_characters() {
    assert!(str_eq("Tab", "Tab"));
    assert!(str_eq("", ""));
    assert!(!str_eq("Tab", "Ta"));
    assert!(!str_eq("Tab", "tab"));
    assert!(str_eq("ä", "ä"));
}
