use framewise::config::Hotkey;
use framewise::hotkey::{
    digit_code, function_code, letter_code, parse, parse_code, Code, HotkeyError, Modifiers,
};

fn cfg(mods: &[&str], key: &str) -> Hotkey {
    Hotkey {
        modifiers: mods.iter().map(|m| m.to_string()).collect(),
        key: key.to_string(),
    }
}

#[test]
fn parses_documented_keys() {
    assert_eq!(parse_code("F1"), Some(Code::F1));
    assert_eq!(parse_code("F10"), Some(Code::F10));
    assert_eq!(parse_code("F24"), Some(Code::F24));
    assert_eq!(parse_code("A"), Some(Code::KeyA));
    assert_eq!(parse_code("O"), Some(Code::KeyO));
    assert_eq!(parse_code("Z"), Some(Code::KeyZ));
    assert_eq!(parse_code("0"), Some(Code::Digit0));
    assert_eq!(parse_code("9"), Some(Code::Digit9));
}

#[test]
fn key_names_ignore_case_and_surrounding_space() {
    assert_eq!(parse_code("f10"), Some(Code::F10));
    assert_eq!(parse_code("  o \t"), Some(Code::KeyO));
    assert_eq!(parse_code("\u{3000}F3\u{a0}"), Some(Code::F3));
    assert_eq!(parse_code("F+7"), Some(Code::F7));
    assert_eq!(parse_code("F07"), Some(Code::F7));
}

#[test]
fn rejects_unknown_keys() {
    assert_eq!(parse_code("F25"), None);
    assert_eq!(parse_code("F0"), None);
    assert_eq!(parse_code("Space"), None);
    assert_eq!(parse_code(""), None);
    assert_eq!(parse_code("AB"), None);
    assert_eq!(parse_code("é"), None);
    assert_eq!(parse_code("-"), None);
    assert_eq!(parse_code("F-1"), None);
    // A lone F is the letter key.
    assert_eq!(parse_code("f"), Some(Code::KeyF));
    assert_eq!(function_code(0), None);
    assert_eq!(function_code(13), Some(Code::F13));
    assert_eq!(letter_code('a'), None);
    assert_eq!(letter_code('Q'), Some(Code::KeyQ));
    assert_eq!(digit_code('5'), Some(Code::Digit5));
    assert_eq!(digit_code('x'), None);
}

#[test]
fn parses_modifiers_and_key() {
    let b = parse(&cfg(&["ctrl", " Alt "], "O")).unwrap();
    assert_eq!(
        b.mods,
        Modifiers {
            alt: true,
            control: true,
            shift: false,
            super_key: false
        }
    );
    assert_eq!(b.code, Code::KeyO);

    let b = parse(&cfg(&["CONTROL", "SHIFT", "win", "bogus"], "f10")).unwrap();
    assert_eq!(
        b.mods,
        Modifiers {
            alt: false,
            control: true,
            shift: true,
            super_key: true
        }
    );
    assert_eq!(b.code, Code::F10);

    let b = parse(&cfg(&["META"], "1")).unwrap();
    assert!(b.mods.super_key && !b.mods.alt);
    let b = parse(&cfg(&[], "A")).unwrap();
    assert!(!b.mods.alt && !b.mods.control && !b.mods.shift && !b.mods.super_key);
}

#[test]
fn unknown_key_is_an_error_naming_it() {
    match parse(&cfg(&["ALT"], "PrintScreen")) {
        Err(HotkeyError::UnknownKey(k)) => assert_eq!(k, "PrintScreen"),
        other => panic!("unexpected {other:?}"),
    }
}

#[test]
fn default_hotkey_parses() {
    let b = parse(&Hotkey::default()).unwrap();
    assert_eq!(b.code, Code::F10);
    assert!(b.mods.alt && b.mods.shift && !b.mods.control && !b.mods.super_key);
}
