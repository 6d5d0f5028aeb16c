//! Parsing of the configured show/hide hotkey into modifier flags and a key.

use vstd::prelude::*;
use crate::config::Hotkey;
use crate::text::{
    ascii_lower, ascii_lower_seq, ascii_upper, ascii_upper_seq, chars_eq_str, decimal, is_white_space, lemma_decimal_digits,
    lemma_decimal_parses, trim_end, trim_start, is_ascii_digit, parse_u32, parse_u32_spec, string_views, to_ascii_upper,
    trim, trim_str,
};

verus! {

/// A key that the hotkey can use.
#[derive(Debug, Clone, Copy, PartialEq, Eq, Structural)]
pub enum Code {
    F1, F2, F3, F4, F5, F6, F7, F8, F9, F10, F11, F12,
    F13, F14, F15, F16, F17, F18, F19, F20, F21, F22, F23, F24,
    KeyA, KeyB, KeyC, KeyD, KeyE, KeyF, KeyG, KeyH, KeyI, KeyJ, KeyK, KeyL, KeyM,
    KeyN, KeyO, KeyP, KeyQ, KeyR, KeyS, KeyT, KeyU, KeyV, KeyW, KeyX, KeyY, KeyZ,
    Digit0, Digit1, Digit2, Digit3, Digit4, Digit5, Digit6, Digit7, Digit8, Digit9,
}

/// The modifier keys held with the hotkey.
#[derive(Debug, Clone, Copy, PartialEq, Eq, Structural)]
pub struct Modifiers {
    pub alt: bool,
    pub control: bool,
    pub shift: bool,
    pub super_key: bool,
}

/// A parsed hotkey: modifiers and key.
#[derive(Debug, Clone, Copy, PartialEq, Eq, Structural)]
pub struct KeyBinding {
    pub mods: Modifiers,
    pub code: Code,
}

/// Why a hotkey could not be parsed.
#[derive(Debug, Clone)]
pub enum HotkeyError {
    /// The key is none of the supported names; it carries the configured text.
    UnknownKey(String),
}

/// The function key `F<n>`, for `n` in `1..=24`.
pub open spec fn function_code_spec(n: u32) -> Option<Code> {
    match n {
        1 => Some(Code::F1),
        2 => Some(Code::F2),
        3 => Some(Code::F3),
        4 => Some(Code::F4),
        5 => Some(Code::F5),
        6 => Some(Code::F6),
        7 => Some(Code::F7),
        8 => Some(Code::F8),
        9 => Some(Code::F9),
        10 => Some(Code::F10),
        11 => Some(Code::F11),
        12 => Some(Code::F12),
        13 => Some(Code::F13),
        14 => Some(Code::F14),
        15 => Some(Code::F15),
        16 => Some(Code::F16),
        17 => Some(Code::F17),
        18 => Some(Code::F18),
        19 => Some(Code::F19),
        20 => Some(Code::F20),
        21 => Some(Code::F21),
        22 => Some(Code::F22),
        23 => Some(Code::F23),
        24 => Some(Code::F24),
        _ => None,
    }
}

/// The letter key for an upper-case ASCII letter.
pub open spec fn letter_code_spec(c: char) -> Option<Code> {
    match c {
        'A' => Some(Code::KeyA),
        'B' => Some(Code::KeyB),
        'C' => Some(Code::KeyC),
        'D' => Some(Code::KeyD),
        'E' => Some(Code::KeyE),
        'F' => Some(Code::KeyF),
        'G' => Some(Code::KeyG),
        'H' => Some(Code::KeyH),
        'I' => Some(Code::KeyI),
        'J' => Some(Code::KeyJ),
        'K' => Some(Code::KeyK),
        'L' => Some(Code::KeyL),
        'M' => Some(Code::KeyM),
        'N' => Some(Code::KeyN),
        'O' => Some(Code::KeyO),
        'P' => Some(Code::KeyP),
        'Q' => Some(Code::KeyQ),
        'R' => Some(Code::KeyR),
        'S' => Some(Code::KeyS),
        'T' => Some(Code::KeyT),
        'U' => Some(Code::KeyU),
        'V' => Some(Code::KeyV),
        'W' => Some(Code::KeyW),
        'X' => Some(Code::KeyX),
        'Y' => Some(Code::KeyY),
        'Z' => Some(Code::KeyZ),
        _ => None,
    }
}

/// The digit key for an ASCII digit.
pub open spec fn digit_code_spec(c: char) -> Option<Code> {
    match c {
        '0' => Some(Code::Digit0),
        '1' => Some(Code::Digit1),
        '2' => Some(Code::Digit2),
        '3' => Some(Code::Digit3),
        '4' => Some(Code::Digit4),
        '5' => Some(Code::Digit5),
        '6' => Some(Code::Digit6),
        '7' => Some(Code::Digit7),
        '8' => Some(Code::Digit8),
        '9' => Some(Code::Digit9),
        _ => None,
    }
}

/// Whether `c` is an ASCII letter.
pub open spec fn is_ascii_alpha(c: char) -> bool {
    (0x41 <= (c as u32) <= 0x5a) || (0x61 <= (c as u32) <= 0x7a)
}

/// The key that configured text names: the text is trimmed and made upper
/// case; `F` followed by a number names a function key (and nothing else,
/// when the number is not `1..=24`); a single letter or digit names that key.
pub open spec fn parse_code_spec(key: Seq<char>) -> Option<Code> {
    let k = ascii_upper_seq(trim(key));
    if k.len() > 0 && k[0] == 'F' && parse_u32_spec(k.drop_first()) is Some {
        function_code_spec(parse_u32_spec(k.drop_first())->0)
    } else if k.len() == 1 && is_ascii_alpha(k[0]) {
        letter_code_spec(k[0])
    } else if k.len() == 1 && is_ascii_digit(k[0]) {
        digit_code_spec(k[0])
    } else {
        None
    }
}

/// The configured modifier word: trimmed and made upper case.
pub open spec fn modifier_word(m: Seq<char>) -> Seq<char> {
    ascii_upper_seq(trim(m))
}

/// Whether some configured modifier is one of the given words.
pub open spec fn names_modifier(ms: Seq<Seq<char>>, w1: Seq<char>, w2: Seq<char>, w3: Seq<char>) -> bool {
    exists|i: int|
        0 <= i < ms.len() && (modifier_word(#[trigger] ms[i]) == w1 || modifier_word(ms[i]) == w2
            || modifier_word(ms[i]) == w3)
}

/// The modifiers that the configured words name: "ALT"; "CTRL" or
/// "CONTROL"; "SHIFT"; "SUPER", "WIN" or "META". Other words are ignored.
pub open spec fn modifiers_spec(ms: Seq<Seq<char>>) -> Modifiers {
    Modifiers {
        alt: names_modifier(ms, "ALT"@, "ALT"@, "ALT"@),
        control: names_modifier(ms, "CTRL"@, "CONTROL"@, "CONTROL"@),
        shift: names_modifier(ms, "SHIFT"@, "SHIFT"@, "SHIFT"@),
        super_key: names_modifier(ms, "SUPER"@, "WIN"@, "META"@),
    }
}

/// Each modifier flag is set exactly when some configured word, trimmed and
/// upper-cased, names it: `alt` by "ALT", `control` by "CTRL" or "CONTROL",
/// `shift` by "SHIFT", `super_key` by "SUPER", "WIN" or "META". Other words
/// set nothing.
pub proof fn lemma_modifier_words(ms: Seq<Seq<char>>)
    ensures
        modifiers_spec(ms).alt <==> exists|i: int|
            0 <= i < ms.len() && ascii_upper_seq(trim(#[trigger] ms[i])) == "ALT"@,
        modifiers_spec(ms).control <==> exists|i: int|
            0 <= i < ms.len() && (ascii_upper_seq(trim(#[trigger] ms[i])) == "CTRL"@
                || ascii_upper_seq(trim(ms[i])) == "CONTROL"@),
        modifiers_spec(ms).shift <==> exists|i: int|
            0 <= i < ms.len() && ascii_upper_seq(trim(#[trigger] ms[i])) == "SHIFT"@,
        modifiers_spec(ms).super_key <==> exists|i: int|
            0 <= i < ms.len() && (ascii_upper_seq(trim(#[trigger] ms[i])) == "SUPER"@
                || ascii_upper_seq(trim(ms[i])) == "WIN"@ || ascii_upper_seq(trim(ms[i])) == "META"@),
{
}

/// The function key `F<n>`, for `n` in `1..=24`.
pub fn function_code(n: u32) -> (r: Option<Code>)
    ensures
        r == function_code_spec(n),
{
    match n {
        1 => Some(Code::F1),
        2 => Some(Code::F2),
        3 => Some(Code::F3),
        4 => Some(Code::F4),
        5 => Some(Code::F5),
        6 => Some(Code::F6),
        7 => Some(Code::F7),
        8 => Some(Code::F8),
        9 => Some(Code::F9),
        10 => Some(Code::F10),
        11 => Some(Code::F11),
        12 => Some(Code::F12),
        13 => Some(Code::F13),
        14 => Some(Code::F14),
        15 => Some(Code::F15),
        16 => Some(Code::F16),
        17 => Some(Code::F17),
        18 => Some(Code::F18),
        19 => Some(Code::F19),
        20 => Some(Code::F20),
        21 => Some(Code::F21),
        22 => Some(Code::F22),
        23 => Some(Code::F23),
        24 => Some(Code::F24),
        _ => None,
    }
}

/// The letter key for an upper-case ASCII letter.
pub fn letter_code(c: char) -> (r: Option<Code>)
    ensures
        r == letter_code_spec(c),
{
    match c {
        'A' => Some(Code::KeyA),
        'B' => Some(Code::KeyB),
        'C' => Some(Code::KeyC),
        'D' => Some(Code::KeyD),
        'E' => Some(Code::KeyE),
        'F' => Some(Code::KeyF),
        'G' => Some(Code::KeyG),
        'H' => Some(Code::KeyH),
        'I' => Some(Code::KeyI),
        'J' => Some(Code::KeyJ),
        'K' => Some(Code::KeyK),
        'L' => Some(Code::KeyL),
        'M' => Some(Code::KeyM),
        'N' => Some(Code::KeyN),
        'O' => Some(Code::KeyO),
        'P' => Some(Code::KeyP),
        'Q' => Some(Code::KeyQ),
        'R' => Some(Code::KeyR),
        'S' => Some(Code::KeyS),
        'T' => Some(Code::KeyT),
        'U' => Some(Code::KeyU),
        'V' => Some(Code::KeyV),
        'W' => Some(Code::KeyW),
        'X' => Some(Code::KeyX),
        'Y' => Some(Code::KeyY),
        'Z' => Some(Code::KeyZ),
        _ => None,
    }
}

/// The digit key for an ASCII digit.
pub fn digit_code(c: char) -> (r: Option<Code>)
    ensures
        r == digit_code_spec(c),
{
    match c {
        '0' => Some(Code::Digit0),
        '1' => Some(Code::Digit1),
        '2' => Some(Code::Digit2),
        '3' => Some(Code::Digit3),
        '4' => Some(Code::Digit4),
        '5' => Some(Code::Digit5),
        '6' => Some(Code::Digit6),
        '7' => Some(Code::Digit7),
        '8' => Some(Code::Digit8),
        '9' => Some(Code::Digit9),
        _ => None,
    }
}

/// The key that configured text names.
pub fn parse_code(key: &str) -> (r: Option<Code>)
    ensures
        r == parse_code_spec(key@),
{
    let t = trim_str(key);
    let k = to_ascii_upper(&t);
    if k.len() > 0 && k[0] == 'F' {
        let mut rest: Vec<char> = Vec::new();
        let mut i: usize = 1;
        while i < k.len()
            invariant
                1 <= i <= k@.len(),
                rest@ =~= k@.subrange(1, i as int),
            decreases k@.len() - i,
        {
            rest.push(k[i]);
            i = i + 1;
        }
        assert(rest@ =~= k@.drop_first());
        if let Some(n) = parse_u32(&rest) {
            return function_code(n);
        }
    }
    if k.len() == 1 {
        let c = k[0];
        let u = c as u32;
        if (0x41 <= u && u <= 0x5a) || (0x61 <= u && u <= 0x7a) {
            return letter_code(c);
        }
        if 0x30 <= u && u <= 0x39 {
            return digit_code(c);
        }
    }
    None
}

/// The modifier word of `m` is `w`.
fn word_is(word: &Vec<char>, w: &str) -> (r: bool)
    ensures
        r == (word@ == w@),
{
    chars_eq_str(word, w)
}

/// The modifiers, then the key, of the configured hotkey; unknown modifier
/// words are ignored, an unknown key is an error.
pub fn parse(cfg: &Hotkey) -> (r: Result<KeyBinding, HotkeyError>)
    ensures
        match r {
            Ok(b) => parse_code_spec(cfg.key@) == Some(b.code) && b.mods == modifiers_spec(
                string_views(cfg.modifiers@),
            ),
            Err(HotkeyError::UnknownKey(k)) => parse_code_spec(cfg.key@) is None && k@
                == cfg.key@,
        },
{
    let ghost ms = string_views(cfg.modifiers@);
    let mut mods = Modifiers { alt: false, control: false, shift: false, super_key: false };
    let mut i: usize = 0;
    while i < cfg.modifiers.len()
        invariant
            i <= cfg.modifiers@.len(),
            ms == string_views(cfg.modifiers@),
            mods == modifiers_spec(ms.take(i as int)),
        decreases cfg.modifiers@.len() - i,
    {
        let t = trim_str(cfg.modifiers[i].as_str());
        let w = to_ascii_upper(&t);
        assert(w@ == modifier_word(ms[i as int]));
        let is_alt = word_is(&w, "ALT");
        let is_control = word_is(&w, "CTRL") || word_is(&w, "CONTROL");
        let is_shift = word_is(&w, "SHIFT");
        let is_super = word_is(&w, "SUPER") || word_is(&w, "WIN") || word_is(&w, "META");
        proof {
            let pre = ms.take(i as int);
            let post = ms.take(i + 1);
            assert(post.drop_last() =~= pre);
            assert(post[i as int] == ms[i as int]);
            lemma_names_modifier_push(pre, post, "ALT"@, "ALT"@, "ALT"@);
            lemma_names_modifier_push(pre, post, "CTRL"@, "CONTROL"@, "CONTROL"@);
            lemma_names_modifier_push(pre, post, "SHIFT"@, "SHIFT"@, "SHIFT"@);
            lemma_names_modifier_push(pre, post, "SUPER"@, "WIN"@, "META"@);
        }
        mods = Modifiers {
            alt: mods.alt || is_alt,
            control: mods.control || is_control,
            shift: mods.shift || is_shift,
            super_key: mods.super_key || is_super,
        };
        i = i + 1;
    }
    assert(ms.take(ms.len() as int) =~= ms);
    match parse_code(cfg.key.as_str()) {
        Some(code) => Ok(KeyBinding { mods, code }),
        None => Err(HotkeyError::UnknownKey(cfg.key.clone())),
    }
}

proof fn lemma_names_modifier_push(
    pre: Seq<Seq<char>>,
    post: Seq<Seq<char>>,
    w1: Seq<char>,
    w2: Seq<char>,
    w3: Seq<char>,
)
    requires
        post.len() == pre.len() + 1,
        post.drop_last() == pre,
    ensures
        names_modifier(post, w1, w2, w3) == (names_modifier(pre, w1, w2, w3) || (modifier_word(
            post.last(),
        ) == w1 || modifier_word(post.last()) == w2 || modifier_word(post.last()) == w3)),
{
    if names_modifier(pre, w1, w2, w3) {
        let i = choose|i: int|
            0 <= i < pre.len() && (modifier_word(#[trigger] pre[i]) == w1 || modifier_word(pre[i])
                == w2 || modifier_word(pre[i]) == w3);
        assert(post[i] == pre[i]);
    }
    if names_modifier(post, w1, w2, w3) {
        let i = choose|i: int|
            0 <= i < post.len() && (modifier_word(#[trigger] post[i]) == w1 || modifier_word(
                post[i],
            ) == w2 || modifier_word(post[i]) == w3);
        if i < pre.len() {
            assert(post[i] == pre[i]);
        }
    }
    if modifier_word(post.last()) == w1 || modifier_word(post.last()) == w2 || modifier_word(
        post.last(),
    ) == w3 {
        assert(modifier_word(post[post.len() - 1]) == modifier_word(post.last()));
    }
}

/// The name that the configuration documents for a key: "F1".."F24",
/// "A".."Z", "0".."9".
pub open spec fn code_name(c: Code) -> Seq<char> {
    match c {
        Code::F1 => seq!['F'] + decimal(1),
        Code::F2 => seq!['F'] + decimal(2),
        Code::F3 => seq!['F'] + decimal(3),
        Code::F4 => seq!['F'] + decimal(4),
        Code::F5 => seq!['F'] + decimal(5),
        Code::F6 => seq!['F'] + decimal(6),
        Code::F7 => seq!['F'] + decimal(7),
        Code::F8 => seq!['F'] + decimal(8),
        Code::F9 => seq!['F'] + decimal(9),
        Code::F10 => seq!['F'] + decimal(10),
        Code::F11 => seq!['F'] + decimal(11),
        Code::F12 => seq!['F'] + decimal(12),
        Code::F13 => seq!['F'] + decimal(13),
        Code::F14 => seq!['F'] + decimal(14),
        Code::F15 => seq!['F'] + decimal(15),
        Code::F16 => seq!['F'] + decimal(16),
        Code::F17 => seq!['F'] + decimal(17),
        Code::F18 => seq!['F'] + decimal(18),
        Code::F19 => seq!['F'] + decimal(19),
        Code::F20 => seq!['F'] + decimal(20),
        Code::F21 => seq!['F'] + decimal(21),
        Code::F22 => seq!['F'] + decimal(22),
        Code::F23 => seq!['F'] + decimal(23),
        Code::F24 => seq!['F'] + decimal(24),
        Code::KeyA => seq!['A'],
        Code::KeyB => seq!['B'],
        Code::KeyC => seq!['C'],
        Code::KeyD => seq!['D'],
        Code::KeyE => seq!['E'],
        Code::KeyF => seq!['F'],
        Code::KeyG => seq!['G'],
        Code::KeyH => seq!['H'],
        Code::KeyI => seq!['I'],
        Code::KeyJ => seq!['J'],
        Code::KeyK => seq!['K'],
        Code::KeyL => seq!['L'],
        Code::KeyM => seq!['M'],
        Code::KeyN => seq!['N'],
        Code::KeyO => seq!['O'],
        Code::KeyP => seq!['P'],
        Code::KeyQ => seq!['Q'],
        Code::KeyR => seq!['R'],
        Code::KeyS => seq!['S'],
        Code::KeyT => seq!['T'],
        Code::KeyU => seq!['U'],
        Code::KeyV => seq!['V'],
        Code::KeyW => seq!['W'],
        Code::KeyX => seq!['X'],
        Code::KeyY => seq!['Y'],
        Code::KeyZ => seq!['Z'],
        Code::Digit0 => seq!['0'],
        Code::Digit1 => seq!['1'],
        Code::Digit2 => seq!['2'],
        Code::Digit3 => seq!['3'],
        Code::Digit4 => seq!['4'],
        Code::Digit5 => seq!['5'],
        Code::Digit6 => seq!['6'],
        Code::Digit7 => seq!['7'],
        Code::Digit8 => seq!['8'],
        Code::Digit9 => seq!['9'],
    }
}

proof fn lemma_plain_key_text(x: Seq<char>)
    requires
        x.len() > 0,
        forall|i: int|
            0 <= i < x.len() ==> is_ascii_digit(#[trigger] x[i]) || (0x41 <= (x[i] as u32) <= 0x5a),
    ensures
        ascii_upper_seq(trim(x)) == x,
{
    assert(!is_white_space(x[0]));
    assert(!is_white_space(x.last()));
    assert(trim_start(x) == x);
    assert(trim_end(x) == x);
    assert(ascii_upper_seq(x) =~= x);
}

proof fn lemma_function_name_parses(n: u32)
    ensures
        parse_code_spec(seq!['F'] + decimal(n as nat)) == function_code_spec(n),
{
    let d = decimal(n as nat);
    let x = seq!['F'] + d;
    lemma_decimal_digits(n as nat);
    lemma_decimal_parses(n);
    assert forall|i: int| 0 <= i < x.len() implies is_ascii_digit(#[trigger] x[i]) || (0x41
        <= (x[i] as u32) <= 0x5a) by {
        if i > 0 {
            assert(x[i] == d[i - 1]);
        }
    }
    lemma_plain_key_text(x);
    assert(x.drop_first() =~= d);
}

proof fn lemma_single_char_parses(c: char)
    requires
        is_ascii_digit(c) || (0x41 <= (c as u32) <= 0x5a),
    ensures
        parse_code_spec(seq![c]) == if is_ascii_digit(c) {
            digit_code_spec(c)
        } else {
            letter_code_spec(c)
        },
{
    lemma_plain_key_text(seq![c]);
    assert(seq![c].drop_first() =~= Seq::<char>::empty());
}

/// Every key name that the configuration documents is accepted and names
/// that key.
pub proof fn lemma_code_name_parses(c: Code)
    ensures
        parse_code_spec(code_name(c)) == Some(c),
{
    match c {
        Code::F1 => lemma_function_name_parses(1u32),
        Code::F2 => lemma_function_name_parses(2u32),
        Code::F3 => lemma_function_name_parses(3u32),
        Code::F4 => lemma_function_name_parses(4u32),
        Code::F5 => lemma_function_name_parses(5u32),
        Code::F6 => lemma_function_name_parses(6u32),
        Code::F7 => lemma_function_name_parses(7u32),
        Code::F8 => lemma_function_name_parses(8u32),
        Code::F9 => lemma_function_name_parses(9u32),
        Code::F10 => lemma_function_name_parses(10u32),
        Code::F11 => lemma_function_name_parses(11u32),
        Code::F12 => lemma_function_name_parses(12u32),
        Code::F13 => lemma_function_name_parses(13u32),
        Code::F14 => lemma_function_name_parses(14u32),
        Code::F15 => lemma_function_name_parses(15u32),
        Code::F16 => lemma_function_name_parses(16u32),
        Code::F17 => lemma_function_name_parses(17u32),
        Code::F18 => lemma_function_name_parses(18u32),
        Code::F19 => lemma_function_name_parses(19u32),
        Code::F20 => lemma_function_name_parses(20u32),
        Code::F21 => lemma_function_name_parses(21u32),
        Code::F22 => lemma_function_name_parses(22u32),
        Code::F23 => lemma_function_name_parses(23u32),
        Code::F24 => lemma_function_name_parses(24u32),
        Code::KeyA => lemma_single_char_parses('A'),
        Code::KeyB => lemma_single_char_parses('B'),
        Code::KeyC => lemma_single_char_parses('C'),
        Code::KeyD => lemma_single_char_parses('D'),
        Code::KeyE => lemma_single_char_parses('E'),
        Code::KeyF => lemma_single_char_parses('F'),
        Code::KeyG => lemma_single_char_parses('G'),
        Code::KeyH => lemma_single_char_parses('H'),
        Code::KeyI => lemma_single_char_parses('I'),
        Code::KeyJ => lemma_single_char_parses('J'),
        Code::KeyK => lemma_single_char_parses('K'),
        Code::KeyL => lemma_single_char_parses('L'),
        Code::KeyM => lemma_single_char_parses('M'),
        Code::KeyN => lemma_single_char_parses('N'),
        Code::KeyO => lemma_single_char_parses('O'),
        Code::KeyP => lemma_single_char_parses('P'),
        Code::KeyQ => lemma_single_char_parses('Q'),
        Code::KeyR => lemma_single_char_parses('R'),
        Code::KeyS => lemma_single_char_parses('S'),
        Code::KeyT => lemma_single_char_parses('T'),
        Code::KeyU => lemma_single_char_parses('U'),
        Code::KeyV => lemma_single_char_parses('V'),
        Code::KeyW => lemma_single_char_parses('W'),
        Code::KeyX => lemma_single_char_parses('X'),
        Code::KeyY => lemma_single_char_parses('Y'),
        Code::KeyZ => lemma_single_char_parses('Z'),
        Code::Digit0 => lemma_single_char_parses('0'),
        Code::Digit1 => lemma_single_char_parses('1'),
        Code::Digit2 => lemma_single_char_parses('2'),
        Code::Digit3 => lemma_single_char_parses('3'),
        Code::Digit4 => lemma_single_char_parses('4'),
        Code::Digit5 => lemma_single_char_parses('5'),
        Code::Digit6 => lemma_single_char_parses('6'),
        Code::Digit7 => lemma_single_char_parses('7'),
        Code::Digit8 => lemma_single_char_parses('8'),
        Code::Digit9 => lemma_single_char_parses('9'),
    }
}

proof fn lemma_trim_start_lower(s: Seq<char>)
    ensures
        trim_start(ascii_lower_seq(s)) == ascii_lower_seq(trim_start(s)),
    decreases s.len(),
{
    if s.len() > 0 {
        assert(ascii_lower_seq(s)[0] == ascii_lower(s[0]));
        assert(is_white_space(ascii_lower(s[0])) == is_white_space(s[0]));
        assert(ascii_lower_seq(s).drop_first() =~= ascii_lower_seq(s.drop_first()));
        lemma_trim_start_lower(s.drop_first());
    } else {
        assert(ascii_lower_seq(s) =~= s);
    }
}

proof fn lemma_trim_end_lower(s: Seq<char>)
    ensures
        trim_end(ascii_lower_seq(s)) == ascii_lower_seq(trim_end(s)),
    decreases s.len(),
{
    if s.len() > 0 {
        assert(ascii_lower_seq(s).last() == ascii_lower(s.last()));
        assert(is_white_space(ascii_lower(s.last())) == is_white_space(s.last()));
        assert(ascii_lower_seq(s).drop_last() =~= ascii_lower_seq(s.drop_last()));
        lemma_trim_end_lower(s.drop_last());
    } else {
        assert(ascii_lower_seq(s) =~= s);
    }
}

/// Key names are read without regard to the case of ASCII letters: the
/// lower-case form of any text names the same key as the text.
pub proof fn lemma_parse_code_ignores_case(key: Seq<char>)
    ensures
        parse_code_spec(ascii_lower_seq(key)) == parse_code_spec(key),
{
    lemma_trim_start_lower(key);
    lemma_trim_end_lower(trim_start(key));
    let t = trim(key);
    assert(trim(ascii_lower_seq(key)) == ascii_lower_seq(t));
    assert forall|i: int| 0 <= i < t.len() implies ascii_upper(ascii_lower(t[i])) == ascii_upper(
        t[i],
    ) by {
        let u = t[i] as u32;
        if 0x41 <= u <= 0x5a {
            assert((((u + 0x20) as char) as u32) == u + 0x20);
        }
    }
    assert(ascii_upper_seq(ascii_lower_seq(t)) =~= ascii_upper_seq(t));
}

} // verus!
