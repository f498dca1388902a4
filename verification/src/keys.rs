use vstd::prelude::*;

use crate::text::{decimal_value, digit_value, all_digits, is_digit_ascii, is_upper_ascii, spec_parse_u8, str_equals, chars_of};

verus! {

/// A keyboard key, named by its physical position on a US layout.
#[derive(Clone, Copy, Debug, PartialEq, Eq, Structural)]
pub enum KeyCode {
    KeyA,
    KeyB,
    KeyC,
    KeyD,
    KeyE,
    KeyF,
    KeyG,
    KeyH,
    KeyI,
    KeyJ,
    KeyK,
    KeyL,
    KeyM,
    KeyN,
    KeyO,
    KeyP,
    KeyQ,
    KeyR,
    KeyS,
    KeyT,
    KeyU,
    KeyV,
    KeyW,
    KeyX,
    KeyY,
    KeyZ,
    Digit0,
    Digit1,
    Digit2,
    Digit3,
    Digit4,
    Digit5,
    Digit6,
    Digit7,
    Digit8,
    Digit9,
    F1,
    F2,
    F3,
    F4,
    F5,
    F6,
    F7,
    F8,
    F9,
    F10,
    F11,
    F12,
    Space,
    Escape,
    Enter,
    Tab,
    ShiftLeft,
    ShiftRight,
    ControlLeft,
    ControlRight,
    AltLeft,
    AltRight,
    CapsLock,
}

/// The letter key for an upper-case ASCII letter.
pub open spec fn spec_letter_key(c: char) -> Option<KeyCode> {
    match c {
        'A' => Some(KeyCode::KeyA),
        'B' => Some(KeyCode::KeyB),
        'C' => Some(KeyCode::KeyC),
        'D' => Some(KeyCode::KeyD),
        'E' => Some(KeyCode::KeyE),
        'F' => Some(KeyCode::KeyF),
        'G' => Some(KeyCode::KeyG),
        'H' => Some(KeyCode::KeyH),
        'I' => Some(KeyCode::KeyI),
        'J' => Some(KeyCode::KeyJ),
        'K' => Some(KeyCode::KeyK),
        'L' => Some(KeyCode::KeyL),
        'M' => Some(KeyCode::KeyM),
        'N' => Some(KeyCode::KeyN),
        'O' => Some(KeyCode::KeyO),
        'P' => Some(KeyCode::KeyP),
        'Q' => Some(KeyCode::KeyQ),
        'R' => Some(KeyCode::KeyR),
        'S' => Some(KeyCode::KeyS),
        'T' => Some(KeyCode::KeyT),
        'U' => Some(KeyCode::KeyU),
        'V' => Some(KeyCode::KeyV),
        'W' => Some(KeyCode::KeyW),
        'X' => Some(KeyCode::KeyX),
        'Y' => Some(KeyCode::KeyY),
        'Z' => Some(KeyCode::KeyZ),
        _ => None,
    }
}

/// The digit-row key for an ASCII decimal digit.
pub open spec fn spec_digit_key(c: char) -> Option<KeyCode> {
    match c {
        '0' => Some(KeyCode::Digit0),
        '1' => Some(KeyCode::Digit1),
        '2' => Some(KeyCode::Digit2),
        '3' => Some(KeyCode::Digit3),
        '4' => Some(KeyCode::Digit4),
        '5' => Some(KeyCode::Digit5),
        '6' => Some(KeyCode::Digit6),
        '7' => Some(KeyCode::Digit7),
        '8' => Some(KeyCode::Digit8),
        '9' => Some(KeyCode::Digit9),
        _ => None,
    }
}

/// The function key `F<n>` for `n` in 1..=12.
pub open spec fn spec_function_key(n: u8) -> Option<KeyCode> {
    match n {
        1u8 => Some(KeyCode::F1),
        2u8 => Some(KeyCode::F2),
        3u8 => Some(KeyCode::F3),
        4u8 => Some(KeyCode::F4),
        5u8 => Some(KeyCode::F5),
        6u8 => Some(KeyCode::F6),
        7u8 => Some(KeyCode::F7),
        8u8 => Some(KeyCode::F8),
        9u8 => Some(KeyCode::F9),
        10u8 => Some(KeyCode::F10),
        11u8 => Some(KeyCode::F11),
        12u8 => Some(KeyCode::F12),
        _ => None,
    }
}

/// The keys recognised by their full name.
pub open spec fn spec_named_key(s: Seq<char>) -> Option<KeyCode> {
    if s == "Space"@ {
        Some(KeyCode::Space)
    } else if s == "Escape"@ {
        Some(KeyCode::Escape)
    } else if s == "Enter"@ {
        Some(KeyCode::Enter)
    } else if s == "Tab"@ {
        Some(KeyCode::Tab)
    } else if s == "ShiftLeft"@ {
        Some(KeyCode::ShiftLeft)
    } else if s == "ShiftRight"@ {
        Some(KeyCode::ShiftRight)
    } else if s == "ControlLeft"@ {
        Some(KeyCode::ControlLeft)
    } else if s == "ControlRight"@ {
        Some(KeyCode::ControlRight)
    } else if s == "AltLeft"@ {
        Some(KeyCode::AltLeft)
    } else if s == "AltRight"@ {
        Some(KeyCode::AltRight)
    } else {
        None
    }
}

/// What a key name denotes: `Key<A-Z>` for letters, `Digit<0-9>` for the
/// digit row, `F` followed by a `u8` numeral for the function keys (only 1 to
/// 12 name a key), or one of the named keys (`Space`, `Escape`, `Enter`,
/// `Tab`, and the left/right `Shift`, `Control` and `Alt` keys).
pub open spec fn spec_parse_key_code(s: Seq<char>) -> Option<KeyCode> {
    if s.len() == 4 && s[0] == 'K' && s[1] == 'e' && s[2] == 'y' && is_upper_ascii(s[3]) {
        spec_letter_key(s[3])
    } else if s.len() == 6 && s[0] == 'D' && s[1] == 'i' && s[2] == 'g' && s[3] == 'i' && s[4]
        == 't' && is_digit_ascii(s[5]) {
        spec_digit_key(s[5])
    } else if 1 <= s.len() <= 3 && s[0] == 'F' && spec_parse_u8(s.skip(1)) is Some {
        spec_function_key(spec_parse_u8(s.skip(1))->0)
    } else {
        spec_named_key(s)
    }
}

fn letter_key(c: char) -> (r: Option<KeyCode>)
    ensures
        r == spec_letter_key(c),
{
    match c {
        'A' => Some(KeyCode::KeyA),
        'B' => Some(KeyCode::KeyB),
        'C' => Some(KeyCode::KeyC),
        'D' => Some(KeyCode::KeyD),
        'E' => Some(KeyCode::KeyE),
        'F' => Some(KeyCode::KeyF),
        'G' => Some(KeyCode::KeyG),
        'H' => Some(KeyCode::KeyH),
        'I' => Some(KeyCode::KeyI),
        'J' => Some(KeyCode::KeyJ),
        'K' => Some(KeyCode::KeyK),
        'L' => Some(KeyCode::KeyL),
        'M' => Some(KeyCode::KeyM),
        'N' => Some(KeyCode::KeyN),
        'O' => Some(KeyCode::KeyO),
        'P' => Some(KeyCode::KeyP),
        'Q' => Some(KeyCode::KeyQ),
        'R' => Some(KeyCode::KeyR),
        'S' => Some(KeyCode::KeyS),
        'T' => Some(KeyCode::KeyT),
        'U' => Some(KeyCode::KeyU),
        'V' => Some(KeyCode::KeyV),
        'W' => Some(KeyCode::KeyW),
        'X' => Some(KeyCode::KeyX),
        'Y' => Some(KeyCode::KeyY),
        'Z' => Some(KeyCode::KeyZ),
        _ => None,
    }
}

fn digit_key(c: char) -> (r: Option<KeyCode>)
    ensures
        r == spec_digit_key(c),
{
    match c {
        '0' => Some(KeyCode::Digit0),
        '1' => Some(KeyCode::Digit1),
        '2' => Some(KeyCode::Digit2),
        '3' => Some(KeyCode::Digit3),
        '4' => Some(KeyCode::Digit4),
        '5' => Some(KeyCode::Digit5),
        '6' => Some(KeyCode::Digit6),
        '7' => Some(KeyCode::Digit7),
        '8' => Some(KeyCode::Digit8),
        '9' => Some(KeyCode::Digit9),
        _ => None,
    }
}

fn function_key(n: u8) -> (r: Option<KeyCode>)
    ensures
        r == spec_function_key(n),
{
    match n {
        1 => Some(KeyCode::F1),
        2 => Some(KeyCode::F2),
        3 => Some(KeyCode::F3),
        4 => Some(KeyCode::F4),
        5 => Some(KeyCode::F5),
        6 => Some(KeyCode::F6),
        7 => Some(KeyCode::F7),
        8 => Some(KeyCode::F8),
        9 => Some(KeyCode::F9),
        10 => Some(KeyCode::F10),
        11 => Some(KeyCode::F11),
        12 => Some(KeyCode::F12),
        _ => None,
    }
}

fn named_key(s: &str) -> (r: Option<KeyCode>)
    ensures
        r == spec_named_key(s@),
{
    if str_equals(s, "Space") {
        Some(KeyCode::Space)
    } else if str_equals(s, "Escape") {
        Some(KeyCode::Escape)
    } else if str_equals(s, "Enter") {
        Some(KeyCode::Enter)
    } else if str_equals(s, "Tab") {
        Some(KeyCode::Tab)
    } else if str_equals(s, "ShiftLeft") {
        Some(KeyCode::ShiftLeft)
    } else if str_equals(s, "ShiftRight") {
        Some(KeyCode::ShiftRight)
    } else if str_equals(s, "ControlLeft") {
        Some(KeyCode::ControlLeft)
    } else if str_equals(s, "ControlRight") {
        Some(KeyCode::ControlRight)
    } else if str_equals(s, "AltLeft") {
        Some(KeyCode::AltLeft)
    } else if str_equals(s, "AltRight") {
        Some(KeyCode::AltRight)
    } else {
        None
    }
}

/// Parse the numeral after the leading `F` of a name of at most three
/// characters, as `str::parse::<u8>` would.
fn parse_function_number(cs: &Vec<char>) -> (r: Option<u8>)
    requires
        1 <= cs@.len() <= 3,
    ensures
        r == spec_parse_u8(cs@.skip(1)),
{
    let ghost t = cs@.skip(1);
    if cs.len() == 2 {
        let c = cs[1];
        assert(t.drop_last() =~= Seq::<char>::empty());
        assert(t.len() == 1 && t[0] == c);
        if '0' <= c && c <= '9' {
            assert(all_digits(t));
            assert(decimal_value(t) == decimal_value(t.drop_last()) * 10 + digit_value(c));
            assert(decimal_value(t) == digit_value(c));
            assert(digit_value(c) == (c as u32) - 48);
            Some(((c as u32) - 48) as u8)
        } else {
            assert(!is_digit_ascii(t[0]));
            None
        }
    } else if cs.len() == 3 {
        let a = cs[1];
        let b = cs[2];
        assert(t.len() == 2 && t[0] == a && t[1] == b);
        if a == '+' {
            let ghost d = t.skip(1int);
            assert(d.len() == 1 && d[0] == b);
            assert(d.drop_last() =~= Seq::<char>::empty());
            if '0' <= b && b <= '9' {
                assert(all_digits(d));
                assert(decimal_value(d) == decimal_value(d.drop_last()) * 10 + digit_value(b));
                assert(digit_value(b) == (b as u32) - 48);
                Some(((b as u32) - 48) as u8)
            } else {
                assert(!is_digit_ascii(d[0]));
                None
            }
        } else if '0' <= a && a <= '9' && '0' <= b && b <= '9' {
            assert(all_digits(t));
            assert(t.drop_last() =~= seq![a]);
            assert(seq![a].drop_last() =~= Seq::<char>::empty());
            assert(decimal_value(seq![a]) == decimal_value(seq![a].drop_last()) * 10 + digit_value(a));
            assert(decimal_value(t) == decimal_value(t.drop_last()) * 10 + digit_value(b));
            assert(decimal_value(t) == digit_value(a) * 10 + digit_value(b));
            assert(digit_value(a) == (a as u32) - 48);
            assert(digit_value(b) == (b as u32) - 48);
            Some((((a as u32) - 48) * 10 + ((b as u32) - 48)) as u8)
        } else {
            if !('0' <= a && a <= '9') {
                assert(!is_digit_ascii(t[0]));
            } else {
                assert(!is_digit_ascii(t[1]));
            }
            None
        }
    } else {
        assert(t.len() == 0);
        None
    }
}

/// Convert a key name such as `"KeyC"`, `"Space"` or `"F1"` to a key.
///
/// Returns `None` for unrecognized names.
pub fn parse_key_code(s: &str) -> (r: Option<KeyCode>)
    ensures
        r == spec_parse_key_code(s@),
{
    let cs = chars_of(s);
    let n = cs.len();
    if n == 4 && cs[0] == 'K' && cs[1] == 'e' && cs[2] == 'y' && 'A' <= cs[3] && cs[3] <= 'Z' {
        return letter_key(cs[3]);
    }
    if n == 6 && cs[0] == 'D' && cs[1] == 'i' && cs[2] == 'g' && cs[3] == 'i' && cs[4] == 't'
        && '0' <= cs[5] && cs[5] <= '9' {
        return digit_key(cs[5]);
    }
    if 1 <= n && n <= 3 && cs[0] == 'F' {
        let number = parse_function_number(&cs);
        if let Some(v) = number {
            return function_key(v);
        }
    }
    named_key(s)
}

/// The canonical name of a key: its variant name.
pub open spec fn key_code_name(k: KeyCode) -> Seq<char> {
    match k {
        KeyCode::KeyA => "KeyA"@,
        KeyCode::KeyB => "KeyB"@,
        KeyCode::KeyC => "KeyC"@,
        KeyCode::KeyD => "KeyD"@,
        KeyCode::KeyE => "KeyE"@,
        KeyCode::KeyF => "KeyF"@,
        KeyCode::KeyG => "KeyG"@,
        KeyCode::KeyH => "KeyH"@,
        KeyCode::KeyI => "KeyI"@,
        KeyCode::KeyJ => "KeyJ"@,
        KeyCode::KeyK => "KeyK"@,
        KeyCode::KeyL => "KeyL"@,
        KeyCode::KeyM => "KeyM"@,
        KeyCode::KeyN => "KeyN"@,
        KeyCode::KeyO => "KeyO"@,
        KeyCode::KeyP => "KeyP"@,
        KeyCode::KeyQ => "KeyQ"@,
        KeyCode::KeyR => "KeyR"@,
        KeyCode::KeyS => "KeyS"@,
        KeyCode::KeyT => "KeyT"@,
        KeyCode::KeyU => "KeyU"@,
        KeyCode::KeyV => "KeyV"@,
        KeyCode::KeyW => "KeyW"@,
        KeyCode::KeyX => "KeyX"@,
        KeyCode::KeyY => "KeyY"@,
        KeyCode::KeyZ => "KeyZ"@,
        KeyCode::Digit0 => "Digit0"@,
        KeyCode::Digit1 => "Digit1"@,
        KeyCode::Digit2 => "Digit2"@,
        KeyCode::Digit3 => "Digit3"@,
        KeyCode::Digit4 => "Digit4"@,
        KeyCode::Digit5 => "Digit5"@,
        KeyCode::Digit6 => "Digit6"@,
        KeyCode::Digit7 => "Digit7"@,
        KeyCode::Digit8 => "Digit8"@,
        KeyCode::Digit9 => "Digit9"@,
        KeyCode::F1 => "F1"@,
        KeyCode::F2 => "F2"@,
        KeyCode::F3 => "F3"@,
        KeyCode::F4 => "F4"@,
        KeyCode::F5 => "F5"@,
        KeyCode::F6 => "F6"@,
        KeyCode::F7 => "F7"@,
        KeyCode::F8 => "F8"@,
        KeyCode::F9 => "F9"@,
        KeyCode::F10 => "F10"@,
        KeyCode::F11 => "F11"@,
        KeyCode::F12 => "F12"@,
        KeyCode::Space => "Space"@,
        KeyCode::Escape => "Escape"@,
        KeyCode::Enter => "Enter"@,
        KeyCode::Tab => "Tab"@,
        KeyCode::ShiftLeft => "ShiftLeft"@,
        KeyCode::ShiftRight => "ShiftRight"@,
        KeyCode::ControlLeft => "ControlLeft"@,
        KeyCode::ControlRight => "ControlRight"@,
        KeyCode::AltLeft => "AltLeft"@,
        KeyCode::AltRight => "AltRight"@,
        KeyCode::CapsLock => "CapsLock"@,
    }
}

/// The value of a numeral of one or two digits.
proof fn lemma_short_decimal(t: Seq<char>)
    requires
        1 <= t.len() <= 2,
    ensures
        decimal_value(t) == if t.len() == 1 {
            digit_value(t[0])
        } else {
            digit_value(t[0]) * 10 + digit_value(t[1])
        },
{
    let u = t.drop_last();
    assert(decimal_value(t) == decimal_value(u) * 10 + digit_value(t.last()));
    if t.len() == 1 {
        assert(u =~= Seq::<char>::empty());
    } else {
        assert(u.drop_last() =~= Seq::<char>::empty());
        assert(u.last() == t[0]);
        assert(decimal_value(u) == decimal_value(u.drop_last()) * 10 + digit_value(u.last()));
    }
}

/// Every key but Caps Lock is recognised by its canonical name; Caps Lock
/// has no name that parses, so it is only ever bound as a fallback.
pub proof fn lemma_key_names_parse(k: KeyCode)
    ensures
        k != KeyCode::CapsLock ==> spec_parse_key_code(key_code_name(k)) == Some(k),
        spec_parse_key_code(key_code_name(KeyCode::CapsLock)) is None,
{
    reveal_strlit("Space");
    assert("Space"@ =~= seq!['S', 'p', 'a', 'c', 'e']);
    reveal_strlit("Escape");
    assert("Escape"@ =~= seq!['E', 's', 'c', 'a', 'p', 'e']);
    reveal_strlit("Enter");
    assert("Enter"@ =~= seq!['E', 'n', 't', 'e', 'r']);
    reveal_strlit("Tab");
    assert("Tab"@ =~= seq!['T', 'a', 'b']);
    reveal_strlit("ShiftLeft");
    assert("ShiftLeft"@ =~= seq!['S', 'h', 'i', 'f', 't', 'L', 'e', 'f', 't']);
    reveal_strlit("ShiftRight");
    assert("ShiftRight"@ =~= seq!['S', 'h', 'i', 'f', 't', 'R', 'i', 'g', 'h', 't']);
    reveal_strlit("ControlLeft");
    assert("ControlLeft"@ =~= seq!['C', 'o', 'n', 't', 'r', 'o', 'l', 'L', 'e', 'f', 't']);
    reveal_strlit("ControlRight");
    assert("ControlRight"@ =~= seq!['C', 'o', 'n', 't', 'r', 'o', 'l', 'R', 'i', 'g', 'h', 't']);
    reveal_strlit("AltLeft");
    assert("AltLeft"@ =~= seq!['A', 'l', 't', 'L', 'e', 'f', 't']);
    reveal_strlit("AltRight");
    assert("AltRight"@ =~= seq!['A', 'l', 't', 'R', 'i', 'g', 'h', 't']);
    reveal_strlit("CapsLock");
    assert("CapsLock"@ =~= seq!['C', 'a', 'p', 's', 'L', 'o', 'c', 'k']);
    match k {
        KeyCode::KeyA => {
            reveal_strlit("KeyA");
            assert("KeyA"@ =~= seq!['K', 'e', 'y', 'A']);
        },
        KeyCode::KeyB => {
            reveal_strlit("KeyB");
            assert("KeyB"@ =~= seq!['K', 'e', 'y', 'B']);
        },
        KeyCode::KeyC => {
            reveal_strlit("KeyC");
            assert("KeyC"@ =~= seq!['K', 'e', 'y', 'C']);
        },
        KeyCode::KeyD => {
            reveal_strlit("KeyD");
            assert("KeyD"@ =~= seq!['K', 'e', 'y', 'D']);
        },
        KeyCode::KeyE => {
            reveal_strlit("KeyE");
            assert("KeyE"@ =~= seq!['K', 'e', 'y', 'E']);
        },
        KeyCode::KeyF => {
            reveal_strlit("KeyF");
            assert("KeyF"@ =~= seq!['K', 'e', 'y', 'F']);
        },
        KeyCode::KeyG => {
            reveal_strlit("KeyG");
            assert("KeyG"@ =~= seq!['K', 'e', 'y', 'G']);
        },
        KeyCode::KeyH => {
            reveal_strlit("KeyH");
            assert("KeyH"@ =~= seq!['K', 'e', 'y', 'H']);
        },
        KeyCode::KeyI => {
            reveal_strlit("KeyI");
            assert("KeyI"@ =~= seq!['K', 'e', 'y', 'I']);
        },
        KeyCode::KeyJ => {
            reveal_strlit("KeyJ");
            assert("KeyJ"@ =~= seq!['K', 'e', 'y', 'J']);
        },
        KeyCode::KeyK => {
            reveal_strlit("KeyK");
            assert("KeyK"@ =~= seq!['K', 'e', 'y', 'K']);
        },
        KeyCode::KeyL => {
            reveal_strlit("KeyL");
            assert("KeyL"@ =~= seq!['K', 'e', 'y', 'L']);
        },
        KeyCode::KeyM => {
            reveal_strlit("KeyM");
            assert("KeyM"@ =~= seq!['K', 'e', 'y', 'M']);
        },
        KeyCode::KeyN => {
            reveal_strlit("KeyN");
            assert("KeyN"@ =~= seq!['K', 'e', 'y', 'N']);
        },
        KeyCode::KeyO => {
            reveal_strlit("KeyO");
            assert("KeyO"@ =~= seq!['K', 'e', 'y', 'O']);
        },
        KeyCode::KeyP => {
            reveal_strlit("KeyP");
            assert("KeyP"@ =~= seq!['K', 'e', 'y', 'P']);
        },
        KeyCode::KeyQ => {
            reveal_strlit("KeyQ");
            assert("KeyQ"@ =~= seq!['K', 'e', 'y', 'Q']);
        },
        KeyCode::KeyR => {
            reveal_strlit("KeyR");
            assert("KeyR"@ =~= seq!['K', 'e', 'y', 'R']);
        },
        KeyCode::KeyS => {
            reveal_strlit("KeyS");
            assert("KeyS"@ =~= seq!['K', 'e', 'y', 'S']);
        },
        KeyCode::KeyT => {
            reveal_strlit("KeyT");
            assert("KeyT"@ =~= seq!['K', 'e', 'y', 'T']);
        },
        KeyCode::KeyU => {
            reveal_strlit("KeyU");
            assert("KeyU"@ =~= seq!['K', 'e', 'y', 'U']);
        },
        KeyCode::KeyV => {
            reveal_strlit("KeyV");
            assert("KeyV"@ =~= seq!['K', 'e', 'y', 'V']);
        },
        KeyCode::KeyW => {
            reveal_strlit("KeyW");
            assert("KeyW"@ =~= seq!['K', 'e', 'y', 'W']);
        },
        KeyCode::KeyX => {
            reveal_strlit("KeyX");
            assert("KeyX"@ =~= seq!['K', 'e', 'y', 'X']);
        },
        KeyCode::KeyY => {
            reveal_strlit("KeyY");
            assert("KeyY"@ =~= seq!['K', 'e', 'y', 'Y']);
        },
        KeyCode::KeyZ => {
            reveal_strlit("KeyZ");
            assert("KeyZ"@ =~= seq!['K', 'e', 'y', 'Z']);
        },
        KeyCode::Digit0 => {
            reveal_strlit("Digit0");
            assert("Digit0"@ =~= seq!['D', 'i', 'g', 'i', 't', '0']);
        },
        KeyCode::Digit1 => {
            reveal_strlit("Digit1");
            assert("Digit1"@ =~= seq!['D', 'i', 'g', 'i', 't', '1']);
        },
        KeyCode::Digit2 => {
            reveal_strlit("Digit2");
            assert("Digit2"@ =~= seq!['D', 'i', 'g', 'i', 't', '2']);
        },
        KeyCode::Digit3 => {
            reveal_strlit("Digit3");
            assert("Digit3"@ =~= seq!['D', 'i', 'g', 'i', 't', '3']);
        },
        KeyCode::Digit4 => {
            reveal_strlit("Digit4");
            assert("Digit4"@ =~= seq!['D', 'i', 'g', 'i', 't', '4']);
        },
        KeyCode::Digit5 => {
            reveal_strlit("Digit5");
            assert("Digit5"@ =~= seq!['D', 'i', 'g', 'i', 't', '5']);
        },
        KeyCode::Digit6 => {
            reveal_strlit("Digit6");
            assert("Digit6"@ =~= seq!['D', 'i', 'g', 'i', 't', '6']);
        },
        KeyCode::Digit7 => {
            reveal_strlit("Digit7");
            assert("Digit7"@ =~= seq!['D', 'i', 'g', 'i', 't', '7']);
        },
        KeyCode::Digit8 => {
            reveal_strlit("Digit8");
            assert("Digit8"@ =~= seq!['D', 'i', 'g', 'i', 't', '8']);
        },
        KeyCode::Digit9 => {
            reveal_strlit("Digit9");
            assert("Digit9"@ =~= seq!['D', 'i', 'g', 'i', 't', '9']);
        },
        KeyCode::F1 => {
            reveal_strlit("F1");
            assert("F1"@ =~= seq!['F', '1']);
            assert("F1"@.skip(1) =~= seq!['1']);
            lemma_short_decimal("F1"@.skip(1));
        },
        KeyCode::F2 => {
            reveal_strlit("F2");
            assert("F2"@ =~= seq!['F', '2']);
            assert("F2"@.skip(1) =~= seq!['2']);
            lemma_short_decimal("F2"@.skip(1));
        },
        KeyCode::F3 => {
            reveal_strlit("F3");
            assert("F3"@ =~= seq!['F', '3']);
            assert("F3"@.skip(1) =~= seq!['3']);
            lemma_short_decimal("F3"@.skip(1));
        },
        KeyCode::F4 => {
            reveal_strlit("F4");
            assert("F4"@ =~= seq!['F', '4']);
            assert("F4"@.skip(1) =~= seq!['4']);
            lemma_short_decimal("F4"@.skip(1));
        },
        KeyCode::F5 => {
            reveal_strlit("F5");
            assert("F5"@ =~= seq!['F', '5']);
            assert("F5"@.skip(1) =~= seq!['5']);
            lemma_short_decimal("F5"@.skip(1));
        },
        KeyCode::F6 => {
            reveal_strlit("F6");
            assert("F6"@ =~= seq!['F', '6']);
            assert("F6"@.skip(1) =~= seq!['6']);
            lemma_short_decimal("F6"@.skip(1));
        },
        KeyCode::F7 => {
            reveal_strlit("F7");
            assert("F7"@ =~= seq!['F', '7']);
            assert("F7"@.skip(1) =~= seq!['7']);
            lemma_short_decimal("F7"@.skip(1));
        },
        KeyCode::F8 => {
            reveal_strlit("F8");
            assert("F8"@ =~= seq!['F', '8']);
            assert("F8"@.skip(1) =~= seq!['8']);
            lemma_short_decimal("F8"@.skip(1));
        },
        KeyCode::F9 => {
            reveal_strlit("F9");
            assert("F9"@ =~= seq!['F', '9']);
            assert("F9"@.skip(1) =~= seq!['9']);
            lemma_short_decimal("F9"@.skip(1));
        },
        KeyCode::F10 => {
            reveal_strlit("F10");
            assert("F10"@ =~= seq!['F', '1', '0']);
            assert("F10"@.skip(1) =~= seq!['1', '0']);
            lemma_short_decimal("F10"@.skip(1));
        },
        KeyCode::F11 => {
            reveal_strlit("F11");
            assert("F11"@ =~= seq!['F', '1', '1']);
            assert("F11"@.skip(1) =~= seq!['1', '1']);
            lemma_short_decimal("F11"@.skip(1));
        },
        KeyCode::F12 => {
            reveal_strlit("F12");
            assert("F12"@ =~= seq!['F', '1', '2']);
            assert("F12"@.skip(1) =~= seq!['1', '2']);
            lemma_short_decimal("F12"@.skip(1));
        },
        KeyCode::Space => {},
        KeyCode::Escape => {},
        KeyCode::Enter => {},
        KeyCode::Tab => {},
        KeyCode::ShiftLeft => {},
        KeyCode::ShiftRight => {},
        KeyCode::ControlLeft => {},
        KeyCode::ControlRight => {},
        KeyCode::AltLeft => {},
        KeyCode::AltRight => {},
        KeyCode::CapsLock => {},
    }
}

} // verus!
