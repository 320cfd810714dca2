//! Translation of raw platform key codes to canonical key names.
//!
//! The canonical spellings are a compatibility contract with the downstream
//! consumer of the event stream: it matches on these exact strings, including
//! the irregular ones (the left alt key is plain `Alt`, the right one
//! `AltRight`; the enter key is `Return`; backspace is `BackSpace`).

use vstd::prelude::*;
use vstd::string::*;

verus! {

/// The fixed translation table: the canonical name of each raw key code the
/// helper knows, or `None` for a code outside the table. The raw codes are
/// the kernel's key scancodes.
pub open spec fn key_table(code: u16) -> Option<Seq<char>> {
    // Modifier keys
    if code == 29 { Some("ControlLeft"@) }
    else if code == 97 { Some("ControlRight"@) }
    else if code == 42 { Some("ShiftLeft"@) }
    else if code == 54 { Some("ShiftRight"@) }
    else if code == 56 { Some("Alt"@) }
    else if code == 100 { Some("AltRight"@) }
    else if code == 125 { Some("MetaLeft"@) }
    else if code == 126 { Some("MetaRight"@) }
    // Letter keys
    else if code == 30 { Some("KeyA"@) }
    else if code == 48 { Some("KeyB"@) }
    else if code == 46 { Some("KeyC"@) }
    else if code == 32 { Some("KeyD"@) }
    else if code == 18 { Some("KeyE"@) }
    else if code == 33 { Some("KeyF"@) }
    else if code == 34 { Some("KeyG"@) }
    else if code == 35 { Some("KeyH"@) }
    else if code == 23 { Some("KeyI"@) }
    else if code == 36 { Some("KeyJ"@) }
    else if code == 37 { Some("KeyK"@) }
    else if code == 38 { Some("KeyL"@) }
    else if code == 50 { Some("KeyM"@) }
    else if code == 49 { Some("KeyN"@) }
    else if code == 24 { Some("KeyO"@) }
    else if code == 25 { Some("KeyP"@) }
    else if code == 16 { Some("KeyQ"@) }
    else if code == 19 { Some("KeyR"@) }
    else if code == 31 { Some("KeyS"@) }
    else if code == 20 { Some("KeyT"@) }
    else if code == 22 { Some("KeyU"@) }
    else if code == 47 { Some("KeyV"@) }
    else if code == 17 { Some("KeyW"@) }
    else if code == 45 { Some("KeyX"@) }
    else if code == 21 { Some("KeyY"@) }
    else if code == 44 { Some("KeyZ"@) }
    // Number keys
    else if code == 11 { Some("Digit0"@) }
    else if code == 2 { Some("Digit1"@) }
    else if code == 3 { Some("Digit2"@) }
    else if code == 4 { Some("Digit3"@) }
    else if code == 5 { Some("Digit4"@) }
    else if code == 6 { Some("Digit5"@) }
    else if code == 7 { Some("Digit6"@) }
    else if code == 8 { Some("Digit7"@) }
    else if code == 9 { Some("Digit8"@) }
    else if code == 10 { Some("Digit9"@) }
    // Function keys
    else if code == 59 { Some("F1"@) }
    else if code == 60 { Some("F2"@) }
    else if code == 61 { Some("F3"@) }
    else if code == 62 { Some("F4"@) }
    else if code == 63 { Some("F5"@) }
    else if code == 64 { Some("F6"@) }
    else if code == 65 { Some("F7"@) }
    else if code == 66 { Some("F8"@) }
    else if code == 67 { Some("F9"@) }
    else if code == 68 { Some("F10"@) }
    else if code == 87 { Some("F11"@) }
    else if code == 88 { Some("F12"@) }
    // Special keys
    else if code == 1 { Some("Escape"@) }
    else if code == 15 { Some("Tab"@) }
    else if code == 58 { Some("CapsLock"@) }
    else if code == 57 { Some("Space"@) }
    else if code == 28 { Some("Return"@) }
    else if code == 14 { Some("BackSpace"@) }
    else if code == 111 { Some("Delete"@) }
    else if code == 110 { Some("Insert"@) }
    else if code == 102 { Some("Home"@) }
    else if code == 107 { Some("End"@) }
    else if code == 104 { Some("PageUp"@) }
    else if code == 109 { Some("PageDown"@) }
    // Arrow keys
    else if code == 103 { Some("UpArrow"@) }
    else if code == 108 { Some("DownArrow"@) }
    else if code == 105 { Some("LeftArrow"@) }
    else if code == 106 { Some("RightArrow"@) }
    // Punctuation and symbols
    else if code == 12 { Some("Minus"@) }
    else if code == 13 { Some("Equal"@) }
    else if code == 26 { Some("BracketLeft"@) }
    else if code == 27 { Some("BracketRight"@) }
    else if code == 43 { Some("BackSlash"@) }
    else if code == 39 { Some("Semicolon"@) }
    else if code == 40 { Some("Quote"@) }
    else if code == 41 { Some("BackQuote"@) }
    else if code == 51 { Some("Comma"@) }
    else if code == 52 { Some("Period"@) }
    else if code == 53 { Some("Slash"@) }
    // Numpad keys
    else if code == 82 { Some("Numpad0"@) }
    else if code == 79 { Some("Numpad1"@) }
    else if code == 80 { Some("Numpad2"@) }
    else if code == 81 { Some("Numpad3"@) }
    else if code == 75 { Some("Numpad4"@) }
    else if code == 76 { Some("Numpad5"@) }
    else if code == 77 { Some("Numpad6"@) }
    else if code == 71 { Some("Numpad7"@) }
    else if code == 72 { Some("Numpad8"@) }
    else if code == 73 { Some("Numpad9"@) }
    else if code == 96 { Some("NumpadEnter"@) }
    else if code == 78 { Some("NumpadAdd"@) }
    else if code == 74 { Some("NumpadSubtract"@) }
    else if code == 55 { Some("NumpadMultiply"@) }
    else if code == 98 { Some("NumpadDivide"@) }
    else if code == 83 { Some("NumpadDecimal"@) }
    else if code == 69 { Some("NumLock"@) }
    // Status keys
    else if code == 70 { Some("ScrollLock"@) }
    else if code == 119 { Some("Pause"@) }
    else if code == 210 { Some("PrintScreen"@) }
    else if code == 464 { Some("Function"@) }
    else { None }
}

/// The platform's own textual identifier for a key code, exactly as the input
/// crate renders it. It depends on the code alone.
pub uninterp spec fn default_key_name(code: u16) -> Seq<char>;

/// Whether a name begins with the kernel's constant prefix `KEY_`.
pub open spec fn has_key_prefix(s: Seq<char>) -> bool {
    s.len() >= 4 && s.subrange(0, 4) == "KEY_"@
}

/// The fallback translation of a name from outside the table: the constant
/// prefix is stripped when present, otherwise the name passes through
/// unchanged.
pub open spec fn strip_key_prefix_spec(s: Seq<char>) -> Seq<char> {
    if has_key_prefix(s) {
        s.subrange(4, s.len() as int)
    } else {
        s
    }
}

/// The canonical name of a raw key code: the table entry where there is one,
/// the stripped platform identifier everywhere else.
pub open spec fn canonical_of(code: u16) -> Seq<char> {
    match key_table(code) {
        Some(s) => s,
        None => strip_key_prefix_spec(default_key_name(code)),
    }
}

/// Relies on `evdev::KeyCode`'s `Debug` rendering: it prints the kernel
/// constant's identifier for a listed code (`KEY_A`, `BTN_LEFT`, ...; every
/// such identifier carrying the `KEY_` prefix continues past it) and
/// `unknown key: <code>` for an unlisted one; either way the text depends on
/// the code alone and is never empty.
#[verifier::external_body]
fn key_default_name(code: u16) -> (r: String)
    ensures
        r@ == default_key_name(code),
        r@.len() > 0,
        has_key_prefix(r@) ==> r@.len() > 4,
{
    format!("{:?}", evdev::KeyCode::new(code))
}

/// Look a raw key code up in the fixed table.
fn table_lookup(code: u16) -> (r: Option<&'static str>)
    ensures
        match r {
            Some(s) => key_table(code) == Some(s@),
            None => key_table(code) is None,
        },
{
    match code {
        29 => Some("ControlLeft"),
        97 => Some("ControlRight"),
        42 => Some("ShiftLeft"),
        54 => Some("ShiftRight"),
        56 => Some("Alt"),
        100 => Some("AltRight"),
        125 => Some("MetaLeft"),
        126 => Some("MetaRight"),
        30 => Some("KeyA"),
        48 => Some("KeyB"),
        46 => Some("KeyC"),
        32 => Some("KeyD"),
        18 => Some("KeyE"),
        33 => Some("KeyF"),
        34 => Some("KeyG"),
        35 => Some("KeyH"),
        23 => Some("KeyI"),
        36 => Some("KeyJ"),
        37 => Some("KeyK"),
        38 => Some("KeyL"),
        50 => Some("KeyM"),
        49 => Some("KeyN"),
        24 => Some("KeyO"),
        25 => Some("KeyP"),
        16 => Some("KeyQ"),
        19 => Some("KeyR"),
        31 => Some("KeyS"),
        20 => Some("KeyT"),
        22 => Some("KeyU"),
        47 => Some("KeyV"),
        17 => Some("KeyW"),
        45 => Some("KeyX"),
        21 => Some("KeyY"),
        44 => Some("KeyZ"),
        11 => Some("Digit0"),
        2 => Some("Digit1"),
        3 => Some("Digit2"),
        4 => Some("Digit3"),
        5 => Some("Digit4"),
        6 => Some("Digit5"),
        7 => Some("Digit6"),
        8 => Some("Digit7"),
        9 => Some("Digit8"),
        10 => Some("Digit9"),
        59 => Some("F1"),
        60 => Some("F2"),
        61 => Some("F3"),
        62 => Some("F4"),
        63 => Some("F5"),
        64 => Some("F6"),
        65 => Some("F7"),
        66 => Some("F8"),
        67 => Some("F9"),
        68 => Some("F10"),
        87 => Some("F11"),
        88 => Some("F12"),
        1 => Some("Escape"),
        15 => Some("Tab"),
        58 => Some("CapsLock"),
        57 => Some("Space"),
        28 => Some("Return"),
        14 => Some("BackSpace"),
        111 => Some("Delete"),
        110 => Some("Insert"),
        102 => Some("Home"),
        107 => Some("End"),
        104 => Some("PageUp"),
        109 => Some("PageDown"),
        103 => Some("UpArrow"),
        108 => Some("DownArrow"),
        105 => Some("LeftArrow"),
        106 => Some("RightArrow"),
        12 => Some("Minus"),
        13 => Some("Equal"),
        26 => Some("BracketLeft"),
        27 => Some("BracketRight"),
        43 => Some("BackSlash"),
        39 => Some("Semicolon"),
        40 => Some("Quote"),
        41 => Some("BackQuote"),
        51 => Some("Comma"),
        52 => Some("Period"),
        53 => Some("Slash"),
        82 => Some("Numpad0"),
        79 => Some("Numpad1"),
        80 => Some("Numpad2"),
        81 => Some("Numpad3"),
        75 => Some("Numpad4"),
        76 => Some("Numpad5"),
        77 => Some("Numpad6"),
        71 => Some("Numpad7"),
        72 => Some("Numpad8"),
        73 => Some("Numpad9"),
        96 => Some("NumpadEnter"),
        78 => Some("NumpadAdd"),
        74 => Some("NumpadSubtract"),
        55 => Some("NumpadMultiply"),
        98 => Some("NumpadDivide"),
        83 => Some("NumpadDecimal"),
        69 => Some("NumLock"),
        70 => Some("ScrollLock"),
        119 => Some("Pause"),
        210 => Some("PrintScreen"),
        464 => Some("Function"),
        _ => None,
    }
}

/// Every entry of the fixed table is a non-empty name.
proof fn lemma_table_entries_nonempty(code: u16)
    ensures
        key_table(code) matches Some(s) ==> s.len() > 0,
{
    reveal_strlit("ControlLeft");
    reveal_strlit("ControlRight");
    reveal_strlit("ShiftLeft");
    reveal_strlit("ShiftRight");
    reveal_strlit("Alt");
    reveal_strlit("AltRight");
    reveal_strlit("MetaLeft");
    reveal_strlit("MetaRight");
    reveal_strlit("KeyA");
    reveal_strlit("KeyB");
    reveal_strlit("KeyC");
    reveal_strlit("KeyD");
    reveal_strlit("KeyE");
    reveal_strlit("KeyF");
    reveal_strlit("KeyG");
    reveal_strlit("KeyH");
    reveal_strlit("KeyI");
    reveal_strlit("KeyJ");
    reveal_strlit("KeyK");
    reveal_strlit("KeyL");
    reveal_strlit("KeyM");
    reveal_strlit("KeyN");
    reveal_strlit("KeyO");
    reveal_strlit("KeyP");
    reveal_strlit("KeyQ");
    reveal_strlit("KeyR");
    reveal_strlit("KeyS");
    reveal_strlit("KeyT");
    reveal_strlit("KeyU");
    reveal_strlit("KeyV");
    reveal_strlit("KeyW");
    reveal_strlit("KeyX");
    reveal_strlit("KeyY");
    reveal_strlit("KeyZ");
    reveal_strlit("Digit0");
    reveal_strlit("Digit1");
    reveal_strlit("Digit2");
    reveal_strlit("Digit3");
    reveal_strlit("Digit4");
    reveal_strlit("Digit5");
    reveal_strlit("Digit6");
    reveal_strlit("Digit7");
    reveal_strlit("Digit8");
    reveal_strlit("Digit9");
    reveal_strlit("F1");
    reveal_strlit("F2");
    reveal_strlit("F3");
    reveal_strlit("F4");
    reveal_strlit("F5");
    reveal_strlit("F6");
    reveal_strlit("F7");
    reveal_strlit("F8");
    reveal_strlit("F9");
    reveal_strlit("F10");
    reveal_strlit("F11");
    reveal_strlit("F12");
    reveal_strlit("Escape");
    reveal_strlit("Tab");
    reveal_strlit("CapsLock");
    reveal_strlit("Space");
    reveal_strlit("Return");
    reveal_strlit("BackSpace");
    reveal_strlit("Delete");
    reveal_strlit("Insert");
    reveal_strlit("Home");
    reveal_strlit("End");
    reveal_strlit("PageUp");
    reveal_strlit("PageDown");
    reveal_strlit("UpArrow");
    reveal_strlit("DownArrow");
    reveal_strlit("LeftArrow");
    reveal_strlit("RightArrow");
    reveal_strlit("Minus");
    reveal_strlit("Equal");
    reveal_strlit("BracketLeft");
    reveal_strlit("BracketRight");
    reveal_strlit("BackSlash");
    reveal_strlit("Semicolon");
    reveal_strlit("Quote");
    reveal_strlit("BackQuote");
    reveal_strlit("Comma");
    reveal_strlit("Period");
    reveal_strlit("Slash");
    reveal_strlit("Numpad0");
    reveal_strlit("Numpad1");
    reveal_strlit("Numpad2");
    reveal_strlit("Numpad3");
    reveal_strlit("Numpad4");
    reveal_strlit("Numpad5");
    reveal_strlit("Numpad6");
    reveal_strlit("Numpad7");
    reveal_strlit("Numpad8");
    reveal_strlit("Numpad9");
    reveal_strlit("NumpadEnter");
    reveal_strlit("NumpadAdd");
    reveal_strlit("NumpadSubtract");
    reveal_strlit("NumpadMultiply");
    reveal_strlit("NumpadDivide");
    reveal_strlit("NumpadDecimal");
    reveal_strlit("NumLock");
    reveal_strlit("ScrollLock");
    reveal_strlit("Pause");
    reveal_strlit("PrintScreen");
    reveal_strlit("Function");
}

/// Strip the constant `KEY_` prefix from a name if it is there; hand the name
/// back unchanged otherwise.
fn strip_key_prefix(s: &str) -> (r: String)
    ensures
        r@ == strip_key_prefix_spec(s@),
{
    let n = s.unicode_len();
    if n >= 4 && s.get_char(0) == 'K' && s.get_char(1) == 'E' && s.get_char(2) == 'Y' && s.get_char(
        3,
    ) == '_' {
        proof {
            reveal_strlit("KEY_");
            assert(s@.subrange(0, 4) =~= "KEY_"@);
        }
        String::from_str(s.substring_char(4, n))
    } else {
        proof {
            reveal_strlit("KEY_");
            if has_key_prefix(s@) {
                assert(s@.subrange(0, 4)[0] == s@[0]);
                assert(s@.subrange(0, 4)[1] == s@[1]);
                assert(s@.subrange(0, 4)[2] == s@[2]);
                assert(s@.subrange(0, 4)[3] == s@[3]);
                assert(false);
            }
        }
        String::from_str(s)
    }
}

/// Translate a raw platform key code to its canonical key name.
///
/// The translation is total and never yields an empty name: a code in the
/// fixed table gets its documented canonical spelling, and any other code
/// falls back to the platform's own identifier for the key with the constant
/// `KEY_` prefix stripped when present.
pub fn translate(code: u16) -> (r: String)
    ensures
        r@ == canonical_of(code),
        r@.len() > 0,
{
    proof {
        lemma_table_entries_nonempty(code);
    }
    match table_lookup(code) {
        Some(s) => String::from_str(s),
        None => {
            let raw = key_default_name(code);
            strip_key_prefix(raw.as_str())
        },
    }
}

} // verus!
