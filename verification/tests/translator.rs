//! The key code translator: the fixed table, and the fallback for codes
//! outside it.

use keyhelper::keys::translate;

#[test]
fn table_entries_translate_to_documented_names() {
    let cases: [(u16, &str); 104] = [
        // Modifier keys
        (29, "ControlLeft"),
        (97, "ControlRight"),
        (42, "ShiftLeft"),
        (54, "ShiftRight"),
        (56, "Alt"),
        (100, "AltRight"),
        (125, "MetaLeft"),
        (126, "MetaRight"),
        // Letter keys
        (30, "KeyA"),
        (48, "KeyB"),
        (46, "KeyC"),
        (32, "KeyD"),
        (18, "KeyE"),
        (33, "KeyF"),
        (34, "KeyG"),
        (35, "KeyH"),
        (23, "KeyI"),
        (36, "KeyJ"),
        (37, "KeyK"),
        (38, "KeyL"),
        (50, "KeyM"),
        (49, "KeyN"),
        (24, "KeyO"),
        (25, "KeyP"),
        (16, "KeyQ"),
        (19, "KeyR"),
        (31, "KeyS"),
        (20, "KeyT"),
        (22, "KeyU"),
        (47, "KeyV"),
        (17, "KeyW"),
        (45, "KeyX"),
        (21, "KeyY"),
        (44, "KeyZ"),
        // Number keys
        (11, "Digit0"),
        (2, "Digit1"),
        (3, "Digit2"),
        (4, "Digit3"),
        (5, "Digit4"),
        (6, "Digit5"),
        (7, "Digit6"),
        (8, "Digit7"),
        (9, "Digit8"),
        (10, "Digit9"),
        // Function keys
        (59, "F1"),
        (60, "F2"),
        (61, "F3"),
        (62, "F4"),
        (63, "F5"),
        (64, "F6"),
        (65, "F7"),
        (66, "F8"),
        (67, "F9"),
        (68, "F10"),
        (87, "F11"),
        (88, "F12"),
        // Special keys
        (1, "Escape"),
        (15, "Tab"),
        (58, "CapsLock"),
        (57, "Space"),
        (28, "Return"),
        (14, "BackSpace"),
        (111, "Delete"),
        (110, "Insert"),
        (102, "Home"),
        (107, "End"),
        (104, "PageUp"),
        (109, "PageDown"),
        // Arrow keys
        (103, "UpArrow"),
        (108, "DownArrow"),
        (105, "LeftArrow"),
        (106, "RightArrow"),
        // Punctuation and symbols
        (12, "Minus"),
        (13, "Equal"),
        (26, "BracketLeft"),
        (27, "BracketRight"),
        (43, "BackSlash"),
        (39, "Semicolon"),
        (40, "Quote"),
        (41, "BackQuote"),
        (51, "Comma"),
        (52, "Period"),
        (53, "Slash"),
        // Numpad keys
        (82, "Numpad0"),
        (79, "Numpad1"),
        (80, "Numpad2"),
        (81, "Numpad3"),
        (75, "Numpad4"),
        (76, "Numpad5"),
        (77, "Numpad6"),
        (71, "Numpad7"),
        (72, "Numpad8"),
        (73, "Numpad9"),
        (96, "NumpadEnter"),
        (78, "NumpadAdd"),
        (74, "NumpadSubtract"),
        (55, "NumpadMultiply"),
        (98, "NumpadDivide"),
        (83, "NumpadDecimal"),
        (69, "NumLock"),
        // Status keys
        (70, "ScrollLock"),
        (119, "Pause"),
        (210, "PrintScreen"),
        (464, "Function"),
    ];
    for (code, expected) in cases {
        assert_eq!(translate(code), expected, "code {}", code);
    }
}

#[test]
fn untabulated_named_key_falls_back_to_stripped_identifier() {
    // Code 86 is the kernel's KEY_102ND, which the table does not cover: the
    // platform identifier loses its constant prefix.
    assert_eq!(translate(86), "102ND");
    // Code 85 is KEY_ZENKAKUHANKAKU.
    assert_eq!(translate(85), "ZENKAKUHANKAKU");
}

#[test]
fn untabulated_unprefixed_key_passes_through_unchanged() {
    // Code 272 is a button, not a key: its identifier carries no KEY_ prefix
    // and passes through as it is.
    assert_eq!(translate(272), "BTN_LEFT");
    // Code 84 has no named constant at all.
    assert_eq!(translate(84), "unknown key: 84");
}

#[test]
fn every_translation_is_nonempty() {
    for code in 0u16..1024u16 {
        assert!(!translate(code).is_empty(), "code {}", code);
    }
}
