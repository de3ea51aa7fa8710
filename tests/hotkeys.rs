use openflow::hotkey::{HotkeyEdge, KeyTracker, TrackerInput, KEY_LEFTCTRL, KEY_RIGHTALT};
use openflow::shortcut::{keysym_candidates, parse_hotkey, parse_key, split_x11_hotkey, HotkeySpec, Modifiers, ShortcutError};
use openflow::x11keys::{keycode_for_any_keysym, keycode_for_keysym, GrabTracker, ModifierMap, MASK_CONTROL, MASK_LOCK, MASK_M1, MASK_M2, MASK_M4};

fn none() -> Modifiers {
    Modifiers { ctrl: false, alt: false, shift: false, meta: false }
}

#[test]
fn parses_single_key_binding() {
    assert_eq!(parse_hotkey("RightAlt"), Ok(HotkeySpec { key: 100, modifiers: none() }));
}

#[test]
fn parses_chord_case_insensitively_with_blanks() {
    let spec = parse_hotkey(" ctrl + shift + f5 ").unwrap();
    assert_eq!(spec.key, 63);
    assert!(spec.modifiers.ctrl && spec.modifiers.shift);
    assert!(!spec.modifiers.alt && !spec.modifiers.meta);
    let spec = parse_hotkey("Ctrl+Space").unwrap();
    assert_eq!(spec.key, 57);
    assert!(spec.modifiers.ctrl);
    let spec = parse_hotkey("Super+Alt+Page Down").unwrap();
    assert_eq!(spec.key, 109);
    assert!(spec.modifiers.meta && spec.modifiers.alt);
}

#[test]
fn parses_letters_digits_and_function_keys() {
    assert_eq!(parse_key("a"), Ok(30));
    assert_eq!(parse_key("F"), Ok(33));
    assert_eq!(parse_key("0"), Ok(11));
    assert_eq!(parse_key("F12"), Ok(88));
    assert_eq!(parse_key("F13"), Ok(183));
    assert_eq!(parse_key("F24"), Ok(194));
    assert_eq!(parse_key("Enter"), Ok(28));
    assert_eq!(parse_key("return"), Ok(28));
}

#[test]
fn rejects_bad_shortcuts() {
    assert_eq!(parse_hotkey(""), Err(ShortcutError::Empty));
    assert_eq!(parse_hotkey(" + + "), Err(ShortcutError::Empty));
    assert_eq!(parse_hotkey("Ctrl+F25"), Err(ShortcutError::UnsupportedKey));
    assert_eq!(parse_hotkey("Ctrl+"), Err(ShortcutError::UnsupportedKey));
    assert_eq!(parse_key("   "), Err(ShortcutError::MissingKey));
    assert_eq!(parse_key("F0"), Err(ShortcutError::UnsupportedKey));
}

#[test]
fn x11_keysyms_follow_the_table() {
    assert_eq!(keysym_candidates("RightAlt").unwrap(), vec![0xffea, 0xfe03, 0xff7e]);
    assert_eq!(keysym_candidates("f1").unwrap(), vec![0xffbe]);
    assert_eq!(keysym_candidates("F24").unwrap(), vec![0xffbe + 23]);
    assert_eq!(keysym_candidates("a").unwrap(), vec![0x41]);
    assert_eq!(keysym_candidates("7").unwrap(), vec![0x37]);
    assert!(matches!(keysym_candidates("Home"), Err(ShortcutError::UnsupportedKey)));
    let (mods, key) = split_x11_hotkey("Alt + Shift + S").unwrap();
    assert!(mods.alt && mods.shift && !mods.ctrl);
    assert_eq!(key, "S");
}

#[test]
fn raw_key_repeat_never_toggles() {
    let mut t = KeyTracker::new(HotkeySpec { key: KEY_RIGHTALT, modifiers: none() });
    assert_eq!(t.on_key(KEY_RIGHTALT, 2), None);
    assert!(!t.pressed);
    assert_eq!(t.on_key(KEY_RIGHTALT, 1), Some(HotkeyEdge::Pressed));
    assert_eq!(t.on_key(KEY_RIGHTALT, 2), None);
    assert_eq!(t.on_key(KEY_RIGHTALT, 2), None);
    assert!(t.pressed);
    assert_eq!(t.on_key(KEY_RIGHTALT, 0), Some(HotkeyEdge::Released));
    assert_eq!(t.on_key(KEY_RIGHTALT, 2), None);
    assert!(!t.pressed);
}

#[test]
fn chord_needs_its_modifier() {
    let spec = parse_hotkey("Ctrl+Space").unwrap();
    let mut t = KeyTracker::new(spec);
    assert_eq!(t.on_key(57, 1), None);
    assert_eq!(t.on_key(57, 0), None);
    assert_eq!(t.on_key(KEY_LEFTCTRL, 1), None);
    assert_eq!(t.on_key(57, 1), Some(HotkeyEdge::Pressed));
    assert_eq!(t.on_key(57, 1), None);
    assert_eq!(t.on_key(57, 0), Some(HotkeyEdge::Released));
}

#[test]
fn hot_plug_keeps_the_pending_release() {
    let mut t = KeyTracker::new(HotkeySpec { key: KEY_RIGHTALT, modifiers: none() });
    assert_eq!(t.on_key(KEY_RIGHTALT, 1), Some(HotkeyEdge::Pressed));
    t.on_devices_changed();
    assert!(t.pressed);
    // a second press while latched is no new edge
    assert_eq!(t.on_key(KEY_RIGHTALT, 1), None);
    // the release from the remaining keyboard matches the press
    assert_eq!(t.on_key(KEY_RIGHTALT, 0), Some(HotkeyEdge::Released));
    assert_eq!(t.on_input(TrackerInput::DevicesChanged), None);
    assert_eq!(t.on_input(TrackerInput::Key(KEY_RIGHTALT, 1)), Some(HotkeyEdge::Pressed));
}

#[test]
fn release_needs_no_modifiers() {
    let spec = parse_hotkey("Ctrl+Space").unwrap();
    let mut t = KeyTracker::new(spec);
    t.on_key(KEY_LEFTCTRL, 1);
    assert_eq!(t.on_key(57, 1), Some(HotkeyEdge::Pressed));
    t.on_key(KEY_LEFTCTRL, 0);
    assert_eq!(t.on_key(57, 0), Some(HotkeyEdge::Released));
    assert!(!t.pressed);
    t.on_key(KEY_LEFTCTRL, 1);
    assert_eq!(t.on_key(57, 1), Some(HotkeyEdge::Pressed));
    t.on_devices_changed();
    assert_eq!(t.on_key(57, 0), Some(HotkeyEdge::Released));
}

#[test]
fn lock_variants_cover_caps_and_num_lock() {
    let per = 2usize;
    let mut mods = vec![0u8; 16];
    mods[3 * per] = 64; // Alt_L on row Mod1
    mods[4 * per] = 77; // Num_Lock on row Mod2
    let map = ModifierMap::from_mapping(per, &mods, Some(64), None, Some(77));
    assert_eq!(map.alt, MASK_M1);
    assert_eq!(map.meta, MASK_M4);
    assert_eq!(map.num, MASK_M2);
    assert_eq!(map.lock_variants(), vec![0, MASK_LOCK, MASK_M2, MASK_LOCK | MASK_M2]);
    let required = map.required_mask(Modifiers { ctrl: true, alt: false, shift: false, meta: false });
    assert_eq!(required, MASK_CONTROL);
    let grabs = map.grab_masks(required);
    for lock_state in [0, MASK_LOCK, MASK_M2, MASK_LOCK | MASK_M2] {
        assert!(grabs.contains(&(required | lock_state)));
        let mut g = GrabTracker::new(38, required);
        assert_eq!(g.on_press(38, required | lock_state), Some(HotkeyEdge::Pressed));
        assert_eq!(g.on_release(38), Some(HotkeyEdge::Released));
    }
}

#[test]
fn x11_edges_need_the_required_bits() {
    let mut g = GrabTracker::new(108, MASK_CONTROL);
    assert_eq!(g.on_press(108, 0), None);
    assert_eq!(g.on_release(108), None);
    assert_eq!(g.on_press(108, MASK_CONTROL | MASK_LOCK), Some(HotkeyEdge::Pressed));
    assert_eq!(g.on_press(108, MASK_CONTROL), None);
    assert_eq!(g.on_release(109), None);
    assert_eq!(g.on_release(108), Some(HotkeyEdge::Released));
}

#[test]
fn keycode_lookup_uses_rows_of_the_mapping() {
    // keycodes 8..=10, two keysyms each
    let mapping = vec![0x61, 0x41, 0xffe9, 0, 0x76, 0x56];
    assert_eq!(keycode_for_keysym(8, 10, 2, &mapping, 0xffe9), Some(9));
    assert_eq!(keycode_for_keysym(8, 10, 2, &mapping, 0x56), Some(10));
    assert_eq!(keycode_for_keysym(8, 10, 2, &mapping, 0x1234), None);
    assert_eq!(keycode_for_keysym(8, 10, 0, &mapping, 0x61), None);
    assert_eq!(keycode_for_any_keysym(8, 10, 2, &mapping, &vec![0x1234, 0x76]), Some(10));
}
