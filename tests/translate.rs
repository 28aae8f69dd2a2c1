use global_hotkey::keys::{Code, HotKey, Modifiers, ALT, CAPS_LOCK, CONTROL, META, NUM_LOCK, SHIFT, SUPER};
use global_hotkey::trigger::{add_keys, keycode_to_freedesktop_spec, modifiers_to_freedesktop_spec, to_trigger};

fn hk(bits: u32, key: Code) -> HotKey {
    HotKey::new(Modifiers::from_bits(bits), key)
}

#[test]
fn control_shift_a_gives_canonical_trigger() {
    let t = to_trigger(&hk(CONTROL | SHIFT, Code::KeyA));
    assert_eq!(t, Some("SHIFT+CTRL+A".to_string()));
}

#[test]
fn all_four_modifiers_in_canonical_order() {
    let t = to_trigger(&hk(CONTROL | ALT | SUPER | SHIFT, Code::Space));
    assert_eq!(t, Some("SHIFT+LOGO+ALT+CTRL+space".to_string()));
}

#[test]
fn meta_counts_as_logo() {
    assert_eq!(modifiers_to_freedesktop_spec(Modifiers::from_bits(META)), "LOGO");
    assert_eq!(modifiers_to_freedesktop_spec(Modifiers::from_bits(META | SUPER)), "LOGO");
    assert_eq!(modifiers_to_freedesktop_spec(Modifiers::from_bits(ALT | CONTROL)), "ALT+CTRL");
}

#[test]
fn no_modifiers_keeps_the_separator() {
    assert_eq!(modifiers_to_freedesktop_spec(Modifiers::empty()), "");
    assert_eq!(to_trigger(&hk(0, Code::KeyA)), Some("+A".to_string()));
}

#[test]
fn other_modifiers_do_not_change_the_trigger() {
    let plain = to_trigger(&hk(SHIFT | CONTROL, Code::F5));
    let locked = to_trigger(&hk(SHIFT | CONTROL | CAPS_LOCK | NUM_LOCK, Code::F5));
    assert_eq!(plain, locked);
    assert_eq!(plain, Some("SHIFT+CTRL+F5".to_string()));
}

#[test]
fn translation_is_repeatable() {
    for bits in 0u32..0x4000 {
        let h = hk(bits, Code::Digit7);
        let a = to_trigger(&h);
        let b = to_trigger(&h);
        assert_eq!(a, b);
        assert!(a.unwrap().ends_with("+7"));
    }
}

#[test]
fn key_table_entries() {
    assert_eq!(keycode_to_freedesktop_spec(Code::KeyZ), Some("Z".to_string()));
    assert_eq!(keycode_to_freedesktop_spec(Code::Quote), Some("leftsinglequotemark".to_string()));
    assert_eq!(keycode_to_freedesktop_spec(Code::Backquote), Some("quoteleft".to_string()));
    assert_eq!(keycode_to_freedesktop_spec(Code::Enter), Some("Return".to_string()));
    assert_eq!(keycode_to_freedesktop_spec(Code::Numpad5), Some("KP_5".to_string()));
    assert_eq!(keycode_to_freedesktop_spec(Code::NumLock), Some("F1".to_string()));
    assert_eq!(keycode_to_freedesktop_spec(Code::MediaTrackPrevious), Some("XF86XK_AudioPrev".to_string()));
    assert_eq!(keycode_to_freedesktop_spec(Code::AudioVolumeDown), Some("XF86AudioLowerVolume".to_string()));
}

#[test]
fn keys_without_a_name_have_no_trigger() {
    for key in [Code::F13, Code::Fn, Code::IntlBackslash, Code::ShiftLeft, Code::Unidentified, Code::BrowserBack] {
        assert_eq!(keycode_to_freedesktop_spec(key), None);
        assert_eq!(to_trigger(&hk(SHIFT, key)), None);
    }
}

#[test]
fn add_keys_joins_with_plus() {
    let mut s = String::new();
    add_keys(&mut s, "SHIFT");
    assert_eq!(s, "SHIFT");
    add_keys(&mut s, "CTRL");
    assert_eq!(s, "SHIFT+CTRL");
}

#[test]
fn modifier_set_operations() {
    let m = Modifiers::from_bits(SHIFT).union(CONTROL);
    assert_eq!(m.bits, SHIFT | CONTROL);
    assert!(m.contains(SHIFT));
    assert!(m.contains(SHIFT | CONTROL));
    assert!(!m.contains(SHIFT | ALT));
    assert!(m.intersects(ALT | CONTROL));
    assert!(!m.intersects(SUPER | META));
}
