use vstd::prelude::*;
use crate::keys::{Code, HotKey, Modifiers, ALT, CONTROL, META, SHIFT, SUPER};

verus! {

/// The shortcut-specification name of a key, or `None` for a key that the
/// shortcut grammar has no name for.
pub open spec fn key_name(key: Code) -> Option<Seq<char>> {
    match key {
        Code::KeyA => Some("A"@),
        Code::KeyB => Some("B"@),
        Code::KeyC => Some("C"@),
        Code::KeyD => Some("D"@),
        Code::KeyE => Some("E"@),
        Code::KeyF => Some("F"@),
        Code::KeyG => Some("G"@),
        Code::KeyH => Some("H"@),
        Code::KeyI => Some("I"@),
        Code::KeyJ => Some("J"@),
        Code::KeyK => Some("K"@),
        Code::KeyL => Some("L"@),
        Code::KeyM => Some("M"@),
        Code::KeyN => Some("N"@),
        Code::KeyO => Some("O"@),
        Code::KeyP => Some("P"@),
        Code::KeyQ => Some("Q"@),
        Code::KeyR => Some("R"@),
        Code::KeyS => Some("S"@),
        Code::KeyT => Some("T"@),
        Code::KeyU => Some("U"@),
        Code::KeyV => Some("V"@),
        Code::KeyW => Some("W"@),
        Code::KeyX => Some("X"@),
        Code::KeyY => Some("Y"@),
        Code::KeyZ => Some("Z"@),
        Code::Backslash => Some("backslash"@),
        Code::BracketLeft => Some("bracketleft"@),
        Code::BracketRight => Some("bracketright"@),
        Code::Backquote => Some("quoteleft"@),
        Code::Comma => Some("comma"@),
        Code::Digit0 => Some("0"@),
        Code::Digit1 => Some("1"@),
        Code::Digit2 => Some("2"@),
        Code::Digit3 => Some("3"@),
        Code::Digit4 => Some("4"@),
        Code::Digit5 => Some("5"@),
        Code::Digit6 => Some("6"@),
        Code::Digit7 => Some("7"@),
        Code::Digit8 => Some("8"@),
        Code::Digit9 => Some("9"@),
        Code::Equal => Some("equal"@),
        Code::Minus => Some("minus"@),
        Code::Period => Some("period"@),
        Code::Quote => Some("leftsinglequotemark"@),
        Code::Semicolon => Some("semicolon"@),
        Code::Slash => Some("slash"@),
        Code::Backspace => Some("BackSpace"@),
        Code::CapsLock => Some("Caps_Lock"@),
        Code::Enter => Some("Return"@),
        Code::Space => Some("space"@),
        Code::Tab => Some("Tab"@),
        Code::Delete => Some("Delete"@),
        Code::End => Some("End"@),
        Code::Home => Some("Home"@),
        Code::Insert => Some("Insert"@),
        Code::PageDown => Some("Page_Down"@),
        Code::PageUp => Some("Page_Up"@),
        Code::ArrowDown => Some("Down"@),
        Code::ArrowLeft => Some("Left"@),
        Code::ArrowRight => Some("Right"@),
        Code::ArrowUp => Some("Up"@),
        Code::Numpad0 => Some("KP_0"@),
        Code::Numpad1 => Some("KP_1"@),
        Code::Numpad2 => Some("KP_2"@),
        Code::Numpad3 => Some("KP_3"@),
        Code::Numpad4 => Some("KP_4"@),
        Code::Numpad5 => Some("KP_5"@),
        Code::Numpad6 => Some("KP_6"@),
        Code::Numpad7 => Some("KP_7"@),
        Code::Numpad8 => Some("KP_8"@),
        Code::Numpad9 => Some("KP_9"@),
        Code::NumpadAdd => Some("KP_Add"@),
        Code::NumpadDecimal => Some("KP_Decimal"@),
        Code::NumpadDivide => Some("KP_Divide"@),
        Code::NumpadMultiply => Some("KP_Multiply"@),
        Code::NumpadSubtract => Some("KP_Subtract"@),
        Code::Escape => Some("Escape"@),
        Code::PrintScreen => Some("Print"@),
        Code::ScrollLock => Some("Scroll_Lock"@),
        Code::NumLock => Some("F1"@),
        Code::F1 => Some("F1"@),
        Code::F2 => Some("F2"@),
        Code::F3 => Some("F3"@),
        Code::F4 => Some("F4"@),
        Code::F5 => Some("F5"@),
        Code::F6 => Some("F6"@),
        Code::F7 => Some("F7"@),
        Code::F8 => Some("F8"@),
        Code::F9 => Some("F9"@),
        Code::F10 => Some("F10"@),
        Code::F11 => Some("F11"@),
        Code::F12 => Some("F12"@),
        Code::AudioVolumeDown => Some("XF86AudioLowerVolume"@),
        Code::AudioVolumeMute => Some("XF86XK_AudioMute"@),
        Code::AudioVolumeUp => Some("XF86XK_AudioRaiseVolume"@),
        Code::MediaPlay => Some("XF86XK_AudioPlay"@),
        Code::MediaPause => Some("XF86XK_AudioPause"@),
        Code::MediaStop => Some("XF86XK_AudioStop"@),
        Code::MediaTrackNext => Some("XF86XK_AudioNext"@),
        Code::MediaTrackPrevious => Some("XF86XK_AudioPrev"@),
        _ => None,
    }
}

/// The names of the modifiers held in `m`, in canonical order: SHIFT, then
/// LOGO (Super or Meta), then ALT, then CTRL.
pub open spec fn modifier_names(m: Modifiers) -> Seq<Seq<char>> {
    (if m.has_all(SHIFT) { seq!["SHIFT"@] } else { Seq::empty() })
        + (if m.has_any(SUPER | META) { seq!["LOGO"@] } else { Seq::empty() })
        + (if m.has_all(ALT) { seq!["ALT"@] } else { Seq::empty() })
        + (if m.has_all(CONTROL) { seq!["CTRL"@] } else { Seq::empty() })
}

/// The parts joined by `+`.
pub open spec fn join_plus(parts: Seq<Seq<char>>) -> Seq<char>
    decreases parts.len(),
{
    if parts.len() == 0 {
        Seq::empty()
    } else if parts.len() == 1 {
        parts[0]
    } else {
        join_plus(parts.drop_last()) + "+"@ + parts.last()
    }
}

/// What appending `add` to a `+`-separated list gives.
pub open spec fn with_key(current: Seq<char>, add: Seq<char>) -> Seq<char> {
    if current.len() == 0 {
        add
    } else {
        current + "+"@ + add
    }
}

/// The modifier part of a trigger: the modifier names joined by `+`.
pub open spec fn modifier_prefix(m: Modifiers) -> Seq<char> {
    join_plus(modifier_names(m))
}

/// The trigger of a modifier set and a key: the modifier part, `+`, and the
/// key's name; `None` when the key has no name.
pub open spec fn trigger_of(m: Modifiers, key: Code) -> Option<Seq<char>> {
    match key_name(key) {
        Some(k) => Some(modifier_prefix(m) + "+"@ + k),
        None => None,
    }
}

/// The shortcut-specification name of `key`, if it has one.
pub fn keycode_to_freedesktop_spec(key: Code) -> (r: Option<String>)
    ensures
        r is Some <==> key_name(key) is Some,
        r is Some ==> r->Some_0@ == key_name(key)->Some_0,
{
    let name: &str = match key {
        Code::KeyA => "A",
        Code::KeyB => "B",
        Code::KeyC => "C",
        Code::KeyD => "D",
        Code::KeyE => "E",
        Code::KeyF => "F",
        Code::KeyG => "G",
        Code::KeyH => "H",
        Code::KeyI => "I",
        Code::KeyJ => "J",
        Code::KeyK => "K",
        Code::KeyL => "L",
        Code::KeyM => "M",
        Code::KeyN => "N",
        Code::KeyO => "O",
        Code::KeyP => "P",
        Code::KeyQ => "Q",
        Code::KeyR => "R",
        Code::KeyS => "S",
        Code::KeyT => "T",
        Code::KeyU => "U",
        Code::KeyV => "V",
        Code::KeyW => "W",
        Code::KeyX => "X",
        Code::KeyY => "Y",
        Code::KeyZ => "Z",
        Code::Backslash => "backslash",
        Code::BracketLeft => "bracketleft",
        Code::BracketRight => "bracketright",
        Code::Backquote => "quoteleft",
        Code::Comma => "comma",
        Code::Digit0 => "0",
        Code::Digit1 => "1",
        Code::Digit2 => "2",
        Code::Digit3 => "3",
        Code::Digit4 => "4",
        Code::Digit5 => "5",
        Code::Digit6 => "6",
        Code::Digit7 => "7",
        Code::Digit8 => "8",
        Code::Digit9 => "9",
        Code::Equal => "equal",
        Code::Minus => "minus",
        Code::Period => "period",
        Code::Quote => "leftsinglequotemark",
        Code::Semicolon => "semicolon",
        Code::Slash => "slash",
        Code::Backspace => "BackSpace",
        Code::CapsLock => "Caps_Lock",
        Code::Enter => "Return",
        Code::Space => "space",
        Code::Tab => "Tab",
        Code::Delete => "Delete",
        Code::End => "End",
        Code::Home => "Home",
        Code::Insert => "Insert",
        Code::PageDown => "Page_Down",
        Code::PageUp => "Page_Up",
        Code::ArrowDown => "Down",
        Code::ArrowLeft => "Left",
        Code::ArrowRight => "Right",
        Code::ArrowUp => "Up",
        Code::Numpad0 => "KP_0",
        Code::Numpad1 => "KP_1",
        Code::Numpad2 => "KP_2",
        Code::Numpad3 => "KP_3",
        Code::Numpad4 => "KP_4",
        Code::Numpad5 => "KP_5",
        Code::Numpad6 => "KP_6",
        Code::Numpad7 => "KP_7",
        Code::Numpad8 => "KP_8",
        Code::Numpad9 => "KP_9",
        Code::NumpadAdd => "KP_Add",
        Code::NumpadDecimal => "KP_Decimal",
        Code::NumpadDivide => "KP_Divide",
        Code::NumpadMultiply => "KP_Multiply",
        Code::NumpadSubtract => "KP_Subtract",
        Code::Escape => "Escape",
        Code::PrintScreen => "Print",
        Code::ScrollLock => "Scroll_Lock",
        Code::NumLock => "F1",
        Code::F1 => "F1",
        Code::F2 => "F2",
        Code::F3 => "F3",
        Code::F4 => "F4",
        Code::F5 => "F5",
        Code::F6 => "F6",
        Code::F7 => "F7",
        Code::F8 => "F8",
        Code::F9 => "F9",
        Code::F10 => "F10",
        Code::F11 => "F11",
        Code::F12 => "F12",
        Code::AudioVolumeDown => "XF86AudioLowerVolume",
        Code::AudioVolumeMute => "XF86XK_AudioMute",
        Code::AudioVolumeUp => "XF86XK_AudioRaiseVolume",
        Code::MediaPlay => "XF86XK_AudioPlay",
        Code::MediaPause => "XF86XK_AudioPause",
        Code::MediaStop => "XF86XK_AudioStop",
        Code::MediaTrackNext => "XF86XK_AudioNext",
        Code::MediaTrackPrevious => "XF86XK_AudioPrev",
        _ => {
            return None;
        },
    };
    Some(String::from_str(name))
}

/// Appends `add` to the `+`-separated list in `current`.
pub fn add_keys(current: &mut String, add: &str)
    ensures
        final(current)@ == with_key(old(current)@, add@),
{
    if current.as_str().unicode_len() == 0 {
        *current = String::from_str(add);
    } else {
        current.append("+");
        current.append(add);
    }
}

proof fn lemma_join_push(parts: Seq<Seq<char>>, x: Seq<char>)
    requires
        parts.len() > 0 ==> join_plus(parts).len() > 0,
        x.len() > 0,
    ensures
        join_plus(parts.push(x)) == with_key(join_plus(parts), x),
        join_plus(parts.push(x)).len() > 0,
{
    assert(parts.push(x).drop_last() =~= parts);
}

/// The modifier part of a trigger, in canonical order.
pub fn modifiers_to_freedesktop_spec(modifiers: Modifiers) -> (r: String)
    ensures
        r@ == modifier_prefix(modifiers),
{
    let ghost shift = if modifiers.has_all(SHIFT) { seq!["SHIFT"@] } else { Seq::<Seq<char>>::empty() };
    let ghost logo = if modifiers.has_any(SUPER | META) { seq!["LOGO"@] } else { Seq::<Seq<char>>::empty() };
    let ghost alt = if modifiers.has_all(ALT) { seq!["ALT"@] } else { Seq::<Seq<char>>::empty() };
    let ghost ctrl = if modifiers.has_all(CONTROL) { seq!["CTRL"@] } else { Seq::<Seq<char>>::empty() };
    proof {
        reveal_strlit("SHIFT");
        reveal_strlit("LOGO");
        reveal_strlit("ALT");
        reveal_strlit("CTRL");
    }
    let mut xdg_mods = String::new();
    let ghost parts: Seq<Seq<char>> = Seq::empty();
    assert(join_plus(parts) =~= xdg_mods@);
    if modifiers.contains(SHIFT) {
        proof { lemma_join_push(parts, "SHIFT"@); }
        add_keys(&mut xdg_mods, "SHIFT");
        proof {
            parts = parts.push("SHIFT"@);
        }
    }
    assert(parts =~= shift);
    if modifiers.intersects(SUPER | META) {
        proof { lemma_join_push(parts, "LOGO"@); }
        add_keys(&mut xdg_mods, "LOGO");
        proof {
            parts = parts.push("LOGO"@);
        }
    }
    assert(parts =~= shift + logo);
    if modifiers.contains(ALT) {
        proof { lemma_join_push(parts, "ALT"@); }
        add_keys(&mut xdg_mods, "ALT");
        proof {
            parts = parts.push("ALT"@);
        }
    }
    assert(parts =~= shift + logo + alt);
    if modifiers.contains(CONTROL) {
        proof { lemma_join_push(parts, "CTRL"@); }
        add_keys(&mut xdg_mods, "CTRL");
        proof {
            parts = parts.push("CTRL"@);
        }
    }
    assert(parts =~= modifier_names(modifiers));
    xdg_mods
}

/// The trigger string of a hot key: `None` when its key has no name.
pub fn to_trigger(hotkey: &HotKey) -> (r: Option<String>)
    ensures
        r is Some <==> trigger_of(hotkey.mods, hotkey.key) is Some,
        r is Some ==> r->Some_0@ == trigger_of(hotkey.mods, hotkey.key)->Some_0,
{
    let mods = modifiers_to_freedesktop_spec(hotkey.mods);
    match keycode_to_freedesktop_spec(hotkey.key) {
        Some(key) => {
            let mut trigger = mods;
            trigger.append("+");
            trigger.append(key.as_str());
            Some(trigger)
        },
        None => None,
    }
}

/// Translation is total: every key with a name has a trigger under every
/// modifier set, and every key without one has none, whatever the modifiers.
pub proof fn law_trigger_defined_iff_named(m: Modifiers, key: Code)
    ensures
        trigger_of(m, key) is Some <==> key_name(key) is Some,
        trigger_of(m, key) matches Some(t) ==> t == modifier_prefix(m) + "+"@ + key_name(key)->Some_0,
{
}

/// The modifier order is canonical: two modifier sets that hold the same
/// Shift, Super-or-Meta, Alt and Control keys give the same trigger for every
/// key, however else they differ.
pub proof fn law_canonical_modifier_order(a: Modifiers, b: Modifiers, key: Code)
    requires
        a.has_all(SHIFT) == b.has_all(SHIFT),
        a.has_any(SUPER | META) == b.has_any(SUPER | META),
        a.has_all(ALT) == b.has_all(ALT),
        a.has_all(CONTROL) == b.has_all(CONTROL),
    ensures
        modifier_prefix(a) == modifier_prefix(b),
        trigger_of(a, key) == trigger_of(b, key),
{
    assert(modifier_names(a) == modifier_names(b));
}

} // verus!
