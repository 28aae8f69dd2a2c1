use vstd::prelude::*;

verus! {

/// Modifier flag: the Alt key.
pub const ALT: u32 = 0x01;
/// Modifier flag: the AltGr key.
pub const ALT_GRAPH: u32 = 0x2;
/// Modifier flag: Caps Lock.
pub const CAPS_LOCK: u32 = 0x4;
/// Modifier flag: the Control key.
pub const CONTROL: u32 = 0x8;
/// Modifier flag: the Fn key.
pub const FN: u32 = 0x10;
/// Modifier flag: Fn Lock.
pub const FN_LOCK: u32 = 0x20;
/// Modifier flag: the Meta key.
pub const META: u32 = 0x40;
/// Modifier flag: Num Lock.
pub const NUM_LOCK: u32 = 0x80;
/// Modifier flag: Scroll Lock.
pub const SCROLL_LOCK: u32 = 0x100;
/// Modifier flag: the Shift key.
pub const SHIFT: u32 = 0x200;
/// Modifier flag: the Symbol key.
pub const SYMBOL: u32 = 0x400;
/// Modifier flag: Symbol Lock.
pub const SYMBOL_LOCK: u32 = 0x800;
/// Modifier flag: the Hyper key.
pub const HYPER: u32 = 0x1000;
/// Modifier flag: the Super key.
pub const SUPER: u32 = 0x2000;

/// A set of modifier keys, one bit per key (the bit values are the
/// constants above, as the W3C keyboard-event model numbers them).
#[derive(Clone, Copy, Debug, PartialEq, Eq, Structural, Hash)]
pub struct Modifiers {
    pub bits: u32,
}

impl Modifiers {
    /// True when every bit of `flags` is set.
    pub open spec fn has_all(self, flags: u32) -> bool {
        self.bits & flags == flags
    }

    /// True when at least one bit of `flags` is set.
    pub open spec fn has_any(self, flags: u32) -> bool {
        self.bits & flags != 0
    }

    pub fn empty() -> (r: Modifiers)
        ensures
            r.bits == 0,
    {
        Modifiers { bits: 0 }
    }

    pub fn from_bits(bits: u32) -> (r: Modifiers)
        ensures
            r.bits == bits,
    {
        Modifiers { bits }
    }

    pub fn contains(&self, flags: u32) -> (r: bool)
        ensures
            r == self.has_all(flags),
    {
        self.bits & flags == flags
    }

    pub fn intersects(&self, flags: u32) -> (r: bool)
        ensures
            r == self.has_any(flags),
    {
        self.bits & flags != 0
    }

    pub fn union(&self, flags: u32) -> (r: Modifiers)
        ensures
            r.bits == self.bits | flags,
    {
        Modifiers { bits: self.bits | flags }
    }
}

/// The physical position of a key, named after the US layout as the W3C
/// UI Events `code` values name it.
#[derive(Clone, Copy, Debug, PartialEq, Eq, Structural, Hash)]
pub enum Code {
    Backquote,
    Backslash,
    BracketLeft,
    BracketRight,
    Comma,
    Digit0,
    Digit1,
    Digit2,
    Digit3,
    Digit4,
    Digit5,
    Digit6,
    Digit7,
    Digit8,
    Digit9,
    Equal,
    IntlBackslash,
    IntlRo,
    IntlYen,
    KeyA,
    KeyB,
    KeyC,
    KeyD,
    KeyE,
    KeyF,
    KeyG,
    KeyH,
    KeyI,
    KeyJ,
    KeyK,
    KeyL,
    KeyM,
    KeyN,
    KeyO,
    KeyP,
    KeyQ,
    KeyR,
    KeyS,
    KeyT,
    KeyU,
    KeyV,
    KeyW,
    KeyX,
    KeyY,
    KeyZ,
    Minus,
    Period,
    Quote,
    Semicolon,
    Slash,
    AltLeft,
    AltRight,
    Backspace,
    CapsLock,
    ContextMenu,
    ControlLeft,
    ControlRight,
    Enter,
    MetaLeft,
    MetaRight,
    ShiftLeft,
    ShiftRight,
    Space,
    Tab,
    Convert,
    KanaMode,
    Lang1,
    Lang2,
    Lang3,
    Lang4,
    Lang5,
    NonConvert,
    Delete,
    End,
    Help,
    Home,
    Insert,
    PageDown,
    PageUp,
    ArrowDown,
    ArrowLeft,
    ArrowRight,
    ArrowUp,
    NumLock,
    Numpad0,
    Numpad1,
    Numpad2,
    Numpad3,
    Numpad4,
    Numpad5,
    Numpad6,
    Numpad7,
    Numpad8,
    Numpad9,
    NumpadAdd,
    NumpadBackspace,
    NumpadClear,
    NumpadClearEntry,
    NumpadComma,
    NumpadDecimal,
    NumpadDivide,
    NumpadEnter,
    NumpadEqual,
    NumpadHash,
    NumpadMemoryAdd,
    NumpadMemoryClear,
    NumpadMemoryRecall,
    NumpadMemoryStore,
    NumpadMemorySubtract,
    NumpadMultiply,
    NumpadParenLeft,
    NumpadParenRight,
    NumpadStar,
    NumpadSubtract,
    Escape,
    Fn,
    FnLock,
    PrintScreen,
    ScrollLock,
    Pause,
    BrowserBack,
    BrowserFavorites,
    BrowserForward,
    BrowserHome,
    BrowserRefresh,
    BrowserSearch,
    BrowserStop,
    Eject,
    LaunchApp1,
    LaunchApp2,
    LaunchMail,
    MediaPlayPause,
    MediaSelect,
    MediaStop,
    MediaTrackNext,
    MediaTrackPrevious,
    Power,
    Sleep,
    AudioVolumeDown,
    AudioVolumeMute,
    AudioVolumeUp,
    WakeUp,
    Hyper,
    Super,
    Turbo,
    Abort,
    Resume,
    Suspend,
    Again,
    Copy,
    Cut,
    Find,
    Open,
    Paste,
    Props,
    Select,
    Undo,
    Hiragana,
    Katakana,
    Unidentified,
    F1,
    F2,
    F3,
    F4,
    F5,
    F6,
    F7,
    F8,
    F9,
    F10,
    F11,
    F12,
    F13,
    F14,
    F15,
    F16,
    F17,
    F18,
    F19,
    F20,
    F21,
    F22,
    F23,
    F24,
    F25,
    F26,
    F27,
    F28,
    F29,
    F30,
    F31,
    F32,
    F33,
    F34,
    F35,
    BrightnessDown,
    BrightnessUp,
    DisplayToggleIntExt,
    KeyboardLayoutSelect,
    LaunchAssistant,
    LaunchControlPanel,
    LaunchScreenSaver,
    MailForward,
    MailReply,
    MailSend,
    MediaFastForward,
    MediaPause,
    MediaPlay,
    MediaRecord,
    MediaRewind,
    MicrophoneMuteToggle,
    PrivacyScreenToggle,
    SelectTask,
    ShowAllWindows,
    ZoomToggle,
}

/// A global shortcut: a set of modifiers held together with one key.
#[derive(Clone, Copy, Debug, PartialEq, Eq, Structural, Hash)]
pub struct HotKey {
    pub mods: Modifiers,
    pub key: Code,
}

impl HotKey {
    pub fn new(mods: Modifiers, key: Code) -> (r: HotKey)
        ensures
            r.mods == mods,
            r.key == key,
    {
        HotKey { mods, key }
    }
}

} // verus!
