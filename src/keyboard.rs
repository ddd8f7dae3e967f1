//! Key names for simulated keyboard input, and the rules on a request to
//! press keys.
use vstd::prelude::*;
use crate::text::{decimal_string, decimal_text, join3, text_eq};

verus! {

/// The longest time keys may be held, in milliseconds.
pub const MAX_KEY_DURATION_MS: u32 = 60000;

/// How long keys are held when a request does not say, in milliseconds.
pub const DEFAULT_KEY_DURATION_MS: u32 = 100;

/// The keys that can be pressed, named as the keyboard's physical key codes.
#[derive(Debug, Clone, Copy, PartialEq, Eq)]
pub enum KeyCodeWrapper {
    KeyA,
    KeyB,
    KeyC,
    KeyD,
    KeyE,
    KeyF,
    KeyG,
    KeyH,
    KeyI,
    KeyJ,
    KeyK,
    KeyL,
    KeyM,
    KeyN,
    KeyO,
    KeyP,
    KeyQ,
    KeyR,
    KeyS,
    KeyT,
    KeyU,
    KeyV,
    KeyW,
    KeyX,
    KeyY,
    KeyZ,
    Digit0,
    Digit1,
    Digit2,
    Digit3,
    Digit4,
    Digit5,
    Digit6,
    Digit7,
    Digit8,
    Digit9,
    F1,
    F2,
    F3,
    F4,
    F5,
    F6,
    F7,
    F8,
    F9,
    F10,
    F11,
    F12,
    F13,
    F14,
    F15,
    F16,
    F17,
    F18,
    F19,
    F20,
    F21,
    F22,
    F23,
    F24,
    AltLeft,
    AltRight,
    ControlLeft,
    ControlRight,
    ShiftLeft,
    ShiftRight,
    SuperLeft,
    SuperRight,
    ArrowDown,
    ArrowLeft,
    ArrowRight,
    ArrowUp,
    End,
    Home,
    PageDown,
    PageUp,
    Backspace,
    Delete,
    Enter,
    Escape,
    Insert,
    Space,
    Tab,
    Numpad0,
    Numpad1,
    Numpad2,
    Numpad3,
    Numpad4,
    Numpad5,
    Numpad6,
    Numpad7,
    Numpad8,
    Numpad9,
    NumpadAdd,
    NumpadDivide,
    NumpadMultiply,
    NumpadSubtract,
    NumpadDecimal,
    NumpadEnter,
    AudioVolumeDown,
    AudioVolumeMute,
    AudioVolumeUp,
    BrowserBack,
    BrowserForward,
    BrowserHome,
    BrowserRefresh,
    BrowserSearch,
    CapsLock,
    NumLock,
    ScrollLock,
    PrintScreen,
    Pause,
    MediaPlayPause,
    MediaStop,
    MediaTrackNext,
    MediaTrackPrevious,
    Backquote,
    Backslash,
    BracketLeft,
    BracketRight,
    Comma,
    Equal,
    Minus,
    Period,
    Quote,
    Semicolon,
    Slash,
}

/// The name of a key.
pub open spec fn key_name(k: KeyCodeWrapper) -> Seq<char> {
    match k {
        KeyCodeWrapper::KeyA => "KeyA"@,
        KeyCodeWrapper::KeyB => "KeyB"@,
        KeyCodeWrapper::KeyC => "KeyC"@,
        KeyCodeWrapper::KeyD => "KeyD"@,
        KeyCodeWrapper::KeyE => "KeyE"@,
        KeyCodeWrapper::KeyF => "KeyF"@,
        KeyCodeWrapper::KeyG => "KeyG"@,
        KeyCodeWrapper::KeyH => "KeyH"@,
        KeyCodeWrapper::KeyI => "KeyI"@,
        KeyCodeWrapper::KeyJ => "KeyJ"@,
        KeyCodeWrapper::KeyK => "KeyK"@,
        KeyCodeWrapper::KeyL => "KeyL"@,
        KeyCodeWrapper::KeyM => "KeyM"@,
        KeyCodeWrapper::KeyN => "KeyN"@,
        KeyCodeWrapper::KeyO => "KeyO"@,
        KeyCodeWrapper::KeyP => "KeyP"@,
        KeyCodeWrapper::KeyQ => "KeyQ"@,
        KeyCodeWrapper::KeyR => "KeyR"@,
        KeyCodeWrapper::KeyS => "KeyS"@,
        KeyCodeWrapper::KeyT => "KeyT"@,
        KeyCodeWrapper::KeyU => "KeyU"@,
        KeyCodeWrapper::KeyV => "KeyV"@,
        KeyCodeWrapper::KeyW => "KeyW"@,
        KeyCodeWrapper::KeyX => "KeyX"@,
        KeyCodeWrapper::KeyY => "KeyY"@,
        KeyCodeWrapper::KeyZ => "KeyZ"@,
        KeyCodeWrapper::Digit0 => "Digit0"@,
        KeyCodeWrapper::Digit1 => "Digit1"@,
        KeyCodeWrapper::Digit2 => "Digit2"@,
        KeyCodeWrapper::Digit3 => "Digit3"@,
        KeyCodeWrapper::Digit4 => "Digit4"@,
        KeyCodeWrapper::Digit5 => "Digit5"@,
        KeyCodeWrapper::Digit6 => "Digit6"@,
        KeyCodeWrapper::Digit7 => "Digit7"@,
        KeyCodeWrapper::Digit8 => "Digit8"@,
        KeyCodeWrapper::Digit9 => "Digit9"@,
        KeyCodeWrapper::F1 => "F1"@,
        KeyCodeWrapper::F2 => "F2"@,
        KeyCodeWrapper::F3 => "F3"@,
        KeyCodeWrapper::F4 => "F4"@,
        KeyCodeWrapper::F5 => "F5"@,
        KeyCodeWrapper::F6 => "F6"@,
        KeyCodeWrapper::F7 => "F7"@,
        KeyCodeWrapper::F8 => "F8"@,
        KeyCodeWrapper::F9 => "F9"@,
        KeyCodeWrapper::F10 => "F10"@,
        KeyCodeWrapper::F11 => "F11"@,
        KeyCodeWrapper::F12 => "F12"@,
        KeyCodeWrapper::F13 => "F13"@,
        KeyCodeWrapper::F14 => "F14"@,
        KeyCodeWrapper::F15 => "F15"@,
        KeyCodeWrapper::F16 => "F16"@,
        KeyCodeWrapper::F17 => "F17"@,
        KeyCodeWrapper::F18 => "F18"@,
        KeyCodeWrapper::F19 => "F19"@,
        KeyCodeWrapper::F20 => "F20"@,
        KeyCodeWrapper::F21 => "F21"@,
        KeyCodeWrapper::F22 => "F22"@,
        KeyCodeWrapper::F23 => "F23"@,
        KeyCodeWrapper::F24 => "F24"@,
        KeyCodeWrapper::AltLeft => "AltLeft"@,
        KeyCodeWrapper::AltRight => "AltRight"@,
        KeyCodeWrapper::ControlLeft => "ControlLeft"@,
        KeyCodeWrapper::ControlRight => "ControlRight"@,
        KeyCodeWrapper::ShiftLeft => "ShiftLeft"@,
        KeyCodeWrapper::ShiftRight => "ShiftRight"@,
        KeyCodeWrapper::SuperLeft => "SuperLeft"@,
        KeyCodeWrapper::SuperRight => "SuperRight"@,
        KeyCodeWrapper::ArrowDown => "ArrowDown"@,
        KeyCodeWrapper::ArrowLeft => "ArrowLeft"@,
        KeyCodeWrapper::ArrowRight => "ArrowRight"@,
        KeyCodeWrapper::ArrowUp => "ArrowUp"@,
        KeyCodeWrapper::End => "End"@,
        KeyCodeWrapper::Home => "Home"@,
        KeyCodeWrapper::PageDown => "PageDown"@,
        KeyCodeWrapper::PageUp => "PageUp"@,
        KeyCodeWrapper::Backspace => "Backspace"@,
        KeyCodeWrapper::Delete => "Delete"@,
        KeyCodeWrapper::Enter => "Enter"@,
        KeyCodeWrapper::Escape => "Escape"@,
        KeyCodeWrapper::Insert => "Insert"@,
        KeyCodeWrapper::Space => "Space"@,
        KeyCodeWrapper::Tab => "Tab"@,
        KeyCodeWrapper::Numpad0 => "Numpad0"@,
        KeyCodeWrapper::Numpad1 => "Numpad1"@,
        KeyCodeWrapper::Numpad2 => "Numpad2"@,
        KeyCodeWrapper::Numpad3 => "Numpad3"@,
        KeyCodeWrapper::Numpad4 => "Numpad4"@,
        KeyCodeWrapper::Numpad5 => "Numpad5"@,
        KeyCodeWrapper::Numpad6 => "Numpad6"@,
        KeyCodeWrapper::Numpad7 => "Numpad7"@,
        KeyCodeWrapper::Numpad8 => "Numpad8"@,
        KeyCodeWrapper::Numpad9 => "Numpad9"@,
        KeyCodeWrapper::NumpadAdd => "NumpadAdd"@,
        KeyCodeWrapper::NumpadDivide => "NumpadDivide"@,
        KeyCodeWrapper::NumpadMultiply => "NumpadMultiply"@,
        KeyCodeWrapper::NumpadSubtract => "NumpadSubtract"@,
        KeyCodeWrapper::NumpadDecimal => "NumpadDecimal"@,
        KeyCodeWrapper::NumpadEnter => "NumpadEnter"@,
        KeyCodeWrapper::AudioVolumeDown => "AudioVolumeDown"@,
        KeyCodeWrapper::AudioVolumeMute => "AudioVolumeMute"@,
        KeyCodeWrapper::AudioVolumeUp => "AudioVolumeUp"@,
        KeyCodeWrapper::BrowserBack => "BrowserBack"@,
        KeyCodeWrapper::BrowserForward => "BrowserForward"@,
        KeyCodeWrapper::BrowserHome => "BrowserHome"@,
        KeyCodeWrapper::BrowserRefresh => "BrowserRefresh"@,
        KeyCodeWrapper::BrowserSearch => "BrowserSearch"@,
        KeyCodeWrapper::CapsLock => "CapsLock"@,
        KeyCodeWrapper::NumLock => "NumLock"@,
        KeyCodeWrapper::ScrollLock => "ScrollLock"@,
        KeyCodeWrapper::PrintScreen => "PrintScreen"@,
        KeyCodeWrapper::Pause => "Pause"@,
        KeyCodeWrapper::MediaPlayPause => "MediaPlayPause"@,
        KeyCodeWrapper::MediaStop => "MediaStop"@,
        KeyCodeWrapper::MediaTrackNext => "MediaTrackNext"@,
        KeyCodeWrapper::MediaTrackPrevious => "MediaTrackPrevious"@,
        KeyCodeWrapper::Backquote => "Backquote"@,
        KeyCodeWrapper::Backslash => "Backslash"@,
        KeyCodeWrapper::BracketLeft => "BracketLeft"@,
        KeyCodeWrapper::BracketRight => "BracketRight"@,
        KeyCodeWrapper::Comma => "Comma"@,
        KeyCodeWrapper::Equal => "Equal"@,
        KeyCodeWrapper::Minus => "Minus"@,
        KeyCodeWrapper::Period => "Period"@,
        KeyCodeWrapper::Quote => "Quote"@,
        KeyCodeWrapper::Semicolon => "Semicolon"@,
        KeyCodeWrapper::Slash => "Slash"@,
    }
}

/// The category a key belongs to.
pub open spec fn key_category(k: KeyCodeWrapper) -> Seq<char> {
    match k {
        KeyCodeWrapper::KeyA | KeyCodeWrapper::KeyB | KeyCodeWrapper::KeyC | KeyCodeWrapper::KeyD | KeyCodeWrapper::KeyE | KeyCodeWrapper::KeyF | KeyCodeWrapper::KeyG | KeyCodeWrapper::KeyH | KeyCodeWrapper::KeyI | KeyCodeWrapper::KeyJ | KeyCodeWrapper::KeyK | KeyCodeWrapper::KeyL | KeyCodeWrapper::KeyM | KeyCodeWrapper::KeyN | KeyCodeWrapper::KeyO | KeyCodeWrapper::KeyP | KeyCodeWrapper::KeyQ | KeyCodeWrapper::KeyR | KeyCodeWrapper::KeyS | KeyCodeWrapper::KeyT | KeyCodeWrapper::KeyU | KeyCodeWrapper::KeyV | KeyCodeWrapper::KeyW | KeyCodeWrapper::KeyX | KeyCodeWrapper::KeyY | KeyCodeWrapper::KeyZ => "Letters"@,
        KeyCodeWrapper::Digit0 | KeyCodeWrapper::Digit1 | KeyCodeWrapper::Digit2 | KeyCodeWrapper::Digit3 | KeyCodeWrapper::Digit4 | KeyCodeWrapper::Digit5 | KeyCodeWrapper::Digit6 | KeyCodeWrapper::Digit7 | KeyCodeWrapper::Digit8 | KeyCodeWrapper::Digit9 => "Digits"@,
        KeyCodeWrapper::F1 | KeyCodeWrapper::F2 | KeyCodeWrapper::F3 | KeyCodeWrapper::F4 | KeyCodeWrapper::F5 | KeyCodeWrapper::F6 | KeyCodeWrapper::F7 | KeyCodeWrapper::F8 | KeyCodeWrapper::F9 | KeyCodeWrapper::F10 | KeyCodeWrapper::F11 | KeyCodeWrapper::F12 | KeyCodeWrapper::F13 | KeyCodeWrapper::F14 | KeyCodeWrapper::F15 | KeyCodeWrapper::F16 | KeyCodeWrapper::F17 | KeyCodeWrapper::F18 | KeyCodeWrapper::F19 | KeyCodeWrapper::F20 | KeyCodeWrapper::F21 | KeyCodeWrapper::F22 | KeyCodeWrapper::F23 | KeyCodeWrapper::F24 => "Function"@,
        KeyCodeWrapper::AltLeft | KeyCodeWrapper::AltRight | KeyCodeWrapper::ControlLeft | KeyCodeWrapper::ControlRight | KeyCodeWrapper::ShiftLeft | KeyCodeWrapper::ShiftRight | KeyCodeWrapper::SuperLeft | KeyCodeWrapper::SuperRight => "Modifiers"@,
        KeyCodeWrapper::ArrowDown | KeyCodeWrapper::ArrowLeft | KeyCodeWrapper::ArrowRight | KeyCodeWrapper::ArrowUp | KeyCodeWrapper::End | KeyCodeWrapper::Home | KeyCodeWrapper::PageDown | KeyCodeWrapper::PageUp => "Navigation"@,
        KeyCodeWrapper::Backspace | KeyCodeWrapper::Delete | KeyCodeWrapper::Enter | KeyCodeWrapper::Escape | KeyCodeWrapper::Insert | KeyCodeWrapper::Space | KeyCodeWrapper::Tab => "Editing"@,
        KeyCodeWrapper::Numpad0 | KeyCodeWrapper::Numpad1 | KeyCodeWrapper::Numpad2 | KeyCodeWrapper::Numpad3 | KeyCodeWrapper::Numpad4 | KeyCodeWrapper::Numpad5 | KeyCodeWrapper::Numpad6 | KeyCodeWrapper::Numpad7 | KeyCodeWrapper::Numpad8 | KeyCodeWrapper::Numpad9 | KeyCodeWrapper::NumpadAdd | KeyCodeWrapper::NumpadDivide | KeyCodeWrapper::NumpadMultiply | KeyCodeWrapper::NumpadSubtract | KeyCodeWrapper::NumpadDecimal | KeyCodeWrapper::NumpadEnter => "Numpad"@,
        KeyCodeWrapper::AudioVolumeDown | KeyCodeWrapper::AudioVolumeMute | KeyCodeWrapper::AudioVolumeUp | KeyCodeWrapper::BrowserBack | KeyCodeWrapper::BrowserForward | KeyCodeWrapper::BrowserHome | KeyCodeWrapper::BrowserRefresh | KeyCodeWrapper::BrowserSearch | KeyCodeWrapper::CapsLock | KeyCodeWrapper::NumLock | KeyCodeWrapper::ScrollLock | KeyCodeWrapper::PrintScreen | KeyCodeWrapper::Pause | KeyCodeWrapper::MediaPlayPause | KeyCodeWrapper::MediaStop | KeyCodeWrapper::MediaTrackNext | KeyCodeWrapper::MediaTrackPrevious => "Special"@,
        KeyCodeWrapper::Backquote | KeyCodeWrapper::Backslash | KeyCodeWrapper::BracketLeft | KeyCodeWrapper::BracketRight | KeyCodeWrapper::Comma | KeyCodeWrapper::Equal | KeyCodeWrapper::Minus | KeyCodeWrapper::Period | KeyCodeWrapper::Quote | KeyCodeWrapper::Semicolon | KeyCodeWrapper::Slash => "Punctuation"@,
    }
}

impl KeyCodeWrapper {
    /// The name of this key.
    pub fn name(&self) -> (r: &'static str)
        ensures
            r@ == key_name(*self),
    {
        match self {
            KeyCodeWrapper::KeyA => "KeyA",
            KeyCodeWrapper::KeyB => "KeyB",
            KeyCodeWrapper::KeyC => "KeyC",
            KeyCodeWrapper::KeyD => "KeyD",
            KeyCodeWrapper::KeyE => "KeyE",
            KeyCodeWrapper::KeyF => "KeyF",
            KeyCodeWrapper::KeyG => "KeyG",
            KeyCodeWrapper::KeyH => "KeyH",
            KeyCodeWrapper::KeyI => "KeyI",
            KeyCodeWrapper::KeyJ => "KeyJ",
            KeyCodeWrapper::KeyK => "KeyK",
            KeyCodeWrapper::KeyL => "KeyL",
            KeyCodeWrapper::KeyM => "KeyM",
            KeyCodeWrapper::KeyN => "KeyN",
            KeyCodeWrapper::KeyO => "KeyO",
            KeyCodeWrapper::KeyP => "KeyP",
            KeyCodeWrapper::KeyQ => "KeyQ",
            KeyCodeWrapper::KeyR => "KeyR",
            KeyCodeWrapper::KeyS => "KeyS",
            KeyCodeWrapper::KeyT => "KeyT",
            KeyCodeWrapper::KeyU => "KeyU",
            KeyCodeWrapper::KeyV => "KeyV",
            KeyCodeWrapper::KeyW => "KeyW",
            KeyCodeWrapper::KeyX => "KeyX",
            KeyCodeWrapper::KeyY => "KeyY",
            KeyCodeWrapper::KeyZ => "KeyZ",
            KeyCodeWrapper::Digit0 => "Digit0",
            KeyCodeWrapper::Digit1 => "Digit1",
            KeyCodeWrapper::Digit2 => "Digit2",
            KeyCodeWrapper::Digit3 => "Digit3",
            KeyCodeWrapper::Digit4 => "Digit4",
            KeyCodeWrapper::Digit5 => "Digit5",
            KeyCodeWrapper::Digit6 => "Digit6",
            KeyCodeWrapper::Digit7 => "Digit7",
            KeyCodeWrapper::Digit8 => "Digit8",
            KeyCodeWrapper::Digit9 => "Digit9",
            KeyCodeWrapper::F1 => "F1",
            KeyCodeWrapper::F2 => "F2",
            KeyCodeWrapper::F3 => "F3",
            KeyCodeWrapper::F4 => "F4",
            KeyCodeWrapper::F5 => "F5",
            KeyCodeWrapper::F6 => "F6",
            KeyCodeWrapper::F7 => "F7",
            KeyCodeWrapper::F8 => "F8",
            KeyCodeWrapper::F9 => "F9",
            KeyCodeWrapper::F10 => "F10",
            KeyCodeWrapper::F11 => "F11",
            KeyCodeWrapper::F12 => "F12",
            KeyCodeWrapper::F13 => "F13",
            KeyCodeWrapper::F14 => "F14",
            KeyCodeWrapper::F15 => "F15",
            KeyCodeWrapper::F16 => "F16",
            KeyCodeWrapper::F17 => "F17",
            KeyCodeWrapper::F18 => "F18",
            KeyCodeWrapper::F19 => "F19",
            KeyCodeWrapper::F20 => "F20",
            KeyCodeWrapper::F21 => "F21",
            KeyCodeWrapper::F22 => "F22",
            KeyCodeWrapper::F23 => "F23",
            KeyCodeWrapper::F24 => "F24",
            KeyCodeWrapper::AltLeft => "AltLeft",
            KeyCodeWrapper::AltRight => "AltRight",
            KeyCodeWrapper::ControlLeft => "ControlLeft",
            KeyCodeWrapper::ControlRight => "ControlRight",
            KeyCodeWrapper::ShiftLeft => "ShiftLeft",
            KeyCodeWrapper::ShiftRight => "ShiftRight",
            KeyCodeWrapper::SuperLeft => "SuperLeft",
            KeyCodeWrapper::SuperRight => "SuperRight",
            KeyCodeWrapper::ArrowDown => "ArrowDown",
            KeyCodeWrapper::ArrowLeft => "ArrowLeft",
            KeyCodeWrapper::ArrowRight => "ArrowRight",
            KeyCodeWrapper::ArrowUp => "ArrowUp",
            KeyCodeWrapper::End => "End",
            KeyCodeWrapper::Home => "Home",
            KeyCodeWrapper::PageDown => "PageDown",
            KeyCodeWrapper::PageUp => "PageUp",
            KeyCodeWrapper::Backspace => "Backspace",
            KeyCodeWrapper::Delete => "Delete",
            KeyCodeWrapper::Enter => "Enter",
            KeyCodeWrapper::Escape => "Escape",
            KeyCodeWrapper::Insert => "Insert",
            KeyCodeWrapper::Space => "Space",
            KeyCodeWrapper::Tab => "Tab",
            KeyCodeWrapper::Numpad0 => "Numpad0",
            KeyCodeWrapper::Numpad1 => "Numpad1",
            KeyCodeWrapper::Numpad2 => "Numpad2",
            KeyCodeWrapper::Numpad3 => "Numpad3",
            KeyCodeWrapper::Numpad4 => "Numpad4",
            KeyCodeWrapper::Numpad5 => "Numpad5",
            KeyCodeWrapper::Numpad6 => "Numpad6",
            KeyCodeWrapper::Numpad7 => "Numpad7",
            KeyCodeWrapper::Numpad8 => "Numpad8",
            KeyCodeWrapper::Numpad9 => "Numpad9",
            KeyCodeWrapper::NumpadAdd => "NumpadAdd",
            KeyCodeWrapper::NumpadDivide => "NumpadDivide",
            KeyCodeWrapper::NumpadMultiply => "NumpadMultiply",
            KeyCodeWrapper::NumpadSubtract => "NumpadSubtract",
            KeyCodeWrapper::NumpadDecimal => "NumpadDecimal",
            KeyCodeWrapper::NumpadEnter => "NumpadEnter",
            KeyCodeWrapper::AudioVolumeDown => "AudioVolumeDown",
            KeyCodeWrapper::AudioVolumeMute => "AudioVolumeMute",
            KeyCodeWrapper::AudioVolumeUp => "AudioVolumeUp",
            KeyCodeWrapper::BrowserBack => "BrowserBack",
            KeyCodeWrapper::BrowserForward => "BrowserForward",
            KeyCodeWrapper::BrowserHome => "BrowserHome",
            KeyCodeWrapper::BrowserRefresh => "BrowserRefresh",
            KeyCodeWrapper::BrowserSearch => "BrowserSearch",
            KeyCodeWrapper::CapsLock => "CapsLock",
            KeyCodeWrapper::NumLock => "NumLock",
            KeyCodeWrapper::ScrollLock => "ScrollLock",
            KeyCodeWrapper::PrintScreen => "PrintScreen",
            KeyCodeWrapper::Pause => "Pause",
            KeyCodeWrapper::MediaPlayPause => "MediaPlayPause",
            KeyCodeWrapper::MediaStop => "MediaStop",
            KeyCodeWrapper::MediaTrackNext => "MediaTrackNext",
            KeyCodeWrapper::MediaTrackPrevious => "MediaTrackPrevious",
            KeyCodeWrapper::Backquote => "Backquote",
            KeyCodeWrapper::Backslash => "Backslash",
            KeyCodeWrapper::BracketLeft => "BracketLeft",
            KeyCodeWrapper::BracketRight => "BracketRight",
            KeyCodeWrapper::Comma => "Comma",
            KeyCodeWrapper::Equal => "Equal",
            KeyCodeWrapper::Minus => "Minus",
            KeyCodeWrapper::Period => "Period",
            KeyCodeWrapper::Quote => "Quote",
            KeyCodeWrapper::Semicolon => "Semicolon",
            KeyCodeWrapper::Slash => "Slash",
        }
    }

    /// The category of this key, such as "Letters" or "Modifiers".
    pub fn category(&self) -> (r: &'static str)
        ensures
            r@ == key_category(*self),
    {
        match self {
            KeyCodeWrapper::KeyA | KeyCodeWrapper::KeyB | KeyCodeWrapper::KeyC | KeyCodeWrapper::KeyD | KeyCodeWrapper::KeyE | KeyCodeWrapper::KeyF | KeyCodeWrapper::KeyG | KeyCodeWrapper::KeyH | KeyCodeWrapper::KeyI | KeyCodeWrapper::KeyJ | KeyCodeWrapper::KeyK | KeyCodeWrapper::KeyL | KeyCodeWrapper::KeyM | KeyCodeWrapper::KeyN | KeyCodeWrapper::KeyO | KeyCodeWrapper::KeyP | KeyCodeWrapper::KeyQ | KeyCodeWrapper::KeyR | KeyCodeWrapper::KeyS | KeyCodeWrapper::KeyT | KeyCodeWrapper::KeyU | KeyCodeWrapper::KeyV | KeyCodeWrapper::KeyW | KeyCodeWrapper::KeyX | KeyCodeWrapper::KeyY | KeyCodeWrapper::KeyZ => "Letters",
            KeyCodeWrapper::Digit0 | KeyCodeWrapper::Digit1 | KeyCodeWrapper::Digit2 | KeyCodeWrapper::Digit3 | KeyCodeWrapper::Digit4 | KeyCodeWrapper::Digit5 | KeyCodeWrapper::Digit6 | KeyCodeWrapper::Digit7 | KeyCodeWrapper::Digit8 | KeyCodeWrapper::Digit9 => "Digits",
            KeyCodeWrapper::F1 | KeyCodeWrapper::F2 | KeyCodeWrapper::F3 | KeyCodeWrapper::F4 | KeyCodeWrapper::F5 | KeyCodeWrapper::F6 | KeyCodeWrapper::F7 | KeyCodeWrapper::F8 | KeyCodeWrapper::F9 | KeyCodeWrapper::F10 | KeyCodeWrapper::F11 | KeyCodeWrapper::F12 | KeyCodeWrapper::F13 | KeyCodeWrapper::F14 | KeyCodeWrapper::F15 | KeyCodeWrapper::F16 | KeyCodeWrapper::F17 | KeyCodeWrapper::F18 | KeyCodeWrapper::F19 | KeyCodeWrapper::F20 | KeyCodeWrapper::F21 | KeyCodeWrapper::F22 | KeyCodeWrapper::F23 | KeyCodeWrapper::F24 => "Function",
            KeyCodeWrapper::AltLeft | KeyCodeWrapper::AltRight | KeyCodeWrapper::ControlLeft | KeyCodeWrapper::ControlRight | KeyCodeWrapper::ShiftLeft | KeyCodeWrapper::ShiftRight | KeyCodeWrapper::SuperLeft | KeyCodeWrapper::SuperRight => "Modifiers",
            KeyCodeWrapper::ArrowDown | KeyCodeWrapper::ArrowLeft | KeyCodeWrapper::ArrowRight | KeyCodeWrapper::ArrowUp | KeyCodeWrapper::End | KeyCodeWrapper::Home | KeyCodeWrapper::PageDown | KeyCodeWrapper::PageUp => "Navigation",
            KeyCodeWrapper::Backspace | KeyCodeWrapper::Delete | KeyCodeWrapper::Enter | KeyCodeWrapper::Escape | KeyCodeWrapper::Insert | KeyCodeWrapper::Space | KeyCodeWrapper::Tab => "Editing",
            KeyCodeWrapper::Numpad0 | KeyCodeWrapper::Numpad1 | KeyCodeWrapper::Numpad2 | KeyCodeWrapper::Numpad3 | KeyCodeWrapper::Numpad4 | KeyCodeWrapper::Numpad5 | KeyCodeWrapper::Numpad6 | KeyCodeWrapper::Numpad7 | KeyCodeWrapper::Numpad8 | KeyCodeWrapper::Numpad9 | KeyCodeWrapper::NumpadAdd | KeyCodeWrapper::NumpadDivide | KeyCodeWrapper::NumpadMultiply | KeyCodeWrapper::NumpadSubtract | KeyCodeWrapper::NumpadDecimal | KeyCodeWrapper::NumpadEnter => "Numpad",
            KeyCodeWrapper::AudioVolumeDown | KeyCodeWrapper::AudioVolumeMute | KeyCodeWrapper::AudioVolumeUp | KeyCodeWrapper::BrowserBack | KeyCodeWrapper::BrowserForward | KeyCodeWrapper::BrowserHome | KeyCodeWrapper::BrowserRefresh | KeyCodeWrapper::BrowserSearch | KeyCodeWrapper::CapsLock | KeyCodeWrapper::NumLock | KeyCodeWrapper::ScrollLock | KeyCodeWrapper::PrintScreen | KeyCodeWrapper::Pause | KeyCodeWrapper::MediaPlayPause | KeyCodeWrapper::MediaStop | KeyCodeWrapper::MediaTrackNext | KeyCodeWrapper::MediaTrackPrevious => "Special",
            KeyCodeWrapper::Backquote | KeyCodeWrapper::Backslash | KeyCodeWrapper::BracketLeft | KeyCodeWrapper::BracketRight | KeyCodeWrapper::Comma | KeyCodeWrapper::Equal | KeyCodeWrapper::Minus | KeyCodeWrapper::Period | KeyCodeWrapper::Quote | KeyCodeWrapper::Semicolon | KeyCodeWrapper::Slash => "Punctuation",
        }
    }

    /// The key with the given name, matched exactly.
    #[verifier::rlimit(50)]
    pub fn from_name(s: &str) -> (r: Option<KeyCodeWrapper>)
        ensures
            match r {
                Some(k) => key_name(k) == s@,
                None => forall|k: KeyCodeWrapper| key_name(k) != s@,
            },
    {
        if text_eq(s, "KeyA") {
            Some(KeyCodeWrapper::KeyA)
        } else if text_eq(s, "KeyB") {
            Some(KeyCodeWrapper::KeyB)
        } else if text_eq(s, "KeyC") {
            Some(KeyCodeWrapper::KeyC)
        } else if text_eq(s, "KeyD") {
            Some(KeyCodeWrapper::KeyD)
        } else if text_eq(s, "KeyE") {
            Some(KeyCodeWrapper::KeyE)
        } else if text_eq(s, "KeyF") {
            Some(KeyCodeWrapper::KeyF)
        } else if text_eq(s, "KeyG") {
            Some(KeyCodeWrapper::KeyG)
        } else if text_eq(s, "KeyH") {
            Some(KeyCodeWrapper::KeyH)
        } else if text_eq(s, "KeyI") {
            Some(KeyCodeWrapper::KeyI)
        } else if text_eq(s, "KeyJ") {
            Some(KeyCodeWrapper::KeyJ)
        } else if text_eq(s, "KeyK") {
            Some(KeyCodeWrapper::KeyK)
        } else if text_eq(s, "KeyL") {
            Some(KeyCodeWrapper::KeyL)
        } else if text_eq(s, "KeyM") {
            Some(KeyCodeWrapper::KeyM)
        } else if text_eq(s, "KeyN") {
            Some(KeyCodeWrapper::KeyN)
        } else if text_eq(s, "KeyO") {
            Some(KeyCodeWrapper::KeyO)
        } else if text_eq(s, "KeyP") {
            Some(KeyCodeWrapper::KeyP)
        } else if text_eq(s, "KeyQ") {
            Some(KeyCodeWrapper::KeyQ)
        } else if text_eq(s, "KeyR") {
            Some(KeyCodeWrapper::KeyR)
        } else if text_eq(s, "KeyS") {
            Some(KeyCodeWrapper::KeyS)
        } else if text_eq(s, "KeyT") {
            Some(KeyCodeWrapper::KeyT)
        } else if text_eq(s, "KeyU") {
            Some(KeyCodeWrapper::KeyU)
        } else if text_eq(s, "KeyV") {
            Some(KeyCodeWrapper::KeyV)
        } else if text_eq(s, "KeyW") {
            Some(KeyCodeWrapper::KeyW)
        } else if text_eq(s, "KeyX") {
            Some(KeyCodeWrapper::KeyX)
        } else if text_eq(s, "KeyY") {
            Some(KeyCodeWrapper::KeyY)
        } else if text_eq(s, "KeyZ") {
            Some(KeyCodeWrapper::KeyZ)
        } else if text_eq(s, "Digit0") {
            Some(KeyCodeWrapper::Digit0)
        } else if text_eq(s, "Digit1") {
            Some(KeyCodeWrapper::Digit1)
        } else if text_eq(s, "Digit2") {
            Some(KeyCodeWrapper::Digit2)
        } else if text_eq(s, "Digit3") {
            Some(KeyCodeWrapper::Digit3)
        } else if text_eq(s, "Digit4") {
            Some(KeyCodeWrapper::Digit4)
        } else if text_eq(s, "Digit5") {
            Some(KeyCodeWrapper::Digit5)
        } else if text_eq(s, "Digit6") {
            Some(KeyCodeWrapper::Digit6)
        } else if text_eq(s, "Digit7") {
            Some(KeyCodeWrapper::Digit7)
        } else if text_eq(s, "Digit8") {
            Some(KeyCodeWrapper::Digit8)
        } else if text_eq(s, "Digit9") {
            Some(KeyCodeWrapper::Digit9)
        } else if text_eq(s, "F1") {
            Some(KeyCodeWrapper::F1)
        } else if text_eq(s, "F2") {
            Some(KeyCodeWrapper::F2)
        } else if text_eq(s, "F3") {
            Some(KeyCodeWrapper::F3)
        } else if text_eq(s, "F4") {
            Some(KeyCodeWrapper::F4)
        } else if text_eq(s, "F5") {
            Some(KeyCodeWrapper::F5)
        } else if text_eq(s, "F6") {
            Some(KeyCodeWrapper::F6)
        } else if text_eq(s, "F7") {
            Some(KeyCodeWrapper::F7)
        } else if text_eq(s, "F8") {
            Some(KeyCodeWrapper::F8)
        } else if text_eq(s, "F9") {
            Some(KeyCodeWrapper::F9)
        } else if text_eq(s, "F10") {
            Some(KeyCodeWrapper::F10)
        } else if text_eq(s, "F11") {
            Some(KeyCodeWrapper::F11)
        } else if text_eq(s, "F12") {
            Some(KeyCodeWrapper::F12)
        } else if text_eq(s, "F13") {
            Some(KeyCodeWrapper::F13)
        } else if text_eq(s, "F14") {
            Some(KeyCodeWrapper::F14)
        } else if text_eq(s, "F15") {
            Some(KeyCodeWrapper::F15)
        } else if text_eq(s, "F16") {
            Some(KeyCodeWrapper::F16)
        } else if text_eq(s, "F17") {
            Some(KeyCodeWrapper::F17)
        } else if text_eq(s, "F18") {
            Some(KeyCodeWrapper::F18)
        } else if text_eq(s, "F19") {
            Some(KeyCodeWrapper::F19)
        } else if text_eq(s, "F20") {
            Some(KeyCodeWrapper::F20)
        } else if text_eq(s, "F21") {
            Some(KeyCodeWrapper::F21)
        } else if text_eq(s, "F22") {
            Some(KeyCodeWrapper::F22)
        } else if text_eq(s, "F23") {
            Some(KeyCodeWrapper::F23)
        } else if text_eq(s, "F24") {
            Some(KeyCodeWrapper::F24)
        } else if text_eq(s, "AltLeft") {
            Some(KeyCodeWrapper::AltLeft)
        } else if text_eq(s, "AltRight") {
            Some(KeyCodeWrapper::AltRight)
        } else if text_eq(s, "ControlLeft") {
            Some(KeyCodeWrapper::ControlLeft)
        } else if text_eq(s, "ControlRight") {
            Some(KeyCodeWrapper::ControlRight)
        } else if text_eq(s, "ShiftLeft") {
            Some(KeyCodeWrapper::ShiftLeft)
        } else if text_eq(s, "ShiftRight") {
            Some(KeyCodeWrapper::ShiftRight)
        } else if text_eq(s, "SuperLeft") {
            Some(KeyCodeWrapper::SuperLeft)
        } else if text_eq(s, "SuperRight") {
            Some(KeyCodeWrapper::SuperRight)
        } else if text_eq(s, "ArrowDown") {
            Some(KeyCodeWrapper::ArrowDown)
        } else if text_eq(s, "ArrowLeft") {
            Some(KeyCodeWrapper::ArrowLeft)
        } else if text_eq(s, "ArrowRight") {
            Some(KeyCodeWrapper::ArrowRight)
        } else if text_eq(s, "ArrowUp") {
            Some(KeyCodeWrapper::ArrowUp)
        } else if text_eq(s, "End") {
            Some(KeyCodeWrapper::End)
        } else if text_eq(s, "Home") {
            Some(KeyCodeWrapper::Home)
        } else if text_eq(s, "PageDown") {
            Some(KeyCodeWrapper::PageDown)
        } else if text_eq(s, "PageUp") {
            Some(KeyCodeWrapper::PageUp)
        } else if text_eq(s, "Backspace") {
            Some(KeyCodeWrapper::Backspace)
        } else if text_eq(s, "Delete") {
            Some(KeyCodeWrapper::Delete)
        } else if text_eq(s, "Enter") {
            Some(KeyCodeWrapper::Enter)
        } else if text_eq(s, "Escape") {
            Some(KeyCodeWrapper::Escape)
        } else if text_eq(s, "Insert") {
            Some(KeyCodeWrapper::Insert)
        } else if text_eq(s, "Space") {
            Some(KeyCodeWrapper::Space)
        } else if text_eq(s, "Tab") {
            Some(KeyCodeWrapper::Tab)
        } else if text_eq(s, "Numpad0") {
            Some(KeyCodeWrapper::Numpad0)
        } else if text_eq(s, "Numpad1") {
            Some(KeyCodeWrapper::Numpad1)
        } else if text_eq(s, "Numpad2") {
            Some(KeyCodeWrapper::Numpad2)
        } else if text_eq(s, "Numpad3") {
            Some(KeyCodeWrapper::Numpad3)
        } else if text_eq(s, "Numpad4") {
            Some(KeyCodeWrapper::Numpad4)
        } else if text_eq(s, "Numpad5") {
            Some(KeyCodeWrapper::Numpad5)
        } else if text_eq(s, "Numpad6") {
            Some(KeyCodeWrapper::Numpad6)
        } else if text_eq(s, "Numpad7") {
            Some(KeyCodeWrapper::Numpad7)
        } else if text_eq(s, "Numpad8") {
            Some(KeyCodeWrapper::Numpad8)
        } else if text_eq(s, "Numpad9") {
            Some(KeyCodeWrapper::Numpad9)
        } else if text_eq(s, "NumpadAdd") {
            Some(KeyCodeWrapper::NumpadAdd)
        } else if text_eq(s, "NumpadDivide") {
            Some(KeyCodeWrapper::NumpadDivide)
        } else if text_eq(s, "NumpadMultiply") {
            Some(KeyCodeWrapper::NumpadMultiply)
        } else if text_eq(s, "NumpadSubtract") {
            Some(KeyCodeWrapper::NumpadSubtract)
        } else if text_eq(s, "NumpadDecimal") {
            Some(KeyCodeWrapper::NumpadDecimal)
        } else if text_eq(s, "NumpadEnter") {
            Some(KeyCodeWrapper::NumpadEnter)
        } else if text_eq(s, "AudioVolumeDown") {
            Some(KeyCodeWrapper::AudioVolumeDown)
        } else if text_eq(s, "AudioVolumeMute") {
            Some(KeyCodeWrapper::AudioVolumeMute)
        } else if text_eq(s, "AudioVolumeUp") {
            Some(KeyCodeWrapper::AudioVolumeUp)
        } else if text_eq(s, "BrowserBack") {
            Some(KeyCodeWrapper::BrowserBack)
        } else if text_eq(s, "BrowserForward") {
            Some(KeyCodeWrapper::BrowserForward)
        } else if text_eq(s, "BrowserHome") {
            Some(KeyCodeWrapper::BrowserHome)
        } else if text_eq(s, "BrowserRefresh") {
            Some(KeyCodeWrapper::BrowserRefresh)
        } else if text_eq(s, "BrowserSearch") {
            Some(KeyCodeWrapper::BrowserSearch)
        } else if text_eq(s, "CapsLock") {
            Some(KeyCodeWrapper::CapsLock)
        } else if text_eq(s, "NumLock") {
            Some(KeyCodeWrapper::NumLock)
        } else if text_eq(s, "ScrollLock") {
            Some(KeyCodeWrapper::ScrollLock)
        } else if text_eq(s, "PrintScreen") {
            Some(KeyCodeWrapper::PrintScreen)
        } else if text_eq(s, "Pause") {
            Some(KeyCodeWrapper::Pause)
        } else if text_eq(s, "MediaPlayPause") {
            Some(KeyCodeWrapper::MediaPlayPause)
        } else if text_eq(s, "MediaStop") {
            Some(KeyCodeWrapper::MediaStop)
        } else if text_eq(s, "MediaTrackNext") {
            Some(KeyCodeWrapper::MediaTrackNext)
        } else if text_eq(s, "MediaTrackPrevious") {
            Some(KeyCodeWrapper::MediaTrackPrevious)
        } else if text_eq(s, "Backquote") {
            Some(KeyCodeWrapper::Backquote)
        } else if text_eq(s, "Backslash") {
            Some(KeyCodeWrapper::Backslash)
        } else if text_eq(s, "BracketLeft") {
            Some(KeyCodeWrapper::BracketLeft)
        } else if text_eq(s, "BracketRight") {
            Some(KeyCodeWrapper::BracketRight)
        } else if text_eq(s, "Comma") {
            Some(KeyCodeWrapper::Comma)
        } else if text_eq(s, "Equal") {
            Some(KeyCodeWrapper::Equal)
        } else if text_eq(s, "Minus") {
            Some(KeyCodeWrapper::Minus)
        } else if text_eq(s, "Period") {
            Some(KeyCodeWrapper::Period)
        } else if text_eq(s, "Quote") {
            Some(KeyCodeWrapper::Quote)
        } else if text_eq(s, "Semicolon") {
            Some(KeyCodeWrapper::Semicolon)
        } else if text_eq(s, "Slash") {
            Some(KeyCodeWrapper::Slash)
        } else {
            None
        }
    }

    /// The key at position `i` of the declaration order.
    pub fn at(i: usize) -> (r: KeyCodeWrapper)
        requires
            i < 127,
        ensures
            r == key_at(i as int),
    {
        match i {
            0 => KeyCodeWrapper::KeyA,
            1 => KeyCodeWrapper::KeyB,
            2 => KeyCodeWrapper::KeyC,
            3 => KeyCodeWrapper::KeyD,
            4 => KeyCodeWrapper::KeyE,
            5 => KeyCodeWrapper::KeyF,
            6 => KeyCodeWrapper::KeyG,
            7 => KeyCodeWrapper::KeyH,
            8 => KeyCodeWrapper::KeyI,
            9 => KeyCodeWrapper::KeyJ,
            10 => KeyCodeWrapper::KeyK,
            11 => KeyCodeWrapper::KeyL,
            12 => KeyCodeWrapper::KeyM,
            13 => KeyCodeWrapper::KeyN,
            14 => KeyCodeWrapper::KeyO,
            15 => KeyCodeWrapper::KeyP,
            16 => KeyCodeWrapper::KeyQ,
            17 => KeyCodeWrapper::KeyR,
            18 => KeyCodeWrapper::KeyS,
            19 => KeyCodeWrapper::KeyT,
            20 => KeyCodeWrapper::KeyU,
            21 => KeyCodeWrapper::KeyV,
            22 => KeyCodeWrapper::KeyW,
            23 => KeyCodeWrapper::KeyX,
            24 => KeyCodeWrapper::KeyY,
            25 => KeyCodeWrapper::KeyZ,
            26 => KeyCodeWrapper::Digit0,
            27 => KeyCodeWrapper::Digit1,
            28 => KeyCodeWrapper::Digit2,
            29 => KeyCodeWrapper::Digit3,
            30 => KeyCodeWrapper::Digit4,
            31 => KeyCodeWrapper::Digit5,
            32 => KeyCodeWrapper::Digit6,
            33 => KeyCodeWrapper::Digit7,
            34 => KeyCodeWrapper::Digit8,
            35 => KeyCodeWrapper::Digit9,
            36 => KeyCodeWrapper::F1,
            37 => KeyCodeWrapper::F2,
            38 => KeyCodeWrapper::F3,
            39 => KeyCodeWrapper::F4,
            40 => KeyCodeWrapper::F5,
            41 => KeyCodeWrapper::F6,
            42 => KeyCodeWrapper::F7,
            43 => KeyCodeWrapper::F8,
            44 => KeyCodeWrapper::F9,
            45 => KeyCodeWrapper::F10,
            46 => KeyCodeWrapper::F11,
            47 => KeyCodeWrapper::F12,
            48 => KeyCodeWrapper::F13,
            49 => KeyCodeWrapper::F14,
            50 => KeyCodeWrapper::F15,
            51 => KeyCodeWrapper::F16,
            52 => KeyCodeWrapper::F17,
            53 => KeyCodeWrapper::F18,
            54 => KeyCodeWrapper::F19,
            55 => KeyCodeWrapper::F20,
            56 => KeyCodeWrapper::F21,
            57 => KeyCodeWrapper::F22,
            58 => KeyCodeWrapper::F23,
            59 => KeyCodeWrapper::F24,
            60 => KeyCodeWrapper::AltLeft,
            61 => KeyCodeWrapper::AltRight,
            62 => KeyCodeWrapper::ControlLeft,
            63 => KeyCodeWrapper::ControlRight,
            64 => KeyCodeWrapper::ShiftLeft,
            65 => KeyCodeWrapper::ShiftRight,
            66 => KeyCodeWrapper::SuperLeft,
            67 => KeyCodeWrapper::SuperRight,
            68 => KeyCodeWrapper::ArrowDown,
            69 => KeyCodeWrapper::ArrowLeft,
            70 => KeyCodeWrapper::ArrowRight,
            71 => KeyCodeWrapper::ArrowUp,
            72 => KeyCodeWrapper::End,
            73 => KeyCodeWrapper::Home,
            74 => KeyCodeWrapper::PageDown,
            75 => KeyCodeWrapper::PageUp,
            76 => KeyCodeWrapper::Backspace,
            77 => KeyCodeWrapper::Delete,
            78 => KeyCodeWrapper::Enter,
            79 => KeyCodeWrapper::Escape,
            80 => KeyCodeWrapper::Insert,
            81 => KeyCodeWrapper::Space,
            82 => KeyCodeWrapper::Tab,
            83 => KeyCodeWrapper::Numpad0,
            84 => KeyCodeWrapper::Numpad1,
            85 => KeyCodeWrapper::Numpad2,
            86 => KeyCodeWrapper::Numpad3,
            87 => KeyCodeWrapper::Numpad4,
            88 => KeyCodeWrapper::Numpad5,
            89 => KeyCodeWrapper::Numpad6,
            90 => KeyCodeWrapper::Numpad7,
            91 => KeyCodeWrapper::Numpad8,
            92 => KeyCodeWrapper::Numpad9,
            93 => KeyCodeWrapper::NumpadAdd,
            94 => KeyCodeWrapper::NumpadDivide,
            95 => KeyCodeWrapper::NumpadMultiply,
            96 => KeyCodeWrapper::NumpadSubtract,
            97 => KeyCodeWrapper::NumpadDecimal,
            98 => KeyCodeWrapper::NumpadEnter,
            99 => KeyCodeWrapper::AudioVolumeDown,
            100 => KeyCodeWrapper::AudioVolumeMute,
            101 => KeyCodeWrapper::AudioVolumeUp,
            102 => KeyCodeWrapper::BrowserBack,
            103 => KeyCodeWrapper::BrowserForward,
            104 => KeyCodeWrapper::BrowserHome,
            105 => KeyCodeWrapper::BrowserRefresh,
            106 => KeyCodeWrapper::BrowserSearch,
            107 => KeyCodeWrapper::CapsLock,
            108 => KeyCodeWrapper::NumLock,
            109 => KeyCodeWrapper::ScrollLock,
            110 => KeyCodeWrapper::PrintScreen,
            111 => KeyCodeWrapper::Pause,
            112 => KeyCodeWrapper::MediaPlayPause,
            113 => KeyCodeWrapper::MediaStop,
            114 => KeyCodeWrapper::MediaTrackNext,
            115 => KeyCodeWrapper::MediaTrackPrevious,
            116 => KeyCodeWrapper::Backquote,
            117 => KeyCodeWrapper::Backslash,
            118 => KeyCodeWrapper::BracketLeft,
            119 => KeyCodeWrapper::BracketRight,
            120 => KeyCodeWrapper::Comma,
            121 => KeyCodeWrapper::Equal,
            122 => KeyCodeWrapper::Minus,
            123 => KeyCodeWrapper::Period,
            124 => KeyCodeWrapper::Quote,
            125 => KeyCodeWrapper::Semicolon,
            _ => KeyCodeWrapper::Slash,
        }
    }

    /// Every key, in declaration order.
    pub fn all() -> (r: Vec<KeyCodeWrapper>)
        ensures
            r@.len() == 127,
            forall|i: int| 0 <= i < 127 ==> #[trigger] r@[i] == key_at(i),
            forall|k: KeyCodeWrapper| #[trigger] r@.contains(k),
    {
        let mut r: Vec<KeyCodeWrapper> = Vec::new();
        let mut i: usize = 0;
        while i < 127
            invariant
                i <= 127,
                r@.len() == i,
                forall|j: int| 0 <= j < i ==> #[trigger] r@[j] == key_at(j),
            decreases 127 - i,
        {
            r.push(KeyCodeWrapper::at(i));
            i = i + 1;
        }
        assert forall|k: KeyCodeWrapper| #[trigger] r@.contains(k) by {
            lemma_key_index(k);
            assert(r@[key_index(k)] == k);
        }
        r
    }
}

/// The position of a key in the declaration order.
pub open spec fn key_index(k: KeyCodeWrapper) -> int {
    match k {
        KeyCodeWrapper::KeyA => 0,
        KeyCodeWrapper::KeyB => 1,
        KeyCodeWrapper::KeyC => 2,
        KeyCodeWrapper::KeyD => 3,
        KeyCodeWrapper::KeyE => 4,
        KeyCodeWrapper::KeyF => 5,
        KeyCodeWrapper::KeyG => 6,
        KeyCodeWrapper::KeyH => 7,
        KeyCodeWrapper::KeyI => 8,
        KeyCodeWrapper::KeyJ => 9,
        KeyCodeWrapper::KeyK => 10,
        KeyCodeWrapper::KeyL => 11,
        KeyCodeWrapper::KeyM => 12,
        KeyCodeWrapper::KeyN => 13,
        KeyCodeWrapper::KeyO => 14,
        KeyCodeWrapper::KeyP => 15,
        KeyCodeWrapper::KeyQ => 16,
        KeyCodeWrapper::KeyR => 17,
        KeyCodeWrapper::KeyS => 18,
        KeyCodeWrapper::KeyT => 19,
        KeyCodeWrapper::KeyU => 20,
        KeyCodeWrapper::KeyV => 21,
        KeyCodeWrapper::KeyW => 22,
        KeyCodeWrapper::KeyX => 23,
        KeyCodeWrapper::KeyY => 24,
        KeyCodeWrapper::KeyZ => 25,
        KeyCodeWrapper::Digit0 => 26,
        KeyCodeWrapper::Digit1 => 27,
        KeyCodeWrapper::Digit2 => 28,
        KeyCodeWrapper::Digit3 => 29,
        KeyCodeWrapper::Digit4 => 30,
        KeyCodeWrapper::Digit5 => 31,
        KeyCodeWrapper::Digit6 => 32,
        KeyCodeWrapper::Digit7 => 33,
        KeyCodeWrapper::Digit8 => 34,
        KeyCodeWrapper::Digit9 => 35,
        KeyCodeWrapper::F1 => 36,
        KeyCodeWrapper::F2 => 37,
        KeyCodeWrapper::F3 => 38,
        KeyCodeWrapper::F4 => 39,
        KeyCodeWrapper::F5 => 40,
        KeyCodeWrapper::F6 => 41,
        KeyCodeWrapper::F7 => 42,
        KeyCodeWrapper::F8 => 43,
        KeyCodeWrapper::F9 => 44,
        KeyCodeWrapper::F10 => 45,
        KeyCodeWrapper::F11 => 46,
        KeyCodeWrapper::F12 => 47,
        KeyCodeWrapper::F13 => 48,
        KeyCodeWrapper::F14 => 49,
        KeyCodeWrapper::F15 => 50,
        KeyCodeWrapper::F16 => 51,
        KeyCodeWrapper::F17 => 52,
        KeyCodeWrapper::F18 => 53,
        KeyCodeWrapper::F19 => 54,
        KeyCodeWrapper::F20 => 55,
        KeyCodeWrapper::F21 => 56,
        KeyCodeWrapper::F22 => 57,
        KeyCodeWrapper::F23 => 58,
        KeyCodeWrapper::F24 => 59,
        KeyCodeWrapper::AltLeft => 60,
        KeyCodeWrapper::AltRight => 61,
        KeyCodeWrapper::ControlLeft => 62,
        KeyCodeWrapper::ControlRight => 63,
        KeyCodeWrapper::ShiftLeft => 64,
        KeyCodeWrapper::ShiftRight => 65,
        KeyCodeWrapper::SuperLeft => 66,
        KeyCodeWrapper::SuperRight => 67,
        KeyCodeWrapper::ArrowDown => 68,
        KeyCodeWrapper::ArrowLeft => 69,
        KeyCodeWrapper::ArrowRight => 70,
        KeyCodeWrapper::ArrowUp => 71,
        KeyCodeWrapper::End => 72,
        KeyCodeWrapper::Home => 73,
        KeyCodeWrapper::PageDown => 74,
        KeyCodeWrapper::PageUp => 75,
        KeyCodeWrapper::Backspace => 76,
        KeyCodeWrapper::Delete => 77,
        KeyCodeWrapper::Enter => 78,
        KeyCodeWrapper::Escape => 79,
        KeyCodeWrapper::Insert => 80,
        KeyCodeWrapper::Space => 81,
        KeyCodeWrapper::Tab => 82,
        KeyCodeWrapper::Numpad0 => 83,
        KeyCodeWrapper::Numpad1 => 84,
        KeyCodeWrapper::Numpad2 => 85,
        KeyCodeWrapper::Numpad3 => 86,
        KeyCodeWrapper::Numpad4 => 87,
        KeyCodeWrapper::Numpad5 => 88,
        KeyCodeWrapper::Numpad6 => 89,
        KeyCodeWrapper::Numpad7 => 90,
        KeyCodeWrapper::Numpad8 => 91,
        KeyCodeWrapper::Numpad9 => 92,
        KeyCodeWrapper::NumpadAdd => 93,
        KeyCodeWrapper::NumpadDivide => 94,
        KeyCodeWrapper::NumpadMultiply => 95,
        KeyCodeWrapper::NumpadSubtract => 96,
        KeyCodeWrapper::NumpadDecimal => 97,
        KeyCodeWrapper::NumpadEnter => 98,
        KeyCodeWrapper::AudioVolumeDown => 99,
        KeyCodeWrapper::AudioVolumeMute => 100,
        KeyCodeWrapper::AudioVolumeUp => 101,
        KeyCodeWrapper::BrowserBack => 102,
        KeyCodeWrapper::BrowserForward => 103,
        KeyCodeWrapper::BrowserHome => 104,
        KeyCodeWrapper::BrowserRefresh => 105,
        KeyCodeWrapper::BrowserSearch => 106,
        KeyCodeWrapper::CapsLock => 107,
        KeyCodeWrapper::NumLock => 108,
        KeyCodeWrapper::ScrollLock => 109,
        KeyCodeWrapper::PrintScreen => 110,
        KeyCodeWrapper::Pause => 111,
        KeyCodeWrapper::MediaPlayPause => 112,
        KeyCodeWrapper::MediaStop => 113,
        KeyCodeWrapper::MediaTrackNext => 114,
        KeyCodeWrapper::MediaTrackPrevious => 115,
        KeyCodeWrapper::Backquote => 116,
        KeyCodeWrapper::Backslash => 117,
        KeyCodeWrapper::BracketLeft => 118,
        KeyCodeWrapper::BracketRight => 119,
        KeyCodeWrapper::Comma => 120,
        KeyCodeWrapper::Equal => 121,
        KeyCodeWrapper::Minus => 122,
        KeyCodeWrapper::Period => 123,
        KeyCodeWrapper::Quote => 124,
        KeyCodeWrapper::Semicolon => 125,
        KeyCodeWrapper::Slash => 126,
    }
}

/// The key at position `i` of the declaration order.
pub open spec fn key_at(i: int) -> KeyCodeWrapper {
    if i <= 0 {
        KeyCodeWrapper::KeyA
    } else if i == 1 {
        KeyCodeWrapper::KeyB
    } else if i == 2 {
        KeyCodeWrapper::KeyC
    } else if i == 3 {
        KeyCodeWrapper::KeyD
    } else if i == 4 {
        KeyCodeWrapper::KeyE
    } else if i == 5 {
        KeyCodeWrapper::KeyF
    } else if i == 6 {
        KeyCodeWrapper::KeyG
    } else if i == 7 {
        KeyCodeWrapper::KeyH
    } else if i == 8 {
        KeyCodeWrapper::KeyI
    } else if i == 9 {
        KeyCodeWrapper::KeyJ
    } else if i == 10 {
        KeyCodeWrapper::KeyK
    } else if i == 11 {
        KeyCodeWrapper::KeyL
    } else if i == 12 {
        KeyCodeWrapper::KeyM
    } else if i == 13 {
        KeyCodeWrapper::KeyN
    } else if i == 14 {
        KeyCodeWrapper::KeyO
    } else if i == 15 {
        KeyCodeWrapper::KeyP
    } else if i == 16 {
        KeyCodeWrapper::KeyQ
    } else if i == 17 {
        KeyCodeWrapper::KeyR
    } else if i == 18 {
        KeyCodeWrapper::KeyS
    } else if i == 19 {
        KeyCodeWrapper::KeyT
    } else if i == 20 {
        KeyCodeWrapper::KeyU
    } else if i == 21 {
        KeyCodeWrapper::KeyV
    } else if i == 22 {
        KeyCodeWrapper::KeyW
    } else if i == 23 {
        KeyCodeWrapper::KeyX
    } else if i == 24 {
        KeyCodeWrapper::KeyY
    } else if i == 25 {
        KeyCodeWrapper::KeyZ
    } else if i == 26 {
        KeyCodeWrapper::Digit0
    } else if i == 27 {
        KeyCodeWrapper::Digit1
    } else if i == 28 {
        KeyCodeWrapper::Digit2
    } else if i == 29 {
        KeyCodeWrapper::Digit3
    } else if i == 30 {
        KeyCodeWrapper::Digit4
    } else if i == 31 {
        KeyCodeWrapper::Digit5
    } else if i == 32 {
        KeyCodeWrapper::Digit6
    } else if i == 33 {
        KeyCodeWrapper::Digit7
    } else if i == 34 {
        KeyCodeWrapper::Digit8
    } else if i == 35 {
        KeyCodeWrapper::Digit9
    } else if i == 36 {
        KeyCodeWrapper::F1
    } else if i == 37 {
        KeyCodeWrapper::F2
    } else if i == 38 {
        KeyCodeWrapper::F3
    } else if i == 39 {
        KeyCodeWrapper::F4
    } else if i == 40 {
        KeyCodeWrapper::F5
    } else if i == 41 {
        KeyCodeWrapper::F6
    } else if i == 42 {
        KeyCodeWrapper::F7
    } else if i == 43 {
        KeyCodeWrapper::F8
    } else if i == 44 {
        KeyCodeWrapper::F9
    } else if i == 45 {
        KeyCodeWrapper::F10
    } else if i == 46 {
        KeyCodeWrapper::F11
    } else if i == 47 {
        KeyCodeWrapper::F12
    } else if i == 48 {
        KeyCodeWrapper::F13
    } else if i == 49 {
        KeyCodeWrapper::F14
    } else if i == 50 {
        KeyCodeWrapper::F15
    } else if i == 51 {
        KeyCodeWrapper::F16
    } else if i == 52 {
        KeyCodeWrapper::F17
    } else if i == 53 {
        KeyCodeWrapper::F18
    } else if i == 54 {
        KeyCodeWrapper::F19
    } else if i == 55 {
        KeyCodeWrapper::F20
    } else if i == 56 {
        KeyCodeWrapper::F21
    } else if i == 57 {
        KeyCodeWrapper::F22
    } else if i == 58 {
        KeyCodeWrapper::F23
    } else if i == 59 {
        KeyCodeWrapper::F24
    } else if i == 60 {
        KeyCodeWrapper::AltLeft
    } else if i == 61 {
        KeyCodeWrapper::AltRight
    } else if i == 62 {
        KeyCodeWrapper::ControlLeft
    } else if i == 63 {
        KeyCodeWrapper::ControlRight
    } else if i == 64 {
        KeyCodeWrapper::ShiftLeft
    } else if i == 65 {
        KeyCodeWrapper::ShiftRight
    } else if i == 66 {
        KeyCodeWrapper::SuperLeft
    } else if i == 67 {
        KeyCodeWrapper::SuperRight
    } else if i == 68 {
        KeyCodeWrapper::ArrowDown
    } else if i == 69 {
        KeyCodeWrapper::ArrowLeft
    } else if i == 70 {
        KeyCodeWrapper::ArrowRight
    } else if i == 71 {
        KeyCodeWrapper::ArrowUp
    } else if i == 72 {
        KeyCodeWrapper::End
    } else if i == 73 {
        KeyCodeWrapper::Home
    } else if i == 74 {
        KeyCodeWrapper::PageDown
    } else if i == 75 {
        KeyCodeWrapper::PageUp
    } else if i == 76 {
        KeyCodeWrapper::Backspace
    } else if i == 77 {
        KeyCodeWrapper::Delete
    } else if i == 78 {
        KeyCodeWrapper::Enter
    } else if i == 79 {
        KeyCodeWrapper::Escape
    } else if i == 80 {
        KeyCodeWrapper::Insert
    } else if i == 81 {
        KeyCodeWrapper::Space
    } else if i == 82 {
        KeyCodeWrapper::Tab
    } else if i == 83 {
        KeyCodeWrapper::Numpad0
    } else if i == 84 {
        KeyCodeWrapper::Numpad1
    } else if i == 85 {
        KeyCodeWrapper::Numpad2
    } else if i == 86 {
        KeyCodeWrapper::Numpad3
    } else if i == 87 {
        KeyCodeWrapper::Numpad4
    } else if i == 88 {
        KeyCodeWrapper::Numpad5
    } else if i == 89 {
        KeyCodeWrapper::Numpad6
    } else if i == 90 {
        KeyCodeWrapper::Numpad7
    } else if i == 91 {
        KeyCodeWrapper::Numpad8
    } else if i == 92 {
        KeyCodeWrapper::Numpad9
    } else if i == 93 {
        KeyCodeWrapper::NumpadAdd
    } else if i == 94 {
        KeyCodeWrapper::NumpadDivide
    } else if i == 95 {
        KeyCodeWrapper::NumpadMultiply
    } else if i == 96 {
        KeyCodeWrapper::NumpadSubtract
    } else if i == 97 {
        KeyCodeWrapper::NumpadDecimal
    } else if i == 98 {
        KeyCodeWrapper::NumpadEnter
    } else if i == 99 {
        KeyCodeWrapper::AudioVolumeDown
    } else if i == 100 {
        KeyCodeWrapper::AudioVolumeMute
    } else if i == 101 {
        KeyCodeWrapper::AudioVolumeUp
    } else if i == 102 {
        KeyCodeWrapper::BrowserBack
    } else if i == 103 {
        KeyCodeWrapper::BrowserForward
    } else if i == 104 {
        KeyCodeWrapper::BrowserHome
    } else if i == 105 {
        KeyCodeWrapper::BrowserRefresh
    } else if i == 106 {
        KeyCodeWrapper::BrowserSearch
    } else if i == 107 {
        KeyCodeWrapper::CapsLock
    } else if i == 108 {
        KeyCodeWrapper::NumLock
    } else if i == 109 {
        KeyCodeWrapper::ScrollLock
    } else if i == 110 {
        KeyCodeWrapper::PrintScreen
    } else if i == 111 {
        KeyCodeWrapper::Pause
    } else if i == 112 {
        KeyCodeWrapper::MediaPlayPause
    } else if i == 113 {
        KeyCodeWrapper::MediaStop
    } else if i == 114 {
        KeyCodeWrapper::MediaTrackNext
    } else if i == 115 {
        KeyCodeWrapper::MediaTrackPrevious
    } else if i == 116 {
        KeyCodeWrapper::Backquote
    } else if i == 117 {
        KeyCodeWrapper::Backslash
    } else if i == 118 {
        KeyCodeWrapper::BracketLeft
    } else if i == 119 {
        KeyCodeWrapper::BracketRight
    } else if i == 120 {
        KeyCodeWrapper::Comma
    } else if i == 121 {
        KeyCodeWrapper::Equal
    } else if i == 122 {
        KeyCodeWrapper::Minus
    } else if i == 123 {
        KeyCodeWrapper::Period
    } else if i == 124 {
        KeyCodeWrapper::Quote
    } else if i == 125 {
        KeyCodeWrapper::Semicolon
    } else {
        KeyCodeWrapper::Slash
    }
}

/// Every key sits at its own position.
pub proof fn lemma_key_index(k: KeyCodeWrapper)
    ensures
        0 <= key_index(k) < 127,
        key_at(key_index(k)) == k,
{
}

/// The hold time of a request that does not give one.
pub fn default_duration() -> (r: u32)
    ensures
        r == DEFAULT_KEY_DURATION_MS,
{
    DEFAULT_KEY_DURATION_MS
}

/// The message for a key name that names no key.
pub open spec fn invalid_key_message(s: Seq<char>) -> Seq<char> {
    "Invalid key code '"@ + s + "': Unknown key code: "@ + s
}

/// The message for a hold time over the maximum.
pub open spec fn duration_message(ms: nat) -> Seq<char> {
    "Duration "@ + decimal_text(ms) + "ms exceeds maximum allowed duration of 60000ms (1 minute)"@
}

/// `s` names some key.
pub open spec fn is_key_name(s: Seq<char>) -> bool {
    exists|k: KeyCodeWrapper| key_name(k) == s
}

/// `keys[i]` is the first name among `keys` that names no key.
pub open spec fn first_invalid(keys: Seq<String>, i: int) -> bool {
    &&& 0 <= i < keys.len()
    &&& !is_key_name(keys[i]@)
    &&& forall|j: int| 0 <= j < i ==> is_key_name(#[trigger] keys[j]@)
}

/// The keys a request names, in order, or the message for the first name
/// that names no key.
pub fn validate_keys(keys: &Vec<String>) -> (r: Result<Vec<KeyCodeWrapper>, String>)
    ensures
        match r {
            Ok(codes) => codes@.len() == keys@.len() && forall|i: int|
                0 <= i < keys@.len() ==> key_name(#[trigger] codes@[i]) == keys@[i]@,
            Err(msg) => exists|i: int| #[trigger] first_invalid(keys@, i) && msg@ == invalid_key_message(keys@[i]@),
        },
{
    let mut codes: Vec<KeyCodeWrapper> = Vec::new();
    let mut i: usize = 0;
    while i < keys.len()
        invariant
            i <= keys@.len(),
            codes@.len() == i,
            forall|j: int| 0 <= j < i ==> key_name(#[trigger] codes@[j]) == keys@[j]@,
        decreases keys@.len() - i,
    {
        match KeyCodeWrapper::from_name(keys[i].as_str()) {
            Some(k) => {
                codes.push(k);
            },
            None => {
                let mut msg = join3("Invalid key code '", keys[i].as_str(), "': Unknown key code: ");
                msg.append(keys[i].as_str());
                assert forall|j: int| 0 <= j < i implies is_key_name(#[trigger] keys@[j]@) by {
                    assert(key_name(codes@[j]) == keys@[j]@);
                }
                assert(first_invalid(keys@, i as int));
                return Err(msg);
            },
        }
        i = i + 1;
    }
    Ok(codes)
}

/// Accepts a hold time up to the maximum, or gives the message for one over it.
pub fn check_duration(duration_ms: u32) -> (r: Result<u32, String>)
    ensures
        duration_ms <= MAX_KEY_DURATION_MS ==> r == Ok::<u32, String>(duration_ms),
        duration_ms > MAX_KEY_DURATION_MS ==> r is Err && r->Err_0@ == duration_message(
            duration_ms as nat,
        ),
{
    if duration_ms <= MAX_KEY_DURATION_MS {
        Ok(duration_ms)
    } else {
        let digits = decimal_string(duration_ms as usize);
        Err(join3("Duration ", digits.as_str(), "ms exceeds maximum allowed duration of 60000ms (1 minute)"))
    }
}

/// The keys to press and the hold time of a request: keys are checked
/// first, then the hold time.
pub fn validate_send_keys(keys: &Vec<String>, duration_ms: u32) -> (r: Result<
    Vec<KeyCodeWrapper>,
    String,
>)
    ensures
        r is Ok <==> (duration_ms <= MAX_KEY_DURATION_MS && forall|i: int|
            0 <= i < keys@.len() ==> is_key_name(#[trigger] keys@[i]@)),
        r is Ok ==> r->Ok_0@.len() == keys@.len() && forall|i: int|
            0 <= i < keys@.len() ==> key_name(#[trigger] r->Ok_0@[i]) == keys@[i]@,
        (exists|i: int| #[trigger] first_invalid(keys@, i)) ==> r is Err && exists|i: int|
            #[trigger] first_invalid(keys@, i) && r->Err_0@ == invalid_key_message(keys@[i]@),
        (forall|i: int| 0 <= i < keys@.len() ==> is_key_name(#[trigger] keys@[i]@)) && duration_ms
            > MAX_KEY_DURATION_MS ==> r is Err && r->Err_0@ == duration_message(duration_ms as nat),
{
    let codes = match validate_keys(keys) {
        Ok(c) => c,
        Err(msg) => {
            proof {
                let i = choose|i: int| #[trigger] first_invalid(keys@, i) && msg@ == invalid_key_message(keys@[i]@);
                assert(!is_key_name(keys@[i]@));
            }
            return Err(msg);
        },
    };
    assert forall|i: int| 0 <= i < keys@.len() implies is_key_name(#[trigger] keys@[i]@) by {
        assert(key_name(codes@[i]) == keys@[i]@);
    }
    match check_duration(duration_ms) {
        Ok(_) => Ok(codes),
        Err(msg) => Err(msg),
    }
}

} // verus!
