use vstd::prelude::*;

verus! {

/// A key of the closed set that the bridge can report and inject.
///
/// Every symbol has one canonical identifier (`key_code_of`), one native
/// virtual-key code (`native_code_of`), one short human-readable label
/// (`label_of`) and one key of the cross-platform input library
/// (`generic_of`).
#[derive(Clone, Copy, Debug, PartialEq, Eq, Structural)]
pub enum KeySymbol {
    KeyA,
    KeyB,
    KeyC,
    KeyD,
    KeyE,
    KeyF,
    KeyG,
    KeyH,
    KeyI,
    KeyJ,
    KeyK,
    KeyL,
    KeyM,
    KeyN,
    KeyO,
    KeyP,
    KeyQ,
    KeyR,
    KeyS,
    KeyT,
    KeyU,
    KeyV,
    KeyW,
    KeyX,
    KeyY,
    KeyZ,
    Num0,
    Num1,
    Num2,
    Num3,
    Num4,
    Num5,
    Num6,
    Num7,
    Num8,
    Num9,
    Return,
    Escape,
    Backspace,
    Tab,
    Space,
    ControlLeft,
    ControlRight,
    ShiftLeft,
    ShiftRight,
    AltLeft,
    AltRight,
    MetaLeft,
    MetaRight,
    UpArrow,
    DownArrow,
    LeftArrow,
    RightArrow,
    F1,
    F2,
    F3,
    F4,
    F5,
    F6,
    F7,
    F8,
    F9,
    F10,
    F11,
    F12,
}

/// The key of the cross-platform input library that a symbol is injected as.
/// Each variant carries the name that the library gives the key.
#[derive(Clone, Copy, Debug, PartialEq, Eq, Structural)]
pub enum GenericKey {
    KeyA,
    KeyB,
    KeyC,
    KeyD,
    KeyE,
    KeyF,
    KeyG,
    KeyH,
    KeyI,
    KeyJ,
    KeyK,
    KeyL,
    KeyM,
    KeyN,
    KeyO,
    KeyP,
    KeyQ,
    KeyR,
    KeyS,
    KeyT,
    KeyU,
    KeyV,
    KeyW,
    KeyX,
    KeyY,
    KeyZ,
    Num0,
    Num1,
    Num2,
    Num3,
    Num4,
    Num5,
    Num6,
    Num7,
    Num8,
    Num9,
    Return,
    Escape,
    Backspace,
    Tab,
    Space,
    ControlLeft,
    ControlRight,
    ShiftLeft,
    ShiftRight,
    Alt,
    AltGr,
    MetaLeft,
    MetaRight,
    UpArrow,
    DownArrow,
    LeftArrow,
    RightArrow,
    F1,
    F2,
    F3,
    F4,
    F5,
    F6,
    F7,
    F8,
    F9,
    F10,
    F11,
    F12,
}

/// The native virtual-key code of a symbol. Letters and digits use their
/// upper-case ASCII code; the other keys use the platform's fixed codes.
pub open spec fn native_code_of(k: KeySymbol) -> u32 {
    match k {
            KeySymbol::KeyA => 0x41,
            KeySymbol::KeyB => 0x42,
            KeySymbol::KeyC => 0x43,
            KeySymbol::KeyD => 0x44,
            KeySymbol::KeyE => 0x45,
            KeySymbol::KeyF => 0x46,
            KeySymbol::KeyG => 0x47,
            KeySymbol::KeyH => 0x48,
            KeySymbol::KeyI => 0x49,
            KeySymbol::KeyJ => 0x4A,
            KeySymbol::KeyK => 0x4B,
            KeySymbol::KeyL => 0x4C,
            KeySymbol::KeyM => 0x4D,
            KeySymbol::KeyN => 0x4E,
            KeySymbol::KeyO => 0x4F,
            KeySymbol::KeyP => 0x50,
            KeySymbol::KeyQ => 0x51,
            KeySymbol::KeyR => 0x52,
            KeySymbol::KeyS => 0x53,
            KeySymbol::KeyT => 0x54,
            KeySymbol::KeyU => 0x55,
            KeySymbol::KeyV => 0x56,
            KeySymbol::KeyW => 0x57,
            KeySymbol::KeyX => 0x58,
            KeySymbol::KeyY => 0x59,
            KeySymbol::KeyZ => 0x5A,
            KeySymbol::Num0 => 0x30,
            KeySymbol::Num1 => 0x31,
            KeySymbol::Num2 => 0x32,
            KeySymbol::Num3 => 0x33,
            KeySymbol::Num4 => 0x34,
            KeySymbol::Num5 => 0x35,
            KeySymbol::Num6 => 0x36,
            KeySymbol::Num7 => 0x37,
            KeySymbol::Num8 => 0x38,
            KeySymbol::Num9 => 0x39,
            KeySymbol::Return => 0x0D,
            KeySymbol::Escape => 0x1B,
            KeySymbol::Backspace => 0x08,
            KeySymbol::Tab => 0x09,
            KeySymbol::Space => 0x20,
            KeySymbol::ControlLeft => 0xA2,
            KeySymbol::ControlRight => 0xA3,
            KeySymbol::ShiftLeft => 0xA0,
            KeySymbol::ShiftRight => 0xA1,
            KeySymbol::AltLeft => 0xA4,
            KeySymbol::AltRight => 0xA5,
            KeySymbol::MetaLeft => 0x5B,
            KeySymbol::MetaRight => 0x5C,
            KeySymbol::UpArrow => 0x26,
            KeySymbol::DownArrow => 0x28,
            KeySymbol::LeftArrow => 0x25,
            KeySymbol::RightArrow => 0x27,
            KeySymbol::F1 => 0x70,
            KeySymbol::F2 => 0x71,
            KeySymbol::F3 => 0x72,
            KeySymbol::F4 => 0x73,
            KeySymbol::F5 => 0x74,
            KeySymbol::F6 => 0x75,
            KeySymbol::F7 => 0x76,
            KeySymbol::F8 => 0x77,
            KeySymbol::F9 => 0x78,
            KeySymbol::F10 => 0x79,
            KeySymbol::F11 => 0x7A,
            KeySymbol::F12 => 0x7B,
    }
}

/// The canonical identifier of a symbol, as reported in a key event.
pub open spec fn key_code_of(k: KeySymbol) -> Seq<char> {
    match k {
            KeySymbol::KeyA => "KeyA"@,
            KeySymbol::KeyB => "KeyB"@,
            KeySymbol::KeyC => "KeyC"@,
            KeySymbol::KeyD => "KeyD"@,
            KeySymbol::KeyE => "KeyE"@,
            KeySymbol::KeyF => "KeyF"@,
            KeySymbol::KeyG => "KeyG"@,
            KeySymbol::KeyH => "KeyH"@,
            KeySymbol::KeyI => "KeyI"@,
            KeySymbol::KeyJ => "KeyJ"@,
            KeySymbol::KeyK => "KeyK"@,
            KeySymbol::KeyL => "KeyL"@,
            KeySymbol::KeyM => "KeyM"@,
            KeySymbol::KeyN => "KeyN"@,
            KeySymbol::KeyO => "KeyO"@,
            KeySymbol::KeyP => "KeyP"@,
            KeySymbol::KeyQ => "KeyQ"@,
            KeySymbol::KeyR => "KeyR"@,
            KeySymbol::KeyS => "KeyS"@,
            KeySymbol::KeyT => "KeyT"@,
            KeySymbol::KeyU => "KeyU"@,
            KeySymbol::KeyV => "KeyV"@,
            KeySymbol::KeyW => "KeyW"@,
            KeySymbol::KeyX => "KeyX"@,
            KeySymbol::KeyY => "KeyY"@,
            KeySymbol::KeyZ => "KeyZ"@,
            KeySymbol::Num0 => "Num0"@,
            KeySymbol::Num1 => "Num1"@,
            KeySymbol::Num2 => "Num2"@,
            KeySymbol::Num3 => "Num3"@,
            KeySymbol::Num4 => "Num4"@,
            KeySymbol::Num5 => "Num5"@,
            KeySymbol::Num6 => "Num6"@,
            KeySymbol::Num7 => "Num7"@,
            KeySymbol::Num8 => "Num8"@,
            KeySymbol::Num9 => "Num9"@,
            KeySymbol::Return => "Return"@,
            KeySymbol::Escape => "Escape"@,
            KeySymbol::Backspace => "Backspace"@,
            KeySymbol::Tab => "Tab"@,
            KeySymbol::Space => "Space"@,
            KeySymbol::ControlLeft => "ControlLeft"@,
            KeySymbol::ControlRight => "ControlRight"@,
            KeySymbol::ShiftLeft => "ShiftLeft"@,
            KeySymbol::ShiftRight => "ShiftRight"@,
            KeySymbol::AltLeft => "AltLeft"@,
            KeySymbol::AltRight => "AltRight"@,
            KeySymbol::MetaLeft => "MetaLeft"@,
            KeySymbol::MetaRight => "MetaRight"@,
            KeySymbol::UpArrow => "UpArrow"@,
            KeySymbol::DownArrow => "DownArrow"@,
            KeySymbol::LeftArrow => "LeftArrow"@,
            KeySymbol::RightArrow => "RightArrow"@,
            KeySymbol::F1 => "F1"@,
            KeySymbol::F2 => "F2"@,
            KeySymbol::F3 => "F3"@,
            KeySymbol::F4 => "F4"@,
            KeySymbol::F5 => "F5"@,
            KeySymbol::F6 => "F6"@,
            KeySymbol::F7 => "F7"@,
            KeySymbol::F8 => "F8"@,
            KeySymbol::F9 => "F9"@,
            KeySymbol::F10 => "F10"@,
            KeySymbol::F11 => "F11"@,
            KeySymbol::F12 => "F12"@,
    }
}

/// The human-readable label of a symbol, as reported in a key event.
pub open spec fn label_of(k: KeySymbol) -> Seq<char> {
    match k {
            KeySymbol::KeyA => "a"@,
            KeySymbol::KeyB => "b"@,
            KeySymbol::KeyC => "c"@,
            KeySymbol::KeyD => "d"@,
            KeySymbol::KeyE => "e"@,
            KeySymbol::KeyF => "f"@,
            KeySymbol::KeyG => "g"@,
            KeySymbol::KeyH => "h"@,
            KeySymbol::KeyI => "i"@,
            KeySymbol::KeyJ => "j"@,
            KeySymbol::KeyK => "k"@,
            KeySymbol::KeyL => "l"@,
            KeySymbol::KeyM => "m"@,
            KeySymbol::KeyN => "n"@,
            KeySymbol::KeyO => "o"@,
            KeySymbol::KeyP => "p"@,
            KeySymbol::KeyQ => "q"@,
            KeySymbol::KeyR => "r"@,
            KeySymbol::KeyS => "s"@,
            KeySymbol::KeyT => "t"@,
            KeySymbol::KeyU => "u"@,
            KeySymbol::KeyV => "v"@,
            KeySymbol::KeyW => "w"@,
            KeySymbol::KeyX => "x"@,
            KeySymbol::KeyY => "y"@,
            KeySymbol::KeyZ => "z"@,
            KeySymbol::Num0 => "0"@,
            KeySymbol::Num1 => "1"@,
            KeySymbol::Num2 => "2"@,
            KeySymbol::Num3 => "3"@,
            KeySymbol::Num4 => "4"@,
            KeySymbol::Num5 => "5"@,
            KeySymbol::Num6 => "6"@,
            KeySymbol::Num7 => "7"@,
            KeySymbol::Num8 => "8"@,
            KeySymbol::Num9 => "9"@,
            KeySymbol::Return => "Enter"@,
            KeySymbol::Escape => "Esc"@,
            KeySymbol::Backspace => "Backspace"@,
            KeySymbol::Tab => "Tab"@,
            KeySymbol::Space => " "@,
            KeySymbol::ControlLeft => "Ctrl"@,
            KeySymbol::ControlRight => "RCtrl"@,
            KeySymbol::ShiftLeft => "Shift"@,
            KeySymbol::ShiftRight => "RShift"@,
            KeySymbol::AltLeft => "Alt"@,
            KeySymbol::AltRight => "RAlt"@,
            KeySymbol::MetaLeft => "Win"@,
            KeySymbol::MetaRight => "RWin"@,
            KeySymbol::UpArrow => "Up"@,
            KeySymbol::DownArrow => "Down"@,
            KeySymbol::LeftArrow => "Left"@,
            KeySymbol::RightArrow => "Right"@,
            KeySymbol::F1 => "F1"@,
            KeySymbol::F2 => "F2"@,
            KeySymbol::F3 => "F3"@,
            KeySymbol::F4 => "F4"@,
            KeySymbol::F5 => "F5"@,
            KeySymbol::F6 => "F6"@,
            KeySymbol::F7 => "F7"@,
            KeySymbol::F8 => "F8"@,
            KeySymbol::F9 => "F9"@,
            KeySymbol::F10 => "F10"@,
            KeySymbol::F11 => "F11"@,
            KeySymbol::F12 => "F12"@,
    }
}

/// The key of the cross-platform input library that stands for a symbol.
pub open spec fn generic_of(k: KeySymbol) -> GenericKey {
    match k {
            KeySymbol::KeyA => GenericKey::KeyA,
            KeySymbol::KeyB => GenericKey::KeyB,
            KeySymbol::KeyC => GenericKey::KeyC,
            KeySymbol::KeyD => GenericKey::KeyD,
            KeySymbol::KeyE => GenericKey::KeyE,
            KeySymbol::KeyF => GenericKey::KeyF,
            KeySymbol::KeyG => GenericKey::KeyG,
            KeySymbol::KeyH => GenericKey::KeyH,
            KeySymbol::KeyI => GenericKey::KeyI,
            KeySymbol::KeyJ => GenericKey::KeyJ,
            KeySymbol::KeyK => GenericKey::KeyK,
            KeySymbol::KeyL => GenericKey::KeyL,
            KeySymbol::KeyM => GenericKey::KeyM,
            KeySymbol::KeyN => GenericKey::KeyN,
            KeySymbol::KeyO => GenericKey::KeyO,
            KeySymbol::KeyP => GenericKey::KeyP,
            KeySymbol::KeyQ => GenericKey::KeyQ,
            KeySymbol::KeyR => GenericKey::KeyR,
            KeySymbol::KeyS => GenericKey::KeyS,
            KeySymbol::KeyT => GenericKey::KeyT,
            KeySymbol::KeyU => GenericKey::KeyU,
            KeySymbol::KeyV => GenericKey::KeyV,
            KeySymbol::KeyW => GenericKey::KeyW,
            KeySymbol::KeyX => GenericKey::KeyX,
            KeySymbol::KeyY => GenericKey::KeyY,
            KeySymbol::KeyZ => GenericKey::KeyZ,
            KeySymbol::Num0 => GenericKey::Num0,
            KeySymbol::Num1 => GenericKey::Num1,
            KeySymbol::Num2 => GenericKey::Num2,
            KeySymbol::Num3 => GenericKey::Num3,
            KeySymbol::Num4 => GenericKey::Num4,
            KeySymbol::Num5 => GenericKey::Num5,
            KeySymbol::Num6 => GenericKey::Num6,
            KeySymbol::Num7 => GenericKey::Num7,
            KeySymbol::Num8 => GenericKey::Num8,
            KeySymbol::Num9 => GenericKey::Num9,
            KeySymbol::Return => GenericKey::Return,
            KeySymbol::Escape => GenericKey::Escape,
            KeySymbol::Backspace => GenericKey::Backspace,
            KeySymbol::Tab => GenericKey::Tab,
            KeySymbol::Space => GenericKey::Space,
            KeySymbol::ControlLeft => GenericKey::ControlLeft,
            KeySymbol::ControlRight => GenericKey::ControlRight,
            KeySymbol::ShiftLeft => GenericKey::ShiftLeft,
            KeySymbol::ShiftRight => GenericKey::ShiftRight,
            KeySymbol::AltLeft => GenericKey::Alt,
            KeySymbol::AltRight => GenericKey::AltGr,
            KeySymbol::MetaLeft => GenericKey::MetaLeft,
            KeySymbol::MetaRight => GenericKey::MetaRight,
            KeySymbol::UpArrow => GenericKey::UpArrow,
            KeySymbol::DownArrow => GenericKey::DownArrow,
            KeySymbol::LeftArrow => GenericKey::LeftArrow,
            KeySymbol::RightArrow => GenericKey::RightArrow,
            KeySymbol::F1 => GenericKey::F1,
            KeySymbol::F2 => GenericKey::F2,
            KeySymbol::F3 => GenericKey::F3,
            KeySymbol::F4 => GenericKey::F4,
            KeySymbol::F5 => GenericKey::F5,
            KeySymbol::F6 => GenericKey::F6,
            KeySymbol::F7 => GenericKey::F7,
            KeySymbol::F8 => GenericKey::F8,
            KeySymbol::F9 => GenericKey::F9,
            KeySymbol::F10 => GenericKey::F10,
            KeySymbol::F11 => GenericKey::F11,
            KeySymbol::F12 => GenericKey::F12,
    }
}

/// The symbol that a native code describes, if any.
pub open spec fn symbol_of_native(vk: u32) -> Option<KeySymbol> {
    if exists|k: KeySymbol| native_code_of(k) == vk {
        Some(choose|k: KeySymbol| native_code_of(k) == vk)
    } else {
        None
    }
}

impl KeySymbol {
    /// The canonical identifier of the key.
    pub fn key_code(&self) -> (r: &'static str)
        ensures
            r@ == key_code_of(*self),
    {
        match self {
            KeySymbol::KeyA => "KeyA",
            KeySymbol::KeyB => "KeyB",
            KeySymbol::KeyC => "KeyC",
            KeySymbol::KeyD => "KeyD",
            KeySymbol::KeyE => "KeyE",
            KeySymbol::KeyF => "KeyF",
            KeySymbol::KeyG => "KeyG",
            KeySymbol::KeyH => "KeyH",
            KeySymbol::KeyI => "KeyI",
            KeySymbol::KeyJ => "KeyJ",
            KeySymbol::KeyK => "KeyK",
            KeySymbol::KeyL => "KeyL",
            KeySymbol::KeyM => "KeyM",
            KeySymbol::KeyN => "KeyN",
            KeySymbol::KeyO => "KeyO",
            KeySymbol::KeyP => "KeyP",
            KeySymbol::KeyQ => "KeyQ",
            KeySymbol::KeyR => "KeyR",
            KeySymbol::KeyS => "KeyS",
            KeySymbol::KeyT => "KeyT",
            KeySymbol::KeyU => "KeyU",
            KeySymbol::KeyV => "KeyV",
            KeySymbol::KeyW => "KeyW",
            KeySymbol::KeyX => "KeyX",
            KeySymbol::KeyY => "KeyY",
            KeySymbol::KeyZ => "KeyZ",
            KeySymbol::Num0 => "Num0",
            KeySymbol::Num1 => "Num1",
            KeySymbol::Num2 => "Num2",
            KeySymbol::Num3 => "Num3",
            KeySymbol::Num4 => "Num4",
            KeySymbol::Num5 => "Num5",
            KeySymbol::Num6 => "Num6",
            KeySymbol::Num7 => "Num7",
            KeySymbol::Num8 => "Num8",
            KeySymbol::Num9 => "Num9",
            KeySymbol::Return => "Return",
            KeySymbol::Escape => "Escape",
            KeySymbol::Backspace => "Backspace",
            KeySymbol::Tab => "Tab",
            KeySymbol::Space => "Space",
            KeySymbol::ControlLeft => "ControlLeft",
            KeySymbol::ControlRight => "ControlRight",
            KeySymbol::ShiftLeft => "ShiftLeft",
            KeySymbol::ShiftRight => "ShiftRight",
            KeySymbol::AltLeft => "AltLeft",
            KeySymbol::AltRight => "AltRight",
            KeySymbol::MetaLeft => "MetaLeft",
            KeySymbol::MetaRight => "MetaRight",
            KeySymbol::UpArrow => "UpArrow",
            KeySymbol::DownArrow => "DownArrow",
            KeySymbol::LeftArrow => "LeftArrow",
            KeySymbol::RightArrow => "RightArrow",
            KeySymbol::F1 => "F1",
            KeySymbol::F2 => "F2",
            KeySymbol::F3 => "F3",
            KeySymbol::F4 => "F4",
            KeySymbol::F5 => "F5",
            KeySymbol::F6 => "F6",
            KeySymbol::F7 => "F7",
            KeySymbol::F8 => "F8",
            KeySymbol::F9 => "F9",
            KeySymbol::F10 => "F10",
            KeySymbol::F11 => "F11",
            KeySymbol::F12 => "F12",
        }
    }

    /// The human-readable label of the key.
    pub fn label(&self) -> (r: &'static str)
        ensures
            r@ == label_of(*self),
    {
        match self {
            KeySymbol::KeyA => "a",
            KeySymbol::KeyB => "b",
            KeySymbol::KeyC => "c",
            KeySymbol::KeyD => "d",
            KeySymbol::KeyE => "e",
            KeySymbol::KeyF => "f",
            KeySymbol::KeyG => "g",
            KeySymbol::KeyH => "h",
            KeySymbol::KeyI => "i",
            KeySymbol::KeyJ => "j",
            KeySymbol::KeyK => "k",
            KeySymbol::KeyL => "l",
            KeySymbol::KeyM => "m",
            KeySymbol::KeyN => "n",
            KeySymbol::KeyO => "o",
            KeySymbol::KeyP => "p",
            KeySymbol::KeyQ => "q",
            KeySymbol::KeyR => "r",
            KeySymbol::KeyS => "s",
            KeySymbol::KeyT => "t",
            KeySymbol::KeyU => "u",
            KeySymbol::KeyV => "v",
            KeySymbol::KeyW => "w",
            KeySymbol::KeyX => "x",
            KeySymbol::KeyY => "y",
            KeySymbol::KeyZ => "z",
            KeySymbol::Num0 => "0",
            KeySymbol::Num1 => "1",
            KeySymbol::Num2 => "2",
            KeySymbol::Num3 => "3",
            KeySymbol::Num4 => "4",
            KeySymbol::Num5 => "5",
            KeySymbol::Num6 => "6",
            KeySymbol::Num7 => "7",
            KeySymbol::Num8 => "8",
            KeySymbol::Num9 => "9",
            KeySymbol::Return => "Enter",
            KeySymbol::Escape => "Esc",
            KeySymbol::Backspace => "Backspace",
            KeySymbol::Tab => "Tab",
            KeySymbol::Space => " ",
            KeySymbol::ControlLeft => "Ctrl",
            KeySymbol::ControlRight => "RCtrl",
            KeySymbol::ShiftLeft => "Shift",
            KeySymbol::ShiftRight => "RShift",
            KeySymbol::AltLeft => "Alt",
            KeySymbol::AltRight => "RAlt",
            KeySymbol::MetaLeft => "Win",
            KeySymbol::MetaRight => "RWin",
            KeySymbol::UpArrow => "Up",
            KeySymbol::DownArrow => "Down",
            KeySymbol::LeftArrow => "Left",
            KeySymbol::RightArrow => "Right",
            KeySymbol::F1 => "F1",
            KeySymbol::F2 => "F2",
            KeySymbol::F3 => "F3",
            KeySymbol::F4 => "F4",
            KeySymbol::F5 => "F5",
            KeySymbol::F6 => "F6",
            KeySymbol::F7 => "F7",
            KeySymbol::F8 => "F8",
            KeySymbol::F9 => "F9",
            KeySymbol::F10 => "F10",
            KeySymbol::F11 => "F11",
            KeySymbol::F12 => "F12",
        }
    }

    /// The native virtual-key code of the key.
    pub fn native_code(&self) -> (r: u32)
        ensures
            r == native_code_of(*self),
    {
        match self {
            KeySymbol::KeyA => 0x41,
            KeySymbol::KeyB => 0x42,
            KeySymbol::KeyC => 0x43,
            KeySymbol::KeyD => 0x44,
            KeySymbol::KeyE => 0x45,
            KeySymbol::KeyF => 0x46,
            KeySymbol::KeyG => 0x47,
            KeySymbol::KeyH => 0x48,
            KeySymbol::KeyI => 0x49,
            KeySymbol::KeyJ => 0x4A,
            KeySymbol::KeyK => 0x4B,
            KeySymbol::KeyL => 0x4C,
            KeySymbol::KeyM => 0x4D,
            KeySymbol::KeyN => 0x4E,
            KeySymbol::KeyO => 0x4F,
            KeySymbol::KeyP => 0x50,
            KeySymbol::KeyQ => 0x51,
            KeySymbol::KeyR => 0x52,
            KeySymbol::KeyS => 0x53,
            KeySymbol::KeyT => 0x54,
            KeySymbol::KeyU => 0x55,
            KeySymbol::KeyV => 0x56,
            KeySymbol::KeyW => 0x57,
            KeySymbol::KeyX => 0x58,
            KeySymbol::KeyY => 0x59,
            KeySymbol::KeyZ => 0x5A,
            KeySymbol::Num0 => 0x30,
            KeySymbol::Num1 => 0x31,
            KeySymbol::Num2 => 0x32,
            KeySymbol::Num3 => 0x33,
            KeySymbol::Num4 => 0x34,
            KeySymbol::Num5 => 0x35,
            KeySymbol::Num6 => 0x36,
            KeySymbol::Num7 => 0x37,
            KeySymbol::Num8 => 0x38,
            KeySymbol::Num9 => 0x39,
            KeySymbol::Return => 0x0D,
            KeySymbol::Escape => 0x1B,
            KeySymbol::Backspace => 0x08,
            KeySymbol::Tab => 0x09,
            KeySymbol::Space => 0x20,
            KeySymbol::ControlLeft => 0xA2,
            KeySymbol::ControlRight => 0xA3,
            KeySymbol::ShiftLeft => 0xA0,
            KeySymbol::ShiftRight => 0xA1,
            KeySymbol::AltLeft => 0xA4,
            KeySymbol::AltRight => 0xA5,
            KeySymbol::MetaLeft => 0x5B,
            KeySymbol::MetaRight => 0x5C,
            KeySymbol::UpArrow => 0x26,
            KeySymbol::DownArrow => 0x28,
            KeySymbol::LeftArrow => 0x25,
            KeySymbol::RightArrow => 0x27,
            KeySymbol::F1 => 0x70,
            KeySymbol::F2 => 0x71,
            KeySymbol::F3 => 0x72,
            KeySymbol::F4 => 0x73,
            KeySymbol::F5 => 0x74,
            KeySymbol::F6 => 0x75,
            KeySymbol::F7 => 0x76,
            KeySymbol::F8 => 0x77,
            KeySymbol::F9 => 0x78,
            KeySymbol::F10 => 0x79,
            KeySymbol::F11 => 0x7A,
            KeySymbol::F12 => 0x7B,
        }
    }

    /// The key of the cross-platform input library to inject for this key.
    pub fn generic_key(&self) -> (r: GenericKey)
        ensures
            r == generic_of(*self),
    {
        match self {
            KeySymbol::KeyA => GenericKey::KeyA,
            KeySymbol::KeyB => GenericKey::KeyB,
            KeySymbol::KeyC => GenericKey::KeyC,
            KeySymbol::KeyD => GenericKey::KeyD,
            KeySymbol::KeyE => GenericKey::KeyE,
            KeySymbol::KeyF => GenericKey::KeyF,
            KeySymbol::KeyG => GenericKey::KeyG,
            KeySymbol::KeyH => GenericKey::KeyH,
            KeySymbol::KeyI => GenericKey::KeyI,
            KeySymbol::KeyJ => GenericKey::KeyJ,
            KeySymbol::KeyK => GenericKey::KeyK,
            KeySymbol::KeyL => GenericKey::KeyL,
            KeySymbol::KeyM => GenericKey::KeyM,
            KeySymbol::KeyN => GenericKey::KeyN,
            KeySymbol::KeyO => GenericKey::KeyO,
            KeySymbol::KeyP => GenericKey::KeyP,
            KeySymbol::KeyQ => GenericKey::KeyQ,
            KeySymbol::KeyR => GenericKey::KeyR,
            KeySymbol::KeyS => GenericKey::KeyS,
            KeySymbol::KeyT => GenericKey::KeyT,
            KeySymbol::KeyU => GenericKey::KeyU,
            KeySymbol::KeyV => GenericKey::KeyV,
            KeySymbol::KeyW => GenericKey::KeyW,
            KeySymbol::KeyX => GenericKey::KeyX,
            KeySymbol::KeyY => GenericKey::KeyY,
            KeySymbol::KeyZ => GenericKey::KeyZ,
            KeySymbol::Num0 => GenericKey::Num0,
            KeySymbol::Num1 => GenericKey::Num1,
            KeySymbol::Num2 => GenericKey::Num2,
            KeySymbol::Num3 => GenericKey::Num3,
            KeySymbol::Num4 => GenericKey::Num4,
            KeySymbol::Num5 => GenericKey::Num5,
            KeySymbol::Num6 => GenericKey::Num6,
            KeySymbol::Num7 => GenericKey::Num7,
            KeySymbol::Num8 => GenericKey::Num8,
            KeySymbol::Num9 => GenericKey::Num9,
            KeySymbol::Return => GenericKey::Return,
            KeySymbol::Escape => GenericKey::Escape,
            KeySymbol::Backspace => GenericKey::Backspace,
            KeySymbol::Tab => GenericKey::Tab,
            KeySymbol::Space => GenericKey::Space,
            KeySymbol::ControlLeft => GenericKey::ControlLeft,
            KeySymbol::ControlRight => GenericKey::ControlRight,
            KeySymbol::ShiftLeft => GenericKey::ShiftLeft,
            KeySymbol::ShiftRight => GenericKey::ShiftRight,
            KeySymbol::AltLeft => GenericKey::Alt,
            KeySymbol::AltRight => GenericKey::AltGr,
            KeySymbol::MetaLeft => GenericKey::MetaLeft,
            KeySymbol::MetaRight => GenericKey::MetaRight,
            KeySymbol::UpArrow => GenericKey::UpArrow,
            KeySymbol::DownArrow => GenericKey::DownArrow,
            KeySymbol::LeftArrow => GenericKey::LeftArrow,
            KeySymbol::RightArrow => GenericKey::RightArrow,
            KeySymbol::F1 => GenericKey::F1,
            KeySymbol::F2 => GenericKey::F2,
            KeySymbol::F3 => GenericKey::F3,
            KeySymbol::F4 => GenericKey::F4,
            KeySymbol::F5 => GenericKey::F5,
            KeySymbol::F6 => GenericKey::F6,
            KeySymbol::F7 => GenericKey::F7,
            KeySymbol::F8 => GenericKey::F8,
            KeySymbol::F9 => GenericKey::F9,
            KeySymbol::F10 => GenericKey::F10,
            KeySymbol::F11 => GenericKey::F11,
            KeySymbol::F12 => GenericKey::F12,
        }
    }
}

/// No two symbols share a native code.
pub proof fn lemma_native_code_injective(k1: KeySymbol, k2: KeySymbol)
    ensures
        native_code_of(k1) == native_code_of(k2) ==> k1 == k2,
{
}

/// The symbol whose native code is `vk`, or `None` where no symbol has it.
pub fn symbol_for_native(vk: u32) -> (r: Option<KeySymbol>)
    ensures
        r == symbol_of_native(vk),
{
    let r = match vk {
        0x41 => Some(KeySymbol::KeyA),
        0x42 => Some(KeySymbol::KeyB),
        0x43 => Some(KeySymbol::KeyC),
        0x44 => Some(KeySymbol::KeyD),
        0x45 => Some(KeySymbol::KeyE),
        0x46 => Some(KeySymbol::KeyF),
        0x47 => Some(KeySymbol::KeyG),
        0x48 => Some(KeySymbol::KeyH),
        0x49 => Some(KeySymbol::KeyI),
        0x4A => Some(KeySymbol::KeyJ),
        0x4B => Some(KeySymbol::KeyK),
        0x4C => Some(KeySymbol::KeyL),
        0x4D => Some(KeySymbol::KeyM),
        0x4E => Some(KeySymbol::KeyN),
        0x4F => Some(KeySymbol::KeyO),
        0x50 => Some(KeySymbol::KeyP),
        0x51 => Some(KeySymbol::KeyQ),
        0x52 => Some(KeySymbol::KeyR),
        0x53 => Some(KeySymbol::KeyS),
        0x54 => Some(KeySymbol::KeyT),
        0x55 => Some(KeySymbol::KeyU),
        0x56 => Some(KeySymbol::KeyV),
        0x57 => Some(KeySymbol::KeyW),
        0x58 => Some(KeySymbol::KeyX),
        0x59 => Some(KeySymbol::KeyY),
        0x5A => Some(KeySymbol::KeyZ),
        0x30 => Some(KeySymbol::Num0),
        0x31 => Some(KeySymbol::Num1),
        0x32 => Some(KeySymbol::Num2),
        0x33 => Some(KeySymbol::Num3),
        0x34 => Some(KeySymbol::Num4),
        0x35 => Some(KeySymbol::Num5),
        0x36 => Some(KeySymbol::Num6),
        0x37 => Some(KeySymbol::Num7),
        0x38 => Some(KeySymbol::Num8),
        0x39 => Some(KeySymbol::Num9),
        0x0D => Some(KeySymbol::Return),
        0x1B => Some(KeySymbol::Escape),
        0x08 => Some(KeySymbol::Backspace),
        0x09 => Some(KeySymbol::Tab),
        0x20 => Some(KeySymbol::Space),
        0xA2 => Some(KeySymbol::ControlLeft),
        0xA3 => Some(KeySymbol::ControlRight),
        0xA0 => Some(KeySymbol::ShiftLeft),
        0xA1 => Some(KeySymbol::ShiftRight),
        0xA4 => Some(KeySymbol::AltLeft),
        0xA5 => Some(KeySymbol::AltRight),
        0x5B => Some(KeySymbol::MetaLeft),
        0x5C => Some(KeySymbol::MetaRight),
        0x26 => Some(KeySymbol::UpArrow),
        0x28 => Some(KeySymbol::DownArrow),
        0x25 => Some(KeySymbol::LeftArrow),
        0x27 => Some(KeySymbol::RightArrow),
        0x70 => Some(KeySymbol::F1),
        0x71 => Some(KeySymbol::F2),
        0x72 => Some(KeySymbol::F3),
        0x73 => Some(KeySymbol::F4),
        0x74 => Some(KeySymbol::F5),
        0x75 => Some(KeySymbol::F6),
        0x76 => Some(KeySymbol::F7),
        0x77 => Some(KeySymbol::F8),
        0x78 => Some(KeySymbol::F9),
        0x79 => Some(KeySymbol::F10),
        0x7A => Some(KeySymbol::F11),
        0x7B => Some(KeySymbol::F12),
        _ => None,
    };
    proof {
        match r {
            Some(k) => {
                assert(native_code_of(k) == vk);
                let c = choose|c: KeySymbol| native_code_of(c) == vk;
                lemma_native_code_injective(k, c);
            },
            None => {
                assert(forall|k: KeySymbol| native_code_of(k) != vk);
            },
        }
    }
    r
}

/// The canonical identifier and label of the key with native code `vk`, or
/// `None` where the code lies outside the table.
pub fn virtual_key_to_info(vk: u32) -> (r: Option<(&'static str, &'static str)>)
    ensures
        r is None <==> symbol_of_native(vk) is None,
        forall|k: KeySymbol|
            symbol_of_native(vk) == Some(k) ==> (r matches Some(p) && p.0@ == key_code_of(k)
                && p.1@ == label_of(k)),
{
    match symbol_for_native(vk) {
        Some(k) => Some((k.key_code(), k.label())),
        None => None,
    }
}

} // verus!
