use crate::keys::{
    key_code_of, lemma_native_code_injective, native_code_of, symbol_of_native, KeySymbol,
};
use vstd::prelude::*;
use vstd::string::*;

verus! {

/// The names under which a symbol is accepted for injection. The first is
/// the symbol's canonical identifier; the others are aliases (a letter in
/// either case, a digit, `"Enter"` for `"Return"`, `"Ctrl"` for
/// `"ControlLeft"`).
pub open spec fn names_of(k: KeySymbol) -> Seq<Seq<char>> {
    match k {
        KeySymbol::KeyA => seq!["KeyA"@, "a"@, "A"@],
        KeySymbol::KeyB => seq!["KeyB"@, "b"@, "B"@],
        KeySymbol::KeyC => seq!["KeyC"@, "c"@, "C"@],
        KeySymbol::KeyD => seq!["KeyD"@, "d"@, "D"@],
        KeySymbol::KeyE => seq!["KeyE"@, "e"@, "E"@],
        KeySymbol::KeyF => seq!["KeyF"@, "f"@, "F"@],
        KeySymbol::KeyG => seq!["KeyG"@, "g"@, "G"@],
        KeySymbol::KeyH => seq!["KeyH"@, "h"@, "H"@],
        KeySymbol::KeyI => seq!["KeyI"@, "i"@, "I"@],
        KeySymbol::KeyJ => seq!["KeyJ"@, "j"@, "J"@],
        KeySymbol::KeyK => seq!["KeyK"@, "k"@, "K"@],
        KeySymbol::KeyL => seq!["KeyL"@, "l"@, "L"@],
        KeySymbol::KeyM => seq!["KeyM"@, "m"@, "M"@],
        KeySymbol::KeyN => seq!["KeyN"@, "n"@, "N"@],
        KeySymbol::KeyO => seq!["KeyO"@, "o"@, "O"@],
        KeySymbol::KeyP => seq!["KeyP"@, "p"@, "P"@],
        KeySymbol::KeyQ => seq!["KeyQ"@, "q"@, "Q"@],
        KeySymbol::KeyR => seq!["KeyR"@, "r"@, "R"@],
        KeySymbol::KeyS => seq!["KeyS"@, "s"@, "S"@],
        KeySymbol::KeyT => seq!["KeyT"@, "t"@, "T"@],
        KeySymbol::KeyU => seq!["KeyU"@, "u"@, "U"@],
        KeySymbol::KeyV => seq!["KeyV"@, "v"@, "V"@],
        KeySymbol::KeyW => seq!["KeyW"@, "w"@, "W"@],
        KeySymbol::KeyX => seq!["KeyX"@, "x"@, "X"@],
        KeySymbol::KeyY => seq!["KeyY"@, "y"@, "Y"@],
        KeySymbol::KeyZ => seq!["KeyZ"@, "z"@, "Z"@],
        KeySymbol::Num0 => seq!["Num0"@, "0"@],
        KeySymbol::Num1 => seq!["Num1"@, "1"@],
        KeySymbol::Num2 => seq!["Num2"@, "2"@],
        KeySymbol::Num3 => seq!["Num3"@, "3"@],
        KeySymbol::Num4 => seq!["Num4"@, "4"@],
        KeySymbol::Num5 => seq!["Num5"@, "5"@],
        KeySymbol::Num6 => seq!["Num6"@, "6"@],
        KeySymbol::Num7 => seq!["Num7"@, "7"@],
        KeySymbol::Num8 => seq!["Num8"@, "8"@],
        KeySymbol::Num9 => seq!["Num9"@, "9"@],
        KeySymbol::Return => seq!["Return"@, "Enter"@],
        KeySymbol::Escape => seq!["Escape"@, "Esc"@],
        KeySymbol::Backspace => seq!["Backspace"@],
        KeySymbol::Tab => seq!["Tab"@],
        KeySymbol::Space => seq!["Space"@],
        KeySymbol::ControlLeft => seq!["ControlLeft"@, "Ctrl"@],
        KeySymbol::ControlRight => seq!["ControlRight"@],
        KeySymbol::ShiftLeft => seq!["ShiftLeft"@, "Shift"@],
        KeySymbol::ShiftRight => seq!["ShiftRight"@],
        KeySymbol::AltLeft => seq!["AltLeft"@, "Alt"@],
        KeySymbol::AltRight => seq!["AltRight"@],
        KeySymbol::MetaLeft => seq!["MetaLeft"@, "Meta"@, "Super"@],
        KeySymbol::MetaRight => seq!["MetaRight"@],
        KeySymbol::UpArrow => seq!["UpArrow"@, "Up"@],
        KeySymbol::DownArrow => seq!["DownArrow"@, "Down"@],
        KeySymbol::LeftArrow => seq!["LeftArrow"@, "Left"@],
        KeySymbol::RightArrow => seq!["RightArrow"@, "Right"@],
        KeySymbol::F1 => seq!["F1"@],
        KeySymbol::F2 => seq!["F2"@],
        KeySymbol::F3 => seq!["F3"@],
        KeySymbol::F4 => seq!["F4"@],
        KeySymbol::F5 => seq!["F5"@],
        KeySymbol::F6 => seq!["F6"@],
        KeySymbol::F7 => seq!["F7"@],
        KeySymbol::F8 => seq!["F8"@],
        KeySymbol::F9 => seq!["F9"@],
        KeySymbol::F10 => seq!["F10"@],
        KeySymbol::F11 => seq!["F11"@],
        KeySymbol::F12 => seq!["F12"@],
    }
}

/// The symbol that a name given for injection stands for. Names are matched
/// exactly, case included; any string that is no name of a symbol stands for
/// no symbol.
pub open spec fn resolve_name(s: Seq<char>) -> Option<KeySymbol> {
    if s == "a"@ || s == "A"@ || s == "KeyA"@ {
        Some(KeySymbol::KeyA)
    } else if s == "b"@ || s == "B"@ || s == "KeyB"@ {
        Some(KeySymbol::KeyB)
    } else if s == "c"@ || s == "C"@ || s == "KeyC"@ {
        Some(KeySymbol::KeyC)
    } else if s == "d"@ || s == "D"@ || s == "KeyD"@ {
        Some(KeySymbol::KeyD)
    } else if s == "e"@ || s == "E"@ || s == "KeyE"@ {
        Some(KeySymbol::KeyE)
    } else if s == "f"@ || s == "F"@ || s == "KeyF"@ {
        Some(KeySymbol::KeyF)
    } else if s == "g"@ || s == "G"@ || s == "KeyG"@ {
        Some(KeySymbol::KeyG)
    } else if s == "h"@ || s == "H"@ || s == "KeyH"@ {
        Some(KeySymbol::KeyH)
    } else if s == "i"@ || s == "I"@ || s == "KeyI"@ {
        Some(KeySymbol::KeyI)
    } else if s == "j"@ || s == "J"@ || s == "KeyJ"@ {
        Some(KeySymbol::KeyJ)
    } else if s == "k"@ || s == "K"@ || s == "KeyK"@ {
        Some(KeySymbol::KeyK)
    } else if s == "l"@ || s == "L"@ || s == "KeyL"@ {
        Some(KeySymbol::KeyL)
    } else if s == "m"@ || s == "M"@ || s == "KeyM"@ {
        Some(KeySymbol::KeyM)
    } else if s == "n"@ || s == "N"@ || s == "KeyN"@ {
        Some(KeySymbol::KeyN)
    } else if s == "o"@ || s == "O"@ || s == "KeyO"@ {
        Some(KeySymbol::KeyO)
    } else if s == "p"@ || s == "P"@ || s == "KeyP"@ {
        Some(KeySymbol::KeyP)
    } else if s == "q"@ || s == "Q"@ || s == "KeyQ"@ {
        Some(KeySymbol::KeyQ)
    } else if s == "r"@ || s == "R"@ || s == "KeyR"@ {
        Some(KeySymbol::KeyR)
    } else if s == "s"@ || s == "S"@ || s == "KeyS"@ {
        Some(KeySymbol::KeyS)
    } else if s == "t"@ || s == "T"@ || s == "KeyT"@ {
        Some(KeySymbol::KeyT)
    } else if s == "u"@ || s == "U"@ || s == "KeyU"@ {
        Some(KeySymbol::KeyU)
    } else if s == "v"@ || s == "V"@ || s == "KeyV"@ {
        Some(KeySymbol::KeyV)
    } else if s == "w"@ || s == "W"@ || s == "KeyW"@ {
        Some(KeySymbol::KeyW)
    } else if s == "x"@ || s == "X"@ || s == "KeyX"@ {
        Some(KeySymbol::KeyX)
    } else if s == "y"@ || s == "Y"@ || s == "KeyY"@ {
        Some(KeySymbol::KeyY)
    } else if s == "z"@ || s == "Z"@ || s == "KeyZ"@ {
        Some(KeySymbol::KeyZ)
    } else if s == "0"@ || s == "Num0"@ {
        Some(KeySymbol::Num0)
    } else if s == "1"@ || s == "Num1"@ {
        Some(KeySymbol::Num1)
    } else if s == "2"@ || s == "Num2"@ {
        Some(KeySymbol::Num2)
    } else if s == "3"@ || s == "Num3"@ {
        Some(KeySymbol::Num3)
    } else if s == "4"@ || s == "Num4"@ {
        Some(KeySymbol::Num4)
    } else if s == "5"@ || s == "Num5"@ {
        Some(KeySymbol::Num5)
    } else if s == "6"@ || s == "Num6"@ {
        Some(KeySymbol::Num6)
    } else if s == "7"@ || s == "Num7"@ {
        Some(KeySymbol::Num7)
    } else if s == "8"@ || s == "Num8"@ {
        Some(KeySymbol::Num8)
    } else if s == "9"@ || s == "Num9"@ {
        Some(KeySymbol::Num9)
    } else if s == "Return"@ || s == "Enter"@ {
        Some(KeySymbol::Return)
    } else if s == "Escape"@ || s == "Esc"@ {
        Some(KeySymbol::Escape)
    } else if s == "Backspace"@ {
        Some(KeySymbol::Backspace)
    } else if s == "Tab"@ {
        Some(KeySymbol::Tab)
    } else if s == "Space"@ {
        Some(KeySymbol::Space)
    } else if s == "ControlLeft"@ || s == "Ctrl"@ {
        Some(KeySymbol::ControlLeft)
    } else if s == "ControlRight"@ {
        Some(KeySymbol::ControlRight)
    } else if s == "ShiftLeft"@ || s == "Shift"@ {
        Some(KeySymbol::ShiftLeft)
    } else if s == "ShiftRight"@ {
        Some(KeySymbol::ShiftRight)
    } else if s == "AltLeft"@ || s == "Alt"@ {
        Some(KeySymbol::AltLeft)
    } else if s == "AltRight"@ {
        Some(KeySymbol::AltRight)
    } else if s == "MetaLeft"@ || s == "Meta"@ || s == "Super"@ {
        Some(KeySymbol::MetaLeft)
    } else if s == "MetaRight"@ {
        Some(KeySymbol::MetaRight)
    } else if s == "UpArrow"@ || s == "Up"@ {
        Some(KeySymbol::UpArrow)
    } else if s == "DownArrow"@ || s == "Down"@ {
        Some(KeySymbol::DownArrow)
    } else if s == "LeftArrow"@ || s == "Left"@ {
        Some(KeySymbol::LeftArrow)
    } else if s == "RightArrow"@ || s == "Right"@ {
        Some(KeySymbol::RightArrow)
    } else if s == "F1"@ {
        Some(KeySymbol::F1)
    } else if s == "F2"@ {
        Some(KeySymbol::F2)
    } else if s == "F3"@ {
        Some(KeySymbol::F3)
    } else if s == "F4"@ {
        Some(KeySymbol::F4)
    } else if s == "F5"@ {
        Some(KeySymbol::F5)
    } else if s == "F6"@ {
        Some(KeySymbol::F6)
    } else if s == "F7"@ {
        Some(KeySymbol::F7)
    } else if s == "F8"@ {
        Some(KeySymbol::F8)
    } else if s == "F9"@ {
        Some(KeySymbol::F9)
    } else if s == "F10"@ {
        Some(KeySymbol::F10)
    } else if s == "F11"@ {
        Some(KeySymbol::F11)
    } else if s == "F12"@ {
        Some(KeySymbol::F12)
    } else {
        None
    }
}

/// Whether two strings hold the same characters.
pub fn str_eq(a: &str, b: &str) -> (r: bool)
    ensures
        r == (a@ == b@),
{
    let n = a.unicode_len();
    if n != b.unicode_len() {
        return false;
    }
    let mut i: usize = 0;
    while i < n
        invariant
            n == a@.len(),
            n == b@.len(),
            i <= n,
            forall|j: int| 0 <= j < i ==> a@[j] == b@[j],
        decreases n - i,
    {
        if a.get_char(i) != b.get_char(i) {
            return false;
        }
        i = i + 1;
    }
    assert(a@ =~= b@);
    true
}

/// Resolves a key name for injection; `None` where the name is unknown.
pub fn parse_key(key_str: &str) -> (r: Option<KeySymbol>)
    ensures
        r == resolve_name(key_str@),
{
    if str_eq(key_str, "a") || str_eq(key_str, "A") || str_eq(key_str, "KeyA") {
        Some(KeySymbol::KeyA)
    } else if str_eq(key_str, "b") || str_eq(key_str, "B") || str_eq(key_str, "KeyB") {
        Some(KeySymbol::KeyB)
    } else if str_eq(key_str, "c") || str_eq(key_str, "C") || str_eq(key_str, "KeyC") {
        Some(KeySymbol::KeyC)
    } else if str_eq(key_str, "d") || str_eq(key_str, "D") || str_eq(key_str, "KeyD") {
        Some(KeySymbol::KeyD)
    } else if str_eq(key_str, "e") || str_eq(key_str, "E") || str_eq(key_str, "KeyE") {
        Some(KeySymbol::KeyE)
    } else if str_eq(key_str, "f") || str_eq(key_str, "F") || str_eq(key_str, "KeyF") {
        Some(KeySymbol::KeyF)
    } else if str_eq(key_str, "g") || str_eq(key_str, "G") || str_eq(key_str, "KeyG") {
        Some(KeySymbol::KeyG)
    } else if str_eq(key_str, "h") || str_eq(key_str, "H") || str_eq(key_str, "KeyH") {
        Some(KeySymbol::KeyH)
    } else if str_eq(key_str, "i") || str_eq(key_str, "I") || str_eq(key_str, "KeyI") {
        Some(KeySymbol::KeyI)
    } else if str_eq(key_str, "j") || str_eq(key_str, "J") || str_eq(key_str, "KeyJ") {
        Some(KeySymbol::KeyJ)
    } else if str_eq(key_str, "k") || str_eq(key_str, "K") || str_eq(key_str, "KeyK") {
        Some(KeySymbol::KeyK)
    } else if str_eq(key_str, "l") || str_eq(key_str, "L") || str_eq(key_str, "KeyL") {
        Some(KeySymbol::KeyL)
    } else if str_eq(key_str, "m") || str_eq(key_str, "M") || str_eq(key_str, "KeyM") {
        Some(KeySymbol::KeyM)
    } else if str_eq(key_str, "n") || str_eq(key_str, "N") || str_eq(key_str, "KeyN") {
        Some(KeySymbol::KeyN)
    } else if str_eq(key_str, "o") || str_eq(key_str, "O") || str_eq(key_str, "KeyO") {
        Some(KeySymbol::KeyO)
    } else if str_eq(key_str, "p") || str_eq(key_str, "P") || str_eq(key_str, "KeyP") {
        Some(KeySymbol::KeyP)
    } else if str_eq(key_str, "q") || str_eq(key_str, "Q") || str_eq(key_str, "KeyQ") {
        Some(KeySymbol::KeyQ)
    } else if str_eq(key_str, "r") || str_eq(key_str, "R") || str_eq(key_str, "KeyR") {
        Some(KeySymbol::KeyR)
    } else if str_eq(key_str, "s") || str_eq(key_str, "S") || str_eq(key_str, "KeyS") {
        Some(KeySymbol::KeyS)
    } else if str_eq(key_str, "t") || str_eq(key_str, "T") || str_eq(key_str, "KeyT") {
        Some(KeySymbol::KeyT)
    } else if str_eq(key_str, "u") || str_eq(key_str, "U") || str_eq(key_str, "KeyU") {
        Some(KeySymbol::KeyU)
    } else if str_eq(key_str, "v") || str_eq(key_str, "V") || str_eq(key_str, "KeyV") {
        Some(KeySymbol::KeyV)
    } else if str_eq(key_str, "w") || str_eq(key_str, "W") || str_eq(key_str, "KeyW") {
        Some(KeySymbol::KeyW)
    } else if str_eq(key_str, "x") || str_eq(key_str, "X") || str_eq(key_str, "KeyX") {
        Some(KeySymbol::KeyX)
    } else if str_eq(key_str, "y") || str_eq(key_str, "Y") || str_eq(key_str, "KeyY") {
        Some(KeySymbol::KeyY)
    } else if str_eq(key_str, "z") || str_eq(key_str, "Z") || str_eq(key_str, "KeyZ") {
        Some(KeySymbol::KeyZ)
    } else if str_eq(key_str, "0") || str_eq(key_str, "Num0") {
        Some(KeySymbol::Num0)
    } else if str_eq(key_str, "1") || str_eq(key_str, "Num1") {
        Some(KeySymbol::Num1)
    } else if str_eq(key_str, "2") || str_eq(key_str, "Num2") {
        Some(KeySymbol::Num2)
    } else if str_eq(key_str, "3") || str_eq(key_str, "Num3") {
        Some(KeySymbol::Num3)
    } else if str_eq(key_str, "4") || str_eq(key_str, "Num4") {
        Some(KeySymbol::Num4)
    } else if str_eq(key_str, "5") || str_eq(key_str, "Num5") {
        Some(KeySymbol::Num5)
    } else if str_eq(key_str, "6") || str_eq(key_str, "Num6") {
        Some(KeySymbol::Num6)
    } else if str_eq(key_str, "7") || str_eq(key_str, "Num7") {
        Some(KeySymbol::Num7)
    } else if str_eq(key_str, "8") || str_eq(key_str, "Num8") {
        Some(KeySymbol::Num8)
    } else if str_eq(key_str, "9") || str_eq(key_str, "Num9") {
        Some(KeySymbol::Num9)
    } else if str_eq(key_str, "Return") || str_eq(key_str, "Enter") {
        Some(KeySymbol::Return)
    } else if str_eq(key_str, "Escape") || str_eq(key_str, "Esc") {
        Some(KeySymbol::Escape)
    } else if str_eq(key_str, "Backspace") {
        Some(KeySymbol::Backspace)
    } else if str_eq(key_str, "Tab") {
        Some(KeySymbol::Tab)
    } else if str_eq(key_str, "Space") {
        Some(KeySymbol::Space)
    } else if str_eq(key_str, "ControlLeft") || str_eq(key_str, "Ctrl") {
        Some(KeySymbol::ControlLeft)
    } else if str_eq(key_str, "ControlRight") {
        Some(KeySymbol::ControlRight)
    } else if str_eq(key_str, "ShiftLeft") || str_eq(key_str, "Shift") {
        Some(KeySymbol::ShiftLeft)
    } else if str_eq(key_str, "ShiftRight") {
        Some(KeySymbol::ShiftRight)
    } else if str_eq(key_str, "AltLeft") || str_eq(key_str, "Alt") {
        Some(KeySymbol::AltLeft)
    } else if str_eq(key_str, "AltRight") {
        Some(KeySymbol::AltRight)
    } else if str_eq(key_str, "MetaLeft") || str_eq(key_str, "Meta") || str_eq(key_str, "Super") {
        Some(KeySymbol::MetaLeft)
    } else if str_eq(key_str, "MetaRight") {
        Some(KeySymbol::MetaRight)
    } else if str_eq(key_str, "UpArrow") || str_eq(key_str, "Up") {
        Some(KeySymbol::UpArrow)
    } else if str_eq(key_str, "DownArrow") || str_eq(key_str, "Down") {
        Some(KeySymbol::DownArrow)
    } else if str_eq(key_str, "LeftArrow") || str_eq(key_str, "Left") {
        Some(KeySymbol::LeftArrow)
    } else if str_eq(key_str, "RightArrow") || str_eq(key_str, "Right") {
        Some(KeySymbol::RightArrow)
    } else if str_eq(key_str, "F1") {
        Some(KeySymbol::F1)
    } else if str_eq(key_str, "F2") {
        Some(KeySymbol::F2)
    } else if str_eq(key_str, "F3") {
        Some(KeySymbol::F3)
    } else if str_eq(key_str, "F4") {
        Some(KeySymbol::F4)
    } else if str_eq(key_str, "F5") {
        Some(KeySymbol::F5)
    } else if str_eq(key_str, "F6") {
        Some(KeySymbol::F6)
    } else if str_eq(key_str, "F7") {
        Some(KeySymbol::F7)
    } else if str_eq(key_str, "F8") {
        Some(KeySymbol::F8)
    } else if str_eq(key_str, "F9") {
        Some(KeySymbol::F9)
    } else if str_eq(key_str, "F10") {
        Some(KeySymbol::F10)
    } else if str_eq(key_str, "F11") {
        Some(KeySymbol::F11)
    } else if str_eq(key_str, "F12") {
        Some(KeySymbol::F12)
    } else {
        None
    }
}

/// Every name of every symbol resolves to that symbol.
pub proof fn lemma_names_resolve(k: KeySymbol)
    ensures
        forall|i: int| 0 <= i < names_of(k).len() ==> resolve_name(#[trigger] names_of(k)[i]) == Some(k),
{
    broadcast use vstd::string::group_string_axioms;

    // Each name, with its length and the characters at which it differs
    // from the other names of its length, so that every earlier name in
    // `resolve_name` is seen to differ from the one resolved.
    reveal_strlit("a");
    reveal_strlit("A");
    reveal_strlit("KeyA");
    reveal_strlit("b");
    reveal_strlit("B");
    reveal_strlit("KeyB");
    reveal_strlit("c");
    reveal_strlit("C");
    reveal_strlit("KeyC");
    reveal_strlit("d");
    reveal_strlit("D");
    reveal_strlit("KeyD");
    reveal_strlit("e");
    reveal_strlit("E");
    reveal_strlit("KeyE");
    reveal_strlit("f");
    reveal_strlit("F");
    reveal_strlit("KeyF");
    reveal_strlit("g");
    reveal_strlit("G");
    reveal_strlit("KeyG");
    reveal_strlit("h");
    reveal_strlit("H");
    reveal_strlit("KeyH");
    reveal_strlit("i");
    reveal_strlit("I");
    reveal_strlit("KeyI");
    reveal_strlit("j");
    reveal_strlit("J");
    reveal_strlit("KeyJ");
    reveal_strlit("k");
    reveal_strlit("K");
    reveal_strlit("KeyK");
    reveal_strlit("l");
    reveal_strlit("L");
    reveal_strlit("KeyL");
    reveal_strlit("m");
    reveal_strlit("M");
    reveal_strlit("KeyM");
    reveal_strlit("n");
    reveal_strlit("N");
    reveal_strlit("KeyN");
    reveal_strlit("o");
    reveal_strlit("O");
    reveal_strlit("KeyO");
    reveal_strlit("p");
    reveal_strlit("P");
    reveal_strlit("KeyP");
    reveal_strlit("q");
    reveal_strlit("Q");
    reveal_strlit("KeyQ");
    reveal_strlit("r");
    reveal_strlit("R");
    reveal_strlit("KeyR");
    reveal_strlit("s");
    reveal_strlit("S");
    reveal_strlit("KeyS");
    reveal_strlit("t");
    reveal_strlit("T");
    reveal_strlit("KeyT");
    reveal_strlit("u");
    reveal_strlit("U");
    reveal_strlit("KeyU");
    reveal_strlit("v");
    reveal_strlit("V");
    reveal_strlit("KeyV");
    reveal_strlit("w");
    reveal_strlit("W");
    reveal_strlit("KeyW");
    reveal_strlit("x");
    reveal_strlit("X");
    reveal_strlit("KeyX");
    reveal_strlit("y");
    reveal_strlit("Y");
    reveal_strlit("KeyY");
    reveal_strlit("z");
    reveal_strlit("Z");
    reveal_strlit("KeyZ");
    reveal_strlit("0");
    reveal_strlit("Num0");
    reveal_strlit("1");
    reveal_strlit("Num1");
    reveal_strlit("2");
    reveal_strlit("Num2");
    reveal_strlit("3");
    reveal_strlit("Num3");
    reveal_strlit("4");
    reveal_strlit("Num4");
    reveal_strlit("5");
    reveal_strlit("Num5");
    reveal_strlit("6");
    reveal_strlit("Num6");
    reveal_strlit("7");
    reveal_strlit("Num7");
    reveal_strlit("8");
    reveal_strlit("Num8");
    reveal_strlit("9");
    reveal_strlit("Num9");
    reveal_strlit("Return");
    reveal_strlit("Enter");
    reveal_strlit("Escape");
    reveal_strlit("Esc");
    reveal_strlit("Backspace");
    reveal_strlit("Tab");
    reveal_strlit("Space");
    reveal_strlit("ControlLeft");
    reveal_strlit("Ctrl");
    reveal_strlit("ControlRight");
    reveal_strlit("ShiftLeft");
    reveal_strlit("Shift");
    reveal_strlit("ShiftRight");
    reveal_strlit("AltLeft");
    reveal_strlit("Alt");
    reveal_strlit("AltRight");
    reveal_strlit("MetaLeft");
    reveal_strlit("Meta");
    reveal_strlit("Super");
    reveal_strlit("MetaRight");
    reveal_strlit("UpArrow");
    reveal_strlit("Up");
    reveal_strlit("DownArrow");
    reveal_strlit("Down");
    reveal_strlit("LeftArrow");
    reveal_strlit("Left");
    reveal_strlit("RightArrow");
    reveal_strlit("Right");
    reveal_strlit("F1");
    reveal_strlit("F2");
    reveal_strlit("F3");
    reveal_strlit("F4");
    reveal_strlit("F5");
    reveal_strlit("F6");
    reveal_strlit("F7");
    reveal_strlit("F8");
    reveal_strlit("F9");
    reveal_strlit("F10");
    reveal_strlit("F11");
    reveal_strlit("F12");
    assert("a"@.len() == 1);
    assert("A"@.len() == 1);
    assert("KeyA"@.len() == 4);
    assert("b"@.len() == 1);
    assert("B"@.len() == 1);
    assert("KeyB"@.len() == 4);
    assert("c"@.len() == 1);
    assert("C"@.len() == 1);
    assert("KeyC"@.len() == 4);
    assert("d"@.len() == 1);
    assert("D"@.len() == 1);
    assert("KeyD"@.len() == 4);
    assert("e"@.len() == 1);
    assert("E"@.len() == 1);
    assert("KeyE"@.len() == 4);
    assert("f"@.len() == 1);
    assert("F"@.len() == 1);
    assert("KeyF"@.len() == 4);
    assert("g"@.len() == 1);
    assert("G"@.len() == 1);
    assert("KeyG"@.len() == 4);
    assert("h"@.len() == 1);
    assert("H"@.len() == 1);
    assert("KeyH"@.len() == 4);
    assert("i"@.len() == 1);
    assert("I"@.len() == 1);
    assert("KeyI"@.len() == 4);
    assert("j"@.len() == 1);
    assert("J"@.len() == 1);
    assert("KeyJ"@.len() == 4);
    assert("k"@.len() == 1);
    assert("K"@.len() == 1);
    assert("KeyK"@.len() == 4);
    assert("l"@.len() == 1);
    assert("L"@.len() == 1);
    assert("KeyL"@.len() == 4);
    assert("m"@.len() == 1);
    assert("M"@.len() == 1);
    assert("KeyM"@.len() == 4);
    assert("n"@.len() == 1);
    assert("N"@.len() == 1);
    assert("KeyN"@.len() == 4);
    assert("o"@.len() == 1);
    assert("O"@.len() == 1);
    assert("KeyO"@.len() == 4);
    assert("p"@.len() == 1);
    assert("P"@.len() == 1);
    assert("KeyP"@.len() == 4);
    assert("q"@.len() == 1);
    assert("Q"@.len() == 1);
    assert("KeyQ"@.len() == 4);
    assert("r"@.len() == 1);
    assert("R"@.len() == 1);
    assert("KeyR"@.len() == 4);
    assert("s"@.len() == 1);
    assert("S"@.len() == 1);
    assert("KeyS"@.len() == 4);
    assert("t"@.len() == 1);
    assert("T"@.len() == 1);
    assert("KeyT"@.len() == 4);
    assert("u"@.len() == 1);
    assert("U"@.len() == 1);
    assert("KeyU"@.len() == 4);
    assert("v"@.len() == 1);
    assert("V"@.len() == 1);
    assert("KeyV"@.len() == 4);
    assert("w"@.len() == 1);
    assert("W"@.len() == 1);
    assert("KeyW"@.len() == 4);
    assert("x"@.len() == 1);
    assert("X"@.len() == 1);
    assert("KeyX"@.len() == 4);
    assert("y"@.len() == 1);
    assert("Y"@.len() == 1);
    assert("KeyY"@.len() == 4);
    assert("z"@.len() == 1);
    assert("Z"@.len() == 1);
    assert("KeyZ"@.len() == 4);
    assert("0"@.len() == 1);
    assert("Num0"@.len() == 4);
    assert("1"@.len() == 1);
    assert("Num1"@.len() == 4);
    assert("2"@.len() == 1);
    assert("Num2"@.len() == 4);
    assert("3"@.len() == 1);
    assert("Num3"@.len() == 4);
    assert("4"@.len() == 1);
    assert("Num4"@.len() == 4);
    assert("5"@.len() == 1);
    assert("Num5"@.len() == 4);
    assert("6"@.len() == 1);
    assert("Num6"@.len() == 4);
    assert("7"@.len() == 1);
    assert("Num7"@.len() == 4);
    assert("8"@.len() == 1);
    assert("Num8"@.len() == 4);
    assert("9"@.len() == 1);
    assert("Num9"@.len() == 4);
    assert("Return"@.len() == 6);
    assert("Enter"@.len() == 5);
    assert("Escape"@.len() == 6);
    assert("Esc"@.len() == 3);
    assert("Backspace"@.len() == 9);
    assert("Tab"@.len() == 3);
    assert("Space"@.len() == 5);
    assert("ControlLeft"@.len() == 11);
    assert("Ctrl"@.len() == 4);
    assert("ControlRight"@.len() == 12);
    assert("ShiftLeft"@.len() == 9);
    assert("Shift"@.len() == 5);
    assert("ShiftRight"@.len() == 10);
    assert("AltLeft"@.len() == 7);
    assert("Alt"@.len() == 3);
    assert("AltRight"@.len() == 8);
    assert("MetaLeft"@.len() == 8);
    assert("Meta"@.len() == 4);
    assert("Super"@.len() == 5);
    assert("MetaRight"@.len() == 9);
    assert("UpArrow"@.len() == 7);
    assert("Up"@.len() == 2);
    assert("DownArrow"@.len() == 9);
    assert("Down"@.len() == 4);
    assert("LeftArrow"@.len() == 9);
    assert("Left"@.len() == 4);
    assert("RightArrow"@.len() == 10);
    assert("Right"@.len() == 5);
    assert("F1"@.len() == 2);
    assert("F2"@.len() == 2);
    assert("F3"@.len() == 2);
    assert("F4"@.len() == 2);
    assert("F5"@.len() == 2);
    assert("F6"@.len() == 2);
    assert("F7"@.len() == 2);
    assert("F8"@.len() == 2);
    assert("F9"@.len() == 2);
    assert("F10"@.len() == 3);
    assert("F11"@.len() == 3);
    assert("F12"@.len() == 3);
    assert("a"@[0] == 'a');
    assert("A"@[0] == 'A');
    assert("KeyA"@[0] == 'K');
    assert("KeyA"@[3] == 'A');
    assert("b"@[0] == 'b');
    assert("B"@[0] == 'B');
    assert("KeyB"@[0] == 'K');
    assert("KeyB"@[3] == 'B');
    assert("c"@[0] == 'c');
    assert("C"@[0] == 'C');
    assert("KeyC"@[0] == 'K');
    assert("KeyC"@[3] == 'C');
    assert("d"@[0] == 'd');
    assert("D"@[0] == 'D');
    assert("KeyD"@[0] == 'K');
    assert("KeyD"@[3] == 'D');
    assert("e"@[0] == 'e');
    assert("E"@[0] == 'E');
    assert("KeyE"@[0] == 'K');
    assert("KeyE"@[3] == 'E');
    assert("f"@[0] == 'f');
    assert("F"@[0] == 'F');
    assert("KeyF"@[0] == 'K');
    assert("KeyF"@[3] == 'F');
    assert("g"@[0] == 'g');
    assert("G"@[0] == 'G');
    assert("KeyG"@[0] == 'K');
    assert("KeyG"@[3] == 'G');
    assert("h"@[0] == 'h');
    assert("H"@[0] == 'H');
    assert("KeyH"@[0] == 'K');
    assert("KeyH"@[3] == 'H');
    assert("i"@[0] == 'i');
    assert("I"@[0] == 'I');
    assert("KeyI"@[0] == 'K');
    assert("KeyI"@[3] == 'I');
    assert("j"@[0] == 'j');
    assert("J"@[0] == 'J');
    assert("KeyJ"@[0] == 'K');
    assert("KeyJ"@[3] == 'J');
    assert("k"@[0] == 'k');
    assert("K"@[0] == 'K');
    assert("KeyK"@[0] == 'K');
    assert("KeyK"@[3] == 'K');
    assert("l"@[0] == 'l');
    assert("L"@[0] == 'L');
    assert("KeyL"@[0] == 'K');
    assert("KeyL"@[3] == 'L');
    assert("m"@[0] == 'm');
    assert("M"@[0] == 'M');
    assert("KeyM"@[0] == 'K');
    assert("KeyM"@[3] == 'M');
    assert("n"@[0] == 'n');
    assert("N"@[0] == 'N');
    assert("KeyN"@[0] == 'K');
    assert("KeyN"@[3] == 'N');
    assert("o"@[0] == 'o');
    assert("O"@[0] == 'O');
    assert("KeyO"@[0] == 'K');
    assert("KeyO"@[3] == 'O');
    assert("p"@[0] == 'p');
    assert("P"@[0] == 'P');
    assert("KeyP"@[0] == 'K');
    assert("KeyP"@[3] == 'P');
    assert("q"@[0] == 'q');
    assert("Q"@[0] == 'Q');
    assert("KeyQ"@[0] == 'K');
    assert("KeyQ"@[3] == 'Q');
    assert("r"@[0] == 'r');
    assert("R"@[0] == 'R');
    assert("KeyR"@[0] == 'K');
    assert("KeyR"@[3] == 'R');
    assert("s"@[0] == 's');
    assert("S"@[0] == 'S');
    assert("KeyS"@[0] == 'K');
    assert("KeyS"@[3] == 'S');
    assert("t"@[0] == 't');
    assert("T"@[0] == 'T');
    assert("KeyT"@[0] == 'K');
    assert("KeyT"@[3] == 'T');
    assert("u"@[0] == 'u');
    assert("U"@[0] == 'U');
    assert("KeyU"@[0] == 'K');
    assert("KeyU"@[3] == 'U');
    assert("v"@[0] == 'v');
    assert("V"@[0] == 'V');
    assert("KeyV"@[0] == 'K');
    assert("KeyV"@[3] == 'V');
    assert("w"@[0] == 'w');
    assert("W"@[0] == 'W');
    assert("KeyW"@[0] == 'K');
    assert("KeyW"@[3] == 'W');
    assert("x"@[0] == 'x');
    assert("X"@[0] == 'X');
    assert("KeyX"@[0] == 'K');
    assert("KeyX"@[3] == 'X');
    assert("y"@[0] == 'y');
    assert("Y"@[0] == 'Y');
    assert("KeyY"@[0] == 'K');
    assert("KeyY"@[3] == 'Y');
    assert("z"@[0] == 'z');
    assert("Z"@[0] == 'Z');
    assert("KeyZ"@[0] == 'K');
    assert("KeyZ"@[3] == 'Z');
    assert("0"@[0] == '0');
    assert("Num0"@[0] == 'N');
    assert("Num0"@[3] == '0');
    assert("1"@[0] == '1');
    assert("Num1"@[0] == 'N');
    assert("Num1"@[3] == '1');
    assert("2"@[0] == '2');
    assert("Num2"@[0] == 'N');
    assert("Num2"@[3] == '2');
    assert("3"@[0] == '3');
    assert("Num3"@[0] == 'N');
    assert("Num3"@[3] == '3');
    assert("4"@[0] == '4');
    assert("Num4"@[0] == 'N');
    assert("Num4"@[3] == '4');
    assert("5"@[0] == '5');
    assert("Num5"@[0] == 'N');
    assert("Num5"@[3] == '5');
    assert("6"@[0] == '6');
    assert("Num6"@[0] == 'N');
    assert("Num6"@[3] == '6');
    assert("7"@[0] == '7');
    assert("Num7"@[0] == 'N');
    assert("Num7"@[3] == '7');
    assert("8"@[0] == '8');
    assert("Num8"@[0] == 'N');
    assert("Num8"@[3] == '8');
    assert("9"@[0] == '9');
    assert("Num9"@[0] == 'N');
    assert("Num9"@[3] == '9');
    assert("Return"@[0] == 'R');
    assert("Enter"@[0] == 'E');
    assert("Escape"@[0] == 'E');
    assert("Esc"@[0] == 'E');
    assert("Backspace"@[0] == 'B');
    assert("Tab"@[0] == 'T');
    assert("Space"@[0] == 'S');
    assert("Space"@[1] == 'p');
    assert("Ctrl"@[0] == 'C');
    assert("ShiftLeft"@[0] == 'S');
    assert("Shift"@[0] == 'S');
    assert("Shift"@[1] == 'h');
    assert("ShiftRight"@[0] == 'S');
    assert("AltLeft"@[0] == 'A');
    assert("Alt"@[0] == 'A');
    assert("AltRight"@[0] == 'A');
    assert("MetaLeft"@[0] == 'M');
    assert("Meta"@[0] == 'M');
    assert("Super"@[0] == 'S');
    assert("Super"@[1] == 'u');
    assert("MetaRight"@[0] == 'M');
    assert("UpArrow"@[0] == 'U');
    assert("Up"@[0] == 'U');
    assert("DownArrow"@[0] == 'D');
    assert("Down"@[0] == 'D');
    assert("LeftArrow"@[0] == 'L');
    assert("Left"@[0] == 'L');
    assert("RightArrow"@[0] == 'R');
    assert("Right"@[0] == 'R');
    assert("F1"@[0] == 'F');
    assert("F1"@[1] == '1');
    assert("F2"@[0] == 'F');
    assert("F2"@[1] == '2');
    assert("F3"@[0] == 'F');
    assert("F3"@[1] == '3');
    assert("F4"@[0] == 'F');
    assert("F4"@[1] == '4');
    assert("F5"@[0] == 'F');
    assert("F5"@[1] == '5');
    assert("F6"@[0] == 'F');
    assert("F6"@[1] == '6');
    assert("F7"@[0] == 'F');
    assert("F7"@[1] == '7');
    assert("F8"@[0] == 'F');
    assert("F8"@[1] == '8');
    assert("F9"@[0] == 'F');
    assert("F9"@[1] == '9');
    assert("F10"@[0] == 'F');
    assert("F10"@[2] == '0');
    assert("F11"@[0] == 'F');
    assert("F11"@[2] == '1');
    assert("F12"@[0] == 'F');
    assert("F12"@[2] == '2');
}

/// A string resolves to a symbol only if it is one of that symbol's names:
/// there is no fallback key.
pub proof fn lemma_only_names_resolve(s: Seq<char>)
    ensures
        resolve_name(s) matches Some(k) ==> names_of(k).contains(s),
{
    if let Some(k) = resolve_name(s) {
        assert(s == names_of(k)[0] || (names_of(k).len() >= 2 && s == names_of(k)[1]) || (
        names_of(k).len() >= 3 && s == names_of(k)[2]));
    }
}

/// Name resolution is exactly the table of names: a string resolves to a
/// symbol if and only if it is one of that symbol's names.
pub proof fn lemma_resolve_name_is_table(s: Seq<char>, k: KeySymbol)
    ensures
        resolve_name(s) == Some(k) <==> names_of(k).contains(s),
{
    lemma_only_names_resolve(s);
    lemma_names_resolve(k);
    if names_of(k).contains(s) {
        let i = choose|i: int| 0 <= i < names_of(k).len() && names_of(k)[i] == s;
        assert(resolve_name(names_of(k)[i]) == Some(k));
    }
}

/// Every name accepted for injection resolves to the same symbol as that
/// symbol's canonical identifier: `"Ctrl"` as `"ControlLeft"`, `"Enter"` as
/// `"Return"`, `"a"` and `"A"` as `"KeyA"`.
pub proof fn lemma_alias_resolves_as_canonical(s: Seq<char>)
    ensures
        resolve_name(s) matches Some(k) ==> resolve_name(key_code_of(k)) == Some(k),
{
    if let Some(k) = resolve_name(s) {
        lemma_names_resolve(k);
        assert(names_of(k)[0] == key_code_of(k));
    }
}

/// Describing a symbol's native code gives back that symbol, hence its
/// canonical identifier; and that identifier, given for injection, resolves
/// to the symbol again.
pub proof fn lemma_describe_round_trip(k: KeySymbol)
    ensures
        symbol_of_native(native_code_of(k)) == Some(k),
        resolve_name(key_code_of(k)) == Some(k),
{
    lemma_native_code_injective(k, choose|c: KeySymbol| native_code_of(c) == native_code_of(k));
    lemma_names_resolve(k);
    assert(names_of(k)[0] == key_code_of(k));
}

} // verus!
