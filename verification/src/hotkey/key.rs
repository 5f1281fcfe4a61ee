//! The keys of a keyboard, and their names.
use crate::search;
use crate::text;
use vstd::prelude::*;

verus! {

/// A key, as the operating system's event stream tells keys apart.
#[derive(Debug, Clone, Copy, PartialEq, Eq, Structural)]
pub enum Key {
    Alt,
    AltGr,
    Backspace,
    CapsLock,
    ControlLeft,
    ControlRight,
    Delete,
    DownArrow,
    End,
    Escape,
    F1,
    F2,
    F3,
    F4,
    F5,
    F6,
    F7,
    F8,
    F9,
    F10,
    F11,
    F12,
    Home,
    Insert,
    LeftArrow,
    MetaLeft,
    MetaRight,
    NumLock,
    PageDown,
    PageUp,
    Pause,
    PrintScreen,
    Return,
    RightArrow,
    ScrollLock,
    ShiftLeft,
    ShiftRight,
    Space,
    Tab,
    UpArrow,
    KeyA,
    KeyB,
    KeyC,
    KeyD,
    KeyE,
    KeyF,
    KeyG,
    KeyH,
    KeyI,
    KeyJ,
    KeyK,
    KeyL,
    KeyM,
    KeyN,
    KeyO,
    KeyP,
    KeyQ,
    KeyR,
    KeyS,
    KeyT,
    KeyU,
    KeyV,
    KeyW,
    KeyX,
    KeyY,
    KeyZ,
    Num0,
    Num1,
    Num2,
    Num3,
    Num4,
    Num5,
    Num6,
    Num7,
    Num8,
    Num9,
    BackQuote,
    Minus,
    Equal,
    LeftBracket,
    RightBracket,
    SemiColon,
    Quote,
    BackSlash,
    IntlBackslash,
    Comma,
    Dot,
    Slash,
    KpReturn,
    KpMinus,
    KpPlus,
    KpMultiply,
    KpDivide,
    Kp0,
    Kp1,
    Kp2,
    Kp3,
    Kp4,
    Kp5,
    Kp6,
    Kp7,
    Kp8,
    Kp9,
    KpDelete,
    Function,
    Unknown(u32),
}

impl Key {
    /// The name of the key, as configuration files write it.
    pub open spec fn name(self) -> Seq<char> {
        match self {
            Key::Alt => "Alt"@,
            Key::AltGr => "AltGr"@,
            Key::Backspace => "Backspace"@,
            Key::CapsLock => "CapsLock"@,
            Key::ControlLeft => "ControlLeft"@,
            Key::ControlRight => "ControlRight"@,
            Key::Delete => "Delete"@,
            Key::DownArrow => "DownArrow"@,
            Key::End => "End"@,
            Key::Escape => "Escape"@,
            Key::F1 => "F1"@,
            Key::F2 => "F2"@,
            Key::F3 => "F3"@,
            Key::F4 => "F4"@,
            Key::F5 => "F5"@,
            Key::F6 => "F6"@,
            Key::F7 => "F7"@,
            Key::F8 => "F8"@,
            Key::F9 => "F9"@,
            Key::F10 => "F10"@,
            Key::F11 => "F11"@,
            Key::F12 => "F12"@,
            Key::Home => "Home"@,
            Key::Insert => "Insert"@,
            Key::LeftArrow => "LeftArrow"@,
            Key::MetaLeft => "MetaLeft"@,
            Key::MetaRight => "MetaRight"@,
            Key::NumLock => "NumLock"@,
            Key::PageDown => "PageDown"@,
            Key::PageUp => "PageUp"@,
            Key::Pause => "Pause"@,
            Key::PrintScreen => "PrintScreen"@,
            Key::Return => "Return"@,
            Key::RightArrow => "RightArrow"@,
            Key::ScrollLock => "ScrollLock"@,
            Key::ShiftLeft => "ShiftLeft"@,
            Key::ShiftRight => "ShiftRight"@,
            Key::Space => "Space"@,
            Key::Tab => "Tab"@,
            Key::UpArrow => "UpArrow"@,
            Key::KeyA => "KeyA"@,
            Key::KeyB => "KeyB"@,
            Key::KeyC => "KeyC"@,
            Key::KeyD => "KeyD"@,
            Key::KeyE => "KeyE"@,
            Key::KeyF => "KeyF"@,
            Key::KeyG => "KeyG"@,
            Key::KeyH => "KeyH"@,
            Key::KeyI => "KeyI"@,
            Key::KeyJ => "KeyJ"@,
            Key::KeyK => "KeyK"@,
            Key::KeyL => "KeyL"@,
            Key::KeyM => "KeyM"@,
            Key::KeyN => "KeyN"@,
            Key::KeyO => "KeyO"@,
            Key::KeyP => "KeyP"@,
            Key::KeyQ => "KeyQ"@,
            Key::KeyR => "KeyR"@,
            Key::KeyS => "KeyS"@,
            Key::KeyT => "KeyT"@,
            Key::KeyU => "KeyU"@,
            Key::KeyV => "KeyV"@,
            Key::KeyW => "KeyW"@,
            Key::KeyX => "KeyX"@,
            Key::KeyY => "KeyY"@,
            Key::KeyZ => "KeyZ"@,
            Key::Num0 => "Num0"@,
            Key::Num1 => "Num1"@,
            Key::Num2 => "Num2"@,
            Key::Num3 => "Num3"@,
            Key::Num4 => "Num4"@,
            Key::Num5 => "Num5"@,
            Key::Num6 => "Num6"@,
            Key::Num7 => "Num7"@,
            Key::Num8 => "Num8"@,
            Key::Num9 => "Num9"@,
            Key::BackQuote => "BackQuote"@,
            Key::Minus => "Minus"@,
            Key::Equal => "Equal"@,
            Key::LeftBracket => "LeftBracket"@,
            Key::RightBracket => "RightBracket"@,
            Key::SemiColon => "SemiColon"@,
            Key::Quote => "Quote"@,
            Key::BackSlash => "BackSlash"@,
            Key::IntlBackslash => "IntlBackslash"@,
            Key::Comma => "Comma"@,
            Key::Dot => "Dot"@,
            Key::Slash => "Slash"@,
            Key::KpReturn => "KpReturn"@,
            Key::KpMinus => "KpMinus"@,
            Key::KpPlus => "KpPlus"@,
            Key::KpMultiply => "KpMultiply"@,
            Key::KpDivide => "KpDivide"@,
            Key::Kp0 => "Kp0"@,
            Key::Kp1 => "Kp1"@,
            Key::Kp2 => "Kp2"@,
            Key::Kp3 => "Kp3"@,
            Key::Kp4 => "Kp4"@,
            Key::Kp5 => "Kp5"@,
            Key::Kp6 => "Kp6"@,
            Key::Kp7 => "Kp7"@,
            Key::Kp8 => "Kp8"@,
            Key::Kp9 => "Kp9"@,
            Key::KpDelete => "KpDelete"@,
            Key::Function => "Function"@,
            Key::Unknown(code) => "Unknown("@ + search::decimal(code as nat) + ")"@,
        }
    }

    pub fn display_name(&self) -> (r: String)
        ensures
            r@ == self.name(),
    {
        match self {
            Key::Alt => "Alt".to_string(),
            Key::AltGr => "AltGr".to_string(),
            Key::Backspace => "Backspace".to_string(),
            Key::CapsLock => "CapsLock".to_string(),
            Key::ControlLeft => "ControlLeft".to_string(),
            Key::ControlRight => "ControlRight".to_string(),
            Key::Delete => "Delete".to_string(),
            Key::DownArrow => "DownArrow".to_string(),
            Key::End => "End".to_string(),
            Key::Escape => "Escape".to_string(),
            Key::F1 => "F1".to_string(),
            Key::F2 => "F2".to_string(),
            Key::F3 => "F3".to_string(),
            Key::F4 => "F4".to_string(),
            Key::F5 => "F5".to_string(),
            Key::F6 => "F6".to_string(),
            Key::F7 => "F7".to_string(),
            Key::F8 => "F8".to_string(),
            Key::F9 => "F9".to_string(),
            Key::F10 => "F10".to_string(),
            Key::F11 => "F11".to_string(),
            Key::F12 => "F12".to_string(),
            Key::Home => "Home".to_string(),
            Key::Insert => "Insert".to_string(),
            Key::LeftArrow => "LeftArrow".to_string(),
            Key::MetaLeft => "MetaLeft".to_string(),
            Key::MetaRight => "MetaRight".to_string(),
            Key::NumLock => "NumLock".to_string(),
            Key::PageDown => "PageDown".to_string(),
            Key::PageUp => "PageUp".to_string(),
            Key::Pause => "Pause".to_string(),
            Key::PrintScreen => "PrintScreen".to_string(),
            Key::Return => "Return".to_string(),
            Key::RightArrow => "RightArrow".to_string(),
            Key::ScrollLock => "ScrollLock".to_string(),
            Key::ShiftLeft => "ShiftLeft".to_string(),
            Key::ShiftRight => "ShiftRight".to_string(),
            Key::Space => "Space".to_string(),
            Key::Tab => "Tab".to_string(),
            Key::UpArrow => "UpArrow".to_string(),
            Key::KeyA => "KeyA".to_string(),
            Key::KeyB => "KeyB".to_string(),
            Key::KeyC => "KeyC".to_string(),
            Key::KeyD => "KeyD".to_string(),
            Key::KeyE => "KeyE".to_string(),
            Key::KeyF => "KeyF".to_string(),
            Key::KeyG => "KeyG".to_string(),
            Key::KeyH => "KeyH".to_string(),
            Key::KeyI => "KeyI".to_string(),
            Key::KeyJ => "KeyJ".to_string(),
            Key::KeyK => "KeyK".to_string(),
            Key::KeyL => "KeyL".to_string(),
            Key::KeyM => "KeyM".to_string(),
            Key::KeyN => "KeyN".to_string(),
            Key::KeyO => "KeyO".to_string(),
            Key::KeyP => "KeyP".to_string(),
            Key::KeyQ => "KeyQ".to_string(),
            Key::KeyR => "KeyR".to_string(),
            Key::KeyS => "KeyS".to_string(),
            Key::KeyT => "KeyT".to_string(),
            Key::KeyU => "KeyU".to_string(),
            Key::KeyV => "KeyV".to_string(),
            Key::KeyW => "KeyW".to_string(),
            Key::KeyX => "KeyX".to_string(),
            Key::KeyY => "KeyY".to_string(),
            Key::KeyZ => "KeyZ".to_string(),
            Key::Num0 => "Num0".to_string(),
            Key::Num1 => "Num1".to_string(),
            Key::Num2 => "Num2".to_string(),
            Key::Num3 => "Num3".to_string(),
            Key::Num4 => "Num4".to_string(),
            Key::Num5 => "Num5".to_string(),
            Key::Num6 => "Num6".to_string(),
            Key::Num7 => "Num7".to_string(),
            Key::Num8 => "Num8".to_string(),
            Key::Num9 => "Num9".to_string(),
            Key::BackQuote => "BackQuote".to_string(),
            Key::Minus => "Minus".to_string(),
            Key::Equal => "Equal".to_string(),
            Key::LeftBracket => "LeftBracket".to_string(),
            Key::RightBracket => "RightBracket".to_string(),
            Key::SemiColon => "SemiColon".to_string(),
            Key::Quote => "Quote".to_string(),
            Key::BackSlash => "BackSlash".to_string(),
            Key::IntlBackslash => "IntlBackslash".to_string(),
            Key::Comma => "Comma".to_string(),
            Key::Dot => "Dot".to_string(),
            Key::Slash => "Slash".to_string(),
            Key::KpReturn => "KpReturn".to_string(),
            Key::KpMinus => "KpMinus".to_string(),
            Key::KpPlus => "KpPlus".to_string(),
            Key::KpMultiply => "KpMultiply".to_string(),
            Key::KpDivide => "KpDivide".to_string(),
            Key::Kp0 => "Kp0".to_string(),
            Key::Kp1 => "Kp1".to_string(),
            Key::Kp2 => "Kp2".to_string(),
            Key::Kp3 => "Kp3".to_string(),
            Key::Kp4 => "Kp4".to_string(),
            Key::Kp5 => "Kp5".to_string(),
            Key::Kp6 => "Kp6".to_string(),
            Key::Kp7 => "Kp7".to_string(),
            Key::Kp8 => "Kp8".to_string(),
            Key::Kp9 => "Kp9".to_string(),
            Key::KpDelete => "KpDelete".to_string(),
            Key::Function => "Function".to_string(),
            Key::Unknown(code) => {
                let mut r = "Unknown(".to_string();
                r.append(&search::decimal_text(*code as u64));
                r.append(")");
                r
            },
        }
    }
}

/// The key that a name in lower case stands for.
pub open spec fn key_named(n: Seq<char>) -> Option<Key> {
    if n == "alt"@ {
        Some(Key::Alt)
    } else if n == "altgr"@ {
        Some(Key::AltGr)
    } else if n == "backspace"@ {
        Some(Key::Backspace)
    } else if n == "capslock"@ {
        Some(Key::CapsLock)
    } else if n == "controlleft"@ || n == "leftcontrol"@ {
        Some(Key::ControlLeft)
    } else if n == "controlright"@ || n == "rightcontrol"@ {
        Some(Key::ControlRight)
    } else if n == "delete"@ {
        Some(Key::Delete)
    } else if n == "downarrow"@ || n == "down"@ {
        Some(Key::DownArrow)
    } else if n == "end"@ {
        Some(Key::End)
    } else if n == "escape"@ || n == "esc"@ {
        Some(Key::Escape)
    } else if n == "f1"@ {
        Some(Key::F1)
    } else if n == "f2"@ {
        Some(Key::F2)
    } else if n == "f3"@ {
        Some(Key::F3)
    } else if n == "f4"@ {
        Some(Key::F4)
    } else if n == "f5"@ {
        Some(Key::F5)
    } else if n == "f6"@ {
        Some(Key::F6)
    } else if n == "f7"@ {
        Some(Key::F7)
    } else if n == "f8"@ {
        Some(Key::F8)
    } else if n == "f9"@ {
        Some(Key::F9)
    } else if n == "f10"@ {
        Some(Key::F10)
    } else if n == "f11"@ {
        Some(Key::F11)
    } else if n == "f12"@ {
        Some(Key::F12)
    } else if n == "home"@ {
        Some(Key::Home)
    } else if n == "insert"@ {
        Some(Key::Insert)
    } else if n == "leftarrow"@ || n == "left"@ {
        Some(Key::LeftArrow)
    } else if n == "metaleft"@ || n == "leftmeta"@ || n == "winleft"@ || n == "leftwin"@ {
        Some(Key::MetaLeft)
    } else if n == "metaright"@ || n == "rightmeta"@ || n == "winright"@ || n == "rightwin"@ {
        Some(Key::MetaRight)
    } else if n == "numlock"@ {
        Some(Key::NumLock)
    } else if n == "pagedown"@ {
        Some(Key::PageDown)
    } else if n == "pageup"@ {
        Some(Key::PageUp)
    } else if n == "pause"@ {
        Some(Key::Pause)
    } else if n == "printscreen"@ {
        Some(Key::PrintScreen)
    } else if n == "return"@ || n == "enter"@ {
        Some(Key::Return)
    } else if n == "rightarrow"@ || n == "right"@ {
        Some(Key::RightArrow)
    } else if n == "scrolllock"@ {
        Some(Key::ScrollLock)
    } else if n == "shiftleft"@ || n == "leftshift"@ {
        Some(Key::ShiftLeft)
    } else if n == "shiftright"@ || n == "rightshift"@ {
        Some(Key::ShiftRight)
    } else if n == "space"@ {
        Some(Key::Space)
    } else if n == "tab"@ {
        Some(Key::Tab)
    } else if n == "uparrow"@ || n == "up"@ {
        Some(Key::UpArrow)
    } else if n == "a"@ || n == "keya"@ {
        Some(Key::KeyA)
    } else if n == "b"@ || n == "keyb"@ {
        Some(Key::KeyB)
    } else if n == "c"@ || n == "keyc"@ {
        Some(Key::KeyC)
    } else if n == "d"@ || n == "keyd"@ {
        Some(Key::KeyD)
    } else if n == "e"@ || n == "keye"@ {
        Some(Key::KeyE)
    } else if n == "f"@ || n == "keyf"@ {
        Some(Key::KeyF)
    } else if n == "g"@ || n == "keyg"@ {
        Some(Key::KeyG)
    } else if n == "h"@ || n == "keyh"@ {
        Some(Key::KeyH)
    } else if n == "i"@ || n == "keyi"@ {
        Some(Key::KeyI)
    } else if n == "j"@ || n == "keyj"@ {
        Some(Key::KeyJ)
    } else if n == "k"@ || n == "keyk"@ {
        Some(Key::KeyK)
    } else if n == "l"@ || n == "keyl"@ {
        Some(Key::KeyL)
    } else if n == "m"@ || n == "keym"@ {
        Some(Key::KeyM)
    } else if n == "n"@ || n == "keyn"@ {
        Some(Key::KeyN)
    } else if n == "o"@ || n == "keyo"@ {
        Some(Key::KeyO)
    } else if n == "p"@ || n == "keyp"@ {
        Some(Key::KeyP)
    } else if n == "q"@ || n == "keyq"@ {
        Some(Key::KeyQ)
    } else if n == "r"@ || n == "keyr"@ {
        Some(Key::KeyR)
    } else if n == "s"@ || n == "keys"@ {
        Some(Key::KeyS)
    } else if n == "t"@ || n == "keyt"@ {
        Some(Key::KeyT)
    } else if n == "u"@ || n == "keyu"@ {
        Some(Key::KeyU)
    } else if n == "v"@ || n == "keyv"@ {
        Some(Key::KeyV)
    } else if n == "w"@ || n == "keyw"@ {
        Some(Key::KeyW)
    } else if n == "x"@ || n == "keyx"@ {
        Some(Key::KeyX)
    } else if n == "y"@ || n == "keyy"@ {
        Some(Key::KeyY)
    } else if n == "z"@ || n == "keyz"@ {
        Some(Key::KeyZ)
    } else if n == "0"@ || n == "num0"@ {
        Some(Key::Num0)
    } else if n == "1"@ || n == "num1"@ {
        Some(Key::Num1)
    } else if n == "2"@ || n == "num2"@ {
        Some(Key::Num2)
    } else if n == "3"@ || n == "num3"@ {
        Some(Key::Num3)
    } else if n == "4"@ || n == "num4"@ {
        Some(Key::Num4)
    } else if n == "5"@ || n == "num5"@ {
        Some(Key::Num5)
    } else if n == "6"@ || n == "num6"@ {
        Some(Key::Num6)
    } else if n == "7"@ || n == "num7"@ {
        Some(Key::Num7)
    } else if n == "8"@ || n == "num8"@ {
        Some(Key::Num8)
    } else if n == "9"@ || n == "num9"@ {
        Some(Key::Num9)
    } else if n == "backquote"@ || n == "`"@ {
        Some(Key::BackQuote)
    } else if n == "minus"@ || n == "-"@ {
        Some(Key::Minus)
    } else if n == "equal"@ || n == "="@ {
        Some(Key::Equal)
    } else if n == "leftbracket"@ || n == "["@ {
        Some(Key::LeftBracket)
    } else if n == "rightbracket"@ || n == "]"@ {
        Some(Key::RightBracket)
    } else if n == "semicolon"@ || n == ";"@ {
        Some(Key::SemiColon)
    } else if n == "quote"@ || n == "'"@ {
        Some(Key::Quote)
    } else if n == "backslash"@ || n == "\\"@ {
        Some(Key::BackSlash)
    } else if n == "intlbackslash"@ {
        Some(Key::IntlBackslash)
    } else if n == "comma"@ || n == ","@ {
        Some(Key::Comma)
    } else if n == "dot"@ || n == "."@ {
        Some(Key::Dot)
    } else if n == "slash"@ || n == "/"@ {
        Some(Key::Slash)
    } else if n == "kpreturn"@ || n == "kpenter"@ {
        Some(Key::KpReturn)
    } else if n == "kpminus"@ {
        Some(Key::KpMinus)
    } else if n == "kpplus"@ {
        Some(Key::KpPlus)
    } else if n == "kpmultiply"@ {
        Some(Key::KpMultiply)
    } else if n == "kpdivide"@ {
        Some(Key::KpDivide)
    } else if n == "kp0"@ {
        Some(Key::Kp0)
    } else if n == "kp1"@ {
        Some(Key::Kp1)
    } else if n == "kp2"@ {
        Some(Key::Kp2)
    } else if n == "kp3"@ {
        Some(Key::Kp3)
    } else if n == "kp4"@ {
        Some(Key::Kp4)
    } else if n == "kp5"@ {
        Some(Key::Kp5)
    } else if n == "kp6"@ {
        Some(Key::Kp6)
    } else if n == "kp7"@ {
        Some(Key::Kp7)
    } else if n == "kp8"@ {
        Some(Key::Kp8)
    } else if n == "kp9"@ {
        Some(Key::Kp9)
    } else if n == "kpdelete"@ {
        Some(Key::KpDelete)
    } else if n == "function"@ || n == "fn"@ {
        Some(Key::Function)
    } else {
        None
    }
}

fn find_key(n: &str) -> (r: Option<Key>)
    ensures
        r == key_named(n@),
{
    if text::same(n, "alt") {
        Some(Key::Alt)
    } else if text::same(n, "altgr") {
        Some(Key::AltGr)
    } else if text::same(n, "backspace") {
        Some(Key::Backspace)
    } else if text::same(n, "capslock") {
        Some(Key::CapsLock)
    } else if text::same(n, "controlleft") || text::same(n, "leftcontrol") {
        Some(Key::ControlLeft)
    } else if text::same(n, "controlright") || text::same(n, "rightcontrol") {
        Some(Key::ControlRight)
    } else if text::same(n, "delete") {
        Some(Key::Delete)
    } else if text::same(n, "downarrow") || text::same(n, "down") {
        Some(Key::DownArrow)
    } else if text::same(n, "end") {
        Some(Key::End)
    } else if text::same(n, "escape") || text::same(n, "esc") {
        Some(Key::Escape)
    } else if text::same(n, "f1") {
        Some(Key::F1)
    } else if text::same(n, "f2") {
        Some(Key::F2)
    } else if text::same(n, "f3") {
        Some(Key::F3)
    } else if text::same(n, "f4") {
        Some(Key::F4)
    } else if text::same(n, "f5") {
        Some(Key::F5)
    } else if text::same(n, "f6") {
        Some(Key::F6)
    } else if text::same(n, "f7") {
        Some(Key::F7)
    } else if text::same(n, "f8") {
        Some(Key::F8)
    } else if text::same(n, "f9") {
        Some(Key::F9)
    } else if text::same(n, "f10") {
        Some(Key::F10)
    } else if text::same(n, "f11") {
        Some(Key::F11)
    } else if text::same(n, "f12") {
        Some(Key::F12)
    } else if text::same(n, "home") {
        Some(Key::Home)
    } else if text::same(n, "insert") {
        Some(Key::Insert)
    } else if text::same(n, "leftarrow") || text::same(n, "left") {
        Some(Key::LeftArrow)
    } else if text::same(n, "metaleft") || text::same(n, "leftmeta") || text::same(n, "winleft") || text::same(n, "leftwin") {
        Some(Key::MetaLeft)
    } else if text::same(n, "metaright") || text::same(n, "rightmeta") || text::same(n, "winright") || text::same(n, "rightwin") {
        Some(Key::MetaRight)
    } else if text::same(n, "numlock") {
        Some(Key::NumLock)
    } else if text::same(n, "pagedown") {
        Some(Key::PageDown)
    } else if text::same(n, "pageup") {
        Some(Key::PageUp)
    } else if text::same(n, "pause") {
        Some(Key::Pause)
    } else if text::same(n, "printscreen") {
        Some(Key::PrintScreen)
    } else if text::same(n, "return") || text::same(n, "enter") {
        Some(Key::Return)
    } else if text::same(n, "rightarrow") || text::same(n, "right") {
        Some(Key::RightArrow)
    } else if text::same(n, "scrolllock") {
        Some(Key::ScrollLock)
    } else if text::same(n, "shiftleft") || text::same(n, "leftshift") {
        Some(Key::ShiftLeft)
    } else if text::same(n, "shiftright") || text::same(n, "rightshift") {
        Some(Key::ShiftRight)
    } else if text::same(n, "space") {
        Some(Key::Space)
    } else if text::same(n, "tab") {
        Some(Key::Tab)
    } else if text::same(n, "uparrow") || text::same(n, "up") {
        Some(Key::UpArrow)
    } else if text::same(n, "a") || text::same(n, "keya") {
        Some(Key::KeyA)
    } else if text::same(n, "b") || text::same(n, "keyb") {
        Some(Key::KeyB)
    } else if text::same(n, "c") || text::same(n, "keyc") {
        Some(Key::KeyC)
    } else if text::same(n, "d") || text::same(n, "keyd") {
        Some(Key::KeyD)
    } else if text::same(n, "e") || text::same(n, "keye") {
        Some(Key::KeyE)
    } else if text::same(n, "f") || text::same(n, "keyf") {
        Some(Key::KeyF)
    } else if text::same(n, "g") || text::same(n, "keyg") {
        Some(Key::KeyG)
    } else if text::same(n, "h") || text::same(n, "keyh") {
        Some(Key::KeyH)
    } else if text::same(n, "i") || text::same(n, "keyi") {
        Some(Key::KeyI)
    } else if text::same(n, "j") || text::same(n, "keyj") {
        Some(Key::KeyJ)
    } else if text::same(n, "k") || text::same(n, "keyk") {
        Some(Key::KeyK)
    } else if text::same(n, "l") || text::same(n, "keyl") {
        Some(Key::KeyL)
    } else if text::same(n, "m") || text::same(n, "keym") {
        Some(Key::KeyM)
    } else if text::same(n, "n") || text::same(n, "keyn") {
        Some(Key::KeyN)
    } else if text::same(n, "o") || text::same(n, "keyo") {
        Some(Key::KeyO)
    } else if text::same(n, "p") || text::same(n, "keyp") {
        Some(Key::KeyP)
    } else if text::same(n, "q") || text::same(n, "keyq") {
        Some(Key::KeyQ)
    } else if text::same(n, "r") || text::same(n, "keyr") {
        Some(Key::KeyR)
    } else if text::same(n, "s") || text::same(n, "keys") {
        Some(Key::KeyS)
    } else if text::same(n, "t") || text::same(n, "keyt") {
        Some(Key::KeyT)
    } else if text::same(n, "u") || text::same(n, "keyu") {
        Some(Key::KeyU)
    } else if text::same(n, "v") || text::same(n, "keyv") {
        Some(Key::KeyV)
    } else if text::same(n, "w") || text::same(n, "keyw") {
        Some(Key::KeyW)
    } else if text::same(n, "x") || text::same(n, "keyx") {
        Some(Key::KeyX)
    } else if text::same(n, "y") || text::same(n, "keyy") {
        Some(Key::KeyY)
    } else if text::same(n, "z") || text::same(n, "keyz") {
        Some(Key::KeyZ)
    } else if text::same(n, "0") || text::same(n, "num0") {
        Some(Key::Num0)
    } else if text::same(n, "1") || text::same(n, "num1") {
        Some(Key::Num1)
    } else if text::same(n, "2") || text::same(n, "num2") {
        Some(Key::Num2)
    } else if text::same(n, "3") || text::same(n, "num3") {
        Some(Key::Num3)
    } else if text::same(n, "4") || text::same(n, "num4") {
        Some(Key::Num4)
    } else if text::same(n, "5") || text::same(n, "num5") {
        Some(Key::Num5)
    } else if text::same(n, "6") || text::same(n, "num6") {
        Some(Key::Num6)
    } else if text::same(n, "7") || text::same(n, "num7") {
        Some(Key::Num7)
    } else if text::same(n, "8") || text::same(n, "num8") {
        Some(Key::Num8)
    } else if text::same(n, "9") || text::same(n, "num9") {
        Some(Key::Num9)
    } else if text::same(n, "backquote") || text::same(n, "`") {
        Some(Key::BackQuote)
    } else if text::same(n, "minus") || text::same(n, "-") {
        Some(Key::Minus)
    } else if text::same(n, "equal") || text::same(n, "=") {
        Some(Key::Equal)
    } else if text::same(n, "leftbracket") || text::same(n, "[") {
        Some(Key::LeftBracket)
    } else if text::same(n, "rightbracket") || text::same(n, "]") {
        Some(Key::RightBracket)
    } else if text::same(n, "semicolon") || text::same(n, ";") {
        Some(Key::SemiColon)
    } else if text::same(n, "quote") || text::same(n, "'") {
        Some(Key::Quote)
    } else if text::same(n, "backslash") || text::same(n, "\\") {
        Some(Key::BackSlash)
    } else if text::same(n, "intlbackslash") {
        Some(Key::IntlBackslash)
    } else if text::same(n, "comma") || text::same(n, ",") {
        Some(Key::Comma)
    } else if text::same(n, "dot") || text::same(n, ".") {
        Some(Key::Dot)
    } else if text::same(n, "slash") || text::same(n, "/") {
        Some(Key::Slash)
    } else if text::same(n, "kpreturn") || text::same(n, "kpenter") {
        Some(Key::KpReturn)
    } else if text::same(n, "kpminus") {
        Some(Key::KpMinus)
    } else if text::same(n, "kpplus") {
        Some(Key::KpPlus)
    } else if text::same(n, "kpmultiply") {
        Some(Key::KpMultiply)
    } else if text::same(n, "kpdivide") {
        Some(Key::KpDivide)
    } else if text::same(n, "kp0") {
        Some(Key::Kp0)
    } else if text::same(n, "kp1") {
        Some(Key::Kp1)
    } else if text::same(n, "kp2") {
        Some(Key::Kp2)
    } else if text::same(n, "kp3") {
        Some(Key::Kp3)
    } else if text::same(n, "kp4") {
        Some(Key::Kp4)
    } else if text::same(n, "kp5") {
        Some(Key::Kp5)
    } else if text::same(n, "kp6") {
        Some(Key::Kp6)
    } else if text::same(n, "kp7") {
        Some(Key::Kp7)
    } else if text::same(n, "kp8") {
        Some(Key::Kp8)
    } else if text::same(n, "kp9") {
        Some(Key::Kp9)
    } else if text::same(n, "kpdelete") {
        Some(Key::KpDelete)
    } else if text::same(n, "function") || text::same(n, "fn") {
        Some(Key::Function)
    } else {
        None
    }
}

/// What is said of a name that stands for no key.
pub open spec fn unknown_key_message(name: Seq<char>) -> Seq<char> {
    "无法识别的按键名 '"@ + name
        + "'。支持 rdev Key 名（如 MetaRight、Escape、KeyA、F1…）或家族名（Control/Meta/Alt/Shift，匹配左右任意变体）"@
}

/// Reads the name of a key, whatever the case of its ASCII letters.
pub fn parse_key_name(s: &str) -> (r: Result<Key, String>)
    ensures
        match key_named(text::ascii_lower_text(s@)) {
            Some(k) => r == Ok::<Key, String>(k),
            None => r is Err && r->Err_0@ == unknown_key_message(s@),
        },
{
    let lower = text::to_ascii_lowercase(s);
    match find_key(&lower) {
        Some(k) => Ok(k),
        None => {
            let mut message = "无法识别的按键名 '".to_string();
            message.append(s);
            message.append(
                "'。支持 rdev Key 名（如 MetaRight、Escape、KeyA、F1…）或家族名（Control/Meta/Alt/Shift，匹配左右任意变体）",
            );
            Err(message)
        },
    }
}

} // verus!
