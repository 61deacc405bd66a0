//! Keys, modifiers, and the key events that stand for them on each platform.
use vstd::prelude::*;

use crate::text::same_text;

verus! {

// --------------------------------------------------------------------- keys

/// A key, by its place on the keyboard.
///
/// The keys that some platform can press have a variant each; any other key is
/// known by its name.
#[derive(Debug)]
pub enum Code {
    KeyA,
    KeyB,
    KeyC,
    KeyD,
    KeyE,
    KeyF,
    KeyG,
    KeyH,
    KeyI,
    KeyJ,
    KeyK,
    KeyL,
    KeyM,
    KeyN,
    KeyO,
    KeyP,
    KeyQ,
    KeyR,
    KeyS,
    KeyT,
    KeyU,
    KeyV,
    KeyW,
    KeyX,
    KeyY,
    KeyZ,
    Digit0,
    Digit1,
    Digit2,
    Digit3,
    Digit4,
    Digit5,
    Digit6,
    Digit7,
    Digit8,
    Digit9,
    F1,
    F2,
    F3,
    F4,
    F5,
    F6,
    F7,
    F8,
    F9,
    F10,
    F11,
    F12,
    Enter,
    Tab,
    Space,
    Backspace,
    Escape,
    Minus,
    Equal,
    BracketLeft,
    BracketRight,
    Backslash,
    Semicolon,
    Quote,
    Backquote,
    Comma,
    Period,
    Slash,
    ArrowLeft,
    ArrowRight,
    ArrowDown,
    ArrowUp,
    Home,
    End,
    PageUp,
    PageDown,
    Delete,
    /// Any other key, by its name.
    Other(String),
}

impl Code {
    /// The name of the key.
    pub open spec fn spelling(&self) -> Seq<char> {
        match self {
            Code::KeyA => "KeyA"@,
            Code::KeyB => "KeyB"@,
            Code::KeyC => "KeyC"@,
            Code::KeyD => "KeyD"@,
            Code::KeyE => "KeyE"@,
            Code::KeyF => "KeyF"@,
            Code::KeyG => "KeyG"@,
            Code::KeyH => "KeyH"@,
            Code::KeyI => "KeyI"@,
            Code::KeyJ => "KeyJ"@,
            Code::KeyK => "KeyK"@,
            Code::KeyL => "KeyL"@,
            Code::KeyM => "KeyM"@,
            Code::KeyN => "KeyN"@,
            Code::KeyO => "KeyO"@,
            Code::KeyP => "KeyP"@,
            Code::KeyQ => "KeyQ"@,
            Code::KeyR => "KeyR"@,
            Code::KeyS => "KeyS"@,
            Code::KeyT => "KeyT"@,
            Code::KeyU => "KeyU"@,
            Code::KeyV => "KeyV"@,
            Code::KeyW => "KeyW"@,
            Code::KeyX => "KeyX"@,
            Code::KeyY => "KeyY"@,
            Code::KeyZ => "KeyZ"@,
            Code::Digit0 => "Digit0"@,
            Code::Digit1 => "Digit1"@,
            Code::Digit2 => "Digit2"@,
            Code::Digit3 => "Digit3"@,
            Code::Digit4 => "Digit4"@,
            Code::Digit5 => "Digit5"@,
            Code::Digit6 => "Digit6"@,
            Code::Digit7 => "Digit7"@,
            Code::Digit8 => "Digit8"@,
            Code::Digit9 => "Digit9"@,
            Code::F1 => "F1"@,
            Code::F2 => "F2"@,
            Code::F3 => "F3"@,
            Code::F4 => "F4"@,
            Code::F5 => "F5"@,
            Code::F6 => "F6"@,
            Code::F7 => "F7"@,
            Code::F8 => "F8"@,
            Code::F9 => "F9"@,
            Code::F10 => "F10"@,
            Code::F11 => "F11"@,
            Code::F12 => "F12"@,
            Code::Enter => "Enter"@,
            Code::Tab => "Tab"@,
            Code::Space => "Space"@,
            Code::Backspace => "Backspace"@,
            Code::Escape => "Escape"@,
            Code::Minus => "Minus"@,
            Code::Equal => "Equal"@,
            Code::BracketLeft => "BracketLeft"@,
            Code::BracketRight => "BracketRight"@,
            Code::Backslash => "Backslash"@,
            Code::Semicolon => "Semicolon"@,
            Code::Quote => "Quote"@,
            Code::Backquote => "Backquote"@,
            Code::Comma => "Comma"@,
            Code::Period => "Period"@,
            Code::Slash => "Slash"@,
            Code::ArrowLeft => "ArrowLeft"@,
            Code::ArrowRight => "ArrowRight"@,
            Code::ArrowDown => "ArrowDown"@,
            Code::ArrowUp => "ArrowUp"@,
            Code::Home => "Home"@,
            Code::End => "End"@,
            Code::PageUp => "PageUp"@,
            Code::PageDown => "PageDown"@,
            Code::Delete => "Delete"@,
            Code::Other(name) => name@,
        }
    }

    /// A key that has a variant is not known by its name alone.
    pub open spec fn well_named(&self) -> bool {
        self is Other ==> forall|key: Code|
            !(key is Other) ==> #[trigger] key.spelling() != self.spelling()
    }

    /// The name of the key.
    pub fn name(&self) -> (name: String)
        ensures
            name@ == self.spelling(),
    {
        match self {
            Code::KeyA => "KeyA".to_string(),
            Code::KeyB => "KeyB".to_string(),
            Code::KeyC => "KeyC".to_string(),
            Code::KeyD => "KeyD".to_string(),
            Code::KeyE => "KeyE".to_string(),
            Code::KeyF => "KeyF".to_string(),
            Code::KeyG => "KeyG".to_string(),
            Code::KeyH => "KeyH".to_string(),
            Code::KeyI => "KeyI".to_string(),
            Code::KeyJ => "KeyJ".to_string(),
            Code::KeyK => "KeyK".to_string(),
            Code::KeyL => "KeyL".to_string(),
            Code::KeyM => "KeyM".to_string(),
            Code::KeyN => "KeyN".to_string(),
            Code::KeyO => "KeyO".to_string(),
            Code::KeyP => "KeyP".to_string(),
            Code::KeyQ => "KeyQ".to_string(),
            Code::KeyR => "KeyR".to_string(),
            Code::KeyS => "KeyS".to_string(),
            Code::KeyT => "KeyT".to_string(),
            Code::KeyU => "KeyU".to_string(),
            Code::KeyV => "KeyV".to_string(),
            Code::KeyW => "KeyW".to_string(),
            Code::KeyX => "KeyX".to_string(),
            Code::KeyY => "KeyY".to_string(),
            Code::KeyZ => "KeyZ".to_string(),
            Code::Digit0 => "Digit0".to_string(),
            Code::Digit1 => "Digit1".to_string(),
            Code::Digit2 => "Digit2".to_string(),
            Code::Digit3 => "Digit3".to_string(),
            Code::Digit4 => "Digit4".to_string(),
            Code::Digit5 => "Digit5".to_string(),
            Code::Digit6 => "Digit6".to_string(),
            Code::Digit7 => "Digit7".to_string(),
            Code::Digit8 => "Digit8".to_string(),
            Code::Digit9 => "Digit9".to_string(),
            Code::F1 => "F1".to_string(),
            Code::F2 => "F2".to_string(),
            Code::F3 => "F3".to_string(),
            Code::F4 => "F4".to_string(),
            Code::F5 => "F5".to_string(),
            Code::F6 => "F6".to_string(),
            Code::F7 => "F7".to_string(),
            Code::F8 => "F8".to_string(),
            Code::F9 => "F9".to_string(),
            Code::F10 => "F10".to_string(),
            Code::F11 => "F11".to_string(),
            Code::F12 => "F12".to_string(),
            Code::Enter => "Enter".to_string(),
            Code::Tab => "Tab".to_string(),
            Code::Space => "Space".to_string(),
            Code::Backspace => "Backspace".to_string(),
            Code::Escape => "Escape".to_string(),
            Code::Minus => "Minus".to_string(),
            Code::Equal => "Equal".to_string(),
            Code::BracketLeft => "BracketLeft".to_string(),
            Code::BracketRight => "BracketRight".to_string(),
            Code::Backslash => "Backslash".to_string(),
            Code::Semicolon => "Semicolon".to_string(),
            Code::Quote => "Quote".to_string(),
            Code::Backquote => "Backquote".to_string(),
            Code::Comma => "Comma".to_string(),
            Code::Period => "Period".to_string(),
            Code::Slash => "Slash".to_string(),
            Code::ArrowLeft => "ArrowLeft".to_string(),
            Code::ArrowRight => "ArrowRight".to_string(),
            Code::ArrowDown => "ArrowDown".to_string(),
            Code::ArrowUp => "ArrowUp".to_string(),
            Code::Home => "Home".to_string(),
            Code::End => "End".to_string(),
            Code::PageUp => "PageUp".to_string(),
            Code::PageDown => "PageDown".to_string(),
            Code::Delete => "Delete".to_string(),
            Code::Other(name) => name.clone(),
        }
    }

    /// The key with this name.
    pub fn with_name(name: &str) -> (key: Code)
        ensures
            key.spelling() == name@,
            key.well_named(),
    {
        if same_text(name, "KeyA") {
            return Code::KeyA;
        }
        if same_text(name, "KeyB") {
            return Code::KeyB;
        }
        if same_text(name, "KeyC") {
            return Code::KeyC;
        }
        if same_text(name, "KeyD") {
            return Code::KeyD;
        }
        if same_text(name, "KeyE") {
            return Code::KeyE;
        }
        if same_text(name, "KeyF") {
            return Code::KeyF;
        }
        if same_text(name, "KeyG") {
            return Code::KeyG;
        }
        if same_text(name, "KeyH") {
            return Code::KeyH;
        }
        if same_text(name, "KeyI") {
            return Code::KeyI;
        }
        if same_text(name, "KeyJ") {
            return Code::KeyJ;
        }
        if same_text(name, "KeyK") {
            return Code::KeyK;
        }
        if same_text(name, "KeyL") {
            return Code::KeyL;
        }
        if same_text(name, "KeyM") {
            return Code::KeyM;
        }
        if same_text(name, "KeyN") {
            return Code::KeyN;
        }
        if same_text(name, "KeyO") {
            return Code::KeyO;
        }
        if same_text(name, "KeyP") {
            return Code::KeyP;
        }
        if same_text(name, "KeyQ") {
            return Code::KeyQ;
        }
        if same_text(name, "KeyR") {
            return Code::KeyR;
        }
        if same_text(name, "KeyS") {
            return Code::KeyS;
        }
        if same_text(name, "KeyT") {
            return Code::KeyT;
        }
        if same_text(name, "KeyU") {
            return Code::KeyU;
        }
        if same_text(name, "KeyV") {
            return Code::KeyV;
        }
        if same_text(name, "KeyW") {
            return Code::KeyW;
        }
        if same_text(name, "KeyX") {
            return Code::KeyX;
        }
        if same_text(name, "KeyY") {
            return Code::KeyY;
        }
        if same_text(name, "KeyZ") {
            return Code::KeyZ;
        }
        if same_text(name, "Digit0") {
            return Code::Digit0;
        }
        if same_text(name, "Digit1") {
            return Code::Digit1;
        }
        if same_text(name, "Digit2") {
            return Code::Digit2;
        }
        if same_text(name, "Digit3") {
            return Code::Digit3;
        }
        if same_text(name, "Digit4") {
            return Code::Digit4;
        }
        if same_text(name, "Digit5") {
            return Code::Digit5;
        }
        if same_text(name, "Digit6") {
            return Code::Digit6;
        }
        if same_text(name, "Digit7") {
            return Code::Digit7;
        }
        if same_text(name, "Digit8") {
            return Code::Digit8;
        }
        if same_text(name, "Digit9") {
            return Code::Digit9;
        }
        if same_text(name, "F1") {
            return Code::F1;
        }
        if same_text(name, "F2") {
            return Code::F2;
        }
        if same_text(name, "F3") {
            return Code::F3;
        }
        if same_text(name, "F4") {
            return Code::F4;
        }
        if same_text(name, "F5") {
            return Code::F5;
        }
        if same_text(name, "F6") {
            return Code::F6;
        }
        if same_text(name, "F7") {
            return Code::F7;
        }
        if same_text(name, "F8") {
            return Code::F8;
        }
        if same_text(name, "F9") {
            return Code::F9;
        }
        if same_text(name, "F10") {
            return Code::F10;
        }
        if same_text(name, "F11") {
            return Code::F11;
        }
        if same_text(name, "F12") {
            return Code::F12;
        }
        if same_text(name, "Enter") {
            return Code::Enter;
        }
        if same_text(name, "Tab") {
            return Code::Tab;
        }
        if same_text(name, "Space") {
            return Code::Space;
        }
        if same_text(name, "Backspace") {
            return Code::Backspace;
        }
        if same_text(name, "Escape") {
            return Code::Escape;
        }
        if same_text(name, "Minus") {
            return Code::Minus;
        }
        if same_text(name, "Equal") {
            return Code::Equal;
        }
        if same_text(name, "BracketLeft") {
            return Code::BracketLeft;
        }
        if same_text(name, "BracketRight") {
            return Code::BracketRight;
        }
        if same_text(name, "Backslash") {
            return Code::Backslash;
        }
        if same_text(name, "Semicolon") {
            return Code::Semicolon;
        }
        if same_text(name, "Quote") {
            return Code::Quote;
        }
        if same_text(name, "Backquote") {
            return Code::Backquote;
        }
        if same_text(name, "Comma") {
            return Code::Comma;
        }
        if same_text(name, "Period") {
            return Code::Period;
        }
        if same_text(name, "Slash") {
            return Code::Slash;
        }
        if same_text(name, "ArrowLeft") {
            return Code::ArrowLeft;
        }
        if same_text(name, "ArrowRight") {
            return Code::ArrowRight;
        }
        if same_text(name, "ArrowDown") {
            return Code::ArrowDown;
        }
        if same_text(name, "ArrowUp") {
            return Code::ArrowUp;
        }
        if same_text(name, "Home") {
            return Code::Home;
        }
        if same_text(name, "End") {
            return Code::End;
        }
        if same_text(name, "PageUp") {
            return Code::PageUp;
        }
        if same_text(name, "PageDown") {
            return Code::PageDown;
        }
        if same_text(name, "Delete") {
            return Code::Delete;
        }
        Code::Other(name.to_string())
    }

    /// The virtual key code of the key on macOS.
    pub open spec fn macos_keycode(&self) -> Option<u16> {
        match self {
            Code::KeyA => Some(0u16),
            Code::KeyB => Some(11u16),
            Code::KeyC => Some(8u16),
            Code::KeyD => Some(2u16),
            Code::KeyE => Some(14u16),
            Code::KeyF => Some(3u16),
            Code::KeyG => Some(5u16),
            Code::KeyH => Some(4u16),
            Code::KeyI => Some(34u16),
            Code::KeyJ => Some(38u16),
            Code::KeyK => Some(40u16),
            Code::KeyL => Some(37u16),
            Code::KeyM => Some(46u16),
            Code::KeyN => Some(45u16),
            Code::KeyO => Some(31u16),
            Code::KeyP => Some(35u16),
            Code::KeyQ => Some(12u16),
            Code::KeyR => Some(15u16),
            Code::KeyS => Some(1u16),
            Code::KeyT => Some(17u16),
            Code::KeyU => Some(32u16),
            Code::KeyV => Some(9u16),
            Code::KeyW => Some(13u16),
            Code::KeyX => Some(7u16),
            Code::KeyY => Some(16u16),
            Code::KeyZ => Some(6u16),
            Code::Digit0 => Some(29u16),
            Code::Digit1 => Some(18u16),
            Code::Digit2 => Some(19u16),
            Code::Digit3 => Some(20u16),
            Code::Digit4 => Some(21u16),
            Code::Digit5 => Some(23u16),
            Code::Digit6 => Some(22u16),
            Code::Digit7 => Some(26u16),
            Code::Digit8 => Some(28u16),
            Code::Digit9 => Some(25u16),
            Code::F1 => Some(122u16),
            Code::F2 => Some(120u16),
            Code::F3 => Some(99u16),
            Code::F4 => Some(118u16),
            Code::F5 => Some(96u16),
            Code::F6 => Some(97u16),
            Code::F7 => Some(98u16),
            Code::F8 => Some(100u16),
            Code::F9 => Some(101u16),
            Code::F10 => Some(109u16),
            Code::F11 => Some(103u16),
            Code::F12 => Some(111u16),
            Code::Enter => Some(36u16),
            Code::Tab => Some(48u16),
            Code::Space => Some(49u16),
            Code::Backspace => Some(51u16),
            Code::Escape => Some(53u16),
            Code::Minus => Some(27u16),
            Code::Equal => Some(24u16),
            Code::BracketLeft => Some(33u16),
            Code::BracketRight => Some(30u16),
            Code::Backslash => Some(42u16),
            Code::Semicolon => Some(41u16),
            Code::Quote => Some(39u16),
            Code::Backquote => Some(50u16),
            Code::Comma => Some(43u16),
            Code::Period => Some(47u16),
            Code::Slash => Some(44u16),
            Code::ArrowLeft => Some(123u16),
            Code::ArrowRight => Some(124u16),
            Code::ArrowDown => Some(125u16),
            Code::ArrowUp => Some(126u16),
            Code::Home => Some(115u16),
            Code::End => Some(119u16),
            Code::PageUp => Some(116u16),
            Code::PageDown => Some(121u16),
            Code::Delete => Some(117u16),
            Code::Other(_) => None,
        }
    }

    /// The virtual key code of the key on Windows.
    pub open spec fn windows_key(&self) -> Option<u8> {
        match self {
            Code::KeyA => Some(0x41u8),
            Code::KeyB => Some(0x42u8),
            Code::KeyC => Some(0x43u8),
            Code::KeyD => Some(0x44u8),
            Code::KeyE => Some(0x45u8),
            Code::KeyF => Some(0x46u8),
            Code::KeyG => Some(0x47u8),
            Code::KeyH => Some(0x48u8),
            Code::KeyI => Some(0x49u8),
            Code::KeyJ => Some(0x4Au8),
            Code::KeyK => Some(0x4Bu8),
            Code::KeyL => Some(0x4Cu8),
            Code::KeyM => Some(0x4Du8),
            Code::KeyN => Some(0x4Eu8),
            Code::KeyO => Some(0x4Fu8),
            Code::KeyP => Some(0x50u8),
            Code::KeyQ => Some(0x51u8),
            Code::KeyR => Some(0x52u8),
            Code::KeyS => Some(0x53u8),
            Code::KeyT => Some(0x54u8),
            Code::KeyU => Some(0x55u8),
            Code::KeyV => Some(0x56u8),
            Code::KeyW => Some(0x57u8),
            Code::KeyX => Some(0x58u8),
            Code::KeyY => Some(0x59u8),
            Code::KeyZ => Some(0x5Au8),
            Code::Digit0 => Some(0x30u8),
            Code::Digit1 => Some(0x31u8),
            Code::Digit2 => Some(0x32u8),
            Code::Digit3 => Some(0x33u8),
            Code::Digit4 => Some(0x34u8),
            Code::Digit5 => Some(0x35u8),
            Code::Digit6 => Some(0x36u8),
            Code::Digit7 => Some(0x37u8),
            Code::Digit8 => Some(0x38u8),
            Code::Digit9 => Some(0x39u8),
            Code::Enter => Some(0x0Du8),
            Code::Tab => Some(0x09u8),
            Code::Space => Some(0x20u8),
            Code::Backspace => Some(0x08u8),
            Code::Escape => Some(0x1Bu8),
            Code::Delete => Some(0x2Eu8),
            _ => None,
        }
    }
}

/// The virtual key code of the key on macOS, where it has one.
pub fn code_to_macos_keycode(code: &Code) -> (keycode: Option<u16>)
    ensures
        keycode == code.macos_keycode(),
{
    match code {
        Code::KeyA => Some(0),
        Code::KeyB => Some(11),
        Code::KeyC => Some(8),
        Code::KeyD => Some(2),
        Code::KeyE => Some(14),
        Code::KeyF => Some(3),
        Code::KeyG => Some(5),
        Code::KeyH => Some(4),
        Code::KeyI => Some(34),
        Code::KeyJ => Some(38),
        Code::KeyK => Some(40),
        Code::KeyL => Some(37),
        Code::KeyM => Some(46),
        Code::KeyN => Some(45),
        Code::KeyO => Some(31),
        Code::KeyP => Some(35),
        Code::KeyQ => Some(12),
        Code::KeyR => Some(15),
        Code::KeyS => Some(1),
        Code::KeyT => Some(17),
        Code::KeyU => Some(32),
        Code::KeyV => Some(9),
        Code::KeyW => Some(13),
        Code::KeyX => Some(7),
        Code::KeyY => Some(16),
        Code::KeyZ => Some(6),
        Code::Digit0 => Some(29),
        Code::Digit1 => Some(18),
        Code::Digit2 => Some(19),
        Code::Digit3 => Some(20),
        Code::Digit4 => Some(21),
        Code::Digit5 => Some(23),
        Code::Digit6 => Some(22),
        Code::Digit7 => Some(26),
        Code::Digit8 => Some(28),
        Code::Digit9 => Some(25),
        Code::F1 => Some(122),
        Code::F2 => Some(120),
        Code::F3 => Some(99),
        Code::F4 => Some(118),
        Code::F5 => Some(96),
        Code::F6 => Some(97),
        Code::F7 => Some(98),
        Code::F8 => Some(100),
        Code::F9 => Some(101),
        Code::F10 => Some(109),
        Code::F11 => Some(103),
        Code::F12 => Some(111),
        Code::Enter => Some(36),
        Code::Tab => Some(48),
        Code::Space => Some(49),
        Code::Backspace => Some(51),
        Code::Escape => Some(53),
        Code::Minus => Some(27),
        Code::Equal => Some(24),
        Code::BracketLeft => Some(33),
        Code::BracketRight => Some(30),
        Code::Backslash => Some(42),
        Code::Semicolon => Some(41),
        Code::Quote => Some(39),
        Code::Backquote => Some(50),
        Code::Comma => Some(43),
        Code::Period => Some(47),
        Code::Slash => Some(44),
        Code::ArrowLeft => Some(123),
        Code::ArrowRight => Some(124),
        Code::ArrowDown => Some(125),
        Code::ArrowUp => Some(126),
        Code::Home => Some(115),
        Code::End => Some(119),
        Code::PageUp => Some(116),
        Code::PageDown => Some(121),
        Code::Delete => Some(117),
        Code::Other(_) => None,
    }
}

/// The virtual key code of the key on Windows, where it has one.
pub fn code_to_vk(code: &Code) -> (key: Option<u8>)
    ensures
        key == code.windows_key(),
{
    match code {
        Code::KeyA => Some(0x41),
        Code::KeyB => Some(0x42),
        Code::KeyC => Some(0x43),
        Code::KeyD => Some(0x44),
        Code::KeyE => Some(0x45),
        Code::KeyF => Some(0x46),
        Code::KeyG => Some(0x47),
        Code::KeyH => Some(0x48),
        Code::KeyI => Some(0x49),
        Code::KeyJ => Some(0x4A),
        Code::KeyK => Some(0x4B),
        Code::KeyL => Some(0x4C),
        Code::KeyM => Some(0x4D),
        Code::KeyN => Some(0x4E),
        Code::KeyO => Some(0x4F),
        Code::KeyP => Some(0x50),
        Code::KeyQ => Some(0x51),
        Code::KeyR => Some(0x52),
        Code::KeyS => Some(0x53),
        Code::KeyT => Some(0x54),
        Code::KeyU => Some(0x55),
        Code::KeyV => Some(0x56),
        Code::KeyW => Some(0x57),
        Code::KeyX => Some(0x58),
        Code::KeyY => Some(0x59),
        Code::KeyZ => Some(0x5A),
        Code::Digit0 => Some(0x30),
        Code::Digit1 => Some(0x31),
        Code::Digit2 => Some(0x32),
        Code::Digit3 => Some(0x33),
        Code::Digit4 => Some(0x34),
        Code::Digit5 => Some(0x35),
        Code::Digit6 => Some(0x36),
        Code::Digit7 => Some(0x37),
        Code::Digit8 => Some(0x38),
        Code::Digit9 => Some(0x39),
        Code::Enter => Some(0x0D),
        Code::Tab => Some(0x09),
        Code::Space => Some(0x20),
        Code::Backspace => Some(0x08),
        Code::Escape => Some(0x1B),
        Code::Delete => Some(0x2E),
        _ => None,
    }
}

// ---------------------------------------------------------------- modifiers

/// The bit of the Alt key among the modifiers.
pub const ALT: u32 = 0x01;

/// The bit of the Control key among the modifiers.
pub const CONTROL: u32 = 0x08;

/// The bit of the Meta key, Command or Windows, among the modifiers.
pub const META: u32 = 0x40;

/// The bit of the Shift key among the modifiers.
pub const SHIFT: u32 = 0x200;

/// The modifier keys that are held, one bit each.
#[derive(Debug, Clone, Copy, PartialEq, Eq, Structural)]
pub struct Modifiers {
    pub bits: u32,
}

impl Modifiers {
    /// The modifier with this bit is held.
    pub open spec fn holds(&self, flag: u32) -> bool {
        self.bits & flag == flag
    }
}

/// Calls `Modifiers::contains` of `keyboard_types` on the bits, which
/// `from_bits_retain` takes over unchanged: all bits of `flag` are set.
#[verifier::external_body]
fn contains(modifiers: Modifiers, flag: u32) -> (held: bool)
    ensures
        held == modifiers.holds(flag),
{
    let held = keyboard_types::Modifiers::from_bits_retain(modifiers.bits);
    held.contains(keyboard_types::Modifiers::from_bits_retain(flag))
}

/// The flags of a keyboard event on macOS, one bit for each of the four
/// modifiers that is held.
pub open spec fn cg_flags(modifiers: Modifiers) -> int {
    (if modifiers.holds(META) {
        0x100000int
    } else {
        0
    }) + (if modifiers.holds(SHIFT) {
        0x020000int
    } else {
        0
    }) + (if modifiers.holds(ALT) {
        0x080000int
    } else {
        0
    }) + (if modifiers.holds(CONTROL) {
        0x040000int
    } else {
        0
    })
}

/// The flags of a keyboard event on macOS for the modifiers that are held.
pub fn modifiers_to_cg_flags(modifiers: Modifiers) -> (flags: u64)
    ensures
        flags == cg_flags(modifiers),
{
    let mut flags: u64 = 0;
    if contains(modifiers, META) {
        flags = flags + 0x100000;
    }
    if contains(modifiers, SHIFT) {
        flags = flags + 0x020000;
    }
    if contains(modifiers, ALT) {
        flags = flags + 0x080000;
    }
    if contains(modifiers, CONTROL) {
        flags = flags + 0x040000;
    }
    flags
}

/// The virtual keys of the modifiers that are held, in the order in which they
/// are pressed on Windows: Control, Shift, Alt, Windows.
pub open spec fn modifier_keys(modifiers: Modifiers) -> Seq<u8> {
    (if modifiers.holds(CONTROL) {
        seq![0x11u8]
    } else {
        seq![]
    }) + (if modifiers.holds(SHIFT) {
        seq![0x10u8]
    } else {
        seq![]
    }) + (if modifiers.holds(ALT) {
        seq![0x12u8]
    } else {
        seq![]
    }) + (if modifiers.holds(META) {
        seq![0x5Bu8]
    } else {
        seq![]
    })
}

/// The virtual keys of the modifiers that are held, in the order in which they
/// are pressed on Windows.
pub fn modifier_vks(modifiers: Modifiers) -> (keys: Vec<u8>)
    ensures
        keys@ == modifier_keys(modifiers),
{
    let mut keys: Vec<u8> = Vec::new();
    if contains(modifiers, CONTROL) {
        keys.push(0x11);
    }
    if contains(modifiers, SHIFT) {
        keys.push(0x10);
    }
    if contains(modifiers, ALT) {
        keys.push(0x12);
    }
    if contains(modifiers, META) {
        keys.push(0x5B);
    }
    assert(keys@ =~= modifier_keys(modifiers));
    keys
}

// --------------------------------------------------------------------- laws

/// What is enough of a name to tell the keys that have a variant apart: its
/// length, its first and its last letter, and its fifth where it has one.
spec fn mark(name: Seq<char>) -> (u64, char, char, char) {
    (
        name.len() as u64,
        name[0],
        name.last(),
        if name.len() > 4 {
            name[4]
        } else {
            '-'
        },
    )
}

/// The key whose name has this mark.
spec fn key_marked(mark: (u64, char, char, char)) -> Code {
    match mark {
        (4u64, 'K', 'A', '-') => Code::KeyA,
        (4u64, 'K', 'B', '-') => Code::KeyB,
        (4u64, 'K', 'C', '-') => Code::KeyC,
        (4u64, 'K', 'D', '-') => Code::KeyD,
        (4u64, 'K', 'E', '-') => Code::KeyE,
        (4u64, 'K', 'F', '-') => Code::KeyF,
        (4u64, 'K', 'G', '-') => Code::KeyG,
        (4u64, 'K', 'H', '-') => Code::KeyH,
        (4u64, 'K', 'I', '-') => Code::KeyI,
        (4u64, 'K', 'J', '-') => Code::KeyJ,
        (4u64, 'K', 'K', '-') => Code::KeyK,
        (4u64, 'K', 'L', '-') => Code::KeyL,
        (4u64, 'K', 'M', '-') => Code::KeyM,
        (4u64, 'K', 'N', '-') => Code::KeyN,
        (4u64, 'K', 'O', '-') => Code::KeyO,
        (4u64, 'K', 'P', '-') => Code::KeyP,
        (4u64, 'K', 'Q', '-') => Code::KeyQ,
        (4u64, 'K', 'R', '-') => Code::KeyR,
        (4u64, 'K', 'S', '-') => Code::KeyS,
        (4u64, 'K', 'T', '-') => Code::KeyT,
        (4u64, 'K', 'U', '-') => Code::KeyU,
        (4u64, 'K', 'V', '-') => Code::KeyV,
        (4u64, 'K', 'W', '-') => Code::KeyW,
        (4u64, 'K', 'X', '-') => Code::KeyX,
        (4u64, 'K', 'Y', '-') => Code::KeyY,
        (4u64, 'K', 'Z', '-') => Code::KeyZ,
        (6u64, 'D', '0', 't') => Code::Digit0,
        (6u64, 'D', '1', 't') => Code::Digit1,
        (6u64, 'D', '2', 't') => Code::Digit2,
        (6u64, 'D', '3', 't') => Code::Digit3,
        (6u64, 'D', '4', 't') => Code::Digit4,
        (6u64, 'D', '5', 't') => Code::Digit5,
        (6u64, 'D', '6', 't') => Code::Digit6,
        (6u64, 'D', '7', 't') => Code::Digit7,
        (6u64, 'D', '8', 't') => Code::Digit8,
        (6u64, 'D', '9', 't') => Code::Digit9,
        (2u64, 'F', '1', '-') => Code::F1,
        (2u64, 'F', '2', '-') => Code::F2,
        (2u64, 'F', '3', '-') => Code::F3,
        (2u64, 'F', '4', '-') => Code::F4,
        (2u64, 'F', '5', '-') => Code::F5,
        (2u64, 'F', '6', '-') => Code::F6,
        (2u64, 'F', '7', '-') => Code::F7,
        (2u64, 'F', '8', '-') => Code::F8,
        (2u64, 'F', '9', '-') => Code::F9,
        (3u64, 'F', '0', '-') => Code::F10,
        (3u64, 'F', '1', '-') => Code::F11,
        (3u64, 'F', '2', '-') => Code::F12,
        (5u64, 'E', 'r', 'r') => Code::Enter,
        (3u64, 'T', 'b', '-') => Code::Tab,
        (5u64, 'S', 'e', 'e') => Code::Space,
        (9u64, 'B', 'e', 's') => Code::Backspace,
        (6u64, 'E', 'e', 'p') => Code::Escape,
        (5u64, 'M', 's', 's') => Code::Minus,
        (5u64, 'E', 'l', 'l') => Code::Equal,
        (11u64, 'B', 't', 'k') => Code::BracketLeft,
        (12u64, 'B', 't', 'k') => Code::BracketRight,
        (9u64, 'B', 'h', 's') => Code::Backslash,
        (9u64, 'S', 'n', 'c') => Code::Semicolon,
        (5u64, 'Q', 'e', 'e') => Code::Quote,
        (9u64, 'B', 'e', 'q') => Code::Backquote,
        (5u64, 'C', 'a', 'a') => Code::Comma,
        (6u64, 'P', 'd', 'o') => Code::Period,
        (5u64, 'S', 'h', 'h') => Code::Slash,
        (9u64, 'A', 't', 'w') => Code::ArrowLeft,
        (10u64, 'A', 't', 'w') => Code::ArrowRight,
        (9u64, 'A', 'n', 'w') => Code::ArrowDown,
        (7u64, 'A', 'p', 'w') => Code::ArrowUp,
        (4u64, 'H', 'e', '-') => Code::Home,
        (3u64, 'E', 'd', '-') => Code::End,
        (6u64, 'P', 'p', 'U') => Code::PageUp,
        (8u64, 'P', 'n', 'D') => Code::PageDown,
        (6u64, 'D', 'e', 't') => Code::Delete,
        _ => arbitrary(),
    }
}

proof fn a_name_has_the_mark_of_its_key(key: Code)
    requires
        !(key is Other),
    ensures
        key_marked(mark(key.spelling())) == key,
{
    match key {
        Code::KeyA => {
            reveal_strlit("KeyA");
        },
        Code::KeyB => {
            reveal_strlit("KeyB");
        },
        Code::KeyC => {
            reveal_strlit("KeyC");
        },
        Code::KeyD => {
            reveal_strlit("KeyD");
        },
        Code::KeyE => {
            reveal_strlit("KeyE");
        },
        Code::KeyF => {
            reveal_strlit("KeyF");
        },
        Code::KeyG => {
            reveal_strlit("KeyG");
        },
        Code::KeyH => {
            reveal_strlit("KeyH");
        },
        Code::KeyI => {
            reveal_strlit("KeyI");
        },
        Code::KeyJ => {
            reveal_strlit("KeyJ");
        },
        Code::KeyK => {
            reveal_strlit("KeyK");
        },
        Code::KeyL => {
            reveal_strlit("KeyL");
        },
        Code::KeyM => {
            reveal_strlit("KeyM");
        },
        Code::KeyN => {
            reveal_strlit("KeyN");
        },
        Code::KeyO => {
            reveal_strlit("KeyO");
        },
        Code::KeyP => {
            reveal_strlit("KeyP");
        },
        Code::KeyQ => {
            reveal_strlit("KeyQ");
        },
        Code::KeyR => {
            reveal_strlit("KeyR");
        },
        Code::KeyS => {
            reveal_strlit("KeyS");
        },
        Code::KeyT => {
            reveal_strlit("KeyT");
        },
        Code::KeyU => {
            reveal_strlit("KeyU");
        },
        Code::KeyV => {
            reveal_strlit("KeyV");
        },
        Code::KeyW => {
            reveal_strlit("KeyW");
        },
        Code::KeyX => {
            reveal_strlit("KeyX");
        },
        Code::KeyY => {
            reveal_strlit("KeyY");
        },
        Code::KeyZ => {
            reveal_strlit("KeyZ");
        },
        Code::Digit0 => {
            reveal_strlit("Digit0");
        },
        Code::Digit1 => {
            reveal_strlit("Digit1");
        },
        Code::Digit2 => {
            reveal_strlit("Digit2");
        },
        Code::Digit3 => {
            reveal_strlit("Digit3");
        },
        Code::Digit4 => {
            reveal_strlit("Digit4");
        },
        Code::Digit5 => {
            reveal_strlit("Digit5");
        },
        Code::Digit6 => {
            reveal_strlit("Digit6");
        },
        Code::Digit7 => {
            reveal_strlit("Digit7");
        },
        Code::Digit8 => {
            reveal_strlit("Digit8");
        },
        Code::Digit9 => {
            reveal_strlit("Digit9");
        },
        Code::F1 => {
            reveal_strlit("F1");
        },
        Code::F2 => {
            reveal_strlit("F2");
        },
        Code::F3 => {
            reveal_strlit("F3");
        },
        Code::F4 => {
            reveal_strlit("F4");
        },
        Code::F5 => {
            reveal_strlit("F5");
        },
        Code::F6 => {
            reveal_strlit("F6");
        },
        Code::F7 => {
            reveal_strlit("F7");
        },
        Code::F8 => {
            reveal_strlit("F8");
        },
        Code::F9 => {
            reveal_strlit("F9");
        },
        Code::F10 => {
            reveal_strlit("F10");
        },
        Code::F11 => {
            reveal_strlit("F11");
        },
        Code::F12 => {
            reveal_strlit("F12");
        },
        Code::Enter => {
            reveal_strlit("Enter");
        },
        Code::Tab => {
            reveal_strlit("Tab");
        },
        Code::Space => {
            reveal_strlit("Space");
        },
        Code::Backspace => {
            reveal_strlit("Backspace");
        },
        Code::Escape => {
            reveal_strlit("Escape");
        },
        Code::Minus => {
            reveal_strlit("Minus");
        },
        Code::Equal => {
            reveal_strlit("Equal");
        },
        Code::BracketLeft => {
            reveal_strlit("BracketLeft");
        },
        Code::BracketRight => {
            reveal_strlit("BracketRight");
        },
        Code::Backslash => {
            reveal_strlit("Backslash");
        },
        Code::Semicolon => {
            reveal_strlit("Semicolon");
        },
        Code::Quote => {
            reveal_strlit("Quote");
        },
        Code::Backquote => {
            reveal_strlit("Backquote");
        },
        Code::Comma => {
            reveal_strlit("Comma");
        },
        Code::Period => {
            reveal_strlit("Period");
        },
        Code::Slash => {
            reveal_strlit("Slash");
        },
        Code::ArrowLeft => {
            reveal_strlit("ArrowLeft");
        },
        Code::ArrowRight => {
            reveal_strlit("ArrowRight");
        },
        Code::ArrowDown => {
            reveal_strlit("ArrowDown");
        },
        Code::ArrowUp => {
            reveal_strlit("ArrowUp");
        },
        Code::Home => {
            reveal_strlit("Home");
        },
        Code::End => {
            reveal_strlit("End");
        },
        Code::PageUp => {
            reveal_strlit("PageUp");
        },
        Code::PageDown => {
            reveal_strlit("PageDown");
        },
        Code::Delete => {
            reveal_strlit("Delete");
        },
        Code::Other(_) => {},
    }
}

/// No two keys that have a variant have the same name.
pub proof fn keys_are_told_by_their_names(a: Code, b: Code)
    requires
        !(a is Other),
        !(b is Other),
        a.spelling() == b.spelling(),
    ensures
        a == b,
{
    a_name_has_the_mark_of_its_key(a);
    a_name_has_the_mark_of_its_key(b);
}

/// The key at a macOS key code, where there is one.
spec fn macos_key_at(keycode: u16) -> Code {
    match keycode {
        0u16 => Code::KeyA,
        11u16 => Code::KeyB,
        8u16 => Code::KeyC,
        2u16 => Code::KeyD,
        14u16 => Code::KeyE,
        3u16 => Code::KeyF,
        5u16 => Code::KeyG,
        4u16 => Code::KeyH,
        34u16 => Code::KeyI,
        38u16 => Code::KeyJ,
        40u16 => Code::KeyK,
        37u16 => Code::KeyL,
        46u16 => Code::KeyM,
        45u16 => Code::KeyN,
        31u16 => Code::KeyO,
        35u16 => Code::KeyP,
        12u16 => Code::KeyQ,
        15u16 => Code::KeyR,
        1u16 => Code::KeyS,
        17u16 => Code::KeyT,
        32u16 => Code::KeyU,
        9u16 => Code::KeyV,
        13u16 => Code::KeyW,
        7u16 => Code::KeyX,
        16u16 => Code::KeyY,
        6u16 => Code::KeyZ,
        29u16 => Code::Digit0,
        18u16 => Code::Digit1,
        19u16 => Code::Digit2,
        20u16 => Code::Digit3,
        21u16 => Code::Digit4,
        23u16 => Code::Digit5,
        22u16 => Code::Digit6,
        26u16 => Code::Digit7,
        28u16 => Code::Digit8,
        25u16 => Code::Digit9,
        122u16 => Code::F1,
        120u16 => Code::F2,
        99u16 => Code::F3,
        118u16 => Code::F4,
        96u16 => Code::F5,
        97u16 => Code::F6,
        98u16 => Code::F7,
        100u16 => Code::F8,
        101u16 => Code::F9,
        109u16 => Code::F10,
        103u16 => Code::F11,
        111u16 => Code::F12,
        36u16 => Code::Enter,
        48u16 => Code::Tab,
        49u16 => Code::Space,
        51u16 => Code::Backspace,
        53u16 => Code::Escape,
        27u16 => Code::Minus,
        24u16 => Code::Equal,
        33u16 => Code::BracketLeft,
        30u16 => Code::BracketRight,
        42u16 => Code::Backslash,
        41u16 => Code::Semicolon,
        39u16 => Code::Quote,
        50u16 => Code::Backquote,
        43u16 => Code::Comma,
        47u16 => Code::Period,
        44u16 => Code::Slash,
        123u16 => Code::ArrowLeft,
        124u16 => Code::ArrowRight,
        125u16 => Code::ArrowDown,
        126u16 => Code::ArrowUp,
        115u16 => Code::Home,
        119u16 => Code::End,
        116u16 => Code::PageUp,
        121u16 => Code::PageDown,
        117u16 => Code::Delete,
        _ => arbitrary(),
    }
}

/// The key at a Windows key code, where there is one.
spec fn windows_key_at(key: u8) -> Code {
    match key {
        0x41u8 => Code::KeyA,
        0x42u8 => Code::KeyB,
        0x43u8 => Code::KeyC,
        0x44u8 => Code::KeyD,
        0x45u8 => Code::KeyE,
        0x46u8 => Code::KeyF,
        0x47u8 => Code::KeyG,
        0x48u8 => Code::KeyH,
        0x49u8 => Code::KeyI,
        0x4Au8 => Code::KeyJ,
        0x4Bu8 => Code::KeyK,
        0x4Cu8 => Code::KeyL,
        0x4Du8 => Code::KeyM,
        0x4Eu8 => Code::KeyN,
        0x4Fu8 => Code::KeyO,
        0x50u8 => Code::KeyP,
        0x51u8 => Code::KeyQ,
        0x52u8 => Code::KeyR,
        0x53u8 => Code::KeyS,
        0x54u8 => Code::KeyT,
        0x55u8 => Code::KeyU,
        0x56u8 => Code::KeyV,
        0x57u8 => Code::KeyW,
        0x58u8 => Code::KeyX,
        0x59u8 => Code::KeyY,
        0x5Au8 => Code::KeyZ,
        0x30u8 => Code::Digit0,
        0x31u8 => Code::Digit1,
        0x32u8 => Code::Digit2,
        0x33u8 => Code::Digit3,
        0x34u8 => Code::Digit4,
        0x35u8 => Code::Digit5,
        0x36u8 => Code::Digit6,
        0x37u8 => Code::Digit7,
        0x38u8 => Code::Digit8,
        0x39u8 => Code::Digit9,
        0x0Du8 => Code::Enter,
        0x09u8 => Code::Tab,
        0x20u8 => Code::Space,
        0x08u8 => Code::Backspace,
        0x1Bu8 => Code::Escape,
        0x2Eu8 => Code::Delete,
        _ => arbitrary(),
    }
}

/// No two keys have the same key code on macOS.
pub proof fn macos_keycodes_differ(a: Code, b: Code)
    requires
        a.macos_keycode() is Some,
        a.macos_keycode() == b.macos_keycode(),
    ensures
        a == b,
{
    assert(macos_key_at(a.macos_keycode()->0) == a);
    assert(macos_key_at(b.macos_keycode()->0) == b);
}

/// No two keys have the same key code on Windows.
pub proof fn windows_keys_differ(a: Code, b: Code)
    requires
        a.windows_key() is Some,
        a.windows_key() == b.windows_key(),
    ensures
        a == b,
{
    assert(windows_key_at(a.windows_key()->0) == a);
    assert(windows_key_at(b.windows_key()->0) == b);
}

/// On Windows the keys of letters and digits have the ASCII values of these.
pub proof fn letters_and_digits_are_ascii(code: Code, key: u8)
    requires
        code.windows_key() == Some(key),
    ensures
        65 <= key <= 90 ==> code.spelling() == "Key"@.push(key as char),
        48 <= key <= 57 ==> code.spelling() == "Digit"@.push(key as char),
{
    reveal_strlit("Key");
    reveal_strlit("Digit");
    reveal_strlit("KeyA");
    reveal_strlit("KeyB");
    reveal_strlit("KeyC");
    reveal_strlit("KeyD");
    reveal_strlit("KeyE");
    reveal_strlit("KeyF");
    reveal_strlit("KeyG");
    reveal_strlit("KeyH");
    reveal_strlit("KeyI");
    reveal_strlit("KeyJ");
    reveal_strlit("KeyK");
    reveal_strlit("KeyL");
    reveal_strlit("KeyM");
    reveal_strlit("KeyN");
    reveal_strlit("KeyO");
    reveal_strlit("KeyP");
    reveal_strlit("KeyQ");
    reveal_strlit("KeyR");
    reveal_strlit("KeyS");
    reveal_strlit("KeyT");
    reveal_strlit("KeyU");
    reveal_strlit("KeyV");
    reveal_strlit("KeyW");
    reveal_strlit("KeyX");
    reveal_strlit("KeyY");
    reveal_strlit("KeyZ");
    reveal_strlit("Digit0");
    reveal_strlit("Digit1");
    reveal_strlit("Digit2");
    reveal_strlit("Digit3");
    reveal_strlit("Digit4");
    reveal_strlit("Digit5");
    reveal_strlit("Digit6");
    reveal_strlit("Digit7");
    reveal_strlit("Digit8");
    reveal_strlit("Digit9");
    if 65 <= key <= 90 {
        assert(code.spelling() =~= "Key"@.push(key as char));
    }
    if 48 <= key <= 57 {
        assert(code.spelling() =~= "Digit"@.push(key as char));
    }
}

/// Every key that can be pressed on Windows can be pressed on macOS.
pub proof fn macos_knows_the_windows_keys(code: Code)
    requires
        code.windows_key() is Some,
    ensures
        code.macos_keycode() is Some,
{
}

/// The flags of a macOS event tell which of the four modifiers are held, and
/// so do the modifier keys on Windows.
pub proof fn flags_tell_the_modifiers(a: Modifiers, b: Modifiers)
    ensures
        cg_flags(a) == cg_flags(b) <==> {
            &&& a.holds(META) == b.holds(META)
            &&& a.holds(SHIFT) == b.holds(SHIFT)
            &&& a.holds(ALT) == b.holds(ALT)
            &&& a.holds(CONTROL) == b.holds(CONTROL)
        },
        modifier_keys(a) == modifier_keys(b) <==> cg_flags(a) == cg_flags(b),
{
    modifier_keys_hold(a);
    modifier_keys_hold(b);
}

proof fn modifier_keys_hold(modifiers: Modifiers)
    ensures
        modifier_keys(modifiers).contains(0x11) == modifiers.holds(CONTROL),
        modifier_keys(modifiers).contains(0x10) == modifiers.holds(SHIFT),
        modifier_keys(modifiers).contains(0x12) == modifiers.holds(ALT),
        modifier_keys(modifiers).contains(0x5B) == modifiers.holds(META),
{
    let keys = modifier_keys(modifiers);
    let shift: int = if modifiers.holds(CONTROL) {
        1
    } else {
        0
    };
    let alt: int = shift + if modifiers.holds(SHIFT) {
        1int
    } else {
        0
    };
    let meta: int = alt + if modifiers.holds(ALT) {
        1int
    } else {
        0
    };
    if modifiers.holds(CONTROL) {
        assert(keys[0] == 0x11);
    }
    if modifiers.holds(SHIFT) {
        assert(keys[shift] == 0x10);
    }
    if modifiers.holds(ALT) {
        assert(keys[alt] == 0x12);
    }
    if modifiers.holds(META) {
        assert(keys[meta] == 0x5B);
    }
}

/// A key code on macOS belongs to one key, and every key has the code of its
/// place on the keyboard; only a key without a variant has none.
pub proof fn every_key_has_its_place_on_macos(code: Code)
    ensures
        code.macos_keycode() is None <==> code is Other,
        code.macos_keycode() == Some(0u16) <==> code == Code::KeyA,
        code.macos_keycode() == Some(11u16) <==> code == Code::KeyB,
        code.macos_keycode() == Some(8u16) <==> code == Code::KeyC,
        code.macos_keycode() == Some(2u16) <==> code == Code::KeyD,
        code.macos_keycode() == Some(14u16) <==> code == Code::KeyE,
        code.macos_keycode() == Some(3u16) <==> code == Code::KeyF,
        code.macos_keycode() == Some(5u16) <==> code == Code::KeyG,
        code.macos_keycode() == Some(4u16) <==> code == Code::KeyH,
        code.macos_keycode() == Some(34u16) <==> code == Code::KeyI,
        code.macos_keycode() == Some(38u16) <==> code == Code::KeyJ,
        code.macos_keycode() == Some(40u16) <==> code == Code::KeyK,
        code.macos_keycode() == Some(37u16) <==> code == Code::KeyL,
        code.macos_keycode() == Some(46u16) <==> code == Code::KeyM,
        code.macos_keycode() == Some(45u16) <==> code == Code::KeyN,
        code.macos_keycode() == Some(31u16) <==> code == Code::KeyO,
        code.macos_keycode() == Some(35u16) <==> code == Code::KeyP,
        code.macos_keycode() == Some(12u16) <==> code == Code::KeyQ,
        code.macos_keycode() == Some(15u16) <==> code == Code::KeyR,
        code.macos_keycode() == Some(1u16) <==> code == Code::KeyS,
        code.macos_keycode() == Some(17u16) <==> code == Code::KeyT,
        code.macos_keycode() == Some(32u16) <==> code == Code::KeyU,
        code.macos_keycode() == Some(9u16) <==> code == Code::KeyV,
        code.macos_keycode() == Some(13u16) <==> code == Code::KeyW,
        code.macos_keycode() == Some(7u16) <==> code == Code::KeyX,
        code.macos_keycode() == Some(16u16) <==> code == Code::KeyY,
        code.macos_keycode() == Some(6u16) <==> code == Code::KeyZ,
        code.macos_keycode() == Some(29u16) <==> code == Code::Digit0,
        code.macos_keycode() == Some(18u16) <==> code == Code::Digit1,
        code.macos_keycode() == Some(19u16) <==> code == Code::Digit2,
        code.macos_keycode() == Some(20u16) <==> code == Code::Digit3,
        code.macos_keycode() == Some(21u16) <==> code == Code::Digit4,
        code.macos_keycode() == Some(23u16) <==> code == Code::Digit5,
        code.macos_keycode() == Some(22u16) <==> code == Code::Digit6,
        code.macos_keycode() == Some(26u16) <==> code == Code::Digit7,
        code.macos_keycode() == Some(28u16) <==> code == Code::Digit8,
        code.macos_keycode() == Some(25u16) <==> code == Code::Digit9,
        code.macos_keycode() == Some(122u16) <==> code == Code::F1,
        code.macos_keycode() == Some(120u16) <==> code == Code::F2,
        code.macos_keycode() == Some(99u16) <==> code == Code::F3,
        code.macos_keycode() == Some(118u16) <==> code == Code::F4,
        code.macos_keycode() == Some(96u16) <==> code == Code::F5,
        code.macos_keycode() == Some(97u16) <==> code == Code::F6,
        code.macos_keycode() == Some(98u16) <==> code == Code::F7,
        code.macos_keycode() == Some(100u16) <==> code == Code::F8,
        code.macos_keycode() == Some(101u16) <==> code == Code::F9,
        code.macos_keycode() == Some(109u16) <==> code == Code::F10,
        code.macos_keycode() == Some(103u16) <==> code == Code::F11,
        code.macos_keycode() == Some(111u16) <==> code == Code::F12,
        code.macos_keycode() == Some(36u16) <==> code == Code::Enter,
        code.macos_keycode() == Some(48u16) <==> code == Code::Tab,
        code.macos_keycode() == Some(49u16) <==> code == Code::Space,
        code.macos_keycode() == Some(51u16) <==> code == Code::Backspace,
        code.macos_keycode() == Some(53u16) <==> code == Code::Escape,
        code.macos_keycode() == Some(27u16) <==> code == Code::Minus,
        code.macos_keycode() == Some(24u16) <==> code == Code::Equal,
        code.macos_keycode() == Some(33u16) <==> code == Code::BracketLeft,
        code.macos_keycode() == Some(30u16) <==> code == Code::BracketRight,
        code.macos_keycode() == Some(42u16) <==> code == Code::Backslash,
        code.macos_keycode() == Some(41u16) <==> code == Code::Semicolon,
        code.macos_keycode() == Some(39u16) <==> code == Code::Quote,
        code.macos_keycode() == Some(50u16) <==> code == Code::Backquote,
        code.macos_keycode() == Some(43u16) <==> code == Code::Comma,
        code.macos_keycode() == Some(47u16) <==> code == Code::Period,
        code.macos_keycode() == Some(44u16) <==> code == Code::Slash,
        code.macos_keycode() == Some(123u16) <==> code == Code::ArrowLeft,
        code.macos_keycode() == Some(124u16) <==> code == Code::ArrowRight,
        code.macos_keycode() == Some(125u16) <==> code == Code::ArrowDown,
        code.macos_keycode() == Some(126u16) <==> code == Code::ArrowUp,
        code.macos_keycode() == Some(115u16) <==> code == Code::Home,
        code.macos_keycode() == Some(119u16) <==> code == Code::End,
        code.macos_keycode() == Some(116u16) <==> code == Code::PageUp,
        code.macos_keycode() == Some(121u16) <==> code == Code::PageDown,
        code.macos_keycode() == Some(117u16) <==> code == Code::Delete,
{
}

/// The letters, the digits and six more keys have a key code on Windows: those
/// that stand for a character of ASCII have its value, and the delete key has the
/// one of the full stop. No other key has any.
pub proof fn every_key_has_its_value_on_windows(code: Code)
    ensures
        code.windows_key() == Some(0x41u8) <==> code == Code::KeyA,
        code.windows_key() == Some(0x42u8) <==> code == Code::KeyB,
        code.windows_key() == Some(0x43u8) <==> code == Code::KeyC,
        code.windows_key() == Some(0x44u8) <==> code == Code::KeyD,
        code.windows_key() == Some(0x45u8) <==> code == Code::KeyE,
        code.windows_key() == Some(0x46u8) <==> code == Code::KeyF,
        code.windows_key() == Some(0x47u8) <==> code == Code::KeyG,
        code.windows_key() == Some(0x48u8) <==> code == Code::KeyH,
        code.windows_key() == Some(0x49u8) <==> code == Code::KeyI,
        code.windows_key() == Some(0x4Au8) <==> code == Code::KeyJ,
        code.windows_key() == Some(0x4Bu8) <==> code == Code::KeyK,
        code.windows_key() == Some(0x4Cu8) <==> code == Code::KeyL,
        code.windows_key() == Some(0x4Du8) <==> code == Code::KeyM,
        code.windows_key() == Some(0x4Eu8) <==> code == Code::KeyN,
        code.windows_key() == Some(0x4Fu8) <==> code == Code::KeyO,
        code.windows_key() == Some(0x50u8) <==> code == Code::KeyP,
        code.windows_key() == Some(0x51u8) <==> code == Code::KeyQ,
        code.windows_key() == Some(0x52u8) <==> code == Code::KeyR,
        code.windows_key() == Some(0x53u8) <==> code == Code::KeyS,
        code.windows_key() == Some(0x54u8) <==> code == Code::KeyT,
        code.windows_key() == Some(0x55u8) <==> code == Code::KeyU,
        code.windows_key() == Some(0x56u8) <==> code == Code::KeyV,
        code.windows_key() == Some(0x57u8) <==> code == Code::KeyW,
        code.windows_key() == Some(0x58u8) <==> code == Code::KeyX,
        code.windows_key() == Some(0x59u8) <==> code == Code::KeyY,
        code.windows_key() == Some(0x5Au8) <==> code == Code::KeyZ,
        code.windows_key() == Some(0x30u8) <==> code == Code::Digit0,
        code.windows_key() == Some(0x31u8) <==> code == Code::Digit1,
        code.windows_key() == Some(0x32u8) <==> code == Code::Digit2,
        code.windows_key() == Some(0x33u8) <==> code == Code::Digit3,
        code.windows_key() == Some(0x34u8) <==> code == Code::Digit4,
        code.windows_key() == Some(0x35u8) <==> code == Code::Digit5,
        code.windows_key() == Some(0x36u8) <==> code == Code::Digit6,
        code.windows_key() == Some(0x37u8) <==> code == Code::Digit7,
        code.windows_key() == Some(0x38u8) <==> code == Code::Digit8,
        code.windows_key() == Some(0x39u8) <==> code == Code::Digit9,
        code.windows_key() == Some(0x0Du8) <==> code == Code::Enter,
        code.windows_key() == Some(0x09u8) <==> code == Code::Tab,
        code.windows_key() == Some(0x20u8) <==> code == Code::Space,
        code.windows_key() == Some(0x08u8) <==> code == Code::Backspace,
        code.windows_key() == Some(0x1Bu8) <==> code == Code::Escape,
        code.windows_key() == Some(0x2Eu8) <==> code == Code::Delete,
        code.windows_key() is Some ==> {
            ||| code == Code::KeyA
            ||| code == Code::KeyB
            ||| code == Code::KeyC
            ||| code == Code::KeyD
            ||| code == Code::KeyE
            ||| code == Code::KeyF
            ||| code == Code::KeyG
            ||| code == Code::KeyH
            ||| code == Code::KeyI
            ||| code == Code::KeyJ
            ||| code == Code::KeyK
            ||| code == Code::KeyL
            ||| code == Code::KeyM
            ||| code == Code::KeyN
            ||| code == Code::KeyO
            ||| code == Code::KeyP
            ||| code == Code::KeyQ
            ||| code == Code::KeyR
            ||| code == Code::KeyS
            ||| code == Code::KeyT
            ||| code == Code::KeyU
            ||| code == Code::KeyV
            ||| code == Code::KeyW
            ||| code == Code::KeyX
            ||| code == Code::KeyY
            ||| code == Code::KeyZ
            ||| code == Code::Digit0
            ||| code == Code::Digit1
            ||| code == Code::Digit2
            ||| code == Code::Digit3
            ||| code == Code::Digit4
            ||| code == Code::Digit5
            ||| code == Code::Digit6
            ||| code == Code::Digit7
            ||| code == Code::Digit8
            ||| code == Code::Digit9
            ||| code == Code::Enter
            ||| code == Code::Tab
            ||| code == Code::Space
            ||| code == Code::Backspace
            ||| code == Code::Escape
            ||| code == Code::Delete
        },
{
}

/// A key has the name of its variant, and any other key the name that it is
/// known by.
pub proof fn every_key_has_its_name(code: Code, name: String)
    ensures
        code == Code::KeyA ==> code.spelling() == "KeyA"@,
        code == Code::KeyB ==> code.spelling() == "KeyB"@,
        code == Code::KeyC ==> code.spelling() == "KeyC"@,
        code == Code::KeyD ==> code.spelling() == "KeyD"@,
        code == Code::KeyE ==> code.spelling() == "KeyE"@,
        code == Code::KeyF ==> code.spelling() == "KeyF"@,
        code == Code::KeyG ==> code.spelling() == "KeyG"@,
        code == Code::KeyH ==> code.spelling() == "KeyH"@,
        code == Code::KeyI ==> code.spelling() == "KeyI"@,
        code == Code::KeyJ ==> code.spelling() == "KeyJ"@,
        code == Code::KeyK ==> code.spelling() == "KeyK"@,
        code == Code::KeyL ==> code.spelling() == "KeyL"@,
        code == Code::KeyM ==> code.spelling() == "KeyM"@,
        code == Code::KeyN ==> code.spelling() == "KeyN"@,
        code == Code::KeyO ==> code.spelling() == "KeyO"@,
        code == Code::KeyP ==> code.spelling() == "KeyP"@,
        code == Code::KeyQ ==> code.spelling() == "KeyQ"@,
        code == Code::KeyR ==> code.spelling() == "KeyR"@,
        code == Code::KeyS ==> code.spelling() == "KeyS"@,
        code == Code::KeyT ==> code.spelling() == "KeyT"@,
        code == Code::KeyU ==> code.spelling() == "KeyU"@,
        code == Code::KeyV ==> code.spelling() == "KeyV"@,
        code == Code::KeyW ==> code.spelling() == "KeyW"@,
        code == Code::KeyX ==> code.spelling() == "KeyX"@,
        code == Code::KeyY ==> code.spelling() == "KeyY"@,
        code == Code::KeyZ ==> code.spelling() == "KeyZ"@,
        code == Code::Digit0 ==> code.spelling() == "Digit0"@,
        code == Code::Digit1 ==> code.spelling() == "Digit1"@,
        code == Code::Digit2 ==> code.spelling() == "Digit2"@,
        code == Code::Digit3 ==> code.spelling() == "Digit3"@,
        code == Code::Digit4 ==> code.spelling() == "Digit4"@,
        code == Code::Digit5 ==> code.spelling() == "Digit5"@,
        code == Code::Digit6 ==> code.spelling() == "Digit6"@,
        code == Code::Digit7 ==> code.spelling() == "Digit7"@,
        code == Code::Digit8 ==> code.spelling() == "Digit8"@,
        code == Code::Digit9 ==> code.spelling() == "Digit9"@,
        code == Code::F1 ==> code.spelling() == "F1"@,
        code == Code::F2 ==> code.spelling() == "F2"@,
        code == Code::F3 ==> code.spelling() == "F3"@,
        code == Code::F4 ==> code.spelling() == "F4"@,
        code == Code::F5 ==> code.spelling() == "F5"@,
        code == Code::F6 ==> code.spelling() == "F6"@,
        code == Code::F7 ==> code.spelling() == "F7"@,
        code == Code::F8 ==> code.spelling() == "F8"@,
        code == Code::F9 ==> code.spelling() == "F9"@,
        code == Code::F10 ==> code.spelling() == "F10"@,
        code == Code::F11 ==> code.spelling() == "F11"@,
        code == Code::F12 ==> code.spelling() == "F12"@,
        code == Code::Enter ==> code.spelling() == "Enter"@,
        code == Code::Tab ==> code.spelling() == "Tab"@,
        code == Code::Space ==> code.spelling() == "Space"@,
        code == Code::Backspace ==> code.spelling() == "Backspace"@,
        code == Code::Escape ==> code.spelling() == "Escape"@,
        code == Code::Minus ==> code.spelling() == "Minus"@,
        code == Code::Equal ==> code.spelling() == "Equal"@,
        code == Code::BracketLeft ==> code.spelling() == "BracketLeft"@,
        code == Code::BracketRight ==> code.spelling() == "BracketRight"@,
        code == Code::Backslash ==> code.spelling() == "Backslash"@,
        code == Code::Semicolon ==> code.spelling() == "Semicolon"@,
        code == Code::Quote ==> code.spelling() == "Quote"@,
        code == Code::Backquote ==> code.spelling() == "Backquote"@,
        code == Code::Comma ==> code.spelling() == "Comma"@,
        code == Code::Period ==> code.spelling() == "Period"@,
        code == Code::Slash ==> code.spelling() == "Slash"@,
        code == Code::ArrowLeft ==> code.spelling() == "ArrowLeft"@,
        code == Code::ArrowRight ==> code.spelling() == "ArrowRight"@,
        code == Code::ArrowDown ==> code.spelling() == "ArrowDown"@,
        code == Code::ArrowUp ==> code.spelling() == "ArrowUp"@,
        code == Code::Home ==> code.spelling() == "Home"@,
        code == Code::End ==> code.spelling() == "End"@,
        code == Code::PageUp ==> code.spelling() == "PageUp"@,
        code == Code::PageDown ==> code.spelling() == "PageDown"@,
        code == Code::Delete ==> code.spelling() == "Delete"@,
        code == Code::Other(name) ==> code.spelling() == name@,
{
}

/// Each modifier is one bit, and is held exactly where that bit is set.
#[verifier::spinoff_prover]
pub proof fn a_modifier_is_one_bit(modifiers: Modifiers)
    ensures
        modifiers.holds(ALT) <==> modifiers.bits % 2 == 1,
        modifiers.holds(CONTROL) <==> (modifiers.bits / 8) % 2 == 1,
        modifiers.holds(META) <==> (modifiers.bits / 0x40) % 2 == 1,
        modifiers.holds(SHIFT) <==> (modifiers.bits / 0x200) % 2 == 1,
{
    let bits = modifiers.bits;
    assert((bits & 1 == 1) == (bits % 2 == 1)) by (bit_vector);
    assert((bits & 8 == 8) == ((bits / 8) % 2 == 1)) by (bit_vector);
    assert((bits & 0x40 == 0x40) == ((bits / 0x40) % 2 == 1)) by (bit_vector);
    assert((bits & 0x200 == 0x200) == ((bits / 0x200) % 2 == 1)) by (bit_vector);
}

/// The flags of a macOS event hold the bit of a modifier exactly where that one
/// is held, and no other bit.
#[verifier::spinoff_prover]
pub proof fn flags_hold_the_bits_of_the_modifiers(modifiers: Modifiers)
    ensures
        0 <= cg_flags(modifiers) < 0x200000,
        cg_flags(modifiers) % 0x20000 == 0,
        (cg_flags(modifiers) / 0x20000) % 2 == 1 <==> (modifiers.bits / 0x200) % 2 == 1,
        (cg_flags(modifiers) / 0x40000) % 2 == 1 <==> (modifiers.bits / 8) % 2 == 1,
        (cg_flags(modifiers) / 0x80000) % 2 == 1 <==> modifiers.bits % 2 == 1,
        (cg_flags(modifiers) / 0x100000) % 2 == 1 <==> (modifiers.bits / 0x40) % 2 == 1,
{
    a_modifier_is_one_bit(modifiers);
}

/// The modifier keys on Windows are those that are held, Control before Shift,
/// Shift before Alt and Alt before the Windows key.
#[verifier::spinoff_prover]
pub proof fn modifier_keys_are_in_order(modifiers: Modifiers)
    ensures
        ({
            let keys = modifier_keys(modifiers);
            let control = (modifiers.bits / 8) % 2;
            let shift = (modifiers.bits / 0x200) % 2;
            let alt = modifiers.bits % 2;
            let meta = (modifiers.bits / 0x40) % 2;
            &&& keys.len() == control + shift + alt + meta
            &&& control == 1 ==> keys[0] == 0x11
            &&& shift == 1 ==> keys[control as int] == 0x10
            &&& alt == 1 ==> keys[control + shift] == 0x12
            &&& meta == 1 ==> keys[control + shift + alt] == 0x5B
        }),
{
    a_modifier_is_one_bit(modifiers);
}

/// A key that is known by its name alone has a name that no other key has.
pub proof fn a_key_without_a_variant_is_well_named(name: String, key: Code)
    requires
        !(key is Other),
    ensures
        key.well_named(),
        Code::Other(name).well_named() ==> key.spelling() != name@,
{
}

/// The name of the key with a name is that name, and it is the key with the
/// variant of that name where there is one.
pub proof fn a_name_comes_back(name: &str, key: Code, again: String)
    requires
        call_ensures(Code::with_name, (name,), key),
        call_ensures(Code::name, (&key,), again),
    ensures
        again@ == name@,
        forall|other: Code| !(other is Other) && #[trigger] other.spelling() == name@ ==> other == key,
{
    assert forall|other: Code| !(other is Other) && #[trigger] other.spelling() == name@ implies other
        == key by {
        keys_are_told_by_their_names(other, key);
    }
}

} // verus!
