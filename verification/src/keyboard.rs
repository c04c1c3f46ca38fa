//! Logical keys and modifier sets, and their mapping to Win32 virtual-key
//! codes and display names.

use vstd::prelude::*;

verus! {

/// The set of keyboard modifiers an accelerator may carry.
#[derive(Clone, Copy, Debug, PartialEq, Eq, Structural)]
pub struct ModifiersState {
    pub control: bool,
    pub shift: bool,
    pub alt: bool,
    pub super_key: bool,
}

impl ModifiersState {
    /// A modifier set with no modifier pressed.
    pub fn empty() -> (r: ModifiersState)
        ensures
            !r.control && !r.shift && !r.alt && !r.super_key,
    {
        ModifiersState { control: false, shift: false, alt: false, super_key: false }
    }
}

/// The logical keys an accelerator may name: letters, digits, and a fixed set
/// of named keys.
#[derive(Clone, Copy, Debug, PartialEq, Eq, Structural)]
pub enum KeyCode {
    KeyA,
    KeyB,
    KeyC,
    KeyD,
    KeyE,
    KeyF,
    KeyG,
    KeyH,
    KeyI,
    KeyJ,
    KeyK,
    KeyL,
    KeyM,
    KeyN,
    KeyO,
    KeyP,
    KeyQ,
    KeyR,
    KeyS,
    KeyT,
    KeyU,
    KeyV,
    KeyW,
    KeyX,
    KeyY,
    KeyZ,
    Digit0,
    Digit1,
    Digit2,
    Digit3,
    Digit4,
    Digit5,
    Digit6,
    Digit7,
    Digit8,
    Digit9,
    Escape,
    Delete,
    Insert,
    PageUp,
    PageDown,
    ArrowLeft,
    ArrowRight,
    ArrowUp,
    ArrowDown,
    Space,
    Enter,
    Tab,
    Home,
    End,
    Fn,
}

/// The Win32 virtual-key code of a logical key, or `None` where the host has
/// no mapping (the `Fn` key has none).
pub open spec fn key_vk(k: KeyCode) -> Option<u16> {
    match k {
        KeyCode::KeyA => Some(0x41u16),
        KeyCode::KeyB => Some(0x42u16),
        KeyCode::KeyC => Some(0x43u16),
        KeyCode::KeyD => Some(0x44u16),
        KeyCode::KeyE => Some(0x45u16),
        KeyCode::KeyF => Some(0x46u16),
        KeyCode::KeyG => Some(0x47u16),
        KeyCode::KeyH => Some(0x48u16),
        KeyCode::KeyI => Some(0x49u16),
        KeyCode::KeyJ => Some(0x4Au16),
        KeyCode::KeyK => Some(0x4Bu16),
        KeyCode::KeyL => Some(0x4Cu16),
        KeyCode::KeyM => Some(0x4Du16),
        KeyCode::KeyN => Some(0x4Eu16),
        KeyCode::KeyO => Some(0x4Fu16),
        KeyCode::KeyP => Some(0x50u16),
        KeyCode::KeyQ => Some(0x51u16),
        KeyCode::KeyR => Some(0x52u16),
        KeyCode::KeyS => Some(0x53u16),
        KeyCode::KeyT => Some(0x54u16),
        KeyCode::KeyU => Some(0x55u16),
        KeyCode::KeyV => Some(0x56u16),
        KeyCode::KeyW => Some(0x57u16),
        KeyCode::KeyX => Some(0x58u16),
        KeyCode::KeyY => Some(0x59u16),
        KeyCode::KeyZ => Some(0x5Au16),
        KeyCode::Digit0 => Some(0x30u16),
        KeyCode::Digit1 => Some(0x31u16),
        KeyCode::Digit2 => Some(0x32u16),
        KeyCode::Digit3 => Some(0x33u16),
        KeyCode::Digit4 => Some(0x34u16),
        KeyCode::Digit5 => Some(0x35u16),
        KeyCode::Digit6 => Some(0x36u16),
        KeyCode::Digit7 => Some(0x37u16),
        KeyCode::Digit8 => Some(0x38u16),
        KeyCode::Digit9 => Some(0x39u16),
        KeyCode::Escape => Some(0x1Bu16),
        KeyCode::Delete => Some(0x2Eu16),
        KeyCode::Insert => Some(0x2Du16),
        KeyCode::PageUp => Some(0x21u16),
        KeyCode::PageDown => Some(0x22u16),
        KeyCode::ArrowLeft => Some(0x25u16),
        KeyCode::ArrowRight => Some(0x27u16),
        KeyCode::ArrowUp => Some(0x26u16),
        KeyCode::ArrowDown => Some(0x28u16),
        KeyCode::Space => Some(0x20u16),
        KeyCode::Enter => Some(0x0Du16),
        KeyCode::Tab => Some(0x09u16),
        KeyCode::Home => Some(0x24u16),
        KeyCode::End => Some(0x23u16),
        KeyCode::Fn => None,
    }
}

/// Every mapped virtual-key code fits in the low byte, so none encodes
/// implicit modifiers in its high byte.
pub proof fn lemma_key_vk_low_byte(k: KeyCode)
    ensures
        key_vk(k) matches Some(vk) ==> vk <= 0xff,
{
}

/// Look a logical key up in the virtual-key table.
pub fn key_to_vk(k: &KeyCode) -> (r: Option<u16>)
    ensures
        r == key_vk(*k),
{
    match k {
        KeyCode::KeyA => Some(0x41u16),
        KeyCode::KeyB => Some(0x42u16),
        KeyCode::KeyC => Some(0x43u16),
        KeyCode::KeyD => Some(0x44u16),
        KeyCode::KeyE => Some(0x45u16),
        KeyCode::KeyF => Some(0x46u16),
        KeyCode::KeyG => Some(0x47u16),
        KeyCode::KeyH => Some(0x48u16),
        KeyCode::KeyI => Some(0x49u16),
        KeyCode::KeyJ => Some(0x4Au16),
        KeyCode::KeyK => Some(0x4Bu16),
        KeyCode::KeyL => Some(0x4Cu16),
        KeyCode::KeyM => Some(0x4Du16),
        KeyCode::KeyN => Some(0x4Eu16),
        KeyCode::KeyO => Some(0x4Fu16),
        KeyCode::KeyP => Some(0x50u16),
        KeyCode::KeyQ => Some(0x51u16),
        KeyCode::KeyR => Some(0x52u16),
        KeyCode::KeyS => Some(0x53u16),
        KeyCode::KeyT => Some(0x54u16),
        KeyCode::KeyU => Some(0x55u16),
        KeyCode::KeyV => Some(0x56u16),
        KeyCode::KeyW => Some(0x57u16),
        KeyCode::KeyX => Some(0x58u16),
        KeyCode::KeyY => Some(0x59u16),
        KeyCode::KeyZ => Some(0x5Au16),
        KeyCode::Digit0 => Some(0x30u16),
        KeyCode::Digit1 => Some(0x31u16),
        KeyCode::Digit2 => Some(0x32u16),
        KeyCode::Digit3 => Some(0x33u16),
        KeyCode::Digit4 => Some(0x34u16),
        KeyCode::Digit5 => Some(0x35u16),
        KeyCode::Digit6 => Some(0x36u16),
        KeyCode::Digit7 => Some(0x37u16),
        KeyCode::Digit8 => Some(0x38u16),
        KeyCode::Digit9 => Some(0x39u16),
        KeyCode::Escape => Some(0x1Bu16),
        KeyCode::Delete => Some(0x2Eu16),
        KeyCode::Insert => Some(0x2Du16),
        KeyCode::PageUp => Some(0x21u16),
        KeyCode::PageDown => Some(0x22u16),
        KeyCode::ArrowLeft => Some(0x25u16),
        KeyCode::ArrowRight => Some(0x27u16),
        KeyCode::ArrowUp => Some(0x26u16),
        KeyCode::ArrowDown => Some(0x28u16),
        KeyCode::Space => Some(0x20u16),
        KeyCode::Enter => Some(0x0Du16),
        KeyCode::Tab => Some(0x09u16),
        KeyCode::Home => Some(0x24u16),
        KeyCode::End => Some(0x23u16),
        KeyCode::Fn => None,
    }
}

/// The display form of a logical key: letters and digits verbatim, short
/// names for the named keys that have one, and the key's plain name for the
/// rest.
pub open spec fn key_label(k: KeyCode) -> Seq<char> {
    match k {
        KeyCode::KeyA => "A"@,
        KeyCode::KeyB => "B"@,
        KeyCode::KeyC => "C"@,
        KeyCode::KeyD => "D"@,
        KeyCode::KeyE => "E"@,
        KeyCode::KeyF => "F"@,
        KeyCode::KeyG => "G"@,
        KeyCode::KeyH => "H"@,
        KeyCode::KeyI => "I"@,
        KeyCode::KeyJ => "J"@,
        KeyCode::KeyK => "K"@,
        KeyCode::KeyL => "L"@,
        KeyCode::KeyM => "M"@,
        KeyCode::KeyN => "N"@,
        KeyCode::KeyO => "O"@,
        KeyCode::KeyP => "P"@,
        KeyCode::KeyQ => "Q"@,
        KeyCode::KeyR => "R"@,
        KeyCode::KeyS => "S"@,
        KeyCode::KeyT => "T"@,
        KeyCode::KeyU => "U"@,
        KeyCode::KeyV => "V"@,
        KeyCode::KeyW => "W"@,
        KeyCode::KeyX => "X"@,
        KeyCode::KeyY => "Y"@,
        KeyCode::KeyZ => "Z"@,
        KeyCode::Digit0 => "0"@,
        KeyCode::Digit1 => "1"@,
        KeyCode::Digit2 => "2"@,
        KeyCode::Digit3 => "3"@,
        KeyCode::Digit4 => "4"@,
        KeyCode::Digit5 => "5"@,
        KeyCode::Digit6 => "6"@,
        KeyCode::Digit7 => "7"@,
        KeyCode::Digit8 => "8"@,
        KeyCode::Digit9 => "9"@,
        KeyCode::Escape => "Esc"@,
        KeyCode::Delete => "Del"@,
        KeyCode::Insert => "Ins"@,
        KeyCode::PageUp => "PgUp"@,
        KeyCode::PageDown => "PgDn"@,
        KeyCode::ArrowLeft => "Left"@,
        KeyCode::ArrowRight => "Right"@,
        KeyCode::ArrowUp => "Up"@,
        KeyCode::ArrowDown => "Down"@,
        KeyCode::Space => "Space"@,
        KeyCode::Enter => "Enter"@,
        KeyCode::Tab => "Tab"@,
        KeyCode::Home => "Home"@,
        KeyCode::End => "End"@,
        KeyCode::Fn => "Fn"@,
    }
}

/// The display form of a logical key, for appending to a menu title.
pub fn key_display(k: &KeyCode) -> (r: &'static str)
    ensures
        r@ == key_label(*k),
{
    match k {
        KeyCode::KeyA => "A",
        KeyCode::KeyB => "B",
        KeyCode::KeyC => "C",
        KeyCode::KeyD => "D",
        KeyCode::KeyE => "E",
        KeyCode::KeyF => "F",
        KeyCode::KeyG => "G",
        KeyCode::KeyH => "H",
        KeyCode::KeyI => "I",
        KeyCode::KeyJ => "J",
        KeyCode::KeyK => "K",
        KeyCode::KeyL => "L",
        KeyCode::KeyM => "M",
        KeyCode::KeyN => "N",
        KeyCode::KeyO => "O",
        KeyCode::KeyP => "P",
        KeyCode::KeyQ => "Q",
        KeyCode::KeyR => "R",
        KeyCode::KeyS => "S",
        KeyCode::KeyT => "T",
        KeyCode::KeyU => "U",
        KeyCode::KeyV => "V",
        KeyCode::KeyW => "W",
        KeyCode::KeyX => "X",
        KeyCode::KeyY => "Y",
        KeyCode::KeyZ => "Z",
        KeyCode::Digit0 => "0",
        KeyCode::Digit1 => "1",
        KeyCode::Digit2 => "2",
        KeyCode::Digit3 => "3",
        KeyCode::Digit4 => "4",
        KeyCode::Digit5 => "5",
        KeyCode::Digit6 => "6",
        KeyCode::Digit7 => "7",
        KeyCode::Digit8 => "8",
        KeyCode::Digit9 => "9",
        KeyCode::Escape => "Esc",
        KeyCode::Delete => "Del",
        KeyCode::Insert => "Ins",
        KeyCode::PageUp => "PgUp",
        KeyCode::PageDown => "PgDn",
        KeyCode::ArrowLeft => "Left",
        KeyCode::ArrowRight => "Right",
        KeyCode::ArrowUp => "Up",
        KeyCode::ArrowDown => "Down",
        KeyCode::Space => "Space",
        KeyCode::Enter => "Enter",
        KeyCode::Tab => "Tab",
        KeyCode::Home => "Home",
        KeyCode::End => "End",
        KeyCode::Fn => "Fn",
    }
}

} // verus!
