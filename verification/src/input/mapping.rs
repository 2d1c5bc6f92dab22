//! Mapping from `KeyboardEvent.code` to platform key codes.

use vstd::prelude::*;

use crate::input::error::InputError;
use crate::text::{decimal_text, owned, str_eq};

verus! {

/// Windows virtual key code (`VIRTUAL_KEY` as `u16`).
#[derive(Debug, Clone, Copy, PartialEq, Eq, Structural)]
pub struct WinVk(pub u16);

/// macOS key code (`CGKeyCode`).
#[derive(Debug, Clone, Copy, PartialEq, Eq, Structural)]
pub struct MacKeyCode(pub u16);

/// The Windows virtual key of a `KeyboardEvent.code`, if known.
pub open spec fn win_vk_of(code: Seq<char>) -> Option<u16> {
    if code == "KeyA"@ {
        Some(0x41u16)
    } else if code == "KeyB"@ {
        Some(0x42u16)
    } else if code == "KeyC"@ {
        Some(0x43u16)
    } else if code == "KeyD"@ {
        Some(0x44u16)
    } else if code == "KeyE"@ {
        Some(0x45u16)
    } else if code == "KeyF"@ {
        Some(0x46u16)
    } else if code == "KeyG"@ {
        Some(0x47u16)
    } else if code == "KeyH"@ {
        Some(0x48u16)
    } else if code == "KeyI"@ {
        Some(0x49u16)
    } else if code == "KeyJ"@ {
        Some(0x4Au16)
    } else if code == "KeyK"@ {
        Some(0x4Bu16)
    } else if code == "KeyL"@ {
        Some(0x4Cu16)
    } else if code == "KeyM"@ {
        Some(0x4Du16)
    } else if code == "KeyN"@ {
        Some(0x4Eu16)
    } else if code == "KeyO"@ {
        Some(0x4Fu16)
    } else if code == "KeyP"@ {
        Some(0x50u16)
    } else if code == "KeyQ"@ {
        Some(0x51u16)
    } else if code == "KeyR"@ {
        Some(0x52u16)
    } else if code == "KeyS"@ {
        Some(0x53u16)
    } else if code == "KeyT"@ {
        Some(0x54u16)
    } else if code == "KeyU"@ {
        Some(0x55u16)
    } else if code == "KeyV"@ {
        Some(0x56u16)
    } else if code == "KeyW"@ {
        Some(0x57u16)
    } else if code == "KeyX"@ {
        Some(0x58u16)
    } else if code == "KeyY"@ {
        Some(0x59u16)
    } else if code == "KeyZ"@ {
        Some(0x5Au16)
    } else if code == "Digit0"@ || code == "Numpad0"@ {
        Some(0x30u16)
    } else if code == "Digit1"@ || code == "Numpad1"@ {
        Some(0x31u16)
    } else if code == "Digit2"@ || code == "Numpad2"@ {
        Some(0x32u16)
    } else if code == "Digit3"@ || code == "Numpad3"@ {
        Some(0x33u16)
    } else if code == "Digit4"@ || code == "Numpad4"@ {
        Some(0x34u16)
    } else if code == "Digit5"@ || code == "Numpad5"@ {
        Some(0x35u16)
    } else if code == "Digit6"@ || code == "Numpad6"@ {
        Some(0x36u16)
    } else if code == "Digit7"@ || code == "Numpad7"@ {
        Some(0x37u16)
    } else if code == "Digit8"@ || code == "Numpad8"@ {
        Some(0x38u16)
    } else if code == "Digit9"@ || code == "Numpad9"@ {
        Some(0x39u16)
    } else if code == "Space"@ {
        Some(0x20u16)
    } else if code == "Enter"@ || code == "NumpadEnter"@ {
        Some(0x0Du16)
    } else if code == "Escape"@ {
        Some(0x1Bu16)
    } else if code == "Tab"@ {
        Some(0x09u16)
    } else if code == "Backspace"@ {
        Some(0x08u16)
    } else if code == "Delete"@ {
        Some(0x2Eu16)
    } else if code == "ArrowLeft"@ {
        Some(0x25u16)
    } else if code == "ArrowUp"@ {
        Some(0x26u16)
    } else if code == "ArrowRight"@ {
        Some(0x27u16)
    } else if code == "ArrowDown"@ {
        Some(0x28u16)
    } else if code == "Home"@ {
        Some(0x24u16)
    } else if code == "End"@ {
        Some(0x23u16)
    } else if code == "PageUp"@ {
        Some(0x21u16)
    } else if code == "PageDown"@ {
        Some(0x22u16)
    } else if code == "ShiftLeft"@ || code == "ShiftRight"@ {
        Some(0x10u16)
    } else if code == "ControlLeft"@ || code == "ControlRight"@ {
        Some(0x11u16)
    } else if code == "AltLeft"@ || code == "AltRight"@ {
        Some(0x12u16)
    } else if code == "MetaLeft"@ || code == "MetaRight"@ || code == "OSLeft"@ || code == "OSRight"@ {
        Some(0x5Bu16)
    } else if code == "F1"@ {
        Some(0x70u16)
    } else if code == "F2"@ {
        Some(0x71u16)
    } else if code == "F3"@ {
        Some(0x72u16)
    } else if code == "F4"@ {
        Some(0x73u16)
    } else if code == "F5"@ {
        Some(0x74u16)
    } else if code == "F6"@ {
        Some(0x75u16)
    } else if code == "F7"@ {
        Some(0x76u16)
    } else if code == "F8"@ {
        Some(0x77u16)
    } else if code == "F9"@ {
        Some(0x78u16)
    } else if code == "F10"@ {
        Some(0x79u16)
    } else if code == "F11"@ {
        Some(0x7Au16)
    } else if code == "F12"@ {
        Some(0x7Bu16)
    } else if code == "Minus"@ {
        Some(0xBDu16)
    } else if code == "Equal"@ {
        Some(0xBBu16)
    } else if code == "BracketLeft"@ {
        Some(0xDBu16)
    } else if code == "BracketRight"@ {
        Some(0xDDu16)
    } else if code == "Backslash"@ {
        Some(0xDCu16)
    } else if code == "Semicolon"@ {
        Some(0xBAu16)
    } else if code == "Quote"@ {
        Some(0xDEu16)
    } else if code == "Comma"@ {
        Some(0xBCu16)
    } else if code == "Period"@ {
        Some(0xBEu16)
    } else if code == "Slash"@ {
        Some(0xBFu16)
    } else if code == "Backquote"@ {
        Some(0xC0u16)
    } else {
        None
    }
}

/// The macOS (Carbon) virtual key code of a `KeyboardEvent.code`, if known.
pub open spec fn mac_keycode_of(code: Seq<char>) -> Option<u16> {
    if code == "KeyA"@ {
        Some(0x00u16)
    } else if code == "KeyS"@ {
        Some(0x01u16)
    } else if code == "KeyD"@ {
        Some(0x02u16)
    } else if code == "KeyF"@ {
        Some(0x03u16)
    } else if code == "KeyH"@ {
        Some(0x04u16)
    } else if code == "KeyG"@ {
        Some(0x05u16)
    } else if code == "KeyZ"@ {
        Some(0x06u16)
    } else if code == "KeyX"@ {
        Some(0x07u16)
    } else if code == "KeyC"@ {
        Some(0x08u16)
    } else if code == "KeyV"@ {
        Some(0x09u16)
    } else if code == "KeyB"@ {
        Some(0x0Bu16)
    } else if code == "KeyQ"@ {
        Some(0x0Cu16)
    } else if code == "KeyW"@ {
        Some(0x0Du16)
    } else if code == "KeyE"@ {
        Some(0x0Eu16)
    } else if code == "KeyR"@ {
        Some(0x0Fu16)
    } else if code == "KeyY"@ {
        Some(0x10u16)
    } else if code == "KeyT"@ {
        Some(0x11u16)
    } else if code == "Digit1"@ {
        Some(0x12u16)
    } else if code == "Digit2"@ {
        Some(0x13u16)
    } else if code == "Digit3"@ {
        Some(0x14u16)
    } else if code == "Digit4"@ {
        Some(0x15u16)
    } else if code == "Digit6"@ {
        Some(0x16u16)
    } else if code == "Digit5"@ {
        Some(0x17u16)
    } else if code == "Equal"@ {
        Some(0x18u16)
    } else if code == "Digit9"@ {
        Some(0x19u16)
    } else if code == "Digit7"@ {
        Some(0x1Au16)
    } else if code == "Minus"@ {
        Some(0x1Bu16)
    } else if code == "Digit8"@ {
        Some(0x1Cu16)
    } else if code == "Digit0"@ {
        Some(0x1Du16)
    } else if code == "BracketRight"@ {
        Some(0x1Eu16)
    } else if code == "KeyO"@ {
        Some(0x1Fu16)
    } else if code == "KeyU"@ {
        Some(0x20u16)
    } else if code == "BracketLeft"@ {
        Some(0x21u16)
    } else if code == "KeyI"@ {
        Some(0x22u16)
    } else if code == "KeyP"@ {
        Some(0x23u16)
    } else if code == "Enter"@ || code == "NumpadEnter"@ {
        Some(0x24u16)
    } else if code == "KeyL"@ {
        Some(0x25u16)
    } else if code == "KeyJ"@ {
        Some(0x26u16)
    } else if code == "Quote"@ {
        Some(0x27u16)
    } else if code == "KeyK"@ {
        Some(0x28u16)
    } else if code == "Semicolon"@ {
        Some(0x29u16)
    } else if code == "Backslash"@ {
        Some(0x2Au16)
    } else if code == "Comma"@ {
        Some(0x2Bu16)
    } else if code == "Slash"@ {
        Some(0x2Cu16)
    } else if code == "KeyN"@ {
        Some(0x2Du16)
    } else if code == "KeyM"@ {
        Some(0x2Eu16)
    } else if code == "Period"@ {
        Some(0x2Fu16)
    } else if code == "Tab"@ {
        Some(0x30u16)
    } else if code == "Space"@ {
        Some(0x31u16)
    } else if code == "Backquote"@ {
        Some(0x32u16)
    } else if code == "Backspace"@ {
        Some(0x33u16)
    } else if code == "Escape"@ {
        Some(0x35u16)
    } else if code == "MetaRight"@ || code == "OSRight"@ {
        Some(0x36u16)
    } else if code == "MetaLeft"@ || code == "OSLeft"@ {
        Some(0x37u16)
    } else if code == "ShiftLeft"@ {
        Some(0x38u16)
    } else if code == "AltLeft"@ {
        Some(0x3Au16)
    } else if code == "ControlLeft"@ {
        Some(0x3Bu16)
    } else if code == "ShiftRight"@ {
        Some(0x3Cu16)
    } else if code == "AltRight"@ {
        Some(0x3Du16)
    } else if code == "ControlRight"@ {
        Some(0x3Eu16)
    } else if code == "F17"@ {
        Some(0x40u16)
    } else if code == "F18"@ {
        Some(0x4Fu16)
    } else if code == "F19"@ {
        Some(0x50u16)
    } else if code == "F5"@ {
        Some(0x60u16)
    } else if code == "F6"@ {
        Some(0x61u16)
    } else if code == "F7"@ {
        Some(0x62u16)
    } else if code == "F3"@ {
        Some(0x63u16)
    } else if code == "F8"@ {
        Some(0x64u16)
    } else if code == "F9"@ {
        Some(0x65u16)
    } else if code == "F11"@ {
        Some(0x67u16)
    } else if code == "F13"@ {
        Some(0x69u16)
    } else if code == "F16"@ {
        Some(0x6Au16)
    } else if code == "F14"@ {
        Some(0x6Bu16)
    } else if code == "F10"@ {
        Some(0x6Du16)
    } else if code == "F12"@ {
        Some(0x6Fu16)
    } else if code == "F15"@ {
        Some(0x71u16)
    } else if code == "Home"@ {
        Some(0x73u16)
    } else if code == "PageUp"@ {
        Some(0x74u16)
    } else if code == "Delete"@ {
        Some(0x75u16)
    } else if code == "F4"@ {
        Some(0x76u16)
    } else if code == "End"@ {
        Some(0x77u16)
    } else if code == "F2"@ {
        Some(0x78u16)
    } else if code == "PageDown"@ {
        Some(0x79u16)
    } else if code == "F1"@ {
        Some(0x7Au16)
    } else if code == "ArrowLeft"@ {
        Some(0x7Bu16)
    } else if code == "ArrowRight"@ {
        Some(0x7Cu16)
    } else if code == "ArrowDown"@ {
        Some(0x7Du16)
    } else if code == "ArrowUp"@ {
        Some(0x7Eu16)
    } else {
        None
    }
}

/// Resolves a `KeyboardEvent.code` to a Windows virtual key.
#[verifier::spinoff_prover]
pub fn win_vk(code: &str) -> (r: Result<WinVk, InputError>)
    ensures
        win_vk_of(code@) matches Some(v) ==> (r matches Ok(k) && k.0 == v),
        win_vk_of(code@) is None ==> (r matches Err(InputError::UnknownKey(s)) && s@ == code@),
        forall|c: char|
            'A' <= c <= 'Z' && code@ == #[trigger] letter_key(c) ==> (r matches Ok(k) && k.0
                == c as u16),
        forall|d: char|
            '0' <= d <= '9' && code@ == #[trigger] digit_key(d) ==> (r matches Ok(k) && k.0
                == d as u16),
        forall|d: char|
            '0' <= d <= '9' && code@ == #[trigger] numpad_key(d) ==> (r matches Ok(k) && k.0
                == d as u16),
        forall|n: nat|
            1 <= n <= 12 && code@ == #[trigger] function_key(n) ==> (r matches Ok(k) && k.0 == 0x6F
                + n),
        (code@ == "ShiftLeft"@ || code@ == "ShiftRight"@) ==> (r matches Ok(k) && k.0 == 0x10),
        (code@ == "ControlLeft"@ || code@ == "ControlRight"@) ==> (r matches Ok(k) && k.0 == 0x11),
        (code@ == "AltLeft"@ || code@ == "AltRight"@) ==> (r matches Ok(k) && k.0 == 0x12),
        (code@ == "MetaLeft"@ || code@ == "MetaRight"@) ==> (r matches Ok(k) && k.0 == 0x5B),
{
    proof {
        lemma_win_letters();
        lemma_win_digits();
        lemma_win_function_keys();
        lemma_win_modifiers_sides_alike();
    }
    if str_eq(code, "KeyA") {
        return Ok(WinVk(0x41));
    }
    if str_eq(code, "KeyB") {
        return Ok(WinVk(0x42));
    }
    if str_eq(code, "KeyC") {
        return Ok(WinVk(0x43));
    }
    if str_eq(code, "KeyD") {
        return Ok(WinVk(0x44));
    }
    if str_eq(code, "KeyE") {
        return Ok(WinVk(0x45));
    }
    if str_eq(code, "KeyF") {
        return Ok(WinVk(0x46));
    }
    if str_eq(code, "KeyG") {
        return Ok(WinVk(0x47));
    }
    if str_eq(code, "KeyH") {
        return Ok(WinVk(0x48));
    }
    if str_eq(code, "KeyI") {
        return Ok(WinVk(0x49));
    }
    if str_eq(code, "KeyJ") {
        return Ok(WinVk(0x4A));
    }
    if str_eq(code, "KeyK") {
        return Ok(WinVk(0x4B));
    }
    if str_eq(code, "KeyL") {
        return Ok(WinVk(0x4C));
    }
    if str_eq(code, "KeyM") {
        return Ok(WinVk(0x4D));
    }
    if str_eq(code, "KeyN") {
        return Ok(WinVk(0x4E));
    }
    if str_eq(code, "KeyO") {
        return Ok(WinVk(0x4F));
    }
    if str_eq(code, "KeyP") {
        return Ok(WinVk(0x50));
    }
    if str_eq(code, "KeyQ") {
        return Ok(WinVk(0x51));
    }
    if str_eq(code, "KeyR") {
        return Ok(WinVk(0x52));
    }
    if str_eq(code, "KeyS") {
        return Ok(WinVk(0x53));
    }
    if str_eq(code, "KeyT") {
        return Ok(WinVk(0x54));
    }
    if str_eq(code, "KeyU") {
        return Ok(WinVk(0x55));
    }
    if str_eq(code, "KeyV") {
        return Ok(WinVk(0x56));
    }
    if str_eq(code, "KeyW") {
        return Ok(WinVk(0x57));
    }
    if str_eq(code, "KeyX") {
        return Ok(WinVk(0x58));
    }
    if str_eq(code, "KeyY") {
        return Ok(WinVk(0x59));
    }
    if str_eq(code, "KeyZ") {
        return Ok(WinVk(0x5A));
    }
    if str_eq(code, "Digit0") || str_eq(code, "Numpad0") {
        return Ok(WinVk(0x30));
    }
    if str_eq(code, "Digit1") || str_eq(code, "Numpad1") {
        return Ok(WinVk(0x31));
    }
    if str_eq(code, "Digit2") || str_eq(code, "Numpad2") {
        return Ok(WinVk(0x32));
    }
    if str_eq(code, "Digit3") || str_eq(code, "Numpad3") {
        return Ok(WinVk(0x33));
    }
    if str_eq(code, "Digit4") || str_eq(code, "Numpad4") {
        return Ok(WinVk(0x34));
    }
    if str_eq(code, "Digit5") || str_eq(code, "Numpad5") {
        return Ok(WinVk(0x35));
    }
    if str_eq(code, "Digit6") || str_eq(code, "Numpad6") {
        return Ok(WinVk(0x36));
    }
    if str_eq(code, "Digit7") || str_eq(code, "Numpad7") {
        return Ok(WinVk(0x37));
    }
    if str_eq(code, "Digit8") || str_eq(code, "Numpad8") {
        return Ok(WinVk(0x38));
    }
    if str_eq(code, "Digit9") || str_eq(code, "Numpad9") {
        return Ok(WinVk(0x39));
    }
    if str_eq(code, "Space") {
        return Ok(WinVk(0x20));
    }
    if str_eq(code, "Enter") || str_eq(code, "NumpadEnter") {
        return Ok(WinVk(0x0D));
    }
    if str_eq(code, "Escape") {
        return Ok(WinVk(0x1B));
    }
    if str_eq(code, "Tab") {
        return Ok(WinVk(0x09));
    }
    if str_eq(code, "Backspace") {
        return Ok(WinVk(0x08));
    }
    if str_eq(code, "Delete") {
        return Ok(WinVk(0x2E));
    }
    if str_eq(code, "ArrowLeft") {
        return Ok(WinVk(0x25));
    }
    if str_eq(code, "ArrowUp") {
        return Ok(WinVk(0x26));
    }
    if str_eq(code, "ArrowRight") {
        return Ok(WinVk(0x27));
    }
    if str_eq(code, "ArrowDown") {
        return Ok(WinVk(0x28));
    }
    if str_eq(code, "Home") {
        return Ok(WinVk(0x24));
    }
    if str_eq(code, "End") {
        return Ok(WinVk(0x23));
    }
    if str_eq(code, "PageUp") {
        return Ok(WinVk(0x21));
    }
    if str_eq(code, "PageDown") {
        return Ok(WinVk(0x22));
    }
    if str_eq(code, "ShiftLeft") || str_eq(code, "ShiftRight") {
        return Ok(WinVk(0x10));
    }
    if str_eq(code, "ControlLeft") || str_eq(code, "ControlRight") {
        return Ok(WinVk(0x11));
    }
    if str_eq(code, "AltLeft") || str_eq(code, "AltRight") {
        return Ok(WinVk(0x12));
    }
    if str_eq(code, "MetaLeft") || str_eq(code, "MetaRight") || str_eq(code, "OSLeft") || str_eq(code, "OSRight") {
        return Ok(WinVk(0x5B));
    }
    if str_eq(code, "F1") {
        return Ok(WinVk(0x70));
    }
    if str_eq(code, "F2") {
        return Ok(WinVk(0x71));
    }
    if str_eq(code, "F3") {
        return Ok(WinVk(0x72));
    }
    if str_eq(code, "F4") {
        return Ok(WinVk(0x73));
    }
    if str_eq(code, "F5") {
        return Ok(WinVk(0x74));
    }
    if str_eq(code, "F6") {
        return Ok(WinVk(0x75));
    }
    if str_eq(code, "F7") {
        return Ok(WinVk(0x76));
    }
    if str_eq(code, "F8") {
        return Ok(WinVk(0x77));
    }
    if str_eq(code, "F9") {
        return Ok(WinVk(0x78));
    }
    if str_eq(code, "F10") {
        return Ok(WinVk(0x79));
    }
    if str_eq(code, "F11") {
        return Ok(WinVk(0x7A));
    }
    if str_eq(code, "F12") {
        return Ok(WinVk(0x7B));
    }
    if str_eq(code, "Minus") {
        return Ok(WinVk(0xBD));
    }
    if str_eq(code, "Equal") {
        return Ok(WinVk(0xBB));
    }
    if str_eq(code, "BracketLeft") {
        return Ok(WinVk(0xDB));
    }
    if str_eq(code, "BracketRight") {
        return Ok(WinVk(0xDD));
    }
    if str_eq(code, "Backslash") {
        return Ok(WinVk(0xDC));
    }
    if str_eq(code, "Semicolon") {
        return Ok(WinVk(0xBA));
    }
    if str_eq(code, "Quote") {
        return Ok(WinVk(0xDE));
    }
    if str_eq(code, "Comma") {
        return Ok(WinVk(0xBC));
    }
    if str_eq(code, "Period") {
        return Ok(WinVk(0xBE));
    }
    if str_eq(code, "Slash") {
        return Ok(WinVk(0xBF));
    }
    if str_eq(code, "Backquote") {
        return Ok(WinVk(0xC0));
    }
    Err(InputError::UnknownKey(owned(code)))
}

/// Resolves a `KeyboardEvent.code` to a macOS (Carbon) virtual key code.
#[verifier::spinoff_prover]
pub fn mac_keycode(code: &str) -> (r: Result<MacKeyCode, InputError>)
    ensures
        mac_keycode_of(code@) matches Some(v) ==> (r matches Ok(k) && k.0 == v),
        mac_keycode_of(code@) is None ==> (r matches Err(InputError::UnknownKey(s)) && s@ == code@),
        r matches Ok(k) ==> k.0 <= 0x7E,
        r matches Ok(k) ==> forall|b: Seq<char>|
            b != code@ && #[trigger] mac_keycode_of(b) == Some(k.0) ==> mac_aliases(code@, b),
{
    proof {
        lemma_mac_codes_bounded(code@);
        assert forall|b: Seq<char>|
            b != code@ && mac_keycode_of(code@) is Some && #[trigger] mac_keycode_of(b)
                == mac_keycode_of(code@) implies mac_aliases(code@, b) by {
            lemma_mac_codes_distinct(code@, b);
        }
    }
    if str_eq(code, "KeyA") {
        return Ok(MacKeyCode(0x00));
    }
    if str_eq(code, "KeyS") {
        return Ok(MacKeyCode(0x01));
    }
    if str_eq(code, "KeyD") {
        return Ok(MacKeyCode(0x02));
    }
    if str_eq(code, "KeyF") {
        return Ok(MacKeyCode(0x03));
    }
    if str_eq(code, "KeyH") {
        return Ok(MacKeyCode(0x04));
    }
    if str_eq(code, "KeyG") {
        return Ok(MacKeyCode(0x05));
    }
    if str_eq(code, "KeyZ") {
        return Ok(MacKeyCode(0x06));
    }
    if str_eq(code, "KeyX") {
        return Ok(MacKeyCode(0x07));
    }
    if str_eq(code, "KeyC") {
        return Ok(MacKeyCode(0x08));
    }
    if str_eq(code, "KeyV") {
        return Ok(MacKeyCode(0x09));
    }
    if str_eq(code, "KeyB") {
        return Ok(MacKeyCode(0x0B));
    }
    if str_eq(code, "KeyQ") {
        return Ok(MacKeyCode(0x0C));
    }
    if str_eq(code, "KeyW") {
        return Ok(MacKeyCode(0x0D));
    }
    if str_eq(code, "KeyE") {
        return Ok(MacKeyCode(0x0E));
    }
    if str_eq(code, "KeyR") {
        return Ok(MacKeyCode(0x0F));
    }
    if str_eq(code, "KeyY") {
        return Ok(MacKeyCode(0x10));
    }
    if str_eq(code, "KeyT") {
        return Ok(MacKeyCode(0x11));
    }
    if str_eq(code, "Digit1") {
        return Ok(MacKeyCode(0x12));
    }
    if str_eq(code, "Digit2") {
        return Ok(MacKeyCode(0x13));
    }
    if str_eq(code, "Digit3") {
        return Ok(MacKeyCode(0x14));
    }
    if str_eq(code, "Digit4") {
        return Ok(MacKeyCode(0x15));
    }
    if str_eq(code, "Digit6") {
        return Ok(MacKeyCode(0x16));
    }
    if str_eq(code, "Digit5") {
        return Ok(MacKeyCode(0x17));
    }
    if str_eq(code, "Equal") {
        return Ok(MacKeyCode(0x18));
    }
    if str_eq(code, "Digit9") {
        return Ok(MacKeyCode(0x19));
    }
    if str_eq(code, "Digit7") {
        return Ok(MacKeyCode(0x1A));
    }
    if str_eq(code, "Minus") {
        return Ok(MacKeyCode(0x1B));
    }
    if str_eq(code, "Digit8") {
        return Ok(MacKeyCode(0x1C));
    }
    if str_eq(code, "Digit0") {
        return Ok(MacKeyCode(0x1D));
    }
    if str_eq(code, "BracketRight") {
        return Ok(MacKeyCode(0x1E));
    }
    if str_eq(code, "KeyO") {
        return Ok(MacKeyCode(0x1F));
    }
    if str_eq(code, "KeyU") {
        return Ok(MacKeyCode(0x20));
    }
    if str_eq(code, "BracketLeft") {
        return Ok(MacKeyCode(0x21));
    }
    if str_eq(code, "KeyI") {
        return Ok(MacKeyCode(0x22));
    }
    if str_eq(code, "KeyP") {
        return Ok(MacKeyCode(0x23));
    }
    if str_eq(code, "Enter") || str_eq(code, "NumpadEnter") {
        return Ok(MacKeyCode(0x24));
    }
    if str_eq(code, "KeyL") {
        return Ok(MacKeyCode(0x25));
    }
    if str_eq(code, "KeyJ") {
        return Ok(MacKeyCode(0x26));
    }
    if str_eq(code, "Quote") {
        return Ok(MacKeyCode(0x27));
    }
    if str_eq(code, "KeyK") {
        return Ok(MacKeyCode(0x28));
    }
    if str_eq(code, "Semicolon") {
        return Ok(MacKeyCode(0x29));
    }
    if str_eq(code, "Backslash") {
        return Ok(MacKeyCode(0x2A));
    }
    if str_eq(code, "Comma") {
        return Ok(MacKeyCode(0x2B));
    }
    if str_eq(code, "Slash") {
        return Ok(MacKeyCode(0x2C));
    }
    if str_eq(code, "KeyN") {
        return Ok(MacKeyCode(0x2D));
    }
    if str_eq(code, "KeyM") {
        return Ok(MacKeyCode(0x2E));
    }
    if str_eq(code, "Period") {
        return Ok(MacKeyCode(0x2F));
    }
    if str_eq(code, "Tab") {
        return Ok(MacKeyCode(0x30));
    }
    if str_eq(code, "Space") {
        return Ok(MacKeyCode(0x31));
    }
    if str_eq(code, "Backquote") {
        return Ok(MacKeyCode(0x32));
    }
    if str_eq(code, "Backspace") {
        return Ok(MacKeyCode(0x33));
    }
    if str_eq(code, "Escape") {
        return Ok(MacKeyCode(0x35));
    }
    if str_eq(code, "MetaRight") || str_eq(code, "OSRight") {
        return Ok(MacKeyCode(0x36));
    }
    if str_eq(code, "MetaLeft") || str_eq(code, "OSLeft") {
        return Ok(MacKeyCode(0x37));
    }
    if str_eq(code, "ShiftLeft") {
        return Ok(MacKeyCode(0x38));
    }
    if str_eq(code, "AltLeft") {
        return Ok(MacKeyCode(0x3A));
    }
    if str_eq(code, "ControlLeft") {
        return Ok(MacKeyCode(0x3B));
    }
    if str_eq(code, "ShiftRight") {
        return Ok(MacKeyCode(0x3C));
    }
    if str_eq(code, "AltRight") {
        return Ok(MacKeyCode(0x3D));
    }
    if str_eq(code, "ControlRight") {
        return Ok(MacKeyCode(0x3E));
    }
    if str_eq(code, "F17") {
        return Ok(MacKeyCode(0x40));
    }
    if str_eq(code, "F18") {
        return Ok(MacKeyCode(0x4F));
    }
    if str_eq(code, "F19") {
        return Ok(MacKeyCode(0x50));
    }
    if str_eq(code, "F5") {
        return Ok(MacKeyCode(0x60));
    }
    if str_eq(code, "F6") {
        return Ok(MacKeyCode(0x61));
    }
    if str_eq(code, "F7") {
        return Ok(MacKeyCode(0x62));
    }
    if str_eq(code, "F3") {
        return Ok(MacKeyCode(0x63));
    }
    if str_eq(code, "F8") {
        return Ok(MacKeyCode(0x64));
    }
    if str_eq(code, "F9") {
        return Ok(MacKeyCode(0x65));
    }
    if str_eq(code, "F11") {
        return Ok(MacKeyCode(0x67));
    }
    if str_eq(code, "F13") {
        return Ok(MacKeyCode(0x69));
    }
    if str_eq(code, "F16") {
        return Ok(MacKeyCode(0x6A));
    }
    if str_eq(code, "F14") {
        return Ok(MacKeyCode(0x6B));
    }
    if str_eq(code, "F10") {
        return Ok(MacKeyCode(0x6D));
    }
    if str_eq(code, "F12") {
        return Ok(MacKeyCode(0x6F));
    }
    if str_eq(code, "F15") {
        return Ok(MacKeyCode(0x71));
    }
    if str_eq(code, "Home") {
        return Ok(MacKeyCode(0x73));
    }
    if str_eq(code, "PageUp") {
        return Ok(MacKeyCode(0x74));
    }
    if str_eq(code, "Delete") {
        return Ok(MacKeyCode(0x75));
    }
    if str_eq(code, "F4") {
        return Ok(MacKeyCode(0x76));
    }
    if str_eq(code, "End") {
        return Ok(MacKeyCode(0x77));
    }
    if str_eq(code, "F2") {
        return Ok(MacKeyCode(0x78));
    }
    if str_eq(code, "PageDown") {
        return Ok(MacKeyCode(0x79));
    }
    if str_eq(code, "F1") {
        return Ok(MacKeyCode(0x7A));
    }
    if str_eq(code, "ArrowLeft") {
        return Ok(MacKeyCode(0x7B));
    }
    if str_eq(code, "ArrowRight") {
        return Ok(MacKeyCode(0x7C));
    }
    if str_eq(code, "ArrowDown") {
        return Ok(MacKeyCode(0x7D));
    }
    if str_eq(code, "ArrowUp") {
        return Ok(MacKeyCode(0x7E));
    }
    Err(InputError::UnknownKey(owned(code)))
}

/// `a` and `b` are aliases of one macOS key: `Enter` and `NumpadEnter`,
/// `MetaRight` and `OSRight`, `MetaLeft` and `OSLeft`.
pub open spec fn mac_aliases(a: Seq<char>, b: Seq<char>) -> bool {
    ||| (a == "Enter"@ && b == "NumpadEnter"@)
    ||| (a == "NumpadEnter"@ && b == "Enter"@)
    ||| (a == "MetaRight"@ && b == "OSRight"@)
    ||| (a == "OSRight"@ && b == "MetaRight"@)
    ||| (a == "MetaLeft"@ && b == "OSLeft"@)
    ||| (a == "OSLeft"@ && b == "MetaLeft"@)
}

/// Two different keys share a macOS key code only for the aliases: `Enter`
/// and `NumpadEnter`, `MetaRight` and `OSRight`, `MetaLeft` and `OSLeft`.
#[verifier::rlimit(100)]
pub proof fn lemma_mac_codes_distinct(a: Seq<char>, b: Seq<char>)
    requires
        mac_keycode_of(a) is Some,
        mac_keycode_of(a) == mac_keycode_of(b),
        a != b,
    ensures
        mac_aliases(a, b),
{
}

/// Every macOS key code in the table is at most `0x7E`.
pub proof fn lemma_mac_codes_bounded(code: Seq<char>)
    ensures
        mac_keycode_of(code) matches Some(k) ==> k <= 0x7E,
{
}

/// The code of the letter key `c` (`Key` followed by the letter).
pub open spec fn letter_key(c: char) -> Seq<char> {
    seq!['K', 'e', 'y', c]
}

/// The code of the main-row digit key `d`.
pub open spec fn digit_key(d: char) -> Seq<char> {
    seq!['D', 'i', 'g', 'i', 't', d]
}

/// The code of the numeric-pad digit key `d`.
pub open spec fn numpad_key(d: char) -> Seq<char> {
    seq!['N', 'u', 'm', 'p', 'a', 'd', d]
}

/// Letter keys map to their upper-case letter: `Key` followed by `A` to `Z`
/// gives the code of that letter.
#[verifier::rlimit(100)]
pub proof fn lemma_win_letters()
    ensures
        forall|c: char|
            'A' <= c <= 'Z' ==> #[trigger] win_vk_of(letter_key(c)) == Some(c as u16),
{
    reveal_strlit("KeyA");
    reveal_strlit("KeyB");
    reveal_strlit("KeyC");
    reveal_strlit("KeyD");
    reveal_strlit("KeyE");
    reveal_strlit("KeyF");
    reveal_strlit("KeyG");
    reveal_strlit("KeyH");
    reveal_strlit("KeyI");
    reveal_strlit("KeyJ");
    reveal_strlit("KeyK");
    reveal_strlit("KeyL");
    reveal_strlit("KeyM");
    reveal_strlit("KeyN");
    reveal_strlit("KeyO");
    reveal_strlit("KeyP");
    reveal_strlit("KeyQ");
    reveal_strlit("KeyR");
    reveal_strlit("KeyS");
    reveal_strlit("KeyT");
    reveal_strlit("KeyU");
    reveal_strlit("KeyV");
    reveal_strlit("KeyW");
    reveal_strlit("KeyX");
    reveal_strlit("KeyY");
    reveal_strlit("KeyZ");
    reveal_strlit("Digit0");
    reveal_strlit("Numpad0");
    reveal_strlit("Digit1");
    reveal_strlit("Numpad1");
    reveal_strlit("Digit2");
    reveal_strlit("Numpad2");
    reveal_strlit("Digit3");
    reveal_strlit("Numpad3");
    reveal_strlit("Digit4");
    reveal_strlit("Numpad4");
    reveal_strlit("Digit5");
    reveal_strlit("Numpad5");
    reveal_strlit("Digit6");
    reveal_strlit("Numpad6");
    reveal_strlit("Digit7");
    reveal_strlit("Numpad7");
    reveal_strlit("Digit8");
    reveal_strlit("Numpad8");
    reveal_strlit("Digit9");
    reveal_strlit("Numpad9");
    reveal_strlit("Space");
    reveal_strlit("Enter");
    reveal_strlit("NumpadEnter");
    reveal_strlit("Escape");
    reveal_strlit("Tab");
    reveal_strlit("Backspace");
    reveal_strlit("Delete");
    reveal_strlit("ArrowLeft");
    reveal_strlit("ArrowUp");
    reveal_strlit("ArrowRight");
    reveal_strlit("ArrowDown");
    reveal_strlit("Home");
    reveal_strlit("End");
    reveal_strlit("PageUp");
    reveal_strlit("PageDown");
    reveal_strlit("ShiftLeft");
    reveal_strlit("ShiftRight");
    reveal_strlit("ControlLeft");
    reveal_strlit("ControlRight");
    reveal_strlit("AltLeft");
    reveal_strlit("AltRight");
    reveal_strlit("MetaLeft");
    reveal_strlit("MetaRight");
    reveal_strlit("OSLeft");
    reveal_strlit("OSRight");
    reveal_strlit("F1");
    reveal_strlit("F2");
    reveal_strlit("F3");
    reveal_strlit("F4");
    reveal_strlit("F5");
    reveal_strlit("F6");
    reveal_strlit("F7");
    reveal_strlit("F8");
    reveal_strlit("F9");
    reveal_strlit("F10");
    reveal_strlit("F11");
    reveal_strlit("F12");
    reveal_strlit("Minus");
    reveal_strlit("Equal");
    reveal_strlit("BracketLeft");
    reveal_strlit("BracketRight");
    reveal_strlit("Backslash");
    reveal_strlit("Semicolon");
    reveal_strlit("Quote");
    reveal_strlit("Comma");
    reveal_strlit("Period");
    reveal_strlit("Slash");
    reveal_strlit("Backquote");
    assert forall|c: char| 'A' <= c <= 'Z' implies #[trigger] win_vk_of(letter_key(c)) == Some(c as u16) by {
        if c == 'A' {
            assert(letter_key(c) =~= "KeyA"@);
        } else if c == 'B' {
            assert(letter_key(c) =~= "KeyB"@);
        } else if c == 'C' {
            assert(letter_key(c) =~= "KeyC"@);
        } else if c == 'D' {
            assert(letter_key(c) =~= "KeyD"@);
        } else if c == 'E' {
            assert(letter_key(c) =~= "KeyE"@);
        } else if c == 'F' {
            assert(letter_key(c) =~= "KeyF"@);
        } else if c == 'G' {
            assert(letter_key(c) =~= "KeyG"@);
        } else if c == 'H' {
            assert(letter_key(c) =~= "KeyH"@);
        } else if c == 'I' {
            assert(letter_key(c) =~= "KeyI"@);
        } else if c == 'J' {
            assert(letter_key(c) =~= "KeyJ"@);
        } else if c == 'K' {
            assert(letter_key(c) =~= "KeyK"@);
        } else if c == 'L' {
            assert(letter_key(c) =~= "KeyL"@);
        } else if c == 'M' {
            assert(letter_key(c) =~= "KeyM"@);
        } else if c == 'N' {
            assert(letter_key(c) =~= "KeyN"@);
        } else if c == 'O' {
            assert(letter_key(c) =~= "KeyO"@);
        } else if c == 'P' {
            assert(letter_key(c) =~= "KeyP"@);
        } else if c == 'Q' {
            assert(letter_key(c) =~= "KeyQ"@);
        } else if c == 'R' {
            assert(letter_key(c) =~= "KeyR"@);
        } else if c == 'S' {
            assert(letter_key(c) =~= "KeyS"@);
        } else if c == 'T' {
            assert(letter_key(c) =~= "KeyT"@);
        } else if c == 'U' {
            assert(letter_key(c) =~= "KeyU"@);
        } else if c == 'V' {
            assert(letter_key(c) =~= "KeyV"@);
        } else if c == 'W' {
            assert(letter_key(c) =~= "KeyW"@);
        } else if c == 'X' {
            assert(letter_key(c) =~= "KeyX"@);
        } else if c == 'Y' {
            assert(letter_key(c) =~= "KeyY"@);
        } else if c == 'Z' {
            assert(letter_key(c) =~= "KeyZ"@);
        }
    }
}

/// Digit keys of the main row and of the numeric pad share the code of their
/// digit: `Digit` or `Numpad` followed by `0` to `9` gives `0x30` to `0x39`.
#[verifier::rlimit(100)]
pub proof fn lemma_win_digits()
    ensures
        forall|d: char| '0' <= d <= '9' ==> #[trigger] win_vk_of(digit_key(d)) == Some(d as u16),
        forall|d: char| '0' <= d <= '9' ==> #[trigger] win_vk_of(numpad_key(d)) == Some(d as u16),
{
    reveal_strlit("KeyA");
    reveal_strlit("KeyB");
    reveal_strlit("KeyC");
    reveal_strlit("KeyD");
    reveal_strlit("KeyE");
    reveal_strlit("KeyF");
    reveal_strlit("KeyG");
    reveal_strlit("KeyH");
    reveal_strlit("KeyI");
    reveal_strlit("KeyJ");
    reveal_strlit("KeyK");
    reveal_strlit("KeyL");
    reveal_strlit("KeyM");
    reveal_strlit("KeyN");
    reveal_strlit("KeyO");
    reveal_strlit("KeyP");
    reveal_strlit("KeyQ");
    reveal_strlit("KeyR");
    reveal_strlit("KeyS");
    reveal_strlit("KeyT");
    reveal_strlit("KeyU");
    reveal_strlit("KeyV");
    reveal_strlit("KeyW");
    reveal_strlit("KeyX");
    reveal_strlit("KeyY");
    reveal_strlit("KeyZ");
    reveal_strlit("Digit0");
    reveal_strlit("Numpad0");
    reveal_strlit("Digit1");
    reveal_strlit("Numpad1");
    reveal_strlit("Digit2");
    reveal_strlit("Numpad2");
    reveal_strlit("Digit3");
    reveal_strlit("Numpad3");
    reveal_strlit("Digit4");
    reveal_strlit("Numpad4");
    reveal_strlit("Digit5");
    reveal_strlit("Numpad5");
    reveal_strlit("Digit6");
    reveal_strlit("Numpad6");
    reveal_strlit("Digit7");
    reveal_strlit("Numpad7");
    reveal_strlit("Digit8");
    reveal_strlit("Numpad8");
    reveal_strlit("Digit9");
    reveal_strlit("Numpad9");
    reveal_strlit("Space");
    reveal_strlit("Enter");
    reveal_strlit("NumpadEnter");
    reveal_strlit("Escape");
    reveal_strlit("Tab");
    reveal_strlit("Backspace");
    reveal_strlit("Delete");
    reveal_strlit("ArrowLeft");
    reveal_strlit("ArrowUp");
    reveal_strlit("ArrowRight");
    reveal_strlit("ArrowDown");
    reveal_strlit("Home");
    reveal_strlit("End");
    reveal_strlit("PageUp");
    reveal_strlit("PageDown");
    reveal_strlit("ShiftLeft");
    reveal_strlit("ShiftRight");
    reveal_strlit("ControlLeft");
    reveal_strlit("ControlRight");
    reveal_strlit("AltLeft");
    reveal_strlit("AltRight");
    reveal_strlit("MetaLeft");
    reveal_strlit("MetaRight");
    reveal_strlit("OSLeft");
    reveal_strlit("OSRight");
    reveal_strlit("F1");
    reveal_strlit("F2");
    reveal_strlit("F3");
    reveal_strlit("F4");
    reveal_strlit("F5");
    reveal_strlit("F6");
    reveal_strlit("F7");
    reveal_strlit("F8");
    reveal_strlit("F9");
    reveal_strlit("F10");
    reveal_strlit("F11");
    reveal_strlit("F12");
    reveal_strlit("Minus");
    reveal_strlit("Equal");
    reveal_strlit("BracketLeft");
    reveal_strlit("BracketRight");
    reveal_strlit("Backslash");
    reveal_strlit("Semicolon");
    reveal_strlit("Quote");
    reveal_strlit("Comma");
    reveal_strlit("Period");
    reveal_strlit("Slash");
    reveal_strlit("Backquote");
    assert forall|d: char| '0' <= d <= '9' implies #[trigger] win_vk_of(digit_key(d)) == Some(d as u16) && win_vk_of(numpad_key(d)) == Some(d as u16) by {
        if d == '0' {
            assert(digit_key(d) =~= "Digit0"@);
            assert(numpad_key(d) =~= "Numpad0"@);
        } else if d == '1' {
            assert(digit_key(d) =~= "Digit1"@);
            assert(numpad_key(d) =~= "Numpad1"@);
        } else if d == '2' {
            assert(digit_key(d) =~= "Digit2"@);
            assert(numpad_key(d) =~= "Numpad2"@);
        } else if d == '3' {
            assert(digit_key(d) =~= "Digit3"@);
            assert(numpad_key(d) =~= "Numpad3"@);
        } else if d == '4' {
            assert(digit_key(d) =~= "Digit4"@);
            assert(numpad_key(d) =~= "Numpad4"@);
        } else if d == '5' {
            assert(digit_key(d) =~= "Digit5"@);
            assert(numpad_key(d) =~= "Numpad5"@);
        } else if d == '6' {
            assert(digit_key(d) =~= "Digit6"@);
            assert(numpad_key(d) =~= "Numpad6"@);
        } else if d == '7' {
            assert(digit_key(d) =~= "Digit7"@);
            assert(numpad_key(d) =~= "Numpad7"@);
        } else if d == '8' {
            assert(digit_key(d) =~= "Digit8"@);
            assert(numpad_key(d) =~= "Numpad8"@);
        } else if d == '9' {
            assert(digit_key(d) =~= "Digit9"@);
            assert(numpad_key(d) =~= "Numpad9"@);
        }
    }
    assert forall|d: char| '0' <= d <= '9' implies #[trigger] win_vk_of(numpad_key(d)) == Some(
        d as u16,
    ) by {
        assert(win_vk_of(digit_key(d)) == Some(d as u16));
    }
}

/// The code of the function key `F` followed by the number `n`.
pub open spec fn function_key(n: nat) -> Seq<char> {
    "F"@ + decimal_text(n)
}

/// Function keys `F1` to `F12` give `0x70` to `0x7B` (`0x6F` plus their
/// number); `F13` and a lower-case `keya` are not in the table.
#[verifier::rlimit(100)]
pub proof fn lemma_win_function_keys()
    ensures
        win_vk_of("F1"@) == Some((0x6F + 1) as u16),
        win_vk_of("F2"@) == Some((0x6F + 2) as u16),
        win_vk_of("F3"@) == Some((0x6F + 3) as u16),
        win_vk_of("F4"@) == Some((0x6F + 4) as u16),
        win_vk_of("F5"@) == Some((0x6F + 5) as u16),
        win_vk_of("F6"@) == Some((0x6F + 6) as u16),
        win_vk_of("F7"@) == Some((0x6F + 7) as u16),
        win_vk_of("F8"@) == Some((0x6F + 8) as u16),
        win_vk_of("F9"@) == Some((0x6F + 9) as u16),
        win_vk_of("F10"@) == Some((0x6F + 10) as u16),
        win_vk_of("F11"@) == Some((0x6F + 11) as u16),
        win_vk_of("F12"@) == Some((0x6F + 12) as u16),
        win_vk_of("F13"@) is None,
        win_vk_of("keya"@) is None,
        forall|n: nat| 1 <= n <= 12 ==> #[trigger] win_vk_of(function_key(n)) == Some((0x6F + n) as u16),
{
    reveal_strlit("KeyA");
    reveal_strlit("KeyB");
    reveal_strlit("KeyC");
    reveal_strlit("KeyD");
    reveal_strlit("KeyE");
    reveal_strlit("KeyF");
    reveal_strlit("KeyG");
    reveal_strlit("KeyH");
    reveal_strlit("KeyI");
    reveal_strlit("KeyJ");
    reveal_strlit("KeyK");
    reveal_strlit("KeyL");
    reveal_strlit("KeyM");
    reveal_strlit("KeyN");
    reveal_strlit("KeyO");
    reveal_strlit("KeyP");
    reveal_strlit("KeyQ");
    reveal_strlit("KeyR");
    reveal_strlit("KeyS");
    reveal_strlit("KeyT");
    reveal_strlit("KeyU");
    reveal_strlit("KeyV");
    reveal_strlit("KeyW");
    reveal_strlit("KeyX");
    reveal_strlit("KeyY");
    reveal_strlit("KeyZ");
    reveal_strlit("Digit0");
    reveal_strlit("Numpad0");
    reveal_strlit("Digit1");
    reveal_strlit("Numpad1");
    reveal_strlit("Digit2");
    reveal_strlit("Numpad2");
    reveal_strlit("Digit3");
    reveal_strlit("Numpad3");
    reveal_strlit("Digit4");
    reveal_strlit("Numpad4");
    reveal_strlit("Digit5");
    reveal_strlit("Numpad5");
    reveal_strlit("Digit6");
    reveal_strlit("Numpad6");
    reveal_strlit("Digit7");
    reveal_strlit("Numpad7");
    reveal_strlit("Digit8");
    reveal_strlit("Numpad8");
    reveal_strlit("Digit9");
    reveal_strlit("Numpad9");
    reveal_strlit("Space");
    reveal_strlit("Enter");
    reveal_strlit("NumpadEnter");
    reveal_strlit("Escape");
    reveal_strlit("Tab");
    reveal_strlit("Backspace");
    reveal_strlit("Delete");
    reveal_strlit("ArrowLeft");
    reveal_strlit("ArrowUp");
    reveal_strlit("ArrowRight");
    reveal_strlit("ArrowDown");
    reveal_strlit("Home");
    reveal_strlit("End");
    reveal_strlit("PageUp");
    reveal_strlit("PageDown");
    reveal_strlit("ShiftLeft");
    reveal_strlit("ShiftRight");
    reveal_strlit("ControlLeft");
    reveal_strlit("ControlRight");
    reveal_strlit("AltLeft");
    reveal_strlit("AltRight");
    reveal_strlit("MetaLeft");
    reveal_strlit("MetaRight");
    reveal_strlit("OSLeft");
    reveal_strlit("OSRight");
    reveal_strlit("F1");
    reveal_strlit("F2");
    reveal_strlit("F3");
    reveal_strlit("F4");
    reveal_strlit("F5");
    reveal_strlit("F6");
    reveal_strlit("F7");
    reveal_strlit("F8");
    reveal_strlit("F9");
    reveal_strlit("F10");
    reveal_strlit("F11");
    reveal_strlit("F12");
    reveal_strlit("Minus");
    reveal_strlit("Equal");
    reveal_strlit("BracketLeft");
    reveal_strlit("BracketRight");
    reveal_strlit("Backslash");
    reveal_strlit("Semicolon");
    reveal_strlit("Quote");
    reveal_strlit("Comma");
    reveal_strlit("Period");
    reveal_strlit("Slash");
    reveal_strlit("Backquote");
    reveal_strlit("F13");
    reveal_strlit("keya");
    assert("KeyA"@ =~= seq!['K', 'e', 'y', 'A']);
    assert("KeyB"@ =~= seq!['K', 'e', 'y', 'B']);
    assert("KeyC"@ =~= seq!['K', 'e', 'y', 'C']);
    assert("KeyD"@ =~= seq!['K', 'e', 'y', 'D']);
    assert("KeyE"@ =~= seq!['K', 'e', 'y', 'E']);
    assert("KeyF"@ =~= seq!['K', 'e', 'y', 'F']);
    assert("KeyG"@ =~= seq!['K', 'e', 'y', 'G']);
    assert("KeyH"@ =~= seq!['K', 'e', 'y', 'H']);
    assert("KeyI"@ =~= seq!['K', 'e', 'y', 'I']);
    assert("KeyJ"@ =~= seq!['K', 'e', 'y', 'J']);
    assert("KeyK"@ =~= seq!['K', 'e', 'y', 'K']);
    assert("KeyL"@ =~= seq!['K', 'e', 'y', 'L']);
    assert("KeyM"@ =~= seq!['K', 'e', 'y', 'M']);
    assert("KeyN"@ =~= seq!['K', 'e', 'y', 'N']);
    assert("KeyO"@ =~= seq!['K', 'e', 'y', 'O']);
    assert("KeyP"@ =~= seq!['K', 'e', 'y', 'P']);
    assert("KeyQ"@ =~= seq!['K', 'e', 'y', 'Q']);
    assert("KeyR"@ =~= seq!['K', 'e', 'y', 'R']);
    assert("KeyS"@ =~= seq!['K', 'e', 'y', 'S']);
    assert("KeyT"@ =~= seq!['K', 'e', 'y', 'T']);
    assert("KeyU"@ =~= seq!['K', 'e', 'y', 'U']);
    assert("KeyV"@ =~= seq!['K', 'e', 'y', 'V']);
    assert("KeyW"@ =~= seq!['K', 'e', 'y', 'W']);
    assert("KeyX"@ =~= seq!['K', 'e', 'y', 'X']);
    assert("KeyY"@ =~= seq!['K', 'e', 'y', 'Y']);
    assert("KeyZ"@ =~= seq!['K', 'e', 'y', 'Z']);
    assert("Digit0"@ =~= seq!['D', 'i', 'g', 'i', 't', '0']);
    assert("Numpad0"@ =~= seq!['N', 'u', 'm', 'p', 'a', 'd', '0']);
    assert("Digit1"@ =~= seq!['D', 'i', 'g', 'i', 't', '1']);
    assert("Numpad1"@ =~= seq!['N', 'u', 'm', 'p', 'a', 'd', '1']);
    assert("Digit2"@ =~= seq!['D', 'i', 'g', 'i', 't', '2']);
    assert("Numpad2"@ =~= seq!['N', 'u', 'm', 'p', 'a', 'd', '2']);
    assert("Digit3"@ =~= seq!['D', 'i', 'g', 'i', 't', '3']);
    assert("Numpad3"@ =~= seq!['N', 'u', 'm', 'p', 'a', 'd', '3']);
    assert("Digit4"@ =~= seq!['D', 'i', 'g', 'i', 't', '4']);
    assert("Numpad4"@ =~= seq!['N', 'u', 'm', 'p', 'a', 'd', '4']);
    assert("Digit5"@ =~= seq!['D', 'i', 'g', 'i', 't', '5']);
    assert("Numpad5"@ =~= seq!['N', 'u', 'm', 'p', 'a', 'd', '5']);
    assert("Digit6"@ =~= seq!['D', 'i', 'g', 'i', 't', '6']);
    assert("Numpad6"@ =~= seq!['N', 'u', 'm', 'p', 'a', 'd', '6']);
    assert("Digit7"@ =~= seq!['D', 'i', 'g', 'i', 't', '7']);
    assert("Numpad7"@ =~= seq!['N', 'u', 'm', 'p', 'a', 'd', '7']);
    assert("Digit8"@ =~= seq!['D', 'i', 'g', 'i', 't', '8']);
    assert("Numpad8"@ =~= seq!['N', 'u', 'm', 'p', 'a', 'd', '8']);
    assert("Digit9"@ =~= seq!['D', 'i', 'g', 'i', 't', '9']);
    assert("Numpad9"@ =~= seq!['N', 'u', 'm', 'p', 'a', 'd', '9']);
    assert("Space"@ =~= seq!['S', 'p', 'a', 'c', 'e']);
    assert("Enter"@ =~= seq!['E', 'n', 't', 'e', 'r']);
    assert("NumpadEnter"@ =~= seq!['N', 'u', 'm', 'p', 'a', 'd', 'E', 'n', 't', 'e', 'r']);
    assert("Escape"@ =~= seq!['E', 's', 'c', 'a', 'p', 'e']);
    assert("Tab"@ =~= seq!['T', 'a', 'b']);
    assert("Backspace"@ =~= seq!['B', 'a', 'c', 'k', 's', 'p', 'a', 'c', 'e']);
    assert("Delete"@ =~= seq!['D', 'e', 'l', 'e', 't', 'e']);
    assert("ArrowLeft"@ =~= seq!['A', 'r', 'r', 'o', 'w', 'L', 'e', 'f', 't']);
    assert("ArrowUp"@ =~= seq!['A', 'r', 'r', 'o', 'w', 'U', 'p']);
    assert("ArrowRight"@ =~= seq!['A', 'r', 'r', 'o', 'w', 'R', 'i', 'g', 'h', 't']);
    assert("ArrowDown"@ =~= seq!['A', 'r', 'r', 'o', 'w', 'D', 'o', 'w', 'n']);
    assert("Home"@ =~= seq!['H', 'o', 'm', 'e']);
    assert("End"@ =~= seq!['E', 'n', 'd']);
    assert("PageUp"@ =~= seq!['P', 'a', 'g', 'e', 'U', 'p']);
    assert("PageDown"@ =~= seq!['P', 'a', 'g', 'e', 'D', 'o', 'w', 'n']);
    assert("ShiftLeft"@ =~= seq!['S', 'h', 'i', 'f', 't', 'L', 'e', 'f', 't']);
    assert("ShiftRight"@ =~= seq!['S', 'h', 'i', 'f', 't', 'R', 'i', 'g', 'h', 't']);
    assert("ControlLeft"@ =~= seq!['C', 'o', 'n', 't', 'r', 'o', 'l', 'L', 'e', 'f', 't']);
    assert("ControlRight"@ =~= seq!['C', 'o', 'n', 't', 'r', 'o', 'l', 'R', 'i', 'g', 'h', 't']);
    assert("AltLeft"@ =~= seq!['A', 'l', 't', 'L', 'e', 'f', 't']);
    assert("AltRight"@ =~= seq!['A', 'l', 't', 'R', 'i', 'g', 'h', 't']);
    assert("MetaLeft"@ =~= seq!['M', 'e', 't', 'a', 'L', 'e', 'f', 't']);
    assert("MetaRight"@ =~= seq!['M', 'e', 't', 'a', 'R', 'i', 'g', 'h', 't']);
    assert("OSLeft"@ =~= seq!['O', 'S', 'L', 'e', 'f', 't']);
    assert("OSRight"@ =~= seq!['O', 'S', 'R', 'i', 'g', 'h', 't']);
    assert("F1"@ =~= seq!['F', '1']);
    assert("F2"@ =~= seq!['F', '2']);
    assert("F3"@ =~= seq!['F', '3']);
    assert("F4"@ =~= seq!['F', '4']);
    assert("F5"@ =~= seq!['F', '5']);
    assert("F6"@ =~= seq!['F', '6']);
    assert("F7"@ =~= seq!['F', '7']);
    assert("F8"@ =~= seq!['F', '8']);
    assert("F9"@ =~= seq!['F', '9']);
    assert("F10"@ =~= seq!['F', '1', '0']);
    assert("F11"@ =~= seq!['F', '1', '1']);
    assert("F12"@ =~= seq!['F', '1', '2']);
    assert("Minus"@ =~= seq!['M', 'i', 'n', 'u', 's']);
    assert("Equal"@ =~= seq!['E', 'q', 'u', 'a', 'l']);
    assert("BracketLeft"@ =~= seq!['B', 'r', 'a', 'c', 'k', 'e', 't', 'L', 'e', 'f', 't']);
    assert("BracketRight"@ =~= seq!['B', 'r', 'a', 'c', 'k', 'e', 't', 'R', 'i', 'g', 'h', 't']);
    assert("Backslash"@ =~= seq!['B', 'a', 'c', 'k', 's', 'l', 'a', 's', 'h']);
    assert("Semicolon"@ =~= seq!['S', 'e', 'm', 'i', 'c', 'o', 'l', 'o', 'n']);
    assert("Quote"@ =~= seq!['Q', 'u', 'o', 't', 'e']);
    assert("Comma"@ =~= seq!['C', 'o', 'm', 'm', 'a']);
    assert("Period"@ =~= seq!['P', 'e', 'r', 'i', 'o', 'd']);
    assert("Slash"@ =~= seq!['S', 'l', 'a', 's', 'h']);
    assert("Backquote"@ =~= seq!['B', 'a', 'c', 'k', 'q', 'u', 'o', 't', 'e']);
    assert("F13"@ =~= seq!['F', '1', '3']);
    assert("keya"@ =~= seq!['k', 'e', 'y', 'a']);
    reveal_with_fuel(decimal_text, 2);
    reveal_strlit("F");
    assert forall|n: nat| 1 <= n <= 12 implies #[trigger] win_vk_of(function_key(n)) == Some(
        (0x6F + n) as u16,
    ) by {
        if n == 1 {
            assert(function_key(n) =~= seq!['F', '1']);
        } else if n == 2 {
            assert(function_key(n) =~= seq!['F', '2']);
        } else if n == 3 {
            assert(function_key(n) =~= seq!['F', '3']);
        } else if n == 4 {
            assert(function_key(n) =~= seq!['F', '4']);
        } else if n == 5 {
            assert(function_key(n) =~= seq!['F', '5']);
        } else if n == 6 {
            assert(function_key(n) =~= seq!['F', '6']);
        } else if n == 7 {
            assert(function_key(n) =~= seq!['F', '7']);
        } else if n == 8 {
            assert(function_key(n) =~= seq!['F', '8']);
        } else if n == 9 {
            assert(function_key(n) =~= seq!['F', '9']);
        } else if n == 10 {
            assert(function_key(n) =~= seq!['F', '1', '0']);
        } else if n == 11 {
            assert(function_key(n) =~= seq!['F', '1', '1']);
        } else if n == 12 {
            assert(function_key(n) =~= seq!['F', '1', '2']);
        }
    }
}

/// The left and right keys of each modifier share a code.
#[verifier::rlimit(100)]
pub proof fn lemma_win_modifiers_sides_alike()
    ensures
        win_vk_of("ShiftLeft"@) == win_vk_of("ShiftRight"@),
        win_vk_of("ControlLeft"@) == win_vk_of("ControlRight"@),
        win_vk_of("AltLeft"@) == win_vk_of("AltRight"@),
        win_vk_of("MetaLeft"@) == win_vk_of("MetaRight"@),
        win_vk_of("ShiftLeft"@) == Some(0x10u16),
        win_vk_of("ControlLeft"@) == Some(0x11u16),
        win_vk_of("AltLeft"@) == Some(0x12u16),
        win_vk_of("MetaLeft"@) == Some(0x5Bu16),
{
    reveal_strlit("KeyA");
    reveal_strlit("KeyB");
    reveal_strlit("KeyC");
    reveal_strlit("KeyD");
    reveal_strlit("KeyE");
    reveal_strlit("KeyF");
    reveal_strlit("KeyG");
    reveal_strlit("KeyH");
    reveal_strlit("KeyI");
    reveal_strlit("KeyJ");
    reveal_strlit("KeyK");
    reveal_strlit("KeyL");
    reveal_strlit("KeyM");
    reveal_strlit("KeyN");
    reveal_strlit("KeyO");
    reveal_strlit("KeyP");
    reveal_strlit("KeyQ");
    reveal_strlit("KeyR");
    reveal_strlit("KeyS");
    reveal_strlit("KeyT");
    reveal_strlit("KeyU");
    reveal_strlit("KeyV");
    reveal_strlit("KeyW");
    reveal_strlit("KeyX");
    reveal_strlit("KeyY");
    reveal_strlit("KeyZ");
    reveal_strlit("Digit0");
    reveal_strlit("Numpad0");
    reveal_strlit("Digit1");
    reveal_strlit("Numpad1");
    reveal_strlit("Digit2");
    reveal_strlit("Numpad2");
    reveal_strlit("Digit3");
    reveal_strlit("Numpad3");
    reveal_strlit("Digit4");
    reveal_strlit("Numpad4");
    reveal_strlit("Digit5");
    reveal_strlit("Numpad5");
    reveal_strlit("Digit6");
    reveal_strlit("Numpad6");
    reveal_strlit("Digit7");
    reveal_strlit("Numpad7");
    reveal_strlit("Digit8");
    reveal_strlit("Numpad8");
    reveal_strlit("Digit9");
    reveal_strlit("Numpad9");
    reveal_strlit("Space");
    reveal_strlit("Enter");
    reveal_strlit("NumpadEnter");
    reveal_strlit("Escape");
    reveal_strlit("Tab");
    reveal_strlit("Backspace");
    reveal_strlit("Delete");
    reveal_strlit("ArrowLeft");
    reveal_strlit("ArrowUp");
    reveal_strlit("ArrowRight");
    reveal_strlit("ArrowDown");
    reveal_strlit("Home");
    reveal_strlit("End");
    reveal_strlit("PageUp");
    reveal_strlit("PageDown");
    reveal_strlit("ShiftLeft");
    reveal_strlit("ShiftRight");
    reveal_strlit("ControlLeft");
    reveal_strlit("ControlRight");
    reveal_strlit("AltLeft");
    reveal_strlit("AltRight");
    reveal_strlit("MetaLeft");
    reveal_strlit("MetaRight");
    reveal_strlit("OSLeft");
    reveal_strlit("OSRight");
    reveal_strlit("F1");
    reveal_strlit("F2");
    reveal_strlit("F3");
    reveal_strlit("F4");
    reveal_strlit("F5");
    reveal_strlit("F6");
    reveal_strlit("F7");
    reveal_strlit("F8");
    reveal_strlit("F9");
    reveal_strlit("F10");
    reveal_strlit("F11");
    reveal_strlit("F12");
    reveal_strlit("Minus");
    reveal_strlit("Equal");
    reveal_strlit("BracketLeft");
    reveal_strlit("BracketRight");
    reveal_strlit("Backslash");
    reveal_strlit("Semicolon");
    reveal_strlit("Quote");
    reveal_strlit("Comma");
    reveal_strlit("Period");
    reveal_strlit("Slash");
    reveal_strlit("Backquote");
    assert("KeyA"@ =~= seq!['K', 'e', 'y', 'A']);
    assert("KeyB"@ =~= seq!['K', 'e', 'y', 'B']);
    assert("KeyC"@ =~= seq!['K', 'e', 'y', 'C']);
    assert("KeyD"@ =~= seq!['K', 'e', 'y', 'D']);
    assert("KeyE"@ =~= seq!['K', 'e', 'y', 'E']);
    assert("KeyF"@ =~= seq!['K', 'e', 'y', 'F']);
    assert("KeyG"@ =~= seq!['K', 'e', 'y', 'G']);
    assert("KeyH"@ =~= seq!['K', 'e', 'y', 'H']);
    assert("KeyI"@ =~= seq!['K', 'e', 'y', 'I']);
    assert("KeyJ"@ =~= seq!['K', 'e', 'y', 'J']);
    assert("KeyK"@ =~= seq!['K', 'e', 'y', 'K']);
    assert("KeyL"@ =~= seq!['K', 'e', 'y', 'L']);
    assert("KeyM"@ =~= seq!['K', 'e', 'y', 'M']);
    assert("KeyN"@ =~= seq!['K', 'e', 'y', 'N']);
    assert("KeyO"@ =~= seq!['K', 'e', 'y', 'O']);
    assert("KeyP"@ =~= seq!['K', 'e', 'y', 'P']);
    assert("KeyQ"@ =~= seq!['K', 'e', 'y', 'Q']);
    assert("KeyR"@ =~= seq!['K', 'e', 'y', 'R']);
    assert("KeyS"@ =~= seq!['K', 'e', 'y', 'S']);
    assert("KeyT"@ =~= seq!['K', 'e', 'y', 'T']);
    assert("KeyU"@ =~= seq!['K', 'e', 'y', 'U']);
    assert("KeyV"@ =~= seq!['K', 'e', 'y', 'V']);
    assert("KeyW"@ =~= seq!['K', 'e', 'y', 'W']);
    assert("KeyX"@ =~= seq!['K', 'e', 'y', 'X']);
    assert("KeyY"@ =~= seq!['K', 'e', 'y', 'Y']);
    assert("KeyZ"@ =~= seq!['K', 'e', 'y', 'Z']);
    assert("Digit0"@ =~= seq!['D', 'i', 'g', 'i', 't', '0']);
    assert("Numpad0"@ =~= seq!['N', 'u', 'm', 'p', 'a', 'd', '0']);
    assert("Digit1"@ =~= seq!['D', 'i', 'g', 'i', 't', '1']);
    assert("Numpad1"@ =~= seq!['N', 'u', 'm', 'p', 'a', 'd', '1']);
    assert("Digit2"@ =~= seq!['D', 'i', 'g', 'i', 't', '2']);
    assert("Numpad2"@ =~= seq!['N', 'u', 'm', 'p', 'a', 'd', '2']);
    assert("Digit3"@ =~= seq!['D', 'i', 'g', 'i', 't', '3']);
    assert("Numpad3"@ =~= seq!['N', 'u', 'm', 'p', 'a', 'd', '3']);
    assert("Digit4"@ =~= seq!['D', 'i', 'g', 'i', 't', '4']);
    assert("Numpad4"@ =~= seq!['N', 'u', 'm', 'p', 'a', 'd', '4']);
    assert("Digit5"@ =~= seq!['D', 'i', 'g', 'i', 't', '5']);
    assert("Numpad5"@ =~= seq!['N', 'u', 'm', 'p', 'a', 'd', '5']);
    assert("Digit6"@ =~= seq!['D', 'i', 'g', 'i', 't', '6']);
    assert("Numpad6"@ =~= seq!['N', 'u', 'm', 'p', 'a', 'd', '6']);
    assert("Digit7"@ =~= seq!['D', 'i', 'g', 'i', 't', '7']);
    assert("Numpad7"@ =~= seq!['N', 'u', 'm', 'p', 'a', 'd', '7']);
    assert("Digit8"@ =~= seq!['D', 'i', 'g', 'i', 't', '8']);
    assert("Numpad8"@ =~= seq!['N', 'u', 'm', 'p', 'a', 'd', '8']);
    assert("Digit9"@ =~= seq!['D', 'i', 'g', 'i', 't', '9']);
    assert("Numpad9"@ =~= seq!['N', 'u', 'm', 'p', 'a', 'd', '9']);
    assert("Space"@ =~= seq!['S', 'p', 'a', 'c', 'e']);
    assert("Enter"@ =~= seq!['E', 'n', 't', 'e', 'r']);
    assert("NumpadEnter"@ =~= seq!['N', 'u', 'm', 'p', 'a', 'd', 'E', 'n', 't', 'e', 'r']);
    assert("Escape"@ =~= seq!['E', 's', 'c', 'a', 'p', 'e']);
    assert("Tab"@ =~= seq!['T', 'a', 'b']);
    assert("Backspace"@ =~= seq!['B', 'a', 'c', 'k', 's', 'p', 'a', 'c', 'e']);
    assert("Delete"@ =~= seq!['D', 'e', 'l', 'e', 't', 'e']);
    assert("ArrowLeft"@ =~= seq!['A', 'r', 'r', 'o', 'w', 'L', 'e', 'f', 't']);
    assert("ArrowUp"@ =~= seq!['A', 'r', 'r', 'o', 'w', 'U', 'p']);
    assert("ArrowRight"@ =~= seq!['A', 'r', 'r', 'o', 'w', 'R', 'i', 'g', 'h', 't']);
    assert("ArrowDown"@ =~= seq!['A', 'r', 'r', 'o', 'w', 'D', 'o', 'w', 'n']);
    assert("Home"@ =~= seq!['H', 'o', 'm', 'e']);
    assert("End"@ =~= seq!['E', 'n', 'd']);
    assert("PageUp"@ =~= seq!['P', 'a', 'g', 'e', 'U', 'p']);
    assert("PageDown"@ =~= seq!['P', 'a', 'g', 'e', 'D', 'o', 'w', 'n']);
    assert("ShiftLeft"@ =~= seq!['S', 'h', 'i', 'f', 't', 'L', 'e', 'f', 't']);
    assert("ShiftRight"@ =~= seq!['S', 'h', 'i', 'f', 't', 'R', 'i', 'g', 'h', 't']);
    assert("ControlLeft"@ =~= seq!['C', 'o', 'n', 't', 'r', 'o', 'l', 'L', 'e', 'f', 't']);
    assert("ControlRight"@ =~= seq!['C', 'o', 'n', 't', 'r', 'o', 'l', 'R', 'i', 'g', 'h', 't']);
    assert("AltLeft"@ =~= seq!['A', 'l', 't', 'L', 'e', 'f', 't']);
    assert("AltRight"@ =~= seq!['A', 'l', 't', 'R', 'i', 'g', 'h', 't']);
    assert("MetaLeft"@ =~= seq!['M', 'e', 't', 'a', 'L', 'e', 'f', 't']);
    assert("MetaRight"@ =~= seq!['M', 'e', 't', 'a', 'R', 'i', 'g', 'h', 't']);
    assert("OSLeft"@ =~= seq!['O', 'S', 'L', 'e', 'f', 't']);
    assert("OSRight"@ =~= seq!['O', 'S', 'R', 'i', 'g', 'h', 't']);
    assert("F1"@ =~= seq!['F', '1']);
    assert("F2"@ =~= seq!['F', '2']);
    assert("F3"@ =~= seq!['F', '3']);
    assert("F4"@ =~= seq!['F', '4']);
    assert("F5"@ =~= seq!['F', '5']);
    assert("F6"@ =~= seq!['F', '6']);
    assert("F7"@ =~= seq!['F', '7']);
    assert("F8"@ =~= seq!['F', '8']);
    assert("F9"@ =~= seq!['F', '9']);
    assert("F10"@ =~= seq!['F', '1', '0']);
    assert("F11"@ =~= seq!['F', '1', '1']);
    assert("F12"@ =~= seq!['F', '1', '2']);
    assert("Minus"@ =~= seq!['M', 'i', 'n', 'u', 's']);
    assert("Equal"@ =~= seq!['E', 'q', 'u', 'a', 'l']);
    assert("BracketLeft"@ =~= seq!['B', 'r', 'a', 'c', 'k', 'e', 't', 'L', 'e', 'f', 't']);
    assert("BracketRight"@ =~= seq!['B', 'r', 'a', 'c', 'k', 'e', 't', 'R', 'i', 'g', 'h', 't']);
    assert("Backslash"@ =~= seq!['B', 'a', 'c', 'k', 's', 'l', 'a', 's', 'h']);
    assert("Semicolon"@ =~= seq!['S', 'e', 'm', 'i', 'c', 'o', 'l', 'o', 'n']);
    assert("Quote"@ =~= seq!['Q', 'u', 'o', 't', 'e']);
    assert("Comma"@ =~= seq!['C', 'o', 'm', 'm', 'a']);
    assert("Period"@ =~= seq!['P', 'e', 'r', 'i', 'o', 'd']);
    assert("Slash"@ =~= seq!['S', 'l', 'a', 's', 'h']);
    assert("Backquote"@ =~= seq!['B', 'a', 'c', 'k', 'q', 'u', 'o', 't', 'e']);
}

/// On macOS the left and right keys of Shift, Control and Alt have codes of
/// their own.
#[verifier::rlimit(100)]
pub proof fn lemma_mac_modifier_sides_differ()
    ensures
        mac_keycode_of("ShiftLeft"@) is Some,
        mac_keycode_of("ShiftRight"@) is Some,
        mac_keycode_of("ControlLeft"@) is Some,
        mac_keycode_of("ControlRight"@) is Some,
        mac_keycode_of("AltLeft"@) is Some,
        mac_keycode_of("AltRight"@) is Some,
        mac_keycode_of("ShiftLeft"@) != mac_keycode_of("ShiftRight"@),
        mac_keycode_of("ControlLeft"@) != mac_keycode_of("ControlRight"@),
        mac_keycode_of("AltLeft"@) != mac_keycode_of("AltRight"@),
{
    reveal_strlit("KeyA");
    reveal_strlit("KeyS");
    reveal_strlit("KeyD");
    reveal_strlit("KeyF");
    reveal_strlit("KeyH");
    reveal_strlit("KeyG");
    reveal_strlit("KeyZ");
    reveal_strlit("KeyX");
    reveal_strlit("KeyC");
    reveal_strlit("KeyV");
    reveal_strlit("KeyB");
    reveal_strlit("KeyQ");
    reveal_strlit("KeyW");
    reveal_strlit("KeyE");
    reveal_strlit("KeyR");
    reveal_strlit("KeyY");
    reveal_strlit("KeyT");
    reveal_strlit("Digit1");
    reveal_strlit("Digit2");
    reveal_strlit("Digit3");
    reveal_strlit("Digit4");
    reveal_strlit("Digit6");
    reveal_strlit("Digit5");
    reveal_strlit("Equal");
    reveal_strlit("Digit9");
    reveal_strlit("Digit7");
    reveal_strlit("Minus");
    reveal_strlit("Digit8");
    reveal_strlit("Digit0");
    reveal_strlit("BracketRight");
    reveal_strlit("KeyO");
    reveal_strlit("KeyU");
    reveal_strlit("BracketLeft");
    reveal_strlit("KeyI");
    reveal_strlit("KeyP");
    reveal_strlit("Enter");
    reveal_strlit("NumpadEnter");
    reveal_strlit("KeyL");
    reveal_strlit("KeyJ");
    reveal_strlit("Quote");
    reveal_strlit("KeyK");
    reveal_strlit("Semicolon");
    reveal_strlit("Backslash");
    reveal_strlit("Comma");
    reveal_strlit("Slash");
    reveal_strlit("KeyN");
    reveal_strlit("KeyM");
    reveal_strlit("Period");
    reveal_strlit("Tab");
    reveal_strlit("Space");
    reveal_strlit("Backquote");
    reveal_strlit("Backspace");
    reveal_strlit("Escape");
    reveal_strlit("MetaRight");
    reveal_strlit("OSRight");
    reveal_strlit("MetaLeft");
    reveal_strlit("OSLeft");
    reveal_strlit("ShiftLeft");
    reveal_strlit("AltLeft");
    reveal_strlit("ControlLeft");
    reveal_strlit("ShiftRight");
    reveal_strlit("AltRight");
    reveal_strlit("ControlRight");
    reveal_strlit("F17");
    reveal_strlit("F18");
    reveal_strlit("F19");
    reveal_strlit("F5");
    reveal_strlit("F6");
    reveal_strlit("F7");
    reveal_strlit("F3");
    reveal_strlit("F8");
    reveal_strlit("F9");
    reveal_strlit("F11");
    reveal_strlit("F13");
    reveal_strlit("F16");
    reveal_strlit("F14");
    reveal_strlit("F10");
    reveal_strlit("F12");
    reveal_strlit("F15");
    reveal_strlit("Home");
    reveal_strlit("PageUp");
    reveal_strlit("Delete");
    reveal_strlit("F4");
    reveal_strlit("End");
    reveal_strlit("F2");
    reveal_strlit("PageDown");
    reveal_strlit("F1");
    reveal_strlit("ArrowLeft");
    reveal_strlit("ArrowRight");
    reveal_strlit("ArrowDown");
    reveal_strlit("ArrowUp");
    assert("KeyA"@ =~= seq!['K', 'e', 'y', 'A']);
    assert("KeyS"@ =~= seq!['K', 'e', 'y', 'S']);
    assert("KeyD"@ =~= seq!['K', 'e', 'y', 'D']);
    assert("KeyF"@ =~= seq!['K', 'e', 'y', 'F']);
    assert("KeyH"@ =~= seq!['K', 'e', 'y', 'H']);
    assert("KeyG"@ =~= seq!['K', 'e', 'y', 'G']);
    assert("KeyZ"@ =~= seq!['K', 'e', 'y', 'Z']);
    assert("KeyX"@ =~= seq!['K', 'e', 'y', 'X']);
    assert("KeyC"@ =~= seq!['K', 'e', 'y', 'C']);
    assert("KeyV"@ =~= seq!['K', 'e', 'y', 'V']);
    assert("KeyB"@ =~= seq!['K', 'e', 'y', 'B']);
    assert("KeyQ"@ =~= seq!['K', 'e', 'y', 'Q']);
    assert("KeyW"@ =~= seq!['K', 'e', 'y', 'W']);
    assert("KeyE"@ =~= seq!['K', 'e', 'y', 'E']);
    assert("KeyR"@ =~= seq!['K', 'e', 'y', 'R']);
    assert("KeyY"@ =~= seq!['K', 'e', 'y', 'Y']);
    assert("KeyT"@ =~= seq!['K', 'e', 'y', 'T']);
    assert("Digit1"@ =~= seq!['D', 'i', 'g', 'i', 't', '1']);
    assert("Digit2"@ =~= seq!['D', 'i', 'g', 'i', 't', '2']);
    assert("Digit3"@ =~= seq!['D', 'i', 'g', 'i', 't', '3']);
    assert("Digit4"@ =~= seq!['D', 'i', 'g', 'i', 't', '4']);
    assert("Digit6"@ =~= seq!['D', 'i', 'g', 'i', 't', '6']);
    assert("Digit5"@ =~= seq!['D', 'i', 'g', 'i', 't', '5']);
    assert("Equal"@ =~= seq!['E', 'q', 'u', 'a', 'l']);
    assert("Digit9"@ =~= seq!['D', 'i', 'g', 'i', 't', '9']);
    assert("Digit7"@ =~= seq!['D', 'i', 'g', 'i', 't', '7']);
    assert("Minus"@ =~= seq!['M', 'i', 'n', 'u', 's']);
    assert("Digit8"@ =~= seq!['D', 'i', 'g', 'i', 't', '8']);
    assert("Digit0"@ =~= seq!['D', 'i', 'g', 'i', 't', '0']);
    assert("BracketRight"@ =~= seq!['B', 'r', 'a', 'c', 'k', 'e', 't', 'R', 'i', 'g', 'h', 't']);
    assert("KeyO"@ =~= seq!['K', 'e', 'y', 'O']);
    assert("KeyU"@ =~= seq!['K', 'e', 'y', 'U']);
    assert("BracketLeft"@ =~= seq!['B', 'r', 'a', 'c', 'k', 'e', 't', 'L', 'e', 'f', 't']);
    assert("KeyI"@ =~= seq!['K', 'e', 'y', 'I']);
    assert("KeyP"@ =~= seq!['K', 'e', 'y', 'P']);
    assert("Enter"@ =~= seq!['E', 'n', 't', 'e', 'r']);
    assert("NumpadEnter"@ =~= seq!['N', 'u', 'm', 'p', 'a', 'd', 'E', 'n', 't', 'e', 'r']);
    assert("KeyL"@ =~= seq!['K', 'e', 'y', 'L']);
    assert("KeyJ"@ =~= seq!['K', 'e', 'y', 'J']);
    assert("Quote"@ =~= seq!['Q', 'u', 'o', 't', 'e']);
    assert("KeyK"@ =~= seq!['K', 'e', 'y', 'K']);
    assert("Semicolon"@ =~= seq!['S', 'e', 'm', 'i', 'c', 'o', 'l', 'o', 'n']);
    assert("Backslash"@ =~= seq!['B', 'a', 'c', 'k', 's', 'l', 'a', 's', 'h']);
    assert("Comma"@ =~= seq!['C', 'o', 'm', 'm', 'a']);
    assert("Slash"@ =~= seq!['S', 'l', 'a', 's', 'h']);
    assert("KeyN"@ =~= seq!['K', 'e', 'y', 'N']);
    assert("KeyM"@ =~= seq!['K', 'e', 'y', 'M']);
    assert("Period"@ =~= seq!['P', 'e', 'r', 'i', 'o', 'd']);
    assert("Tab"@ =~= seq!['T', 'a', 'b']);
    assert("Space"@ =~= seq!['S', 'p', 'a', 'c', 'e']);
    assert("Backquote"@ =~= seq!['B', 'a', 'c', 'k', 'q', 'u', 'o', 't', 'e']);
    assert("Backspace"@ =~= seq!['B', 'a', 'c', 'k', 's', 'p', 'a', 'c', 'e']);
    assert("Escape"@ =~= seq!['E', 's', 'c', 'a', 'p', 'e']);
    assert("MetaRight"@ =~= seq!['M', 'e', 't', 'a', 'R', 'i', 'g', 'h', 't']);
    assert("OSRight"@ =~= seq!['O', 'S', 'R', 'i', 'g', 'h', 't']);
    assert("MetaLeft"@ =~= seq!['M', 'e', 't', 'a', 'L', 'e', 'f', 't']);
    assert("OSLeft"@ =~= seq!['O', 'S', 'L', 'e', 'f', 't']);
    assert("ShiftLeft"@ =~= seq!['S', 'h', 'i', 'f', 't', 'L', 'e', 'f', 't']);
    assert("AltLeft"@ =~= seq!['A', 'l', 't', 'L', 'e', 'f', 't']);
    assert("ControlLeft"@ =~= seq!['C', 'o', 'n', 't', 'r', 'o', 'l', 'L', 'e', 'f', 't']);
    assert("ShiftRight"@ =~= seq!['S', 'h', 'i', 'f', 't', 'R', 'i', 'g', 'h', 't']);
    assert("AltRight"@ =~= seq!['A', 'l', 't', 'R', 'i', 'g', 'h', 't']);
    assert("ControlRight"@ =~= seq!['C', 'o', 'n', 't', 'r', 'o', 'l', 'R', 'i', 'g', 'h', 't']);
    assert("F17"@ =~= seq!['F', '1', '7']);
    assert("F18"@ =~= seq!['F', '1', '8']);
    assert("F19"@ =~= seq!['F', '1', '9']);
    assert("F5"@ =~= seq!['F', '5']);
    assert("F6"@ =~= seq!['F', '6']);
    assert("F7"@ =~= seq!['F', '7']);
    assert("F3"@ =~= seq!['F', '3']);
    assert("F8"@ =~= seq!['F', '8']);
    assert("F9"@ =~= seq!['F', '9']);
    assert("F11"@ =~= seq!['F', '1', '1']);
    assert("F13"@ =~= seq!['F', '1', '3']);
    assert("F16"@ =~= seq!['F', '1', '6']);
    assert("F14"@ =~= seq!['F', '1', '4']);
    assert("F10"@ =~= seq!['F', '1', '0']);
    assert("F12"@ =~= seq!['F', '1', '2']);
    assert("F15"@ =~= seq!['F', '1', '5']);
    assert("Home"@ =~= seq!['H', 'o', 'm', 'e']);
    assert("PageUp"@ =~= seq!['P', 'a', 'g', 'e', 'U', 'p']);
    assert("Delete"@ =~= seq!['D', 'e', 'l', 'e', 't', 'e']);
    assert("F4"@ =~= seq!['F', '4']);
    assert("End"@ =~= seq!['E', 'n', 'd']);
    assert("F2"@ =~= seq!['F', '2']);
    assert("PageDown"@ =~= seq!['P', 'a', 'g', 'e', 'D', 'o', 'w', 'n']);
    assert("F1"@ =~= seq!['F', '1']);
    assert("ArrowLeft"@ =~= seq!['A', 'r', 'r', 'o', 'w', 'L', 'e', 'f', 't']);
    assert("ArrowRight"@ =~= seq!['A', 'r', 'r', 'o', 'w', 'R', 'i', 'g', 'h', 't']);
    assert("ArrowDown"@ =~= seq!['A', 'r', 'r', 'o', 'w', 'D', 'o', 'w', 'n']);
    assert("ArrowUp"@ =~= seq!['A', 'r', 'r', 'o', 'w', 'U', 'p']);
}

/// `a` and `b` are the two keys `x` and `y`, in either order.
pub open spec fn key_pair(a: Seq<char>, b: Seq<char>, x: Seq<char>, y: Seq<char>) -> bool {
    (a == x && b == y) || (a == y && b == x)
}

/// Different keys that Windows does not tell apart: a main-row digit and the
/// keypad digit, the two Enter keys, the left and right Shift, Control and Alt
/// keys, and the four Meta / OS keys.
pub open spec fn win_aliases(a: Seq<char>, b: Seq<char>) -> bool {
    ||| key_pair(a, b, "Digit0"@, "Numpad0"@)
    ||| key_pair(a, b, "Digit1"@, "Numpad1"@)
    ||| key_pair(a, b, "Digit2"@, "Numpad2"@)
    ||| key_pair(a, b, "Digit3"@, "Numpad3"@)
    ||| key_pair(a, b, "Digit4"@, "Numpad4"@)
    ||| key_pair(a, b, "Digit5"@, "Numpad5"@)
    ||| key_pair(a, b, "Digit6"@, "Numpad6"@)
    ||| key_pair(a, b, "Digit7"@, "Numpad7"@)
    ||| key_pair(a, b, "Digit8"@, "Numpad8"@)
    ||| key_pair(a, b, "Digit9"@, "Numpad9"@)
    ||| key_pair(a, b, "Enter"@, "NumpadEnter"@)
    ||| key_pair(a, b, "ShiftLeft"@, "ShiftRight"@)
    ||| key_pair(a, b, "ControlLeft"@, "ControlRight"@)
    ||| key_pair(a, b, "AltLeft"@, "AltRight"@)
    ||| key_pair(a, b, "MetaLeft"@, "MetaRight"@)
    ||| key_pair(a, b, "MetaLeft"@, "OSLeft"@)
    ||| key_pair(a, b, "MetaLeft"@, "OSRight"@)
    ||| key_pair(a, b, "MetaRight"@, "OSLeft"@)
    ||| key_pair(a, b, "MetaRight"@, "OSRight"@)
    ||| key_pair(a, b, "OSLeft"@, "OSRight"@)
}

/// Two different keys share a Windows virtual key only when Windows does not
/// tell them apart ([`win_aliases`]).
#[verifier::rlimit(100)]
pub proof fn lemma_win_codes_distinct(a: Seq<char>, b: Seq<char>)
    requires
        win_vk_of(a) is Some,
        win_vk_of(a) == win_vk_of(b),
        a != b,
    ensures
        win_aliases(a, b),
{
}

/// The navigation and editing keys on Windows: the arrows are the four
/// consecutive virtual keys from `0x25` in the order left, up, right, down;
/// Page Up, Page Down, End and Home are the four before them; and Space,
/// Enter, Escape, Tab, Backspace and Delete are `VK_SPACE`, `VK_RETURN`,
/// `VK_ESCAPE`, `VK_TAB`, `VK_BACK` and `VK_DELETE`.
pub proof fn lemma_win_navigation_keys()
    ensures
        win_vk_of("ArrowLeft"@) == Some(0x25u16),
        win_vk_of("ArrowUp"@) == Some(0x26u16),
        win_vk_of("ArrowRight"@) == Some(0x27u16),
        win_vk_of("ArrowDown"@) == Some(0x28u16),
        win_vk_of("PageUp"@) == Some(0x21u16),
        win_vk_of("PageDown"@) == Some(0x22u16),
        win_vk_of("End"@) == Some(0x23u16),
        win_vk_of("Home"@) == Some(0x24u16),
        win_vk_of("Space"@) == Some(0x20u16),
        win_vk_of("Enter"@) == Some(0x0Du16),
        win_vk_of("Escape"@) == Some(0x1Bu16),
        win_vk_of("Tab"@) == Some(0x09u16),
        win_vk_of("Backspace"@) == Some(0x08u16),
        win_vk_of("Delete"@) == Some(0x2Eu16),
{
    reveal_strlit("KeyA");
    reveal_strlit("KeyB");
    reveal_strlit("KeyC");
    reveal_strlit("KeyD");
    reveal_strlit("KeyE");
    reveal_strlit("KeyF");
    reveal_strlit("KeyG");
    reveal_strlit("KeyH");
    reveal_strlit("KeyI");
    reveal_strlit("KeyJ");
    reveal_strlit("KeyK");
    reveal_strlit("KeyL");
    reveal_strlit("KeyM");
    reveal_strlit("KeyN");
    reveal_strlit("KeyO");
    reveal_strlit("KeyP");
    reveal_strlit("KeyQ");
    reveal_strlit("KeyR");
    reveal_strlit("KeyS");
    reveal_strlit("KeyT");
    reveal_strlit("KeyU");
    reveal_strlit("KeyV");
    reveal_strlit("KeyW");
    reveal_strlit("KeyX");
    reveal_strlit("KeyY");
    reveal_strlit("KeyZ");
    reveal_strlit("Digit0");
    reveal_strlit("Numpad0");
    reveal_strlit("Digit1");
    reveal_strlit("Numpad1");
    reveal_strlit("Digit2");
    reveal_strlit("Numpad2");
    reveal_strlit("Digit3");
    reveal_strlit("Numpad3");
    reveal_strlit("Digit4");
    reveal_strlit("Numpad4");
    reveal_strlit("Digit5");
    reveal_strlit("Numpad5");
    reveal_strlit("Digit6");
    reveal_strlit("Numpad6");
    reveal_strlit("Digit7");
    reveal_strlit("Numpad7");
    reveal_strlit("Digit8");
    reveal_strlit("Numpad8");
    reveal_strlit("Digit9");
    reveal_strlit("Numpad9");
    reveal_strlit("Space");
    reveal_strlit("Enter");
    reveal_strlit("NumpadEnter");
    reveal_strlit("Escape");
    reveal_strlit("Tab");
    reveal_strlit("Backspace");
    reveal_strlit("Delete");
    reveal_strlit("ArrowLeft");
    reveal_strlit("ArrowUp");
    reveal_strlit("ArrowRight");
    reveal_strlit("ArrowDown");
    reveal_strlit("Home");
    reveal_strlit("End");
    reveal_strlit("PageUp");
    reveal_strlit("PageDown");
    reveal_strlit("ShiftLeft");
    reveal_strlit("ShiftRight");
    reveal_strlit("ControlLeft");
    reveal_strlit("ControlRight");
    reveal_strlit("AltLeft");
    reveal_strlit("AltRight");
    reveal_strlit("MetaLeft");
    reveal_strlit("MetaRight");
    reveal_strlit("OSLeft");
    reveal_strlit("OSRight");
    reveal_strlit("F1");
    reveal_strlit("F2");
    reveal_strlit("F3");
    reveal_strlit("F4");
    reveal_strlit("F5");
    reveal_strlit("F6");
    reveal_strlit("F7");
    reveal_strlit("F8");
    reveal_strlit("F9");
    reveal_strlit("F10");
    reveal_strlit("F11");
    reveal_strlit("F12");
    reveal_strlit("Minus");
    reveal_strlit("Equal");
    reveal_strlit("BracketLeft");
    reveal_strlit("BracketRight");
    reveal_strlit("Backslash");
    reveal_strlit("Semicolon");
    reveal_strlit("Quote");
    reveal_strlit("Comma");
    reveal_strlit("Period");
    reveal_strlit("Slash");
    reveal_strlit("Backquote");
    assert("KeyA"@ =~= seq!['K', 'e', 'y', 'A']);
    assert("KeyB"@ =~= seq!['K', 'e', 'y', 'B']);
    assert("KeyC"@ =~= seq!['K', 'e', 'y', 'C']);
    assert("KeyD"@ =~= seq!['K', 'e', 'y', 'D']);
    assert("KeyE"@ =~= seq!['K', 'e', 'y', 'E']);
    assert("KeyF"@ =~= seq!['K', 'e', 'y', 'F']);
    assert("KeyG"@ =~= seq!['K', 'e', 'y', 'G']);
    assert("KeyH"@ =~= seq!['K', 'e', 'y', 'H']);
    assert("KeyI"@ =~= seq!['K', 'e', 'y', 'I']);
    assert("KeyJ"@ =~= seq!['K', 'e', 'y', 'J']);
    assert("KeyK"@ =~= seq!['K', 'e', 'y', 'K']);
    assert("KeyL"@ =~= seq!['K', 'e', 'y', 'L']);
    assert("KeyM"@ =~= seq!['K', 'e', 'y', 'M']);
    assert("KeyN"@ =~= seq!['K', 'e', 'y', 'N']);
    assert("KeyO"@ =~= seq!['K', 'e', 'y', 'O']);
    assert("KeyP"@ =~= seq!['K', 'e', 'y', 'P']);
    assert("KeyQ"@ =~= seq!['K', 'e', 'y', 'Q']);
    assert("KeyR"@ =~= seq!['K', 'e', 'y', 'R']);
    assert("KeyS"@ =~= seq!['K', 'e', 'y', 'S']);
    assert("KeyT"@ =~= seq!['K', 'e', 'y', 'T']);
    assert("KeyU"@ =~= seq!['K', 'e', 'y', 'U']);
    assert("KeyV"@ =~= seq!['K', 'e', 'y', 'V']);
    assert("KeyW"@ =~= seq!['K', 'e', 'y', 'W']);
    assert("KeyX"@ =~= seq!['K', 'e', 'y', 'X']);
    assert("KeyY"@ =~= seq!['K', 'e', 'y', 'Y']);
    assert("KeyZ"@ =~= seq!['K', 'e', 'y', 'Z']);
    assert("Digit0"@ =~= seq!['D', 'i', 'g', 'i', 't', '0']);
    assert("Numpad0"@ =~= seq!['N', 'u', 'm', 'p', 'a', 'd', '0']);
    assert("Digit1"@ =~= seq!['D', 'i', 'g', 'i', 't', '1']);
    assert("Numpad1"@ =~= seq!['N', 'u', 'm', 'p', 'a', 'd', '1']);
    assert("Digit2"@ =~= seq!['D', 'i', 'g', 'i', 't', '2']);
    assert("Numpad2"@ =~= seq!['N', 'u', 'm', 'p', 'a', 'd', '2']);
    assert("Digit3"@ =~= seq!['D', 'i', 'g', 'i', 't', '3']);
    assert("Numpad3"@ =~= seq!['N', 'u', 'm', 'p', 'a', 'd', '3']);
    assert("Digit4"@ =~= seq!['D', 'i', 'g', 'i', 't', '4']);
    assert("Numpad4"@ =~= seq!['N', 'u', 'm', 'p', 'a', 'd', '4']);
    assert("Digit5"@ =~= seq!['D', 'i', 'g', 'i', 't', '5']);
    assert("Numpad5"@ =~= seq!['N', 'u', 'm', 'p', 'a', 'd', '5']);
    assert("Digit6"@ =~= seq!['D', 'i', 'g', 'i', 't', '6']);
    assert("Numpad6"@ =~= seq!['N', 'u', 'm', 'p', 'a', 'd', '6']);
    assert("Digit7"@ =~= seq!['D', 'i', 'g', 'i', 't', '7']);
    assert("Numpad7"@ =~= seq!['N', 'u', 'm', 'p', 'a', 'd', '7']);
    assert("Digit8"@ =~= seq!['D', 'i', 'g', 'i', 't', '8']);
    assert("Numpad8"@ =~= seq!['N', 'u', 'm', 'p', 'a', 'd', '8']);
    assert("Digit9"@ =~= seq!['D', 'i', 'g', 'i', 't', '9']);
    assert("Numpad9"@ =~= seq!['N', 'u', 'm', 'p', 'a', 'd', '9']);
    assert("Space"@ =~= seq!['S', 'p', 'a', 'c', 'e']);
    assert("Enter"@ =~= seq!['E', 'n', 't', 'e', 'r']);
    assert("NumpadEnter"@ =~= seq!['N', 'u', 'm', 'p', 'a', 'd', 'E', 'n', 't', 'e', 'r']);
    assert("Escape"@ =~= seq!['E', 's', 'c', 'a', 'p', 'e']);
    assert("Tab"@ =~= seq!['T', 'a', 'b']);
    assert("Backspace"@ =~= seq!['B', 'a', 'c', 'k', 's', 'p', 'a', 'c', 'e']);
    assert("Delete"@ =~= seq!['D', 'e', 'l', 'e', 't', 'e']);
    assert("ArrowLeft"@ =~= seq!['A', 'r', 'r', 'o', 'w', 'L', 'e', 'f', 't']);
    assert("ArrowUp"@ =~= seq!['A', 'r', 'r', 'o', 'w', 'U', 'p']);
    assert("ArrowRight"@ =~= seq!['A', 'r', 'r', 'o', 'w', 'R', 'i', 'g', 'h', 't']);
    assert("ArrowDown"@ =~= seq!['A', 'r', 'r', 'o', 'w', 'D', 'o', 'w', 'n']);
    assert("Home"@ =~= seq!['H', 'o', 'm', 'e']);
    assert("End"@ =~= seq!['E', 'n', 'd']);
    assert("PageUp"@ =~= seq!['P', 'a', 'g', 'e', 'U', 'p']);
    assert("PageDown"@ =~= seq!['P', 'a', 'g', 'e', 'D', 'o', 'w', 'n']);
    assert("ShiftLeft"@ =~= seq!['S', 'h', 'i', 'f', 't', 'L', 'e', 'f', 't']);
    assert("ShiftRight"@ =~= seq!['S', 'h', 'i', 'f', 't', 'R', 'i', 'g', 'h', 't']);
    assert("ControlLeft"@ =~= seq!['C', 'o', 'n', 't', 'r', 'o', 'l', 'L', 'e', 'f', 't']);
    assert("ControlRight"@ =~= seq!['C', 'o', 'n', 't', 'r', 'o', 'l', 'R', 'i', 'g', 'h', 't']);
    assert("AltLeft"@ =~= seq!['A', 'l', 't', 'L', 'e', 'f', 't']);
    assert("AltRight"@ =~= seq!['A', 'l', 't', 'R', 'i', 'g', 'h', 't']);
    assert("MetaLeft"@ =~= seq!['M', 'e', 't', 'a', 'L', 'e', 'f', 't']);
    assert("MetaRight"@ =~= seq!['M', 'e', 't', 'a', 'R', 'i', 'g', 'h', 't']);
    assert("OSLeft"@ =~= seq!['O', 'S', 'L', 'e', 'f', 't']);
    assert("OSRight"@ =~= seq!['O', 'S', 'R', 'i', 'g', 'h', 't']);
    assert("F1"@ =~= seq!['F', '1']);
    assert("F2"@ =~= seq!['F', '2']);
    assert("F3"@ =~= seq!['F', '3']);
    assert("F4"@ =~= seq!['F', '4']);
    assert("F5"@ =~= seq!['F', '5']);
    assert("F6"@ =~= seq!['F', '6']);
    assert("F7"@ =~= seq!['F', '7']);
    assert("F8"@ =~= seq!['F', '8']);
    assert("F9"@ =~= seq!['F', '9']);
    assert("F10"@ =~= seq!['F', '1', '0']);
    assert("F11"@ =~= seq!['F', '1', '1']);
    assert("F12"@ =~= seq!['F', '1', '2']);
    assert("Minus"@ =~= seq!['M', 'i', 'n', 'u', 's']);
    assert("Equal"@ =~= seq!['E', 'q', 'u', 'a', 'l']);
    assert("BracketLeft"@ =~= seq!['B', 'r', 'a', 'c', 'k', 'e', 't', 'L', 'e', 'f', 't']);
    assert("BracketRight"@ =~= seq!['B', 'r', 'a', 'c', 'k', 'e', 't', 'R', 'i', 'g', 'h', 't']);
    assert("Backslash"@ =~= seq!['B', 'a', 'c', 'k', 's', 'l', 'a', 's', 'h']);
    assert("Semicolon"@ =~= seq!['S', 'e', 'm', 'i', 'c', 'o', 'l', 'o', 'n']);
    assert("Quote"@ =~= seq!['Q', 'u', 'o', 't', 'e']);
    assert("Comma"@ =~= seq!['C', 'o', 'm', 'm', 'a']);
    assert("Period"@ =~= seq!['P', 'e', 'r', 'i', 'o', 'd']);
    assert("Slash"@ =~= seq!['S', 'l', 'a', 's', 'h']);
    assert("Backquote"@ =~= seq!['B', 'a', 'c', 'k', 'q', 'u', 'o', 't', 'e']);
}

/// The navigation and editing keys on macOS: the arrows are the four
/// consecutive key codes from `0x7B` in the order left, right, down, up; Home,
/// Page Up, forward Delete, End and Page Down are `0x73`, `0x74`, `0x75`,
/// `0x77` and `0x79`; Tab, Space, Backspace and Escape are `0x30`, `0x31`,
/// `0x33` and `0x35`.
pub proof fn lemma_mac_navigation_keys()
    ensures
        mac_keycode_of("ArrowLeft"@) == Some(0x7Bu16),
        mac_keycode_of("ArrowRight"@) == Some(0x7Cu16),
        mac_keycode_of("ArrowDown"@) == Some(0x7Du16),
        mac_keycode_of("ArrowUp"@) == Some(0x7Eu16),
        mac_keycode_of("Home"@) == Some(0x73u16),
        mac_keycode_of("PageUp"@) == Some(0x74u16),
        mac_keycode_of("Delete"@) == Some(0x75u16),
        mac_keycode_of("End"@) == Some(0x77u16),
        mac_keycode_of("PageDown"@) == Some(0x79u16),
        mac_keycode_of("Tab"@) == Some(0x30u16),
        mac_keycode_of("Space"@) == Some(0x31u16),
        mac_keycode_of("Backspace"@) == Some(0x33u16),
        mac_keycode_of("Escape"@) == Some(0x35u16),
{
    reveal_strlit("KeyA");
    reveal_strlit("KeyS");
    reveal_strlit("KeyD");
    reveal_strlit("KeyF");
    reveal_strlit("KeyH");
    reveal_strlit("KeyG");
    reveal_strlit("KeyZ");
    reveal_strlit("KeyX");
    reveal_strlit("KeyC");
    reveal_strlit("KeyV");
    reveal_strlit("KeyB");
    reveal_strlit("KeyQ");
    reveal_strlit("KeyW");
    reveal_strlit("KeyE");
    reveal_strlit("KeyR");
    reveal_strlit("KeyY");
    reveal_strlit("KeyT");
    reveal_strlit("Digit1");
    reveal_strlit("Digit2");
    reveal_strlit("Digit3");
    reveal_strlit("Digit4");
    reveal_strlit("Digit6");
    reveal_strlit("Digit5");
    reveal_strlit("Equal");
    reveal_strlit("Digit9");
    reveal_strlit("Digit7");
    reveal_strlit("Minus");
    reveal_strlit("Digit8");
    reveal_strlit("Digit0");
    reveal_strlit("BracketRight");
    reveal_strlit("KeyO");
    reveal_strlit("KeyU");
    reveal_strlit("BracketLeft");
    reveal_strlit("KeyI");
    reveal_strlit("KeyP");
    reveal_strlit("Enter");
    reveal_strlit("NumpadEnter");
    reveal_strlit("KeyL");
    reveal_strlit("KeyJ");
    reveal_strlit("Quote");
    reveal_strlit("KeyK");
    reveal_strlit("Semicolon");
    reveal_strlit("Backslash");
    reveal_strlit("Comma");
    reveal_strlit("Slash");
    reveal_strlit("KeyN");
    reveal_strlit("KeyM");
    reveal_strlit("Period");
    reveal_strlit("Tab");
    reveal_strlit("Space");
    reveal_strlit("Backquote");
    reveal_strlit("Backspace");
    reveal_strlit("Escape");
    reveal_strlit("MetaRight");
    reveal_strlit("OSRight");
    reveal_strlit("MetaLeft");
    reveal_strlit("OSLeft");
    reveal_strlit("ShiftLeft");
    reveal_strlit("AltLeft");
    reveal_strlit("ControlLeft");
    reveal_strlit("ShiftRight");
    reveal_strlit("AltRight");
    reveal_strlit("ControlRight");
    reveal_strlit("F17");
    reveal_strlit("F18");
    reveal_strlit("F19");
    reveal_strlit("F5");
    reveal_strlit("F6");
    reveal_strlit("F7");
    reveal_strlit("F3");
    reveal_strlit("F8");
    reveal_strlit("F9");
    reveal_strlit("F11");
    reveal_strlit("F13");
    reveal_strlit("F16");
    reveal_strlit("F14");
    reveal_strlit("F10");
    reveal_strlit("F12");
    reveal_strlit("F15");
    reveal_strlit("Home");
    reveal_strlit("PageUp");
    reveal_strlit("Delete");
    reveal_strlit("F4");
    reveal_strlit("End");
    reveal_strlit("F2");
    reveal_strlit("PageDown");
    reveal_strlit("F1");
    reveal_strlit("ArrowLeft");
    reveal_strlit("ArrowRight");
    reveal_strlit("ArrowDown");
    reveal_strlit("ArrowUp");
    assert("KeyA"@ =~= seq!['K', 'e', 'y', 'A']);
    assert("KeyS"@ =~= seq!['K', 'e', 'y', 'S']);
    assert("KeyD"@ =~= seq!['K', 'e', 'y', 'D']);
    assert("KeyF"@ =~= seq!['K', 'e', 'y', 'F']);
    assert("KeyH"@ =~= seq!['K', 'e', 'y', 'H']);
    assert("KeyG"@ =~= seq!['K', 'e', 'y', 'G']);
    assert("KeyZ"@ =~= seq!['K', 'e', 'y', 'Z']);
    assert("KeyX"@ =~= seq!['K', 'e', 'y', 'X']);
    assert("KeyC"@ =~= seq!['K', 'e', 'y', 'C']);
    assert("KeyV"@ =~= seq!['K', 'e', 'y', 'V']);
    assert("KeyB"@ =~= seq!['K', 'e', 'y', 'B']);
    assert("KeyQ"@ =~= seq!['K', 'e', 'y', 'Q']);
    assert("KeyW"@ =~= seq!['K', 'e', 'y', 'W']);
    assert("KeyE"@ =~= seq!['K', 'e', 'y', 'E']);
    assert("KeyR"@ =~= seq!['K', 'e', 'y', 'R']);
    assert("KeyY"@ =~= seq!['K', 'e', 'y', 'Y']);
    assert("KeyT"@ =~= seq!['K', 'e', 'y', 'T']);
    assert("Digit1"@ =~= seq!['D', 'i', 'g', 'i', 't', '1']);
    assert("Digit2"@ =~= seq!['D', 'i', 'g', 'i', 't', '2']);
    assert("Digit3"@ =~= seq!['D', 'i', 'g', 'i', 't', '3']);
    assert("Digit4"@ =~= seq!['D', 'i', 'g', 'i', 't', '4']);
    assert("Digit6"@ =~= seq!['D', 'i', 'g', 'i', 't', '6']);
    assert("Digit5"@ =~= seq!['D', 'i', 'g', 'i', 't', '5']);
    assert("Equal"@ =~= seq!['E', 'q', 'u', 'a', 'l']);
    assert("Digit9"@ =~= seq!['D', 'i', 'g', 'i', 't', '9']);
    assert("Digit7"@ =~= seq!['D', 'i', 'g', 'i', 't', '7']);
    assert("Minus"@ =~= seq!['M', 'i', 'n', 'u', 's']);
    assert("Digit8"@ =~= seq!['D', 'i', 'g', 'i', 't', '8']);
    assert("Digit0"@ =~= seq!['D', 'i', 'g', 'i', 't', '0']);
    assert("BracketRight"@ =~= seq!['B', 'r', 'a', 'c', 'k', 'e', 't', 'R', 'i', 'g', 'h', 't']);
    assert("KeyO"@ =~= seq!['K', 'e', 'y', 'O']);
    assert("KeyU"@ =~= seq!['K', 'e', 'y', 'U']);
    assert("BracketLeft"@ =~= seq!['B', 'r', 'a', 'c', 'k', 'e', 't', 'L', 'e', 'f', 't']);
    assert("KeyI"@ =~= seq!['K', 'e', 'y', 'I']);
    assert("KeyP"@ =~= seq!['K', 'e', 'y', 'P']);
    assert("Enter"@ =~= seq!['E', 'n', 't', 'e', 'r']);
    assert("NumpadEnter"@ =~= seq!['N', 'u', 'm', 'p', 'a', 'd', 'E', 'n', 't', 'e', 'r']);
    assert("KeyL"@ =~= seq!['K', 'e', 'y', 'L']);
    assert("KeyJ"@ =~= seq!['K', 'e', 'y', 'J']);
    assert("Quote"@ =~= seq!['Q', 'u', 'o', 't', 'e']);
    assert("KeyK"@ =~= seq!['K', 'e', 'y', 'K']);
    assert("Semicolon"@ =~= seq!['S', 'e', 'm', 'i', 'c', 'o', 'l', 'o', 'n']);
    assert("Backslash"@ =~= seq!['B', 'a', 'c', 'k', 's', 'l', 'a', 's', 'h']);
    assert("Comma"@ =~= seq!['C', 'o', 'm', 'm', 'a']);
    assert("Slash"@ =~= seq!['S', 'l', 'a', 's', 'h']);
    assert("KeyN"@ =~= seq!['K', 'e', 'y', 'N']);
    assert("KeyM"@ =~= seq!['K', 'e', 'y', 'M']);
    assert("Period"@ =~= seq!['P', 'e', 'r', 'i', 'o', 'd']);
    assert("Tab"@ =~= seq!['T', 'a', 'b']);
    assert("Space"@ =~= seq!['S', 'p', 'a', 'c', 'e']);
    assert("Backquote"@ =~= seq!['B', 'a', 'c', 'k', 'q', 'u', 'o', 't', 'e']);
    assert("Backspace"@ =~= seq!['B', 'a', 'c', 'k', 's', 'p', 'a', 'c', 'e']);
    assert("Escape"@ =~= seq!['E', 's', 'c', 'a', 'p', 'e']);
    assert("MetaRight"@ =~= seq!['M', 'e', 't', 'a', 'R', 'i', 'g', 'h', 't']);
    assert("OSRight"@ =~= seq!['O', 'S', 'R', 'i', 'g', 'h', 't']);
    assert("MetaLeft"@ =~= seq!['M', 'e', 't', 'a', 'L', 'e', 'f', 't']);
    assert("OSLeft"@ =~= seq!['O', 'S', 'L', 'e', 'f', 't']);
    assert("ShiftLeft"@ =~= seq!['S', 'h', 'i', 'f', 't', 'L', 'e', 'f', 't']);
    assert("AltLeft"@ =~= seq!['A', 'l', 't', 'L', 'e', 'f', 't']);
    assert("ControlLeft"@ =~= seq!['C', 'o', 'n', 't', 'r', 'o', 'l', 'L', 'e', 'f', 't']);
    assert("ShiftRight"@ =~= seq!['S', 'h', 'i', 'f', 't', 'R', 'i', 'g', 'h', 't']);
    assert("AltRight"@ =~= seq!['A', 'l', 't', 'R', 'i', 'g', 'h', 't']);
    assert("ControlRight"@ =~= seq!['C', 'o', 'n', 't', 'r', 'o', 'l', 'R', 'i', 'g', 'h', 't']);
    assert("F17"@ =~= seq!['F', '1', '7']);
    assert("F18"@ =~= seq!['F', '1', '8']);
    assert("F19"@ =~= seq!['F', '1', '9']);
    assert("F5"@ =~= seq!['F', '5']);
    assert("F6"@ =~= seq!['F', '6']);
    assert("F7"@ =~= seq!['F', '7']);
    assert("F3"@ =~= seq!['F', '3']);
    assert("F8"@ =~= seq!['F', '8']);
    assert("F9"@ =~= seq!['F', '9']);
    assert("F11"@ =~= seq!['F', '1', '1']);
    assert("F13"@ =~= seq!['F', '1', '3']);
    assert("F16"@ =~= seq!['F', '1', '6']);
    assert("F14"@ =~= seq!['F', '1', '4']);
    assert("F10"@ =~= seq!['F', '1', '0']);
    assert("F12"@ =~= seq!['F', '1', '2']);
    assert("F15"@ =~= seq!['F', '1', '5']);
    assert("Home"@ =~= seq!['H', 'o', 'm', 'e']);
    assert("PageUp"@ =~= seq!['P', 'a', 'g', 'e', 'U', 'p']);
    assert("Delete"@ =~= seq!['D', 'e', 'l', 'e', 't', 'e']);
    assert("F4"@ =~= seq!['F', '4']);
    assert("End"@ =~= seq!['E', 'n', 'd']);
    assert("F2"@ =~= seq!['F', '2']);
    assert("PageDown"@ =~= seq!['P', 'a', 'g', 'e', 'D', 'o', 'w', 'n']);
    assert("F1"@ =~= seq!['F', '1']);
    assert("ArrowLeft"@ =~= seq!['A', 'r', 'r', 'o', 'w', 'L', 'e', 'f', 't']);
    assert("ArrowRight"@ =~= seq!['A', 'r', 'r', 'o', 'w', 'R', 'i', 'g', 'h', 't']);
    assert("ArrowDown"@ =~= seq!['A', 'r', 'r', 'o', 'w', 'D', 'o', 'w', 'n']);
    assert("ArrowUp"@ =~= seq!['A', 'r', 'r', 'o', 'w', 'U', 'p']);
}

/// The punctuation keys on Windows are the OEM virtual keys of a US layout:
/// Semicolon, Equal, Comma, Minus, Period, Slash and Backquote are the seven
/// consecutive keys from `0xBA`, and BracketLeft, Backslash, BracketRight and
/// Quote the four consecutive keys from `0xDB`.
pub proof fn lemma_win_punctuation_keys()
    ensures
        win_vk_of("Semicolon"@) == Some(0xBAu16),
        win_vk_of("Equal"@) == Some(0xBBu16),
        win_vk_of("Comma"@) == Some(0xBCu16),
        win_vk_of("Minus"@) == Some(0xBDu16),
        win_vk_of("Period"@) == Some(0xBEu16),
        win_vk_of("Slash"@) == Some(0xBFu16),
        win_vk_of("Backquote"@) == Some(0xC0u16),
        win_vk_of("BracketLeft"@) == Some(0xDBu16),
        win_vk_of("Backslash"@) == Some(0xDCu16),
        win_vk_of("BracketRight"@) == Some(0xDDu16),
        win_vk_of("Quote"@) == Some(0xDEu16),
{
    reveal_strlit("KeyA");
    reveal_strlit("KeyB");
    reveal_strlit("KeyC");
    reveal_strlit("KeyD");
    reveal_strlit("KeyE");
    reveal_strlit("KeyF");
    reveal_strlit("KeyG");
    reveal_strlit("KeyH");
    reveal_strlit("KeyI");
    reveal_strlit("KeyJ");
    reveal_strlit("KeyK");
    reveal_strlit("KeyL");
    reveal_strlit("KeyM");
    reveal_strlit("KeyN");
    reveal_strlit("KeyO");
    reveal_strlit("KeyP");
    reveal_strlit("KeyQ");
    reveal_strlit("KeyR");
    reveal_strlit("KeyS");
    reveal_strlit("KeyT");
    reveal_strlit("KeyU");
    reveal_strlit("KeyV");
    reveal_strlit("KeyW");
    reveal_strlit("KeyX");
    reveal_strlit("KeyY");
    reveal_strlit("KeyZ");
    reveal_strlit("Digit0");
    reveal_strlit("Numpad0");
    reveal_strlit("Digit1");
    reveal_strlit("Numpad1");
    reveal_strlit("Digit2");
    reveal_strlit("Numpad2");
    reveal_strlit("Digit3");
    reveal_strlit("Numpad3");
    reveal_strlit("Digit4");
    reveal_strlit("Numpad4");
    reveal_strlit("Digit5");
    reveal_strlit("Numpad5");
    reveal_strlit("Digit6");
    reveal_strlit("Numpad6");
    reveal_strlit("Digit7");
    reveal_strlit("Numpad7");
    reveal_strlit("Digit8");
    reveal_strlit("Numpad8");
    reveal_strlit("Digit9");
    reveal_strlit("Numpad9");
    reveal_strlit("Space");
    reveal_strlit("Enter");
    reveal_strlit("NumpadEnter");
    reveal_strlit("Escape");
    reveal_strlit("Tab");
    reveal_strlit("Backspace");
    reveal_strlit("Delete");
    reveal_strlit("ArrowLeft");
    reveal_strlit("ArrowUp");
    reveal_strlit("ArrowRight");
    reveal_strlit("ArrowDown");
    reveal_strlit("Home");
    reveal_strlit("End");
    reveal_strlit("PageUp");
    reveal_strlit("PageDown");
    reveal_strlit("ShiftLeft");
    reveal_strlit("ShiftRight");
    reveal_strlit("ControlLeft");
    reveal_strlit("ControlRight");
    reveal_strlit("AltLeft");
    reveal_strlit("AltRight");
    reveal_strlit("MetaLeft");
    reveal_strlit("MetaRight");
    reveal_strlit("OSLeft");
    reveal_strlit("OSRight");
    reveal_strlit("F1");
    reveal_strlit("F2");
    reveal_strlit("F3");
    reveal_strlit("F4");
    reveal_strlit("F5");
    reveal_strlit("F6");
    reveal_strlit("F7");
    reveal_strlit("F8");
    reveal_strlit("F9");
    reveal_strlit("F10");
    reveal_strlit("F11");
    reveal_strlit("F12");
    reveal_strlit("Minus");
    reveal_strlit("Equal");
    reveal_strlit("BracketLeft");
    reveal_strlit("BracketRight");
    reveal_strlit("Backslash");
    reveal_strlit("Semicolon");
    reveal_strlit("Quote");
    reveal_strlit("Comma");
    reveal_strlit("Period");
    reveal_strlit("Slash");
    reveal_strlit("Backquote");
    assert("KeyA"@ =~= seq!['K', 'e', 'y', 'A']);
    assert("KeyB"@ =~= seq!['K', 'e', 'y', 'B']);
    assert("KeyC"@ =~= seq!['K', 'e', 'y', 'C']);
    assert("KeyD"@ =~= seq!['K', 'e', 'y', 'D']);
    assert("KeyE"@ =~= seq!['K', 'e', 'y', 'E']);
    assert("KeyF"@ =~= seq!['K', 'e', 'y', 'F']);
    assert("KeyG"@ =~= seq!['K', 'e', 'y', 'G']);
    assert("KeyH"@ =~= seq!['K', 'e', 'y', 'H']);
    assert("KeyI"@ =~= seq!['K', 'e', 'y', 'I']);
    assert("KeyJ"@ =~= seq!['K', 'e', 'y', 'J']);
    assert("KeyK"@ =~= seq!['K', 'e', 'y', 'K']);
    assert("KeyL"@ =~= seq!['K', 'e', 'y', 'L']);
    assert("KeyM"@ =~= seq!['K', 'e', 'y', 'M']);
    assert("KeyN"@ =~= seq!['K', 'e', 'y', 'N']);
    assert("KeyO"@ =~= seq!['K', 'e', 'y', 'O']);
    assert("KeyP"@ =~= seq!['K', 'e', 'y', 'P']);
    assert("KeyQ"@ =~= seq!['K', 'e', 'y', 'Q']);
    assert("KeyR"@ =~= seq!['K', 'e', 'y', 'R']);
    assert("KeyS"@ =~= seq!['K', 'e', 'y', 'S']);
    assert("KeyT"@ =~= seq!['K', 'e', 'y', 'T']);
    assert("KeyU"@ =~= seq!['K', 'e', 'y', 'U']);
    assert("KeyV"@ =~= seq!['K', 'e', 'y', 'V']);
    assert("KeyW"@ =~= seq!['K', 'e', 'y', 'W']);
    assert("KeyX"@ =~= seq!['K', 'e', 'y', 'X']);
    assert("KeyY"@ =~= seq!['K', 'e', 'y', 'Y']);
    assert("KeyZ"@ =~= seq!['K', 'e', 'y', 'Z']);
    assert("Digit0"@ =~= seq!['D', 'i', 'g', 'i', 't', '0']);
    assert("Numpad0"@ =~= seq!['N', 'u', 'm', 'p', 'a', 'd', '0']);
    assert("Digit1"@ =~= seq!['D', 'i', 'g', 'i', 't', '1']);
    assert("Numpad1"@ =~= seq!['N', 'u', 'm', 'p', 'a', 'd', '1']);
    assert("Digit2"@ =~= seq!['D', 'i', 'g', 'i', 't', '2']);
    assert("Numpad2"@ =~= seq!['N', 'u', 'm', 'p', 'a', 'd', '2']);
    assert("Digit3"@ =~= seq!['D', 'i', 'g', 'i', 't', '3']);
    assert("Numpad3"@ =~= seq!['N', 'u', 'm', 'p', 'a', 'd', '3']);
    assert("Digit4"@ =~= seq!['D', 'i', 'g', 'i', 't', '4']);
    assert("Numpad4"@ =~= seq!['N', 'u', 'm', 'p', 'a', 'd', '4']);
    assert("Digit5"@ =~= seq!['D', 'i', 'g', 'i', 't', '5']);
    assert("Numpad5"@ =~= seq!['N', 'u', 'm', 'p', 'a', 'd', '5']);
    assert("Digit6"@ =~= seq!['D', 'i', 'g', 'i', 't', '6']);
    assert("Numpad6"@ =~= seq!['N', 'u', 'm', 'p', 'a', 'd', '6']);
    assert("Digit7"@ =~= seq!['D', 'i', 'g', 'i', 't', '7']);
    assert("Numpad7"@ =~= seq!['N', 'u', 'm', 'p', 'a', 'd', '7']);
    assert("Digit8"@ =~= seq!['D', 'i', 'g', 'i', 't', '8']);
    assert("Numpad8"@ =~= seq!['N', 'u', 'm', 'p', 'a', 'd', '8']);
    assert("Digit9"@ =~= seq!['D', 'i', 'g', 'i', 't', '9']);
    assert("Numpad9"@ =~= seq!['N', 'u', 'm', 'p', 'a', 'd', '9']);
    assert("Space"@ =~= seq!['S', 'p', 'a', 'c', 'e']);
    assert("Enter"@ =~= seq!['E', 'n', 't', 'e', 'r']);
    assert("NumpadEnter"@ =~= seq!['N', 'u', 'm', 'p', 'a', 'd', 'E', 'n', 't', 'e', 'r']);
    assert("Escape"@ =~= seq!['E', 's', 'c', 'a', 'p', 'e']);
    assert("Tab"@ =~= seq!['T', 'a', 'b']);
    assert("Backspace"@ =~= seq!['B', 'a', 'c', 'k', 's', 'p', 'a', 'c', 'e']);
    assert("Delete"@ =~= seq!['D', 'e', 'l', 'e', 't', 'e']);
    assert("ArrowLeft"@ =~= seq!['A', 'r', 'r', 'o', 'w', 'L', 'e', 'f', 't']);
    assert("ArrowUp"@ =~= seq!['A', 'r', 'r', 'o', 'w', 'U', 'p']);
    assert("ArrowRight"@ =~= seq!['A', 'r', 'r', 'o', 'w', 'R', 'i', 'g', 'h', 't']);
    assert("ArrowDown"@ =~= seq!['A', 'r', 'r', 'o', 'w', 'D', 'o', 'w', 'n']);
    assert("Home"@ =~= seq!['H', 'o', 'm', 'e']);
    assert("End"@ =~= seq!['E', 'n', 'd']);
    assert("PageUp"@ =~= seq!['P', 'a', 'g', 'e', 'U', 'p']);
    assert("PageDown"@ =~= seq!['P', 'a', 'g', 'e', 'D', 'o', 'w', 'n']);
    assert("ShiftLeft"@ =~= seq!['S', 'h', 'i', 'f', 't', 'L', 'e', 'f', 't']);
    assert("ShiftRight"@ =~= seq!['S', 'h', 'i', 'f', 't', 'R', 'i', 'g', 'h', 't']);
    assert("ControlLeft"@ =~= seq!['C', 'o', 'n', 't', 'r', 'o', 'l', 'L', 'e', 'f', 't']);
    assert("ControlRight"@ =~= seq!['C', 'o', 'n', 't', 'r', 'o', 'l', 'R', 'i', 'g', 'h', 't']);
    assert("AltLeft"@ =~= seq!['A', 'l', 't', 'L', 'e', 'f', 't']);
    assert("AltRight"@ =~= seq!['A', 'l', 't', 'R', 'i', 'g', 'h', 't']);
    assert("MetaLeft"@ =~= seq!['M', 'e', 't', 'a', 'L', 'e', 'f', 't']);
    assert("MetaRight"@ =~= seq!['M', 'e', 't', 'a', 'R', 'i', 'g', 'h', 't']);
    assert("OSLeft"@ =~= seq!['O', 'S', 'L', 'e', 'f', 't']);
    assert("OSRight"@ =~= seq!['O', 'S', 'R', 'i', 'g', 'h', 't']);
    assert("F1"@ =~= seq!['F', '1']);
    assert("F2"@ =~= seq!['F', '2']);
    assert("F3"@ =~= seq!['F', '3']);
    assert("F4"@ =~= seq!['F', '4']);
    assert("F5"@ =~= seq!['F', '5']);
    assert("F6"@ =~= seq!['F', '6']);
    assert("F7"@ =~= seq!['F', '7']);
    assert("F8"@ =~= seq!['F', '8']);
    assert("F9"@ =~= seq!['F', '9']);
    assert("F10"@ =~= seq!['F', '1', '0']);
    assert("F11"@ =~= seq!['F', '1', '1']);
    assert("F12"@ =~= seq!['F', '1', '2']);
    assert("Minus"@ =~= seq!['M', 'i', 'n', 'u', 's']);
    assert("Equal"@ =~= seq!['E', 'q', 'u', 'a', 'l']);
    assert("BracketLeft"@ =~= seq!['B', 'r', 'a', 'c', 'k', 'e', 't', 'L', 'e', 'f', 't']);
    assert("BracketRight"@ =~= seq!['B', 'r', 'a', 'c', 'k', 'e', 't', 'R', 'i', 'g', 'h', 't']);
    assert("Backslash"@ =~= seq!['B', 'a', 'c', 'k', 's', 'l', 'a', 's', 'h']);
    assert("Semicolon"@ =~= seq!['S', 'e', 'm', 'i', 'c', 'o', 'l', 'o', 'n']);
    assert("Quote"@ =~= seq!['Q', 'u', 'o', 't', 'e']);
    assert("Comma"@ =~= seq!['C', 'o', 'm', 'm', 'a']);
    assert("Period"@ =~= seq!['P', 'e', 'r', 'i', 'o', 'd']);
    assert("Slash"@ =~= seq!['S', 'l', 'a', 's', 'h']);
    assert("Backquote"@ =~= seq!['B', 'a', 'c', 'k', 'q', 'u', 'o', 't', 'e']);
}

} // verus!
