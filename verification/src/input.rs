//! Raw-input routing: modifier tracking, the keycode-to-character map used
//! by the lock screen's password entry, and the raw input events the
//! compositor drains each tick.

use vstd::prelude::*;

verus! {

/// The four modifier keys, each tracked independently from press/release
/// events.
#[derive(Debug, Clone, Copy, PartialEq, Eq, Structural)]
pub struct ModifierState {
    pub shift: bool,
    pub ctrl: bool,
    pub alt: bool,
    pub super_key: bool,
}

impl Default for ModifierState {
    /// No modifier held.
    fn default() -> (r: Self)
        ensures
            r == (ModifierState { shift: false, ctrl: false, alt: false, super_key: false }),
    {
        ModifierState { shift: false, ctrl: false, alt: false, super_key: false }
    }
}

/// The modifier state after one key event: the left/right shift, ctrl,
/// alt and super keycodes set their flag to whether the key is now down;
/// every other keycode changes nothing.
pub open spec fn spec_update_modifiers(m: ModifierState, code: u32, pressed: bool) -> ModifierState {
    if code == 42 || code == 54 {
        ModifierState { shift: pressed, ..m }
    } else if code == 29 || code == 97 {
        ModifierState { ctrl: pressed, ..m }
    } else if code == 56 || code == 100 {
        ModifierState { alt: pressed, ..m }
    } else if code == 125 || code == 126 {
        ModifierState { super_key: pressed, ..m }
    } else {
        m
    }
}

impl ModifierState {
    /// Track one key event.
    pub fn update(&mut self, code: u32, pressed: bool)
        ensures
            *final(self) == spec_update_modifiers(*old(self), code, pressed),
    {
        match code {
            42 | 54 => self.shift = pressed,
            29 | 97 => self.ctrl = pressed,
            56 | 100 => self.alt = pressed,
            125 | 126 => self.super_key = pressed,
            _ => (),
        }
    }
}

/// The character a keycode types on the standard key map, shifted or not:
/// the digit row with its shifted symbols, the three letter rows, space,
/// hyphen/underscore and equals/plus. Keys outside the map give nothing.
pub open spec fn spec_keycode_char(code: u32, shift: bool) -> Option<char> {
    if 2 <= code <= 11 {
        let num: int = if code == 11 {
            0
        } else {
            code - 1
        };
        if shift {
            Some(seq!['!', '@', '#', '$', '%', '^', '&', '*', '(', ')'][num])
        } else {
            Some(seq!['0', '1', '2', '3', '4', '5', '6', '7', '8', '9'][num])
        }
    } else if code == 16 { Some(if shift { 'Q' } else { 'q' }) }
    else if code == 17 { Some(if shift { 'W' } else { 'w' }) }
    else if code == 18 { Some(if shift { 'E' } else { 'e' }) }
    else if code == 19 { Some(if shift { 'R' } else { 'r' }) }
    else if code == 20 { Some(if shift { 'T' } else { 't' }) }
    else if code == 21 { Some(if shift { 'Y' } else { 'y' }) }
    else if code == 22 { Some(if shift { 'U' } else { 'u' }) }
    else if code == 23 { Some(if shift { 'I' } else { 'i' }) }
    else if code == 24 { Some(if shift { 'O' } else { 'o' }) }
    else if code == 25 { Some(if shift { 'P' } else { 'p' }) }
    else if code == 30 { Some(if shift { 'A' } else { 'a' }) }
    else if code == 31 { Some(if shift { 'S' } else { 's' }) }
    else if code == 32 { Some(if shift { 'D' } else { 'd' }) }
    else if code == 33 { Some(if shift { 'F' } else { 'f' }) }
    else if code == 34 { Some(if shift { 'G' } else { 'g' }) }
    else if code == 35 { Some(if shift { 'H' } else { 'h' }) }
    else if code == 36 { Some(if shift { 'J' } else { 'j' }) }
    else if code == 37 { Some(if shift { 'K' } else { 'k' }) }
    else if code == 38 { Some(if shift { 'L' } else { 'l' }) }
    else if code == 44 { Some(if shift { 'Z' } else { 'z' }) }
    else if code == 45 { Some(if shift { 'X' } else { 'x' }) }
    else if code == 46 { Some(if shift { 'C' } else { 'c' }) }
    else if code == 47 { Some(if shift { 'V' } else { 'v' }) }
    else if code == 48 { Some(if shift { 'B' } else { 'b' }) }
    else if code == 49 { Some(if shift { 'N' } else { 'n' }) }
    else if code == 50 { Some(if shift { 'M' } else { 'm' }) }
    else if code == 57 { Some(' ') }
    else if code == 12 { Some(if shift { '_' } else { '-' }) }
    else if code == 13 { Some(if shift { '+' } else { '=' }) }
    else { None }
}

/// The character a keycode types on the standard key map, shifted or not.
pub fn keycode_to_char(code: u32, shift: bool) -> (r: Option<char>)
    ensures
        r == spec_keycode_char(code, shift),
{
    let r = match code {
        2..=11 => {
            let num: u32 = if code == 11 {
                0
            } else {
                code - 1
            };
            if shift {
                let symbols = ['!', '@', '#', '$', '%', '^', '&', '*', '(', ')'];
                Some(symbols[num as usize])
            } else {
                let digits = ['0', '1', '2', '3', '4', '5', '6', '7', '8', '9'];
                Some(digits[num as usize])
            }
        },
        16 => Some(if shift { 'Q' } else { 'q' }),
        17 => Some(if shift { 'W' } else { 'w' }),
        18 => Some(if shift { 'E' } else { 'e' }),
        19 => Some(if shift { 'R' } else { 'r' }),
        20 => Some(if shift { 'T' } else { 't' }),
        21 => Some(if shift { 'Y' } else { 'y' }),
        22 => Some(if shift { 'U' } else { 'u' }),
        23 => Some(if shift { 'I' } else { 'i' }),
        24 => Some(if shift { 'O' } else { 'o' }),
        25 => Some(if shift { 'P' } else { 'p' }),
        30 => Some(if shift { 'A' } else { 'a' }),
        31 => Some(if shift { 'S' } else { 's' }),
        32 => Some(if shift { 'D' } else { 'd' }),
        33 => Some(if shift { 'F' } else { 'f' }),
        34 => Some(if shift { 'G' } else { 'g' }),
        35 => Some(if shift { 'H' } else { 'h' }),
        36 => Some(if shift { 'J' } else { 'j' }),
        37 => Some(if shift { 'K' } else { 'k' }),
        38 => Some(if shift { 'L' } else { 'l' }),
        44 => Some(if shift { 'Z' } else { 'z' }),
        45 => Some(if shift { 'X' } else { 'x' }),
        46 => Some(if shift { 'C' } else { 'c' }),
        47 => Some(if shift { 'V' } else { 'v' }),
        48 => Some(if shift { 'B' } else { 'b' }),
        49 => Some(if shift { 'N' } else { 'n' }),
        50 => Some(if shift { 'M' } else { 'm' }),
        57 => Some(' '),
        12 => Some(if shift { '_' } else { '-' }),
        13 => Some(if shift { '+' } else { '=' }),
        _ => None,
    };
    r
}

/// One raw input event, in integer screen space.
#[derive(Debug, Clone, Copy)]
pub enum InputEvent {
    PointerMotion { x: i32, y: i32 },
    PointerButton { pressed: bool },
    Keyboard { code: u32, pressed: bool },
}

/// An effect the shell asks its external collaborators to perform; the
/// loop around the library carries each one out.
#[derive(Debug, Clone)]
pub enum ShellAction {
    /// Spawn the named app (the command comes from `app_command`).
    LaunchApp(String),
    /// Forward the key event to the focused client's input capability.
    ForwardKey { code: u32, pressed: bool },
    /// Ask the client owning this window to close.
    RequestClose(u32),
    /// Negotiate this window size with the client.
    ConfigureSize { id: u32, width: i32, height: i32 },
}

} // verus!
