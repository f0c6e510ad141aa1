use vstd::prelude::*;
use crate::cpu::Cpu;
use crate::machine::Machine;

verus! {

/// The code of the key that ends the program.
pub const ESCAPE: i32 = 27;

/// What the driver hears from the keyboard and the window.
#[derive(Clone, Copy, Debug, PartialEq, Eq, Structural)]
pub enum Input {
    /// The window was closed.
    Quit,
    /// The key with this code went down.
    KeyDown(i32),
    /// A key went up.
    KeyUp,
}

/// Whether the program goes on after `input`: it ends when the window is
/// closed or the escape key goes down.
pub open spec fn goes_on(input: Input) -> bool {
    match input {
        Input::Quit => false,
        Input::KeyDown(code) => code != ESCAPE,
        Input::KeyUp => true,
    }
}

/// The key that is held after `input`, where `held` was held before: a key of
/// the keypad that goes down replaces it, any key that goes up releases it,
/// and everything else leaves it.
pub open spec fn latched(held: Option<u8>, input: Input) -> Option<u8> {
    match input {
        Input::Quit => held,
        Input::KeyDown(code) => match key_digit(code) {
            Some(digit) => Some(digit),
            None => held,
        },
        Input::KeyUp => None,
    }
}

/// The keyboard key that stands for each key of the hex keypad, by the code
/// of its character. The keypad on the left is played on the keys on the
/// right:
///
/// ```text
/// 1 2 3 C      1 2 3 4
/// 4 5 6 D      q w e r
/// 7 8 9 E      a s d f
/// A 0 B F      z x c v
/// ```
///
/// Entry `d` of the sequence is the code of the key for the hex digit `d`.
pub open spec fn key_codes() -> Seq<i32> {
    seq![
        120i32, 49i32, 50i32, 51i32,
        113i32, 119i32, 101i32, 97i32,
        115i32, 100i32, 122i32, 99i32,
        52i32, 114i32, 102i32, 118i32,
    ]
}

/// The hex digit that the keyboard key with code `keycode` stands for, if it
/// stands for one.
pub open spec fn key_digit(keycode: i32) -> Option<u8> {
    if keycode == 49 {
        Some(0x1u8)
    } else if keycode == 50 {
        Some(0x2u8)
    } else if keycode == 51 {
        Some(0x3u8)
    } else if keycode == 52 {
        Some(0xCu8)
    } else if keycode == 113 {
        Some(0x4u8)
    } else if keycode == 119 {
        Some(0x5u8)
    } else if keycode == 101 {
        Some(0x6u8)
    } else if keycode == 114 {
        Some(0xDu8)
    } else if keycode == 97 {
        Some(0x7u8)
    } else if keycode == 115 {
        Some(0x8u8)
    } else if keycode == 100 {
        Some(0x9u8)
    } else if keycode == 102 {
        Some(0xEu8)
    } else if keycode == 122 {
        Some(0xAu8)
    } else if keycode == 120 {
        Some(0x0u8)
    } else if keycode == 99 {
        Some(0xBu8)
    } else if keycode == 118 {
        Some(0xFu8)
    } else {
        None
    }
}

/// The hex digit that a keyboard key stands for, if it stands for one. Any
/// other key gives `None`, and is to be ignored.
pub fn keycode_to_u8(keycode: i32) -> (digit: Option<u8>)
    ensures
        digit == key_digit(keycode),
{
    match keycode {
        49 => Some(0x1),
        50 => Some(0x2),
        51 => Some(0x3),
        52 => Some(0xC),
        113 => Some(0x4),
        119 => Some(0x5),
        101 => Some(0x6),
        114 => Some(0xD),
        97 => Some(0x7),
        115 => Some(0x8),
        100 => Some(0x9),
        102 => Some(0xE),
        122 => Some(0xA),
        120 => Some(0x0),
        99 => Some(0xB),
        118 => Some(0xF),
        _ => None,
    }
}

/// The lookup is the layout read backwards: a key stands for the digit `d`
/// exactly when it is the key that the layout gives for `d`. So every digit
/// has a key, and no two digits share one.
pub proof fn lemma_key_digit_is_layout(keycode: i32, d: u8)
    requires
        d <= 0xF,
    ensures
        key_digit(keycode) == Some(d) <==> key_codes()[d as int] == keycode,
{
}

/// Every digit that the lookup gives is a key of the keypad.
pub proof fn lemma_key_digit_is_hex(keycode: i32)
    ensures
        key_digit(keycode) matches Some(d) ==> d <= 0xF,
{
}

impl Cpu {
    /// Takes one input from the driver into the key latch, and says whether
    /// the program goes on. Keys that stand for no key of the keypad are
    /// ignored; the escape key and the closing of the window end the program
    /// and change nothing.
    pub fn handle_input(&mut self, input: Input) -> (running: bool)
        ensures
            running == goes_on(input),
            final(self)@ == (Machine {
                key_pressed: latched(old(self)@.key_pressed, input),
                ..old(self)@
            }),
    {
        match input {
            Input::Quit => false,
            Input::KeyUp => {
                self.release_key();
                true
            },
            Input::KeyDown(code) => {
                if code == ESCAPE {
                    false
                } else {
                    if let Some(digit) = keycode_to_u8(code) {
                        self.press_key(digit);
                    }
                    true
                }
            },
        }
    }
}

} // verus!
