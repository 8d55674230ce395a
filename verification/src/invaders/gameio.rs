//! The arcade board's input ports: a pending key press is translated to
//! the port-1 button bits; port 2 reports the settings byte; other ports
//! leave the accumulator unchanged.

use vstd::prelude::*;

use crate::io::IO;
use crate::register::Register;

verus! {

/// The game keys the cabinet knows, named after the keyboard keys the
/// cabinet maps them from: C inserts a coin, Enter starts a game,
/// Space fires, Left and Right steer.
#[derive(Clone, Copy, PartialEq, Eq, Structural)]
pub enum GameKey {
    C,
    Enter,
    Space,
    Left,
    Right,
}

/// The byte an IN from `port` yields, given the pending key and the
/// current accumulator: port 1 carries the button bits of the pending key,
/// port 2 always reports 0x80, every other port leaves the accumulator.
pub open spec fn invaders_in_spec(pending: Option<GameKey>, port: u8, a: u8) -> u8 {
    match pending {
        Option::None => a,
        Option::Some(key) => {
            if port == 1 {
                match key {
                    GameKey::C => 0x01,
                    GameKey::Enter => 0x04,
                    GameKey::Space => 0x10,
                    GameKey::Left => 0x20,
                    GameKey::Right => 0x40,
                }
            } else if port == 2 {
                0x80
            } else {
                a
            }
        },
    }
}

/// The board's port devices: at most one key press is pending at a time.
pub struct InvadersIO {
    input_temp: Option<GameKey>,
}

impl InvadersIO {
    /// The key press waiting to be read, if any.
    pub closed spec fn pending(&self) -> Option<GameKey> {
        self.input_temp
    }

    /// Build the port devices with no key pending.
    pub fn new() -> (r: Self)
        ensures
            r.pending() is None,
    {
        Self { input_temp: None }
    }

    /// Clear the pending key press.
    pub fn clean_temp(&mut self)
        ensures
            final(self).pending() is None,
    {
        self.input_temp = None;
    }

    /// Record a key press for the next port read.
    pub fn set_input_temp(&mut self, key: GameKey)
        ensures
            final(self).pending() == Some(key),
    {
        self.input_temp = Some(key);
    }

    /// The byte an IN from `port` yields right now, the accumulator being
    /// `a`: exactly [`invaders_in_spec`] of the pending key.
    pub fn port_value(&self, port: u8, a: u8) -> (r: u8)
        ensures
            r == invaders_in_spec(self.pending(), port, a),
    {
        match self.input_temp {
            None => a,
            Some(key) => {
                if port == 1 {
                    match key {
                        GameKey::C => 0x01,
                        GameKey::Enter => 0x04,
                        GameKey::Space => 0x10,
                        GameKey::Left => 0x20,
                        GameKey::Right => 0x40,
                    }
                } else if port == 2 {
                    0x80
                } else {
                    a
                }
            },
        }
    }
}

impl IO for InvadersIO {
    fn input(&mut self, regs: &Register, port: u8) -> u8 {
        let r = self.port_value(port, regs.a);
        self.input_temp = None;
        r
    }

    fn output(&mut self, _regs: &Register, _port: u8, _value: u8) {
    }
}

} // verus!
