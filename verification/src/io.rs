//! The external I/O-port capability consumed by the IN and OUT opcodes.

use vstd::prelude::*;

use crate::register::Register;

verus! {

/// A port device collaborator. Port numbering and effect are owned entirely
/// by the implementor; the engine assumes nothing about the byte `input`
/// returns, and its contracts hold whatever comes back.
pub trait IO {
    /// Serve an IN: given the register state and the port number, produce
    /// the byte the accumulator will take.
    fn input(&mut self, regs: &Register, port: u8) -> u8;

    /// Serve an OUT: receive the accumulator value written to the port.
    fn output(&mut self, regs: &Register, port: u8, value: u8);
}

/// A bus with no devices attached: IN leaves the accumulator unchanged and
/// OUT discards the byte.
pub struct NullIO {}

impl NullIO {
    /// Build the device-less port capability.
    pub fn new() -> NullIO {
        NullIO {  }
    }
}

impl IO for NullIO {
    fn input(&mut self, regs: &Register, _port: u8) -> u8 {
        regs.a
    }

    fn output(&mut self, _regs: &Register, _port: u8, _value: u8) {
    }
}

} // verus!
