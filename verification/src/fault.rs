//! The faults that halt the machine, and the state of the execution loop.

use vstd::prelude::*;

verus! {

/// The registers, flags, program counter and stack pointer at one instant.
#[derive(Clone, Copy, Debug, PartialEq, Eq)]
pub struct Snapshot {
    pub pc: u16,
    pub sp: u16,
    pub a: u8,
    pub b: u8,
    pub c: u8,
    pub d: u8,
    pub e: u8,
    pub h: u8,
    pub l: u8,
    pub f: u8,
    pub zero: bool,
    pub subtract: bool,
    pub half_carry: bool,
    pub carry: bool,
}

/// A condition that the core cannot recover from.
#[derive(Clone, Copy, Debug, PartialEq, Eq)]
pub enum Fault {
    /// An access to an address whose region has no backing model.
    UnimplementedRegion { address: u16 },
    /// No handler is registered for the fetched opcode. `extended` holds the
    /// second byte when `opcode` is the prefix of the extended space,
    /// `address` is where `opcode` was fetched from, and `snapshot` is the
    /// machine before that fetch, its program counter at `address`.
    UnknownOpcode { opcode: u8, extended: Option<u8>, address: u16, snapshot: Snapshot },
}

/// The state of the execution loop. `Halted` is terminal.
#[derive(Clone, Copy, Debug, PartialEq, Eq)]
pub enum State {
    Running,
    Halted(Fault),
}

} // verus!
