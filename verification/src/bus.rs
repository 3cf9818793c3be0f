//! The three shapes of I2C transfer that the board's devices use.
use vstd::prelude::*;

verus! {

/// A write of a single byte to the device at `addr`.
#[derive(Clone, Copy, Debug, PartialEq, Eq, Structural)]
pub struct ByteWrite {
    pub addr: u8,
    pub byte: u8,
}

/// A write of `value` into one register of the device at `addr`.
#[derive(Clone, Copy, Debug, PartialEq, Eq, Structural)]
pub struct RegisterWrite {
    pub addr: u8,
    pub register: u8,
    pub value: u8,
}

/// A read of two bytes that starts at one register of the device at `addr`.
#[derive(Clone, Copy, Debug, PartialEq, Eq, Structural)]
pub struct WordRead {
    pub addr: u8,
    pub register: u8,
}

impl ByteWrite {
    /// The bytes that go on the bus after the address.
    pub fn bytes(&self) -> (r: [u8; 1])
        ensures
            r@ == seq![self.byte],
    {
        [self.byte]
    }
}

impl RegisterWrite {
    /// The bytes that go on the bus after the address.
    pub fn bytes(&self) -> (r: [u8; 2])
        ensures
            r@ == seq![self.register, self.value],
    {
        [self.register, self.value]
    }
}

impl WordRead {
    /// The bytes that go on the bus before the device answers.
    pub fn bytes(&self) -> (r: [u8; 1])
        ensures
            r@ == seq![self.register],
    {
        [self.register]
    }
}

} // verus!
