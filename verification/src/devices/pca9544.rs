//! The PCA9544 I2C multiplexer.
use vstd::prelude::*;

use crate::bus::ByteWrite;

verus! {

/// Bus address of the first multiplexer; the others follow it.
pub const PCA9544_ADDR: u8 = 0x74;

/// The control byte of channel zero: the enable bit, with the channel number in the bits below.
pub const CHANNEL_ENABLE: u8 = 0x04;

/// A bank of PCA9544 multiplexers at consecutive addresses.
pub struct Pca9544 {}

impl Pca9544 {
    pub fn new() -> (r: Self)
        ensures
            r == (Pca9544 {}),
    {
        Pca9544 {  }
    }

    /// The write that connects channel `ch` of multiplexer `dev`. What the bus answers to it is
    /// the outcome of the selection.
    pub fn select(&self, dev: u8, ch: u8) -> (w: ByteWrite)
        requires
            PCA9544_ADDR + dev <= u8::MAX,
            CHANNEL_ENABLE + ch <= u8::MAX,
        ensures
            w == select_write(dev, ch),
            w.addr == 0x74 + dev,
            w.byte == 0x04 + ch,
    {
        ByteWrite { addr: PCA9544_ADDR + dev, byte: CHANNEL_ENABLE + ch }
    }
}

/// The write that connects channel `ch` of multiplexer `dev`.
pub open spec fn select_write(dev: u8, ch: u8) -> ByteWrite {
    ByteWrite { addr: (PCA9544_ADDR + dev) as u8, byte: (CHANNEL_ENABLE + ch) as u8 }
}

/// On the four channels that a multiplexer has, the control byte has the enable bit set, the
/// channel number in its two low bits and nothing else.
pub proof fn law_control_byte(dev: u8, ch: u8)
    requires
        ch < 4,
    ensures
        select_write(dev, ch).byte & 0x04 == 0x04,
        select_write(dev, ch).byte & 0x03 == ch,
        select_write(dev, ch).byte & 0xF8 == 0,
{
    let byte: u8 = select_write(dev, ch).byte;
    assert(byte & 0x04 == 0x04 && byte & 0x03 == ch && byte & 0xF8 == 0) by (bit_vector)
        requires
            ch < 4,
            byte == 4 + ch,
    ;
}

/// Two selections make the same write only if they name the same multiplexer and channel.
pub proof fn law_select_tells_channels_apart(dev1: u8, ch1: u8, dev2: u8, ch2: u8)
    requires
        PCA9544_ADDR + dev1 <= u8::MAX,
        PCA9544_ADDR + dev2 <= u8::MAX,
        CHANNEL_ENABLE + ch1 <= u8::MAX,
        CHANNEL_ENABLE + ch2 <= u8::MAX,
    ensures
        select_write(dev1, ch1) == select_write(dev2, ch2) <==> dev1 == dev2 && ch1 == ch2,
{
}

} // verus!
