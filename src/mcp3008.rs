//! Driver for the eight-channel MCP3008 converter.

use vstd::prelude::*;

use crate::protocol::{read_with_mode, SpiTransfer};

verus! {

/// MCP3008 driver over an SPI device.
pub struct Mcp3008<SPI> {
    spi: SPI,
}

/// Channel list for the MCP3008.
#[derive(Clone, Copy, Debug, PartialEq, Eq, Structural)]
pub enum Channel {
    CH0,
    CH1,
    CH2,
    CH3,
    CH4,
    CH5,
    CH6,
    CH7,
}

impl Channel {
    /// The channel's number on the device.
    pub open spec fn number(self) -> u8 {
        match self {
            Channel::CH0 => 0,
            Channel::CH1 => 1,
            Channel::CH2 => 2,
            Channel::CH3 => 3,
            Channel::CH4 => 4,
            Channel::CH5 => 5,
            Channel::CH6 => 6,
            Channel::CH7 => 7,
        }
    }

    /// The channel's number on the device.
    pub fn index(self) -> (r: u8)
        ensures
            r == self.number(),
            r < 8,
    {
        match self {
            Channel::CH0 => 0,
            Channel::CH1 => 1,
            Channel::CH2 => 2,
            Channel::CH3 => 3,
            Channel::CH4 => 4,
            Channel::CH5 => 5,
            Channel::CH6 => 6,
            Channel::CH7 => 7,
        }
    }

    /// All channels, in ascending order.
    pub fn all() -> (r: Vec<Channel>)
        ensures
            r@ == seq![Channel::CH0, Channel::CH1, Channel::CH2, Channel::CH3, Channel::CH4,
            Channel::CH5, Channel::CH6, Channel::CH7],
    {
        let r = vec![Channel::CH0, Channel::CH1, Channel::CH2, Channel::CH3, Channel::CH4,
            Channel::CH5, Channel::CH6, Channel::CH7];
        assert(r@ =~= seq![Channel::CH0, Channel::CH1, Channel::CH2, Channel::CH3, Channel::CH4,
            Channel::CH5, Channel::CH6, Channel::CH7]);
        r
    }
}

impl<SPI> Mcp3008<SPI> {
    /// The SPI device the driver talks through.
    pub closed spec fn device(&self) -> SPI {
        self.spi
    }

    /// Creates a new driver from an SPI peripheral, which should be set to
    /// SPI mode 0.
    pub fn new(spi: SPI) -> (r: Self)
        ensures
            r.device() == spi,
    {
        Mcp3008 { spi }
    }

    /// Gives the SPI peripheral back.
    pub fn release(self) -> (r: SPI)
        ensures
            r == self.device(),
    {
        self.spi
    }
}

impl<SPI: SpiTransfer> Mcp3008<SPI> {
    /// Reads a channel and returns its 10-bit value, in single-ended mode if
    /// `single_ended` holds and in differential mode otherwise.
    pub fn read_with_mode(&mut self, ch: Channel, single_ended: bool) -> (r: Result<u16, SPI::Error>)
        ensures
            r matches Ok(v) ==> v < 1024,
    {
        read_with_mode(&mut self.spi, ch.index(), single_ended)
    }

    /// Reads a channel in single-ended mode.
    pub fn read(&mut self, ch: Channel) -> (r: Result<u16, SPI::Error>)
        ensures
            r matches Ok(v) ==> v < 1024,
    {
        self.read_with_mode(ch, true)
    }

    /// Reads a channel in differential mode.
    pub fn read_differential(&mut self, ch: Channel) -> (r: Result<u16, SPI::Error>)
        ensures
            r matches Ok(v) ==> v < 1024,
    {
        self.read_with_mode(ch, false)
    }
}

} // verus!
