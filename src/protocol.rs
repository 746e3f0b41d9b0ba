//! The MCP300x serial transaction: three bytes out, three bytes back.

use vstd::prelude::*;

verus! {

/// First byte of every transaction: the start bit.
pub const START_BYTE: u8 = 0b0000_0001;

/// Value of the control byte: the top bit selects single-ended mode, the
/// next three bits the channel (taken modulo eight), the low four are padding.
pub open spec fn control_value(channel: u8, single_ended: bool) -> int {
    (if single_ended { 128int } else { 0int }) + (channel as int % 8) * 16
}

/// The three bytes sent to read `channel`.
pub open spec fn request_spec(channel: u8, single_ended: bool) -> Seq<u8> {
    seq![START_BYTE, control_value(channel, single_ended) as u8, 0u8]
}

/// The 10-bit reading held in the second and third reply bytes: the low two
/// bits of `high` above the eight bits of `low`.
pub open spec fn reading_spec(high: u8, low: u8) -> int {
    (high as int % 4) * 256 + low as int
}

/// A full-duplex transfer on a selected SPI device: the bytes in `words` are
/// sent and replaced by the bytes received.
pub trait SpiTransfer {
    type Error;

    fn transfer_in_place(&mut self, words: &mut [u8; 3]) -> Result<(), Self::Error>;
}

/// The control byte for a conversion of `channel`.
pub fn control_byte(channel: u8, single_ended: bool) -> (r: u8)
    ensures
        r as int == control_value(channel, single_ended),
{
    let mode: u8 = if single_ended { 0b1000_0000 } else { 0b0000_0000 };
    let selected: u8 = (channel & 0b111) << 4;
    assert((channel & 7u8) as int == channel as int % 8) by (bit_vector);
    assert(channel & 7u8 < 8u8) by (bit_vector);
    assert(((channel & 7u8) << 4u8) as int == (channel & 7u8) as int * 16) by (bit_vector)
        requires channel & 7u8 < 8u8;
    assert(mode | selected == mode + selected) by (bit_vector)
        requires
            mode == 128u8 || mode == 0u8,
            selected == ((channel & 7u8) << 4u8),
    ;
    mode | selected
}

/// The bytes to send to read `channel`.
pub fn request_frame(channel: u8, single_ended: bool) -> (r: [u8; 3])
    ensures
        r@ == request_spec(channel, single_ended),
{
    let r: [u8; 3] = [START_BYTE, control_byte(channel, single_ended), 0b0000_0000];
    assert(r@ =~= request_spec(channel, single_ended));
    r
}

/// The reading in the reply bytes `high` and `low`: the null bit and the
/// undefined bits of `high` are masked off.
pub fn decode_reading(high: u8, low: u8) -> (r: u16)
    ensures
        r as int == reading_spec(high, low),
        r < 1024,
{
    let h: u16 = high as u16;
    let l: u16 = low as u16;
    let r: u16 = ((h << 8) | l) & 0b0000_0011_1111_1111;
    assert(r == (h % 4) * 256 + l && r < 1024) by (bit_vector)
        requires
            h < 256,
            l < 256,
            r == ((h << 8u16) | l) & 0x3ffu16,
    ;
    r
}

/// One conversion of `channel`: the request frame is exchanged with the
/// device and the reading decoded from the reply. The reading always fits in
/// ten bits; an error of the transfer is handed back as it came.
pub(crate) fn read_with_mode<S: SpiTransfer>(spi: &mut S, channel: u8, single_ended: bool) -> (r:
    Result<u16, S::Error>)
    ensures
        r matches Ok(v) ==> v < 1024,
{
    let mut buffer = request_frame(channel, single_ended);
    match spi.transfer_in_place(&mut buffer) {
        Ok(()) => Ok(decode_reading(buffer[1], buffer[2])),
        Err(e) => Err(e),
    }
}

} // verus!
