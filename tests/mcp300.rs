use lyre::mcp3004::{Channel, Mcp3004};
use lyre::mcp3008::{Channel as Channel8, Mcp3008};
use lyre::protocol::{control_byte, decode_reading, request_frame, SpiTransfer, START_BYTE};

#[derive(Debug, PartialEq)]
struct MockError;

struct MockSpi;

impl SpiTransfer for MockSpi {
    type Error = MockError;

    fn transfer_in_place(&mut self, words: &mut [u8; 3]) -> Result<(), MockError> {
        assert_eq!(words[0], 0b0000_0001, "Missing start flag");

        words[1] &= 0b0111_0000;

        words[2] = match words[1] >> 4 {
            0 => 100,
            1 => 101,
            2 => 102,
            3 => 103,
            _ => unreachable!(),
        };

        Ok(())
    }
}

#[test]
fn mock_spi() {
    let mut mcp = Mcp3004::new(MockSpi);

    assert_eq!(mcp.read(Channel::CH0), Ok(100));
    assert_eq!(mcp.read(Channel::CH1), Ok(101));
    assert_eq!(mcp.read(Channel::CH2), Ok(102));
    assert_eq!(mcp.read(Channel::CH3), Ok(103));
}

/// Answers with the request it saw, so that the reading shows the control
/// byte's low bits.
struct EchoSpi {
    seen: Vec<[u8; 3]>,
    reply: [u8; 3],
}

impl SpiTransfer for EchoSpi {
    type Error = MockError;

    fn transfer_in_place(&mut self, words: &mut [u8; 3]) -> Result<(), MockError> {
        self.seen.push(*words);
        *words = self.reply;
        Ok(())
    }
}

struct FailingSpi;

impl SpiTransfer for FailingSpi {
    type Error = MockError;

    fn transfer_in_place(&mut self, _words: &mut [u8; 3]) -> Result<(), MockError> {
        Err(MockError)
    }
}

#[test]
fn decode_fixture() {
    assert_eq!(decode_reading(0b0000_0010, 0b1010_1010), 0b10_1010_1010);
}

#[test]
fn decode_masks_null_and_undefined_bits() {
    assert_eq!(decode_reading(0b1111_1111, 0b1111_1111), 0b11_1111_1111);
    assert_eq!(decode_reading(0b1111_1100, 0b0000_0000), 0);
    assert_eq!(decode_reading(0b0000_0001, 0b0000_0001), 257);
}

#[test]
fn request_frame_layout() {
    assert_eq!(START_BYTE, 0b0000_0001);
    assert_eq!(request_frame(5, true), [0b0000_0001, 0b1101_0000, 0b0000_0000]);
    assert_eq!(request_frame(2, false), [0b0000_0001, 0b0010_0000, 0b0000_0000]);
    assert_eq!(request_frame(0, true), [0b0000_0001, 0b1000_0000, 0b0000_0000]);
    assert_eq!(request_frame(7, false), [0b0000_0001, 0b0111_0000, 0b0000_0000]);
}

#[test]
fn control_byte_takes_channel_modulo_eight() {
    assert_eq!(control_byte(9, true), 0b1001_0000);
    assert_eq!(control_byte(15, false), 0b0111_0000);
}

#[test]
fn mcp3004_sends_mode_and_channel() {
    let spi = EchoSpi { seen: Vec::new(), reply: [0, 0b1111_1110, 0b0101_0101] };
    let mut mcp = Mcp3004::new(spi);
    assert_eq!(mcp.read(Channel::CH2), Ok(0b10_0101_0101));
    assert_eq!(mcp.read_differential(Channel::CH3), Ok(0b10_0101_0101));
    assert_eq!(mcp.read_with_mode(Channel::CH1, true), Ok(0b10_0101_0101));
    let spi = mcp.release();
    assert_eq!(
        spi.seen,
        vec![
            [0b0000_0001, 0b1010_0000, 0],
            [0b0000_0001, 0b0011_0000, 0],
            [0b0000_0001, 0b1001_0000, 0],
        ]
    );
}

#[test]
fn mcp3008_reads_high_channels() {
    let spi = EchoSpi { seen: Vec::new(), reply: [0, 0b0000_0011, 0b1111_1111] };
    let mut mcp = Mcp3008::new(spi);
    assert_eq!(mcp.read(Channel8::CH7), Ok(1023));
    assert_eq!(mcp.read_differential(Channel8::CH4), Ok(1023));
    let spi = mcp.release();
    assert_eq!(spi.seen, vec![[1, 0b1111_0000, 0], [1, 0b0100_0000, 0]]);
}

#[test]
fn transfer_error_is_handed_back() {
    let mut mcp = Mcp3004::new(FailingSpi);
    assert_eq!(mcp.read(Channel::CH0), Err(MockError));
    let mut mcp = Mcp3008::new(FailingSpi);
    assert_eq!(mcp.read_with_mode(Channel8::CH6, false), Err(MockError));
}

#[test]
fn channel_lists() {
    assert_eq!(Channel::all(), vec![Channel::CH0, Channel::CH1, Channel::CH2, Channel::CH3]);
    let all8 = Channel8::all();
    assert_eq!(all8.len(), 8);
    let numbers: Vec<u8> = all8.iter().map(|c| c.index()).collect();
    assert_eq!(numbers, vec![0, 1, 2, 3, 4, 5, 6, 7]);
    assert_eq!(Channel::CH3.index(), 3);
}
