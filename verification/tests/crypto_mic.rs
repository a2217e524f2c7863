//! Tests the MIC computation against fixed CMAC vectors.

use loreyawen::mic::MicBuilder;
use loreyawen::Direction;

fn mic_test_key() -> [u8; 16] {
    *b"\xFF\xEE\xDD\xCC\xBB\xAA\x99\x88\x77\x66\x55\x44\x33\x22\x11\x00"
}

/// Tests the MIC computation for uplink frames.
#[test]
fn crypto_mic_uplink() {
    let mic = MicBuilder::new(&mic_test_key())
        .set_direction(Direction::Uplink)
        .set_address(0xDEADBEEF)
        .set_frame_counter(0)
        .compute(&b"Test".to_vec(), &b"olope".to_vec());

    assert_eq!(mic, b"\xB1\xA3\x1A\xA9\xF5\xD3\x3B\xDC".to_vec(), "unexpected MIC");
}

/// Tests the MIC computation for downlink frames.
#[test]
fn crypto_mic_downlink() {
    let mic = MicBuilder::new(&mic_test_key())
        .set_direction(Direction::Downlink)
        .set_address(0xDEADBEEF)
        .set_frame_counter(0)
        .compute(&b"Test".to_vec(), &b"olope".to_vec());

    assert_eq!(mic, b"\x47\xC2\x4B\x8C\x3B\x1D\x20\x26".to_vec(), "unexpected MIC");
}
