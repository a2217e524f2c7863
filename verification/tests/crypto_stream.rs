//! Tests the cipherstream implementation against fixed vectors.

use loreyawen::stream::CipherstreamBuilder;
use loreyawen::Direction;

fn stream_test_key() -> [u8; 16] {
    *b"\xFF\xEE\xDD\xCC\xBB\xAA\x99\x88\x77\x66\x55\x44\x33\x22\x11\x00"
}

/// Tests the encryption for uplink frames.
#[test]
fn crypto_stream_uplink() {
    let mut data = b"Testolope".to_vec();
    CipherstreamBuilder::new(&stream_test_key())
        .set_direction(Direction::Uplink)
        .set_address(0xDEADBEEF)
        .set_frame_counter(0)
        .apply(&mut data);

    assert_eq!(data, b"\x7B\xA4\xCB\xEB\x83\x76\x65\x05\x9F".to_vec(), "unexpected ciphertext");
}

/// Tests the encryption for downlink frames.
#[test]
fn crypto_stream_downlink() {
    let mut data = b"Testolope".to_vec();
    CipherstreamBuilder::new(&stream_test_key())
        .set_direction(Direction::Downlink)
        .set_address(0xDEADBEEF)
        .set_frame_counter(0)
        .apply(&mut data);

    assert_eq!(data, b"\xEC\x1C\x04\x6C\xC2\x83\x80\x7B\xDF".to_vec(), "unexpected ciphertext");
}
