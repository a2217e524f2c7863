//! End-to-end scenarios for the standard seal and open pipeline.

use loreyawen::open::open;
use loreyawen::seal::seal;
use loreyawen::Direction;
use loreyawen::Session;

fn scenario_session() -> Session {
    Session::new(
        *b"\x00\x11\x22\x33\x44\x55\x66\x77\x88\x99\xAA\xBB\xCC\xDD\xEE\xFF",
        *b"\xFF\xEE\xDD\xCC\xBB\xAA\x99\x88\x77\x66\x55\x44\x33\x22\x11\x00",
        0xDEADBEEF,
        0,
        0,
    )
}

/// Seal uplink, counter 0.
#[test]
fn seal_uplink_counter_zero() {
    let mut session = scenario_session();
    let frame = seal(&mut session, Direction::Uplink, &b"Testolope".to_vec())
        .expect("unexpected failure when sealing");

    // The MIC is the 4-byte prefix of the extended MIC of the same message.
    assert_eq!(
        frame,
        b"\xE0\xEF\xBE\xAD\xDE\x00\x00\x01\x7B\xA4\xCB\xEB\x83\x76\x65\x05\x9F\x8C\x33\xD3\x47"
            .to_vec(),
        "unexpected frame: {:02X?}",
        frame,
    );
    assert_eq!(session.frame_counter_uplink, 1, "invalid uplink frame counter");
    assert_eq!(session.frame_counter_downlink, 0, "invalid downlink frame counter");
}

/// Seal downlink, counter 0.
#[test]
fn seal_downlink_counter_zero() {
    let mut session = scenario_session();
    let frame = seal(&mut session, Direction::Downlink, &b"Testolope".to_vec())
        .expect("unexpected failure when sealing");

    // The MIC is the 4-byte prefix of the extended MIC of the same message.
    assert_eq!(
        frame,
        b"\xE0\xEF\xBE\xAD\xDE\x00\x00\x01\xEC\x1C\x04\x6C\xC2\x83\x80\x7B\xDF\xB9\x9D\x6E\x15"
            .to_vec(),
        "unexpected frame: {:02X?}",
        frame,
    );
    assert_eq!(session.frame_counter_uplink, 0, "invalid uplink frame counter");
    assert_eq!(session.frame_counter_downlink, 1, "invalid downlink frame counter");
}

/// Open the sealed uplink frame with the matching session.
#[test]
fn open_uplink_round_trip() {
    let mut sealing = scenario_session();
    let frame = seal(&mut sealing, Direction::Uplink, &b"Testolope".to_vec())
        .expect("unexpected failure when sealing");

    let mut opening = scenario_session();
    let plaintext = open(&mut opening, Direction::Uplink, &frame)
        .expect("unexpected failure when opening");

    assert_eq!(plaintext, b"Testolope".to_vec());
    assert_eq!(opening.frame_counter_uplink, 1, "invalid uplink frame counter");
    assert_eq!(opening.frame_counter_downlink, 0, "invalid downlink frame counter");
}

/// Counter window: a frame sealed at counter 0 fails to open once the
/// session expects counter 1.
#[test]
fn counter_window_replay() {
    let mut sealing = scenario_session();
    let frame = seal(&mut sealing, Direction::Uplink, &b"Testolope".to_vec())
        .expect("unexpected failure when sealing");

    let mut opening = scenario_session();
    opening.frame_counter_uplink = 1;
    let maybe_plaintext = open(&mut opening, Direction::Uplink, &frame);

    assert!(maybe_plaintext.is_none(), "unexpected success when opening a replayed frame");
    assert_eq!(opening.frame_counter_uplink, 1, "session changed by a failed open");
}

/// Tamper: flipping the last MIC byte of the sealed downlink frame makes
/// opening fail.
#[test]
fn tamper_last_mic_byte() {
    let mut sealing = scenario_session();
    let mut frame = seal(&mut sealing, Direction::Downlink, &b"Testolope".to_vec())
        .expect("unexpected failure when sealing");
    let last = frame.len() - 1;
    frame[last] ^= 0x01;

    let mut opening = scenario_session();
    let maybe_plaintext = open(&mut opening, Direction::Downlink, &frame);

    assert!(maybe_plaintext.is_none(), "unexpected success when opening a tampered frame");
    assert_eq!(opening.frame_counter_downlink, 0, "session changed by a failed open");
}

/// Direction swap: the sealed uplink frame fails to open as a downlink
/// frame.
#[test]
fn direction_swap() {
    let mut sealing = scenario_session();
    let frame = seal(&mut sealing, Direction::Uplink, &b"Testolope".to_vec())
        .expect("unexpected failure when sealing");

    let mut opening = scenario_session();
    let maybe_plaintext = open(&mut opening, Direction::Downlink, &frame);

    assert!(maybe_plaintext.is_none(), "unexpected success when opening with a swapped direction");
    assert_eq!(opening.frame_counter_downlink, 0, "session changed by a failed open");
}
