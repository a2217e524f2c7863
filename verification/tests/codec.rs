//! Tests the raw frame codec and the session types.

use loreyawen::raw::RawFrame;
use loreyawen::Direction;
use loreyawen::Session;
use loreyawen::SessionRefMut;
use loreyawen::SessionState;

/// A fresh frame carries the fixed constants, the payload, and a zero MIC.
#[test]
fn raw_frame_new() {
    let frame = RawFrame::new(&b"abc".to_vec(), 4);
    assert_eq!(frame.header(), &b"\xE0\x00\x00\x00\x00\x00\x00\x01".to_vec());
    assert_eq!(frame.payload(), &b"abc".to_vec());
    assert_eq!(frame.mic(), &vec![0u8; 4]);
}

/// Serialisation emits header, payload, and MIC in order; parsing splits
/// them back.
#[test]
fn raw_frame_round_trip() {
    let mut frame = RawFrame::new(&b"abc".to_vec(), 4);
    frame.set_address(0xDEADBEEF);
    frame.set_frame_counter_lsbs(0x0201);
    frame.set_mic(b"\x0A\x0B\x0C\x0D".to_vec());
    let bytes = frame.into_frame();
    assert_eq!(bytes, b"\xE0\xEF\xBE\xAD\xDE\x01\x02\x01abc\x0A\x0B\x0C\x0D".to_vec());

    let parsed = RawFrame::parse(&bytes, 4).expect("unexpected invalid frame");
    assert_eq!(parsed.address(), 0xDEADBEEF);
    assert_eq!(parsed.frame_counter_lsbs(), 0x0201);
    assert_eq!(parsed.payload(), &b"abc".to_vec());
    assert_eq!(parsed.mic(), &b"\x0A\x0B\x0C\x0D".to_vec());
    assert_eq!(parsed.into_payload(), b"abc".to_vec());
}

/// Parsing with the extended MIC width splits at the other boundary.
#[test]
fn raw_frame_parse_extended() {
    let bytes = b"\xE0\xEF\xBE\xAD\xDE\x01\x02\x01abc\x01\x02\x03\x04\x05\x06\x07\x08".to_vec();
    let parsed = RawFrame::parse(&bytes, 8).expect("unexpected invalid frame");
    assert_eq!(parsed.payload(), &b"abc".to_vec());
    assert_eq!(parsed.mic(), &b"\x01\x02\x03\x04\x05\x06\x07\x08".to_vec());
}

/// Frames that are too short, too long, or carry wrong fixed bytes are
/// rejected.
#[test]
fn raw_frame_parse_rejects() {
    // One byte short of header plus MIC.
    assert!(RawFrame::parse(&vec![0xE0; 11], 4).is_none());
    // Wrong message header byte.
    assert!(RawFrame::parse(&b"\xA0\xEF\xBE\xAD\xDE\x01\x02\x01\x0A\x0B\x0C\x0D".to_vec(), 4).is_none());
    // Wrong frame port byte.
    assert!(RawFrame::parse(&b"\xE0\xEF\xBE\xAD\xDE\x01\x02\x02\x0A\x0B\x0C\x0D".to_vec(), 4).is_none());
    // Longer than the maximum message size.
    let mut oversized = b"\xE0\xEF\xBE\xAD\xDE\x01\x02\x01".to_vec();
    oversized.extend_from_slice(&[0u8; 245]);
    oversized.extend_from_slice(b"\x0A\x0B\x0C\x0D");
    assert_eq!(oversized.len(), 257);
    assert!(RawFrame::parse(&oversized, 4).is_none());
    // The empty-payload frame is the shortest valid one.
    assert!(RawFrame::parse(&b"\xE0\xEF\xBE\xAD\xDE\x01\x02\x01\x0A\x0B\x0C\x0D".to_vec(), 4).is_some());
}

/// The session accessors expose what the session was built from.
#[test]
fn session_accessors() {
    let mut session = Session::new([1u8; 16], [2u8; 16], 0xDEADBEEF, 3, 4);
    assert_eq!(session.nwkskey(), [1u8; 16]);
    assert_eq!(session.appskey(), [2u8; 16]);
    assert_eq!(session.device_address(), 0xDEADBEEF);
    assert_eq!(session.frame_counter(Direction::Uplink), 3);
    assert_eq!(session.frame_counter(Direction::Downlink), 4);

    session.set_frame_counter(9, Direction::Uplink);
    assert_eq!(session.frame_counter(Direction::Uplink), 9);
    assert_eq!(session.frame_counter(Direction::Downlink), 4);
}

/// The session wrapper forwards every accessor to the wrapped session.
#[test]
fn session_ref_mut_forwards() {
    let session = Session::new([1u8; 16], [2u8; 16], 5, 6, 7);
    let mut wrapper = SessionRefMut::new(session);
    assert_eq!(wrapper.nwkskey(), [1u8; 16]);
    assert_eq!(wrapper.device_address(), 5);
    assert_eq!(wrapper.frame_counter(Direction::Uplink), 6);
    wrapper.set_frame_counter(8, Direction::Downlink);
    assert_eq!(wrapper.frame_counter(Direction::Downlink), 8);
    assert_eq!(wrapper.session.frame_counter_downlink, 8);
}

/// The direction octets are the normative wire values.
#[test]
fn direction_octets() {
    assert_eq!(Direction::Uplink.octet(), 0x00);
    assert_eq!(Direction::Downlink.octet(), 0x01);
}
