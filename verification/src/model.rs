//! The mathematical model of the wire format and of both keyed transforms.
//!
//! Every contract in the crate is stated over the functions in this module:
//! the 16-byte context blocks that bind a message to its session context, the
//! truncated CMAC tag, the CTR keystream application, the frame layout, the
//! frame-counter recovery, and the end-to-end meaning of sealing and opening.

use vstd::prelude::*;

use crate::aes128::cmac_tag;
use crate::aes128::ctr_keystream;
use crate::session::direction_octet;
use crate::session::Direction;
use vstd::bytes::spec_u16_from_le_bytes;
use vstd::bytes::spec_u16_to_le_bytes;
use vstd::bytes::spec_u32_from_le_bytes;
use vstd::bytes::spec_u32_to_le_bytes;

verus! {

/// The message header byte of a proprietary frame.
pub const MHDR: u8 = 0xE0;

/// The frame port byte, fixed as a version indicator.
pub const FPORT: u8 = 0x01;

/// The header length in bytes.
pub const HEADER_SIZE: usize = 8;

/// The standard MIC length in bytes.
pub const MIC_SIZE: usize = 4;

/// The extended MIC length in bytes.
pub const EXTENDED_MIC_SIZE: usize = 8;

/// The maximum length of a sealed frame in bytes.
pub const MAX_MESSAGE_SIZE: usize = 256;

/// The maximum payload length of a frame with a standard MIC.
pub const MAX_PAYLOAD_SIZE: usize = 244;

/// The maximum buffer length the stream cipher accepts: 255 blocks of 16
/// bytes, so that only the final IV byte ever counts up.
pub const MAX_STREAM_SIZE: usize = 4080;

/// The domain tag of the MIC context block.
pub const MIC_BLOCK_TAG: u8 = 0x49;

/// The domain tag of the stream-cipher counter block.
pub const STREAM_BLOCK_TAG: u8 = 0x01;

/// A MIC length is either the standard or the extended width.
pub open spec fn valid_mic_len(mic_len: nat) -> bool {
    mic_len == MIC_SIZE || mic_len == EXTENDED_MIC_SIZE
}

/// The 16-byte block that ties a keyed operation to its context: a domain
/// tag, the message direction, the device address, the full frame counter,
/// and one trailing context byte.
pub open spec fn context_block(
    tag: u8,
    direction: Direction,
    address: u32,
    frame_counter: u32,
    last: u8,
) -> Seq<u8> {
    seq![tag, 0x00, 0x00, 0x00, 0x00, direction_octet(direction)]
        + spec_u32_to_le_bytes(address) + spec_u32_to_le_bytes(frame_counter) + seq![0x00, last]
}

/// The byte sequence the MIC authenticates: the MIC context block, whose
/// final byte is the total length of header and payload, followed by header
/// and payload.
pub open spec fn mic_message(
    direction: Direction,
    address: u32,
    frame_counter: u32,
    header: Seq<u8>,
    payload: Seq<u8>,
) -> Seq<u8> {
    context_block(
        MIC_BLOCK_TAG,
        direction,
        address,
        frame_counter,
        (header.len() + payload.len()) as u8,
    ) + header + payload
}

/// The truncated MIC: the first `mic_len` bytes of the AES-CMAC tag over
/// [`mic_message`], keyed with the network session key.
pub open spec fn mic_bytes(
    nwkskey: Seq<u8>,
    direction: Direction,
    address: u32,
    frame_counter: u32,
    header: Seq<u8>,
    payload: Seq<u8>,
    mic_len: nat,
) -> Seq<u8> {
    cmac_tag(nwkskey, mic_message(direction, address, frame_counter, header, payload)).take(
        mic_len as int,
    )
}

/// The initial counter block of the stream cipher: the context block with the
/// stream domain tag, whose final byte is the index of the first keystream
/// block.
pub open spec fn stream_iv(direction: Direction, address: u32, frame_counter: u32) -> Seq<u8> {
    context_block(STREAM_BLOCK_TAG, direction, address, frame_counter, 0x01)
}

/// The byte-wise XOR of a buffer with a keystream of at least its length.
pub open spec fn xor_bytes(data: Seq<u8>, keystream: Seq<u8>) -> Seq<u8> {
    Seq::new(data.len(), |i: int| data[i] ^ keystream[i])
}

/// The result of XOR-ing a buffer with the AES-CTR keystream bound to the
/// given context. Encrypting and decrypting are the same operation.
pub open spec fn apply_cipherstream(
    appskey: Seq<u8>,
    direction: Direction,
    address: u32,
    frame_counter: u32,
    data: Seq<u8>,
) -> Seq<u8> {
    xor_bytes(data, ctr_keystream(appskey, stream_iv(direction, address, frame_counter), data.len()))
}

/// The full frame counter recovered from its 16 wire LSBs and the session's
/// expected next counter: the smallest counter at or above `next` whose low
/// 16 bits equal `lsbs`, saturating at the reserved value `u32::MAX`.
pub open spec fn recovered_frame_counter(lsbs: u16, next: u32) -> u32 {
    let candidate = (next & 0xFFFF_0000) | (lsbs as u32);
    if candidate >= next {
        candidate
    } else if candidate + 0x1_0000 <= u32::MAX {
        (candidate + 0x1_0000) as u32
    } else {
        u32::MAX
    }
}

/// The 8-byte frame header: the fixed message header byte, the device
/// address, the low 16 bits of the frame counter, and the fixed frame port.
pub open spec fn frame_header(address: u32, frame_counter: u32) -> Seq<u8> {
    seq![MHDR] + spec_u32_to_le_bytes(address) + spec_u16_to_le_bytes(frame_counter as u16)
        + seq![FPORT]
}

/// The bytes of a sealed frame: header, payload encrypted under the
/// application session key, and the MIC over header and ciphertext under the
/// network session key, all bound to the same context.
pub open spec fn sealed_frame(
    nwkskey: Seq<u8>,
    appskey: Seq<u8>,
    address: u32,
    frame_counter: u32,
    direction: Direction,
    plaintext: Seq<u8>,
    mic_len: nat,
) -> Seq<u8> {
    let header = frame_header(address, frame_counter);
    let ciphertext = apply_cipherstream(appskey, direction, address, frame_counter, plaintext);
    header + ciphertext
        + mic_bytes(nwkskey, direction, address, frame_counter, header, ciphertext, mic_len)
}

/// Whether a byte sequence has the shape of a frame: long enough for header
/// and MIC, no longer than the maximum message, and carrying the two fixed
/// header bytes.
pub open spec fn parseable(frame: Seq<u8>, mic_len: nat) -> bool {
    &&& frame.len() >= HEADER_SIZE + mic_len
    &&& frame.len() <= MAX_MESSAGE_SIZE
    &&& frame[0] == MHDR
    &&& frame[7] == FPORT
}

/// The header of a parseable frame.
pub open spec fn parsed_header(frame: Seq<u8>) -> Seq<u8> {
    frame.take(HEADER_SIZE as int)
}

/// The (still encrypted) payload of a parseable frame.
pub open spec fn parsed_payload(frame: Seq<u8>, mic_len: nat) -> Seq<u8> {
    frame.subrange(HEADER_SIZE as int, frame.len() - mic_len)
}

/// The MIC of a parseable frame.
pub open spec fn parsed_mic(frame: Seq<u8>, mic_len: nat) -> Seq<u8> {
    frame.skip(frame.len() - mic_len)
}

/// The device address carried by a parseable frame.
pub open spec fn parsed_address(frame: Seq<u8>) -> u32 {
    spec_u32_from_le_bytes(frame.subrange(1, 5))
}

/// The frame-counter LSBs carried by a parseable frame.
pub open spec fn parsed_lsbs(frame: Seq<u8>) -> u16 {
    spec_u16_from_le_bytes(frame.subrange(5, 7))
}

/// What opening a frame yields against the given session context: the
/// decrypted payload if and only if the frame parses, is addressed to the
/// session, recovers a non-reserved counter, and carries the MIC of its own
/// contents under that recovered counter; nothing otherwise.
pub open spec fn opened_plaintext(
    nwkskey: Seq<u8>,
    appskey: Seq<u8>,
    address: u32,
    next: u32,
    direction: Direction,
    frame: Seq<u8>,
    mic_len: nat,
) -> Option<Seq<u8>> {
    if !parseable(frame, mic_len) {
        None
    } else if parsed_address(frame) != address {
        None
    } else {
        let recovered = recovered_frame_counter(parsed_lsbs(frame), next);
        if recovered == u32::MAX {
            None
        } else if parsed_mic(frame, mic_len) != mic_bytes(
            nwkskey,
            direction,
            address,
            recovered,
            parsed_header(frame),
            parsed_payload(frame, mic_len),
            mic_len,
        ) {
            None
        } else {
            Some(
                apply_cipherstream(
                    appskey,
                    direction,
                    address,
                    recovered,
                    parsed_payload(frame, mic_len),
                ),
            )
        }
    }
}

} // verus!
