//! The MIC engine: a truncated AES-CMAC over a context block, the frame
//! header, and the (encrypted) payload.

use vstd::prelude::*;

use crate::aes128::aes128_cmac;
use crate::buf::append_bytes;
use crate::buf::constant_time_eq;
use crate::model::context_block;
use crate::model::mic_bytes;
use crate::model::mic_message;
use crate::model::EXTENDED_MIC_SIZE;
use crate::model::MIC_BLOCK_TAG;
use crate::session::Direction;
use vstd::bytes::u32_to_le_bytes;

verus! {

/// Builds the 16-byte block that ties a keyed operation to its message
/// context.
pub(crate) fn build_context_block(
    tag: u8,
    direction: Direction,
    address: u32,
    frame_counter: u32,
    last: u8,
) -> (block: Vec<u8>)
    ensures
        block@ == context_block(tag, direction, address, frame_counter, last),
        block@.len() == 16,
{
    let mut block: Vec<u8> = Vec::new();
    block.push(tag);
    block.push(0x00);
    block.push(0x00);
    block.push(0x00);
    block.push(0x00);
    block.push(direction.octet());
    let mut address_bytes = u32_to_le_bytes(address);
    block.append(&mut address_bytes);
    let mut counter_bytes = u32_to_le_bytes(frame_counter);
    block.append(&mut counter_bytes);
    block.push(0x00);
    block.push(last);
    proof {
        assert(block@ =~= context_block(tag, direction, address, frame_counter, last));
    }
    block
}

/// Computes the first `mic_len` bytes of the CMAC tag that authenticates
/// header and payload within their session context.
pub(crate) fn compute_mic(
    nwkskey: &[u8; 16],
    direction: Direction,
    address: u32,
    frame_counter: u32,
    header: &Vec<u8>,
    payload: &Vec<u8>,
    mic_len: usize,
) -> (mic: Vec<u8>)
    requires
        header@.len() + payload@.len() <= 255,
        mic_len <= 16,
    ensures
        mic@ == mic_bytes(
            nwkskey@,
            direction,
            address,
            frame_counter,
            header@,
            payload@,
            mic_len as nat,
        ),
        mic@.len() == mic_len,
{
    let total_length = header.len() + payload.len();
    let mut message = build_context_block(
        MIC_BLOCK_TAG,
        direction,
        address,
        frame_counter,
        total_length as u8,
    );
    append_bytes(&mut message, header);
    append_bytes(&mut message, payload);
    proof {
        assert(message@ =~= mic_message(direction, address, frame_counter, header@, payload@));
    }
    let tag = aes128_cmac(nwkskey, &message);
    proof {
        assert(tag@ =~= crate::aes128::cmac_tag(nwkskey@, message@));
    }
    let mut mic: Vec<u8> = Vec::new();
    let mut i: usize = 0;
    while i < mic_len
        invariant
            i <= mic_len <= 16,
            tag@.len() == 16,
            mic@ == tag@.take(i as int),
        decreases mic_len - i,
    {
        mic.push(tag[i]);
        proof {
            assert(tag@.take(i as int).push(tag@[i as int]) =~= tag@.take(i + 1));
        }
        i = i + 1;
    }
    mic
}

/// Verifies a MIC: recomputes it and compares in constant time. A message
/// whose header and payload together exceed 255 bytes is rejected outright,
/// without touching the cipher.
pub(crate) fn verify_mic(
    nwkskey: &[u8; 16],
    direction: Direction,
    address: u32,
    frame_counter: u32,
    header: &Vec<u8>,
    payload: &Vec<u8>,
    expected_mic: &Vec<u8>,
) -> (valid: bool)
    requires
        expected_mic@.len() <= 16,
    ensures
        valid == (header@.len() + payload@.len() <= 255 && expected_mic@ == mic_bytes(
            nwkskey@,
            direction,
            address,
            frame_counter,
            header@,
            payload@,
            expected_mic@.len(),
        )),
{
    if header.len() > 255 || payload.len() > 255 - header.len() {
        return false;
    }
    let computed = compute_mic(
        nwkskey,
        direction,
        address,
        frame_counter,
        header,
        payload,
        expected_mic.len(),
    );
    constant_time_eq(&computed, expected_mic)
}

/// A builder for the extended-width MIC of a message: the key is set, the
/// message context is not.
pub struct MicBuilder {
    /// The key used for CMAC computation.
    pub nwkskey: [u8; 16],
}

impl MicBuilder {
    /// Creates a MIC builder with the given network session key.
    pub fn new(nwkskey: &[u8; 16]) -> (builder: MicBuilder)
        ensures
            builder.nwkskey@ == nwkskey@,
    {
        MicBuilder { nwkskey: *nwkskey }
    }

    /// Sets the direction of the message to compute or validate the MIC for.
    pub fn set_direction(&self, direction: Direction) -> (builder: MicBuilderWithDirection)
        ensures
            builder.nwkskey@ == self.nwkskey@,
            builder.direction == direction,
    {
        MicBuilderWithDirection { nwkskey: self.nwkskey, direction }
    }
}

/// A MIC builder whose direction is set.
pub struct MicBuilderWithDirection {
    /// The key used for CMAC computation.
    pub nwkskey: [u8; 16],
    /// The direction of the message.
    pub direction: Direction,
}

impl MicBuilderWithDirection {
    /// Sets the address of the associated end-device.
    pub fn set_address(&self, address: u32) -> (builder: MicBuilderWithAddress)
        ensures
            builder.nwkskey@ == self.nwkskey@,
            builder.direction == self.direction,
            builder.address == address,
    {
        MicBuilderWithAddress { nwkskey: self.nwkskey, direction: self.direction, address }
    }
}

/// A MIC builder whose direction and address are set.
pub struct MicBuilderWithAddress {
    /// The key used for CMAC computation.
    pub nwkskey: [u8; 16],
    /// The direction of the message.
    pub direction: Direction,
    /// The address of the associated end-device.
    pub address: u32,
}

impl MicBuilderWithAddress {
    /// Sets the frame counter of the message to compute or validate the MIC
    /// for.
    pub fn set_frame_counter(&self, frame_counter: u32) -> (builder: MicBuilderWithFrameCounter)
        ensures
            builder.nwkskey@ == self.nwkskey@,
            builder.direction == self.direction,
            builder.address == self.address,
            builder.frame_counter == frame_counter,
    {
        MicBuilderWithFrameCounter {
            nwkskey: self.nwkskey,
            direction: self.direction,
            address: self.address,
            frame_counter,
        }
    }
}

/// A MIC builder whose whole message context is set.
pub struct MicBuilderWithFrameCounter {
    /// The key used for CMAC computation.
    pub nwkskey: [u8; 16],
    /// The direction of the message.
    pub direction: Direction,
    /// The address of the associated end-device.
    pub address: u32,
    /// The frame counter of the message.
    pub frame_counter: u32,
}

impl MicBuilderWithFrameCounter {
    /// Computes the extended-width MIC for a message.
    pub fn compute(self, header: &Vec<u8>, payload: &Vec<u8>) -> (mic: Vec<u8>)
        requires
            header@.len() + payload@.len() <= 255,
        ensures
            mic@ == mic_bytes(
                self.nwkskey@,
                self.direction,
                self.address,
                self.frame_counter,
                header@,
                payload@,
                EXTENDED_MIC_SIZE as nat,
            ),
            mic@.len() == EXTENDED_MIC_SIZE,
    {
        compute_mic(
            &self.nwkskey,
            self.direction,
            self.address,
            self.frame_counter,
            header,
            payload,
            EXTENDED_MIC_SIZE,
        )
    }

    /// Validates the extended-width MIC of a message: true exactly when the
    /// message is short enough to authenticate and the expected MIC matches.
    pub fn verify(self, header: &Vec<u8>, payload: &Vec<u8>, expected_mic: &[u8; 8]) -> (valid:
        bool)
        ensures
            valid == (header@.len() + payload@.len() <= 255 && expected_mic@ == mic_bytes(
                self.nwkskey@,
                self.direction,
                self.address,
                self.frame_counter,
                header@,
                payload@,
                EXTENDED_MIC_SIZE as nat,
            )),
    {
        let expected = vstd::slice::slice_to_vec(expected_mic.as_slice());
        verify_mic(
            &self.nwkskey,
            self.direction,
            self.address,
            self.frame_counter,
            header,
            payload,
            &expected,
        )
    }
}

} // verus!
