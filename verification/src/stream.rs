//! The stream engine: an AES-CTR keystream bound to the message context,
//! XOR-ed into a buffer in place.

use vstd::prelude::*;

use crate::aes128::aes128_ctr_xor;
use crate::mic::build_context_block;
use crate::model::apply_cipherstream;
use crate::model::MAX_STREAM_SIZE;
use crate::model::STREAM_BLOCK_TAG;
use crate::session::Direction;

verus! {

/// XORs the context-bound keystream into `data` in place. Applying the same
/// transform twice restores the buffer.
pub(crate) fn apply_stream(
    appskey: &[u8; 16],
    direction: Direction,
    address: u32,
    frame_counter: u32,
    data: &mut Vec<u8>,
)
    requires
        old(data)@.len() <= MAX_STREAM_SIZE,
    ensures
        final(data)@ == apply_cipherstream(
            appskey@,
            direction,
            address,
            frame_counter,
            old(data)@,
        ),
{
    let iv = build_context_block(STREAM_BLOCK_TAG, direction, address, frame_counter, 0x01);
    aes128_ctr_xor(appskey, &iv, data);
}

/// A builder for the context-bound cipherstream: the key is set, the message
/// context is not.
pub struct CipherstreamBuilder {
    /// The key used for keystream generation.
    pub appskey: [u8; 16],
}

impl CipherstreamBuilder {
    /// Creates a cipherstream builder with the given application session key.
    pub fn new(appskey: &[u8; 16]) -> (builder: CipherstreamBuilder)
        ensures
            builder.appskey@ == appskey@,
    {
        CipherstreamBuilder { appskey: *appskey }
    }

    /// Sets the direction of the message to compute the cipherstream for.
    pub fn set_direction(&self, direction: Direction) -> (builder: CipherstreamBuilderWithDirection)
        ensures
            builder.appskey@ == self.appskey@,
            builder.direction == direction,
    {
        CipherstreamBuilderWithDirection { appskey: self.appskey, direction }
    }
}

/// A cipherstream builder whose direction is set.
pub struct CipherstreamBuilderWithDirection {
    /// The key used for keystream generation.
    pub appskey: [u8; 16],
    /// The direction of the message.
    pub direction: Direction,
}

impl CipherstreamBuilderWithDirection {
    /// Sets the address of the associated end-device.
    pub fn set_address(&self, address: u32) -> (builder: CipherstreamBuilderWithAddress)
        ensures
            builder.appskey@ == self.appskey@,
            builder.direction == self.direction,
            builder.address == address,
    {
        CipherstreamBuilderWithAddress { appskey: self.appskey, direction: self.direction, address }
    }
}

/// A cipherstream builder whose direction and address are set.
pub struct CipherstreamBuilderWithAddress {
    /// The key used for keystream generation.
    pub appskey: [u8; 16],
    /// The direction of the message.
    pub direction: Direction,
    /// The address of the associated end-device.
    pub address: u32,
}

impl CipherstreamBuilderWithAddress {
    /// Sets the frame counter of the message to compute the cipherstream for.
    pub fn set_frame_counter(&self, frame_counter: u32) -> (builder:
        CipherstreamBuilderWithFrameCounter)
        ensures
            builder.appskey@ == self.appskey@,
            builder.direction == self.direction,
            builder.address == self.address,
            builder.frame_counter == frame_counter,
    {
        CipherstreamBuilderWithFrameCounter {
            appskey: self.appskey,
            direction: self.direction,
            address: self.address,
            frame_counter,
        }
    }
}

/// A cipherstream builder whose whole message context is set.
pub struct CipherstreamBuilderWithFrameCounter {
    /// The key used for keystream generation.
    pub appskey: [u8; 16],
    /// The direction of the message.
    pub direction: Direction,
    /// The address of the associated end-device.
    pub address: u32,
    /// The frame counter of the message.
    pub frame_counter: u32,
}

impl CipherstreamBuilderWithFrameCounter {
    /// Processes the given buffer by XOR-ing the keystream into it in place.
    ///
    /// The buffer may span at most 255 cipher blocks, so that only the final
    /// byte of the counter block ever counts up; the other fifteen bytes pin
    /// the message context.
    pub fn apply(self, data: &mut Vec<u8>)
        requires
            old(data)@.len() <= MAX_STREAM_SIZE,
        ensures
            final(data)@ == apply_cipherstream(
                self.appskey@,
                self.direction,
                self.address,
                self.frame_counter,
                old(data)@,
            ),
    {
        apply_stream(&self.appskey, self.direction, self.address, self.frame_counter, data);
    }
}

} // verus!
