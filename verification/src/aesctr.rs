//! A single-struct builder for the context-bound cipherstream.

use vstd::prelude::*;

use crate::model::apply_cipherstream;
use crate::model::MAX_STREAM_SIZE;
use crate::session::Direction;
use crate::stream::apply_stream;

verus! {

/// A builder that applies the context-bound AES-CTR cipherstream to a
/// buffer.
///
/// `new` leaves the message context at its defaults (uplink, address 0,
/// counter 0); each setter replaces one part of it.
pub struct AesCtrBuilder {
    /// The key used for keystream generation.
    pub appskey: [u8; 16],
    /// The direction of the message.
    pub direction: Direction,
    /// The address of the associated end-device.
    pub address: u32,
    /// The frame counter of the message.
    pub frame_counter: u32,
}

impl AesCtrBuilder {
    /// Creates a cipherstream builder with the given application session key
    /// and a default message context.
    pub fn new(appskey: &[u8; 16]) -> (builder: AesCtrBuilder)
        ensures
            builder.appskey@ == appskey@,
            builder.direction == Direction::Uplink,
            builder.address == 0u32,
            builder.frame_counter == 0u32,
    {
        AesCtrBuilder { appskey: *appskey, direction: Direction::Uplink, address: 0, frame_counter: 0 }
    }

    /// Sets the direction of the message to compute the cipherstream for.
    pub fn set_direction(self, direction: Direction) -> (builder: AesCtrBuilder)
        ensures
            builder == (AesCtrBuilder { direction, ..self }),
    {
        AesCtrBuilder { direction, ..self }
    }

    /// Sets the address of the associated end-device.
    pub fn set_address(self, address: u32) -> (builder: AesCtrBuilder)
        ensures
            builder == (AesCtrBuilder { address, ..self }),
    {
        AesCtrBuilder { address, ..self }
    }

    /// Sets the frame counter of the message to compute the cipherstream for.
    pub fn set_frame_counter(self, frame_counter: u32) -> (builder: AesCtrBuilder)
        ensures
            builder == (AesCtrBuilder { frame_counter, ..self }),
    {
        AesCtrBuilder { frame_counter, ..self }
    }

    /// Processes the given buffer by XOR-ing the keystream into it in place.
    ///
    /// The buffer may span at most 255 cipher blocks, so that only the final
    /// byte of the counter block ever counts up; the other fifteen bytes pin
    /// the message context.
    pub fn apply(self, data: &mut Vec<u8>)
        requires
            old(data)@.len() <= MAX_STREAM_SIZE,
        ensures
            final(data)@ == apply_cipherstream(
                self.appskey@,
                self.direction,
                self.address,
                self.frame_counter,
                old(data)@,
            ),
    {
        apply_stream(&self.appskey, self.direction, self.address, self.frame_counter, data);
    }
}

} // verus!
