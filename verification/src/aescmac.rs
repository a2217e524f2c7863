//! A single-struct builder for the standard-width MIC of a message.

use vstd::prelude::*;

use crate::mic::compute_mic;
use crate::mic::verify_mic;
use crate::model::mic_bytes;
use crate::model::MIC_SIZE;
use crate::session::Direction;

verus! {

/// A builder that computes or validates the standard-width MIC of a message.
///
/// `new` leaves the message context at its defaults (uplink, address 0,
/// counter 0); each setter replaces one part of it.
pub struct AesCmacBuilder {
    /// The key used for CMAC computation.
    pub nwkskey: [u8; 16],
    /// The direction of the message.
    pub direction: Direction,
    /// The address of the associated end-device.
    pub address: u32,
    /// The frame counter of the message.
    pub frame_counter: u32,
}

impl AesCmacBuilder {
    /// Creates a MIC builder with the given network session key and a default
    /// message context.
    pub fn new(nwkskey: &[u8; 16]) -> (builder: AesCmacBuilder)
        ensures
            builder.nwkskey@ == nwkskey@,
            builder.direction == Direction::Uplink,
            builder.address == 0u32,
            builder.frame_counter == 0u32,
    {
        AesCmacBuilder {
            nwkskey: *nwkskey,
            direction: Direction::Uplink,
            address: 0,
            frame_counter: 0,
        }
    }

    /// Sets the direction of the message to compute or validate the MIC for.
    pub fn set_direction(self, direction: Direction) -> (builder: AesCmacBuilder)
        ensures
            builder == (AesCmacBuilder { direction, ..self }),
    {
        AesCmacBuilder { direction, ..self }
    }

    /// Sets the address of the associated end-device.
    pub fn set_address(self, address: u32) -> (builder: AesCmacBuilder)
        ensures
            builder == (AesCmacBuilder { address, ..self }),
    {
        AesCmacBuilder { address, ..self }
    }

    /// Sets the frame counter of the message to compute or validate the MIC
    /// for.
    pub fn set_frame_counter(self, frame_counter: u32) -> (builder: AesCmacBuilder)
        ensures
            builder == (AesCmacBuilder { frame_counter, ..self }),
    {
        AesCmacBuilder { frame_counter, ..self }
    }

    /// Computes the standard-width MIC for a message.
    pub fn compute(self, header: &Vec<u8>, payload: &Vec<u8>) -> (mic: Vec<u8>)
        requires
            header@.len() + payload@.len() <= 255,
        ensures
            mic@ == mic_bytes(
                self.nwkskey@,
                self.direction,
                self.address,
                self.frame_counter,
                header@,
                payload@,
                MIC_SIZE as nat,
            ),
            mic@.len() == MIC_SIZE,
    {
        compute_mic(
            &self.nwkskey,
            self.direction,
            self.address,
            self.frame_counter,
            header,
            payload,
            MIC_SIZE,
        )
    }

    /// Validates the standard-width MIC of a message: true exactly when the
    /// message is short enough to authenticate and the expected MIC matches.
    pub fn verify(self, header: &Vec<u8>, payload: &Vec<u8>, expected_mic: &[u8; 4]) -> (valid:
        bool)
        ensures
            valid == (header@.len() + payload@.len() <= 255 && expected_mic@ == mic_bytes(
                self.nwkskey@,
                self.direction,
                self.address,
                self.frame_counter,
                header@,
                payload@,
                MIC_SIZE as nat,
            )),
    {
        let expected = vstd::slice::slice_to_vec(expected_mic.as_slice());
        verify_mic(
            &self.nwkskey,
            self.direction,
            self.address,
            self.frame_counter,
            header,
            payload,
            &expected,
        )
    }
}

} // verus!
