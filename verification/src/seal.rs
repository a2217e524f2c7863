//! The seal pipeline: plaintext in, authenticated encrypted frame out,
//! session counter advanced.

use vstd::prelude::*;

use crate::mic::compute_mic;
use crate::model::frame_header;
use crate::model::sealed_frame;
use crate::model::EXTENDED_MIC_SIZE;
use crate::model::HEADER_SIZE;
use crate::model::MAX_MESSAGE_SIZE;
use crate::model::MAX_PAYLOAD_SIZE;
use crate::model::MIC_SIZE;
use crate::raw::RawFrame;
use crate::session::Direction;
use crate::session::SessionState;
use crate::stream::apply_stream;
use vstd::bytes::lemma_auto_spec_u16_to_from_le_bytes;
use vstd::bytes::lemma_auto_spec_u32_to_from_le_bytes;

verus! {

/// Why a seal request was refused. Both causes are caller errors: a frame
/// validation failure never arises while sealing.
#[derive(Clone, Copy, PartialEq, Eq, Structural, Debug)]
pub enum SealError {
    /// The plaintext does not fit into a single frame.
    PayloadTooLarge,
    /// The frame counter for the requested direction carries the reserved
    /// value, so no further frame may be sealed in that direction.
    SessionExhausted,
}

/// Seals a plaintext into a frame with a MIC of the given width.
///
/// On success the frame is bound to the session's address and to the current
/// frame counter of `direction`, and that counter alone advances by exactly
/// one. A failed call leaves the session untouched.
pub fn seal_frame<S: SessionState>(
    session: &mut S,
    direction: Direction,
    plaintext: &Vec<u8>,
    mic_len: usize,
) -> (result: Result<Vec<u8>, SealError>)
    requires
        mic_len == MIC_SIZE || mic_len == EXTENDED_MIC_SIZE,
    ensures
        final(session).spec_nwkskey() == old(session).spec_nwkskey(),
        final(session).spec_appskey() == old(session).spec_appskey(),
        final(session).spec_device_address() == old(session).spec_device_address(),
        forall|d: Direction|
            d != direction ==> final(session).spec_frame_counter(d) == old(
                session,
            ).spec_frame_counter(d),
        result is Ok <==> (HEADER_SIZE + plaintext@.len() + mic_len <= MAX_MESSAGE_SIZE && old(
            session,
        ).spec_frame_counter(direction) != u32::MAX),
        HEADER_SIZE + plaintext@.len() + mic_len > MAX_MESSAGE_SIZE ==> result == Err::<
            Vec<u8>,
            SealError,
        >(SealError::PayloadTooLarge),
        (HEADER_SIZE + plaintext@.len() + mic_len <= MAX_MESSAGE_SIZE && old(
            session,
        ).spec_frame_counter(direction) == u32::MAX) ==> result == Err::<Vec<u8>, SealError>(
            SealError::SessionExhausted,
        ),
        result is Ok ==> result->Ok_0@ == sealed_frame(
            old(session).spec_nwkskey(),
            old(session).spec_appskey(),
            old(session).spec_device_address(),
            old(session).spec_frame_counter(direction),
            direction,
            plaintext@,
            mic_len as nat,
        ),
        result is Ok ==> final(session).spec_frame_counter(direction) == old(
            session,
        ).spec_frame_counter(direction) + 1,
        result is Err ==> final(session).spec_frame_counter(direction) == old(
            session,
        ).spec_frame_counter(direction),
{
    if plaintext.len() > MAX_MESSAGE_SIZE - HEADER_SIZE - mic_len {
        return Err(SealError::PayloadTooLarge);
    }
    let address = session.device_address();
    let frame_counter = session.frame_counter(direction);
    if frame_counter == u32::MAX {
        return Err(SealError::SessionExhausted);
    }
    let nwkskey = session.nwkskey();
    let appskey = session.appskey();

    let mut raw = RawFrame::new(plaintext, mic_len);
    raw.set_address(address);
    raw.set_frame_counter_lsbs(frame_counter as u16);
    proof {
        lemma_auto_spec_u32_to_from_le_bytes();
        lemma_auto_spec_u16_to_from_le_bytes();
        assert(raw.header@ =~= frame_header(address, frame_counter));
    }

    apply_stream(&appskey, direction, address, frame_counter, &mut raw.payload);

    let mic = compute_mic(
        &nwkskey,
        direction,
        address,
        frame_counter,
        &raw.header,
        &raw.payload,
        mic_len,
    );
    raw.set_mic(mic);

    session.set_frame_counter(frame_counter + 1, direction);
    Ok(raw.into_frame())
}

/// Seals a plaintext into a standard frame: `seal_frame` with the standard
/// MIC width.
pub fn seal<S: SessionState>(
    session: &mut S,
    direction: Direction,
    plaintext: &Vec<u8>,
) -> (result: Result<Vec<u8>, SealError>)
    ensures
        final(session).spec_nwkskey() == old(session).spec_nwkskey(),
        final(session).spec_appskey() == old(session).spec_appskey(),
        final(session).spec_device_address() == old(session).spec_device_address(),
        forall|d: Direction|
            d != direction ==> final(session).spec_frame_counter(d) == old(
                session,
            ).spec_frame_counter(d),
        result is Ok <==> (plaintext@.len() <= MAX_PAYLOAD_SIZE && old(
            session,
        ).spec_frame_counter(direction) != u32::MAX),
        plaintext@.len() > MAX_PAYLOAD_SIZE ==> result == Err::<Vec<u8>, SealError>(
            SealError::PayloadTooLarge,
        ),
        (plaintext@.len() <= MAX_PAYLOAD_SIZE && old(session).spec_frame_counter(direction)
            == u32::MAX) ==> result == Err::<Vec<u8>, SealError>(SealError::SessionExhausted),
        result is Ok ==> result->Ok_0@ == sealed_frame(
            old(session).spec_nwkskey(),
            old(session).spec_appskey(),
            old(session).spec_device_address(),
            old(session).spec_frame_counter(direction),
            direction,
            plaintext@,
            MIC_SIZE as nat,
        ),
        result is Ok ==> final(session).spec_frame_counter(direction) == old(
            session,
        ).spec_frame_counter(direction) + 1,
        result is Err ==> final(session).spec_frame_counter(direction) == old(
            session,
        ).spec_frame_counter(direction),
{
    seal_frame(session, direction, plaintext, MIC_SIZE)
}

/// The entry point of the extended seal pipeline.
pub struct FrameBuilder {}

impl FrameBuilder {
    /// Creates a frame builder.
    pub fn new() -> (builder: FrameBuilder) {
        FrameBuilder {  }
    }

    /// Sets the direction of the frame to seal.
    pub fn set_direction(self, direction: Direction) -> (builder: FrameBuilderWithDirection)
        ensures
            builder.direction == direction,
    {
        FrameBuilderWithDirection { direction }
    }
}

/// A frame builder whose direction is set.
pub struct FrameBuilderWithDirection {
    /// The direction of the frame to seal.
    pub direction: Direction,
}

impl FrameBuilderWithDirection {
    /// Seals a payload into an extended frame against the given session:
    /// `seal_frame` with the extended MIC width.
    pub fn set_payload<S: SessionState>(self, session: &mut S, payload: &Vec<u8>) -> (result:
        Result<Frame, SealError>)
        ensures
            final(session).spec_nwkskey() == old(session).spec_nwkskey(),
            final(session).spec_appskey() == old(session).spec_appskey(),
            final(session).spec_device_address() == old(session).spec_device_address(),
            forall|d: Direction|
                d != self.direction ==> final(session).spec_frame_counter(d) == old(
                    session,
                ).spec_frame_counter(d),
            result is Ok <==> (HEADER_SIZE + payload@.len() + EXTENDED_MIC_SIZE <= MAX_MESSAGE_SIZE
                && old(session).spec_frame_counter(self.direction) != u32::MAX),
            result is Ok ==> result->Ok_0.frame@ == sealed_frame(
                old(session).spec_nwkskey(),
                old(session).spec_appskey(),
                old(session).spec_device_address(),
                old(session).spec_frame_counter(self.direction),
                self.direction,
                payload@,
                EXTENDED_MIC_SIZE as nat,
            ),
            result is Ok ==> final(session).spec_frame_counter(self.direction) == old(
                session,
            ).spec_frame_counter(self.direction) + 1,
            result is Err ==> final(session).spec_frame_counter(self.direction) == old(
                session,
            ).spec_frame_counter(self.direction),
    {
        match seal_frame(session, self.direction, payload, EXTENDED_MIC_SIZE) {
            Ok(frame) => Ok(Frame { frame }),
            Err(error) => Err(error),
        }
    }
}

/// The encrypted, final frame of the extended seal pipeline.
pub struct Frame {
    /// The frame bytes.
    pub frame: Vec<u8>,
}

impl Frame {
    /// The frame bytes.
    pub fn bytes(&self) -> (bytes: &Vec<u8>)
        ensures
            bytes@ == self.frame@,
    {
        &self.frame
    }
}

} // verus!
