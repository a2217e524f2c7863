//! The open pipeline: frame bytes in, validated and decrypted plaintext out,
//! session counter advanced.
//!
//! Every validation failure collapses into the same "no plaintext" outcome,
//! and a failed call leaves the session untouched. The MIC is checked before
//! anything is decrypted.

use vstd::prelude::*;

use crate::mic::verify_mic;
use crate::model::opened_plaintext;
use crate::model::parseable;
use crate::model::parsed_header;
use crate::model::parsed_lsbs;
use crate::model::parsed_mic;
use crate::model::parsed_payload;
use crate::model::recovered_frame_counter;
use crate::model::EXTENDED_MIC_SIZE;
use crate::model::MIC_SIZE;
use crate::raw::RawFrame;
use crate::session::Direction;
use crate::session::SessionState;
use crate::stream::apply_stream;
use vstd::bytes::spec_u16_from_le_bytes;

verus! {

/// Recovers the full 32-bit frame counter from its 16 wire LSBs: the
/// smallest counter at or above the session's expected next counter whose
/// low bits match, saturating at the reserved value.
///
/// If the result is not the counter the frame was really sealed with, MIC
/// validation fails afterwards; in particular a replayed frame maps to a
/// counter above its own, so it can never validate again.
pub fn recover_frame_counter(frame_counter_lsbs: u16, next_frame_counter: u32) -> (recovered: u32)
    ensures
        recovered == recovered_frame_counter(frame_counter_lsbs, next_frame_counter),
{
    let candidate = (next_frame_counter & 0xFFFF_0000) | (frame_counter_lsbs as u32);
    if candidate >= next_frame_counter {
        candidate
    } else if candidate <= u32::MAX - 0x1_0000 {
        candidate + 0x1_0000
    } else {
        u32::MAX
    }
}

/// How a well-formed raw frame relates to the model's view of its serialised
/// bytes: it parses, and its parts are the parsed parts.
proof fn lemma_wf_frame_parses(raw: RawFrame)
    requires
        raw.wf(),
    ensures
        parseable(raw.spec_bytes(), raw.mic@.len()),
        parsed_header(raw.spec_bytes()) == raw.header@,
        parsed_payload(raw.spec_bytes(), raw.mic@.len()) == raw.payload@,
        parsed_mic(raw.spec_bytes(), raw.mic@.len()) == raw.mic@,
        raw.spec_bytes().subrange(1, 5) == raw.header@.subrange(1, 5),
        raw.spec_bytes().subrange(5, 7) == raw.header@.subrange(5, 7),
{
    assert(parsed_header(raw.spec_bytes()) =~= raw.header@);
    assert(parsed_payload(raw.spec_bytes(), raw.mic@.len()) =~= raw.payload@);
    assert(parsed_mic(raw.spec_bytes(), raw.mic@.len()) =~= raw.mic@);
    assert(raw.spec_bytes().subrange(1, 5) =~= raw.header@.subrange(1, 5));
    assert(raw.spec_bytes().subrange(5, 7) =~= raw.header@.subrange(5, 7));
}

/// Validates a parsed frame against the session and decrypts its payload.
pub(crate) fn open_raw<S: SessionState>(session: &mut S, direction: Direction, raw: RawFrame) -> (result:
    Option<Vec<u8>>)
    requires
        raw.wf(),
    ensures
        final(session).spec_nwkskey() == old(session).spec_nwkskey(),
        final(session).spec_appskey() == old(session).spec_appskey(),
        final(session).spec_device_address() == old(session).spec_device_address(),
        forall|d: Direction|
            d != direction ==> final(session).spec_frame_counter(d) == old(
                session,
            ).spec_frame_counter(d),
        result is Some <==> opened_plaintext(
            old(session).spec_nwkskey(),
            old(session).spec_appskey(),
            old(session).spec_device_address(),
            old(session).spec_frame_counter(direction),
            direction,
            raw.spec_bytes(),
            raw.mic@.len(),
        ) is Some,
        result is Some ==> result->Some_0@ == opened_plaintext(
            old(session).spec_nwkskey(),
            old(session).spec_appskey(),
            old(session).spec_device_address(),
            old(session).spec_frame_counter(direction),
            direction,
            raw.spec_bytes(),
            raw.mic@.len(),
        )->Some_0,
        result is Some ==> final(session).spec_frame_counter(direction)
            == recovered_frame_counter(
            spec_u16_from_le_bytes(raw.header@.subrange(5, 7)),
            old(session).spec_frame_counter(direction),
        ) + 1,
        result is None ==> final(session).spec_frame_counter(direction) == old(
            session,
        ).spec_frame_counter(direction),
{
    proof {
        lemma_wf_frame_parses(raw);
    }
    let address = session.device_address();
    if raw.address() != address {
        return None;
    }
    let next_frame_counter = session.frame_counter(direction);
    let recovered = recover_frame_counter(raw.frame_counter_lsbs(), next_frame_counter);
    if recovered == u32::MAX {
        return None;
    }
    let nwkskey = session.nwkskey();
    let mic_valid = verify_mic(
        &nwkskey,
        direction,
        address,
        recovered,
        &raw.header,
        &raw.payload,
        &raw.mic,
    );
    if !mic_valid {
        return None;
    }
    let appskey = session.appskey();
    let mut plaintext = raw.into_payload();
    apply_stream(&appskey, direction, address, recovered, &mut plaintext);
    session.set_frame_counter(recovered + 1, direction);
    Some(plaintext)
}

/// Opens a standard frame against the session: returns the plaintext exactly
/// when the frame parses, is addressed to the session, recovers a
/// non-reserved counter, and carries a valid MIC; advances the session's
/// counter for `direction` past the recovered counter on success, and leaves
/// the session untouched otherwise.
pub fn open<S: SessionState>(session: &mut S, direction: Direction, frame: &Vec<u8>) -> (result:
    Option<Vec<u8>>)
    ensures
        final(session).spec_nwkskey() == old(session).spec_nwkskey(),
        final(session).spec_appskey() == old(session).spec_appskey(),
        final(session).spec_device_address() == old(session).spec_device_address(),
        forall|d: Direction|
            d != direction ==> final(session).spec_frame_counter(d) == old(
                session,
            ).spec_frame_counter(d),
        result is Some <==> opened_plaintext(
            old(session).spec_nwkskey(),
            old(session).spec_appskey(),
            old(session).spec_device_address(),
            old(session).spec_frame_counter(direction),
            direction,
            frame@,
            MIC_SIZE as nat,
        ) is Some,
        result is Some ==> result->Some_0@ == opened_plaintext(
            old(session).spec_nwkskey(),
            old(session).spec_appskey(),
            old(session).spec_device_address(),
            old(session).spec_frame_counter(direction),
            direction,
            frame@,
            MIC_SIZE as nat,
        )->Some_0,
        result is Some ==> final(session).spec_frame_counter(direction)
            == recovered_frame_counter(
            parsed_lsbs(frame@),
            old(session).spec_frame_counter(direction),
        ) + 1,
        result is None ==> final(session).spec_frame_counter(direction) == old(
            session,
        ).spec_frame_counter(direction),
{
    match RawFrame::parse(frame, MIC_SIZE) {
        None => None,
        Some(raw) => {
            proof {
                assert(raw.header@.subrange(5, 7) =~= frame@.subrange(5, 7));
            }
            open_raw(session, direction, raw)
        },
    }
}

/// The entry point of the extended open pipeline.
pub struct PlaintextBuilder {}

impl PlaintextBuilder {
    /// Creates a plaintext builder.
    pub fn new() -> (builder: PlaintextBuilder) {
        PlaintextBuilder {  }
    }

    /// Sets the direction of the frame to open.
    pub fn set_direction(self, direction: Direction) -> (builder: PlaintextBuilderWithDirection)
        ensures
            builder.direction == direction,
    {
        PlaintextBuilderWithDirection { direction }
    }
}

/// A plaintext builder whose direction is set.
pub struct PlaintextBuilderWithDirection {
    /// The direction of the frame to open.
    pub direction: Direction,
}

impl PlaintextBuilderWithDirection {
    /// Parses the frame bytes as an extended frame.
    pub fn set_frame(self, frame: &Vec<u8>) -> (builder: Option<PlaintextBuilderWithFrame>)
        ensures
            builder is Some <==> parseable(frame@, EXTENDED_MIC_SIZE as nat),
            builder is Some ==> {
                &&& builder->Some_0.direction == self.direction
                &&& builder->Some_0.raw.wf()
                &&& builder->Some_0.raw.spec_bytes() == frame@
                &&& builder->Some_0.raw.mic@.len() == EXTENDED_MIC_SIZE
            },
    {
        match RawFrame::parse(frame, EXTENDED_MIC_SIZE) {
            None => None,
            Some(raw) => Some(PlaintextBuilderWithFrame { direction: self.direction, raw }),
        }
    }
}

/// A plaintext builder holding a parsed frame.
pub struct PlaintextBuilderWithFrame {
    /// The direction of the frame to open.
    pub direction: Direction,
    /// The parsed raw frame.
    pub raw: RawFrame,
}

impl PlaintextBuilderWithFrame {
    /// Validates the frame against the session and decrypts the plaintext:
    /// the extended counterpart of [`open`].
    pub fn unpack<S: SessionState>(self, session: &mut S) -> (result: Option<Plaintext>)
        requires
            self.raw.wf(),
        ensures
            final(session).spec_nwkskey() == old(session).spec_nwkskey(),
            final(session).spec_appskey() == old(session).spec_appskey(),
            final(session).spec_device_address() == old(session).spec_device_address(),
            forall|d: Direction|
                d != self.direction ==> final(session).spec_frame_counter(d) == old(
                    session,
                ).spec_frame_counter(d),
            result is Some <==> opened_plaintext(
                old(session).spec_nwkskey(),
                old(session).spec_appskey(),
                old(session).spec_device_address(),
                old(session).spec_frame_counter(self.direction),
                self.direction,
                self.raw.spec_bytes(),
                self.raw.mic@.len(),
            ) is Some,
            result is Some ==> result->Some_0.plaintext@ == opened_plaintext(
                old(session).spec_nwkskey(),
                old(session).spec_appskey(),
                old(session).spec_device_address(),
                old(session).spec_frame_counter(self.direction),
                self.direction,
                self.raw.spec_bytes(),
                self.raw.mic@.len(),
            )->Some_0,
            result is Some ==> final(session).spec_frame_counter(self.direction)
                == recovered_frame_counter(
                spec_u16_from_le_bytes(self.raw.header@.subrange(5, 7)),
                old(session).spec_frame_counter(self.direction),
            ) + 1,
            result is None ==> final(session).spec_frame_counter(self.direction) == old(
                session,
            ).spec_frame_counter(self.direction),
    {
        match open_raw(session, self.direction, self.raw) {
            None => None,
            Some(plaintext) => Some(Plaintext { plaintext }),
        }
    }
}

/// The decrypted payload of an opened frame.
pub struct Plaintext {
    /// The plaintext bytes.
    pub plaintext: Vec<u8>,
}

impl Plaintext {
    /// The plaintext bytes.
    pub fn bytes(&self) -> (bytes: &Vec<u8>)
        ensures
            bytes@ == self.plaintext@,
    {
        &self.plaintext
    }
}

} // verus!
