//! The raw frame codec: the transient in-memory form of a frame and its
//! (de-)serialisation.
//!
//! A raw frame is unvalidated: parsing only checks the shape of the bytes,
//! never the session context. Its data must be treated as untrusted until
//! the open pipeline has verified the MIC.

use vstd::prelude::*;

use crate::buf::append_bytes;
use crate::buf::copy_range;
use crate::buf::zero_bytes;
use crate::model::parseable;
use crate::model::parsed_header;
use crate::model::parsed_mic;
use crate::model::parsed_payload;
use crate::model::valid_mic_len;
use crate::model::EXTENDED_MIC_SIZE;
use crate::model::FPORT;
use crate::model::HEADER_SIZE;
use crate::model::MAX_MESSAGE_SIZE;
use crate::model::MHDR;
use crate::model::MIC_SIZE;
use vstd::bytes::spec_u16_from_le_bytes;
use vstd::bytes::spec_u16_to_le_bytes;
use vstd::bytes::spec_u32_from_le_bytes;
use vstd::bytes::spec_u32_to_le_bytes;
use vstd::bytes::u16_from_le_bytes;
use vstd::bytes::u16_to_le_bytes;
use vstd::bytes::u32_from_le_bytes;
use vstd::bytes::u32_to_le_bytes;
use vstd::slice::slice_subrange;
use vstd::slice::slice_to_vec;

verus! {

/// A raw frame: the fixed 8-byte header, the payload, and the MIC.
pub struct RawFrame {
    /// The frame header.
    pub header: Vec<u8>,
    /// The payload bytes.
    pub payload: Vec<u8>,
    /// The MIC bytes.
    pub mic: Vec<u8>,
}

impl RawFrame {
    /// A well-formed raw frame: full-length header carrying the two fixed
    /// bytes, a MIC of one of the two supported widths, and a total size
    /// within the maximum message size.
    pub open spec fn wf(self) -> bool {
        &&& self.header@.len() == HEADER_SIZE
        &&& self.header@[0] == MHDR
        &&& self.header@[7] == FPORT
        &&& valid_mic_len(self.mic@.len())
        &&& self.header@.len() + self.payload@.len() + self.mic@.len() <= MAX_MESSAGE_SIZE
    }

    /// The serialised bytes of the frame.
    pub open spec fn spec_bytes(self) -> Seq<u8> {
        self.header@ + self.payload@ + self.mic@
    }

    /// Creates a fresh frame over the given payload, with only the fixed
    /// header constants set and an all-zero MIC of the given width.
    pub fn new(payload: &Vec<u8>, mic_len: usize) -> (frame: RawFrame)
        requires
            mic_len == MIC_SIZE || mic_len == EXTENDED_MIC_SIZE,
            HEADER_SIZE + payload@.len() + mic_len <= MAX_MESSAGE_SIZE,
        ensures
            frame.wf(),
            frame.header@ == seq![MHDR, 0u8, 0u8, 0u8, 0u8, 0u8, 0u8, FPORT],
            frame.payload@ == payload@,
            frame.mic@ == Seq::new(mic_len as nat, |i: int| 0u8),
    {
        let mut header: Vec<u8> = Vec::new();
        header.push(MHDR);
        header.push(0x00);
        header.push(0x00);
        header.push(0x00);
        header.push(0x00);
        header.push(0x00);
        header.push(0x00);
        header.push(FPORT);
        proof {
            assert(header@ =~= seq![MHDR, 0u8, 0u8, 0u8, 0u8, 0u8, 0u8, FPORT]);
        }
        RawFrame { header, payload: slice_to_vec(payload.as_slice()), mic: zero_bytes(mic_len) }
    }

    /// Parses a byte sequence into a raw frame with a MIC of the given
    /// width. Succeeds exactly on parseable input: long enough for header
    /// and MIC, within the maximum message size, and carrying the two fixed
    /// header bytes.
    pub fn parse(frame: &Vec<u8>, mic_len: usize) -> (parsed: Option<RawFrame>)
        requires
            mic_len == MIC_SIZE || mic_len == EXTENDED_MIC_SIZE,
        ensures
            parsed is Some <==> parseable(frame@, mic_len as nat),
            parsed is Some ==> {
                &&& parsed->0.wf()
                &&& parsed->0.header@ == parsed_header(frame@)
                &&& parsed->0.payload@ == parsed_payload(frame@, mic_len as nat)
                &&& parsed->0.mic@ == parsed_mic(frame@, mic_len as nat)
                &&& parsed->0.spec_bytes() == frame@
            },
    {
        if frame.len() < HEADER_SIZE + mic_len || frame.len() > MAX_MESSAGE_SIZE {
            return None;
        }
        if frame[0] != MHDR || frame[7] != FPORT {
            return None;
        }
        let header = copy_range(frame, 0, HEADER_SIZE);
        let payload = copy_range(frame, HEADER_SIZE, frame.len() - mic_len);
        let mic = copy_range(frame, frame.len() - mic_len, frame.len());
        let parsed = RawFrame { header, payload, mic };
        proof {
            assert(parsed.header@ =~= parsed_header(frame@));
            assert(parsed.spec_bytes() =~= frame@);
        }
        Some(parsed)
    }

    /// Serialises the frame: header, payload, and MIC in order.
    pub fn into_frame(self) -> (bytes: Vec<u8>)
        ensures
            bytes@ == self.spec_bytes(),
    {
        let RawFrame { header, payload, mic } = self;
        let mut bytes = header;
        append_bytes(&mut bytes, &payload);
        append_bytes(&mut bytes, &mic);
        bytes
    }

    /// The header of the frame.
    pub fn header(&self) -> (header: &Vec<u8>)
        ensures
            header@ == self.header@,
    {
        &self.header
    }

    /// The address of the end-device associated with the frame.
    pub fn address(&self) -> (address: u32)
        requires
            self.wf(),
        ensures
            address == spec_u32_from_le_bytes(self.header@.subrange(1, 5)),
    {
        u32_from_le_bytes(slice_subrange(self.header.as_slice(), 1, 5))
    }

    /// Writes the address of the end-device into the header.
    pub fn set_address(&mut self, address: u32)
        requires
            old(self).wf(),
        ensures
            final(self).wf(),
            final(self).header@ == old(self).header@.subrange(0, 1) + spec_u32_to_le_bytes(address)
                + old(self).header@.subrange(5, 8),
            final(self).payload@ == old(self).payload@,
            final(self).mic@ == old(self).mic@,
    {
        let address_bytes = u32_to_le_bytes(address);
        self.header[1] = address_bytes[0];
        self.header[2] = address_bytes[1];
        self.header[3] = address_bytes[2];
        self.header[4] = address_bytes[3];
        proof {
            assert(self.header@ =~= old(self).header@.subrange(0, 1) + spec_u32_to_le_bytes(
                address,
            ) + old(self).header@.subrange(5, 8));
        }
    }

    /// The least significant bytes of the frame counter.
    pub fn frame_counter_lsbs(&self) -> (lsbs: u16)
        requires
            self.wf(),
        ensures
            lsbs == spec_u16_from_le_bytes(self.header@.subrange(5, 7)),
    {
        u16_from_le_bytes(slice_subrange(self.header.as_slice(), 5, 7))
    }

    /// Writes the least significant bytes of the frame counter into the
    /// header.
    pub fn set_frame_counter_lsbs(&mut self, frame_counter_lsbs: u16)
        requires
            old(self).wf(),
        ensures
            final(self).wf(),
            final(self).header@ == old(self).header@.subrange(0, 5) + spec_u16_to_le_bytes(
                frame_counter_lsbs,
            ) + old(self).header@.subrange(7, 8),
            final(self).payload@ == old(self).payload@,
            final(self).mic@ == old(self).mic@,
    {
        let lsbs_bytes = u16_to_le_bytes(frame_counter_lsbs);
        self.header[5] = lsbs_bytes[0];
        self.header[6] = lsbs_bytes[1];
        proof {
            assert(self.header@ =~= old(self).header@.subrange(0, 5) + spec_u16_to_le_bytes(
                frame_counter_lsbs,
            ) + old(self).header@.subrange(7, 8));
        }
    }

    /// The payload bytes.
    pub fn payload(&self) -> (payload: &Vec<u8>)
        ensures
            payload@ == self.payload@,
    {
        &self.payload
    }

    /// Consumes the frame and returns its payload.
    pub fn into_payload(self) -> (payload: Vec<u8>)
        ensures
            payload@ == self.payload@,
    {
        self.payload
    }

    /// The MIC bytes.
    pub fn mic(&self) -> (mic: &Vec<u8>)
        ensures
            mic@ == self.mic@,
    {
        &self.mic
    }

    /// Replaces the MIC, keeping its width.
    pub fn set_mic(&mut self, mic: Vec<u8>)
        requires
            mic@.len() == old(self).mic@.len(),
        ensures
            final(self).header@ == old(self).header@,
            final(self).payload@ == old(self).payload@,
            final(self).mic@ == mic@,
            old(self).wf() ==> final(self).wf(),
    {
        self.mic = mic;
    }
}

} // verus!
