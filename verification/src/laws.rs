//! The crate's laws: proved statements that relate sealing, opening, the
//! stream transform, and the frame-counter recovery.
//!
//! What a MAC is for cannot be proved: that two different messages carry
//! different tags is a cryptographic assumption about AES-CMAC. The laws
//! below therefore come in two kinds. Unconditional ones (round trip,
//! address mismatch, tampered MIC, exhausted session, stream self-inverse)
//! hold outright. Conditional ones state that a frame with a mismatched
//! counter or direction can only open if two distinct CMAC inputs carry the
//! same truncated tag — that is, only if the cipher itself is broken.

use vstd::prelude::*;

use crate::aes128::cmac_tag;
use crate::aes128::ctr_keystream;
use crate::model::apply_cipherstream;
use crate::model::frame_header;
use crate::model::mic_bytes;
use crate::model::mic_message;
use crate::model::opened_plaintext;
use crate::model::parsed_address;
use crate::model::parsed_header;
use crate::model::parsed_lsbs;
use crate::model::parsed_mic;
use crate::model::parsed_payload;
use crate::model::recovered_frame_counter;
use crate::model::sealed_frame;
use crate::model::stream_iv;
use crate::model::valid_mic_len;
use crate::model::xor_bytes;
use crate::model::HEADER_SIZE;
use crate::model::MAX_MESSAGE_SIZE;
use crate::session::Direction;
use vstd::bytes::lemma_auto_spec_u16_to_from_le_bytes;
use vstd::bytes::lemma_auto_spec_u32_to_from_le_bytes;
use vstd::bytes::spec_u16_to_le_bytes;
use vstd::bytes::spec_u32_to_le_bytes;

verus! {

/// XOR-ing a buffer twice with the same keystream restores it.
pub proof fn lemma_xor_bytes_involutive(data: Seq<u8>, keystream: Seq<u8>)
    ensures
        xor_bytes(xor_bytes(data, keystream), keystream) == data,
{
    let once = xor_bytes(data, keystream);
    assert forall|i: int| 0 <= i < data.len() implies xor_bytes(once, keystream)[i] == data[i] by {
        let x = data[i];
        let k = keystream[i];
        assert((x ^ k) ^ k == x) by (bit_vector);
    }
    assert(xor_bytes(once, keystream) =~= data);
}

/// The stream transform is its own inverse: applying it twice under the same
/// context is the identity.
pub proof fn lemma_cipherstream_self_inverse(
    appskey: Seq<u8>,
    direction: Direction,
    address: u32,
    frame_counter: u32,
    data: Seq<u8>,
)
    ensures
        apply_cipherstream(
            appskey,
            direction,
            address,
            frame_counter,
            apply_cipherstream(appskey, direction, address, frame_counter, data),
        ) == data,
{
    lemma_xor_bytes_involutive(
        data,
        ctr_keystream(appskey, stream_iv(direction, address, frame_counter), data.len()),
    );
}

/// The recovered frame counter never falls below the expected next counter,
/// and unless it saturated at the reserved value it lies within one 16-bit
/// window above it and carries the wire LSBs in its low bits.
pub proof fn lemma_recover_window(lsbs: u16, next: u32)
    ensures
        recovered_frame_counter(lsbs, next) >= next,
        recovered_frame_counter(lsbs, next) != u32::MAX ==> {
            &&& next <= recovered_frame_counter(lsbs, next) < next + 0x1_0000
            &&& recovered_frame_counter(lsbs, next) % 0x1_0000 == lsbs as u32
        },
{
    let candidate = (next & 0xFFFF_0000) | (lsbs as u32);
    assert(next & 0xFFFF_0000 <= next) by (bit_vector);
    assert((next & 0xFFFF_0000) <= ((next & 0xFFFF_0000) | (lsbs as u32))) by (bit_vector);
    assert(((next & 0xFFFF_0000) | (lsbs as u32)) <= (next & 0xFFFF_0000) + 0xFFFF) by (bit_vector);
    assert(next <= (next & 0xFFFF_0000) + 0xFFFF + 1) by (bit_vector);
    assert(((next & 0xFFFF_0000) | (lsbs as u32)) % 0x1_0000 == lsbs as u32) by (bit_vector);
    if candidate < next && candidate <= u32::MAX - 0x1_0000 {
        assert((candidate + 0x1_0000) as u32 % 0x1_0000 == candidate % 0x1_0000) by (bit_vector)
            requires
                candidate <= u32::MAX - 0x1_0000,
        ;
    }
}

/// Within one 16-bit window above the expected next counter, recovery from
/// the counter's own LSBs is exact.
pub proof fn lemma_recover_exact(next: u32, counter: u32)
    requires
        next <= counter,
        counter - next < 0x1_0000,
    ensures
        recovered_frame_counter(counter as u16, next) == counter,
{
    let lsbs: u16 = counter as u16;
    let candidate: u32 = (next & 0xFFFF_0000) | (lsbs as u32);
    assert((if candidate >= next {
        candidate == counter
    } else {
        candidate <= u32::MAX - 0x1_0000 && candidate + 0x1_0000 == counter
    })) by (bit_vector)
        requires
            next <= counter,
            counter - next < 0x1_0000,
            lsbs == counter as u16,
            candidate == (next & 0xFFFF_0000) | (lsbs as u32),
    ;
}

/// An exhausted session recovers only the reserved counter, whatever the
/// wire carries.
pub proof fn lemma_recover_exhausted(lsbs: u16)
    ensures
        recovered_frame_counter(lsbs, u32::MAX) == u32::MAX,
{
    let candidate = (0xFFFF_FFFFu32 & 0xFFFF_0000) | (lsbs as u32);
    assert(candidate >= 0xFFFF_FFFFu32 ==> candidate == 0xFFFF_FFFFu32) by (bit_vector);
    assert(candidate > 0xFFFF_FFFFu32 - 0x1_0000) by (bit_vector)
        requires
            candidate == (0xFFFF_FFFFu32 & 0xFFFF_0000) | (lsbs as u32),
    ;
}

/// How an assembled frame relates to the model's view of its bytes: a frame
/// built from a header, a payload, and a MIC of a supported width parses
/// back into exactly those parts.
proof fn lemma_assembled_frame_parts(
    address: u32,
    frame_counter: u32,
    payload: Seq<u8>,
    mic: Seq<u8>,
)
    requires
        HEADER_SIZE + payload.len() + mic.len() <= MAX_MESSAGE_SIZE,
        valid_mic_len(mic.len()),
    ensures
        ({
            let frame = frame_header(address, frame_counter) + payload + mic;
            &&& crate::model::parseable(frame, mic.len())
            &&& parsed_header(frame) == frame_header(address, frame_counter)
            &&& parsed_payload(frame, mic.len()) == payload
            &&& parsed_mic(frame, mic.len()) == mic
            &&& parsed_address(frame) == address
            &&& parsed_lsbs(frame) == frame_counter as u16
        }),
{
    lemma_auto_spec_u32_to_from_le_bytes();
    lemma_auto_spec_u16_to_from_le_bytes();
    let header = frame_header(address, frame_counter);
    let frame = header + payload + mic;
    assert(header.len() == 8);
    assert(header[0] == crate::model::MHDR);
    assert(header[7] == crate::model::FPORT);
    assert(frame[0] == header[0]);
    assert(frame[7] == header[7]);
    assert(parsed_header(frame) =~= header);
    assert(parsed_payload(frame, mic.len()) =~= payload);
    assert(parsed_mic(frame, mic.len()) =~= mic);
    assert(frame.subrange(1, 5) =~= spec_u32_to_le_bytes(address));
    assert(frame.subrange(5, 7) =~= spec_u16_to_le_bytes(frame_counter as u16));
}

/// Round trip: a frame sealed at a counter within one 16-bit window at or
/// above the session's expected next counter opens to exactly the plaintext
/// it was sealed over, under the same keys, address, and direction.
pub proof fn lemma_seal_open_round_trip(
    nwkskey: Seq<u8>,
    appskey: Seq<u8>,
    address: u32,
    sealed_at: u32,
    next: u32,
    direction: Direction,
    plaintext: Seq<u8>,
    mic_len: nat,
)
    requires
        valid_mic_len(mic_len),
        HEADER_SIZE + plaintext.len() + mic_len <= MAX_MESSAGE_SIZE,
        sealed_at != u32::MAX,
        next <= sealed_at,
        sealed_at - next < 0x1_0000,
    ensures
        opened_plaintext(
            nwkskey,
            appskey,
            address,
            next,
            direction,
            sealed_frame(nwkskey, appskey, address, sealed_at, direction, plaintext, mic_len),
            mic_len,
        ) == Some(plaintext),
{
    let ciphertext = apply_cipherstream(appskey, direction, address, sealed_at, plaintext);
    let header = frame_header(address, sealed_at);
    let mic = mic_bytes(nwkskey, direction, address, sealed_at, header, ciphertext, mic_len);
    lemma_assembled_frame_parts(address, sealed_at, ciphertext, mic);
    lemma_recover_exact(next, sealed_at);
    lemma_cipherstream_self_inverse(appskey, direction, address, sealed_at, plaintext);
}

/// Soundness of opening: any frame that opens is, byte for byte, the honest
/// sealing of the returned plaintext at the recovered counter, which lies
/// within one 16-bit window at or above the session's expected counter.
pub proof fn lemma_opened_frame_is_sealed(
    nwkskey: Seq<u8>,
    appskey: Seq<u8>,
    address: u32,
    next: u32,
    direction: Direction,
    frame: Seq<u8>,
    mic_len: nat,
)
    requires
        valid_mic_len(mic_len),
        opened_plaintext(nwkskey, appskey, address, next, direction, frame, mic_len) is Some,
    ensures
        ({
            let recovered = recovered_frame_counter(parsed_lsbs(frame), next);
            let plaintext = opened_plaintext(
                nwkskey,
                appskey,
                address,
                next,
                direction,
                frame,
                mic_len,
            )->Some_0;
            &&& next <= recovered < next + 0x1_0000
            &&& recovered != u32::MAX
            &&& HEADER_SIZE + plaintext.len() + mic_len <= MAX_MESSAGE_SIZE
            &&& frame == sealed_frame(
                nwkskey,
                appskey,
                address,
                recovered,
                direction,
                plaintext,
                mic_len,
            )
        }),
{
    lemma_auto_spec_u32_to_from_le_bytes();
    lemma_auto_spec_u16_to_from_le_bytes();
    let lsbs = parsed_lsbs(frame);
    let recovered = recovered_frame_counter(lsbs, next);
    lemma_recover_window(lsbs, next);
    let header = parsed_header(frame);
    let ciphertext = parsed_payload(frame, mic_len);
    let plaintext = apply_cipherstream(appskey, direction, address, recovered, ciphertext);
    assert(header.len() == 8);
    assert(header[0] == crate::model::MHDR);
    assert(header[7] == crate::model::FPORT);
    assert(header.subrange(1, 5) =~= frame.subrange(1, 5));
    assert(header.subrange(5, 7) =~= frame.subrange(5, 7));
    assert(frame.subrange(1, 5) == spec_u32_to_le_bytes(address));
    assert(recovered as u16 == lsbs) by (bit_vector)
        requires
            recovered % 0x1_0000 == lsbs as u32,
    ;
    assert(frame.subrange(5, 7) == spec_u16_to_le_bytes(recovered as u16));
    assert(header =~= frame_header(address, recovered));
    lemma_cipherstream_self_inverse(appskey, direction, address, recovered, ciphertext);
    assert(frame =~= header + ciphertext + parsed_mic(frame, mic_len));
    assert(sealed_frame(nwkskey, appskey, address, recovered, direction, plaintext, mic_len)
        =~= frame);
}

/// A frame whose counter does not survive recovery opens only on a CMAC
/// collision: the session would check the MIC against a different context
/// block, so acceptance requires two distinct CMAC inputs with the same
/// truncated tag.
pub proof fn lemma_counter_mismatch_opens_only_on_collision(
    nwkskey: Seq<u8>,
    appskey: Seq<u8>,
    address: u32,
    sealed_at: u32,
    next: u32,
    direction: Direction,
    plaintext: Seq<u8>,
    mic_len: nat,
)
    requires
        valid_mic_len(mic_len),
        HEADER_SIZE + plaintext.len() + mic_len <= MAX_MESSAGE_SIZE,
        sealed_at != u32::MAX,
        recovered_frame_counter(sealed_at as u16, next) != sealed_at,
    ensures
        opened_plaintext(
            nwkskey,
            appskey,
            address,
            next,
            direction,
            sealed_frame(nwkskey, appskey, address, sealed_at, direction, plaintext, mic_len),
            mic_len,
        ) is Some ==> ({
            let header = frame_header(address, sealed_at);
            let ciphertext = apply_cipherstream(appskey, direction, address, sealed_at, plaintext);
            let recovered = recovered_frame_counter(sealed_at as u16, next);
            let sealed_message = mic_message(direction, address, sealed_at, header, ciphertext);
            let checked_message = mic_message(direction, address, recovered, header, ciphertext);
            &&& sealed_message != checked_message
            &&& cmac_tag(nwkskey, sealed_message).take(mic_len as int) == cmac_tag(
                nwkskey,
                checked_message,
            ).take(mic_len as int)
        }),
{
    let frame = sealed_frame(nwkskey, appskey, address, sealed_at, direction, plaintext, mic_len);
    if opened_plaintext(nwkskey, appskey, address, next, direction, frame, mic_len) is Some {
        lemma_auto_spec_u32_to_from_le_bytes();
        let header = frame_header(address, sealed_at);
        let ciphertext = apply_cipherstream(appskey, direction, address, sealed_at, plaintext);
        let mic = mic_bytes(nwkskey, direction, address, sealed_at, header, ciphertext, mic_len);
        lemma_assembled_frame_parts(address, sealed_at, ciphertext, mic);
        let recovered = recovered_frame_counter(sealed_at as u16, next);
        let sealed_message = mic_message(direction, address, sealed_at, header, ciphertext);
        let checked_message = mic_message(direction, address, recovered, header, ciphertext);
        assert(sealed_message.subrange(10, 14) =~= spec_u32_to_le_bytes(sealed_at));
        assert(checked_message.subrange(10, 14) =~= spec_u32_to_le_bytes(recovered));
        if sealed_message == checked_message {
            assert(spec_u32_to_le_bytes(sealed_at) == spec_u32_to_le_bytes(recovered));
            assert(false);
        }
    }
}

/// Replay resistance: once the session expects a counter beyond the one a
/// frame was sealed at, that frame opens only on a CMAC collision.
pub proof fn lemma_replay_opens_only_on_collision(
    nwkskey: Seq<u8>,
    appskey: Seq<u8>,
    address: u32,
    sealed_at: u32,
    next: u32,
    direction: Direction,
    plaintext: Seq<u8>,
    mic_len: nat,
)
    requires
        valid_mic_len(mic_len),
        HEADER_SIZE + plaintext.len() + mic_len <= MAX_MESSAGE_SIZE,
        sealed_at != u32::MAX,
        sealed_at < next,
    ensures
        opened_plaintext(
            nwkskey,
            appskey,
            address,
            next,
            direction,
            sealed_frame(nwkskey, appskey, address, sealed_at, direction, plaintext, mic_len),
            mic_len,
        ) is Some ==> ({
            let header = frame_header(address, sealed_at);
            let ciphertext = apply_cipherstream(appskey, direction, address, sealed_at, plaintext);
            let recovered = recovered_frame_counter(sealed_at as u16, next);
            let sealed_message = mic_message(direction, address, sealed_at, header, ciphertext);
            let checked_message = mic_message(direction, address, recovered, header, ciphertext);
            &&& sealed_message != checked_message
            &&& cmac_tag(nwkskey, sealed_message).take(mic_len as int) == cmac_tag(
                nwkskey,
                checked_message,
            ).take(mic_len as int)
        }),
{
    lemma_recover_window(sealed_at as u16, next);
    lemma_counter_mismatch_opens_only_on_collision(
        nwkskey,
        appskey,
        address,
        sealed_at,
        next,
        direction,
        plaintext,
        mic_len,
    );
}

/// Counter gap: a frame sealed one full 16-bit window or more beyond the
/// session's expected counter opens only on a CMAC collision.
pub proof fn lemma_counter_gap_opens_only_on_collision(
    nwkskey: Seq<u8>,
    appskey: Seq<u8>,
    address: u32,
    sealed_at: u32,
    next: u32,
    direction: Direction,
    plaintext: Seq<u8>,
    mic_len: nat,
)
    requires
        valid_mic_len(mic_len),
        HEADER_SIZE + plaintext.len() + mic_len <= MAX_MESSAGE_SIZE,
        sealed_at != u32::MAX,
        sealed_at >= next + 0x1_0000,
    ensures
        opened_plaintext(
            nwkskey,
            appskey,
            address,
            next,
            direction,
            sealed_frame(nwkskey, appskey, address, sealed_at, direction, plaintext, mic_len),
            mic_len,
        ) is Some ==> ({
            let header = frame_header(address, sealed_at);
            let ciphertext = apply_cipherstream(appskey, direction, address, sealed_at, plaintext);
            let recovered = recovered_frame_counter(sealed_at as u16, next);
            let sealed_message = mic_message(direction, address, sealed_at, header, ciphertext);
            let checked_message = mic_message(direction, address, recovered, header, ciphertext);
            &&& sealed_message != checked_message
            &&& cmac_tag(nwkskey, sealed_message).take(mic_len as int) == cmac_tag(
                nwkskey,
                checked_message,
            ).take(mic_len as int)
        }),
{
    lemma_recover_window(sealed_at as u16, next);
    lemma_counter_mismatch_opens_only_on_collision(
        nwkskey,
        appskey,
        address,
        sealed_at,
        next,
        direction,
        plaintext,
        mic_len,
    );
}

/// Direction mismatch: a frame sealed for one direction opens under the
/// other direction only on a CMAC collision, because the direction octet
/// sits inside the authenticated context block.
pub proof fn lemma_direction_mismatch_opens_only_on_collision(
    nwkskey: Seq<u8>,
    appskey: Seq<u8>,
    address: u32,
    sealed_at: u32,
    next: u32,
    sealed_direction: Direction,
    open_direction: Direction,
    plaintext: Seq<u8>,
    mic_len: nat,
)
    requires
        valid_mic_len(mic_len),
        HEADER_SIZE + plaintext.len() + mic_len <= MAX_MESSAGE_SIZE,
        open_direction != sealed_direction,
    ensures
        opened_plaintext(
            nwkskey,
            appskey,
            address,
            next,
            open_direction,
            sealed_frame(
                nwkskey,
                appskey,
                address,
                sealed_at,
                sealed_direction,
                plaintext,
                mic_len,
            ),
            mic_len,
        ) is Some ==> ({
            let header = frame_header(address, sealed_at);
            let ciphertext = apply_cipherstream(
                appskey,
                sealed_direction,
                address,
                sealed_at,
                plaintext,
            );
            let recovered = recovered_frame_counter(sealed_at as u16, next);
            let sealed_message = mic_message(
                sealed_direction,
                address,
                sealed_at,
                header,
                ciphertext,
            );
            let checked_message = mic_message(open_direction, address, recovered, header, ciphertext);
            &&& sealed_message != checked_message
            &&& cmac_tag(nwkskey, sealed_message).take(mic_len as int) == cmac_tag(
                nwkskey,
                checked_message,
            ).take(mic_len as int)
        }),
{
    let frame = sealed_frame(
        nwkskey,
        appskey,
        address,
        sealed_at,
        sealed_direction,
        plaintext,
        mic_len,
    );
    if opened_plaintext(nwkskey, appskey, address, next, open_direction, frame, mic_len) is Some {
        let header = frame_header(address, sealed_at);
        let ciphertext = apply_cipherstream(appskey, sealed_direction, address, sealed_at, plaintext);
        let mic = mic_bytes(
            nwkskey,
            sealed_direction,
            address,
            sealed_at,
            header,
            ciphertext,
            mic_len,
        );
        lemma_assembled_frame_parts(address, sealed_at, ciphertext, mic);
        let recovered = recovered_frame_counter(sealed_at as u16, next);
        let sealed_message = mic_message(sealed_direction, address, sealed_at, header, ciphertext);
        let checked_message = mic_message(open_direction, address, recovered, header, ciphertext);
        assert(sealed_message[5] == crate::session::direction_octet(sealed_direction));
        assert(checked_message[5] == crate::session::direction_octet(open_direction));
        assert(sealed_message != checked_message);
    }
}

/// Address mismatch: a frame sealed for one device address never opens on a
/// session with a different address.
pub proof fn lemma_address_mismatch_rejected(
    nwkskey: Seq<u8>,
    appskey: Seq<u8>,
    frame_address: u32,
    session_address: u32,
    sealed_at: u32,
    next: u32,
    direction: Direction,
    plaintext: Seq<u8>,
    mic_len: nat,
)
    requires
        valid_mic_len(mic_len),
        HEADER_SIZE + plaintext.len() + mic_len <= MAX_MESSAGE_SIZE,
        session_address != frame_address,
    ensures
        opened_plaintext(
            nwkskey,
            appskey,
            session_address,
            next,
            direction,
            sealed_frame(nwkskey, appskey, frame_address, sealed_at, direction, plaintext, mic_len),
            mic_len,
        ) is None,
{
    let ciphertext = apply_cipherstream(appskey, direction, frame_address, sealed_at, plaintext);
    let header = frame_header(frame_address, sealed_at);
    let mic = mic_bytes(nwkskey, direction, frame_address, sealed_at, header, ciphertext, mic_len);
    lemma_assembled_frame_parts(frame_address, sealed_at, ciphertext, mic);
}

/// Tampered MIC: replacing the MIC of a frame whose counter recovery is
/// exact by anything but the true MIC makes opening fail.
pub proof fn lemma_tampered_mic_rejected(
    nwkskey: Seq<u8>,
    appskey: Seq<u8>,
    address: u32,
    sealed_at: u32,
    next: u32,
    direction: Direction,
    plaintext: Seq<u8>,
    mic_len: nat,
    tampered_mic: Seq<u8>,
)
    requires
        valid_mic_len(mic_len),
        HEADER_SIZE + plaintext.len() + mic_len <= MAX_MESSAGE_SIZE,
        sealed_at != u32::MAX,
        next <= sealed_at,
        sealed_at - next < 0x1_0000,
        tampered_mic.len() == mic_len,
        tampered_mic != mic_bytes(
            nwkskey,
            direction,
            address,
            sealed_at,
            frame_header(address, sealed_at),
            apply_cipherstream(appskey, direction, address, sealed_at, plaintext),
            mic_len,
        ),
    ensures
        opened_plaintext(
            nwkskey,
            appskey,
            address,
            next,
            direction,
            frame_header(address, sealed_at) + apply_cipherstream(
                appskey,
                direction,
                address,
                sealed_at,
                plaintext,
            ) + tampered_mic,
            mic_len,
        ) is None,
{
    let ciphertext = apply_cipherstream(appskey, direction, address, sealed_at, plaintext);
    lemma_assembled_frame_parts(address, sealed_at, ciphertext, tampered_mic);
    lemma_recover_exact(next, sealed_at);
}

/// An exhausted session opens nothing: with the expected counter at the
/// reserved value, recovery saturates and every frame is rejected.
pub proof fn lemma_exhausted_session_opens_nothing(
    nwkskey: Seq<u8>,
    appskey: Seq<u8>,
    address: u32,
    direction: Direction,
    frame: Seq<u8>,
    mic_len: nat,
)
    ensures
        opened_plaintext(nwkskey, appskey, address, u32::MAX, direction, frame, mic_len) is None,
{
    lemma_recover_exhausted(parsed_lsbs(frame));
}

/// A frame whose address field does not carry the session's own address
/// never opens, whatever else it holds; tampering with any address bit of a
/// frame addressed to the session therefore makes opening fail.
pub proof fn lemma_foreign_address_rejected(
    nwkskey: Seq<u8>,
    appskey: Seq<u8>,
    address: u32,
    next: u32,
    direction: Direction,
    frame: Seq<u8>,
    mic_len: nat,
)
    requires
        crate::model::parseable(frame, mic_len) ==> parsed_address(frame) != address,
    ensures
        opened_plaintext(nwkskey, appskey, address, next, direction, frame, mic_len) is None,
{
}

/// A frame that does not carry both fixed header bytes never opens.
pub proof fn lemma_wrong_magic_rejected(
    nwkskey: Seq<u8>,
    appskey: Seq<u8>,
    address: u32,
    next: u32,
    direction: Direction,
    frame: Seq<u8>,
    mic_len: nat,
)
    requires
        frame.len() > 7 ==> (frame[0] != crate::model::MHDR || frame[7] != crate::model::FPORT),
    ensures
        opened_plaintext(nwkskey, appskey, address, next, direction, frame, mic_len) is None,
{
}

} // verus!
