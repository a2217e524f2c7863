//! The AES-128-backed primitives the codec relies on: AES-CMAC tags and the
//! AES-CTR keystream.
//!
//! Both outside calls are deterministic functions of their inputs; the
//! contracts name their results and every other function of the crate is
//! verified against those names.

use vstd::prelude::*;

use crate::model::xor_bytes;
use cipher::KeyIvInit;
use cipher::StreamCipher;
use cmac::Mac;

verus! {

/// One byte of the AES-CMAC tag of a message under a 16-byte key.
pub uninterp spec fn cmac_tag_byte(key: Seq<u8>, message: Seq<u8>, index: int) -> u8;

/// The AES-CMAC tag of a message under a 16-byte key: one 16-byte cipher
/// block.
pub open spec fn cmac_tag(key: Seq<u8>, message: Seq<u8>) -> Seq<u8> {
    Seq::new(16, |index: int| cmac_tag_byte(key, message, index))
}

/// Relies on `cmac::Cmac<aes::Aes128>` (AES-CMAC): the tag is a function of
/// key and message alone, and is exactly one 16-byte cipher block long.
#[verifier::external_body]
pub(crate) fn aes128_cmac(key: &[u8; 16], message: &Vec<u8>) -> (tag: Vec<u8>)
    ensures
        tag@.len() == 16,
        forall|index: int| 0 <= index < 16 ==> tag@[index] == cmac_tag_byte(key@, message@, index),
{
    let mut mac = <cmac::Cmac<aes::Aes128> as Mac>::new_from_slice(key.as_slice())
        .expect("AES-128 accepts a 16-byte key");
    mac.update(message.as_slice());
    mac.finalize().into_bytes().to_vec()
}

/// The first `len` bytes of the AES-CTR keystream derived from a 16-byte key
/// and a 16-byte initial counter block.
pub uninterp spec fn ctr_keystream(key: Seq<u8>, iv: Seq<u8>, len: nat) -> Seq<u8>;

/// Relies on `ctr::Ctr128BE<aes::Aes128>`: `apply_keystream` XORs the buffer
/// in place with a keystream that is a function of key and initial counter
/// block alone, and it never panics within the first 255 blocks.
#[verifier::external_body]
pub(crate) fn aes128_ctr_xor(key: &[u8; 16], iv: &Vec<u8>, data: &mut Vec<u8>)
    requires
        iv@.len() == 16,
        old(data)@.len() <= 4080,
    ensures
        final(data)@ == xor_bytes(old(data)@, ctr_keystream(key@, iv@, old(data)@.len())),
{
    let mut cipher = <ctr::Ctr128BE<aes::Aes128> as KeyIvInit>::new_from_slices(
        key.as_slice(),
        iv.as_slice(),
    ).expect("AES-128 CTR accepts a 16-byte key and a 16-byte counter block");
    cipher.apply_keystream(data.as_mut_slice());
}

} // verus!
