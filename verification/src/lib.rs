//! An embeddable codec that seals and opens authenticated, encrypted frames
//! in a LoRaWAN-derived proprietary format.
//!
//! A frame binds its payload to a session context (device address, message
//! direction, 32-bit frame counter) through two keyed primitives: a truncated
//! AES-CMAC message integrity code and an AES-CTR stream cipher.

use vstd::prelude::*;

pub mod aes128;
pub mod aescmac;
pub mod aesctr;
mod buf;
pub mod laws;
pub mod mic;
pub mod model;
pub mod open;
pub mod raw;
pub mod seal;
pub mod session;
pub mod stream;

pub use crate::raw::RawFrame;
pub use crate::seal::FrameBuilder;
pub use crate::session::Direction;
pub use crate::session::Session;
pub use crate::session::SessionRefMut;
pub use crate::session::SessionState;

verus! {

} // verus!
