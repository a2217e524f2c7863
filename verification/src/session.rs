//! Session state: keys, device address, and per-direction frame counters.

use vstd::prelude::*;

verus! {

/// A message direction.
///
/// The direction appears verbatim in the keyed context blocks as a single
/// octet: `0x00` for uplink, `0x01` for downlink.
#[derive(Clone, Copy, PartialEq, Eq, Structural, Debug)]
pub enum Direction {
    /// An uplink message from the end-device to the server.
    Uplink,
    /// A downlink message from the server to the end-device.
    Downlink,
}

/// The octet that encodes a direction inside a keyed context block.
pub open spec fn direction_octet(direction: Direction) -> u8 {
    match direction {
        Direction::Uplink => 0x00,
        Direction::Downlink => 0x01,
    }
}

impl Direction {
    /// The octet that encodes this direction inside a keyed context block.
    pub fn octet(self) -> (octet: u8)
        ensures
            octet == direction_octet(self),
    {
        match self {
            Direction::Uplink => 0x00,
            Direction::Downlink => 0x01,
        }
    }
}

/// A mutable session capability: two 128-bit session keys, the device
/// address, and one monotonic 32-bit frame counter per direction.
///
/// The counter value `u32::MAX` is reserved: it marks the session as
/// exhausted for that direction, and no frame may ever be sealed or accepted
/// with it.
pub trait SessionState: Sized {
    /// The network session key, as the contracts see it.
    spec fn spec_nwkskey(&self) -> Seq<u8>;

    /// The application session key, as the contracts see it.
    spec fn spec_appskey(&self) -> Seq<u8>;

    /// The device address, as the contracts see it.
    spec fn spec_device_address(&self) -> u32;

    /// The next frame counter for the given direction, as the contracts see it.
    spec fn spec_frame_counter(&self, direction: Direction) -> u32;

    /// The network session key used to authenticate frames.
    fn nwkskey(&self) -> (key: [u8; 16])
        ensures
            key@ == self.spec_nwkskey(),
    ;

    /// The application session key used to encrypt payloads.
    fn appskey(&self) -> (key: [u8; 16])
        ensures
            key@ == self.spec_appskey(),
    ;

    /// The device address.
    fn device_address(&self) -> (address: u32)
        ensures
            address == self.spec_device_address(),
    ;

    /// The frame counter for frames with the given direction.
    fn frame_counter(&self, direction: Direction) -> (counter: u32)
        ensures
            counter == self.spec_frame_counter(direction),
    ;

    /// Sets the frame counter for frames with the given direction, leaving
    /// the keys, the address, and the other direction's counter unchanged.
    fn set_frame_counter(&mut self, counter: u32, direction: Direction)
        ensures
            final(self).spec_frame_counter(direction) == counter,
            forall|d: Direction|
                d != direction ==> final(self).spec_frame_counter(d) == old(
                    self,
                ).spec_frame_counter(d),
            final(self).spec_nwkskey() == old(self).spec_nwkskey(),
            final(self).spec_appskey() == old(self).spec_appskey(),
            final(self).spec_device_address() == old(self).spec_device_address(),
    ;
}

/// A plain in-memory session.
pub struct Session {
    /// The network session key.
    pub nwkskey: [u8; 16],
    /// The application session key.
    pub appskey: [u8; 16],
    /// The device address.
    pub device_address: u32,
    /// The frame counter for uplink frames.
    pub frame_counter_uplink: u32,
    /// The frame counter for downlink frames.
    pub frame_counter_downlink: u32,
}

impl Session {
    /// Creates a session from its parts.
    pub fn new(
        nwkskey: [u8; 16],
        appskey: [u8; 16],
        device_address: u32,
        frame_counter_uplink: u32,
        frame_counter_downlink: u32,
    ) -> (session: Session)
        ensures
            session.spec_nwkskey() == nwkskey@,
            session.spec_appskey() == appskey@,
            session.spec_device_address() == device_address,
            session.spec_frame_counter(Direction::Uplink) == frame_counter_uplink,
            session.spec_frame_counter(Direction::Downlink) == frame_counter_downlink,
    {
        Session { nwkskey, appskey, device_address, frame_counter_uplink, frame_counter_downlink }
    }
}

impl SessionState for Session {
    open spec fn spec_nwkskey(&self) -> Seq<u8> {
        self.nwkskey@
    }

    open spec fn spec_appskey(&self) -> Seq<u8> {
        self.appskey@
    }

    open spec fn spec_device_address(&self) -> u32 {
        self.device_address
    }

    open spec fn spec_frame_counter(&self, direction: Direction) -> u32 {
        match direction {
            Direction::Uplink => self.frame_counter_uplink,
            Direction::Downlink => self.frame_counter_downlink,
        }
    }

    fn nwkskey(&self) -> (key: [u8; 16]) {
        self.nwkskey
    }

    fn appskey(&self) -> (key: [u8; 16]) {
        self.appskey
    }

    fn device_address(&self) -> (address: u32) {
        self.device_address
    }

    fn frame_counter(&self, direction: Direction) -> (counter: u32) {
        match direction {
            Direction::Uplink => self.frame_counter_uplink,
            Direction::Downlink => self.frame_counter_downlink,
        }
    }

    fn set_frame_counter(&mut self, counter: u32, direction: Direction) {
        match direction {
            Direction::Uplink => self.frame_counter_uplink = counter,
            Direction::Downlink => self.frame_counter_downlink = counter,
        }
    }
}

/// A forwarding wrapper that implements [`SessionState`] in terms of an owned
/// underlying session.
pub struct SessionRefMut<T> {
    /// The underlying session.
    pub session: T,
}

impl<T> SessionRefMut<T> {
    /// Creates a new session wrapper.
    pub fn new(session: T) -> (wrapper: SessionRefMut<T>)
        ensures
            wrapper.session == session,
    {
        SessionRefMut { session }
    }
}

impl<T: SessionState> SessionState for SessionRefMut<T> {
    open spec fn spec_nwkskey(&self) -> Seq<u8> {
        self.session.spec_nwkskey()
    }

    open spec fn spec_appskey(&self) -> Seq<u8> {
        self.session.spec_appskey()
    }

    open spec fn spec_device_address(&self) -> u32 {
        self.session.spec_device_address()
    }

    open spec fn spec_frame_counter(&self, direction: Direction) -> u32 {
        self.session.spec_frame_counter(direction)
    }

    fn nwkskey(&self) -> (key: [u8; 16]) {
        self.session.nwkskey()
    }

    fn appskey(&self) -> (key: [u8; 16]) {
        self.session.appskey()
    }

    fn device_address(&self) -> (address: u32) {
        self.session.device_address()
    }

    fn frame_counter(&self, direction: Direction) -> (counter: u32) {
        self.session.frame_counter(direction)
    }

    fn set_frame_counter(&mut self, counter: u32, direction: Direction) {
        self.session.set_frame_counter(counter, direction)
    }
}

} // verus!
