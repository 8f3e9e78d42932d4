//! The values that cross the boundary to the native library.
//!
//! Each type holds, as plain values, what the native structure of the same
//! name holds. An address stands where the native structure has a pointer that
//! only the native library may follow; a byte string stands where the pointer
//! leads to a text that this crate reads.

use vstd::prelude::*;

verus! {

broadcast use vstd::array::group_array_axioms;

/// A device as the native library lists it.
///
/// `device` is the address of the native library's own record of the device
/// and means nothing outside the process that obtained it.
#[derive(Debug, Clone, Copy, PartialEq, Eq)]
pub struct NeoDevice {
    pub device: usize,
    pub handle: i32,
    pub serial: [i8; 7],
    pub type_: u32,
}

impl NeoDevice {
    /// Every field is zero: the content of a buffer entry before the native
    /// library writes to it.
    pub open spec fn is_zeroed(self) -> bool {
        &&& self.device == 0
        &&& self.handle == 0
        &&& self.serial@ == Seq::new(7, |i: int| 0i8)
        &&& self.type_ == 0
    }

    /// A device with every field zero.
    pub fn new() -> (device: Self)
        ensures
            device.is_zeroed(),
    {
        let serial = [0i8; 7];
        assert(serial@ =~= Seq::new(7, |i: int| 0i8));
        NeoDevice { device: 0, handle: 0, serial, type_: 0 }
    }

    /// A buffer of `count` devices, all zero, for the native library to write to.
    pub open spec fn is_buffer(buffer: Seq<Self>, count: nat) -> bool {
        &&& buffer.len() == count
        &&& forall|i: int| 0 <= i < buffer.len() ==> (#[trigger] buffer[i]).is_zeroed()
    }

    /// Makes a buffer of `count` devices, all zero.
    pub fn buffer(count: usize) -> (buffer: Vec<Self>)
        ensures
            Self::is_buffer(buffer@, count as nat),
    {
        let mut buffer: Vec<Self> = Vec::new();
        let mut made: usize = 0;
        while made < count
            invariant
                made <= count,
                Self::is_buffer(buffer@, made as nat),
            decreases count - made,
        {
            buffer.push(Self::new());
            made = made + 1;
        }
        buffer
    }
}

impl Default for NeoDevice {
    fn default() -> (device: Self)
        ensures
            device.is_zeroed(),
    {
        NeoDevice::new()
    }
}

/// An event that the native library recorded.
///
/// `description` is the address of a text that the native library owns.
#[derive(Debug, Clone, Copy, PartialEq, Eq)]
pub struct NeoEvent {
    pub description: usize,
    pub timestamp: i64,
    pub event_number: u32,
    pub severity: u8,
    pub serial: [i8; 7],
    pub reserved: [u8; 16],
}

impl NeoEvent {
    /// Every field is zero.
    pub open spec fn is_zeroed(self) -> bool {
        &&& self.description == 0
        &&& self.timestamp == 0
        &&& self.event_number == 0
        &&& self.severity == 0
        &&& self.serial@ == Seq::new(7, |i: int| 0i8)
        &&& self.reserved@ == Seq::new(16, |i: int| 0u8)
    }

    /// An event with every field zero.
    pub fn new() -> (event: Self)
        ensures
            event.is_zeroed(),
    {
        let serial = [0i8; 7];
        let reserved = [0u8; 16];
        assert(serial@ =~= Seq::new(7, |i: int| 0i8));
        assert(reserved@ =~= Seq::new(16, |i: int| 0u8));
        NeoEvent { description: 0, timestamp: 0, event_number: 0, severity: 0, serial, reserved }
    }

    /// A buffer of `count` events, all zero, for the native library to write to.
    pub open spec fn is_buffer(buffer: Seq<Self>, count: nat) -> bool {
        &&& buffer.len() == count
        &&& forall|i: int| 0 <= i < buffer.len() ==> (#[trigger] buffer[i]).is_zeroed()
    }

    /// Makes a buffer of `count` events, all zero.
    pub fn buffer(count: usize) -> (buffer: Vec<Self>)
        ensures
            Self::is_buffer(buffer@, count as nat),
    {
        let mut buffer: Vec<Self> = Vec::new();
        let mut made: usize = 0;
        while made < count
            invariant
                made <= count,
                Self::is_buffer(buffer@, made as nat),
            decreases count - made,
        {
            buffer.push(Self::new());
            made = made + 1;
        }
        buffer
    }
}

impl Default for NeoEvent {
    fn default() -> (event: Self)
        ensures
            event.is_zeroed(),
    {
        NeoEvent::new()
    }
}

/// A message of a vehicle network, as the native library lays it out.
///
/// Only the time stamp and the message type are open; the rest is the native
/// library's, carried unread.
#[derive(Debug, Clone, Copy, PartialEq, Eq)]
pub struct NeoMessage {
    pub reserved1: [u8; 16],
    pub timestamp: u64,
    pub reserved_timestamp: u64,
    pub reserved2: [u8; 26],
    pub message_type: u16,
    pub reserved3: [u8; 12],
}

impl NeoMessage {
    /// Every field is zero.
    pub open spec fn is_zeroed(self) -> bool {
        &&& self.reserved1@ == Seq::new(16, |i: int| 0u8)
        &&& self.timestamp == 0
        &&& self.reserved_timestamp == 0
        &&& self.reserved2@ == Seq::new(26, |i: int| 0u8)
        &&& self.message_type == 0
        &&& self.reserved3@ == Seq::new(12, |i: int| 0u8)
    }

    /// A message with every field zero.
    pub fn new() -> (message: Self)
        ensures
            message.is_zeroed(),
    {
        let reserved1 = [0u8; 16];
        let reserved2 = [0u8; 26];
        let reserved3 = [0u8; 12];
        assert(reserved1@ =~= Seq::new(16, |i: int| 0u8));
        assert(reserved2@ =~= Seq::new(26, |i: int| 0u8));
        assert(reserved3@ =~= Seq::new(12, |i: int| 0u8));
        NeoMessage {
            reserved1,
            timestamp: 0,
            reserved_timestamp: 0,
            reserved2,
            message_type: 0,
            reserved3,
        }
    }

    /// A buffer of `count` messages, all zero, for the native library to write to.
    pub open spec fn is_buffer(buffer: Seq<Self>, count: nat) -> bool {
        &&& buffer.len() == count
        &&& forall|i: int| 0 <= i < buffer.len() ==> (#[trigger] buffer[i]).is_zeroed()
    }

    /// Makes a buffer of `count` messages, all zero.
    pub fn buffer(count: usize) -> (buffer: Vec<Self>)
        ensures
            Self::is_buffer(buffer@, count as nat),
    {
        let mut buffer: Vec<Self> = Vec::new();
        let mut made: usize = 0;
        while made < count
            invariant
                made <= count,
                Self::is_buffer(buffer@, made as nat),
            decreases count - made,
        {
            buffer.push(Self::new());
            made = made + 1;
        }
        buffer
    }
}

impl Default for NeoMessage {
    fn default() -> (message: Self)
        ensures
            message.is_zeroed(),
    {
        NeoMessage::new()
    }
}

/// Why a call did not give its result.
#[derive(Debug, PartialEq, Eq)]
pub enum Error {
    /// No devices were found.
    NoDevicesFound,
    /// The native library left this event in its last-error slot.
    ErrorOccurred(NeoEvent),
    /// The native library behaved as it never should.
    CriticalError(String),
    /// The device is not one that the native library knows.
    DeviceInvalid,
}

/// An [`Error`] with its text as a sequence of characters.
pub enum ErrorView {
    NoDevicesFound,
    ErrorOccurred(NeoEvent),
    CriticalError(Seq<char>),
    DeviceInvalid,
}

impl View for Error {
    type V = ErrorView;

    open spec fn view(&self) -> ErrorView {
        match self {
            Error::NoDevicesFound => ErrorView::NoDevicesFound,
            Error::ErrorOccurred(event) => ErrorView::ErrorOccurred(*event),
            Error::CriticalError(text) => ErrorView::CriticalError(text@),
            Error::DeviceInvalid => ErrorView::DeviceInvalid,
        }
    }
}

} // verus!
