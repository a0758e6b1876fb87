//! MIDI messages and the ports they travel on.

use vstd::prelude::*;

verus! {

/// The longest SysEx message that the hardware sends, in bytes.
pub const MAX_SYSEX_LENGTH: usize = 320;

/// The MIDI ports available on the Launchpad Pro.
#[derive(Clone, Copy, Debug, PartialEq, Eq, Structural)]
pub enum Port {
    Standalone,
    USB,
    DIN,
}

/// A MIDI message.
#[derive(Clone, Copy, Debug)]
pub struct Message {
    pub status: u8,
    pub data: (u8, u8),
}

/// The MIDI DIN socket types available.
#[derive(Clone, Copy, Debug, PartialEq, Eq, Structural)]
pub enum Cable {
    MidiIn,
    MidiOut,
}

/// The events that can occur for the MIDI DIN sockets.
#[derive(Clone, Copy, Debug, PartialEq, Eq, Structural)]
pub enum CableEvent {
    Connect(Cable),
    Disconnect(Cable),
}

/// The four bytes that go to the hardware for one MIDI message.
#[derive(Clone, Copy, Debug, PartialEq, Eq, Structural)]
pub struct MidiWrite {
    pub port: u8,
    pub status: u8,
    pub data1: u8,
    pub data2: u8,
}

impl Port {
    /// The number by which the hardware knows the port.
    pub open spec fn spec_code(self) -> u8 {
        match self {
            Port::Standalone => 0,
            Port::USB => 1,
            Port::DIN => 2,
        }
    }

    /// The port that the hardware knows by the number `code`, if there is one.
    pub open spec fn spec_from_code(code: u8) -> Option<Port> {
        if code == 0 {
            Some(Port::Standalone)
        } else if code == 1 {
            Some(Port::USB)
        } else if code == 2 {
            Some(Port::DIN)
        } else {
            None
        }
    }

    /// The number by which the hardware knows the port.
    pub fn code(&self) -> (c: u8)
        ensures
            c == self.spec_code(),
    {
        match self {
            Port::Standalone => 0,
            Port::USB => 1,
            Port::DIN => 2,
        }
    }

    /// The port that the hardware knows by the number `code`, if there is one.
    pub fn from_code(code: u8) -> (port: Option<Port>)
        ensures
            port == Port::spec_from_code(code),
    {
        match code {
            0 => Some(Port::Standalone),
            1 => Some(Port::USB),
            2 => Some(Port::DIN),
            _ => None,
        }
    }
}

impl Cable {
    /// The socket that the hardware knows by the number `code`, if there is one.
    pub open spec fn spec_from_code(code: u8) -> Option<Cable> {
        if code == 0 {
            Some(Cable::MidiIn)
        } else if code == 1 {
            Some(Cable::MidiOut)
        } else {
            None
        }
    }

    /// The socket that the hardware knows by the number `code`, if there is one.
    pub fn from_code(code: u8) -> (cable: Option<Cable>)
        ensures
            cable == Cable::spec_from_code(code),
    {
        match code {
            0 => Some(Cable::MidiIn),
            1 => Some(Cable::MidiOut),
            _ => None,
        }
    }
}

impl Message {
    /// Construct a new MIDI message.
    pub fn new(status: u8, data: (u8, u8)) -> (m: Message)
        ensures
            m.status == status,
            m.data == data,
    {
        Message { status, data }
    }
}

/// The bytes that send a MIDI message to one of the ports available on the device.
pub fn send_message(port: Port, message: Message) -> (w: MidiWrite)
    ensures
        w == (MidiWrite {
            port: port.spec_code(),
            status: message.status,
            data1: message.data.0,
            data2: message.data.1,
        }),
{
    MidiWrite {
        port: port.code(),
        status: message.status,
        data1: message.data.0,
        data2: message.data.1,
    }
}

/// The port number and the length with which a SysEx message goes to one of the ports
/// on the device. The message must not exceed 320 bytes: a longer one is discarded,
/// and nothing is to be sent.
pub fn send_sysex(port: Port, data: &[u8]) -> (header: Option<(u8, u16)>)
    ensures
        data@.len() <= 320 ==> header == Some((port.spec_code(), data@.len() as u16)),
        data@.len() > 320 ==> header is None,
{
    if data.len() <= MAX_SYSEX_LENGTH {
        Some((port.code(), data.len() as u16))
    } else {
        None
    }
}

} // verus!
