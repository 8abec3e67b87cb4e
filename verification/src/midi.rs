//! Construction of the downstream MIDI messages, and the discipline of
//! the single cached output port.
//!
//! The bridge sends every MIDI message on one fixed channel. A note
//! event is an ordinary note-on or note-off; a heart-rate value goes out
//! as a custom two-digit encoding, the ones and tens digits carried in
//! the two data bytes of a note-on-shaped message. Opening the port and
//! sending the bytes is transport work outside the library.

use vstd::prelude::*;

verus! {

/// The status byte of a note-on message: 0x90 with the fixed channel,
/// which is zero, in its low bits.
pub const NOTE_ON_STATUS: u8 = 0x90;

/// The status byte of a note-off message: 0x80 with the fixed channel,
/// which is zero, in its low bits.
pub const NOTE_OFF_STATUS: u8 = 0x80;

/// The bytes of a note event: note-on while the velocity is positive,
/// note-off at velocity zero.
pub open spec fn note_message_bytes(note: u8, velocity: u8) -> Seq<u8> {
    if velocity > 0 {
        seq![NOTE_ON_STATUS, note, velocity]
    } else {
        seq![NOTE_OFF_STATUS, note, velocity]
    }
}

/// The bytes of the custom heart-rate encoding: the ones digit, then the
/// tens digit, in a note-on-shaped message.
pub open spec fn heart_rate_message_bytes(heartrate: u8) -> Seq<u8> {
    seq![NOTE_ON_STATUS, heartrate % 10, heartrate / 10]
}

/// Builds the note event for a note and velocity.
pub fn midi_note_message(note: u8, velocity: u8) -> (m: Vec<u8>)
    ensures
        m@ == note_message_bytes(note, velocity),
{
    let status: u8 = if velocity > 0 {
        NOTE_ON_STATUS
    } else {
        NOTE_OFF_STATUS
    };
    let mut m: Vec<u8> = Vec::new();
    m.push(status);
    m.push(note);
    m.push(velocity);
    proof {
        assert(m@ =~= note_message_bytes(note, velocity));
    }
    m
}

/// Builds the two-digit heart-rate message for a heart-rate value.
pub fn midi_heart_rate_message(heartrate: u8) -> (m: Vec<u8>)
    ensures
        m@ == heart_rate_message_bytes(heartrate),
{
    let ones = heartrate % 10;
    let tens = heartrate / 10;
    let mut m: Vec<u8> = Vec::new();
    m.push(NOTE_ON_STATUS);
    m.push(ones);
    m.push(tens);
    proof {
        assert(m@ =~= heart_rate_message_bytes(heartrate));
    }
    m
}

/// The single cached output port: the name of the port the current MIDI
/// output connection was opened on, if one is open. The connection
/// itself lives outside the library.
pub struct MidiPortCache {
    /// The name the open connection was made with; `None` before the
    /// first send.
    pub port_name: Option<String>,
}

impl View for MidiPortCache {
    type V = Option<Seq<char>>;

    open spec fn view(&self) -> Option<Seq<char>> {
        match self.port_name {
            Some(n) => Some(n@),
            None => None,
        }
    }
}

impl MidiPortCache {
    /// A cache with no open port.
    pub fn new() -> (r: MidiPortCache)
        ensures
            r@ is None,
    {
        MidiPortCache { port_name: None }
    }

    /// Whether a send to the named port must open a new connection
    /// first: there is none yet, or the open one is on another port.
    pub fn needs_new_connection(&self, port_name: &String) -> (r: bool)
        ensures
            r == match self@ {
                Some(n) => n != port_name@,
                None => true,
            },
    {
        match &self.port_name {
            Some(n) => !(*n == *port_name),
            None => true,
        }
    }

    /// Records that a connection was opened on the named port,
    /// replacing whatever was cached.
    pub fn record_connection(&mut self, port_name: String)
        ensures
            final(self)@ == Some(port_name@),
    {
        self.port_name = Some(port_name);
    }
}

} // verus!
