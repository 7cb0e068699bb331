use vstd::prelude::*;

verus! {

/// Status nibble of a Note-On message.
pub const NOTE_ON: u8 = 0x90;

/// Status nibble of a Control-Change message.
pub const CONTROL_CHANGE: u8 = 0xB0;

/// The two kinds of message the engine reacts to.
#[derive(Clone, Copy, Debug, PartialEq, Eq, Structural)]
pub enum EventKind {
    NoteOn,
    ControlChange,
}

/// A classified message: its kind, the controller (or note) id and the value.
#[derive(Clone, Copy, Debug, PartialEq, Eq, Structural)]
pub struct MidiEvent {
    pub kind: EventKind,
    pub id: u8,
    pub value: u8,
}

/// What a raw frame classifies as: a Note-On with a non-zero velocity or
/// any Control-Change becomes an event; everything else is ignored.
pub open spec fn classify_spec(f: Seq<u8>) -> Option<MidiEvent> {
    if f.len() < 3 {
        None
    } else if f[0] & 0xF0u8 == NOTE_ON {
        if f[2] > 0 {
            Some(MidiEvent { kind: EventKind::NoteOn, id: f[1], value: f[2] })
        } else {
            None
        }
    } else if f[0] & 0xF0u8 == CONTROL_CHANGE {
        Some(MidiEvent { kind: EventKind::ControlChange, id: f[1], value: f[2] })
    } else {
        None
    }
}

/// Turns a raw frame into an event, or `None` for a frame to ignore
/// (too short, another status, or a Note-On of velocity zero).
pub fn classify(frame: &[u8]) -> (r: Option<MidiEvent>)
    ensures
        r == classify_spec(frame@),
{
    if frame.len() < 3 {
        return None;
    }
    let status = frame[0] & 0xF0u8;
    let id = frame[1];
    let value = frame[2];
    if status == NOTE_ON {
        if value > 0 {
            Some(MidiEvent { kind: EventKind::NoteOn, id, value })
        } else {
            None
        }
    } else if status == CONTROL_CHANGE {
        Some(MidiEvent { kind: EventKind::ControlChange, id, value })
    } else {
        None
    }
}

} // verus!
