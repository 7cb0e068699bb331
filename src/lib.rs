//! Dispatch engine of a daemon that turns the messages of a MIDI control
//! surface into key taps and shell commands.
//!
//! Raw frames are classified into events, each event's controller id is
//! looked up in an immutable mapping table, and the per-controller state
//! store is consulted and updated to decide which effect, if any, is due.

pub mod action;
pub mod device;
pub mod engine;
pub mod frame;
pub mod laws;
pub mod state;
pub mod table;

pub use action::{fill_template, percent_of, percent_text, Action, Effect, EffectModel};
pub use frame::{classify, EventKind, MidiEvent};
pub use state::{ControllerState, StateStore};
pub use table::{parse_controller_id, MappingTable};
pub use engine::{dispatch, handle_frame};
pub use device::{contains_text, find_port};
