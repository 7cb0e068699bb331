use vstd::prelude::*;

use crate::action::{
    decimal, effect_view, fill, fill_template, percent_of, percent_spec, percent_text, Action,
    Effect, EffectModel,
};
use crate::frame::{classify, classify_spec, MidiEvent};
use crate::state::{ControllerState, StateStore};
use crate::table::MappingTable;

verus! {

/// The state a controller starts from: the stored one, or a fresh one.
pub open spec fn state_in(s: Map<u8, ControllerState>, id: u8) -> ControllerState {
    if s.contains_key(id) {
        s[id]
    } else {
        ControllerState::fresh()
    }
}

/// What one event does under one action, from the controller's state `st`:
/// the effect asked for, and the state to store (`None`: nothing is stored).
pub open spec fn step(a: Action, st: ControllerState, value: u8) -> (
    Option<EffectModel>,
    Option<ControllerState>,
) {
    match a {
        Action::Key { code } => (Some(EffectModel::KeyTap(code@)), None),
        Action::Command { cmd } => (Some(EffectModel::Spawn(cmd@)), None),
        Action::Linear { template } => {
            let p = percent_spec(value);
            if st.last_emitted_percent == Some(p) {
                (None, None)
            } else {
                (
                    Some(EffectModel::Spawn(fill(template@, decimal(p as nat)))),
                    Some(ControllerState { last_emitted_percent: Some(p), ..st }),
                )
            }
        },
        Action::Relative { inc_cmd, dec_cmd } => {
            let prev = match st.last_raw_value {
                Some(v) => v,
                None => value,
            };
            let next = ControllerState { last_raw_value: Some(value), ..st };
            if value > prev {
                (Some(EffectModel::Spawn(inc_cmd@)), Some(next))
            } else if value < prev {
                (Some(EffectModel::Spawn(dec_cmd@)), Some(next))
            } else {
                (None, Some(next))
            }
        },
    }
}

/// What dispatching event `e` does, given table `m` and store `s`: the effect
/// asked for and the store afterwards.
pub open spec fn dispatch_spec(m: Map<u8, Action>, s: Map<u8, ControllerState>, e: MidiEvent) -> (
    Option<EffectModel>,
    Map<u8, ControllerState>,
) {
    if !m.contains_key(e.id) {
        (None, s)
    } else {
        let (eff, st) = step(m[e.id], state_in(s, e.id), e.value);
        match st {
            Some(st) => (eff, s.insert(e.id, st)),
            None => (eff, s),
        }
    }
}

/// What a raw frame does: classification, then dispatch of the event if any.
pub open spec fn frame_spec(m: Map<u8, Action>, s: Map<u8, ControllerState>, f: Seq<u8>) -> (
    Option<EffectModel>,
    Map<u8, ControllerState>,
) {
    match classify_spec(f) {
        Some(e) => dispatch_spec(m, s, e),
        None => (None, s),
    }
}

/// Decides the effect of one event and updates the controller's state.
pub fn dispatch(event: MidiEvent, table: &MappingTable, store: &mut StateStore) -> (r: Option<
    Effect,
>)
    ensures
        (effect_view(r), final(store)@) == dispatch_spec(table@, old(store)@, event),
{
    let id = event.id;
    let value = event.value;
    let action = match table.lookup(id) {
        Some(a) => a,
        None => return None,
    };
    let st = match store.get(id) {
        Some(st) => st,
        None => ControllerState::new(),
    };
    match action {
        Action::Key { code } => Some(Effect::KeyTap { code: code.clone() }),
        Action::Command { cmd } => Some(Effect::Spawn { cmd: cmd.clone() }),
        Action::Linear { template } => {
            let p = percent_of(value);
            let same = match st.last_emitted_percent {
                Some(last) => last == p,
                None => false,
            };
            if same {
                None
            } else {
                let text = percent_text(p);
                let cmd = fill_template(template.as_str(), text.as_str());
                store.set(id, ControllerState { last_emitted_percent: Some(p), ..st });
                Some(Effect::Spawn { cmd })
            }
        },
        Action::Relative { inc_cmd, dec_cmd } => {
            let prev = match st.last_raw_value {
                Some(v) => v,
                None => value,
            };
            store.set(id, ControllerState { last_raw_value: Some(value), ..st });
            if value > prev {
                Some(Effect::Spawn { cmd: inc_cmd.clone() })
            } else if value < prev {
                Some(Effect::Spawn { cmd: dec_cmd.clone() })
            } else {
                None
            }
        },
    }
}

/// Classifies a raw frame and dispatches the event it carries, if any.
pub fn handle_frame(frame: &[u8], table: &MappingTable, store: &mut StateStore) -> (r: Option<
    Effect,
>)
    ensures
        (effect_view(r), final(store)@) == frame_spec(table@, old(store)@, frame@),
{
    match classify(frame) {
        Some(event) => dispatch(event, table, store),
        None => None,
    }
}

} // verus!
