use std::collections::HashMap;
use vstd::prelude::*;

verus! {

broadcast use vstd::std_specs::hash::group_hash_axioms;

/// What the engine remembers of one controller.
#[derive(Clone, Copy, Debug, PartialEq, Eq, Structural)]
pub struct ControllerState {
    /// The last raw value seen by a `Relative` mapping.
    pub last_raw_value: Option<u8>,
    /// The last percentage for which a `Linear` command was issued.
    pub last_emitted_percent: Option<u8>,
}

impl ControllerState {
    /// The state of a controller that nothing was remembered of yet.
    pub open spec fn fresh() -> ControllerState {
        ControllerState { last_raw_value: None, last_emitted_percent: None }
    }

    pub fn new() -> (r: ControllerState)
        ensures
            r == ControllerState::fresh(),
    {
        ControllerState { last_raw_value: None, last_emitted_percent: None }
    }
}

/// Per-controller state, keyed by controller id, created lazily.
pub struct StateStore {
    entries: HashMap<u8, ControllerState>,
}

impl View for StateStore {
    type V = Map<u8, ControllerState>;

    closed spec fn view(&self) -> Map<u8, ControllerState> {
        self.entries@
    }
}

impl StateStore {
    /// An empty store: no controller has been seen.
    pub fn new() -> (r: StateStore)
        ensures
            r@ == Map::<u8, ControllerState>::empty(),
    {
        StateStore { entries: HashMap::new() }
    }

    /// The state of a controller: the stored one, or a fresh one if none is stored.
    pub open spec fn state_of(&self, id: u8) -> ControllerState {
        if self@.contains_key(id) {
            self@[id]
        } else {
            ControllerState::fresh()
        }
    }

    /// The stored state of controller `id`, if any.
    pub fn get(&self, id: u8) -> (r: Option<ControllerState>)
        ensures
            r == (if self@.contains_key(id) {
                Some(self@[id])
            } else {
                None
            }),
    {
        match self.entries.get(&id) {
            Some(st) => Some(*st),
            None => None,
        }
    }

    /// Whether a state entry exists for controller `id`.
    pub fn contains(&self, id: u8) -> (r: bool)
        ensures
            r == self@.contains_key(id),
    {
        self.entries.contains_key(&id)
    }

    /// Stores the state of controller `id`.
    pub fn set(&mut self, id: u8, st: ControllerState)
        ensures
            final(self)@ == old(self)@.insert(id, st),
    {
        self.entries.insert(id, st);
    }

    /// The number of controllers that have a state entry.
    pub fn len(&self) -> (r: usize)
        ensures
            r == self@.len(),
    {
        self.entries.len()
    }
}

} // verus!
