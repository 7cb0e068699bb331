use vstd::prelude::*;

use crate::action::{decimal, fill, percent_spec, Action, EffectModel};
use crate::engine::{dispatch_spec, frame_spec, state_in};
use crate::frame::{classify_spec, MidiEvent, CONTROL_CHANGE, NOTE_ON};
use crate::state::ControllerState;

verus! {

/// The effects of dispatching `evs` in order from store `s`, and the store after.
pub open spec fn run(m: Map<u8, Action>, s: Map<u8, ControllerState>, evs: Seq<MidiEvent>) -> (
    Seq<Option<EffectModel>>,
    Map<u8, ControllerState>,
)
    decreases evs.len(),
{
    if evs.len() == 0 {
        (Seq::empty(), s)
    } else {
        let (effs, s1) = run(m, s, evs.drop_last());
        let (eff, s2) = dispatch_spec(m, s1, evs.last());
        (effs.push(eff), s2)
    }
}

/// A frame shorter than three bytes, or whose status is neither Note-On nor
/// Control-Change, yields no event, no effect and no change of state.
pub proof fn lemma_malformed_frame_ignored(
    m: Map<u8, Action>,
    s: Map<u8, ControllerState>,
    f: Seq<u8>,
)
    requires
        f.len() < 3 || (f[0] & 0xF0u8 != NOTE_ON && f[0] & 0xF0u8 != CONTROL_CHANGE),
    ensures
        classify_spec(f) is None,
        frame_spec(m, s, f) == (None::<EffectModel>, s),
{
}

/// A Note-On of velocity zero yields no event, no effect and no change of
/// state, whatever the mapping.
pub proof fn lemma_note_on_zero_ignored(
    m: Map<u8, Action>,
    s: Map<u8, ControllerState>,
    f: Seq<u8>,
)
    requires
        f.len() >= 3,
        f[0] & 0xF0u8 == NOTE_ON,
        f[2] == 0,
    ensures
        classify_spec(f) is None,
        frame_spec(m, s, f) == (None::<EffectModel>, s),
{
}

/// Under a `Linear` mapping, a second event with the same rounded percentage
/// as the first fires nothing and changes nothing, one with another
/// percentage fires the template again; and the first fires whenever its
/// percentage is not the one last emitted.
pub proof fn lemma_linear_debounce(
    m: Map<u8, Action>,
    s: Map<u8, ControllerState>,
    e1: MidiEvent,
    e2: MidiEvent,
)
    requires
        m.contains_key(e1.id),
        m[e1.id] is Linear,
        e2.id == e1.id,
    ensures
        ({
            let t = m[e1.id]->Linear_template@;
            let pct1 = percent_spec(e1.value);
            let pct2 = percent_spec(e2.value);
            let (r1, s1) = dispatch_spec(m, s, e1);
            let (r2, s2) = dispatch_spec(m, s1, e2);
            &&& state_in(s, e1.id).last_emitted_percent != Some(pct1) ==> r1 == Some(
                EffectModel::Spawn(fill(t, decimal(pct1 as nat))),
            )
            &&& state_in(s1, e1.id).last_emitted_percent == Some(pct1)
            &&& pct1 == pct2 ==> r2 is None && s2 == s1
            &&& pct1 != pct2 ==> r2 == Some(EffectModel::Spawn(fill(t, decimal(pct2 as nat))))
        }),
{
}

/// Under a `Relative` mapping, from a controller with no state: the first
/// event fires nothing, and each later one fires `inc_cmd` if its value rose
/// from the previous event's, `dec_cmd` if it fell, and nothing if equal.
pub proof fn lemma_relative_direction(
    m: Map<u8, Action>,
    s: Map<u8, ControllerState>,
    id: u8,
    evs: Seq<MidiEvent>,
)
    requires
        m.contains_key(id),
        m[id] is Relative,
        !s.contains_key(id),
        forall|i: int| 0 <= i < evs.len() ==> (#[trigger] evs[i]).id == id,
    ensures
        ({
            let inc = m[id]->Relative_inc_cmd@;
            let dec = m[id]->Relative_dec_cmd@;
            let (effs, s2) = run(m, s, evs);
            &&& effs.len() == evs.len()
            &&& evs.len() > 0 ==> effs[0] is None
            &&& evs.len() > 0 ==> state_in(s2, id).last_raw_value == Some(evs.last().value)
            &&& forall|i: int|
                0 < i < evs.len() ==> #[trigger] effs[i] == if evs[i].value > evs[i - 1].value {
                    Some(EffectModel::Spawn(inc))
                } else if evs[i].value < evs[i - 1].value {
                    Some(EffectModel::Spawn(dec))
                } else {
                    None
                }
        }),
    decreases evs.len(),
{
    if evs.len() > 0 {
        let pre = evs.drop_last();
        assert forall|i: int| 0 <= i < pre.len() implies (#[trigger] pre[i]).id == id by {
            assert(pre[i] == evs[i]);
        }
        lemma_relative_direction(m, s, id, pre);
        let (effs0, s1) = run(m, s, pre);
        let (effs, s2) = run(m, s, evs);
        if pre.len() == 0 {
            assert(s1 == s);
        }
        assert forall|i: int| 0 < i < evs.len() - 1 implies #[trigger] effs[i] == effs0[i] by {}
        assert forall|i: int| 0 <= i < evs.len() - 1 implies #[trigger] evs[i] == pre[i] by {}
    }
}

/// Under `Relative`, a strictly increasing run of values from a controller
/// with no state fires `inc_cmd` once per step and nothing on the first event.
pub proof fn lemma_relative_increasing(
    m: Map<u8, Action>,
    s: Map<u8, ControllerState>,
    id: u8,
    evs: Seq<MidiEvent>,
)
    requires
        m.contains_key(id),
        m[id] is Relative,
        !s.contains_key(id),
        forall|i: int| 0 <= i < evs.len() ==> (#[trigger] evs[i]).id == id,
        forall|i: int| 0 < i < evs.len() ==> evs[i - 1].value < (#[trigger] evs[i]).value,
    ensures
        ({
            let (effs, _) = run(m, s, evs);
            &&& evs.len() > 0 ==> effs[0] is None
            &&& forall|i: int|
                0 < i < evs.len() ==> #[trigger] effs[i] == Some(
                    EffectModel::Spawn(m[id]->Relative_inc_cmd@),
                )
        }),
{
    lemma_relative_direction(m, s, id, evs);
}

/// Under `Relative`, a strictly decreasing run of values from a controller
/// with no state fires `dec_cmd` once per step and nothing on the first event.
pub proof fn lemma_relative_decreasing(
    m: Map<u8, Action>,
    s: Map<u8, ControllerState>,
    id: u8,
    evs: Seq<MidiEvent>,
)
    requires
        m.contains_key(id),
        m[id] is Relative,
        !s.contains_key(id),
        forall|i: int| 0 <= i < evs.len() ==> (#[trigger] evs[i]).id == id,
        forall|i: int| 0 < i < evs.len() ==> evs[i - 1].value > (#[trigger] evs[i]).value,
    ensures
        ({
            let (effs, _) = run(m, s, evs);
            &&& evs.len() > 0 ==> effs[0] is None
            &&& forall|i: int|
                0 < i < evs.len() ==> #[trigger] effs[i] == Some(
                    EffectModel::Spawn(m[id]->Relative_dec_cmd@),
                )
        }),
{
    lemma_relative_direction(m, s, id, evs);
}

/// Under `Relative`, a run of equal values fires nothing at all.
pub proof fn lemma_relative_plateau(
    m: Map<u8, Action>,
    s: Map<u8, ControllerState>,
    id: u8,
    evs: Seq<MidiEvent>,
)
    requires
        m.contains_key(id),
        m[id] is Relative,
        !s.contains_key(id),
        forall|i: int| 0 <= i < evs.len() ==> (#[trigger] evs[i]).id == id,
        forall|i: int| 0 < i < evs.len() ==> evs[i - 1].value == (#[trigger] evs[i]).value,
    ensures
        ({
            let (effs, _) = run(m, s, evs);
            forall|i: int| 0 <= i < evs.len() ==> #[trigger] effs[i] is None
        }),
{
    lemma_relative_direction(m, s, id, evs);
}

/// Under a `Key` mapping, every frame that classifies as an event of that
/// controller fires exactly one key tap of the code, and changes no state.
pub proof fn lemma_key_always_taps(m: Map<u8, Action>, s: Map<u8, ControllerState>, f: Seq<u8>)
    requires
        classify_spec(f) is Some,
        m.contains_key(classify_spec(f)->0.id),
        m[classify_spec(f)->0.id] is Key,
    ensures
        frame_spec(m, s, f) == (
            Some(EffectModel::KeyTap(m[classify_spec(f)->0.id]->Key_code@)),
            s,
        ),
{
}

/// An event of an unmapped controller fires nothing and leaves the store as
/// it was, so no state entry is created for it.
pub proof fn lemma_unmapped_ignored(m: Map<u8, Action>, s: Map<u8, ControllerState>, e: MidiEvent)
    requires
        !m.contains_key(e.id),
    ensures
        dispatch_spec(m, s, e) == (None::<EffectModel>, s),
        !s.contains_key(e.id) ==> !dispatch_spec(m, s, e).1.contains_key(e.id),
{
}

} // verus!
