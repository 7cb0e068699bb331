use midi_actions::{
    classify, dispatch, handle_frame, Action, ControllerState, Effect, EventKind, MappingTable,
    MidiEvent, StateStore,
};

fn table(entries: Vec<(&str, Action)>) -> MappingTable {
    MappingTable::from_entries(
        entries
            .into_iter()
            .map(|(k, a)| (k.to_string(), a))
            .collect(),
    )
}

fn linear(t: &str) -> Action {
    Action::Linear { template: t.to_string() }
}

fn relative(inc: &str, dec: &str) -> Action {
    Action::Relative { inc_cmd: inc.to_string(), dec_cmd: dec.to_string() }
}

fn spawned(e: Option<Effect>) -> Option<String> {
    match e {
        Some(Effect::Spawn { cmd }) => Some(cmd),
        _ => None,
    }
}

fn cc(id: u8, value: u8) -> [u8; 3] {
    [0xB0, id, value]
}

#[test]
fn linear_scenario_fires_three_distinct_commands() {
    let t = table(vec![("20", linear("set-vol {}%"))]);
    let mut s = StateStore::new();
    let a = spawned(handle_frame(&cc(20, 64), &t, &mut s));
    let b = spawned(handle_frame(&cc(20, 65), &t, &mut s));
    let c = spawned(handle_frame(&cc(20, 64), &t, &mut s));
    assert_eq!(a.as_deref(), Some("set-vol 50%"));
    assert_eq!(b.as_deref(), Some("set-vol 51%"));
    assert_eq!(c.as_deref(), Some("set-vol 50%"));
}

#[test]
fn relative_scenario_follows_direction() {
    let t = table(vec![("10", relative("vol-up", "vol-down"))]);
    let mut s = StateStore::new();
    let r: Vec<Option<String>> = [64u8, 70, 70, 60]
        .iter()
        .map(|v| spawned(handle_frame(&cc(10, *v), &t, &mut s)))
        .collect();
    assert_eq!(
        r,
        vec![None, Some("vol-up".to_string()), None, Some("vol-down".to_string())]
    );
}

#[test]
fn malformed_frames_are_ignored() {
    let t = table(vec![("1", Action::Command { cmd: "x".to_string() })]);
    let mut s = StateStore::new();
    for f in [vec![], vec![0xB0], vec![0xB0, 1], vec![0x80, 1, 64], vec![0xE0, 1, 64], vec![0x01, 1, 1]] {
        assert_eq!(classify(&f), None);
        assert!(handle_frame(&f, &t, &mut s).is_none());
    }
    assert_eq!(s.len(), 0);
}

#[test]
fn channel_bits_do_not_matter() {
    assert_eq!(
        classify(&[0x9F, 5, 7]),
        Some(MidiEvent { kind: EventKind::NoteOn, id: 5, value: 7 })
    );
    assert_eq!(
        classify(&[0xB3, 5, 0, 99]),
        Some(MidiEvent { kind: EventKind::ControlChange, id: 5, value: 0 })
    );
}

#[test]
fn note_on_zero_velocity_does_nothing() {
    let t = table(vec![
        ("1", Action::Key { code: "KEY_F13".to_string() }),
        ("2", linear("v {}")),
        ("3", relative("up", "down")),
    ]);
    let mut s = StateStore::new();
    for id in 1u8..=3 {
        assert_eq!(classify(&[0x90, id, 0]), None);
        assert!(handle_frame(&[0x90, id, 0], &t, &mut s).is_none());
    }
    assert_eq!(s.len(), 0);
}

#[test]
fn linear_same_percent_fires_once() {
    let t = table(vec![("7", linear("vol {}"))]);
    let mut s = StateStore::new();
    // 64 and 64 give 50 both times; 0 gives 0.
    assert_eq!(spawned(handle_frame(&cc(7, 64), &t, &mut s)).as_deref(), Some("vol 50"));
    assert!(handle_frame(&cc(7, 64), &t, &mut s).is_none());
    assert_eq!(spawned(handle_frame(&cc(7, 0), &t, &mut s)).as_deref(), Some("vol 0"));
    assert_eq!(
        s.get(7),
        Some(ControllerState { last_raw_value: None, last_emitted_percent: Some(0) })
    );
}

#[test]
fn linear_rounds_to_nearest() {
    let t = table(vec![("7", linear("{}"))]);
    let mut s = StateStore::new();
    assert_eq!(spawned(handle_frame(&cc(7, 1), &t, &mut s)).as_deref(), Some("1"));
    assert_eq!(spawned(handle_frame(&cc(7, 127), &t, &mut s)).as_deref(), Some("100"));
    assert_eq!(spawned(handle_frame(&cc(7, 126), &t, &mut s)).as_deref(), Some("99"));
}

#[test]
fn relative_runs() {
    let t = table(vec![("4", relative("up", "down"))]);
    let mut s = StateStore::new();
    let up: Vec<Option<String>> =
        [1u8, 2, 3, 4].iter().map(|v| spawned(handle_frame(&cc(4, *v), &t, &mut s))).collect();
    assert_eq!(up, vec![None, Some("up".into()), Some("up".into()), Some("up".into())]);
    let down: Vec<Option<String>> =
        [3u8, 2, 1].iter().map(|v| spawned(handle_frame(&cc(4, *v), &t, &mut s))).collect();
    assert_eq!(down, vec![Some("down".into()), Some("down".into()), Some("down".into())]);
    let flat: Vec<Option<String>> =
        [1u8, 1, 1].iter().map(|v| spawned(handle_frame(&cc(4, *v), &t, &mut s))).collect();
    assert_eq!(flat, vec![None, None, None]);
}

#[test]
fn relative_first_event_fires_nothing() {
    let t = table(vec![("4", relative("up", "down"))]);
    let mut s = StateStore::new();
    assert!(handle_frame(&cc(4, 127), &t, &mut s).is_none());
    assert_eq!(s.get(4).unwrap().last_raw_value, Some(127));
}

#[test]
fn key_taps_on_every_event() {
    let t = table(vec![("36", Action::Key { code: "KEY_F13".to_string() })]);
    let mut s = StateStore::new();
    for f in [[0x90u8, 36, 100], [0x90, 36, 100], [0xB0, 36, 0], [0xB0, 36, 0]] {
        match handle_frame(&f, &t, &mut s) {
            Some(Effect::KeyTap { code }) => assert_eq!(code, "KEY_F13"),
            other => panic!("expected a key tap, got {:?}", other),
        }
    }
    assert_eq!(s.len(), 0);
}

#[test]
fn command_fires_as_is() {
    let t = table(vec![("9", Action::Command { cmd: "echo {}".to_string() })]);
    let mut s = StateStore::new();
    let ev = MidiEvent { kind: EventKind::NoteOn, id: 9, value: 1 };
    assert_eq!(spawned(dispatch(ev, &t, &mut s)).as_deref(), Some("echo {}"));
    assert_eq!(spawned(dispatch(ev, &t, &mut s)).as_deref(), Some("echo {}"));
}

#[test]
fn unmapped_controller_leaves_no_state() {
    let t = table(vec![("10", relative("up", "down"))]);
    let mut s = StateStore::new();
    assert!(handle_frame(&cc(11, 5), &t, &mut s).is_none());
    assert!(handle_frame(&[0x90, 11, 5], &t, &mut s).is_none());
    assert!(!s.contains(11));
    assert_eq!(s.len(), 0);
}

#[test]
fn controller_ids_share_no_state() {
    let t = table(vec![("1", relative("up1", "down1")), ("2", relative("up2", "down2"))]);
    let mut s = StateStore::new();
    assert!(handle_frame(&cc(1, 10), &t, &mut s).is_none());
    assert!(handle_frame(&cc(2, 50), &t, &mut s).is_none());
    assert_eq!(spawned(handle_frame(&cc(1, 20), &t, &mut s)).as_deref(), Some("up1"));
    assert_eq!(spawned(handle_frame(&cc(2, 40), &t, &mut s)).as_deref(), Some("down2"));
}
