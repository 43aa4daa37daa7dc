use mprocs::app::handle_event;
use mprocs::event::{AppEvent, CopyMove, Effect, LoopAction};
use mprocs::proc::ProcState;
use mprocs::remote::{decode_event, encode_event, handle_remote};
use mprocs::state::State;

#[test]
fn unit_commands_round_trip() {
    let cases = vec![
        AppEvent::QuitOrAsk,
        AppEvent::Quit,
        AppEvent::ForceQuit,
        AppEvent::ToggleFocus,
        AppEvent::NextProc,
        AppEvent::PrevProc,
        AppEvent::StartProc,
        AppEvent::TermProc,
        AppEvent::KillProc,
        AppEvent::RestartProc,
        AppEvent::CopyModeEnter,
        AppEvent::CopyModeCopy,
    ];
    for e in cases {
        let enc = encode_event(&e).unwrap();
        let dec = decode_event(&enc).unwrap();
        assert_eq!(dec, e, "round trip of {}", enc);
    }
}

#[test]
fn field_commands_round_trip() {
    let cases = vec![
        AppEvent::AddProc { cmd: "echo hi".to_string() },
        AppEvent::RemoveProc { id: 12 },
        AppEvent::SelectProc { index: 0 },
        AppEvent::ScrollUpLines { n: 40 },
        AppEvent::ScrollDownLines { n: 3 },
        AppEvent::CopyModeMove { dir: CopyMove::Left },
    ];
    for e in cases {
        let enc = encode_event(&e).unwrap();
        let dec = decode_event(&enc).unwrap();
        assert_eq!(dec, e, "round trip of {}", enc);
    }
}

#[test]
fn canonical_forms_are_stable() {
    assert_eq!(
        encode_event(&AppEvent::AddProc { cmd: "echo hi".to_string() }).unwrap(),
        "{\"AddProc\":{\"cmd\":\"echo hi\"}}"
    );
    assert_eq!(
        encode_event(&AppEvent::RemoveProc { id: 4 }).unwrap(),
        "{\"RemoveProc\":{\"id\":4}}"
    );
    assert_eq!(encode_event(&AppEvent::NextProc).unwrap(), "NextProc");
}

#[test]
fn surrounding_whitespace_is_accepted() {
    let dec = decode_event("  \n NextProc \r\n ").unwrap();
    assert_eq!(dec, AppEvent::NextProc);
}

#[test]
fn malformed_payloads_decode_to_nothing() {
    assert_eq!(decode_event(""), None);
    assert_eq!(decode_event("NoSuchCommand"), None);
    assert_eq!(decode_event("{\"AddProc\":{\"cmd\":\"unterminated}}"), None);
    assert_eq!(decode_event("{\"RemoveProc\":{\"id\":-3}}"), None);
    assert_eq!(decode_event("{\"RemoveProc\":{\"id\":07}}"), None);
    assert_eq!(decode_event("{\"SelectProc\":{\"index\":999999999999999999999999}}"), None);
}

#[test]
fn batches_and_key_presses_do_not_travel() {
    assert!(encode_event(&AppEvent::Batch { cmds: vec![] }).is_none());
}

#[test]
fn remote_add_proc_scenario() {
    // a remote client sends one encoded add command and disconnects
    let mut s = State::new();
    let payload = "{\"AddProc\":{\"cmd\":\"echo hi\"}}";
    let (action, effects) = handle_remote(&mut s, payload);
    assert_eq!(action, LoopAction::Render);
    assert_eq!(effects, vec![Effect::Spawn { id: 0 }]);
    assert_eq!(s.procs.len(), 1);
    assert_eq!(s.procs[0].name, "echo hi");
    assert!(matches!(s.procs[0].state, ProcState::NotRunning));
}

#[test]
fn remote_equals_local() {
    // the same command issued remotely and locally mutates the state alike
    let mut remote_state = State::new();
    handle_remote(&mut remote_state, "{\"AddProc\":{\"cmd\":\"echo hi\"}}");
    let mut local_state = State::new();
    handle_event(&mut local_state, &AppEvent::AddProc { cmd: "echo hi".to_string() });
    assert_eq!(remote_state.procs.len(), local_state.procs.len());
    assert_eq!(remote_state.procs[0].name, local_state.procs[0].name);
    assert_eq!(remote_state.next_id, local_state.next_id);
}

#[test]
fn malformed_remote_payload_changes_nothing() {
    let mut s = State::new();
    let (action, effects) = handle_remote(&mut s, "garbage !!");
    assert_eq!(action, LoopAction::Skip);
    assert!(effects.is_empty());
    assert_eq!(s.procs.len(), 0);
}
