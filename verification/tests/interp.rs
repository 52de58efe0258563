use checklist_commander::document::{ChecklistDocument, Step};
use checklist_commander::interp::{Effect, Phase, Run};
use checklist_commander::packet::{CommandPacket, PACING_MS};
use checklist_commander::registry::RegistryError;

fn doc_of(steps: Vec<Step>) -> ChecklistDocument {
    ChecklistDocument {
        spacecraft_id: 3,
        group: "Launch".to_string(),
        name: "Prelaunch".to_string(),
        steps,
    }
}

#[test]
fn new_rejects_an_unknown_selector() {
    assert!(matches!(
        Run::new(doc_of(Vec::new()), 6),
        Err(RegistryError::UnknownSpacecraft)
    ));
}

#[test]
fn display_step_suspends_until_acknowledged() {
    let doc = doc_of(vec![Step::Display { text: "Confirm power".to_string() }]);
    let mut run = Run::new(doc, 3).unwrap();
    match run.advance() {
        Effect::RenderAndAwaitAck { text } => assert_eq!(text, "Confirm power"),
        _ => panic!("a kind 0 step must render and wait"),
    }
    assert_eq!(run.phase, Phase::AwaitingAck);
    run.acknowledge();
    assert_eq!(run.phase, Phase::AwaitingStep);
    assert!(matches!(run.advance(), Effect::Finished));
    assert_eq!(run.phase, Phase::Done);
}

#[test]
fn display_only_step_does_not_suspend() {
    let doc = doc_of(vec![Step::DisplayOnly { text: "Confirm power".to_string() }]);
    let mut run = Run::new(doc, 3).unwrap();
    match run.advance() {
        Effect::Render { text } => assert_eq!(text, "Confirm power"),
        _ => panic!("a kind 7 step must render without waiting"),
    }
    assert_eq!(run.phase, Phase::AwaitingStep);
    assert!(matches!(run.advance(), Effect::Finished));
}

#[test]
fn main_bus_switch_under_mercury_builds_the_exact_packet() {
    let doc = doc_of(vec![Step::SetSwitch {
        description: "Main bus switch".to_string(),
        set_id: 7,
        to_pos_id: 2,
    }]);
    // Selector 3 is Mercury, wire craft id 0.
    let mut run = Run::new(doc, 3).unwrap();
    match run.advance() {
        Effect::Dispatch { description, packet, pacing_ms } => {
            assert_eq!(description, "Main bus switch");
            assert_eq!(
                packet,
                CommandPacket { target_craft: 0, message_type: 0, id: 7, to_pos: 2 }
            );
            assert_eq!(pacing_ms, PACING_MS);
        },
        _ => panic!("an action step must dispatch a packet"),
    }
    assert_eq!(run.phase, Phase::Pacing);
    run.paced();
    assert!(matches!(run.advance(), Effect::Finished));
}

#[test]
fn malformed_step_gives_one_diagnostic_and_the_run_continues() {
    let doc = doc_of(vec![
        Step::Malformed,
        Step::DisplayOnly { text: "next".to_string() },
    ]);
    let mut run = Run::new(doc, 3).unwrap();
    let mut diagnostics = 0;
    let mut packets = 0;
    loop {
        match run.advance() {
            Effect::SkippedMalformed => diagnostics += 1,
            Effect::Dispatch { .. } => packets += 1,
            Effect::Render { .. } => {},
            Effect::Finished => break,
            _ => panic!("unexpected effect"),
        }
    }
    assert_eq!(diagnostics, 1);
    assert_eq!(packets, 0);
    assert_eq!(run.phase, Phase::Done);
}

#[test]
fn unsupported_kind_halts_without_dispatching_that_step_or_later_ones() {
    let doc = doc_of(vec![
        Step::SetSwitch { description: "before".to_string(), set_id: 1, to_pos_id: 1 },
        Step::Unsupported { kind: 99 },
        Step::SetSwitch { description: "after".to_string(), set_id: 2, to_pos_id: 2 },
    ]);
    let mut run = Run::new(doc, 3).unwrap();
    let mut packets = Vec::new();
    match run.advance() {
        Effect::Dispatch { packet, .. } => packets.push(packet),
        _ => panic!("the first step is an action"),
    }
    run.paced();
    match run.advance() {
        Effect::Abort { kind } => assert_eq!(kind, 99),
        _ => panic!("kind 99 must abort the run"),
    }
    assert_eq!(run.phase, Phase::UnsupportedStepError);
    // Only the packet of the step before the unsupported one was sent.
    assert_eq!(packets.len(), 1);
    assert_eq!(packets[0].id, 1);
}

#[test]
fn a_run_of_n_action_steps_sends_n_packets_in_document_order() {
    let steps = vec![
        Step::SetSwitch { description: "a".to_string(), set_id: 10, to_pos_id: 0 },
        Step::SetCircuitBreaker { description: "b".to_string(), set_id: 11, to_pos_id: 1 },
        Step::SetSelector { description: "c".to_string(), set_id: 12, to_pos_id: 2 },
        Step::SetHandle { description: "d".to_string(), set_id: 13, to_pos_id: 3 },
    ];
    let n = steps.len();
    let mut run = Run::new(doc_of(steps), 0).unwrap();
    let mut packets = Vec::new();
    loop {
        match run.advance() {
            Effect::Dispatch { packet, pacing_ms, .. } => {
                // Every dispatch is followed by at least the fixed pacing.
                assert!(pacing_ms >= PACING_MS);
                packets.push(packet);
                run.paced();
            },
            Effect::Finished => break,
            _ => panic!("only dispatches were expected"),
        }
    }
    assert_eq!(packets.len(), n);
    // Document order, against the wire craft id of selector 0.
    let expected = [
        CommandPacket { target_craft: 2, message_type: 0, id: 10, to_pos: 0 },
        CommandPacket { target_craft: 2, message_type: 2, id: 11, to_pos: 1 },
        CommandPacket { target_craft: 2, message_type: 3, id: 12, to_pos: 2 },
        CommandPacket { target_craft: 2, message_type: 4, id: 13, to_pos: 3 },
    ];
    assert_eq!(packets, expected);
}
