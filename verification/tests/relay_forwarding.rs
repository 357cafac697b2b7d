use socks5_core::relay::{RelayDirection, RelayEvent, RelayStep, teardown_complete};

#[test]
fn chunks_are_forwarded_unchanged_and_in_order() {
    let mut dir = RelayDirection::new();
    assert!(dir.running());

    match dir.on_event(RelayEvent::Data { bytes: vec![1, 2, 3] }) {
        RelayStep::Forward { bytes } => assert_eq!(bytes, vec![1, 2, 3]),
        other => panic!("expected Forward, got {:?}", other),
    }
    assert!(dir.running());

    match dir.on_event(RelayEvent::Data { bytes: vec![4] }) {
        RelayStep::Forward { bytes } => assert_eq!(bytes, vec![4]),
        other => panic!("expected Forward, got {:?}", other),
    }
    assert!(dir.running());
}

#[test]
fn empty_chunk_is_forwarded_as_is() {
    let mut dir = RelayDirection::new();
    match dir.on_event(RelayEvent::Data { bytes: vec![] }) {
        RelayStep::Forward { bytes } => assert_eq!(bytes, Vec::<u8>::new()),
        other => panic!("expected Forward, got {:?}", other),
    }
}

#[test]
fn end_of_stream_shuts_the_direction() {
    let mut dir = RelayDirection::new();
    let _ = dir.on_event(RelayEvent::Data { bytes: vec![9] });
    match dir.on_event(RelayEvent::SourceClosed) {
        RelayStep::Shut => {}
        other => panic!("expected Shut, got {:?}", other),
    }
    assert!(!dir.running());
}

#[test]
fn an_error_shuts_the_direction() {
    let mut dir = RelayDirection::new();
    match dir.on_event(RelayEvent::Failed) {
        RelayStep::Shut => {}
        other => panic!("expected Shut, got {:?}", other),
    }
    assert!(!dir.running());
}

#[test]
fn teardown_waits_for_both_directions() {
    let mut client_to_target = RelayDirection::new();
    let mut target_to_client = RelayDirection::new();
    assert!(!teardown_complete(&client_to_target, &target_to_client));

    // The client half-closes: its direction ends, the other keeps carrying.
    let _ = client_to_target.on_event(RelayEvent::SourceClosed);
    assert!(!teardown_complete(&client_to_target, &target_to_client));
    match target_to_client.on_event(RelayEvent::Data { bytes: vec![7, 7] }) {
        RelayStep::Forward { bytes } => assert_eq!(bytes, vec![7, 7]),
        other => panic!("expected Forward, got {:?}", other),
    }

    let _ = target_to_client.on_event(RelayEvent::SourceClosed);
    assert!(teardown_complete(&client_to_target, &target_to_client));
}
