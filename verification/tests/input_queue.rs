use hyprmux::input_queue::{deliver_control_input, take_queued, Delivery, InputKey, PendingInput};

fn key(pane: u64) -> InputKey {
    InputKey { local: false, pane, generation: 1 }
}

#[test]
fn input_to_a_running_pane_is_written_at_once() {
    let mut pending = PendingInput { queues: vec![] };
    assert_eq!(
        deliver_control_input(&mut pending, key(3), false, b"ls\r".to_vec(), Some(9)),
        Delivery::Write { bytes: b"ls\r".to_vec(), mark: Some(9) }
    );
    assert!(pending.queues.is_empty());
}

#[test]
fn input_to_a_starting_pane_waits_in_order() {
    let mut pending = PendingInput { queues: vec![] };
    assert_eq!(deliver_control_input(&mut pending, key(3), true, b"cd /tmp\r".to_vec(), None), Delivery::Queued);
    assert_eq!(deliver_control_input(&mut pending, key(4), true, b"x".to_vec(), None), Delivery::Queued);
    assert_eq!(deliver_control_input(&mut pending, key(3), true, b"ls\r".to_vec(), Some(2)), Delivery::Queued);
    assert_eq!(take_queued(&mut pending, key(3)), Some(b"cd /tmp\rls\r".to_vec()));
    assert_eq!(take_queued(&mut pending, key(3)), None);
    assert_eq!(take_queued(&mut pending, InputKey { local: true, pane: 4, generation: 1 }), None, "another namespace");
    assert_eq!(take_queued(&mut pending, key(4)), Some(b"x".to_vec()));
    assert!(pending.queues.is_empty());
}
