use hyprmux::spawn_reply::{hold_spawn_reply, resolve_spawn_reply, SpawnAnswer, SpawnReplies};

#[test]
fn a_pane_without_a_generation_is_answered_at_once() {
    let mut replies = SpawnReplies::new();
    assert_eq!(
        hold_spawn_reply(&mut replies, 1, true, 5, None, true),
        Some(SpawnAnswer::Accepted { pane: 5, pty_ready: false })
    );
    assert_eq!(
        hold_spawn_reply(&mut replies, 1, true, 5, Some(2), false),
        Some(SpawnAnswer::Accepted { pane: 5, pty_ready: false })
    );
    assert!(replies.held.is_empty());
}

#[test]
fn a_held_reply_is_answered_once_with_the_real_pty_state() {
    let mut replies = SpawnReplies::new();
    assert_eq!(hold_spawn_reply(&mut replies, 3, false, 8, Some(1), true), None);
    assert_eq!(resolve_spawn_reply(&mut replies, 3, 8, false, 2, true, None), None, "another generation");
    assert_eq!(resolve_spawn_reply(&mut replies, 4, 8, false, 1, true, None), None, "another runtime epoch");
    assert_eq!(
        resolve_spawn_reply(&mut replies, 3, 8, false, 1, true, None),
        Some(SpawnAnswer::Accepted { pane: 8, pty_ready: true })
    );
    assert_eq!(resolve_spawn_reply(&mut replies, 3, 8, false, 1, false, None), None, "the deadline finds nothing");
}

#[test]
fn a_failed_spawn_answers_with_its_error() {
    let mut replies = SpawnReplies::new();
    assert_eq!(hold_spawn_reply(&mut replies, 0, true, 2, Some(7), true), None);
    assert_eq!(hold_spawn_reply(&mut replies, 0, true, 2, Some(7), true), None);
    assert_eq!(replies.held.len(), 1);
    assert_eq!(
        resolve_spawn_reply(&mut replies, 0, 2, true, 7, false, Some("no such program")),
        Some(SpawnAnswer::Failed("no such program".to_string()))
    );
    assert!(replies.held.is_empty());
}

#[test]
fn a_failed_spawn_answers_the_held_new_pane_reply_with_an_error() {
    let mut replies = SpawnReplies::new();
    assert_eq!(hold_spawn_reply(&mut replies, 4, false, 3, Some(1), true), None);
    let answer = resolve_spawn_reply(&mut replies, 4, 3, false, 1, false, Some("no such file"));
    assert_eq!(answer, Some(SpawnAnswer::Failed("no such file".to_string())));
}
