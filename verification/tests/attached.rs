use hyprmux::control::ErrorCode;
use hyprmux::attached::{
    drop_epoch_toggles, fail_epoch, forget_orphans, hold_reply, pin_recording_target, route, take_reply, AttachmentInfo,
    ForwardError, PendingControls, RecordCommand,
};
use hyprmux::capture_wait::{
    continue_ticking, evaluate, input_marked, mark_queued_input, register, start_ticking, Stage, UiCaptureWait, UiCaptureWaits, WaitAnswer, WaitEnd, WaitPane,
    WaitStatus,
};
use hyprmux::model::{Pane, PaneId};
use hyprmux::registry::Registry;

fn pane(id: PaneId, closing: bool) -> Pane {
    Pane {
        id,
        floating: false,
        fullscreen: false,
        opening: false,
        closing,
        awaits_input: false,
        has_unseen_output: false,
        bell: false,
        finished_unseen: false,
    }
}

fn attachment(epoch: u64, instance: Option<&str>, focused: Option<PaneId>, panes: Vec<Pane>) -> AttachmentInfo {
    AttachmentInfo { epoch, instance: instance.map(str::to_string), focused_pane: focused, panes }
}

#[test]
fn a_pane_in_a_background_session_is_answered_by_its_own_session() {
    let attachments = vec![attachment(4, Some("front"), None, Vec::new()), attachment(3, Some("back"), None, Vec::new())];
    assert_eq!(route(&attachments, 4, &Some("back".to_string()), Some(2)), Ok(3));
    assert_eq!(route(&attachments, 4, &Some("front".to_string()), Some(2)), Ok(4));
    assert_eq!(route(&attachments, 4, &Some("gone".to_string()), None), Err(ForwardError::SessionNotAttached));
    assert_eq!(route(&attachments, 4, &None, Some(7)), Err(ForwardError::PaneWithoutSession { pane: 7 }));
    assert_eq!(route(&attachments, 4, &None, None), Ok(4));
}

#[test]
fn a_stop_or_a_mark_run_inside_a_pane_names_that_pane() {
    assert_eq!(
        pin_recording_target(None, false, RecordCommand::Stop { id: None, target: None }, Some(5)),
        Ok(RecordCommand::Stop { id: None, target: Some(5) })
    );
    assert_eq!(
        pin_recording_target(None, false, RecordCommand::Mark { id: Some("r1".into()), target: None }, Some(5)),
        Ok(RecordCommand::Mark { id: Some("r1".into()), target: None })
    );
}

#[test]
fn a_scratch_pane_with_the_same_number_does_not_hide_the_session_pane() {
    let session = attachment(1, Some("s"), Some(2), vec![pane(2, false), pane(3, true)]);
    let start = |target| RecordCommand::Start { target, follow: false };
    assert_eq!(pin_recording_target(Some(&session), false, start(None), None), Ok(start(Some(2))));
    assert_eq!(pin_recording_target(Some(&session), true, start(None), None), Err(ForwardError::ScratchFocused));
    assert_eq!(pin_recording_target(Some(&session), false, start(Some(3)), None), Err(ForwardError::PaneNotFound { pane: 3 }));
    assert_eq!(pin_recording_target(None, false, start(Some(2)), None), Err(ForwardError::NotAttached));
    assert_eq!(
        pin_recording_target(Some(&session), false, RecordCommand::Start { target: None, follow: true }, None),
        Err(ForwardError::ForegroundNeedsSession)
    );
}

#[test]
fn a_record_request_goes_to_the_session_pinned_to_a_pane_and_its_answer_comes_back() {
    let mut pending = PendingControls { by_request: Registry::new(), next_request_id: u64::MAX };
    let first = hold_reply(&mut pending, 7);
    assert_eq!(first, u64::MAX);
    assert_eq!(pending.next_request_id, 1, "ids wrap past zero");
    let second = hold_reply(&mut pending, 8);
    assert!(!take_reply(&mut pending, 8, first), "an answer from another attachment is not this request's");
    assert!(take_reply(&mut pending, 7, first));
    assert!(!take_reply(&mut pending, 7, first));
    assert_eq!(fail_epoch(&mut pending, 8), [second]);
    assert!(pending.by_request.keys().is_empty());
}

#[test]
fn a_record_request_the_session_could_not_take_never_leaves_the_ui() {
    let mut toggles = vec![(1, 10), (2, 20), (1, 11)];
    assert!(drop_epoch_toggles(&mut toggles, 1));
    assert_eq!(toggles, [(2, 20)]);
    assert!(!drop_epoch_toggles(&mut toggles, 1));
}

fn wait(pane_id: PaneId, stage: Stage, reply: u64) -> UiCaptureWait {
    UiCaptureWait { epoch: 1, pane_id, local: false, generation: 4, started_ms: 0, timeout_ms: 1000, stage, reply }
}

fn wait_pane(id: PaneId, running: bool) -> WaitPane {
    WaitPane { id, local: false, generation: 4, closing: false, running }
}

#[test]
fn a_ui_send_wait_matches_only_output_after_the_server_marks_its_input() {
    let mut waits = UiCaptureWaits { waits: vec![wait(1, Stage::Marking { token: 9 }, 50)], next_token: 9, ticking: false };
    let panes = vec![wait_pane(1, true)];
    // Before the mark comes back the screen is not looked at, even when it would match.
    let answers = evaluate(&mut waits, None, 1, &panes, 10, &vec![WaitStatus::Ready]);
    assert!(answers.is_empty());
    assert!(!input_marked(&mut waits, 8, &panes));
    assert!(input_marked(&mut waits, 9, &panes));
    assert_eq!(waits.waits[0].stage, Stage::Watching);
    let answers = evaluate(&mut waits, None, 1, &panes, 20, &vec![WaitStatus::Ready]);
    assert_eq!(answers, [WaitAnswer { reply: 50, end: WaitEnd::Ready }]);
    assert!(waits.waits.is_empty());
}

#[test]
fn ui_send_waits_queued_behind_a_starting_pane_share_the_mark_on_its_first_write() {
    let mut waits = UiCaptureWaits {
        waits: vec![wait(1, Stage::Queued, 50), wait(1, Stage::Queued, 51), wait(2, Stage::Queued, 52)],
        next_token: 3,
        ticking: false,
    };
    let token = mark_queued_input(&mut waits, 1, 4, false).expect("a wait is queued on the pane");
    assert_eq!(waits.waits[0].stage, Stage::Marking { token });
    assert_eq!(waits.waits[1].stage, Stage::Marking { token });
    assert_eq!(waits.waits[2].stage, Stage::Queued);
}

#[test]
fn a_ui_capture_wait_times_out_with_the_screen_it_had() {
    let mut waits = UiCaptureWaits { waits: vec![wait(1, Stage::Watching, 50)], next_token: 0, ticking: true };
    let panes = vec![wait_pane(1, true)];
    let answers = evaluate(&mut waits, None, 1, &panes, 5000, &vec![WaitStatus::TimedOut]);
    assert_eq!(answers, [WaitAnswer { reply: 50, end: WaitEnd::TimedOut }]);
}

#[test]
fn a_ui_wait_ends_when_its_pane_exits() {
    let mut waits = UiCaptureWaits {
        waits: vec![wait(1, Stage::Watching, 50), wait(2, Stage::Watching, 51)],
        next_token: 0,
        ticking: true,
    };
    let panes = vec![wait_pane(1, false), wait_pane(2, true)];
    let answers = evaluate(&mut waits, Some((1, false)), 1, &panes, 10, &vec![WaitStatus::Pending, WaitStatus::Pending]);
    assert_eq!(answers, [WaitAnswer { reply: 50, end: WaitEnd::Exited }]);
    assert_eq!(waits.waits.len(), 1);
    assert_eq!(waits.waits[0].reply, 51);
}

#[test]
fn the_registry_keeps_one_entry_per_key() {
    let mut r: Registry<&str> = Registry::new();
    r.insert(3, "a");
    r.insert(5, "b");
    r.insert(3, "c");
    assert_eq!(r.get(3), Some(&"c"));
    assert_eq!(r.keys(), [3, 5]);
    assert_eq!(r.remove(3), Some("c"));
    assert_eq!(r.remove(3), None);
    assert!(!r.contains_key(3) && r.contains_key(5));
}

#[test]
fn replies_whose_attachment_is_gone_are_taken() {
    let mut pending = PendingControls { by_request: Registry::new(), next_request_id: 1 };
    let a = hold_reply(&mut pending, 3);
    let b = hold_reply(&mut pending, 4);
    let c = hold_reply(&mut pending, 3);
    let d = hold_reply(&mut pending, 5);
    let mut orphans = forget_orphans(&mut pending, &vec![4, 9]);
    orphans.sort();
    assert_eq!(orphans, [a, c, d]);
    assert_eq!(pending.by_request.keys(), [b]);
    assert!(forget_orphans(&mut pending, &vec![4]).is_empty());
}

#[test]
fn a_wait_starts_where_its_input_is() {
    let mut waits = UiCaptureWaits { waits: vec![], next_token: 4, ticking: false };
    assert_eq!(register(&mut waits, 1, 7, true, 2, 100, 5000, 11, None), Stage::Watching);
    assert_eq!(waits.next_token, 4);
    assert_eq!(register(&mut waits, 1, 7, true, 2, 100, 5000, 12, Some(true)), Stage::Queued);
    assert_eq!(register(&mut waits, 1, 7, true, 2, 100, 5000, 13, Some(false)), Stage::Marking { token: 6 });
    assert_eq!(waits.next_token, 6);
    assert_eq!(waits.waits.len(), 3);
    assert_eq!(waits.waits[2].reply, 13);

    assert!(start_ticking(&mut waits));
    assert!(!start_ticking(&mut waits), "already ticking");
    waits.waits.clear();
    assert!(!continue_ticking(&mut waits));
    assert!(!waits.ticking);
    assert!(!start_ticking(&mut waits), "nothing to wait on");
}

#[test]
fn refused_forwards_answer_with_a_code_and_a_text() {
    assert_eq!(ForwardError::PaneNotFound { pane: 3 }.message(), "pane 3 not found");
    assert_eq!(ForwardError::PaneNotFound { pane: 3 }.code(), Some(ErrorCode::PaneNotFound));
    assert_eq!(
        ForwardError::PaneWithoutSession { pane: 7 }.message(),
        "pane 7 does not say which session it runs in (a scratch or popup pane runs outside every session); name the session with --session <NAME>"
    );
    assert_eq!(ForwardError::PaneWithoutSession { pane: 7 }.code(), Some(ErrorCode::Unsupported));
    let retired = ForwardError::ExtensionCannotRecord { extension: "nav".to_string() };
    assert_eq!(
        retired.message(),
        "a session server cannot check whether extension `nav` is still active, so it does not record on an extension's behalf"
    );
    assert_eq!(retired.code(), None);
    assert_eq!(ForwardError::ForegroundNeedsSession.code(), Some(ErrorCode::InvalidArgument));
    assert_eq!(ForwardError::NotAttached.message(), "this rozi is not attached to a session");
}
