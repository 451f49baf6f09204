use hyprmux::confirm::{
    arm, clear_pending, close_focused_pane_with_confirmation, confirm_second_press, confirm_toast_shown, detached_session, expired,
    keepable_temporary_count, leave_step, LeaveStep,
    kill_workspace_with_confirmation, session_action_gate, shutdown_on_exit, ArmedDestructive, Confirmations,
    KillWorkspaceStep, PendingDestructive, PressResult, SessionActionGate, SessionDisposition, CONFIRM_WINDOW_MS,
};
use hyprmux::model::{Event, GeometryAnimation, LayoutKind, Pane, PaneId, Session, State, Workspace};
use hyprmux::tiling::{append_tiled_window, tiled_ids};

fn pane(id: PaneId) -> Pane {
    Pane {
        id,
        floating: false,
        fullscreen: false,
        opening: false,
        closing: false,
        awaits_input: false,
        has_unseen_output: false,
        bell: false,
        finished_unseen: false,
    }
}

fn state() -> State {
    let mut workspaces = Vec::new();
    for index in 0..9 {
        workspaces.push(Workspace::new(index));
    }
    State {
        session: Session { workspaces, active_workspace: 0, focused_pane: None },
        scratch: Workspace::new(9),
        scratch_visible: false,
        window_focused: true,
        animation: GeometryAnimation::Immediate,
        events: Vec::new(),
    }
}

#[test]
fn the_leave_prompt_counts_retained_live_temporary_sessions() {
    // The session on screen is named; a used temporary session is parked in the background.
    let count = keepable_temporary_count(SessionDisposition::Keep, &vec![SessionDisposition::AskBeforeClosing]);
    assert_eq!(count, 1);
}

#[test]
fn leaving_decides_per_session() {
    assert!(!shutdown_on_exit(SessionDisposition::Keep, true));
    assert!(shutdown_on_exit(SessionDisposition::Discard, false));
    assert!(shutdown_on_exit(SessionDisposition::AskBeforeClosing, true));
    assert!(!shutdown_on_exit(SessionDisposition::AskBeforeClosing, false));
}

#[test]
fn matching_second_press_within_window_consumes_confirmation() {
    let mut pending = None;
    assert!(!confirm_second_press(&mut pending, PendingDestructive::NewTemporarySession, 1_000).confirmed);
    assert_eq!(pending.map(|p| p.action), Some(PendingDestructive::NewTemporarySession));
    assert!(confirm_second_press(&mut pending, PendingDestructive::NewTemporarySession, 2_000).confirmed);
    assert!(pending.is_none());
}

#[test]
fn expired_confirmation_is_rearmed() {
    let mut pending = None;
    confirm_second_press(&mut pending, PendingDestructive::NewTemporarySession, 1_000);
    // Ten seconds later the arming is long past its window.
    assert!(!confirm_second_press(&mut pending, PendingDestructive::NewTemporarySession, 11_000).confirmed);
    let armed = pending.expect("expired press rearmed");
    assert_eq!(armed.action, PendingDestructive::NewTemporarySession);
    assert_eq!(armed.armed_at_ms, 11_000);
}

#[test]
fn mismatched_confirmation_is_replaced() {
    let mut pending = Some(ArmedDestructive { action: PendingDestructive::KillSession, armed_at_ms: 1_000, toast_id: None });
    assert!(!confirm_second_press(&mut pending, PendingDestructive::NewTemporarySession, 1_500).confirmed);
    assert_eq!(pending.map(|p| p.action), Some(PendingDestructive::NewTemporarySession));
}

#[test]
fn the_window_is_inclusive() {
    let mut pending = None;
    confirm_second_press(&mut pending, PendingDestructive::KillSession, 0);
    assert!(confirm_second_press(&mut pending, PendingDestructive::KillSession, CONFIRM_WINDOW_MS).confirmed);
}

#[test]
fn killing_a_scrollable_workspace_resolves_focus_once_after_batch_teardown() {
    let mut s = state();
    {
        let workspace = &mut s.session.workspaces[0];
        workspace.layout_kind = LayoutKind::Scrollable;
        // Storage order differs from the strip order.
        for id in [20, 10, 30] {
            workspace.panes.push(pane(id));
        }
        workspace.tile_tree = Some(vec![10, 30, 20]);
        workspace.focused_pane = Some(30);
        workspace.scrollable_anchor = Some(30);
    }
    s.session.focused_pane = Some(30);
    s.session.workspaces[1].panes.push(pane(90));
    append_tiled_window(&mut s.session.workspaces[1], 90);

    let mut pending = None;
    let step = kill_workspace_with_confirmation(&mut s, &mut pending, false, 0, None).0;
    match step {
        KillWorkspaceStep::Killed { panes } => assert_eq!(panes, [20, 10, 30]),
        other => panic!("not killed: {other:?}"),
    }
    let workspace = &s.session.workspaces[0];
    assert_eq!(s.session.focused_pane, None);
    assert!(workspace.panes.iter().all(|p| p.closing));
    assert!(tiled_ids(workspace).is_empty());
    assert_eq!(workspace.scrollable_anchor, None);
    assert!(!s.events.iter().any(|e| matches!(e, Event::FocusChanged { .. })), "no transient focus events");

    let inactive = &s.session.workspaces[1];
    assert!(inactive.panes.iter().any(|p| p.id == 90 && !p.closing));
    assert_eq!(tiled_ids(inactive), [90]);
}

#[test]
fn killing_a_workspace_takes_a_second_press() {
    let mut s = state();
    s.session.workspaces[0].panes.push(pane(1));
    s.session.workspaces[0].panes.push(pane(2));
    let mut pending = None;
    match kill_workspace_with_confirmation(&mut s, &mut pending, true, 100, None).0 {
        KillWorkspaceStep::Armed { count, workspace } => {
            assert_eq!(count, 2);
            assert_eq!(workspace, 1);
        },
        other => panic!("not armed: {other:?}"),
    }
    assert!(s.session.workspaces[0].panes.iter().all(|p| !p.closing));
    assert!(matches!(
        kill_workspace_with_confirmation(&mut s, &mut pending, true, 200, None).0,
        KillWorkspaceStep::Killed { .. }
    ));
    assert!(pending.is_none());
}

#[test]
fn killing_an_empty_workspace_says_so() {
    let mut s = state();
    let mut pending = None;
    assert!(matches!(
        kill_workspace_with_confirmation(&mut s, &mut pending, true, 0, None).0,
        KillWorkspaceStep::AlreadyEmpty
    ));
    assert!(pending.is_none());
}

#[test]
fn session_actions_need_a_session_and_control() {
    let mut pending = None;
    assert_eq!(
        session_action_gate(&mut pending, PendingDestructive::KillSession, false, true, true, 0).0,
        SessionActionGate::NotAttached
    );
    assert_eq!(
        session_action_gate(&mut pending, PendingDestructive::KillSession, true, false, true, 0).0,
        SessionActionGate::NudgeFollower
    );
    assert_eq!(
        session_action_gate(&mut pending, PendingDestructive::RestartSession, true, true, true, 0).0,
        SessionActionGate::Armed
    );
    assert_eq!(
        session_action_gate(&mut pending, PendingDestructive::RestartSession, true, true, true, 10).0,
        SessionActionGate::Proceed
    );
    assert!(pending.is_none());
}

#[test]
fn closing_a_running_pane_takes_a_second_press() {
    let mut s = state();
    s.session.workspaces[0].panes.push(pane(4));
    s.session.focused_pane = Some(4);
    let mut pending = None;
    assert_eq!(close_focused_pane_with_confirmation(&s, &mut pending, true, true, 0).0, None);
    assert_eq!(close_focused_pane_with_confirmation(&s, &mut pending, true, true, 5).0, Some(4));
    assert_eq!(close_focused_pane_with_confirmation(&s, &mut pending, true, false, 9).0, Some(4));
}

#[test]
fn a_stale_expiry_leaves_a_later_arming_alone() {
    let mut c = Confirmations {
        epoch: 0,
        row_close_armed: false,
        host_disconnect_armed: false,
        session_picker_kill: None,
        profile_picker_delete: None,
        profile_picker_open: None,
    };
    let first = arm(&mut c);
    c.row_close_armed = true;
    let second = arm(&mut c);
    assert_ne!(first, second);
    assert!(!expired(&mut c, first));
    assert!(c.row_close_armed);
    assert!(expired(&mut c, second));
    assert!(!c.row_close_armed);
}

#[test]
fn leaving_asks_about_temporary_sessions_and_shows_one_first() {
    assert_eq!(leave_step(SessionDisposition::Keep, &vec![(2, SessionDisposition::Discard), (5, SessionDisposition::Keep)]), LeaveStep::LeaveNow);
    assert_eq!(
        leave_step(SessionDisposition::AskBeforeClosing, &vec![(3, SessionDisposition::AskBeforeClosing)]),
        LeaveStep::Ask { count: 2, come_back_to: None }
    );
    assert_eq!(
        leave_step(SessionDisposition::Keep, &vec![(2, SessionDisposition::Discard), (4, SessionDisposition::AskBeforeClosing), (9, SessionDisposition::AskBeforeClosing)]),
        LeaveStep::Ask { count: 2, come_back_to: Some(4) }
    );
}

#[test]
fn a_detach_is_announced_once_under_the_best_name_known() {
    let own = "work".to_string();
    assert_eq!(detached_session(false, Some("x"), Some(&own)), None);
    assert_eq!(detached_session(true, Some("x"), Some(&own)), Some("x".to_string()));
    assert_eq!(detached_session(true, None, Some(&own)), Some("work".to_string()));
    assert_eq!(detached_session(true, None, None), Some(String::new()));
}

#[test]
fn named_session_quit_emits_session_detached() {
    let name = "named".to_string();
    assert_eq!(detached_session(true, None, Some(&name)), Some("named".to_string()));
    assert_eq!(detached_session(false, None, Some(&name)), None, "announced once: the session is no longer attached");
}

#[test]
fn hangup_emits_session_detached() {
    let name = "named".to_string();
    assert_eq!(detached_session(true, None, Some(&name)).as_deref(), Some("named"));
}

#[test]
fn leaving_a_named_session_asks_nothing_and_detaches() {
    assert_eq!(leave_step(SessionDisposition::Keep, &vec![]), LeaveStep::LeaveNow);
    assert!(!shutdown_on_exit(SessionDisposition::Keep, false));
    assert!(!shutdown_on_exit(SessionDisposition::Keep, true), "leaving never shuts down a named session");
}

#[test]
fn the_prompt_counts_exactly_the_sessions_its_answer_closes() {
    let parked = vec![SessionDisposition::Discard, SessionDisposition::AskBeforeClosing, SessionDisposition::Keep];
    let current = SessionDisposition::AskBeforeClosing;
    let decided = std::iter::once(current)
        .chain(parked.iter().copied())
        .filter(|d| shutdown_on_exit(*d, true) != shutdown_on_exit(*d, false))
        .count();
    assert_eq!(keepable_temporary_count(current, &parked), decided);
    assert_eq!(decided, 2);
}

#[test]
fn an_unattended_exit_closes_only_untouched_temporary_sessions() {
    assert!(shutdown_on_exit(SessionDisposition::Discard, false));
    assert!(!shutdown_on_exit(SessionDisposition::AskBeforeClosing, false));
    assert!(!shutdown_on_exit(SessionDisposition::Keep, false));
    assert!(shutdown_on_exit(SessionDisposition::AskBeforeClosing, true));
}

#[test]
fn a_second_press_dismisses_the_toast_of_the_first_and_records_the_next() {
    let mut pending = None;
    let first = confirm_second_press(&mut pending, PendingDestructive::KillSession, 0);
    assert_eq!(first, PressResult { confirmed: false, dismiss: None });
    confirm_toast_shown(&mut pending, 7);
    assert_eq!(pending.and_then(|p| p.toast_id), Some(7));
    // A different action replaces the arming and dismisses its toast.
    let other = confirm_second_press(&mut pending, PendingDestructive::RestartSession, 100);
    assert_eq!(other, PressResult { confirmed: false, dismiss: Some(7) });
    assert_eq!(
        pending,
        Some(ArmedDestructive { action: PendingDestructive::RestartSession, armed_at_ms: 100, toast_id: None })
    );
    confirm_toast_shown(&mut pending, 8);
    // The confirming press dismisses the toast of the arming it consumes.
    let confirmed = confirm_second_press(&mut pending, PendingDestructive::RestartSession, 200);
    assert_eq!(confirmed, PressResult { confirmed: true, dismiss: Some(8) });
    assert!(pending.is_none());
    // With nothing armed there is no toast to record.
    confirm_toast_shown(&mut pending, 9);
    assert!(pending.is_none());
}

#[test]
fn the_gates_hand_back_the_toast_to_dismiss() {
    let mut pending = Some(ArmedDestructive { action: PendingDestructive::KillSession, armed_at_ms: 0, toast_id: Some(3) });
    assert_eq!(
        session_action_gate(&mut pending, PendingDestructive::KillSession, true, false, true, 10),
        (SessionActionGate::NudgeFollower, None)
    );
    assert_eq!(
        session_action_gate(&mut pending, PendingDestructive::KillSession, true, true, true, 10),
        (SessionActionGate::Proceed, Some(3))
    );
    let mut s = state();
    s.session.workspaces[0].panes.push(pane(4));
    s.session.focused_pane = Some(4);
    let mut pending = Some(ArmedDestructive { action: PendingDestructive::KillSession, armed_at_ms: 0, toast_id: Some(5) });
    assert_eq!(close_focused_pane_with_confirmation(&s, &mut pending, true, true, 1), (None, Some(5)));
    assert_eq!(pending.map(|p| p.action), Some(PendingDestructive::ClosePane { pane: 4 }));
}

#[test]
fn detach_prompts_to_name_a_retained_ephemeral_before_exiting() {
    assert_eq!(
        leave_step(SessionDisposition::Keep, &vec![(3, SessionDisposition::AskBeforeClosing)]),
        LeaveStep::Ask { count: 1, come_back_to: Some(3) }
    );
}

#[test]
fn leaving_a_used_temporary_session_asks_then_closes_on_the_second_empty_submit() {
    assert_eq!(leave_step(SessionDisposition::AskBeforeClosing, &vec![]), LeaveStep::Ask { count: 1, come_back_to: None });
    assert!(shutdown_on_exit(SessionDisposition::AskBeforeClosing, true));
}

#[test]
fn leaving_drops_the_armed_action_and_its_toast() {
    let mut pending = Some(ArmedDestructive { action: PendingDestructive::KillSession, armed_at_ms: 0, toast_id: Some(11) });
    assert_eq!(clear_pending(&mut pending), Some(11));
    assert!(pending.is_none());
    assert_eq!(clear_pending(&mut pending), None);
}
