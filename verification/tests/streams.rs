use hyprmux::focus::LayoutProbe;
use hyprmux::json::activation_request;
use hyprmux::model::{GeometryAnimation, Pane, PaneId, Session, State, Workspace};
use hyprmux::registry::Registry;
use hyprmux::streams::{
    activation_undelivered, request_activation, rows_reported, slot_stream_closed, slot_stream_opened,
    stream_closed, stream_opened, subscription_closed, subscription_opened, unload_extensions, PublishError,
    PublishStream, Subscription,
};

fn pane(id: PaneId) -> Pane {
    Pane {
        id,
        floating: false,
        fullscreen: false,
        opening: false,
        closing: false,
        awaits_input: false,
        has_unseen_output: false,
        bell: false,
        finished_unseen: false,
    }
}

/// One workspace holding pane 1, which has focus.
fn state() -> State {
    let mut workspaces = Vec::new();
    for index in 0..9 {
        workspaces.push(Workspace::new(index));
    }
    workspaces[0].panes.push(pane(1));
    State {
        session: Session { workspaces, active_workspace: 0, focused_pane: Some(1) },
        scratch: Workspace::new(9),
        scratch_visible: false,
        window_focused: true,
        animation: GeometryAnimation::Immediate,
        events: Vec::new(),
    }
}

#[allow(dead_code)]
fn no_probe() -> LayoutProbe {
    LayoutProbe { nearest: None, reveal_clip: None }
}

#[test]
fn a_reported_row_list_reaches_the_session_server() {
    let s = state();
    let mut streams = Registry::new();
    assert_eq!(stream_opened(&mut streams, &s, 1, Some(1), None, true), Ok(1));
    assert!(rows_reported(&streams, 1, 1));
}

#[test]
fn closing_a_stream_withdraws_the_panes_rows() {
    let s = state();
    let mut streams = Registry::new();
    stream_opened(&mut streams, &s, 1, Some(1), None, true).unwrap();
    assert!(stream_closed(&mut streams, 1, 1), "the pane's rows are withdrawn");
    assert!(!streams.contains_key(1));
}

#[test]
fn activating_a_row_writes_to_its_publisher() {
    let s = state();
    let mut streams = Registry::new();
    stream_opened(&mut streams, &s, 1, Some(1), None, true).unwrap();
    let line = request_activation(&streams, 1, "ses_b").expect("activation was written");
    assert_eq!(line.trim(), r#"{"activate":"ses_b"}"#);
    assert!(line.ends_with('\n'));
}

#[test]
fn a_full_activation_queue_drops_the_stream() {
    let s = state();
    let mut streams = Registry::new();
    stream_opened(&mut streams, &s, 1, Some(1), None, true).unwrap();
    assert!(request_activation(&streams, 1, "one").is_some());
    // The second line does not fit the publisher's queue.
    assert!(request_activation(&streams, 1, "two").is_some());
    activation_undelivered(&mut streams, 1);
    assert!(!streams.contains_key(1), "a stream that stopped draining is dropped");
}

#[test]
fn stale_events_from_replaced_publisher_generation_are_ignored() {
    let s = state();
    let mut streams = Registry::new();
    stream_opened(&mut streams, &s, 1, Some(1), Some("dashboard".to_string()), true).unwrap();
    stream_opened(&mut streams, &s, 2, Some(1), Some("dashboard".to_string()), true).unwrap();

    assert!(!rows_reported(&streams, 1, 1));
    assert!(!stream_closed(&mut streams, 1, 1));
    assert_eq!(streams.get(1).map(|stream| stream.id), Some(2));

    assert!(rows_reported(&streams, 2, 1));
}

#[test]
fn service_publisher_uses_focused_pane_and_unloads_with_its_extension() {
    let s = state();
    let mut streams: Registry<PublishStream> = Registry::new();
    assert_eq!(stream_opened(&mut streams, &s, 1, None, Some("dashboard".to_string()), true), Ok(1));
    assert_eq!(streams.get(1).and_then(|stream| stream.extension.as_deref()), Some("dashboard"));
    let withdrawn = unload_extensions(&mut streams, &vec!["dashboard".to_string()]);
    assert_eq!(withdrawn, [1]);
    assert!(!streams.contains_key(1));
}

#[test]
fn inactive_extension_cannot_open_a_publish_stream() {
    let s = state();
    let mut streams: Registry<PublishStream> = Registry::new();
    assert_eq!(
        stream_opened(&mut streams, &s, 1, None, Some("dashboard".to_string()), false),
        Err(PublishError::ExtensionInactive)
    );
    assert!(streams.keys().is_empty());
}

#[test]
fn a_stream_for_a_missing_pane_is_refused() {
    let mut s = state();
    let mut streams: Registry<PublishStream> = Registry::new();
    assert_eq!(stream_opened(&mut streams, &s, 1, Some(42), None, true), Err(PublishError::PaneNotFound { pane: 42 }));
    s.session.focused_pane = None;
    assert_eq!(stream_opened(&mut streams, &s, 1, None, None, true), Err(PublishError::NoPane));
}

#[test]
fn unloading_keeps_streams_of_other_extensions_and_of_none() {
    let mut s = state();
    s.session.workspaces[0].panes.push(pane(2));
    s.session.workspaces[0].panes.push(pane(3));
    let mut streams: Registry<PublishStream> = Registry::new();
    stream_opened(&mut streams, &s, 1, Some(1), Some("dashboard".to_string()), true).unwrap();
    stream_opened(&mut streams, &s, 2, Some(2), Some("other".to_string()), true).unwrap();
    stream_opened(&mut streams, &s, 3, Some(3), None, true).unwrap();
    let withdrawn = unload_extensions(&mut streams, &vec!["dashboard".to_string()]);
    assert_eq!(withdrawn, [1]);
    assert!(streams.contains_key(2) && streams.contains_key(3));
}

#[test]
fn agent_slot_streams_replace_and_withdraw() {
    let mut slots: Registry<u64> = Registry::new();
    slot_stream_opened(&mut slots, 5, 1);
    slot_stream_opened(&mut slots, 5, 2);
    assert_eq!(slots.get(5), Some(&2));
    let line = request_activation(&slots, 5, "slot-a").expect("publisher present");
    assert_eq!(line, "{\"activate\":\"slot-a\"}\n");
    assert!(slot_stream_closed(&mut slots, 5));
    assert!(!slot_stream_closed(&mut slots, 5), "a second close has nothing to withdraw");
    assert!(request_activation(&slots, 5, "slot-a").is_none());
}

#[test]
fn subscriptions_open_only_for_active_extensions() {
    let mut subs: Registry<Subscription> = Registry::new();
    assert!(subscription_opened(&mut subs, 1, "git-tools".to_string(), true));
    assert!(!subscription_opened(&mut subs, 2, "retired".to_string(), false));
    assert!(subs.contains_key(1) && !subs.contains_key(2));
    assert!(subscription_opened(&mut subs, 3, "other".to_string(), true));
    let cancelled = unload_extensions(&mut subs, &vec!["git-tools".to_string()]);
    assert_eq!(cancelled, [1]);
    subscription_closed(&mut subs, 3);
    assert!(subs.keys().is_empty());
}

#[test]
fn activation_lines_quote_the_row_id_as_json() {
    assert_eq!(activation_request("plain"), "{\"activate\":\"plain\"}\n");
    assert_eq!(activation_request("a\"b\\c\n"), "{\"activate\":\"a\\\"b\\\\c\\n\"}\n");
}

#[test]
fn activation_lines_escape_control_characters_as_json_does() {
    assert_eq!(activation_request("a\u{1}b\u{1f}\t"), "{\"activate\":\"a\\u0001b\\u001f\\t\"}\n");
    assert_eq!(activation_request("\u{8}\u{c}\r"), "{\"activate\":\"\\b\\f\\r\"}\n");
}

#[test]
fn refused_publishes_say_why() {
    assert_eq!(PublishError::ExtensionInactive.message(), "extension is not active");
    assert_eq!(PublishError::NoPane.message(), "publish requires a live pane");
    assert_eq!(PublishError::PaneNotFound { pane: 42 }.message(), "pane 42 not found");
}
