use hyprmux::overlay::{
    cancel_layout_picker, finish, layout_at, layout_picker_selection_changed, open_layout_picker, picker_origin,
    restore_profile_picker, select_layout, LayoutChoice, OverlayOrigin, ReturnTo,
};
use hyprmux::model::LayoutKind;
use hyprmux::profile::{
    apply_selected_profile_in_place, normalize_profile_name, open_named_target, profile_picker_delete_key,
    profile_picker_query_changed, profile_picker_selection_changed, refresh_profile_picker_entries, running_sessions,
    save_or_arm_overwrite, save_prompt_initial, select_profile, valid_session_name, ApplyRefusal, ApplyStep,
    replace_with_profile, start_named_session, AttachSeed, AttachSite, DeleteStep, OpenIntent, OpenPlan, OpenRefusal,
    PendingAttach, ProfileApplied, ProfilePicker, ReplaceOutcome, ReplaceSite, RunningSession, SaveProfilePrompt,
    SelectStep, SessionPane, StartOutcome,
};

fn picker(names: &[&str]) -> ProfilePicker {
    ProfilePicker {
        entries: names.iter().map(|n| n.to_string()).collect(),
        query: String::new(),
        selected: 0,
        pending_delete: None,
        pending_open: None,
        pending_apply: None,
        apply_mode: false,
    }
}

#[test]
fn profile_names_are_trimmed_and_reject_paths() {
    assert_eq!(normalize_profile_name("  dev  ").as_deref(), Some("dev"));
    assert_eq!(normalize_profile_name("   "), None);
    assert_eq!(normalize_profile_name("team/dev"), None);
    assert_eq!(normalize_profile_name("team\\dev"), None);
    assert_eq!(normalize_profile_name("team dev"), None);
    assert_eq!(normalize_profile_name("eph-123"), None);
}

#[test]
fn save_prompt_prefills_named_session_but_not_ephemeral_session() {
    assert_eq!(save_prompt_initial(&None, &Some("work".into()), true, false), "work");
    assert_eq!(save_prompt_initial(&None, &Some("eph-1".into()), true, true), "");
    assert_eq!(save_prompt_initial(&Some("dev".into()), &Some("work".into()), true, false), "dev");
}

#[test]
fn picker_query_and_selection_dispatch_reset_transient_state() {
    let mut p = picker(&["a", "b", "c"]);
    p.selected = 2;
    p.pending_delete = Some(2);
    p.pending_open = Some(2);
    p.pending_apply = Some(2);
    profile_picker_query_changed(&mut p, "b".into());
    assert_eq!(p.selected, 0);
    assert!(p.pending_delete.is_none() && p.pending_open.is_none() && p.pending_apply.is_none());

    p.pending_delete = Some(1);
    p.pending_open = Some(0);
    profile_picker_selection_changed(&mut p, 1);
    assert_eq!(p.selected, 1);
    assert_eq!(p.pending_delete, Some(1));
    assert_eq!(p.pending_open, None);
}

#[test]
fn overwriting_a_saved_profile_takes_a_second_submit() {
    let mut prompt = SaveProfilePrompt { input: "dev".into(), pending_overwrite: false };
    assert!(save_or_arm_overwrite(&mut prompt, false));
    assert!(!save_or_arm_overwrite(&mut prompt, true));
    assert!(prompt.pending_overwrite);
    assert!(save_or_arm_overwrite(&mut prompt, true));
}

#[test]
fn replacing_the_session_arms_first_and_needs_a_writable_controller() {
    let mut p = picker(&["dev"]);
    assert_eq!(apply_selected_profile_in_place(&mut p, false, false, false), ApplyStep::Refused(ApplyRefusal::NotAttached));
    assert_eq!(apply_selected_profile_in_place(&mut p, true, true, false), ApplyStep::Refused(ApplyRefusal::ReadOnly));
    assert_eq!(apply_selected_profile_in_place(&mut p, true, false, true), ApplyStep::NudgeFollower);
    assert_eq!(apply_selected_profile_in_place(&mut p, true, false, false), ApplyStep::Armed);
    assert_eq!(apply_selected_profile_in_place(&mut p, true, false, false), ApplyStep::Replace { index: 0 });
    let mut empty = picker(&[]);
    assert_eq!(apply_selected_profile_in_place(&mut empty, true, false, false), ApplyStep::NoEntry);
}

#[test]
fn deleting_a_profile_takes_a_second_press_and_refresh_clamps() {
    let mut p = picker(&["a", "b", "c"]);
    p.selected = 2;
    assert_eq!(profile_picker_delete_key(&mut p), DeleteStep::Armed);
    assert_eq!(profile_picker_delete_key(&mut p), DeleteStep::Delete { index: 2 });
    refresh_profile_picker_entries(&mut p, vec!["a".into(), "b".into()]);
    assert_eq!(p.selected, 1);
    assert!(p.pending_delete.is_none());
    refresh_profile_picker_entries(&mut p, Vec::new());
    assert_eq!(p.selected, 0);
}

#[test]
fn choosing_a_profile_arms_or_resolves_it_by_name() {
    let mut p = picker(&["dev", "my profile"]);
    assert_eq!(select_profile(&mut p, 0, false), SelectStep::OpenNamed { index: 0 });
    assert_eq!(select_profile(&mut p, 1, false), SelectStep::LoadFresh { index: 1 });
    assert_eq!(select_profile(&mut p, 0, true), SelectStep::Armed);
    assert_eq!(select_profile(&mut p, 0, true), SelectStep::OpenNamed { index: 0 });
    assert_eq!(select_profile(&mut p, 5, false), SelectStep::NoEntry);
}

#[test]
fn opening_a_session_by_name_decides_before_touching_anything() {
    let here = Some("work".to_string());
    assert_eq!(open_named_target("bad name", OpenIntent::CreateFresh, false, &here, false, false), Err(OpenRefusal::InvalidName));
    assert_eq!(open_named_target("dev", OpenIntent::CreateFresh, true, &here, false, false), Err(OpenRefusal::AlreadyRunning));
    assert_eq!(open_named_target("dev", OpenIntent::ResolveProfile, true, &here, false, false), Ok(OpenPlan::AttachExisting));
    assert_eq!(open_named_target("work", OpenIntent::CreateFresh, false, &here, false, false), Err(OpenRefusal::AlreadyAttached));
    assert_eq!(open_named_target("dev", OpenIntent::CreateFresh, false, &here, true, false), Err(OpenRefusal::AttachInProgress));
    assert_eq!(open_named_target("dev", OpenIntent::ResolveProfile, false, &here, false, false), Err(OpenRefusal::NotFound));
    assert_eq!(
        open_named_target("dev", OpenIntent::ResolveProfile, false, &here, false, true),
        Ok(OpenPlan::Start { seeded: true, park_current: false })
    );
    assert_eq!(
        open_named_target("dev", OpenIntent::CreateFresh, false, &None, false, false),
        Ok(OpenPlan::Start { seeded: false, park_current: true })
    );
    assert!(valid_session_name("a-b_9") && !valid_session_name("") && !valid_session_name("é"));
}

#[test]
fn a_prompt_returns_to_the_picker_it_was_raised_from() {
    let mut p = picker(&["a", "b", "c"]);
    p.query = "feat".into();
    p.selected = 2;
    p.apply_mode = true;
    let mut origin = picker_origin(&Some(p), true, &None, false);
    match &origin {
        Some(OverlayOrigin::ProfilePicker { query, selected, apply_mode }) => {
            assert_eq!(query, "feat");
            assert_eq!(*selected, 2);
            assert!(*apply_mode);
        },
        other => panic!("unexpected {other:?}"),
    }
    assert_eq!(finish(&mut origin), ReturnTo::ProfilePicker { apply_mode: true });
    assert!(origin.is_none());
    assert_eq!(finish(&mut origin), ReturnTo::Pane);

    let mut rebuilt = picker(&["a"]);
    restore_profile_picker(&mut rebuilt, "feat".into(), 2);
    assert_eq!(rebuilt.query, "feat");
    assert_eq!(rebuilt.selected, 0);
}

#[test]
fn standalone_prompt_does_not_inherit_a_stale_origin() {
    assert!(picker_origin(&Some(picker(&["a"])), false, &None, false).is_none());
    let origin = picker_origin(&None, false, &Some(("q".to_string(), 1)), true);
    assert!(matches!(origin, Some(OverlayOrigin::SessionPicker { selected: 1, .. })));
}

#[test]
fn cancelling_the_layout_picker_restores_the_previewed_layout() {
    let mut picker = Some(open_layout_picker(LayoutKind::Grid));
    assert_eq!(layout_at(picker.as_ref().unwrap().selected), Some(LayoutKind::Grid));
    assert_eq!(layout_picker_selection_changed(&mut picker, 5, false, true), Some(LayoutKind::Monocle));
    assert_eq!(cancel_layout_picker(&mut picker, LayoutKind::Monocle, false, true), Some(LayoutKind::Grid));
    assert!(picker.is_none());

    let mut picker = Some(open_layout_picker(LayoutKind::Grid));
    // A follower neither previews nor restores.
    assert_eq!(layout_picker_selection_changed(&mut picker, 5, false, false), None);
    assert_eq!(cancel_layout_picker(&mut picker, LayoutKind::Grid, false, false), None);

    let mut picker = Some(open_layout_picker(LayoutKind::Grid));
    assert_eq!(select_layout(&mut picker, 6, false, true), LayoutChoice::NudgeFollower);
    let mut picker = Some(open_layout_picker(LayoutKind::Grid));
    assert_eq!(select_layout(&mut picker, 6, false, false), LayoutChoice::Apply { kind: LayoutKind::Scrollable, engage: true });
    assert_eq!(select_layout(&mut picker, 99, false, false), LayoutChoice::Nothing);
}

#[test]
fn a_normalized_name_normalizes_to_itself() {
    let once = normalize_profile_name("\t my-dev_2 \n").unwrap();
    assert_eq!(once, "my-dev_2");
    assert_eq!(normalize_profile_name(&once), Some(once.clone()));
}

fn running(name: &str, ephemeral: bool, panes: usize) -> RunningSession<usize> {
    RunningSession { name: name.to_string(), ephemeral, status: panes }
}

#[test]
fn the_picker_lists_named_sessions_and_this_one_last() {
    let rows = vec![running("work", false, 3), running("eph-2", true, 1), running("dev", false, 5), running("mine", false, 0)];
    let shown = running_sessions(rows, Some(running("mine", true, 4)));
    let names: Vec<(&str, usize)> = shown.iter().map(|r| (r.name.as_str(), r.status)).collect();
    assert_eq!(names, [("work", 3), ("dev", 5), ("mine", 4)]);
    assert!(shown[2].ephemeral);

    let alone = running_sessions(vec![running("eph-1", true, 1), running("dev", false, 2)], None);
    assert_eq!(alone.len(), 1);
    assert_eq!(alone[0].name, "dev");
}

#[test]
fn save_profile_prompt_returns_to_the_picker_with_its_query() {
    let mut p = picker(&[]);
    p.query = "web".to_string();
    let mut origin = picker_origin(&Some(p), true, &None, false);
    let (query, selected) = match origin.clone() {
        Some(OverlayOrigin::ProfilePicker { query, selected, apply_mode: false }) => (query, selected),
        other => panic!("unexpected origin {other:?}"),
    };
    assert_eq!(finish(&mut origin), ReturnTo::ProfilePicker { apply_mode: false });
    let mut rebuilt = picker(&[]);
    restore_profile_picker(&mut rebuilt, query, selected);
    assert_eq!(rebuilt.query, "web");
}

#[test]
fn create_session_prompt_returns_to_the_session_picker_with_its_query() {
    let mut origin = picker_origin(&None, false, &Some(("dev".to_string(), 0)), true);
    match origin.clone() {
        Some(OverlayOrigin::SessionPicker { query, selected }) => assert_eq!((query.as_str(), selected), ("dev", 0)),
        other => panic!("unexpected origin {other:?}"),
    }
    assert_eq!(finish(&mut origin), ReturnTo::SessionPicker);
    assert!(origin.is_none());
}

#[test]
fn theme_picker_opened_from_settings_returns_to_it() {
    let mut origin = Some(OverlayOrigin::Settings);
    assert_eq!(finish(&mut origin), ReturnTo::Settings);
    assert!(origin.is_none());
}

#[test]
fn theme_picker_opened_standalone_closes_to_the_pane() {
    let mut origin = None;
    assert_eq!(finish(&mut origin), ReturnTo::Pane);
}

fn attach_site(runtime_epoch: u64) -> AttachSite {
    AttachSite {
        runtime_epoch,
        pending: None,
        connecting: false,
        show_profile_picker: true,
        picker: Some(picker(&["empty"])),
    }
}

#[test]
fn selecting_profile_dispatches_named_profile_seed_attach() {
    let mut p = picker(&["empty"]);
    let mut site = attach_site(6);
    assert_eq!(select_profile(&mut p, 0, false), SelectStep::OpenNamed { index: 0 });
    let plan = open_named_target("empty", OpenIntent::ResolveProfile, false, &None, false, true);
    assert_eq!(plan, Ok(OpenPlan::Start { seeded: true, park_current: false }));
    let seed = AttachSeed::Profile { profile: "empty".to_string(), path: "/profiles/empty.toml".to_string() };
    assert_eq!(
        start_named_session(&mut site, &"empty".to_string(), false, seed.clone(), Ok(())),
        StartOutcome::Started
    );
    assert!(!site.show_profile_picker && site.picker.is_none());
    assert_eq!(
        site.pending,
        Some(PendingAttach { epoch: 7, name: "empty".to_string(), autostart: true, seed, park_current: false })
    );
    assert!(site.connecting);
}

#[test]
fn a_profile_that_fails_to_load_leaves_the_attach_state_alone() {
    let mut site = attach_site(6);
    let seed = AttachSeed::Profile { profile: "broken".to_string(), path: "/profiles/broken.toml".to_string() };
    assert_eq!(
        start_named_session(&mut site, &"broken".to_string(), false, seed, Err("bad toml".to_string())),
        StartOutcome::LoadFailed("bad toml".to_string())
    );
    assert!(site.pending.is_none() && !site.connecting && site.show_profile_picker && site.picker.is_some());
    assert_eq!(
        start_named_session(&mut site, &"fresh".to_string(), true, AttachSeed::Plain, Err("ignored".to_string())),
        StartOutcome::Started,
        "a plain start loads nothing"
    );
}

fn replace_site(connected: bool) -> ReplaceSite {
    ReplaceSite {
        session_name: Some("work".to_string()),
        connected,
        popup: hyprmux::popup::PopupSlot { pane: None, return_focus: None },
        scratch: Some((77, 2)),
        scratch_visible: true,
        pending_spawns: vec![3],
        pending_replay_inputs: vec![1, 3],
        show_profile_picker: true,
        picker: Some(picker(&["rust-dev"])),
        commands_dirty: false,
    }
}

#[test]
fn replacing_session_emits_profile_applied_not_profile_loaded() {
    let mut p = picker(&["rust-dev"]);
    assert_eq!(apply_selected_profile_in_place(&mut p, true, false, false), ApplyStep::Armed);
    assert_eq!(p.pending_apply, Some(0));
    assert_eq!(apply_selected_profile_in_place(&mut p, true, false, false), ApplyStep::Replace { index: 0 });

    let mut site = replace_site(true);
    let panes = vec![
        SessionPane { id: 1, generation: 4, closing: false },
        SessionPane { id: 2, generation: 1, closing: true },
        SessionPane { id: 3, generation: 9, closing: false },
    ];
    let outcome = replace_with_profile(&mut site, &panes, &"rust-dev".to_string(), &"/p/rust-dev.toml".to_string(), Ok(()));
    assert_eq!(
        outcome,
        ReplaceOutcome::Replaced {
            popup_kill: None,
            kills: vec![(77, 2), (1, 4), (3, 9)],
            event: ProfileApplied {
                profile: "rust-dev".to_string(),
                path: "/p/rust-dev.toml".to_string(),
                session: "work".to_string(),
            },
            notice: "Replaced session `work` with `rust-dev`".to_string(),
        }
    );
    assert!(site.scratch.is_none() && !site.scratch_visible);
    assert!(site.pending_spawns.is_empty() && site.pending_replay_inputs.is_empty());
    assert!(!site.show_profile_picker && site.picker.is_none() && site.commands_dirty);
}

#[test]
fn a_replacement_whose_profile_fails_to_load_touches_nothing() {
    let mut site = replace_site(true);
    let outcome = replace_with_profile(&mut site, &vec![], &"x".to_string(), &"/p/x.toml".to_string(), Err("missing".to_string()));
    assert_eq!(outcome, ReplaceOutcome::LoadFailed("missing".to_string()));
    assert!(site.scratch.is_some() && site.picker.is_some() && !site.commands_dirty);
    let mut offline = replace_site(false);
    assert_eq!(
        replace_with_profile(&mut offline, &vec![], &"x".to_string(), &"/p/x.toml".to_string(), Ok(())),
        ReplaceOutcome::Disconnected { popup_kill: None }
    );
    assert!(offline.scratch.is_some() && offline.picker.is_some());
}
