use hyprmux::pick::{reply_accepts, PICK_REPLY_BACKLOG};
use hyprmux::pick::{
    close_pick, invoke_action, open_pick_stream, pick_activate, pick_select, prompt_cancel, prompt_submit,
    query_changed, rows_reported, stream_closed, tab_selected, unload_extensions, Overlays, PickAction,
    PickFocus, PickHost, PickOpen, PickOpenError, PickPromptSpec, PickRow, PickStep, PickTab, MAX_PICK_TABS,
    PICK_MAX_WIDTH,
};

fn host() -> PickHost {
    PickHost {
        pick: None,
        show_pick: false,
        commands_dirty: false,
        overlays: Overlays {
            show_palette: false,
            palette_handoff: None,
            keybindings_open: false,
            palette_sidebar_query: false,
            show_theme_picker: false,
            show_layout_picker: false,
            search_open: false,
            normal_mode: true,
        },
    }
}

fn request(id: u64, title: Option<&str>) -> PickOpen {
    PickOpen {
        id,
        title: title.map(str::to_string),
        placeholder: None,
        empty: None,
        width: None,
        actions: Vec::new(),
        tabs: Vec::new(),
        tab: None,
        extension: None,
    }
}

/// The footer chords the tests use; anything else does not parse.
fn key_parses(actions: &[PickAction]) -> Vec<bool> {
    actions.iter().map(|a| a.key.starts_with("ctrl-") && a.key.len() == 6).collect()
}

fn open(host: &mut PickHost, request: PickOpen) -> Result<PickStep, PickOpenError> {
    let parses = key_parses(&request.actions);
    open_pick_stream(host, request, &parses, true, false)
}

fn row(id: &str) -> PickRow {
    PickRow {
        id: Some(id.into()),
        label: id.into(),
        description: None,
        group: None,
        disabled: None,
        active: false,
    }
}

fn action(id: &str, key: &str, prompt: Option<&str>, close: bool) -> PickAction {
    PickAction {
        id: id.to_string(),
        key: key.to_string(),
        label: id.to_string(),
        prompt: prompt.map(|title| PickPromptSpec::Title(title.to_string())),
        close,
        confirm: false,
    }
}

fn confirming(id: &str, key: &str) -> PickAction {
    PickAction { confirm: true, ..action(id, key, None, false) }
}

fn open_with(host: &mut PickHost, actions: Vec<PickAction>, width: Option<u16>) {
    let mut req = request(1, None);
    req.actions = actions;
    req.width = width;
    open(host, req).expect("opened");
    rows_reported(host, 1, None, vec![row("feat/x")]);
}

fn line(step: &PickStep) -> Option<String> {
    step.line.as_ref().map(|l| l.text.clone())
}

fn tab(id: &str, label: Option<&str>) -> PickTab {
    PickTab { id: id.into(), label: label.map(str::to_string) }
}

fn open_tabbed(host: &mut PickHost, tabs: Vec<PickTab>, tab: Option<&str>, actions: Vec<PickAction>) {
    let mut req = request(1, Some("Git"));
    req.tabs = tabs;
    req.tab = tab.map(str::to_string);
    req.actions = actions;
    open(host, req).expect("opened");
}

fn report(host: &mut PickHost, tab: Option<&str>, ids: &[&str]) {
    rows_reported(host, 1, tab.map(str::to_string), ids.iter().map(|id| row(id)).collect());
}

fn page_ids(host: &PickHost) -> Vec<Vec<String>> {
    host.pick
        .as_ref()
        .unwrap()
        .pages
        .iter()
        .map(|page| page.rows.iter().map(|r| r.label.clone()).collect())
        .collect()
}

#[test]
fn reported_rows_reach_state() {
    let mut h = host();
    assert!(open(&mut h, request(1, Some("Branches"))).is_ok());
    let mut main = row("main");
    main.description = Some("default".into());
    main.group = Some("Local".into());
    main.active = true;
    rows_reported(&mut h, 1, None, vec![main]);
    let pick = h.pick.as_ref().expect("pick state present");
    let page = &pick.pages[pick.active];
    assert_eq!(page.rows.len(), 1);
    assert_eq!(page.rows[0].label, "main");
}

#[test]
fn pick_stream_replaces_command_palette_handoff() {
    let mut h = host();
    h.overlays.show_palette = true;
    h.overlays.palette_handoff = Some(7);
    let req = request(1, Some("Snippets"));
    // The palette is a modal overlay, but a picker may take over its handoff.
    assert!(open_pick_stream(&mut h, req, &Vec::new(), true, true).is_ok());
    assert!(h.show_pick);
    assert!(!h.overlays.show_palette);
    assert!(h.overlays.palette_handoff.is_none());
    assert_eq!(h.pick.as_ref().unwrap().title, "Snippets");
}

#[test]
fn activating_writes_selected_json() {
    let mut h = host();
    open(&mut h, request(1, None)).unwrap();
    let mut r = row("feat/x");
    r.label = "Feature X".into();
    rows_reported(&mut h, 1, None, vec![r]);
    let step = pick_activate(&mut h, 0);
    assert_eq!(line(&step).as_deref(), Some(r#"{"selected":"feat/x"}"#));
    assert!(step.line.unwrap().terminal);
    assert!(!h.show_pick);
}

#[test]
fn close_pick_writes_cancelled_json() {
    let mut h = host();
    open(&mut h, request(1, None)).unwrap();
    let step = close_pick(&mut h);
    assert_eq!(line(&step).as_deref(), Some(r#"{"cancelled":true}"#));
    assert!(!h.show_pick);
}

#[test]
fn a_second_open_is_rejected() {
    let mut h = host();
    assert!(open(&mut h, request(1, None)).is_ok());
    let second = open(&mut h, request(2, None));
    let error = second.err().expect("refused");
    assert_eq!(error, PickOpenError::AlreadyOpen);
    assert_eq!(error.message(), "a picker is already open");
}

#[test]
fn open_is_rejected_when_overlay_is_open() {
    let mut h = host();
    h.overlays.keybindings_open = true;
    let result = open_pick_stream(&mut h, request(1, None), &Vec::new(), true, true);
    let error = result.err().expect("refused");
    assert_eq!(error.message(), "an overlay is open");
}

#[test]
fn a_plain_action_reports_the_row_and_keeps_the_picker_open() {
    let mut h = host();
    open_with(&mut h, vec![action("delete", "ctrl-d", None, false)], None);
    let step = invoke_action(&mut h, 0, true);
    assert_eq!(line(&step).as_deref(), Some(r#"{"action":"delete","selected":"feat/x"}"#));
    assert!(h.show_pick, "picker closed on a plain action");
}

#[test]
fn an_action_cannot_report_a_filtered_out_row() {
    let mut h = host();
    open_with(&mut h, vec![action("create", "ctrl-n", None, false)], None);
    query_changed(&mut h, "no-match".into());
    // The highlighted row does not match the filter.
    let step = invoke_action(&mut h, 0, false);
    assert_eq!(line(&step).as_deref(), Some(r#"{"action":"create","selected":null}"#));
}

#[test]
fn a_closing_action_ends_the_picker() {
    let mut h = host();
    open_with(&mut h, vec![action("edit", "ctrl-e", None, true)], None);
    let step = invoke_action(&mut h, 0, true);
    assert!(step.line.is_some());
    assert!(!h.show_pick);
}

#[test]
fn a_prompt_action_reports_only_once_its_text_is_submitted() {
    let mut h = host();
    open_with(&mut h, vec![action("create", "ctrl-n", Some("Branch name"), true)], None);
    let step = invoke_action(&mut h, 0, true);
    assert!(step.line.is_none(), "reported before the prompt was answered");
    assert_eq!(step.focus, PickFocus::Prompt);
    assert!(h.pick.as_ref().is_some_and(|p| p.prompt.is_some()), "prompt did not open");

    if let Some(prompt) = h.pick.as_mut().and_then(|p| p.prompt.as_mut()) {
        prompt.input = "feat/y".to_string();
    }
    let step = prompt_submit(&mut h, true);
    assert_eq!(line(&step).as_deref(), Some(r#"{"action":"create","input":"feat/y","selected":"feat/x"}"#));
}

#[test]
fn cancelling_a_prompt_reports_nothing_and_returns_to_the_picker() {
    let mut h = host();
    open_with(&mut h, vec![action("create", "ctrl-n", Some("Branch name"), true)], None);
    invoke_action(&mut h, 0, true);
    let step = prompt_cancel(&mut h);
    assert!(step.line.is_none(), "a cancelled prompt reported");
    assert!(h.show_pick, "picker did not come back");
    assert!(h.pick.as_ref().is_some_and(|p| p.prompt.is_none()));
}

#[test]
fn a_confirming_action_needs_a_second_press() {
    let mut h = host();
    open_with(&mut h, vec![confirming("delete", "ctrl-d")], None);

    let first = invoke_action(&mut h, 0, true);
    assert!(first.line.is_none(), "fired on the first press");
    assert!(h.pick.as_ref().is_some_and(|p| p.pending_action.is_some()), "did not arm");

    let second = invoke_action(&mut h, 0, true);
    assert_eq!(line(&second).as_deref(), Some(r#"{"action":"delete","selected":"feat/x"}"#));
    assert!(h.pick.as_ref().is_some_and(|p| p.pending_action.is_none()), "stayed armed after firing");
}

#[test]
fn moving_the_highlight_disarms_a_confirming_action() {
    let mut h = host();
    open_with(&mut h, vec![confirming("delete", "ctrl-d")], None);
    invoke_action(&mut h, 0, true);
    pick_select(&mut h, 0);
    assert!(h.pick.as_ref().is_some_and(|p| p.pending_action.is_some()), "re-selecting the same row disarmed it");

    rows_reported(&mut h, 1, None, vec![row("other")]);
    assert!(h.pick.as_ref().is_some_and(|p| p.pending_action.is_none()), "arming outlived the row it was aimed at");
}

#[test]
fn a_stacked_prompt_restores_the_picker_query() {
    let mut h = host();
    open_with(&mut h, vec![action("create", "ctrl-n", Some("Branch name"), true)], None);
    query_changed(&mut h, "feat/".into());
    invoke_action(&mut h, 0, true);

    let pick = h.pick.as_ref().expect("session still open");
    assert!(pick.prompt.is_some(), "prompt did not open");
    assert_eq!(pick.pages[pick.active].restore_query, "feat/", "the filter was not captured for the rebuild");

    prompt_cancel(&mut h);
    let pick = h.pick.as_ref().expect("picker came back");
    assert!(pick.prompt.is_none());
    assert_eq!(pick.pages[pick.active].restore_query, "feat/", "rebuild lost the filter");
}

#[test]
fn changing_the_filter_disarms_a_confirming_action() {
    let mut h = host();
    open_with(&mut h, vec![confirming("delete", "ctrl-d")], None);
    invoke_action(&mut h, 0, true);
    query_changed(&mut h, "oth".into());
    assert!(h.pick.as_ref().is_some_and(|p| p.pending_action.is_none()), "arming survived a filter change");
}

#[test]
fn width_is_clamped_and_unparseable_actions_are_dropped() {
    let mut h = host();
    open_with(
        &mut h,
        vec![action("good", "ctrl-d", None, false), action("bad", "not-a-key", None, false)],
        Some(9999),
    );
    let pick = h.pick.as_ref().expect("picker open");
    assert_eq!(pick.width, PICK_MAX_WIDTH);
    assert_eq!(pick.actions.len(), 1);
    assert_eq!(pick.actions[0].id, "good");
}

#[test]
fn producer_empty_copy_is_kept_for_an_empty_filter() {
    let mut h = host();
    let mut req = request(1, None);
    req.empty = Some("No snippets yet".into());
    open(&mut h, req).unwrap();
    assert_eq!(h.pick.as_ref().unwrap().empty.as_deref(), Some("No snippets yet"));
    query_changed(&mut h, "feat".into());
    let pick = h.pick.as_ref().unwrap();
    assert_eq!(pick.pages[pick.active].query, "feat");
}

#[test]
fn a_prompt_object_seeds_placeholder_value_and_masking() {
    let mut h = host();
    let edit = PickAction {
        id: "edit".into(),
        key: "ctrl-e".into(),
        label: "edit".into(),
        prompt: Some(PickPromptSpec::Fields {
            title: "Edit command".into(),
            placeholder: Some("git status".into()),
            value: Some("git status --short".into()),
            masked: true,
        }),
        close: false,
        confirm: false,
    };
    open_with(&mut h, vec![edit], None);
    invoke_action(&mut h, 0, true);
    let prompt = h.pick.as_ref().and_then(|p| p.prompt.as_ref()).expect("prompt open");
    assert_eq!(prompt.title, "Edit command");
    assert_eq!(prompt.placeholder, "git status");
    assert_eq!(prompt.input, "git status --short");
    assert!(prompt.masked);
}

#[test]
fn disabled_row_is_inert_on_activate() {
    let mut h = host();
    open(&mut h, request(1, None)).unwrap();
    let mut locked = row("locked");
    locked.label = "Locked option".into();
    locked.disabled = Some("Needs admin".into());
    rows_reported(&mut h, 1, None, vec![locked]);
    let step = pick_activate(&mut h, 0);
    assert!(step.line.is_none());
    assert!(h.show_pick);
}

#[test]
fn materially_unloaded_extension_cancels_its_open_picker() {
    let mut h = host();
    let mut req = request(7, Some("Extension picker"));
    req.extension = Some("git-tools".to_string());
    assert!(open(&mut h, req).is_ok());
    let step = unload_extensions(&mut h, &vec!["git-tools".to_string()]);
    assert!(!h.show_pick);
    let response = line(&step).expect("picker cancelled");
    assert!(response.contains("extension unloaded"), "{response}");
}

#[test]
fn inactive_extension_cannot_open_a_picker() {
    let mut h = host();
    let mut req = request(7, None);
    req.extension = Some("git-tools".to_string());
    let result = open_pick_stream(&mut h, req, &Vec::new(), false, false);
    let error = result.err().expect("refused");
    assert_eq!(error.message(), "extension is not active");
    assert!(!h.show_pick);
}

#[test]
fn declared_tabs_become_pages_and_open_on_the_requested_one() {
    let mut h = host();
    open_tabbed(
        &mut h,
        vec![tab("branches", Some("Branches")), tab("", Some("Nameless")), tab("tags", None), tab("branches", Some("Again"))],
        Some("tags"),
        Vec::new(),
    );
    let pick = h.pick.as_ref().unwrap();
    assert!(pick.pages.iter().all(|page| page.tab.is_some()));
    let labels: Vec<&str> = pick.pages.iter().map(|page| page.label.as_str()).collect();
    assert_eq!(labels, ["Branches", "tags"]);
    assert_eq!(pick.active, 1);

    let mut h = host();
    open_tabbed(&mut h, vec![tab("branches", None), tab("tags", None)], Some("missing"), Vec::new());
    assert_eq!(h.pick.as_ref().unwrap().active, 0);
}

#[test]
fn rows_land_only_on_the_tab_they_name() {
    let mut h = host();
    open_tabbed(&mut h, vec![tab("branches", None), tab("tags", None)], None, Vec::new());
    report(&mut h, Some("tags"), &["v1"]);
    report(&mut h, None, &["stray"]);
    report(&mut h, Some("worktrees"), &["stray"]);
    assert_eq!(page_ids(&h), [Vec::<String>::new(), vec!["v1".to_string()]]);

    let mut h = host();
    open_tabbed(&mut h, Vec::new(), None, Vec::new());
    assert!(h.pick.as_ref().unwrap().pages[0].tab.is_none());
    report(&mut h, Some("tags"), &["stray"]);
    report(&mut h, None, &["main"]);
    assert_eq!(page_ids(&h), [vec!["main".to_string()]]);
}

#[test]
fn each_tab_keeps_its_own_filter_and_highlight() {
    let mut h = host();
    open_tabbed(&mut h, vec![tab("branches", None), tab("tags", None)], None, Vec::new());
    report(&mut h, Some("branches"), &["main", "dev"]);
    query_changed(&mut h, "de".into());
    pick_select(&mut h, 1);

    let step = tab_selected(&mut h, 1);
    assert_eq!(line(&step).as_deref(), Some(r#"{"tab":"tags"}"#));
    let pick = h.pick.as_ref().unwrap();
    assert_eq!(pick.pages[pick.active].query, "");
    assert_eq!(pick.pages[pick.active].restore_query, "");

    let step = tab_selected(&mut h, 1);
    assert!(step.line.is_none());

    let step = tab_selected(&mut h, 0);
    assert_eq!(line(&step).as_deref(), Some(r#"{"tab":"branches"}"#));
    let pick = h.pick.as_ref().unwrap();
    let page = &pick.pages[pick.active];
    assert_eq!(page.restore_query, "de", "the filter was not brought back");
    assert_eq!(page.selected, 1, "the highlight was not brought back");
}

#[test]
fn switching_disarms_and_replies_carry_the_tab() {
    let mut h = host();
    open_tabbed(&mut h, vec![tab("branches", None), tab("tags", None)], None, vec![confirming("delete", "ctrl-d")]);
    report(&mut h, Some("branches"), &["main"]);
    report(&mut h, Some("tags"), &["main"]);

    invoke_action(&mut h, 0, true);
    assert!(h.pick.as_ref().unwrap().pending_action.is_some());
    let step = tab_selected(&mut h, 1);
    assert_eq!(line(&step).as_deref(), Some(r#"{"tab":"tags"}"#));
    assert!(h.pick.as_ref().unwrap().pending_action.is_none(), "the arming followed the user to another tab");

    invoke_action(&mut h, 0, true);
    let step = invoke_action(&mut h, 0, true);
    assert_eq!(line(&step).as_deref(), Some(r#"{"action":"delete","selected":"main","tab":"tags"}"#));

    let step = pick_activate(&mut h, 0);
    assert_eq!(line(&step).as_deref(), Some(r#"{"selected":"main","tab":"tags"}"#));
}

#[test]
fn a_full_event_queue_never_costs_the_terminal_line() {
    // However many tab switches go unread, the line that ends the picker is marked terminal, so the
    // reply channel delivers it ahead of anything it drops.
    let mut h = host();
    open_tabbed(&mut h, vec![tab("branches", None), tab("tags", None)], None, Vec::new());
    report(&mut h, Some("branches"), &["main"]);
    for switch in 0..64 {
        let step = tab_selected(&mut h, (switch + 1) % 2);
        assert!(step.line.as_ref().is_some_and(|l| !l.terminal));
    }
    let step = pick_activate(&mut h, 0);
    let last = step.line.expect("terminal line");
    assert!(last.terminal);
    assert_eq!(last.text, r#"{"selected":"main","tab":"branches"}"#);

    let mut h = host();
    open_tabbed(&mut h, vec![tab("branches", None), tab("tags", None)], None, vec![action("open", "ctrl-o", None, true)]);
    report(&mut h, Some("branches"), &["main"]);
    for switch in 0..64 {
        tab_selected(&mut h, (switch + 1) % 2);
    }
    let step = invoke_action(&mut h, 0, true);
    let last = step.line.expect("terminal line");
    assert!(last.terminal);
    assert_eq!(last.text, r#"{"action":"open","selected":"main","tab":"branches"}"#);

    let mut h = host();
    open_tabbed(&mut h, vec![tab("branches", None), tab("tags", None)], None, Vec::new());
    for switch in 0..64 {
        tab_selected(&mut h, (switch + 1) % 2);
    }
    let step = close_pick(&mut h);
    let last = step.line.expect("terminal line");
    assert!(last.terminal);
    assert_eq!(last.text, r#"{"cancelled":true}"#);
}

#[test]
fn tabs_are_capped_and_deduplicated() {
    let mut h = host();
    let mut tabs: Vec<_> = (0..MAX_PICK_TABS * 4).map(|index| tab(&format!("t{}", index % (MAX_PICK_TABS + 8)), None)).collect();
    tabs.insert(0, tab("t1", None));
    open_tabbed(&mut h, tabs, Some("t35"), Vec::new());
    let pick = h.pick.as_ref().unwrap();
    assert_eq!(pick.pages.len(), MAX_PICK_TABS);
    assert_eq!(pick.pages[0].tab.as_deref(), Some("t1"));
    assert_eq!(pick.pages[1].tab.as_deref(), Some("t0"));
    assert_eq!(pick.active, 0, "a tab past the cap is not openable");
}

/// The picker's stream closing takes the picker down without a line.
#[test]
fn a_closed_stream_takes_the_picker_down_silently() {
    let mut h = host();
    open(&mut h, request(3, None)).unwrap();
    let other = stream_closed(&mut h, 4);
    assert!(other.line.is_none() && h.show_pick);
    let step = stream_closed(&mut h, 3);
    assert!(step.line.is_none());
    assert!(!h.show_pick && h.pick.is_none());
    assert_eq!(step.focus, PickFocus::Pane);
}

/// A label with characters JSON escapes is escaped in the reply.
#[test]
fn replies_escape_what_json_escapes() {
    let mut h = host();
    open(&mut h, request(1, None)).unwrap();
    rows_reported(&mut h, 1, None, vec![row("say \"hi\"\\now")]);
    let step = pick_activate(&mut h, 0);
    assert_eq!(line(&step).as_deref(), Some(r#"{"selected":"say \"hi\"\\now"}"#));
}

/// A cancellation for a reason names it.
#[test]
fn a_cancellation_names_its_reason() {
    let mut h = host();
    open(&mut h, request(1, None)).unwrap();
    let step = hyprmux::pick::cancel_pick(&mut h, Some("detached"));
    assert_eq!(line(&step).as_deref(), Some(r#"{"cancelled":true,"reason":"detached"}"#));
}

#[test]
fn a_full_backlog_drops_events_but_never_the_terminal_line() {
    assert!(reply_accepts(false, 0));
    assert!(reply_accepts(false, PICK_REPLY_BACKLOG - 1));
    assert!(!reply_accepts(false, PICK_REPLY_BACKLOG));
    assert!(reply_accepts(true, PICK_REPLY_BACKLOG));
    assert!(reply_accepts(true, PICK_REPLY_BACKLOG * 2));
}
