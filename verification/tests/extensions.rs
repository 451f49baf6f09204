use hyprmux::agents::{
    activate, activation_refused, land_on_pending_agent, pending_agent_has_arrived, AgentActivation, AgentJump,
    AgentLocation, LiveSession,
};
use hyprmux::extensions::{
    catalog_description, catalog_report_sections, catalog_source_url, decimal_text, drop_removed_from_disabled,
    duplicate_installation_remains, extension_description, key_conflict_warning, Installation,
    installation_kind_label, installed_groups, join_texts, normalize_selection, remove_or_arm, select_by_id,
    select_row, selected_catalog, selected_installed, show_installed,
    tab_selected, text_before, toggle_disabled, CatalogEntry, EntryStatus, ExtensionSummary, ExtensionsTab, Group,
    InstallKind, ManagerRow, ManagerSelection, ReportKind, ReportSection, ReportTone,
};

fn selection() -> ManagerSelection {
    ManagerSelection { tab: ExtensionsTab::Installed, selected: 0, catalog_selected: None, pending_remove: None }
}

#[test]
fn installed_rows_are_grouped_and_empty_groups_left_out() {
    let statuses = vec![EntryStatus::Disabled, EntryStatus::Loaded, EntryStatus::Loaded, EntryStatus::Disabled];
    let visible = vec![true, true, false, true];
    let groups = installed_groups(&statuses, &visible);
    assert_eq!(groups, [(Group::Active, vec![1]), (Group::Disabled, vec![0, 3])]);
    let problems = installed_groups(&vec![EntryStatus::Problem], &vec![true]);
    assert_eq!(problems, [(Group::Problems, vec![0])]);
}

#[test]
fn the_highlight_rests_on_a_visible_row() {
    let mut m = selection();
    m.selected = 2;
    m.catalog_selected = Some(9);
    normalize_selection(&mut m, &vec![4, 5], &vec![1, 3]);
    assert_eq!(m.selected, 4);
    assert_eq!(m.catalog_selected, Some(1));
    normalize_selection(&mut m, &vec![], &vec![]);
    assert_eq!(m.selected, 4);
    assert_eq!(m.catalog_selected, None);
}

#[test]
fn switching_tabs_or_rows_disarms_a_removal() {
    let mut m = selection();
    assert!(!remove_or_arm(&mut m, "ext-a".into()));
    assert_eq!(m.pending_remove.as_deref(), Some("ext-a"));
    select_row(&mut m, ManagerRow::Installed(0), 3, 0);
    assert!(m.pending_remove.is_some(), "the same row keeps its arming");
    select_row(&mut m, ManagerRow::Installed(7), 3, 0);
    assert_eq!(m.selected, 2);
    assert!(m.pending_remove.is_none());
    assert!(!remove_or_arm(&mut m, "ext-b".into()));
    assert!(tab_selected(&mut m, ExtensionsTab::Discover));
    assert!(m.pending_remove.is_none());
    assert!(!tab_selected(&mut m, ExtensionsTab::Discover));
    assert!(!remove_or_arm(&mut m, "ext-b".into()));
    assert!(remove_or_arm(&mut m, "ext-b".into()), "the second press removes");
}

#[test]
fn disabling_keeps_the_list_sorted_and_free_of_repeats() {
    let list = vec!["zeta".to_string(), "alpha".to_string(), "alpha".to_string()];
    assert_eq!(toggle_disabled(&list, &"mid".to_string(), true), ["alpha", "mid", "zeta"]);
    // An entry naming the extension with white space around it already disables it.
    let spaced = vec![" mid ".to_string()];
    assert_eq!(toggle_disabled(&spaced, &"mid".to_string(), true), [" mid "]);
    assert!(toggle_disabled(&spaced, &"mid".to_string(), false).is_empty());
    assert_eq!(toggle_disabled(&list, &"zeta".to_string(), false), ["alpha"]);
    assert!(text_before("B", "a") && !text_before("ab", "a") && text_before("", "a"));
}

#[test]
fn a_row_in_this_session_goes_straight_to_its_pane() {
    let mut jump = None;
    let step = activate(AgentLocation::Here { pane: 3, row: Some("ses_a".into()) }, &vec![], &mut jump);
    assert!(matches!(step, AgentActivation::LandHere { pane: 3, row: Some(ref r) } if r == "ses_a"));
    assert!(jump.is_none());
}

#[test]
fn a_row_whose_session_is_gone_opens_nothing() {
    let mut jump = None;
    let sessions = vec![LiveSession { name: "other".into(), target: Some("host".into()) }];
    let location = AgentLocation::Elsewhere { target: Some("host".into()), session: "work".into(), pane: 3, row: None };
    assert!(matches!(activate(location, &sessions, &mut jump), AgentActivation::Gone));
    assert!(jump.is_none());
}

#[test]
fn a_destination_waits_for_its_own_session() {
    let mut jump = None;
    let sessions = vec![
        LiveSession { name: "work".into(), target: None },
        LiveSession { name: "work".into(), target: Some("host".into()) },
    ];
    let location = AgentLocation::Elsewhere { target: Some("host".into()), session: "work".into(), pane: 3, row: None };
    assert!(matches!(activate(location, &sessions, &mut jump), AgentActivation::Activate { session: 1 }));
    assert!(!pending_agent_has_arrived(&jump, &Some("work".into()), &None), "same name on another host");
    assert!(land_on_pending_agent(&mut jump, &Some("work".into()), &None).is_none());
    let landed: Option<AgentJump> = land_on_pending_agent(&mut jump, &Some("work".into()), &Some("host".into()));
    assert_eq!(landed.map(|j| j.pane), Some(3));
    assert!(jump.is_none());

    let mut refused = Some(AgentJump { target: None, session: "x".into(), pane: 1, row: None });
    activation_refused(&mut refused);
    assert!(refused.is_none());
}

fn navigator_entry() -> CatalogEntry {
    CatalogEntry {
        id: "vim-rozi-navigator".to_string(),
        title: "Vim and Neovim navigator".to_string(),
        version: "0.2.1".to_string(),
        repository: "tui-lipan/vim-rozi-navigator".to_string(),
        commit: "5b5c8b9323e260a7c10a63d792274ca155d51e26".to_string(),
        description: "Split-aware navigation".to_string(),
        platforms: vec![],
        commands: 0,
        services: 0,
        agents: 0,
        sidebar_tabs: 0,
        navigation_targets: 0,
        suggested_keybindings: 0,
    }
}

#[test]
fn catalog_source_links_the_indexed_commit() {
    let entry = navigator_entry();
    assert_eq!(
        catalog_source_url(&entry),
        "https://github.com/tui-lipan/vim-rozi-navigator/tree/\
         5b5c8b9323e260a7c10a63d792274ca155d51e26"
    );
}

#[test]
fn installation_kinds_have_compact_distinct_picker_labels() {
    assert_eq!(installation_kind_label(Some(&InstallKind::Git)), "git");
    assert_eq!(installation_kind_label(Some(&InstallKind::Local)), "copied");
    assert_eq!(installation_kind_label(Some(&InstallKind::Link)), "linked");
    assert_eq!(installation_kind_label(None), "manual");
}

#[test]
fn numbers_are_written_in_decimal() {
    assert_eq!(decimal_text(0), "0");
    assert_eq!(decimal_text(7), "7");
    assert_eq!(decimal_text(10), "10");
    assert_eq!(decimal_text(40213), "40213");
}

#[test]
fn texts_are_joined_with_the_separator_between_them() {
    assert_eq!(join_texts(&vec![], ", "), "");
    assert_eq!(join_texts(&vec!["linux".to_string()], ", "), "linux");
    assert_eq!(join_texts(&vec!["linux".to_string(), "macos".to_string()], ", "), "linux, macos");
}

fn rows(section: &ReportSection) -> Vec<(String, String, ReportTone)> {
    section.rows.iter().map(|r| (r.label.clone(), r.value.clone(), r.tone)).collect()
}

#[test]
fn a_catalog_report_has_four_sections_and_an_error_one_after_a_failure() {
    let mut entry = navigator_entry();
    entry.platforms = vec!["linux".to_string(), "macos".to_string()];
    entry.commands = 3;
    entry.suggested_keybindings = 12;
    let sections = catalog_report_sections(&entry, true, None, None);
    let titles: Vec<String> = sections.iter().map(|s| s.title.clone()).collect();
    assert_eq!(titles, ["Overview", "Source", "Contributions", "Trust"]);
    assert_eq!(
        rows(&sections[0]),
        vec![
            ("Installed".to_string(), "yes".to_string(), ReportTone::Success),
            ("Version".to_string(), "0.2.1".to_string(), ReportTone::Plain),
            ("Compatibility".to_string(), "compatible".to_string(), ReportTone::Success),
            ("Platforms".to_string(), "linux, macos".to_string(), ReportTone::Plain),
            ("Description".to_string(), "Split-aware navigation".to_string(), ReportTone::Muted),
        ]
    );
    assert_eq!(sections[2].rows[0].value, "3");
    assert_eq!(sections[2].rows[5].value, "12");

    let failed = catalog_report_sections(&navigator_entry(), false, Some("needs macOS".to_string()), Some("clone failed"));
    assert_eq!(failed.len(), 5);
    assert_eq!(failed[0].rows.len(), 4);
    assert_eq!(failed[0].rows[1].value, "needs macOS");
    assert_eq!(failed[0].rows[1].tone, ReportTone::Warning);
    assert_eq!(failed[0].rows[2].value, "all");
    assert_eq!(failed[4].title, "Installation failed");
    assert_eq!(rows(&failed[4]), vec![("Error".to_string(), "clone failed".to_string(), ReportTone::Error)]);
    assert!(failed.iter().all(|s| s.rows.iter().all(|r| r.kind == ReportKind::Info)));
}

#[test]
fn catalog_descriptions_name_installation_version_repository_and_reason() {
    let entry = navigator_entry();
    assert_eq!(catalog_description(&entry, false, None), "0.2.1 · tui-lipan/vim-rozi-navigator");
    assert_eq!(
        catalog_description(&entry, true, Some("needs macOS".to_string())),
        "installed · 0.2.1 · tui-lipan/vim-rozi-navigator · needs macOS"
    );
}

#[test]
fn installed_descriptions_count_keys_and_show_updates() {
    let mut summary = ExtensionSummary {
        version: Some("1.4.0".to_string()),
        kind: Some(InstallKind::Git),
        problem: None,
        updating: false,
        update_available: true,
        active_keys: 1,
        key_conflicts: 2,
    };
    assert_eq!(extension_description(&summary), "1.4.0 · git · update available · 1 key active · 2 key conflicts");
    summary.active_keys = 3;
    summary.key_conflicts = 1;
    summary.update_available = false;
    summary.version = None;
    summary.kind = None;
    summary.problem = Some("manifest is invalid".to_string());
    assert_eq!(extension_description(&summary), "manual · manifest is invalid · 3 keys active · 1 key conflict");
    summary.updating = true;
    assert_eq!(extension_description(&summary), "updating…");
}

#[test]
fn enabling_after_disabling_is_the_same_as_enabling() {
    let list = vec!["zed".to_string(), " git ".to_string(), "alpha".to_string()];
    let id = "git".to_string();
    let disabled = toggle_disabled(&list, &id, true);
    assert!(disabled.iter().any(|e| e.trim() == "git"));
    assert_eq!(toggle_disabled(&disabled, &id, false), toggle_disabled(&list, &id, false));
    assert_eq!(toggle_disabled(&disabled, &id, false), ["alpha", "zed"]);
    let other = "new".to_string();
    let with_new = toggle_disabled(&list, &other, true);
    assert_eq!(toggle_disabled(&with_new, &other, false), toggle_disabled(&list, &other, false));
}

#[test]
fn removing_an_extension_drops_it_from_the_disabled_list_in_place() {
    let list = vec!["zed".to_string(), " git ".to_string(), "alpha".to_string(), "git".to_string()];
    let (kept, changed) = drop_removed_from_disabled(&list, &"git".to_string());
    assert_eq!(kept, ["zed", "alpha"]);
    assert!(changed);
    let (same, changed) = drop_removed_from_disabled(&kept, &"git".to_string());
    assert_eq!(same, kept);
    assert!(!changed);
}

#[test]
fn another_installation_of_the_same_id_keeps_its_disabled_entry() {
    let entries = vec![
        Installation { path: "/ext/git-a".to_string(), id: Some("git".to_string()) },
        Installation { path: "/ext/git-b".to_string(), id: Some("git".to_string()) },
        Installation { path: "/ext/lint".to_string(), id: None },
    ];
    assert!(duplicate_installation_remains(&entries, &"/ext/git-a".to_string(), &Some("git".to_string())));
    assert!(!duplicate_installation_remains(&entries[..1].to_vec(), &"/ext/git-a".to_string(), &Some("git".to_string())));
    assert!(!duplicate_installation_remains(&entries, &"/ext/lint".to_string(), &None));
}

#[test]
fn key_conflicts_are_warned_about_with_their_count() {
    let id = "vim-nav".to_string();
    assert_eq!(key_conflict_warning(&id, 0), None);
    assert_eq!(
        key_conflict_warning(&id, 1),
        Some(("vim-nav keybindings not bound".to_string(), "1 suggested key already bound".to_string()))
    );
    assert_eq!(key_conflict_warning(&id, 4).unwrap().1, "4 suggested keys already bound");
}

#[test]
fn the_manager_acts_only_on_a_visible_highlighted_row() {
    let mut m = selection();
    m.selected = 2;
    assert_eq!(selected_installed(&m, &vec![0, 2]), Some(2));
    assert_eq!(selected_installed(&m, &vec![0, 1]), None);
    m.catalog_selected = Some(4);
    assert_eq!(selected_catalog(&m, &vec![4]), None, "the Discover tab is not showing");
    m.tab = ExtensionsTab::Discover;
    assert_eq!(selected_catalog(&m, &vec![4]), Some(4));
    assert_eq!(selected_installed(&m, &vec![0, 2]), None);
}

#[test]
fn a_new_installation_is_shown_on_the_installed_tab() {
    let mut m = selection();
    m.tab = ExtensionsTab::Discover;
    let ids = vec![Some("alpha".to_string()), None, Some("git".to_string()), Some("git".to_string())];
    show_installed(&mut m, &ids, &"git".to_string(), &vec![0, 1, 2, 3], &vec![]);
    assert_eq!((m.tab, m.selected), (ExtensionsTab::Installed, 2));
    select_by_id(&mut m, &ids, &"missing".to_string());
    assert_eq!(m.selected, 2, "an unknown id leaves the highlight");
    show_installed(&mut m, &ids, &"alpha".to_string(), &vec![1, 3], &vec![]);
    assert_eq!(m.selected, 1, "a hidden row gives way to the first visible one");
}

#[test]
fn removal_leaves_what_enabling_leaves() {
    let list = vec!["zed".to_string(), " git".to_string(), "alpha".to_string()];
    let id = "git".to_string();
    let (mut removed, _) = drop_removed_from_disabled(&list, &id);
    removed.sort();
    assert_eq!(removed, toggle_disabled(&list, &id, false));
}
