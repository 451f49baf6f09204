use hyprmux::extensions::{CatalogEntry, ExtensionsTab, InstallKind};
use hyprmux::install::{
    catalog_install_finished, catalog_loaded, close_install, git_installation_ids, load_catalog, open_manager,
    refresh_after_scan,
    CachedCatalog, install_error_scrolled, install_finished,
    install_source_changed, open_install, scroll_install_error_by, start_catalog_install, start_update, submit_install,
    update_finished, update_finished_while_closed, updates_checked, CatalogInstallOutcome, CatalogState,
    InstallOutcome, SubmitStep, UpdateOutcome, UpdateState,
};

fn entry(repository: &str) -> CatalogEntry {
    CatalogEntry {
        id: repository.to_string(),
        title: repository.to_string(),
        version: "1.0.0".to_string(),
        repository: repository.to_string(),
        commit: "abc".to_string(),
        description: String::new(),
        platforms: vec![],
        commands: 0,
        services: 0,
        agents: 0,
        sidebar_tabs: 0,
        navigation_targets: 0,
        suggested_keybindings: 0,
    }
}

#[test]
fn a_blank_source_is_refused_and_a_real_one_installs_trimmed() {
    let mut prompt = open_install();
    assert_eq!(submit_install(&mut prompt), SubmitStep::Missing);
    assert_eq!(prompt.error.as_deref(), Some("Enter a local path or Git URL"));
    assert!(install_source_changed(&mut prompt, "  https://example.org/ext.git ".to_string()));
    assert_eq!(prompt.error, None);
    assert_eq!(submit_install(&mut prompt), SubmitStep::Install("https://example.org/ext.git".to_string()));
    assert!(prompt.installing);
    assert_eq!(submit_install(&mut prompt), SubmitStep::Busy);
    assert!(!install_source_changed(&mut prompt, "other".to_string()), "no edits while installing");
    let mut open = Some(prompt);
    assert!(!close_install(&mut open), "a running install keeps the prompt");
    assert!(open.is_some());
}

#[test]
fn a_failed_install_shows_in_the_prompt_or_a_notification() {
    let mut open = Some(open_install());
    open.as_mut().unwrap().installing = true;
    assert_eq!(install_finished(&mut open, Err("clone failed".to_string())), InstallOutcome::ShownInPrompt);
    let prompt = open.as_ref().unwrap();
    assert!(!prompt.installing);
    assert_eq!(prompt.error.as_deref(), Some("clone failed"));
    assert!(close_install(&mut open));
    assert_eq!(install_finished(&mut open, Err("late".to_string())), InstallOutcome::Notify("late".to_string()));
    let mut again = Some(open_install());
    assert_eq!(install_finished(&mut again, Ok("git".to_string())), InstallOutcome::Installed("git".to_string()));
    assert!(again.is_none());
}

#[test]
fn the_install_error_scrolls_within_its_bounds() {
    let mut prompt = open_install();
    assert!(!scroll_install_error_by(&mut prompt, 3), "no error, nothing to scroll");
    prompt.error = Some("a long error".to_string());
    assert!(scroll_install_error_by(&mut prompt, 3));
    assert_eq!(prompt.error_scroll_offset, 3);
    assert!(install_error_scrolled(&mut prompt, 9, 5));
    assert_eq!((prompt.error_scroll_offset, prompt.error_scroll_max), (5, Some(5)));
    assert!(!install_error_scrolled(&mut prompt, 7, 5));
    assert!(!scroll_install_error_by(&mut prompt, 2), "held at the end");
    assert!(scroll_install_error_by(&mut prompt, -10));
    assert_eq!(prompt.error_scroll_offset, 0);
    assert!(!scroll_install_error_by(&mut prompt, isize::MIN));
}

#[test]
fn a_loaded_index_keeps_the_highlight_on_its_repository() {
    let mut catalog = CatalogState {
        epoch: 2,
        loading: true,
        entries: vec![entry("a/one"), entry("b/two")],
        error: None,
        selected: Some(1),
    };
    assert!(!catalog_loaded(&mut catalog, 1, Ok(vec![])), "an older load changes nothing");
    assert!(catalog.loading);
    assert!(catalog_loaded(&mut catalog, 2, Ok(vec![entry("c/three"), entry("b/two"), entry("a/one")])));
    assert_eq!(catalog.selected, Some(1));
    assert!(!catalog.loading);
    assert!(catalog_loaded(&mut catalog, 2, Err("offline".to_string())));
    assert_eq!(catalog.entries.len(), 3, "listed rows stay usable offline");
    assert_eq!(catalog.error.as_deref(), Some("offline"));
    assert!(catalog_loaded(&mut catalog, 2, Ok(vec![entry("a/one")])));
    assert_eq!(catalog.selected, None, "its repository is gone");
    assert_eq!(catalog.error, None);
}

#[test]
fn index_installs_run_one_at_a_time_and_finish_where_the_user_is() {
    let mut running = None;
    let repo = "b/two".to_string();
    assert!(!start_catalog_install(&mut running, &repo, false, false), "cannot run here");
    assert!(!start_catalog_install(&mut running, &repo, true, true), "installed already");
    assert!(start_catalog_install(&mut running, &repo, true, false));
    assert!(!start_catalog_install(&mut running, &"a/one".to_string(), true, false));
    let other = "a/one".to_string();
    assert_eq!(catalog_install_finished(&mut running, &other, None, Ok("one".to_string())), CatalogInstallOutcome::Stale);
    assert_eq!(
        catalog_install_finished(&mut running, &repo, Some(&repo), Ok("two".to_string())),
        CatalogInstallOutcome::Installed { id: "two".to_string(), report_was_open: true }
    );
    assert_eq!(running, None);
    assert!(start_catalog_install(&mut running, &repo, true, false));
    assert_eq!(
        catalog_install_finished(&mut running, &repo, Some(&other), Err("bad commit".to_string())),
        CatalogInstallOutcome::Failed { error: "bad commit".to_string(), report_was_open: false }
    );
}

#[test]
fn only_git_installs_update_and_one_at_a_time() {
    let mut state = UpdateState { updating: None, check_epoch: 1, available: vec!["git".to_string(), "lint".to_string()] };
    let lint = "lint".to_string();
    assert!(!start_update(&mut state, &lint, Some(InstallKind::Local), 2));
    assert!(!start_update(&mut state, &lint, None, 2));
    assert!(start_update(&mut state, &lint, Some(InstallKind::Git), 2));
    assert_eq!(state.check_epoch, 2);
    assert!(!start_update(&mut state, &"git".to_string(), Some(InstallKind::Git), 3));
    assert!(!updates_checked(&mut state, 1, vec![]), "a check started before the update is stale");
    assert_eq!(update_finished(&mut state, &"git".to_string(), Ok(true)), UpdateOutcome::Ignored);
    assert_eq!(update_finished(&mut state, &lint, Ok(true)), UpdateOutcome::Updated { select: true, notify: false });
    assert_eq!(state.updating, None);
    assert_eq!(state.available, ["git"]);
    assert!(updates_checked(&mut state, 2, vec!["lint".to_string()]));
    assert_eq!(state.available, ["lint"]);
}

#[test]
fn updates_report_what_became_of_them() {
    let id = "lint".to_string();
    assert_eq!(update_finished_while_closed(&id, Ok(true)), UpdateOutcome::Updated { select: false, notify: true });
    assert_eq!(update_finished_while_closed(&id, Ok(false)), UpdateOutcome::UpToDate("lint is up to date".to_string()));
    assert_eq!(update_finished_while_closed(&id, Err("offline".to_string())), UpdateOutcome::Failed("offline".to_string()));
}

#[test]
fn the_manager_opens_on_the_installed_tab_with_nothing_loaded() {
    let (selection, catalog, updates) = open_manager(7, 3, &vec![2, 5]);
    assert_eq!(selection.tab, ExtensionsTab::Installed);
    assert_eq!(selection.selected, 2);
    assert_eq!(selection.pending_remove, None);
    assert_eq!((catalog.epoch, catalog.loading, catalog.entries.len(), catalog.selected), (3, false, 0, None));
    assert_eq!((updates.check_epoch, updates.updating.clone(), updates.available.len()), (7, None, 0));
    let (empty, _, _) = open_manager(0, 0, &vec![]);
    assert_eq!(empty.selected, 0);
}

#[test]
fn a_fresh_cached_index_is_listed_without_a_fetch() {
    let (_, mut catalog, _) = open_manager(0, 1, &vec![]);
    catalog.error = Some("old".to_string());
    assert!(!load_catalog(&mut catalog, Some(CachedCatalog { entries: vec![entry("a/one")], fresh: true }), 2, true));
    assert_eq!((catalog.entries.len(), catalog.epoch), (1, 1));
    assert_eq!(catalog.error.as_deref(), Some("old"));
    assert!(load_catalog(&mut catalog, Some(CachedCatalog { entries: vec![entry("a/one"), entry("b/two")], fresh: false }), 2, true));
    assert_eq!((catalog.entries.len(), catalog.epoch, catalog.loading), (2, 2, true));
    assert_eq!(catalog.error, None);
    assert!(!load_catalog(&mut catalog, None, 3, false), "isolated directories fetch nothing");
    assert_eq!((catalog.entries.len(), catalog.epoch, catalog.loading), (2, 3, false));
}

#[test]
fn update_checks_ask_about_git_installations_only() {
    let kinds = vec![
        ("alpha".to_string(), InstallKind::Git),
        ("beta".to_string(), InstallKind::Link),
        ("gamma".to_string(), InstallKind::Git),
        ("delta".to_string(), InstallKind::Local),
    ];
    assert_eq!(git_installation_ids(&kinds), ["alpha", "gamma"]);
}

#[test]
fn a_rescan_keeps_the_highlight_on_its_installation() {
    let (mut m, _, mut updates) = open_manager(0, 0, &vec![]);
    m.pending_remove = Some("/ext/b".to_string());
    updates.available = vec!["b".to_string(), "gone".to_string()];
    let paths = vec!["/ext/a".to_string(), "/ext/c".to_string(), "/ext/b".to_string()];
    let report = refresh_after_scan(
        &mut m,
        &mut updates,
        &paths,
        &vec!["a".to_string(), "b".to_string()],
        Some("/ext/b".to_string()),
        Some("/ext/c".to_string()),
    );
    assert_eq!(m.selected, 2);
    assert_eq!(m.pending_remove, None);
    assert_eq!(updates.available, ["b"]);
    assert_eq!(report, Some(1));
    let report = refresh_after_scan(&mut m, &mut updates, &paths, &vec![], Some("/ext/x".to_string()), Some("/ext/x".to_string()));
    assert_eq!((m.selected, report), (0, None));
    assert!(updates.available.is_empty());
}
