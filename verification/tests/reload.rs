use hyprmux::reload::{plan_reload, ReloadFacts, ReloadNotice, ReloadTick, ThemeWatch};

fn quiet() -> ReloadFacts {
    ReloadFacts {
        had_theme_watcher: false,
        theme_watch: ThemeWatch::Unwatched,
        had_clock: false,
        has_clock: false,
        services_busy: false,
        warnings: vec![],
        controller_with_session: false,
        has_scratch_client: false,
        osc52_running: true,
        sidebar_visible: false,
    }
}

#[test]
fn a_clean_reload_says_so_and_kicks_nothing() {
    let plan = plan_reload(&quiet(), 4);
    assert_eq!(plan.notices, vec![ReloadNotice::Reloaded]);
    assert!(plan.announce);
    assert!(plan.ticks.is_empty());
    assert!(!plan.reload_session_agents);
    assert!(!plan.reload_scratch_agents);
    assert!(plan.commands_dirty);
    assert!(plan.osc52, "the running clipboard gate stays until a restart");
    assert!(!plan.sidebar_visible, "a reload neither opens nor closes the sidebar");
}

#[test]
fn warnings_replace_the_success_notice() {
    let mut facts = quiet();
    facts.warnings = vec!["unknown key `foo`".to_string(), "theme `x` not found".to_string()];
    facts.theme_watch = ThemeWatch::Failed;
    let plan = plan_reload(&facts, 0);
    assert_eq!(
        plan.notices,
        vec![
            ReloadNotice::ThemeWatchFailed,
            ReloadNotice::Warning("unknown key `foo`".to_string()),
            ReloadNotice::Warning("theme `x` not found".to_string()),
        ]
    );
    assert!(!plan.announce);
}

#[test]
fn loops_start_only_when_they_were_not_running() {
    let mut facts = quiet();
    facts.theme_watch = ThemeWatch::Watching;
    facts.has_clock = true;
    facts.services_busy = true;
    facts.controller_with_session = true;
    facts.has_scratch_client = true;
    let plan = plan_reload(&facts, 9);
    assert_eq!(
        plan.ticks,
        vec![ReloadTick::Theme { after_ms: 150 }, ReloadTick::Workbar, ReloadTick::Services { after_ms: 1000, epoch: 9 }]
    );
    assert!(plan.reload_session_agents && plan.reload_scratch_agents);

    facts.had_theme_watcher = true;
    facts.had_clock = true;
    facts.services_busy = false;
    assert!(plan_reload(&facts, 9).ticks.is_empty());
}
