//! What a live configuration reload decides once the file has been read: which repaint loops it
//! has to kick, which notices it posts, and whom it asks to reload agent detection.

use vstd::prelude::*;

verus! {

/// How watching the configured theme file went.
#[derive(Clone, Copy, Debug, PartialEq, Eq, Structural)]
pub enum ThemeWatch {
    /// The theme names no file to watch.
    Unwatched,
    /// A watcher runs on the theme file.
    Watching,
    /// The theme names a file, but watching it failed.
    Failed,
}

/// What the reload found, read off the old and the new configuration.
#[derive(Clone, Debug)]
pub struct ReloadFacts {
    pub had_theme_watcher: bool,
    pub theme_watch: ThemeWatch,
    /// The old workbar had a clock segment, so its repaint loop is already running.
    pub had_clock: bool,
    pub has_clock: bool,
    /// Services are running or waiting to start after the reload.
    pub services_busy: bool,
    /// The warnings of loading the file, then those of resolving its theme.
    pub warnings: Vec<String>,
    /// This client controls the session and is connected to a session server.
    pub controller_with_session: bool,
    pub has_scratch_client: bool,
    /// Whether OSC 52 copies are on in the running client.
    pub osc52_running: bool,
    /// Whether the sidebar is shown in this client.
    pub sidebar_visible: bool,
}

/// A notice the reload posts.
#[derive(Clone, Debug, PartialEq, Eq)]
pub enum ReloadNotice {
    /// Watching the theme file failed.
    ThemeWatchFailed,
    /// A warning of the load, shown as an error.
    Warning(String),
    /// The reload went through cleanly; the message names what was reloaded.
    Reloaded,
}

/// A repaint loop the reload kicks, with how long to wait before its first tick.
#[derive(Clone, Copy, Debug, PartialEq, Eq, Structural)]
pub enum ReloadTick {
    Theme { after_ms: u64 },
    Workbar,
    Services { after_ms: u64, epoch: u64 },
}

/// What the reload does after applying the new configuration.
#[derive(Clone, Debug)]
pub struct ReloadPlan {
    pub notices: Vec<ReloadNotice>,
    /// A clean reload is also announced to event subscribers.
    pub announce: bool,
    pub reload_session_agents: bool,
    pub reload_scratch_agents: bool,
    pub ticks: Vec<ReloadTick>,
    /// The OSC 52 gate the new configuration runs with: the running client's, since its clipboard
    /// service was configured at start, whatever the file now says.
    pub osc52: bool,
    /// Whether the sidebar is shown: a reload leaves this client's view chrome as it is, since
    /// the file's `visible` is a startup default only.
    pub sidebar_visible: bool,
    /// The command list is rebuilt: key bindings, user and extension commands may have changed.
    pub commands_dirty: bool,
}

pub open spec fn warning_notices(w: Seq<String>) -> Seq<ReloadNotice> {
    w.map_values(|s: String| ReloadNotice::Warning(s))
}

/// The notices of a reload: a failed theme watch first, then each warning; only a reload without
/// warnings says it went through.
pub open spec fn reload_notices(f: ReloadFacts) -> Seq<ReloadNotice> {
    (if f.theme_watch == ThemeWatch::Failed {
        seq![ReloadNotice::ThemeWatchFailed]
    } else {
        Seq::empty()
    }) + warning_notices(f.warnings@) + (if f.warnings@.len() == 0 {
        seq![ReloadNotice::Reloaded]
    } else {
        Seq::empty()
    })
}

/// The theme loop starts when a watcher now runs and none ran before.
pub open spec fn starts_theme(f: ReloadFacts) -> bool {
    f.theme_watch == ThemeWatch::Watching && !f.had_theme_watcher
}

/// The clock loop reschedules itself only while a clock is configured, so it needs a kick
/// exactly when a clock appears.
pub open spec fn starts_workbar(f: ReloadFacts) -> bool {
    !f.had_clock && f.has_clock
}

/// The loops a reload kicks, in order: the theme's after 150 ms, the clock's at once, and the
/// services' after a second, tagged with the services epoch.
pub open spec fn reload_ticks(f: ReloadFacts, services_epoch: u64) -> Seq<ReloadTick> {
    (if starts_theme(f) {
        seq![ReloadTick::Theme { after_ms: 150 }]
    } else {
        Seq::empty()
    }) + (if starts_workbar(f) {
        seq![ReloadTick::Workbar]
    } else {
        Seq::empty()
    }) + (if f.services_busy {
        seq![ReloadTick::Services { after_ms: 1000, epoch: services_epoch }]
    } else {
        Seq::empty()
    })
}

fn push_warnings(notices: &mut Vec<ReloadNotice>, warnings: &Vec<String>)
    ensures
        final(notices)@ == old(notices)@ + warning_notices(warnings@),
{
    let ghost start = notices@;
    let mut i: usize = 0;
    while i < warnings.len()
        invariant
            i <= warnings.len(),
            notices@ == start + warning_notices(warnings@.take(i as int)),
        decreases warnings.len() - i,
    {
        notices.push(ReloadNotice::Warning(warnings[i].clone()));
        proof {
            assert(warning_notices(warnings@.take(i as int + 1)) =~= warning_notices(warnings@.take(i as int)).push(
                ReloadNotice::Warning(warnings@[i as int]),
            ));
        }
        i = i + 1;
    }
    proof {
        assert(warnings@.take(warnings@.len() as int) =~= warnings@);
    }
}

/// What a reload does once the new configuration is in place: the notices it posts, whether it
/// announces itself, that the command list is rebuilt, that the OSC 52 gate and the sidebar's
/// visibility stay as they are, whom it asks to reload agent detection (the session server only from the
/// controlling client, since its answer is shared by every client), and which loops it kicks.
pub fn plan_reload(facts: &ReloadFacts, services_epoch: u64) -> (r: ReloadPlan)
    ensures
        r.notices@ == reload_notices(*facts),
        r.announce == (facts.warnings@.len() == 0),
        r.reload_session_agents == facts.controller_with_session,
        r.reload_scratch_agents == facts.has_scratch_client,
        r.ticks@ == reload_ticks(*facts, services_epoch),
        r.osc52 == facts.osc52_running,
        r.sidebar_visible == facts.sidebar_visible,
        r.commands_dirty,
{
    let mut notices: Vec<ReloadNotice> = Vec::new();
    if facts.theme_watch == ThemeWatch::Failed {
        notices.push(ReloadNotice::ThemeWatchFailed);
    }
    push_warnings(&mut notices, &facts.warnings);
    let clean = facts.warnings.len() == 0;
    if clean {
        notices.push(ReloadNotice::Reloaded);
    }
    let mut ticks: Vec<ReloadTick> = Vec::new();
    if facts.theme_watch == ThemeWatch::Watching && !facts.had_theme_watcher {
        ticks.push(ReloadTick::Theme { after_ms: 150 });
    }
    if !facts.had_clock && facts.has_clock {
        ticks.push(ReloadTick::Workbar);
    }
    if facts.services_busy {
        ticks.push(ReloadTick::Services { after_ms: 1000, epoch: services_epoch });
    }
    proof {
        assert(notices@ =~= reload_notices(*facts));
        assert(ticks@ =~= reload_ticks(*facts, services_epoch));
    }
    ReloadPlan {
        notices,
        announce: clean,
        reload_session_agents: facts.controller_with_session,
        reload_scratch_agents: facts.has_scratch_client,
        ticks,
        osc52: facts.osc52_running,
        sidebar_visible: facts.sidebar_visible,
        commands_dirty: true,
    }
}

} // verus!
