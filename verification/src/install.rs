//! Installing and updating extensions from the manager: the prompt that takes a local path or Git
//! URL, the scrollable error it shows, the extension index as it loads, installs started from the
//! index, and updates of extensions installed from Git.

use vstd::prelude::*;

use crate::extensions::{normalize_selection, texts, CatalogEntry, ExtensionsTab, InstallKind, ManagerSelection};
use crate::text::{trim_text, trimmed};

verus! {

/// The install prompt: the source typed so far, the error of the last attempt with how far it is
/// scrolled and how far it can be, and whether an install is running.
#[derive(Clone, Debug)]
pub struct InstallPrompt {
    pub source: String,
    pub error: Option<String>,
    pub error_scroll_offset: usize,
    pub error_scroll_max: Option<usize>,
    pub installing: bool,
}

/// A prompt whose error, if any, is gone, along with its scroll position.
pub open spec fn error_cleared(p: InstallPrompt, q: InstallPrompt) -> bool {
    &&& q.error is None
    &&& q.error_scroll_offset == 0
    &&& q.error_scroll_max is None
    &&& q.installing == p.installing
}

/// Open the install prompt, empty and idle.
pub fn open_install() -> (r: InstallPrompt)
    ensures
        r.source@ == Seq::<char>::empty(),
        r.error is None,
        r.error_scroll_offset == 0,
        r.error_scroll_max is None,
        !r.installing,
{
    InstallPrompt { source: String::new(), error: None, error_scroll_offset: 0, error_scroll_max: None, installing: false }
}

/// The source was edited. While an install runs the prompt takes no edits; otherwise the new
/// source replaces the old one and the last error goes. Returns whether the prompt changed.
pub fn install_source_changed(prompt: &mut InstallPrompt, source: String) -> (r: bool)
    ensures
        r == !old(prompt).installing,
        !r ==> *final(prompt) == *old(prompt),
        r ==> final(prompt).source@ == source@ && error_cleared(*old(prompt), *final(prompt)),
{
    if prompt.installing {
        return false;
    }
    prompt.source = source;
    prompt.error = None;
    prompt.error_scroll_offset = 0;
    prompt.error_scroll_max = None;
    true
}

/// The offset a scroll by `delta` lines asks for: moved without running past either end of the
/// number range, then held to the farthest offset when that is known.
pub open spec fn scrolled_offset(offset: usize, delta: isize, max: Option<usize>) -> int {
    let moved = if offset + delta < 0 {
        0
    } else if offset + delta > usize::MAX {
        usize::MAX as int
    } else {
        offset + delta
    };
    match max {
        Some(m) => if moved < m {
            moved
        } else {
            m as int
        },
        None => moved,
    }
}

/// Scroll the install error by `delta` lines. Without an error there is nothing to scroll.
/// Returns whether the offset moved.
pub fn scroll_install_error_by(prompt: &mut InstallPrompt, delta: isize) -> (r: bool)
    ensures
        final(prompt).source == old(prompt).source,
        final(prompt).error == old(prompt).error,
        final(prompt).error_scroll_max == old(prompt).error_scroll_max,
        final(prompt).installing == old(prompt).installing,
        old(prompt).error is None ==> !r && final(prompt).error_scroll_offset == old(prompt).error_scroll_offset,
        old(prompt).error is Some ==> final(prompt).error_scroll_offset == scrolled_offset(
            old(prompt).error_scroll_offset,
            delta,
            old(prompt).error_scroll_max,
        ),
        r == (final(prompt).error_scroll_offset != old(prompt).error_scroll_offset),
{
    if prompt.error.is_none() {
        return false;
    }
    let current = prompt.error_scroll_offset;
    let moved: usize = if delta < 0 {
        let back: i128 = -(delta as i128);
        if (current as i128) < back {
            0
        } else {
            (current as i128 - back) as usize
        }
    } else {
        let ahead: i128 = delta as i128;
        if (current as i128) + ahead > usize::MAX as i128 {
            usize::MAX
        } else {
            (current as i128 + ahead) as usize
        }
    };
    let offset = match prompt.error_scroll_max {
        Some(max) => if moved < max {
            moved
        } else {
            max
        },
        None => moved,
    };
    if offset == current {
        return false;
    }
    prompt.error_scroll_offset = offset;
    true
}

/// The error view reports where it scrolled to and how far it can go: the offset is held to that
/// limit and both are kept. Without an error there is nothing to scroll. Returns whether the
/// prompt changed.
pub fn install_error_scrolled(prompt: &mut InstallPrompt, offset: usize, max_offset: usize) -> (r: bool)
    ensures
        final(prompt).source == old(prompt).source,
        final(prompt).error == old(prompt).error,
        final(prompt).installing == old(prompt).installing,
        old(prompt).error is None ==> !r && *final(prompt) == *old(prompt),
        old(prompt).error is Some ==> {
            &&& final(prompt).error_scroll_offset == if offset < max_offset {
                offset
            } else {
                max_offset
            }
            &&& final(prompt).error_scroll_max == Some(max_offset)
            &&& r == (old(prompt).error_scroll_offset != final(prompt).error_scroll_offset
                || old(prompt).error_scroll_max != Some(max_offset))
        },
{
    if prompt.error.is_none() {
        return false;
    }
    let held = if offset < max_offset {
        offset
    } else {
        max_offset
    };
    let same_max = match prompt.error_scroll_max {
        Some(m) => m == max_offset,
        None => false,
    };
    if prompt.error_scroll_offset == held && same_max {
        return false;
    }
    prompt.error_scroll_offset = held;
    prompt.error_scroll_max = Some(max_offset);
    true
}

/// Close the install prompt, unless an install is running: that one has to finish first.
/// Returns whether it closed.
pub fn close_install(prompt: &mut Option<InstallPrompt>) -> (r: bool)
    ensures
        r == (*old(prompt) matches Some(p) && !p.installing),
        r ==> *final(prompt) is None,
        !r ==> *final(prompt) == *old(prompt),
{
    let closes = match prompt {
        Some(p) => !p.installing,
        None => false,
    };
    if closes {
        *prompt = None;
    }
    closes
}

/// What submitting the install prompt does.
#[derive(Clone, Debug, PartialEq, Eq)]
pub enum SubmitStep {
    /// An install is already running.
    Busy,
    /// There is no source; the prompt says what to enter.
    Missing,
    /// Install from this source, trimmed.
    Install(String),
}

/// Submit the install prompt: nothing while an install runs; a blank source is refused with a
/// hint; otherwise the error goes and the install of the trimmed source starts.
pub fn submit_install(prompt: &mut InstallPrompt) -> (r: SubmitStep)
    ensures
        final(prompt).source == old(prompt).source,
        old(prompt).installing ==> r == SubmitStep::Busy && *final(prompt) == *old(prompt),
        !old(prompt).installing && trimmed(old(prompt).source@).len() == 0 ==> {
            &&& r == SubmitStep::Missing
            &&& final(prompt).error matches Some(e) && e@ == "Enter a local path or Git URL"@
            &&& final(prompt).error_scroll_offset == 0
            &&& final(prompt).error_scroll_max is None
            &&& !final(prompt).installing
        },
        !old(prompt).installing && trimmed(old(prompt).source@).len() > 0 ==> {
            &&& r matches SubmitStep::Install(s) && s@ == trimmed(old(prompt).source@)
            &&& final(prompt).error is None
            &&& final(prompt).error_scroll_offset == 0
            &&& final(prompt).error_scroll_max is None
            &&& final(prompt).installing
        },
{
    if prompt.installing {
        return SubmitStep::Busy;
    }
    let source = trim_text(prompt.source.as_str());
    prompt.error_scroll_offset = 0;
    prompt.error_scroll_max = None;
    if source.unicode_len() == 0 {
        prompt.error = Some(String::from_str("Enter a local path or Git URL"));
        return SubmitStep::Missing;
    }
    prompt.error = None;
    prompt.installing = true;
    SubmitStep::Install(source)
}

/// What a finished install from the prompt comes to.
#[derive(Clone, Debug, PartialEq, Eq)]
pub enum InstallOutcome {
    /// Installed as extension `id`: the prompt closed, and the manager reloads and selects it.
    Installed(String),
    /// It failed and the prompt shows why.
    ShownInPrompt,
    /// It failed and the prompt is gone, so a notification says why.
    Notify(String),
}

/// An install from the prompt finished: success closes the prompt onto the new extension;
/// failure puts the error in the prompt, scrolled to its start, or in a notification when the
/// prompt is gone.
pub fn install_finished(prompt: &mut Option<InstallPrompt>, result: Result<String, String>) -> (r: InstallOutcome)
    ensures
        match result {
            Ok(id) => r == InstallOutcome::Installed(id) && *final(prompt) is None,
            Err(e) => match *old(prompt) {
                Some(p) => {
                    &&& r == InstallOutcome::ShownInPrompt
                    &&& *final(prompt) matches Some(q) && q.source == p.source && !q.installing
                        && q.error == Some(e) && q.error_scroll_offset == 0 && q.error_scroll_max is None
                },
                None => r == InstallOutcome::Notify(e) && *final(prompt) is None,
            },
        },
{
    match result {
        Ok(id) => {
            *prompt = None;
            InstallOutcome::Installed(id)
        },
        Err(error) => match prompt {
            Some(p) => {
                p.installing = false;
                p.error = Some(error);
                p.error_scroll_offset = 0;
                p.error_scroll_max = None;
                InstallOutcome::ShownInPrompt
            },
            None => InstallOutcome::Notify(error),
        },
    }
}

/// The extension index as the Discover tab holds it: the load it waits for, the entries listed
/// (from the cache or an earlier fetch), the error of the last load, and the highlighted row.
pub struct CatalogState {
    pub epoch: u64,
    pub loading: bool,
    pub entries: Vec<CatalogEntry>,
    pub error: Option<String>,
    pub selected: Option<usize>,
}

/// The repositories of the entries, in order.
pub open spec fn repositories(entries: Seq<CatalogEntry>) -> Seq<Seq<char>> {
    entries.map_values(|e: CatalogEntry| e.repository@)
}

/// The first row whose repository is `repository`.
pub open spec fn first_row_of(repos: Seq<Seq<char>>, repository: Seq<char>) -> Option<usize> {
    if exists|i: int| 0 <= i < repos.len() && repos[i] == repository {
        Some(
            (choose|i: int|
                0 <= i < repos.len() && repos[i] == repository && forall|j: int| 0 <= j < i ==> repos[j] != repository) as usize,
        )
    } else {
        None
    }
}

/// Where the highlight goes when the entries are replaced: rows are addressed by position and a
/// refresh may reorder or drop them, so it follows the repository it was on.
pub open spec fn followed_selection(
    old_entries: Seq<CatalogEntry>,
    selected: Option<usize>,
    new_entries: Seq<CatalogEntry>,
) -> Option<usize> {
    match selected {
        Some(i) if i < old_entries.len() => first_row_of(repositories(new_entries), old_entries[i as int].repository@),
        _ => None,
    }
}

fn row_of(entries: &Vec<CatalogEntry>, repository: &String) -> (r: Option<usize>)
    ensures
        r == first_row_of(repositories(entries@), repository@),
{
    let ghost repos = repositories(entries@);
    let mut i: usize = 0;
    while i < entries.len()
        invariant
            i <= entries.len(),
            repos == repositories(entries@),
            forall|j: int| 0 <= j < i ==> repos[j] != repository@,
        decreases entries.len() - i,
    {
        if entries[i].repository == *repository {
            proof {
                assert(repos[i as int] == repository@);
                let k = choose|k: int|
                    0 <= k < repos.len() && repos[k] == repository@ && forall|j: int| 0 <= j < k ==> repos[j] != repository@;
                assert(k == i) by {
                    if k < i {
                        assert(repos[k] != repository@);
                    }
                    if k > i {
                        assert(repos[i as int] != repository@);
                    }
                }
            }
            return Some(i);
        }
        i = i + 1;
    }
    None
}

/// A load of the index finished. A load other than the one waited for changes nothing. New
/// entries replace the listed ones and clear the error, the highlight following its repository;
/// a failure keeps the listed rows usable offline and records the error. Returns whether the load
/// was the one waited for.
pub fn catalog_loaded(catalog: &mut CatalogState, epoch: u64, result: Result<Vec<CatalogEntry>, String>) -> (r: bool)
    ensures
        r == (old(catalog).epoch == epoch),
        final(catalog).epoch == old(catalog).epoch,
        !r ==> final(catalog).loading == old(catalog).loading && final(catalog).entries@ == old(catalog).entries@
            && final(catalog).error == old(catalog).error && final(catalog).selected == old(catalog).selected,
        r ==> !final(catalog).loading,
        r ==> match result {
            Ok(entries) => {
                &&& final(catalog).entries@ == entries@
                &&& final(catalog).error is None
                &&& final(catalog).selected == followed_selection(old(catalog).entries@, old(catalog).selected, entries@)
            },
            Err(e) => {
                &&& final(catalog).entries@ == old(catalog).entries@
                &&& final(catalog).error == Some(e)
                &&& final(catalog).selected == old(catalog).selected
            },
        },
{
    if catalog.epoch != epoch {
        return false;
    }
    catalog.loading = false;
    match result {
        Ok(entries) => {
            let followed = match catalog.selected {
                Some(i) => if i < catalog.entries.len() {
                    row_of(&entries, &catalog.entries[i].repository)
                } else {
                    None
                },
                None => None,
            };
            catalog.entries = entries;
            catalog.error = None;
            catalog.selected = followed;
        },
        Err(error) => {
            catalog.error = Some(error);
        },
    }
    true
}

/// Start installing the entry an open index report shows, from `repository`: not while another
/// install from the index runs, and not for an entry that cannot run here or is installed
/// already. Returns whether it started; the running install is then that repository's.
pub fn start_catalog_install(running: &mut Option<String>, repository: &String, compatible: bool, installed: bool) -> (r: bool)
    ensures
        r == (*old(running) is None && compatible && !installed),
        r ==> (*final(running) matches Some(x) && x@ == repository@),
        !r ==> *final(running) == *old(running),
{
    if running.is_some() || !compatible || installed {
        return false;
    }
    *running = Some(repository.clone());
    true
}

/// What a finished install from the index comes to.
#[derive(Clone, Debug, PartialEq, Eq)]
pub enum CatalogInstallOutcome {
    /// Not the install running now: ignored.
    Stale,
    /// Installed as extension `id`. The manager always reloads, since the extension is on disk
    /// whatever became of the report. A user still waiting on the report has it closed and is
    /// taken to the new row; anyone who moved on is told by a notification instead.
    Installed { id: String, report_was_open: bool },
    /// It failed: the error goes into the report when it is still open, else into a
    /// notification.
    Failed { error: String, report_was_open: bool },
}

/// An install from the index finished for `repository`. `running` is the repository whose
/// install runs, and `report` the repository of the open index report, if any.
pub fn catalog_install_finished(
    running: &mut Option<String>,
    repository: &String,
    report: Option<&String>,
    result: Result<String, String>,
) -> (r: CatalogInstallOutcome)
    ensures
        ({
            let current = match *old(running) {
                Some(x) => x@ == repository@,
                None => false,
            };
            let open = match report {
                Some(x) => x@ == repository@,
                None => false,
            };
            &&& !current ==> r == CatalogInstallOutcome::Stale && *final(running) == *old(running)
            &&& current ==> *final(running) is None && match result {
                Ok(id) => r == (CatalogInstallOutcome::Installed { id, report_was_open: open }),
                Err(error) => r == (CatalogInstallOutcome::Failed { error, report_was_open: open }),
            }
        }),
{
    let current = match running {
        Some(x) => *x == *repository,
        None => false,
    };
    if !current {
        return CatalogInstallOutcome::Stale;
    }
    *running = None;
    let open = match report {
        Some(x) => *x == *repository,
        None => false,
    };
    match result {
        Ok(id) => CatalogInstallOutcome::Installed { id, report_was_open: open },
        Err(error) => CatalogInstallOutcome::Failed { error, report_was_open: open },
    }
}

/// What the manager knows of extension updates: the extension being updated, the update check it
/// waits for, and the extensions with an update available.
pub struct UpdateState {
    pub updating: Option<String>,
    pub check_epoch: u64,
    pub available: Vec<String>,
}

/// Start updating extension `id`, installed as `kind`: only one update runs at a time, and only
/// an extension installed from Git can be updated. Starting invalidates the running update check,
/// which gets `next_check_epoch`. Returns whether the update started.
pub fn start_update(state: &mut UpdateState, id: &String, kind: Option<InstallKind>, next_check_epoch: u64) -> (r: bool)
    ensures
        r == (old(state).updating is None && kind == Some(InstallKind::Git)),
        r ==> (final(state).updating matches Some(x) && x@ == id@) && final(state).check_epoch == next_check_epoch
            && final(state).available@ == old(state).available@,
        !r ==> final(state).updating == old(state).updating && final(state).check_epoch == old(state).check_epoch
            && final(state).available@ == old(state).available@,
{
    if state.updating.is_some() {
        return false;
    }
    match kind {
        Some(InstallKind::Git) => {},
        _ => return false,
    }
    state.updating = Some(id.clone());
    state.check_epoch = next_check_epoch;
    true
}

/// An update check finished: when it is the one waited for, the extensions it found with an
/// update replace the ones known. Returns whether it was.
pub fn updates_checked(state: &mut UpdateState, epoch: u64, available: Vec<String>) -> (r: bool)
    ensures
        r == (old(state).check_epoch == epoch),
        r ==> final(state).available@ == available@,
        !r ==> final(state).available@ == old(state).available@,
        final(state).updating == old(state).updating,
        final(state).check_epoch == old(state).check_epoch,
{
    if state.check_epoch != epoch {
        return false;
    }
    state.available = available;
    true
}

/// What a finished update comes to.
#[derive(Clone, Debug, PartialEq, Eq)]
pub enum UpdateOutcome {
    /// Not the update the manager waits for: ignored.
    Ignored,
    /// The extension changed: the manager reloads, and selects it when it is open; a notification
    /// says so when it is closed.
    Updated { select: bool, notify: bool },
    /// Nothing changed; the message says the extension is up to date.
    UpToDate(String),
    /// The update failed with this error.
    Failed(String),
}

/// The texts with every entry equal to `id` left out.
pub open spec fn without(v: Seq<Seq<char>>, id: Seq<char>) -> Set<Seq<char>> {
    v.to_set().remove(id)
}

fn remove_all(v: &mut Vec<String>, id: &String)
    ensures
        texts(final(v)@).to_set() == without(texts(old(v)@), id@),
{
    let ghost start = texts(v@);
    let mut out: Vec<String> = Vec::new();
    let mut i: usize = 0;
    while i < v.len()
        invariant
            i <= v.len(),
            start == texts(v@),
            texts(out@).to_set() == start.take(i as int).to_set().remove(id@),
        decreases v.len() - i,
    {
        let ghost before = texts(out@);
        if v[i] != *id {
            out.push(v[i].clone());
            assert(texts(out@) =~= before.push(v@[i as int]@));
        } else {
            assert(texts(out@) =~= before);
        }
        proof {
            assert(start.take(i as int + 1) =~= start.take(i as int).push(start[i as int]));
            assert(texts(out@).to_set() =~= start.take(i as int + 1).to_set().remove(id@)) by {
                assert forall|x: Seq<char>| texts(out@).to_set().contains(x) <==> start.take(i as int + 1).to_set().remove(id@).contains(x) by {
                    let t = start.take(i as int);
                    if texts(out@).contains(x) {
                        let k = choose|k: int| 0 <= k < texts(out@).len() && texts(out@)[k] == x;
                        if k < before.len() {
                            assert(before[k] == x);
                            assert(before.to_set().contains(x));
                            let m = choose|m: int| 0 <= m < t.len() && t[m] == x;
                            assert(start.take(i as int + 1)[m] == x);
                        } else {
                            assert(start.take(i as int + 1)[i as int] == x);
                        }
                    }
                    if start.take(i as int + 1).contains(x) && x != id@ {
                        let m = choose|m: int| 0 <= m < i + 1 && #[trigger] start.take(i as int + 1)[m] == x;
                        if m < i {
                            assert(t[m] == x);
                            assert(t.to_set().remove(id@).contains(x));
                            assert(before.to_set().contains(x));
                            let k = choose|k: int| 0 <= k < before.len() && before[k] == x;
                            assert(texts(out@)[k] == x);
                        } else {
                            assert(texts(out@)[before.len() as int] == x);
                        }
                    }
                }
            }
        }
        i = i + 1;
    }
    proof {
        assert(start.take(i as int) =~= start);
    }
    *v = out;
}

fn up_to_date_message(id: &String) -> (r: String)
    ensures
        r@ == id@ + " is up to date"@,
{
    let mut m = id.clone();
    m.append(" is up to date");
    m
}

/// What a finished update of extension `id` reports: whether it changed anything, or why it
/// failed. `open` says whether the manager is open, where the updated extension gets selected;
/// when it is closed, a notification says it was updated.
pub open spec fn update_report(id: Seq<char>, result: Result<bool, String>, open: bool, r: UpdateOutcome) -> bool {
    match result {
        Ok(true) => r == (UpdateOutcome::Updated { select: open, notify: !open }),
        Ok(false) => r matches UpdateOutcome::UpToDate(m) && m@ == id + " is up to date"@,
        Err(e) => r == UpdateOutcome::Failed(e),
    }
}

fn report_update(id: &String, result: Result<bool, String>, open: bool) -> (r: UpdateOutcome)
    ensures
        update_report(id@, result, open, r),
{
    match result {
        Ok(true) => UpdateOutcome::Updated { select: open, notify: !open },
        Ok(false) => UpdateOutcome::UpToDate(up_to_date_message(id)),
        Err(e) => UpdateOutcome::Failed(e),
    }
}

/// The update of extension `id` finished with `result` while the manager is closed: it is only
/// reported.
pub fn update_finished_while_closed(id: &String, result: Result<bool, String>) -> (r: UpdateOutcome)
    ensures
        update_report(id@, result, false, r),
{
    report_update(id, result, false)
}

/// The update of extension `id` finished with `result` while the manager is open. Only the update
/// it waits for counts: that one is over, the extension no longer has an update available, and the
/// result is reported.
pub fn update_finished(state: &mut UpdateState, id: &String, result: Result<bool, String>) -> (r: UpdateOutcome)
    ensures
        ({
            let current = match old(state).updating {
                Some(x) => x@ == id@,
                None => false,
            };
            &&& !current ==> r == UpdateOutcome::Ignored && final(state).updating == old(state).updating
                && final(state).available@ == old(state).available@
            &&& current ==> update_report(id@, result, true, r) && final(state).updating is None
                && texts(final(state).available@).to_set() == without(texts(old(state).available@), id@)
            &&& final(state).check_epoch == old(state).check_epoch
        }),
{
    let current = match &state.updating {
        Some(x) => *x == *id,
        None => false,
    };
    if !current {
        return UpdateOutcome::Ignored;
    }
    state.updating = None;
    remove_all(&mut state.available, id);
    report_update(id, result, true)
}

/// The manager as it opens: on the Installed tab, nothing armed, the index not yet loaded and no
/// update known, waiting for the update check `update_check_epoch` and the index load
/// `catalog_epoch` it starts. The highlight then rests on the first visible installed row, if it
/// is not on one; `installed` is the visible installed rows.
pub fn open_manager(update_check_epoch: u64, catalog_epoch: u64, installed: &Vec<usize>) -> (r: (
    ManagerSelection,
    CatalogState,
    UpdateState,
))
    ensures
        r.0.tab == ExtensionsTab::Installed,
        r.0.selected == if !installed@.contains(0) && installed@.len() > 0 {
            installed@[0]
        } else {
            0
        },
        r.0.catalog_selected is None,
        r.0.pending_remove is None,
        r.1.epoch == catalog_epoch,
        !r.1.loading,
        r.1.entries@.len() == 0,
        r.1.error is None,
        r.1.selected is None,
        r.2.updating is None,
        r.2.check_epoch == update_check_epoch,
        r.2.available@.len() == 0,
{
    let mut selection = ManagerSelection {
        tab: ExtensionsTab::Installed,
        selected: 0,
        catalog_selected: None,
        pending_remove: None,
    };
    normalize_selection(&mut selection, installed, &Vec::new());
    let catalog = CatalogState { epoch: catalog_epoch, loading: false, entries: Vec::new(), error: None, selected: None };
    let updates = UpdateState { updating: None, check_epoch: update_check_epoch, available: Vec::new() };
    (selection, catalog, updates)
}

/// A copy of the index kept from an earlier fetch, and whether it is recent enough to trust.
pub struct CachedCatalog {
    pub entries: Vec<CatalogEntry>,
    pub fresh: bool,
}

/// List the cached index at once, then fetch unless that copy is fresh. A fetch waits under
/// `next_epoch` with the last error cleared; it runs only when `can_fetch` (the user's directories
/// are not isolated and results have a way back). Returns whether a fetch started.
pub fn load_catalog(catalog: &mut CatalogState, cached: Option<CachedCatalog>, next_epoch: u64, can_fetch: bool) -> (r: bool)
    ensures
        ({
            let refresh = match cached {
                Some(c) => !c.fresh,
                None => true,
            };
            &&& final(catalog).entries@ == match cached {
                Some(c) => c.entries@,
                None => old(catalog).entries@,
            }
            &&& refresh ==> final(catalog).epoch == next_epoch && final(catalog).error is None
                && final(catalog).loading == can_fetch && r == can_fetch
            &&& !refresh ==> final(catalog).epoch == old(catalog).epoch && final(catalog).error == old(catalog).error
                && final(catalog).loading == old(catalog).loading && !r
            &&& final(catalog).selected == old(catalog).selected
        }),
{
    let refresh = match cached {
        Some(c) => {
            let fresh = c.fresh;
            catalog.entries = c.entries;
            !fresh
        },
        None => true,
    };
    if !refresh {
        return false;
    }
    catalog.epoch = next_epoch;
    catalog.error = None;
    catalog.loading = can_fetch;
    can_fetch
}

/// The extensions installed from Git, which are the ones an update check asks about, in the
/// order given.
pub open spec fn git_ids(kinds: Seq<(String, InstallKind)>) -> Seq<Seq<char>>
    decreases kinds.len(),
{
    if kinds.len() == 0 {
        Seq::empty()
    } else {
        git_ids(kinds.drop_last()) + if kinds.last().1 == InstallKind::Git {
            seq![kinds.last().0@]
        } else {
            Seq::empty()
        }
    }
}

/// The ids of the extensions installed from Git.
pub fn git_installation_ids(kinds: &Vec<(String, InstallKind)>) -> (r: Vec<String>)
    ensures
        texts(r@) == git_ids(kinds@),
{
    let mut out: Vec<String> = Vec::new();
    let mut i: usize = 0;
    while i < kinds.len()
        invariant
            i <= kinds.len(),
            texts(out@) == git_ids(kinds@.take(i as int)),
        decreases kinds.len() - i,
    {
        proof {
            assert(kinds@.take(i as int + 1).drop_last() =~= kinds@.take(i as int));
        }
        if kinds[i].1 == InstallKind::Git {
            let ghost before = texts(out@);
            out.push(kinds[i].0.clone());
            assert(texts(out@) =~= before.push(kinds@[i as int].0@));
        }
        i = i + 1;
    }
    proof {
        assert(kinds@.take(i as int) =~= kinds@);
    }
    out
}

/// The first of `paths` that is `path`.
pub open spec fn first_path(paths: Seq<Seq<char>>, path: Seq<char>) -> Option<usize> {
    if exists|i: int| 0 <= i < paths.len() && paths[i] == path {
        Some((choose|i: int| 0 <= i < paths.len() && paths[i] == path && forall|j: int| 0 <= j < i ==> paths[j] != path) as usize)
    } else {
        None
    }
}

fn find_path(paths: &Vec<String>, path: &String) -> (r: Option<usize>)
    ensures
        r == first_path(texts(paths@), path@),
{
    let ghost t = texts(paths@);
    let mut i: usize = 0;
    while i < paths.len()
        invariant
            i <= paths.len(),
            t == texts(paths@),
            forall|j: int| 0 <= j < i ==> t[j] != path@,
        decreases paths.len() - i,
    {
        if paths[i] == *path {
            proof {
                assert(t[i as int] == path@);
                let k = choose|k: int| 0 <= k < t.len() && t[k] == path@ && forall|j: int| 0 <= j < k ==> t[j] != path@;
                assert(k == i) by {
                    if k < i {
                        assert(t[k] != path@);
                    }
                    if k > i {
                        assert(t[i as int] != path@);
                    }
                }
            }
            return Some(i);
        }
        i = i + 1;
    }
    None
}

fn holds_text(v: &Vec<String>, x: &String) -> (r: bool)
    ensures
        r == texts(v@).contains(x@),
{
    let mut i: usize = 0;
    while i < v.len()
        invariant
            i <= v.len(),
            forall|j: int| 0 <= j < i ==> texts(v@)[j] != x@,
        decreases v.len() - i,
    {
        if v[i] == *x {
            assert(texts(v@)[i as int] == x@);
            return true;
        }
        i = i + 1;
    }
    false
}

/// The installed rows were scanned again; `paths` is where each is installed, in row order, and
/// `known_ids` the extensions whose installation kind is known. The highlight goes back to the
/// installation it was on (the first row, when that is gone), held within the rows; a removal
/// armed before is disarmed; only extensions still known keep an available update. Returns the
/// row of the installation whose report was open, when it is still listed.
pub fn refresh_after_scan(
    m: &mut ManagerSelection,
    updates: &mut UpdateState,
    paths: &Vec<String>,
    known_ids: &Vec<String>,
    selected_path: Option<String>,
    report_path: Option<String>,
) -> (r: Option<usize>)
    ensures
        ({
            let found = match selected_path {
                Some(p) => first_path(texts(paths@), p@),
                None => None,
            };
            let row = match found {
                Some(i) => i as int,
                None => 0,
            };
            final(m).selected == if paths@.len() == 0 {
                0
            } else if row < paths@.len() {
                row
            } else {
                paths@.len() - 1
            }
        }),
        final(m).pending_remove is None,
        final(m).tab == old(m).tab,
        final(m).catalog_selected == old(m).catalog_selected,
        texts(final(updates).available@).to_set() == texts(old(updates).available@).to_set().filter(
            |id: Seq<char>| texts(known_ids@).contains(id),
        ),
        final(updates).updating == old(updates).updating,
        final(updates).check_epoch == old(updates).check_epoch,
        r == match report_path {
            Some(p) => first_path(texts(paths@), p@),
            None => None,
        },
{
    let row = match &selected_path {
        Some(p) => match find_path(paths, p) {
            Some(i) => i,
            None => 0,
        },
        None => 0,
    };
    m.selected = if paths.len() == 0 {
        0
    } else if row < paths.len() {
        row
    } else {
        paths.len() - 1
    };
    m.pending_remove = None;

    let ghost start = texts(updates.available@);
    let mut kept: Vec<String> = Vec::new();
    let mut i: usize = 0;
    while i < updates.available.len()
        invariant
            i <= updates.available.len(),
            start == texts(updates.available@),
            texts(kept@).to_set() == start.take(i as int).to_set().filter(|id: Seq<char>| texts(known_ids@).contains(id)),
        decreases updates.available.len() - i,
    {
        let ghost before = texts(kept@);
        let keep = holds_text(known_ids, &updates.available[i]);
        if keep {
            kept.push(updates.available[i].clone());
            assert(texts(kept@) =~= before.push(start[i as int]));
        } else {
            assert(texts(kept@) =~= before);
        }
        proof {
            let p = |id: Seq<char>| texts(known_ids@).contains(id);
            assert(start.take(i as int + 1) =~= start.take(i as int).push(start[i as int]));
            assert(texts(kept@).to_set() =~= start.take(i as int + 1).to_set().filter(p)) by {
                assert forall|x: Seq<char>| texts(kept@).to_set().contains(x) <==> start.take(i as int + 1).to_set().filter(p).contains(x) by {
                    let t = start.take(i as int);
                    if texts(kept@).contains(x) {
                        let k = choose|k: int| 0 <= k < texts(kept@).len() && texts(kept@)[k] == x;
                        if k < before.len() {
                            assert(before[k] == x);
                            assert(before.to_set().contains(x));
                            let m2 = choose|m2: int| 0 <= m2 < t.len() && t[m2] == x;
                            assert(start.take(i as int + 1)[m2] == x);
                        } else {
                            assert(start.take(i as int + 1)[i as int] == x);
                        }
                    }
                    if start.take(i as int + 1).contains(x) && p(x) {
                        let m2 = choose|m2: int| 0 <= m2 < i + 1 && #[trigger] start.take(i as int + 1)[m2] == x;
                        if m2 < i {
                            assert(t[m2] == x);
                            assert(t.to_set().filter(p).contains(x));
                            assert(before.to_set().contains(x));
                            let k = choose|k: int| 0 <= k < before.len() && before[k] == x;
                            assert(texts(kept@)[k] == x);
                        } else {
                            assert(texts(kept@)[before.len() as int] == x);
                        }
                    }
                }
            }
        }
        i = i + 1;
    }
    proof {
        assert(start.take(i as int) =~= start);
    }
    updates.available = kept;

    match &report_path {
        Some(p) => find_path(paths, p),
        None => None,
    }
}

} // verus!
