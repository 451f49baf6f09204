//! Profiles: saving the layout under a name, the picker that lists saved profiles, and what
//! opening, applying or deleting one decides before any file or session is touched.
//!
//! Destructive picker actions (replacing the session in place, deleting a profile, opening one
//! over live panes) arm on the first press and act on a second press aimed at the same entry;
//! moving the highlight or typing in the filter disarms them.

use vstd::prelude::*;

use crate::model::{Pane, PaneId, State, WorkspaceView};
use crate::popup::{kill_if_open, PopupSlot};
use crate::text::{trim_text, trimmed};

verus! {

/// `c` may appear in a session or profile name: an ASCII letter or digit, `_` or `-`.
pub open spec fn name_char(c: char) -> bool {
    let n = c as u32;
    (0x61 <= n && n <= 0x7a) || (0x41 <= n && n <= 0x5a) || (0x30 <= n && n <= 0x39) || n == 0x5f
        || n == 0x2d
}

/// `s` names a throwaway session: such names begin with `eph-`, and are the client's to mint.
pub open spec fn throwaway_name(s: Seq<char>) -> bool {
    s.len() >= 4 && s[0] == 'e' && s[1] == 'p' && s[2] == 'h' && s[3] == '-'
}

/// `s` is a usable session or profile name: not empty, only name characters, and not a name
/// reserved for throwaway sessions.
pub open spec fn valid_name(s: Seq<char>) -> bool {
    &&& s.len() > 0
    &&& forall|i: int| 0 <= i < s.len() ==> name_char(#[trigger] s[i])
    &&& !throwaway_name(s)
}

fn is_name_char(c: char) -> (r: bool)
    ensures
        r == name_char(c),
{
    let n: u32 = c as u32;
    (0x61 <= n && n <= 0x7a) || (0x41 <= n && n <= 0x5a) || (0x30 <= n && n <= 0x39) || n == 0x5f
        || n == 0x2d
}

/// Whether `s` is a usable session or profile name.
pub fn valid_session_name(s: &str) -> (r: bool)
    ensures
        r == valid_name(s@),
{
    let n = s.unicode_len();
    if n == 0 {
        return false;
    }
    if n >= 4 && s.get_char(0) == 'e' && s.get_char(1) == 'p' && s.get_char(2) == 'h' && s.get_char(3) == '-' {
        return false;
    }
    let mut i: usize = 0;
    while i < n
        invariant
            n == s@.len(),
            i <= n,
            forall|k: int| 0 <= k < i ==> name_char(#[trigger] s@[k]),
        decreases n - i,
    {
        if !is_name_char(s.get_char(i)) {
            return false;
        }
        i = i + 1;
    }
    true
}

/// The profile name typed into the save prompt: trimmed, and only when it is a usable name.
pub fn normalize_profile_name(name: &str) -> (r: Option<String>)
    ensures
        match r {
            Some(n) => n@ == trimmed(name@) && valid_name(n@),
            None => !valid_name(trimmed(name@)),
        },
{
    let t = trim_text(name);
    if valid_session_name(t.as_str()) {
        Some(t)
    } else {
        None
    }
}

/// Normalizing is stable: a name the save prompt accepted is accepted again as it is, so saving
/// under a normalized name never changes it.
pub proof fn lemma_normalized_name_is_stable(name: Seq<char>)
    requires
        valid_name(trimmed(name)),
    ensures
        trimmed(trimmed(name)) == trimmed(name),
        valid_name(trimmed(trimmed(name))),
{
    crate::text::lemma_trimmed_idempotent(name);
}

/// What the save prompt starts with: the profile the session was created from, else the name of
/// an attached session that is not a throwaway one, else nothing.
pub fn save_prompt_initial(
    created_from_profile: &Option<String>,
    session_name: &Option<String>,
    attached: bool,
    ephemeral: bool,
) -> (r: String)
    ensures
        r@ == match created_from_profile {
            Some(p) => p@,
            None => match session_name {
                Some(n) => if attached && !ephemeral {
                    n@
                } else {
                    Seq::empty()
                },
                None => Seq::empty(),
            },
        },
{
    match created_from_profile {
        Some(p) => p.clone(),
        None => match session_name {
            Some(n) => if attached && !ephemeral {
                n.clone()
            } else {
                String::new()
            },
            None => String::new(),
        },
    }
}

/// The save prompt: the name typed, and whether overwriting an existing profile is armed.
#[derive(Debug)]
pub struct SaveProfilePrompt {
    pub input: String,
    pub pending_overwrite: bool,
}

/// Saving over a profile that exists needs a second submit: returns whether to save now, else
/// arms the overwrite.
pub fn save_or_arm_overwrite(prompt: &mut SaveProfilePrompt, existed: bool) -> (r: bool)
    ensures
        r == (!existed || old(prompt).pending_overwrite),
        final(prompt).input == old(prompt).input,
        final(prompt).pending_overwrite == (old(prompt).pending_overwrite || existed),
{
    if existed && !prompt.pending_overwrite {
        prompt.pending_overwrite = true;
        return false;
    }
    true
}

/// The profile picker: the saved profiles by name, the highlighted one, and the armed actions.
#[derive(Debug)]
pub struct ProfilePicker {
    pub entries: Vec<String>,
    pub query: String,
    pub selected: usize,
    pub pending_delete: Option<usize>,
    pub pending_open: Option<usize>,
    pub pending_apply: Option<usize>,
    /// The picker replaces the session in place rather than opening a profile.
    pub apply_mode: bool,
}

/// An arming survives the highlight moving to `index` only when it is aimed there.
pub open spec fn kept_arming(pending: Option<usize>, index: usize) -> Option<usize> {
    match pending {
        Some(p) => if p == index {
            Some(p)
        } else {
            None
        },
        None => None,
    }
}

/// The filter changed: the highlight goes back to the top and nothing stays armed.
pub fn profile_picker_query_changed(picker: &mut ProfilePicker, query: String)
    ensures
        final(picker).query == query,
        final(picker).selected == 0,
        final(picker).pending_delete is None,
        final(picker).pending_open is None,
        final(picker).pending_apply is None,
        final(picker).entries == old(picker).entries,
        final(picker).apply_mode == old(picker).apply_mode,
{
    picker.query = query;
    picker.selected = 0;
    picker.pending_delete = None;
    picker.pending_open = None;
    picker.pending_apply = None;
}

/// The highlight moved to `index`: an action armed on another entry is disarmed.
pub fn profile_picker_selection_changed(picker: &mut ProfilePicker, index: usize)
    ensures
        final(picker).selected == index,
        final(picker).pending_delete == kept_arming(old(picker).pending_delete, index),
        final(picker).pending_open == kept_arming(old(picker).pending_open, index),
        final(picker).pending_apply == kept_arming(old(picker).pending_apply, index),
        final(picker).entries == old(picker).entries,
        final(picker).query == old(picker).query,
        final(picker).apply_mode == old(picker).apply_mode,
{
    picker.selected = index;
    if let Some(p) = picker.pending_delete {
        if p != index {
            picker.pending_delete = None;
        }
    }
    if let Some(p) = picker.pending_open {
        if p != index {
            picker.pending_open = None;
        }
    }
    if let Some(p) = picker.pending_apply {
        if p != index {
            picker.pending_apply = None;
        }
    }
}

/// Why replacing the session with the highlighted profile is refused.
#[derive(Clone, Copy, Debug, PartialEq, Eq, Structural)]
pub enum ApplyRefusal {
    /// There is no session to replace.
    NotAttached,
    /// This client may not change the session.
    ReadOnly,
}

/// What replacing the session in place with the highlighted profile does next.
#[derive(Clone, Copy, Debug, PartialEq, Eq, Structural)]
pub enum ApplyStep {
    /// No profile is highlighted.
    NoEntry,
    Refused(ApplyRefusal),
    /// A follower is pointed at the controller instead.
    NudgeFollower,
    /// The first press armed the replacement.
    Armed,
    /// The second press: load profile `index` and replace the session's panes with it.
    Replace { index: usize },
}

/// The step replacing the session takes, given whether a session is attached, whether this
/// client is read-only and whether it is a follower.
pub open spec fn apply_step(p: ProfilePicker, attached: bool, read_only: bool, follower: bool) -> ApplyStep {
    if p.selected >= p.entries@.len() {
        ApplyStep::NoEntry
    } else if !attached {
        ApplyStep::Refused(ApplyRefusal::NotAttached)
    } else if read_only {
        ApplyStep::Refused(ApplyRefusal::ReadOnly)
    } else if follower {
        ApplyStep::NudgeFollower
    } else if p.pending_apply != Some(p.selected) {
        ApplyStep::Armed
    } else {
        ApplyStep::Replace { index: p.selected }
    }
}

/// Press "replace with this profile": refused without a session or with a read-only client, a
/// follower is nudged, the first press arms and the second replaces.
pub fn apply_selected_profile_in_place(
    picker: &mut ProfilePicker,
    attached: bool,
    read_only: bool,
    follower: bool,
) -> (r: ApplyStep)
    ensures
        r == apply_step(*old(picker), attached, read_only, follower),
        r == ApplyStep::Armed ==> final(picker).pending_apply == Some(old(picker).selected),
        final(picker).entries == old(picker).entries,
        final(picker).selected == old(picker).selected,
        final(picker).pending_delete == old(picker).pending_delete,
        final(picker).pending_open == old(picker).pending_open,
        r != ApplyStep::Armed ==> final(picker).pending_apply == old(picker).pending_apply,
{
    if picker.selected >= picker.entries.len() {
        return ApplyStep::NoEntry;
    }
    if !attached {
        return ApplyStep::Refused(ApplyRefusal::NotAttached);
    }
    if read_only {
        return ApplyStep::Refused(ApplyRefusal::ReadOnly);
    }
    if follower {
        return ApplyStep::NudgeFollower;
    }
    let index = picker.selected;
    if picker.pending_apply != Some(index) {
        picker.pending_apply = Some(index);
        return ApplyStep::Armed;
    }
    ApplyStep::Replace { index }
}

/// The live panes of `panes`, in order.
pub open spec fn live_ids(panes: Seq<Pane>) -> Seq<PaneId>
    decreases panes.len(),
{
    if panes.len() == 0 {
        Seq::empty()
    } else if panes.last().closing {
        live_ids(panes.drop_last())
    } else {
        live_ids(panes.drop_last()).push(panes.last().id)
    }
}

/// The live panes of every workspace, workspace by workspace.
pub open spec fn all_live_ids(workspaces: Seq<WorkspaceView>) -> Seq<PaneId>
    decreases workspaces.len(),
{
    if workspaces.len() == 0 {
        Seq::empty()
    } else {
        all_live_ids(workspaces.drop_last()) + live_ids(workspaces.last().panes)
    }
}

/// The panes a replacement shuts down: every live workspace pane, workspace by workspace.
pub fn panes_to_replace(state: &State) -> (r: Vec<PaneId>)
    ensures
        r@ == all_live_ids(state@.workspaces),
{
    let mut out: Vec<PaneId> = Vec::new();
    let mut j: usize = 0;
    while j < state.session.workspaces.len()
        invariant
            j <= state.session.workspaces.len(),
            out@ == all_live_ids(state@.workspaces.take(j as int)),
        decreases state.session.workspaces.len() - j,
    {
        let panes = &state.session.workspaces[j].panes;
        let ghost base = out@;
        let mut k: usize = 0;
        while k < panes.len()
            invariant
                k <= panes.len(),
                panes@ == state@.workspaces[j as int].panes,
                out@ == base + live_ids(panes@.take(k as int)),
            decreases panes.len() - k,
        {
            proof {
                assert(panes@.take(k as int + 1).drop_last() =~= panes@.take(k as int));
            }
            if !panes[k].closing {
                out.push(panes[k].id);
                proof {
                    assert(base + live_ids(panes@.take(k as int)).push(panes@[k as int].id) =~= (base + live_ids(
                        panes@.take(k as int),
                    )).push(panes@[k as int].id));
                }
            }
            k = k + 1;
        }
        proof {
            assert(panes@.take(panes@.len() as int) =~= panes@);
            assert(state@.workspaces.take(j as int + 1).drop_last() =~= state@.workspaces.take(j as int));
        }
        j = j + 1;
    }
    proof {
        assert(state@.workspaces.take(state@.workspaces.len() as int) =~= state@.workspaces);
    }
    out
}

/// What pressing delete on the highlighted profile does.
#[derive(Clone, Copy, Debug, PartialEq, Eq, Structural)]
pub enum DeleteStep {
    NoEntry,
    /// The first press armed the deletion.
    Armed,
    /// The second press: delete profile `index`.
    Delete { index: usize },
}

/// Press delete: the first press arms, the second deletes.
pub fn profile_picker_delete_key(picker: &mut ProfilePicker) -> (r: DeleteStep)
    ensures
        old(picker).selected >= old(picker).entries@.len() ==> r == DeleteStep::NoEntry && *final(picker)
            == *old(picker),
        old(picker).selected < old(picker).entries@.len() && old(picker).pending_delete != Some(
            old(picker).selected,
        ) ==> r == DeleteStep::Armed && final(picker).pending_delete == Some(old(picker).selected),
        old(picker).selected < old(picker).entries@.len() && old(picker).pending_delete == Some(
            old(picker).selected,
        ) ==> r == (DeleteStep::Delete { index: old(picker).selected }) && *final(picker) == *old(picker),
        final(picker).entries == old(picker).entries,
        final(picker).selected == old(picker).selected,
        final(picker).pending_open == old(picker).pending_open,
        final(picker).pending_apply == old(picker).pending_apply,
{
    if picker.selected >= picker.entries.len() {
        return DeleteStep::NoEntry;
    }
    let index = picker.selected;
    if picker.pending_delete != Some(index) {
        picker.pending_delete = Some(index);
        return DeleteStep::Armed;
    }
    DeleteStep::Delete { index }
}

/// Deleting failed: the arming is dropped.
pub fn profile_delete_failed(picker: &mut ProfilePicker)
    ensures
        final(picker).pending_delete is None,
        final(picker).entries == old(picker).entries,
        final(picker).selected == old(picker).selected,
        final(picker).pending_open == old(picker).pending_open,
        final(picker).pending_apply == old(picker).pending_apply,
{
    picker.pending_delete = None;
}

/// The profile list was read again: the highlight stays where it was while that entry exists,
/// else moves to the last one, and nothing stays armed for deletion.
pub fn refresh_profile_picker_entries(picker: &mut ProfilePicker, entries: Vec<String>)
    ensures
        final(picker).entries == entries,
        final(picker).pending_delete is None,
        final(picker).selected == if entries@.len() == 0 {
            0
        } else if old(picker).selected < entries@.len() {
            old(picker).selected as int
        } else {
            entries@.len() - 1
        },
        final(picker).pending_open == old(picker).pending_open,
        final(picker).pending_apply == old(picker).pending_apply,
{
    picker.entries = entries;
    picker.pending_delete = None;
    if picker.entries.len() == 0 {
        picker.selected = 0;
        return;
    }
    if picker.selected > picker.entries.len() - 1 {
        picker.selected = picker.entries.len() - 1;
    }
}

/// What choosing profile `index` does.
#[derive(Clone, Copy, Debug, PartialEq, Eq, Structural)]
pub enum SelectStep {
    NoEntry,
    /// Opening it over live panes needs a second press; this one armed it.
    Armed,
    /// Resolve it by name: attach to a session of that name, or start one from the profile.
    OpenNamed { index: usize },
    /// Its name is no session name: start it in a fresh throwaway session.
    LoadFresh { index: usize },
}

/// What choosing profile `index` does next: nothing without an entry; a first press arms when
/// confirming is needed; otherwise the entry is resolved by name when its name is a session name,
/// else loaded into a fresh throwaway session.
pub open spec fn select_step(p: ProfilePicker, index: usize, needs_confirm: bool) -> SelectStep {
    if index >= p.entries@.len() {
        SelectStep::NoEntry
    } else if needs_confirm && p.pending_open != Some(index) {
        SelectStep::Armed
    } else if valid_name(p.entries@[index as int]@) {
        SelectStep::OpenNamed { index }
    } else {
        SelectStep::LoadFresh { index }
    }
}

/// Choose profile `index`. `needs_confirm` says whether opening it would shut down a throwaway
/// session that has live panes and the configuration asks to confirm that.
pub fn select_profile(picker: &mut ProfilePicker, index: usize, needs_confirm: bool) -> (r: SelectStep)
    ensures
        r == select_step(*old(picker), index, needs_confirm),
        index >= old(picker).entries@.len() ==> r == SelectStep::NoEntry && *final(picker) == *old(picker),
        index < old(picker).entries@.len() && needs_confirm && old(picker).pending_open != Some(index)
            ==> r == SelectStep::Armed && final(picker).pending_open == Some(index),
        index < old(picker).entries@.len() && !(needs_confirm && old(picker).pending_open != Some(index))
            ==> *final(picker) == *old(picker) && r == if valid_name(old(picker).entries@[index as int]@) {
            SelectStep::OpenNamed { index }
        } else {
            SelectStep::LoadFresh { index }
        },
        final(picker).entries == old(picker).entries,
        final(picker).selected == old(picker).selected,
        final(picker).pending_delete == old(picker).pending_delete,
        final(picker).pending_apply == old(picker).pending_apply,
{
    if index >= picker.entries.len() {
        return SelectStep::NoEntry;
    }
    if needs_confirm && picker.pending_open != Some(index) {
        picker.pending_open = Some(index);
        return SelectStep::Armed;
    }
    if valid_session_name(picker.entries[index].as_str()) {
        SelectStep::OpenNamed { index }
    } else {
        SelectStep::LoadFresh { index }
    }
}

/// What opening a session by name means to do.
#[derive(Clone, Copy, Debug, PartialEq, Eq, Structural)]
pub enum OpenIntent {
    /// Attach to the session of that name, or start one from the profile of that name.
    ResolveProfile,
    /// Create a new, empty session of that name.
    CreateFresh,
    /// Create a new session of that name from a profile.
    CreateFromProfile,
}

/// Why opening a session by name stops short.
#[derive(Clone, Copy, Debug, PartialEq, Eq, Structural)]
pub enum OpenRefusal {
    /// The name is no usable session name.
    InvalidName,
    /// Creating it was asked for, and a session of that name is running.
    AlreadyRunning,
    /// This client is attached to it already.
    AlreadyAttached,
    /// Another attach is under way.
    AttachInProgress,
    /// Neither a session nor a profile has that name.
    NotFound,
}

/// How opening a session by name proceeds.
#[derive(Clone, Copy, Debug, PartialEq, Eq, Structural)]
pub enum OpenPlan {
    /// Attach to the running session of that name.
    AttachExisting,
    /// Start the session: seeded from the profile or fresh, and with the current session parked
    /// in the background (creating) or released (resolving a profile replaces it).
    Start { seeded: bool, park_current: bool },
}

/// How opening session `name` with `intent` proceeds, given whether a session of that name is
/// running, the session this client is attached to, whether an attach is under way, and whether
/// the profile of that name exists.
pub open spec fn open_plan(
    name: Seq<char>,
    intent: OpenIntent,
    running: bool,
    attached_to: Option<Seq<char>>,
    attach_pending: bool,
    profile_exists: bool,
) -> Result<OpenPlan, OpenRefusal> {
    let create = intent != OpenIntent::ResolveProfile;
    if !valid_name(name) {
        Err(OpenRefusal::InvalidName)
    } else if create && running {
        Err(OpenRefusal::AlreadyRunning)
    } else if running {
        Ok(OpenPlan::AttachExisting)
    } else if attached_to == Some(name) {
        Err(OpenRefusal::AlreadyAttached)
    } else if attach_pending {
        Err(OpenRefusal::AttachInProgress)
    } else if intent == OpenIntent::ResolveProfile && !profile_exists {
        Err(OpenRefusal::NotFound)
    } else {
        Ok(OpenPlan::Start { seeded: intent != OpenIntent::CreateFresh, park_current: create })
    }
}

/// How opening session `name` proceeds. `attached_to` is the name of the session this client is
/// attached to, if it is attached to one. A seeded start then loads the profile, and
/// [`start_named_session`] says what a failed load leaves (everything as it was) and what a
/// start sets up.
pub fn open_named_target(
    name: &str,
    intent: OpenIntent,
    running: bool,
    attached_to: &Option<String>,
    attach_pending: bool,
    profile_exists: bool,
) -> (r: Result<OpenPlan, OpenRefusal>)
    ensures
        r == open_plan(
            name@,
            intent,
            running,
            match attached_to {
                Some(n) => Some(n@),
                None => None,
            },
            attach_pending,
            profile_exists,
        ),
{
    if !valid_session_name(name) {
        return Err(OpenRefusal::InvalidName);
    }
    let create = intent != OpenIntent::ResolveProfile;
    if create && running {
        return Err(OpenRefusal::AlreadyRunning);
    }
    if running {
        return Ok(OpenPlan::AttachExisting);
    }
    let same = match attached_to {
        Some(n) => same_text(n.as_str(), name),
        None => false,
    };
    if same {
        return Err(OpenRefusal::AlreadyAttached);
    }
    if attach_pending {
        return Err(OpenRefusal::AttachInProgress);
    }
    if intent == OpenIntent::ResolveProfile && !profile_exists {
        return Err(OpenRefusal::NotFound);
    }
    Ok(OpenPlan::Start { seeded: intent != OpenIntent::CreateFresh, park_current: create })
}

fn same_text(a: &str, b: &str) -> (r: bool)
    ensures
        r == (a@ == b@),
{
    let n = a.unicode_len();
    if n != b.unicode_len() {
        return false;
    }
    let mut i: usize = 0;
    while i < n
        invariant
            n == a@.len(),
            n == b@.len(),
            i <= n,
            forall|k: int| 0 <= k < i ==> a@[k] == b@[k],
        decreases n - i,
    {
        if a.get_char(i) != b.get_char(i) {
            return false;
        }
        i = i + 1;
    }
    assert(a@ =~= b@);
    true
}

/// Whether making `name` the startup default unsets it instead: it is the default already.
pub fn default_toggles_off(current_default: &Option<String>, name: &String) -> (r: bool)
    ensures
        r == match current_default {
            Some(d) => d@ == name@,
            None => false,
        },
{
    match current_default {
        Some(d) => *d == *name,
        None => false,
    }
}

/// A running session the profile picker lists, with what discovery reported of it.
pub struct RunningSession<S> {
    pub name: String,
    pub ephemeral: bool,
    pub status: S,
}

/// Whether a discovered session stays in the picker's list: throwaway sessions are not listed,
/// and the session this client is attached to is listed from its own state instead.
pub open spec fn listed<S>(row: RunningSession<S>, current: Option<Seq<char>>) -> bool {
    !row.ephemeral && match current {
        Some(name) => row.name@ != name,
        None => true,
    }
}

/// The discovered sessions that stay listed, in order.
pub open spec fn listed_sessions<S>(rows: Seq<RunningSession<S>>, current: Option<Seq<char>>) -> Seq<RunningSession<S>>
    decreases rows.len(),
{
    if rows.len() == 0 {
        Seq::empty()
    } else {
        listed_sessions(rows.drop_last(), current) + if listed(rows.last(), current) {
            seq![rows.last()]
        } else {
            Seq::empty()
        }
    }
}

pub open spec fn session_name<S>(current: Option<RunningSession<S>>) -> Option<Seq<char>> {
    match current {
        Some(c) => Some(c.name@),
        None => None,
    }
}

/// The running sessions the profile picker shows: the discovered ones that stay listed, in the
/// order discovery gave them, then the session this client is attached to, described from its
/// own state, when it has a name.
pub fn running_sessions<S>(rows: Vec<RunningSession<S>>, current: Option<RunningSession<S>>) -> (r: Vec<RunningSession<S>>)
    ensures
        r@ == listed_sessions(rows@, session_name(current)) + match current {
            Some(c) => seq![c],
            None => Seq::empty(),
        },
{
    let ghost name = session_name(current);
    let ghost all = rows@;
    assert(all.len() == rows.len());
    let mut rest = rows;
    let mut out: Vec<RunningSession<S>> = Vec::new();
    let mut i: usize = 0;
    while rest.len() > 0
        invariant
            i <= all.len(),
            rest@ == all.skip(i as int),
            rest@.len() == all.len() - i,
            all.len() <= usize::MAX,
            out@ == listed_sessions(all.take(i as int), name),
            name == session_name(current),
        decreases rest.len(),
    {
        assert(i < all.len());
        let row = rest.remove(0);
        proof {
            assert(all.skip(i as int)[0] == all[i as int]);
            assert(rest@ =~= all.skip(i as int + 1));
            assert(all.take(i as int + 1).drop_last() =~= all.take(i as int));
            assert(all.take(i as int + 1).last() == all[i as int]);
        }
        let keep = !row.ephemeral && match &current {
            Some(c) => row.name != c.name,
            None => true,
        };
        if keep {
            out.push(row);
        }
        proof {
            assert(out@ =~= listed_sessions(all.take(i as int + 1), name));
        }
        i = i + 1;
    }
    proof {
        assert(all.take(i as int) =~= all);
    }
    match current {
        Some(c) => {
            out.push(c);
        },
        None => {},
    }
    out
}

// ---------------------------------------------------------------------------------------------
// Replacing the session with a profile

/// A workspace pane as replacing the session sees it: its id, its PTY generation, and whether it
/// is closing already.
#[derive(Clone, Copy, Debug, PartialEq, Eq, Structural)]
pub struct SessionPane {
    pub id: PaneId,
    pub generation: u64,
    pub closing: bool,
}

/// What replacing the session with a profile finds and clears in the client.
pub struct ReplaceSite {
    pub session_name: Option<String>,
    /// A session server is connected to take the kills.
    pub connected: bool,
    pub popup: PopupSlot,
    /// The scratchpad pane and its PTY generation, if there is one.
    pub scratch: Option<(PaneId, u64)>,
    pub scratch_visible: bool,
    /// Panes waiting for their program to start.
    pub pending_spawns: Vec<PaneId>,
    /// Panes with replay input waiting for them.
    pub pending_replay_inputs: Vec<PaneId>,
    pub show_profile_picker: bool,
    pub picker: Option<ProfilePicker>,
    pub commands_dirty: bool,
}

/// The one event a replacement emits: `profile-applied`, with the profile, where it was read
/// from, and the session it now runs in.
#[derive(Clone, Debug, PartialEq, Eq)]
pub struct ProfileApplied {
    pub profile: String,
    pub path: String,
    pub session: String,
}

/// What replacing the session with a loaded profile came to.
#[derive(Clone, Debug, PartialEq, Eq)]
pub enum ReplaceOutcome {
    /// Loading the profile failed with this message ("Replace failed"); nothing was touched.
    LoadFailed(String),
    /// No session server is connected: the popup was torn down (the PTY generation to kill is
    /// given) and nothing else changed.
    Disconnected { popup_kill: Option<u64> },
    /// The session was replaced: kill the popup's PTY (if any) and each of `kills` (pane and
    /// generation), lay the profile out, emit `event`, and show `notice`.
    Replaced { popup_kill: Option<u64>, kills: Vec<(PaneId, u64)>, event: ProfileApplied, notice: String },
}

/// The panes a replacement kills, in order: every workspace pane that is not closing already.
pub open spec fn kill_list(panes: Seq<SessionPane>) -> Seq<(PaneId, u64)>
    decreases panes.len(),
{
    if panes.len() == 0 {
        Seq::empty()
    } else {
        kill_list(panes.drop_last()) + if panes.last().closing {
            Seq::empty()
        } else {
            seq![(panes.last().id, panes.last().generation)]
        }
    }
}

/// The session name an event or notice carries: the session's name, or nothing.
pub open spec fn name_or_empty(name: Option<String>) -> Seq<char> {
    match name {
        Some(n) => n@,
        None => Seq::empty(),
    }
}

/// The notice a replacement shows.
pub open spec fn replaced_notice(session: Seq<char>, profile: Seq<char>) -> Seq<char> {
    "Replaced session `"@ + session + "` with `"@ + profile + "`"@
}

fn kills_of(panes: &Vec<SessionPane>, scratch: Option<(PaneId, u64)>) -> (r: Vec<(PaneId, u64)>)
    ensures
        r@ == (match scratch {
            Some(s) => seq![s],
            None => Seq::empty(),
        }) + kill_list(panes@),
{
    let mut out: Vec<(PaneId, u64)> = Vec::new();
    match scratch {
        Some(sc) => out.push(sc),
        None => {},
    }
    let ghost base = out@;
    let mut i: usize = 0;
    while i < panes.len()
        invariant
            i <= panes.len(),
            out@ == base + kill_list(panes@.take(i as int)),
        decreases panes.len() - i,
    {
        proof {
            assert(panes@.take(i as int + 1).drop_last() =~= panes@.take(i as int));
        }
        let p = panes[i];
        if !p.closing {
            out.push((p.id, p.generation));
        }
        proof {
            assert(out@ =~= base + kill_list(panes@.take(i as int + 1)));
        }
        i = i + 1;
    }
    proof {
        assert(panes@.take(i as int) =~= panes@);
    }
    out
}

/// The second press replaced the session with profile `profile`, read from `path`; `loaded` is
/// how loading it went and `panes` the workspace panes. A failed load touches nothing. Otherwise
/// the popup goes; without a session server nothing more happens. With one, the scratchpad pane
/// and every live workspace pane are killed, the pane spawns and replay input waiting for them
/// are dropped (they must never reach their successors), the picker closes, the command list is
/// rebuilt, and exactly one event, `profile-applied`, names the profile and the session.
pub fn replace_with_profile(
    site: &mut ReplaceSite,
    panes: &Vec<SessionPane>,
    profile: &String,
    path: &String,
    loaded: Result<(), String>,
) -> (r: ReplaceOutcome)
    ensures
        loaded is Err ==> r == ReplaceOutcome::LoadFailed(loaded->Err_0) && *final(site) == *old(site),
        loaded is Ok ==> final(site).popup == if old(site).popup.pane is Some {
            PopupSlot { pane: None, return_focus: None }
        } else {
            old(site).popup
        },
        loaded is Ok ==> final(site).session_name == old(site).session_name && final(site).connected
            == old(site).connected,
        loaded is Ok && !old(site).connected ==> r == (ReplaceOutcome::Disconnected {
            popup_kill: match old(site).popup.pane {
                Some(p) => Some(p.generation),
                None => None,
            },
        }),
        loaded is Ok && !old(site).connected ==> {
            &&& final(site).scratch == old(site).scratch
            &&& final(site).scratch_visible == old(site).scratch_visible
            &&& final(site).pending_spawns@ == old(site).pending_spawns@
            &&& final(site).pending_replay_inputs@ == old(site).pending_replay_inputs@
            &&& final(site).show_profile_picker == old(site).show_profile_picker
            &&& final(site).picker == old(site).picker
            &&& final(site).commands_dirty == old(site).commands_dirty
        },
        loaded is Ok && old(site).connected ==> (r matches ReplaceOutcome::Replaced { popup_kill, kills, event, notice }
            && popup_kill == match old(site).popup.pane {
            Some(p) => Some(p.generation),
            None => None,
        } && kills@ == (match old(site).scratch {
            Some(s) => seq![s],
            None => Seq::empty(),
        }) + kill_list(panes@) && event.profile@ == profile@ && event.path@ == path@ && event.session@
            == name_or_empty(old(site).session_name) && notice@ == replaced_notice(
            name_or_empty(old(site).session_name),
            profile@,
        )),
        loaded is Ok && old(site).connected ==> {
            &&& final(site).scratch is None
            &&& !final(site).scratch_visible
            &&& final(site).pending_spawns@.len() == 0
            &&& final(site).pending_replay_inputs@.len() == 0
            &&& !final(site).show_profile_picker
            &&& final(site).picker is None
            &&& final(site).commands_dirty
        },
{
    if let Err(m) = loaded {
        return ReplaceOutcome::LoadFailed(m);
    }
    assert(loaded is Ok);
    let popup_kill = kill_if_open(&mut site.popup);
    if !site.connected {
        return ReplaceOutcome::Disconnected { popup_kill };
    }
    let kills = kills_of(panes, site.scratch);
    site.scratch = None;
    site.scratch_visible = false;
    site.pending_spawns = Vec::new();
    site.pending_replay_inputs = Vec::new();
    let session = match &site.session_name {
        Some(n) => n.clone(),
        None => String::new(),
    };
    let mut notice = String::from_str("Replaced session `");
    notice.append(session.as_str());
    notice.append("` with `");
    notice.append(profile.as_str());
    notice.append("`");
    let event = ProfileApplied { profile: profile.clone(), path: path.clone(), session };
    site.show_profile_picker = false;
    site.picker = None;
    site.commands_dirty = true;
    ReplaceOutcome::Replaced { popup_kill, kills, event, notice }
}

// ---------------------------------------------------------------------------------------------
// Starting a session by name

/// What a new session starts from: nothing, or a saved profile (its name and where it is).
#[derive(Clone, Debug, PartialEq, Eq)]
pub enum AttachSeed {
    Plain,
    Profile { profile: String, path: String },
}

/// The attach a client waits for: the attachment id it runs under, the session's name, whether
/// the server is started when it is not running, what it starts from, and whether the session on
/// screen is parked in the background (else it is released).
#[derive(Clone, Debug, PartialEq, Eq)]
pub struct PendingAttach {
    pub epoch: u64,
    pub name: String,
    pub autostart: bool,
    pub seed: AttachSeed,
    pub park_current: bool,
}

/// What starting a session touches in the client.
pub struct AttachSite {
    /// The attachment id last minted; the next attach runs under the one after it.
    pub runtime_epoch: u64,
    pub pending: Option<PendingAttach>,
    pub connecting: bool,
    pub show_profile_picker: bool,
    pub picker: Option<ProfilePicker>,
}

/// The client once the attach of session `name` is under way: it waits for an autostarting
/// attach under the next attachment id, is connecting, and the profile picker is closed.
pub open spec fn started_site(site: AttachSite, name: String, park_current: bool, seed: AttachSeed) -> AttachSite {
    AttachSite {
        pending: Some(
            PendingAttach { epoch: (site.runtime_epoch + 1) as u64, name, autostart: true, seed, park_current },
        ),
        connecting: true,
        show_profile_picker: false,
        picker: None,
        ..site
    }
}

/// What starting a session came to.
#[derive(Clone, Debug, PartialEq, Eq)]
pub enum StartOutcome {
    /// Loading its profile failed with this message ("Profile load failed"); nothing changed.
    LoadFailed(String),
    /// The attach is under way.
    Started,
}

/// Start session `name` as [`open_plan`] decided (`Start { park_current, .. }`), from `seed`.
/// `loaded` is how loading the seed's profile went; it matters only for a seeded start, and a
/// failed load leaves everything as it was. Otherwise the client waits for an autostarting attach
/// under the next attachment id, is connecting, and the profile picker closes.
pub fn start_named_session(
    site: &mut AttachSite,
    name: &String,
    park_current: bool,
    seed: AttachSeed,
    loaded: Result<(), String>,
) -> (r: StartOutcome)
    requires
        old(site).runtime_epoch < u64::MAX,
    ensures
        (seed is Profile && loaded is Err) ==> r == StartOutcome::LoadFailed(loaded->Err_0) && *final(site)
            == *old(site),
        !(seed is Profile && loaded is Err) ==> r == StartOutcome::Started && *final(site) == started_site(
            *old(site),
            *name,
            park_current,
            seed,
        ),
{
    match (&seed, &loaded) {
        (AttachSeed::Profile { .. }, Err(m)) => {
            return StartOutcome::LoadFailed(m.clone());
        },
        _ => {},
    }
    let epoch = site.runtime_epoch + 1;
    site.pending = Some(PendingAttach { epoch, name: name.clone(), autostart: true, seed, park_current });
    site.connecting = true;
    site.show_profile_picker = false;
    site.picker = None;
    StartOutcome::Started
}

/// Choosing a saved profile whose name is a session name, when no session of that name runs,
/// this client is not attached to it, no attach is under way, and the profile exists, starts the
/// session from it: the choice resolves the entry by name, resolving plans a seeded start that
/// releases the session on screen, and starting leaves the client waiting for an autostarting
/// attach of that name seeded with that profile, under the next attachment id, with the picker
/// closed.
pub proof fn lemma_choosing_a_profile_starts_it(
    picker: ProfilePicker,
    index: usize,
    needs_confirm: bool,
    attached_to: Option<Seq<char>>,
    site: AttachSite,
    path: String,
)
    requires
        index < picker.entries@.len(),
        !needs_confirm || picker.pending_open == Some(index),
        valid_name(picker.entries@[index as int]@),
        attached_to != Some(picker.entries@[index as int]@),
    ensures
        ({
            let name = picker.entries@[index as int];
            let seed = AttachSeed::Profile { profile: name, path };
            let after = started_site(site, name, false, seed);
            &&& select_step(picker, index, needs_confirm) == SelectStep::OpenNamed { index }
            &&& open_plan(name@, OpenIntent::ResolveProfile, false, attached_to, false, true) == Ok::<
                OpenPlan,
                OpenRefusal,
            >(OpenPlan::Start { seeded: true, park_current: false })
            &&& after.pending == Some(
                PendingAttach {
                    epoch: (site.runtime_epoch + 1) as u64,
                    name,
                    autostart: true,
                    seed,
                    park_current: false,
                },
            )
            &&& !after.show_profile_picker
            &&& after.picker is None
        }),
{
}

} // verus!

verus! {

/// A planned start is seeded from the profile exactly when a profile was asked for (resolving one,
/// or creating from one), and parks the current session exactly when creating. A valid name that
/// no session runs under, and no attach in the way, always plans a start, as long as resolving
/// finds its profile.
pub proof fn lemma_profile_intents_seed_the_start(
    name: Seq<char>,
    intent: OpenIntent,
    running: bool,
    attached_to: Option<Seq<char>>,
    attach_pending: bool,
    profile_exists: bool,
)
    ensures
        open_plan(name, intent, running, attached_to, attach_pending, profile_exists) matches Ok(
            OpenPlan::Start { seeded, park_current },
        ) ==> (seeded <==> intent != OpenIntent::CreateFresh) && (park_current <==> intent
            != OpenIntent::ResolveProfile),
        valid_name(name) && !running && attached_to != Some(name) && !attach_pending && (intent
            != OpenIntent::ResolveProfile || profile_exists) ==> open_plan(
            name,
            intent,
            running,
            attached_to,
            attach_pending,
            profile_exists,
        ) == Ok::<OpenPlan, OpenRefusal>(
            OpenPlan::Start {
                seeded: intent != OpenIntent::CreateFresh,
                park_current: intent != OpenIntent::ResolveProfile,
            },
        ),
{
}

} // verus!

verus! {

/// With a valid name and a session of that name running, resolving attaches to it and creating
/// is refused; nothing is started either way.
pub proof fn lemma_a_running_session_is_never_started_again(
    name: Seq<char>,
    intent: OpenIntent,
    attached_to: Option<Seq<char>>,
    attach_pending: bool,
    profile_exists: bool,
)
    requires
        valid_name(name),
    ensures
        open_plan(name, intent, true, attached_to, attach_pending, profile_exists) == if intent
            == OpenIntent::ResolveProfile {
            Ok::<OpenPlan, OpenRefusal>(OpenPlan::AttachExisting)
        } else {
            Err::<OpenPlan, OpenRefusal>(OpenRefusal::AlreadyRunning)
        },
{
}

} // verus!
