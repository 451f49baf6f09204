//! The arm-then-confirm window shared by every destructive confirmation, and the decisions made
//! when the client leaves.

use vstd::prelude::*;

use crate::focus::{after_fallback, choose_fallback_focus};
use crate::model::{LayoutKind, Pane, PaneId, RevealEdge, State, StateView, WorkspaceView};
use crate::profile::live_ids;
use crate::tiling::{tiled_ids, tiled_order};

verus! {

/// How long a destructive action stays armed, in milliseconds.
pub const CONFIRM_WINDOW_MS: u64 = 3000;

/// The armed confirmations of the sidebar and the pickers, and the token that tells one arming's
/// expiry from a later one's.
#[derive(Clone, Copy, Debug, PartialEq, Eq, Structural)]
pub struct Confirmations {
    pub epoch: u64,
    pub row_close_armed: bool,
    pub host_disconnect_armed: bool,
    /// `None` while the session picker is closed; else whether its kill is armed.
    pub session_picker_kill: Option<bool>,
    /// `None` while the profile picker is closed; else whether its delete is armed.
    pub profile_picker_delete: Option<bool>,
    /// `None` while the profile picker is closed; else whether its open is armed.
    pub profile_picker_open: Option<bool>,
}

/// The next arming token: one past the current one, wrapping.
pub open spec fn next_epoch(epoch: u64) -> u64 {
    if epoch == u64::MAX {
        0
    } else {
        (epoch + 1) as u64
    }
}

/// Arm a confirmation: advance the token and return it, for the expiry the caller schedules.
pub fn arm(c: &mut Confirmations) -> (epoch: u64)
    ensures
        epoch == next_epoch(old(c).epoch),
        *final(c) == (Confirmations { epoch, ..*old(c) }),
{
    c.epoch = if c.epoch == u64::MAX {
        0
    } else {
        c.epoch + 1
    };
    c.epoch
}

pub open spec fn cleared(c: Confirmations) -> Confirmations {
    Confirmations {
        row_close_armed: false,
        host_disconnect_armed: false,
        session_picker_kill: match c.session_picker_kill {
            Some(_) => Some(false),
            None => None,
        },
        profile_picker_delete: match c.profile_picker_delete {
            Some(_) => Some(false),
            None => None,
        },
        profile_picker_open: match c.profile_picker_open {
            Some(_) => Some(false),
            None => None,
        },
        ..c
    }
}

pub open spec fn any_armed(c: Confirmations) -> bool {
    c.row_close_armed || c.host_disconnect_armed || c.session_picker_kill == Some(true)
        || c.profile_picker_delete == Some(true) || c.profile_picker_open == Some(true)
}

/// Drop every armed confirmation; whether any was armed (and a repaint is due).
pub fn clear_all(c: &mut Confirmations) -> (r: bool)
    ensures
        *final(c) == cleared(*old(c)),
        r == any_armed(*old(c)),
{
    let mut changed = c.row_close_armed || c.host_disconnect_armed;
    c.row_close_armed = false;
    c.host_disconnect_armed = false;
    if let Some(armed) = c.session_picker_kill {
        changed = changed || armed;
        c.session_picker_kill = Some(false);
    }
    if let Some(armed) = c.profile_picker_delete {
        changed = changed || armed;
        c.profile_picker_delete = Some(false);
    }
    if let Some(armed) = c.profile_picker_open {
        changed = changed || armed;
        c.profile_picker_open = Some(false);
    }
    changed
}

/// The window of arming `epoch` lapsed: drop whatever is armed, unless something has been armed
/// since. Returns whether anything was cleared.
pub fn expired(c: &mut Confirmations, epoch: u64) -> (r: bool)
    ensures
        old(c).epoch != epoch ==> *final(c) == *old(c) && !r,
        old(c).epoch == epoch ==> *final(c) == cleared(*old(c)) && r == any_armed(*old(c)),
{
    if c.epoch != epoch {
        return false;
    }
    clear_all(c)
}

/// An expiry scheduled by one arming never disarms a later arming.
pub proof fn lemma_stale_expiry_keeps_later_arming(c: Confirmations)
    ensures
        next_epoch(next_epoch(c.epoch)) != next_epoch(c.epoch),
{
}

/// A destructive action that takes a second press.
#[derive(Clone, Copy, Debug, PartialEq, Eq, Structural)]
pub enum PendingDestructive {
    ClosePane { pane: PaneId },
    KillWorkspace { workspace: usize },
    KillSession,
    RestartSession,
    NewTemporarySession,
}

/// An armed destructive action, the time it was armed, and the confirm toast that says so once it
/// is shown (`None` until then).
#[derive(Clone, Copy, Debug, PartialEq, Eq, Structural)]
pub struct ArmedDestructive {
    pub action: PendingDestructive,
    pub armed_at_ms: u64,
    pub toast_id: Option<u64>,
}

/// The confirm toast of an arming, if one is armed and its toast is shown.
pub open spec fn toast_of(armed: Option<ArmedDestructive>) -> Option<u64> {
    match armed {
        Some(a) => a.toast_id,
        None => None,
    }
}

/// What a press of a destructive action comes to: whether it confirms, and the confirm toast of
/// the arming it consumed or replaced, to be dismissed.
#[derive(Clone, Copy, Debug, PartialEq, Eq, Structural)]
pub struct PressResult {
    pub confirmed: bool,
    pub dismiss: Option<u64>,
}

/// The armed action is the same and still within the window at `now_ms`.
pub open spec fn confirms(armed: Option<ArmedDestructive>, action: PendingDestructive, now_ms: u64) -> bool {
    match armed {
        Some(a) => a.action == action && now_ms >= a.armed_at_ms && now_ms - a.armed_at_ms
            <= CONFIRM_WINDOW_MS,
        None => false,
    }
}

/// A press of `action` at `now_ms`. Whatever was armed is consumed, and its confirm toast is to be
/// dismissed. The press confirms when an earlier press armed the same action within the window;
/// otherwise it (re-)arms `action` at `now_ms`, with its toast to be shown and recorded by
/// [`confirm_toast_shown`]. The confirm toast runs for the same window, which is what tells the
/// user the confirmation is over.
pub fn confirm_second_press(
    pending: &mut Option<ArmedDestructive>,
    action: PendingDestructive,
    now_ms: u64,
) -> (r: PressResult)
    ensures
        r.confirmed == confirms(*old(pending), action, now_ms),
        r.dismiss == toast_of(*old(pending)),
        r.confirmed ==> *final(pending) is None,
        !r.confirmed ==> *final(pending) == Some(ArmedDestructive { action, armed_at_ms: now_ms, toast_id: None }),
{
    let mut dismiss = None;
    if let Some(armed) = pending.take() {
        dismiss = armed.toast_id;
        if armed.action == action && now_ms >= armed.armed_at_ms && now_ms - armed.armed_at_ms
            <= CONFIRM_WINDOW_MS {
            return PressResult { confirmed: true, dismiss };
        }
    }
    *pending = Some(ArmedDestructive { action, armed_at_ms: now_ms, toast_id: None });
    PressResult { confirmed: false, dismiss }
}

/// The confirm toast of the arming was shown as `toast_id`: the arming records it, so the next
/// press can dismiss it.
pub fn confirm_toast_shown(pending: &mut Option<ArmedDestructive>, toast_id: u64)
    ensures
        *final(pending) == match *old(pending) {
            Some(a) => Some(ArmedDestructive { toast_id: Some(toast_id), ..a }),
            None => None,
        },
{
    if let Some(a) = pending {
        a.toast_id = Some(toast_id);
    }
}

/// Drop whatever destructive action is armed, as leaving the client does; returns its confirm
/// toast, to be dismissed.
pub fn clear_pending(pending: &mut Option<ArmedDestructive>) -> (r: Option<u64>)
    ensures
        r == toast_of(*old(pending)),
        *final(pending) is None,
{
    match pending.take() {
        Some(armed) => armed.toast_id,
        None => None,
    }
}

/// What a session's own settings say should happen to it when the client leaves.
#[derive(Clone, Copy, Debug, PartialEq, Eq, Structural)]
pub enum SessionDisposition {
    /// A named session: detach and leave its server running.
    Keep,
    /// An untouched temporary session: close it silently.
    Discard,
    /// A used but unnamed temporary session: ask before closing it.
    AskBeforeClosing,
}

/// Whether leaving closes a session's server rather than detaching from it: what the session's
/// own disposition says, plus the user's answer for the sessions the leave prompt asked about.
pub open spec fn closes_on_exit(disposition: SessionDisposition, close_temporary: bool) -> bool {
    match disposition {
        SessionDisposition::Keep => false,
        SessionDisposition::Discard => true,
        SessionDisposition::AskBeforeClosing => close_temporary,
    }
}

/// Whether leaving closes this session's server rather than detaching from it.
pub fn shutdown_on_exit(disposition: SessionDisposition, close_temporary: bool) -> (r: bool)
    ensures
        r == closes_on_exit(disposition, close_temporary),
{
    match disposition {
        SessionDisposition::Keep => false,
        SessionDisposition::Discard => true,
        SessionDisposition::AskBeforeClosing => close_temporary,
    }
}

/// Whether the leave prompt asks about this session.
pub fn keepable_temporary(disposition: SessionDisposition) -> (r: bool)
    ensures
        r == (disposition == SessionDisposition::AskBeforeClosing),
{
    disposition == SessionDisposition::AskBeforeClosing
}

/// The number of sessions in `d` the leave prompt asks about.
pub open spec fn count_keepable(d: Seq<SessionDisposition>) -> nat
    decreases d.len(),
{
    if d.len() == 0 {
        0
    } else {
        count_keepable(d.drop_last()) + if d.last() == SessionDisposition::AskBeforeClosing {
            1nat
        } else {
            0nat
        }
    }
}

/// The number of sessions, the current one and the parked ones, the leave prompt asks about.
pub fn keepable_temporary_count(current: SessionDisposition, background: &Vec<SessionDisposition>) -> (r: usize)
    requires
        background.len() < usize::MAX,
    ensures
        r == count_keepable(seq![current] + background@),
{
    let ghost all = seq![current] + background@;
    let mut count: usize = if keepable_temporary(current) {
        1
    } else {
        0
    };
    assert(all.take(1).drop_last() =~= Seq::<SessionDisposition>::empty());
    assert(count_keepable(Seq::<SessionDisposition>::empty()) == 0);
    assert(all.take(1).last() == current);
    let mut i: usize = 0;
    while i < background.len()
        invariant
            all == seq![current] + background@,
            i <= background.len(),
            background.len() < usize::MAX,
            count <= i + 1,
            count == count_keepable(all.take(i as int + 1)),
        decreases background.len() - i,
    {
        assert(all.take(i as int + 2).drop_last() =~= all.take(i as int + 1));
        if keepable_temporary(background[i]) {
            count = count + 1;
        }
        i = i + 1;
    }
    assert(all.take(i as int + 1) =~= all);
    count
}

/// Leaving decides each session by its disposition: a named session is always detached and left
/// running; an untouched temporary one is always closed; and leaving without an answer (as a
/// script or a hang-up does) closes nothing else, so automation never destroys a session that
/// holds anything.
pub proof fn lemma_leaving_spares_what_it_should(d: SessionDisposition, close_temporary: bool)
    ensures
        d == SessionDisposition::Keep ==> !closes_on_exit(d, close_temporary),
        d == SessionDisposition::Discard ==> closes_on_exit(d, close_temporary),
        closes_on_exit(d, false) <==> d == SessionDisposition::Discard,
{
}

/// The number of sessions in `d` whose fate the answer to the leave prompt decides: closed when
/// the user agrees to close temporary sessions, kept running otherwise.
pub open spec fn count_decided_by_answer(d: Seq<SessionDisposition>) -> nat
    decreases d.len(),
{
    if d.len() == 0 {
        0
    } else {
        count_decided_by_answer(d.drop_last()) + if closes_on_exit(d.last(), true) != closes_on_exit(d.last(), false) {
            1nat
        } else {
            0nat
        }
    }
}

/// The leave prompt asks about exactly the sessions its answer decides, so the count it shows
/// and the set the answer closes can never disagree.
pub proof fn lemma_prompt_counts_what_the_answer_closes(d: Seq<SessionDisposition>)
    ensures
        count_keepable(d) == count_decided_by_answer(d),
    decreases d.len(),
{
    if d.len() > 0 {
        lemma_prompt_counts_what_the_answer_closes(d.drop_last());
    }
}

/// What asking to leave does.
#[derive(Clone, Copy, Debug, PartialEq, Eq, Structural)]
pub enum LeaveStep {
    /// Ask whether to keep `count` temporary sessions. When the session on screen is not one the
    /// prompt asks about, first come back to the parked session `come_back_to`: a prompt about a
    /// session the user cannot see is one they cannot judge.
    Ask { count: usize, come_back_to: Option<u64> },
    /// Nothing to ask about: leave now, keeping everything that can keep running.
    LeaveNow,
}

/// The first parked session the leave prompt asks about.
pub open spec fn first_keepable(parked: Seq<(u64, SessionDisposition)>) -> Option<u64>
    decreases parked.len(),
{
    if parked.len() == 0 {
        None
    } else if parked[0].1 == SessionDisposition::AskBeforeClosing {
        Some(parked[0].0)
    } else {
        first_keepable(parked.drop_first())
    }
}

pub open spec fn dispositions(parked: Seq<(u64, SessionDisposition)>) -> Seq<SessionDisposition> {
    parked.map_values(|p: (u64, SessionDisposition)| p.1)
}

/// What asking to leave does, given the session on screen and the parked sessions in id order.
pub open spec fn leave_step_of(current: SessionDisposition, parked: Seq<(u64, SessionDisposition)>) -> LeaveStep {
    let count = count_keepable(seq![current] + dispositions(parked));
    if count > 0 {
        LeaveStep::Ask {
            count: count as usize,
            come_back_to: if current == SessionDisposition::AskBeforeClosing {
                None
            } else {
                first_keepable(parked)
            },
        }
    } else {
        LeaveStep::LeaveNow
    }
}

fn first_keepable_from(parked: &Vec<(u64, SessionDisposition)>, start: usize) -> (r: Option<u64>)
    requires
        start <= parked.len(),
    ensures
        r == first_keepable(parked@.skip(start as int)),
    decreases parked.len() - start,
{
    if start == parked.len() {
        assert(parked@.skip(start as int).len() == 0);
        None
    } else {
        assert(parked@.skip(start as int)[0] == parked@[start as int]);
        assert(parked@.skip(start as int).drop_first() =~= parked@.skip(start as int + 1));
        if parked[start].1 == SessionDisposition::AskBeforeClosing {
            Some(parked[start].0)
        } else {
            first_keepable_from(parked, start + 1)
        }
    }
}

/// What asking to leave does: ask about the temporary sessions when there are any, else leave.
/// `parked` holds the parked sessions' ids and dispositions in id order.
pub fn leave_step(current: SessionDisposition, parked: &Vec<(u64, SessionDisposition)>) -> (r: LeaveStep)
    requires
        parked.len() < usize::MAX,
    ensures
        r == leave_step_of(current, parked@),
{
    let mut kinds: Vec<SessionDisposition> = Vec::new();
    let mut i: usize = 0;
    while i < parked.len()
        invariant
            i <= parked.len(),
            kinds@ == dispositions(parked@.take(i as int)),
        decreases parked.len() - i,
    {
        kinds.push(parked[i].1);
        assert(dispositions(parked@.take(i as int + 1)) =~= dispositions(parked@.take(i as int)).push(parked@[i as int].1));
        i = i + 1;
    }
    assert(parked@.take(parked@.len() as int) =~= parked@);
    let count = keepable_temporary_count(current, &kinds);
    if count > 0 {
        let come_back_to = if keepable_temporary(current) {
            None
        } else {
            assert(parked@.skip(0) =~= parked@);
            first_keepable_from(parked, 0)
        };
        LeaveStep::Ask { count, come_back_to }
    } else {
        LeaveStep::LeaveNow
    }
}

/// The session a detach announces: none when the session is no longer attached (so the event is
/// emitted once), else the name given, else the session's own name, else the empty name.
pub open spec fn detach_announcement(
    attached: bool,
    given: Option<Seq<char>>,
    own: Option<Seq<char>>,
) -> Option<Seq<char>> {
    if !attached {
        None
    } else {
        match given {
            Some(name) => Some(name),
            None => match own {
                Some(name) => Some(name),
                None => Some(Seq::empty()),
            },
        }
    }
}

/// The session name a detach announces, if it announces one; see [`detach_announcement`].
pub fn detached_session(attached: bool, given: Option<&str>, own: Option<&String>) -> (r: Option<String>)
    ensures
        match r {
            Some(name) => detach_announcement(
                attached,
                match given {
                    Some(g) => Some(g@),
                    None => None,
                },
                match own {
                    Some(o) => Some(o@),
                    None => None,
                },
            ) == Some(name@),
            None => !attached,
        },
{
    if !attached {
        return None;
    }
    match given {
        Some(name) => Some(String::from_str(name)),
        None => match own {
            Some(name) => Some(name.clone()),
            None => Some(String::new()),
        },
    }
}

} // verus!

verus! {

/// What killing the active workspace's panes did.
#[derive(Clone, Debug)]
pub enum KillWorkspaceStep {
    /// It has no live pane.
    AlreadyEmpty,
    /// The first press armed the kill of `count` panes on one-based workspace `workspace`.
    Armed { count: usize, workspace: usize },
    /// These panes were set closing, in order.
    Killed { panes: Vec<PaneId> },
}

/// `panes` with every pane set closing.
pub open spec fn all_closing(panes: Seq<Pane>) -> Seq<Pane> {
    panes.map_values(|p: Pane| Pane { closing: true, ..p })
}

/// The state once the panes of workspace `j` are all closing.
pub open spec fn workspace_closed(s: StateView, j: int) -> StateView {
    StateView {
        workspaces: s.workspaces.update(j, WorkspaceView { panes: all_closing(s.workspaces[j].panes), ..s.workspaces[j] }),
        ..s
    }
}

/// A Scrollable workspace `j` left with no tile forgets where its strip was scrolled.
pub open spec fn strip_reset(s: StateView, j: int) -> StateView {
    let ws = s.workspaces[j];
    if ws.layout_kind == LayoutKind::Scrollable && tiled_order(ws).len() == 0 {
        StateView {
            workspaces: s.workspaces.update(
                j,
                WorkspaceView { scrollable_anchor: None, scrollable_reveal_edge: RevealEdge::Left, ..ws },
            ),
            ..s
        }
    } else {
        s
    }
}

/// The state after the kill went through: every pane of the active workspace closing, focus
/// resolved once for the whole batch (towards `nearest`), then the strip reset.
pub open spec fn workspace_killed(s: StateView, nearest: Option<PaneId>) -> StateView {
    let closed = workspace_closed(s, s.active_workspace as int);
    strip_reset(after_fallback(closed, closed.focused(), nearest), s.active_workspace as int)
}

fn close_all_panes(state: &mut State, j: usize)
    requires
        old(state).wf(),
        j < old(state).session.workspaces.len(),
    ensures
        final(state).wf(),
        final(state)@ == workspace_closed(old(state)@, j as int),
        final(state).session.active_workspace == old(state).session.active_workspace,
        final(state).session.workspaces.len() == old(state).session.workspaces.len(),
{
    let ws = state.workspace_mut(j);
    let mut panes: Vec<Pane> = Vec::new();
    std::mem::swap(&mut panes, &mut ws.panes);
    let ghost orig = panes@;
    let mut k: usize = 0;
    while k < panes.len()
        invariant
            k <= panes.len(),
            panes@.len() == orig.len(),
            forall|i: int| 0 <= i < k ==> #[trigger] panes@[i] == (Pane { closing: true, ..orig[i] }),
            forall|i: int| k <= i < orig.len() ==> #[trigger] panes@[i] == orig[i],
        decreases panes.len() - k,
    {
        let mut p = panes[k];
        p.closing = true;
        panes.set(k, p);
        k = k + 1;
    }
    proof {
        assert(panes@ =~= all_closing(orig));
    }
    ws.panes = panes;
}

fn live_pane_ids(panes: &Vec<Pane>) -> (r: Vec<PaneId>)
    ensures
        r@ == live_ids(panes@),
{
    let mut out: Vec<PaneId> = Vec::new();
    let mut k: usize = 0;
    while k < panes.len()
        invariant
            k <= panes.len(),
            out@ == live_ids(panes@.take(k as int)),
        decreases panes.len() - k,
    {
        proof {
            assert(panes@.take(k as int + 1).drop_last() =~= panes@.take(k as int));
        }
        if !panes[k].closing {
            out.push(panes[k].id);
        }
        k = k + 1;
    }
    proof {
        assert(panes@.take(panes@.len() as int) =~= panes@);
    }
    out
}

/// Kill every live pane of the active workspace. With `confirmations` on, the first press arms
/// (at `now_ms`) and the kill waits for a second press within the window; `nearest` is the pane
/// the caller's layout code found nearest the focused one.
pub fn kill_workspace_with_confirmation(
    state: &mut State,
    pending: &mut Option<ArmedDestructive>,
    confirmations: bool,
    now_ms: u64,
    nearest: Option<PaneId>,
) -> (r: (KillWorkspaceStep, Option<u64>))
    requires
        old(state).wf(),
    ensures
        final(state).wf(),
        ({
            let j = old(state)@.active_workspace;
            let live = live_ids(old(state)@.workspaces[j as int].panes);
            let action = PendingDestructive::KillWorkspace { workspace: j };
            &&& r.1 == if live.len() > 0 && confirmations {
                toast_of(*old(pending))
            } else {
                None
            }
            &&& if live.len() == 0 {
                r.0 == KillWorkspaceStep::AlreadyEmpty && final(state)@ == old(state)@ && *final(pending)
                    == *old(pending)
            } else if confirmations && !confirms(*old(pending), action, now_ms) {
                r.0 == (KillWorkspaceStep::Armed { count: live.len() as usize, workspace: (j + 1) as usize })
                    && final(state)@ == old(state)@ && *final(pending) == Some(
                    ArmedDestructive { action, armed_at_ms: now_ms, toast_id: None },
                )
            } else {
                &&& r.0 matches KillWorkspaceStep::Killed { panes } && panes@ == live
                &&& final(state)@ == workspace_killed(old(state)@, nearest)
                &&& *final(pending) == if confirmations {
                    None
                } else {
                    *old(pending)
                }
            }
        }),
{
    let j = state.session.active_workspace;
    let live = live_pane_ids(&state.session.workspaces[j].panes);
    if live.len() == 0 {
        return (KillWorkspaceStep::AlreadyEmpty, None);
    }
    let mut dismiss = None;
    if confirmations {
        let press = confirm_second_press(pending, PendingDestructive::KillWorkspace { workspace: j }, now_ms);
        dismiss = press.dismiss;
        if !press.confirmed {
            return (KillWorkspaceStep::Armed { count: live.len(), workspace: j + 1 }, dismiss);
        }
    }
    close_all_panes(state, j);
    let ghost closed = state@;
    choose_fallback_focus(state, nearest);
    let ghost fell = state@;
    assert(fell.workspaces.update(j as int, fell.workspaces[j as int]) =~= fell.workspaces);
    let ws = state.workspace_mut(j);
    if ws.layout_kind == LayoutKind::Scrollable && tiled_ids(ws).len() == 0 {
        ws.scrollable_anchor = None;
        ws.scrollable_reveal_edge = RevealEdge::Left;
    }
    (KillWorkspaceStep::Killed { panes: live }, dismiss)
}

/// Why a session-wide destructive action does not go ahead.
#[derive(Clone, Copy, Debug, PartialEq, Eq, Structural)]
pub enum SessionActionGate {
    /// No session is attached.
    NotAttached,
    /// A follower is pointed at the controller instead.
    NudgeFollower,
    /// The first press armed it.
    Armed,
    /// Go ahead.
    Proceed,
}

/// Killing or restarting the session: refused unattached, nudged as a follower, and with
/// `confirm` on it takes a second press within the window.
pub fn session_action_gate(
    pending: &mut Option<ArmedDestructive>,
    action: PendingDestructive,
    attached: bool,
    controller: bool,
    confirm: bool,
    now_ms: u64,
) -> (r: (SessionActionGate, Option<u64>))
    ensures
        r.1 == if attached && controller && confirm {
            toast_of(*old(pending))
        } else {
            None
        },
        !attached ==> r.0 == SessionActionGate::NotAttached && *final(pending) == *old(pending),
        attached && !controller ==> r.0 == SessionActionGate::NudgeFollower && *final(pending) == *old(pending),
        attached && controller && confirm && !confirms(*old(pending), action, now_ms) ==> r.0
            == SessionActionGate::Armed && *final(pending) == Some(
            ArmedDestructive { action, armed_at_ms: now_ms, toast_id: None },
        ),
        attached && controller && confirm && confirms(*old(pending), action, now_ms) ==> r.0
            == SessionActionGate::Proceed && *final(pending) is None,
        attached && controller && !confirm ==> r.0 == SessionActionGate::Proceed && *final(pending) == *old(pending),
{
    if !attached {
        return (SessionActionGate::NotAttached, None);
    }
    if !controller {
        return (SessionActionGate::NudgeFollower, None);
    }
    if confirm {
        let press = confirm_second_press(pending, action, now_ms);
        if !press.confirmed {
            return (SessionActionGate::Armed, press.dismiss);
        }
        return (SessionActionGate::Proceed, press.dismiss);
    }
    (SessionActionGate::Proceed, None)
}

/// Closing the focused pane: with `confirm` on and its process running, the first press arms and
/// only a second press within the window closes it. Returns the pane to close, if any.
pub fn close_focused_pane_with_confirmation(
    state: &State,
    pending: &mut Option<ArmedDestructive>,
    confirm: bool,
    running: bool,
    now_ms: u64,
) -> (r: (Option<PaneId>, Option<u64>))
    requires
        state.wf(),
    ensures
        ({
            match state@.focused() {
                None => r == (None::<PaneId>, None::<u64>) && *final(pending) == *old(pending),
                Some(id) => {
                    let action = PendingDestructive::ClosePane { pane: id };
                    &&& r.1 == if confirm && running {
                        toast_of(*old(pending))
                    } else {
                        None
                    }
                    &&& if confirm && running && !confirms(*old(pending), action, now_ms) {
                        r.0 is None && *final(pending) == Some(
                            ArmedDestructive { action, armed_at_ms: now_ms, toast_id: None },
                        )
                    } else if confirm && running {
                        r.0 == Some(id) && *final(pending) is None
                    } else {
                        r.0 == Some(id) && *final(pending) == *old(pending)
                    }
                },
            }
        }),
{
    let id = match state.focused_pane() {
        Some(id) => id,
        None => return (None, None),
    };
    if confirm && running {
        let press = confirm_second_press(pending, PendingDestructive::ClosePane { pane: id }, now_ms);
        if !press.confirmed {
            return (None, press.dismiss);
        }
        return (Some(id), press.dismiss);
    }
    (Some(id), None)
}

} // verus!

verus! {

/// A press arms its action; pressing the same action again within the window (the bound
/// included) confirms it, and any other action does not.
pub proof fn lemma_second_press_confirms(
    action: PendingDestructive,
    other: PendingDestructive,
    armed_at: u64,
    toast_id: Option<u64>,
    now: u64,
)
    requires
        armed_at <= now,
        now - armed_at <= CONFIRM_WINDOW_MS,
        other != action,
    ensures
        confirms(Some(ArmedDestructive { action, armed_at_ms: armed_at, toast_id }), action, now),
        !confirms(Some(ArmedDestructive { action, armed_at_ms: armed_at, toast_id }), other, now),
        !confirms(None, action, now),
{
}

} // verus!
