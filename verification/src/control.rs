//! The workspace and pane commands of the control endpoint: argument checks, the layout-write
//! gate, and the state changes they make.

use vstd::prelude::*;

use crate::focus::{
    after_fallback, choose_fallback_focus, position_in_order, swap_tree_leaves, leaves_swapped,
    LayoutProbe,
};
use crate::model::{
    first_live, first_visible_pane, has_pane, is_live, is_live_tiled, pane_is_live, position_of,
    GeometryAnimation, Pane, PaneId, State, StateView, WorkspaceView,
};
use crate::focus::{
    find_home_workspace, focus_pane, focus_pane_anywhere, focused_anywhere, focused_on, home_workspace,
};
use crate::extensions::{decimal, decimal_u64};
use crate::text::{trim_text, trimmed};
use crate::tiling::{effective_order, effective_tile_tree};
use crate::workspace::{
    can_transfer, focused_moved, move_focused_to_workspace, switch_workspace, switched,
    transfer_pane, transferred,
};

verus! {

/// Why a control command was refused.
#[derive(Clone, Copy, Debug, PartialEq, Eq, Structural)]
pub enum ControlError {
    /// The scratchpad is open.
    ScratchpadOpen,
    /// This UI does not hold layout control, which the request needs.
    NotController,
    /// A layout write from a UI that does not hold layout control.
    NoLayoutControl,
    /// A layout write from a UI attached read-only.
    ReadOnly,
    /// A request that writes to the session (such as a pane status) from a UI attached read-only.
    AttachedReadOnly,
    /// The layout changed since the revision the caller named.
    RevisionMismatch,
    /// The one-based workspace number names no workspace.
    WorkspaceOutOfRange,
    /// No live workspace pane has this id.
    PaneNotFound { pane: PaneId },
    /// The pane is a scratch pane, which has no shared layout.
    ScratchPane { pane: PaneId },
    /// A swap needs two different tiled panes of one workspace.
    InvalidSwap { pane: PaneId, with: PaneId },
    /// The pane a request came from is no live workspace pane.
    SourceNotFound { pane: PaneId },
    /// The pane a request came from is hidden behind the open scratchpad.
    SourceBehindScratchpad,
    /// A notification needs a message that is not blank.
    EmptyMessage,
    /// The scratchpad is hidden, so its panes cannot take focus.
    ScratchpadHidden,
    /// There is neither a target pane nor a focused pane.
    TargetRequired,
    /// The pane's program is not running and will never read input.
    PaneNotRunning { pane: PaneId },
    /// The pane's session is not attached.
    SessionNotAttached { pane: PaneId },
    /// The pane's session is not connected.
    SessionNotConnected { pane: PaneId },
    /// `pane set` gave a rect for a pane that does not float, and will not after the edit.
    RectOnTiledPane { pane: PaneId },
}

/// What the layout-write gate reads: whether this UI is attached read-only, whether it holds
/// layout control, and whether the caller's expected revision (if any) matches.
#[derive(Clone, Copy, Debug, PartialEq, Eq, Structural)]
pub struct LayoutGate {
    pub read_only: bool,
    pub controller: bool,
    pub revision_ok: bool,
}

/// `Some(error)` when the one-based `index` is outside `1..=count`, `None` when it is valid.
pub fn validate_workspace_index(index: usize, count: usize) -> (r: Option<ControlError>)
    ensures
        r is None <==> 1 <= index <= count,
        r is Some ==> r == Some(ControlError::WorkspaceOutOfRange),
{
    if index < 1 || index > count {
        Some(ControlError::WorkspaceOutOfRange)
    } else {
        None
    }
}

/// `switch-workspace` from the control endpoint; `index` is one-based.
pub fn switch_workspace_command(state: &mut State, index: usize, probe: LayoutProbe) -> (r: Result<(), ControlError>)
    requires
        old(state).wf(),
    ensures
        final(state).wf(),
        old(state).scratch_visible ==> r == Err::<(), ControlError>(ControlError::ScratchpadOpen)
            && final(state)@ == old(state)@,
        !old(state).scratch_visible && !(1 <= index <= old(state)@.workspaces.len()) ==> r == Err::<(), ControlError>(
            ControlError::WorkspaceOutOfRange,
        ) && final(state)@ == old(state)@,
        !old(state).scratch_visible && 1 <= index <= old(state)@.workspaces.len() ==> r is Ok
            && final(state)@ == switched(old(state)@, (index - 1) as usize, probe),
{
    if state.scratch_visible {
        return Err(ControlError::ScratchpadOpen);
    }
    match validate_workspace_index(index, state.session.workspaces.len()) {
        Some(e) => Err(e),
        None => {
            switch_workspace(state, index - 1, probe);
            Ok(())
        },
    }
}

/// `move-to-workspace` from the control endpoint: carry the focused pane to workspace `index`
/// (one-based). Only the UI holding layout control may.
pub fn move_to_workspace_command(
    state: &mut State,
    index: usize,
    controller: bool,
    probe: LayoutProbe,
) -> (r: Result<(), ControlError>)
    requires
        old(state).wf(),
    ensures
        final(state).wf(),
        old(state).scratch_visible ==> r == Err::<(), ControlError>(ControlError::ScratchpadOpen)
            && final(state)@ == old(state)@,
        !old(state).scratch_visible && !controller ==> r == Err::<(), ControlError>(
            ControlError::NotController,
        ) && final(state)@ == old(state)@,
        !old(state).scratch_visible && controller && !(1 <= index <= old(state)@.workspaces.len())
            ==> r == Err::<(), ControlError>(ControlError::WorkspaceOutOfRange) && final(state)@
            == old(state)@,
        !old(state).scratch_visible && controller && 1 <= index <= old(state)@.workspaces.len() ==> r
            is Ok && final(state)@ == focused_moved(old(state)@, (index - 1) as usize, probe),
{
    if state.scratch_visible {
        return Err(ControlError::ScratchpadOpen);
    }
    if !controller {
        return Err(ControlError::NotController);
    }
    match validate_workspace_index(index, state.session.workspaces.len()) {
        Some(e) => Err(e),
        None => {
            move_focused_to_workspace(state, index - 1, probe);
            Ok(())
        },
    }
}

pub open spec fn gate_error(gate: LayoutGate) -> Option<ControlError> {
    if gate.read_only {
        Some(ControlError::ReadOnly)
    } else if !gate.controller {
        Some(ControlError::NoLayoutControl)
    } else if !gate.revision_ok {
        Some(ControlError::RevisionMismatch)
    } else {
        None
    }
}

/// The checks every layout write makes before looking at its target: authority, then revision.
pub fn layout_write_preflight(gate: LayoutGate) -> (r: Result<(), ControlError>)
    ensures
        match gate_error(gate) {
            Some(e) => r == Err::<(), ControlError>(e),
            None => r is Ok,
        },
{
    if gate.read_only {
        return Err(ControlError::ReadOnly);
    }
    if !gate.controller {
        return Err(ControlError::NoLayoutControl);
    }
    if !gate.revision_ok {
        return Err(ControlError::RevisionMismatch);
    }
    Ok(())
}

/// `j` is the first workspace holding a live pane `id`.
pub open spec fn located_at(s: StateView, id: PaneId, j: int) -> bool {
    &&& 0 <= j < s.workspaces.len()
    &&& is_live(s.workspaces[j].panes, id)
    &&& forall|k: int| 0 <= k < j ==> !is_live(#[trigger] s.workspaces[k].panes, id)
}

/// Where live pane `id` sits: the first workspace holding it, and whether the first live pane
/// with that id there floats.
pub open spec fn location(s: StateView, id: PaneId) -> Result<(int, bool), ControlError> {
    if exists|j: int| located_at(s, id, j) {
        let j = choose|j: int| located_at(s, id, j);
        let panes = s.workspaces[j].panes;
        Ok((j, !is_live_tiled_first(panes, id)))
    } else if has_pane(s.scratch.panes, id) {
        Err(ControlError::ScratchPane { pane: id })
    } else {
        Err(ControlError::PaneNotFound { pane: id })
    }
}

/// The first live pane with `id` in `panes` is tiled.
pub open spec fn is_live_tiled_first(panes: Seq<Pane>, id: PaneId) -> bool {
    crate::focus::anchors_tiled(panes, id)
}

proof fn lemma_located_unique(s: StateView, id: PaneId, i: int, k: int)
    requires
        located_at(s, id, i),
        located_at(s, id, k),
    ensures
        i == k,
{
    if i < k {
        assert(!is_live(s.workspaces[i].panes, id));
    } else if k < i {
        assert(!is_live(s.workspaces[k].panes, id));
    }
}

/// The zero-based workspace holding live pane `target`, and whether it floats.
pub fn locate_layout_pane(state: &State, target: PaneId) -> (r: Result<(usize, bool), ControlError>)
    ensures
        match r {
            Ok((j, floating)) => location(state@, target) == Ok::<(int, bool), ControlError>((j as int, floating))
                && j < state.session.workspaces.len(),
            Err(e) => location(state@, target) == Err::<(int, bool), ControlError>(e),
        },
{
    let mut j: usize = 0;
    while j < state.session.workspaces.len()
        invariant
            j <= state.session.workspaces.len(),
            forall|k: int| 0 <= k < j ==> !is_live(#[trigger] state@.workspaces[k].panes, target),
        decreases state.session.workspaces.len() - j,
    {
        let tiled = crate::focus::live_pane_is_tiled(&state.session.workspaces[j].panes, target);
        if let Some(t) = tiled {
            proof {
                assert(located_at(state@, target, j as int));
                let k = choose|j: int| located_at(state@, target, j);
                lemma_located_unique(state@, target, j as int, k);
            }
            return Ok((j, !t));
        }
        j = j + 1;
    }
    proof {
        if exists|m: int| located_at(state@, target, m) {
            let m = choose|m: int| located_at(state@, target, m);
            assert(!is_live(state@.workspaces[m].panes, target));
        }
    }
    if position_of(&state.scratch.panes, target).is_some() {
        Err(ControlError::ScratchPane { pane: target })
    } else {
        Err(ControlError::PaneNotFound { pane: target })
    }
}

/// The checks `pane set` makes before looking at what it is asked to change, in order: the
/// layout-write gate, then the live pane it names. Returns the zero-based workspace holding the
/// pane and whether it floats.
pub fn pane_set_preflight(state: &State, target: PaneId, gate: LayoutGate) -> (r: Result<(usize, bool), ControlError>)
    ensures
        gate_error(gate) is Some ==> r == Err::<(usize, bool), ControlError>(gate_error(gate)->0),
        gate_error(gate) is None ==> match r {
            Ok((j, floating)) => location(state@, target) == Ok::<(int, bool), ControlError>((j as int, floating))
                && j < state.session.workspaces.len(),
            Err(e) => location(state@, target) == Err::<(int, bool), ControlError>(e),
        },
{
    match layout_write_preflight(gate) {
        Err(e) => Err(e),
        Ok(()) => locate_layout_pane(state, target),
    }
}

/// Why a `pane move` of pane `target` to one-based `workspace` is refused, checked in order: the
/// workspace number, the layout-write gate, then where the pane is.
pub open spec fn pane_move_error(s: StateView, target: PaneId, workspace: usize, gate: LayoutGate) -> Option<ControlError> {
    if !(1 <= workspace <= s.workspaces.len()) {
        Some(ControlError::WorkspaceOutOfRange)
    } else if gate_error(gate) is Some {
        gate_error(gate)
    } else {
        match location(s, target) {
            Err(e) => Some(e),
            Ok(_) => None,
        }
    }
}

/// The state after an accepted `pane move`: the pane moves to the end of the target workspace;
/// focus falls back in the active workspace when the pane left it, or the source workspace forgets
/// it as its remembered focus; a move touching the active workspace animates as a tile change.
#[verifier::opaque]
pub open spec fn pane_moved(s: StateView, target: PaneId, workspace: usize, probe: LayoutProbe) -> StateView {
    let source = location(s, target)->Ok_0.0;
    let dest = workspace - 1;
    if !can_transfer(s, target, source, dest) {
        s
    } else {
        let s1 = transferred(s, target, source, dest);
        let s2 = if source == s.active_workspace && !s.scratch_visible {
            after_fallback(s1, s1.focused(), probe.nearest)
        } else {
            let left = s1.workspaces[source];
            if left.focused_pane == Some(target) {
                StateView {
                    workspaces: s1.workspaces.update(source, left.with_focus(first_live(left.panes))),
                    ..s1
                }
            } else {
                s1
            }
        };
        if source == s.active_workspace || dest == s.active_workspace {
            StateView { animation: GeometryAnimation::TileFloat, ..s2 }
        } else {
            s2
        }
    }
}

/// `pane move` from this UI: move live pane `target` to one-based `workspace`. Returns whether the
/// layout changed.
pub fn pane_move(
    state: &mut State,
    target: PaneId,
    workspace: usize,
    gate: LayoutGate,
    probe: LayoutProbe,
) -> (r: Result<bool, ControlError>)
    requires
        old(state).wf(),
    ensures
        final(state).wf(),
        match pane_move_error(old(state)@, target, workspace, gate) {
            Some(e) => r == Err::<bool, ControlError>(e) && final(state)@ == old(state)@,
            None => r == Ok::<bool, ControlError>(
                can_transfer(
                    old(state)@,
                    target,
                    location(old(state)@, target)->Ok_0.0,
                    workspace - 1,
                ),
            ) && final(state)@ == pane_moved(old(state)@, target, workspace, probe),
        },
{
    reveal(pane_moved);
    if workspace < 1 || workspace > state.session.workspaces.len() {
        return Err(ControlError::WorkspaceOutOfRange);
    }
    if let Err(e) = layout_write_preflight(gate) {
        return Err(e);
    }
    let source = match locate_layout_pane(state, target) {
        Ok((source, _)) => source,
        Err(e) => return Err(e),
    };
    let destination = workspace - 1;
    let ghost s0 = state@;
    assert(location(s0, target)->Ok_0.0 == source as int);
    let changed = transfer_pane(state, target, source, destination);
    assert(changed == can_transfer(s0, target, source as int, destination as int));
    if changed {
        assert(state@ == transferred(s0, target, source as int, destination as int));
        let active = state.session.active_workspace;
        assert(active == s0.active_workspace);
        assert(state.scratch_visible == s0.scratch_visible);
        if source == active && !state.scratch_visible {
            choose_fallback_focus(state, probe.nearest);
        } else {
            let ghost s1 = state@;
            let left = state.workspace_mut(source);
            if left.focused_pane == Some(target) {
                left.focused_pane = first_visible_pane(left);
            }
            proof {
                let l = s1.workspaces[source as int];
                if l.focused_pane == Some(target) {
                    assert(state@.workspaces =~= s1.workspaces.update(source as int, l.with_focus(first_live(l.panes))));
                } else {
                    assert(state@.workspaces =~= s1.workspaces);
                }
            }
        }
        assert(state@.workspaces.len() == s0.workspaces.len());
        if source == active || destination == active {
            state.animation = GeometryAnimation::TileFloat;
        }
        assert(state@ == pane_moved(s0, target, workspace, probe));
    }
    Ok(changed)
}

/// Why exchanging pane `target` and pane `with` is refused: the layout-write gate first, then
/// where each pane lives, then whether both are distinct tiled panes of one workspace.
pub open spec fn pane_swap_error(s: StateView, target: PaneId, with: PaneId, gate: LayoutGate) -> Option<ControlError> {
    if gate_error(gate) is Some {
        gate_error(gate)
    } else {
        match (location(s, target), location(s, with)) {
            (Err(e), _) => Some(e),
            (Ok(_), Err(e)) => Some(e),
            (Ok((i, fa)), Ok((j, fb))) => if !fa && !fb && i == j && target != with {
                None
            } else {
                Some(ControlError::InvalidSwap { pane: target, with })
            },
        }
    }
}

/// `pane swap` from this UI: exchange two tiled panes of one workspace in its tiling tree.
/// Returns whether the layout changed.
pub fn pane_swap(state: &mut State, target: PaneId, with: PaneId, gate: LayoutGate) -> (r: Result<bool, ControlError>)
    requires
        old(state).wf(),
    ensures
        final(state).wf(),
        match pane_swap_error(old(state)@, target, with, gate) {
            Some(e) => r == Err::<bool, ControlError>(e) && final(state)@ == old(state)@,
            None => {
                let i = location(old(state)@, target)->Ok_0.0;
                let ws = old(state)@.workspaces[i];
                let tree = effective_order(ws);
                let changed = tree.contains(target) && tree.contains(with);
                let ws1 = WorkspaceView {
                    tile_tree: Some(if changed { leaves_swapped(tree, target, with) } else { tree }),
                    ..ws
                };
                let s1 = StateView { workspaces: old(state)@.workspaces.update(i, ws1), ..old(state)@ };
                &&& r == Ok::<bool, ControlError>(changed)
                &&& final(state)@ == if changed && i == old(state)@.active_workspace {
                    StateView { animation: GeometryAnimation::TileFloat, ..s1 }
                } else {
                    s1
                }
            },
        },
{
    if let Err(e) = layout_write_preflight(gate) {
        return Err(e);
    }
    let (index, floating) = match locate_layout_pane(state, target) {
        Ok(found) => found,
        Err(e) => return Err(e),
    };
    let (other_index, other_floating) = match locate_layout_pane(state, with) {
        Ok(found) => found,
        Err(e) => return Err(e),
    };
    if floating || other_floating || index != other_index || target == with {
        return Err(ControlError::InvalidSwap { pane: target, with });
    }
    let ws = state.workspace_mut(index);
    let mut tree = effective_tile_tree(ws);
    let changed = swap_tree_leaves(&mut tree, target, with);
    ws.tile_tree = Some(tree);
    if changed && index == state.session.active_workspace {
        state.animation = GeometryAnimation::TileFloat;
    }
    Ok(changed)
}

} // verus!

verus! {

/// The commands the control endpoint takes, by kind.
#[derive(Clone, Copy, Debug, PartialEq, Eq, Structural)]
pub enum ControlCommandKind {
    ListPanes,
    LayoutGet,
    LayoutSet,
    PaneSet,
    PaneMove,
    PaneSwap,
    PaneClose,
    AgentsList,
    AgentGet,
    AgentRead,
    Metrics,
    Focus,
    SendText,
    SendKeys,
    NewPane,
    RunAction,
    CapturePane,
    CaptureUi,
    Notify,
    SwitchWorkspace,
    MoveToWorkspace,
    Popup,
    Subscribe,
    Publish,
    Pick,
    PaneLogging,
    SetStatus,
    AgentWait,
    RecordStart,
    RecordStop,
    RecordList,
    RecordMark,
    AgentPrompt,
    AgentReport,
    AgentRelease,
}

/// Who answers a command this UI refuses.
#[derive(Clone, Copy, Debug, PartialEq, Eq, Structural)]
pub enum Refusal {
    /// Streams (`subscribe`, `publish`, `pick`) are taken by the control listener.
    ListenerOwned,
    /// Agent waits belong to the session server.
    AgentWaitServerOwned,
    /// Pane recording belongs to the session server.
    RecordingServerOwned,
    /// Agent prompts belong to the session server.
    AgentPromptServerOwned,
}

/// How the endpoint goes about a request.
#[derive(Clone, Copy, Debug, PartialEq, Eq, Structural)]
pub enum ControlRoute {
    /// The extension that sent it is no longer active.
    ExtensionInactive,
    /// It waits on a pane: the wait machinery takes it.
    StartWait,
    /// It is refused as another component's.
    Refuse(Refusal),
    /// Its own handler answers it.
    Handle(ControlCommandKind),
}

/// The refusal for a command this UI does not handle itself, if it is one.
pub open spec fn refusal_of(kind: ControlCommandKind) -> Option<Refusal> {
    match kind {
        ControlCommandKind::Subscribe | ControlCommandKind::Publish | ControlCommandKind::Pick => Some(
            Refusal::ListenerOwned,
        ),
        ControlCommandKind::AgentWait => Some(Refusal::AgentWaitServerOwned),
        ControlCommandKind::RecordStart | ControlCommandKind::RecordStop | ControlCommandKind::RecordList
        | ControlCommandKind::RecordMark => Some(Refusal::RecordingServerOwned),
        ControlCommandKind::AgentPrompt => Some(Refusal::AgentPromptServerOwned),
        _ => None,
    }
}

/// The route of a request: a retired extension is refused before anything else, a pane wait goes
/// to the wait machinery, and every other command to its handler or its refusal.
pub open spec fn route_of(from_extension: bool, extension_active: bool, waits: bool, kind: ControlCommandKind) -> ControlRoute {
    if from_extension && !extension_active {
        ControlRoute::ExtensionInactive
    } else if waits {
        ControlRoute::StartWait
    } else {
        match refusal_of(kind) {
            Some(r) => ControlRoute::Refuse(r),
            None => ControlRoute::Handle(kind),
        }
    }
}

/// Route a control request. `from_extension` says whether an extension sent it,
/// `extension_active` whether that extension is still active, and `waits` whether the command
/// asks to wait on a pane.
pub fn route_control_request(
    from_extension: bool,
    extension_active: bool,
    waits: bool,
    kind: ControlCommandKind,
) -> (r: ControlRoute)
    ensures
        r == route_of(from_extension, extension_active, waits, kind),
{
    if from_extension && !extension_active {
        return ControlRoute::ExtensionInactive;
    }
    if waits {
        return ControlRoute::StartWait;
    }
    match kind {
        ControlCommandKind::Subscribe | ControlCommandKind::Publish | ControlCommandKind::Pick => ControlRoute::Refuse(
            Refusal::ListenerOwned,
        ),
        ControlCommandKind::AgentWait => ControlRoute::Refuse(Refusal::AgentWaitServerOwned),
        ControlCommandKind::RecordStart | ControlCommandKind::RecordStop | ControlCommandKind::RecordList
        | ControlCommandKind::RecordMark => ControlRoute::Refuse(Refusal::RecordingServerOwned),
        ControlCommandKind::AgentPrompt => ControlRoute::Refuse(Refusal::AgentPromptServerOwned),
        _ => ControlRoute::Handle(kind),
    }
}

/// The answer to a refused command.
pub open spec fn refusal_text(refusal: Refusal, kind: ControlCommandKind) -> Seq<char> {
    match refusal {
        Refusal::ListenerOwned => match kind {
            ControlCommandKind::Subscribe => "subscribe is handled by the control listener"@,
            ControlCommandKind::Publish => "publish is handled by the control listener"@,
            _ => "pick is handled by the control listener"@,
        },
        Refusal::AgentWaitServerOwned => "agent wait is server-owned; select a named session with --session"@,
        Refusal::RecordingServerOwned => "pane recording is server-owned; select a named session with --session"@,
        Refusal::AgentPromptServerOwned => "agent prompt is server-owned; select a named session with --session"@,
    }
}

/// The answer to a refused command.
pub fn refusal_message(refusal: Refusal, kind: ControlCommandKind) -> (r: String)
    ensures
        r@ == refusal_text(refusal, kind),
{
    match refusal {
        Refusal::ListenerOwned => match kind {
            ControlCommandKind::Subscribe => String::from_str("subscribe is handled by the control listener"),
            ControlCommandKind::Publish => String::from_str("publish is handled by the control listener"),
            _ => String::from_str("pick is handled by the control listener"),
        },
        Refusal::AgentWaitServerOwned => String::from_str(
            "agent wait is server-owned; select a named session with --session",
        ),
        Refusal::RecordingServerOwned => String::from_str(
            "pane recording is server-owned; select a named session with --session",
        ),
        Refusal::AgentPromptServerOwned => String::from_str(
            "agent prompt is server-owned; select a named session with --session",
        ),
    }
}

/// Whether a command's handler answers and redraws on its own, rather than the endpoint
/// answering with a full redraw after it.
pub open spec fn answers_itself(kind: ControlCommandKind) -> bool {
    kind == ControlCommandKind::PaneClose || kind == ControlCommandKind::Metrics || kind
        == ControlCommandKind::NewPane || kind == ControlCommandKind::RunAction || kind
        == ControlCommandKind::CaptureUi || kind == ControlCommandKind::Popup || kind
        == ControlCommandKind::AgentReport || kind == ControlCommandKind::AgentRelease
}

/// Whether a command's handler answers and redraws on its own.
pub fn handler_answers_itself(kind: ControlCommandKind) -> (r: bool)
    ensures
        r == answers_itself(kind),
{
    match kind {
        ControlCommandKind::PaneClose | ControlCommandKind::Metrics | ControlCommandKind::NewPane
        | ControlCommandKind::RunAction | ControlCommandKind::CaptureUi | ControlCommandKind::Popup
        | ControlCommandKind::AgentReport | ControlCommandKind::AgentRelease => true,
        _ => false,
    }
}

/// The pane a command acts on: the one it names; for input, captures and agent reports, else the
/// pane the request came from; for logging and status, else also the focused pane.
pub open spec fn command_target(
    kind: ControlCommandKind,
    named: Option<PaneId>,
    source: Option<PaneId>,
    focused: Option<PaneId>,
) -> Option<PaneId> {
    let or_source = match named {
        Some(p) => Some(p),
        None => source,
    };
    match kind {
        ControlCommandKind::SendText | ControlCommandKind::SendKeys | ControlCommandKind::CapturePane
        | ControlCommandKind::AgentReport | ControlCommandKind::AgentRelease => or_source,
        ControlCommandKind::PaneLogging | ControlCommandKind::SetStatus => match or_source {
            Some(p) => Some(p),
            None => focused,
        },
        _ => named,
    }
}

/// The pane a command acts on.
pub fn control_command_target(
    kind: ControlCommandKind,
    named: Option<PaneId>,
    source: Option<PaneId>,
    focused: Option<PaneId>,
) -> (r: Option<PaneId>)
    ensures
        r == command_target(kind, named, source, focused),
{
    let or_source = match named {
        Some(p) => Some(p),
        None => source,
    };
    match kind {
        ControlCommandKind::SendText | ControlCommandKind::SendKeys | ControlCommandKind::CapturePane
        | ControlCommandKind::AgentReport | ControlCommandKind::AgentRelease => or_source,
        ControlCommandKind::PaneLogging | ControlCommandKind::SetStatus => match or_source {
            Some(p) => Some(p),
            None => focused,
        },
        _ => named,
    }
}

/// The workspace a pane started from a request goes to: that of the live pane the request came
/// from, or the workspace on screen when it came from none.
pub open spec fn source_workspace(s: StateView, source: Option<PaneId>) -> Result<int, ControlError> {
    match source {
        Some(id) => match home_workspace(s.workspaces, id) {
            Some(j) => Ok(j),
            None => Err(ControlError::SourceNotFound { pane: id }),
        },
        None => Ok(s.active_workspace as int),
    }
}

/// The workspace a pane started from a request goes to.
pub fn workspace_for_source(state: &State, source: Option<PaneId>) -> (r: Result<usize, ControlError>)
    ensures
        match r {
            Ok(j) => source_workspace(state@, source) == Ok::<int, ControlError>(j as int),
            Err(e) => source_workspace(state@, source) == Err::<int, ControlError>(e),
        },
{
    match source {
        Some(id) => match find_home_workspace(state, id) {
            Some(j) => Ok(j),
            None => Err(ControlError::SourceNotFound { pane: id }),
        },
        None => Ok(state.session.active_workspace),
    }
}

/// Where `new-pane` starts its pane.
#[derive(Clone, Copy, Debug, PartialEq, Eq, Structural)]
pub enum NewPanePlace {
    /// In the scratchpad, after `previous`, which keeps focus unless the request asks for it.
    Scratch { previous: Option<PaneId> },
    /// In workspace `index` (zero-based), beside the pane the request came from.
    Workspace { index: usize },
}

/// Where `new-pane` starts its pane, or why it may not. A pane asked for from the scratchpad, or
/// with the scratchpad open and no source, starts there; any other needs layout control and a
/// source on screen.
pub open spec fn new_pane_place(s: StateView, source: Option<PaneId>, controller: bool) -> Result<NewPanePlace, ControlError> {
    let scratch_source = match source {
        Some(id) => has_pane(s.scratch.panes, id),
        None => false,
    };
    if s.scratch_visible && source is Some && !scratch_source {
        Err(ControlError::SourceBehindScratchpad)
    } else if !scratch_source && !controller {
        Err(ControlError::NotController)
    } else if scratch_source || (s.scratch_visible && source is None) {
        Ok(
            NewPanePlace::Scratch {
                previous: match source {
                    Some(p) => Some(p),
                    None => s.scratch.focused_pane,
                },
            },
        )
    } else {
        match source_workspace(s, source) {
            Ok(j) => Ok(NewPanePlace::Workspace { index: j as usize }),
            Err(e) => Err(e),
        }
    }
}

/// Where `new-pane` starts its pane, or why it may not.
pub fn new_pane_placement(state: &State, source: Option<PaneId>, controller: bool) -> (r: Result<
    NewPanePlace,
    ControlError,
>)
    requires
        state.wf(),
    ensures
        r == new_pane_place(state@, source, controller),
{
    let scratch_source = match source {
        Some(id) => position_of(&state.scratch.panes, id).is_some(),
        None => false,
    };
    if state.scratch_visible && source.is_some() && !scratch_source {
        return Err(ControlError::SourceBehindScratchpad);
    }
    if !scratch_source && !controller {
        return Err(ControlError::NotController);
    }
    if scratch_source || (state.scratch_visible && source.is_none()) {
        return Ok(
            NewPanePlace::Scratch {
                previous: match source {
                    Some(p) => Some(p),
                    None => state.scratch.focused_pane,
                },
            },
        );
    }
    match workspace_for_source(state, source) {
        Ok(j) => Ok(NewPanePlace::Workspace { index: j }),
        Err(e) => Err(e),
    }
}

/// A notification a script raised.
#[derive(Clone, Debug)]
pub enum Toast {
    /// An error toast, drawn with a title.
    Error { title: String, message: String },
    /// A single-line info toast.
    Info { message: String },
}

/// The toast `notify` raises, or why not: the message is trimmed and must not be blank, and only
/// an error toast carries a title (`Error` when none is given).
pub fn notify_toast(message: &str, title: Option<String>, error: bool) -> (r: Result<Toast, ControlError>)
    ensures
        trimmed(message@).len() == 0 <==> r == Err::<Toast, ControlError>(ControlError::EmptyMessage),
        match r {
            Ok(Toast::Error { title: t, message: m }) => error && m@ == trimmed(message@) && t@ == match title {
                Some(x) => x@,
                None => "Error"@,
            },
            Ok(Toast::Info { message: m }) => !error && m@ == trimmed(message@),
            Err(e) => e == ControlError::EmptyMessage,
        },
{
    let message = trim_text(message);
    if message.unicode_len() == 0 {
        return Err(ControlError::EmptyMessage);
    }
    if error {
        let title = match title {
            Some(t) => t,
            None => String::from_str("Error"),
        };
        Ok(Toast::Error { title, message })
    } else {
        Ok(Toast::Info { message })
    }
}

} // verus!

verus! {

/// `focus` from the control endpoint: a scratch pane takes focus only while the scratchpad shows,
/// and a workspace pane only while it is hidden.
pub open spec fn focus_target_error(s: StateView, target: PaneId) -> Option<ControlError> {
    if has_pane(s.scratch.panes, target) {
        if !s.scratch_visible {
            Some(ControlError::ScratchpadHidden)
        } else {
            None
        }
    } else if s.scratch_visible {
        Some(ControlError::ScratchpadOpen)
    } else if home_workspace(s.workspaces, target) is None {
        Some(ControlError::PaneNotFound { pane: target })
    } else {
        None
    }
}

/// Focus pane `target` for the control endpoint. `probe` is what the caller's layout code
/// measured for the workspace the pane is on.
pub fn focus_target(state: &mut State, target: PaneId, probe: LayoutProbe) -> (r: Result<(), ControlError>)
    requires
        old(state).wf(),
    ensures
        final(state).wf(),
        match focus_target_error(old(state)@, target) {
            Some(e) => r == Err::<(), ControlError>(e) && final(state)@ == old(state)@,
            None => r is Ok && final(state)@ == if has_pane(old(state)@.scratch.panes, target) {
                focused_on(old(state)@, target, probe.reveal_clip)
            } else {
                focused_anywhere(old(state)@, target, probe)
            },
        },
{
    if position_of(&state.scratch.panes, target).is_some() {
        if !state.scratch_visible {
            return Err(ControlError::ScratchpadHidden);
        }
        focus_pane(state, target, probe.reveal_clip);
        return Ok(());
    }
    if state.scratch_visible {
        return Err(ControlError::ScratchpadOpen);
    }
    if !focus_pane_anywhere(state, target, probe) {
        return Err(ControlError::PaneNotFound { pane: target });
    }
    Ok(())
}

/// Some workspace, or the scratchpad, holds a live pane `id`.
pub open spec fn live_anywhere(s: StateView, id: PaneId) -> bool {
    home_workspace(s.workspaces, id) is Some || is_live(s.scratch.panes, id)
}

fn live_pane_anywhere(state: &State, id: PaneId) -> (r: bool)
    ensures
        r == live_anywhere(state@, id),
{
    find_home_workspace(state, id).is_some() || pane_is_live(&state.scratch.panes, id)
}

/// The pane control input goes to: the named one, else the focused one; it must be live.
pub open spec fn input_target_of(s: StateView, target: Option<PaneId>) -> Result<PaneId, ControlError> {
    let id = match target {
        Some(t) => Some(t),
        None => s.focused(),
    };
    match id {
        None => Err(ControlError::TargetRequired),
        Some(i) => if live_anywhere(s, i) {
            Ok(i)
        } else {
            Err(ControlError::PaneNotFound { pane: i })
        },
    }
}

/// The pane `send-text` or `send-keys` writes to.
pub fn control_input_target(state: &State, target: Option<PaneId>) -> (r: Result<PaneId, ControlError>)
    requires
        state.wf(),
    ensures
        r == input_target_of(state@, target),
{
    let id = match target {
        Some(t) => t,
        None => match state.focused_pane() {
            Some(f) => f,
            None => return Err(ControlError::TargetRequired),
        },
    };
    if live_pane_anywhere(state, id) {
        Ok(id)
    } else {
        Err(ControlError::PaneNotFound { pane: id })
    }
}

/// Whether input for pane `pane` is written now (`Ok(false)`) or queued while the pane starts
/// (`Ok(true)`): a pane whose program is not running and will not read input refuses it, and one
/// that reads input needs its session connected.
pub fn input_readiness(pane: PaneId, accepts_input: bool, running: bool, connected: bool) -> (r: Result<
    bool,
    ControlError,
>)
    ensures
        r == if !accepts_input && !running {
            Err(ControlError::PaneNotRunning { pane })
        } else if accepts_input && !connected {
            Err(ControlError::SessionNotConnected { pane })
        } else {
            Ok::<bool, ControlError>(!accepts_input)
        },
{
    if !accepts_input && !running {
        return Err(ControlError::PaneNotRunning { pane });
    }
    if accepts_input && !connected {
        return Err(ControlError::SessionNotConnected { pane });
    }
    Ok(!accepts_input)
}

/// The pane `set-status` reports on, or why not: it needs a live pane and, outside the
/// scratchpad, an attached, writable session; and a connected one in any case.
pub open spec fn status_target_of(
    s: StateView,
    target: Option<PaneId>,
    attached: bool,
    read_only: bool,
    connected: bool,
) -> Result<PaneId, ControlError> {
    match target {
        None => Err(ControlError::TargetRequired),
        Some(id) => if !live_anywhere(s, id) {
            Err(ControlError::PaneNotFound { pane: id })
        } else if !has_pane(s.scratch.panes, id) && !attached {
            Err(ControlError::SessionNotAttached { pane: id })
        } else if !has_pane(s.scratch.panes, id) && read_only {
            Err(ControlError::AttachedReadOnly)
        } else if !connected {
            Err(ControlError::SessionNotConnected { pane: id })
        } else {
            Ok(id)
        },
    }
}

/// The pane `set-status` reports on. `target` is the request's pane, already defaulted to the
/// calling or focused pane.
pub fn status_target(state: &State, target: Option<PaneId>, attached: bool, read_only: bool, connected: bool) -> (r:
    Result<PaneId, ControlError>)
    ensures
        r == status_target_of(state@, target, attached, read_only, connected),
{
    let id = match target {
        Some(t) => t,
        None => return Err(ControlError::TargetRequired),
    };
    if !live_pane_anywhere(state, id) {
        return Err(ControlError::PaneNotFound { pane: id });
    }
    let scratch = position_of(&state.scratch.panes, id).is_some();
    if !scratch && !attached {
        return Err(ControlError::SessionNotAttached { pane: id });
    }
    if !scratch && read_only {
        return Err(ControlError::AttachedReadOnly);
    }
    if !connected {
        return Err(ControlError::SessionNotConnected { pane: id });
    }
    Ok(id)
}

/// The live panes `list-panes` reports, with their one-based workspace (0 for the scratchpad),
/// workspace by workspace and then the scratchpad's, each in pane order.
pub open spec fn listing(s: StateView) -> Seq<(usize, PaneId)> {
    workspace_listing(s.workspaces, s.workspaces.len() as int) + s.scratch.panes.filter(|p: Pane| !p.closing).map_values(
        |p: Pane| (0usize, p.id),
    )
}

pub open spec fn workspace_listing(ws: Seq<WorkspaceView>, n: int) -> Seq<(usize, PaneId)>
    decreases n,
{
    if n <= 0 {
        Seq::empty()
    } else {
        workspace_listing(ws, n - 1) + ws[n - 1].panes.filter(|p: Pane| !p.closing).map_values(
            |p: Pane| (n as usize, p.id),
        )
    }
}

fn append_live(out: &mut Vec<(usize, PaneId)>, panes: &Vec<Pane>, number: usize)
    ensures
        final(out)@ == old(out)@ + panes@.filter(|p: Pane| !p.closing).map_values(|p: Pane| (number, p.id)),
{
    let ghost base = out@;
    let mut k: usize = 0;
    while k < panes.len()
        invariant
            k <= panes.len(),
            out@ == base + panes@.take(k as int).filter(|p: Pane| !p.closing).map_values(|p: Pane| (number, p.id)),
        decreases panes.len() - k,
    {
        proof {
            assert(panes@.take(k as int + 1).drop_last() =~= panes@.take(k as int));
            reveal(Seq::filter);
        }
        if !panes[k].closing {
            out.push((number, panes[k].id));
        }
        proof {
            let f = panes@.take(k as int).filter(|p: Pane| !p.closing);
            let g = panes@.take(k as int + 1).filter(|p: Pane| !p.closing);
            if !panes@[k as int].closing {
                assert(g =~= f.push(panes@[k as int]));
                assert(g.map_values(|p: Pane| (number, p.id)) =~= f.map_values(|p: Pane| (number, p.id)).push(
                    (number, panes@[k as int].id),
                ));
            } else {
                assert(g =~= f);
            }
        }
        k = k + 1;
    }
    proof {
        assert(panes@.take(panes@.len() as int) =~= panes@);
    }
}

/// The live panes `list-panes` reports, with their workspace numbers.
pub fn pane_listing(state: &State) -> (r: Vec<(usize, PaneId)>)
    requires
        state.session.workspaces.len() < usize::MAX,
    ensures
        r@ == listing(state@),
{
    let mut out: Vec<(usize, PaneId)> = Vec::new();
    let mut j: usize = 0;
    while j < state.session.workspaces.len()
        invariant
            j <= state.session.workspaces.len(),
            state.session.workspaces.len() < usize::MAX,
            out@ == workspace_listing(state@.workspaces, j as int),
        decreases state.session.workspaces.len() - j,
    {
        append_live(&mut out, &state.session.workspaces[j].panes, j + 1);
        j = j + 1;
    }
    append_live(&mut out, &state.scratch.panes, 0);
    out
}

// ---------------------------------------------------------------------------------------------
// run-action

/// What the control request that runs an action found out about it.
#[derive(Clone, Copy, Debug, PartialEq, Eq, Structural)]
pub struct ActionFacts {
    /// The id names a built-in action or a configured command.
    pub found: bool,
    /// The id is scoped to an extension.
    pub extension_scoped: bool,
    /// The extension the id names (see [`extension_of`]) is active.
    pub extension_active: bool,
    pub layout_mutating: bool,
    pub scratch_visible: bool,
    pub is_controller: bool,
    pub blocked_by_scratchpad: bool,
    /// The action quits or detaches.
    pub leaves: bool,
}

/// What running an action by id comes to.
#[derive(Clone, Debug, PartialEq, Eq)]
pub enum RunActionStep {
    /// No such action; the message says why.
    Unknown(String),
    NotController,
    ScratchpadOpen,
    /// Leaving from a script takes the path that keeps every session, since nobody is there to
    /// answer the prompt about temporary ones: automation never closes a session.
    LeaveUnattended,
    Execute,
}

/// The index of the first `.` in `s`, if any.
pub open spec fn first_dot(s: Seq<char>) -> Option<int> {
    if exists|i: int| 0 <= i < s.len() && s[i] == '.' {
        Some(choose|i: int| 0 <= i < s.len() && s[i] == '.' && forall|j: int| 0 <= j < i ==> s[j] != '.')
    } else {
        None
    }
}

/// The extension an extension-scoped id names: the text before its first `.`, or nothing.
pub open spec fn extension_name(id: Seq<char>) -> Seq<char> {
    match first_dot(id) {
        Some(i) => id.take(i),
        None => Seq::empty(),
    }
}

/// The extension an extension-scoped action id names.
pub fn extension_of(action_id: &str) -> (r: String)
    ensures
        r@ == extension_name(action_id@),
{
    let n = action_id.unicode_len();
    let mut i: usize = 0;
    while i < n
        invariant
            n == action_id@.len(),
            i <= n,
            forall|j: int| 0 <= j < i ==> action_id@[j] != '.',
        decreases n - i,
    {
        if action_id.get_char(i) == '.' {
            proof {
                let s = action_id@;
                assert(0 <= i < s.len() && s[i as int] == '.');
                let k = choose|k: int| 0 <= k < s.len() && s[k] == '.' && forall|j: int| 0 <= j < k ==> s[j] != '.';
                assert(k == i) by {
                    if k < i {
                        assert(s[k] != '.');
                    }
                    if k > i {
                        assert(s[i as int] != '.');
                    }
                }
            }
            return String::from_str(action_id.substring_char(0, i));
        }
        i = i + 1;
    }
    String::new()
}

/// Why an action id names nothing: an extension that is active but lacks the command, an
/// extension command that is unavailable, or no action at all.
pub open spec fn unknown_action_message(id: Seq<char>, extension_scoped: bool, extension_active: bool) -> Seq<char> {
    if extension_scoped {
        if extension_active {
            "extension `"@ + extension_name(id) + "` does not define command `"@ + id + "`"@
        } else {
            "extension command `"@ + id + "` is unavailable; run `rozi extensions list --verbose`"@
        }
    } else {
        "unknown action `"@ + id + "`"@
    }
}

/// What running action `id` comes to: unknown ids are refused with why; a layout-changing action
/// needs layout control unless the scratchpad is shown; the open scratchpad blocks what it hides;
/// leaving goes the unattended way; anything else runs.
pub open spec fn run_action_outcome(id: Seq<char>, f: ActionFacts) -> Option<RunActionStep> {
    if !f.found {
        None
    } else if f.layout_mutating && !f.scratch_visible && !f.is_controller {
        Some(RunActionStep::NotController)
    } else if f.blocked_by_scratchpad {
        Some(RunActionStep::ScratchpadOpen)
    } else if f.leaves {
        Some(RunActionStep::LeaveUnattended)
    } else {
        Some(RunActionStep::Execute)
    }
}

/// What running action `action_id` comes to; see [`run_action_outcome`]. An unknown id gets the
/// message [`unknown_action_message`] gives.
pub fn run_action_step(action_id: &str, facts: &ActionFacts) -> (r: RunActionStep)
    ensures
        !facts.found ==> (r matches RunActionStep::Unknown(m) && m@ == unknown_action_message(
            action_id@,
            facts.extension_scoped,
            facts.extension_active,
        )),
        facts.found ==> Some(r) == run_action_outcome(action_id@, *facts),
{
    if !facts.found {
        let message = if facts.extension_scoped {
            if facts.extension_active {
                let mut m = String::from_str("extension `");
                let extension = extension_of(action_id);
                m.append(extension.as_str());
                m.append("` does not define command `");
                m.append(action_id);
                m.append("`");
                m
            } else {
                let mut m = String::from_str("extension command `");
                m.append(action_id);
                m.append("` is unavailable; run `rozi extensions list --verbose`");
                m
            }
        } else {
            let mut m = String::from_str("unknown action `");
            m.append(action_id);
            m.append("`");
            m
        };
        return RunActionStep::Unknown(message);
    }
    if facts.layout_mutating && !facts.scratch_visible && !facts.is_controller {
        RunActionStep::NotController
    } else if facts.blocked_by_scratchpad {
        RunActionStep::ScratchpadOpen
    } else if facts.leaves {
        RunActionStep::LeaveUnattended
    } else {
        RunActionStep::Execute
    }
}

// ---------------------------------------------------------------------------------------------
// Reports

/// The session name a report carries: the session's name, or `local` for an unnamed one,
/// qualified with its host when the attachment is remote so two same-name sessions do not look
/// interchangeable.
pub open spec fn session_label_text(name: Option<Seq<char>>, host: Option<Seq<char>>) -> Seq<char> {
    let base = match name {
        Some(n) => n,
        None => "local"@,
    };
    match host {
        Some(h) => base + "@"@ + h,
        None => base,
    }
}

/// The session name a report carries.
pub fn session_label(name: &Option<String>, host: &Option<String>) -> (r: String)
    ensures
        r@ == session_label_text(
            match name {
                Some(n) => Some(n@),
                None => None,
            },
            match host {
                Some(h) => Some(h@),
                None => None,
            },
        ),
{
    let mut label = match name {
        Some(n) => n.clone(),
        None => String::from_str("local"),
    };
    match host {
        Some(h) => {
            label.append("@");
            label.append(h.as_str());
        },
        None => {},
    }
    label
}

/// What a UI knows of the shared layout's revisions: whether it holds layout control, the
/// revision it last committed, and the revision the server last confirmed or sent.
#[derive(Clone, Copy, Debug, PartialEq, Eq, Structural)]
pub struct SharedRevisions {
    pub controller: bool,
    pub assumed_rev: u64,
    pub layout_rev: u64,
}

/// The revision a layout report names, and whether the server has confirmed it. A controller
/// commits ahead of the server's acknowledgement, so its layout is the revision it last sent,
/// confirmed once the server's revision caught up; a follower reports what it applied; a UI with
/// no shared layout names none.
pub fn report_revision(shared: Option<SharedRevisions>) -> (r: (Option<u64>, bool))
    ensures
        r == match shared {
            None => (None::<u64>, true),
            Some(s) => if s.controller {
                (Some(s.assumed_rev), s.assumed_rev == s.layout_rev)
            } else {
                (Some(s.layout_rev), true)
            },
        },
{
    match shared {
        None => (None, true),
        Some(s) => if s.controller {
            (Some(s.assumed_rev), s.assumed_rev == s.layout_rev)
        } else {
            (Some(s.layout_rev), true)
        },
    }
}

// ---------------------------------------------------------------------------------------------
// What a refusal answers

/// The machine-readable code a refusal carries.
#[derive(Clone, Copy, Debug, PartialEq, Eq, Structural)]
pub enum ErrorCode {
    PaneNotFound,
    Unsupported,
    NotController,
    ReadOnly,
    Conflict,
    InvalidArgument,
    TargetRequired,
    PaneNotRunning,
    SessionNotAttached,
    SessionNotConnected,
    ExtensionInactive,
}

/// The code a refused command answers with; refusals about the client's own view carry none.
pub open spec fn error_code(e: ControlError) -> Option<ErrorCode> {
    match e {
        ControlError::ScratchpadOpen => None,
        ControlError::NotController => Some(ErrorCode::NotController),
        ControlError::NoLayoutControl => Some(ErrorCode::NotController),
        ControlError::ReadOnly => Some(ErrorCode::ReadOnly),
        ControlError::AttachedReadOnly => Some(ErrorCode::ReadOnly),
        ControlError::RevisionMismatch => Some(ErrorCode::Conflict),
        ControlError::WorkspaceOutOfRange => None,
        ControlError::PaneNotFound { .. } => Some(ErrorCode::PaneNotFound),
        ControlError::ScratchPane { .. } => Some(ErrorCode::Unsupported),
        ControlError::InvalidSwap { .. } => Some(ErrorCode::InvalidArgument),
        ControlError::SourceNotFound { .. } => None,
        ControlError::SourceBehindScratchpad => None,
        ControlError::EmptyMessage => None,
        ControlError::ScratchpadHidden => None,
        ControlError::TargetRequired => Some(ErrorCode::TargetRequired),
        ControlError::PaneNotRunning { .. } => Some(ErrorCode::PaneNotRunning),
        ControlError::SessionNotAttached { .. } => Some(ErrorCode::SessionNotAttached),
        ControlError::SessionNotConnected { .. } => Some(ErrorCode::SessionNotConnected),
        ControlError::RectOnTiledPane { .. } => Some(ErrorCode::InvalidArgument),
    }
}

/// The code a refused command answers with.
pub fn control_error_code(e: ControlError) -> (r: Option<ErrorCode>)
    ensures
        r == error_code(e),
{
    match e {
        ControlError::ScratchpadOpen => None,
        ControlError::NotController => Some(ErrorCode::NotController),
        ControlError::NoLayoutControl => Some(ErrorCode::NotController),
        ControlError::ReadOnly => Some(ErrorCode::ReadOnly),
        ControlError::AttachedReadOnly => Some(ErrorCode::ReadOnly),
        ControlError::RevisionMismatch => Some(ErrorCode::Conflict),
        ControlError::WorkspaceOutOfRange => None,
        ControlError::PaneNotFound { .. } => Some(ErrorCode::PaneNotFound),
        ControlError::ScratchPane { .. } => Some(ErrorCode::Unsupported),
        ControlError::InvalidSwap { .. } => Some(ErrorCode::InvalidArgument),
        ControlError::SourceNotFound { .. } => None,
        ControlError::SourceBehindScratchpad => None,
        ControlError::EmptyMessage => None,
        ControlError::ScratchpadHidden => None,
        ControlError::TargetRequired => Some(ErrorCode::TargetRequired),
        ControlError::PaneNotRunning { .. } => Some(ErrorCode::PaneNotRunning),
        ControlError::SessionNotAttached { .. } => Some(ErrorCode::SessionNotAttached),
        ControlError::SessionNotConnected { .. } => Some(ErrorCode::SessionNotConnected),
        ControlError::RectOnTiledPane { .. } => Some(ErrorCode::InvalidArgument),
    }
}

/// `"pane "`, the pane's number, and `rest`.
pub open spec fn pane_text(pane: PaneId, rest: Seq<char>) -> Seq<char> {
    "pane "@ + decimal(pane as nat) + rest
}

/// The text a refused command answers with.
pub open spec fn error_text(e: ControlError) -> Seq<char> {
    match e {
        ControlError::ScratchpadOpen => "scratchpad is open"@,
        ControlError::NotController => "not controller"@,
        ControlError::NoLayoutControl => "this UI does not hold layout control; take control first, or change the layout from the UI that has it"@,
        ControlError::ReadOnly => "this UI is attached read-only and cannot change the layout"@,
        ControlError::AttachedReadOnly => "attached read-only"@,
        ControlError::RevisionMismatch => "the layout changed since the revision given"@,
        ControlError::WorkspaceOutOfRange => "workspace index is out of range"@,
        ControlError::PaneNotFound { pane } => pane_text(pane, " not found"@),
        ControlError::ScratchPane { pane } => pane_text(pane, " is a scratch pane, which is client-local and has no shared layout"@),
        ControlError::InvalidSwap { pane, with } => "panes "@ + decimal(pane as nat) + " and "@ + decimal(with as nat)
            + " cannot swap; a swap exchanges two different tiled panes of one workspace"@,
        ControlError::SourceNotFound { pane } => "source "@ + pane_text(pane, " not found"@),
        ControlError::SourceBehindScratchpad => "source pane is hidden behind scratchpad"@,
        ControlError::EmptyMessage => "notify requires a message"@,
        ControlError::ScratchpadHidden => "scratchpad is hidden"@,
        ControlError::TargetRequired => "no target pane and no focused pane"@,
        ControlError::PaneNotRunning { pane } => pane_text(pane, " PTY is not running"@),
        ControlError::SessionNotAttached { pane } => pane_text(pane, " session is not attached"@),
        ControlError::SessionNotConnected { pane } => pane_text(pane, " session is not connected"@),
        ControlError::RectOnTiledPane { pane } => pane_text(pane, " does not float, so it takes no rect"@),
    }
}

fn pane_message(pane: PaneId, rest: &str) -> (r: String)
    ensures
        r@ == pane_text(pane, rest@),
{
    let mut m = String::from_str("pane ");
    let n = decimal_u64(pane);
    m.append(n.as_str());
    m.append(rest);
    m
}

/// The text a refused command answers with.
pub fn control_error_text(e: ControlError) -> (r: String)
    ensures
        r@ == error_text(e),
{
    match e {
        ControlError::ScratchpadOpen => String::from_str("scratchpad is open"),
        ControlError::NotController => String::from_str("not controller"),
        ControlError::NoLayoutControl => String::from_str(
            "this UI does not hold layout control; take control first, or change the layout from the UI that has it",
        ),
        ControlError::ReadOnly => String::from_str("this UI is attached read-only and cannot change the layout"),
        ControlError::AttachedReadOnly => String::from_str("attached read-only"),
        ControlError::RevisionMismatch => String::from_str("the layout changed since the revision given"),
        ControlError::WorkspaceOutOfRange => String::from_str("workspace index is out of range"),
        ControlError::PaneNotFound { pane } => pane_message(pane, " not found"),
        ControlError::ScratchPane { pane } => pane_message(
            pane,
            " is a scratch pane, which is client-local and has no shared layout",
        ),
        ControlError::InvalidSwap { pane, with } => {
            let mut m = String::from_str("panes ");
            let a = decimal_u64(pane);
            m.append(a.as_str());
            m.append(" and ");
            let b = decimal_u64(with);
            m.append(b.as_str());
            m.append(" cannot swap; a swap exchanges two different tiled panes of one workspace");
            m
        },
        ControlError::SourceNotFound { pane } => {
            let mut m = String::from_str("source ");
            let rest = pane_message(pane, " not found");
            m.append(rest.as_str());
            m
        },
        ControlError::SourceBehindScratchpad => String::from_str("source pane is hidden behind scratchpad"),
        ControlError::EmptyMessage => String::from_str("notify requires a message"),
        ControlError::ScratchpadHidden => String::from_str("scratchpad is hidden"),
        ControlError::TargetRequired => String::from_str("no target pane and no focused pane"),
        ControlError::PaneNotRunning { pane } => pane_message(pane, " PTY is not running"),
        ControlError::SessionNotAttached { pane } => pane_message(pane, " session is not attached"),
        ControlError::SessionNotConnected { pane } => pane_message(pane, " session is not connected"),
        ControlError::RectOnTiledPane { pane } => pane_message(pane, " does not float, so it takes no rect"),
    }
}

/// The code and text of a request refused before any handler runs, if its route is a refusal:
/// a request from a retired extension, or a command another component owns.
pub open spec fn route_refusal_of(route: ControlRoute, kind: ControlCommandKind) -> Option<(Option<ErrorCode>, Seq<char>)> {
    match route {
        ControlRoute::ExtensionInactive => Some((Some(ErrorCode::ExtensionInactive), "extension generation is not active"@)),
        ControlRoute::Refuse(r) => Some(
            (
                if r == Refusal::ListenerOwned {
                    None
                } else {
                    Some(ErrorCode::Unsupported)
                },
                refusal_text(r, kind),
            ),
        ),
        _ => None,
    }
}

/// The code and text of a request refused before any handler runs.
pub fn route_refusal(route: ControlRoute, kind: ControlCommandKind) -> (r: Option<(Option<ErrorCode>, String)>)
    ensures
        match r {
            Some((code, text)) => route_refusal_of(route, kind) == Some((code, text@)),
            None => route_refusal_of(route, kind) is None,
        },
{
    match route {
        ControlRoute::ExtensionInactive => Some(
            (Some(ErrorCode::ExtensionInactive), String::from_str("extension generation is not active")),
        ),
        ControlRoute::Refuse(r) => {
            let code = match r {
                Refusal::ListenerOwned => None,
                _ => Some(ErrorCode::Unsupported),
            };
            Some((code, refusal_message(r, kind)))
        },
        _ => None,
    }
}

// ---------------------------------------------------------------------------------------------
// pane set

/// Whether the pane floats once the edit is applied: as asked, else as it is now.
pub open spec fn floats_after(floating_now: bool, floating: Option<bool>) -> bool {
    match floating {
        Some(f) => f,
        None => floating_now,
    }
}

/// The check `pane set` makes of the edit itself: a rect places a floating pane, so it is
/// refused for a pane that does not float after the edit.
pub fn pane_edit_check(pane: PaneId, floating_now: bool, floating: Option<bool>, rect_given: bool) -> (r: Result<
    (),
    ControlError,
>)
    ensures
        r is Err <==> rect_given && !floats_after(floating_now, floating),
        r is Err ==> r == Err::<(), ControlError>(ControlError::RectOnTiledPane { pane }),
{
    let floats = match floating {
        Some(f) => f,
        None => floating_now,
    };
    if rect_given && !floats {
        Err(ControlError::RectOnTiledPane { pane })
    } else {
        Ok(())
    }
}

/// Where `pane set` puts the pane.
#[derive(Clone, Copy, Debug, PartialEq, Eq, Structural)]
pub enum PanePlacement {
    /// Float it at the rect given, or, for a pane that was tiled, at the rect the shared layout
    /// resolves for it.
    Float,
    /// It floats already and no rect was given: it keeps its rect exactly.
    KeepFloating,
    /// Tile it.
    Tile,
}

/// What an accepted `pane set` does to the pane: where it goes, and the fullscreen state it is
/// given, if any.
#[derive(Clone, Copy, Debug, PartialEq, Eq, Structural)]
pub struct PaneSetPlan {
    /// The zero-based workspace holding the pane.
    pub workspace: usize,
    pub placement: PanePlacement,
    pub fullscreen: Option<bool>,
}

/// Where an accepted `pane set` puts the pane.
pub open spec fn placement_of(floating_now: bool, floating: Option<bool>, rect_given: bool) -> PanePlacement {
    if !floats_after(floating_now, floating) {
        PanePlacement::Tile
    } else if !floating_now || rect_given {
        PanePlacement::Float
    } else {
        PanePlacement::KeepFloating
    }
}

/// `pane set` on pane `target` with the edit's `floating`, `fullscreen` and whether it gives a
/// rect. The checks run in order, and each refusal comes before anything changes: the layout-write
/// gate, then the live pane it names, then the edit itself. An accepted edit places the pane as
/// [`placement_of`] says and gives it the fullscreen state asked for.
pub fn pane_set_plan(
    state: &State,
    target: PaneId,
    gate: LayoutGate,
    floating: Option<bool>,
    fullscreen: Option<bool>,
    rect_given: bool,
) -> (r: Result<PaneSetPlan, ControlError>)
    ensures
        gate_error(gate) is Some ==> r == Err::<PaneSetPlan, ControlError>(gate_error(gate)->0),
        gate_error(gate) is None && location(state@, target) is Err ==> r == Err::<PaneSetPlan, ControlError>(
            location(state@, target)->Err_0,
        ),
        gate_error(gate) is None && location(state@, target) is Ok ==> {
            let (j, floating_now) = location(state@, target)->Ok_0;
            if rect_given && !floats_after(floating_now, floating) {
                r == Err::<PaneSetPlan, ControlError>(ControlError::RectOnTiledPane { pane: target })
            } else {
                r == Ok::<PaneSetPlan, ControlError>(
                    PaneSetPlan {
                        workspace: j as usize,
                        placement: placement_of(floating_now, floating, rect_given),
                        fullscreen,
                    },
                )
            }
        },
{
    let (j, floating_now) = match pane_set_preflight(state, target, gate) {
        Ok(found) => found,
        Err(e) => return Err(e),
    };
    match pane_edit_check(target, floating_now, floating, rect_given) {
        Err(e) => return Err(e),
        Ok(()) => {},
    }
    let floats = match floating {
        Some(f) => f,
        None => floating_now,
    };
    let placement = if !floats {
        PanePlacement::Tile
    } else if !floating_now || rect_given {
        PanePlacement::Float
    } else {
        PanePlacement::KeepFloating
    };
    Ok(PaneSetPlan { workspace: j, placement, fullscreen })
}

} // verus!

verus! {

/// A pane the request names is always the pane it acts on, whatever command it is and wherever it
/// came from. Only when none is named do input, captures and agent reports fall back to the pane
/// the request came from, and logging and status then to the focused pane; other commands then
/// act on no pane.
pub proof fn lemma_named_pane_is_the_target(
    kind: ControlCommandKind,
    named: Option<PaneId>,
    source: Option<PaneId>,
    focused: Option<PaneId>,
)
    ensures
        named matches Some(p) ==> command_target(kind, named, source, focused) == Some(p),
        named is None ==> command_target(kind, named, source, focused) == match kind {
            ControlCommandKind::SendText | ControlCommandKind::SendKeys | ControlCommandKind::CapturePane
            | ControlCommandKind::AgentReport | ControlCommandKind::AgentRelease => source,
            ControlCommandKind::PaneLogging | ControlCommandKind::SetStatus => if source is Some {
                source
            } else {
                focused
            },
            _ => None,
        },
{
}

} // verus!
