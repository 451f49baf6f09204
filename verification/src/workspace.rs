//! Moving between workspaces, and moving panes and whole workspace contents between slots.

use vstd::prelude::*;

use crate::focus::{
    after_fallback, apply_scrollable_reveal_decision, choose_fallback_focus,
    classify_scrollable_reveal, reveal_applied, reveal_decision, reveal_synced,
    scrollable_viewport_anchor, sync_scrollable_reveal, viewport_anchor, LayoutProbe,
    RevealClip, RevealDecision,
};
use crate::model::{
    empty_workspace, first_index_of, first_live, first_visible_pane, has_pane, is_live,
    pane_is_live, workspace_is_empty, lemma_views_of_update, pane_position,
    position_of,
    views_of, Event, GeometryAnimation, LayoutKind, Pane, PaneId, RevealEdge, State, StateView, Workspace,
    WorkspaceView,
};
use crate::tiling::{
    append_tiled_window, appended, clear_other_fullscreen, effective_order,
    others_not_fullscreen, remove_tiled_window, tiled_ids, without,
};

verus! {

/// `a`'s slot holding `b`'s content.
pub open spec fn with_content_of(a: WorkspaceView, b: WorkspaceView) -> WorkspaceView {
    WorkspaceView { index: a.index, ..b }
}

/// Exchange the content of two workspaces; each keeps its slot.
pub fn swap_workspace_fields(a: &mut Workspace, b: &mut Workspace)
    ensures
        final(a)@ == with_content_of(old(a)@, old(b)@),
        final(b)@ == with_content_of(old(b)@, old(a)@),
{
    std::mem::swap(&mut a.panes, &mut b.panes);
    std::mem::swap(&mut a.tile_tree, &mut b.tile_tree);
    std::mem::swap(&mut a.focused_pane, &mut b.focused_pane);
    std::mem::swap(&mut a.synchronized, &mut b.synchronized);
    std::mem::swap(&mut a.layout_kind, &mut b.layout_kind);
    std::mem::swap(&mut a.start_axis, &mut b.start_axis);
    std::mem::swap(&mut a.split_ratios, &mut b.split_ratios);
    std::mem::swap(&mut a.last_move_swap, &mut b.last_move_swap);
    std::mem::swap(&mut a.last_directional_focus, &mut b.last_directional_focus);
    std::mem::swap(&mut a.scrollable_anchor, &mut b.scrollable_anchor);
    std::mem::swap(&mut a.scrollable_reveal_edge, &mut b.scrollable_reveal_edge);
    std::mem::swap(&mut a.name, &mut b.name);
}

/// What a workspace keeps after its content was carried off: its settings, and nothing else.
pub open spec fn emptied(w: WorkspaceView) -> WorkspaceView {
    WorkspaceView {
        panes: Seq::empty(),
        tile_tree: None,
        focused_pane: None,
        last_move_swap: None,
        last_directional_focus: None,
        scrollable_anchor: None,
        scrollable_reveal_edge: RevealEdge::Left,
        name: None,
        ..w
    }
}

/// Carry the content of `from` into `to`, leaving `from` emptied.
pub fn transfer_workspace_fields(from: &mut Workspace, to: &mut Workspace)
    ensures
        final(to)@ == with_content_of(old(to)@, old(from)@),
        final(from)@ == emptied(old(from)@),
{
    let mut panes: Vec<Pane> = Vec::new();
    std::mem::swap(&mut panes, &mut from.panes);
    to.panes = panes;
    to.tile_tree = from.tile_tree.take();
    to.focused_pane = from.focused_pane.take();
    to.synchronized = from.synchronized;
    to.layout_kind = from.layout_kind;
    to.start_axis = from.start_axis;
    to.split_ratios = from.split_ratios.clone();
    to.last_move_swap = from.last_move_swap.take();
    to.last_directional_focus = from.last_directional_focus.take();
    to.scrollable_anchor = from.scrollable_anchor.take();
    to.scrollable_reveal_edge = from.scrollable_reveal_edge;
    from.scrollable_reveal_edge = RevealEdge::Left;
    to.name = from.name.take();
}

/// The workspaces after slots `s` and `t` exchange content.
pub open spec fn contents_swapped(ws: Seq<WorkspaceView>, s: int, t: int) -> Seq<WorkspaceView> {
    ws.update(s, with_content_of(ws[s], ws[t])).update(t, with_content_of(ws[t], ws[s]))
}

/// The workspaces after slot `s` carries its content into slot `t` and is left empty.
pub open spec fn contents_transferred(ws: Seq<WorkspaceView>, s: int, t: int) -> Seq<WorkspaceView> {
    ws.update(t, with_content_of(ws[t], ws[s])).update(s, empty_workspace(s as usize))
}

/// Take workspace `i` out of its slot, leaving an empty workspace there.
fn take_workspace(state: &mut State, i: usize) -> (w: Workspace)
    requires
        i < old(state).session.workspaces.len(),
    ensures
        w@ == old(state)@.workspaces[i as int],
        final(state)@ == (StateView {
            workspaces: old(state)@.workspaces.update(i as int, empty_workspace(i)),
            ..old(state)@
        }),
        final(state).session.workspaces.len() == old(state).session.workspaces.len(),
{
    let mut w = Workspace::new(i);
    std::mem::swap(&mut w, state.workspace_mut(i));
    w
}

/// Put `w` into slot `i`.
fn put_workspace(state: &mut State, i: usize, w: Workspace)
    requires
        i < old(state).session.workspaces.len(),
    ensures
        final(state)@ == (StateView { workspaces: old(state)@.workspaces.update(i as int, w@), ..old(state)@ }),
        final(state).session.workspaces.len() == old(state).session.workspaces.len(),
{
    let mut w = w;
    std::mem::swap(&mut w, state.workspace_mut(i));
}

/// Exchange the content of workspace slots `source_index` and `target_index`.
pub fn swap_workspace_content(state: &mut State, source_index: usize, target_index: usize)
    requires
        source_index < old(state).session.workspaces.len(),
        target_index < old(state).session.workspaces.len(),
        source_index != target_index,
    ensures
        final(state)@ == (StateView {
            workspaces: contents_swapped(old(state)@.workspaces, source_index as int, target_index as int),
            ..old(state)@
        }),
        final(state).session.workspaces.len() == old(state).session.workspaces.len(),
{
    let ghost s0 = state@;
    let mut a = take_workspace(state, source_index);
    let mut b = take_workspace(state, target_index);
    swap_workspace_fields(&mut a, &mut b);
    put_workspace(state, source_index, a);
    put_workspace(state, target_index, b);
    assert(state@.workspaces =~= contents_swapped(s0.workspaces, source_index as int, target_index as int));
}

/// Carry the content of slot `source_index` into slot `target_index`, leaving the source slot an
/// empty workspace.
pub fn transfer_workspace_content(state: &mut State, source_index: usize, target_index: usize)
    requires
        source_index < old(state).session.workspaces.len(),
        target_index < old(state).session.workspaces.len(),
        source_index != target_index,
    ensures
        final(state)@ == (StateView {
            workspaces: contents_transferred(old(state)@.workspaces, source_index as int, target_index as int),
            ..old(state)@
        }),
        final(state).session.workspaces.len() == old(state).session.workspaces.len(),
{
    let ghost s0 = state@;
    let mut from = take_workspace(state, source_index);
    let mut to = take_workspace(state, target_index);
    transfer_workspace_fields(&mut from, &mut to);
    put_workspace(state, target_index, to);
    put_workspace(state, source_index, Workspace::new(source_index));
    assert(state@.workspaces =~= contents_transferred(s0.workspaces, source_index as int, target_index as int));
}

/// Emit the public `workspace-switched` event for slot `index` (numbered from one).
pub fn emit_workspace_switched(state: &mut State, index: usize)
    requires
        index < usize::MAX,
    ensures
        final(state)@ == (StateView {
            events: old(state)@.events.push(Event::WorkspaceSwitched { workspace: (index + 1) as usize }),
            ..old(state)@
        }),
        final(state).session.workspaces == old(state).session.workspaces,
        final(state).session.active_workspace == old(state).session.active_workspace,
{
    state.events.push(Event::WorkspaceSwitched { workspace: index + 1 });
}

/// A pane arriving in another workspace is neither opening nor closing.
pub open spec fn arrived(p: Pane) -> Pane {
    Pane { opening: false, closing: false, ..p }
}

/// `src` after pane `id`, found at `pos`, left it.
pub open spec fn pane_left(src: WorkspaceView, pos: int, id: PaneId) -> WorkspaceView {
    let p = src.panes[pos];
    WorkspaceView {
        panes: src.panes.remove(pos),
        tile_tree: if !p.floating {
            match src.tile_tree {
                Some(t) => Some(without(t, id)),
                None => None,
            }
        } else {
            src.tile_tree
        },
        ..src
    }
}

/// `dst` after pane `p` (named `id`) joined it at the end: a tiled pane becomes the last leaf of
/// the tiling tree, and an arriving fullscreen pane takes fullscreen over.
pub open spec fn pane_joined(dst: WorkspaceView, p: Pane, id: PaneId) -> WorkspaceView {
    let d1 = if !p.floating {
        WorkspaceView { tile_tree: Some(appended(effective_order(dst), id)), ..dst }
    } else {
        dst
    };
    let panes = d1.panes.push(arrived(p));
    WorkspaceView {
        panes: if p.fullscreen {
            others_not_fullscreen(panes, id)
        } else {
            panes
        },
        ..d1
    }
}

/// Moving pane `id` from slot `source` to slot `target` can happen.
pub open spec fn can_transfer(s: StateView, id: PaneId, source: int, target: int) -> bool {
    source != target && target < s.workspaces.len() && has_pane(s.workspaces[source].panes, id)
}

/// The state after pane `id` moves from slot `source` to the end of slot `target`.
#[verifier::opaque]
pub open spec fn transferred(s: StateView, id: PaneId, source: int, target: int) -> StateView {
    let src = s.workspaces[source];
    let pos = pane_position(src.panes, id);
    StateView {
        workspaces: s.workspaces.update(source, pane_left(src, pos, id)).update(
            target,
            pane_joined(s.workspaces[target], src.panes[pos], id),
        ),
        ..s
    }
}

/// Move pane `id` from workspace `source` to the end of workspace `target`, leaving focus and the
/// active workspace alone. Returns whether the pane was there to move.
#[verifier::rlimit(40)]
pub fn transfer_pane(state: &mut State, id: PaneId, source: usize, target: usize) -> (r: bool)
    requires
        source < old(state).session.workspaces.len(),
    ensures
        r == can_transfer(old(state)@, id, source as int, target as int),
        r ==> final(state)@ == transferred(old(state)@, id, source as int, target as int),
        !r ==> final(state)@ == old(state)@,
        final(state).session.workspaces.len() == old(state).session.workspaces.len(),
        final(state).session.active_workspace == old(state).session.active_workspace,
        final(state).scratch_visible == old(state).scratch_visible,
{
    if source == target || target >= state.session.workspaces.len() {
        return false;
    }
    let pos = match position_of(&state.session.workspaces[source].panes, id) {
        Some(p) => p,
        None => return false,
    };
    let ghost s0 = state@;
    let mut src = take_workspace(state, source);
    let mut pane = src.panes.remove(pos);
    let tiled = !pane.floating;
    if tiled {
        remove_tiled_window(&mut src, id);
    }
    put_workspace(state, source, src);
    pane.opening = false;
    pane.closing = false;
    let mut dst = take_workspace(state, target);
    if tiled {
        append_tiled_window(&mut dst, id);
    }
    let fullscreen = pane.fullscreen;
    dst.panes.push(pane);
    if fullscreen {
        clear_other_fullscreen(&mut dst, id);
    }
    put_workspace(state, target, dst);
    assert(state@ == transferred(s0, id, source as int, target as int)) by {
        reveal(transferred);
        assert(state@.workspaces =~= transferred(s0, id, source as int, target as int).workspaces);
    }
    true
}

/// The state after switching to workspace `index`.
#[verifier::opaque]
pub open spec fn switched(s: StateView, index: usize, probe: LayoutProbe) -> StateView {
    if s.scratch_visible || index >= s.workspaces.len() {
        s
    } else {
        let s1 = StateView { active_workspace: index, animation: GeometryAnimation::Immediate, ..s };
        let s2 = after_fallback(s1, s1.focused(), probe.nearest);
        let s3 = match s2.focused() {
            Some(f) => reveal_synced(s2, f, false, probe.reveal_clip),
            None => s2,
        };
        let s4 = StateView { animation: GeometryAnimation::Immediate, ..s3 };
        if s.active_workspace != index {
            StateView {
                events: s4.events.push(Event::WorkspaceSwitched { workspace: (index + 1) as usize }),
                ..s4
            }
        } else {
            s4
        }
    }
}

/// Show workspace `index`, resolve focus inside it, and announce the switch when the workspace
/// changed. Nothing happens while the scratchpad is shown or when `index` names no workspace.
///
/// `probe` is what the caller's layout code measured for workspace `index`.
pub fn switch_workspace(state: &mut State, index: usize, probe: LayoutProbe)
    requires
        old(state).wf(),
    ensures
        final(state).wf(),
        final(state)@ == switched(old(state)@, index, probe),
{
    reveal(switched);
    if state.scratch_visible {
        return;
    }
    if index >= state.session.workspaces.len() {
        return;
    }
    let previous = state.session.active_workspace;
    state.session.active_workspace = index;
    state.animation = GeometryAnimation::Immediate;
    choose_fallback_focus(state, probe.nearest);
    if let Some(focus) = state.focused_pane() {
        sync_scrollable_reveal(state, focus, false, probe.reveal_clip);
    }
    state.animation = GeometryAnimation::Immediate;
    if previous != index {
        emit_workspace_switched(state, index);
    }
}

/// The state once a moved pane `focused` arrives in slot `target`: the target is shown, the pane
/// is focused there, a tiled pane arriving in a Scrollable workspace is revealed, and the switch is
/// announced.
#[verifier::opaque]
pub open spec fn arrival(
    s: StateView,
    focused: PaneId,
    target: usize,
    tiled: bool,
    clip: Option<RevealClip>,
) -> StateView {
    let s3 = StateView { active_workspace: target, ..s };
    let ws = s3.workspaces[target as int];
    let reveal = tiled && ws.layout_kind == LayoutKind::Scrollable;
    let prior = if reveal {
        viewport_anchor(ws)
    } else {
        None
    };
    let edge = if reveal {
        Some(ws.scrollable_reveal_edge)
    } else {
        None
    };
    let decision = if reveal {
        reveal_decision(s3, focused, prior, clip)
    } else {
        None
    };
    let s4 = StateView {
        focused_pane: Some(focused),
        workspaces: s3.workspaces.update(target as int, ws.with_focus(Some(focused))),
        ..s3
    };
    let s5 = if reveal {
        reveal_applied(s4, focused, prior, edge, decision, false)
    } else {
        s4
    };
    StateView {
        animation: GeometryAnimation::Immediate,
        events: s5.events.push(Event::WorkspaceSwitched { workspace: (target + 1) as usize }),
        ..s5
    }
}

fn arrive(state: &mut State, focused: PaneId, target: usize, tiled: bool, clip: Option<RevealClip>)
    requires
        target < old(state).session.workspaces.len(),
    ensures
        final(state).wf(),
        final(state).session.active_workspace == target,
        final(state)@ == arrival(old(state)@, focused, target, tiled, clip),
{
    reveal(arrival);
    state.session.active_workspace = target;
    let ws = &state.session.workspaces[target];
    let scrollable = ws.layout_kind == LayoutKind::Scrollable;
    let reveal = tiled && scrollable;
    let mut prior: Option<PaneId> = None;
    let mut edge: Option<RevealEdge> = None;
    let mut decision: Option<RevealDecision> = None;
    if reveal {
        let order = tiled_ids(ws);
        prior = scrollable_viewport_anchor(ws, &order);
        edge = Some(ws.scrollable_reveal_edge);
        decision = classify_scrollable_reveal(state, focused, prior, clip);
    }
    state.session.focused_pane = Some(focused);
    let w = state.workspace_mut(target);
    w.focused_pane = Some(focused);
    if reveal {
        apply_scrollable_reveal_decision(state, focused, prior, edge, decision, false);
    }
    state.animation = GeometryAnimation::Immediate;
    emit_workspace_switched(state, target);
}

/// The state after the focused pane is carried to workspace `target`.
#[verifier::opaque]
pub open spec fn focused_moved(s: StateView, target: usize, probe: LayoutProbe) -> StateView {
    if target >= s.workspaces.len() {
        s
    } else {
        match s.focused_pane {
            None => s,
            Some(f) => if s.active_workspace == target {
                s
            } else {
                let source = s.active_workspace as int;
                let src = s.workspaces[source];
                if !has_pane(src.panes, f) {
                    after_fallback(s, s.focused(), probe.nearest)
                } else {
                    let tiled = !src.panes[pane_position(src.panes, f)].floating;
                    let s1 = transferred(s, f, source, target as int);
                    let s2 = after_fallback(s1, s1.focused(), probe.nearest);
                    arrival(s2, f, target, tiled, probe.reveal_clip)
                }
            },
        }
    }
}

/// Carry the focused pane to workspace `target_index` and follow it there.
///
/// `probe.nearest` is the caller's geometric answer for the workspace focus falls back in, and
/// `probe.reveal_clip` where the pane sits in the target's rendered strip.
pub fn move_focused_to_workspace(state: &mut State, target_index: usize, probe: LayoutProbe)
    requires
        old(state).wf(),
    ensures
        final(state).wf(),
        final(state)@ == focused_moved(old(state)@, target_index, probe),
{
    reveal(focused_moved);
    if target_index >= state.session.workspaces.len() {
        return;
    }
    let source_index = state.session.active_workspace;
    let focused = match state.session.focused_pane {
        Some(f) => f,
        None => return,
    };
    if source_index == target_index {
        return;
    }
    let src = &state.session.workspaces[source_index];
    let position = match position_of(&src.panes, focused) {
        Some(p) => p,
        None => {
            choose_fallback_focus(state, probe.nearest);
            return;
        },
    };
    let tiled = !src.panes[position].floating;
    transfer_pane(state, focused, source_index, target_index);
    choose_fallback_focus(state, probe.nearest);
    arrive(state, focused, target_index, tiled, probe.reveal_clip);
}

/// The focus a relocated workspace ends with: the previously focused pane when it moved along and
/// is live, else the workspace's remembered focus, else its first live pane.
pub open spec fn relocated_focus(t: WorkspaceView, previous: Option<PaneId>) -> Option<PaneId> {
    match previous {
        Some(id) => if is_live(t.panes, id) {
            Some(id)
        } else if t.focused_pane is None {
            first_live(t.panes)
        } else {
            t.focused_pane
        },
        None => if t.focused_pane is None {
            first_live(t.panes)
        } else {
            t.focused_pane
        },
    }
}

/// The state after the active workspace's content moves to slot `target`.
#[verifier::opaque]
pub open spec fn relocated(s: StateView, target: usize, probe: LayoutProbe) -> StateView {
    let source = s.active_workspace as int;
    if target >= s.workspaces.len() || source == target {
        s
    } else if first_live(s.workspaces[source].panes) is None {
        let s1 = StateView { active_workspace: target, ..s };
        let s2 = after_fallback(s1, s1.focused(), probe.nearest);
        StateView {
            animation: GeometryAnimation::Immediate,
            events: s2.events.push(Event::WorkspaceSwitched { workspace: (target + 1) as usize }),
            ..s2
        }
    } else {
        let moved = if first_live(s.workspaces[target as int].panes) is None {
            contents_transferred(s.workspaces, source, target as int)
        } else {
            contents_swapped(s.workspaces, source, target as int)
        };
        let t = moved[target as int];
        let focus = relocated_focus(t, s.focused_pane);
        StateView {
            workspaces: moved.update(target as int, t.with_focus(focus)),
            active_workspace: target,
            focused_pane: focus,
            animation: GeometryAnimation::Immediate,
            events: s.events.push(Event::WorkspaceSwitched { workspace: (target + 1) as usize }),
            ..s
        }
    }
}

/// Move every pane of the active workspace into slot `target_index` and follow them there. An
/// empty target receives the content wholesale; an occupied one swaps content with the source, so
/// both layouts stay intact. Focus stays on the previously focused pane when it moved along.
///
/// `probe.nearest` is the caller's geometric answer for the target workspace, used when the
/// active workspace has nothing live to move.
pub fn relocate_active_workspace(state: &mut State, target_index: usize, probe: LayoutProbe)
    requires
        old(state).wf(),
    ensures
        final(state).wf(),
        final(state)@ == relocated(old(state)@, target_index, probe),
{
    reveal(relocated);
    if target_index >= state.session.workspaces.len() {
        return;
    }
    let source_index = state.session.active_workspace;
    if source_index == target_index {
        return;
    }
    let previous_focus = state.session.focused_pane;
    if workspace_is_empty(&state.session.workspaces[source_index]) {
        state.session.active_workspace = target_index;
        choose_fallback_focus(state, probe.nearest);
        state.animation = GeometryAnimation::Immediate;
        emit_workspace_switched(state, target_index);
        return;
    }
    if workspace_is_empty(&state.session.workspaces[target_index]) {
        transfer_workspace_content(state, source_index, target_index);
    } else {
        swap_workspace_content(state, source_index, target_index);
    }
    let target = state.workspace_mut(target_index);
    let live_previous = match previous_focus {
        Some(id) => pane_is_live(&target.panes, id),
        None => false,
    };
    if live_previous {
        target.focused_pane = previous_focus;
    } else if target.focused_pane.is_none() {
        target.focused_pane = first_visible_pane(target);
    }
    let target_focus = target.focused_pane;
    state.session.active_workspace = target_index;
    state.session.focused_pane = target_focus;
    state.animation = GeometryAnimation::Immediate;
    emit_workspace_switched(state, target_index);
}

} // verus!

verus! {

/// Swapping two slots' content twice puts every workspace back as it was.
pub proof fn lemma_swap_content_twice(ws: Seq<WorkspaceView>, s: int, t: int)
    requires
        0 <= s < ws.len(),
        0 <= t < ws.len(),
        s != t,
    ensures
        contents_swapped(contents_swapped(ws, s, t), s, t) == ws,
{
    assert(contents_swapped(contents_swapped(ws, s, t), s, t) =~= ws);
}

/// The number of panes across a sequence of workspaces.
pub open spec fn pane_count(ws: Seq<WorkspaceView>) -> nat
    decreases ws.len(),
{
    if ws.len() == 0 {
        0
    } else {
        pane_count(ws.drop_last()) + ws.last().panes.len()
    }
}

proof fn lemma_pane_count_update(ws: Seq<WorkspaceView>, i: int, w: WorkspaceView)
    requires
        0 <= i < ws.len(),
    ensures
        pane_count(ws.update(i, w)) + ws[i].panes.len() == pane_count(ws) + w.panes.len(),
    decreases ws.len(),
{
    if i == ws.len() - 1 {
        assert(ws.update(i, w).drop_last() =~= ws.drop_last());
    } else {
        lemma_pane_count_update(ws.drop_last(), i, w);
        assert(ws.update(i, w).drop_last() =~= ws.drop_last().update(i, w));
    }
}

/// Moving a pane between workspaces neither loses nor duplicates a pane: the pane count across
/// all workspaces is unchanged, and the moved pane is the last pane of the target.
pub proof fn lemma_transfer_keeps_every_pane(s: StateView, id: PaneId, source: int, target: int)
    requires
        0 <= source < s.workspaces.len(),
        0 <= target,
        can_transfer(s, id, source, target),
    ensures
        pane_count(transferred(s, id, source, target).workspaces) == pane_count(s.workspaces),
        transferred(s, id, source, target).workspaces[target].panes.last().id == id,
        transferred(s, id, source, target).workspaces[target].panes.len()
            == s.workspaces[target].panes.len() + 1,
        transferred(s, id, source, target).workspaces[source].panes.len()
            == s.workspaces[source].panes.len() - 1,
{
    reveal(transferred);
    let src = s.workspaces[source];
    let k = choose|i: int| 0 <= i < src.panes.len() && #[trigger] src.panes[i].id == id;
    assert(exists|i: int| first_index_of(src.panes, id, i)) by {
        crate::model::lemma_has_first_index(src.panes, id, k);
    }
    let pos = pane_position(src.panes, id);
    let left = pane_left(src, pos, id);
    let joined = pane_joined(s.workspaces[target], src.panes[pos], id);
    let ws1 = s.workspaces.update(source, left);
    lemma_pane_count_update(s.workspaces, source, left);
    lemma_pane_count_update(ws1, target, joined);
}

/// At most one pane of `panes` is fullscreen.
pub open spec fn one_fullscreen_at_most(panes: Seq<Pane>) -> bool {
    forall|i: int, j: int|
        0 <= i < panes.len() && 0 <= j < panes.len() && (#[trigger] panes[i]).fullscreen && (#[trigger] panes[j]).fullscreen
            ==> i == j
}

/// Moving a pane keeps at most one fullscreen pane per workspace, on both ends: a fullscreen pane
/// that arrives wins, and is then the only fullscreen pane of its new workspace. (A pane id the
/// target already holds would keep its own fullscreen too; ids are unique, which is what the
/// second requirement says.)
pub proof fn lemma_transfer_keeps_one_fullscreen(s: StateView, id: PaneId, source: int, target: int)
    requires
        0 <= source < s.workspaces.len(),
        0 <= target,
        can_transfer(s, id, source, target),
        !has_pane(s.workspaces[target].panes, id),
        forall|k: int| 0 <= k < s.workspaces.len() ==> one_fullscreen_at_most(#[trigger] s.workspaces[k].panes),
    ensures
        forall|k: int|
            0 <= k < s.workspaces.len() ==> one_fullscreen_at_most(
                #[trigger] transferred(s, id, source, target).workspaces[k].panes,
            ),
        ({
            let src = s.workspaces[source];
            let moved = src.panes[pane_position(src.panes, id)];
            let dst = transferred(s, id, source, target).workspaces[target].panes;
            moved.fullscreen ==> dst.last().fullscreen && forall|i: int|
                0 <= i < dst.len() - 1 ==> !(#[trigger] dst[i]).fullscreen
        }),
{
    reveal(transferred);
    let src = s.workspaces[source];
    let k0 = choose|i: int| 0 <= i < src.panes.len() && #[trigger] src.panes[i].id == id;
    assert(exists|i: int| first_index_of(src.panes, id, i)) by {
        crate::model::lemma_has_first_index(src.panes, id, k0);
    }
    let pos = pane_position(src.panes, id);
    let p = src.panes[pos];
    let t = transferred(s, id, source, target);
    let left = src.panes.remove(pos);
    assert(one_fullscreen_at_most(left)) by {
        assert forall|i: int, j: int|
            0 <= i < left.len() && 0 <= j < left.len() && (#[trigger] left[i]).fullscreen && (#[trigger] left[j]).fullscreen
                implies i == j by {
            let i2 = if i < pos { i } else { i + 1 };
            let j2 = if j < pos { j } else { j + 1 };
            assert(left[i] == src.panes[i2]);
            assert(left[j] == src.panes[j2]);
        }
    }
    assert(t.workspaces[source].panes == left);
    let old_dst = s.workspaces[target].panes;
    let pushed = old_dst.push(arrived(p));
    let dst = t.workspaces[target].panes;
    if p.fullscreen {
        assert(dst == others_not_fullscreen(pushed, id));
        assert forall|i: int| 0 <= i < dst.len() - 1 implies !(#[trigger] dst[i]).fullscreen by {
            assert(pushed[i] == old_dst[i]);
            if old_dst[i].id == id {
                assert(has_pane(old_dst, id));
            }
        }
        assert(dst.last().fullscreen);
    } else {
        assert(dst == pushed);
        assert(one_fullscreen_at_most(dst)) by {
            assert forall|i: int, j: int|
                0 <= i < dst.len() && 0 <= j < dst.len() && (#[trigger] dst[i]).fullscreen && (#[trigger] dst[j]).fullscreen
                    implies i == j by {
                assert(i < old_dst.len() && j < old_dst.len());
                assert(dst[i] == old_dst[i] && dst[j] == old_dst[j]);
            }
        }
    }
    assert forall|k: int| 0 <= k < s.workspaces.len() implies one_fullscreen_at_most(
        #[trigger] t.workspaces[k].panes,
    ) by {
        if k != source && k != target {
            assert(t.workspaces[k] == s.workspaces[k]);
        }
    }
}

/// A switch to a workspace other than the active one shows it and announces it once; a switch to
/// the active one announces nothing.
pub proof fn lemma_switch_announces(s: StateView, index: usize, probe: LayoutProbe)
    requires
        s.wf(),
        !s.scratch_visible,
        index < s.workspaces.len(),
    ensures
        switched(s, index, probe).active_workspace == index,
        switched(s, index, probe).events == if s.active_workspace != index {
            s.events.push(Event::WorkspaceSwitched { workspace: (index + 1) as usize })
        } else {
            s.events
        },
{
    reveal(switched);
    reveal(after_fallback);
    reveal(reveal_synced);
    reveal(reveal_applied);
}

/// Switching to a workspace whose remembered focus is live there, while the focused pane is not,
/// restores that workspace's focus.
pub proof fn lemma_switch_restores_focus(s: StateView, index: usize, probe: LayoutProbe)
    requires
        s.wf(),
        !s.scratch_visible,
        index < s.workspaces.len(),
        s.workspaces[index as int].focused_pane is Some,
        is_live(s.workspaces[index as int].panes, s.workspaces[index as int].focused_pane->0),
        s.focused_pane is None || !is_live(s.workspaces[index as int].panes, s.focused_pane->0),
    ensures
        switched(s, index, probe).focused_pane == s.workspaces[index as int].focused_pane,
        switched(s, index, probe).workspaces[index as int].focused_pane
            == s.workspaces[index as int].focused_pane,
{
    reveal(switched);
    reveal(after_fallback);
    reveal(reveal_synced);
    reveal(reveal_applied);
}

} // verus!

verus! {

/// Relocating the active workspace onto an occupied slot and back again leaves every workspace
/// holding the panes it started with, and the original slot active again.
pub proof fn lemma_relocate_round_trip(s: StateView, target: usize, p1: LayoutProbe, p2: LayoutProbe)
    requires
        s.wf(),
        target < s.workspaces.len(),
        target != s.active_workspace,
        first_live(s.workspaces[s.active_workspace as int].panes) is Some,
        first_live(s.workspaces[target as int].panes) is Some,
    ensures
        ({
            let back = relocated(relocated(s, target, p1), s.active_workspace, p2);
            &&& back.active_workspace == s.active_workspace
            &&& back.workspaces.len() == s.workspaces.len()
            &&& forall|j: int| 0 <= j < s.workspaces.len() ==> #[trigger] back.workspaces[j].panes
                == s.workspaces[j].panes
        }),
{
    reveal(relocated);
    let a = s.active_workspace as int;
    let t = target as int;
    let s1 = relocated(s, target, p1);
    assert(s1.workspaces[t].panes == s.workspaces[a].panes);
    assert(s1.workspaces[a].panes == s.workspaces[t].panes);
    let back = relocated(s1, s.active_workspace, p2);
    assert forall|j: int| 0 <= j < s.workspaces.len() implies #[trigger] back.workspaces[j].panes
        == s.workspaces[j].panes by {
        if j == a {
        } else if j == t {
        } else {
        }
    }
}

} // verus!

verus! {

/// A tiled pane that moves to another workspace joins the end of that workspace's tiling order:
/// the target's tiling tree becomes its previous order with the pane appended, so the leaves it
/// had keep their places, the first (master) leaf among them.
pub proof fn lemma_moved_tiled_pane_joins_the_end(s: StateView, id: PaneId, source: int, target: int)
    requires
        0 <= source < s.workspaces.len(),
        0 <= target,
        can_transfer(s, id, source, target),
        !s.workspaces[source].panes[pane_position(s.workspaces[source].panes, id)].floating,
        !effective_order(s.workspaces[target]).contains(id),
    ensures
        ({
            let before = effective_order(s.workspaces[target]);
            let after = transferred(s, id, source, target).workspaces[target].tile_tree;
            &&& after == Some(before.push(id))
            &&& after->0.len() == before.len() + 1
            &&& after->0.last() == id
            &&& forall|k: int| 0 <= k < before.len() ==> #[trigger] after->0[k] == before[k]
            &&& before.len() > 0 ==> after->0[0] == before[0]
        }),
{
    reveal(transferred);
}

} // verus!
