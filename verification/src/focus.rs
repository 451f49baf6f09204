//! Pane focus: which pane holds the keyboard, how it moves, and what it falls back to when the
//! focused pane goes away.

use vstd::prelude::*;

use crate::model::{
    first_live, first_visible_pane, has_pane, position_of, is_live, is_live_tiled, lemma_views_of_update,
    pane_is_live, pane_is_live_tiled, views_of, Direction, Event, GeometryAnimation,
    DirectionalFocusHint, LayoutKind, Pane, PaneId, RevealEdge, SplitAxis, State, StateView,
    Workspace,
    WorkspaceView,
};
use crate::tiling::{effective_order, effective_tile_tree, tiled_ids, tiled_order};

verus! {

/// The axis a split made by moving in `direction` divides along.
pub fn split_axis_for_direction(direction: Direction) -> (r: SplitAxis)
    ensures
        r == (if direction == Direction::Left || direction == Direction::Right {
            SplitAxis::Horizontal
        } else {
            SplitAxis::Vertical
        }),
{
    match direction {
        Direction::Left | Direction::Right => SplitAxis::Horizontal,
        Direction::Up | Direction::Down => SplitAxis::Vertical,
    }
}

pub open spec fn opposite(direction: Direction) -> Direction {
    match direction {
        Direction::Left => Direction::Right,
        Direction::Right => Direction::Left,
        Direction::Up => Direction::Down,
        Direction::Down => Direction::Up,
    }
}

/// The direction that undoes `direction`.
pub fn opposite_direction(direction: Direction) -> (r: Direction)
    ensures
        r == opposite(direction),
{
    match direction {
        Direction::Left => Direction::Right,
        Direction::Right => Direction::Left,
        Direction::Up => Direction::Down,
        Direction::Down => Direction::Up,
    }
}

/// Whether `direction` runs across a strip layout's single axis: Columns and Scrollable lay panes
/// out left to right, so vertical movement crosses them; Rows is the transpose.
pub fn strip_layout_cross_axis(kind: LayoutKind, direction: Direction) -> (r: bool)
    ensures
        r == (((kind == LayoutKind::Columns || kind == LayoutKind::Scrollable) && (direction
            == Direction::Up || direction == Direction::Down)) || (kind == LayoutKind::Rows && (
        direction == Direction::Left || direction == Direction::Right))),
{
    match kind {
        LayoutKind::Columns | LayoutKind::Scrollable => {
            matches!(direction, Direction::Up | Direction::Down)
        },
        LayoutKind::Rows => matches!(direction, Direction::Left | Direction::Right),
        _ => false,
    }
}

/// `panes` holds a live fullscreen pane with `id`.
pub open spec fn is_live_fullscreen(panes: Seq<Pane>, id: PaneId) -> bool {
    exists|i: int|
        0 <= i < panes.len() && #[trigger] panes[i].id == id && !panes[i].closing
            && panes[i].fullscreen
}

/// Whether pane `id` of the workspace on screen is a live fullscreen pane.
pub fn active_pane_is_fullscreen(state: &State, id: PaneId) -> (r: bool)
    requires
        state.wf(),
    ensures
        r == is_live_fullscreen(state@.active_ws().panes, id),
{
    let panes = &state.active_workspace_ref().panes;
    let mut i: usize = 0;
    while i < panes.len()
        invariant
            panes@ == state@.active_ws().panes,
            i <= panes.len(),
            forall|j: int|
                0 <= j < i ==> !(#[trigger] panes@[j].id == id && !panes@[j].closing
                    && panes@[j].fullscreen),
        decreases panes.len() - i,
    {
        if panes[i].id == id && !panes[i].closing && panes[i].fullscreen {
            return true;
        }
        i = i + 1;
    }
    false
}

pub open spec fn locked_by_fullscreen(s: StateView) -> bool {
    s.focused() is Some && is_live_fullscreen(s.active_ws().panes, s.focused()->0)
}

/// Whether focus is pinned to the fullscreen pane covering the workspace.
pub fn focus_locked_by_fullscreen(state: &State) -> (r: bool)
    requires
        state.wf(),
    ensures
        r == locked_by_fullscreen(state@),
{
    match state.focused_pane() {
        Some(id) => active_pane_is_fullscreen(state, id),
        None => false,
    }
}

/// The geometric fallback: `nearest` counts only when the reference pane is in `ws` and `nearest`
/// is a live pane of `ws` other than it.
pub open spec fn near_choice(
    ws: WorkspaceView,
    reference: Option<PaneId>,
    nearest: Option<PaneId>,
) -> Option<PaneId> {
    match (reference, nearest) {
        (Some(r), Some(n)) => if has_pane(ws.panes, r) && n != r && is_live(ws.panes, n) {
            Some(n)
        } else {
            None
        },
        _ => None,
    }
}

/// The pane focus falls back to: the focused pane while it is live, else the workspace's
/// remembered focus while that is live, else the pane nearest the reference, else the first live
/// pane.
pub open spec fn fallback_target(
    s: StateView,
    reference: Option<PaneId>,
    nearest: Option<PaneId>,
) -> Option<PaneId> {
    let ws = s.active_ws();
    if s.focused() is Some && is_live(ws.panes, s.focused()->0) {
        s.focused()
    } else if ws.focused_pane is Some && is_live(ws.panes, ws.focused_pane->0) {
        ws.focused_pane
    } else {
        match near_choice(ws, reference, nearest) {
            Some(n) => Some(n),
            None => first_live(ws.panes),
        }
    }
}

/// The state after focus falls back: the surface's focus and the workspace's remembered focus
/// both name the fallback target.
#[verifier::opaque]
pub open spec fn after_fallback(
    s: StateView,
    reference: Option<PaneId>,
    nearest: Option<PaneId>,
) -> StateView {
    let target = fallback_target(s, reference, nearest);
    s.with_active_ws(s.active_ws().with_focus(target)).with_focused(target)
}

/// Re-resolve focus after the focused pane became unfocusable, landing near `reference_id`.
///
/// `nearest` is the live pane the layout geometry places closest to the reference pane, as the
/// caller's layout code measures it; it is used only when it is a live pane of the workspace on
/// screen other than the reference.
pub fn choose_fallback_focus_near(
    state: &mut State,
    reference_id: Option<PaneId>,
    nearest: Option<PaneId>,
)
    requires
        old(state).wf(),
    ensures
        final(state).session.active_workspace == old(state).session.active_workspace,
        final(state).session.workspaces.len() == old(state).session.workspaces.len(),
        final(state).wf(),
        final(state)@ == after_fallback(old(state)@, reference_id, nearest),
{
    reveal(after_fallback);
    let focused = state.focused_pane();
    let ws = state.active_workspace_ref();
    let target = if focused.is_some() && pane_is_live(&ws.panes, focused.unwrap()) {
        focused
    } else if ws.focused_pane.is_some() && pane_is_live(&ws.panes, ws.focused_pane.unwrap()) {
        ws.focused_pane
    } else {
        let near = match (reference_id, nearest) {
            (Some(r), Some(n)) => {
                if position_of(&ws.panes, r).is_some() && n != r && pane_is_live(&ws.panes, n) {
                    Some(n)
                } else {
                    None
                }
            },
            _ => None,
        };
        match near {
            Some(n) => Some(n),
            None => first_visible_pane(ws),
        }
    };
    state.set_active_workspace_focus(target);
    state.set_focused_pane(target);
}

/// Re-resolve focus after the focused pane became unfocusable. `nearest` is the caller's
/// geometric answer for the focused pane, as in [`choose_fallback_focus_near`].
pub fn choose_fallback_focus(state: &mut State, nearest: Option<PaneId>)
    requires
        old(state).wf(),
    ensures
        final(state).session.active_workspace == old(state).session.active_workspace,
        final(state).session.workspaces.len() == old(state).session.workspaces.len(),
        final(state).wf(),
        final(state)@ == after_fallback(old(state)@, old(state)@.focused(), nearest),
{
    let reference = state.focused_pane();
    choose_fallback_focus_near(state, reference, nearest);
}

pub open spec fn has_marks(p: Pane) -> bool {
    p.has_unseen_output || p.bell || p.finished_unseen
}

pub open spec fn clear_marks(p: Pane) -> Pane {
    Pane { has_unseen_output: false, bell: false, finished_unseen: false, ..p }
}

/// `panes` with the attention marks of pane `id` cleared.
pub open spec fn panes_acknowledged(panes: Seq<Pane>, id: PaneId) -> Seq<Pane> {
    Seq::new(
        panes.len(),
        |i: int|
            if panes[i].id == id {
                clear_marks(panes[i])
            } else {
                panes[i]
            },
    )
}

pub open spec fn ws_acknowledged(ws: WorkspaceView, id: PaneId) -> WorkspaceView {
    WorkspaceView { panes: panes_acknowledged(ws.panes, id), ..ws }
}

pub open spec fn marked(panes: Seq<Pane>, id: PaneId) -> bool {
    exists|i: int| 0 <= i < panes.len() && #[trigger] panes[i].id == id && has_marks(panes[i])
}

/// The state with pane `id`'s attention marks cleared wherever it lives.
#[verifier::opaque]
pub open spec fn acknowledged(s: StateView, id: PaneId) -> StateView {
    StateView {
        workspaces: Seq::new(s.workspaces.len(), |j: int| ws_acknowledged(s.workspaces[j], id)),
        scratch: ws_acknowledged(s.scratch, id),
        ..s
    }
}

/// Pane `id` carries an attention mark somewhere.
pub open spec fn any_marked(s: StateView, id: PaneId) -> bool {
    (exists|j: int| 0 <= j < s.workspaces.len() && marked(#[trigger] s.workspaces[j].panes, id))
        || marked(s.scratch.panes, id)
}

/// Clear the attention marks of pane `id` in one workspace; whether any was set.
fn clear_marks_in(ws: &mut Workspace, id: PaneId) -> (r: bool)
    ensures
        final(ws)@ == ws_acknowledged(old(ws)@, id),
        r == marked(old(ws)@.panes, id),
{
    let ghost start = ws.panes@;
    let mut changed = false;
    let mut i: usize = 0;
    while i < ws.panes.len()
        invariant
            ws.panes@.len() == start.len(),
            i <= start.len(),
            forall|j: int| 0 <= j < i ==> #[trigger] ws.panes@[j] == panes_acknowledged(start, id)[j],
            forall|j: int| i <= j < start.len() ==> #[trigger] ws.panes@[j] == start[j],
            changed == (exists|j: int| 0 <= j < i && #[trigger] start[j].id == id && has_marks(start[j])),
            ws.index == old(ws).index,
            ws.tile_tree == old(ws).tile_tree,
            ws.focused_pane == old(ws).focused_pane,
            ws.synchronized == old(ws).synchronized,
            ws.layout_kind == old(ws).layout_kind,
            ws.start_axis == old(ws).start_axis,
            ws.split_ratios == old(ws).split_ratios,
            ws.last_move_swap == old(ws).last_move_swap,
            ws.last_directional_focus == old(ws).last_directional_focus,
            ws.scrollable_anchor == old(ws).scrollable_anchor,
            ws.scrollable_reveal_edge == old(ws).scrollable_reveal_edge,
            ws.name == old(ws).name,
            start == old(ws).panes@,
        decreases start.len() - i,
    {
        let p = ws.panes[i];
        if p.id == id {
            if p.has_unseen_output || p.bell || p.finished_unseen {
                changed = true;
            }
            let mut q = p;
            q.has_unseen_output = false;
            q.bell = false;
            q.finished_unseen = false;
            ws.panes.set(i, q);
        }
        i = i + 1;
    }
    assert(ws.panes@ =~= panes_acknowledged(start, id));
    changed
}

/// Acknowledge a pane because input just reached it: clear its attention marks wherever it lives.
/// Returns whether any mark was set.
pub fn acknowledge_pane_input(state: &mut State, pane_id: PaneId) -> (r: bool)
    ensures
        final(state)@ == acknowledged(old(state)@, pane_id),
        r == any_marked(old(state)@, pane_id),
        final(state).session.workspaces.len() == old(state).session.workspaces.len(),
        final(state).session.active_workspace == old(state).session.active_workspace,
{
    acknowledge_pane(state, pane_id)
}

fn acknowledge_pane(state: &mut State, pane_id: PaneId) -> (r: bool)
    ensures
        final(state)@ == acknowledged(old(state)@, pane_id),
        r == any_marked(old(state)@, pane_id),
        final(state).session.workspaces.len() == old(state).session.workspaces.len(),
        final(state).session.active_workspace == old(state).session.active_workspace,
{
    broadcast use lemma_views_of_update;

    reveal(acknowledged);
    let ghost s0 = state@;
    let mut changed = false;
    let mut w: usize = 0;
    let n = state.session.workspaces.len();
    assert(state@.workspaces =~= Seq::new(
        n as nat,
        |j: int|
            if j < 0 {
                ws_acknowledged(s0.workspaces[j], pane_id)
            } else {
                s0.workspaces[j]
            },
    ));
    while w < n
        invariant
            n == state.session.workspaces.len(),
            n == s0.workspaces.len(),
            w <= n,
            state@ == (StateView {
                workspaces: Seq::new(
                    n as nat,
                    |j: int|
                        if j < w {
                            ws_acknowledged(s0.workspaces[j], pane_id)
                        } else {
                            s0.workspaces[j]
                        },
                ),
                ..s0
            }),
            changed == (exists|j: int| 0 <= j < w && marked(#[trigger] s0.workspaces[j].panes, pane_id)),
        decreases n - w,
    {
        let ghost before = state@;
        assert(before.workspaces[w as int] == s0.workspaces[w as int]);
        let c = clear_marks_in(state.workspace_mut(w), pane_id);
        proof {
            assert(state@.workspaces =~= Seq::new(
                n as nat,
                |j: int|
                    if j < w + 1 {
                        ws_acknowledged(s0.workspaces[j], pane_id)
                    } else {
                        s0.workspaces[j]
                    },
            ));
        }
        changed = changed || c;
        w = w + 1;
    }
    let c = clear_marks_in(&mut state.scratch, pane_id);
    assert(state@.workspaces =~= acknowledged(s0, pane_id).workspaces);
    changed || c
}

/// The pane is selected in a focused host window.
pub open spec fn attended(s: StateView, id: PaneId) -> bool {
    s.window_focused && s.focused() == Some(id)
}

/// Acknowledge attention only when the pane is selected in a focused host window.
pub fn acknowledge_pane_if_attended(state: &mut State, pane_id: PaneId) -> (r: bool)
    ensures
        attended(old(state)@, pane_id) ==> final(state)@ == acknowledged(old(state)@, pane_id)
            && r == any_marked(old(state)@, pane_id),
        !attended(old(state)@, pane_id) ==> final(state)@ == old(state)@ && !r,
        final(state).session.workspaces.len() == old(state).session.workspaces.len(),
        final(state).session.active_workspace == old(state).session.active_workspace,
{
    if !(state.window_focused && state.focused_pane() == Some(pane_id)) {
        return false;
    }
    acknowledge_pane(state, pane_id)
}

} // verus!

verus! {

/// How the pane being revealed sits in the rendered strip, as the caller's layout code measured
/// it against the visible interval (with a half-cell tolerance).
#[derive(Clone, Copy, Debug, PartialEq, Eq, Structural)]
pub enum RevealClip {
    /// Fully inside the visible interval.
    Visible,
    /// Cut off on the left only.
    LeftClipped,
    /// Cut off on the right only.
    RightClipped,
    /// Cut off on both sides: wider than what is visible.
    BothClipped,
}

/// What the caller's layout code measured for the workspace an operation shows: the pane nearest
/// the focused one, and how the pane to reveal sits in the rendered strip (`None` when there is
/// no rendered placement to measure).
#[derive(Clone, Copy, Debug, PartialEq, Eq, Structural)]
pub struct LayoutProbe {
    pub nearest: Option<PaneId>,
    pub reveal_clip: Option<RevealClip>,
}

/// How Scrollable focus adjusts the visible strip.
#[derive(Clone, Copy, Debug, PartialEq, Eq, Structural)]
pub enum RevealDecision {
    /// Keep the strip where it is.
    Preserve,
    /// Scroll so the pane sits against this edge.
    Align(RevealEdge),
}

/// `i` is the first position of `x` in `s`.
pub open spec fn first_pos(s: Seq<PaneId>, x: PaneId, i: int) -> bool {
    &&& 0 <= i < s.len()
    &&& s[i] == x
    &&& forall|j: int| 0 <= j < i ==> #[trigger] s[j] != x
}

/// The first position of `x` in `s`.
pub open spec fn position_in(s: Seq<PaneId>, x: PaneId) -> Option<int> {
    if s.contains(x) {
        Some(choose|i: int| first_pos(s, x, i))
    } else {
        None
    }
}

pub proof fn lemma_first_pos_unique(s: Seq<PaneId>, x: PaneId, i: int, k: int)
    requires
        first_pos(s, x, i),
        first_pos(s, x, k),
    ensures
        i == k,
{
    if i < k {
        assert(s[i] != x);
    } else if k < i {
        assert(s[k] != x);
    }
}

pub proof fn lemma_contains_first_pos(s: Seq<PaneId>, x: PaneId, i: int)
    requires
        0 <= i < s.len(),
        s[i] == x,
    ensures
        exists|k: int| first_pos(s, x, k),
    decreases i,
{
    if forall|j: int| 0 <= j < i ==> #[trigger] s[j] != x {
        assert(first_pos(s, x, i));
    } else {
        let j = choose|j: int| 0 <= j < i && #[trigger] s[j] == x;
        lemma_contains_first_pos(s, x, j);
    }
}

/// The first position of `x` in `v`.
pub fn position_in_order(v: &Vec<PaneId>, x: PaneId) -> (r: Option<usize>)
    ensures
        match r {
            Some(i) => position_in(v@, x) == Some(i as int) && first_pos(v@, x, i as int),
            None => position_in(v@, x) is None && !v@.contains(x),
        },
{
    let mut i: usize = 0;
    while i < v.len()
        invariant
            i <= v.len(),
            forall|j: int| 0 <= j < i ==> #[trigger] v@[j] != x,
        decreases v.len() - i,
    {
        if v[i] == x {
            proof {
                assert(first_pos(v@, x, i as int));
                assert(v@.contains(x));
                let k = choose|i: int| first_pos(v@, x, i);
                lemma_contains_first_pos(v@, x, i as int);
                lemma_first_pos_unique(v@, x, i as int, k);
            }
            return Some(i);
        }
        i = i + 1;
    }
    None
}

/// The pane a Scrollable strip is anchored on: the stored anchor while it is a live tiled pane,
/// else the workspace's focused pane while it is one, else the first tiled pane.
#[verifier::opaque]
pub open spec fn viewport_anchor(ws: WorkspaceView) -> Option<PaneId> {
    let tiled = tiled_order(ws);
    if ws.scrollable_anchor is Some && tiled.contains(ws.scrollable_anchor->0) {
        ws.scrollable_anchor
    } else if ws.focused_pane is Some && tiled.contains(ws.focused_pane->0) {
        ws.focused_pane
    } else if tiled.len() > 0 {
        Some(tiled[0])
    } else {
        None
    }
}

/// The effective anchor of a Scrollable strip whose tiled order is `tiled`.
pub fn scrollable_viewport_anchor(ws: &Workspace, tiled: &Vec<PaneId>) -> (r: Option<PaneId>)
    requires
        tiled@ == tiled_order(ws@),
    ensures
        r == viewport_anchor(ws@),
{
    reveal(viewport_anchor);
    if let Some(anchor) = ws.scrollable_anchor {
        if position_in_order(tiled, anchor).is_some() {
            return Some(anchor);
        }
    }
    if let Some(focused) = ws.focused_pane {
        if position_in_order(tiled, focused).is_some() {
            return Some(focused);
        }
    }
    if tiled.len() > 0 {
        Some(tiled[0])
    } else {
        None
    }
}

/// The reveal edge from tiled order: moving left of the prior anchor aligns left, right of it
/// aligns right, onto it keeps the current edge; without a prior anchor the first pane aligns
/// left and any other right; a pane outside the order aligns left.
pub open spec fn order_edge(
    tiled: Seq<PaneId>,
    target: PaneId,
    prior: Option<PaneId>,
    current_edge: RevealEdge,
) -> RevealEdge {
    let t = position_in(tiled, target);
    let p = match prior {
        Some(id) => position_in(tiled, id),
        None => None,
    };
    match (t, p) {
        (Some(t), Some(p)) => if t < p {
            RevealEdge::Left
        } else if t > p {
            RevealEdge::Right
        } else {
            current_edge
        },
        (Some(t), None) => if t == 0 {
            RevealEdge::Left
        } else {
            RevealEdge::Right
        },
        (None, _) => RevealEdge::Left,
    }
}

/// Reveal edge from tiled order when there is no usable rendered clip side.
pub fn scrollable_reveal_edge_from_order(
    tiled: &Vec<PaneId>,
    target: PaneId,
    prior: Option<PaneId>,
    current_edge: RevealEdge,
) -> (r: RevealEdge)
    ensures
        r == order_edge(tiled@, target, prior, current_edge),
{
    let target_idx = position_in_order(tiled, target);
    let prior_idx = match prior {
        Some(id) => position_in_order(tiled, id),
        None => None,
    };
    match (target_idx, prior_idx) {
        (Some(t), Some(p)) => {
            if t < p {
                RevealEdge::Left
            } else if t > p {
                RevealEdge::Right
            } else {
                current_edge
            }
        },
        (Some(t), None) => {
            if t == 0 {
                RevealEdge::Left
            } else {
                RevealEdge::Right
            }
        },
        (None, _) => RevealEdge::Left,
    }
}

/// How Scrollable focus on `target` should adjust the strip of the workspace on screen; `None`
/// when the workspace is not Scrollable or `target` is not one of its live tiled panes.
#[verifier::opaque]
pub open spec fn reveal_decision(
    s: StateView,
    target: PaneId,
    prior_anchor: Option<PaneId>,
    clip: Option<RevealClip>,
) -> Option<RevealDecision> {
    let ws = s.active_ws();
    if ws.layout_kind != LayoutKind::Scrollable || !is_live_tiled(ws.panes, target) {
        None
    } else {
        let by_order = order_edge(tiled_order(ws), target, prior_anchor, ws.scrollable_reveal_edge);
        match clip {
            None => Some(RevealDecision::Align(by_order)),
            Some(RevealClip::Visible) => Some(RevealDecision::Preserve),
            Some(RevealClip::LeftClipped) => Some(RevealDecision::Align(RevealEdge::Left)),
            Some(RevealClip::RightClipped) => Some(RevealDecision::Align(RevealEdge::Right)),
            Some(RevealClip::BothClipped) => Some(RevealDecision::Align(by_order)),
        }
    }
}

/// Classify how Scrollable focus should adjust the local viewport before mutation.
pub fn classify_scrollable_reveal(
    state: &State,
    target: PaneId,
    prior_anchor: Option<PaneId>,
    clip: Option<RevealClip>,
) -> (r: Option<RevealDecision>)
    requires
        state.wf(),
    ensures
        r == reveal_decision(state@, target, prior_anchor, clip),
{
    reveal(reveal_decision);
    let ws = state.active_workspace_ref();
    if ws.layout_kind != LayoutKind::Scrollable {
        return None;
    }
    if !pane_is_live_tiled(&ws.panes, target) {
        return None;
    }
    let tiled = tiled_ids(ws);
    let by_order = scrollable_reveal_edge_from_order(
        &tiled,
        target,
        prior_anchor,
        ws.scrollable_reveal_edge,
    );
    match clip {
        None => Some(RevealDecision::Align(by_order)),
        Some(RevealClip::Visible) => Some(RevealDecision::Preserve),
        Some(RevealClip::LeftClipped) => Some(RevealDecision::Align(RevealEdge::Left)),
        Some(RevealClip::RightClipped) => Some(RevealDecision::Align(RevealEdge::Right)),
        Some(RevealClip::BothClipped) => Some(RevealDecision::Align(by_order)),
    }
}

pub open spec fn with_viewport(ws: WorkspaceView, anchor: Option<PaneId>, edge: RevealEdge) -> WorkspaceView {
    WorkspaceView { scrollable_anchor: anchor, scrollable_reveal_edge: edge, ..ws }
}

/// The state after a reveal decision is applied to the workspace on screen.
#[verifier::opaque]
pub open spec fn reveal_applied(
    s: StateView,
    id: PaneId,
    prior_anchor: Option<PaneId>,
    prior_edge: Option<RevealEdge>,
    decision: Option<RevealDecision>,
    arm_axis_change: bool,
) -> StateView {
    let ws = s.active_ws();
    match decision {
        Some(RevealDecision::Preserve) => match prior_anchor {
            Some(anchor) => s.with_active_ws(
                with_viewport(
                    ws,
                    Some(anchor),
                    match prior_edge {
                        Some(e) => e,
                        None => RevealEdge::Left,
                    },
                ),
            ),
            None => s,
        },
        Some(RevealDecision::Align(edge)) => {
            let s1 = s.with_active_ws(with_viewport(ws, Some(id), edge));
            let edge_changed = prior_edge is Some && prior_edge->0 != edge;
            if arm_axis_change && (viewport_anchor(s1.active_ws()) != prior_anchor
                || edge_changed) {
                StateView { animation: GeometryAnimation::AxisChange, ..s1 }
            } else {
                s1
            }
        },
        None => s.with_active_ws(with_viewport(ws, Some(id), RevealEdge::Left)),
    }
}

/// Set the anchor and reveal edge of the workspace on screen.
fn set_active_viewport(state: &mut State, anchor: Option<PaneId>, edge: RevealEdge)
    requires
        old(state).wf(),
    ensures
        final(state).session.active_workspace == old(state).session.active_workspace,
        final(state).session.workspaces.len() == old(state).session.workspaces.len(),
        final(state).wf(),
        final(state)@ == old(state)@.with_active_ws(with_viewport(old(state)@.active_ws(), anchor, edge)),
{
    let ws = state.active_workspace_mut();
    ws.scrollable_anchor = anchor;
    ws.scrollable_reveal_edge = edge;
}

/// Apply a reveal decision to the workspace on screen.
pub fn apply_scrollable_reveal_decision(
    state: &mut State,
    id: PaneId,
    prior_scrollable_anchor: Option<PaneId>,
    prior_reveal_edge: Option<RevealEdge>,
    reveal_decision: Option<RevealDecision>,
    arm_axis_change: bool,
)
    requires
        old(state).wf(),
    ensures
        final(state).session.active_workspace == old(state).session.active_workspace,
        final(state).session.workspaces.len() == old(state).session.workspaces.len(),
        final(state).wf(),
        final(state)@ == reveal_applied(
            old(state)@,
            id,
            prior_scrollable_anchor,
            prior_reveal_edge,
            reveal_decision,
            arm_axis_change,
        ),
{
    reveal(reveal_applied);
    match reveal_decision {
        Some(RevealDecision::Preserve) => {
            if let Some(anchor) = prior_scrollable_anchor {
                let edge = match prior_reveal_edge {
                    Some(e) => e,
                    None => RevealEdge::Left,
                };
                set_active_viewport(state, Some(anchor), edge);
            }
        },
        Some(RevealDecision::Align(edge)) => {
            set_active_viewport(state, Some(id), edge);
            if arm_axis_change {
                let ws = state.active_workspace_ref();
                let tiled = tiled_ids(ws);
                let new_anchor = scrollable_viewport_anchor(ws, &tiled);
                let edge_changed = match prior_reveal_edge {
                    Some(prior) => prior != edge,
                    None => false,
                };
                if new_anchor != prior_scrollable_anchor || edge_changed {
                    state.animation = GeometryAnimation::AxisChange;
                }
            }
        },
        None => {
            set_active_viewport(state, Some(id), RevealEdge::Left);
        },
    }
}

/// The state after the strip of the workspace on screen is brought in line with its focused
/// tiled pane `id`.
#[verifier::opaque]
pub open spec fn reveal_synced(s: StateView, id: PaneId, arm: bool, clip: Option<RevealClip>) -> StateView {
    let ws = s.active_ws();
    if ws.layout_kind != LayoutKind::Scrollable || !is_live_tiled(ws.panes, id) {
        s
    } else {
        let prior = viewport_anchor(ws);
        reveal_applied(
            s,
            id,
            prior,
            Some(ws.scrollable_reveal_edge),
            reveal_decision(s, id, prior, clip),
            arm,
        )
    }
}

/// Sync the Scrollable viewport for an already-focused tiled pane.
pub fn sync_scrollable_reveal(
    state: &mut State,
    id: PaneId,
    arm_axis_change: bool,
    clip: Option<RevealClip>,
)
    requires
        old(state).wf(),
    ensures
        final(state).session.active_workspace == old(state).session.active_workspace,
        final(state).session.workspaces.len() == old(state).session.workspaces.len(),
        final(state).wf(),
        final(state)@ == reveal_synced(old(state)@, id, arm_axis_change, clip),
{
    reveal(reveal_synced);
    let ws = state.active_workspace_ref();
    if ws.layout_kind != LayoutKind::Scrollable {
        return;
    }
    if !pane_is_live_tiled(&ws.panes, id) {
        return;
    }
    let tiled = tiled_ids(ws);
    let prior = scrollable_viewport_anchor(ws, &tiled);
    let prior_edge = Some(ws.scrollable_reveal_edge);
    let decision = classify_scrollable_reveal(state, id, prior, clip);
    apply_scrollable_reveal_decision(state, id, prior, prior_edge, decision, arm_axis_change);
}

} // verus!

verus! {

/// `i` is the first live pane of `panes` with `id`.
pub open spec fn first_live_with(panes: Seq<Pane>, id: PaneId, i: int) -> bool {
    &&& 0 <= i < panes.len()
    &&& panes[i].id == id
    &&& !panes[i].closing
    &&& forall|j: int| 0 <= j < i ==> !(#[trigger] panes[j].id == id && !panes[j].closing)
}

/// The first live pane with `id` is tiled.
pub open spec fn anchors_tiled(panes: Seq<Pane>, id: PaneId) -> bool {
    exists|i: int| first_live_with(panes, id, i) && !panes[i].floating
}

proof fn lemma_first_live_with_unique(panes: Seq<Pane>, id: PaneId, i: int, k: int)
    requires
        first_live_with(panes, id, i),
        first_live_with(panes, id, k),
    ensures
        i == k,
{
    if i < k {
        assert(!(panes[i].id == id && !panes[i].closing));
    } else if k < i {
        assert(!(panes[k].id == id && !panes[k].closing));
    }
}

/// Whether the first live pane with `id` is tiled, or `None` when there is no live pane with it.
pub fn live_pane_is_tiled(panes: &Vec<Pane>, id: PaneId) -> (r: Option<bool>)
    ensures
        r is Some <==> is_live(panes@, id),
        r == Some(true) <==> anchors_tiled(panes@, id),
{
    let mut i: usize = 0;
    while i < panes.len()
        invariant
            i <= panes.len(),
            forall|j: int| 0 <= j < i ==> !(#[trigger] panes@[j].id == id && !panes@[j].closing),
        decreases panes.len() - i,
    {
        if panes[i].id == id && !panes[i].closing {
            proof {
                assert(first_live_with(panes@, id, i as int));
                if anchors_tiled(panes@, id) {
                    let k = choose|k: int| first_live_with(panes@, id, k) && !panes@[k].floating;
                    lemma_first_live_with_unique(panes@, id, i as int, k);
                }
            }
            return Some(!panes[i].floating);
        }
        i = i + 1;
    }
    None
}

/// Select `id` as the focus of the workspace on screen, when it is one of its live panes; the
/// directional hint is dropped whenever focus is not merely re-affirmed.
#[verifier::opaque]
pub open spec fn focus_selected(s: StateView, id: PaneId) -> StateView {
    let ws = s.active_ws();
    let s1 = if s.focused() != Some(id) {
        s.with_active_ws(WorkspaceView { last_directional_focus: None, ..ws })
    } else {
        s
    };
    if is_live(ws.panes, id) {
        let f = s1.with_focused(Some(id));
        f.with_active_ws(f.active_ws().with_focus(Some(id)))
    } else {
        s1
    }
}

/// The state with pane `id` acknowledged when it is attended.
pub open spec fn acknowledged_if_attended(s: StateView, id: PaneId) -> StateView {
    if attended(s, id) {
        acknowledged(s, id)
    } else {
        s
    }
}

/// Anchor the strip on a newly focused tiled pane: a Scrollable workspace applies its reveal
/// decision, any other records the pane as its anchor.
#[verifier::opaque]
pub open spec fn focus_anchored(
    s: StateView,
    id: PaneId,
    anchored_tiled: bool,
    scrollable: bool,
    prior_anchor: Option<PaneId>,
    prior_edge: Option<RevealEdge>,
    decision: Option<RevealDecision>,
) -> StateView {
    if anchored_tiled {
        if scrollable {
            reveal_applied(s, id, prior_anchor, prior_edge, decision, true)
        } else {
            s.with_active_ws(WorkspaceView { scrollable_anchor: Some(id), ..s.active_ws() })
        }
    } else {
        s
    }
}

/// Emit `focus-changed` when focus moved onto `id`.
#[verifier::opaque]
pub open spec fn focus_announced(previous: Option<PaneId>, s: StateView, id: PaneId) -> StateView {
    if previous != s.focused() && s.focused() == Some(id) {
        StateView { events: s.events.push(Event::FocusChanged { pane: id }), ..s }
    } else {
        s
    }
}

/// The state after focus lands on `id` in the workspace on screen.
#[verifier::opaque]
pub open spec fn focused_on(s: StateView, id: PaneId, clip: Option<RevealClip>) -> StateView {
    let ws = s.active_ws();
    let scrollable = ws.layout_kind == LayoutKind::Scrollable;
    let prior_anchor = if scrollable {
        viewport_anchor(ws)
    } else {
        None
    };
    let prior_edge = if scrollable {
        Some(ws.scrollable_reveal_edge)
    } else {
        None
    };
    let decision = if scrollable {
        reveal_decision(s, id, prior_anchor, clip)
    } else {
        None
    };
    let anchored = is_live(ws.panes, id) && anchors_tiled(ws.panes, id);
    let s3 = acknowledged_if_attended(focus_selected(s, id), id);
    focus_announced(
        s.focused(),
        focus_anchored(s3, id, anchored, scrollable, prior_anchor, prior_edge, decision),
        id,
    )
}

fn select_focus(state: &mut State, id: PaneId, live: bool)
    requires
        old(state).wf(),
        live == is_live(old(state)@.active_ws().panes, id),
    ensures
        final(state).session.active_workspace == old(state).session.active_workspace,
        final(state).session.workspaces.len() == old(state).session.workspaces.len(),
        final(state).wf(),
        final(state)@ == focus_selected(old(state)@, id),
{
    reveal(focus_selected);
    if state.focused_pane() != Some(id) {
        let ws = state.active_workspace_mut();
        ws.last_directional_focus = None;
    }
    if live {
        state.set_focused_pane(Some(id));
        let ws = state.active_workspace_mut();
        ws.focused_pane = Some(id);
    }
}

fn anchor_focus(
    state: &mut State,
    id: PaneId,
    anchored_tiled: bool,
    scrollable: bool,
    prior_anchor: Option<PaneId>,
    prior_edge: Option<RevealEdge>,
    decision: Option<RevealDecision>,
)
    requires
        old(state).wf(),
    ensures
        final(state).session.active_workspace == old(state).session.active_workspace,
        final(state).session.workspaces.len() == old(state).session.workspaces.len(),
        final(state).wf(),
        final(state)@ == focus_anchored(
            old(state)@,
            id,
            anchored_tiled,
            scrollable,
            prior_anchor,
            prior_edge,
            decision,
        ),
{
    reveal(focus_anchored);
    if anchored_tiled {
        if scrollable {
            apply_scrollable_reveal_decision(state, id, prior_anchor, prior_edge, decision, true);
        } else {
            let ws = state.active_workspace_mut();
            ws.scrollable_anchor = Some(id);
        }
    }
}

fn announce_focus(state: &mut State, previous: Option<PaneId>, id: PaneId)
    requires
        old(state).wf(),
    ensures
        final(state).session.active_workspace == old(state).session.active_workspace,
        final(state).session.workspaces.len() == old(state).session.workspaces.len(),
        final(state).wf(),
        final(state)@ == focus_announced(previous, old(state)@, id),
{
    reveal(focus_announced);
    let now = state.focused_pane();
    if previous != now && now == Some(id) {
        state.events.push(Event::FocusChanged { pane: id });
    }
}

/// Focus pane `id` of the workspace on screen.
///
/// `clip` is where the caller's layout code found the pane in the rendered strip, for a
/// Scrollable workspace.
pub fn focus_pane(state: &mut State, id: PaneId, clip: Option<RevealClip>)
    requires
        old(state).wf(),
    ensures
        final(state).session.active_workspace == old(state).session.active_workspace,
        final(state).session.workspaces.len() == old(state).session.workspaces.len(),
        final(state).wf(),
        final(state)@ == focused_on(old(state)@, id, clip),
{
    reveal(focused_on);
    let previous = state.focused_pane();
    let ws = state.active_workspace_ref();
    let scrollable = ws.layout_kind == LayoutKind::Scrollable;
    let (prior_anchor, prior_edge) = if scrollable {
        let tiled = tiled_ids(ws);
        (scrollable_viewport_anchor(ws, &tiled), Some(ws.scrollable_reveal_edge))
    } else {
        (None, None)
    };
    let decision = if scrollable {
        classify_scrollable_reveal(state, id, prior_anchor, clip)
    } else {
        None
    };
    let found = live_pane_is_tiled(&state.active_workspace_ref().panes, id);
    let anchored_tiled = found == Some(true);
    select_focus(state, id, found.is_some());
    acknowledge_pane_if_attended(state, id);
    anchor_focus(state, id, anchored_tiled, scrollable, prior_anchor, prior_edge, decision);
    announce_focus(state, previous, id);
}

} // verus!

verus! {

/// The position focus steps to along `ids`: one past the focused pane (or one before it), wrapping
/// at the ends when `wrap` is set; the first pane when focus is not in `ids`; `None` when there is
/// nowhere to go.
pub open spec fn step_index(ids: Seq<PaneId>, focused: Option<PaneId>, forward: bool, wrap: bool) -> Option<int> {
    if ids.len() == 0 {
        None
    } else {
        let pos = match focused {
            Some(f) => position_in(ids, f),
            None => None,
        };
        match pos {
            Some(i) => if forward {
                if i + 1 < ids.len() {
                    Some(i + 1)
                } else if wrap {
                    Some(0)
                } else {
                    None
                }
            } else {
                if i > 0 {
                    Some(i - 1)
                } else if wrap {
                    Some(ids.len() - 1)
                } else {
                    None
                }
            },
            None => Some(0),
        }
    }
}

/// Step focus one pane along the tiled order of the workspace on screen. Returns the newly focused
/// pane, or `None` (changing nothing) when there is no tiled pane or the step would leave the order
/// without `wrap`.
pub fn step_focus_in_tiled_order(
    state: &mut State,
    forward: bool,
    wrap: bool,
    clip: Option<RevealClip>,
) -> (r: Option<PaneId>)
    requires
        old(state).wf(),
    ensures
        final(state).wf(),
        ({
            let ids = tiled_order(old(state)@.active_ws());
            match step_index(ids, old(state)@.focused(), forward, wrap) {
                Some(k) => r == Some(ids[k]) && final(state)@ == focused_on(old(state)@, ids[k], clip),
                None => r is None && final(state)@ == old(state)@,
            }
        }),
{
    let ids = tiled_ids(state.active_workspace_ref());
    if ids.len() == 0 {
        return None;
    }
    let pos = match state.focused_pane() {
        Some(f) => position_in_order(&ids, f),
        None => None,
    };
    let next: usize = match pos {
        Some(index) => {
            if forward {
                if index < ids.len() - 1 {
                    index + 1
                } else if wrap {
                    0
                } else {
                    return None;
                }
            } else {
                if index > 0 {
                    index - 1
                } else if wrap {
                    ids.len() - 1
                } else {
                    return None;
                }
            }
        },
        None => 0,
    };
    let id = ids[next];
    focus_pane(state, id, clip);
    Some(id)
}

/// Move focus to the next or previous tiled pane, wrapping around; nothing while focus is pinned
/// to a fullscreen pane.
pub fn cycle_focus_in_tiled_order(state: &mut State, forward: bool, clip: Option<RevealClip>) -> (r: Option<PaneId>)
    requires
        old(state).wf(),
    ensures
        final(state).wf(),
        locked_by_fullscreen(old(state)@) ==> r is None && final(state)@ == old(state)@,
        !locked_by_fullscreen(old(state)@) ==> ({
            let ids = tiled_order(old(state)@.active_ws());
            match step_index(ids, old(state)@.focused(), forward, true) {
                Some(k) => r == Some(ids[k]) && final(state)@ == focused_on(old(state)@, ids[k], clip),
                None => r is None && final(state)@ == old(state)@,
            }
        }),
{
    if focus_locked_by_fullscreen(state) {
        return None;
    }
    step_focus_in_tiled_order(state, forward, true, clip)
}

/// Directional focus walks the monocle stack: the workspace on screen is Monocle and focus is on a
/// live tiled pane, or there is no focus and some tiled pane.
pub open spec fn monocle_order_applies(s: StateView) -> bool {
    let ws = s.active_ws();
    ws.layout_kind == LayoutKind::Monocle && match s.focused() {
        Some(f) => is_live_tiled(ws.panes, f),
        None => tiled_order(ws).len() > 0,
    }
}

/// Whether directional focus should walk the monocle stack instead of scoring geometry.
pub fn monocle_order_focus_applies(state: &State) -> (r: bool)
    requires
        state.wf(),
    ensures
        r == monocle_order_applies(state@),
{
    let ws = state.active_workspace_ref();
    if ws.layout_kind != LayoutKind::Monocle {
        return false;
    }
    match state.focused_pane() {
        Some(focused) => pane_is_live_tiled(&ws.panes, focused),
        None => tiled_ids(ws).len() > 0,
    }
}

/// Right and Down advance through the monocle stack, Left and Up step back; the directional hint
/// is cleared after a move.
pub fn focus_in_monocle_order(
    state: &mut State,
    direction: Direction,
    wrap: bool,
    clip: Option<RevealClip>,
) -> (r: Option<PaneId>)
    requires
        old(state).wf(),
    ensures
        final(state).wf(),
        ({
            let forward = direction == Direction::Right || direction == Direction::Down;
            let ids = tiled_order(old(state)@.active_ws());
            match step_index(ids, old(state)@.focused(), forward, wrap) {
                Some(k) => r == Some(ids[k]) && ({
                    let f = focused_on(old(state)@, ids[k], clip);
                    final(state)@ == f.with_active_ws(
                        WorkspaceView { last_directional_focus: None, ..f.active_ws() },
                    )
                }),
                None => r is None && final(state)@ == old(state)@,
            }
        }),
{
    let forward = matches!(direction, Direction::Right | Direction::Down);
    let next = match step_focus_in_tiled_order(state, forward, wrap, clip) {
        Some(n) => n,
        None => return None,
    };
    let ws = state.active_workspace_mut();
    ws.last_directional_focus = None;
    Some(next)
}

/// The neighbour a closing Scrollable tile hands focus to: the next tile in order, else the
/// previous one.
pub open spec fn close_neighbor(ws: WorkspaceView, id: PaneId) -> Option<PaneId> {
    let tiled = tiled_order(ws);
    if ws.layout_kind != LayoutKind::Scrollable {
        None
    } else {
        match position_in(tiled, id) {
            None => None,
            Some(i) => if i + 1 < tiled.len() {
                Some(tiled[i + 1])
            } else if i > 0 {
                Some(tiled[i - 1])
            } else {
                None
            },
        }
    }
}

/// Choose the next/right or previous/left neighbour of a closing Scrollable tile. Call this before
/// the pane is marked closing, while the tiled order still describes the pre-close strip.
pub fn scrollable_close_neighbor(workspace: &Workspace, id: PaneId) -> (r: Option<PaneId>)
    ensures
        r == close_neighbor(workspace@, id),
{
    if workspace.layout_kind != LayoutKind::Scrollable {
        return None;
    }
    let tiled = tiled_ids(workspace);
    let index = match position_in_order(&tiled, id) {
        Some(i) => i,
        None => return None,
    };
    if index < tiled.len() - 1 {
        Some(tiled[index + 1])
    } else if index > 0 {
        Some(tiled[index - 1])
    } else {
        None
    }
}

/// The entry sibling a reverse move returns to: the directional hint recorded on `focused`, when
/// moving opposite the direction it came in by and its origin is still a candidate.
pub open spec fn remembered_target(
    hint: Option<DirectionalFocusHint>,
    candidates: Seq<PaneId>,
    focused: PaneId,
    direction: Direction,
) -> Option<PaneId> {
    match hint {
        Some(h) => if h.pane == focused && direction == opposite(h.entry_direction)
            && candidates.contains(h.target) {
            Some(h.target)
        } else {
            None
        },
        None => None,
    }
}

/// Only reversing a directional move restores the exact sibling it came from.
pub fn remembered_focus_target(
    workspace: &Workspace,
    candidates: &Vec<PaneId>,
    focused: PaneId,
    direction: Direction,
) -> (r: Option<PaneId>)
    ensures
        r == remembered_target(workspace.last_directional_focus, candidates@, focused, direction),
{
    let hint = match workspace.last_directional_focus {
        Some(h) => h,
        None => return None,
    };
    if hint.pane == focused && direction == opposite_direction(hint.entry_direction)
        && position_in_order(candidates, hint.target).is_some() {
        Some(hint.target)
    } else {
        None
    }
}

/// Stepping forward and then back along an order with no repeated pane returns to where focus
/// started.
pub proof fn lemma_step_round_trip(ids: Seq<PaneId>, i: int, wrap: bool)
    requires
        0 <= i < ids.len(),
        ids.no_duplicates(),
        step_index(ids, Some(ids[i]), true, wrap) is Some,
    ensures
        ({
            let j = step_index(ids, Some(ids[i]), true, wrap)->0;
            step_index(ids, Some(ids[j]), false, wrap) == Some(i)
        }),
{
    lemma_position_of_distinct(ids, i);
    let j = step_index(ids, Some(ids[i]), true, wrap)->0;
    lemma_position_of_distinct(ids, j);
}

/// In an order with no repeated pane, the position of the pane at `i` is `i`.
pub proof fn lemma_position_of_distinct(ids: Seq<PaneId>, i: int)
    requires
        0 <= i < ids.len(),
        ids.no_duplicates(),
    ensures
        position_in(ids, ids[i]) == Some(i),
{
    assert(ids.contains(ids[i]));
    assert(first_pos(ids, ids[i], i));
    let k = choose|k: int| first_pos(ids, ids[i], k);
    lemma_first_pos_unique(ids, ids[i], i, k);
}

} // verus!

verus! {

/// The id the popup pane reserves; it is never a workspace pane to jump to.
pub const POPUP_PANE_ID: PaneId = 18446744073709551615;

/// The live non-popup panes of `panes`, in order.
pub open spec fn jump_candidates(panes: Seq<Pane>) -> Seq<Pane>
    decreases panes.len(),
{
    if panes.len() == 0 {
        Seq::empty()
    } else {
        let rest = jump_candidates(panes.drop_last());
        let p = panes.last();
        if !p.closing && p.id != POPUP_PANE_ID {
            rest.push(p)
        } else {
            rest
        }
    }
}

/// The live non-popup panes of every workspace, in workspace order.
pub open spec fn all_jump_candidates(workspaces: Seq<WorkspaceView>) -> Seq<Pane>
    decreases workspaces.len(),
{
    if workspaces.len() == 0 {
        Seq::empty()
    } else {
        all_jump_candidates(workspaces.drop_last()) + jump_candidates(workspaces.last().panes)
    }
}

/// The first pane, scanning `panes` cyclically from `start + k`, that waits for input and is not
/// the focused pane.
pub open spec fn scan_blocked(panes: Seq<Pane>, start: int, focused: Option<PaneId>, k: int) -> Option<PaneId>
    decreases panes.len() - k,
{
    if k < 0 || k >= panes.len() {
        None
    } else {
        let p = panes[(start + k) % (panes.len() as int)];
        if Some(p.id) != focused && p.awaits_input {
            Some(p.id)
        } else {
            scan_blocked(panes, start, focused, k + 1)
        }
    }
}

/// Where the scan for a blocked pane starts: just after the focused pane, else at the first.
pub open spec fn blocked_scan_start(panes: Seq<Pane>, focused: Option<PaneId>) -> int {
    match focused {
        Some(f) => match position_in(panes.map_values(|p: Pane| p.id), f) {
            Some(i) => i + 1,
            None => 0,
        },
        None => 0,
    }
}

/// The next blocked pane after the focused one, in workspace and pane order, wrapping around.
pub open spec fn next_blocked(s: StateView) -> Option<PaneId> {
    let panes = all_jump_candidates(s.workspaces);
    if panes.len() == 0 {
        None
    } else {
        scan_blocked(panes, blocked_scan_start(panes, s.focused_pane), s.focused_pane, 0)
    }
}

proof fn lemma_take_succ<A>(s: Seq<A>, i: int)
    requires
        0 <= i < s.len(),
    ensures
        s.take(i + 1).drop_last() == s.take(i),
        s.take(i + 1).last() == s[i],
{
    assert(s.take(i + 1).drop_last() =~= s.take(i));
}

proof fn lemma_concat_push<A>(a: Seq<A>, b: Seq<A>, x: A)
    ensures
        a + b.push(x) == (a + b).push(x),
{
    assert(a + b.push(x) =~= (a + b).push(x));
}

/// Find the next blocked live workspace pane in workspace and pane order. The focused pane is
/// skipped, so a sole blocked focus finds nothing; with no focus in the list, the scan starts at
/// the first pane.
pub fn next_blocked_pane(state: &State) -> (r: Option<PaneId>)
    ensures
        r == next_blocked(state@),
{
    let ghost wss = state@.workspaces;
    let mut panes: Vec<Pane> = Vec::new();
    let mut w: usize = 0;
    while w < state.session.workspaces.len()
        invariant
            wss == state@.workspaces,
            w <= state.session.workspaces.len(),
            panes@ == all_jump_candidates(wss.take(w as int)),
        decreases state.session.workspaces.len() - w,
    {
        let ws = &state.session.workspaces[w];
        let ghost base = panes@;
        let mut i: usize = 0;
        while i < ws.panes.len()
            invariant
                ws@ == wss[w as int],
                i <= ws.panes.len(),
                panes@ == base + jump_candidates(ws.panes@.take(i as int)),
            decreases ws.panes.len() - i,
        {
            let p = ws.panes[i];
            proof {
                lemma_take_succ(ws.panes@, i as int);
                lemma_concat_push(base, jump_candidates(ws.panes@.take(i as int)), p);
            }
            if !p.closing && p.id != POPUP_PANE_ID {
                panes.push(p);
            }
            i = i + 1;
        }
        proof {
            assert(ws.panes@.take(ws.panes@.len() as int) =~= ws.panes@);
            lemma_take_succ(wss, w as int);
        }
        w = w + 1;
    }
    assert(wss.take(wss.len() as int) =~= wss);
    if panes.len() == 0 {
        return None;
    }
    let focused = state.session.focused_pane;
    let mut ids: Vec<PaneId> = Vec::new();
    let mut j: usize = 0;
    while j < panes.len()
        invariant
            j <= panes.len(),
            ids@ == panes@.take(j as int).map_values(|p: Pane| p.id),
        decreases panes.len() - j,
    {
        proof {
            lemma_take_succ(panes@, j as int);
            assert(panes@.take(j as int + 1).map_values(|p: Pane| p.id) =~= panes@.take(j as int).map_values(|p: Pane| p.id).push(panes@[j as int].id));
        }
        ids.push(panes[j].id);
        j = j + 1;
    }
    assert(panes@.take(panes@.len() as int) =~= panes@);
    let start: usize = match focused {
        Some(f) => match position_in_order(&ids, f) {
            Some(i) => i + 1,
            None => 0,
        },
        None => 0,
    };
    assert(start == blocked_scan_start(panes@, focused));
    let n = panes.len();
    let mut k: usize = 0;
    while k < n
        invariant
            n == panes@.len(),
            n > 0,
            k <= n,
            start <= n,
            panes@ == all_jump_candidates(state@.workspaces),
            focused == state@.focused_pane,
            start == blocked_scan_start(panes@, focused),
            scan_blocked(panes@, start as int, focused, 0) == scan_blocked(panes@, start as int, focused, k as int),
        decreases n - k,
    {
        let idx: usize = if k < n - start {
            start + k
        } else {
            k - (n - start)
        };
        proof {
            if k < n - start {
                assert((start + k) as int % (n as int) == (start + k) as int) by (nonlinear_arith)
                    requires
                        0 <= start + k < n,
                ;
            } else {
                assert((start + k) as int % (n as int) == (start + k - n) as int) by (nonlinear_arith)
                    requires
                        n <= start + k < 2 * n,
                ;
            }
        }
        let p = panes[idx];
        if Some(p.id) != focused && p.awaits_input {
            return Some(p.id);
        }
        k = k + 1;
    }
    None
}

} // verus!

verus! {

/// `tree` with the leaves `a` and `b` exchanged.
pub open spec fn leaves_swapped(tree: Seq<PaneId>, a: PaneId, b: PaneId) -> Seq<PaneId> {
    let i = position_in(tree, a)->0;
    let j = position_in(tree, b)->0;
    tree.update(i, b).update(j, a)
}

/// Exchange the leaves `a` and `b` of a tiling tree; whether both were leaves.
pub fn swap_tree_leaves(tree: &mut Vec<PaneId>, a: PaneId, b: PaneId) -> (r: bool)
    ensures
        r == (old(tree)@.contains(a) && old(tree)@.contains(b)),
        r ==> final(tree)@ == leaves_swapped(old(tree)@, a, b),
        !r ==> final(tree)@ == old(tree)@,
{
    let i = match position_in_order(tree, a) {
        Some(i) => i,
        None => return false,
    };
    let j = match position_in_order(tree, b) {
        Some(j) => j,
        None => return false,
    };
    tree.set(i, b);
    tree.set(j, a);
    true
}

/// Promoting the focused pane can happen: focus is on a tiled pane that is not the master and not
/// fullscreen.
pub open spec fn can_promote(s: StateView) -> bool {
    let ws = s.active_ws();
    let ids = tiled_order(ws);
    s.focused() is Some && !is_live_fullscreen(ws.panes, s.focused()->0) && ids.len() > 0
        && ids[0] != s.focused()->0 && ids.contains(s.focused()->0)
}

/// The state after the focused pane swaps places with the master pane.
pub open spec fn promoted(s: StateView, clip: Option<RevealClip>) -> StateView {
    let ws = s.active_ws();
    let f = s.focused()->0;
    let master = tiled_order(ws)[0];
    let tree = effective_order(ws);
    let s2 = s.with_active_ws(
        WorkspaceView {
            tile_tree: Some(leaves_swapped(tree, f, master)),
            focused_pane: Some(f),
            last_move_swap: None,
            last_directional_focus: None,
            ..ws
        },
    ).with_focused(Some(f));
    reveal_synced(s2, f, false, clip)
}

/// Swap the focused pane into the master slot (the first tiled pane). Returns whether a swap
/// happened; without one nothing changes, except that a tiling tree not yet stored is
/// materialized once the focus qualifies.
pub fn promote_focused_to_master(state: &mut State, clip: Option<RevealClip>) -> (r: bool)
    requires
        old(state).wf(),
    ensures
        final(state).wf(),
        !can_promote(old(state)@) ==> !r && final(state)@ == old(state)@,
        can_promote(old(state)@) ==> ({
            let ws = old(state)@.active_ws();
            let f = old(state)@.focused()->0;
            let master = tiled_order(ws)[0];
            let tree = effective_order(ws);
            let swappable = tree.contains(f) && tree.contains(master);
            &&& r == swappable
            &&& swappable ==> final(state)@ == promoted(old(state)@, clip)
            &&& !swappable ==> final(state)@ == old(state)@.with_active_ws(
                WorkspaceView { tile_tree: Some(tree), ..ws },
            )
        }),
{
    let focused = match state.focused_pane() {
        Some(f) => f,
        None => return false,
    };
    if active_pane_is_fullscreen(state, focused) {
        return false;
    }
    let ids = tiled_ids(state.active_workspace_ref());
    if ids.len() == 0 {
        return false;
    }
    let master = ids[0];
    if master == focused || position_in_order(&ids, focused).is_none() {
        return false;
    }
    let ghost s0 = state@;
    let ws = state.active_workspace_mut();
    let mut tree = effective_tile_tree(ws);
    let swapped = swap_tree_leaves(&mut tree, focused, master);
    ws.tile_tree = Some(tree);
    if !swapped {
        return false;
    }
    state.set_focused_pane(Some(focused));
    let ws = state.active_workspace_mut();
    ws.focused_pane = Some(focused);
    ws.last_move_swap = None;
    ws.last_directional_focus = None;
    proof {
        let ws0 = s0.active_ws();
        let pre = s0.with_active_ws(
            WorkspaceView {
                tile_tree: Some(leaves_swapped(effective_order(ws0), focused, master)),
                focused_pane: Some(focused),
                last_move_swap: None,
                last_directional_focus: None,
                ..ws0
            },
        ).with_focused(Some(focused));
        assert(state@.workspaces =~= pre.workspaces);
        assert(state@ == pre);
    }
    sync_scrollable_reveal(state, focused, false, clip);
    true
}

} // verus!

verus! {

/// `j` is the first workspace holding a live pane `id`.
pub open spec fn home_at(workspaces: Seq<WorkspaceView>, id: PaneId, j: int) -> bool {
    &&& 0 <= j < workspaces.len()
    &&& is_live(workspaces[j].panes, id)
    &&& forall|k: int| 0 <= k < j ==> !is_live(#[trigger] workspaces[k].panes, id)
}

/// The first workspace holding a live pane `id`.
pub open spec fn home_workspace(workspaces: Seq<WorkspaceView>, id: PaneId) -> Option<int> {
    if exists|j: int| home_at(workspaces, id, j) {
        Some(choose|j: int| home_at(workspaces, id, j))
    } else {
        None
    }
}

proof fn lemma_home_unique(workspaces: Seq<WorkspaceView>, id: PaneId, i: int, k: int)
    requires
        home_at(workspaces, id, i),
        home_at(workspaces, id, k),
    ensures
        i == k,
{
    if i < k {
        assert(!is_live(workspaces[i].panes, id));
    } else if k < i {
        assert(!is_live(workspaces[k].panes, id));
    }
}

/// The first workspace holding a live pane `id`.
pub fn find_home_workspace(state: &State, id: PaneId) -> (r: Option<usize>)
    ensures
        match r {
            Some(j) => home_workspace(state@.workspaces, id) == Some(j as int) && j
                < state.session.workspaces.len(),
            None => home_workspace(state@.workspaces, id) is None,
        },
{
    let mut j: usize = 0;
    while j < state.session.workspaces.len()
        invariant
            j <= state.session.workspaces.len(),
            forall|k: int| 0 <= k < j ==> !is_live(#[trigger] state@.workspaces[k].panes, id),
        decreases state.session.workspaces.len() - j,
    {
        if pane_is_live(&state.session.workspaces[j].panes, id) {
            proof {
                assert(home_at(state@.workspaces, id, j as int));
                let k = choose|j: int| home_at(state@.workspaces, id, j);
                lemma_home_unique(state@.workspaces, id, j as int, k);
            }
            return Some(j);
        }
        j = j + 1;
    }
    proof {
        if exists|m: int| home_at(state@.workspaces, id, m) {
            let m = choose|m: int| home_at(state@.workspaces, id, m);
            assert(!is_live(state@.workspaces[m].panes, id));
        }
    }
    None
}

/// The state after focusing live workspace pane `target` wherever it is: its workspace is shown
/// first when it is another one, and a cross-workspace jump stays instant.
pub open spec fn focused_anywhere(s: StateView, target: PaneId, probe: LayoutProbe) -> StateView {
    let j = home_workspace(s.workspaces, target)->0;
    let cross = j != s.active_workspace;
    let s1 = if cross {
        crate::workspace::switched(s, j as usize, probe)
    } else {
        s
    };
    let s2 = focused_on(s1, target, probe.reveal_clip);
    if cross {
        StateView { animation: GeometryAnimation::Immediate, ..s2 }
    } else {
        s2
    }
}

/// Focus a live workspace pane regardless of which workspace currently owns the view. Returns
/// whether there was such a pane.
pub fn focus_pane_anywhere(state: &mut State, target: PaneId, probe: LayoutProbe) -> (r: bool)
    requires
        old(state).wf(),
    ensures
        final(state).wf(),
        r == home_workspace(old(state)@.workspaces, target) is Some,
        r ==> final(state)@ == focused_anywhere(old(state)@, target, probe),
        !r ==> final(state)@ == old(state)@,
{
    let workspace_index = match find_home_workspace(state, target) {
        Some(j) => j,
        None => return false,
    };
    let cross = workspace_index != state.session.active_workspace;
    if cross {
        crate::workspace::switch_workspace(state, workspace_index, probe);
    }
    focus_pane(state, target, probe.reveal_clip);
    if cross {
        state.animation = GeometryAnimation::Immediate;
    }
    true
}

/// Hover focus may move: the pointer is over a live pane of the workspace on screen that is not
/// already focused, focus-on-hover is enabled, and the keyboard is not held by the app (the
/// sidebar, or a non-normal mode).
pub open spec fn hover_moves_focus(s: StateView, id: PaneId, focus_on_hover: bool, keyboard_owned: bool) -> bool {
    focus_on_hover && !keyboard_owned && s.focused() != Some(id) && is_live(s.active_ws().panes, id)
}

/// Apply the focus-follows-mouse policy for a pane the pointer is over. Returns whether focus
/// moved (and a repaint is due).
pub fn hover_focus_pane(
    state: &mut State,
    id: PaneId,
    focus_on_hover: bool,
    keyboard_owned: bool,
    clip: Option<RevealClip>,
) -> (r: bool)
    requires
        old(state).wf(),
    ensures
        final(state).wf(),
        r == hover_moves_focus(old(state)@, id, focus_on_hover, keyboard_owned),
        r ==> final(state)@ == focused_on(old(state)@, id, clip),
        !r ==> final(state)@ == old(state)@,
{
    if !focus_on_hover || keyboard_owned {
        return false;
    }
    if state.focused_pane() == Some(id) {
        return false;
    }
    if !pane_is_live(&state.active_workspace_ref().panes, id) {
        return false;
    }
    focus_pane(state, id, clip);
    true
}

} // verus!

verus! {

/// What the caller's layout code measured, in floating point, for a directional focus move on the
/// workspace on screen.
#[derive(Clone, Debug)]
pub struct DirectionalProbe {
    /// The live panes that have a placement, in pane order.
    pub candidates: Vec<PaneId>,
    /// The best-scored pane ahead of the focused one across an overlapping band, if any.
    pub ahead: Option<PaneId>,
    /// The pane an edge wrap would land on, if any.
    pub wrapped: Option<PaneId>,
    /// Between a remembered entry sibling and a different geometric choice, whether the
    /// remembered one is the nearer on the cross axis (and the geometric one no truer neighbour).
    pub prefer_remembered: bool,
    /// Where the chosen pane sits in a rendered Scrollable strip.
    pub clip: Option<RevealClip>,
}

/// Across a strip layout's single axis no tile sits ahead of another.
pub open spec fn strip_cross(kind: LayoutKind, direction: Direction) -> bool {
    ((kind == LayoutKind::Columns || kind == LayoutKind::Scrollable) && (direction == Direction::Up
        || direction == Direction::Down)) || (kind == LayoutKind::Rows && (direction == Direction::Left
        || direction == Direction::Right))
}

/// Whether an edge wrap may be tried: not from a tile across a strip layout's axis, where every
/// tile would rank the same.
pub open spec fn wrap_allowed(ws: WorkspaceView, focused: PaneId, direction: Direction, wrap: bool) -> bool {
    wrap && !(strip_cross(ws.layout_kind, direction) && is_live_tiled(ws.panes, focused))
}

/// Between the remembered entry sibling and the geometric choice: either alone wins, and when
/// they differ the caller's measurement decides.
pub open spec fn aligned_choice(
    remembered: Option<PaneId>,
    geometric: Option<PaneId>,
    prefer_remembered: bool,
) -> Option<PaneId> {
    match geometric {
        None => remembered,
        Some(g) => match remembered {
            None => Some(g),
            Some(m) => if m == g || !prefer_remembered {
                Some(g)
            } else {
                Some(m)
            },
        },
    }
}

/// The state with the directional hint that `next` was entered from `from` going `direction`.
pub open spec fn hinted(s: StateView, next: PaneId, direction: Direction, from: PaneId) -> StateView {
    s.with_active_ws(
        WorkspaceView {
            last_directional_focus: Some(
                DirectionalFocusHint { pane: next, entry_direction: direction, target: from },
            ),
            ..s.active_ws()
        },
    )
}

/// Where a monocle-order move goes, and the state after it.
pub open spec fn monocle_step(s: StateView, direction: Direction, wrap: bool, clip: Option<RevealClip>) -> (
    Option<PaneId>,
    StateView,
) {
    let forward = direction == Direction::Right || direction == Direction::Down;
    let ids = tiled_order(s.active_ws());
    match step_index(ids, s.focused(), forward, wrap) {
        Some(k) => {
            let f = focused_on(s, ids[k], clip);
            (Some(ids[k]), f.with_active_ws(WorkspaceView { last_directional_focus: None, ..f.active_ws() }))
        },
        None => (None, s),
    }
}

/// Where directional focus goes and the state after it. Focus pinned by a fullscreen pane does
/// not move; a monocle stack is walked in order; with no candidate focus is cleared; a focus
/// outside the candidates lands on the first; otherwise the geometric choice (with the wrap when
/// allowed) is weighed against the remembered entry sibling, and the move records its hint.
pub open spec fn directional_focus(
    s: StateView,
    direction: Direction,
    wrap: bool,
    candidates: Seq<PaneId>,
    ahead: Option<PaneId>,
    wrapped: Option<PaneId>,
    prefer_remembered: bool,
    clip: Option<RevealClip>,
) -> (Option<PaneId>, StateView) {
    if locked_by_fullscreen(s) {
        (None, s)
    } else if monocle_order_applies(s) {
        monocle_step(s, direction, wrap, clip)
    } else if candidates.len() == 0 {
        (None, s.with_focused(None))
    } else {
        let ws = s.active_ws();
        let focused = match s.focused() {
            Some(f) => f,
            None => candidates[0],
        };
        if !candidates.contains(focused) {
            (Some(candidates[0]), focused_on(s, candidates[0], clip))
        } else {
            let geometric = match ahead {
                Some(a) => Some(a),
                None => if wrap_allowed(ws, focused, direction, wrap) {
                    wrapped
                } else {
                    None
                },
            };
            let remembered = remembered_target(ws.last_directional_focus, candidates, focused, direction);
            match aligned_choice(remembered, geometric, prefer_remembered) {
                Some(n) => (Some(n), hinted(focused_on(s, n, clip), n, direction, focused)),
                None => (None, s),
            }
        }
    }
}

/// Prefer the remembered entry sibling over the geometric choice as the caller measured.
pub fn prefer_aligned_focus_target(
    remembered: Option<PaneId>,
    geometric: Option<PaneId>,
    prefer_remembered: bool,
) -> (r: Option<PaneId>)
    ensures
        r == aligned_choice(remembered, geometric, prefer_remembered),
{
    let geometric = match geometric {
        Some(g) => g,
        None => return remembered,
    };
    let remembered = match remembered {
        Some(m) => m,
        None => return Some(geometric),
    };
    if remembered == geometric || !prefer_remembered {
        Some(geometric)
    } else {
        Some(remembered)
    }
}

/// Move focus from the focused pane in `direction`, wrapping at the edge when `wrap` is set and
/// the layout allows it. Returns the pane focused, if focus moved there.
pub fn focus_in_direction_with_wrap(
    state: &mut State,
    direction: Direction,
    wrap: bool,
    probe: &DirectionalProbe,
) -> (r: Option<PaneId>)
    requires
        old(state).wf(),
    ensures
        final(state).wf(),
        (r, final(state)@) == directional_focus(
            old(state)@,
            direction,
            wrap,
            probe.candidates@,
            probe.ahead,
            probe.wrapped,
            probe.prefer_remembered,
            probe.clip,
        ),
{
    if focus_locked_by_fullscreen(state) {
        return None;
    }
    if monocle_order_focus_applies(state) {
        return focus_in_monocle_order(state, direction, wrap, probe.clip);
    }
    let candidates = &probe.candidates;
    if candidates.len() == 0 {
        state.set_focused_pane(None);
        return None;
    }
    let focused = match state.focused_pane() {
        Some(f) => f,
        None => candidates[0],
    };
    if position_in_order(candidates, focused).is_none() {
        let first = candidates[0];
        focus_pane(state, first, probe.clip);
        return Some(first);
    }
    let ws = state.active_workspace_ref();
    let wrap = wrap && !(strip_layout_cross_axis(ws.layout_kind, direction) && pane_is_live_tiled(
        &ws.panes,
        focused,
    ));
    let geometric = match probe.ahead {
        Some(a) => Some(a),
        None => if wrap {
            probe.wrapped
        } else {
            None
        },
    };
    let remembered = remembered_focus_target(ws, candidates, focused, direction);
    let next = match prefer_aligned_focus_target(remembered, geometric, probe.prefer_remembered) {
        Some(n) => n,
        None => return None,
    };
    focus_pane(state, next, probe.clip);
    let ws = state.active_workspace_mut();
    ws.last_directional_focus = Some(
        DirectionalFocusHint { pane: next, entry_direction: direction, target: focused },
    );
    Some(next)
}

/// Directional focus that wraps at the edges.
pub fn focus_in_direction(state: &mut State, direction: Direction, probe: &DirectionalProbe) -> (r: Option<PaneId>)
    requires
        old(state).wf(),
    ensures
        final(state).wf(),
        (r, final(state)@) == directional_focus(
            old(state)@,
            direction,
            true,
            probe.candidates@,
            probe.ahead,
            probe.wrapped,
            probe.prefer_remembered,
            probe.clip,
        ),
{
    focus_in_direction_with_wrap(state, direction, true, probe)
}

/// Directional focus that stops at the edges.
pub fn focus_in_direction_no_wrap(state: &mut State, direction: Direction, probe: &DirectionalProbe) -> (r: Option<
    PaneId,
>)
    requires
        old(state).wf(),
    ensures
        final(state).wf(),
        (r, final(state)@) == directional_focus(
            old(state)@,
            direction,
            false,
            probe.candidates@,
            probe.ahead,
            probe.wrapped,
            probe.prefer_remembered,
            probe.clip,
        ),
{
    focus_in_direction_with_wrap(state, direction, false, probe)
}

} // verus!

verus! {

/// Reversing a directional move goes back to the pane it came from, unless geometry finds a
/// different pane in the way that is the truer neighbour.
pub proof fn lemma_reverse_move_returns(
    s: StateView,
    from: PaneId,
    to: PaneId,
    direction: Direction,
    candidates: Seq<PaneId>,
    geometric: Option<PaneId>,
    prefer_remembered: bool,
)
    requires
        candidates.contains(from),
        geometric is None || geometric == Some(from) || prefer_remembered,
    ensures
        ({
            let hint = Some(DirectionalFocusHint { pane: to, entry_direction: direction, target: from });
            let back = opposite(direction);
            &&& remembered_target(hint, candidates, to, back) == Some(from)
            &&& aligned_choice(remembered_target(hint, candidates, to, back), geometric, prefer_remembered) == Some(from)
        }),
{
    assert(opposite(opposite(direction)) == direction);
}

} // verus!

verus! {

/// When neither the focused pane nor the workspace's remembered focus is live any more, focus goes
/// to the pane the layout measured nearest the reference pane, provided the reference is a pane of
/// the workspace on screen and the nearest one is another live pane of it; both the surface's focus
/// and the workspace's remembered focus then name it.
pub proof fn lemma_fallback_lands_on_the_nearest_pane(
    s: StateView,
    reference: PaneId,
    nearest: PaneId,
)
    requires
        s.scratch_visible || s.active_workspace < s.workspaces.len(),
        !(s.focused() is Some && is_live(s.active_ws().panes, s.focused()->0)),
        !(s.active_ws().focused_pane is Some && is_live(s.active_ws().panes, s.active_ws().focused_pane->0)),
        has_pane(s.active_ws().panes, reference),
        nearest != reference,
        is_live(s.active_ws().panes, nearest),
    ensures
        after_fallback(s, Some(reference), Some(nearest)).focused() == Some(nearest),
        after_fallback(s, Some(reference), Some(nearest)).active_ws().focused_pane == Some(nearest),
{
    reveal(after_fallback);
}

} // verus!

verus! {

/// Focus stays where it is while the focused pane is live, and otherwise goes back to the
/// workspace's remembered focus while that is live, whatever the layout measured.
pub proof fn lemma_fallback_keeps_a_live_focus(s: StateView, reference: Option<PaneId>, nearest: Option<PaneId>)
    requires
        s.scratch_visible || s.active_workspace < s.workspaces.len(),
    ensures
        s.focused() is Some && is_live(s.active_ws().panes, s.focused()->0) ==> after_fallback(
            s,
            reference,
            nearest,
        ).focused() == s.focused(),
        !(s.focused() is Some && is_live(s.active_ws().panes, s.focused()->0)) && s.active_ws().focused_pane is Some
            && is_live(s.active_ws().panes, s.active_ws().focused_pane->0) ==> after_fallback(
            s,
            reference,
            nearest,
        ).focused() == s.active_ws().focused_pane,
{
    reveal(after_fallback);
}

} // verus!
