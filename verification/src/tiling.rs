//! The tiling order of a workspace: the leaves of its tiling tree, and the live tiled panes in
//! that order.

use vstd::prelude::*;

use crate::model::{is_live_tiled, pane_is_live_tiled, Pane, PaneId, Workspace, WorkspaceView};

verus! {

/// The ids of `order` that name live tiled panes of `panes`, in order.
pub open spec fn tiled_of_order(order: Seq<PaneId>, panes: Seq<Pane>) -> Seq<PaneId>
    decreases order.len(),
{
    if order.len() == 0 {
        Seq::empty()
    } else {
        let rest = tiled_of_order(order.drop_last(), panes);
        if is_live_tiled(panes, order.last()) {
            rest.push(order.last())
        } else {
            rest
        }
    }
}

/// The ids of the live tiled panes of `panes`, in pane order.
pub open spec fn tiled_of_panes(panes: Seq<Pane>) -> Seq<PaneId>
    decreases panes.len(),
{
    if panes.len() == 0 {
        Seq::empty()
    } else {
        let rest = tiled_of_panes(panes.drop_last());
        if !panes.last().floating && !panes.last().closing {
            rest.push(panes.last().id)
        } else {
            rest
        }
    }
}

/// The tiling tree a workspace lays out with: the stored one, or one built from its live tiled
/// panes when none is stored yet.
pub open spec fn effective_order(ws: WorkspaceView) -> Seq<PaneId> {
    match ws.tile_tree {
        Some(t) => t,
        None => tiled_of_panes(ws.panes),
    }
}

/// The live tiled panes of a workspace in tiling order.
pub open spec fn tiled_order(ws: WorkspaceView) -> Seq<PaneId> {
    match ws.tile_tree {
        Some(t) => tiled_of_order(t, ws.panes),
        None => tiled_of_panes(ws.panes),
    }
}

/// `order` without any occurrence of `id`.
pub open spec fn without(order: Seq<PaneId>, id: PaneId) -> Seq<PaneId>
    decreases order.len(),
{
    if order.len() == 0 {
        Seq::empty()
    } else {
        let rest = without(order.drop_last(), id);
        if order.last() != id {
            rest.push(order.last())
        } else {
            rest
        }
    }
}

/// `order` with `id` added at the end unless it is already a leaf.
pub open spec fn appended(order: Seq<PaneId>, id: PaneId) -> Seq<PaneId> {
    if order.contains(id) {
        order
    } else {
        order.push(id)
    }
}

/// Every pane of `panes` except `id` with fullscreen switched off.
pub open spec fn others_not_fullscreen(panes: Seq<Pane>, id: PaneId) -> Seq<Pane> {
    Seq::new(
        panes.len(),
        |i: int|
            if panes[i].id == id {
                panes[i]
            } else {
                Pane { fullscreen: false, ..panes[i] }
            },
    )
}

proof fn lemma_take_succ<A>(s: Seq<A>, i: int)
    requires
        0 <= i < s.len(),
    ensures
        s.take(i + 1).drop_last() == s.take(i),
        s.take(i + 1).last() == s[i],
{
    assert(s.take(i + 1).drop_last() =~= s.take(i));
}

/// The live tiled panes of `ws` in tiling order.
pub fn tiled_ids(ws: &Workspace) -> (r: Vec<PaneId>)
    ensures
        r@ == tiled_order(ws@),
{
    let mut out: Vec<PaneId> = Vec::new();
    match &ws.tile_tree {
        Some(t) => {
            let mut i: usize = 0;
            while i < t.len()
                invariant
                    ws.tile_tree == Some(*t),
                    i <= t.len(),
                    out@ == tiled_of_order(t@.take(i as int), ws.panes@),
                decreases t.len() - i,
            {
                let id = t[i];
                proof {
                    lemma_take_succ(t@, i as int);
                }
                if pane_is_live_tiled(&ws.panes, id) {
                    out.push(id);
                }
                i = i + 1;
            }
            assert(t@.take(t@.len() as int) =~= t@);
        },
        None => {
            let mut i: usize = 0;
            while i < ws.panes.len()
                invariant
                    i <= ws.panes.len(),
                    out@ == tiled_of_panes(ws.panes@.take(i as int)),
                decreases ws.panes.len() - i,
            {
                let p = ws.panes[i];
                proof {
                    lemma_take_succ(ws.panes@, i as int);
                }
                if !p.floating && !p.closing {
                    out.push(p.id);
                }
                i = i + 1;
            }
            assert(ws.panes@.take(ws.panes@.len() as int) =~= ws.panes@);
        },
    }
    out
}

/// Materialize the tiling tree: keep a stored one, or build it from the live tiled panes.
pub fn effective_tile_tree(ws: &Workspace) -> (r: Vec<PaneId>)
    ensures
        r@ == effective_order(ws@),
{
    match &ws.tile_tree {
        Some(t) => t.clone(),
        None => tiled_ids(ws),
    }
}

/// Whether `order` holds `id`.
pub fn order_contains(order: &Vec<PaneId>, id: PaneId) -> (r: bool)
    ensures
        r == order@.contains(id),
{
    let mut i: usize = 0;
    while i < order.len()
        invariant
            i <= order.len(),
            forall|j: int| 0 <= j < i ==> order@[j] != id,
        decreases order.len() - i,
    {
        if order[i] == id {
            assert(order@[i as int] == id);
            return true;
        }
        i = i + 1;
    }
    false
}

/// Add `id` as the last leaf of the workspace's tiling tree, materializing the tree first.
pub fn append_tiled_window(ws: &mut Workspace, id: PaneId)
    ensures
        final(ws)@ == (WorkspaceView {
            tile_tree: Some(appended(effective_order(old(ws)@), id)),
            ..old(ws)@
        }),
{
    let mut order = effective_tile_tree(ws);
    if !order_contains(&order, id) {
        order.push(id);
    }
    ws.tile_tree = Some(order);
}

/// Drop `id` from the workspace's tiling tree.
pub fn remove_tiled_window(ws: &mut Workspace, id: PaneId)
    ensures
        final(ws)@ == (WorkspaceView {
            tile_tree: match old(ws)@.tile_tree {
                Some(t) => Some(without(t, id)),
                None => None,
            },
            ..old(ws)@
        }),
{
    if let Some(t) = &ws.tile_tree {
        let mut out: Vec<PaneId> = Vec::new();
        let mut i: usize = 0;
        while i < t.len()
            invariant
                i <= t.len(),
                out@ == without(t@.take(i as int), id),
            decreases t.len() - i,
        {
            proof {
                lemma_take_succ(t@, i as int);
            }
            if t[i] != id {
                out.push(t[i]);
            }
            i = i + 1;
        }
        assert(t@.take(t@.len() as int) =~= t@);
        ws.tile_tree = Some(out);
    }
}

/// One fullscreen pane per workspace: switch fullscreen off on every pane but `id`.
pub fn clear_other_fullscreen(ws: &mut Workspace, id: PaneId)
    ensures
        final(ws)@ == (WorkspaceView { panes: others_not_fullscreen(old(ws)@.panes, id), ..old(ws)@ }),
{
    let mut i: usize = 0;
    let ghost original = ws.panes@;
    while i < ws.panes.len()
        invariant
            ws.panes@.len() == original.len(),
            i <= original.len(),
            forall|j: int| 0 <= j < i ==> #[trigger] ws.panes@[j] == others_not_fullscreen(original, id)[j],
            forall|j: int| i <= j < original.len() ==> #[trigger] ws.panes@[j] == original[j],
            ws.index == old(ws).index,
            ws.tile_tree == old(ws).tile_tree,
            ws.focused_pane == old(ws).focused_pane,
            ws.synchronized == old(ws).synchronized,
            ws.layout_kind == old(ws).layout_kind,
            ws.start_axis == old(ws).start_axis,
            ws.split_ratios == old(ws).split_ratios,
            ws.last_move_swap == old(ws).last_move_swap,
            ws.last_directional_focus == old(ws).last_directional_focus,
            ws.scrollable_anchor == old(ws).scrollable_anchor,
            ws.scrollable_reveal_edge == old(ws).scrollable_reveal_edge,
            ws.name == old(ws).name,
            original == old(ws).panes@,
        decreases original.len() - i,
    {
        if ws.panes[i].id != id {
            let mut p = ws.panes[i];
            p.fullscreen = false;
            ws.panes.set(i, p);
        }
        i = i + 1;
    }
    assert(ws.panes@ =~= others_not_fullscreen(original, id));
}

} // verus!
