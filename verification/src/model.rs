//! The multiplexer state the operations read and change: panes, workspaces, the session that
//! owns them, and the client state around it.

use vstd::prelude::*;

verus! {

/// Identifies a pane across every workspace of a session.
pub type PaneId = u64;

/// How a workspace arranges its tiled panes.
#[derive(Clone, Copy, Debug, PartialEq, Eq, Structural)]
pub enum LayoutKind {
    Columns,
    Rows,
    Grid,
    Dwindle,
    Master,
    Monocle,
    Scrollable,
}

/// A direction for focus moves.
#[derive(Clone, Copy, Debug, PartialEq, Eq, Structural)]
pub enum Direction {
    Left,
    Right,
    Up,
    Down,
}

/// The axis a split divides along.
#[derive(Clone, Copy, Debug, PartialEq, Eq, Structural)]
pub enum SplitAxis {
    Horizontal,
    Vertical,
}

/// Which edge of the visible strip a Scrollable workspace keeps its anchor pane against.
#[derive(Clone, Copy, Debug, PartialEq, Eq, Structural)]
pub enum RevealEdge {
    Left,
    Right,
}

/// The transition the renderer plays for the next geometry change.
#[derive(Clone, Copy, Debug, PartialEq, Eq, Structural)]
pub enum GeometryAnimation {
    /// Apply the change at once.
    Immediate,
    AxisChange,
    TileFloat,
}

/// A public event, in the order it was emitted, waiting for the hook dispatcher.
#[derive(Clone, Copy, Debug, PartialEq, Eq, Structural)]
pub enum Event {
    /// `workspace-switched`, carrying the one-based workspace number.
    WorkspaceSwitched { workspace: usize },
    /// `focus-changed`, carrying the newly focused pane.
    FocusChanged { pane: PaneId },
}

/// The pane a directional move landed on, the direction it came in by, and the pane it left.
#[derive(Clone, Copy, Debug, PartialEq, Eq, Structural)]
pub struct DirectionalFocusHint {
    pub pane: PaneId,
    pub entry_direction: Direction,
    pub target: PaneId,
}

/// One pane as the workspace operations see it.
#[derive(Clone, Copy, Debug, PartialEq, Eq, Structural)]
pub struct Pane {
    pub id: PaneId,
    pub floating: bool,
    pub fullscreen: bool,
    pub opening: bool,
    pub closing: bool,
    /// The pane's program is blocked waiting for the user.
    pub awaits_input: bool,
    pub has_unseen_output: bool,
    pub bell: bool,
    pub finished_unseen: bool,
}

/// One workspace: its panes, its tiling order and the per-workspace view state that travels with
/// its content.
pub struct Workspace {
    /// The slot this workspace occupies; it stays with the slot when content moves.
    pub index: usize,
    pub panes: Vec<Pane>,
    /// The tiling tree, held as the order of its leaves; `None` until it is first materialized.
    pub tile_tree: Option<Vec<PaneId>>,
    pub focused_pane: Option<PaneId>,
    pub synchronized: bool,
    pub layout_kind: LayoutKind,
    pub start_axis: SplitAxis,
    /// Split ratios in ten-thousandths.
    pub split_ratios: Vec<u32>,
    pub last_move_swap: Option<(PaneId, PaneId)>,
    pub last_directional_focus: Option<DirectionalFocusHint>,
    pub scrollable_anchor: Option<PaneId>,
    pub scrollable_reveal_edge: RevealEdge,
    pub name: Option<String>,
}

/// The mathematical content of a [`Workspace`].
pub struct WorkspaceView {
    pub index: usize,
    pub panes: Seq<Pane>,
    pub tile_tree: Option<Seq<PaneId>>,
    pub focused_pane: Option<PaneId>,
    pub synchronized: bool,
    pub layout_kind: LayoutKind,
    pub start_axis: SplitAxis,
    pub split_ratios: Seq<u32>,
    pub last_move_swap: Option<(PaneId, PaneId)>,
    pub last_directional_focus: Option<DirectionalFocusHint>,
    pub scrollable_anchor: Option<PaneId>,
    pub scrollable_reveal_edge: RevealEdge,
    pub name: Option<Seq<char>>,
}

pub open spec fn opt_seq_view(v: Option<Vec<PaneId>>) -> Option<Seq<PaneId>> {
    match v {
        Some(t) => Some(t@),
        None => None,
    }
}

pub open spec fn opt_string_view(v: Option<String>) -> Option<Seq<char>> {
    match v {
        Some(s) => Some(s@),
        None => None,
    }
}

impl View for Workspace {
    type V = WorkspaceView;

    open spec fn view(&self) -> WorkspaceView {
        WorkspaceView {
            index: self.index,
            panes: self.panes@,
            tile_tree: opt_seq_view(self.tile_tree),
            focused_pane: self.focused_pane,
            synchronized: self.synchronized,
            layout_kind: self.layout_kind,
            start_axis: self.start_axis,
            split_ratios: self.split_ratios@,
            last_move_swap: self.last_move_swap,
            last_directional_focus: self.last_directional_focus,
            scrollable_anchor: self.scrollable_anchor,
            scrollable_reveal_edge: self.scrollable_reveal_edge,
            name: opt_string_view(self.name),
        }
    }
}

/// The content of an empty workspace in slot `index`.
pub open spec fn empty_workspace(index: usize) -> WorkspaceView {
    WorkspaceView {
        index,
        panes: Seq::empty(),
        tile_tree: None,
        focused_pane: None,
        synchronized: false,
        layout_kind: LayoutKind::Dwindle,
        start_axis: SplitAxis::Horizontal,
        split_ratios: Seq::empty(),
        last_move_swap: None,
        last_directional_focus: None,
        scrollable_anchor: None,
        scrollable_reveal_edge: RevealEdge::Left,
        name: None,
    }
}

impl Workspace {
    /// An empty workspace for slot `index`.
    pub fn new(index: usize) -> (ws: Workspace)
        ensures
            ws@ == empty_workspace(index),
    {
        Workspace {
            index,
            panes: Vec::new(),
            tile_tree: None,
            focused_pane: None,
            synchronized: false,
            layout_kind: LayoutKind::Dwindle,
            start_axis: SplitAxis::Horizontal,
            split_ratios: Vec::new(),
            last_move_swap: None,
            last_directional_focus: None,
            scrollable_anchor: None,
            scrollable_reveal_edge: RevealEdge::Left,
            name: None,
        }
    }
}

/// The session on screen: its workspaces, which one is shown, and the focused pane.
pub struct Session {
    pub workspaces: Vec<Workspace>,
    pub active_workspace: usize,
    pub focused_pane: Option<PaneId>,
}

/// The client state the operations act on.
pub struct State {
    pub session: Session,
    /// The dropdown scratchpad, a workspace of its own outside the numbered ones.
    pub scratch: Workspace,
    pub scratch_visible: bool,
    pub window_focused: bool,
    pub animation: GeometryAnimation,
    /// Events emitted and not yet handed to the hook dispatcher.
    pub events: Vec<Event>,
}

/// The mathematical content of a [`State`].
pub struct StateView {
    pub workspaces: Seq<WorkspaceView>,
    pub active_workspace: usize,
    pub focused_pane: Option<PaneId>,
    pub scratch: WorkspaceView,
    pub scratch_visible: bool,
    pub window_focused: bool,
    pub animation: GeometryAnimation,
    pub events: Seq<Event>,
}

pub open spec fn views_of(workspaces: Seq<Workspace>) -> Seq<WorkspaceView> {
    workspaces.map_values(|w: Workspace| w@)
}

impl View for State {
    type V = StateView;

    open spec fn view(&self) -> StateView {
        StateView {
            workspaces: views_of(self.session.workspaces@),
            active_workspace: self.session.active_workspace,
            focused_pane: self.session.focused_pane,
            scratch: self.scratch@,
            scratch_visible: self.scratch_visible,
            window_focused: self.window_focused,
            animation: self.animation,
            events: self.events@,
        }
    }
}

impl StateView {
    pub open spec fn wf(self) -> bool {
        self.active_workspace < self.workspaces.len()
    }

    /// The workspace on screen: the scratchpad while it is shown, else the active workspace.
    pub open spec fn active_ws(self) -> WorkspaceView {
        if self.scratch_visible {
            self.scratch
        } else {
            self.workspaces[self.active_workspace as int]
        }
    }

    /// The focused pane of the surface on screen.
    pub open spec fn focused(self) -> Option<PaneId> {
        if self.scratch_visible {
            self.scratch.focused_pane
        } else {
            self.focused_pane
        }
    }

    /// This state with the workspace on screen replaced by `ws`.
    pub open spec fn with_active_ws(self, ws: WorkspaceView) -> StateView {
        if self.scratch_visible {
            StateView { scratch: ws, ..self }
        } else {
            StateView { workspaces: self.workspaces.update(self.active_workspace as int, ws), ..self }
        }
    }

    /// This state with the focus of the surface on screen set to `focus`.
    pub open spec fn with_focused(self, focus: Option<PaneId>) -> StateView {
        if self.scratch_visible {
            StateView { scratch: self.scratch.with_focus(focus), ..self }
        } else {
            StateView { focused_pane: focus, ..self }
        }
    }
}

/// Replacing one element of a vector of workspaces replaces its view.
pub broadcast proof fn lemma_views_of_update(ws: Seq<Workspace>, i: int, w: Workspace)
    requires
        0 <= i < ws.len(),
    ensures
        #[trigger] views_of(ws.update(i, w)) == views_of(ws).update(i, w@),
{
    assert(views_of(ws.update(i, w)) =~= views_of(ws).update(i, w@));
}

/// Replacing one element of a vector of workspaces replaces its view.
pub proof fn lemma_views_update(old_ws: Seq<Workspace>, new_ws: Seq<Workspace>, i: int, w: Workspace)
    requires
        0 <= i < old_ws.len(),
        new_ws == old_ws.update(i, w),
    ensures
        views_of(new_ws) == views_of(old_ws).update(i, w@),
{
    assert(views_of(new_ws) =~= views_of(old_ws).update(i, w@));
}

impl State {
    /// The active workspace index names a workspace.
    pub open spec fn wf(&self) -> bool {
        self.session.active_workspace < self.session.workspaces.len()
    }

    pub open spec fn workspace_views(&self) -> Seq<WorkspaceView> {
        self.session.workspaces@.map_values(|w: Workspace| w@)
    }

    /// The workspace on screen: the scratchpad while it is shown, else the active workspace.
    pub open spec fn active_ws(&self) -> WorkspaceView {
        if self.scratch_visible {
            self.scratch@
        } else {
            self.session.workspaces@[self.session.active_workspace as int]@
        }
    }

    /// The focused pane of the surface on screen.
    pub open spec fn focused(&self) -> Option<PaneId> {
        if self.scratch_visible {
            self.scratch.focused_pane
        } else {
            self.session.focused_pane
        }
    }

    pub fn focused_pane(&self) -> (r: Option<PaneId>)
        ensures
            r == self.focused(),
    {
        if self.scratch_visible {
            self.scratch.focused_pane
        } else {
            self.session.focused_pane
        }
    }

    /// Set the focus of the surface on screen.
    pub fn set_focused_pane(&mut self, focus: Option<PaneId>)
        ensures
            final(self)@ == old(self)@.with_focused(focus),
            final(self).session.workspaces == old(self).session.workspaces,
            final(self).session.active_workspace == old(self).session.active_workspace,
    {
        if self.scratch_visible {
            self.scratch.focused_pane = focus;
        } else {
            self.session.focused_pane = focus;
        }
    }

    /// Set the remembered focus of the workspace on screen.
    pub fn set_active_workspace_focus(&mut self, focus: Option<PaneId>)
        requires
            old(self).wf(),
        ensures
            final(self).session.active_workspace == old(self).session.active_workspace,
            final(self).session.workspaces.len() == old(self).session.workspaces.len(),
            final(self)@ == old(self)@.with_active_ws(old(self)@.active_ws().with_focus(focus)),
            final(self).wf(),
    {
        if self.scratch_visible {
            self.scratch.focused_pane = focus;
        } else {
            let a = self.session.active_workspace;
            let ghost before = self.session.workspaces@;
            self.session.workspaces[a].focused_pane = focus;
            proof {
                let w = self.session.workspaces@[a as int];
                assert(self.session.workspaces@ == before.update(a as int, w));
                lemma_views_update(before, self.session.workspaces@, a as int, w);
                assert(w@ == before[a as int]@.with_focus(focus));
            }
        }
    }

    /// The workspace on screen, to change in place.
    pub fn active_workspace_mut(&mut self) -> (r: &mut Workspace)
        requires
            old(self).wf(),
        ensures
            final(self).session.active_workspace == old(self).session.active_workspace,
            final(self).session.workspaces.len() == old(self).session.workspaces.len(),
            r@ == old(self)@.active_ws(),
            final(self)@ == old(self)@.with_active_ws(final(r)@),
            final(self).wf(),
    {
        if self.scratch_visible {
            &mut self.scratch
        } else {
            broadcast use lemma_views_of_update;

            let a = self.session.active_workspace;
            &mut self.session.workspaces[a]
        }
    }

    /// Workspace `index`, to change in place.
    pub fn workspace_mut(&mut self, index: usize) -> (r: &mut Workspace)
        requires
            index < old(self).session.workspaces.len(),
        ensures
            final(self).session.active_workspace == old(self).session.active_workspace,
            final(self).session.workspaces.len() == old(self).session.workspaces.len(),
            r@ == old(self)@.workspaces[index as int],
            final(self)@ == (StateView {
                workspaces: old(self)@.workspaces.update(index as int, final(r)@),
                ..old(self)@
            }),
            final(self).session.workspaces.len() == old(self).session.workspaces.len(),
    {
        broadcast use lemma_views_of_update;

        &mut self.session.workspaces[index]
    }

    /// The workspace on screen.
    pub fn active_workspace_ref(&self) -> (r: &Workspace)
        requires
            self.wf(),
        ensures
            r@ == self@.active_ws(),
    {
        if self.scratch_visible {
            &self.scratch
        } else {
            &self.session.workspaces[self.session.active_workspace]
        }
    }
}

impl WorkspaceView {
    pub open spec fn with_focus(self, focus: Option<PaneId>) -> WorkspaceView {
        WorkspaceView { focused_pane: focus, ..self }
    }
}

/// `panes` holds a pane with `id`.
pub open spec fn has_pane(panes: Seq<Pane>, id: PaneId) -> bool {
    exists|i: int| 0 <= i < panes.len() && #[trigger] panes[i].id == id
}

/// `panes` holds a pane with `id` that is not closing.
pub open spec fn is_live(panes: Seq<Pane>, id: PaneId) -> bool {
    exists|i: int| 0 <= i < panes.len() && #[trigger] panes[i].id == id && !panes[i].closing
}

/// `panes` holds a tiled pane with `id` that is not closing.
pub open spec fn is_live_tiled(panes: Seq<Pane>, id: PaneId) -> bool {
    exists|i: int|
        0 <= i < panes.len() && #[trigger] panes[i].id == id && !panes[i].closing
            && !panes[i].floating
}

/// `i` is the position of the first pane of `panes` that is not closing.
pub open spec fn first_live_at(panes: Seq<Pane>, i: int) -> bool {
    &&& 0 <= i < panes.len()
    &&& !panes[i].closing
    &&& forall|j: int| 0 <= j < i ==> #[trigger] panes[j].closing
}

/// The first pane of `panes` that is not closing.
pub open spec fn first_live(panes: Seq<Pane>) -> Option<PaneId> {
    if exists|i: int| first_live_at(panes, i) {
        Some(panes[choose|i: int| first_live_at(panes, i)].id)
    } else {
        None
    }
}

/// `i` is the position of the first pane with `id`.
pub open spec fn first_index_of(panes: Seq<Pane>, id: PaneId, i: int) -> bool {
    &&& 0 <= i < panes.len()
    &&& panes[i].id == id
    &&& forall|j: int| 0 <= j < i ==> #[trigger] panes[j].id != id
}

/// The position of the first pane with `id`.
pub open spec fn pane_position(panes: Seq<Pane>, id: PaneId) -> int {
    choose|i: int| first_index_of(panes, id, i)
}

pub proof fn lemma_first_index_unique(panes: Seq<Pane>, id: PaneId, i: int, k: int)
    requires
        first_index_of(panes, id, i),
        first_index_of(panes, id, k),
    ensures
        i == k,
{
    if i < k {
        assert(panes[i].id != id);
    } else if k < i {
        assert(panes[k].id != id);
    }
}

/// A pane with `id` means there is a first one.
pub proof fn lemma_has_first_index(panes: Seq<Pane>, id: PaneId, i: int)
    requires
        0 <= i < panes.len(),
        panes[i].id == id,
    ensures
        exists|k: int| first_index_of(panes, id, k),
    decreases i,
{
    if forall|j: int| 0 <= j < i ==> #[trigger] panes[j].id != id {
        assert(first_index_of(panes, id, i));
    } else {
        let j = choose|j: int| 0 <= j < i && #[trigger] panes[j].id == id;
        lemma_has_first_index(panes, id, j);
    }
}

pub proof fn lemma_first_live_at_unique(panes: Seq<Pane>, i: int, k: int)
    requires
        first_live_at(panes, i),
        first_live_at(panes, k),
    ensures
        i == k,
{
    if i < k {
        assert(panes[i].closing);
    } else if k < i {
        assert(panes[k].closing);
    }
}

/// Position of the first pane with `id`.
pub fn position_of(panes: &Vec<Pane>, id: PaneId) -> (r: Option<usize>)
    ensures
        match r {
            Some(i) => first_index_of(panes@, id, i as int) && i == pane_position(panes@, id)
                && has_pane(panes@, id),
            None => !has_pane(panes@, id),
        },
{
    let mut i: usize = 0;
    while i < panes.len()
        invariant
            i <= panes.len(),
            forall|j: int| 0 <= j < i ==> #[trigger] panes@[j].id != id,
        decreases panes.len() - i,
    {
        if panes[i].id == id {
            proof {
                assert(first_index_of(panes@, id, i as int));
                let k = choose|i: int| first_index_of(panes@, id, i);
                lemma_first_index_unique(panes@, id, i as int, k);
            }
            return Some(i);
        }
        i = i + 1;
    }
    None
}

/// Whether `panes` holds a pane with `id` that is not closing.
pub fn pane_is_live(panes: &Vec<Pane>, id: PaneId) -> (r: bool)
    ensures
        r == is_live(panes@, id),
{
    let mut i: usize = 0;
    while i < panes.len()
        invariant
            i <= panes.len(),
            forall|j: int| 0 <= j < i ==> !(#[trigger] panes@[j].id == id && !panes@[j].closing),
        decreases panes.len() - i,
    {
        if panes[i].id == id && !panes[i].closing {
            return true;
        }
        i = i + 1;
    }
    false
}

/// Whether `panes` holds a tiled pane with `id` that is not closing.
pub fn pane_is_live_tiled(panes: &Vec<Pane>, id: PaneId) -> (r: bool)
    ensures
        r == is_live_tiled(panes@, id),
{
    let mut i: usize = 0;
    while i < panes.len()
        invariant
            i <= panes.len(),
            forall|j: int|
                0 <= j < i ==> !(#[trigger] panes@[j].id == id && !panes@[j].closing
                    && !panes@[j].floating),
        decreases panes.len() - i,
    {
        if panes[i].id == id && !panes[i].closing && !panes[i].floating {
            return true;
        }
        i = i + 1;
    }
    false
}

/// The first pane of the workspace that is not closing.
pub fn first_visible_pane(workspace: &Workspace) -> (r: Option<PaneId>)
    ensures
        r == first_live(workspace.panes@),
{
    let panes = &workspace.panes;
    let mut i: usize = 0;
    while i < panes.len()
        invariant
            panes@ == workspace.panes@,
            i <= panes.len(),
            forall|j: int| 0 <= j < i ==> #[trigger] panes@[j].closing,
        decreases panes.len() - i,
    {
        if !panes[i].closing {
            let id = panes[i].id;
            proof {
                assert(first_live_at(panes@, i as int));
                assert(exists|m: int| first_live_at(panes@, m));
                let k = choose|i: int| first_live_at(panes@, i);
                lemma_first_live_at_unique(panes@, i as int, k);
                assert(first_live(panes@) == Some(panes@[i as int].id));

            }
            return Some(id);
        }
        i = i + 1;
    }
    None
}

/// Whether every pane of the workspace is closing (or there is none).
pub fn workspace_is_empty(workspace: &Workspace) -> (r: bool)
    ensures
        r == (forall|i: int| 0 <= i < workspace.panes@.len() ==> #[trigger] workspace.panes@[i].closing),
        r == (first_live(workspace.panes@) is None),
{
    let r = first_visible_pane(workspace).is_none();
    proof {
        if !r {
            let k = choose|k: int| first_live_at(workspace.panes@, k);
            assert(!workspace.panes@[k].closing);
        } else {
            assert forall|i: int| 0 <= i < workspace.panes@.len() implies #[trigger] workspace.panes@[i].closing by {
                if !workspace.panes@[i].closing {
                    // the first non-closing pane at or before i would be a witness
                    assert(!(exists|m: int| first_live_at(workspace.panes@, m)));
                    lemma_some_first_live(workspace.panes@, i);
                }
            }
        }
    }
    r
}

/// A pane that is not closing means there is a first one.
pub proof fn lemma_some_first_live(panes: Seq<Pane>, i: int)
    requires
        0 <= i < panes.len(),
        !panes[i].closing,
    ensures
        exists|k: int| first_live_at(panes, k),
    decreases i,
{
    if forall|j: int| 0 <= j < i ==> #[trigger] panes[j].closing {
        assert(first_live_at(panes, i));
    } else {
        let j = choose|j: int| 0 <= j < i && !(#[trigger] panes[j].closing);
        lemma_some_first_live(panes, j);
    }
}

} // verus!
