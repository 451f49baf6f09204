use hyprmux::focus::{
    acknowledge_pane_if_attended, acknowledge_pane_input, cycle_focus_in_tiled_order, focus_in_direction,
    focus_in_direction_no_wrap, focus_pane, next_blocked_pane, promote_focused_to_master,
    scrollable_close_neighbor, DirectionalProbe, LayoutProbe,
};
use hyprmux::model::{Direction, GeometryAnimation, LayoutKind, Pane, PaneId, Session, State, Workspace};
use hyprmux::tiling::{append_tiled_window, tiled_ids};
use hyprmux::workspace::{move_focused_to_workspace, relocate_active_workspace, switch_workspace, transfer_pane};

const WORKSPACES: usize = 9;

fn pane(id: PaneId) -> Pane {
    Pane {
        id,
        floating: false,
        fullscreen: false,
        opening: false,
        closing: false,
        awaits_input: false,
        has_unseen_output: false,
        bell: false,
        finished_unseen: false,
    }
}

fn empty_state() -> State {
    let mut workspaces = Vec::new();
    for index in 0..WORKSPACES {
        workspaces.push(Workspace::new(index));
    }
    State {
        session: Session { workspaces, active_workspace: 0, focused_pane: None },
        scratch: Workspace::new(WORKSPACES),
        scratch_visible: false,
        window_focused: true,
        animation: GeometryAnimation::Immediate,
        events: Vec::new(),
    }
}

fn add_tiled(state: &mut State, workspace: usize, id: PaneId) {
    state.session.workspaces[workspace].panes.push(pane(id));
    append_tiled_window(&mut state.session.workspaces[workspace], id);
}

fn state_with_tiled(ids: &[PaneId]) -> State {
    let mut state = empty_state();
    for &id in ids {
        add_tiled(&mut state, 0, id);
    }
    state
}

fn no_probe() -> LayoutProbe {
    LayoutProbe { nearest: None, reveal_clip: None }
}

fn probe(candidates: &[PaneId], ahead: Option<PaneId>, wrapped: Option<PaneId>) -> DirectionalProbe {
    DirectionalProbe {
        candidates: candidates.to_vec(),
        ahead,
        wrapped,
        prefer_remembered: false,
        clip: None,
    }
}

#[test]
fn input_acknowledges_a_pane_the_window_focus_gate_would_refuse() {
    let mut state = state_with_tiled(&[1]);
    state.session.focused_pane = Some(1);
    state.session.workspaces[0].focused_pane = Some(1);
    state.window_focused = false;
    state.session.workspaces[0].panes[0].has_unseen_output = true;
    state.session.workspaces[0].panes[0].finished_unseen = true;

    assert!(!acknowledge_pane_if_attended(&mut state, 1));
    assert!(state.session.workspaces[0].panes[0].finished_unseen);

    assert!(acknowledge_pane_input(&mut state, 1));
    let p = &state.session.workspaces[0].panes[0];
    assert!(!p.finished_unseen);
    assert!(!p.has_unseen_output);
}

#[test]
fn input_acknowledges_a_pane_outside_the_active_workspace() {
    let mut state = state_with_tiled(&[1]);
    let mut p = pane(9);
    p.finished_unseen = true;
    state.scratch.panes.push(p);

    assert!(acknowledge_pane_input(&mut state, 9));
    assert!(!state.scratch.panes[0].finished_unseen);
}

#[test]
fn switching_to_a_marked_workspace_shows_the_mark_without_answering_it() {
    let mut state = state_with_tiled(&[1]);
    let marked = 2;
    let mut p = pane(marked);
    p.has_unseen_output = true;
    p.bell = true;
    p.finished_unseen = true;
    state.session.workspaces[1].panes.push(p);
    append_tiled_window(&mut state.session.workspaces[1], marked);
    state.session.workspaces[1].focused_pane = Some(marked);

    switch_workspace(&mut state, 1, no_probe());
    assert_eq!(state.focused_pane(), Some(marked));
    let p = &state.session.workspaces[1].panes[0];
    assert!(p.has_unseen_output);
    assert!(p.bell);
    assert!(p.finished_unseen, "arriving on the workspace must leave the mark that identifies the pane");

    focus_pane(&mut state, marked, None);
    let p = &state.session.workspaces[1].panes[0];
    assert!(!p.has_unseen_output);
    assert!(!p.bell);
    assert!(!p.finished_unseen);
}

#[test]
fn cycle_focus_wraps_in_both_directions() {
    let mut state = state_with_tiled(&[1, 2, 3]);
    state.session.focused_pane = Some(2);
    assert_eq!(cycle_focus_in_tiled_order(&mut state, true, None), Some(3));
    assert_eq!(cycle_focus_in_tiled_order(&mut state, true, None), Some(1));
    assert_eq!(cycle_focus_in_tiled_order(&mut state, false, None), Some(3));
}

#[test]
fn strip_cross_axis_focus_finds_no_tile() {
    for (kind, cross) in [
        (LayoutKind::Columns, [Direction::Up, Direction::Down]),
        (LayoutKind::Rows, [Direction::Left, Direction::Right]),
        (LayoutKind::Scrollable, [Direction::Up, Direction::Down]),
    ] {
        let mut state = state_with_tiled(&[1, 2, 3, 4, 5]);
        state.session.workspaces[0].layout_kind = kind;
        state.session.focused_pane = Some(3);

        for direction in cross {
            // Across the strip every tile spans the axis: nothing lies ahead, and the wrap would
            // only land on whichever pane sorts first.
            let measured = probe(&[1, 2, 3, 4, 5], None, Some(1));
            assert_eq!(focus_in_direction(&mut state, direction, &measured), None, "{kind:?} {direction:?}");
            assert_eq!(state.session.focused_pane, Some(3), "{kind:?} must leave focus put on {direction:?}");
        }
    }
}

#[test]
fn strip_main_axis_focus_still_reaches_every_pane() {
    for (kind, forward) in [(LayoutKind::Columns, Direction::Right), (LayoutKind::Rows, Direction::Down)] {
        let mut state = state_with_tiled(&[1, 2, 3, 4, 5]);
        state.session.workspaces[0].layout_kind = kind;
        state.session.focused_pane = Some(1);

        for expected in [2, 3, 4, 5, 1] {
            let focused = state.session.focused_pane.unwrap();
            let measured = if focused == 5 {
                probe(&[1, 2, 3, 4, 5], None, Some(1))
            } else {
                probe(&[1, 2, 3, 4, 5], Some(focused + 1), None)
            };
            assert_eq!(focus_in_direction(&mut state, forward, &measured), Some(expected), "{kind:?}");
        }
    }
}

#[test]
fn strip_cross_axis_still_reaches_a_floating_pane_across_it() {
    let mut state = state_with_tiled(&[1, 2, 3]);
    state.session.workspaces[0].layout_kind = LayoutKind::Columns;
    state.session.focused_pane = Some(2);
    for p in state.session.workspaces[0].panes.iter_mut() {
        if p.id == 3 {
            p.floating = true;
        }
    }
    // The floating pane lies above the columns, so it scores ahead of pane 2.
    let measured = probe(&[1, 2, 3], Some(3), None);
    assert_eq!(focus_in_direction(&mut state, Direction::Up, &measured), Some(3));
}

#[test]
fn monocle_directional_focus_reaches_every_pane() {
    let mut state = state_with_tiled(&[1, 2, 3, 4, 5]);
    state.session.workspaces[0].layout_kind = LayoutKind::Monocle;
    state.session.focused_pane = Some(1);
    let measured = probe(&[1, 2, 3, 4, 5], None, None);

    for expected in [2, 3, 4, 5, 1] {
        assert_eq!(focus_in_direction(&mut state, Direction::Right, &measured), Some(expected));
    }
    assert_eq!(focus_in_direction(&mut state, Direction::Down, &measured), Some(2));
    for expected in [1, 5, 4] {
        assert_eq!(focus_in_direction(&mut state, Direction::Left, &measured), Some(expected));
    }
    assert_eq!(focus_in_direction(&mut state, Direction::Up, &measured), Some(3));
}

#[test]
fn monocle_focus_without_wrap_stops_at_the_ends_of_the_stack() {
    let mut state = state_with_tiled(&[1, 2, 3]);
    state.session.workspaces[0].layout_kind = LayoutKind::Monocle;
    state.session.focused_pane = Some(3);
    let measured = probe(&[1, 2, 3], None, None);

    assert_eq!(focus_in_direction_no_wrap(&mut state, Direction::Right, &measured), None);
    assert_eq!(state.session.focused_pane, Some(3));
    for expected in [2, 1] {
        assert_eq!(focus_in_direction_no_wrap(&mut state, Direction::Left, &measured), Some(expected));
    }
    assert_eq!(focus_in_direction_no_wrap(&mut state, Direction::Left, &measured), None);
}

#[test]
fn fullscreen_pins_focus_to_the_pane_covering_the_workspace() {
    let mut state = state_with_tiled(&[1, 2, 3]);
    state.session.focused_pane = Some(2);
    state.session.workspaces[0].panes[1].fullscreen = true;

    assert_eq!(focus_in_direction(&mut state, Direction::Left, &probe(&[1, 2, 3], Some(1), None)), None);
    assert_eq!(focus_in_direction_no_wrap(&mut state, Direction::Right, &probe(&[1, 2, 3], Some(3), None)), None);
    assert_eq!(cycle_focus_in_tiled_order(&mut state, true, None), None);
    assert_eq!(state.session.focused_pane, Some(2));

    state.session.workspaces[0].panes[1].fullscreen = false;
    assert!(cycle_focus_in_tiled_order(&mut state, true, None).is_some());
}

#[test]
fn a_fullscreen_pane_that_is_not_focused_does_not_lock_focus() {
    let mut state = state_with_tiled(&[1, 2, 3]);
    state.session.focused_pane = Some(2);
    state.session.workspaces[0].panes[0].fullscreen = true;

    assert_eq!(cycle_focus_in_tiled_order(&mut state, true, None), Some(3));
}

#[test]
fn directional_focus_can_disable_edge_wrapping() {
    let mut state = state_with_tiled(&[1, 2]);
    state.session.focused_pane = Some(2);
    // Pane 2 is the rightmost: nothing lies ahead, and the wrap lands on pane 1.
    let measured = probe(&[1, 2], None, Some(1));

    assert_eq!(focus_in_direction_no_wrap(&mut state, Direction::Right, &measured), None);
    assert_eq!(state.session.focused_pane, Some(2));

    assert_eq!(focus_in_direction(&mut state, Direction::Right, &measured), Some(1));
    assert_eq!(state.session.focused_pane, Some(1));
}

#[test]
fn directional_focus_returns_to_the_pane_that_entered_a_spanning_pane() {
    // Panes 1 and 2 side by side over pane 3, which spans the full width.
    for source in [1, 2] {
        let mut state = state_with_tiled(&[1, 2, 3]);
        state.session.focused_pane = Some(source);
        assert_eq!(focus_in_direction(&mut state, Direction::Down, &probe(&[1, 2, 3], Some(3), None)), Some(3));
        // Going back up, geometry alone would pick pane 1; the pane that entered is nearer.
        let mut back = probe(&[1, 2, 3], Some(1), None);
        back.prefer_remembered = true;
        assert_eq!(focus_in_direction(&mut state, Direction::Up, &back), Some(source));
    }
}

#[test]
fn move_focused_pane_switches_to_target_workspace() {
    let mut state = state_with_tiled(&[1, 2]);
    add_tiled(&mut state, 1, 3);
    state.session.active_workspace = 0;
    state.session.focused_pane = Some(2);

    move_focused_to_workspace(&mut state, 1, no_probe());

    assert_eq!(state.session.active_workspace, 1);
    assert_eq!(state.session.focused_pane, Some(2));
    assert!(state.session.workspaces[0].panes.iter().any(|p| p.id == 1));
    assert!(!state.session.workspaces[0].panes.iter().any(|p| p.id == 2));
    assert!(state.session.workspaces[1].panes.iter().any(|p| p.id == 2));
}

#[test]
fn switching_workspaces_restores_each_workspaces_focused_pane() {
    let mut state = state_with_tiled(&[1, 2]);
    focus_pane(&mut state, 2, None);
    for id in [3, 4] {
        add_tiled(&mut state, 1, id);
    }
    state.session.workspaces[1].focused_pane = Some(4);

    switch_workspace(&mut state, 1, no_probe());
    assert_eq!(state.session.focused_pane, Some(4));

    focus_pane(&mut state, 3, None);
    switch_workspace(&mut state, 0, no_probe());
    assert_eq!(state.session.focused_pane, Some(2));

    switch_workspace(&mut state, 1, no_probe());
    assert_eq!(state.session.focused_pane, Some(3));
}

#[test]
fn relocate_active_workspace_swaps_content_when_target_is_occupied() {
    let mut state = state_with_tiled(&[1, 2]);
    state.session.workspaces[0].name = Some("code".to_string());
    state.session.workspaces[0].split_ratios = vec![7100];
    add_tiled(&mut state, 1, 3);
    state.session.workspaces[1].split_ratios = vec![4200];
    state.session.active_workspace = 0;
    state.session.focused_pane = Some(2);

    relocate_active_workspace(&mut state, 1, no_probe());

    assert_eq!(state.session.active_workspace, 1);
    assert_eq!(state.session.focused_pane, Some(2));
    assert_eq!(state.session.workspaces[0].panes.len(), 1);
    assert!(state.session.workspaces[0].panes.iter().any(|p| p.id == 3));
    assert_eq!(state.session.workspaces[0].split_ratios[0], 4200);
    assert_eq!(state.session.workspaces[1].name.as_deref(), Some("code"));
    assert_eq!(state.session.workspaces[1].split_ratios[0], 7100);
    assert_eq!(state.session.workspaces[1].panes.len(), 2);
    assert!(state.session.workspaces[1].panes.iter().any(|p| p.id == 1));
    assert!(state.session.workspaces[1].panes.iter().any(|p| p.id == 2));
}

#[test]
fn relocate_active_workspace_preserves_layout_on_empty_target() {
    let mut state = state_with_tiled(&[1, 2]);
    state.session.workspaces[0].layout_kind = LayoutKind::Master;
    state.session.workspaces[0].split_ratios = vec![7100];
    let source_tree = state.session.workspaces[0].tile_tree.clone();
    state.session.active_workspace = 0;
    state.session.focused_pane = Some(2);

    relocate_active_workspace(&mut state, 2, no_probe());

    assert_eq!(state.session.active_workspace, 2);
    assert_eq!(state.session.workspaces[2].layout_kind, LayoutKind::Master);
    assert_eq!(state.session.workspaces[2].split_ratios[0], 7100);
    assert_eq!(state.session.workspaces[2].tile_tree, source_tree);
    assert_eq!(state.session.workspaces[2].panes.len(), 2);
    assert_eq!(state.session.workspaces[0].panes.len(), 0);
}

#[test]
fn promote_swaps_focused_into_master_slot() {
    let mut state = state_with_tiled(&[1, 2, 3]);
    state.session.focused_pane = Some(3);
    assert!(promote_focused_to_master(&mut state, None));

    let leaves = state.session.workspaces[0].tile_tree.clone().unwrap();
    assert_eq!(leaves.first(), Some(&3));
    assert_eq!(state.session.focused_pane, Some(3));

    assert!(!promote_focused_to_master(&mut state, None));
}

#[test]
fn next_blocked_pane_wraps_across_workspaces_and_skips_closing() {
    let mut state = state_with_tiled(&[1, 2]);
    state.session.workspaces[0].panes[0].awaits_input = true;
    state.session.workspaces[0].panes[1].awaits_input = true;
    state.session.workspaces[0].panes[1].closing = true;
    let mut p = pane(3);
    p.awaits_input = true;
    state.session.workspaces[1].panes.push(p);

    state.session.focused_pane = Some(1);
    assert_eq!(next_blocked_pane(&state), Some(3));
    state.session.focused_pane = Some(3);
    assert_eq!(next_blocked_pane(&state), Some(1));
}

#[test]
fn next_blocked_pane_handles_no_focus_and_no_other_match() {
    let mut state = state_with_tiled(&[1, 2]);
    state.session.workspaces[0].panes[1].awaits_input = true;
    state.session.focused_pane = None;
    assert_eq!(next_blocked_pane(&state), Some(2));

    state.session.focused_pane = Some(2);
    assert_eq!(next_blocked_pane(&state), None);
    state.session.workspaces[0].panes[1].awaits_input = false;
    assert_eq!(next_blocked_pane(&state), None);
}

#[test]
fn next_blocked_pane_uses_effective_status_and_skips_exited() {
    let mut state = state_with_tiled(&[1, 2]);
    // Pane 1's agent is blocked and its reported status says nothing stronger; pane 2 reports
    // that it is working, which outranks the agent's blocked state.
    state.session.workspaces[0].panes[0].awaits_input = true;
    state.session.workspaces[0].panes[1].awaits_input = false;
    state.session.focused_pane = None;
    assert_eq!(next_blocked_pane(&state), Some(1));

    // An exited pane waits for nothing.
    state.session.workspaces[0].panes[0].awaits_input = false;
    assert_eq!(next_blocked_pane(&state), None);
}

#[test]
fn scrollable_close_neighbor_uses_preclose_tree_order() {
    let mut state = state_with_tiled(&[20, 10, 30]);
    {
        let workspace = &mut state.session.workspaces[0];
        workspace.layout_kind = LayoutKind::Scrollable;
        workspace.tile_tree = Some(vec![10, 30, 20]);
        workspace.focused_pane = Some(30);
        workspace.scrollable_anchor = Some(30);
    }
    state.session.focused_pane = Some(30);

    assert_eq!(tiled_ids(&state.session.workspaces[0]), [10, 30, 20]);
    assert_eq!(scrollable_close_neighbor(&state.session.workspaces[0], 30), Some(20));
    assert_eq!(scrollable_close_neighbor(&state.session.workspaces[0], 20), Some(30));
    assert_eq!(scrollable_close_neighbor(&state.session.workspaces[0], 10), Some(30));
}

/// Stepping forward and back along the tiled order returns to the pane focus started on.
#[test]
fn stepping_forward_then_back_returns_to_the_start() {
    let mut state = state_with_tiled(&[4, 7, 9]);
    for start in [4, 7, 9] {
        state.session.focused_pane = Some(start);
        cycle_focus_in_tiled_order(&mut state, true, None);
        cycle_focus_in_tiled_order(&mut state, false, None);
        assert_eq!(state.session.focused_pane, Some(start));
    }
}

/// Focusing a pane announces the change once, and re-focusing the same pane does not.
#[test]
fn focusing_a_pane_announces_it_once() {
    let mut state = state_with_tiled(&[1, 2]);
    state.session.focused_pane = Some(1);
    focus_pane(&mut state, 2, None);
    let announced = state.events.len();
    assert!(announced >= 1);
    focus_pane(&mut state, 2, None);
    assert_eq!(state.events.len(), announced);
}

fn scrollable_state(ids: &[PaneId], focus: PaneId) -> State {
    let mut state = state_with_tiled(ids);
    state.session.workspaces[0].layout_kind = LayoutKind::Scrollable;
    focus_pane(&mut state, focus, None);
    state.animation = GeometryAnimation::Immediate;
    state
}

#[test]
fn scrollable_focus_pane_arms_axis_change_only_when_anchor_moves() {
    let mut state = scrollable_state(&[1, 2, 3, 4], 1);
    assert_eq!(state.animation, GeometryAnimation::Immediate);
    focus_pane(&mut state, 1, None);
    assert_eq!(state.animation, GeometryAnimation::Immediate, "reaffirming the focused/anchored pane must not re-arm");

    // Without a measured viewport: fall back to scroll-to-target.
    focus_pane(&mut state, 4, None);
    assert_eq!(state.animation, GeometryAnimation::AxisChange);
    assert_eq!(state.session.workspaces[0].scrollable_anchor, Some(4));

    state.animation = GeometryAnimation::Immediate;
    focus_pane(&mut state, 4, None);
    assert_eq!(state.animation, GeometryAnimation::Immediate);

    let anchor = state.session.workspaces[0].scrollable_anchor;
    let mut floating = pane(99);
    floating.floating = true;
    state.session.workspaces[0].panes.push(floating);
    state.animation = GeometryAnimation::Immediate;
    focus_pane(&mut state, 99, None);
    assert_eq!(state.session.focused_pane, Some(99));
    assert_eq!(
        state.session.workspaces[0].scrollable_anchor, anchor,
        "floating focus must not rewrite the tiled Scrollable anchor"
    );
    assert_eq!(state.animation, GeometryAnimation::Immediate, "floating focus must not arm strip animation");
}

#[test]
fn directional_focus_wraps_within_the_same_row_or_column() {
    // A 2x2 grid: 1 2 over 3 4. Nothing lies ahead at an edge; the wrap target geometry finds is
    // the far pane of the same row or column.
    let mut state = state_with_tiled(&[1, 2, 3, 4]);
    state.session.workspaces[0].layout_kind = LayoutKind::Grid;
    let all = [1, 2, 3, 4];

    state.session.focused_pane = Some(2);
    assert_eq!(focus_in_direction(&mut state, Direction::Right, &probe(&all, None, Some(1))), Some(1));
    state.session.focused_pane = Some(1);
    assert_eq!(focus_in_direction(&mut state, Direction::Left, &probe(&all, None, Some(2))), Some(2));
    state.session.focused_pane = Some(3);
    assert_eq!(focus_in_direction(&mut state, Direction::Down, &probe(&all, None, Some(1))), Some(1));
    state.session.focused_pane = Some(1);
    assert_eq!(focus_in_direction(&mut state, Direction::Up, &probe(&all, None, Some(3))), Some(3));
}

fn marked(id: PaneId) -> Pane {
    let mut p = pane(id);
    p.has_unseen_output = true;
    p.bell = true;
    p.finished_unseen = true;
    p
}

fn marks(state: &State, id: PaneId) -> (bool, bool, bool) {
    let p = state.session.workspaces[0].panes.iter().find(|p| p.id == id).unwrap();
    (p.has_unseen_output, p.bell, p.finished_unseen)
}

#[test]
fn background_programmatic_focus_preserves_attention_until_the_pane_is_focused_in_view() {
    let mut state = empty_state();
    for id in [1, 2] {
        state.session.workspaces[0].panes.push(marked(id));
        append_tiled_window(&mut state.session.workspaces[0], id);
    }
    state.window_focused = false;
    focus_pane(&mut state, 2, None);
    assert_eq!(marks(&state, 2), (true, true, true), "the window is away: nobody saw it");

    state.window_focused = true;
    assert_eq!(marks(&state, 2), (true, true, true), "regaining the window answers nothing by itself");

    focus_pane(&mut state, 2, None);
    assert_eq!(marks(&state, 2), (false, false, false), "focusing it in view answers it");
    assert_eq!(marks(&state, 1), (true, true, true));
}

#[test]
fn explicit_fullscreen_keeps_one_fullscreen_pane_per_workspace_on_both_endpoints() {
    let mut state = state_with_tiled(&[1, 2]);
    add_tiled(&mut state, 1, 3);
    state.session.workspaces[0].panes[0].fullscreen = true;
    state.session.workspaces[1].panes[0].fullscreen = true;
    assert!(transfer_pane(&mut state, 1, 0, 1));
    let fullscreen = |ws: &Workspace| ws.panes.iter().filter(|p| p.fullscreen).map(|p| p.id).collect::<Vec<_>>();
    assert_eq!(fullscreen(&state.session.workspaces[1]), [1], "the arriving pane wins");
    assert!(fullscreen(&state.session.workspaces[0]).is_empty());
    assert!(!transfer_pane(&mut state, 9, 0, 1));
}
