//! Dialogs raised over the panes: the layout picker with its live preview, and the way a dialog
//! raised from another one leads back to its parent.

use vstd::prelude::*;

use crate::model::LayoutKind;
use crate::profile::ProfilePicker;

verus! {

/// The number of layouts the picker lists.
pub const LAYOUT_COUNT: usize = 7;

/// The layout on row `index` of the picker, in the order layouts are listed.
pub open spec fn layout_row(index: int) -> Option<LayoutKind> {
    if index == 0 {
        Some(LayoutKind::Columns)
    } else if index == 1 {
        Some(LayoutKind::Rows)
    } else if index == 2 {
        Some(LayoutKind::Grid)
    } else if index == 3 {
        Some(LayoutKind::Dwindle)
    } else if index == 4 {
        Some(LayoutKind::Master)
    } else if index == 5 {
        Some(LayoutKind::Monocle)
    } else if index == 6 {
        Some(LayoutKind::Scrollable)
    } else {
        None
    }
}

/// The layout on row `index` of the picker.
pub fn layout_at(index: usize) -> (r: Option<LayoutKind>)
    ensures
        r == layout_row(index as int),
{
    match index {
        0 => Some(LayoutKind::Columns),
        1 => Some(LayoutKind::Rows),
        2 => Some(LayoutKind::Grid),
        3 => Some(LayoutKind::Dwindle),
        4 => Some(LayoutKind::Master),
        5 => Some(LayoutKind::Monocle),
        6 => Some(LayoutKind::Scrollable),
        _ => None,
    }
}

/// The row of layout `kind` in the picker.
pub fn layout_index(kind: LayoutKind) -> (r: usize)
    ensures
        r < LAYOUT_COUNT,
        layout_row(r as int) == Some(kind),
{
    match kind {
        LayoutKind::Columns => 0,
        LayoutKind::Rows => 1,
        LayoutKind::Grid => 2,
        LayoutKind::Dwindle => 3,
        LayoutKind::Master => 4,
        LayoutKind::Monocle => 5,
        LayoutKind::Scrollable => 6,
    }
}

/// The layout picker: the highlighted row, the layout the workspace had when it opened, and the
/// filter.
#[derive(Debug)]
pub struct LayoutPicker {
    pub selected: usize,
    pub original: LayoutKind,
    pub query: String,
}

/// Open the layout picker on the workspace's current layout.
pub fn open_layout_picker(current: LayoutKind) -> (r: LayoutPicker)
    ensures
        layout_row(r.selected as int) == Some(current),
        r.original == current,
        r.query@ == Seq::<char>::empty(),
{
    LayoutPicker { selected: layout_index(current), original: current, query: String::new() }
}

/// Only a client that may reshape the layout previews it: the scratchpad is this client's own,
/// and of a shared session only the controller's changes stick.
pub open spec fn previews(scratch_visible: bool, controller: bool) -> bool {
    scratch_visible || controller
}

/// The picker was left without committing: it closes, and the layout it previewed away from
/// comes back. Returns the layout to restore, if any.
pub fn cancel_layout_picker(
    picker: &mut Option<LayoutPicker>,
    current: LayoutKind,
    scratch_visible: bool,
    controller: bool,
) -> (r: Option<LayoutKind>)
    ensures
        *final(picker) is None,
        r == match *old(picker) {
            Some(p) => if p.original != current && previews(scratch_visible, controller) {
                Some(p.original)
            } else {
                None
            },
            None => None,
        },
{
    match picker.take() {
        Some(p) => if p.original != current && (scratch_visible || controller) {
            Some(p.original)
        } else {
            None
        },
        None => None,
    }
}

/// The highlight moved to row `index`: returns the layout to preview live, if any.
pub fn layout_picker_selection_changed(
    picker: &mut Option<LayoutPicker>,
    index: usize,
    scratch_visible: bool,
    controller: bool,
) -> (r: Option<LayoutKind>)
    ensures
        layout_row(index as int) is None ==> r is None && *final(picker) == *old(picker),
        layout_row(index as int) is Some ==> r == (if previews(scratch_visible, controller) {
            layout_row(index as int)
        } else {
            None
        }) && match *old(picker) {
            Some(p) => *final(picker) == Some(LayoutPicker { selected: index, ..p }),
            None => *final(picker) is None,
        },
{
    let kind = match layout_at(index) {
        Some(k) => k,
        None => return None,
    };
    match picker {
        Some(p) => {
            p.selected = index;
        },
        None => {},
    }
    if scratch_visible || controller {
        Some(kind)
    } else {
        None
    }
}

/// What choosing row `index` of the layout picker does.
#[derive(Clone, Copy, Debug, PartialEq, Eq, Structural)]
pub enum LayoutChoice {
    /// No such row.
    Nothing,
    /// A follower may not reshape the shared layout and is pointed at the controller.
    NudgeFollower,
    /// Apply the layout; `engage` when it reshapes a session by hand.
    Apply { kind: LayoutKind, engage: bool },
}

/// Choose row `index`: the picker closes, and the layout is committed unless this client is a
/// follower of a shared session.
pub fn select_layout(picker: &mut Option<LayoutPicker>, index: usize, scratch_visible: bool, follower: bool) -> (r:
    LayoutChoice)
    ensures
        layout_row(index as int) is None ==> r == LayoutChoice::Nothing && *final(picker) == *old(picker),
        layout_row(index as int) is Some ==> *final(picker) is None && r == if !scratch_visible && follower {
            LayoutChoice::NudgeFollower
        } else {
            LayoutChoice::Apply { kind: layout_row(index as int)->0, engage: !scratch_visible }
        },
{
    let kind = match layout_at(index) {
        Some(k) => k,
        None => return LayoutChoice::Nothing,
    };
    *picker = None;
    if !scratch_visible && follower {
        return LayoutChoice::NudgeFollower;
    }
    LayoutChoice::Apply { kind, engage: !scratch_visible }
}

/// The layout to persist as the default: the highlighted one, while the filter shows it.
/// `matches` says whether its label matches the filter under the fuzzy search.
pub fn layout_picker_default(picker: &Option<LayoutPicker>, matches: bool) -> (r: Option<LayoutKind>)
    ensures
        r == match *picker {
            Some(p) => if matches {
                layout_row(p.selected as int)
            } else {
                None
            },
            None => None,
        },
{
    match picker {
        Some(p) => if matches {
            layout_at(p.selected)
        } else {
            None
        },
        None => None,
    }
}

/// The dialog a child dialog was raised from, to return to when it closes.
#[derive(Clone, Debug)]
pub enum OverlayOrigin {
    Settings,
    ProfilePicker { query: String, selected: usize, apply_mode: bool },
    SessionPicker { query: String, selected: usize },
}

/// The picker a prompt is raised from: the profile picker when it is showing, else the session
/// picker when it is showing, else none. `session_picker` is the session picker's filter and
/// highlighted row, if it exists.
pub fn picker_origin(
    profile_picker: &Option<ProfilePicker>,
    show_profile_picker: bool,
    session_picker: &Option<(String, usize)>,
    show_session_picker: bool,
) -> (r: Option<OverlayOrigin>)
    ensures
        match r {
            Some(OverlayOrigin::ProfilePicker { query, selected, apply_mode }) => {
                &&& show_profile_picker
                &&& profile_picker is Some
                &&& query@ == profile_picker->0.query@
                &&& selected == profile_picker->0.selected
                &&& apply_mode == profile_picker->0.apply_mode
            },
            Some(OverlayOrigin::SessionPicker { query, selected }) => {
                &&& !(show_profile_picker && profile_picker is Some)
                &&& show_session_picker
                &&& session_picker is Some
                &&& query@ == (session_picker->0).0@
                &&& selected == (session_picker->0).1
            },
            Some(OverlayOrigin::Settings) => false,
            None => !(show_profile_picker && profile_picker is Some) && !(show_session_picker
                && session_picker is Some),
        },
{
    if show_profile_picker {
        if let Some(p) = profile_picker {
            return Some(
                OverlayOrigin::ProfilePicker {
                    query: p.query.clone(),
                    selected: p.selected,
                    apply_mode: p.apply_mode,
                },
            );
        }
    }
    if show_session_picker {
        if let Some(s) = session_picker {
            return Some(OverlayOrigin::SessionPicker { query: s.0.clone(), selected: s.1 });
        }
    }
    None
}

/// The row a reopened picker of `len` entries highlights: the one it had, or the last.
pub open spec fn restored_row(selected: usize, len: nat) -> usize {
    if len == 0 {
        0
    } else if selected < len {
        selected
    } else {
        (len - 1) as usize
    }
}

/// Hand a rebuilt profile picker back the filter and highlighted row it had.
pub fn restore_profile_picker(picker: &mut ProfilePicker, query: String, selected: usize)
    ensures
        final(picker).query == query,
        final(picker).selected == restored_row(selected, old(picker).entries@.len()),
        final(picker).entries == old(picker).entries,
        final(picker).pending_delete == old(picker).pending_delete,
        final(picker).pending_open == old(picker).pending_open,
        final(picker).pending_apply == old(picker).pending_apply,
        final(picker).apply_mode == old(picker).apply_mode,
{
    picker.query = query;
    let len = picker.entries.len();
    picker.selected = if len == 0 {
        0
    } else if selected < len {
        selected
    } else {
        len - 1
    };
}

/// Where closing a child dialog returns to.
#[derive(Clone, Copy, Debug, PartialEq, Eq, Structural)]
pub enum ReturnTo {
    Settings,
    ProfilePicker { apply_mode: bool },
    SessionPicker,
    /// No parent: back to the focused pane.
    Pane,
}

/// Close a child dialog: consume its recorded parent and say where to return.
pub fn finish(origin: &mut Option<OverlayOrigin>) -> (r: ReturnTo)
    ensures
        *final(origin) is None,
        r == match *old(origin) {
            Some(OverlayOrigin::Settings) => ReturnTo::Settings,
            Some(OverlayOrigin::ProfilePicker { apply_mode, .. }) => ReturnTo::ProfilePicker { apply_mode },
            Some(OverlayOrigin::SessionPicker { .. }) => ReturnTo::SessionPicker,
            None => ReturnTo::Pane,
        },
{
    match origin.take() {
        Some(OverlayOrigin::Settings) => ReturnTo::Settings,
        Some(OverlayOrigin::ProfilePicker { apply_mode, .. }) => ReturnTo::ProfilePicker { apply_mode },
        Some(OverlayOrigin::SessionPicker { .. }) => ReturnTo::SessionPicker,
        None => ReturnTo::Pane,
    }
}

} // verus!
