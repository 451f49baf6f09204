//! The popup: one client-local pane over the workspace that runs a command, which it may keep
//! showing after the command exits, and which gives focus back to the pane that had it.

use vstd::prelude::*;

use crate::model::PaneId;
use crate::text::{is_blank, text_is_blank};

verus! {

/// Why a popup was not opened.
#[derive(Clone, Copy, Debug, PartialEq, Eq, Structural)]
pub enum PopupError {
    AlreadyOpen,
    EmptyCommand,
}

impl PopupError {
    /// What the control endpoint answers.
    pub fn message(&self) -> (r: &'static str)
        ensures
            r@ == popup_error_text(*self),
    {
        match self {
            PopupError::AlreadyOpen => "a popup is already open",
            PopupError::EmptyCommand => "popup command must not be empty",
        }
    }
}

pub open spec fn popup_error_text(e: PopupError) -> Seq<char> {
    match e {
        PopupError::AlreadyOpen => "a popup is already open"@,
        PopupError::EmptyCommand => "popup command must not be empty"@,
    }
}

/// Whether a popup running `command` may open: one popup at a time, and it needs a command that is
/// not blank.
pub fn popup_open_check(popup_present: bool, command: &str) -> (r: Result<(), PopupError>)
    ensures
        popup_present ==> r == Err::<(), PopupError>(PopupError::AlreadyOpen),
        !popup_present && is_blank(command@) ==> r == Err::<(), PopupError>(PopupError::EmptyCommand),
        !popup_present && !is_blank(command@) ==> r is Ok,
{
    if popup_present {
        return Err(PopupError::AlreadyOpen);
    }
    if text_is_blank(command) {
        return Err(PopupError::EmptyCommand);
    }
    Ok(())
}

/// The PTY generation a new popup pane gets, and the counter moved past it (it stops at the top
/// rather than wrapping).
pub fn take_generation(next: &mut u64) -> (r: u64)
    ensures
        r == *old(next),
        *final(next) == if *old(next) == u64::MAX {
            u64::MAX
        } else {
            (*old(next) + 1) as u64
        },
{
    let generation = *next;
    *next = if generation == u64::MAX {
        generation
    } else {
        generation + 1
    };
    generation
}

/// The popup as its lifecycle sees it.
#[derive(Clone, Copy, Debug, PartialEq, Eq, Structural)]
pub struct PopupPane {
    pub generation: u64,
    pub opening: bool,
    /// It is scaling out and will be dropped.
    pub closing: bool,
    /// It stays after its command exits.
    pub keep_open: bool,
}

/// The popup slot and the pane focus goes back to when it closes.
#[derive(Clone, Copy, Debug, PartialEq, Eq, Structural)]
pub struct PopupSlot {
    pub pane: Option<PopupPane>,
    pub return_focus: Option<PaneId>,
}

/// What closing the popup does.
#[derive(Clone, Copy, Debug, PartialEq, Eq, Structural)]
pub enum PopupClose {
    /// No popup, or it is closing already.
    Nothing,
    /// Kill generation `generation` of the popup's PTY, scale it out, and give focus back to
    /// `focus`, or to the current pane when that is `None`.
    Close { generation: u64, focus: Option<PaneId> },
}

/// Close the popup: it stays described, marked closing, so it scales out the way it scaled in;
/// the pane it took focus from gets it back.
pub fn close_popup(slot: &mut PopupSlot) -> (r: PopupClose)
    ensures
        match old(slot).pane {
            Some(p) if !p.closing => {
                &&& r == PopupClose::Close { generation: p.generation, focus: old(slot).return_focus }
                &&& final(slot).pane == Some(PopupPane { opening: false, closing: true, ..p })
                &&& final(slot).return_focus is None
            },
            _ => r == PopupClose::Nothing && *final(slot) == *old(slot),
        },
{
    match slot.pane {
        Some(p) => {
            if p.closing {
                return PopupClose::Nothing;
            }
            let focus = slot.return_focus;
            slot.pane = Some(PopupPane { opening: false, closing: true, ..p });
            slot.return_focus = None;
            PopupClose::Close { generation: p.generation, focus }
        },
        None => PopupClose::Nothing,
    }
}

/// The popup's command exited: a popup kept open stays for its output to be read; any other closes.
pub fn popup_exited(slot: &mut PopupSlot) -> (r: PopupClose)
    ensures
        match old(slot).pane {
            Some(p) if p.keep_open => r == PopupClose::Nothing && *final(slot) == *old(slot),
            Some(p) if !p.closing => {
                &&& r == PopupClose::Close { generation: p.generation, focus: old(slot).return_focus }
                &&& final(slot).pane == Some(PopupPane { opening: false, closing: true, ..p })
                &&& final(slot).return_focus is None
            },
            _ => r == PopupClose::Nothing && *final(slot) == *old(slot),
        },
{
    match slot.pane {
        Some(p) => if p.keep_open {
            PopupClose::Nothing
        } else {
            close_popup(slot)
        },
        None => PopupClose::Nothing,
    }
}

/// Tear the popup down before detaching or leaving: it is client-local, so nothing else would
/// kill its PTY. Returns the generation to kill, if there was a popup.
pub fn kill_if_open(slot: &mut PopupSlot) -> (r: Option<u64>)
    ensures
        match old(slot).pane {
            Some(p) => r == Some(p.generation) && final(slot).pane is None && final(slot).return_focus is None,
            None => r is None && *final(slot) == *old(slot),
        },
{
    match slot.pane {
        Some(p) => {
            slot.pane = None;
            slot.return_focus = None;
            Some(p.generation)
        },
        None => None,
    }
}

/// Open a popup running `command`: refused as [`popup_open_check`] says, changing nothing.
/// Otherwise the popup pane takes the next PTY generation and starts opening, it stays after its
/// command exits when `keep_open`, and the pane focused now (`focused`) gets focus back when it
/// closes. Returns the generation its PTY is spawned with.
pub fn open_popup(
    slot: &mut PopupSlot,
    popup_present: bool,
    command: &str,
    next_generation: &mut u64,
    focused: Option<PaneId>,
    keep_open: bool,
) -> (r: Result<u64, PopupError>)
    ensures
        popup_present ==> r == Err::<u64, PopupError>(PopupError::AlreadyOpen),
        !popup_present && is_blank(command@) ==> r == Err::<u64, PopupError>(PopupError::EmptyCommand),
        r is Err ==> *final(slot) == *old(slot) && *final(next_generation) == *old(next_generation),
        !popup_present && !is_blank(command@) ==> {
            &&& r == Ok::<u64, PopupError>(*old(next_generation))
            &&& *final(next_generation) == if *old(next_generation) == u64::MAX {
                u64::MAX
            } else {
                (*old(next_generation) + 1) as u64
            }
            &&& *final(slot) == (PopupSlot {
                pane: Some(
                    PopupPane { generation: *old(next_generation), opening: true, closing: false, keep_open },
                ),
                return_focus: focused,
            })
        },
{
    match popup_open_check(popup_present, command) {
        Err(e) => Err(e),
        Ok(()) => {
            let generation = take_generation(next_generation);
            *slot = PopupSlot {
                pane: Some(PopupPane { generation, opening: true, closing: false, keep_open }),
                return_focus: focused,
            };
            Ok(generation)
        },
    }
}

} // verus!
