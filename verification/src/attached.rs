//! Control requests this UI forwards to a session server: which attachment a request belongs to,
//! which pane a recording command is pinned to, and the replies held until the server answers.

use vstd::prelude::*;

use crate::control::ErrorCode;
use crate::extensions::{decimal, decimal_u64};

use crate::model::{Pane, PaneId};
use crate::registry::Registry;

verus! {

/// What routing a forwarded request reads of one attachment: its epoch, the session instance it
/// is attached to, the pane focused in it, and its workspace panes, workspace by workspace.
#[derive(Clone, Debug)]
pub struct AttachmentInfo {
    pub epoch: u64,
    pub instance: Option<String>,
    pub focused_pane: Option<PaneId>,
    pub panes: Vec<Pane>,
}

/// Why a forwarded request was refused.
#[derive(Clone, Debug, PartialEq, Eq)]
pub enum ForwardError {
    /// A session server cannot check an extension's generation, so it does not record for one.
    ExtensionCannotRecord { extension: String },
    /// The calling pane's session is not attached to this UI.
    SessionNotAttached,
    /// The calling pane does not say which session it runs in.
    PaneWithoutSession { pane: PaneId },
    /// Foreground recording holds its caller open, which a UI cannot do.
    ForegroundNeedsSession,
    /// This UI is not attached to a session.
    NotAttached,
    /// The focused pane is a scratch pane, which runs outside the session.
    ScratchFocused,
    /// There is neither a target pane nor a focused one.
    TargetRequired,
    /// No live pane of the session has this id.
    PaneNotFound { pane: PaneId },
}

/// The code a refused forwarded request carries: none for a retired extension's request.
pub open spec fn forward_error_code(e: ForwardError) -> Option<ErrorCode> {
    match e {
        ForwardError::ExtensionCannotRecord { .. } => None,
        ForwardError::SessionNotAttached => Some(ErrorCode::SessionNotAttached),
        ForwardError::PaneWithoutSession { .. } => Some(ErrorCode::Unsupported),
        ForwardError::ForegroundNeedsSession => Some(ErrorCode::InvalidArgument),
        ForwardError::NotAttached => Some(ErrorCode::SessionNotAttached),
        ForwardError::ScratchFocused => Some(ErrorCode::Unsupported),
        ForwardError::TargetRequired => Some(ErrorCode::TargetRequired),
        ForwardError::PaneNotFound { .. } => Some(ErrorCode::PaneNotFound),
    }
}

/// The text a refused forwarded request is answered with.
pub open spec fn forward_error_text(e: ForwardError) -> Seq<char> {
    match e {
        ForwardError::ExtensionCannotRecord { extension } => "a session server cannot check whether extension `"@
            + extension@ + "` is still active, so it does not record on an extension's behalf"@,
        ForwardError::SessionNotAttached => "the calling pane's session is not attached to this rozi; name it with --session <NAME>"@,
        ForwardError::PaneWithoutSession { pane } => "pane "@ + decimal(pane as nat)
            + " does not say which session it runs in (a scratch or popup pane runs outside every session); name the session with --session <NAME>"@,
        ForwardError::ForegroundNeedsSession => "foreground recording needs --session <NAME>; a UI cannot hold its caller open until the recording ends"@,
        ForwardError::NotAttached => "this rozi is not attached to a session"@,
        ForwardError::ScratchFocused => "the focused pane is a scratch pane, which runs outside the session and cannot be recorded"@,
        ForwardError::TargetRequired => "no target pane and no focused pane"@,
        ForwardError::PaneNotFound { pane } => "pane "@ + decimal(pane as nat) + " not found"@,
    }
}

impl ForwardError {
    /// The code a refused forwarded request carries.
    pub fn code(&self) -> (r: Option<ErrorCode>)
        ensures
            r == forward_error_code(*self),
    {
        match self {
            ForwardError::ExtensionCannotRecord { .. } => None,
            ForwardError::SessionNotAttached => Some(ErrorCode::SessionNotAttached),
            ForwardError::PaneWithoutSession { .. } => Some(ErrorCode::Unsupported),
            ForwardError::ForegroundNeedsSession => Some(ErrorCode::InvalidArgument),
            ForwardError::NotAttached => Some(ErrorCode::SessionNotAttached),
            ForwardError::ScratchFocused => Some(ErrorCode::Unsupported),
            ForwardError::TargetRequired => Some(ErrorCode::TargetRequired),
            ForwardError::PaneNotFound { .. } => Some(ErrorCode::PaneNotFound),
        }
    }

    /// The text a refused forwarded request is answered with.
    pub fn message(&self) -> (r: String)
        ensures
            r@ == forward_error_text(*self),
    {
        match self {
            ForwardError::ExtensionCannotRecord { extension } => {
                let mut m = String::from_str("a session server cannot check whether extension `");
                m.append(extension.as_str());
                m.append("` is still active, so it does not record on an extension's behalf");
                m
            },
            ForwardError::SessionNotAttached => String::from_str(
                "the calling pane's session is not attached to this rozi; name it with --session <NAME>",
            ),
            ForwardError::PaneWithoutSession { pane } => {
                let mut m = String::from_str("pane ");
                let n = decimal_u64(*pane);
                m.append(n.as_str());
                m.append(
                    " does not say which session it runs in (a scratch or popup pane runs outside every session); name the session with --session <NAME>",
                );
                m
            },
            ForwardError::ForegroundNeedsSession => String::from_str(
                "foreground recording needs --session <NAME>; a UI cannot hold its caller open until the recording ends",
            ),
            ForwardError::NotAttached => String::from_str("this rozi is not attached to a session"),
            ForwardError::ScratchFocused => String::from_str(
                "the focused pane is a scratch pane, which runs outside the session and cannot be recorded",
            ),
            ForwardError::TargetRequired => String::from_str("no target pane and no focused pane"),
            ForwardError::PaneNotFound { pane } => {
                let mut m = String::from_str("pane ");
                let n = decimal_u64(*pane);
                m.append(n.as_str());
                m.append(" not found");
                m
            },
        }
    }
}

/// The attachment with `instance`, in order: the one on screen first, then the background ones.
pub open spec fn instance_at(attachments: Seq<AttachmentInfo>, instance: Seq<char>, i: int) -> bool {
    &&& 0 <= i < attachments.len()
    &&& attachments[i].instance matches Some(x) && x@ == instance
    &&& forall|k: int| 0 <= k < i ==> !(#[trigger] attachments[k].instance matches Some(x) && x@ == instance)
}

/// The epoch a request goes to: the calling pane's session, on screen or in the background; a
/// bare pane id names no session and is refused; a caller outside every session gets the session
/// on screen. `attachments` lists the one on screen first.
pub open spec fn route_of(
    attachments: Seq<AttachmentInfo>,
    current_epoch: u64,
    source_session: Option<Seq<char>>,
    source_pane: Option<PaneId>,
) -> Result<u64, ForwardError> {
    match source_session {
        Some(instance) => if exists|i: int| instance_at(attachments, instance, i) {
            Ok(attachments[choose|i: int| instance_at(attachments, instance, i)].epoch)
        } else {
            Err(ForwardError::SessionNotAttached)
        },
        None => match source_pane {
            Some(id) => Err(ForwardError::PaneWithoutSession { pane: id }),
            None => Ok(current_epoch),
        },
    }
}

fn same_instance(a: &Option<String>, b: &String) -> (r: bool)
    ensures
        r == (a matches Some(x) && x@ == b@),
{
    match a {
        Some(x) => *x == *b,
        None => false,
    }
}

/// The epoch a forwarded request goes to.
pub fn route(
    attachments: &Vec<AttachmentInfo>,
    current_epoch: u64,
    source_session: &Option<String>,
    source_pane: Option<PaneId>,
) -> (r: Result<u64, ForwardError>)
    ensures
        r == route_of(
            attachments@,
            current_epoch,
            match source_session {
                Some(s) => Some(s@),
                None => None,
            },
            source_pane,
        ),
{
    match source_session {
        Some(instance) => {
            let mut i: usize = 0;
            while i < attachments.len()
                invariant
                    i <= attachments.len(),
                    *source_session == Some(*instance),
                    forall|k: int| 0 <= k < i ==> !(#[trigger] attachments@[k].instance matches Some(x) && x@
                        == instance@),
                decreases attachments.len() - i,
            {
                if same_instance(&attachments[i].instance, instance) {
                    proof {
                        assert(instance_at(attachments@, instance@, i as int));
                        let c = choose|c: int| instance_at(attachments@, instance@, c);
                        if c < i {
                            assert(!(attachments@[c].instance matches Some(x) && x@ == instance@));
                        }
                        if c > i {
                            assert(!(attachments@[i as int].instance matches Some(x) && x@ == instance@));
                        }
                    }
                    return Ok(attachments[i].epoch);
                }
                i = i + 1;
            }
            proof {
                if exists|c: int| instance_at(attachments@, instance@, c) {
                    let c = choose|c: int| instance_at(attachments@, instance@, c);
                    assert(!(attachments@[c].instance matches Some(x) && x@ == instance@));
                }
            }
            Err(ForwardError::SessionNotAttached)
        },
        None => match source_pane {
            Some(id) => Err(ForwardError::PaneWithoutSession { pane: id }),
            None => Ok(current_epoch),
        },
    }
}

/// A recording command, as pinning reads and rewrites it.
#[derive(Clone, Debug, PartialEq, Eq)]
pub enum RecordCommand {
    Start { target: Option<PaneId>, follow: bool },
    Stop { id: Option<String>, target: Option<PaneId> },
    Mark { id: Option<String>, target: Option<PaneId> },
    /// Any command that is no recording command.
    Other,
}

/// The first pane with `id` among `panes` is live.
pub open spec fn live_session_pane(panes: Seq<Pane>, id: PaneId) -> bool {
    exists|i: int| 0 <= i < panes.len() && #[trigger] panes[i].id == id && !panes[i].closing && forall|k: int|
        0 <= k < i ==> #[trigger] panes[k].id != id
}

/// What pinning does to a recording command: `record-start` is pinned to its target, the calling
/// pane, or the pane focused in the session; `record-stop` and `record-mark` without an id or
/// target get the calling pane.
pub open spec fn pinned(
    attachment: Option<AttachmentInfo>,
    scratch_visible: bool,
    command: RecordCommand,
    source: Option<PaneId>,
) -> Result<RecordCommand, ForwardError> {
    match command {
        RecordCommand::Start { target, follow } => if follow {
            Err(ForwardError::ForegroundNeedsSession)
        } else {
            match attachment {
                None => Err(ForwardError::NotAttached),
                Some(a) => {
                    let chosen = match target {
                        Some(t) => Ok(t),
                        None => match source {
                            Some(s) => Ok(s),
                            None => if scratch_visible {
                                Err(ForwardError::ScratchFocused)
                            } else {
                                match a.focused_pane {
                                    Some(f) => Ok(f),
                                    None => Err(ForwardError::TargetRequired),
                                }
                            },
                        },
                    };
                    match chosen {
                        Err(e) => Err(e),
                        Ok(id) => if live_session_pane(a.panes@, id) {
                            Ok(RecordCommand::Start { target: Some(id), follow })
                        } else {
                            Err(ForwardError::PaneNotFound { pane: id })
                        },
                    }
                },
            }
        },
        RecordCommand::Stop { id, target } => if id is None && target is None {
            Ok(RecordCommand::Stop { id, target: source })
        } else {
            Ok(command)
        },
        RecordCommand::Mark { id, target } => if id is None && target is None {
            Ok(RecordCommand::Mark { id, target: source })
        } else {
            Ok(command)
        },
        RecordCommand::Other => Ok(command),
    }
}

fn first_pane_live(panes: &Vec<Pane>, id: PaneId) -> (r: bool)
    ensures
        r == live_session_pane(panes@, id),
{
    let mut i: usize = 0;
    while i < panes.len()
        invariant
            i <= panes.len(),
            forall|k: int| 0 <= k < i ==> #[trigger] panes@[k].id != id,
        decreases panes.len() - i,
    {
        if panes[i].id == id {
            proof {
                if !panes@[i as int].closing {
                    assert(live_session_pane(panes@, id));
                } else {
                    assert forall|j: int|
                        0 <= j < panes@.len() && #[trigger] panes@[j].id == id && !panes@[j].closing implies !(forall|k: int|
                        0 <= k < j ==> #[trigger] panes@[k].id != id) by {
                        if j > i {
                            assert(panes@[i as int].id == id);
                        }
                    }
                }
            }
            return !panes[i].closing;
        }
        i = i + 1;
    }
    false
}

/// Pin a recording command to the pane it is about, in the session `attachment` (the attachment
/// the request was routed to, if this UI still holds it).
pub fn pin_recording_target(
    attachment: Option<&AttachmentInfo>,
    scratch_visible: bool,
    command: RecordCommand,
    source: Option<PaneId>,
) -> (r: Result<RecordCommand, ForwardError>)
    ensures
        r == pinned(
            match attachment {
                Some(a) => Some(*a),
                None => None,
            },
            scratch_visible,
            command,
            source,
        ),
{
    match command {
        RecordCommand::Start { target, follow } => {
            if follow {
                return Err(ForwardError::ForegroundNeedsSession);
            }
            let a = match attachment {
                Some(a) => a,
                None => return Err(ForwardError::NotAttached),
            };
            let id = match target {
                Some(t) => t,
                None => match source {
                    Some(s) => s,
                    None => {
                        if scratch_visible {
                            return Err(ForwardError::ScratchFocused);
                        }
                        match a.focused_pane {
                            Some(f) => f,
                            None => return Err(ForwardError::TargetRequired),
                        }
                    },
                },
            };
            if !first_pane_live(&a.panes, id) {
                return Err(ForwardError::PaneNotFound { pane: id });
            }
            Ok(RecordCommand::Start { target: Some(id), follow })
        },
        RecordCommand::Stop { id, target } => {
            if id.is_none() && target.is_none() {
                Ok(RecordCommand::Stop { id, target: source })
            } else {
                Ok(RecordCommand::Stop { id, target })
            }
        },
        RecordCommand::Mark { id, target } => {
            if id.is_none() && target.is_none() {
                Ok(RecordCommand::Mark { id, target: source })
            } else {
                Ok(RecordCommand::Mark { id, target })
            }
        },
        RecordCommand::Other => Ok(RecordCommand::Other),
    }
}

/// The replies held for forwarded requests: the attachment epoch each request went down, keyed
/// by request id, and the id the next request gets.
pub struct PendingControls {
    pub by_request: Registry<u64>,
    pub next_request_id: u64,
}

/// The id after `id`: it wraps, and never comes back to zero.
pub open spec fn after_id(id: u64) -> u64 {
    if id == u64::MAX {
        1
    } else {
        (id + 1) as u64
    }
}

/// Hold a reply for a request sent down attachment `epoch`; returns the request's id.
pub fn hold_reply(pending: &mut PendingControls, epoch: u64) -> (r: u64)
    requires
        old(pending).by_request.wf(),
    ensures
        final(pending).by_request.wf(),
        r == old(pending).next_request_id,
        final(pending).next_request_id == after_id(r),
        final(pending).by_request.map() == old(pending).by_request.map().insert(r, epoch),
{
    let id = pending.next_request_id;
    pending.next_request_id = if id == u64::MAX {
        1
    } else {
        id + 1
    };
    pending.by_request.insert(id, epoch);
    id
}

/// A session server answered request `request_id` on attachment `epoch`: the held reply is taken
/// when it belongs to that attachment. Returns whether it was.
pub fn take_reply(pending: &mut PendingControls, epoch: u64, request_id: u64) -> (r: bool)
    requires
        old(pending).by_request.wf(),
    ensures
        final(pending).by_request.wf(),
        final(pending).next_request_id == old(pending).next_request_id,
        r == (old(pending).by_request.map().dom().contains(request_id) && old(pending).by_request.map()[request_id]
            == epoch),
        r ==> final(pending).by_request.map() == old(pending).by_request.map().remove(request_id),
        !r ==> final(pending).by_request.map() == old(pending).by_request.map(),
{
    let matches = match pending.by_request.get(request_id) {
        Some(e) => *e == epoch,
        None => false,
    };
    if matches {
        pending.by_request.remove(request_id);
    }
    matches
}

/// Whether a held reply on attachment `e` is taken: its epoch is among `epochs` exactly when
/// `matching`.
pub open spec fn taken_by(epochs: Seq<u64>, matching: bool, e: u64) -> bool {
    epochs.contains(e) == matching
}

fn holds_epoch(epochs: &Vec<u64>, e: u64) -> (r: bool)
    ensures
        r == epochs@.contains(e),
{
    let mut i: usize = 0;
    while i < epochs.len()
        invariant
            i <= epochs.len(),
            forall|j: int| 0 <= j < i ==> epochs@[j] != e,
        decreases epochs.len() - i,
    {
        if epochs[i] == e {
            return true;
        }
        i = i + 1;
    }
    false
}

/// Takes every reply held for an attachment epoch that is in `epochs` (when `matching`) or is
/// not (when not). Returns the requests whose replies were taken.
fn take_epochs(pending: &mut PendingControls, epochs: &Vec<u64>, matching: bool) -> (r: Vec<u64>)
    requires
        old(pending).by_request.wf(),
    ensures
        final(pending).by_request.wf(),
        final(pending).next_request_id == old(pending).next_request_id,
        forall|id: u64| r@.contains(id) <==> old(pending).by_request.map().dom().contains(id)
            && taken_by(epochs@, matching, old(pending).by_request.map()[id]),
        forall|id: u64| #[trigger] final(pending).by_request.map().dom().contains(id) <==> old(pending).by_request.map().dom().contains(id)
            && !taken_by(epochs@, matching, old(pending).by_request.map()[id]),
        forall|id: u64| #[trigger] final(pending).by_request.map().dom().contains(id) ==> final(pending).by_request.map()[id]
            == old(pending).by_request.map()[id],
{
    let keys = pending.by_request.keys();
    let mut taken: Vec<u64> = Vec::new();
    let ghost m0 = pending.by_request.map();
    let ghost e0 = pending.by_request.entries@;
    let mut i: usize = 0;
    while i < keys.len()
        invariant
            pending.by_request.wf(),
            pending.next_request_id == old(pending).next_request_id,
            i <= keys.len(),
            keys@.len() == e0.len(),
            forall|j: int| 0 <= j < keys@.len() ==> #[trigger] keys@[j] == e0[j].0,
            e0 == old(pending).by_request.entries@,
            old(pending).by_request.wf(),
            m0 == old(pending).by_request.map(),
            forall|p: u64| #[trigger] pending.by_request.map().dom().contains(p) <==> (m0.dom().contains(p)
                && !(crate::streams::seen(keys@, i as int, p) && taken_by(epochs@, matching, m0[p]))),
            forall|p: u64| #[trigger] pending.by_request.map().dom().contains(p) ==> pending.by_request.map()[p] == m0[p],
            forall|p: u64| #[trigger] taken@.contains(p) <==> (crate::streams::seen(keys@, i as int, p) && m0.dom().contains(p)
                && taken_by(epochs@, matching, m0[p])),
        decreases keys.len() - i,
    {
        let k = keys[i];
        proof {
            assert(crate::registry::key_at(e0, k, i as int));
            assert(m0.dom().contains(k));
            assert(!crate::streams::seen(keys@, i as int, k)) by {
                if crate::streams::seen(keys@, i as int, k) {
                    let j = choose|j: int| 0 <= j < i && #[trigger] keys@[j] == k;
                    assert(e0[j].0 == e0[i as int].0);
                }
            }
            assert(pending.by_request.map().dom().contains(k));
            assert forall|p: u64| p != k implies crate::streams::seen(keys@, i as int + 1, p) == crate::streams::seen(
                keys@,
                i as int,
                p,
            ) by {
                if crate::streams::seen(keys@, i as int + 1, p) {
                    let j = choose|j: int| 0 <= j < i + 1 && #[trigger] keys@[j] == p;
                    assert(j < i);
                }
            }
            assert(crate::streams::seen(keys@, i as int + 1, k)) by {
                assert(keys@[i as int] == k);
            }
        }
        let ends = match pending.by_request.get(k) {
            Some(e) => holds_epoch(epochs, *e) == matching,
            None => false,
        };
        assert(ends == taken_by(epochs@, matching, m0[k]));
        let ghost before = taken@;
        assert(!before.contains(k));
        if ends {
            pending.by_request.remove(k);
            taken.push(k);
            proof {
                assert forall|p: u64| #[trigger] taken@.contains(p) <==> (before.contains(p) || p == k) by {
                    if before.contains(p) {
                        let j = choose|j: int| 0 <= j < before.len() && before[j] == p;
                        assert(taken@[j] == p);
                    }
                    if p == k {
                        assert(taken@[before.len() as int] == k);
                    }
                }
            }
        }
        proof {
            assert forall|p: u64| taken@.contains(p) <==> (crate::streams::seen(keys@, i as int + 1, p) && m0.dom().contains(
                p,
            ) && taken_by(epochs@, matching, m0[p])) by {
                if p != k {
                    assert(crate::streams::seen(keys@, i as int + 1, p) == crate::streams::seen(keys@, i as int, p));
                    assert(taken@.contains(p) == before.contains(p));
                    assert(before.contains(p) <==> (crate::streams::seen(keys@, i as int, p) && m0.dom().contains(p)
                        && taken_by(epochs@, matching, m0[p])));
                } else {
                    assert(taken@.contains(p) == ends);
                }
            }
        }
        i = i + 1;
    }
    proof {
        assert forall|p: u64| m0.dom().contains(p) implies #[trigger] crate::streams::seen(keys@, keys@.len() as int, p) by {
            let j = choose|j: int| crate::registry::key_at(e0, p, j);
            assert(keys@[j] == p);
        }
        assert forall|p: u64| taken@.contains(p) <==> (m0.dom().contains(p) && taken_by(epochs@, matching, m0[p])) by {
            if m0.dom().contains(p) {
                assert(crate::streams::seen(keys@, keys@.len() as int, p));
            }
        }
    }
    taken
}

/// Attachment `epoch` ended: every reply held for it is taken, to be answered with an error.
/// Returns the requests whose replies were taken.
pub fn fail_epoch(pending: &mut PendingControls, epoch: u64) -> (r: Vec<u64>)
    requires
        old(pending).by_request.wf(),
    ensures
        final(pending).by_request.wf(),
        final(pending).next_request_id == old(pending).next_request_id,
        forall|id: u64| r@.contains(id) <==> old(pending).by_request.map().dom().contains(id)
            && old(pending).by_request.map()[id] == epoch,
        forall|id: u64| #[trigger] final(pending).by_request.map().dom().contains(id) <==> old(pending).by_request.map().dom().contains(id)
            && old(pending).by_request.map()[id] != epoch,
        forall|id: u64| #[trigger] final(pending).by_request.map().dom().contains(id) ==> final(pending).by_request.map()[id]
            == old(pending).by_request.map()[id],
{
    let epochs = vec![epoch];
    assert(forall|e: u64| epochs@.contains(e) <==> e == epoch) by {
        assert(epochs@[0] == epoch);
    }
    take_epochs(pending, &epochs, true)
}

/// Takes the replies held for requests whose attachment is gone without a disconnect to say so,
/// such as one replaced by a session switch: those whose epoch is not among `live`. Returns the
/// requests whose replies were taken, to be answered with an error.
pub fn forget_orphans(pending: &mut PendingControls, live: &Vec<u64>) -> (r: Vec<u64>)
    requires
        old(pending).by_request.wf(),
    ensures
        final(pending).by_request.wf(),
        final(pending).next_request_id == old(pending).next_request_id,
        forall|id: u64| r@.contains(id) <==> old(pending).by_request.map().dom().contains(id)
            && !live@.contains(old(pending).by_request.map()[id]),
        forall|id: u64| #[trigger] final(pending).by_request.map().dom().contains(id) <==> old(pending).by_request.map().dom().contains(id)
            && live@.contains(old(pending).by_request.map()[id]),
        forall|id: u64| #[trigger] final(pending).by_request.map().dom().contains(id) ==> final(pending).by_request.map()[id]
            == old(pending).by_request.map()[id],
{
    take_epochs(pending, live, false)
}

/// The recording toggles still waiting, as (attachment epoch, toggle) pairs: those of attachment
/// `epoch` are dropped. Returns whether any was.
pub fn drop_epoch_toggles(toggles: &mut Vec<(u64, u64)>, epoch: u64) -> (r: bool)
    ensures
        final(toggles)@ == old(toggles)@.filter(|t: (u64, u64)| t.0 != epoch),
        r == (final(toggles)@.len() != old(toggles)@.len()),
{
    let ghost orig = toggles@;
    let mut kept: Vec<(u64, u64)> = Vec::new();
    let mut i: usize = 0;
    while i < toggles.len()
        invariant
            i <= toggles.len(),
            toggles@ == orig,
            kept@ == orig.take(i as int).filter(|t: (u64, u64)| t.0 != epoch),
        decreases toggles.len() - i,
    {
        proof {
            assert(orig.take(i as int + 1).drop_last() =~= orig.take(i as int));
            reveal(Seq::filter);
        }
        let t = toggles[i];
        if t.0 != epoch {
            kept.push(t);
        }
        i = i + 1;
    }
    proof {
        assert(orig.take(orig.len() as int) =~= orig);
    }
    let changed = kept.len() != toggles.len();
    *toggles = kept;
    changed
}

} // verus!

verus! {

/// Request ids never come back to zero: zero means "no request".
pub proof fn lemma_request_ids_skip_zero(id: u64)
    ensures
        after_id(id) != 0,
        id < u64::MAX ==> after_id(id) == id + 1,
{
}

} // verus!
