//! The Agents view's one act: going to the agent a row describes, across an attach when its
//! session is not the one on screen.

use vstd::prelude::*;

use crate::model::PaneId;

verus! {

/// Where an agent row points: a pane of the session on screen, or a pane of a session elsewhere
/// (on a remote `target`, if any). `row` names the agent among several published in one pane.
#[derive(Clone, Debug)]
pub enum AgentLocation {
    Here { pane: PaneId, row: Option<String> },
    Elsewhere { target: Option<String>, session: String, pane: PaneId, row: Option<String> },
}

/// A destination recorded until its session is in the foreground.
#[derive(Clone, Debug)]
pub struct AgentJump {
    pub target: Option<String>,
    pub session: String,
    pub pane: PaneId,
    pub row: Option<String>,
}

/// A session a host monitor reports: its name and the remote target it runs on.
#[derive(Clone, Debug)]
pub struct LiveSession {
    pub name: String,
    pub target: Option<String>,
}

pub open spec fn opt_text(s: Option<String>) -> Option<Seq<char>> {
    match s {
        Some(t) => Some(t@),
        None => None,
    }
}

fn same_opt(a: &Option<String>, b: &Option<String>) -> (r: bool)
    ensures
        r == (opt_text(*a) == opt_text(*b)),
{
    match (a, b) {
        (Some(x), Some(y)) => *x == *y,
        (None, None) => true,
        _ => false,
    }
}

/// The recorded destination's session is the one now in the foreground: same name, same target.
pub open spec fn arrived(jump: Option<AgentJump>, session_name: Option<Seq<char>>, target: Option<Seq<char>>) -> bool {
    match jump {
        Some(j) => session_name == Some(j.session@) && target == opt_text(j.target),
        None => false,
    }
}

/// Whether the recorded destination's session is now in the foreground.
pub fn pending_agent_has_arrived(jump: &Option<AgentJump>, session_name: &Option<String>, target: &Option<String>) -> (r:
    bool)
    ensures
        r == arrived(*jump, opt_text(*session_name), opt_text(*target)),
{
    match jump {
        Some(j) => {
            let same_session = match session_name {
                Some(n) => *n == j.session,
                None => false,
            };
            same_session && same_opt(target, &j.target)
        },
        None => false,
    }
}

/// Take the recorded destination when its session has arrived; the caller lands on it.
pub fn land_on_pending_agent(jump: &mut Option<AgentJump>, session_name: &Option<String>, target: &Option<String>) -> (r:
    Option<AgentJump>)
    ensures
        arrived(*old(jump), opt_text(*session_name), opt_text(*target)) ==> r == *old(jump) && *final(jump) is None,
        !arrived(*old(jump), opt_text(*session_name), opt_text(*target)) ==> r is None && *final(jump) == *old(jump),
{
    if !pending_agent_has_arrived(jump, session_name, target) {
        return None;
    }
    jump.take()
}

/// What going to an agent does first.
#[derive(Clone, Debug)]
pub enum AgentActivation {
    /// Land on the pane now (asking its publisher for `row`, if any), then close the view.
    LandHere { pane: PaneId, row: Option<String> },
    /// The session is no longer reported: nothing happens.
    Gone,
    /// Activate live session `session` (an index into the reported sessions); the destination is
    /// recorded for when it arrives.
    Activate { session: usize },
}

/// The first reported session with this name and target.
pub open spec fn session_at(sessions: Seq<LiveSession>, name: Seq<char>, target: Option<Seq<char>>, i: int) -> bool {
    &&& 0 <= i < sessions.len()
    &&& sessions[i].name@ == name && opt_text(sessions[i].target) == target
    &&& forall|k: int| 0 <= k < i ==> !(#[trigger] sessions[k].name@ == name && opt_text(sessions[k].target) == target)
}

/// Go to the agent at `location`: a pane on screen is a focus change; elsewhere, its session
/// (looked up among the reported `sessions`) is activated and the destination recorded.
pub fn activate(location: AgentLocation, sessions: &Vec<LiveSession>, jump: &mut Option<AgentJump>) -> (r: AgentActivation)
    ensures
        match location {
            AgentLocation::Here { pane, row } => r == (AgentActivation::LandHere { pane, row })
                && *final(jump) == *old(jump),
            AgentLocation::Elsewhere { target, session, pane, row } => match r {
                AgentActivation::Activate { session: i } => session_at(sessions@, session@, opt_text(target), i as int)
                    && *final(jump) == Some(AgentJump { target, session, pane, row }),
                AgentActivation::Gone => !(exists|i: int| session_at(sessions@, session@, opt_text(target), i))
                    && *final(jump) == *old(jump),
                AgentActivation::LandHere { .. } => false,
            },
        },
{
    let ghost loc = location;
    match location {
        AgentLocation::Here { pane, row } => {
            assert(loc == AgentLocation::Here { pane, row });
            AgentActivation::LandHere { pane, row }
        },
        AgentLocation::Elsewhere { target, session, pane, row } => {
            let mut i: usize = 0;
            while i < sessions.len()
                invariant
                    i <= sessions.len(),
                    loc == (AgentLocation::Elsewhere { target, session, pane, row }),
                    loc == location,
                    *jump == *old(jump),
                    forall|k: int| 0 <= k < i ==> !(#[trigger] sessions@[k].name@ == session@ && opt_text(
                        sessions@[k].target,
                    ) == opt_text(target)),
                decreases sessions.len() - i,
            {
                if sessions[i].name == session && same_opt(&sessions[i].target, &target) {
                    assert(session_at(sessions@, session@, opt_text(target), i as int));
                    *jump = Some(AgentJump { target, session, pane, row });
                    return AgentActivation::Activate { session: i };
                }
                i = i + 1;
            }
            proof {
                assert forall|c: int| !session_at(sessions@, session@, opt_text(target), c) by {
                    if session_at(sessions@, session@, opt_text(target), c) {
                        assert(!(sessions@[c].name@ == session@ && opt_text(sessions@[c].target) == opt_text(target)));
                    }
                }
            }
            AgentActivation::Gone
        },
    }
}

/// Activating the session was refused (the view is still up): the destination is dropped rather
/// than left to fire on some unrelated later attach.
pub fn activation_refused(jump: &mut Option<AgentJump>)
    ensures
        *final(jump) is None,
{
    *jump = None;
}

} // verus!
