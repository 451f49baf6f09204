//! The pane side of published activity rows and agent slots, and extension subscriptions.
//!
//! A program behind a pane opens a stream and keeps it open: it writes a row list whenever its own
//! state changes and reads back the activations a user clicks. The stream's lifetime is the rows'
//! lifetime, so a publisher that exits withdraws its rows without saying so.

use vstd::prelude::*;

use crate::extensions::{decimal, decimal_u64};

use crate::model::{has_pane, position_of, PaneId, State, StateView};
use crate::json::{activation_line, activation_request};
use crate::registry::Registry;

verus! {

/// An open publish stream: its id, and the extension that opened it, if any.
#[derive(Clone, Debug, PartialEq, Eq)]
pub struct PublishStream {
    pub id: u64,
    pub extension: Option<String>,
}

/// Why a publish stream was refused.
#[derive(Clone, Copy, Debug, PartialEq, Eq, Structural)]
pub enum PublishError {
    /// The extension that asked is not active.
    ExtensionInactive,
    /// No pane was named and none is focused.
    NoPane,
    /// The named pane does not exist.
    PaneNotFound { pane: PaneId },
}

/// What a refused publish stream is answered with.
pub open spec fn publish_error_text(e: PublishError) -> Seq<char> {
    match e {
        PublishError::ExtensionInactive => "extension is not active"@,
        PublishError::NoPane => "publish requires a live pane"@,
        PublishError::PaneNotFound { pane } => "pane "@ + decimal(pane as nat) + " not found"@,
    }
}

impl PublishError {
    /// What a refused publish stream is answered with.
    pub fn message(&self) -> (r: String)
        ensures
            r@ == publish_error_text(*self),
    {
        match self {
            PublishError::ExtensionInactive => String::from_str("extension is not active"),
            PublishError::NoPane => String::from_str("publish requires a live pane"),
            PublishError::PaneNotFound { pane } => {
                let mut m = String::from_str("pane ");
                let n = decimal_u64(*pane);
                m.append(n.as_str());
                m.append(" not found");
                m
            },
        }
    }
}

/// Some workspace or the scratchpad holds a pane with `id`.
pub open spec fn pane_exists(s: StateView, id: PaneId) -> bool {
    (exists|j: int| 0 <= j < s.workspaces.len() && has_pane(#[trigger] s.workspaces[j].panes, id))
        || has_pane(s.scratch.panes, id)
}

/// Whether some workspace or the scratchpad holds a pane with `id`.
pub fn find_pane(state: &State, id: PaneId) -> (r: bool)
    ensures
        r == pane_exists(state@, id),
{
    let mut j: usize = 0;
    while j < state.session.workspaces.len()
        invariant
            j <= state.session.workspaces.len(),
            forall|k: int| 0 <= k < j ==> !has_pane(#[trigger] state@.workspaces[k].panes, id),
        decreases state.session.workspaces.len() - j,
    {
        if position_of(&state.session.workspaces[j].panes, id).is_some() {
            assert(has_pane(state@.workspaces[j as int].panes, id));
            return true;
        }
        j = j + 1;
    }
    position_of(&state.scratch.panes, id).is_some()
}

/// The pane a new publish stream attaches to, or why it is refused.
pub open spec fn publish_target(
    s: StateView,
    requested: Option<PaneId>,
    extension_active: bool,
) -> Result<PaneId, PublishError> {
    if !extension_active {
        Err(PublishError::ExtensionInactive)
    } else {
        let target = match requested {
            Some(p) => Some(p),
            None => s.focused(),
        };
        match target {
            None => Err(PublishError::NoPane),
            Some(p) => if pane_exists(s, p) {
                Ok(p)
            } else {
                Err(PublishError::PaneNotFound { pane: p })
            },
        }
    }
}

/// Register a newly opened publish stream, replacing any stream the same pane had open.
/// `extension_active` is false only for a stream opened by an extension that is no longer active.
pub fn stream_opened(
    streams: &mut Registry<PublishStream>,
    state: &State,
    stream_id: u64,
    requested_pane: Option<PaneId>,
    extension: Option<String>,
    extension_active: bool,
) -> (r: Result<PaneId, PublishError>)
    requires
        old(streams).wf(),
    ensures
        final(streams).wf(),
        r == publish_target(state@, requested_pane, extension_active),
        match r {
            Ok(p) => final(streams).map() == old(streams).map().insert(
                p,
                PublishStream { id: stream_id, extension },
            ),
            Err(_) => final(streams).map() == old(streams).map(),
        },
{
    if !extension_active {
        return Err(PublishError::ExtensionInactive);
    }
    let target = match requested_pane {
        Some(p) => Some(p),
        None => state.focused_pane(),
    };
    let pane_id = match target {
        Some(p) => p,
        None => return Err(PublishError::NoPane),
    };
    if !find_pane(state, pane_id) {
        return Err(PublishError::PaneNotFound { pane: pane_id });
    }
    streams.insert(pane_id, PublishStream { id: stream_id, extension });
    Ok(pane_id)
}

/// Pane `pane_id`'s registered stream is the stream `stream_id`.
pub open spec fn is_current_stream(m: Map<u64, PublishStream>, pane_id: PaneId, stream_id: u64) -> bool {
    m.dom().contains(pane_id) && m[pane_id].id == stream_id
}

/// Whether rows from stream `stream_id` for pane `pane_id` are to be published: only the stream
/// currently registered for the pane speaks for it.
pub fn rows_reported(streams: &Registry<PublishStream>, stream_id: u64, pane_id: PaneId) -> (r: bool)
    requires
        streams.wf(),
    ensures
        r == is_current_stream(streams.map(), pane_id, stream_id),
{
    match streams.get(pane_id) {
        Some(stream) => stream.id == stream_id,
        None => false,
    }
}

/// Stream `stream_id` closed: when it is the pane's current stream, drop it and return true, so
/// the caller withdraws the pane's rows. A stale stream closing changes nothing.
pub fn stream_closed(streams: &mut Registry<PublishStream>, stream_id: u64, pane_id: PaneId) -> (r: bool)
    requires
        old(streams).wf(),
    ensures
        final(streams).wf(),
        r == is_current_stream(old(streams).map(), pane_id, stream_id),
        r ==> final(streams).map() == old(streams).map().remove(pane_id),
        !r ==> final(streams).map() == old(streams).map(),
{
    if !rows_reported(streams, stream_id, pane_id) {
        return false;
    }
    streams.remove(pane_id);
    true
}

/// `id` is one of `stale`.
pub open spec fn named_in(stale: Seq<String>, id: Seq<char>) -> bool {
    exists|i: int| 0 <= i < stale.len() && (#[trigger] stale[i])@ == id
}

/// Whether `id` is one of `stale`.
pub fn is_named_in(stale: &Vec<String>, id: &String) -> (r: bool)
    ensures
        r == named_in(stale@, id@),
{
    let mut i: usize = 0;
    while i < stale.len()
        invariant
            i <= stale.len(),
            forall|j: int| 0 <= j < i ==> (#[trigger] stale@[j])@ != id@,
        decreases stale.len() - i,
    {
        if stale[i] == *id {
            return true;
        }
        i = i + 1;
    }
    false
}

/// Something an extension may own, such as a stream it opened.
pub trait Owned {
    /// The id of the owning extension, if an extension owns it.
    spec fn owner(&self) -> Option<Seq<char>>;

    /// Whether the owner is one of `stale`.
    fn owned_by_any(&self, stale: &Vec<String>) -> (r: bool)
        ensures
            r == is_retired(self.owner(), stale@),
    ;
}

/// The owner is one of the extensions in `stale`.
pub open spec fn is_retired(owner: Option<Seq<char>>, stale: Seq<String>) -> bool {
    match owner {
        Some(e) => named_in(stale, e),
        None => false,
    }
}

impl Owned for PublishStream {
    open spec fn owner(&self) -> Option<Seq<char>> {
        match self.extension {
            Some(e) => Some(e@),
            None => None,
        }
    }

    fn owned_by_any(&self, stale: &Vec<String>) -> (r: bool) {
        match &self.extension {
            Some(e) => is_named_in(stale, e),
            None => false,
        }
    }
}

/// Key `p` is among the first `n` of `keys`.
pub open spec fn seen(keys: Seq<u64>, n: int, p: u64) -> bool {
    exists|j: int| 0 <= j < n && #[trigger] keys[j] == p
}

/// Drop the entries owned by extensions that disappeared or materially changed during a reload.
/// Returns the keys dropped: for publish streams, the panes whose rows the caller must withdraw;
/// for subscriptions, the subscriptions the caller must cancel.
pub fn unload_extensions<V: Owned>(streams: &mut Registry<V>, stale: &Vec<String>) -> (r: Vec<u64>)
    requires
        old(streams).wf(),
    ensures
        final(streams).wf(),
        forall|p: u64| r@.contains(p) <==> old(streams).map().dom().contains(p)
            && is_retired(old(streams).map()[p].owner(), stale@),
        forall|p: u64| #[trigger] final(streams).map().dom().contains(p) <==> old(streams).map().dom().contains(p)
            && !is_retired(old(streams).map()[p].owner(), stale@),
        forall|p: u64| #[trigger] final(streams).map().dom().contains(p) ==> final(streams).map()[p]
            == old(streams).map()[p],
{
    let keys = streams.keys();
    let mut removed: Vec<PaneId> = Vec::new();
    let ghost m0 = streams.map();
    let ghost e0 = streams.entries@;
    let mut i: usize = 0;
    while i < keys.len()
        invariant
            streams.wf(),
            i <= keys.len(),
            keys@.len() == e0.len(),
            forall|j: int| 0 <= j < keys@.len() ==> #[trigger] keys@[j] == e0[j].0,
            e0 == old(streams).entries@,
            old(streams).wf(),
            m0 == old(streams).map(),
            forall|p: PaneId| #[trigger] streams.map().dom().contains(p) <==> (m0.dom().contains(p)
                && !(seen(keys@, i as int, p) && is_retired(m0[p].owner(), stale@))),
            forall|p: PaneId| #[trigger] streams.map().dom().contains(p) ==> streams.map()[p] == m0[p],
            forall|p: PaneId| removed@.contains(p) <==> (seen(keys@, i as int, p) && m0.dom().contains(p)
                && is_retired(m0[p].owner(), stale@)),
        decreases keys.len() - i,
    {
        let k = keys[i];
        proof {
            assert(crate::registry::key_at(e0, k, i as int));
            assert(m0.dom().contains(k));
            assert(!seen(keys@, i as int, k)) by {
                if seen(keys@, i as int, k) {
                    let j = choose|j: int| 0 <= j < i && #[trigger] keys@[j] == k;
                    assert(e0[j].0 == e0[i as int].0);
                }
            }
            assert(streams.map().dom().contains(k));
            assert forall|p: PaneId| p != k implies seen(keys@, i as int + 1, p) == seen(keys@, i as int, p) by {
                if seen(keys@, i as int + 1, p) {
                    let j = choose|j: int| 0 <= j < i + 1 && #[trigger] keys@[j] == p;
                    assert(j < i);
                }
            }
            assert(seen(keys@, i as int + 1, k)) by {
                assert(keys@[i as int] == k);
            }
        }
        let stale_stream = match streams.get(k) {
            Some(stream) => stream.owned_by_any(stale),
            None => false,
        };
        assert(stale_stream == is_retired(m0[k].owner(), stale@));
        let ghost old_removed = removed@;
        if stale_stream {
            streams.remove(k);
            let ghost r0 = removed@;
            removed.push(k);
            proof {
                assert forall|p: PaneId| #[trigger] removed@.contains(p) <==> (r0.contains(p) || p == k) by {
                    if r0.contains(p) {
                        let j = choose|j: int| 0 <= j < r0.len() && r0[j] == p;
                        assert(removed@[j] == p);
                    }
                    if p == k {
                        assert(removed@[r0.len() as int] == k);
                    }
                }
            }
        }
        proof {
            assert forall|p: PaneId| removed@.contains(p) <==> (seen(keys@, i as int + 1, p) && m0.dom().contains(p)
                && is_retired(m0[p].owner(), stale@)) by {
                if p != k {
                    assert(seen(keys@, i as int + 1, p) == seen(keys@, i as int, p));
                    assert(removed@.contains(p) == old_removed.contains(p));
                } else {
                    assert(removed@.contains(p) == stale_stream);
                }
            }
        }
        i = i + 1;
    }
    proof {
        assert forall|p: PaneId| m0.dom().contains(p) implies #[trigger] seen(keys@, keys@.len() as int, p) by {
            let j = choose|j: int| crate::registry::key_at(e0, p, j);
            assert(keys@[j] == p);
        }
    }
    removed
}

/// An open extension subscription: the extension that opened it.
#[derive(Clone, Debug, PartialEq, Eq)]
pub struct Subscription {
    pub extension: String,
}

impl Owned for Subscription {
    open spec fn owner(&self) -> Option<Seq<char>> {
        Some(self.extension@)
    }

    fn owned_by_any(&self, stale: &Vec<String>) -> (r: bool) {
        is_named_in(stale, &self.extension)
    }
}

/// Register subscription `id` when its extension is still active; returns whether it was taken,
/// which is the answer sent back to the subscriber.
pub fn subscription_opened(
    subscriptions: &mut Registry<Subscription>,
    id: u64,
    extension: String,
    extension_active: bool,
) -> (r: bool)
    requires
        old(subscriptions).wf(),
    ensures
        final(subscriptions).wf(),
        r == extension_active,
        r ==> final(subscriptions).map() == old(subscriptions).map().insert(id, Subscription { extension }),
        !r ==> final(subscriptions).map() == old(subscriptions).map(),
{
    if extension_active {
        subscriptions.insert(id, Subscription { extension });
    }
    extension_active
}

/// Forget subscription `id`.
pub fn subscription_closed(subscriptions: &mut Registry<Subscription>, id: u64)
    requires
        old(subscriptions).wf(),
    ensures
        final(subscriptions).wf(),
        final(subscriptions).map() == old(subscriptions).map().remove(id),
{
    subscriptions.remove(id);
}

/// Register pane `pane_id`'s newly opened agent-slot stream, replacing any stream it had open.
pub fn slot_stream_opened(slot_streams: &mut Registry<u64>, pane_id: PaneId, stream_id: u64)
    requires
        old(slot_streams).wf(),
    ensures
        final(slot_streams).wf(),
        final(slot_streams).map() == old(slot_streams).map().insert(pane_id, stream_id),
{
    slot_streams.insert(pane_id, stream_id);
}

/// Pane `pane_id`'s agent-slot publisher went away: drop its stream, and return whether it had one,
/// in which case the caller withdraws the pane's slots.
pub fn slot_stream_closed(slot_streams: &mut Registry<u64>, pane_id: PaneId) -> (r: bool)
    requires
        old(slot_streams).wf(),
    ensures
        final(slot_streams).wf(),
        r == old(slot_streams).map().dom().contains(pane_id),
        final(slot_streams).map() == old(slot_streams).map().remove(pane_id),
{
    slot_streams.remove(pane_id).is_some()
}

/// The line to write to pane `pane_id`'s publisher (of rows or of agent slots) to bring its row
/// or slot `id` on screen, when the pane has a publisher. Activation is best effort: the caller
/// focuses the pane either way.
pub fn request_activation<V>(streams: &Registry<V>, pane_id: PaneId, id: &str) -> (r: Option<String>)
    requires
        streams.wf(),
    ensures
        match r {
            Some(line) => streams.map().dom().contains(pane_id) && line@ == activation_line(id@),
            None => !streams.map().dom().contains(pane_id),
        },
{
    if streams.contains_key(pane_id) {
        Some(activation_request(id))
    } else {
        None
    }
}

/// The activation line could not be handed to pane `pane_id`'s publisher: a publisher that does
/// not drain its activations is wedged or gone, so its stream is dropped (its rows stay).
pub fn activation_undelivered<V>(streams: &mut Registry<V>, pane_id: PaneId)
    requires
        old(streams).wf(),
    ensures
        final(streams).wf(),
        final(streams).map() == old(streams).map().remove(pane_id),
{
    streams.remove(pane_id);
}

} // verus!

verus! {

/// Once a pane's stream is replaced, the replaced stream no longer speaks for the pane: its rows
/// are not reported and its closing withdraws nothing.
pub proof fn lemma_replaced_stream_is_stale(
    m: Map<u64, PublishStream>,
    pane_id: PaneId,
    old_stream: u64,
    new_stream: PublishStream,
)
    requires
        new_stream.id != old_stream,
    ensures
        !is_current_stream(m.insert(pane_id, new_stream), pane_id, old_stream),
        is_current_stream(m.insert(pane_id, new_stream), pane_id, new_stream.id),
{
}

} // verus!
