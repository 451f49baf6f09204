//! Input the control endpoint writes to panes: written at once to a running pane, or queued, in
//! order, behind a pane whose program is still starting.

use vstd::prelude::*;

use crate::model::PaneId;

verus! {

/// The pane spawn input goes to: whether the pane is local, the pane, and its PTY generation.
#[derive(Clone, Copy, Debug, PartialEq, Eq, Structural)]
pub struct InputKey {
    pub local: bool,
    pub pane: PaneId,
    pub generation: u64,
}

/// The input queued behind starting panes, one queue per pane spawn.
pub struct PendingInput {
    pub queues: Vec<(InputKey, Vec<u8>)>,
}

impl PendingInput {
    pub open spec fn keys(&self) -> Seq<InputKey> {
        self.queues@.map_values(|q: (InputKey, Vec<u8>)| q.0)
    }

    /// No spawn has two queues.
    pub open spec fn wf(&self) -> bool {
        self.keys().no_duplicates()
    }

    /// The bytes queued for each spawn.
    pub open spec fn queued(&self) -> Map<InputKey, Seq<u8>> {
        Map::new(
            |k: InputKey| self.keys().contains(k),
            |k: InputKey| self.queues@[self.keys().index_of(k)].1@,
        )
    }
}

/// What happens to input for a pane.
#[derive(Clone, Debug, PartialEq, Eq)]
pub enum Delivery {
    /// It waits behind the starting pane.
    Queued,
    /// Write it now, carrying mark `mark` when a wait needs to know when it landed.
    Write { bytes: Vec<u8>, mark: Option<u64> },
}

/// What is queued for spawn `key` once `bytes` is added: after what was queued before.
pub open spec fn queued_after(queued: Map<InputKey, Seq<u8>>, key: InputKey, bytes: Seq<u8>) -> Map<InputKey, Seq<u8>> {
    queued.insert(
        key,
        if queued.dom().contains(key) {
            queued[key] + bytes
        } else {
            bytes
        },
    )
}

fn queue_of(queues: &Vec<(InputKey, Vec<u8>)>, key: InputKey) -> (r: Option<usize>)
    ensures
        match r {
            Some(i) => i < queues@.len() && queues@[i as int].0 == key,
            None => forall|j: int| 0 <= j < queues@.len() ==> queues@[j].0 != key,
        },
{
    let mut i: usize = 0;
    while i < queues.len()
        invariant
            i <= queues.len(),
            forall|j: int| 0 <= j < i ==> queues@[j].0 != key,
        decreases queues.len() - i,
    {
        if queues[i].0 == key {
            return Some(i);
        }
        i = i + 1;
    }
    None
}

fn append_bytes(v: &mut Vec<u8>, bytes: Vec<u8>)
    ensures
        final(v)@ == old(v)@ + bytes@,
{
    let mut i: usize = 0;
    while i < bytes.len()
        invariant
            i <= bytes.len(),
            v@ == old(v)@ + bytes@.take(i as int),
        decreases bytes.len() - i,
    {
        v.push(bytes[i]);
        assert(bytes@.take(i as int + 1) =~= bytes@.take(i as int).push(bytes@[i as int]));
        i = i + 1;
    }
    assert(bytes@.take(bytes@.len() as int) =~= bytes@);
}

/// Input `bytes` for pane spawn `key`: queued behind the pane while it is `starting`, in the
/// order it came, else written now, with `mark` when a wait asked for one.
pub fn deliver_control_input(
    pending: &mut PendingInput,
    key: InputKey,
    starting: bool,
    bytes: Vec<u8>,
    mark: Option<u64>,
) -> (r: Delivery)
    requires
        old(pending).wf(),
    ensures
        final(pending).wf(),
        starting ==> r == Delivery::Queued && final(pending).queued() == queued_after(old(pending).queued(), key, bytes@),
        !starting ==> (r matches Delivery::Write { bytes: b, mark: m } && b@ == bytes@ && m == mark)
            && final(pending).queued() == old(pending).queued(),
{
    if !starting {
        return Delivery::Write { bytes, mark };
    }
    let ghost old_queued = pending.queued();
    let ghost old_keys = pending.keys();
    match queue_of(&pending.queues, key) {
        Some(i) => {
            let ghost before = pending.queues@;
            let (k, mut queue) = pending.queues.remove(i);
            append_bytes(&mut queue, bytes);
            pending.queues.insert(i, (k, queue));
            proof {
                assert(pending.keys() =~= old_keys);
                assert(old_keys[i as int] == key);
                assert(old_keys.index_of(key) == i) by {
                    assert(old_keys.contains(key));
                    let j = old_keys.index_of(key);
                    if j != i {
                        assert(old_keys[j] == old_keys[i as int]);
                    }
                }
                assert forall|k2: InputKey| old_keys.contains(k2) && k2 != key implies old_keys.index_of(k2) != i by {
                    let j = old_keys.index_of(k2);
                    assert(old_keys[j] == k2);
                }
                assert(pending.queued() =~= queued_after(old_queued, key, bytes@));
            }
        },
        None => {
            let ghost before = pending.queues@;
            pending.queues.push((key, bytes));
            proof {
                assert(pending.keys() =~= old_keys.push(key));
                assert(!old_keys.contains(key)) by {
                    if old_keys.contains(key) {
                        let j = choose|j: int| 0 <= j < old_keys.len() && old_keys[j] == key;
                        assert(before[j].0 == key);
                    }
                }
                assert(pending.wf()) by {
                    assert forall|a: int, b: int|
                        0 <= a < pending.keys().len() && 0 <= b < pending.keys().len() && a != b implies pending.keys()[a]
                        != pending.keys()[b] by {
                        if a < old_keys.len() && b < old_keys.len() {
                        } else if a < old_keys.len() {
                            assert(old_keys.contains(old_keys[a]));
                        } else {
                            assert(old_keys.contains(old_keys[b]));
                        }
                    }
                }
                assert forall|k2: InputKey| old_keys.contains(k2) implies pending.keys().index_of(k2) == old_keys.index_of(k2) by {
                    let j = old_keys.index_of(k2);
                    assert(pending.keys()[j] == k2);
                    assert(pending.keys().contains(k2));
                    let j2 = pending.keys().index_of(k2);
                    if j2 != j {
                        assert(pending.keys()[j2] == pending.keys()[j]);
                    }
                }
                assert(pending.keys()[old_keys.len() as int] == key);
                assert(pending.keys().index_of(key) == old_keys.len()) by {
                    assert(pending.keys().contains(key));
                    let j2 = pending.keys().index_of(key);
                    if j2 != old_keys.len() {
                        assert(pending.keys()[j2] == pending.keys()[old_keys.len() as int]);
                    }
                }
                assert forall|k2: InputKey| pending.keys().contains(k2) <==> (old_keys.contains(k2) || k2 == key) by {
                    if pending.keys().contains(k2) {
                        let j = choose|j: int| 0 <= j < pending.keys().len() && pending.keys()[j] == k2;
                        if j < old_keys.len() {
                            assert(old_keys[j] == k2);
                        }
                    }
                    if old_keys.contains(k2) {
                        let j = choose|j: int| 0 <= j < old_keys.len() && old_keys[j] == k2;
                        assert(pending.keys()[j] == k2);
                    }
                }
                assert forall|k2: InputKey| #[trigger] old_keys.contains(k2) implies pending.queued()[k2] == old_queued[k2] by {
                    let j = old_keys.index_of(k2);
                    assert(pending.queues@[j] == before[j]);
                }
                assert(pending.queued()[key] == bytes@);
                assert(pending.queued() =~= queued_after(old_queued, key, bytes@));
            }
        },
    }
    Delivery::Queued
}

/// The pane of spawn `key` started: its queued input is taken, to be written as one batch.
/// Returns it, or `None` when nothing was queued for that spawn.
pub fn take_queued(pending: &mut PendingInput, key: InputKey) -> (r: Option<Vec<u8>>)
    requires
        old(pending).wf(),
    ensures
        final(pending).wf(),
        old(pending).queued().dom().contains(key) ==> (r matches Some(b) && b@ == old(pending).queued()[key])
            && final(pending).queued() == old(pending).queued().remove(key),
        !old(pending).queued().dom().contains(key) ==> r is None && final(pending).queued() == old(pending).queued(),
{
    let ghost old_queued = pending.queued();
    let ghost old_keys = pending.keys();
    let ghost before = pending.queues@;
    match queue_of(&pending.queues, key) {
        None => {
            assert(!old_keys.contains(key)) by {
                if old_keys.contains(key) {
                    let j = choose|j: int| 0 <= j < old_keys.len() && old_keys[j] == key;
                    assert(before[j].0 == key);
                }
            }
            None
        },
        Some(i) => {
            let (_, bytes) = pending.queues.remove(i);
            proof {
                assert(old_keys[i as int] == key);
                assert(old_keys.index_of(key) == i) by {
                    let j = old_keys.index_of(key);
                    if j != i {
                        assert(old_keys[j] == old_keys[i as int]);
                    }
                }
                assert(pending.keys() =~= old_keys.remove(i as int));
                assert(pending.wf()) by {
                    assert forall|a: int, b: int|
                        0 <= a < pending.keys().len() && 0 <= b < pending.keys().len() && a != b implies pending.keys()[a]
                        != pending.keys()[b] by {
                        let a2 = if a < i { a } else { a + 1 };
                        let b2 = if b < i { b } else { b + 1 };
                        assert(pending.keys()[a] == old_keys[a2]);
                        assert(pending.keys()[b] == old_keys[b2]);
                    }
                }
                assert forall|k2: InputKey| pending.keys().contains(k2) <==> (old_keys.contains(k2) && k2 != key) by {
                    if pending.keys().contains(k2) {
                        let j = choose|j: int| 0 <= j < pending.keys().len() && pending.keys()[j] == k2;
                        let j2 = if j < i { j } else { j + 1 };
                        assert(old_keys[j2] == k2);
                        assert(j2 != i);
                    }
                    if old_keys.contains(k2) && k2 != key {
                        let j = choose|j: int| 0 <= j < old_keys.len() && old_keys[j] == k2;
                        assert(j != i);
                        let j2 = if j < i { j } else { j - 1 };
                        assert(pending.keys()[j2] == k2);
                    }
                }
                assert forall|k2: InputKey| #[trigger] pending.keys().contains(k2) implies pending.queued()[k2] == old_queued[k2] by {
                    let j = pending.keys().index_of(k2);
                    let j2 = if j < i { j } else { j + 1 };
                    assert(pending.queues@[j] == before[j2]);
                    assert(old_keys[j2] == k2);
                    assert(old_keys.index_of(k2) == j2) by {
                        let m = old_keys.index_of(k2);
                        if m != j2 {
                            assert(old_keys[m] == old_keys[j2]);
                        }
                    }
                }
                assert(pending.queued() =~= old_queued.remove(key));
            }
            Some(bytes)
        },
    }
}

/// Input queued behind a starting pane comes out whole and in the order it was sent: after
/// queueing `first` and then `second` for a spawn with nothing queued, taking its queue gives
/// `first` followed by `second`.
pub proof fn lemma_queued_input_keeps_its_order(
    queued: Map<InputKey, Seq<u8>>,
    key: InputKey,
    first: Seq<u8>,
    second: Seq<u8>,
)
    requires
        !queued.dom().contains(key),
    ensures
        queued_after(queued_after(queued, key, first), key, second)[key] == first + second,
        queued_after(queued_after(queued, key, first), key, second).remove(key) == queued,
{
    assert(queued_after(queued_after(queued, key, first), key, second).remove(key) =~= queued);
}

} // verus!
