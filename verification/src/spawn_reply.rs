//! The replies of `new-pane` requests that wait for the pane's program to start: held under the
//! pane's spawn, answered once when the spawn reports or its deadline passes.

use vstd::prelude::*;

use crate::model::PaneId;

verus! {

/// One spawn a reply waits on: the runtime epoch it was asked in, whether the pane is local, the
/// pane, and the pane's PTY generation.
#[derive(Clone, Copy, Debug, PartialEq, Eq, Structural)]
pub struct SpawnKey {
    pub epoch: u64,
    pub local: bool,
    pub pane: PaneId,
    pub generation: u64,
}

/// The answer a `new-pane` request gets.
#[derive(Clone, Debug, PartialEq, Eq)]
pub enum SpawnAnswer {
    /// The pane was accepted; `pty_ready` says whether its program is running.
    Accepted { pane: PaneId, pty_ready: bool },
    /// The spawn failed outright.
    Failed(String),
}

/// The spawns with a reply waiting on them, each at most once.
pub struct SpawnReplies {
    pub held: Vec<SpawnKey>,
}

impl SpawnReplies {
    pub open spec fn wf(&self) -> bool {
        self.held@.no_duplicates()
    }

    /// The spawns a reply waits on.
    pub open spec fn waiting(&self) -> Set<SpawnKey> {
        self.held@.to_set()
    }

    pub fn new() -> (r: SpawnReplies)
        ensures
            r.wf(),
            r.waiting() == Set::<SpawnKey>::empty(),
    {
        let r = SpawnReplies { held: Vec::new() };
        assert(r.waiting() =~= Set::<SpawnKey>::empty());
        r
    }
}

/// Whether `a` answers a reply when its spawn reports: with the error of a failed spawn, else as
/// accepted with the pane's real PTY state.
pub open spec fn answers(a: SpawnAnswer, pane: PaneId, ready: bool, error: Option<Seq<char>>) -> bool {
    match error {
        Some(message) => a matches SpawnAnswer::Failed(m) && m@ == message,
        None => a == SpawnAnswer::Accepted { pane, pty_ready: ready },
    }
}

fn position_of(held: &Vec<SpawnKey>, key: SpawnKey) -> (r: Option<usize>)
    ensures
        match r {
            Some(i) => i < held@.len() && held@[i as int] == key,
            None => !held@.contains(key),
        },
{
    let mut i: usize = 0;
    while i < held.len()
        invariant
            i <= held.len(),
            forall|j: int| 0 <= j < i ==> held@[j] != key,
        decreases held.len() - i,
    {
        if held[i] == key {
            return Some(i);
        }
        i = i + 1;
    }
    None
}

/// Hold the reply of a `new-pane` request until pane `pane` (generation `generation`, if it has
/// one yet) reports its spawn. Without a generation, or without a way to schedule the deadline,
/// there is nothing to wait on: the request is answered at once as accepted with its PTY not yet
/// ready. Returns that answer, or `None` when the reply is held; the caller then schedules the
/// deadline for the same spawn.
pub fn hold_spawn_reply(
    replies: &mut SpawnReplies,
    epoch: u64,
    local: bool,
    pane: PaneId,
    generation: Option<u64>,
    can_schedule: bool,
) -> (r: Option<SpawnAnswer>)
    requires
        old(replies).wf(),
    ensures
        final(replies).wf(),
        generation is Some && can_schedule ==> {
            &&& r is None
            &&& final(replies).waiting() == old(replies).waiting().insert(
                SpawnKey { epoch, local, pane, generation: generation->0 },
            )
        },
        !(generation is Some && can_schedule) ==> {
            &&& r == Some(SpawnAnswer::Accepted { pane, pty_ready: false })
            &&& final(replies).waiting() == old(replies).waiting()
        },
{
    if !can_schedule || generation.is_none() {
        return Some(SpawnAnswer::Accepted { pane, pty_ready: false });
    }
    match generation {
        Some(g) => {
            let key = SpawnKey { epoch, local, pane, generation: g };
            match position_of(&replies.held, key) {
                Some(_) => {
                    assert(replies.waiting().insert(key) =~= replies.waiting());
                },
                None => {
                    let ghost before = replies.held@;
                    replies.held.push(key);
                    assert(replies.held@.to_set() =~= before.to_set().insert(key)) by {
                        assert forall|x: SpawnKey| replies.held@.contains(x) <==> (before.contains(x) || x == key) by {
                            if before.contains(x) {
                                let j = choose|j: int| 0 <= j < before.len() && before[j] == x;
                                assert(replies.held@[j] == x);
                            }
                            if x == key {
                                assert(replies.held@[before.len() as int] == key);
                            }
                        }
                    }
                    assert(replies.held@.no_duplicates()) by {
                        assert forall|i: int, j: int|
                            0 <= i < replies.held@.len() && 0 <= j < replies.held@.len() && i != j implies replies.held@[i]
                            != replies.held@[j] by {
                            if i < before.len() && j < before.len() {
                            } else if i < before.len() {
                                assert(before.contains(before[i]));
                            } else {
                                assert(before.contains(before[j]));
                            }
                        }
                    }
                },
            }
            None
        },
        None => Some(SpawnAnswer::Accepted { pane, pty_ready: false }),
    }
}

/// Pane `pane`'s spawn reported (or its deadline passed): the reply held for it, if one still is,
/// is taken and answered, with `error` when the spawn failed outright and otherwise with the
/// pane's real PTY state `ready`. Returns the answer, or `None` when no reply waits on that spawn.
pub fn resolve_spawn_reply(
    replies: &mut SpawnReplies,
    epoch: u64,
    pane: PaneId,
    local: bool,
    generation: u64,
    ready: bool,
    error: Option<&str>,
) -> (r: Option<SpawnAnswer>)
    requires
        old(replies).wf(),
    ensures
        final(replies).wf(),
        ({
            let key = SpawnKey { epoch, local, pane, generation };
            let message = match error {
                Some(m) => Some(m@),
                None => None,
            };
            if old(replies).waiting().contains(key) {
                &&& r matches Some(a) && answers(a, pane, ready, message)
                &&& final(replies).waiting() == old(replies).waiting().remove(key)
            } else {
                &&& r is None
                &&& final(replies).waiting() == old(replies).waiting()
            }
        }),
{
    let key = SpawnKey { epoch, local, pane, generation };
    match position_of(&replies.held, key) {
        None => None,
        Some(i) => {
            let ghost before = replies.held@;
            replies.held.remove(i);
            proof {
                assert(replies.held@ =~= before.remove(i as int));
                assert forall|x: SpawnKey| replies.held@.contains(x) <==> (before.contains(x) && x != key) by {
                    if replies.held@.contains(x) {
                        let j = choose|j: int| 0 <= j < replies.held@.len() && replies.held@[j] == x;
                        if j < i {
                            assert(before[j] == x);
                        } else {
                            assert(before[j + 1] == x);
                        }
                    }
                    if before.contains(x) && x != key {
                        let j = choose|j: int| 0 <= j < before.len() && before[j] == x;
                        if j < i {
                            assert(replies.held@[j] == x);
                        } else {
                            assert(j != i);
                            assert(replies.held@[j - 1] == x);
                        }
                    }
                }
                assert(replies.held@.to_set() =~= before.to_set().remove(key));
                assert(replies.held@.no_duplicates()) by {
                    assert forall|a: int, b: int|
                        0 <= a < replies.held@.len() && 0 <= b < replies.held@.len() && a != b implies replies.held@[a]
                        != replies.held@[b] by {
                        let a2 = if a < i { a } else { a + 1 };
                        let b2 = if b < i { b } else { b + 1 };
                        assert(replies.held@[a] == before[a2]);
                        assert(replies.held@[b] == before[b2]);
                    }
                }
            }
            match error {
                Some(message) => Some(SpawnAnswer::Failed(String::from_str(message))),
                None => Some(SpawnAnswer::Accepted { pane, pty_ready: ready }),
            }
        },
    }
}

/// A held reply is answered exactly once: holding a spawn makes a reply wait on it, and once the
/// reply has been taken no reply waits on that spawn any more, so a second report of the same
/// spawn (say its deadline after its start) answers nothing.
pub proof fn lemma_spawn_reply_answered_once(waiting: Set<SpawnKey>, key: SpawnKey)
    ensures
        waiting.insert(key).contains(key),
        !waiting.insert(key).remove(key).contains(key),
        !waiting.remove(key).contains(key),
{
}

} // verus!
