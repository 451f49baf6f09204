//! Pane waits on the UI control endpoint: `capture-pane`, `send-text` and `send-keys` holding their
//! reply until a pane's screen shows some text or settles.
//!
//! A send writes its input marked; the wait takes its baseline when the server answers the mark.
//! Each wait moves from queued (input waiting behind a starting pane) to marking (input on its
//! way) to watching (comparing the screen), and ends ready, timed out, closed or exited.

use vstd::prelude::*;

use crate::model::PaneId;

verus! {

/// Where a wait is in its life.
#[derive(Clone, Copy, Debug, PartialEq, Eq, Structural)]
pub enum Stage {
    /// Input is queued behind a pane that is still starting.
    Queued,
    /// Input is on its way; the wait starts when the server's mark `token` comes back.
    Marking { token: u64 },
    /// The screen is being watched.
    Watching,
}

/// One pane wait this client is holding a reply for.
#[derive(Clone, Copy, Debug, PartialEq, Eq, Structural)]
pub struct UiCaptureWait {
    /// The attachment epoch the wait was registered under.
    pub epoch: u64,
    pub pane_id: PaneId,
    pub local: bool,
    pub generation: u64,
    /// When the request came in; its deadline runs from here.
    pub started_ms: u64,
    pub timeout_ms: u64,
    pub stage: Stage,
    /// The control connection the reply goes out on.
    pub reply: u64,
}

/// Every pane wait this client is holding a reply for.
pub struct UiCaptureWaits {
    pub waits: Vec<UiCaptureWait>,
    pub next_token: u64,
    pub ticking: bool,
}

/// A pane as the waits see it.
#[derive(Clone, Copy, Debug, PartialEq, Eq, Structural)]
pub struct WaitPane {
    pub id: PaneId,
    pub local: bool,
    pub generation: u64,
    pub closing: bool,
    pub running: bool,
}

/// What a watched screen reports.
#[derive(Clone, Copy, Debug, PartialEq, Eq, Structural)]
pub enum WaitStatus {
    Pending,
    Ready,
    TimedOut,
}

/// How a wait ended.
#[derive(Clone, Copy, Debug, PartialEq, Eq, Structural)]
pub enum WaitEnd {
    Ready,
    TimedOut,
    /// The pane closed or was replaced.
    Closed,
    /// The pane's program exited before the wait was satisfied.
    Exited,
    /// The session this pane belongs to was detached while waiting.
    Detached,
}

/// A finished wait: the reply channel and how it ended.
#[derive(Clone, Copy, Debug, PartialEq, Eq, Structural)]
pub struct WaitAnswer {
    pub reply: u64,
    pub end: WaitEnd,
}

impl UiCaptureWaits {
    /// A fresh mark token: one past the last.
    pub fn next_token(&mut self) -> (t: u64)
        requires
            old(self).next_token < u64::MAX,
        ensures
            t == old(self).next_token + 1,
            final(self).next_token == t,
            final(self).waits == old(self).waits,
            final(self).ticking == old(self).ticking,
    {
        self.next_token = self.next_token + 1;
        self.next_token
    }
}

/// Holds a new wait on pane `(pane_id, local, generation)`. `input` is `None` for a plain wait,
/// which watches the screen at once, and `Some(starting)` for a wait after a send: that one draws
/// a fresh mark token and waits behind the pane while the pane is still starting, else on the
/// mark. Returns the stage the wait starts in.
pub fn register(
    waits: &mut UiCaptureWaits,
    epoch: u64,
    pane_id: PaneId,
    local: bool,
    generation: u64,
    started_ms: u64,
    timeout_ms: u64,
    reply: u64,
    input: Option<bool>,
) -> (r: Stage)
    requires
        old(waits).next_token < u64::MAX,
    ensures
        r == match input {
            None => Stage::Watching,
            Some(true) => Stage::Queued,
            Some(false) => Stage::Marking { token: (old(waits).next_token + 1) as u64 },
        },
        final(waits).next_token == if input is Some {
            old(waits).next_token + 1
        } else {
            old(waits).next_token as int
        },
        final(waits).waits@ == old(waits).waits@.push(
            UiCaptureWait { epoch, pane_id, local, generation, started_ms, timeout_ms, stage: r, reply },
        ),
        final(waits).ticking == old(waits).ticking,
{
    let stage = match input {
        None => Stage::Watching,
        Some(starting) => {
            let token = waits.next_token();
            if starting {
                Stage::Queued
            } else {
                Stage::Marking { token }
            }
        },
    };
    waits.waits.push(UiCaptureWait { epoch, pane_id, local, generation, started_ms, timeout_ms, stage, reply });
    stage
}

/// After a wait was registered and looked at once: the tick loop starts when waits remain and it
/// is not already running. Returns whether it has to be scheduled.
pub fn start_ticking(waits: &mut UiCaptureWaits) -> (r: bool)
    ensures
        r == (old(waits).waits@.len() > 0 && !old(waits).ticking),
        final(waits).ticking == (old(waits).ticking || r),
        final(waits).waits == old(waits).waits,
        final(waits).next_token == old(waits).next_token,
{
    if waits.waits.len() == 0 || waits.ticking {
        return false;
    }
    waits.ticking = true;
    true
}

/// A tick looked at every wait: the loop goes on exactly while waits remain. Returns whether the
/// next tick has to be scheduled.
pub fn continue_ticking(waits: &mut UiCaptureWaits) -> (r: bool)
    ensures
        r == (old(waits).waits@.len() > 0),
        final(waits).ticking == r,
        final(waits).waits == old(waits).waits,
        final(waits).next_token == old(waits).next_token,
{
    waits.ticking = waits.waits.len() > 0;
    waits.ticking
}

/// The wait is queued behind pane `(pane_id, generation, local)`.
pub open spec fn queued_on(w: UiCaptureWait, pane_id: PaneId, generation: u64, local: bool) -> bool {
    w.stage == Stage::Queued && w.pane_id == pane_id && w.generation == generation && w.local == local
}

/// `waits` with every wait queued on the pane switched to marking with `token`.
pub open spec fn marked_with(
    waits: Seq<UiCaptureWait>,
    pane_id: PaneId,
    generation: u64,
    local: bool,
    token: u64,
) -> Seq<UiCaptureWait> {
    Seq::new(
        waits.len(),
        |i: int|
            if queued_on(waits[i], pane_id, generation, local) {
                UiCaptureWait { stage: Stage::Marking { token }, ..waits[i] }
            } else {
                waits[i]
            },
    )
}

/// A starting pane's queued input is about to be written: the mark it should carry, when a send
/// queued behind that pane is waiting on it. Every such wait shares the one mark.
pub fn mark_queued_input(
    waits: &mut UiCaptureWaits,
    pane_id: PaneId,
    generation: u64,
    local: bool,
) -> (r: Option<u64>)
    requires
        old(waits).next_token < u64::MAX,
    ensures
        (exists|i: int| 0 <= i < old(waits).waits@.len() && queued_on(#[trigger] old(waits).waits@[i], pane_id, generation, local))
            ==> r == Some((old(waits).next_token + 1) as u64)
            && final(waits).next_token == old(waits).next_token + 1
            && final(waits).waits@ == marked_with(old(waits).waits@, pane_id, generation, local, r->0),
        !(exists|i: int| 0 <= i < old(waits).waits@.len() && queued_on(#[trigger] old(waits).waits@[i], pane_id, generation, local))
            ==> r is None && final(waits).waits@ == old(waits).waits@
            && final(waits).next_token == old(waits).next_token,
        final(waits).ticking == old(waits).ticking,
{
    let mut any = false;
    let mut i: usize = 0;
    while i < waits.waits.len()
        invariant
            i <= waits.waits.len(),
            any == exists|j: int| 0 <= j < i && queued_on(#[trigger] waits.waits@[j], pane_id, generation, local),
        decreases waits.waits.len() - i,
    {
        let w = waits.waits[i];
        if w.stage == Stage::Queued && w.pane_id == pane_id && w.generation == generation && w.local == local {
            any = true;
        }
        i = i + 1;
    }
    if !any {
        return None;
    }
    let token = waits.next_token();
    let ghost original = waits.waits@;
    let mut k: usize = 0;
    while k < waits.waits.len()
        invariant
            waits.waits@.len() == original.len(),
            k <= original.len(),
            forall|j: int| 0 <= j < k ==> #[trigger] waits.waits@[j] == marked_with(original, pane_id, generation, local, token)[j],
            forall|j: int| k <= j < original.len() ==> #[trigger] waits.waits@[j] == original[j],
            waits.next_token == token,
            waits.ticking == old(waits).ticking,
        decreases original.len() - k,
    {
        let w = waits.waits[k];
        if w.stage == Stage::Queued && w.pane_id == pane_id && w.generation == generation && w.local == local {
            waits.waits.set(k, UiCaptureWait { stage: Stage::Marking { token }, ..w });
        }
        k = k + 1;
    }
    assert(waits.waits@ =~= marked_with(original, pane_id, generation, local, token));
    Some(token)
}

/// `panes` holds a non-closing pane `(id, local)` of `generation`.
pub open spec fn pane_matches(p: WaitPane, id: PaneId, local: bool, generation: u64) -> bool {
    p.id == id && p.local == local && p.generation == generation && !p.closing
}

/// The first pane of `panes` that is `(id, local)` of `generation` and not closing.
pub open spec fn found_pane(panes: Seq<WaitPane>, id: PaneId, local: bool, generation: u64) -> Option<WaitPane>
    decreases panes.len(),
{
    if panes.len() == 0 {
        None
    } else if pane_matches(panes[0], id, local, generation) {
        Some(panes[0])
    } else {
        found_pane(panes.drop_first(), id, local, generation)
    }
}

fn find_wait_pane(panes: &Vec<WaitPane>, id: PaneId, local: bool, generation: u64) -> (r: Option<WaitPane>)
    ensures
        r == found_pane(panes@, id, local, generation),
{
    let mut i: usize = 0;
    assert(panes@.skip(0) =~= panes@);
    while i < panes.len()
        invariant
            i <= panes.len(),
            found_pane(panes@, id, local, generation) == found_pane(panes@.skip(i as int), id, local, generation),
        decreases panes.len() - i,
    {
        assert(panes@.skip(i as int).drop_first() =~= panes@.skip(i as int + 1));
        let p = panes[i];
        if p.id == id && p.local == local && p.generation == generation && !p.closing {
            return Some(p);
        }
        i = i + 1;
    }
    None
}

/// The server answered mark `token`: every wait marking with it whose pane is still there starts
/// watching. Returns whether any wait carried the mark.
pub open spec fn marks_answered(waits: Seq<UiCaptureWait>, token: u64, panes: Seq<WaitPane>) -> Seq<UiCaptureWait> {
    Seq::new(
        waits.len(),
        |i: int|
            if waits[i].stage == (Stage::Marking { token }) && found_pane(
                panes,
                waits[i].pane_id,
                waits[i].local,
                waits[i].generation,
            ) is Some {
                UiCaptureWait { stage: Stage::Watching, ..waits[i] }
            } else {
                waits[i]
            },
    )
}

/// The server answered mark `token`: that send's input has reached the pane, so the waits marking
/// with it start watching its screen. Returns whether any wait carried the mark, in which case the
/// caller evaluates them.
pub fn input_marked(waits: &mut UiCaptureWaits, token: u64, panes: &Vec<WaitPane>) -> (r: bool)
    ensures
        final(waits).waits@ == marks_answered(old(waits).waits@, token, panes@),
        r == exists|i: int| 0 <= i < old(waits).waits@.len() && (#[trigger] old(waits).waits@[i]).stage == (Stage::Marking { token }),
        final(waits).next_token == old(waits).next_token,
        final(waits).ticking == old(waits).ticking,
{
    let ghost original = waits.waits@;
    let mut marked = false;
    let mut k: usize = 0;
    while k < waits.waits.len()
        invariant
            waits.waits@.len() == original.len(),
            k <= original.len(),
            forall|j: int| 0 <= j < k ==> #[trigger] waits.waits@[j] == marks_answered(original, token, panes@)[j],
            forall|j: int| k <= j < original.len() ==> #[trigger] waits.waits@[j] == original[j],
            marked == exists|j: int| 0 <= j < k && (#[trigger] original[j]).stage == (Stage::Marking { token }),
            waits.next_token == old(waits).next_token,
            waits.ticking == old(waits).ticking,
        decreases original.len() - k,
    {
        let w = waits.waits[k];
        if w.stage == (Stage::Marking { token }) {
            marked = true;
            if find_wait_pane(panes, w.pane_id, w.local, w.generation).is_some() {
                waits.waits.set(k, UiCaptureWait { stage: Stage::Watching, ..w });
            }
        }
        k = k + 1;
    }
    assert(waits.waits@ =~= marks_answered(original, token, panes@));
    marked
}

/// How wait `w` ends now, or `None` while it is still pending. `watching` is what its screen
/// reports when it is watching.
pub open spec fn wait_end(
    w: UiCaptureWait,
    runtime_epoch: u64,
    panes: Seq<WaitPane>,
    now_ms: u64,
    watching: WaitStatus,
) -> Option<WaitEnd> {
    if !w.local && w.epoch != runtime_epoch {
        Some(WaitEnd::Detached)
    } else {
        match found_pane(panes, w.pane_id, w.local, w.generation) {
            None => Some(WaitEnd::Closed),
            Some(p) => {
                let status = match w.stage {
                    Stage::Watching => watching,
                    _ => if now_ms >= w.started_ms && now_ms - w.started_ms >= w.timeout_ms {
                        WaitStatus::TimedOut
                    } else {
                        WaitStatus::Pending
                    },
                };
                match status {
                    WaitStatus::Ready => Some(WaitEnd::Ready),
                    WaitStatus::TimedOut => Some(WaitEnd::TimedOut),
                    WaitStatus::Pending => if !p.running {
                        Some(WaitEnd::Exited)
                    } else {
                        None
                    },
                }
            },
        }
    }
}

/// The wait is one `evaluate` looks at.
pub open spec fn in_scope(w: UiCaptureWait, only: Option<(PaneId, bool)>) -> bool {
    match only {
        Some((id, local)) => w.pane_id == id && w.local == local,
        None => true,
    }
}

/// The outcome of evaluating wait `i`: `None` keeps it.
pub open spec fn outcome(
    waits: Seq<UiCaptureWait>,
    i: int,
    only: Option<(PaneId, bool)>,
    runtime_epoch: u64,
    panes: Seq<WaitPane>,
    now_ms: u64,
    watching: Seq<WaitStatus>,
) -> Option<WaitEnd> {
    if in_scope(waits[i], only) {
        wait_end(waits[i], runtime_epoch, panes, now_ms, watching[i])
    } else {
        None
    }
}

/// The waits `evaluate` keeps, in order, among the first `n`.
pub open spec fn kept(
    waits: Seq<UiCaptureWait>,
    n: int,
    only: Option<(PaneId, bool)>,
    runtime_epoch: u64,
    panes: Seq<WaitPane>,
    now_ms: u64,
    watching: Seq<WaitStatus>,
) -> Seq<UiCaptureWait>
    decreases n,
{
    if n <= 0 {
        Seq::empty()
    } else {
        let rest = kept(waits, n - 1, only, runtime_epoch, panes, now_ms, watching);
        if outcome(waits, n - 1, only, runtime_epoch, panes, now_ms, watching) is None {
            rest.push(waits[n - 1])
        } else {
            rest
        }
    }
}

/// The answers `evaluate` sends, in order, among the first `n` waits.
pub open spec fn answered(
    waits: Seq<UiCaptureWait>,
    n: int,
    only: Option<(PaneId, bool)>,
    runtime_epoch: u64,
    panes: Seq<WaitPane>,
    now_ms: u64,
    watching: Seq<WaitStatus>,
) -> Seq<WaitAnswer>
    decreases n,
{
    if n <= 0 {
        Seq::empty()
    } else {
        let rest = answered(waits, n - 1, only, runtime_epoch, panes, now_ms, watching);
        match outcome(waits, n - 1, only, runtime_epoch, panes, now_ms, watching) {
            Some(end) => rest.push(WaitAnswer { reply: waits[n - 1].reply, end }),
            None => rest,
        }
    }
}

/// Look again at the waits on `only` (a pane that just changed), or at all of them, and answer
/// every one that has ended. `watching[i]` is what wait `i`'s screen reports at `now_ms`. Returns
/// the answers to send, in wait order; the pending waits stay, in order.
pub fn evaluate(
    waits: &mut UiCaptureWaits,
    only: Option<(PaneId, bool)>,
    runtime_epoch: u64,
    panes: &Vec<WaitPane>,
    now_ms: u64,
    watching: &Vec<WaitStatus>,
) -> (r: Vec<WaitAnswer>)
    requires
        watching.len() == old(waits).waits.len(),
    ensures
        ({
            let w = old(waits).waits@;
            let n = w.len() as int;
            &&& final(waits).waits@ == kept(w, n, only, runtime_epoch, panes@, now_ms, watching@)
            &&& r@ == answered(w, n, only, runtime_epoch, panes@, now_ms, watching@)
        }),
        final(waits).next_token == old(waits).next_token,
        final(waits).ticking == old(waits).ticking,
{
    let mut keep: Vec<UiCaptureWait> = Vec::new();
    let mut answers: Vec<WaitAnswer> = Vec::new();
    let ghost w = waits.waits@;
    let mut i: usize = 0;
    while i < waits.waits.len()
        invariant
            w == waits.waits@,
            watching.len() == w.len(),
            i <= w.len(),
            keep@ == kept(w, i as int, only, runtime_epoch, panes@, now_ms, watching@),
            answers@ == answered(w, i as int, only, runtime_epoch, panes@, now_ms, watching@),
        decreases w.len() - i,
    {
        let wait = waits.waits[i];
        let scoped = match only {
            Some((id, local)) => wait.pane_id == id && wait.local == local,
            None => true,
        };
        let mut end: Option<WaitEnd> = None;
        if scoped {
            if !wait.local && wait.epoch != runtime_epoch {
                end = Some(WaitEnd::Detached);
            } else {
                match find_wait_pane(panes, wait.pane_id, wait.local, wait.generation) {
                    None => {
                        end = Some(WaitEnd::Closed);
                    },
                    Some(p) => {
                        let status = match wait.stage {
                            Stage::Watching => watching[i],
                            _ => {
                                if now_ms >= wait.started_ms && now_ms - wait.started_ms >= wait.timeout_ms {
                                    WaitStatus::TimedOut
                                } else {
                                    WaitStatus::Pending
                                }
                            },
                        };
                        end = match status {
                            WaitStatus::Ready => Some(WaitEnd::Ready),
                            WaitStatus::TimedOut => Some(WaitEnd::TimedOut),
                            WaitStatus::Pending => {
                                if !p.running {
                                    Some(WaitEnd::Exited)
                                } else {
                                    None
                                }
                            },
                        };
                    },
                }
            }
        }
        assert(end == outcome(w, i as int, only, runtime_epoch, panes@, now_ms, watching@));
        match end {
            Some(e) => answers.push(WaitAnswer { reply: wait.reply, end: e }),
            None => keep.push(wait),
        }
        i = i + 1;
    }
    waits.waits = keep;
    answers
}

/// Every wait is either kept or answered, never both and never neither: the kept waits and the
/// answers together number as many as the waits looked at.
pub proof fn lemma_evaluate_partitions(
    waits: Seq<UiCaptureWait>,
    n: int,
    only: Option<(PaneId, bool)>,
    runtime_epoch: u64,
    panes: Seq<WaitPane>,
    now_ms: u64,
    watching: Seq<WaitStatus>,
)
    requires
        0 <= n,
    ensures
        kept(waits, n, only, runtime_epoch, panes, now_ms, watching).len() + answered(
            waits,
            n,
            only,
            runtime_epoch,
            panes,
            now_ms,
            watching,
        ).len() == n,
    decreases n,
{
    if n > 0 {
        lemma_evaluate_partitions(waits, n - 1, only, runtime_epoch, panes, now_ms, watching);
    }
}

/// A wait outside the scope of `only` is always kept by that evaluation.
pub proof fn lemma_out_of_scope_kept(
    waits: Seq<UiCaptureWait>,
    i: int,
    only: Option<(PaneId, bool)>,
    runtime_epoch: u64,
    panes: Seq<WaitPane>,
    now_ms: u64,
    watching: Seq<WaitStatus>,
)
    requires
        0 <= i < waits.len(),
        !in_scope(waits[i], only),
    ensures
        outcome(waits, i, only, runtime_epoch, panes, now_ms, watching) is None,
{
}

} // verus!
