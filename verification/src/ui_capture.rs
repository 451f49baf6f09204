//! `capture-ui`: requests answered from the next frame the client paints. Requests that arrive
//! before that paint join one batch, and the batch encodes each form asked for once and answers
//! every waiter from it.

use vstd::prelude::*;

verus! {

/// How a capture asks the frame to be encoded: the render it wants (by the number the control
/// protocol gives it), the checked PNG scale, and the checked `image_pixels`.
#[derive(Clone, Copy, Debug, PartialEq, Eq, Structural)]
pub struct CaptureForm {
    pub render: u8,
    pub scale: u8,
    pub image_pixels: bool,
}

/// The requests answered from one painted frame: each waiter's form and the connection its reply
/// goes out on; `served` once the frame has arrived.
pub struct UiCaptureBatch {
    pub waiters: Vec<(CaptureForm, u64)>,
    pub served: bool,
}

/// A `capture-ui` request with form `form`, replying on `reply`. It joins the batch waiting for
/// the next paint, when there is one the frame has not served yet; otherwise it starts a new batch,
/// which needs a paint requested. Returns whether it started one.
pub fn capture_ui(pending: &mut Option<UiCaptureBatch>, form: CaptureForm, reply: u64) -> (r: bool)
    ensures
        r == !(*old(pending) matches Some(b) && !b.served),
        !r ==> (*final(pending) matches Some(b) && b.waiters@ == old(pending)->0.waiters@.push((form, reply))
            && !b.served),
        r ==> (*final(pending) matches Some(b) && b.waiters@ == seq![(form, reply)] && !b.served),
{
    let joins = match pending {
        Some(b) => !b.served,
        None => false,
    };
    if joins {
        match pending {
            Some(b) => {
                b.waiters.push((form, reply));
            },
            None => {},
        }
        return false;
    }
    let mut waiters: Vec<(CaptureForm, u64)> = Vec::new();
    waiters.push((form, reply));
    *pending = Some(UiCaptureBatch { waiters, served: false });
    true
}

/// The frame arrived: the batch is served, and its waiters are handed over to be answered.
pub fn frame_painted(batch: &mut UiCaptureBatch) -> (r: Vec<(CaptureForm, u64)>)
    ensures
        r@ == old(batch).waiters@,
        final(batch).served,
        final(batch).waiters@.len() == 0,
{
    batch.served = true;
    let mut taken: Vec<(CaptureForm, u64)> = Vec::new();
    std::mem::swap(&mut taken, &mut batch.waiters);
    taken
}

/// The forms of `waiters`, each once, in the order first asked for.
pub open spec fn distinct_forms(waiters: Seq<(CaptureForm, u64)>) -> Seq<CaptureForm>
    decreases waiters.len(),
{
    if waiters.len() == 0 {
        Seq::empty()
    } else {
        let earlier = distinct_forms(waiters.drop_last());
        if earlier.contains(waiters.last().0) {
            earlier
        } else {
            earlier.push(waiters.last().0)
        }
    }
}

fn position_of_form(forms: &Vec<CaptureForm>, form: CaptureForm) -> (r: Option<usize>)
    ensures
        match r {
            Some(i) => i < forms@.len() && forms@[i as int] == form,
            None => !forms@.contains(form),
        },
{
    let mut i: usize = 0;
    while i < forms.len()
        invariant
            i <= forms.len(),
            forall|j: int| 0 <= j < i ==> forms@[j] != form,
        decreases forms.len() - i,
    {
        if forms[i] == form {
            return Some(i);
        }
        i = i + 1;
    }
    None
}

/// How to answer a served batch: the forms to encode, each once in the order first asked for,
/// and for each waiter, which of those encodes answers it.
pub fn encode_plan(waiters: &Vec<(CaptureForm, u64)>) -> (r: (Vec<CaptureForm>, Vec<usize>))
    ensures
        r.0@ == distinct_forms(waiters@),
        r.0@.no_duplicates(),
        r.1@.len() == waiters@.len(),
        forall|i: int| 0 <= i < waiters@.len() ==> #[trigger] r.1@[i] < r.0@.len() && r.0@[r.1@[i] as int] == waiters@[i].0,
{
    let mut forms: Vec<CaptureForm> = Vec::new();
    let mut answer_from: Vec<usize> = Vec::new();
    let mut i: usize = 0;
    while i < waiters.len()
        invariant
            i <= waiters.len(),
            forms@ == distinct_forms(waiters@.take(i as int)),
            forms@.no_duplicates(),
            answer_from@.len() == i,
            forall|k: int| 0 <= k < i ==> #[trigger] answer_from@[k] < forms@.len() && forms@[answer_from@[k] as int] == waiters@[k].0,
        decreases waiters.len() - i,
    {
        let form = waiters[i].0;
        proof {
            assert(waiters@.take(i as int + 1).drop_last() =~= waiters@.take(i as int));
            assert(waiters@.take(i as int + 1).last() == waiters@[i as int]);
        }
        match position_of_form(&forms, form) {
            Some(at) => {
                answer_from.push(at);
            },
            None => {
                let ghost before = forms@;
                forms.push(form);
                answer_from.push(forms.len() - 1);
                proof {
                    assert forall|a: int, b: int| 0 <= a < forms@.len() && 0 <= b < forms@.len() && a != b implies forms@[a]
                        != forms@[b] by {
                        if a < before.len() && b < before.len() {
                        } else if a < before.len() {
                            assert(before.contains(before[a]));
                        } else {
                            assert(before.contains(before[b]));
                        }
                    }
                }
            },
        }
        i = i + 1;
    }
    proof {
        assert(waiters@.take(i as int) =~= waiters@);
    }
    (forms, answer_from)
}

} // verus!
