//! What the dispatch loop does with one poll's events.
use vstd::prelude::*;

use crate::cable::{after_record, served_record, ReassemblyBuffer};
use crate::calc::{diff_events, CalcHandle, KeyEvent};
use crate::keyboard::{is_quit, is_quit_event, CalcKey};

verus! {

/// One poll of the key matrix: once a full record is queued, serves it with repair
/// on, makes it the calculator's current snapshot, and returns the key events.
/// Returns `None`, changing nothing, while the record is not complete; the caller
/// then feeds the buffer the next chunk.
pub fn poll_keys(buffer: &mut ReassemblyBuffer, calc: &mut CalcHandle) -> (r: Option<Vec<KeyEvent>>)
    requires
        old(buffer)@.overreads < u64::MAX,
        old(buffer)@.malformed_reads < u64::MAX,
    ensures
        ({
            let n = old(calc).model().spec_matrix_len();
            let record = served_record(old(buffer)@, n, true);
            if old(buffer)@.queue.len() < n {
                &&& r is None
                &&& final(buffer)@ == old(buffer)@
                &&& *final(calc) == *old(calc)
            } else {
                &&& r is Some
                &&& r->0@ == diff_events(old(calc).current(), record, old(calc).model().key_map())
                &&& final(buffer)@ == after_record(old(buffer)@, n, true)
                &&& final(calc).model() == old(calc).model()
                &&& final(calc).previous() == old(calc).current()
                &&& final(calc).current() == record
            }
        }),
{
    let n = calc.matrix_len();
    match buffer.next_record(n, true) {
        None => None,
        Some(record) => Some(calc.get_keys(record.as_slice())),
    }
}

/// One step for the keyboard injector to carry out.
#[derive(Clone, Copy, Debug, PartialEq, Eq, Hash, Structural)]
pub enum KeyboardAction {
    /// Press the key.
    Press(CalcKey),
    /// Release the key.
    Release(CalcKey),
    /// Flush the batch to the host as one input update.
    Sync,
    /// Stop the dispatch loop.
    Quit,
}

/// The injector call that forwards `e`.
pub open spec fn forward(e: KeyEvent) -> KeyboardAction {
    if e.1 {
        KeyboardAction::Press(e.0)
    } else {
        KeyboardAction::Release(e.0)
    }
}

/// `q` is the index of the first quit event of `events`.
pub open spec fn is_first_quit(events: Seq<KeyEvent>, q: int) -> bool {
    &&& 0 <= q < events.len()
    &&& is_quit_event(events[q].0, events[q].1)
    &&& forall|j: int| 0 <= j < q ==> !is_quit_event(#[trigger] events[j].0, events[j].1)
}

/// The actions for one batch: each event forwarded in order, then a single `Sync`;
/// where a quit event occurs, the events before the first one forwarded, then `Quit`.
pub open spec fn batch_plan(events: Seq<KeyEvent>) -> Seq<KeyboardAction> {
    if exists|q: int| is_first_quit(events, q) {
        let q = choose|q: int| is_first_quit(events, q);
        events.take(q).map_values(|e: KeyEvent| forward(e)).push(KeyboardAction::Quit)
    } else {
        events.map_values(|e: KeyEvent| forward(e)).push(KeyboardAction::Sync)
    }
}

/// There is at most one first quit event.
proof fn lemma_first_quit_unique(events: Seq<KeyEvent>, a: int, b: int)
    requires
        is_first_quit(events, a),
        is_first_quit(events, b),
    ensures
        a == b,
{
    if a < b {
        assert(!is_quit_event(events[a].0, events[a].1));
    } else if b < a {
        assert(!is_quit_event(events[b].0, events[b].1));
    }
}

/// Plans what the dispatch loop does with one poll's events.
pub fn plan_batch(events: &[KeyEvent]) -> (r: Vec<KeyboardAction>)
    ensures
        r@ == batch_plan(events@),
{
    let mut actions: Vec<KeyboardAction> = Vec::new();
    let mut i: usize = 0;
    while i < events.len()
        invariant
            i <= events@.len(),
            forall|j: int| 0 <= j < i ==> !is_quit_event(#[trigger] events@[j].0, events@[j].1),
            actions@ == events@.take(i as int).map_values(|e: KeyEvent| forward(e)),
        decreases events@.len() - i,
    {
        let (key, pressed) = events[i];
        if is_quit(key, pressed) {
            actions.push(KeyboardAction::Quit);
            proof {
                assert(is_first_quit(events@, i as int));
                assert forall|q: int| is_first_quit(events@, q) implies q == i by {
                    lemma_first_quit_unique(events@, q, i as int);
                }
            }
            return actions;
        }
        if pressed {
            actions.push(KeyboardAction::Press(key));
        } else {
            actions.push(KeyboardAction::Release(key));
        }
        proof {
            assert(events@.take(i + 1).map_values(|e: KeyEvent| forward(e)) =~= events@.take(
                i as int,
            ).map_values(|e: KeyEvent| forward(e)).push(forward(events@[i as int])));
        }
        i = i + 1;
    }
    actions.push(KeyboardAction::Sync);
    proof {
        assert(events@.take(i as int) =~= events@);
        assert(!exists|q: int| is_first_quit(events@, q));
    }
    actions
}

/// A batch with a quit event ends in `Quit` right after the events before the first
/// one: no later event is forwarded, and the batch has no `Sync`.
pub proof fn lemma_quit_ends_batch(events: Seq<KeyEvent>, q: int)
    requires
        is_first_quit(events, q),
    ensures
        batch_plan(events) == events.take(q).map_values(|e: KeyEvent| forward(e)).push(
            KeyboardAction::Quit,
        ),
        batch_plan(events).len() == q + 1,
        forall|i: int| 0 <= i < batch_plan(events).len() ==> batch_plan(events)[i] != KeyboardAction::Sync,
{
    let c = choose|p: int| is_first_quit(events, p);
    lemma_first_quit_unique(events, c, q);
}

/// A batch without a quit event forwards every event in order, then syncs once.
pub proof fn lemma_batch_syncs_once(events: Seq<KeyEvent>)
    requires
        forall|j: int| 0 <= j < events.len() ==> !is_quit_event(#[trigger] events[j].0, events[j].1),
    ensures
        batch_plan(events) == events.map_values(|e: KeyEvent| forward(e)).push(KeyboardAction::Sync),
        forall|i: int| 0 <= i < events.len() ==> batch_plan(events)[i] == forward(#[trigger] events[i]),
        forall|i: int|
            0 <= i < batch_plan(events).len() && batch_plan(events)[i] == KeyboardAction::Sync
                ==> i == events.len(),
{
    assert(!exists|q: int| is_first_quit(events, q));
}

} // verus!
