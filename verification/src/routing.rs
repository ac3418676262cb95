//! What the dispatch loop guarantees over a whole stream of frames.
//!
//! [`run`] folds [`step`] over the frames that a connection reads, in the
//! order in which they arrive. The lemmas below hold for every order, so they
//! hold however the responses to concurrent calls interleave.

use crate::call_id::lemma_ids_unique;
use crate::call_id::nth_id;
use crate::connection::step;
use crate::connection::Meaning;
use crate::connection::Step;
use crate::wire::ResponseView;
use vstd::prelude::*;

verus! {

/// The outcome of the dispatch loop over a sequence of frames.
pub struct Run<S> {
    /// The calls still in flight when the frames ran out. Empty once the
    /// stream has ended.
    pub pending: Map<usize, S>,
    /// The calls that were given up because the stream ended before their
    /// response came: their waiters observe a closed connection.
    pub abandoned: Map<usize, S>,
    /// The slots that were fulfilled, each with its response, in order.
    pub deliveries: Seq<(S, ResponseView)>,
}

/// Runs the dispatch loop over `frames`, starting with the calls in
/// `pending`. The loop ends at the first end-of-stream frame and gives up
/// the calls that are in flight then.
pub open spec fn run<S>(pending: Map<usize, S>, frames: Seq<Meaning>) -> Run<S>
    decreases frames.len(),
{
    if frames.len() == 0 {
        Run { pending, abandoned: Map::empty(), deliveries: Seq::empty() }
    } else {
        let first = step(pending, frames[0]);
        if first.stop {
            Run { pending: first.pending, abandoned: pending, deliveries: Seq::empty() }
        } else {
            let rest = run(first.pending, frames.drop_first());
            Run {
                pending: rest.pending,
                abandoned: rest.abandoned,
                deliveries: match first.delivery {
                    Some(delivery) => seq![delivery] + rest.deliveries,
                    None => rest.deliveries,
                },
            }
        }
    }
}

/// The table after registering `slots` under consecutive ids, the first of
/// them under `start`: what a series of calls leaves in the table.
pub open spec fn enrolled<S>(pending: Map<usize, S>, start: usize, slots: Seq<S>) -> Map<usize, S>
    decreases slots.len(),
{
    if slots.len() == 0 {
        pending
    } else {
        enrolled(pending, start, slots.drop_last()).insert(
            nth_id(start, (slots.len() - 1) as nat),
            slots.last(),
        )
    }
}

/// A turn of the loop never adds a call to the table, and never changes the
/// slot of a call that stays.
pub proof fn lemma_step_only_removes<S>(pending: Map<usize, S>, frame: Meaning, id: usize)
    requires
        step(pending, frame).pending.contains_key(id),
    ensures
        pending.contains_key(id),
        step(pending, frame).pending[id] == pending[id],
{
}

/// A response under an id that nobody waits for is discarded: no slot is
/// fulfilled, the table stays as it is, and the loop goes on.
pub proof fn lemma_unknown_response_is_discarded<S>(pending: Map<usize, S>, response: ResponseView)
    requires
        !pending.contains_key(response.id),
    ensures
        step(pending, Meaning::Response(response)) == (Step {
            pending,
            delivery: None,
            stop: false,
        }),
{
}

/// Once a call has been answered, a second response under its id is
/// discarded, and the first left every other pending call as it was.
pub proof fn lemma_answered_call_is_consumed<S>(
    pending: Map<usize, S>,
    first: ResponseView,
    second: ResponseView,
)
    requires
        first.id == second.id,
    ensures
        ({
            let after = step(pending, Meaning::Response(first)).pending;
            &&& step(after, Meaning::Response(second)) == (Step {
                pending: after,
                delivery: None,
                stop: false,
            })
            &&& forall|other: usize|
                other != first.id ==> (after.contains_key(other) <==> pending.contains_key(other))
                    && (after.contains_key(other) ==> after[other] == pending[other])
        }),
{
}

/// Every response that the loop delivers goes to the slot that was registered
/// under the response's id.
pub proof fn lemma_delivery_matches_call<S>(pending: Map<usize, S>, frames: Seq<Meaning>, k: int)
    requires
        0 <= k < run(pending, frames).deliveries.len(),
    ensures
        pending.contains_key(run(pending, frames).deliveries[k].1.id),
        run(pending, frames).deliveries[k].0 == pending[run(pending, frames).deliveries[k].1.id],
    decreases frames.len(),
{
    let first = step(pending, frames[0]);
    let rest = run(first.pending, frames.drop_first());
    match first.delivery {
        Some(delivery) => {
            if k > 0 {
                lemma_delivery_matches_call(first.pending, frames.drop_first(), k - 1);
            }
        },
        None => {
            lemma_delivery_matches_call(first.pending, frames.drop_first(), k);
        },
    }
}

/// No call is answered twice: two deliveries of one run never carry the same
/// id.
pub proof fn lemma_at_most_one_delivery_per_call<S>(
    pending: Map<usize, S>,
    frames: Seq<Meaning>,
    j: int,
    k: int,
)
    requires
        0 <= j < k < run(pending, frames).deliveries.len(),
    ensures
        run(pending, frames).deliveries[j].1.id != run(pending, frames).deliveries[k].1.id,
    decreases frames.len(),
{
    let first = step(pending, frames[0]);
    match first.delivery {
        Some(delivery) => {
            if j == 0 {
                lemma_delivery_matches_call(first.pending, frames.drop_first(), k - 1);
            } else {
                lemma_at_most_one_delivery_per_call(
                    first.pending,
                    frames.drop_first(),
                    j - 1,
                    k - 1,
                );
            }
        },
        None => {
            lemma_at_most_one_delivery_per_call(first.pending, frames.drop_first(), j, k);
        },
    }
}

/// Whether some delivery of the sequence answers the call `id`.
pub open spec fn answers<S>(deliveries: Seq<(S, ResponseView)>, id: usize) -> bool {
    exists|k: int| 0 <= k < deliveries.len() && (#[trigger] deliveries[k]).1.id == id
}

/// The loop loses no call and invents none. A call that was pending ends in
/// exactly one way: it is answered, or it is given up at the end of the
/// stream, or it is still pending when the frames run out. Whatever is pending
/// or given up afterwards was pending before, with the same slot.
pub proof fn lemma_calls_are_conserved<S>(pending: Map<usize, S>, frames: Seq<Meaning>, id: usize)
    ensures
        run(pending, frames).pending.contains_key(id) ==> pending.contains_key(id) && run(
            pending,
            frames,
        ).pending[id] == pending[id],
        run(pending, frames).abandoned.contains_key(id) ==> pending.contains_key(id) && run(
            pending,
            frames,
        ).abandoned[id] == pending[id],
        !(run(pending, frames).pending.contains_key(id) && run(
            pending,
            frames,
        ).abandoned.contains_key(id)),
        pending.contains_key(id) ==> ((run(pending, frames).pending.contains_key(id) || run(
            pending,
            frames,
        ).abandoned.contains_key(id)) <==> !answers(run(pending, frames).deliveries, id)),
    decreases frames.len(),
{
    if frames.len() > 0 {
        let first = step(pending, frames[0]);
        if !first.stop {
            let rest = run(first.pending, frames.drop_first());
            let all = run(pending, frames).deliveries;
            lemma_calls_are_conserved(first.pending, frames.drop_first(), id);
            match first.delivery {
                Some(delivery) => {
                    assert(all[0] == delivery);
                    assert forall|k: int| 0 <= k < rest.deliveries.len() implies all[k + 1]
                        == #[trigger] rest.deliveries[k] by {}
                    if delivery.1.id == id {
                        assert(answers(all, id));
                    } else if answers(rest.deliveries, id) {
                        let k = choose|k: int|
                            0 <= k < rest.deliveries.len() && (#[trigger] rest.deliveries[k]).1.id
                                == id;
                        assert(all[k + 1].1.id == id);
                    } else if answers(all, id) {
                        let k = choose|k: int|
                            0 <= k < all.len() && (#[trigger] all[k]).1.id == id;
                        assert(rest.deliveries[k - 1].1.id == id);
                    }
                },
                None => {},
            }
        }
    }
}

/// Once the stream has ended no call is in flight: every call that was not
/// answered before the end has been given up.
pub proof fn lemma_end_of_stream_releases_every_waiter<S>(
    pending: Map<usize, S>,
    frames: Seq<Meaning>,
    i: int,
)
    requires
        0 <= i < frames.len(),
        frames[i] == Meaning::End,
    ensures
        run(pending, frames).pending == Map::<usize, S>::empty(),
    decreases i,
{
    let first = step(pending, frames[0]);
    if !first.stop {
        assert(frames.drop_first()[i - 1] == frames[i]);
        lemma_end_of_stream_releases_every_waiter(first.pending, frames.drop_first(), i - 1);
    }
}

/// Of the responses to one call, the first that arrives is the one delivered.
pub proof fn lemma_first_response_is_delivered<S>(
    pending: Map<usize, S>,
    frames: Seq<Meaning>,
    i: int,
    response: ResponseView,
)
    requires
        0 <= i < frames.len(),
        frames[i] == Meaning::Response(response),
        pending.contains_key(response.id),
        forall|j: int|
            0 <= j < i ==> #[trigger] frames[j] != Meaning::End && (frames[j] matches Meaning::Response(
                earlier,
            ) ==> earlier.id != response.id),
    ensures
        run(pending, frames).deliveries.contains((pending[response.id], response)),
    decreases i,
{
    let first = step(pending, frames[0]);
    let all = run(pending, frames).deliveries;
    if i == 0 {
        assert(all[0] == (pending[response.id], response));
    } else {
        let rest = frames.drop_first();
        assert(frames[0] != Meaning::End);
        assert(rest[i - 1] == frames[i]);
        assert forall|j: int| 0 <= j < i - 1 implies #[trigger] rest[j] != Meaning::End && (
        rest[j] matches Meaning::Response(earlier) ==> earlier.id != response.id) by {
            assert(rest[j] == frames[j + 1]);
        }
        lemma_first_response_is_delivered(first.pending, rest, i - 1, response);
        let later = run(first.pending, rest).deliveries;
        let k = choose|k: int|
            0 <= k < later.len() && later[k] == (first.pending[response.id], response);
        match first.delivery {
            Some(delivery) => {
                assert(all[k + 1] == later[k]);
            },
            None => {
                assert(all[k] == later[k]);
            },
        }
    }
}

/// Whether a frame leaves the loop as it is: noise, or a response that
/// nobody waits for.
pub open spec fn inert<S>(pending: Map<usize, S>, frame: Meaning) -> bool {
    match frame {
        Meaning::End => false,
        Meaning::Noise => true,
        Meaning::Response(response) => !pending.contains_key(response.id),
    }
}

/// A frame that leaves the loop as it is can arrive anywhere in the stream:
/// the same slots get the same responses as without it.
pub proof fn lemma_inert_frame_changes_nothing<S>(
    pending: Map<usize, S>,
    frames: Seq<Meaning>,
    i: int,
    frame: Meaning,
)
    requires
        0 <= i <= frames.len(),
        inert(pending, frame),
    ensures
        run(pending, frames.insert(i, frame)) == run(pending, frames),
    decreases i,
{
    let extended = frames.insert(i, frame);
    if i == 0 {
        assert(extended.drop_first() =~= frames);
    } else {
        let first = step(pending, frames[0]);
        assert(extended[0] == frames[0]);
        assert(extended.drop_first() =~= frames.drop_first().insert(i - 1, frame));
        if !first.stop {
            lemma_inert_frame_changes_nothing(first.pending, frames.drop_first(), i - 1, frame);
        }
    }
}

/// A frame that cannot be routed does not disturb the loop: with a failed
/// read, a frame that is not text or a malformed text put anywhere into the
/// stream, the same slots get the same responses as without it.
pub proof fn lemma_noise_changes_nothing<S>(pending: Map<usize, S>, frames: Seq<Meaning>, i: int)
    requires
        0 <= i <= frames.len(),
    ensures
        run(pending, frames.insert(i, Meaning::Noise)) == run(pending, frames),
{
    lemma_inert_frame_changes_nothing(pending, frames, i, Meaning::Noise);
}

/// A response that nobody waits for does not disturb the loop either, wherever
/// in the stream it arrives.
pub proof fn lemma_unroutable_changes_nothing<S>(
    pending: Map<usize, S>,
    frames: Seq<Meaning>,
    i: int,
    response: ResponseView,
)
    requires
        0 <= i <= frames.len(),
        !pending.contains_key(response.id),
    ensures
        run(pending, frames.insert(i, Meaning::Response(response))) == run(pending, frames),
{
    lemma_inert_frame_changes_nothing(pending, frames, i, Meaning::Response(response));
}

/// Calls that were started one after the other each find their own slot under
/// their own id, as long as there are no more of them than ids.
pub proof fn lemma_each_call_keeps_its_slot<S>(
    pending: Map<usize, S>,
    start: usize,
    slots: Seq<S>,
    k: int,
)
    requires
        0 <= k < slots.len(),
        slots.len() <= usize::MAX + 1,
    ensures
        enrolled(pending, start, slots).contains_key(nth_id(start, k as nat)),
        enrolled(pending, start, slots)[nth_id(start, k as nat)] == slots[k],
    decreases slots.len(),
{
    if k < slots.len() - 1 {
        lemma_each_call_keeps_its_slot(pending, start, slots.drop_last(), k);
        lemma_ids_unique(start, k as nat, (slots.len() - 1) as nat);
    }
}

/// However the responses to a series of calls interleave, the response that
/// carries the id of the `k`-th call is delivered to the slot of the `k`-th
/// call and to no other.
pub proof fn lemma_each_caller_gets_its_own_response<S>(
    pending: Map<usize, S>,
    start: usize,
    slots: Seq<S>,
    frames: Seq<Meaning>,
    k: int,
    d: int,
)
    requires
        0 <= k < slots.len(),
        slots.len() <= usize::MAX + 1,
        0 <= d < run(enrolled(pending, start, slots), frames).deliveries.len(),
        run(enrolled(pending, start, slots), frames).deliveries[d].1.id == nth_id(
            start,
            k as nat,
        ),
    ensures
        run(enrolled(pending, start, slots), frames).deliveries[d].0 == slots[k],
{
    lemma_each_call_keeps_its_slot(pending, start, slots, k);
    lemma_delivery_matches_call(enrolled(pending, start, slots), frames, d);
}

} // verus!
