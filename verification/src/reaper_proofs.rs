//! What holds of every tick of the reaper, whatever the stores answer.
//!
//! The statements are about [`run`]: a tick and the model of the two
//! stores, taken together through a sequence of replies.

use vstd::prelude::*;
use crate::reaper::{
    distinct_images, due, due_records_are_sound, names, reap_progress, Fate, Progress, ReapPhase,
    TickView,
};
use crate::record::PhotoRecord;
use crate::retry::RetryPolicy;
use crate::store::{Reply, Stores};

verus! {

/// The tick and the stores after the tick's calls were answered with
/// `replies`, one after the other. Replies that come after the tick has
/// finished change nothing.
pub open spec fn run(tick: TickView, stores: Stores, replies: Seq<Reply>) -> (TickView, Stores)
    decreases replies.len(),
{
    if replies.len() == 0 {
        (tick, stores)
    } else {
        run(tick.next(replies[0]), tick.effect(replies[0], stores), replies.drop_first())
    }
}

/// Whether the blob store holds for `id` what `start` holds for it.
pub open spec fn same_blob(stores: Stores, start: Stores, id: u128) -> bool {
    &&& stores.blobs.contains_key(id) == start.blobs.contains_key(id)
    &&& stores.blobs.contains_key(id) ==> stores.blobs[id] == start.blobs[id]
}

/// What a fate says of the stores, for a record taken on by a tick that
/// began on `start`.
pub open spec fn borne_out(fate: Fate, record: PhotoRecord, stores: Stores, start: Stores) -> bool {
    match fate {
        Fate::Reaped => stores.forgot(record.id),
        Fate::Kept => stores.agrees_on(start, record.id),
        Fate::Restored => stores.holds(record) && same_blob(stores, start, record.id),
        Fate::Lost => !stores.records.contains_key(record.id) && same_blob(
            stores,
            start,
            record.id,
        ),
    }
}

/// Whether the tick has come to the record of image `id` yet.
spec fn reached(tick: TickView, id: u128) -> bool {
    exists|i: int|
        0 <= i < tick.queue.len() && i <= tick.fates.len() && (#[trigger] tick.queue[i]).id == id
}

/// What the stores hold at each point of a tick that began on `start`.
spec fn in_step(tick: TickView, stores: Stores, start: Stores) -> bool {
    &&& tick.fates.len() <= tick.queue.len()
    &&& distinct_images(tick.queue)
    &&& forall|i: int|
        0 <= i < tick.fates.len() ==> borne_out(
            #[trigger] tick.fates[i],
            tick.queue[i],
            stores,
            start,
        )
    &&& forall|id: u128| !reached(tick, id) ==> #[trigger] stores.agrees_on(start, id)
    &&& !tick.finished() ==> match tick.phase {
        ReapPhase::RemovingRecord { retried } => retried <= tick.policy.retries
            && stores.agrees_on(start, tick.current().id),
        ReapPhase::RemovingBlob { retried } => retried <= tick.policy.retries
            && !stores.records.contains_key(tick.current().id) && same_blob(
            stores,
            start,
            tick.current().id,
        ),
        ReapPhase::Restoring => !stores.records.contains_key(tick.current().id) && same_blob(
            stores,
            start,
            tick.current().id,
        ),
    }
}

proof fn step_stays_in_step(tick: TickView, stores: Stores, reply: Reply, start: Stores)
    requires
        in_step(tick, stores, start),
    ensures
        in_step(tick.next(reply), tick.effect(reply, stores), start),
        tick.next(reply).queue == tick.queue,
        tick.next(reply).policy == tick.policy,
        tick.fates.is_prefix_of(tick.next(reply).fates),
{
    let next = tick.next(reply);
    let after = tick.effect(reply, stores);
    if !tick.finished() {
        let n = tick.fates.len() as int;
        // The call names the record at `n` and no other record names that image.
        assert forall|i: int| 0 <= i < next.fates.len() implies borne_out(
            #[trigger] next.fates[i],
            next.queue[i],
            after,
            start,
        ) by {
            if i < n {
                assert(tick.queue[i].id != tick.queue[n].id);
            }
        }
        assert forall|id: u128| !reached(next, id) implies #[trigger] after.agrees_on(
            start,
            id,
        ) by {
            if reached(tick, id) {
                let i = choose|i: int|
                    0 <= i < tick.queue.len() && i <= tick.fates.len() && (
                    #[trigger] tick.queue[i]).id == id;
                assert(next.queue[i].id == id);
            }
            assert(stores.agrees_on(start, id));
        }
        if !next.finished() && next.fates.len() > n {
            // The record that comes next was not reached before.
            let coming = next.current();
            if reached(tick, coming.id) {
                let i = choose|i: int|
                    0 <= i < tick.queue.len() && i <= tick.fates.len() && (
                    #[trigger] tick.queue[i]).id == coming.id;
                assert(tick.queue[i].id != tick.queue[n + 1].id);
            }
            assert(stores.agrees_on(start, coming.id));
        }
    }
}

proof fn run_stays_in_step(tick: TickView, stores: Stores, replies: Seq<Reply>, start: Stores)
    requires
        in_step(tick, stores, start),
    ensures
        in_step(run(tick, stores, replies).0, run(tick, stores, replies).1, start),
        run(tick, stores, replies).0.queue == tick.queue,
        run(tick, stores, replies).0.policy == tick.policy,
        tick.fates.is_prefix_of(run(tick, stores, replies).0.fates),
    decreases replies.len(),
{
    if replies.len() > 0 {
        step_stays_in_step(tick, stores, replies[0], start);
        run_stays_in_step(
            tick.next(replies[0]),
            tick.effect(replies[0], stores),
            replies.drop_first(),
            start,
        );
    }
}

proof fn tick_begins_in_step(queue: Seq<PhotoRecord>, policy: RetryPolicy, stores: Stores)
    requires
        distinct_images(queue),
    ensures
        in_step(TickView::over(queue, policy), stores, stores),
{
    let begun = TickView::over(queue, policy);
    assert forall|id: u128| !reached(begun, id) implies #[trigger] stores.agrees_on(
        stores,
        id,
    ) by {}
}

/// After any part of a tick, every fate settled so far is true of the
/// stores: what is reported as reaped is gone from both, what is reported
/// as kept is as it was, what is reported as restored has its record back
/// and its blob as it was, and what is reported as lost has no record and
/// its blob as it was. Images that the tick did not take on are as they
/// were.
pub proof fn fates_are_borne_out(
    queue: Seq<PhotoRecord>,
    policy: RetryPolicy,
    stores: Stores,
    replies: Seq<Reply>,
)
    requires
        distinct_images(queue),
    ensures
        ({
            let (tick, after) = run(TickView::over(queue, policy), stores, replies);
            &&& tick.queue == queue
            &&& tick.fates.len() <= queue.len()
            &&& forall|i: int|
                0 <= i < tick.fates.len() ==> borne_out(
                    #[trigger] tick.fates[i],
                    queue[i],
                    after,
                    stores,
                )
            &&& forall|id: u128| !names(queue, id) ==> #[trigger] after.agrees_on(stores, id)
        }),
{
    let begun = TickView::over(queue, policy);
    tick_begins_in_step(queue, policy, stores);
    run_stays_in_step(begun, stores, replies, stores);
    let (tick, after) = run(begun, stores, replies);
    assert forall|id: u128| !names(queue, id) implies #[trigger] after.agrees_on(stores, id) by {
        if reached(tick, id) {
            let i = choose|i: int|
                0 <= i < tick.queue.len() && i <= tick.fates.len() && (#[trigger] tick.queue[i]).id
                    == id;
            assert(queue[i].id == id);
        }
    }
}

/// Order and budget. Whenever a tick asks for a blob to be deleted or for
/// a record to be put back, the record of that image is gone from the
/// metadata table; and no delete is asked for more often than the retry
/// policy allows.
pub proof fn record_is_deleted_before_blob(
    queue: Seq<PhotoRecord>,
    policy: RetryPolicy,
    stores: Stores,
    replies: Seq<Reply>,
)
    requires
        distinct_images(queue),
    ensures
        ({
            let (tick, after) = run(TickView::over(queue, policy), stores, replies);
            !tick.finished() ==> match tick.phase {
                ReapPhase::RemovingRecord { retried } => retried < policy.attempts(),
                ReapPhase::RemovingBlob { retried } => retried < policy.attempts()
                    && !after.records.contains_key(tick.current().id),
                ReapPhase::Restoring => !after.records.contains_key(tick.current().id),
            }
        }),
{
    let begun = TickView::over(queue, policy);
    tick_begins_in_step(queue, policy, stores);
    run_stays_in_step(begun, stores, replies, stores);
}

/// A tick that takes on only records that the metadata table holds never
/// leaves a record behind without its blob: an image whose record, if it
/// had one, had a blob when the tick began is in the same case at every
/// point of the tick, whatever the stores answer. What a tick can leave
/// behind is a blob without a record, and it reports that as
/// [`Fate::Lost`].
pub proof fn tick_leaves_no_record_without_blob(
    queue: Seq<PhotoRecord>,
    policy: RetryPolicy,
    stores: Stores,
    replies: Seq<Reply>,
    id: u128,
)
    requires
        distinct_images(queue),
        lists_only_records(queue, stores),
        stores.records.contains_key(id) ==> stores.blobs.contains_key(id),
    ensures
        ({
            let after = run(TickView::over(queue, policy), stores, replies).1;
            after.records.contains_key(id) ==> after.blobs.contains_key(id)
        }),
{
    let begun = TickView::over(queue, policy);
    tick_begins_in_step(queue, policy, stores);
    run_stays_in_step(begun, stores, replies, stores);
    let (tick, after) = run(begun, stores, replies);
    if reached(tick, id) {
        let i = choose|i: int|
            0 <= i < tick.queue.len() && i <= tick.fates.len() && (#[trigger] tick.queue[i]).id
                == id;
        if i < tick.fates.len() {
            assert(borne_out(tick.fates[i], tick.queue[i], after, stores));
        } else {
            assert(tick.current() == tick.queue[i]);
        }
    } else {
        assert(after.agrees_on(stores, id));
    }
}

/// A tick leaves alone every image that its scan does not list as older
/// than the deadline: whatever the stores answer, both stores hold for it
/// at the end what they held at the beginning.
pub proof fn tick_spares_what_is_not_due(
    stores: Stores,
    scan: Seq<PhotoRecord>,
    deadline: i64,
    policy: RetryPolicy,
    replies: Seq<Reply>,
    id: u128,
)
    requires
        forall|i: int|
            0 <= i < scan.len() && (#[trigger] scan[i]).id == id ==> !scan[i].expired_before(
                deadline,
            ),
    ensures
        run(TickView::over(due(scan, deadline), policy), stores, replies).1.agrees_on(stores, id),
{
    let queue = due(scan, deadline);
    due_records_are_sound(scan, deadline);
    fates_are_borne_out(queue, policy, stores, replies);
    if names(queue, id) {
        let k = choose|k: int| 0 <= k < queue.len() && #[trigger] queue[k].id == id;
        let i = choose|i: int| 0 <= i < scan.len() && scan[i] == queue[k];
        assert(scan[i].id == id && scan[i].expired_before(deadline));
    }
}

/// Whether a scan lists every record of the metadata table that is older
/// than `deadline`.
pub open spec fn lists_the_expired(scan: Seq<PhotoRecord>, stores: Stores, deadline: i64) -> bool {
    forall|id: u128|
        #[trigger] stores.records.contains_key(id) && stores.records[id] < deadline
            ==> scan.contains(PhotoRecord { id, uploaded_at: stores.records[id] })
}

/// Whether a scan lists only records that the metadata table holds.
pub open spec fn lists_only_records(scan: Seq<PhotoRecord>, stores: Stores) -> bool {
    forall|i: int| 0 <= i < scan.len() ==> stores.holds(#[trigger] scan[i])
}

/// Whether a tick has finished and has reaped every record it took on:
/// no store call had to be given up.
pub open spec fn reaped_all(tick: TickView) -> bool {
    &&& tick.finished()
    &&& forall|i: int| 0 <= i < tick.fates.len() ==> #[trigger] tick.fates[i] == Fate::Reaped
}

/// Whether the tick gives a store call up on this reply: a delete has
/// failed once more than the retry policy bears.
pub open spec fn gives_up(tick: TickView, reply: Reply) -> bool {
    !tick.finished() && match reap_progress(tick.policy, tick.phase, reply) {
        Progress::Ends(Fate::Kept) => true,
        Progress::Goes(ReapPhase::Restoring) => true,
        _ => false,
    }
}

/// Whether the tick gets through `replies` without giving a store call
/// up: whatever outage there is, none outlasts the retry budget.
pub open spec fn never_gives_up(tick: TickView, replies: Seq<Reply>) -> bool
    decreases replies.len(),
{
    replies.len() == 0 || {
        &&& !gives_up(tick, replies[0])
        &&& never_gives_up(tick.next(replies[0]), replies.drop_first())
    }
}

/// A tick that runs to its end without giving a store call up has reaped
/// every record it took on.
pub proof fn tick_that_never_gives_up_reaps_all(
    tick: TickView,
    stores: Stores,
    replies: Seq<Reply>,
)
    requires
        !(tick.phase is Restoring),
        forall|i: int| 0 <= i < tick.fates.len() ==> #[trigger] tick.fates[i] == Fate::Reaped,
        never_gives_up(tick, replies),
        run(tick, stores, replies).0.finished(),
    ensures
        reaped_all(run(tick, stores, replies).0),
    decreases replies.len(),
{
    if replies.len() > 0 {
        tick_that_never_gives_up_reaps_all(
            tick.next(replies[0]),
            tick.effect(replies[0], stores),
            replies.drop_first(),
        );
    }
}

/// Expiry. Where the scan lists every record older than the deadline and
/// the tick runs to its end without giving a store call up, that is, where
/// no outage of a store outlasts the retry budget, every record that was
/// older than the deadline when the tick began is gone from both stores
/// when it ends.
pub proof fn expired_records_are_forgotten(
    stores: Stores,
    scan: Seq<PhotoRecord>,
    deadline: i64,
    policy: RetryPolicy,
    replies: Seq<Reply>,
)
    requires
        lists_the_expired(scan, stores, deadline),
        never_gives_up(TickView::over(due(scan, deadline), policy), replies),
        run(TickView::over(due(scan, deadline), policy), stores, replies).0.finished(),
    ensures
        forall|id: u128|
            #[trigger] stores.records.contains_key(id) && stores.records[id] < deadline ==> run(
                TickView::over(due(scan, deadline), policy),
                stores,
                replies,
            ).1.forgot(id),
{
    let queue = due(scan, deadline);
    let (tick, after) = run(TickView::over(queue, policy), stores, replies);
    due_records_are_sound(scan, deadline);
    fates_are_borne_out(queue, policy, stores, replies);
    tick_that_never_gives_up_reaps_all(TickView::over(queue, policy), stores, replies);
    assert forall|id: u128| #[trigger]
        stores.records.contains_key(id) && stores.records[id] < deadline implies after.forgot(
        id,
    ) by {
        // The scan lists the record, so the tick took its image on and reaped it.
        let record = PhotoRecord { id, uploaded_at: stores.records[id] };
        let i = choose|i: int| 0 <= i < scan.len() && scan[i] == record;
        assert(scan[i].expired_before(deadline));
        let k = choose|k: int| 0 <= k < queue.len() && #[trigger] queue[k].id == id;
        assert(tick.fates[k] == Fate::Reaped);
    }
}

/// Stores that never fail let a tick reap every record it took on, in two
/// calls for each.
pub proof fn unfailing_stores_reap_all(tick: TickView, stores: Stores, replies: Seq<Reply>)
    requires
        tick.fates.len() <= tick.queue.len(),
        tick.phase is RemovingRecord,
        forall|i: int| 0 <= i < tick.fates.len() ==> #[trigger] tick.fates[i] == Fate::Reaped,
        forall|i: int| 0 <= i < replies.len() ==> #[trigger] replies[i] != Reply::Failed,
        replies.len() >= 2 * (tick.queue.len() - tick.fates.len()),
    ensures
        reaped_all(run(tick, stores, replies).0),
    decreases tick.queue.len() - tick.fates.len(),
{
    if tick.finished() {
        run_of_finished(tick, stores, replies);
    } else {
        let first = tick.next(replies[0]);
        let after_first = tick.effect(replies[0], stores);
        let rest = replies.drop_first();
        let second = first.next(rest[0]);
        let after_second = first.effect(rest[0], after_first);
        let later = rest.drop_first();
        // Two replies, neither a failure: the record is gone, then the blob.
        assert(run(tick, stores, replies) == run(first, after_first, rest));
        assert forall|i: int| 0 <= i < later.len() implies #[trigger] later[i] != Reply::Failed by {
            assert(later[i] == replies[i + 2]);
        }
        unfailing_stores_reap_all(second, after_second, later);
    }
}

proof fn run_of_finished(tick: TickView, stores: Stores, replies: Seq<Reply>)
    requires
        tick.finished(),
    ensures
        run(tick, stores, replies) == (tick, stores),
    decreases replies.len(),
{
    if replies.len() > 0 {
        run_of_finished(tick, stores, replies.drop_first());
    }
}

/// Idempotence. Of two ticks with the same deadline, the second on the
/// stores as the first left them, the second does not take on any record
/// that the first reaped, provided that its scan lists only records that
/// the table holds. So no record is deleted twice, and what the first tick
/// reaped is still gone from both stores after the second, whatever the
/// stores answered.
pub proof fn second_tick_spares_the_reaped(
    stores: Stores,
    first_scan: Seq<PhotoRecord>,
    second_scan: Seq<PhotoRecord>,
    deadline: i64,
    policy: RetryPolicy,
    first_replies: Seq<Reply>,
    second_replies: Seq<Reply>,
)
    requires
        lists_only_records(
            second_scan,
            run(TickView::over(due(first_scan, deadline), policy), stores, first_replies).1,
        ),
    ensures
        ({
            let (first, between) = run(
                TickView::over(due(first_scan, deadline), policy),
                stores,
                first_replies,
            );
            let (second, after) = run(
                TickView::over(due(second_scan, deadline), policy),
                between,
                second_replies,
            );
            forall|i: int|
                0 <= i < first.fates.len() && #[trigger] first.fates[i] == Fate::Reaped ==> {
                    &&& !names(second.queue, first.queue[i].id)
                    &&& after.forgot(first.queue[i].id)
                }
        }),
{
    let first_queue = due(first_scan, deadline);
    let second_queue = due(second_scan, deadline);
    let (first, between) = run(TickView::over(first_queue, policy), stores, first_replies);
    let (second, after) = run(TickView::over(second_queue, policy), between, second_replies);
    due_records_are_sound(first_scan, deadline);
    due_records_are_sound(second_scan, deadline);
    fates_are_borne_out(first_queue, policy, stores, first_replies);
    fates_are_borne_out(second_queue, policy, between, second_replies);
    assert forall|i: int|
        0 <= i < first.fates.len() && #[trigger] first.fates[i] == Fate::Reaped implies {
        &&& !names(second.queue, first.queue[i].id)
        &&& after.forgot(first.queue[i].id)
    } by {
        // What was reaped is gone, so a scan of what the table holds cannot list it.
        let id = first.queue[i].id;
        assert(between.forgot(id));
        if names(second_queue, id) {
            let k = choose|k: int|
                0 <= k < second_queue.len() && #[trigger] second_queue[k].id == id;
            let j = choose|j: int| 0 <= j < second_scan.len() && second_scan[j] == second_queue[k];
            assert(between.holds(second_scan[j]));
        }
        assert(after.agrees_on(between, id));
    }
}

} // verus!
