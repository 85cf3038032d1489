//! The retention reaper: one tick removes what has outlived the retention
//! window, record first and blob second, and puts a record back when its
//! blob cannot be removed.
//!
//! A [`Tick`] is a state machine over the records that a scan of the
//! metadata table returned. It takes them one at a time, names the next
//! store call, takes the store's reply, and keeps the fate of each record.
//! A tick, once begun, is run to its end.

use vstd::prelude::*;
use std::collections::HashSet;
use crate::record::PhotoRecord;
use crate::retry::{RetryPolicy, Verdict};
use crate::store::{Command, Reply, StoreCall, Stores};

verus! {

broadcast use vstd::std_specs::hash::group_hash_axioms;

/// The retention window in seconds that is used where none is configured:
/// twelve hours.
pub const DEFAULT_RETENTION_SECS: u64 = 43200;

/// The seconds between two ticks where no period is configured.
pub const DEFAULT_PERIOD_SECS: u64 = 10;

/// Where the reaping of one record stands.
#[derive(Clone, Copy, PartialEq, Eq, Debug, Structural)]
pub enum ReapPhase {
    /// The record is live and is being deleted; `retried` attempts have
    /// failed so far.
    RemovingRecord { retried: u32 },
    /// The record is deleted; the blob is being deleted.
    RemovingBlob { retried: u32 },
    /// The blob could not be deleted; the record is being put back.
    Restoring,
}

/// What became of one record in a tick.
#[derive(Clone, Copy, PartialEq, Eq, Debug, Structural)]
pub enum Fate {
    /// Record and blob are gone.
    Reaped,
    /// The record could not be deleted. It is still live and will be
    /// found again by the next tick.
    Kept,
    /// The blob could not be deleted and the record was put back. It is
    /// live again and will be found again by the next tick.
    Restored,
    /// The blob could not be deleted and the record could not be put
    /// back: the blob is orphaned for good and needs an operator.
    Lost,
}

/// One step in the reaping of a record.
#[derive(Clone, Copy, PartialEq, Eq, Debug, Structural)]
pub enum Progress {
    /// More store calls are needed; this is the phase to go on in.
    Goes(ReapPhase),
    /// The record's fate is settled.
    Ends(Fate),
}

/// The store call that the reaping of `record` waits for in `phase`.
pub open spec fn reap_call(record: PhotoRecord, phase: ReapPhase) -> StoreCall {
    match phase {
        ReapPhase::RemovingRecord { .. } => StoreCall::DeleteRecord { id: record.id },
        ReapPhase::RemovingBlob { .. } => StoreCall::DeleteBlob { id: record.id },
        ReapPhase::Restoring => StoreCall::InsertRecord { record },
    }
}

/// The pause owed before the store call of `phase`.
pub open spec fn reap_pause(policy: RetryPolicy, phase: ReapPhase) -> u64 {
    match phase {
        ReapPhase::RemovingRecord { retried } => policy.pause(retried),
        ReapPhase::RemovingBlob { retried } => policy.pause(retried),
        ReapPhase::Restoring => 0,
    }
}

/// How the reaping of a record goes on when the call of `phase` is
/// answered with `reply`. A delete has succeeded unless it `Failed`: what
/// is `Missing` is gone already. Deletes are repeated as the retry policy
/// allows. A record whose delete is given up is kept; a blob whose delete
/// is given up has its record put back, in one attempt.
pub open spec fn reap_progress(policy: RetryPolicy, phase: ReapPhase, reply: Reply) -> Progress {
    match phase {
        ReapPhase::RemovingRecord { retried } => match policy.verdict(
            retried,
            reply != Reply::Failed,
        ) {
            Verdict::Succeeded => Progress::Goes(ReapPhase::RemovingBlob { retried: 0 }),
            Verdict::RetryAfter { .. } => Progress::Goes(
                ReapPhase::RemovingRecord { retried: (retried + 1) as u32 },
            ),
            Verdict::Exhausted => Progress::Ends(Fate::Kept),
        },
        ReapPhase::RemovingBlob { retried } => match policy.verdict(
            retried,
            reply != Reply::Failed,
        ) {
            Verdict::Succeeded => Progress::Ends(Fate::Reaped),
            Verdict::RetryAfter { .. } => Progress::Goes(
                ReapPhase::RemovingBlob { retried: (retried + 1) as u32 },
            ),
            Verdict::Exhausted => Progress::Goes(ReapPhase::Restoring),
        },
        ReapPhase::Restoring => if reply == Reply::Done {
            Progress::Ends(Fate::Restored)
        } else {
            Progress::Ends(Fate::Lost)
        },
    }
}

/// The transition function of one record: from the phase and the store's
/// reply to the next phase or the record's fate.
pub fn reap_next(policy: &RetryPolicy, phase: ReapPhase, reply: Reply) -> (progress: Progress)
    ensures
        progress == reap_progress(*policy, phase, reply),
{
    let deleted = match reply {
        Reply::Failed => false,
        _ => true,
    };
    match phase {
        ReapPhase::RemovingRecord { retried } => match policy.judge(retried, deleted) {
            Verdict::Succeeded => Progress::Goes(ReapPhase::RemovingBlob { retried: 0 }),
            Verdict::RetryAfter { .. } => Progress::Goes(
                ReapPhase::RemovingRecord { retried: retried + 1 },
            ),
            Verdict::Exhausted => Progress::Ends(Fate::Kept),
        },
        ReapPhase::RemovingBlob { retried } => match policy.judge(retried, deleted) {
            Verdict::Succeeded => Progress::Ends(Fate::Reaped),
            Verdict::RetryAfter { .. } => Progress::Goes(
                ReapPhase::RemovingBlob { retried: retried + 1 },
            ),
            Verdict::Exhausted => Progress::Goes(ReapPhase::Restoring),
        },
        ReapPhase::Restoring => match reply {
            Reply::Done => Progress::Ends(Fate::Restored),
            _ => Progress::Ends(Fate::Lost),
        },
    }
}

/// Whether one of `records` is the record of image `id`.
pub open spec fn names(records: Seq<PhotoRecord>, id: u128) -> bool {
    exists|i: int| 0 <= i < records.len() && #[trigger] records[i].id == id
}

/// The records of a scan that a tick with the given deadline takes on, in
/// the order of the scan: those older than the deadline, and of several
/// that name the same image only the first.
pub open spec fn due(scan: Seq<PhotoRecord>, deadline: i64) -> Seq<PhotoRecord>
    decreases scan.len(),
{
    if scan.len() == 0 {
        Seq::empty()
    } else {
        let earlier = due(scan.drop_last(), deadline);
        if scan.last().expired_before(deadline) && !names(earlier, scan.last().id) {
            earlier.push(scan.last())
        } else {
            earlier
        }
    }
}

/// Whether no two of `records` name the same image.
pub open spec fn distinct_images(records: Seq<PhotoRecord>) -> bool {
    forall|i: int, j: int|
        0 <= i < j < records.len() ==> (#[trigger] records[i]).id != (#[trigger] records[j]).id
}

/// The records that a tick takes on are records of the scan, each older
/// than the deadline, no two of the same image; and every image that the
/// scan lists with a record older than the deadline is among them.
pub proof fn due_records_are_sound(scan: Seq<PhotoRecord>, deadline: i64)
    ensures
        distinct_images(due(scan, deadline)),
        forall|k: int|
            0 <= k < due(scan, deadline).len() ==> (#[trigger] due(
                scan,
                deadline,
            )[k]).expired_before(deadline) && scan.contains(due(scan, deadline)[k]),
        forall|i: int|
            0 <= i < scan.len() && (#[trigger] scan[i]).expired_before(deadline) ==> names(
                due(scan, deadline),
                scan[i].id,
            ),
    decreases scan.len(),
{
    if scan.len() > 0 {
        let earlier = due(scan.drop_last(), deadline);
        let all = due(scan, deadline);
        due_records_are_sound(scan.drop_last(), deadline);
        assert forall|k: int| 0 <= k < all.len() implies (#[trigger] all[k]).expired_before(
            deadline,
        ) && scan.contains(all[k]) by {
            if k < earlier.len() {
                let i = choose|i: int|
                    0 <= i < scan.drop_last().len() && scan.drop_last()[i] == earlier[k];
                assert(scan[i] == all[k]);
            }
        }
        assert forall|i: int|
            0 <= i < scan.len() && (#[trigger] scan[i]).expired_before(deadline) implies names(
            all,
            scan[i].id,
        ) by {
            if i < scan.len() - 1 {
                assert(scan.drop_last()[i] == scan[i]);
            }
            if names(earlier, scan[i].id) {
                let k = choose|k: int|
                    0 <= k < earlier.len() && #[trigger] earlier[k].id == scan[i].id;
                assert(all[k].id == scan[i].id);
            } else {
                assert(all[all.len() - 1].id == scan[i].id);
            }
        }
    }
}

/// Picks from a scan the records that are due at `deadline`.
pub fn select_due(scan: &Vec<PhotoRecord>, deadline: i64) -> (queue: Vec<PhotoRecord>)
    ensures
        queue@ == due(scan@, deadline),
{
    let mut queue: Vec<PhotoRecord> = Vec::new();
    let mut taken: HashSet<u128> = HashSet::new();
    let mut i: usize = 0;
    while i < scan.len()
        invariant
            i <= scan.len(),
            queue@ == due(scan@.take(i as int), deadline),
            forall|id: u128| taken@.contains(id) <==> names(queue@, id),
        decreases scan.len() - i,
    {
        let record = scan[i];
        proof {
            assert(scan@.take(i + 1).drop_last() == scan@.take(i as int));
        }
        if record.is_expired(deadline) && !taken.contains(&record.id) {
            let ghost before = queue@;
            taken.insert(record.id);
            queue.push(record);
            proof {
                assert forall|id: u128| taken@.contains(id) <==> names(queue@, id) by {
                    if names(before, id) {
                        let k = choose|k: int|
                            0 <= k < before.len() && #[trigger] before[k].id == id;
                        assert(queue@[k].id == id);
                    }
                    if id == record.id {
                        assert(queue@[before.len() as int].id == id);
                    }
                    if names(queue@, id) && id != record.id {
                        let k = choose|k: int|
                            0 <= k < queue@.len() && #[trigger] queue@[k].id == id;
                        assert(before[k].id == id);
                    }
                }
            }
        }
        i += 1;
    }
    proof {
        assert(scan@.take(scan.len() as int) == scan@);
    }
    queue
}

/// A tick as specifications see it: the records it takes on, the fates
/// settled so far, one for each of the first records, and the phase of
/// the record that is next.
pub struct TickView {
    pub queue: Seq<PhotoRecord>,
    pub fates: Seq<Fate>,
    pub phase: ReapPhase,
    pub policy: RetryPolicy,
}

impl TickView {
    /// A tick over `queue` before its first store call.
    pub open spec fn over(queue: Seq<PhotoRecord>, policy: RetryPolicy) -> TickView {
        TickView {
            queue,
            fates: Seq::empty(),
            phase: ReapPhase::RemovingRecord { retried: 0 },
            policy,
        }
    }

    /// Whether this is a tick as [`Tick::start`] makes it and
    /// [`Tick::resume`] keeps it: no two records of the queue name the same
    /// image, there are no more fates than records, and no delete has been
    /// repeated more often than the retry policy allows.
    pub open spec fn well_formed(self) -> bool {
        &&& distinct_images(self.queue)
        &&& self.fates.len() <= self.queue.len()
        &&& match self.phase {
            ReapPhase::RemovingRecord { retried } => retried <= self.policy.retries,
            ReapPhase::RemovingBlob { retried } => retried <= self.policy.retries,
            ReapPhase::Restoring => true,
        }
    }

    /// Whether every record has met its fate.
    pub open spec fn finished(self) -> bool {
        self.fates.len() >= self.queue.len()
    }

    /// The record that the tick is working on.
    pub open spec fn current(self) -> PhotoRecord {
        self.queue[self.fates.len() as int]
    }

    /// The store call that the tick waits for, with the pause owed before
    /// it; `None` once the tick has finished.
    pub open spec fn command(self) -> Option<Command> {
        if self.finished() {
            None
        } else {
            Some(
                Command {
                    wait_ms: reap_pause(self.policy, self.phase),
                    call: reap_call(self.current(), self.phase),
                },
            )
        }
    }

    /// The tick after the pending call was answered with `reply`.
    pub open spec fn next(self, reply: Reply) -> TickView {
        if self.finished() {
            self
        } else {
            match reap_progress(self.policy, self.phase, reply) {
                Progress::Goes(phase) => TickView { phase, ..self },
                Progress::Ends(fate) => TickView {
                    fates: self.fates.push(fate),
                    phase: ReapPhase::RemovingRecord { retried: 0 },
                    ..self
                },
            }
        }
    }

    /// The stores after the pending call was answered with `reply`.
    pub open spec fn effect(self, reply: Reply, stores: Stores) -> Stores {
        match self.command() {
            Some(command) => stores.after(command.call, Seq::empty(), reply),
            None => stores,
        }
    }
}

/// One run of the reaper over the records of one scan.
pub struct Tick {
    queue: Vec<PhotoRecord>,
    fates: Vec<Fate>,
    phase: ReapPhase,
    policy: RetryPolicy,
}

impl View for Tick {
    type V = TickView;

    closed spec fn view(&self) -> TickView {
        TickView {
            queue: self.queue@,
            fates: self.fates@,
            phase: self.phase,
            policy: self.policy,
        }
    }
}

/// The records that a tick takes on, given what the scan of the metadata
/// table returned; a scan that failed gives the tick nothing to do.
pub open spec fn due_of(scan: Option<Vec<PhotoRecord>>, deadline: i64) -> Seq<PhotoRecord> {
    match scan {
        Some(records) => due(records@, deadline),
        None => Seq::empty(),
    }
}

impl Tick {
    /// Begins a tick on the result of scanning the metadata table for
    /// records older than `deadline`; `None` stands for a scan that
    /// failed, on which the tick is over before it began. The tick takes
    /// on the records that are due and no others, whatever the scan holds.
    pub fn start(scan: Option<Vec<PhotoRecord>>, deadline: i64, policy: RetryPolicy) -> (tick: Tick)
        ensures
            tick@ == TickView::over(due_of(scan, deadline), policy),
            tick@.well_formed(),
    {
        let queue = match &scan {
            Some(records) => {
                proof {
                    due_records_are_sound(records@, deadline);
                }
                select_due(records, deadline)
            },
            None => Vec::new(),
        };
        Tick {
            queue,
            fates: Vec::new(),
            phase: ReapPhase::RemovingRecord { retried: 0 },
            policy,
        }
    }

    /// The records that the tick takes on, in order.
    pub fn queue(&self) -> (queue: &Vec<PhotoRecord>)
        ensures
            queue@ == self@.queue,
    {
        &self.queue
    }

    /// The fates settled so far; the first belongs to the first record of
    /// the queue, and so on.
    pub fn fates(&self) -> (fates: &Vec<Fate>)
        ensures
            fates@ == self@.fates,
    {
        &self.fates
    }

    /// Whether every record has met its fate.
    pub fn is_finished(&self) -> (finished: bool)
        ensures
            finished == self@.finished(),
    {
        self.fates.len() >= self.queue.len()
    }

    /// The store call to make next, or `None` once the tick has finished.
    pub fn command(&self) -> (command: Option<Command>)
        ensures
            command == self@.command(),
    {
        let at: usize = self.fates.len();
        if at >= self.queue.len() {
            return None;
        }
        let record = self.queue[at];
        let command = match self.phase {
            ReapPhase::RemovingRecord { retried } => Command {
                wait_ms: self.policy.pause_before(retried),
                call: StoreCall::DeleteRecord { id: record.id },
            },
            ReapPhase::RemovingBlob { retried } => Command {
                wait_ms: self.policy.pause_before(retried),
                call: StoreCall::DeleteBlob { id: record.id },
            },
            ReapPhase::Restoring => Command { wait_ms: 0, call: StoreCall::InsertRecord { record } },
        };
        Some(command)
    }

    /// Takes the store's reply to the pending call and moves on. A reply
    /// given to a tick that has finished changes nothing.
    pub fn resume(&mut self, reply: Reply)
        ensures
            final(self)@ == old(self)@.next(reply),
            old(self)@.well_formed() ==> final(self)@.well_formed(),
    {
        if self.fates.len() < self.queue.len() {
            match reap_next(&self.policy, self.phase, reply) {
                Progress::Goes(phase) => {
                    self.phase = phase;
                },
                Progress::Ends(fate) => {
                    self.fates.push(fate);
                    self.phase = ReapPhase::RemovingRecord { retried: 0 };
                },
            }
        }
    }
}

} // verus!
