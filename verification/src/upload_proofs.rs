//! What holds of every upload, whatever the stores answer.
//!
//! The statements are about [`run`]: an upload and the model of the two
//! stores, taken together through a sequence of replies.

use vstd::prelude::*;
use crate::http::answer_of;
use crate::locator::locator_text;
use crate::media::{is_image_category, is_image_type, refusal, UploadError, MAX_UPLOAD_BYTES};
use crate::record::PhotoRecord;
use crate::retry::RetryPolicy;
use crate::store::{Reply, Stores};
use crate::upload::{UploadPhase, UploadView};

verus! {

/// The upload and the stores after the upload's calls were answered with
/// `replies`, one after the other. Replies that come after the upload has
/// ended change nothing.
pub open spec fn run(upload: UploadView, stores: Stores, replies: Seq<Reply>) -> (
    UploadView,
    Stores,
)
    decreases replies.len(),
{
    if replies.len() == 0 {
        (upload, stores)
    } else {
        run(upload.next(replies[0]), upload.effect(replies[0], stores), replies.drop_first())
    }
}

/// Whether every reply in `replies` is one that the stores, in the state
/// they were in when asked, can give.
pub open spec fn truthful(upload: UploadView, stores: Stores, replies: Seq<Reply>) -> bool
    decreases replies.len(),
{
    replies.len() == 0 || {
        &&& upload.command() matches Some(command) ==> stores.can_answer(command.call, replies[0])
        &&& truthful(
            upload.next(replies[0]),
            upload.effect(replies[0], stores),
            replies.drop_first(),
        )
    }
}

/// A whole upload attempt: how it ends and what the stores hold then. An
/// upload that is turned away ends at once, whatever the replies.
pub open spec fn attempt(
    data: Seq<u8>,
    declared_top: Option<Seq<char>>,
    sniffed: Seq<char>,
    record: PhotoRecord,
    policy: RetryPolicy,
    stores: Stores,
    replies: Seq<Reply>,
) -> (Option<Result<Seq<char>, UploadError>>, Stores) {
    match refusal(data.len(), declared_top, sniffed) {
        Some(error) => (Some(Err(error)), stores),
        None => {
            let (upload, stores) = run(UploadView::admitted(record, data, policy), stores, replies);
            (upload.outcome(), stores)
        },
    }
}

/// Replies under which both writes get through: each is answered `Done`
/// after no more failures than the policy has repetitions.
pub open spec fn both_writes_get_through(
    policy: RetryPolicy,
    replies: Seq<Reply>,
    record_failures: int,
    blob_failures: int,
) -> bool {
    &&& 0 <= record_failures <= policy.retries
    &&& 0 <= blob_failures <= policy.retries
    &&& replies.len() >= record_failures + blob_failures + 2
    &&& forall|i: int| 0 <= i < record_failures ==> replies[i] != Reply::Done
    &&& replies[record_failures] == Reply::Done
    &&& forall|i: int|
        record_failures < i <= record_failures + blob_failures ==> replies[i] != Reply::Done
    &&& replies[record_failures + blob_failures + 1] == Reply::Done
}

/// What the stores hold at each phase of an upload that began on `start`.
spec fn in_step(upload: UploadView, stores: Stores, start: Stores) -> bool {
    let id = upload.record.id;
    let with_record = start.records.insert(id, upload.record.uploaded_at);
    match upload.phase {
        UploadPhase::WritingRecord { retried } => stores == start && retried
            <= upload.policy.retries,
        UploadPhase::WritingBlob { retried } => stores.records == with_record && stores.blobs
            == start.blobs && retried <= upload.policy.retries,
        UploadPhase::FindingRecord => stores.records == with_record && stores.blobs == start.blobs,
        UploadPhase::RemovingRecord => stores.records == with_record && stores.blobs
            == start.blobs,
        UploadPhase::Stored => stores.records == with_record && stores.blobs == start.blobs.insert(
            id,
            upload.data,
        ),
        UploadPhase::RecordRefused => stores == start,
        UploadPhase::BlobRefused { record_left } => {
            &&& stores.blobs == start.blobs
            &&& record_left ==> stores.records == with_record
            &&& !record_left ==> stores.records == with_record || stores.records
                =~= start.records.remove(id)
        },
    }
}

proof fn run_stays_in_step(upload: UploadView, stores: Stores, replies: Seq<Reply>, start: Stores)
    requires
        in_step(upload, stores, start),
    ensures
        in_step(run(upload, stores, replies).0, run(upload, stores, replies).1, start),
        run(upload, stores, replies).0.record == upload.record,
        run(upload, stores, replies).0.data == upload.data,
        run(upload, stores, replies).0.policy == upload.policy,
        upload.finished() ==> run(upload, stores, replies).0.phase == upload.phase,
    decreases replies.len(),
{
    if replies.len() > 0 {
        run_stays_in_step(
            upload.next(replies[0]),
            upload.effect(replies[0], stores),
            replies.drop_first(),
            start,
        );
    }
}

/// Whether an upload that claims to have taken its record back did so.
spec fn record_gone_if_taken_back(upload: UploadView, stores: Stores) -> bool {
    upload.phase == (UploadPhase::BlobRefused { record_left: false })
        ==> !stores.records.contains_key(upload.record.id)
}

proof fn run_takes_back_truthfully(upload: UploadView, stores: Stores, replies: Seq<Reply>)
    requires
        record_gone_if_taken_back(upload, stores),
        truthful(upload, stores, replies),
    ensures
        record_gone_if_taken_back(run(upload, stores, replies).0, run(upload, stores, replies).1),
    decreases replies.len(),
{
    if replies.len() > 0 {
        run_takes_back_truthfully(
            upload.next(replies[0]),
            upload.effect(replies[0], stores),
            replies.drop_first(),
        );
    }
}

/// How many more failures the write under way can take before it is given
/// up; negative where no write is under way.
spec fn failures_bearable(upload: UploadView) -> int {
    match upload.phase {
        UploadPhase::WritingRecord { retried } => upload.policy.retries - retried,
        UploadPhase::WritingBlob { retried } => upload.policy.retries - retried,
        _ => -1,
    }
}

proof fn failures_use_up_retries(
    upload: UploadView,
    stores: Stores,
    replies: Seq<Reply>,
    failures: int,
)
    requires
        0 <= failures <= failures_bearable(upload),
        failures < replies.len(),
        forall|i: int| 0 <= i < failures ==> replies[i] != Reply::Done,
        replies[failures] == Reply::Done,
    ensures
        upload.phase is WritingRecord ==> run(upload, stores, replies) == run(
            UploadView { phase: UploadPhase::WritingBlob { retried: 0 }, ..upload },
            stores.after(upload.command()->0.call, upload.data, Reply::Done),
            replies.skip(failures + 1),
        ),
        upload.phase is WritingBlob ==> run(upload, stores, replies) == run(
            UploadView { phase: UploadPhase::Stored, ..upload },
            stores.after(upload.command()->0.call, upload.data, Reply::Done),
            replies.skip(failures + 1),
        ),
    decreases failures,
{
    if failures > 0 {
        // The first reply is a failure that the budget bears: the write is repeated.
        let rest = replies.drop_first();
        assert forall|i: int| 0 <= i < failures - 1 implies rest[i] != Reply::Done by {
            assert(rest[i] == replies[i + 1]);
        }
        failures_use_up_retries(
            upload.next(replies[0]),
            upload.effect(replies[0], stores),
            rest,
            failures - 1,
        );
        assert(rest.skip(failures - 1 + 1) == replies.skip(failures + 1));
    }
}

/// An upload of an image within the size limit, to stores that let both
/// writes through within the retry budget, ends with the image's locator,
/// which is answered with status 200, and the stores then hold its record
/// and, under its identifier, the very bytes that were sent.
pub proof fn admitted_image_is_stored(
    data: Seq<u8>,
    declared_top: Option<Seq<char>>,
    sniffed: Seq<char>,
    record: PhotoRecord,
    policy: RetryPolicy,
    stores: Stores,
    replies: Seq<Reply>,
    record_failures: int,
    blob_failures: int,
)
    requires
        data.len() <= MAX_UPLOAD_BYTES,
        declared_top matches Some(top) && is_image_category(top),
        is_image_type(sniffed),
        both_writes_get_through(policy, replies, record_failures, blob_failures),
    ensures
        attempt(data, declared_top, sniffed, record, policy, stores, replies).0 == Some(
            Ok::<Seq<char>, UploadError>(locator_text(record.id)),
        ),
        attempt(data, declared_top, sniffed, record, policy, stores, replies).1.holds(record),
        attempt(
            data,
            declared_top,
            sniffed,
            record,
            policy,
            stores,
            replies,
        ).1.blobs.contains_pair(record.id, data),
        answer_of(attempt(data, declared_top, sniffed, record, policy, stores, replies).0->0) == (
            200u16,
            locator_text(record.id),
        ),
{
    let upload = UploadView::admitted(record, data, policy);
    failures_use_up_retries(upload, stores, replies, record_failures);
    let writing_blob = UploadView { phase: UploadPhase::WritingBlob { retried: 0 }, ..upload };
    let with_record = stores.after(upload.command()->0.call, data, Reply::Done);
    let later = replies.skip(record_failures + 1);
    assert forall|i: int| 0 <= i < blob_failures implies later[i] != Reply::Done by {
        assert(later[i] == replies[i + record_failures + 1]);
    }
    failures_use_up_retries(writing_blob, with_record, later, blob_failures);
    let stored = UploadView { phase: UploadPhase::Stored, ..upload };
    let with_blob = with_record.after(writing_blob.command()->0.call, data, Reply::Done);
    run_stays_in_step(stored, with_blob, later.skip(blob_failures + 1), stores);
}

/// Status 200 and a stored image go together. An attempt that has ended is
/// answered with 200 exactly when it ended with the locator of its image,
/// which is then the body; and then the stores are what they were with
/// the record and the bytes of that image added, and nothing else changed.
pub proof fn ok_is_answered_exactly_for_a_stored_image(
    data: Seq<u8>,
    declared_top: Option<Seq<char>>,
    sniffed: Seq<char>,
    record: PhotoRecord,
    policy: RetryPolicy,
    stores: Stores,
    replies: Seq<Reply>,
)
    requires
        attempt(data, declared_top, sniffed, record, policy, stores, replies).0 is Some,
    ensures
        ({
            let (outcome, after) = attempt(
                data,
                declared_top,
                sniffed,
                record,
                policy,
                stores,
                replies,
            );
            let stored = Ok::<Seq<char>, UploadError>(locator_text(record.id));
            &&& answer_of(outcome->0).0 == 200 <==> outcome->0 == stored
            &&& outcome->0 == stored ==> {
                &&& answer_of(outcome->0).1 == locator_text(record.id)
                &&& after.records == stores.records.insert(record.id, record.uploaded_at)
                &&& after.blobs == stores.blobs.insert(record.id, data)
            }
        }),
{
    run_stays_in_step(UploadView::admitted(record, data, policy), stores, replies, stores);
}

/// Wherever an upload ends with a locator, the stores hold its record and
/// its bytes, whatever else the stores answered on the way.
pub proof fn locator_means_stored(
    record: PhotoRecord,
    data: Seq<u8>,
    policy: RetryPolicy,
    stores: Stores,
    replies: Seq<Reply>,
)
    ensures
        ({
            let (upload, after) = run(UploadView::admitted(record, data, policy), stores, replies);
            upload.outcome() is Some && upload.outcome()->0 is Ok ==> {
                &&& upload.outcome() == Some(Ok::<Seq<char>, UploadError>(locator_text(record.id)))
                &&& after.holds(record)
                &&& after.blobs.contains_pair(record.id, data)
            }
        }),
{
    run_stays_in_step(UploadView::admitted(record, data, policy), stores, replies, stores);
}

/// An upload whose declared type or whose content is not an image is
/// turned away as an unsupported media type, which is answered with status
/// 415, and both stores are left as they were. This is said of uploads within the size limit that declare
/// a content type: size and a missing declaration are judged first.
pub proof fn non_image_is_turned_away(
    data: Seq<u8>,
    declared_top: Option<Seq<char>>,
    sniffed: Seq<char>,
    record: PhotoRecord,
    policy: RetryPolicy,
    stores: Stores,
    replies: Seq<Reply>,
)
    requires
        data.len() <= MAX_UPLOAD_BYTES,
        declared_top is Some,
        !is_image_category(declared_top->0) || !is_image_type(sniffed),
    ensures
        attempt(data, declared_top, sniffed, record, policy, stores, replies) == (
            Some(Err::<Seq<char>, UploadError>(UploadError::UnsupportedMediaType)),
            stores,
        ),
        answer_of(attempt(data, declared_top, sniffed, record, policy, stores, replies).0->0).0
            == 415,
{
}

/// An upload over the size limit is turned away as too large, which is
/// answered with status 413, and both stores are left as they were: no
/// store call is made for it.
pub proof fn oversized_is_turned_away(
    data: Seq<u8>,
    declared_top: Option<Seq<char>>,
    sniffed: Seq<char>,
    record: PhotoRecord,
    policy: RetryPolicy,
    stores: Stores,
    replies: Seq<Reply>,
)
    requires
        data.len() > MAX_UPLOAD_BYTES,
    ensures
        attempt(data, declared_top, sniffed, record, policy, stores, replies) == (
            Some(Err::<Seq<char>, UploadError>(UploadError::PayloadTooLarge)),
            stores,
        ),
        answer_of(attempt(data, declared_top, sniffed, record, policy, stores, replies).0->0).0
            == 413,
{
}

/// Compensation. An upload that fails on the record leaves both stores as
/// they were. One that fails on the blob leaves the blob store as it was;
/// where it reports nothing left over, the metadata table no longer holds
/// a record for the image, so a lookup misses it; where the lookup or
/// the compensating delete failed, it reports the record as left over, and
/// the record is still there.
pub proof fn failed_upload_is_undone(
    record: PhotoRecord,
    data: Seq<u8>,
    policy: RetryPolicy,
    stores: Stores,
    replies: Seq<Reply>,
)
    requires
        truthful(UploadView::admitted(record, data, policy), stores, replies),
    ensures
        ({
            let (upload, after) = run(UploadView::admitted(record, data, policy), stores, replies);
            &&& upload.outcome() == Some(
                Err::<Seq<char>, UploadError>(UploadError::MetadataWriteFailed),
            ) ==> after == stores
            &&& upload.outcome() == Some(Err::<Seq<char>, UploadError>(UploadError::BlobWriteFailed))
                ==> {
                &&& after.blobs == stores.blobs
                &&& upload.leftover() is None ==> !after.records.contains_key(record.id)
                &&& upload.leftover() is Some ==> upload.leftover() == Some(record) && after.holds(
                    record,
                )
            }
        }),
{
    let upload = UploadView::admitted(record, data, policy);
    run_stays_in_step(upload, stores, replies, stores);
    run_takes_back_truthfully(upload, stores, replies);
}

/// Consistency. An upload for an image that neither store knows ends in
/// one of three ways, as long as the stores answer truthfully: with record
/// and blob both stored; with neither; or, reported as left over, with a
/// record that has no blob. It never leaves a blob without a record, and
/// never a record without a blob that it does not report.
pub proof fn finished_upload_is_paired_or_reported(
    record: PhotoRecord,
    data: Seq<u8>,
    policy: RetryPolicy,
    stores: Stores,
    replies: Seq<Reply>,
)
    requires
        stores.forgot(record.id),
        truthful(UploadView::admitted(record, data, policy), stores, replies),
        run(UploadView::admitted(record, data, policy), stores, replies).0.finished(),
    ensures
        ({
            let (upload, after) = run(UploadView::admitted(record, data, policy), stores, replies);
            if upload.outcome() == Some(Ok::<Seq<char>, UploadError>(locator_text(record.id))) {
                after.holds(record) && after.blobs.contains_pair(record.id, data)
            } else if upload.leftover() is None {
                after.forgot(record.id)
            } else {
                after.holds(record) && !after.blobs.contains_key(record.id)
            }
        }),
{
    let upload = UploadView::admitted(record, data, policy);
    run_stays_in_step(upload, stores, replies, stores);
    run_takes_back_truthfully(upload, stores, replies);
}

/// Order and budget. Whenever an upload asks for its blob to be written,
/// its record is already in the metadata table; and no write is asked for
/// more often than the retry policy allows.
pub proof fn record_is_written_before_blob(
    record: PhotoRecord,
    data: Seq<u8>,
    policy: RetryPolicy,
    stores: Stores,
    replies: Seq<Reply>,
)
    ensures
        ({
            let (upload, after) = run(UploadView::admitted(record, data, policy), stores, replies);
            match upload.phase {
                UploadPhase::WritingRecord { retried } => retried < policy.attempts(),
                UploadPhase::WritingBlob { retried } => retried < policy.attempts() && after.holds(
                    record,
                ),
                _ => true,
            }
        }),
{
    run_stays_in_step(UploadView::admitted(record, data, policy), stores, replies, stores);
}

/// An upload changes nothing in either store but the entries of its own
/// image.
pub proof fn upload_touches_only_its_image(
    record: PhotoRecord,
    data: Seq<u8>,
    policy: RetryPolicy,
    stores: Stores,
    replies: Seq<Reply>,
    other: u128,
)
    requires
        other != record.id,
    ensures
        run(UploadView::admitted(record, data, policy), stores, replies).1.agrees_on(stores, other),
{
    let upload = UploadView::admitted(record, data, policy);
    run_stays_in_step(upload, stores, replies, stores);
}

} // verus!
