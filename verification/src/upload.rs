//! The upload coordinator: one image, written to both stores in two
//! phases, the record first and the blob second, with a compensating
//! delete of the record when the blob cannot be written.
//!
//! An [`Upload`] is a small state machine. It names the next store call,
//! takes the store's reply, and ends with a locator or an error. No store
//! is touched before an upload has been admitted.

use vstd::prelude::*;
use crate::clock::unix_now;
use crate::locator::{is_random_uuid, locator_text, public_locator, random_uuid};
use crate::media::{
    declared_top_level, inspect, is_verdict, refusal, screen, text_of, UploadError,
};
use crate::record::PhotoRecord;
use crate::retry::{RetryPolicy, Verdict};
use crate::store::{Command, Reply, StoreCall, Stores};

verus! {

/// Where an upload stands.
#[derive(Clone, Copy, PartialEq, Eq, Debug, Structural)]
pub enum UploadPhase {
    /// The record is being written; `retried` attempts have failed so far.
    WritingRecord { retried: u32 },
    /// The record is in; the blob is being written.
    WritingBlob { retried: u32 },
    /// The blob could not be written; the record is being read back.
    FindingRecord,
    /// The record was read back and is being deleted again.
    RemovingRecord,
    /// Both writes succeeded.
    Stored,
    /// The record could not be written. Nothing was stored.
    RecordRefused,
    /// The blob could not be written. `record_left` tells whether the
    /// record may still be in the metadata table because it could not be
    /// read back or deleted.
    BlobRefused { record_left: bool },
}

/// An upload as specifications see it.
pub struct UploadView {
    pub record: PhotoRecord,
    pub data: Seq<u8>,
    pub policy: RetryPolicy,
    pub phase: UploadPhase,
}

impl UploadView {
    /// An admitted upload before its first store call.
    pub open spec fn admitted(record: PhotoRecord, data: Seq<u8>, policy: RetryPolicy) -> UploadView {
        UploadView { record, data, policy, phase: UploadPhase::WritingRecord { retried: 0 } }
    }

    /// Whether this is an upload as [`Upload::begin`] makes it and
    /// [`Upload::resume`] keeps it: no write has been repeated more often
    /// than the retry policy allows.
    pub open spec fn well_formed(self) -> bool {
        match self.phase {
            UploadPhase::WritingRecord { retried } => retried <= self.policy.retries,
            UploadPhase::WritingBlob { retried } => retried <= self.policy.retries,
            _ => true,
        }
    }

    /// Whether the upload has ended.
    pub open spec fn finished(self) -> bool {
        self.command() is None
    }

    /// The store call that the upload waits for, with the pause owed
    /// before it; `None` once the upload has ended.
    pub open spec fn command(self) -> Option<Command> {
        match self.phase {
            UploadPhase::WritingRecord { retried } => Some(
                Command {
                    wait_ms: self.policy.pause(retried),
                    call: StoreCall::InsertRecord { record: self.record },
                },
            ),
            UploadPhase::WritingBlob { retried } => Some(
                Command {
                    wait_ms: self.policy.pause(retried),
                    call: StoreCall::WriteBlob { id: self.record.id },
                },
            ),
            UploadPhase::FindingRecord => Some(
                Command { wait_ms: 0, call: StoreCall::FindRecord { id: self.record.id } },
            ),
            UploadPhase::RemovingRecord => Some(
                Command { wait_ms: 0, call: StoreCall::DeleteRecord { id: self.record.id } },
            ),
            _ => None,
        }
    }

    /// The phase that follows when the pending call is answered with
    /// `reply`. A write counts only when it is `Done` and is repeated as
    /// the retry policy allows. The compensating lookup and delete are
    /// made once each.
    pub open spec fn phase_after(self, reply: Reply) -> UploadPhase {
        match self.phase {
            UploadPhase::WritingRecord { retried } => match self.policy.verdict(
                retried,
                reply == Reply::Done,
            ) {
                Verdict::Succeeded => UploadPhase::WritingBlob { retried: 0 },
                Verdict::RetryAfter { .. } => UploadPhase::WritingRecord {
                    retried: (retried + 1) as u32,
                },
                Verdict::Exhausted => UploadPhase::RecordRefused,
            },
            UploadPhase::WritingBlob { retried } => match self.policy.verdict(
                retried,
                reply == Reply::Done,
            ) {
                Verdict::Succeeded => UploadPhase::Stored,
                Verdict::RetryAfter { .. } => UploadPhase::WritingBlob {
                    retried: (retried + 1) as u32,
                },
                Verdict::Exhausted => UploadPhase::FindingRecord,
            },
            UploadPhase::FindingRecord => match reply {
                Reply::Done => UploadPhase::RemovingRecord,
                Reply::Missing => UploadPhase::BlobRefused { record_left: false },
                Reply::Failed => UploadPhase::BlobRefused { record_left: true },
            },
            UploadPhase::RemovingRecord => UploadPhase::BlobRefused {
                record_left: reply == Reply::Failed,
            },
            ended => ended,
        }
    }

    /// The upload after the pending call was answered with `reply`.
    pub open spec fn next(self, reply: Reply) -> UploadView {
        UploadView { phase: self.phase_after(reply), ..self }
    }

    /// The stores after the pending call was answered with `reply`.
    pub open spec fn effect(self, reply: Reply, stores: Stores) -> Stores {
        match self.command() {
            Some(command) => stores.after(command.call, self.data, reply),
            None => stores,
        }
    }

    /// How the upload ended: the locator of the stored image or the
    /// error; `None` while it is still under way.
    pub open spec fn outcome(self) -> Option<Result<Seq<char>, UploadError>> {
        match self.phase {
            UploadPhase::Stored => Some(Ok(locator_text(self.record.id))),
            UploadPhase::RecordRefused => Some(Err(UploadError::MetadataWriteFailed)),
            UploadPhase::BlobRefused { .. } => Some(Err(UploadError::BlobWriteFailed)),
            _ => None,
        }
    }

    /// The record that a failed upload may have left in the metadata
    /// table without a blob, for the reaper or an operator to deal with.
    pub open spec fn leftover(self) -> Option<PhotoRecord> {
        match self.phase {
            UploadPhase::BlobRefused { record_left: true } => Some(self.record),
            _ => None,
        }
    }
}

/// How an upload ended, with the locator as its text.
pub open spec fn shown(outcome: Result<String, UploadError>) -> Result<Seq<char>, UploadError> {
    match outcome {
        Ok(locator) => Ok(locator@),
        Err(error) => Err(error),
    }
}

/// An admitted upload on its way through the two stores.
pub struct Upload {
    record: PhotoRecord,
    data: Vec<u8>,
    policy: RetryPolicy,
    phase: UploadPhase,
}

impl View for Upload {
    type V = UploadView;

    closed spec fn view(&self) -> UploadView {
        UploadView { record: self.record, data: self.data@, policy: self.policy, phase: self.phase }
    }
}

/// Whether `admission` is what comes of screening an upload of `data`
/// with the given declared top-level type and sniffed type, and of giving
/// it, if it passes, the identifier `id` and the upload time `now`.
pub open spec fn is_admission(
    admission: Result<Upload, UploadError>,
    data: Seq<u8>,
    declared_top: Option<Seq<char>>,
    sniffed: Seq<char>,
    id: u128,
    now: i64,
    policy: RetryPolicy,
) -> bool {
    match refusal(data.len(), declared_top, sniffed) {
        Some(error) => admission == Err::<Upload, UploadError>(error),
        None => admission matches Ok(upload) && upload@ == UploadView::admitted(
            PhotoRecord { id, uploaded_at: now },
            data,
            policy,
        ) && upload@.well_formed(),
    }
}

impl Upload {
    /// Admits an upload or turns it away, from what is known of it: the
    /// bytes, the top-level type of the declared content type, the media
    /// type that the bytes were sniffed as, the identifier drawn for it
    /// and the time. An upload that is turned away asks for no store call.
    pub fn begin(
        data: Vec<u8>,
        declared_top: Option<&str>,
        sniffed: &str,
        id: u128,
        now: i64,
        policy: RetryPolicy,
    ) -> (admission: Result<Upload, UploadError>)
        ensures
            is_admission(admission, data@, text_of(declared_top), sniffed@, id, now, policy),
    {
        match screen(data.len(), declared_top, sniffed) {
            Err(error) => Err(error),
            Ok(()) => Ok(
                Upload {
                    record: PhotoRecord { id, uploaded_at: now },
                    data,
                    policy,
                    phase: UploadPhase::WritingRecord { retried: 0 },
                },
            ),
        }
    }

    /// Admits an upload or turns it away, from what arrived: the bytes
    /// and the content type as the sender declared it. The bytes are
    /// sniffed, and an admitted upload is given a fresh random identifier
    /// and the current time.
    ///
    /// Whatever sniffer, generator and clock answer, the result is the one
    /// that [`Upload::begin`] gives for some sniffed type, identifier and
    /// time, with the declared type read by `mime`.
    pub fn accept(data: Vec<u8>, declared: Option<&str>, policy: RetryPolicy) -> (admission: Result<
        Upload,
        UploadError,
    >)
        ensures
            exists|sniffed: Seq<char>, id: u128, now: i64|
                (#[trigger] is_admission(
                    admission,
                    data@,
                    declared_top_level(declared),
                    sniffed,
                    id,
                    now,
                    policy,
                )) && (admission is Ok ==> is_random_uuid(id) && now >= 0),
    {
        let ghost bytes = data@;
        let ghost top = declared_top_level(declared);
        let verdict = inspect(&data, declared);
        match verdict {
            Err(error) => {
                let ghost sniffed = choose|sniffed: Seq<char>|
                    is_verdict(verdict, bytes.len(), top, sniffed);
                let admission = Err(error);
                assert(is_admission(admission, bytes, top, sniffed, 0, 0, policy));
                admission
            },
            Ok(()) => {
                let ghost sniffed = choose|sniffed: Seq<char>|
                    is_verdict(verdict, bytes.len(), top, sniffed);
                let id: u128 = random_uuid();
                let now: i64 = unix_now();
                let admission = Ok(
                    Upload {
                        record: PhotoRecord { id, uploaded_at: now },
                        data,
                        policy,
                        phase: UploadPhase::WritingRecord { retried: 0 },
                    },
                );
                assert(is_admission(admission, bytes, top, sniffed, id, now, policy));
                admission
            },
        }
    }

    /// The record that this upload writes.
    pub fn record(&self) -> (record: PhotoRecord)
        ensures
            record == self@.record,
    {
        self.record
    }

    /// The bytes that this upload writes.
    pub fn data(&self) -> (data: &Vec<u8>)
        ensures
            data@ == self@.data,
    {
        &self.data
    }

    /// The store call to make next, or `None` once the upload has ended.
    pub fn command(&self) -> (command: Option<Command>)
        ensures
            command == self@.command(),
    {
        match self.phase {
            UploadPhase::WritingRecord { retried } => Some(
                Command {
                    wait_ms: self.policy.pause_before(retried),
                    call: StoreCall::InsertRecord { record: self.record },
                },
            ),
            UploadPhase::WritingBlob { retried } => Some(
                Command {
                    wait_ms: self.policy.pause_before(retried),
                    call: StoreCall::WriteBlob { id: self.record.id },
                },
            ),
            UploadPhase::FindingRecord => Some(
                Command { wait_ms: 0, call: StoreCall::FindRecord { id: self.record.id } },
            ),
            UploadPhase::RemovingRecord => Some(
                Command { wait_ms: 0, call: StoreCall::DeleteRecord { id: self.record.id } },
            ),
            _ => None,
        }
    }

    /// Takes the store's reply to the pending call and moves on. A reply
    /// given to an upload that has ended changes nothing.
    pub fn resume(&mut self, reply: Reply)
        ensures
            final(self)@ == old(self)@.next(reply),
            old(self)@.well_formed() ==> final(self)@.well_formed(),
    {
        let done = match reply {
            Reply::Done => true,
            _ => false,
        };
        let phase = match self.phase {
            UploadPhase::WritingRecord { retried } => match self.policy.judge(retried, done) {
                Verdict::Succeeded => UploadPhase::WritingBlob { retried: 0 },
                Verdict::RetryAfter { .. } => UploadPhase::WritingRecord { retried: retried + 1 },
                Verdict::Exhausted => UploadPhase::RecordRefused,
            },
            UploadPhase::WritingBlob { retried } => match self.policy.judge(retried, done) {
                Verdict::Succeeded => UploadPhase::Stored,
                Verdict::RetryAfter { .. } => UploadPhase::WritingBlob { retried: retried + 1 },
                Verdict::Exhausted => UploadPhase::FindingRecord,
            },
            UploadPhase::FindingRecord => match reply {
                Reply::Done => UploadPhase::RemovingRecord,
                Reply::Missing => UploadPhase::BlobRefused { record_left: false },
                Reply::Failed => UploadPhase::BlobRefused { record_left: true },
            },
            UploadPhase::RemovingRecord => match reply {
                Reply::Failed => UploadPhase::BlobRefused { record_left: true },
                _ => UploadPhase::BlobRefused { record_left: false },
            },
            ended => ended,
        };
        self.phase = phase;
    }

    /// How the upload ended: the locator of the stored image or the
    /// error; `None` while it is still under way.
    pub fn outcome(&self) -> (outcome: Option<Result<String, UploadError>>)
        ensures
            outcome is Some == self@.outcome() is Some,
            outcome matches Some(ended) ==> self@.outcome() == Some(shown(ended)),
    {
        match self.phase {
            UploadPhase::Stored => Some(Ok(public_locator(self.record.id))),
            UploadPhase::RecordRefused => Some(Err(UploadError::MetadataWriteFailed)),
            UploadPhase::BlobRefused { .. } => Some(Err(UploadError::BlobWriteFailed)),
            _ => None,
        }
    }

    /// The record that a failed upload may have left in the metadata
    /// table without a blob.
    pub fn leftover(&self) -> (record: Option<PhotoRecord>)
        ensures
            record == self@.leftover(),
    {
        match self.phase {
            UploadPhase::BlobRefused { record_left: true } => Some(self.record),
            _ => None,
        }
    }
}

} // verus!
